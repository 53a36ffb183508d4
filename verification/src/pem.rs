use vstd::prelude::*;

verus! {

/// The DER bytes of the `CERTIFICATE` sections of a PEM text, in order, as
/// `rustls_pemfile::certs` reads them; none when it reports an error.
pub uninterp spec fn pem_certificates(pem: Seq<u8>) -> Option<Seq<Seq<u8>>>;

/// The DER bytes of the `PRIVATE KEY` (PKCS #8) sections of a PEM text, in
/// order, as `rustls_pemfile::pkcs8_private_keys` reads them; none when it
/// reports an error.
pub uninterp spec fn pem_pkcs8_keys(pem: Seq<u8>) -> Option<Seq<Seq<u8>>>;

/// The views of a list of byte vectors.
pub open spec fn byte_vec_views(v: Seq<Vec<u8>>) -> Seq<Seq<u8>> {
    v.map_values(|b: Vec<u8>| b@)
}

/// Reads the certificates of a PEM text with `rustls_pemfile::certs`.
/// Claimed of it: the outcome is a function of the bytes alone.
#[verifier::external_body]
fn read_pem_certs(pem: &[u8]) -> (res: Option<Vec<Vec<u8>>>)
    ensures
        res is None <==> pem_certificates(pem@) is None,
        res matches Some(v) ==> pem_certificates(pem@) == Some(byte_vec_views(v@)),
{
    let mut reader: &[u8] = pem;
    rustls_pemfile::certs(&mut reader).ok()
}

/// Reads the PKCS #8 private keys of a PEM text with
/// `rustls_pemfile::pkcs8_private_keys`. Claimed of it: the outcome is a
/// function of the bytes alone.
#[verifier::external_body]
fn read_pem_pkcs8_keys(pem: &[u8]) -> (res: Option<Vec<Vec<u8>>>)
    ensures
        res is None <==> pem_pkcs8_keys(pem@) is None,
        res matches Some(v) ==> pem_pkcs8_keys(pem@) == Some(byte_vec_views(v@)),
{
    let mut reader: &[u8] = pem;
    rustls_pemfile::pkcs8_private_keys(&mut reader).ok()
}

/// The certificates (DER) of a PEM text; none when it cannot be read.
pub fn load_certs(pem: &[u8]) -> (certs: Option<Vec<Vec<u8>>>)
    ensures
        certs is None <==> pem_certificates(pem@) is None,
        certs matches Some(v) ==> pem_certificates(pem@) == Some(byte_vec_views(v@)),
{
    read_pem_certs(pem)
}

/// The first PKCS #8 private key (DER) of a PEM text; none when the text
/// cannot be read or holds no such key.
pub fn load_private_key(pem: &[u8]) -> (key: Option<Vec<u8>>)
    ensures
        key is Some <==> (pem_pkcs8_keys(pem@) matches Some(keys) && keys.len() > 0),
        key matches Some(k) ==> k@ == pem_pkcs8_keys(pem@)->0[0],
{
    match read_pem_pkcs8_keys(pem) {
        Some(keys) => {
            if keys.len() > 0 {
                let first = keys[0].clone();
                assert(byte_vec_views(keys@)[0] == keys@[0]@);
                Some(first)
            } else {
                None
            }
        },
        None => None,
    }
}

} // verus!
