use vstd::prelude::*;
use vstd::string::StringSliceAdditionalSpecFns;

use crate::bcos_api::{
    lemma_nonce_len, nonce_text, prepared_transaction, sign_with_nonce, signable,
    signed_transaction_text, BcosApi,
};
use crate::entity::{law_signed_fields_only, Transaction};
use crate::error::BcosError;
use crate::utils::{is_private_key_text, private_key_bytes};

verus! {

/// A signer of transactions for one chain and group.
#[derive(Debug)]
pub struct BcosClientApi {
    pub group_id: String,
    pub chain_id: String,
}

impl BcosClientApi {
    /// A signer for the given group and chain, `group0` and `chain0` when
    /// none is given.
    pub fn new(group_id: Option<&str>, chain_id: Option<&str>) -> (api: Self)
        ensures
            api.group_id@ == (match group_id {
                Some(g) => g@,
                None => "group0"@,
            }),
            api.chain_id@ == (match chain_id {
                Some(c) => c@,
                None => "chain0"@,
            }),
    {
        let group_id = match group_id {
            Some(g) => g,
            None => "group0",
        };
        let chain_id = match chain_id {
            Some(c) => c,
            None => "chain0",
        };
        BcosClientApi { group_id: group_id.to_owned(), chain_id: chain_id.to_owned() }
    }

    /// Signs `tx` for this signer's chain and group with a fresh nonce, and
    /// gives the text of the signed transaction.
    pub fn sign_data(&self, private_key: &str, tx: Transaction) -> (r: Result<String, BcosError>)
        requires
            is_private_key_text(private_key.spec_bytes()),
            signable(tx, self.chain_id, self.group_id),
        ensures
            r matches Ok(s) && exists|nonce: String|
                #![trigger prepared_transaction(tx, nonce, self.chain_id, self.group_id)]
                (exists|b: Seq<u8>| b.len() == 32 && nonce@ == nonce_text(b)) && s@
                    == signed_transaction_text(
                    prepared_transaction(tx, nonce, self.chain_id, self.group_id),
                    private_key_bytes(private_key.spec_bytes()),
                ),
    {
        let nonce = BcosApi::gen_nonce();
        proof {
            let b = choose|b: Seq<u8>| b.len() == 32 && nonce@ == nonce_text(b);
            lemma_nonce_len(b);
        }
        let raw_tx_data = sign_with_nonce(&self.chain_id, &self.group_id, private_key, tx, nonce);
        Ok(raw_tx_data)
    }
}


/// The two signers agree: a `BcosApi` and a `BcosClientApi` for the same
/// chain and group that draw the same nonce text sign a transaction with a
/// key into the same text.
pub proof fn law_signers_agree(
    api: BcosApi,
    client: BcosClientApi,
    tx: Transaction,
    api_nonce: String,
    client_nonce: String,
    secret: Seq<u8>,
)
    requires
        api.chain_id@ == client.chain_id@,
        api.group_id@ == client.group_id@,
        api_nonce@ == client_nonce@,
    ensures
        signed_transaction_text(
            prepared_transaction(tx, api_nonce, api.chain_id, api.group_id),
            secret,
        ) == signed_transaction_text(
            prepared_transaction(tx, client_nonce, client.chain_id, client.group_id),
            secret,
        ),
{
    let a = prepared_transaction(tx, api_nonce, api.chain_id, api.group_id);
    let c = prepared_transaction(tx, client_nonce, client.chain_id, client.group_id);
    law_signed_fields_only(a, c);
}

} // verus!
