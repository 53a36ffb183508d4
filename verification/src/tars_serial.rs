use vstd::prelude::*;

use vstd::string::StringSliceAdditionalSpecFns;

use crate::bytes::{
    be_bytes, be_value, byte_modulus, lemma_be_bytes_len, lemma_be_value_of_bytes, lemma_byte_moduli,
    push_be,
};

verus! {

/// The type tag that heads every Tars field.
#[derive(Debug, Clone, Copy, PartialEq, Eq)]
pub enum TarsType {
    Char,
    Short,
    Int32,
    Int64,
    Float,
    Double,
    String1,
    String4,
    KeyValueMap,
    List,
    StructBegin,
    StructEnd,
    ZeroTag,
    SimpleList,
}

impl TarsType {
    /// The numeric code of the type on the wire.
    pub open spec fn wire_code(self) -> u8 {
        match self {
            TarsType::Char => 0,
            TarsType::Short => 1,
            TarsType::Int32 => 2,
            TarsType::Int64 => 3,
            TarsType::Float => 4,
            TarsType::Double => 5,
            TarsType::String1 => 6,
            TarsType::String4 => 7,
            TarsType::KeyValueMap => 8,
            TarsType::List => 9,
            TarsType::StructBegin => 10,
            TarsType::StructEnd => 11,
            TarsType::ZeroTag => 12,
            TarsType::SimpleList => 13,
        }
    }

    /// Returns the numeric code of the type on the wire.
    pub fn code(self) -> (c: u8)
        ensures
            c == self.wire_code(),
    {
        match self {
            TarsType::Char => 0,
            TarsType::Short => 1,
            TarsType::Int32 => 2,
            TarsType::Int64 => 3,
            TarsType::Float => 4,
            TarsType::Double => 5,
            TarsType::String1 => 6,
            TarsType::String4 => 7,
            TarsType::KeyValueMap => 8,
            TarsType::List => 9,
            TarsType::StructBegin => 10,
            TarsType::StructEnd => 11,
            TarsType::ZeroTag => 12,
            TarsType::SimpleList => 13,
        }
    }
}

/// The longest string, in bytes, that a Tars string field may carry.
pub const TARS_MAX_STRING_LENGTH: usize = 104857600;

/// The head of a field: the type code in the low nibble and the tag in the
/// high nibble when the tag is below 15; otherwise the type code plus 240,
/// followed by the tag in a byte of its own.
pub open spec fn head_bytes(t: TarsType, tag: u8) -> Seq<u8> {
    if tag < 15 {
        seq![(t.wire_code() + tag * 16) as u8]
    } else {
        seq![(t.wire_code() + 240) as u8, tag]
    }
}

/// A one-byte integer field: a bare `ZeroTag` head for zero, else a `Char`
/// head followed by the byte.
#[verifier::opaque]
pub open spec fn char_field(n: u8, tag: u8) -> Seq<u8> {
    if n == 0 {
        head_bytes(TarsType::ZeroTag, tag)
    } else {
        head_bytes(TarsType::Char, tag).push(n)
    }
}

/// A 16-bit integer field: the one-byte form when the value fits in an
/// `i8`, else a `Short` head and the two big-endian bytes of the value.
#[verifier::opaque]
pub open spec fn short_field(n: i16, tag: u8) -> Seq<u8> {
    if -128 <= n <= 127 {
        char_field(n as u8, tag)
    } else {
        head_bytes(TarsType::Short, tag) + be_bytes(n as u16 as int, 2)
    }
}

/// A 32-bit integer field: the shortest of the narrower forms that holds
/// the value, else an `Int32` head and four big-endian bytes.
#[verifier::opaque]
pub open spec fn int32_field(n: i32, tag: u8) -> Seq<u8> {
    if -32768 <= n <= 32767 {
        short_field(n as i16, tag)
    } else {
        head_bytes(TarsType::Int32, tag) + be_bytes(n as u32 as int, 4)
    }
}

/// A 64-bit integer field: the shortest of the narrower forms that holds
/// the value, else an `Int64` head and eight big-endian bytes.
#[verifier::opaque]
pub open spec fn int64_field(n: i64, tag: u8) -> Seq<u8> {
    if -2147483648 <= n <= 2147483647 {
        int32_field(n as i32, tag)
    } else {
        head_bytes(TarsType::Int64, tag) + be_bytes(n as u64 as int, 8)
    }
}

/// A string field over the UTF-8 bytes `s`: a `String4` head and a four-byte
/// big-endian length when `s` is longer than 255 bytes, else a `String1`
/// head and a one-byte length; then the bytes themselves.
#[verifier::opaque]
pub open spec fn string_field(s: Seq<u8>, tag: u8) -> Seq<u8> {
    if s.len() > 255 {
        head_bytes(TarsType::String4, tag) + be_bytes(s.len() as int, 4) + s
    } else {
        head_bytes(TarsType::String1, tag) + seq![s.len() as u8] + s
    }
}

/// A byte-list field: a `SimpleList` head, a `Char` head with tag 0, the
/// length as a 32-bit integer field with tag 0, then the bytes.
#[verifier::opaque]
pub open spec fn bytes_field(data: Seq<u8>, tag: u8) -> Seq<u8> {
    head_bytes(TarsType::SimpleList, tag) + head_bytes(TarsType::Char, 0) + int32_field(
        data.len() as i32,
        0,
    ) + data
}

/// A buffer that Tars-encoded fields are appended to.
pub struct TarsOutputStream {
    pub buf: Vec<u8>,
}

impl TarsOutputStream {
    /// An empty stream.
    pub fn new() -> (os: Self)
        ensures
            os.buf@ == Seq::<u8>::empty(),
    {
        TarsOutputStream { buf: Vec::with_capacity(128) }
    }

    /// Makes room for `len` bytes in all: twice `len`, and at least 128.
    fn reserve_buf(&mut self, len: usize)
        ensures
            final(self).buf@ == old(self).buf@,
    {
        if vec_capacity(&self.buf) < len {
            let mut new_len = if len <= usize::MAX / 2 {
                len * 2
            } else {
                usize::MAX
            };
            if new_len < 128 {
                new_len = 128;
            }
            let cap = vec_capacity(&self.buf);
            if cap < new_len {
                self.buf.reserve(new_len - cap);
            }
        }
    }

    /// Appends the head of a field of type `t` with tag `tag`.
    pub fn write_to_head(&mut self, t: TarsType, tag: u8)
        ensures
            final(self).buf@ == old(self).buf@ + head_bytes(t, tag),
    {
        let code = t.code();
        if tag < 15 {
            self.buf.push(code + (tag * 16));
        } else {
            self.buf.push(code + 240);
            self.buf.push(tag);
        }
        assert(self.buf@ =~= old(self).buf@ + head_bytes(t, tag));
    }

    fn write_char_type_buf(&mut self, val: u8)
        ensures
            final(self).buf@ == old(self).buf@.push(val),
    {
        let len = self.buf.len();
        if len < usize::MAX {
            self.reserve_buf(len + 1);
        }
        self.buf.push(val);
    }

    /// Appends a one-byte integer field (see `char_field`).
    pub fn write_char(&mut self, n: u8, tag: u8)
        ensures
            final(self).buf@ == old(self).buf@ + char_field(n, tag),
    {
        reveal(char_field);
        if n == 0 {
            self.write_to_head(TarsType::ZeroTag, tag);
        } else {
            self.write_to_head(TarsType::Char, tag);
            self.write_char_type_buf(n);
            assert(self.buf@ =~= old(self).buf@ + char_field(n, tag));
        }
    }

    /// Appends a 16-bit integer field (see `short_field`).
    pub fn write_short(&mut self, n: i16, tag: u8)
        ensures
            final(self).buf@ == old(self).buf@ + short_field(n, tag),
    {
        reveal(short_field);
        if n >= -128 && n <= 127 {
            self.write_char(n as u8, tag);
        } else {
            self.write_to_head(TarsType::Short, tag);
            let len = self.buf.len();
            if len <= usize::MAX - 2 {
                self.reserve_buf(len + 2);
            }
            push_be(&mut self.buf, n as u16 as u64, 2);
            assert(self.buf@ =~= old(self).buf@ + short_field(n, tag));
        }
    }

    /// Appends a 32-bit integer field (see `int32_field`).
    pub fn write_int32(&mut self, n: i32, tag: u8)
        ensures
            final(self).buf@ == old(self).buf@ + int32_field(n, tag),
    {
        reveal(int32_field);
        if n >= -32768 && n <= 32767 {
            self.write_short(n as i16, tag);
        } else {
            self.write_to_head(TarsType::Int32, tag);
            let len = self.buf.len();
            if len <= usize::MAX - 4 {
                self.reserve_buf(len + 4);
            }
            push_be(&mut self.buf, n as u32 as u64, 4);
            assert(self.buf@ =~= old(self).buf@ + int32_field(n, tag));
        }
    }

    /// Appends a 64-bit integer field (see `int64_field`).
    pub fn write_int64(&mut self, n: i64, tag: u8)
        ensures
            final(self).buf@ == old(self).buf@ + int64_field(n, tag),
    {
        reveal(int64_field);
        if n >= (-2147483647 - 1) && n <= 2147483647 {
            self.write_int32(n as i32, tag);
        } else {
            self.write_to_head(TarsType::Int64, tag);
            let len = self.buf.len();
            if len <= usize::MAX - 8 {
                self.reserve_buf(len + 8);
            }
            push_be(&mut self.buf, n as u64, 8);
            assert(self.buf@ =~= old(self).buf@ + int64_field(n, tag));
        }
    }

    /// Appends a `Float` field whose value has the IEEE-754 bit pattern
    /// `bits`: the head, then the four big-endian bytes of the bits.
    pub fn write_float_bits(&mut self, bits: u32, tag: u8)
        ensures
            final(self).buf@ == old(self).buf@ + head_bytes(TarsType::Float, tag) + be_bytes(
                bits as int,
                4,
            ),
    {
        self.write_to_head(TarsType::Float, tag);
        let len = self.buf.len();
        if len <= usize::MAX - 4 {
            self.reserve_buf(len + 4);
        }
        push_be(&mut self.buf, bits as u64, 4);
    }

    /// Appends a `Double` field whose value has the IEEE-754 bit pattern
    /// `bits`: the head, then the eight big-endian bytes of the bits.
    pub fn write_double_bits(&mut self, bits: u64, tag: u8)
        ensures
            final(self).buf@ == old(self).buf@ + head_bytes(TarsType::Double, tag) + be_bytes(
                bits as int,
                8,
            ),
    {
        self.write_to_head(TarsType::Double, tag);
        let len = self.buf.len();
        if len <= usize::MAX - 8 {
            self.reserve_buf(len + 8);
        }
        push_be(&mut self.buf, bits, 8);
    }

    /// Appends a string field over the UTF-8 bytes of `s` (see
    /// `string_field`). Strings longer than `TARS_MAX_STRING_LENGTH` bytes
    /// are not accepted.
    pub fn write_string(&mut self, s: &str, tag: u8)
        requires
            s.spec_bytes().len() <= TARS_MAX_STRING_LENGTH,
        ensures
            final(self).buf@ == old(self).buf@ + string_field(s.spec_bytes(), tag),
    {
        reveal(string_field);
        let bytes = s.as_bytes();
        let len = bytes.len();
        if len > 255 {
            self.write_to_head(TarsType::String4, tag);
            let cur = self.buf.len();
            if cur <= usize::MAX - 4 - len {
                self.reserve_buf(cur + 4 + len);
            }
            push_be(&mut self.buf, len as u64, 4);
        } else {
            self.write_to_head(TarsType::String1, tag);
            let cur = self.buf.len();
            if cur <= usize::MAX - 1 - len {
                self.reserve_buf(cur + 1 + len);
            }
            self.buf.push(len as u8);
        }
        append_bytes(&mut self.buf, bytes);
        assert(self.buf@ =~= old(self).buf@ + string_field(s.spec_bytes(), tag));
    }

    /// Appends a byte-list field (see `bytes_field`).
    pub fn write_bytes(&mut self, data: &[u8], tag: u8)
        ensures
            final(self).buf@ == old(self).buf@ + bytes_field(data@, tag),
    {
        reveal(bytes_field);
        self.write_to_head(TarsType::SimpleList, tag);
        self.write_to_head(TarsType::Char, 0);
        self.write_int32(data.len() as i32, 0);
        let cur = self.buf.len();
        if cur <= usize::MAX - data.len() {
            self.reserve_buf(cur + data.len());
        }
        append_bytes(&mut self.buf, data);
        assert(self.buf@ =~= old(self).buf@ + bytes_field(data@, tag));
    }

    /// Appends the UTF-8 bytes of `s` as they are, with no head.
    pub fn write_unknown(&mut self, s: &str)
        ensures
            final(self).buf@ == old(self).buf@ + s.spec_bytes(),
    {
        append_bytes(&mut self.buf, s.as_bytes());
    }

    /// Appends the UTF-8 bytes of `s` between a `StructBegin` and a
    /// `StructEnd` head, both with tag 0.
    pub fn write_unknown_v2(&mut self, s: &str)
        ensures
            final(self).buf@ == old(self).buf@ + head_bytes(TarsType::StructBegin, 0)
                + s.spec_bytes() + head_bytes(TarsType::StructEnd, 0),
    {
        self.write_to_head(TarsType::StructBegin, 0);
        append_bytes(&mut self.buf, s.as_bytes());
        self.write_to_head(TarsType::StructEnd, 0);
        assert(self.buf@ =~= old(self).buf@ + head_bytes(TarsType::StructBegin, 0)
            + s.spec_bytes() + head_bytes(TarsType::StructEnd, 0));
    }
}

/// Appends the bytes of `data` to `buf`.
pub fn append_bytes(buf: &mut Vec<u8>, data: &[u8])
    ensures
        final(buf)@ == old(buf)@ + data@,
{
    buf.extend_from_slice(data);
    assert(buf@ =~= old(buf)@ + data@);
}

/// The number of elements the vector can hold without reallocating.
#[verifier::external_body]
fn vec_capacity(v: &Vec<u8>) -> usize {
    v.capacity()
}


/// The bytes written for an integer depend on its value, not on the writer:
/// writing a value with a wider integer writer gives what the narrower one
/// gives.
pub proof fn law_integer_width_by_value(n8: u8, n16: i16, n32: i32, tag: u8)
    ensures
        n8 <= 127 ==> short_field(n8 as i16, tag) == char_field(n8, tag),
        int32_field(n16 as i32, tag) == short_field(n16, tag),
        int64_field(n32 as i64, tag) == int32_field(n32, tag),
{
    reveal(short_field);
    reveal(int32_field);
    reveal(int64_field);
    assert(n8 <= 127 ==> (n8 as i16) as u8 == n8) by (bit_vector);
    assert((n16 as i32) as i16 == n16) by (bit_vector);
    assert((n32 as i64) as i32 == n32) by (bit_vector);
}

/// The head of a field takes one byte when the tag is below 15, and two
/// bytes otherwise; either way its first byte carries the type code in its
/// low nibble.
pub proof fn law_head_layout(t: TarsType, tag: u8)
    ensures
        head_bytes(t, tag).len() == (if tag < 15 {
            1int
        } else {
            2int
        }),
        head_bytes(t, tag)[0] % 16 == t.wire_code(),
        tag < 15 ==> head_bytes(t, tag)[0] / 16 == tag,
        tag >= 15 ==> head_bytes(t, tag)[0] / 16 == 15 && head_bytes(t, tag)[1] == tag,
{
}

/// A string field holds its length in one byte up to 255 bytes and in four
/// big-endian bytes beyond, and ends with the string's bytes.
pub proof fn law_string_field_layout(s: Seq<u8>, tag: u8)
    ensures
        string_field(s, tag).len() == head_bytes(
            if s.len() > 255 {
                TarsType::String4
            } else {
                TarsType::String1
            },
            tag,
        ).len() + (if s.len() > 255 {
            4int
        } else {
            1int
        }) + s.len(),
        string_field(s, tag).skip(string_field(s, tag).len() - s.len()) == s,
{
    reveal(string_field);
    crate::bytes::lemma_be_bytes_len(s.len() as int, 4);
    let f = string_field(s, tag);
    assert(f.skip(f.len() - s.len()) =~= s);
}

/// The type code that a field's first byte carries in its low nibble.
pub open spec fn field_type_code(f: Seq<u8>) -> int {
    (f[0] % 16) as int
}

/// The length of a field's head: two bytes when the high nibble of its first
/// byte is 15, else one.
pub open spec fn field_head_len(f: Seq<u8>) -> int {
    if f[0] / 16 == 15 {
        2
    } else {
        1
    }
}

/// The tag of a field: the high nibble of its first byte, or the byte after
/// it when that nibble is 15.
pub open spec fn field_tag(f: Seq<u8>) -> int {
    if f[0] / 16 == 15 {
        f[1] as int
    } else {
        (f[0] / 16) as int
    }
}

/// The number of bytes after the head of an integer field with type code
/// `code`: none for `ZeroTag`, and 1, 2, 4, 8 for `Char`, `Short`, `Int32`,
/// `Int64`.
pub open spec fn integer_body_len(code: int) -> nat {
    if code == 0 {
        1
    } else if code == 1 {
        2
    } else if code == 2 {
        4
    } else if code == 3 {
        8
    } else {
        0
    }
}

/// The unsigned `u` read as a two's-complement number of `n` bytes.
pub open spec fn signed_value(u: int, n: nat) -> int {
    if u >= byte_modulus(n) / 2 {
        u - byte_modulus(n)
    } else {
        u
    }
}

/// The integer a Tars reader takes from an integer field: zero for a
/// `ZeroTag` field, else the bytes after the head read as a signed
/// big-endian number as wide as the type says.
pub open spec fn integer_field_value(f: Seq<u8>) -> int {
    let w = integer_body_len(field_type_code(f));
    if w == 0 {
        0
    } else {
        signed_value(be_value(f.subrange(field_head_len(f), field_head_len(f) + w)) as int, w)
    }
}

/// The type code of the narrowest integer field that holds `n`: `ZeroTag`
/// for zero, then `Char`, `Short`, `Int32` or `Int64`.
pub open spec fn narrowest_integer_code(n: int) -> int {
    if n == 0 {
        12
    } else if -0x80 <= n < 0x80 {
        0
    } else if -0x8000 <= n < 0x8000 {
        1
    } else if -0x8000_0000 <= n < 0x8000_0000 {
        2
    } else {
        3
    }
}

/// What a field that starts with a head tells: its type code, its tag, and
/// where its body starts.
proof fn lemma_head_read(t: TarsType, tag: u8, rest: Seq<u8>)
    ensures
        field_type_code(head_bytes(t, tag) + rest) == t.wire_code(),
        field_tag(head_bytes(t, tag) + rest) == tag,
        field_head_len(head_bytes(t, tag) + rest) == head_bytes(t, tag).len(),
{
    let f = head_bytes(t, tag) + rest;
    assert(f[0] == head_bytes(t, tag)[0]);
    if tag >= 15 {
        assert(f[1] == head_bytes(t, tag)[1]);
    }
}

/// A field made of a head and the `w` big-endian bytes of `u` reads back
/// as `u` taken as a signed number of `w` bytes.
proof fn lemma_integer_body_read(t: TarsType, tag: u8, u: int, w: nat)
    requires
        integer_body_len(t.wire_code() as int) == w,
        w > 0,
        0 <= u < byte_modulus(w),
    ensures
        ({
            let f = head_bytes(t, tag) + be_bytes(u, w);
            &&& f.len() == field_head_len(f) + integer_body_len(field_type_code(f))
            &&& field_tag(f) == tag
            &&& field_type_code(f) == t.wire_code()
            &&& integer_field_value(f) == signed_value(u, w)
        }),
{
    let h = head_bytes(t, tag);
    let f = h + be_bytes(u, w);
    lemma_head_read(t, tag, be_bytes(u, w));
    lemma_be_bytes_len(u, w);
    lemma_be_value_of_bytes(u, w);
    assert(f.subrange(h.len() as int, h.len() + w as int) =~= be_bytes(u, w));
}

/// The two's-complement bytes of small negative numbers.
proof fn lemma_negative_casts(x8: i16, x16: i32, x32: i64)
    ensures
        -0x80 <= x8 < 0 ==> (x8 as u8) as u16 == (x8 + 0x100) as u16,
        -0x8000 <= x16 < 0 ==> (x16 as i16) as u16 as u32 == (x16 + 0x1_0000) as u32,
        -0x8000_0000 <= x32 < 0 ==> (x32 as i32) as u32 as u64 == (x32 + 0x1_0000_0000) as u64,
{
    assert(-0x80 <= x8 < 0 ==> (x8 as u8) as u16 == (x8 + 0x100) as u16) by (bit_vector);
    assert(-0x8000 <= x16 < 0 ==> (x16 as i16) as u16 as u32 == (x16 + 0x1_0000) as u32)
        by (bit_vector);
    assert(-0x8000_0000 <= x32 < 0 ==> (x32 as i32) as u32 as u64 == (x32 + 0x1_0000_0000) as u64)
        by (bit_vector);
}

/// The `Int64` body holds the eight two's-complement bytes of `n`.
proof fn lemma_i64_bytes(n: i64)
    ensures
        n >= 0 ==> n as u64 as int == n,
        n < 0 ==> n as u64 as int == n + 0x1_0000_0000_0000_0000,
{
    assert(n < 0 ==> n as u64 as i128 == n as i128 + 0x1_0000_0000_0000_0000i128) by (bit_vector);
}

/// An integer field reads back as the value written, under the tag it was
/// written with, in the narrowest integer type that holds the value, and
/// with nothing after its body: a `Short` field, for one, is written for
/// every value outside `-128..=127` that fits in 16 bits.
pub proof fn law_int64_field_reads_back(n: i64, tag: u8)
    ensures
        ({
            let f = int64_field(n, tag);
            &&& f.len() == field_head_len(f) + integer_body_len(field_type_code(f))
            &&& field_tag(f) == tag
            &&& field_type_code(f) == narrowest_integer_code(n as int)
            &&& integer_field_value(f) == n
        }),
{
    reveal(int64_field);
    reveal(int32_field);
    reveal(short_field);
    reveal(char_field);
    lemma_byte_moduli();
    let f = int64_field(n, tag);
    if n == 0 {
        lemma_head_read(TarsType::ZeroTag, tag, Seq::empty());
        assert(head_bytes(TarsType::ZeroTag, tag) + Seq::<u8>::empty() =~= f);
    } else if -0x80 <= n < 0x80 {
        let x8 = (n as i32) as i16;
        let b = x8 as u8;
        lemma_negative_casts(x8, 0, 0);
        assert(f == head_bytes(TarsType::Char, tag).push(b));
        assert(be_bytes(b as int, 1) =~= seq![b]) by {
            assert(be_bytes(b as int, 1) == be_bytes(b as int / 256, 0).push((b as int % 256) as u8));
        }
        assert(head_bytes(TarsType::Char, tag).push(b) =~= head_bytes(TarsType::Char, tag)
            + be_bytes(b as int, 1));
        lemma_integer_body_read(TarsType::Char, tag, b as int, 1);
    } else if -0x8000 <= n < 0x8000 {
        let x16 = n as i32;
        let u = (x16 as i16) as u16 as int;
        lemma_negative_casts(0, x16, 0);
        assert(f == head_bytes(TarsType::Short, tag) + be_bytes(u, 2));
        lemma_integer_body_read(TarsType::Short, tag, u, 2);
    } else if -0x8000_0000 <= n < 0x8000_0000 {
        let u = (n as i32) as u32 as int;
        lemma_negative_casts(0, 0, n);
        assert(f == head_bytes(TarsType::Int32, tag) + be_bytes(u, 4));
        lemma_integer_body_read(TarsType::Int32, tag, u, 4);
    } else {
        let u = n as u64 as int;
        lemma_i64_bytes(n);
        lemma_integer_body_read(TarsType::Int64, tag, u, 8);
    }
}

/// A 32-bit integer field reads back as the value written, under its tag,
/// in the narrowest integer type that holds the value.
pub proof fn law_int32_field_reads_back(n: i32, tag: u8)
    ensures
        ({
            let f = int32_field(n, tag);
            &&& f.len() == field_head_len(f) + integer_body_len(field_type_code(f))
            &&& field_tag(f) == tag
            &&& field_type_code(f) == narrowest_integer_code(n as int)
            &&& integer_field_value(f) == n
        }),
{
    law_integer_width_by_value(0, 0, n, tag);
    law_int64_field_reads_back(n as i64, tag);
}

/// A 16-bit integer field reads back as the value written, under its tag:
/// one byte after a `Char` head for a value in `-128..=127` other than zero,
/// two bytes after a `Short` head for any other value but zero.
pub proof fn law_short_field_reads_back(n: i16, tag: u8)
    ensures
        ({
            let f = short_field(n, tag);
            &&& f.len() == field_head_len(f) + integer_body_len(field_type_code(f))
            &&& field_tag(f) == tag
            &&& field_type_code(f) == narrowest_integer_code(n as int)
            &&& integer_field_value(f) == n
        }),
{
    law_integer_width_by_value(0, n, 0, tag);
    law_int32_field_reads_back(n as i32, tag);
}

/// The length a string field announces: the byte after a `String1` head,
/// else the four big-endian bytes after the head.
pub open spec fn string_field_len(f: Seq<u8>) -> int {
    let h = field_head_len(f);
    if field_type_code(f) == 6 {
        f[h] as int
    } else {
        be_value(f.subrange(h, h + 4)) as int
    }
}

/// The bytes a string field carries: all that follows its length.
pub open spec fn string_field_text(f: Seq<u8>) -> Seq<u8> {
    let h = field_head_len(f);
    if field_type_code(f) == 6 {
        f.skip(h + 1)
    } else {
        f.skip(h + 4)
    }
}

/// A string field reads back as the string written, under its tag: a
/// `String1` head and a one-byte length up to 255 bytes, a `String4` head
/// and a four-byte length beyond; the length it announces is the string's.
pub proof fn law_string_field_reads_back(s: Seq<u8>, tag: u8)
    requires
        s.len() <= TARS_MAX_STRING_LENGTH,
    ensures
        ({
            let f = string_field(s, tag);
            &&& field_tag(f) == tag
            &&& field_type_code(f) == (if s.len() <= 255 {
                TarsType::String1.wire_code()
            } else {
                TarsType::String4.wire_code()
            })
            &&& string_field_len(f) == s.len()
            &&& string_field_text(f) == s
        }),
{
    reveal(string_field);
    lemma_byte_moduli();
    let f = string_field(s, tag);
    if s.len() > 255 {
        let h = head_bytes(TarsType::String4, tag);
        let l = be_bytes(s.len() as int, 4);
        lemma_head_read(TarsType::String4, tag, l + s);
        assert(f =~= h + (l + s));
        lemma_be_bytes_len(s.len() as int, 4);
        lemma_be_value_of_bytes(s.len() as int, 4);
        assert(f.subrange(h.len() as int, h.len() + 4int) =~= l);
        assert(f.skip(h.len() + 4int) =~= s);
    } else {
        let h = head_bytes(TarsType::String1, tag);
        let l = seq![s.len() as u8];
        lemma_head_read(TarsType::String1, tag, l + s);
        assert(f =~= h + (l + s));
        assert(f[h.len() as int] == s.len() as u8);
        assert(f.skip(h.len() + 1int) =~= s);
    }
}

/// What follows a whole integer field does not change how it reads.
proof fn lemma_integer_field_followed(f: Seq<u8>, rest: Seq<u8>)
    requires
        f.len() >= 1,
        f.len() == field_head_len(f) + integer_body_len(field_type_code(f)),
    ensures
        field_type_code(f + rest) == field_type_code(f),
        field_head_len(f + rest) == field_head_len(f),
        field_tag(f + rest) == field_tag(f),
        integer_field_value(f + rest) == integer_field_value(f),
{
    let g = f + rest;
    assert(g[0] == f[0]);
    if f[0] / 16 == 15 {
        assert(g[1] == f[1]);
    }
    let h = field_head_len(f);
    let w = integer_body_len(field_type_code(f));
    assert(g.subrange(h, h + w) =~= f.subrange(h, h + w));
}

/// A byte-list field reads back as the bytes written: a `SimpleList` head
/// under its tag, a `Char` head with tag 0, an integer field with tag 0
/// whose value is the number of bytes, and then the bytes themselves.
pub proof fn law_bytes_field_reads_back(data: Seq<u8>, tag: u8)
    requires
        data.len() <= i32::MAX,
    ensures
        ({
            let f = bytes_field(data, tag);
            let g = f.skip(field_head_len(f));
            let k = g.skip(field_head_len(g));
            &&& field_type_code(f) == TarsType::SimpleList.wire_code()
            &&& field_tag(f) == tag
            &&& field_type_code(g) == TarsType::Char.wire_code()
            &&& field_tag(g) == 0
            &&& field_tag(k) == 0
            &&& integer_field_value(k) == data.len()
            &&& k.skip(field_head_len(k) + integer_body_len(field_type_code(k))) == data
        }),
{
    reveal(bytes_field);
    let hl = head_bytes(TarsType::SimpleList, tag);
    let hc = head_bytes(TarsType::Char, 0);
    let n = int32_field(data.len() as i32, 0);
    let f = bytes_field(data, tag);
    law_int32_field_reads_back(data.len() as i32, 0);
    lemma_head_read(TarsType::SimpleList, tag, hc + n + data);
    assert(f =~= hl + (hc + n + data));
    let g = f.skip(field_head_len(f));
    assert(g =~= hc + (n + data));
    lemma_head_read(TarsType::Char, 0, n + data);
    let k = g.skip(field_head_len(g));
    assert(k =~= n + data);
    lemma_integer_field_followed(n, data);
    assert(k.skip(field_head_len(k) + integer_body_len(field_type_code(k))) =~= data);
}

} // verus!
