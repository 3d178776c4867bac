use sha2::Digest;
use vstd::prelude::*;

verus! {

/// Whether `c` is a hexadecimal digit, in either case.
pub open spec fn is_hex_digit(c: char) -> bool {
    ('0' <= c && c <= '9') || ('a' <= c && c <= 'f') || ('A' <= c && c <= 'F')
}

/// The value of a hexadecimal digit character, in either case.
pub open spec fn hex_digit_value(c: char) -> int {
    if '0' <= c && c <= '9' {
        c as int - '0' as int
    } else if 'a' <= c && c <= 'f' {
        c as int - 'a' as int + 10
    } else {
        c as int - 'A' as int + 10
    }
}

/// The lowercase digit for a value below sixteen.
pub open spec fn lower_hex_digit(n: int) -> char {
    if n < 10 {
        ('0' as int + n) as char
    } else {
        ('a' as int + n - 10) as char
    }
}

/// Lowercase hexadecimal text of `b`: two digits per byte, high nibble first.
pub open spec fn hex_text(b: Seq<u8>) -> Seq<char> {
    Seq::new(
        2 * b.len(),
        |i: int|
            if i % 2 == 0 {
                lower_hex_digit(b[i / 2] as int / 16)
            } else {
                lower_hex_digit(b[i / 2] as int % 16)
            },
    )
}

/// Text that decodes as hexadecimal: an even number of hex digits.
pub open spec fn is_hex_text(s: Seq<char>) -> bool {
    &&& s.len() % 2 == 0
    &&& forall|i: int| 0 <= i < s.len() ==> is_hex_digit(#[trigger] s[i])
}

/// The bytes that hexadecimal text stands for, one per pair of digits.
pub open spec fn hex_bytes(s: Seq<char>) -> Seq<u8> {
    Seq::new(
        s.len() / 2,
        |i: int| (hex_digit_value(s[2 * i]) * 16 + hex_digit_value(s[2 * i + 1])) as u8,
    )
}

/// Hexadecimal text of bytes decodes back to the same bytes.
pub proof fn lemma_hex_round_trip(b: Seq<u8>)
    ensures
        is_hex_text(hex_text(b)),
        hex_bytes(hex_text(b)) == b,
{
    let t = hex_text(b);
    assert forall|i: int| 0 <= i < t.len() implies is_hex_digit(#[trigger] t[i]) by {
        let x = b[i / 2] as int;
        if i % 2 == 0 {
            assert(0 <= x / 16 < 16);
        } else {
            assert(0 <= x % 16 < 16);
        }
    }
    assert(t.len() % 2 == 0);
    assert forall|i: int| 0 <= i < b.len() implies #[trigger] hex_bytes(t)[i] == b[i] by {
        let x = b[i] as int;
        assert(t[2 * i] == lower_hex_digit(x / 16));
        assert(t[2 * i + 1] == lower_hex_digit(x % 16));
        assert(hex_digit_value(lower_hex_digit(x / 16)) == x / 16);
        assert(hex_digit_value(lower_hex_digit(x % 16)) == x % 16);
    }
    assert(hex_bytes(t) =~= b);
}

/// A 64-byte digest or signature; equality is byte for byte.
#[derive(Debug, Clone, Copy, Eq)]
pub struct Hash(pub [u8; 64]);

impl PartialEq for Hash {
    fn eq(&self, other: &Hash) -> (r: bool) {
        self.same_as(other)
    }
}

impl vstd::std_specs::cmp::PartialEqSpecImpl for Hash {
    open spec fn obeys_eq_spec() -> bool {
        true
    }

    open spec fn eq_spec(&self, other: &Hash) -> bool {
        self@ == other@
    }
}

impl View for Hash {
    type V = Seq<u8>;

    open spec fn view(&self) -> Seq<u8> {
        self.0@
    }
}

/// Sixty-four zero bytes: the link of the first block of a chain.
pub open spec fn zero_hash() -> Seq<u8> {
    Seq::new(64, |i: int| 0u8)
}

impl Default for Hash {
    fn default() -> (r: Self)
        ensures
            r@ == zero_hash(),
    {
        let r = Hash([0u8; 64]);
        assert(r@ =~= zero_hash());
        r
    }
}

/// Why text is not the hexadecimal form of a fixed number of bytes.
#[derive(Debug, Clone, Copy, PartialEq, Eq, Structural)]
pub enum HexDecodeError {
    /// The text is not an even number of hexadecimal digits.
    NotHex,
    /// The text decodes to this many bytes, not the number wanted.
    WrongLength(usize),
}

/// `hex::FromHexError`, the error of `hex::decode`, carried through opaque.
#[verifier::external_type_specification]
#[verifier::external_body]
pub struct ExFromHexError(hex::FromHexError);

/// Relies on `hex::encode`: two lowercase digits per byte, high nibble first.
#[verifier::external_body]
pub(crate) fn encode_hex(b: &[u8]) -> (r: String)
    ensures
        r@ == hex_text(b@),
{
    hex::encode(b)
}

/// Relies on `hex::decode`: it succeeds exactly on an even number of hex
/// digits of either case, and turns each pair into one byte.
#[verifier::external_body]
fn decode_hex(s: &str) -> (r: Result<Vec<u8>, hex::FromHexError>)
    ensures
        r is Ok <==> is_hex_text(s@),
        r matches Ok(v) ==> v@ == hex_bytes(s@),
{
    hex::decode(s)
}

/// Decodes hexadecimal text of exactly `n` bytes.
pub fn bytes_from_hex(s: &str, n: usize) -> (r: Result<Vec<u8>, HexDecodeError>)
    ensures
        r is Ok <==> is_hex_text(s@) && hex_bytes(s@).len() == n,
        r matches Ok(v) ==> v@ == hex_bytes(s@),
        r == Err::<Vec<u8>, HexDecodeError>(HexDecodeError::NotHex) <==> !is_hex_text(s@),
        r matches Err(HexDecodeError::WrongLength(k)) ==> k == hex_bytes(s@).len(),
{
    match decode_hex(s) {
        Err(_) => Err(HexDecodeError::NotHex),
        Ok(v) => {
            if v.len() != n {
                Err(HexDecodeError::WrongLength(v.len()))
            } else {
                Ok(v)
            }
        },
    }
}

impl Hash {
    /// Whether two hashes hold the same bytes.
    pub fn same_as(&self, other: &Hash) -> (r: bool)
        ensures
            r == (self@ == other@),
    {
        let mut i: usize = 0;
        while i < 64
            invariant
                i <= 64,
                forall|k: int| 0 <= k < i ==> self@[k] == other@[k],
            decreases 64 - i,
        {
            if self.0[i] != other.0[i] {
                return false;
            }
            i = i + 1;
        }
        assert(self@ =~= other@);
        true
    }

    /// The lowercase hexadecimal text of the 64 bytes.
    pub fn to_hex(&self) -> (r: String)
        ensures
            r@ == hex_text(self@),
    {
        encode_hex(self.0.as_slice())
    }

    /// Reads the hexadecimal text of a hash; text that is not hexadecimal, or
    /// that stands for other than 64 bytes, is refused.
    pub fn from_hex(s: &str) -> (r: Result<Hash, HexDecodeError>)
        ensures
            r is Ok <==> is_hex_text(s@) && hex_bytes(s@).len() == 64,
            r matches Ok(h) ==> h@ == hex_bytes(s@),
            r == Err::<Hash, HexDecodeError>(HexDecodeError::NotHex) <==> !is_hex_text(s@),
            r matches Err(HexDecodeError::WrongLength(n)) ==> n == hex_bytes(s@).len(),
    {
        let v = match bytes_from_hex(s, 64) {
            Ok(v) => v,
            Err(e) => return Err(e),
        };
        let mut a = [0u8; 64];
        let mut i: usize = 0;
        while i < 64
            invariant
                i <= 64,
                v@.len() == 64,
                forall|k: int| 0 <= k < i ==> a@[k] == v@[k],
            decreases 64 - i,
        {
            a[i] = v[i];
            i = i + 1;
        }
        assert(a@ =~= v@);
        Ok(Hash(a))
    }
}

/// Encoding a hash as hexadecimal and decoding the text gives the hash back.
pub proof fn lemma_hash_hex_round_trip(h: Hash)
    ensures
        is_hex_text(hex_text(h@)),
        hex_bytes(hex_text(h@)) == h@,
        hex_bytes(hex_text(h@)).len() == 64,
{
    lemma_hex_round_trip(h@);
}

/// The SHA-512 digest of `data`.
pub uninterp spec fn sha512_of(data: Seq<u8>) -> Seq<u8>;

/// Relies on `sha2::Sha512::digest`: the 64-byte SHA-512 digest of `data`,
/// which depends on those bytes alone.
#[verifier::external_body]
pub(crate) fn sha512(data: &[u8]) -> (r: Hash)
    ensures
        r@ == sha512_of(data@),
{
    Hash(sha2::Sha512::digest(data).into())
}

/// Appends `data` to the end of `buf`.
pub fn append_bytes(buf: &mut Vec<u8>, data: &[u8])
    ensures
        final(buf)@ == old(buf)@ + data@,
{
    let ghost start = buf@;
    let mut i: usize = 0;
    while i < data.len()
        invariant
            i <= data@.len(),
            buf@ == start + data@.subrange(0, i as int),
        decreases data@.len() - i,
    {
        buf.push(data[i]);
        i = i + 1;
        assert(data@.subrange(0, i as int) =~= data@.subrange(0, i - 1 as int).push(data@[i - 1]));
    }
    assert(data@.subrange(0, data@.len() as int) =~= data@);
}

} // verus!
