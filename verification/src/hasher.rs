//! BLAKE3 digests, streamed or one-shot, and their lowercase hex form.

use vstd::prelude::*;

use crate::error::Error;
use crate::text::{concat2, u64_text};

verus! {

/// A BLAKE3 digest.
pub type Digest = [u8; 32];

/// The BLAKE3 digest of a byte sequence.
pub uninterp spec fn blake3_digest(data: Seq<u8>) -> Seq<u8>;

#[verifier::external_type_specification]
#[verifier::external_body]
pub struct ExBlake3Hasher(blake3::Hasher);

/// The bytes that a `blake3::Hasher` has been fed, in order.
pub uninterp spec fn hasher_input(h: blake3::Hasher) -> Seq<u8>;

/// `blake3::Hasher::new`: a hasher that has been fed nothing.
#[verifier::external_body]
fn blake3_hasher_new() -> (h: blake3::Hasher)
    ensures
        hasher_input(h) == Seq::<u8>::empty(),
{
    blake3::Hasher::new()
}

/// `blake3::Hasher::update`: feeds more input; the crate documents that feeding in
/// pieces hashes their concatenation.
#[verifier::external_body]
fn blake3_hasher_update(h: &mut blake3::Hasher, data: &[u8])
    ensures
        hasher_input(*final(h)) == hasher_input(*old(h)) + data@,
{
    h.update(data);
}

/// `blake3::Hasher::finalize`: the digest of everything fed so far.
#[verifier::external_body]
fn blake3_hasher_finalize(h: &blake3::Hasher) -> (d: [u8; 32])
    ensures
        d@ == blake3_digest(hasher_input(*h)),
{
    *h.finalize().as_bytes()
}

/// `blake3::hash`: the digest of a byte slice, documented as equal to feeding it to a
/// new hasher and finalizing.
#[verifier::external_body]
fn blake3_hash(data: &[u8]) -> (d: [u8; 32])
    ensures
        d@ == blake3_digest(data@),
{
    *blake3::hash(data).as_bytes()
}

/// An incremental BLAKE3 hasher.
pub struct StreamHasher {
    inner: blake3::Hasher,
}

impl View for StreamHasher {
    type V = Seq<u8>;

    /// The bytes fed so far.
    closed spec fn view(&self) -> Seq<u8> {
        hasher_input(self.inner)
    }
}

impl StreamHasher {
    pub fn new() -> (h: StreamHasher)
        ensures
            h@ == Seq::<u8>::empty(),
    {
        StreamHasher { inner: blake3_hasher_new() }
    }

    pub fn update(&mut self, data: &[u8])
        ensures
            final(self)@ == old(self)@ + data@,
    {
        blake3_hasher_update(&mut self.inner, data);
    }

    /// The digest of all bytes fed so far.
    pub fn finalize(&self) -> (d: Digest)
        ensures
            d@ == blake3_digest(self@),
    {
        blake3_hasher_finalize(&self.inner)
    }
}

/// The digest of a whole byte slice.
pub fn hash_bytes(data: &[u8]) -> (d: Digest)
    ensures
        d@ == blake3_digest(data@),
{
    blake3_hash(data)
}

/// Lowercase hex digit of a value below 16.
pub open spec fn hex_digit(d: int) -> char {
    if d < 10 {
        (48 + d) as char
    } else {
        (87 + d) as char
    }
}

/// Lowercase hex encoding, two digits per byte, high nibble first.
pub open spec fn hex_text(b: Seq<u8>) -> Seq<char>
    decreases b.len(),
{
    if b.len() == 0 {
        Seq::empty()
    } else {
        hex_text(b.drop_last()) + seq![hex_digit(b.last() as int / 16), hex_digit(b.last() as int % 16)]
    }
}

/// The value of a hex digit of either case.
pub open spec fn hex_value(c: char) -> Option<int> {
    if '0' <= c && c <= '9' {
        Some(c as int - 48)
    } else if 'a' <= c && c <= 'f' {
        Some(c as int - 87)
    } else if 'A' <= c && c <= 'F' {
        Some(c as int - 55)
    } else {
        None
    }
}

/// The bytes that a hex text of even length and hex digits only encodes.
pub open spec fn hex_bytes(s: Seq<char>) -> Option<Seq<u8>> {
    if s.len() % 2 == 0 && forall|i: int| 0 <= i < s.len() ==> #[trigger] hex_value(s[i]) is Some {
        Some(
            Seq::new(
                s.len() / 2,
                |i: int| (hex_value(s[2 * i])->0 * 16 + hex_value(s[2 * i + 1])->0) as u8,
            ),
        )
    } else {
        None
    }
}

/// `hex::encode`: lowercase hex, two digits per byte.
#[verifier::external_body]
pub fn hex_encode(digest: &Digest) -> (s: String)
    ensures
        s@ == hex_text(digest@),
{
    hex::encode(digest)
}

/// `hex::decode` of a text: refused (with the error's message) unless it has an even
/// length and only hex digits of either case; otherwise the bytes it encodes.
#[verifier::external_body]
fn hex_decode_bytes(s: &str) -> (r: Result<Vec<u8>, String>)
    ensures
        r matches Ok(v) ==> hex_bytes(s@) == Some(v@),
        r is Err ==> hex_bytes(s@) is None,
{
    hex::decode(s).map_err(|e| e.to_string())
}

/// Decodes a hex digest of exactly 32 bytes.
pub fn hex_decode(s: &str) -> (r: Result<Digest, Error>)
    ensures
        r matches Ok(d) ==> hex_bytes(s@) == Some(d@),
        r is Err <==> hex_bytes(s@) is None || hex_bytes(s@)->0.len() != 32,
        r matches Err(e) ==> e is Other,
        hex_bytes(s@) is Some && hex_bytes(s@)->0.len() != 32 ==> (r matches Err(Error::Other(m))
            && m@ == "digest must be 32 bytes, got "@ + crate::text::decimal_nat(hex_bytes(s@)->0.len())),
        hex_bytes(s@) is None ==> (r matches Err(Error::Other(m)) && m@.len() >= 20 && m@.subrange(0, 20)
            == "invalid hex digest: "@),
{
    let bytes = match hex_decode_bytes(s) {
        Ok(b) => b,
        Err(m) => {
            let msg = concat2("invalid hex digest: ", m.as_str());
            proof {
                reveal_strlit("invalid hex digest: ");
                assert(msg@.subrange(0, 20) =~= "invalid hex digest: "@);
            }
            return Err(Error::Other(msg));
        },
    };
    if bytes.len() != 32 {
        let mut msg = String::from_str("digest must be 32 bytes, got ");
        let n = u64_text(bytes.len() as u64);
        msg.append(n.as_str());
        return Err(Error::Other(msg));
    }
    let mut out: [u8; 32] = [0u8; 32];
    let mut i: usize = 0;
    while i < 32
        invariant
            bytes@.len() == 32,
            i <= 32,
            forall|k: int| 0 <= k < i ==> out@[k] == bytes@[k],
        decreases 32 - i,
    {
        out[i] = bytes[i];
        i = i + 1;
    }
    assert(out@ =~= bytes@);
    Ok(out)
}

} // verus!
