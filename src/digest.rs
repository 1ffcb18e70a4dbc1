use ring::digest::Context;
use vstd::prelude::*;

verus! {

#[verifier::external_type_specification]
#[verifier::external_body]
pub struct ExContext(ring::digest::Context);

/// The SHA-256 digest of a byte sequence.
pub uninterp spec fn sha256_of(data: Seq<u8>) -> Seq<u8>;

/// The bytes that a digest context has absorbed so far.
pub uninterp spec fn absorbed(c: Context) -> Seq<u8>;

/// SHA-256 takes messages shorter than 2^64 bits, that is 2^61 bytes.
pub const MAX_INPUT_LEN: u64 = 0x2000_0000_0000_0000;

/// Relies on `ring::digest::Context::new` with `ring::digest::SHA256`:
/// a fresh context has absorbed nothing.
#[verifier::external_body]
fn sha256_context() -> (c: Context)
    ensures
        absorbed(c) == Seq::<u8>::empty(),
{
    Context::new(&ring::digest::SHA256)
}

/// Relies on `ring::digest::Context::update`: the data is appended to what
/// the context has absorbed.
#[verifier::external_body]
fn context_update(c: &mut Context, data: &[u8])
    ensures
        absorbed(*final(c)) == absorbed(*old(c)) + data@,
{
    c.update(data)
}

/// Relies on `ring::digest::Context::finish` and `Digest::as_ref`: the
/// 32-byte SHA-256 digest of all the absorbed bytes. `finish` panics on
/// input of 2^61 bytes or more.
#[verifier::external_body]
fn context_finish(c: Context) -> (r: Vec<u8>)
    requires
        absorbed(c).len() < MAX_INPUT_LEN,
    ensures
        r@ == sha256_of(absorbed(c)),
        r@.len() == 32,
{
    c.finish().as_ref().to_vec()
}

/// Lower-case hexadecimal digit of a value below 16.
pub open spec fn hex_digit(d: u8) -> char {
    seq!['0', '1', '2', '3', '4', '5', '6', '7', '8', '9', 'a', 'b', 'c', 'd', 'e', 'f'][d as int]
}

/// Lower-case hexadecimal text of bytes: two digits per byte, high nibble first.
pub open spec fn hex_lower(b: Seq<u8>) -> Seq<char> {
    Seq::new(
        2 * b.len(),
        |i: int|
            if i % 2 == 0 {
                hex_digit(b[i / 2] / 16)
            } else {
                hex_digit(b[i / 2] % 16)
            },
    )
}

/// `Encoding::encode` asserts that the input length is at most
/// `usize::MAX / 512`; this bound is below that on every target width.
pub const MAX_HEX_INPUT_LEN: usize = 8_388_607;

/// Relies on `data_encoding::HEXLOWER.encode`: each byte as two digits of
/// `0123456789abcdef`, high nibble first. It panics on input longer than
/// `usize::MAX / 512` bytes.
#[verifier::external_body]
pub(crate) fn encode_hex_lower(b: &[u8]) -> (r: String)
    requires
        b@.len() <= MAX_HEX_INPUT_LEN,
    ensures
        r@ == hex_lower(b@),
{
    data_encoding::HEXLOWER.encode(b)
}

/// A streaming SHA-256 computation: bytes may be fed in chunks of any size.
pub struct Sha256Stream {
    ctx: Context,
}

impl View for Sha256Stream {
    type V = Seq<u8>;

    /// All bytes fed so far, in order.
    closed spec fn view(&self) -> Seq<u8> {
        absorbed(self.ctx)
    }
}

impl Sha256Stream {
    /// A stream that has been fed nothing.
    pub fn new() -> (s: Sha256Stream)
        ensures
            s@ == Seq::<u8>::empty(),
    {
        Sha256Stream { ctx: sha256_context() }
    }

    /// Feeds the next chunk.
    pub fn update(&mut self, chunk: &[u8])
        ensures
            final(self)@ == old(self)@ + chunk@,
    {
        context_update(&mut self.ctx, chunk);
    }

    /// The digest of everything fed, as 32 bytes.
    pub fn finish(self) -> (r: Vec<u8>)
        requires
            self@.len() < MAX_INPUT_LEN,
        ensures
            r@ == sha256_of(self@),
            r@.len() == 32,
    {
        context_finish(self.ctx)
    }
}

} // verus!
