use vstd::prelude::*;

verus! {

/// A received chunk of bytes, as the decoder contract speaks of it.
pub type ChunkBytes = Seq<u8>;

/// Decoded text, as the decoder contract speaks of it.
pub type ChunkText = Seq<char>;

/// A decoder from a raw chunk of received bytes to display text. A device
/// variant binds one; each call stands alone and must not block.
///
/// `decoded` states what `parse_to_string` returns. It is never run: an impl
/// written outside verified code still declares it (its body may panic), and
/// is then trusted to return that text.
pub trait ProtocolTrait {
    /// The text this decoder gives for a chunk of bytes.
    spec fn decoded(&self, bytes: ChunkBytes) -> ChunkText;

    fn parse_to_string(&self, bytes: &[u8]) -> (r: String)
        ensures
            r@ == self.decoded(bytes@),
    ;
}

/// The decoders this library provides.
#[derive(Debug, Clone, Copy, PartialEq, Eq, Structural)]
pub enum Protocol {
    /// Passes the bytes through as UTF-8, replacing invalid sequences.
    Raw,
}

impl Default for Protocol {
    fn default() -> (r: Protocol)
        ensures
            r == Protocol::Raw,
    {
        Protocol::Raw
    }
}

/// The text that lossy UTF-8 decoding gives for a byte sequence.
pub uninterp spec fn lossy_utf8(b: Seq<u8>) -> Seq<char>;

/// Relies on `String::from_utf8_lossy`: the decoded text depends on the
/// bytes alone.
#[verifier::external_body]
pub(crate) fn decode_lossy(bytes: &[u8]) -> (r: String)
    ensures
        r@ == lossy_utf8(bytes@),
{
    String::from_utf8_lossy(bytes).into_owned()
}

impl ProtocolTrait for Protocol {
    open spec fn decoded(&self, bytes: Seq<u8>) -> Seq<char> {
        match self {
            Protocol::Raw => lossy_utf8(bytes),
        }
    }

    fn parse_to_string(&self, bytes: &[u8]) -> (r: String) {
        match self {
            Protocol::Raw => decode_lossy(bytes),
        }
    }
}

} // verus!
