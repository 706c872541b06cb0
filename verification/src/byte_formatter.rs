//! Conversion between a 16-bit word and its two-byte wire representation,
//! under a byte order chosen once at construction time.

use vstd::prelude::*;

verus! {

/// A byte order: converts a 16-bit word to and from its two-byte wire form.
///
/// The two spec functions fix what the implementing byte order means; the
/// executable methods are proved against them, and `lemma_wrap_unwrap` obliges
/// every implementation to make the pair a round trip: wrapping the bytes of a
/// word gives the word back.
pub trait ByteFormatter: Sized {
    /// The word that the wire bytes `(b0, b1)` stand for, `b0` first on the wire.
    spec fn spec_wrap(&self, b0: u8, b1: u8) -> u16;

    /// The two wire bytes of `word`, in wire order.
    spec fn spec_unwrap(&self, word: u16) -> (u8, u8);

    /// Every 16-bit word survives the trip to wire bytes and back.
    proof fn lemma_wrap_unwrap(&self, word: u16)
        ensures
            self.spec_wrap(self.spec_unwrap(word).0, self.spec_unwrap(word).1) == word,
    ;

    /// Split a word into its two wire bytes.
    fn unwrap_bytes(&self, bytes: u16) -> (r: [u8; 2])
        ensures
            r@[0] == self.spec_unwrap(bytes).0,
            r@[1] == self.spec_unwrap(bytes).1,
    ;

    /// Assemble a word from its two wire bytes.
    fn wrap_bytes(&self, bytes: [u8; 2]) -> (r: u16)
        ensures
            r == self.spec_wrap(bytes@[0], bytes@[1]),
    ;
}

/// Little-endian byte order: the first wire byte holds the low 8 bits of the
/// word, the second the high 8 bits.
pub struct LittleEndianFormatter {}

impl Default for LittleEndianFormatter {
    fn default() -> (r: Self)
        ensures
            r == (LittleEndianFormatter {  }),
    {
        LittleEndianFormatter {  }
    }
}

impl ByteFormatter for LittleEndianFormatter {
    open spec fn spec_wrap(&self, b0: u8, b1: u8) -> u16 {
        (b1 as int * 256 + b0 as int) as u16
    }

    open spec fn spec_unwrap(&self, word: u16) -> (u8, u8) {
        ((word as int % 256) as u8, (word as int / 256) as u8)
    }

    proof fn lemma_wrap_unwrap(&self, word: u16) {
        vstd::arithmetic::div_mod::lemma_fundamental_div_mod(word as int, 256);
    }

    fn unwrap_bytes(&self, bytes: u16) -> (r: [u8; 2]) {
        [(bytes % 256) as u8, (bytes / 256) as u8]
    }

    fn wrap_bytes(&self, bytes: [u8; 2]) -> (r: u16) {
        bytes[1] as u16 * 256 + bytes[0] as u16
    }
}

} // verus!
