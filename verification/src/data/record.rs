//! What the record types have in common: a fixed layout in bytes and a
//! number to refer to them by.

use vstd::prelude::*;

verus! {

/// A record of a section: a value with a fixed-width layout.
pub trait Record: Sized {
    /// The bytes of the record in its section.
    spec fn encoding(&self) -> Seq<u8>;

    /// The number that other records refer to this one by.
    spec fn key(&self) -> i32;

    /// The width of the layout.
    spec fn stride() -> nat;

    /// Every record is as wide as its type says.
    proof fn lemma_stride(&self)
        ensures
            self.encoding().len() == Self::stride(),
            0 < Self::stride() < 0x1_0000,
    ;

    /// A record is known by its bytes.
    proof fn lemma_injective(a: Self, b: Self)
        requires
            a.encoding() == b.encoding(),
        ensures
            a == b,
    ;

    fn width() -> (n: usize)
        ensures
            n == Self::stride(),
    ;

    fn id(&self) -> (k: i32)
        ensures
            k == self.key(),
    ;

    /// Reads the record that starts at `at`; `None` where fewer bytes are
    /// left than the record is wide.
    fn parse(bytes: &[u8], at: usize) -> (r: Option<Self>)
        ensures
            r.is_some() <==> at + Self::stride() <= bytes@.len(),
            r matches Some(rec) ==> rec.encoding() == bytes@.subrange(
                at as int,
                at + Self::stride(),
            ),
    ;

    fn to_bytes(&self) -> (out: Vec<u8>)
        ensures
            out@ == self.encoding(),
    ;
}

} // verus!
