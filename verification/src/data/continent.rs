//! The layout of a continent.

use vstd::prelude::*;
use vstd::utf8::{decode_utf8, valid_utf8};

use crate::chars::{bytes_to_string, EncodingError, to_utf8, until_nul};
use crate::data::{SHORT_TEXT_LENGTH, THREE_LETTER_TEXT_LENGTH};
use crate::data::record::Record;
use crate::to_bytes::{
    group_le_len, le_i32, le_i8, le_u64, lemma_concat_cancel, lemma_le_i32_injective,
    lemma_le_i8_injective, lemma_le_u64_injective, put_bytes, put_i32, put_i8, put_u64, Reader,
};

verus! {

broadcast use group_le_len;

/// A continent.
///
/// A field whose name ends in `_bits` holds the 64 bits of a floating-point
/// number, which are carried through as they are.
#[derive(Clone, Copy, Debug, PartialEq, Eq)]
pub struct Continent {
    pub regional_strength_bits: u64,
    pub id: i32,
    pub b_three_letter_name: [u8; THREE_LETTER_TEXT_LENGTH],
    pub b_name: [u8; SHORT_TEXT_LENGTH],
    pub b_continentality_name: [u8; SHORT_TEXT_LENGTH],
    pub gender_name: i8,
}

impl Continent {
    /// The three-letter name.
    pub fn three_letter_name(&self) -> (r: Result<String, EncodingError>)
        ensures
            r.is_ok() <==> valid_utf8(to_utf8(until_nul(self.b_three_letter_name@))),
            r matches Ok(s) ==> s@ == decode_utf8(to_utf8(until_nul(self.b_three_letter_name@))),
            r matches Err(e) ==> e.raw@ == self.b_three_letter_name@,
    {
        bytes_to_string(&self.b_three_letter_name)
    }

    /// The name of the continent.
    pub fn name(&self) -> (r: Result<String, EncodingError>)
        ensures
            r.is_ok() <==> valid_utf8(to_utf8(until_nul(self.b_name@))),
            r matches Ok(s) ==> s@ == decode_utf8(to_utf8(until_nul(self.b_name@))),
            r matches Err(e) ==> e.raw@ == self.b_name@,
    {
        bytes_to_string(&self.b_name)
    }

    /// The word for someone of the continent.
    pub fn continentality_name(&self) -> (r: Result<String, EncodingError>)
        ensures
            r.is_ok() <==> valid_utf8(to_utf8(until_nul(self.b_continentality_name@))),
            r matches Ok(s) ==> s@ == decode_utf8(to_utf8(until_nul(self.b_continentality_name@))),
            r matches Err(e) ==> e.raw@ == self.b_continentality_name@,
    {
        bytes_to_string(&self.b_continentality_name)
    }
}

impl Record for Continent {
    open spec fn encoding(&self) -> Seq<u8> {
        le_u64(self.regional_strength_bits)
        + le_i32(self.id)
        + self.b_three_letter_name@
        + self.b_name@
        + self.b_continentality_name@
        + le_i8(self.gender_name)
    }

    open spec fn key(&self) -> i32 {
        self.id
    }

    open spec fn stride() -> nat {
        69
    }

    proof fn lemma_stride(&self) {
    }

    proof fn lemma_injective(a: Self, b: Self) {
        let a0 = le_u64(a.regional_strength_bits);
        let b0 = le_u64(b.regional_strength_bits);
        let a1 = a0 + le_i32(a.id);
        let b1 = b0 + le_i32(b.id);
        let a2 = a1 + a.b_three_letter_name@;
        let b2 = b1 + b.b_three_letter_name@;
        let a3 = a2 + a.b_name@;
        let b3 = b2 + b.b_name@;
        let a4 = a3 + a.b_continentality_name@;
        let b4 = b3 + b.b_continentality_name@;
        lemma_concat_cancel(a4, le_i8(a.gender_name), b4, le_i8(b.gender_name));
        lemma_le_i8_injective(a.gender_name, b.gender_name);
        lemma_concat_cancel(a3, a.b_continentality_name@, b3, b.b_continentality_name@);
        assert(a.b_continentality_name =~= b.b_continentality_name);
        lemma_concat_cancel(a2, a.b_name@, b2, b.b_name@);
        assert(a.b_name =~= b.b_name);
        lemma_concat_cancel(a1, a.b_three_letter_name@, b1, b.b_three_letter_name@);
        assert(a.b_three_letter_name =~= b.b_three_letter_name);
        lemma_concat_cancel(a0, le_i32(a.id), b0, le_i32(b.id));
        lemma_le_i32_injective(a.id, b.id);
        lemma_le_u64_injective(a.regional_strength_bits, b.regional_strength_bits);
    }

    fn width() -> (n: usize) {
        69
    }

    fn id(&self) -> (k: i32) {
        self.id
    }

    fn parse(bytes: &[u8], at: usize) -> (r: Option<Self>) {
        if bytes.len() < 69 || at > bytes.len() - 69 {
            return None;
        }
        let mut r = Reader::new(bytes, at);
        let regional_strength_bits = r.read_u64();
        assert(r.taken() =~= le_u64(regional_strength_bits));
        let id = r.read_i32();
        let b_three_letter_name = r.read_bytes::<THREE_LETTER_TEXT_LENGTH>();
        let b_name = r.read_bytes::<SHORT_TEXT_LENGTH>();
        let b_continentality_name = r.read_bytes::<SHORT_TEXT_LENGTH>();
        let gender_name = r.read_i8();
        let rec = Continent {
            regional_strength_bits,
            id,
            b_three_letter_name,
            b_name,
            b_continentality_name,
            gender_name,
        };
        proof {
            r.lemma_taken();
        }
        Some(rec)
    }

    fn to_bytes(&self) -> (out: Vec<u8>) {
        let mut out = Vec::new();
        put_u64(&mut out, self.regional_strength_bits);
        assert(out@ =~= le_u64(self.regional_strength_bits));
        put_i32(&mut out, self.id);
        put_bytes(&mut out, &self.b_three_letter_name);
        put_bytes(&mut out, &self.b_name);
        put_bytes(&mut out, &self.b_continentality_name);
        put_i8(&mut out, self.gender_name);
        out
    }
}

} // verus!
