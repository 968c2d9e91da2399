//! The layout of a state or a province.

use vstd::prelude::*;
use vstd::utf8::{decode_utf8, valid_utf8};

use crate::chars::{bytes_to_string, EncodingError, to_utf8, until_nul};
use crate::data::{REAL_SHORT_TEXT_LENGTH, STANDARD_TEXT_LENGTH};
use crate::data::record::Record;
use crate::to_bytes::{
    group_le_len, le_i32, le_i8, lemma_concat_cancel, lemma_le_i32_injective, lemma_le_i8_injective,
    put_bytes, put_i32, put_i8, Reader,
};

verus! {

broadcast use group_le_len;

/// A state or a province.
#[derive(Clone, Copy, Debug, PartialEq, Eq)]
pub struct StateProvince {
    pub id: i32,
    pub nation_id: i32,
    pub b_name: [u8; STANDARD_TEXT_LENGTH],
    pub b_short_name: [u8; STANDARD_TEXT_LENGTH],
    pub gender_name: i8,
    pub b_abbreviation: [u8; REAL_SHORT_TEXT_LENGTH],
}

impl StateProvince {
    /// The name of the state.
    pub fn name(&self) -> (r: Result<String, EncodingError>)
        ensures
            r.is_ok() <==> valid_utf8(to_utf8(until_nul(self.b_name@))),
            r matches Ok(s) ==> s@ == decode_utf8(to_utf8(until_nul(self.b_name@))),
            r matches Err(e) ==> e.raw@ == self.b_name@,
    {
        bytes_to_string(&self.b_name)
    }

    /// The short name of the state.
    pub fn short_name(&self) -> (r: Result<String, EncodingError>)
        ensures
            r.is_ok() <==> valid_utf8(to_utf8(until_nul(self.b_short_name@))),
            r matches Ok(s) ==> s@ == decode_utf8(to_utf8(until_nul(self.b_short_name@))),
            r matches Err(e) ==> e.raw@ == self.b_short_name@,
    {
        bytes_to_string(&self.b_short_name)
    }

    /// The state's abbreviation.
    pub fn abbreviation(&self) -> (r: Result<String, EncodingError>)
        ensures
            r.is_ok() <==> valid_utf8(to_utf8(until_nul(self.b_abbreviation@))),
            r matches Ok(s) ==> s@ == decode_utf8(to_utf8(until_nul(self.b_abbreviation@))),
            r matches Err(e) ==> e.raw@ == self.b_abbreviation@,
    {
        bytes_to_string(&self.b_abbreviation)
    }
}

impl Record for StateProvince {
    open spec fn encoding(&self) -> Seq<u8> {
        le_i32(self.id)
        + le_i32(self.nation_id)
        + self.b_name@
        + self.b_short_name@
        + le_i8(self.gender_name)
        + self.b_abbreviation@
    }

    open spec fn key(&self) -> i32 {
        self.id
    }

    open spec fn stride() -> nat {
        117
    }

    proof fn lemma_stride(&self) {
    }

    proof fn lemma_injective(a: Self, b: Self) {
        let a0 = le_i32(a.id);
        let b0 = le_i32(b.id);
        let a1 = a0 + le_i32(a.nation_id);
        let b1 = b0 + le_i32(b.nation_id);
        let a2 = a1 + a.b_name@;
        let b2 = b1 + b.b_name@;
        let a3 = a2 + a.b_short_name@;
        let b3 = b2 + b.b_short_name@;
        let a4 = a3 + le_i8(a.gender_name);
        let b4 = b3 + le_i8(b.gender_name);
        lemma_concat_cancel(a4, a.b_abbreviation@, b4, b.b_abbreviation@);
        assert(a.b_abbreviation =~= b.b_abbreviation);
        lemma_concat_cancel(a3, le_i8(a.gender_name), b3, le_i8(b.gender_name));
        lemma_le_i8_injective(a.gender_name, b.gender_name);
        lemma_concat_cancel(a2, a.b_short_name@, b2, b.b_short_name@);
        assert(a.b_short_name =~= b.b_short_name);
        lemma_concat_cancel(a1, a.b_name@, b1, b.b_name@);
        assert(a.b_name =~= b.b_name);
        lemma_concat_cancel(a0, le_i32(a.nation_id), b0, le_i32(b.nation_id));
        lemma_le_i32_injective(a.nation_id, b.nation_id);
        lemma_le_i32_injective(a.id, b.id);
    }

    fn width() -> (n: usize) {
        117
    }

    fn id(&self) -> (k: i32) {
        self.id
    }

    fn parse(bytes: &[u8], at: usize) -> (r: Option<Self>) {
        if bytes.len() < 117 || at > bytes.len() - 117 {
            return None;
        }
        let mut r = Reader::new(bytes, at);
        let id = r.read_i32();
        assert(r.taken() =~= le_i32(id));
        let nation_id = r.read_i32();
        let b_name = r.read_bytes::<STANDARD_TEXT_LENGTH>();
        let b_short_name = r.read_bytes::<STANDARD_TEXT_LENGTH>();
        let gender_name = r.read_i8();
        let b_abbreviation = r.read_bytes::<REAL_SHORT_TEXT_LENGTH>();
        let rec = StateProvince {
            id,
            nation_id,
            b_name,
            b_short_name,
            gender_name,
            b_abbreviation,
        };
        proof {
            r.lemma_taken();
        }
        Some(rec)
    }

    fn to_bytes(&self) -> (out: Vec<u8>) {
        let mut out = Vec::new();
        put_i32(&mut out, self.id);
        assert(out@ =~= le_i32(self.id));
        put_i32(&mut out, self.nation_id);
        put_bytes(&mut out, &self.b_name);
        put_bytes(&mut out, &self.b_short_name);
        put_i8(&mut out, self.gender_name);
        put_bytes(&mut out, &self.b_abbreviation);
        out
    }
}

} // verus!
