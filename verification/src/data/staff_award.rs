//! The layout of an award for a person.

use vstd::prelude::*;
use vstd::utf8::{decode_utf8, valid_utf8};

use crate::chars::{bytes_to_string, EncodingError, to_utf8, until_nul};
use crate::data::{SHORT_TEXT_LENGTH, STANDARD_TEXT_LENGTH};
use crate::data::record::Record;
use crate::to_bytes::{
    group_le_len, le_i16, le_i32, le_i8, lemma_concat_cancel, lemma_le_i16_injective,
    lemma_le_i32_injective, lemma_le_i8_injective, put_bytes, put_i16, put_i32, put_i8, Reader,
};

verus! {

broadcast use group_le_len;

/// An award for a person.
#[derive(Clone, Copy, Debug, PartialEq, Eq)]
pub struct StaffAward {
    pub id: i32,
    pub continent_id: i32,
    pub nation_id: i32,
    pub comp_id: i32,
    pub foreground_colour_id: i32,
    pub background_colour_id: i32,
    pub trim_colour_id: i32,
    pub reputation: i16,
    pub b_short_name: [u8; SHORT_TEXT_LENGTH],
    pub b_name: [u8; STANDARD_TEXT_LENGTH],
    pub gender_name_short: i8,
    pub gender_name: i8,
}

impl StaffAward {
    /// The name of the award.
    pub fn name(&self) -> (r: Result<String, EncodingError>)
        ensures
            r.is_ok() <==> valid_utf8(to_utf8(until_nul(self.b_name@))),
            r matches Ok(s) ==> s@ == decode_utf8(to_utf8(until_nul(self.b_name@))),
            r matches Err(e) ==> e.raw@ == self.b_name@,
    {
        bytes_to_string(&self.b_name)
    }

    /// The short name of the award.
    pub fn short_name(&self) -> (r: Result<String, EncodingError>)
        ensures
            r.is_ok() <==> valid_utf8(to_utf8(until_nul(self.b_short_name@))),
            r matches Ok(s) ==> s@ == decode_utf8(to_utf8(until_nul(self.b_short_name@))),
            r matches Err(e) ==> e.raw@ == self.b_short_name@,
    {
        bytes_to_string(&self.b_short_name)
    }
}

impl Record for StaffAward {
    open spec fn encoding(&self) -> Seq<u8> {
        le_i32(self.id)
        + le_i32(self.continent_id)
        + le_i32(self.nation_id)
        + le_i32(self.comp_id)
        + le_i32(self.foreground_colour_id)
        + le_i32(self.background_colour_id)
        + le_i32(self.trim_colour_id)
        + le_i16(self.reputation)
        + self.b_short_name@
        + self.b_name@
        + le_i8(self.gender_name_short)
        + le_i8(self.gender_name)
    }

    open spec fn key(&self) -> i32 {
        self.id
    }

    open spec fn stride() -> nat {
        109
    }

    proof fn lemma_stride(&self) {
    }

    proof fn lemma_injective(a: Self, b: Self) {
        let a0 = le_i32(a.id);
        let b0 = le_i32(b.id);
        let a1 = a0 + le_i32(a.continent_id);
        let b1 = b0 + le_i32(b.continent_id);
        let a2 = a1 + le_i32(a.nation_id);
        let b2 = b1 + le_i32(b.nation_id);
        let a3 = a2 + le_i32(a.comp_id);
        let b3 = b2 + le_i32(b.comp_id);
        let a4 = a3 + le_i32(a.foreground_colour_id);
        let b4 = b3 + le_i32(b.foreground_colour_id);
        let a5 = a4 + le_i32(a.background_colour_id);
        let b5 = b4 + le_i32(b.background_colour_id);
        let a6 = a5 + le_i32(a.trim_colour_id);
        let b6 = b5 + le_i32(b.trim_colour_id);
        let a7 = a6 + le_i16(a.reputation);
        let b7 = b6 + le_i16(b.reputation);
        let a8 = a7 + a.b_short_name@;
        let b8 = b7 + b.b_short_name@;
        let a9 = a8 + a.b_name@;
        let b9 = b8 + b.b_name@;
        let a10 = a9 + le_i8(a.gender_name_short);
        let b10 = b9 + le_i8(b.gender_name_short);
        lemma_concat_cancel(a10, le_i8(a.gender_name), b10, le_i8(b.gender_name));
        lemma_le_i8_injective(a.gender_name, b.gender_name);
        lemma_concat_cancel(a9, le_i8(a.gender_name_short), b9, le_i8(b.gender_name_short));
        lemma_le_i8_injective(a.gender_name_short, b.gender_name_short);
        lemma_concat_cancel(a8, a.b_name@, b8, b.b_name@);
        assert(a.b_name =~= b.b_name);
        lemma_concat_cancel(a7, a.b_short_name@, b7, b.b_short_name@);
        assert(a.b_short_name =~= b.b_short_name);
        lemma_concat_cancel(a6, le_i16(a.reputation), b6, le_i16(b.reputation));
        lemma_le_i16_injective(a.reputation, b.reputation);
        lemma_concat_cancel(a5, le_i32(a.trim_colour_id), b5, le_i32(b.trim_colour_id));
        lemma_le_i32_injective(a.trim_colour_id, b.trim_colour_id);
        lemma_concat_cancel(a4, le_i32(a.background_colour_id), b4, le_i32(b.background_colour_id));
        lemma_le_i32_injective(a.background_colour_id, b.background_colour_id);
        lemma_concat_cancel(a3, le_i32(a.foreground_colour_id), b3, le_i32(b.foreground_colour_id));
        lemma_le_i32_injective(a.foreground_colour_id, b.foreground_colour_id);
        lemma_concat_cancel(a2, le_i32(a.comp_id), b2, le_i32(b.comp_id));
        lemma_le_i32_injective(a.comp_id, b.comp_id);
        lemma_concat_cancel(a1, le_i32(a.nation_id), b1, le_i32(b.nation_id));
        lemma_le_i32_injective(a.nation_id, b.nation_id);
        lemma_concat_cancel(a0, le_i32(a.continent_id), b0, le_i32(b.continent_id));
        lemma_le_i32_injective(a.continent_id, b.continent_id);
        lemma_le_i32_injective(a.id, b.id);
    }

    fn width() -> (n: usize) {
        109
    }

    fn id(&self) -> (k: i32) {
        self.id
    }

    fn parse(bytes: &[u8], at: usize) -> (r: Option<Self>) {
        if bytes.len() < 109 || at > bytes.len() - 109 {
            return None;
        }
        let mut r = Reader::new(bytes, at);
        let id = r.read_i32();
        assert(r.taken() =~= le_i32(id));
        let continent_id = r.read_i32();
        let nation_id = r.read_i32();
        let comp_id = r.read_i32();
        let foreground_colour_id = r.read_i32();
        let background_colour_id = r.read_i32();
        let trim_colour_id = r.read_i32();
        let reputation = r.read_i16();
        assert(r.pos == at + 30);
        let b_short_name = r.read_bytes::<SHORT_TEXT_LENGTH>();
        let b_name = r.read_bytes::<STANDARD_TEXT_LENGTH>();
        let gender_name_short = r.read_i8();
        let gender_name = r.read_i8();
        let rec = StaffAward {
            id,
            continent_id,
            nation_id,
            comp_id,
            foreground_colour_id,
            background_colour_id,
            trim_colour_id,
            reputation,
            b_short_name,
            b_name,
            gender_name_short,
            gender_name,
        };
        proof {
            r.lemma_taken();
        }
        Some(rec)
    }

    fn to_bytes(&self) -> (out: Vec<u8>) {
        let mut out = Vec::new();
        put_i32(&mut out, self.id);
        assert(out@ =~= le_i32(self.id));
        put_i32(&mut out, self.continent_id);
        put_i32(&mut out, self.nation_id);
        put_i32(&mut out, self.comp_id);
        put_i32(&mut out, self.foreground_colour_id);
        put_i32(&mut out, self.background_colour_id);
        put_i32(&mut out, self.trim_colour_id);
        put_i16(&mut out, self.reputation);
        put_bytes(&mut out, &self.b_short_name);
        put_bytes(&mut out, &self.b_name);
        put_i8(&mut out, self.gender_name_short);
        put_i8(&mut out, self.gender_name);
        out
    }
}

} // verus!
