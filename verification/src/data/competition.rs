//! The layout of a competition of clubs or of nations.

use vstd::prelude::*;
use vstd::utf8::{decode_utf8, valid_utf8};

use crate::chars::{bytes_to_string, EncodingError, to_utf8, until_nul};
use crate::data::{SHORT_TEXT_LENGTH, SIX_LETTER_TEXT_LENGTH, STANDARD_TEXT_LENGTH};
use crate::data::record::Record;
use crate::to_bytes::{
    group_le_len, le_i16, le_i32, le_i8, lemma_concat_cancel, lemma_le_i16_injective,
    lemma_le_i32_injective, lemma_le_i8_injective, put_bytes, put_i16, put_i32, put_i8, Reader,
};

verus! {

broadcast use group_le_len;

/// A competition of clubs or of nations.
#[derive(Clone, Copy, Debug, PartialEq, Eq)]
pub struct Competition {
    pub id: i32,
    pub continent_id: i32,
    pub nation_id: i32,
    pub foreground_colour_id: i32,
    pub background_colour_id: i32,
    pub trim_colour_id: i32,
    pub b_six_letter_name: [u8; SIX_LETTER_TEXT_LENGTH],
    pub gender_name_short: i8,
    pub scope: i8,
    pub reputation: i16,
    pub b_name: [u8; STANDARD_TEXT_LENGTH],
    pub b_short_name: [u8; SHORT_TEXT_LENGTH],
    pub b_playoff_trophy_name: [u8; STANDARD_TEXT_LENGTH],
    pub b_regular_season_trophy_name: [u8; STANDARD_TEXT_LENGTH],
    pub playoff_trophy_gender: i8,
    pub regular_season_trophy_gender: i8,
    pub selected: i8,
    pub gender_name: i8,
    pub upper_age_limit: i8,
}

impl Competition {
    /// The six-letter name.
    pub fn six_letter_name(&self) -> (r: Result<String, EncodingError>)
        ensures
            r.is_ok() <==> valid_utf8(to_utf8(until_nul(self.b_six_letter_name@))),
            r matches Ok(s) ==> s@ == decode_utf8(to_utf8(until_nul(self.b_six_letter_name@))),
            r matches Err(e) ==> e.raw@ == self.b_six_letter_name@,
    {
        bytes_to_string(&self.b_six_letter_name)
    }

    /// The full name of the competition.
    pub fn name(&self) -> (r: Result<String, EncodingError>)
        ensures
            r.is_ok() <==> valid_utf8(to_utf8(until_nul(self.b_name@))),
            r matches Ok(s) ==> s@ == decode_utf8(to_utf8(until_nul(self.b_name@))),
            r matches Err(e) ==> e.raw@ == self.b_name@,
    {
        bytes_to_string(&self.b_name)
    }

    /// The short name of the competition.
    pub fn short_name(&self) -> (r: Result<String, EncodingError>)
        ensures
            r.is_ok() <==> valid_utf8(to_utf8(until_nul(self.b_short_name@))),
            r matches Ok(s) ==> s@ == decode_utf8(to_utf8(until_nul(self.b_short_name@))),
            r matches Err(e) ==> e.raw@ == self.b_short_name@,
    {
        bytes_to_string(&self.b_short_name)
    }

    /// The name of the playoff trophy.
    pub fn playoff_trophy_name(&self) -> (r: Result<String, EncodingError>)
        ensures
            r.is_ok() <==> valid_utf8(to_utf8(until_nul(self.b_playoff_trophy_name@))),
            r matches Ok(s) ==> s@ == decode_utf8(to_utf8(until_nul(self.b_playoff_trophy_name@))),
            r matches Err(e) ==> e.raw@ == self.b_playoff_trophy_name@,
    {
        bytes_to_string(&self.b_playoff_trophy_name)
    }

    /// The name of the regular-season trophy.
    pub fn regular_season_trophy_name(&self) -> (r: Result<String, EncodingError>)
        ensures
            r.is_ok() <==> valid_utf8(to_utf8(until_nul(self.b_regular_season_trophy_name@))),
            r matches Ok(s) ==> s@ == decode_utf8(
                to_utf8(until_nul(self.b_regular_season_trophy_name@)),
            ),
            r matches Err(e) ==> e.raw@ == self.b_regular_season_trophy_name@,
    {
        bytes_to_string(&self.b_regular_season_trophy_name)
    }
}

impl Record for Competition {
    open spec fn encoding(&self) -> Seq<u8> {
        le_i32(self.id)
        + le_i32(self.continent_id)
        + le_i32(self.nation_id)
        + le_i32(self.foreground_colour_id)
        + le_i32(self.background_colour_id)
        + le_i32(self.trim_colour_id)
        + self.b_six_letter_name@
        + le_i8(self.gender_name_short)
        + le_i8(self.scope)
        + le_i16(self.reputation)
        + self.b_name@
        + self.b_short_name@
        + self.b_playoff_trophy_name@
        + self.b_regular_season_trophy_name@
        + le_i8(self.playoff_trophy_gender)
        + le_i8(self.regular_season_trophy_gender)
        + le_i8(self.selected)
        + le_i8(self.gender_name)
        + le_i8(self.upper_age_limit)
    }

    open spec fn key(&self) -> i32 {
        self.id
    }

    open spec fn stride() -> nat {
        219
    }

    proof fn lemma_stride(&self) {
    }

    proof fn lemma_injective(a: Self, b: Self) {
        let a0 = le_i32(a.id);
        let b0 = le_i32(b.id);
        let a1 = a0 + le_i32(a.continent_id);
        let b1 = b0 + le_i32(b.continent_id);
        let a2 = a1 + le_i32(a.nation_id);
        let b2 = b1 + le_i32(b.nation_id);
        let a3 = a2 + le_i32(a.foreground_colour_id);
        let b3 = b2 + le_i32(b.foreground_colour_id);
        let a4 = a3 + le_i32(a.background_colour_id);
        let b4 = b3 + le_i32(b.background_colour_id);
        let a5 = a4 + le_i32(a.trim_colour_id);
        let b5 = b4 + le_i32(b.trim_colour_id);
        let a6 = a5 + a.b_six_letter_name@;
        let b6 = b5 + b.b_six_letter_name@;
        let a7 = a6 + le_i8(a.gender_name_short);
        let b7 = b6 + le_i8(b.gender_name_short);
        let a8 = a7 + le_i8(a.scope);
        let b8 = b7 + le_i8(b.scope);
        let a9 = a8 + le_i16(a.reputation);
        let b9 = b8 + le_i16(b.reputation);
        let a10 = a9 + a.b_name@;
        let b10 = b9 + b.b_name@;
        let a11 = a10 + a.b_short_name@;
        let b11 = b10 + b.b_short_name@;
        let a12 = a11 + a.b_playoff_trophy_name@;
        let b12 = b11 + b.b_playoff_trophy_name@;
        let a13 = a12 + a.b_regular_season_trophy_name@;
        let b13 = b12 + b.b_regular_season_trophy_name@;
        let a14 = a13 + le_i8(a.playoff_trophy_gender);
        let b14 = b13 + le_i8(b.playoff_trophy_gender);
        let a15 = a14 + le_i8(a.regular_season_trophy_gender);
        let b15 = b14 + le_i8(b.regular_season_trophy_gender);
        let a16 = a15 + le_i8(a.selected);
        let b16 = b15 + le_i8(b.selected);
        let a17 = a16 + le_i8(a.gender_name);
        let b17 = b16 + le_i8(b.gender_name);
        lemma_concat_cancel(a17, le_i8(a.upper_age_limit), b17, le_i8(b.upper_age_limit));
        lemma_le_i8_injective(a.upper_age_limit, b.upper_age_limit);
        lemma_concat_cancel(a16, le_i8(a.gender_name), b16, le_i8(b.gender_name));
        lemma_le_i8_injective(a.gender_name, b.gender_name);
        lemma_concat_cancel(a15, le_i8(a.selected), b15, le_i8(b.selected));
        lemma_le_i8_injective(a.selected, b.selected);
        lemma_concat_cancel(
            a14,
            le_i8(a.regular_season_trophy_gender),
            b14,
            le_i8(b.regular_season_trophy_gender),
        );
        lemma_le_i8_injective(a.regular_season_trophy_gender, b.regular_season_trophy_gender);
        lemma_concat_cancel(
            a13,
            le_i8(a.playoff_trophy_gender),
            b13,
            le_i8(b.playoff_trophy_gender),
        );
        lemma_le_i8_injective(a.playoff_trophy_gender, b.playoff_trophy_gender);
        lemma_concat_cancel(
            a12,
            a.b_regular_season_trophy_name@,
            b12,
            b.b_regular_season_trophy_name@,
        );
        assert(a.b_regular_season_trophy_name =~= b.b_regular_season_trophy_name);
        lemma_concat_cancel(a11, a.b_playoff_trophy_name@, b11, b.b_playoff_trophy_name@);
        assert(a.b_playoff_trophy_name =~= b.b_playoff_trophy_name);
        lemma_concat_cancel(a10, a.b_short_name@, b10, b.b_short_name@);
        assert(a.b_short_name =~= b.b_short_name);
        lemma_concat_cancel(a9, a.b_name@, b9, b.b_name@);
        assert(a.b_name =~= b.b_name);
        lemma_concat_cancel(a8, le_i16(a.reputation), b8, le_i16(b.reputation));
        lemma_le_i16_injective(a.reputation, b.reputation);
        lemma_concat_cancel(a7, le_i8(a.scope), b7, le_i8(b.scope));
        lemma_le_i8_injective(a.scope, b.scope);
        lemma_concat_cancel(a6, le_i8(a.gender_name_short), b6, le_i8(b.gender_name_short));
        lemma_le_i8_injective(a.gender_name_short, b.gender_name_short);
        lemma_concat_cancel(a5, a.b_six_letter_name@, b5, b.b_six_letter_name@);
        assert(a.b_six_letter_name =~= b.b_six_letter_name);
        lemma_concat_cancel(a4, le_i32(a.trim_colour_id), b4, le_i32(b.trim_colour_id));
        lemma_le_i32_injective(a.trim_colour_id, b.trim_colour_id);
        lemma_concat_cancel(a3, le_i32(a.background_colour_id), b3, le_i32(b.background_colour_id));
        lemma_le_i32_injective(a.background_colour_id, b.background_colour_id);
        lemma_concat_cancel(a2, le_i32(a.foreground_colour_id), b2, le_i32(b.foreground_colour_id));
        lemma_le_i32_injective(a.foreground_colour_id, b.foreground_colour_id);
        lemma_concat_cancel(a1, le_i32(a.nation_id), b1, le_i32(b.nation_id));
        lemma_le_i32_injective(a.nation_id, b.nation_id);
        lemma_concat_cancel(a0, le_i32(a.continent_id), b0, le_i32(b.continent_id));
        lemma_le_i32_injective(a.continent_id, b.continent_id);
        lemma_le_i32_injective(a.id, b.id);
    }

    fn width() -> (n: usize) {
        219
    }

    fn id(&self) -> (k: i32) {
        self.id
    }

    fn parse(bytes: &[u8], at: usize) -> (r: Option<Self>) {
        if bytes.len() < 219 || at > bytes.len() - 219 {
            return None;
        }
        let mut r = Reader::new(bytes, at);
        let id = r.read_i32();
        assert(r.taken() =~= le_i32(id));
        let continent_id = r.read_i32();
        let nation_id = r.read_i32();
        let foreground_colour_id = r.read_i32();
        let background_colour_id = r.read_i32();
        let trim_colour_id = r.read_i32();
        let b_six_letter_name = r.read_bytes::<SIX_LETTER_TEXT_LENGTH>();
        let gender_name_short = r.read_i8();
        assert(r.pos == at + 32);
        let scope = r.read_i8();
        let reputation = r.read_i16();
        let b_name = r.read_bytes::<STANDARD_TEXT_LENGTH>();
        let b_short_name = r.read_bytes::<SHORT_TEXT_LENGTH>();
        let b_playoff_trophy_name = r.read_bytes::<STANDARD_TEXT_LENGTH>();
        let b_regular_season_trophy_name = r.read_bytes::<STANDARD_TEXT_LENGTH>();
        let playoff_trophy_gender = r.read_i8();
        let regular_season_trophy_gender = r.read_i8();
        assert(r.pos == at + 216);
        let selected = r.read_i8();
        let gender_name = r.read_i8();
        let upper_age_limit = r.read_i8();
        let rec = Competition {
            id,
            continent_id,
            nation_id,
            foreground_colour_id,
            background_colour_id,
            trim_colour_id,
            b_six_letter_name,
            gender_name_short,
            scope,
            reputation,
            b_name,
            b_short_name,
            b_playoff_trophy_name,
            b_regular_season_trophy_name,
            playoff_trophy_gender,
            regular_season_trophy_gender,
            selected,
            gender_name,
            upper_age_limit,
        };
        proof {
            r.lemma_taken();
        }
        Some(rec)
    }

    fn to_bytes(&self) -> (out: Vec<u8>) {
        let mut out = Vec::new();
        put_i32(&mut out, self.id);
        assert(out@ =~= le_i32(self.id));
        put_i32(&mut out, self.continent_id);
        put_i32(&mut out, self.nation_id);
        put_i32(&mut out, self.foreground_colour_id);
        put_i32(&mut out, self.background_colour_id);
        put_i32(&mut out, self.trim_colour_id);
        put_bytes(&mut out, &self.b_six_letter_name);
        put_i8(&mut out, self.gender_name_short);
        put_i8(&mut out, self.scope);
        put_i16(&mut out, self.reputation);
        put_bytes(&mut out, &self.b_name);
        put_bytes(&mut out, &self.b_short_name);
        put_bytes(&mut out, &self.b_playoff_trophy_name);
        put_bytes(&mut out, &self.b_regular_season_trophy_name);
        put_i8(&mut out, self.playoff_trophy_gender);
        put_i8(&mut out, self.regular_season_trophy_gender);
        put_i8(&mut out, self.selected);
        put_i8(&mut out, self.gender_name);
        put_i8(&mut out, self.upper_age_limit);
        out
    }
}

} // verus!
