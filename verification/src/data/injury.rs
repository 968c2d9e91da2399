//! The layout of a kind of injury.

use vstd::prelude::*;
use vstd::utf8::{decode_utf8, valid_utf8};

use crate::chars::{bytes_to_string, EncodingError, to_utf8, until_nul};
use crate::data::STANDARD_TEXT_LENGTH;
use crate::data::record::Record;
use crate::to_bytes::{
    group_le_len, le_i16, le_i8, le_u8, lemma_concat_cancel, lemma_le_i16_injective,
    lemma_le_i8_injective, lemma_le_u8_injective, put_bytes, put_i16, put_i8, put_u8, Reader,
};

verus! {

broadcast use group_le_len;

/// A kind of injury.
#[derive(Clone, Copy, Debug, PartialEq, Eq)]
pub struct Injury {
    pub minimum_days_out: i16,
    pub extra_days_out: i16,
    pub id: i16,
    pub category: i8,
    pub chance: i8,
    pub inactive_ratio: i8,
    pub b_is_recurring: u8,
    pub severity: i8,
    pub cause: i8,
    pub gender: i8,
    pub b_name: [u8; STANDARD_TEXT_LENGTH],
    pub b_name_dative: [u8; STANDARD_TEXT_LENGTH],
    pub b_name_genetive: [u8; STANDARD_TEXT_LENGTH],
    pub b_name_special_nominative: [u8; STANDARD_TEXT_LENGTH],
}

impl Injury {
    /// The name of the injury.
    pub fn name(&self) -> (r: Result<String, EncodingError>)
        ensures
            r.is_ok() <==> valid_utf8(to_utf8(until_nul(self.b_name@))),
            r matches Ok(s) ==> s@ == decode_utf8(to_utf8(until_nul(self.b_name@))),
            r matches Err(e) ==> e.raw@ == self.b_name@,
    {
        bytes_to_string(&self.b_name)
    }

    /// The name in the dative.
    pub fn name_dative(&self) -> (r: Result<String, EncodingError>)
        ensures
            r.is_ok() <==> valid_utf8(to_utf8(until_nul(self.b_name_dative@))),
            r matches Ok(s) ==> s@ == decode_utf8(to_utf8(until_nul(self.b_name_dative@))),
            r matches Err(e) ==> e.raw@ == self.b_name_dative@,
    {
        bytes_to_string(&self.b_name_dative)
    }

    /// The name in the genitive.
    pub fn name_genetive(&self) -> (r: Result<String, EncodingError>)
        ensures
            r.is_ok() <==> valid_utf8(to_utf8(until_nul(self.b_name_genetive@))),
            r matches Ok(s) ==> s@ == decode_utf8(to_utf8(until_nul(self.b_name_genetive@))),
            r matches Err(e) ==> e.raw@ == self.b_name_genetive@,
    {
        bytes_to_string(&self.b_name_genetive)
    }

    /// The special nominative of the name.
    pub fn name_special_nominative(&self) -> (r: Result<String, EncodingError>)
        ensures
            r.is_ok() <==> valid_utf8(to_utf8(until_nul(self.b_name_special_nominative@))),
            r matches Ok(s) ==> s@ == decode_utf8(
                to_utf8(until_nul(self.b_name_special_nominative@)),
            ),
            r matches Err(e) ==> e.raw@ == self.b_name_special_nominative@,
    {
        bytes_to_string(&self.b_name_special_nominative)
    }

    /// Whether the injury comes back.
    pub fn is_recurring(&self) -> (b: bool)
        ensures
            b == (self.b_is_recurring != 0),
    {
        self.b_is_recurring != 0
    }
}

impl Record for Injury {
    open spec fn encoding(&self) -> Seq<u8> {
        le_i16(self.minimum_days_out)
        + le_i16(self.extra_days_out)
        + le_i16(self.id)
        + le_i8(self.category)
        + le_i8(self.chance)
        + le_i8(self.inactive_ratio)
        + le_u8(self.b_is_recurring)
        + le_i8(self.severity)
        + le_i8(self.cause)
        + le_i8(self.gender)
        + self.b_name@
        + self.b_name_dative@
        + self.b_name_genetive@
        + self.b_name_special_nominative@
    }

    open spec fn key(&self) -> i32 {
        self.id as i32
    }

    open spec fn stride() -> nat {
        217
    }

    proof fn lemma_stride(&self) {
    }

    proof fn lemma_injective(a: Self, b: Self) {
        let a0 = le_i16(a.minimum_days_out);
        let b0 = le_i16(b.minimum_days_out);
        let a1 = a0 + le_i16(a.extra_days_out);
        let b1 = b0 + le_i16(b.extra_days_out);
        let a2 = a1 + le_i16(a.id);
        let b2 = b1 + le_i16(b.id);
        let a3 = a2 + le_i8(a.category);
        let b3 = b2 + le_i8(b.category);
        let a4 = a3 + le_i8(a.chance);
        let b4 = b3 + le_i8(b.chance);
        let a5 = a4 + le_i8(a.inactive_ratio);
        let b5 = b4 + le_i8(b.inactive_ratio);
        let a6 = a5 + le_u8(a.b_is_recurring);
        let b6 = b5 + le_u8(b.b_is_recurring);
        let a7 = a6 + le_i8(a.severity);
        let b7 = b6 + le_i8(b.severity);
        let a8 = a7 + le_i8(a.cause);
        let b8 = b7 + le_i8(b.cause);
        let a9 = a8 + le_i8(a.gender);
        let b9 = b8 + le_i8(b.gender);
        let a10 = a9 + a.b_name@;
        let b10 = b9 + b.b_name@;
        let a11 = a10 + a.b_name_dative@;
        let b11 = b10 + b.b_name_dative@;
        let a12 = a11 + a.b_name_genetive@;
        let b12 = b11 + b.b_name_genetive@;
        lemma_concat_cancel(a12, a.b_name_special_nominative@, b12, b.b_name_special_nominative@);
        assert(a.b_name_special_nominative =~= b.b_name_special_nominative);
        lemma_concat_cancel(a11, a.b_name_genetive@, b11, b.b_name_genetive@);
        assert(a.b_name_genetive =~= b.b_name_genetive);
        lemma_concat_cancel(a10, a.b_name_dative@, b10, b.b_name_dative@);
        assert(a.b_name_dative =~= b.b_name_dative);
        lemma_concat_cancel(a9, a.b_name@, b9, b.b_name@);
        assert(a.b_name =~= b.b_name);
        lemma_concat_cancel(a8, le_i8(a.gender), b8, le_i8(b.gender));
        lemma_le_i8_injective(a.gender, b.gender);
        lemma_concat_cancel(a7, le_i8(a.cause), b7, le_i8(b.cause));
        lemma_le_i8_injective(a.cause, b.cause);
        lemma_concat_cancel(a6, le_i8(a.severity), b6, le_i8(b.severity));
        lemma_le_i8_injective(a.severity, b.severity);
        lemma_concat_cancel(a5, le_u8(a.b_is_recurring), b5, le_u8(b.b_is_recurring));
        lemma_le_u8_injective(a.b_is_recurring, b.b_is_recurring);
        lemma_concat_cancel(a4, le_i8(a.inactive_ratio), b4, le_i8(b.inactive_ratio));
        lemma_le_i8_injective(a.inactive_ratio, b.inactive_ratio);
        lemma_concat_cancel(a3, le_i8(a.chance), b3, le_i8(b.chance));
        lemma_le_i8_injective(a.chance, b.chance);
        lemma_concat_cancel(a2, le_i8(a.category), b2, le_i8(b.category));
        lemma_le_i8_injective(a.category, b.category);
        lemma_concat_cancel(a1, le_i16(a.id), b1, le_i16(b.id));
        lemma_le_i16_injective(a.id, b.id);
        lemma_concat_cancel(a0, le_i16(a.extra_days_out), b0, le_i16(b.extra_days_out));
        lemma_le_i16_injective(a.extra_days_out, b.extra_days_out);
        lemma_le_i16_injective(a.minimum_days_out, b.minimum_days_out);
    }

    fn width() -> (n: usize) {
        217
    }

    fn id(&self) -> (k: i32) {
        self.id as i32
    }

    fn parse(bytes: &[u8], at: usize) -> (r: Option<Self>) {
        if bytes.len() < 217 || at > bytes.len() - 217 {
            return None;
        }
        let mut r = Reader::new(bytes, at);
        let minimum_days_out = r.read_i16();
        assert(r.taken() =~= le_i16(minimum_days_out));
        let extra_days_out = r.read_i16();
        let id = r.read_i16();
        let category = r.read_i8();
        let chance = r.read_i8();
        let inactive_ratio = r.read_i8();
        let b_is_recurring = r.read_u8();
        let severity = r.read_i8();
        assert(r.pos == at + 11);
        let cause = r.read_i8();
        let gender = r.read_i8();
        let b_name = r.read_bytes::<STANDARD_TEXT_LENGTH>();
        let b_name_dative = r.read_bytes::<STANDARD_TEXT_LENGTH>();
        let b_name_genetive = r.read_bytes::<STANDARD_TEXT_LENGTH>();
        let b_name_special_nominative = r.read_bytes::<STANDARD_TEXT_LENGTH>();
        let rec = Injury {
            minimum_days_out,
            extra_days_out,
            id,
            category,
            chance,
            inactive_ratio,
            b_is_recurring,
            severity,
            cause,
            gender,
            b_name,
            b_name_dative,
            b_name_genetive,
            b_name_special_nominative,
        };
        proof {
            r.lemma_taken();
        }
        Some(rec)
    }

    fn to_bytes(&self) -> (out: Vec<u8>) {
        let mut out = Vec::new();
        put_i16(&mut out, self.minimum_days_out);
        assert(out@ =~= le_i16(self.minimum_days_out));
        put_i16(&mut out, self.extra_days_out);
        put_i16(&mut out, self.id);
        put_i8(&mut out, self.category);
        put_i8(&mut out, self.chance);
        put_i8(&mut out, self.inactive_ratio);
        put_u8(&mut out, self.b_is_recurring);
        put_i8(&mut out, self.severity);
        put_i8(&mut out, self.cause);
        put_i8(&mut out, self.gender);
        put_bytes(&mut out, &self.b_name);
        put_bytes(&mut out, &self.b_name_dative);
        put_bytes(&mut out, &self.b_name_genetive);
        put_bytes(&mut out, &self.b_name_special_nominative);
        out
    }
}

} // verus!
