//! The layout of the name of a stage of a competition.

use vstd::prelude::*;
use vstd::utf8::{decode_utf8, valid_utf8};

use crate::chars::{bytes_to_string, EncodingError, to_utf8, until_nul};
use crate::data::{SHORT_TEXT_LENGTH, STANDARD_TEXT_LENGTH};
use crate::data::record::Record;
use crate::to_bytes::{
    group_le_len, le_i32, le_i8, lemma_concat_cancel, lemma_le_i32_injective, lemma_le_i8_injective,
    put_bytes, put_i32, put_i8, Reader,
};

verus! {

broadcast use group_le_len;

/// The name of a stage of a competition.
#[derive(Clone, Copy, Debug, PartialEq, Eq)]
pub struct StageName {
    pub id: i32,
    pub b_long_name: [u8; STANDARD_TEXT_LENGTH],
    pub b_short_name: [u8; SHORT_TEXT_LENGTH],
    pub b_plural_name: [u8; STANDARD_TEXT_LENGTH],
    pub long_name_gender: i8,
    pub short_name_gender: i8,
    pub plural_name_gender: i8,
}

impl StageName {
    /// The long name of the stage.
    pub fn long_name(&self) -> (r: Result<String, EncodingError>)
        ensures
            r.is_ok() <==> valid_utf8(to_utf8(until_nul(self.b_long_name@))),
            r matches Ok(s) ==> s@ == decode_utf8(to_utf8(until_nul(self.b_long_name@))),
            r matches Err(e) ==> e.raw@ == self.b_long_name@,
    {
        bytes_to_string(&self.b_long_name)
    }

    /// The short name of the stage.
    pub fn short_name(&self) -> (r: Result<String, EncodingError>)
        ensures
            r.is_ok() <==> valid_utf8(to_utf8(until_nul(self.b_short_name@))),
            r matches Ok(s) ==> s@ == decode_utf8(to_utf8(until_nul(self.b_short_name@))),
            r matches Err(e) ==> e.raw@ == self.b_short_name@,
    {
        bytes_to_string(&self.b_short_name)
    }
}

impl Record for StageName {
    open spec fn encoding(&self) -> Seq<u8> {
        le_i32(self.id)
        + self.b_long_name@
        + self.b_short_name@
        + self.b_plural_name@
        + le_i8(self.long_name_gender)
        + le_i8(self.short_name_gender)
        + le_i8(self.plural_name_gender)
    }

    open spec fn key(&self) -> i32 {
        self.id
    }

    open spec fn stride() -> nat {
        135
    }

    proof fn lemma_stride(&self) {
    }

    proof fn lemma_injective(a: Self, b: Self) {
        let a0 = le_i32(a.id);
        let b0 = le_i32(b.id);
        let a1 = a0 + a.b_long_name@;
        let b1 = b0 + b.b_long_name@;
        let a2 = a1 + a.b_short_name@;
        let b2 = b1 + b.b_short_name@;
        let a3 = a2 + a.b_plural_name@;
        let b3 = b2 + b.b_plural_name@;
        let a4 = a3 + le_i8(a.long_name_gender);
        let b4 = b3 + le_i8(b.long_name_gender);
        let a5 = a4 + le_i8(a.short_name_gender);
        let b5 = b4 + le_i8(b.short_name_gender);
        lemma_concat_cancel(a5, le_i8(a.plural_name_gender), b5, le_i8(b.plural_name_gender));
        lemma_le_i8_injective(a.plural_name_gender, b.plural_name_gender);
        lemma_concat_cancel(a4, le_i8(a.short_name_gender), b4, le_i8(b.short_name_gender));
        lemma_le_i8_injective(a.short_name_gender, b.short_name_gender);
        lemma_concat_cancel(a3, le_i8(a.long_name_gender), b3, le_i8(b.long_name_gender));
        lemma_le_i8_injective(a.long_name_gender, b.long_name_gender);
        lemma_concat_cancel(a2, a.b_plural_name@, b2, b.b_plural_name@);
        assert(a.b_plural_name =~= b.b_plural_name);
        lemma_concat_cancel(a1, a.b_short_name@, b1, b.b_short_name@);
        assert(a.b_short_name =~= b.b_short_name);
        lemma_concat_cancel(a0, a.b_long_name@, b0, b.b_long_name@);
        assert(a.b_long_name =~= b.b_long_name);
        lemma_le_i32_injective(a.id, b.id);
    }

    fn width() -> (n: usize) {
        135
    }

    fn id(&self) -> (k: i32) {
        self.id
    }

    fn parse(bytes: &[u8], at: usize) -> (r: Option<Self>) {
        if bytes.len() < 135 || at > bytes.len() - 135 {
            return None;
        }
        let mut r = Reader::new(bytes, at);
        let id = r.read_i32();
        assert(r.taken() =~= le_i32(id));
        let b_long_name = r.read_bytes::<STANDARD_TEXT_LENGTH>();
        let b_short_name = r.read_bytes::<SHORT_TEXT_LENGTH>();
        let b_plural_name = r.read_bytes::<STANDARD_TEXT_LENGTH>();
        let long_name_gender = r.read_i8();
        let short_name_gender = r.read_i8();
        let plural_name_gender = r.read_i8();
        let rec = StageName {
            id,
            b_long_name,
            b_short_name,
            b_plural_name,
            long_name_gender,
            short_name_gender,
            plural_name_gender,
        };
        proof {
            r.lemma_taken();
        }
        Some(rec)
    }

    fn to_bytes(&self) -> (out: Vec<u8>) {
        let mut out = Vec::new();
        put_i32(&mut out, self.id);
        assert(out@ =~= le_i32(self.id));
        put_bytes(&mut out, &self.b_long_name);
        put_bytes(&mut out, &self.b_short_name);
        put_bytes(&mut out, &self.b_plural_name);
        put_i8(&mut out, self.long_name_gender);
        put_i8(&mut out, self.short_name_gender);
        put_i8(&mut out, self.plural_name_gender);
        out
    }
}

} // verus!
