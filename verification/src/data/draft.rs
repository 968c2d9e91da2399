//! The layout of a draft.

use vstd::prelude::*;
use vstd::utf8::{decode_utf8, valid_utf8};

use crate::chars::{bytes_to_string, EncodingError, to_utf8, until_nul};
use crate::data::STANDARD_TEXT_LENGTH;
use crate::data::record::Record;
use crate::to_bytes::{
    group_le_len, le_i32, le_i8, le_u8, lemma_concat_cancel, lemma_le_i32_injective,
    lemma_le_i8_injective, lemma_le_u8_injective, put_bytes, put_i32, put_i8, put_u8, Reader,
};

verus! {

broadcast use group_le_len;

/// A draft.
#[derive(Clone, Copy, Debug, PartialEq, Eq)]
pub struct Draft {
    pub id: i32,
    pub comp_id: i32,
    pub b_name: [u8; STANDARD_TEXT_LENGTH],
    pub gender_name: i8,
    pub b_is_extinct: u8,
}

impl Draft {
    /// The name of the draft.
    pub fn name(&self) -> (r: Result<String, EncodingError>)
        ensures
            r.is_ok() <==> valid_utf8(to_utf8(until_nul(self.b_name@))),
            r matches Ok(s) ==> s@ == decode_utf8(to_utf8(until_nul(self.b_name@))),
            r matches Err(e) ==> e.raw@ == self.b_name@,
    {
        bytes_to_string(&self.b_name)
    }

    /// Whether the draft is no longer held.
    pub fn is_extinct(&self) -> (b: bool)
        ensures
            b == (self.b_is_extinct != 0),
    {
        self.b_is_extinct != 0
    }
}

impl Record for Draft {
    open spec fn encoding(&self) -> Seq<u8> {
        le_i32(self.id)
        + le_i32(self.comp_id)
        + self.b_name@
        + le_i8(self.gender_name)
        + le_u8(self.b_is_extinct)
    }

    open spec fn key(&self) -> i32 {
        self.id
    }

    open spec fn stride() -> nat {
        61
    }

    proof fn lemma_stride(&self) {
    }

    proof fn lemma_injective(a: Self, b: Self) {
        let a0 = le_i32(a.id);
        let b0 = le_i32(b.id);
        let a1 = a0 + le_i32(a.comp_id);
        let b1 = b0 + le_i32(b.comp_id);
        let a2 = a1 + a.b_name@;
        let b2 = b1 + b.b_name@;
        let a3 = a2 + le_i8(a.gender_name);
        let b3 = b2 + le_i8(b.gender_name);
        lemma_concat_cancel(a3, le_u8(a.b_is_extinct), b3, le_u8(b.b_is_extinct));
        lemma_le_u8_injective(a.b_is_extinct, b.b_is_extinct);
        lemma_concat_cancel(a2, le_i8(a.gender_name), b2, le_i8(b.gender_name));
        lemma_le_i8_injective(a.gender_name, b.gender_name);
        lemma_concat_cancel(a1, a.b_name@, b1, b.b_name@);
        assert(a.b_name =~= b.b_name);
        lemma_concat_cancel(a0, le_i32(a.comp_id), b0, le_i32(b.comp_id));
        lemma_le_i32_injective(a.comp_id, b.comp_id);
        lemma_le_i32_injective(a.id, b.id);
    }

    fn width() -> (n: usize) {
        61
    }

    fn id(&self) -> (k: i32) {
        self.id
    }

    fn parse(bytes: &[u8], at: usize) -> (r: Option<Self>) {
        if bytes.len() < 61 || at > bytes.len() - 61 {
            return None;
        }
        let mut r = Reader::new(bytes, at);
        let id = r.read_i32();
        assert(r.taken() =~= le_i32(id));
        let comp_id = r.read_i32();
        let b_name = r.read_bytes::<STANDARD_TEXT_LENGTH>();
        let gender_name = r.read_i8();
        let b_is_extinct = r.read_u8();
        let rec = Draft {
            id,
            comp_id,
            b_name,
            gender_name,
            b_is_extinct,
        };
        proof {
            r.lemma_taken();
        }
        Some(rec)
    }

    fn to_bytes(&self) -> (out: Vec<u8>) {
        let mut out = Vec::new();
        put_i32(&mut out, self.id);
        assert(out@ =~= le_i32(self.id));
        put_i32(&mut out, self.comp_id);
        put_bytes(&mut out, &self.b_name);
        put_i8(&mut out, self.gender_name);
        put_u8(&mut out, self.b_is_extinct);
        out
    }
}

} // verus!
