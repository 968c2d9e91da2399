//! The layout of a forename or a surname.

use vstd::prelude::*;
use vstd::utf8::{decode_utf8, valid_utf8};

use crate::chars::{bytes_to_string, EncodingError, to_utf8, until_nul};
use crate::data::STANDARD_TEXT_LENGTH;
use crate::data::record::Record;
use crate::to_bytes::{
    group_le_len, le_i32, le_i8, lemma_concat_cancel, lemma_le_i32_injective, lemma_le_i8_injective,
    put_bytes, put_i32, put_i8, Reader,
};

verus! {

broadcast use group_le_len;

/// A forename or a surname.
#[derive(Clone, Copy, Debug, PartialEq, Eq)]
pub struct Name {
    pub b_name: [u8; STANDARD_TEXT_LENGTH],
    pub id: i32,
    pub nation_id: i32,
    pub count: i8,
}

impl Name {
    /// The name.
    pub fn name(&self) -> (r: Result<String, EncodingError>)
        ensures
            r.is_ok() <==> valid_utf8(to_utf8(until_nul(self.b_name@))),
            r matches Ok(s) ==> s@ == decode_utf8(to_utf8(until_nul(self.b_name@))),
            r matches Err(e) ==> e.raw@ == self.b_name@,
    {
        bytes_to_string(&self.b_name)
    }
}

impl Record for Name {
    open spec fn encoding(&self) -> Seq<u8> {
        self.b_name@
        + le_i32(self.id)
        + le_i32(self.nation_id)
        + le_i8(self.count)
    }

    open spec fn key(&self) -> i32 {
        self.id
    }

    open spec fn stride() -> nat {
        60
    }

    proof fn lemma_stride(&self) {
    }

    proof fn lemma_injective(a: Self, b: Self) {
        let a0 = a.b_name@;
        let b0 = b.b_name@;
        let a1 = a0 + le_i32(a.id);
        let b1 = b0 + le_i32(b.id);
        let a2 = a1 + le_i32(a.nation_id);
        let b2 = b1 + le_i32(b.nation_id);
        lemma_concat_cancel(a2, le_i8(a.count), b2, le_i8(b.count));
        lemma_le_i8_injective(a.count, b.count);
        lemma_concat_cancel(a1, le_i32(a.nation_id), b1, le_i32(b.nation_id));
        lemma_le_i32_injective(a.nation_id, b.nation_id);
        lemma_concat_cancel(a0, le_i32(a.id), b0, le_i32(b.id));
        lemma_le_i32_injective(a.id, b.id);
        assert(a.b_name =~= b.b_name);
    }

    fn width() -> (n: usize) {
        60
    }

    fn id(&self) -> (k: i32) {
        self.id
    }

    fn parse(bytes: &[u8], at: usize) -> (r: Option<Self>) {
        if bytes.len() < 60 || at > bytes.len() - 60 {
            return None;
        }
        let mut r = Reader::new(bytes, at);
        let b_name = r.read_bytes::<STANDARD_TEXT_LENGTH>();
        assert(r.taken() =~= b_name@);
        let id = r.read_i32();
        let nation_id = r.read_i32();
        let count = r.read_i8();
        let rec = Name {
            b_name,
            id,
            nation_id,
            count,
        };
        proof {
            r.lemma_taken();
        }
        Some(rec)
    }

    fn to_bytes(&self) -> (out: Vec<u8>) {
        let mut out = Vec::new();
        put_bytes(&mut out, &self.b_name);
        assert(out@ =~= self.b_name@);
        put_i32(&mut out, self.id);
        put_i32(&mut out, self.nation_id);
        put_i8(&mut out, self.count);
        out
    }
}

} // verus!
