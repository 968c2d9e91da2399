//! The layout of a person's likes and dislikes.

use vstd::prelude::*;

use crate::data::record::Record;
use crate::to_bytes::{
    group_le_len, le_i32, lemma_concat_cancel, lemma_le_i32_injective, put_i32, Reader,
};

verus! {

broadcast use group_le_len;

/// A person's likes and dislikes.
#[derive(Clone, Copy, Debug, PartialEq, Eq)]
pub struct StaffPreferences {
    pub id: i32,
    pub favourite_club1_id: i32,
    pub favourite_club2_id: i32,
    pub favourite_club3_id: i32,
    pub disliked_club1_id: i32,
    pub disliked_club2_id: i32,
    pub disliked_club3_id: i32,
    pub favourite_staff1_id: i32,
    pub favourite_staff2_id: i32,
    pub favourite_staff3_id: i32,
    pub disliked_staff1_id: i32,
    pub disliked_staff2_id: i32,
    pub disliked_staff3_id: i32,
}

impl Record for StaffPreferences {
    open spec fn encoding(&self) -> Seq<u8> {
        le_i32(self.id)
        + le_i32(self.favourite_club1_id)
        + le_i32(self.favourite_club2_id)
        + le_i32(self.favourite_club3_id)
        + le_i32(self.disliked_club1_id)
        + le_i32(self.disliked_club2_id)
        + le_i32(self.disliked_club3_id)
        + le_i32(self.favourite_staff1_id)
        + le_i32(self.favourite_staff2_id)
        + le_i32(self.favourite_staff3_id)
        + le_i32(self.disliked_staff1_id)
        + le_i32(self.disliked_staff2_id)
        + le_i32(self.disliked_staff3_id)
    }

    open spec fn key(&self) -> i32 {
        self.id
    }

    open spec fn stride() -> nat {
        52
    }

    proof fn lemma_stride(&self) {
    }

    proof fn lemma_injective(a: Self, b: Self) {
        let a0 = le_i32(a.id);
        let b0 = le_i32(b.id);
        let a1 = a0 + le_i32(a.favourite_club1_id);
        let b1 = b0 + le_i32(b.favourite_club1_id);
        let a2 = a1 + le_i32(a.favourite_club2_id);
        let b2 = b1 + le_i32(b.favourite_club2_id);
        let a3 = a2 + le_i32(a.favourite_club3_id);
        let b3 = b2 + le_i32(b.favourite_club3_id);
        let a4 = a3 + le_i32(a.disliked_club1_id);
        let b4 = b3 + le_i32(b.disliked_club1_id);
        let a5 = a4 + le_i32(a.disliked_club2_id);
        let b5 = b4 + le_i32(b.disliked_club2_id);
        let a6 = a5 + le_i32(a.disliked_club3_id);
        let b6 = b5 + le_i32(b.disliked_club3_id);
        let a7 = a6 + le_i32(a.favourite_staff1_id);
        let b7 = b6 + le_i32(b.favourite_staff1_id);
        let a8 = a7 + le_i32(a.favourite_staff2_id);
        let b8 = b7 + le_i32(b.favourite_staff2_id);
        let a9 = a8 + le_i32(a.favourite_staff3_id);
        let b9 = b8 + le_i32(b.favourite_staff3_id);
        let a10 = a9 + le_i32(a.disliked_staff1_id);
        let b10 = b9 + le_i32(b.disliked_staff1_id);
        let a11 = a10 + le_i32(a.disliked_staff2_id);
        let b11 = b10 + le_i32(b.disliked_staff2_id);
        lemma_concat_cancel(a11, le_i32(a.disliked_staff3_id), b11, le_i32(b.disliked_staff3_id));
        lemma_le_i32_injective(a.disliked_staff3_id, b.disliked_staff3_id);
        lemma_concat_cancel(a10, le_i32(a.disliked_staff2_id), b10, le_i32(b.disliked_staff2_id));
        lemma_le_i32_injective(a.disliked_staff2_id, b.disliked_staff2_id);
        lemma_concat_cancel(a9, le_i32(a.disliked_staff1_id), b9, le_i32(b.disliked_staff1_id));
        lemma_le_i32_injective(a.disliked_staff1_id, b.disliked_staff1_id);
        lemma_concat_cancel(a8, le_i32(a.favourite_staff3_id), b8, le_i32(b.favourite_staff3_id));
        lemma_le_i32_injective(a.favourite_staff3_id, b.favourite_staff3_id);
        lemma_concat_cancel(a7, le_i32(a.favourite_staff2_id), b7, le_i32(b.favourite_staff2_id));
        lemma_le_i32_injective(a.favourite_staff2_id, b.favourite_staff2_id);
        lemma_concat_cancel(a6, le_i32(a.favourite_staff1_id), b6, le_i32(b.favourite_staff1_id));
        lemma_le_i32_injective(a.favourite_staff1_id, b.favourite_staff1_id);
        lemma_concat_cancel(a5, le_i32(a.disliked_club3_id), b5, le_i32(b.disliked_club3_id));
        lemma_le_i32_injective(a.disliked_club3_id, b.disliked_club3_id);
        lemma_concat_cancel(a4, le_i32(a.disliked_club2_id), b4, le_i32(b.disliked_club2_id));
        lemma_le_i32_injective(a.disliked_club2_id, b.disliked_club2_id);
        lemma_concat_cancel(a3, le_i32(a.disliked_club1_id), b3, le_i32(b.disliked_club1_id));
        lemma_le_i32_injective(a.disliked_club1_id, b.disliked_club1_id);
        lemma_concat_cancel(a2, le_i32(a.favourite_club3_id), b2, le_i32(b.favourite_club3_id));
        lemma_le_i32_injective(a.favourite_club3_id, b.favourite_club3_id);
        lemma_concat_cancel(a1, le_i32(a.favourite_club2_id), b1, le_i32(b.favourite_club2_id));
        lemma_le_i32_injective(a.favourite_club2_id, b.favourite_club2_id);
        lemma_concat_cancel(a0, le_i32(a.favourite_club1_id), b0, le_i32(b.favourite_club1_id));
        lemma_le_i32_injective(a.favourite_club1_id, b.favourite_club1_id);
        lemma_le_i32_injective(a.id, b.id);
    }

    fn width() -> (n: usize) {
        52
    }

    fn id(&self) -> (k: i32) {
        self.id
    }

    fn parse(bytes: &[u8], at: usize) -> (r: Option<Self>) {
        if bytes.len() < 52 || at > bytes.len() - 52 {
            return None;
        }
        let mut r = Reader::new(bytes, at);
        let id = r.read_i32();
        assert(r.taken() =~= le_i32(id));
        let favourite_club1_id = r.read_i32();
        let favourite_club2_id = r.read_i32();
        let favourite_club3_id = r.read_i32();
        let disliked_club1_id = r.read_i32();
        let disliked_club2_id = r.read_i32();
        let disliked_club3_id = r.read_i32();
        let favourite_staff1_id = r.read_i32();
        assert(r.pos == at + 32);
        let favourite_staff2_id = r.read_i32();
        let favourite_staff3_id = r.read_i32();
        let disliked_staff1_id = r.read_i32();
        let disliked_staff2_id = r.read_i32();
        let disliked_staff3_id = r.read_i32();
        let rec = StaffPreferences {
            id,
            favourite_club1_id,
            favourite_club2_id,
            favourite_club3_id,
            disliked_club1_id,
            disliked_club2_id,
            disliked_club3_id,
            favourite_staff1_id,
            favourite_staff2_id,
            favourite_staff3_id,
            disliked_staff1_id,
            disliked_staff2_id,
            disliked_staff3_id,
        };
        proof {
            r.lemma_taken();
        }
        Some(rec)
    }

    fn to_bytes(&self) -> (out: Vec<u8>) {
        let mut out = Vec::new();
        put_i32(&mut out, self.id);
        assert(out@ =~= le_i32(self.id));
        put_i32(&mut out, self.favourite_club1_id);
        put_i32(&mut out, self.favourite_club2_id);
        put_i32(&mut out, self.favourite_club3_id);
        put_i32(&mut out, self.disliked_club1_id);
        put_i32(&mut out, self.disliked_club2_id);
        put_i32(&mut out, self.disliked_club3_id);
        put_i32(&mut out, self.favourite_staff1_id);
        put_i32(&mut out, self.favourite_staff2_id);
        put_i32(&mut out, self.favourite_staff3_id);
        put_i32(&mut out, self.disliked_staff1_id);
        put_i32(&mut out, self.disliked_staff2_id);
        put_i32(&mut out, self.disliked_staff3_id);
        out
    }
}

} // verus!
