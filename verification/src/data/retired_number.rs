//! The layout of a shirt number that a club has retired.

use vstd::prelude::*;
use vstd::utf8::{decode_utf8, valid_utf8};

use crate::chars::{bytes_to_string, EncodingError, to_utf8, until_nul};
use crate::data::LONG_TEXT_LENGTH;
use crate::data::record::Record;
use crate::to_bytes::{
    group_le_len, le_i32, le_u8, lemma_concat_cancel, lemma_le_i32_injective, lemma_le_u8_injective,
    put_bytes, put_i32, put_u8, Reader,
};

verus! {

broadcast use group_le_len;

/// A shirt number that a club has retired.
#[derive(Clone, Copy, Debug, PartialEq, Eq)]
pub struct RetiredNumber {
    pub id: i32,
    pub club_id: i32,
    pub b_player_name: [u8; LONG_TEXT_LENGTH],
    pub number: u8,
}

impl RetiredNumber {
    /// The name of the player who wore the number.
    pub fn player_name(&self) -> (r: Result<String, EncodingError>)
        ensures
            r.is_ok() <==> valid_utf8(to_utf8(until_nul(self.b_player_name@))),
            r matches Ok(s) ==> s@ == decode_utf8(to_utf8(until_nul(self.b_player_name@))),
            r matches Err(e) ==> e.raw@ == self.b_player_name@,
    {
        bytes_to_string(&self.b_player_name)
    }
}

impl Record for RetiredNumber {
    open spec fn encoding(&self) -> Seq<u8> {
        le_i32(self.id)
        + le_i32(self.club_id)
        + self.b_player_name@
        + le_u8(self.number)
    }

    open spec fn key(&self) -> i32 {
        self.id
    }

    open spec fn stride() -> nat {
        110
    }

    proof fn lemma_stride(&self) {
    }

    proof fn lemma_injective(a: Self, b: Self) {
        let a0 = le_i32(a.id);
        let b0 = le_i32(b.id);
        let a1 = a0 + le_i32(a.club_id);
        let b1 = b0 + le_i32(b.club_id);
        let a2 = a1 + a.b_player_name@;
        let b2 = b1 + b.b_player_name@;
        lemma_concat_cancel(a2, le_u8(a.number), b2, le_u8(b.number));
        lemma_le_u8_injective(a.number, b.number);
        lemma_concat_cancel(a1, a.b_player_name@, b1, b.b_player_name@);
        assert(a.b_player_name =~= b.b_player_name);
        lemma_concat_cancel(a0, le_i32(a.club_id), b0, le_i32(b.club_id));
        lemma_le_i32_injective(a.club_id, b.club_id);
        lemma_le_i32_injective(a.id, b.id);
    }

    fn width() -> (n: usize) {
        110
    }

    fn id(&self) -> (k: i32) {
        self.id
    }

    fn parse(bytes: &[u8], at: usize) -> (r: Option<Self>) {
        if bytes.len() < 110 || at > bytes.len() - 110 {
            return None;
        }
        let mut r = Reader::new(bytes, at);
        let id = r.read_i32();
        assert(r.taken() =~= le_i32(id));
        let club_id = r.read_i32();
        let b_player_name = r.read_bytes::<LONG_TEXT_LENGTH>();
        let number = r.read_u8();
        let rec = RetiredNumber {
            id,
            club_id,
            b_player_name,
            number,
        };
        proof {
            r.lemma_taken();
        }
        Some(rec)
    }

    fn to_bytes(&self) -> (out: Vec<u8>) {
        let mut out = Vec::new();
        put_i32(&mut out, self.id);
        assert(out@ =~= le_i32(self.id));
        put_i32(&mut out, self.club_id);
        put_bytes(&mut out, &self.b_player_name);
        put_u8(&mut out, self.number);
        out
    }
}

} // verus!
