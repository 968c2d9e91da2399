//! The layout of one past season of a competition.

use vstd::prelude::*;

use crate::data::record::Record;
use crate::to_bytes::{
    group_le_len, le_i16, le_i32, lemma_concat_cancel, lemma_le_i16_injective,
    lemma_le_i32_injective, put_i16, put_i32, Reader,
};

verus! {

broadcast use group_le_len;

/// One past season of a competition.
#[derive(Clone, Copy, Debug, PartialEq, Eq)]
pub struct CompetitionHistory {
    pub id: i32,
    pub comp_id: i32,
    pub winner_id: i32,
    pub runner_up_id: i32,
    pub third_placed_id: i32,
    pub host_id: i32,
    pub regular_season_winner_id: i32,
    pub year: i16,
}

impl Record for CompetitionHistory {
    open spec fn encoding(&self) -> Seq<u8> {
        le_i32(self.id)
        + le_i32(self.comp_id)
        + le_i32(self.winner_id)
        + le_i32(self.runner_up_id)
        + le_i32(self.third_placed_id)
        + le_i32(self.host_id)
        + le_i32(self.regular_season_winner_id)
        + le_i16(self.year)
    }

    open spec fn key(&self) -> i32 {
        self.id
    }

    open spec fn stride() -> nat {
        30
    }

    proof fn lemma_stride(&self) {
    }

    proof fn lemma_injective(a: Self, b: Self) {
        let a0 = le_i32(a.id);
        let b0 = le_i32(b.id);
        let a1 = a0 + le_i32(a.comp_id);
        let b1 = b0 + le_i32(b.comp_id);
        let a2 = a1 + le_i32(a.winner_id);
        let b2 = b1 + le_i32(b.winner_id);
        let a3 = a2 + le_i32(a.runner_up_id);
        let b3 = b2 + le_i32(b.runner_up_id);
        let a4 = a3 + le_i32(a.third_placed_id);
        let b4 = b3 + le_i32(b.third_placed_id);
        let a5 = a4 + le_i32(a.host_id);
        let b5 = b4 + le_i32(b.host_id);
        let a6 = a5 + le_i32(a.regular_season_winner_id);
        let b6 = b5 + le_i32(b.regular_season_winner_id);
        lemma_concat_cancel(a6, le_i16(a.year), b6, le_i16(b.year));
        lemma_le_i16_injective(a.year, b.year);
        lemma_concat_cancel(
            a5,
            le_i32(a.regular_season_winner_id),
            b5,
            le_i32(b.regular_season_winner_id),
        );
        lemma_le_i32_injective(a.regular_season_winner_id, b.regular_season_winner_id);
        lemma_concat_cancel(a4, le_i32(a.host_id), b4, le_i32(b.host_id));
        lemma_le_i32_injective(a.host_id, b.host_id);
        lemma_concat_cancel(a3, le_i32(a.third_placed_id), b3, le_i32(b.third_placed_id));
        lemma_le_i32_injective(a.third_placed_id, b.third_placed_id);
        lemma_concat_cancel(a2, le_i32(a.runner_up_id), b2, le_i32(b.runner_up_id));
        lemma_le_i32_injective(a.runner_up_id, b.runner_up_id);
        lemma_concat_cancel(a1, le_i32(a.winner_id), b1, le_i32(b.winner_id));
        lemma_le_i32_injective(a.winner_id, b.winner_id);
        lemma_concat_cancel(a0, le_i32(a.comp_id), b0, le_i32(b.comp_id));
        lemma_le_i32_injective(a.comp_id, b.comp_id);
        lemma_le_i32_injective(a.id, b.id);
    }

    fn width() -> (n: usize) {
        30
    }

    fn id(&self) -> (k: i32) {
        self.id
    }

    fn parse(bytes: &[u8], at: usize) -> (r: Option<Self>) {
        if bytes.len() < 30 || at > bytes.len() - 30 {
            return None;
        }
        let mut r = Reader::new(bytes, at);
        let id = r.read_i32();
        assert(r.taken() =~= le_i32(id));
        let comp_id = r.read_i32();
        let winner_id = r.read_i32();
        let runner_up_id = r.read_i32();
        let third_placed_id = r.read_i32();
        let host_id = r.read_i32();
        let regular_season_winner_id = r.read_i32();
        let year = r.read_i16();
        let rec = CompetitionHistory {
            id,
            comp_id,
            winner_id,
            runner_up_id,
            third_placed_id,
            host_id,
            regular_season_winner_id,
            year,
        };
        proof {
            r.lemma_taken();
        }
        Some(rec)
    }

    fn to_bytes(&self) -> (out: Vec<u8>) {
        let mut out = Vec::new();
        put_i32(&mut out, self.id);
        assert(out@ =~= le_i32(self.id));
        put_i32(&mut out, self.comp_id);
        put_i32(&mut out, self.winner_id);
        put_i32(&mut out, self.runner_up_id);
        put_i32(&mut out, self.third_placed_id);
        put_i32(&mut out, self.host_id);
        put_i32(&mut out, self.regular_season_winner_id);
        put_i16(&mut out, self.year);
        out
    }
}

} // verus!
