//! The layout of what a person is as a coach, scout or manager.

use vstd::prelude::*;

use crate::data::record::Record;
use crate::to_bytes::{
    group_le_len, le_i16, le_i32, le_i8, lemma_concat_cancel, lemma_le_i16_injective,
    lemma_le_i32_injective, lemma_le_i8_injective, put_i16, put_i32, put_i8, Reader,
};

verus! {

broadcast use group_le_len;

/// What a person is as a coach, scout or manager.
#[derive(Clone, Copy, Debug, PartialEq, Eq)]
pub struct NonPlayer {
    pub id: i32,
    pub current_ability: i16,
    pub potential_ability: i16,
    pub home_reputation: i16,
    pub current_reputation: i16,
    pub world_reputation: i16,
    pub attacking: i8,
    pub business: i8,
    pub coaching_technique: i8,
    pub directness: i8,
    pub discipline: i8,
    pub free_roles: i8,
    pub interference: i8,
    pub judgement: i8,
    pub judging_potential: i8,
    pub man_handling: i8,
    pub motivating: i8,
    pub patience: i8,
    pub physiotherapy: i8,
    pub resources: i8,
    pub tactics: i8,
    pub youngsters: i8,
    pub tactic_preferred: i8,
    pub coaching_forwards: i8,
    pub coaching_defensemen: i8,
    pub coaching_goaltenders: i8,
    pub line_matching: i8,
    pub power_play: i8,
    pub penalty_kill: i8,
    pub physical: i8,
}

impl Record for NonPlayer {
    open spec fn encoding(&self) -> Seq<u8> {
        le_i32(self.id)
        + le_i16(self.current_ability)
        + le_i16(self.potential_ability)
        + le_i16(self.home_reputation)
        + le_i16(self.current_reputation)
        + le_i16(self.world_reputation)
        + le_i8(self.attacking)
        + le_i8(self.business)
        + le_i8(self.coaching_technique)
        + le_i8(self.directness)
        + le_i8(self.discipline)
        + le_i8(self.free_roles)
        + le_i8(self.interference)
        + le_i8(self.judgement)
        + le_i8(self.judging_potential)
        + le_i8(self.man_handling)
        + le_i8(self.motivating)
        + le_i8(self.patience)
        + le_i8(self.physiotherapy)
        + le_i8(self.resources)
        + le_i8(self.tactics)
        + le_i8(self.youngsters)
        + le_i8(self.tactic_preferred)
        + le_i8(self.coaching_forwards)
        + le_i8(self.coaching_defensemen)
        + le_i8(self.coaching_goaltenders)
        + le_i8(self.line_matching)
        + le_i8(self.power_play)
        + le_i8(self.penalty_kill)
        + le_i8(self.physical)
    }

    open spec fn key(&self) -> i32 {
        self.id
    }

    open spec fn stride() -> nat {
        38
    }

    proof fn lemma_stride(&self) {
    }

    proof fn lemma_injective(a: Self, b: Self) {
        let a0 = le_i32(a.id);
        let b0 = le_i32(b.id);
        let a1 = a0 + le_i16(a.current_ability);
        let b1 = b0 + le_i16(b.current_ability);
        let a2 = a1 + le_i16(a.potential_ability);
        let b2 = b1 + le_i16(b.potential_ability);
        let a3 = a2 + le_i16(a.home_reputation);
        let b3 = b2 + le_i16(b.home_reputation);
        let a4 = a3 + le_i16(a.current_reputation);
        let b4 = b3 + le_i16(b.current_reputation);
        let a5 = a4 + le_i16(a.world_reputation);
        let b5 = b4 + le_i16(b.world_reputation);
        let a6 = a5 + le_i8(a.attacking);
        let b6 = b5 + le_i8(b.attacking);
        let a7 = a6 + le_i8(a.business);
        let b7 = b6 + le_i8(b.business);
        let a8 = a7 + le_i8(a.coaching_technique);
        let b8 = b7 + le_i8(b.coaching_technique);
        let a9 = a8 + le_i8(a.directness);
        let b9 = b8 + le_i8(b.directness);
        let a10 = a9 + le_i8(a.discipline);
        let b10 = b9 + le_i8(b.discipline);
        let a11 = a10 + le_i8(a.free_roles);
        let b11 = b10 + le_i8(b.free_roles);
        let a12 = a11 + le_i8(a.interference);
        let b12 = b11 + le_i8(b.interference);
        let a13 = a12 + le_i8(a.judgement);
        let b13 = b12 + le_i8(b.judgement);
        let a14 = a13 + le_i8(a.judging_potential);
        let b14 = b13 + le_i8(b.judging_potential);
        let a15 = a14 + le_i8(a.man_handling);
        let b15 = b14 + le_i8(b.man_handling);
        let a16 = a15 + le_i8(a.motivating);
        let b16 = b15 + le_i8(b.motivating);
        let a17 = a16 + le_i8(a.patience);
        let b17 = b16 + le_i8(b.patience);
        let a18 = a17 + le_i8(a.physiotherapy);
        let b18 = b17 + le_i8(b.physiotherapy);
        let a19 = a18 + le_i8(a.resources);
        let b19 = b18 + le_i8(b.resources);
        let a20 = a19 + le_i8(a.tactics);
        let b20 = b19 + le_i8(b.tactics);
        let a21 = a20 + le_i8(a.youngsters);
        let b21 = b20 + le_i8(b.youngsters);
        let a22 = a21 + le_i8(a.tactic_preferred);
        let b22 = b21 + le_i8(b.tactic_preferred);
        let a23 = a22 + le_i8(a.coaching_forwards);
        let b23 = b22 + le_i8(b.coaching_forwards);
        let a24 = a23 + le_i8(a.coaching_defensemen);
        let b24 = b23 + le_i8(b.coaching_defensemen);
        let a25 = a24 + le_i8(a.coaching_goaltenders);
        let b25 = b24 + le_i8(b.coaching_goaltenders);
        let a26 = a25 + le_i8(a.line_matching);
        let b26 = b25 + le_i8(b.line_matching);
        let a27 = a26 + le_i8(a.power_play);
        let b27 = b26 + le_i8(b.power_play);
        let a28 = a27 + le_i8(a.penalty_kill);
        let b28 = b27 + le_i8(b.penalty_kill);
        lemma_concat_cancel(a28, le_i8(a.physical), b28, le_i8(b.physical));
        lemma_le_i8_injective(a.physical, b.physical);
        lemma_concat_cancel(a27, le_i8(a.penalty_kill), b27, le_i8(b.penalty_kill));
        lemma_le_i8_injective(a.penalty_kill, b.penalty_kill);
        lemma_concat_cancel(a26, le_i8(a.power_play), b26, le_i8(b.power_play));
        lemma_le_i8_injective(a.power_play, b.power_play);
        lemma_concat_cancel(a25, le_i8(a.line_matching), b25, le_i8(b.line_matching));
        lemma_le_i8_injective(a.line_matching, b.line_matching);
        lemma_concat_cancel(a24, le_i8(a.coaching_goaltenders), b24, le_i8(b.coaching_goaltenders));
        lemma_le_i8_injective(a.coaching_goaltenders, b.coaching_goaltenders);
        lemma_concat_cancel(a23, le_i8(a.coaching_defensemen), b23, le_i8(b.coaching_defensemen));
        lemma_le_i8_injective(a.coaching_defensemen, b.coaching_defensemen);
        lemma_concat_cancel(a22, le_i8(a.coaching_forwards), b22, le_i8(b.coaching_forwards));
        lemma_le_i8_injective(a.coaching_forwards, b.coaching_forwards);
        lemma_concat_cancel(a21, le_i8(a.tactic_preferred), b21, le_i8(b.tactic_preferred));
        lemma_le_i8_injective(a.tactic_preferred, b.tactic_preferred);
        lemma_concat_cancel(a20, le_i8(a.youngsters), b20, le_i8(b.youngsters));
        lemma_le_i8_injective(a.youngsters, b.youngsters);
        lemma_concat_cancel(a19, le_i8(a.tactics), b19, le_i8(b.tactics));
        lemma_le_i8_injective(a.tactics, b.tactics);
        lemma_concat_cancel(a18, le_i8(a.resources), b18, le_i8(b.resources));
        lemma_le_i8_injective(a.resources, b.resources);
        lemma_concat_cancel(a17, le_i8(a.physiotherapy), b17, le_i8(b.physiotherapy));
        lemma_le_i8_injective(a.physiotherapy, b.physiotherapy);
        lemma_concat_cancel(a16, le_i8(a.patience), b16, le_i8(b.patience));
        lemma_le_i8_injective(a.patience, b.patience);
        lemma_concat_cancel(a15, le_i8(a.motivating), b15, le_i8(b.motivating));
        lemma_le_i8_injective(a.motivating, b.motivating);
        lemma_concat_cancel(a14, le_i8(a.man_handling), b14, le_i8(b.man_handling));
        lemma_le_i8_injective(a.man_handling, b.man_handling);
        lemma_concat_cancel(a13, le_i8(a.judging_potential), b13, le_i8(b.judging_potential));
        lemma_le_i8_injective(a.judging_potential, b.judging_potential);
        lemma_concat_cancel(a12, le_i8(a.judgement), b12, le_i8(b.judgement));
        lemma_le_i8_injective(a.judgement, b.judgement);
        lemma_concat_cancel(a11, le_i8(a.interference), b11, le_i8(b.interference));
        lemma_le_i8_injective(a.interference, b.interference);
        lemma_concat_cancel(a10, le_i8(a.free_roles), b10, le_i8(b.free_roles));
        lemma_le_i8_injective(a.free_roles, b.free_roles);
        lemma_concat_cancel(a9, le_i8(a.discipline), b9, le_i8(b.discipline));
        lemma_le_i8_injective(a.discipline, b.discipline);
        lemma_concat_cancel(a8, le_i8(a.directness), b8, le_i8(b.directness));
        lemma_le_i8_injective(a.directness, b.directness);
        lemma_concat_cancel(a7, le_i8(a.coaching_technique), b7, le_i8(b.coaching_technique));
        lemma_le_i8_injective(a.coaching_technique, b.coaching_technique);
        lemma_concat_cancel(a6, le_i8(a.business), b6, le_i8(b.business));
        lemma_le_i8_injective(a.business, b.business);
        lemma_concat_cancel(a5, le_i8(a.attacking), b5, le_i8(b.attacking));
        lemma_le_i8_injective(a.attacking, b.attacking);
        lemma_concat_cancel(a4, le_i16(a.world_reputation), b4, le_i16(b.world_reputation));
        lemma_le_i16_injective(a.world_reputation, b.world_reputation);
        lemma_concat_cancel(a3, le_i16(a.current_reputation), b3, le_i16(b.current_reputation));
        lemma_le_i16_injective(a.current_reputation, b.current_reputation);
        lemma_concat_cancel(a2, le_i16(a.home_reputation), b2, le_i16(b.home_reputation));
        lemma_le_i16_injective(a.home_reputation, b.home_reputation);
        lemma_concat_cancel(a1, le_i16(a.potential_ability), b1, le_i16(b.potential_ability));
        lemma_le_i16_injective(a.potential_ability, b.potential_ability);
        lemma_concat_cancel(a0, le_i16(a.current_ability), b0, le_i16(b.current_ability));
        lemma_le_i16_injective(a.current_ability, b.current_ability);
        lemma_le_i32_injective(a.id, b.id);
    }

    fn width() -> (n: usize) {
        38
    }

    fn id(&self) -> (k: i32) {
        self.id
    }

    fn parse(bytes: &[u8], at: usize) -> (r: Option<Self>) {
        if bytes.len() < 38 || at > bytes.len() - 38 {
            return None;
        }
        let mut r = Reader::new(bytes, at);
        let id = r.read_i32();
        assert(r.taken() =~= le_i32(id));
        let current_ability = r.read_i16();
        let potential_ability = r.read_i16();
        let home_reputation = r.read_i16();
        let current_reputation = r.read_i16();
        let world_reputation = r.read_i16();
        let attacking = r.read_i8();
        let business = r.read_i8();
        assert(r.pos == at + 16);
        let coaching_technique = r.read_i8();
        let directness = r.read_i8();
        let discipline = r.read_i8();
        let free_roles = r.read_i8();
        let interference = r.read_i8();
        let judgement = r.read_i8();
        let judging_potential = r.read_i8();
        let man_handling = r.read_i8();
        assert(r.pos == at + 24);
        let motivating = r.read_i8();
        let patience = r.read_i8();
        let physiotherapy = r.read_i8();
        let resources = r.read_i8();
        let tactics = r.read_i8();
        let youngsters = r.read_i8();
        let tactic_preferred = r.read_i8();
        let coaching_forwards = r.read_i8();
        assert(r.pos == at + 32);
        let coaching_defensemen = r.read_i8();
        let coaching_goaltenders = r.read_i8();
        let line_matching = r.read_i8();
        let power_play = r.read_i8();
        let penalty_kill = r.read_i8();
        let physical = r.read_i8();
        let rec = NonPlayer {
            id,
            current_ability,
            potential_ability,
            home_reputation,
            current_reputation,
            world_reputation,
            attacking,
            business,
            coaching_technique,
            directness,
            discipline,
            free_roles,
            interference,
            judgement,
            judging_potential,
            man_handling,
            motivating,
            patience,
            physiotherapy,
            resources,
            tactics,
            youngsters,
            tactic_preferred,
            coaching_forwards,
            coaching_defensemen,
            coaching_goaltenders,
            line_matching,
            power_play,
            penalty_kill,
            physical,
        };
        proof {
            r.lemma_taken();
        }
        Some(rec)
    }

    fn to_bytes(&self) -> (out: Vec<u8>) {
        let mut out = Vec::new();
        put_i32(&mut out, self.id);
        assert(out@ =~= le_i32(self.id));
        put_i16(&mut out, self.current_ability);
        put_i16(&mut out, self.potential_ability);
        put_i16(&mut out, self.home_reputation);
        put_i16(&mut out, self.current_reputation);
        put_i16(&mut out, self.world_reputation);
        put_i8(&mut out, self.attacking);
        put_i8(&mut out, self.business);
        put_i8(&mut out, self.coaching_technique);
        put_i8(&mut out, self.directness);
        put_i8(&mut out, self.discipline);
        put_i8(&mut out, self.free_roles);
        put_i8(&mut out, self.interference);
        put_i8(&mut out, self.judgement);
        put_i8(&mut out, self.judging_potential);
        put_i8(&mut out, self.man_handling);
        put_i8(&mut out, self.motivating);
        put_i8(&mut out, self.patience);
        put_i8(&mut out, self.physiotherapy);
        put_i8(&mut out, self.resources);
        put_i8(&mut out, self.tactics);
        put_i8(&mut out, self.youngsters);
        put_i8(&mut out, self.tactic_preferred);
        put_i8(&mut out, self.coaching_forwards);
        put_i8(&mut out, self.coaching_defensemen);
        put_i8(&mut out, self.coaching_goaltenders);
        put_i8(&mut out, self.line_matching);
        put_i8(&mut out, self.power_play);
        put_i8(&mut out, self.penalty_kill);
        put_i8(&mut out, self.physical);
        out
    }
}

} // verus!
