//! What a person is as a player: the layout, the attributes and the
//! positions, and the rating.

use vstd::prelude::*;
use vstd::string::StringExecFns;

use crate::data::record::Record;
use crate::data::section::same_text;
use crate::globals::AttributeChart;
use crate::rating::{
    FACTOR_LIMIT, Fraction, lemma_mul_bounds, lemma_times_in_unit, product, RATING_LIMIT,
    RatingBounds, restrict_minimum, stretch,
};
use crate::to_bytes::{
    group_le_len, le_i16, le_i32, le_i8, le_u8, lemma_concat_cancel, lemma_le_i16_injective,
    lemma_le_i32_injective, lemma_le_i8_injective, lemma_le_u8_injective, put_i16, put_i32, put_i8,
    put_u8, Reader,
};

verus! {

broadcast use group_le_len;

/// What a person is as a player.
#[derive(Clone, Copy, Debug, PartialEq, Eq)]
pub struct Player {
    pub id: i32,
    pub current_ability: i16,
    pub potential_ability: i16,
    pub home_reputation: i16,
    pub current_reputation: i16,
    pub world_reputation: i16,
    pub squad_number: i8,
    pub international_squad_number: i8,
    pub acceleration: i8,
    pub aggression: i8,
    pub agility: i8,
    pub anticipation_raw: i8,
    pub balance_raw: i8,
    pub bravery: i8,
    pub consistency: i8,
    pub decisions_raw: i8,
    pub dirtiness: i8,
    pub flair: i8,
    pub important_matches: i8,
    pub injury_proneness: i8,
    pub leadership: i8,
    pub movement_raw: i8,
    pub natural_fitness: i8,
    pub one_on_ones_raw: i8,
    pub pace: i8,
    pub passing_raw: i8,
    pub positioning_raw: i8,
    pub reflexes_raw: i8,
    pub stamina: i8,
    pub strength: i8,
    pub teamwork: i8,
    pub versatility: i8,
    pub vision_raw: i8,
    pub work_rate: i8,
    pub handedness: i8,
    pub height: u8,
    pub weight: u8,
    pub favourite_number: u8,
    pub goaltender: i8,
    pub left_defence: i8,
    pub right_defence: i8,
    pub left_wing: i8,
    pub center: i8,
    pub right_wing: i8,
    pub agitation: i8,
    pub blocker_raw: i8,
    pub checking_raw: i8,
    pub defensive_role: i8,
    pub deflections_raw: i8,
    pub deking_raw: i8,
    pub faceoffs_raw: i8,
    pub fighting_raw: i8,
    pub glove_raw: i8,
    pub hitting_raw: i8,
    pub offensive_role: i8,
    pub pass_tendency: i8,
    pub pokecheck_raw: i8,
    pub rebounds_raw: i8,
    pub recovery_raw: i8,
    pub slapshot_raw: i8,
    pub stickhandling_raw: i8,
    pub wristshot_raw: i8,
    pub morale: i8,
    pub goalie_style: i8,
    pub junior_preference: i8,
}

impl Record for Player {
    open spec fn encoding(&self) -> Seq<u8> {
        le_i32(self.id)
        + le_i16(self.current_ability)
        + le_i16(self.potential_ability)
        + le_i16(self.home_reputation)
        + le_i16(self.current_reputation)
        + le_i16(self.world_reputation)
        + le_i8(self.squad_number)
        + le_i8(self.international_squad_number)
        + le_i8(self.acceleration)
        + le_i8(self.aggression)
        + le_i8(self.agility)
        + le_i8(self.anticipation_raw)
        + le_i8(self.balance_raw)
        + le_i8(self.bravery)
        + le_i8(self.consistency)
        + le_i8(self.decisions_raw)
        + le_i8(self.dirtiness)
        + le_i8(self.flair)
        + le_i8(self.important_matches)
        + le_i8(self.injury_proneness)
        + le_i8(self.leadership)
        + le_i8(self.movement_raw)
        + le_i8(self.natural_fitness)
        + le_i8(self.one_on_ones_raw)
        + le_i8(self.pace)
        + le_i8(self.passing_raw)
        + le_i8(self.positioning_raw)
        + le_i8(self.reflexes_raw)
        + le_i8(self.stamina)
        + le_i8(self.strength)
        + le_i8(self.teamwork)
        + le_i8(self.versatility)
        + le_i8(self.vision_raw)
        + le_i8(self.work_rate)
        + le_i8(self.handedness)
        + le_u8(self.height)
        + le_u8(self.weight)
        + le_u8(self.favourite_number)
        + le_i8(self.goaltender)
        + le_i8(self.left_defence)
        + le_i8(self.right_defence)
        + le_i8(self.left_wing)
        + le_i8(self.center)
        + le_i8(self.right_wing)
        + le_i8(self.agitation)
        + le_i8(self.blocker_raw)
        + le_i8(self.checking_raw)
        + le_i8(self.defensive_role)
        + le_i8(self.deflections_raw)
        + le_i8(self.deking_raw)
        + le_i8(self.faceoffs_raw)
        + le_i8(self.fighting_raw)
        + le_i8(self.glove_raw)
        + le_i8(self.hitting_raw)
        + le_i8(self.offensive_role)
        + le_i8(self.pass_tendency)
        + le_i8(self.pokecheck_raw)
        + le_i8(self.rebounds_raw)
        + le_i8(self.recovery_raw)
        + le_i8(self.slapshot_raw)
        + le_i8(self.stickhandling_raw)
        + le_i8(self.wristshot_raw)
        + le_i8(self.morale)
        + le_i8(self.goalie_style)
        + le_i8(self.junior_preference)
    }

    open spec fn key(&self) -> i32 {
        self.id
    }

    open spec fn stride() -> nat {
        73
    }

    proof fn lemma_stride(&self) {
    }

    #[verifier::rlimit(60)]
    proof fn lemma_injective(a: Self, b: Self) {
        let a0 = le_i32(a.id);
        let b0 = le_i32(b.id);
        let a1 = a0 + le_i16(a.current_ability);
        let b1 = b0 + le_i16(b.current_ability);
        let a2 = a1 + le_i16(a.potential_ability);
        let b2 = b1 + le_i16(b.potential_ability);
        let a3 = a2 + le_i16(a.home_reputation);
        let b3 = b2 + le_i16(b.home_reputation);
        let a4 = a3 + le_i16(a.current_reputation);
        let b4 = b3 + le_i16(b.current_reputation);
        let a5 = a4 + le_i16(a.world_reputation);
        let b5 = b4 + le_i16(b.world_reputation);
        let a6 = a5 + le_i8(a.squad_number);
        let b6 = b5 + le_i8(b.squad_number);
        let a7 = a6 + le_i8(a.international_squad_number);
        let b7 = b6 + le_i8(b.international_squad_number);
        let a8 = a7 + le_i8(a.acceleration);
        let b8 = b7 + le_i8(b.acceleration);
        let a9 = a8 + le_i8(a.aggression);
        let b9 = b8 + le_i8(b.aggression);
        let a10 = a9 + le_i8(a.agility);
        let b10 = b9 + le_i8(b.agility);
        let a11 = a10 + le_i8(a.anticipation_raw);
        let b11 = b10 + le_i8(b.anticipation_raw);
        let a12 = a11 + le_i8(a.balance_raw);
        let b12 = b11 + le_i8(b.balance_raw);
        let a13 = a12 + le_i8(a.bravery);
        let b13 = b12 + le_i8(b.bravery);
        let a14 = a13 + le_i8(a.consistency);
        let b14 = b13 + le_i8(b.consistency);
        let a15 = a14 + le_i8(a.decisions_raw);
        let b15 = b14 + le_i8(b.decisions_raw);
        let a16 = a15 + le_i8(a.dirtiness);
        let b16 = b15 + le_i8(b.dirtiness);
        let a17 = a16 + le_i8(a.flair);
        let b17 = b16 + le_i8(b.flair);
        let a18 = a17 + le_i8(a.important_matches);
        let b18 = b17 + le_i8(b.important_matches);
        let a19 = a18 + le_i8(a.injury_proneness);
        let b19 = b18 + le_i8(b.injury_proneness);
        let a20 = a19 + le_i8(a.leadership);
        let b20 = b19 + le_i8(b.leadership);
        let a21 = a20 + le_i8(a.movement_raw);
        let b21 = b20 + le_i8(b.movement_raw);
        let a22 = a21 + le_i8(a.natural_fitness);
        let b22 = b21 + le_i8(b.natural_fitness);
        let a23 = a22 + le_i8(a.one_on_ones_raw);
        let b23 = b22 + le_i8(b.one_on_ones_raw);
        let a24 = a23 + le_i8(a.pace);
        let b24 = b23 + le_i8(b.pace);
        let a25 = a24 + le_i8(a.passing_raw);
        let b25 = b24 + le_i8(b.passing_raw);
        let a26 = a25 + le_i8(a.positioning_raw);
        let b26 = b25 + le_i8(b.positioning_raw);
        let a27 = a26 + le_i8(a.reflexes_raw);
        let b27 = b26 + le_i8(b.reflexes_raw);
        let a28 = a27 + le_i8(a.stamina);
        let b28 = b27 + le_i8(b.stamina);
        let a29 = a28 + le_i8(a.strength);
        let b29 = b28 + le_i8(b.strength);
        let a30 = a29 + le_i8(a.teamwork);
        let b30 = b29 + le_i8(b.teamwork);
        let a31 = a30 + le_i8(a.versatility);
        let b31 = b30 + le_i8(b.versatility);
        let a32 = a31 + le_i8(a.vision_raw);
        let b32 = b31 + le_i8(b.vision_raw);
        let a33 = a32 + le_i8(a.work_rate);
        let b33 = b32 + le_i8(b.work_rate);
        let a34 = a33 + le_i8(a.handedness);
        let b34 = b33 + le_i8(b.handedness);
        let a35 = a34 + le_u8(a.height);
        let b35 = b34 + le_u8(b.height);
        let a36 = a35 + le_u8(a.weight);
        let b36 = b35 + le_u8(b.weight);
        let a37 = a36 + le_u8(a.favourite_number);
        let b37 = b36 + le_u8(b.favourite_number);
        let a38 = a37 + le_i8(a.goaltender);
        let b38 = b37 + le_i8(b.goaltender);
        let a39 = a38 + le_i8(a.left_defence);
        let b39 = b38 + le_i8(b.left_defence);
        let a40 = a39 + le_i8(a.right_defence);
        let b40 = b39 + le_i8(b.right_defence);
        let a41 = a40 + le_i8(a.left_wing);
        let b41 = b40 + le_i8(b.left_wing);
        let a42 = a41 + le_i8(a.center);
        let b42 = b41 + le_i8(b.center);
        let a43 = a42 + le_i8(a.right_wing);
        let b43 = b42 + le_i8(b.right_wing);
        let a44 = a43 + le_i8(a.agitation);
        let b44 = b43 + le_i8(b.agitation);
        let a45 = a44 + le_i8(a.blocker_raw);
        let b45 = b44 + le_i8(b.blocker_raw);
        let a46 = a45 + le_i8(a.checking_raw);
        let b46 = b45 + le_i8(b.checking_raw);
        let a47 = a46 + le_i8(a.defensive_role);
        let b47 = b46 + le_i8(b.defensive_role);
        let a48 = a47 + le_i8(a.deflections_raw);
        let b48 = b47 + le_i8(b.deflections_raw);
        let a49 = a48 + le_i8(a.deking_raw);
        let b49 = b48 + le_i8(b.deking_raw);
        let a50 = a49 + le_i8(a.faceoffs_raw);
        let b50 = b49 + le_i8(b.faceoffs_raw);
        let a51 = a50 + le_i8(a.fighting_raw);
        let b51 = b50 + le_i8(b.fighting_raw);
        let a52 = a51 + le_i8(a.glove_raw);
        let b52 = b51 + le_i8(b.glove_raw);
        let a53 = a52 + le_i8(a.hitting_raw);
        let b53 = b52 + le_i8(b.hitting_raw);
        let a54 = a53 + le_i8(a.offensive_role);
        let b54 = b53 + le_i8(b.offensive_role);
        let a55 = a54 + le_i8(a.pass_tendency);
        let b55 = b54 + le_i8(b.pass_tendency);
        let a56 = a55 + le_i8(a.pokecheck_raw);
        let b56 = b55 + le_i8(b.pokecheck_raw);
        let a57 = a56 + le_i8(a.rebounds_raw);
        let b57 = b56 + le_i8(b.rebounds_raw);
        let a58 = a57 + le_i8(a.recovery_raw);
        let b58 = b57 + le_i8(b.recovery_raw);
        let a59 = a58 + le_i8(a.slapshot_raw);
        let b59 = b58 + le_i8(b.slapshot_raw);
        let a60 = a59 + le_i8(a.stickhandling_raw);
        let b60 = b59 + le_i8(b.stickhandling_raw);
        let a61 = a60 + le_i8(a.wristshot_raw);
        let b61 = b60 + le_i8(b.wristshot_raw);
        let a62 = a61 + le_i8(a.morale);
        let b62 = b61 + le_i8(b.morale);
        let a63 = a62 + le_i8(a.goalie_style);
        let b63 = b62 + le_i8(b.goalie_style);
        lemma_concat_cancel(a63, le_i8(a.junior_preference), b63, le_i8(b.junior_preference));
        lemma_le_i8_injective(a.junior_preference, b.junior_preference);
        lemma_concat_cancel(a62, le_i8(a.goalie_style), b62, le_i8(b.goalie_style));
        lemma_le_i8_injective(a.goalie_style, b.goalie_style);
        lemma_concat_cancel(a61, le_i8(a.morale), b61, le_i8(b.morale));
        lemma_le_i8_injective(a.morale, b.morale);
        lemma_concat_cancel(a60, le_i8(a.wristshot_raw), b60, le_i8(b.wristshot_raw));
        lemma_le_i8_injective(a.wristshot_raw, b.wristshot_raw);
        lemma_concat_cancel(a59, le_i8(a.stickhandling_raw), b59, le_i8(b.stickhandling_raw));
        lemma_le_i8_injective(a.stickhandling_raw, b.stickhandling_raw);
        lemma_concat_cancel(a58, le_i8(a.slapshot_raw), b58, le_i8(b.slapshot_raw));
        lemma_le_i8_injective(a.slapshot_raw, b.slapshot_raw);
        lemma_concat_cancel(a57, le_i8(a.recovery_raw), b57, le_i8(b.recovery_raw));
        lemma_le_i8_injective(a.recovery_raw, b.recovery_raw);
        lemma_concat_cancel(a56, le_i8(a.rebounds_raw), b56, le_i8(b.rebounds_raw));
        lemma_le_i8_injective(a.rebounds_raw, b.rebounds_raw);
        lemma_concat_cancel(a55, le_i8(a.pokecheck_raw), b55, le_i8(b.pokecheck_raw));
        lemma_le_i8_injective(a.pokecheck_raw, b.pokecheck_raw);
        lemma_concat_cancel(a54, le_i8(a.pass_tendency), b54, le_i8(b.pass_tendency));
        lemma_le_i8_injective(a.pass_tendency, b.pass_tendency);
        lemma_concat_cancel(a53, le_i8(a.offensive_role), b53, le_i8(b.offensive_role));
        lemma_le_i8_injective(a.offensive_role, b.offensive_role);
        lemma_concat_cancel(a52, le_i8(a.hitting_raw), b52, le_i8(b.hitting_raw));
        lemma_le_i8_injective(a.hitting_raw, b.hitting_raw);
        lemma_concat_cancel(a51, le_i8(a.glove_raw), b51, le_i8(b.glove_raw));
        lemma_le_i8_injective(a.glove_raw, b.glove_raw);
        lemma_concat_cancel(a50, le_i8(a.fighting_raw), b50, le_i8(b.fighting_raw));
        lemma_le_i8_injective(a.fighting_raw, b.fighting_raw);
        lemma_concat_cancel(a49, le_i8(a.faceoffs_raw), b49, le_i8(b.faceoffs_raw));
        lemma_le_i8_injective(a.faceoffs_raw, b.faceoffs_raw);
        lemma_concat_cancel(a48, le_i8(a.deking_raw), b48, le_i8(b.deking_raw));
        lemma_le_i8_injective(a.deking_raw, b.deking_raw);
        lemma_concat_cancel(a47, le_i8(a.deflections_raw), b47, le_i8(b.deflections_raw));
        lemma_le_i8_injective(a.deflections_raw, b.deflections_raw);
        lemma_concat_cancel(a46, le_i8(a.defensive_role), b46, le_i8(b.defensive_role));
        lemma_le_i8_injective(a.defensive_role, b.defensive_role);
        lemma_concat_cancel(a45, le_i8(a.checking_raw), b45, le_i8(b.checking_raw));
        lemma_le_i8_injective(a.checking_raw, b.checking_raw);
        lemma_concat_cancel(a44, le_i8(a.blocker_raw), b44, le_i8(b.blocker_raw));
        lemma_le_i8_injective(a.blocker_raw, b.blocker_raw);
        lemma_concat_cancel(a43, le_i8(a.agitation), b43, le_i8(b.agitation));
        lemma_le_i8_injective(a.agitation, b.agitation);
        lemma_concat_cancel(a42, le_i8(a.right_wing), b42, le_i8(b.right_wing));
        lemma_le_i8_injective(a.right_wing, b.right_wing);
        lemma_concat_cancel(a41, le_i8(a.center), b41, le_i8(b.center));
        lemma_le_i8_injective(a.center, b.center);
        lemma_concat_cancel(a40, le_i8(a.left_wing), b40, le_i8(b.left_wing));
        lemma_le_i8_injective(a.left_wing, b.left_wing);
        lemma_concat_cancel(a39, le_i8(a.right_defence), b39, le_i8(b.right_defence));
        lemma_le_i8_injective(a.right_defence, b.right_defence);
        lemma_concat_cancel(a38, le_i8(a.left_defence), b38, le_i8(b.left_defence));
        lemma_le_i8_injective(a.left_defence, b.left_defence);
        lemma_concat_cancel(a37, le_i8(a.goaltender), b37, le_i8(b.goaltender));
        lemma_le_i8_injective(a.goaltender, b.goaltender);
        lemma_concat_cancel(a36, le_u8(a.favourite_number), b36, le_u8(b.favourite_number));
        lemma_le_u8_injective(a.favourite_number, b.favourite_number);
        lemma_concat_cancel(a35, le_u8(a.weight), b35, le_u8(b.weight));
        lemma_le_u8_injective(a.weight, b.weight);
        lemma_concat_cancel(a34, le_u8(a.height), b34, le_u8(b.height));
        lemma_le_u8_injective(a.height, b.height);
        lemma_concat_cancel(a33, le_i8(a.handedness), b33, le_i8(b.handedness));
        lemma_le_i8_injective(a.handedness, b.handedness);
        lemma_concat_cancel(a32, le_i8(a.work_rate), b32, le_i8(b.work_rate));
        lemma_le_i8_injective(a.work_rate, b.work_rate);
        lemma_concat_cancel(a31, le_i8(a.vision_raw), b31, le_i8(b.vision_raw));
        lemma_le_i8_injective(a.vision_raw, b.vision_raw);
        lemma_concat_cancel(a30, le_i8(a.versatility), b30, le_i8(b.versatility));
        lemma_le_i8_injective(a.versatility, b.versatility);
        lemma_concat_cancel(a29, le_i8(a.teamwork), b29, le_i8(b.teamwork));
        lemma_le_i8_injective(a.teamwork, b.teamwork);
        lemma_concat_cancel(a28, le_i8(a.strength), b28, le_i8(b.strength));
        lemma_le_i8_injective(a.strength, b.strength);
        lemma_concat_cancel(a27, le_i8(a.stamina), b27, le_i8(b.stamina));
        lemma_le_i8_injective(a.stamina, b.stamina);
        lemma_concat_cancel(a26, le_i8(a.reflexes_raw), b26, le_i8(b.reflexes_raw));
        lemma_le_i8_injective(a.reflexes_raw, b.reflexes_raw);
        lemma_concat_cancel(a25, le_i8(a.positioning_raw), b25, le_i8(b.positioning_raw));
        lemma_le_i8_injective(a.positioning_raw, b.positioning_raw);
        lemma_concat_cancel(a24, le_i8(a.passing_raw), b24, le_i8(b.passing_raw));
        lemma_le_i8_injective(a.passing_raw, b.passing_raw);
        lemma_concat_cancel(a23, le_i8(a.pace), b23, le_i8(b.pace));
        lemma_le_i8_injective(a.pace, b.pace);
        lemma_concat_cancel(a22, le_i8(a.one_on_ones_raw), b22, le_i8(b.one_on_ones_raw));
        lemma_le_i8_injective(a.one_on_ones_raw, b.one_on_ones_raw);
        lemma_concat_cancel(a21, le_i8(a.natural_fitness), b21, le_i8(b.natural_fitness));
        lemma_le_i8_injective(a.natural_fitness, b.natural_fitness);
        lemma_concat_cancel(a20, le_i8(a.movement_raw), b20, le_i8(b.movement_raw));
        lemma_le_i8_injective(a.movement_raw, b.movement_raw);
        lemma_concat_cancel(a19, le_i8(a.leadership), b19, le_i8(b.leadership));
        lemma_le_i8_injective(a.leadership, b.leadership);
        lemma_concat_cancel(a18, le_i8(a.injury_proneness), b18, le_i8(b.injury_proneness));
        lemma_le_i8_injective(a.injury_proneness, b.injury_proneness);
        lemma_concat_cancel(a17, le_i8(a.important_matches), b17, le_i8(b.important_matches));
        lemma_le_i8_injective(a.important_matches, b.important_matches);
        lemma_concat_cancel(a16, le_i8(a.flair), b16, le_i8(b.flair));
        lemma_le_i8_injective(a.flair, b.flair);
        lemma_concat_cancel(a15, le_i8(a.dirtiness), b15, le_i8(b.dirtiness));
        lemma_le_i8_injective(a.dirtiness, b.dirtiness);
        lemma_concat_cancel(a14, le_i8(a.decisions_raw), b14, le_i8(b.decisions_raw));
        lemma_le_i8_injective(a.decisions_raw, b.decisions_raw);
        lemma_concat_cancel(a13, le_i8(a.consistency), b13, le_i8(b.consistency));
        lemma_le_i8_injective(a.consistency, b.consistency);
        lemma_concat_cancel(a12, le_i8(a.bravery), b12, le_i8(b.bravery));
        lemma_le_i8_injective(a.bravery, b.bravery);
        lemma_concat_cancel(a11, le_i8(a.balance_raw), b11, le_i8(b.balance_raw));
        lemma_le_i8_injective(a.balance_raw, b.balance_raw);
        lemma_concat_cancel(a10, le_i8(a.anticipation_raw), b10, le_i8(b.anticipation_raw));
        lemma_le_i8_injective(a.anticipation_raw, b.anticipation_raw);
        lemma_concat_cancel(a9, le_i8(a.agility), b9, le_i8(b.agility));
        lemma_le_i8_injective(a.agility, b.agility);
        lemma_concat_cancel(a8, le_i8(a.aggression), b8, le_i8(b.aggression));
        lemma_le_i8_injective(a.aggression, b.aggression);
        lemma_concat_cancel(a7, le_i8(a.acceleration), b7, le_i8(b.acceleration));
        lemma_le_i8_injective(a.acceleration, b.acceleration);
        lemma_concat_cancel(
            a6,
            le_i8(a.international_squad_number),
            b6,
            le_i8(b.international_squad_number),
        );
        lemma_le_i8_injective(a.international_squad_number, b.international_squad_number);
        lemma_concat_cancel(a5, le_i8(a.squad_number), b5, le_i8(b.squad_number));
        lemma_le_i8_injective(a.squad_number, b.squad_number);
        lemma_concat_cancel(a4, le_i16(a.world_reputation), b4, le_i16(b.world_reputation));
        lemma_le_i16_injective(a.world_reputation, b.world_reputation);
        lemma_concat_cancel(a3, le_i16(a.current_reputation), b3, le_i16(b.current_reputation));
        lemma_le_i16_injective(a.current_reputation, b.current_reputation);
        lemma_concat_cancel(a2, le_i16(a.home_reputation), b2, le_i16(b.home_reputation));
        lemma_le_i16_injective(a.home_reputation, b.home_reputation);
        lemma_concat_cancel(a1, le_i16(a.potential_ability), b1, le_i16(b.potential_ability));
        lemma_le_i16_injective(a.potential_ability, b.potential_ability);
        lemma_concat_cancel(a0, le_i16(a.current_ability), b0, le_i16(b.current_ability));
        lemma_le_i16_injective(a.current_ability, b.current_ability);
        lemma_le_i32_injective(a.id, b.id);
    }

    fn width() -> (n: usize) {
        73
    }

    fn id(&self) -> (k: i32) {
        self.id
    }

    #[verifier::rlimit(60)]
    fn parse(bytes: &[u8], at: usize) -> (r: Option<Self>) {
        if bytes.len() < 73 || at > bytes.len() - 73 {
            return None;
        }
        let mut r = Reader::new(bytes, at);
        let id = r.read_i32();
        assert(r.taken() =~= le_i32(id));
        let current_ability = r.read_i16();
        let potential_ability = r.read_i16();
        let home_reputation = r.read_i16();
        let current_reputation = r.read_i16();
        let world_reputation = r.read_i16();
        let squad_number = r.read_i8();
        let international_squad_number = r.read_i8();
        assert(r.pos == at + 16);
        let acceleration = r.read_i8();
        let aggression = r.read_i8();
        let agility = r.read_i8();
        let anticipation_raw = r.read_i8();
        let balance_raw = r.read_i8();
        let bravery = r.read_i8();
        let consistency = r.read_i8();
        let decisions_raw = r.read_i8();
        assert(r.pos == at + 24);
        let dirtiness = r.read_i8();
        let flair = r.read_i8();
        let important_matches = r.read_i8();
        let injury_proneness = r.read_i8();
        let leadership = r.read_i8();
        let movement_raw = r.read_i8();
        let natural_fitness = r.read_i8();
        let one_on_ones_raw = r.read_i8();
        assert(r.pos == at + 32);
        let pace = r.read_i8();
        let passing_raw = r.read_i8();
        let positioning_raw = r.read_i8();
        let reflexes_raw = r.read_i8();
        let stamina = r.read_i8();
        let strength = r.read_i8();
        let teamwork = r.read_i8();
        let versatility = r.read_i8();
        assert(r.pos == at + 40);
        let vision_raw = r.read_i8();
        let work_rate = r.read_i8();
        let handedness = r.read_i8();
        let height = r.read_u8();
        let weight = r.read_u8();
        let favourite_number = r.read_u8();
        let goaltender = r.read_i8();
        let left_defence = r.read_i8();
        assert(r.pos == at + 48);
        let right_defence = r.read_i8();
        let left_wing = r.read_i8();
        let center = r.read_i8();
        let right_wing = r.read_i8();
        let agitation = r.read_i8();
        let blocker_raw = r.read_i8();
        let checking_raw = r.read_i8();
        let defensive_role = r.read_i8();
        assert(r.pos == at + 56);
        let deflections_raw = r.read_i8();
        let deking_raw = r.read_i8();
        let faceoffs_raw = r.read_i8();
        let fighting_raw = r.read_i8();
        let glove_raw = r.read_i8();
        let hitting_raw = r.read_i8();
        let offensive_role = r.read_i8();
        let pass_tendency = r.read_i8();
        assert(r.pos == at + 64);
        let pokecheck_raw = r.read_i8();
        let rebounds_raw = r.read_i8();
        let recovery_raw = r.read_i8();
        let slapshot_raw = r.read_i8();
        let stickhandling_raw = r.read_i8();
        let wristshot_raw = r.read_i8();
        let morale = r.read_i8();
        let goalie_style = r.read_i8();
        assert(r.pos == at + 72);
        let junior_preference = r.read_i8();
        let rec = Player {
            id,
            current_ability,
            potential_ability,
            home_reputation,
            current_reputation,
            world_reputation,
            squad_number,
            international_squad_number,
            acceleration,
            aggression,
            agility,
            anticipation_raw,
            balance_raw,
            bravery,
            consistency,
            decisions_raw,
            dirtiness,
            flair,
            important_matches,
            injury_proneness,
            leadership,
            movement_raw,
            natural_fitness,
            one_on_ones_raw,
            pace,
            passing_raw,
            positioning_raw,
            reflexes_raw,
            stamina,
            strength,
            teamwork,
            versatility,
            vision_raw,
            work_rate,
            handedness,
            height,
            weight,
            favourite_number,
            goaltender,
            left_defence,
            right_defence,
            left_wing,
            center,
            right_wing,
            agitation,
            blocker_raw,
            checking_raw,
            defensive_role,
            deflections_raw,
            deking_raw,
            faceoffs_raw,
            fighting_raw,
            glove_raw,
            hitting_raw,
            offensive_role,
            pass_tendency,
            pokecheck_raw,
            rebounds_raw,
            recovery_raw,
            slapshot_raw,
            stickhandling_raw,
            wristshot_raw,
            morale,
            goalie_style,
            junior_preference,
        };
        proof {
            r.lemma_taken();
        }
        Some(rec)
    }

    fn to_bytes(&self) -> (out: Vec<u8>) {
        let mut out = Vec::new();
        put_i32(&mut out, self.id);
        assert(out@ =~= le_i32(self.id));
        put_i16(&mut out, self.current_ability);
        put_i16(&mut out, self.potential_ability);
        put_i16(&mut out, self.home_reputation);
        put_i16(&mut out, self.current_reputation);
        put_i16(&mut out, self.world_reputation);
        put_i8(&mut out, self.squad_number);
        put_i8(&mut out, self.international_squad_number);
        put_i8(&mut out, self.acceleration);
        put_i8(&mut out, self.aggression);
        put_i8(&mut out, self.agility);
        put_i8(&mut out, self.anticipation_raw);
        put_i8(&mut out, self.balance_raw);
        put_i8(&mut out, self.bravery);
        put_i8(&mut out, self.consistency);
        put_i8(&mut out, self.decisions_raw);
        put_i8(&mut out, self.dirtiness);
        put_i8(&mut out, self.flair);
        put_i8(&mut out, self.important_matches);
        put_i8(&mut out, self.injury_proneness);
        put_i8(&mut out, self.leadership);
        put_i8(&mut out, self.movement_raw);
        put_i8(&mut out, self.natural_fitness);
        put_i8(&mut out, self.one_on_ones_raw);
        put_i8(&mut out, self.pace);
        put_i8(&mut out, self.passing_raw);
        put_i8(&mut out, self.positioning_raw);
        put_i8(&mut out, self.reflexes_raw);
        put_i8(&mut out, self.stamina);
        put_i8(&mut out, self.strength);
        put_i8(&mut out, self.teamwork);
        put_i8(&mut out, self.versatility);
        put_i8(&mut out, self.vision_raw);
        put_i8(&mut out, self.work_rate);
        put_i8(&mut out, self.handedness);
        put_u8(&mut out, self.height);
        put_u8(&mut out, self.weight);
        put_u8(&mut out, self.favourite_number);
        put_i8(&mut out, self.goaltender);
        put_i8(&mut out, self.left_defence);
        put_i8(&mut out, self.right_defence);
        put_i8(&mut out, self.left_wing);
        put_i8(&mut out, self.center);
        put_i8(&mut out, self.right_wing);
        put_i8(&mut out, self.agitation);
        put_i8(&mut out, self.blocker_raw);
        put_i8(&mut out, self.checking_raw);
        put_i8(&mut out, self.defensive_role);
        put_i8(&mut out, self.deflections_raw);
        put_i8(&mut out, self.deking_raw);
        put_i8(&mut out, self.faceoffs_raw);
        put_i8(&mut out, self.fighting_raw);
        put_i8(&mut out, self.glove_raw);
        put_i8(&mut out, self.hitting_raw);
        put_i8(&mut out, self.offensive_role);
        put_i8(&mut out, self.pass_tendency);
        put_i8(&mut out, self.pokecheck_raw);
        put_i8(&mut out, self.rebounds_raw);
        put_i8(&mut out, self.recovery_raw);
        put_i8(&mut out, self.slapshot_raw);
        put_i8(&mut out, self.stickhandling_raw);
        put_i8(&mut out, self.wristshot_raw);
        put_i8(&mut out, self.morale);
        put_i8(&mut out, self.goalie_style);
        put_i8(&mut out, self.junior_preference);
        out
    }
}

/// The attributes that the file holds on a scale of its own, and the screen
/// shows on a scale from 1 to 20.
#[derive(Clone, Copy, Debug, PartialEq, Eq, Structural)]
pub enum Attribute {
    Anticipation,
    Balance,
    Decisions,
    OffThePuck,
    OneOnOnes,
    Passing,
    Positioning,
    Reflexes,
    Creativity,
    Blocker,
    Checking,
    Deflections,
    Deking,
    Faceoffs,
    Fighting,
    Glove,
    Hitting,
    Pokecheck,
    ReboundControl,
    Recovery,
    Slapshot,
    Stickhandling,
    Wristshot,
}

/// The attribute that a name on the screen stands for.
pub open spec fn attribute_of_name(name: Seq<char>) -> Option<Attribute> {
    if name == "Anticipation"@ {
        Some(Attribute::Anticipation)
    } else if name == "Balance"@ {
        Some(Attribute::Balance)
    } else if name == "Decisions"@ {
        Some(Attribute::Decisions)
    } else if name == "Off The Puck"@ {
        Some(Attribute::OffThePuck)
    } else if name == "One On Ones"@ {
        Some(Attribute::OneOnOnes)
    } else if name == "Passing"@ {
        Some(Attribute::Passing)
    } else if name == "Positioning"@ {
        Some(Attribute::Positioning)
    } else if name == "Reflexes"@ {
        Some(Attribute::Reflexes)
    } else if name == "Creativity"@ {
        Some(Attribute::Creativity)
    } else if name == "Blocker"@ {
        Some(Attribute::Blocker)
    } else if name == "Checking"@ {
        Some(Attribute::Checking)
    } else if name == "Deflections"@ {
        Some(Attribute::Deflections)
    } else if name == "Deking"@ {
        Some(Attribute::Deking)
    } else if name == "Faceoffs"@ {
        Some(Attribute::Faceoffs)
    } else if name == "Fighting"@ {
        Some(Attribute::Fighting)
    } else if name == "Glove"@ {
        Some(Attribute::Glove)
    } else if name == "Hitting"@ {
        Some(Attribute::Hitting)
    } else if name == "Pokecheck"@ {
        Some(Attribute::Pokecheck)
    } else if name == "Rebound Control"@ {
        Some(Attribute::ReboundControl)
    } else if name == "Recovery"@ {
        Some(Attribute::Recovery)
    } else if name == "Slapshot"@ {
        Some(Attribute::Slapshot)
    } else if name == "Stickhandling"@ {
        Some(Attribute::Stickhandling)
    } else if name == "Wristshot"@ {
        Some(Attribute::Wristshot)
    } else {
        None
    }
}

/// The attribute that a name on the screen stands for.
pub fn attribute_by_name(name: &str) -> (r: Option<Attribute>)
    ensures
        r == attribute_of_name(name@),
{
    if same_text(name, "Anticipation") {
        Some(Attribute::Anticipation)
    } else if same_text(name, "Balance") {
        Some(Attribute::Balance)
    } else if same_text(name, "Decisions") {
        Some(Attribute::Decisions)
    } else if same_text(name, "Off The Puck") {
        Some(Attribute::OffThePuck)
    } else if same_text(name, "One On Ones") {
        Some(Attribute::OneOnOnes)
    } else if same_text(name, "Passing") {
        Some(Attribute::Passing)
    } else if same_text(name, "Positioning") {
        Some(Attribute::Positioning)
    } else if same_text(name, "Reflexes") {
        Some(Attribute::Reflexes)
    } else if same_text(name, "Creativity") {
        Some(Attribute::Creativity)
    } else if same_text(name, "Blocker") {
        Some(Attribute::Blocker)
    } else if same_text(name, "Checking") {
        Some(Attribute::Checking)
    } else if same_text(name, "Deflections") {
        Some(Attribute::Deflections)
    } else if same_text(name, "Deking") {
        Some(Attribute::Deking)
    } else if same_text(name, "Faceoffs") {
        Some(Attribute::Faceoffs)
    } else if same_text(name, "Fighting") {
        Some(Attribute::Fighting)
    } else if same_text(name, "Glove") {
        Some(Attribute::Glove)
    } else if same_text(name, "Hitting") {
        Some(Attribute::Hitting)
    } else if same_text(name, "Pokecheck") {
        Some(Attribute::Pokecheck)
    } else if same_text(name, "Rebound Control") {
        Some(Attribute::ReboundControl)
    } else if same_text(name, "Recovery") {
        Some(Attribute::Recovery)
    } else if same_text(name, "Slapshot") {
        Some(Attribute::Slapshot)
    } else if same_text(name, "Stickhandling") {
        Some(Attribute::Stickhandling)
    } else if same_text(name, "Wristshot") {
        Some(Attribute::Wristshot)
    } else {
        None
    }
}

/// The score that makes a player a goalkeeper, and a position a player's
/// own.
pub const OWN_POSITION: i8 = 20;

/// The least score with which a position counts as one of a player's.
pub const PLAYABLE_POSITION: i8 = 16;

impl Player {
    /// The value of an attribute as the file holds it.
    pub open spec fn raw(&self, a: Attribute) -> i8 {
        match a {
            Attribute::Anticipation => self.anticipation_raw,
            Attribute::Balance => self.balance_raw,
            Attribute::Decisions => self.decisions_raw,
            Attribute::OffThePuck => self.movement_raw,
            Attribute::OneOnOnes => self.one_on_ones_raw,
            Attribute::Passing => self.passing_raw,
            Attribute::Positioning => self.positioning_raw,
            Attribute::Reflexes => self.reflexes_raw,
            Attribute::Creativity => self.vision_raw,
            Attribute::Blocker => self.blocker_raw,
            Attribute::Checking => self.checking_raw,
            Attribute::Deflections => self.deflections_raw,
            Attribute::Deking => self.deking_raw,
            Attribute::Faceoffs => self.faceoffs_raw,
            Attribute::Fighting => self.fighting_raw,
            Attribute::Glove => self.glove_raw,
            Attribute::Hitting => self.hitting_raw,
            Attribute::Pokecheck => self.pokecheck_raw,
            Attribute::ReboundControl => self.rebounds_raw,
            Attribute::Recovery => self.recovery_raw,
            Attribute::Slapshot => self.slapshot_raw,
            Attribute::Stickhandling => self.stickhandling_raw,
            Attribute::Wristshot => self.wristshot_raw,
        }
    }

    /// The value of an attribute as the screen shows it; `None` where the
    /// chart has no band for it.
    pub open spec fn shown(&self, chart: &AttributeChart, a: Attribute) -> Option<i8> {
        chart.converted(self.current_ability, self.raw(a))
    }

    /// The value of an attribute as the screen shows it, where there is one.
    pub open spec fn shown_value(&self, chart: &AttributeChart, a: Attribute) -> int {
        self.shown(chart, a).unwrap() as int
    }

    /// Whether the player is a goalkeeper.
    pub open spec fn goalie(&self) -> bool {
        self.goaltender == OWN_POSITION
    }

    /// What the traits of steadiness add up to: 0 where all three are 1, and
    /// 57 where all three are 20.
    pub open spec fn steadiness(&self) -> int {
        self.consistency + self.important_matches + self.work_rate - 3
    }

    /// How well a position with the given score fits, together with the
    /// player's versatility: 0 where both are 1, and 38 where both are 20.
    /// A position with no score at all counts as one with the score 1.
    pub open spec fn fit(&self, position: i8) -> int {
        (if position == 0 {
            1int
        } else {
            position as int
        }) + self.versatility - 2
    }

    /// The rating of the player for a class of position, from the player's
    /// score for the class and the bounds of the class.
    pub open spec fn rated(&self, bounds: &RatingBounds, score: int, low: int, high: int)
        -> Fraction {
        rating_of(
            standing(score, low, high),
            standing(self.current_ability as int, bounds.worst_ca as int, bounds.best_ca as int),
            self.steadiness(),
        )
    }

    /// How well the player fits a position with the given score, as a
    /// ratio.
    pub open spec fn position_fit(&self, position: i8) -> Fraction {
        if position == OWN_POSITION {
            Fraction { num: 1, den: 1 }
        } else {
            Fraction { num: (38 + self.fit(position)) as i128, den: 76 }
        }
    }

    /// The player with another value of an attribute.
    pub open spec fn with_raw(&self, a: Attribute, value: i8) -> Player {
        match a {
            Attribute::Anticipation => Player { anticipation_raw: value, ..*self },
            Attribute::Balance => Player { balance_raw: value, ..*self },
            Attribute::Decisions => Player { decisions_raw: value, ..*self },
            Attribute::OffThePuck => Player { movement_raw: value, ..*self },
            Attribute::OneOnOnes => Player { one_on_ones_raw: value, ..*self },
            Attribute::Passing => Player { passing_raw: value, ..*self },
            Attribute::Positioning => Player { positioning_raw: value, ..*self },
            Attribute::Reflexes => Player { reflexes_raw: value, ..*self },
            Attribute::Creativity => Player { vision_raw: value, ..*self },
            Attribute::Blocker => Player { blocker_raw: value, ..*self },
            Attribute::Checking => Player { checking_raw: value, ..*self },
            Attribute::Deflections => Player { deflections_raw: value, ..*self },
            Attribute::Deking => Player { deking_raw: value, ..*self },
            Attribute::Faceoffs => Player { faceoffs_raw: value, ..*self },
            Attribute::Fighting => Player { fighting_raw: value, ..*self },
            Attribute::Glove => Player { glove_raw: value, ..*self },
            Attribute::Hitting => Player { hitting_raw: value, ..*self },
            Attribute::Pokecheck => Player { pokecheck_raw: value, ..*self },
            Attribute::ReboundControl => Player { rebounds_raw: value, ..*self },
            Attribute::Recovery => Player { recovery_raw: value, ..*self },
            Attribute::Slapshot => Player { slapshot_raw: value, ..*self },
            Attribute::Stickhandling => Player { stickhandling_raw: value, ..*self },
            Attribute::Wristshot => Player { wristshot_raw: value, ..*self },
        }
    }

    /// Gives an attribute a value, as the file holds it.
    pub fn set_raw(&mut self, a: Attribute, value: i8)
        ensures
            *final(self) == old(self).with_raw(a, value),
    {
        match a {
            Attribute::Anticipation => {
                self.anticipation_raw = value;
            },
            Attribute::Balance => {
                self.balance_raw = value;
            },
            Attribute::Decisions => {
                self.decisions_raw = value;
            },
            Attribute::OffThePuck => {
                self.movement_raw = value;
            },
            Attribute::OneOnOnes => {
                self.one_on_ones_raw = value;
            },
            Attribute::Passing => {
                self.passing_raw = value;
            },
            Attribute::Positioning => {
                self.positioning_raw = value;
            },
            Attribute::Reflexes => {
                self.reflexes_raw = value;
            },
            Attribute::Creativity => {
                self.vision_raw = value;
            },
            Attribute::Blocker => {
                self.blocker_raw = value;
            },
            Attribute::Checking => {
                self.checking_raw = value;
            },
            Attribute::Deflections => {
                self.deflections_raw = value;
            },
            Attribute::Deking => {
                self.deking_raw = value;
            },
            Attribute::Faceoffs => {
                self.faceoffs_raw = value;
            },
            Attribute::Fighting => {
                self.fighting_raw = value;
            },
            Attribute::Glove => {
                self.glove_raw = value;
            },
            Attribute::Hitting => {
                self.hitting_raw = value;
            },
            Attribute::Pokecheck => {
                self.pokecheck_raw = value;
            },
            Attribute::ReboundControl => {
                self.rebounds_raw = value;
            },
            Attribute::Recovery => {
                self.recovery_raw = value;
            },
            Attribute::Slapshot => {
                self.slapshot_raw = value;
            },
            Attribute::Stickhandling => {
                self.stickhandling_raw = value;
            },
            Attribute::Wristshot => {
                self.wristshot_raw = value;
            },
        }
    }

    pub fn raw_attribute(&self, a: Attribute) -> (r: i8)
        ensures
            r == self.raw(a),
    {
        match a {
            Attribute::Anticipation => self.anticipation_raw,
            Attribute::Balance => self.balance_raw,
            Attribute::Decisions => self.decisions_raw,
            Attribute::OffThePuck => self.movement_raw,
            Attribute::OneOnOnes => self.one_on_ones_raw,
            Attribute::Passing => self.passing_raw,
            Attribute::Positioning => self.positioning_raw,
            Attribute::Reflexes => self.reflexes_raw,
            Attribute::Creativity => self.vision_raw,
            Attribute::Blocker => self.blocker_raw,
            Attribute::Checking => self.checking_raw,
            Attribute::Deflections => self.deflections_raw,
            Attribute::Deking => self.deking_raw,
            Attribute::Faceoffs => self.faceoffs_raw,
            Attribute::Fighting => self.fighting_raw,
            Attribute::Glove => self.glove_raw,
            Attribute::Hitting => self.hitting_raw,
            Attribute::Pokecheck => self.pokecheck_raw,
            Attribute::ReboundControl => self.rebounds_raw,
            Attribute::Recovery => self.recovery_raw,
            Attribute::Slapshot => self.slapshot_raw,
            Attribute::Stickhandling => self.stickhandling_raw,
            Attribute::Wristshot => self.wristshot_raw,
        }
    }

    pub fn is_goalie(&self) -> (b: bool)
        ensures
            b == self.goalie(),
    {
        self.goaltender == OWN_POSITION
    }

    /// The value of an attribute as the screen shows it.
    pub fn convert(&self, chart: &AttributeChart, a: Attribute) -> (r: Option<i8>)
        ensures
            r == self.shown(chart, a),
    {
        chart.convert(self.current_ability, self.raw_attribute(a))
    }

    /// The value, as the screen shows it, of the attribute with the given
    /// name; `None` where the name is that of no attribute, or the chart
    /// has no band for the value.
    pub fn convert_attribute(&self, chart: &AttributeChart, attr_name: &str) -> (r: Option<i8>)
        ensures
            r == match attribute_of_name(attr_name@) {
                Some(a) => self.shown(chart, a),
                None => None,
            },
    {
        match attribute_by_name(attr_name) {
            Some(a) => self.convert(chart, a),
            None => None,
        }
    }

    /// How steady the player is, from one half to one: the sum of
    /// consistency, big-match temperament and work rate, stretched from
    /// where all three are 1 to where all three are 20, and its lowest
    /// value raised to one half.
    pub fn consistency_rating(&self) -> (r: Fraction)
        ensures
            r.num == 57 + self.steadiness(),
            r.den == 114,
    {
        let score: i128 = self.consistency as i128 + self.important_matches as i128
            + self.work_rate as i128 - 3;
        let value = Fraction { num: score, den: 57 };
        let floor = Fraction { num: 1, den: 2 };
        assert(floor.num * value.den == 57 && floor.den * value.den == 114 && value.num * (floor.den
            - floor.num) == score) by (nonlinear_arith)
            requires
                floor.num == 1,
                floor.den == 2,
                value.den == 57,
                value.num == score,
        ;
        restrict_minimum(value, floor)
    }

    /// How well the player fits a position with the given score, from one
    /// half to one. A position that is the player's own fits fully.
    pub fn position_rating(&self, position: i8) -> (r: Fraction)
        ensures
            r == self.position_fit(position),
            r.within(FACTOR_LIMIT),
    {
        if position == OWN_POSITION {
            return Fraction { num: 1, den: 1 };
        }
        let position: i128 = if position == 0 {
            1
        } else {
            position as i128
        };
        let score: i128 = position + self.versatility as i128 - 2;
        let value = Fraction { num: score, den: 38 };
        let floor = Fraction { num: 1, den: 2 };
        assert(floor.num * value.den == 38 && floor.den * value.den == 76 && value.num * (floor.den
            - floor.num) == score) by (nonlinear_arith)
            requires
                floor.num == 1,
                floor.den == 2,
                value.den == 38,
                value.num == score,
        ;
        restrict_minimum(value, floor)
    }

    /// The rating of the player for a class of position, given the
    /// player's score for the class and the bounds of the class: the mean of
    /// where the score stands between the bounds of the class and where the
    /// current ability stands between its bounds, times the steadiness of
    /// the player.
    ///
    /// Where the two bounds of a scale are the same, there is no place to
    /// stand between them, and the player counts as standing at the top.
    pub fn rating(&self, bounds: &RatingBounds, score: i64, low: i64, high: i64) -> (r: Fraction)
        ensures
            r == rating_of(
                standing(score as int, low as int, high as int),
                standing(
                    self.current_ability as int,
                    bounds.worst_ca as int,
                    bounds.best_ca as int,
                ),
                self.steadiness(),
            ),
            r == self.rated(bounds, score as int, low as int, high as int),
            r.within(RATING_LIMIT),
    {
        let by_score = if low == high {
            Fraction { num: 1, den: 1 }
        } else {
            stretch(score, low, high)
        };
        let by_ability = if bounds.worst_ca == bounds.best_ca {
            Fraction { num: 1, den: 1 }
        } else {
            stretch(self.current_ability as i64, bounds.worst_ca as i64, bounds.best_ca as i64)
        };
        let steady = self.consistency_rating();
        proof {
            let limit = 0x1_0000_0000_0000_0000int;
            lemma_mul_bounds(by_score.num as int, by_ability.den as int, limit, 0x1_0000);
            lemma_mul_bounds(by_ability.num as int, by_score.den as int, 0x1_0000, limit);
            lemma_mul_bounds(by_score.den as int, by_ability.den as int, limit, 0x1_0000);
            lemma_mul_bounds(
                by_score.num * by_ability.den + by_ability.num * by_score.den,
                steady.num as int,
                2 * (limit * 0x1_0000),
                512,
            );
        }
        let sum: i128 = by_score.num * by_ability.den + by_ability.num * by_score.den;
        let whole: i128 = 2 * (by_score.den * by_ability.den);
        Fraction { num: sum * steady.num, den: whole * steady.den }
    }
}

/// The name of a position on the screen: the positions are numbered from
/// the goal outwards and from left to right.
pub open spec fn position_name(position: u8) -> Seq<char> {
    if position == 0 {
        "G"@
    } else if position == 1 {
        "LD"@
    } else if position == 2 {
        "RD"@
    } else if position == 3 {
        "LW"@
    } else if position == 4 {
        "C"@
    } else {
        "RW"@
    }
}

/// The names of some positions, with a stroke between them.
pub open spec fn position_names(positions: Seq<u8>) -> Seq<char>
    decreases positions.len(),
{
    if positions.len() == 0 {
        Seq::empty()
    } else if positions.len() == 1 {
        position_name(positions[0])
    } else {
        position_names(positions.drop_last()) + "/"@ + position_name(positions.last())
    }
}

fn name_of_position(position: u8) -> (name: &'static str)
    ensures
        name@ == position_name(position),
{
    if position == 0 {
        "G"
    } else if position == 1 {
        "LD"
    } else if position == 2 {
        "RD"
    } else if position == 3 {
        "LW"
    } else if position == 4 {
        "C"
    } else {
        "RW"
    }
}

impl Player {
    /// The score of the player in a position.
    pub open spec fn position_score(&self, position: u8) -> i8 {
        if position == 0 {
            self.goaltender
        } else if position == 1 {
            self.left_defence
        } else if position == 2 {
            self.right_defence
        } else if position == 3 {
            self.left_wing
        } else if position == 4 {
            self.center
        } else {
            self.right_wing
        }
    }

    /// Whether `first` comes before `second` among the positions of the
    /// player: the higher score first, and of two with the same score the
    /// lower number.
    pub open spec fn ranks_before(&self, first: u8, second: u8) -> bool {
        self.position_score(first) > self.position_score(second) || (self.position_score(first)
            == self.position_score(second) && first < second)
    }

    /// Whether `positions` are the positions of the player: all those with a
    /// score of at least `PLAYABLE_POSITION`, each once, the best first.
    pub open spec fn plays(&self, positions: Seq<u8>) -> bool {
        &&& forall|i: int|
            0 <= i < positions.len() ==> positions[i] < 6 && self.position_score(
                #[trigger] positions[i],
            ) >= PLAYABLE_POSITION
        &&& forall|q: u8|
            q < 6 && self.position_score(q) >= PLAYABLE_POSITION ==> #[trigger] positions.contains(
                q,
            )
        &&& forall|i: int, j: int|
            0 <= i < j < positions.len() ==> self.ranks_before(
                #[trigger] positions[i],
                #[trigger] positions[j],
            )
    }

    /// The positions of the player: all those with a score of at least
    /// `PLAYABLE_POSITION`, each once, the best first.
    pub open spec fn positions(&self) -> Seq<u8> {
        choose|positions: Seq<u8>| self.plays(positions)
    }

    fn score_in(&self, position: u8) -> (score: i8)
        ensures
            score == self.position_score(position),
    {
        if position == 0 {
            self.goaltender
        } else if position == 1 {
            self.left_defence
        } else if position == 2 {
            self.right_defence
        } else if position == 3 {
            self.left_wing
        } else if position == 4 {
            self.center
        } else {
            self.right_wing
        }
    }

    /// The positions of the player, the best first.
    pub fn position_vec(&self) -> (positions: Vec<u8>)
        ensures
            self.plays(positions@),
            positions@ == self.positions(),
    {
        let mut positions: Vec<u8> = Vec::new();
        let mut position: u8 = 0;
        while position < 6
            invariant
                position <= 6,
                forall|i: int|
                    0 <= i < positions@.len() ==> (#[trigger] positions@[i]) < position
                        && self.position_score(positions@[i]) >= PLAYABLE_POSITION,
                forall|q: u8|
                    q < position && self.position_score(q) >= PLAYABLE_POSITION
                        ==> #[trigger] positions@.contains(q),
                forall|i: int, j: int|
                    0 <= i < j < positions@.len() ==> self.ranks_before(
                        #[trigger] positions@[i],
                        #[trigger] positions@[j],
                    ),
            decreases 6 - position,
        {
            let score = self.score_in(position);
            if score >= PLAYABLE_POSITION {
                let mut place: usize = 0;
                while place < positions.len() && self.score_in(positions[place]) >= score
                    invariant
                        place <= positions@.len(),
                        forall|i: int|
                            0 <= i < place ==> self.position_score(#[trigger] positions@[i])
                                >= score,
                    decreases positions@.len() - place,
                {
                    place += 1;
                }
                let ghost before = positions@;
                positions.insert(place, position);
                proof {
                    assert forall|q: u8|
                        q < position + 1 && self.position_score(q)
                            >= PLAYABLE_POSITION implies #[trigger] positions@.contains(q) by {
                        if q == position {
                            assert(positions@[place as int] == q);
                        } else {
                            assert(before.contains(q));
                            let k = choose|k: int| 0 <= k < before.len() && before[k] == q;
                            if k < place {
                                assert(positions@[k] == q);
                            } else {
                                assert(positions@[k + 1] == q);
                            }
                        }
                    }
                    assert forall|i: int, j: int|
                        0 <= i < j < positions@.len() implies self.ranks_before(
                        #[trigger] positions@[i],
                        #[trigger] positions@[j],
                    ) by {
                        let a = if i < place {
                            i
                        } else {
                            i - 1
                        };
                        let b = if j < place {
                            j
                        } else {
                            j - 1
                        };
                        if i != place && j != place {
                            assert(self.ranks_before(before[a], before[b]));
                        } else if i == place {
                            if place < before.len() && b > place {
                                assert(self.ranks_before(before[place as int], before[b]));
                            }
                        } else {
                            assert(self.position_score(before[a]) >= score);
                            assert(before[a] < position);
                        }
                    }
                }
            }
            position += 1;
        }
        proof {
            assert(self.plays(positions@));
            assert(exists|r: Seq<u8>| self.plays(r));
            lemma_positions_unique(*self, positions@, self.positions());
        }
        positions
    }

    /// The names of the positions of the player, the best first, with
    /// strokes between them.
    pub fn position_string(&self) -> (s: String)
        ensures
            s@ == position_names(self.positions()),
    {
        let positions = self.position_vec();
        let mut s = String::new();
        let mut i: usize = 0;
        assert(positions@.subrange(0, 0) =~= Seq::<u8>::empty());
        while i < positions.len()
            invariant
                i <= positions@.len(),
                s@ == position_names(positions@.subrange(0, i as int)),
            decreases positions@.len() - i,
        {
            let ghost so_far = s@;
            let ghost next = positions@.subrange(0, i + 1);
            proof {
                assert(next.drop_last() =~= positions@.subrange(0, i as int));
                assert(next.last() == positions@[i as int]);
            }
            if i > 0 {
                s.append("/");
            } else {
                assert(so_far =~= Seq::<char>::empty());
                assert(next[0] == positions@[0]);
            }
            s.append(name_of_position(positions[i]));
            assert(s@ =~= position_names(next));
            i += 1;
        }
        assert(positions@.subrange(0, i as int) =~= positions@);
        s
    }
}

/// A player has one list of positions.
pub proof fn lemma_positions_unique(p: Player, a: Seq<u8>, b: Seq<u8>)
    requires
        p.plays(a),
        p.plays(b),
    ensures
        a == b,
{
    assert forall|i: int| 0 <= i < a.len() implies b.contains(#[trigger] a[i]) by {
        assert(a[i] < 6 && p.position_score(a[i]) >= PLAYABLE_POSITION);
    }
    assert forall|i: int| 0 <= i < b.len() implies a.contains(#[trigger] b[i]) by {
        assert(b[i] < 6 && p.position_score(b[i]) >= PLAYABLE_POSITION);
    }
    lemma_same_ranking(p, a, b);
}

/// Two lists that hold the same positions, each with the best first, are
/// the same.
proof fn lemma_same_ranking(p: Player, a: Seq<u8>, b: Seq<u8>)
    requires
        forall|i: int| 0 <= i < a.len() ==> b.contains(#[trigger] a[i]),
        forall|i: int| 0 <= i < b.len() ==> a.contains(#[trigger] b[i]),
        forall|i: int, j: int|
            0 <= i < j < a.len() ==> p.ranks_before(#[trigger] a[i], #[trigger] a[j]),
        forall|i: int, j: int|
            0 <= i < j < b.len() ==> p.ranks_before(#[trigger] b[i], #[trigger] b[j]),
    ensures
        a == b,
    decreases a.len(),
{
    if a.len() == 0 {
        if b.len() > 0 {
            assert(a.contains(b[0]));
        }
        assert(a =~= b);
    } else if b.len() == 0 {
        assert(b.contains(a[0]));
    } else {
        // The first of each list stands somewhere in the other, and nothing
        // ranks before the first of a list.
        assert(b.contains(a[0]));
        assert(a.contains(b[0]));
        let i = choose|i: int| 0 <= i < b.len() && b[i] == a[0];
        let j = choose|j: int| 0 <= j < a.len() && a[j] == b[0];
        if i > 0 {
            assert(p.ranks_before(b[0], b[i]));
        }
        if j > 0 {
            assert(p.ranks_before(a[0], a[j]));
        }
        assert(a[0] == b[0]);
        let ra = a.drop_first();
        let rb = b.drop_first();
        assert forall|k: int| 0 <= k < ra.len() implies rb.contains(#[trigger] ra[k]) by {
            assert(ra[k] == a[k + 1]);
            assert(b.contains(a[k + 1]));
            let m = choose|m: int| 0 <= m < b.len() && b[m] == a[k + 1];
            assert(p.ranks_before(a[0], a[k + 1]));
            assert(rb[m - 1] == ra[k]);
        }
        assert forall|k: int| 0 <= k < rb.len() implies ra.contains(#[trigger] rb[k]) by {
            assert(rb[k] == b[k + 1]);
            assert(a.contains(b[k + 1]));
            let m = choose|m: int| 0 <= m < a.len() && a[m] == b[k + 1];
            assert(p.ranks_before(b[0], b[k + 1]));
            assert(ra[m - 1] == rb[k]);
        }
        assert forall|x: int, y: int| 0 <= x < y < ra.len() implies p.ranks_before(
            #[trigger] ra[x],
            #[trigger] ra[y],
        ) by {
            assert(p.ranks_before(a[x + 1], a[y + 1]));
        }
        assert forall|x: int, y: int| 0 <= x < y < rb.len() implies p.ranks_before(
            #[trigger] rb[x],
            #[trigger] rb[y],
        ) by {
            assert(p.ranks_before(b[x + 1], b[y + 1]));
        }
        lemma_same_ranking(p, ra, rb);
        assert(a =~= seq![a[0]] + ra);
        assert(b =~= seq![b[0]] + rb);
    }
}

/// Where a value stands between two bounds, as the two parts of a ratio:
/// 0 at `low` and 1 at `high`, and 1 where the bounds are the same.
pub open spec fn standing(value: int, low: int, high: int) -> (int, int) {
    if low == high {
        (1, 1)
    } else {
        (value - low, high - low)
    }
}

/// The mean of two ratios, times the steadiness of a player: a ratio from
/// one half, where `steadiness` is 0, to one, where it is 57.
pub open spec fn rating_of(by_score: (int, int), by_ability: (int, int), steadiness: int)
    -> Fraction {
    Fraction {
        num: ((by_score.0 * by_ability.1 + by_ability.0 * by_score.1) * (57 + steadiness))
            as i128,
        den: (2 * (by_score.1 * by_ability.1) * 114) as i128,
    }
}

/// A rating lies between 0 and 1.
///
/// It does wherever the score lies within the bounds of its class, the
/// current ability within its bounds, and the traits of steadiness are each
/// between 1 and 20; and it still does after the fit of a position is
/// counted in, wherever the score of the position and the versatility are
/// each between 1 and 20.
pub proof fn lemma_rating_in_unit(
    p: Player,
    bounds: RatingBounds,
    score: i64,
    low: i64,
    high: i64,
    position: i8,
)
    requires
        low <= score <= high,
        bounds.worst_ca <= p.current_ability <= bounds.best_ca,
        0 <= p.steadiness() <= 57,
        position == 0 || 1 <= position <= 20,
        1 <= p.versatility <= 20,
    ensures
        p.rated(&bounds, score as int, low as int, high as int).in_unit(),
        p.position_fit(position).in_unit(),
        product(
            p.rated(&bounds, score as int, low as int, high as int),
            p.position_fit(position),
        ).in_unit(),
{
    let a = standing(score as int, low as int, high as int);
    let b = standing(p.current_ability as int, bounds.worst_ca as int, bounds.best_ca as int);
    let steady = 57 + p.steadiness();
    let sum = a.0 * b.1 + b.0 * a.1;
    let whole = 2 * (a.1 * b.1);
    assert(whole > 0 && 0 <= sum <= whole) by (nonlinear_arith)
        requires
            a.1 > 0,
            0 <= a.0 <= a.1,
            b.1 > 0,
            0 <= b.0 <= b.1,
            sum == a.0 * b.1 + b.0 * a.1,
            whole == 2 * (a.1 * b.1),
    ;
    assert(whole * 114 > 0 && 0 <= sum * steady <= whole * 114) by (nonlinear_arith)
        requires
            whole > 0,
            0 <= sum <= whole,
            57 <= steady <= 114,
    ;
    lemma_rated_parts(p, bounds, score, low, high);
    let rated = p.rated(&bounds, score as int, low as int, high as int);
    let fit = p.position_fit(position);
    lemma_times_in_unit(rated, fit);
    lemma_mul_bounds(rated.num as int, fit.num as int, RATING_LIMIT as int, FACTOR_LIMIT as int);
    lemma_mul_bounds(rated.den as int, fit.den as int, RATING_LIMIT as int, FACTOR_LIMIT as int);
}

/// The parts of a rating.
pub proof fn lemma_rated_parts(p: Player, bounds: RatingBounds, score: i64, low: i64, high: i64)
    ensures
        ({
            let a = standing(score as int, low as int, high as int);
            let b = standing(
                p.current_ability as int,
                bounds.worst_ca as int,
                bounds.best_ca as int,
            );
            let r = p.rated(&bounds, score as int, low as int, high as int);
            &&& r.num == (a.0 * b.1 + b.0 * a.1) * (57 + p.steadiness())
            &&& r.den == 2 * (a.1 * b.1) * 114
            &&& r.within(RATING_LIMIT)
        }),
{
    let a = standing(score as int, low as int, high as int);
    let b = standing(p.current_ability as int, bounds.worst_ca as int, bounds.best_ca as int);
    let limit = 0x1_0000_0000_0000_0000int;
    lemma_mul_bounds(a.0, b.1, limit, 0x1_0000);
    lemma_mul_bounds(b.0, a.1, 0x1_0000, limit);
    lemma_mul_bounds(a.1, b.1, limit, 0x1_0000);
    lemma_mul_bounds(a.0 * b.1 + b.0 * a.1, 57 + p.steadiness(), 2 * (limit * 0x1_0000), 512);
}

} // verus!
