//! The layout of a nation.

use vstd::prelude::*;
use vstd::utf8::{decode_utf8, valid_utf8};

use crate::chars::{bytes_to_string, EncodingError, to_utf8, until_nul};
use crate::data::{SHORT_TEXT_LENGTH, STANDARD_TEXT_LENGTH, THREE_LETTER_TEXT_LENGTH};
use crate::data::record::Record;
use crate::to_bytes::{
    group_le_len, le_i16, le_i32, le_i8, le_u64, lemma_concat_cancel, lemma_le_i16_injective,
    lemma_le_i32_injective, lemma_le_i8_injective, lemma_le_u64_injective, put_bytes, put_i16,
    put_i32, put_i8, put_u64, Reader,
};

verus! {

broadcast use group_le_len;

/// A nation.
///
/// A field whose name ends in `_bits` holds the 64 bits of a floating-point
/// number, which are carried through as they are.
#[derive(Clone, Copy, Debug, PartialEq, Eq)]
pub struct Nation {
    pub iihf_ranking_score_bits: u64,
    pub iihf_ranking_score_98_bits: u64,
    pub iihf_ranking_score_99_bits: u64,
    pub iihf_ranking_score_00_bits: u64,
    pub iihf_ranking_score_01_bits: u64,
    pub iihf_ranking_score_02_bits: u64,
    pub iihf_ranking_score_03_bits: u64,
    pub jr_final_position_1: i8,
    pub jr_final_position_2: i8,
    pub jr_final_position_3: i8,
    pub men_final_position_1: i8,
    pub men_final_position_2: i8,
    pub men_final_position_3: i8,
    pub id: i32,
    pub number_staff: i32,
    pub continent_id: i32,
    pub capital_id: i32,
    pub national_stadium_id: i32,
    pub foreground_colour1_id: i32,
    pub background_colour1_id: i32,
    pub trim_colour1_id: i32,
    pub foreground_colour2_id: i32,
    pub background_colour2_id: i32,
    pub trim_colour2_id: i32,
    pub foreground_colour3_id: i32,
    pub background_colour3_id: i32,
    pub trim_colour3_id: i32,
    pub rival1_id: i32,
    pub rival2_id: i32,
    pub rival3_id: i32,
    pub b_three_letter_name: [u8; THREE_LETTER_TEXT_LENGTH],
    pub number_clubs: i16,
    pub reputation: i16,
    pub b_name: [u8; STANDARD_TEXT_LENGTH],
    pub b_short_name: [u8; SHORT_TEXT_LENGTH],
    pub b_nationality_name: [u8; SHORT_TEXT_LENGTH],
    pub gender_name: i8,
    pub gender_name_short: i8,
    pub region: i8,
    pub actual_region: i8,
    pub first_language: i8,
    pub second_language: i8,
    pub third_language: i8,
    pub state_of_development: i8,
    pub group_membership: i8,
    pub game_importance: i8,
    pub league_standard: i8,
    pub league_selected: i8,
    pub games_played: i8,
    pub citizenship_years: i8,
}

impl Nation {
    /// The three-letter name.
    pub fn three_letter_name(&self) -> (r: Result<String, EncodingError>)
        ensures
            r.is_ok() <==> valid_utf8(to_utf8(until_nul(self.b_three_letter_name@))),
            r matches Ok(s) ==> s@ == decode_utf8(to_utf8(until_nul(self.b_three_letter_name@))),
            r matches Err(e) ==> e.raw@ == self.b_three_letter_name@,
    {
        bytes_to_string(&self.b_three_letter_name)
    }

    /// The name of the nation.
    pub fn name(&self) -> (r: Result<String, EncodingError>)
        ensures
            r.is_ok() <==> valid_utf8(to_utf8(until_nul(self.b_name@))),
            r matches Ok(s) ==> s@ == decode_utf8(to_utf8(until_nul(self.b_name@))),
            r matches Err(e) ==> e.raw@ == self.b_name@,
    {
        bytes_to_string(&self.b_name)
    }

    /// The short name of the nation.
    pub fn short_name(&self) -> (r: Result<String, EncodingError>)
        ensures
            r.is_ok() <==> valid_utf8(to_utf8(until_nul(self.b_short_name@))),
            r matches Ok(s) ==> s@ == decode_utf8(to_utf8(until_nul(self.b_short_name@))),
            r matches Err(e) ==> e.raw@ == self.b_short_name@,
    {
        bytes_to_string(&self.b_short_name)
    }

    /// The word for someone of the nation.
    pub fn nationality_name(&self) -> (r: Result<String, EncodingError>)
        ensures
            r.is_ok() <==> valid_utf8(to_utf8(until_nul(self.b_nationality_name@))),
            r matches Ok(s) ==> s@ == decode_utf8(to_utf8(until_nul(self.b_nationality_name@))),
            r matches Err(e) ==> e.raw@ == self.b_nationality_name@,
    {
        bytes_to_string(&self.b_nationality_name)
    }
}

impl Record for Nation {
    open spec fn encoding(&self) -> Seq<u8> {
        le_u64(self.iihf_ranking_score_bits)
        + le_u64(self.iihf_ranking_score_98_bits)
        + le_u64(self.iihf_ranking_score_99_bits)
        + le_u64(self.iihf_ranking_score_00_bits)
        + le_u64(self.iihf_ranking_score_01_bits)
        + le_u64(self.iihf_ranking_score_02_bits)
        + le_u64(self.iihf_ranking_score_03_bits)
        + le_i8(self.jr_final_position_1)
        + le_i8(self.jr_final_position_2)
        + le_i8(self.jr_final_position_3)
        + le_i8(self.men_final_position_1)
        + le_i8(self.men_final_position_2)
        + le_i8(self.men_final_position_3)
        + le_i32(self.id)
        + le_i32(self.number_staff)
        + le_i32(self.continent_id)
        + le_i32(self.capital_id)
        + le_i32(self.national_stadium_id)
        + le_i32(self.foreground_colour1_id)
        + le_i32(self.background_colour1_id)
        + le_i32(self.trim_colour1_id)
        + le_i32(self.foreground_colour2_id)
        + le_i32(self.background_colour2_id)
        + le_i32(self.trim_colour2_id)
        + le_i32(self.foreground_colour3_id)
        + le_i32(self.background_colour3_id)
        + le_i32(self.trim_colour3_id)
        + le_i32(self.rival1_id)
        + le_i32(self.rival2_id)
        + le_i32(self.rival3_id)
        + self.b_three_letter_name@
        + le_i16(self.number_clubs)
        + le_i16(self.reputation)
        + self.b_name@
        + self.b_short_name@
        + self.b_nationality_name@
        + le_i8(self.gender_name)
        + le_i8(self.gender_name_short)
        + le_i8(self.region)
        + le_i8(self.actual_region)
        + le_i8(self.first_language)
        + le_i8(self.second_language)
        + le_i8(self.third_language)
        + le_i8(self.state_of_development)
        + le_i8(self.group_membership)
        + le_i8(self.game_importance)
        + le_i8(self.league_standard)
        + le_i8(self.league_selected)
        + le_i8(self.games_played)
        + le_i8(self.citizenship_years)
    }

    open spec fn key(&self) -> i32 {
        self.id
    }

    open spec fn stride() -> nat {
        255
    }

    proof fn lemma_stride(&self) {
    }

    #[verifier::rlimit(60)]
    proof fn lemma_injective(a: Self, b: Self) {
        let a0 = le_u64(a.iihf_ranking_score_bits);
        let b0 = le_u64(b.iihf_ranking_score_bits);
        let a1 = a0 + le_u64(a.iihf_ranking_score_98_bits);
        let b1 = b0 + le_u64(b.iihf_ranking_score_98_bits);
        let a2 = a1 + le_u64(a.iihf_ranking_score_99_bits);
        let b2 = b1 + le_u64(b.iihf_ranking_score_99_bits);
        let a3 = a2 + le_u64(a.iihf_ranking_score_00_bits);
        let b3 = b2 + le_u64(b.iihf_ranking_score_00_bits);
        let a4 = a3 + le_u64(a.iihf_ranking_score_01_bits);
        let b4 = b3 + le_u64(b.iihf_ranking_score_01_bits);
        let a5 = a4 + le_u64(a.iihf_ranking_score_02_bits);
        let b5 = b4 + le_u64(b.iihf_ranking_score_02_bits);
        let a6 = a5 + le_u64(a.iihf_ranking_score_03_bits);
        let b6 = b5 + le_u64(b.iihf_ranking_score_03_bits);
        let a7 = a6 + le_i8(a.jr_final_position_1);
        let b7 = b6 + le_i8(b.jr_final_position_1);
        let a8 = a7 + le_i8(a.jr_final_position_2);
        let b8 = b7 + le_i8(b.jr_final_position_2);
        let a9 = a8 + le_i8(a.jr_final_position_3);
        let b9 = b8 + le_i8(b.jr_final_position_3);
        let a10 = a9 + le_i8(a.men_final_position_1);
        let b10 = b9 + le_i8(b.men_final_position_1);
        let a11 = a10 + le_i8(a.men_final_position_2);
        let b11 = b10 + le_i8(b.men_final_position_2);
        let a12 = a11 + le_i8(a.men_final_position_3);
        let b12 = b11 + le_i8(b.men_final_position_3);
        let a13 = a12 + le_i32(a.id);
        let b13 = b12 + le_i32(b.id);
        let a14 = a13 + le_i32(a.number_staff);
        let b14 = b13 + le_i32(b.number_staff);
        let a15 = a14 + le_i32(a.continent_id);
        let b15 = b14 + le_i32(b.continent_id);
        let a16 = a15 + le_i32(a.capital_id);
        let b16 = b15 + le_i32(b.capital_id);
        let a17 = a16 + le_i32(a.national_stadium_id);
        let b17 = b16 + le_i32(b.national_stadium_id);
        let a18 = a17 + le_i32(a.foreground_colour1_id);
        let b18 = b17 + le_i32(b.foreground_colour1_id);
        let a19 = a18 + le_i32(a.background_colour1_id);
        let b19 = b18 + le_i32(b.background_colour1_id);
        let a20 = a19 + le_i32(a.trim_colour1_id);
        let b20 = b19 + le_i32(b.trim_colour1_id);
        let a21 = a20 + le_i32(a.foreground_colour2_id);
        let b21 = b20 + le_i32(b.foreground_colour2_id);
        let a22 = a21 + le_i32(a.background_colour2_id);
        let b22 = b21 + le_i32(b.background_colour2_id);
        let a23 = a22 + le_i32(a.trim_colour2_id);
        let b23 = b22 + le_i32(b.trim_colour2_id);
        let a24 = a23 + le_i32(a.foreground_colour3_id);
        let b24 = b23 + le_i32(b.foreground_colour3_id);
        let a25 = a24 + le_i32(a.background_colour3_id);
        let b25 = b24 + le_i32(b.background_colour3_id);
        let a26 = a25 + le_i32(a.trim_colour3_id);
        let b26 = b25 + le_i32(b.trim_colour3_id);
        let a27 = a26 + le_i32(a.rival1_id);
        let b27 = b26 + le_i32(b.rival1_id);
        let a28 = a27 + le_i32(a.rival2_id);
        let b28 = b27 + le_i32(b.rival2_id);
        let a29 = a28 + le_i32(a.rival3_id);
        let b29 = b28 + le_i32(b.rival3_id);
        let a30 = a29 + a.b_three_letter_name@;
        let b30 = b29 + b.b_three_letter_name@;
        let a31 = a30 + le_i16(a.number_clubs);
        let b31 = b30 + le_i16(b.number_clubs);
        let a32 = a31 + le_i16(a.reputation);
        let b32 = b31 + le_i16(b.reputation);
        let a33 = a32 + a.b_name@;
        let b33 = b32 + b.b_name@;
        let a34 = a33 + a.b_short_name@;
        let b34 = b33 + b.b_short_name@;
        let a35 = a34 + a.b_nationality_name@;
        let b35 = b34 + b.b_nationality_name@;
        let a36 = a35 + le_i8(a.gender_name);
        let b36 = b35 + le_i8(b.gender_name);
        let a37 = a36 + le_i8(a.gender_name_short);
        let b37 = b36 + le_i8(b.gender_name_short);
        let a38 = a37 + le_i8(a.region);
        let b38 = b37 + le_i8(b.region);
        let a39 = a38 + le_i8(a.actual_region);
        let b39 = b38 + le_i8(b.actual_region);
        let a40 = a39 + le_i8(a.first_language);
        let b40 = b39 + le_i8(b.first_language);
        let a41 = a40 + le_i8(a.second_language);
        let b41 = b40 + le_i8(b.second_language);
        let a42 = a41 + le_i8(a.third_language);
        let b42 = b41 + le_i8(b.third_language);
        let a43 = a42 + le_i8(a.state_of_development);
        let b43 = b42 + le_i8(b.state_of_development);
        let a44 = a43 + le_i8(a.group_membership);
        let b44 = b43 + le_i8(b.group_membership);
        let a45 = a44 + le_i8(a.game_importance);
        let b45 = b44 + le_i8(b.game_importance);
        let a46 = a45 + le_i8(a.league_standard);
        let b46 = b45 + le_i8(b.league_standard);
        let a47 = a46 + le_i8(a.league_selected);
        let b47 = b46 + le_i8(b.league_selected);
        let a48 = a47 + le_i8(a.games_played);
        let b48 = b47 + le_i8(b.games_played);
        lemma_concat_cancel(a48, le_i8(a.citizenship_years), b48, le_i8(b.citizenship_years));
        lemma_le_i8_injective(a.citizenship_years, b.citizenship_years);
        lemma_concat_cancel(a47, le_i8(a.games_played), b47, le_i8(b.games_played));
        lemma_le_i8_injective(a.games_played, b.games_played);
        lemma_concat_cancel(a46, le_i8(a.league_selected), b46, le_i8(b.league_selected));
        lemma_le_i8_injective(a.league_selected, b.league_selected);
        lemma_concat_cancel(a45, le_i8(a.league_standard), b45, le_i8(b.league_standard));
        lemma_le_i8_injective(a.league_standard, b.league_standard);
        lemma_concat_cancel(a44, le_i8(a.game_importance), b44, le_i8(b.game_importance));
        lemma_le_i8_injective(a.game_importance, b.game_importance);
        lemma_concat_cancel(a43, le_i8(a.group_membership), b43, le_i8(b.group_membership));
        lemma_le_i8_injective(a.group_membership, b.group_membership);
        lemma_concat_cancel(a42, le_i8(a.state_of_development), b42, le_i8(b.state_of_development));
        lemma_le_i8_injective(a.state_of_development, b.state_of_development);
        lemma_concat_cancel(a41, le_i8(a.third_language), b41, le_i8(b.third_language));
        lemma_le_i8_injective(a.third_language, b.third_language);
        lemma_concat_cancel(a40, le_i8(a.second_language), b40, le_i8(b.second_language));
        lemma_le_i8_injective(a.second_language, b.second_language);
        lemma_concat_cancel(a39, le_i8(a.first_language), b39, le_i8(b.first_language));
        lemma_le_i8_injective(a.first_language, b.first_language);
        lemma_concat_cancel(a38, le_i8(a.actual_region), b38, le_i8(b.actual_region));
        lemma_le_i8_injective(a.actual_region, b.actual_region);
        lemma_concat_cancel(a37, le_i8(a.region), b37, le_i8(b.region));
        lemma_le_i8_injective(a.region, b.region);
        lemma_concat_cancel(a36, le_i8(a.gender_name_short), b36, le_i8(b.gender_name_short));
        lemma_le_i8_injective(a.gender_name_short, b.gender_name_short);
        lemma_concat_cancel(a35, le_i8(a.gender_name), b35, le_i8(b.gender_name));
        lemma_le_i8_injective(a.gender_name, b.gender_name);
        lemma_concat_cancel(a34, a.b_nationality_name@, b34, b.b_nationality_name@);
        assert(a.b_nationality_name =~= b.b_nationality_name);
        lemma_concat_cancel(a33, a.b_short_name@, b33, b.b_short_name@);
        assert(a.b_short_name =~= b.b_short_name);
        lemma_concat_cancel(a32, a.b_name@, b32, b.b_name@);
        assert(a.b_name =~= b.b_name);
        lemma_concat_cancel(a31, le_i16(a.reputation), b31, le_i16(b.reputation));
        lemma_le_i16_injective(a.reputation, b.reputation);
        lemma_concat_cancel(a30, le_i16(a.number_clubs), b30, le_i16(b.number_clubs));
        lemma_le_i16_injective(a.number_clubs, b.number_clubs);
        lemma_concat_cancel(a29, a.b_three_letter_name@, b29, b.b_three_letter_name@);
        assert(a.b_three_letter_name =~= b.b_three_letter_name);
        lemma_concat_cancel(a28, le_i32(a.rival3_id), b28, le_i32(b.rival3_id));
        lemma_le_i32_injective(a.rival3_id, b.rival3_id);
        lemma_concat_cancel(a27, le_i32(a.rival2_id), b27, le_i32(b.rival2_id));
        lemma_le_i32_injective(a.rival2_id, b.rival2_id);
        lemma_concat_cancel(a26, le_i32(a.rival1_id), b26, le_i32(b.rival1_id));
        lemma_le_i32_injective(a.rival1_id, b.rival1_id);
        lemma_concat_cancel(a25, le_i32(a.trim_colour3_id), b25, le_i32(b.trim_colour3_id));
        lemma_le_i32_injective(a.trim_colour3_id, b.trim_colour3_id);
        lemma_concat_cancel(
            a24,
            le_i32(a.background_colour3_id),
            b24,
            le_i32(b.background_colour3_id),
        );
        lemma_le_i32_injective(a.background_colour3_id, b.background_colour3_id);
        lemma_concat_cancel(
            a23,
            le_i32(a.foreground_colour3_id),
            b23,
            le_i32(b.foreground_colour3_id),
        );
        lemma_le_i32_injective(a.foreground_colour3_id, b.foreground_colour3_id);
        lemma_concat_cancel(a22, le_i32(a.trim_colour2_id), b22, le_i32(b.trim_colour2_id));
        lemma_le_i32_injective(a.trim_colour2_id, b.trim_colour2_id);
        lemma_concat_cancel(
            a21,
            le_i32(a.background_colour2_id),
            b21,
            le_i32(b.background_colour2_id),
        );
        lemma_le_i32_injective(a.background_colour2_id, b.background_colour2_id);
        lemma_concat_cancel(
            a20,
            le_i32(a.foreground_colour2_id),
            b20,
            le_i32(b.foreground_colour2_id),
        );
        lemma_le_i32_injective(a.foreground_colour2_id, b.foreground_colour2_id);
        lemma_concat_cancel(a19, le_i32(a.trim_colour1_id), b19, le_i32(b.trim_colour1_id));
        lemma_le_i32_injective(a.trim_colour1_id, b.trim_colour1_id);
        lemma_concat_cancel(
            a18,
            le_i32(a.background_colour1_id),
            b18,
            le_i32(b.background_colour1_id),
        );
        lemma_le_i32_injective(a.background_colour1_id, b.background_colour1_id);
        lemma_concat_cancel(
            a17,
            le_i32(a.foreground_colour1_id),
            b17,
            le_i32(b.foreground_colour1_id),
        );
        lemma_le_i32_injective(a.foreground_colour1_id, b.foreground_colour1_id);
        lemma_concat_cancel(a16, le_i32(a.national_stadium_id), b16, le_i32(b.national_stadium_id));
        lemma_le_i32_injective(a.national_stadium_id, b.national_stadium_id);
        lemma_concat_cancel(a15, le_i32(a.capital_id), b15, le_i32(b.capital_id));
        lemma_le_i32_injective(a.capital_id, b.capital_id);
        lemma_concat_cancel(a14, le_i32(a.continent_id), b14, le_i32(b.continent_id));
        lemma_le_i32_injective(a.continent_id, b.continent_id);
        lemma_concat_cancel(a13, le_i32(a.number_staff), b13, le_i32(b.number_staff));
        lemma_le_i32_injective(a.number_staff, b.number_staff);
        lemma_concat_cancel(a12, le_i32(a.id), b12, le_i32(b.id));
        lemma_le_i32_injective(a.id, b.id);
        lemma_concat_cancel(a11, le_i8(a.men_final_position_3), b11, le_i8(b.men_final_position_3));
        lemma_le_i8_injective(a.men_final_position_3, b.men_final_position_3);
        lemma_concat_cancel(a10, le_i8(a.men_final_position_2), b10, le_i8(b.men_final_position_2));
        lemma_le_i8_injective(a.men_final_position_2, b.men_final_position_2);
        lemma_concat_cancel(a9, le_i8(a.men_final_position_1), b9, le_i8(b.men_final_position_1));
        lemma_le_i8_injective(a.men_final_position_1, b.men_final_position_1);
        lemma_concat_cancel(a8, le_i8(a.jr_final_position_3), b8, le_i8(b.jr_final_position_3));
        lemma_le_i8_injective(a.jr_final_position_3, b.jr_final_position_3);
        lemma_concat_cancel(a7, le_i8(a.jr_final_position_2), b7, le_i8(b.jr_final_position_2));
        lemma_le_i8_injective(a.jr_final_position_2, b.jr_final_position_2);
        lemma_concat_cancel(a6, le_i8(a.jr_final_position_1), b6, le_i8(b.jr_final_position_1));
        lemma_le_i8_injective(a.jr_final_position_1, b.jr_final_position_1);
        lemma_concat_cancel(
            a5,
            le_u64(a.iihf_ranking_score_03_bits),
            b5,
            le_u64(b.iihf_ranking_score_03_bits),
        );
        lemma_le_u64_injective(a.iihf_ranking_score_03_bits, b.iihf_ranking_score_03_bits);
        lemma_concat_cancel(
            a4,
            le_u64(a.iihf_ranking_score_02_bits),
            b4,
            le_u64(b.iihf_ranking_score_02_bits),
        );
        lemma_le_u64_injective(a.iihf_ranking_score_02_bits, b.iihf_ranking_score_02_bits);
        lemma_concat_cancel(
            a3,
            le_u64(a.iihf_ranking_score_01_bits),
            b3,
            le_u64(b.iihf_ranking_score_01_bits),
        );
        lemma_le_u64_injective(a.iihf_ranking_score_01_bits, b.iihf_ranking_score_01_bits);
        lemma_concat_cancel(
            a2,
            le_u64(a.iihf_ranking_score_00_bits),
            b2,
            le_u64(b.iihf_ranking_score_00_bits),
        );
        lemma_le_u64_injective(a.iihf_ranking_score_00_bits, b.iihf_ranking_score_00_bits);
        lemma_concat_cancel(
            a1,
            le_u64(a.iihf_ranking_score_99_bits),
            b1,
            le_u64(b.iihf_ranking_score_99_bits),
        );
        lemma_le_u64_injective(a.iihf_ranking_score_99_bits, b.iihf_ranking_score_99_bits);
        lemma_concat_cancel(
            a0,
            le_u64(a.iihf_ranking_score_98_bits),
            b0,
            le_u64(b.iihf_ranking_score_98_bits),
        );
        lemma_le_u64_injective(a.iihf_ranking_score_98_bits, b.iihf_ranking_score_98_bits);
        lemma_le_u64_injective(a.iihf_ranking_score_bits, b.iihf_ranking_score_bits);
    }

    fn width() -> (n: usize) {
        255
    }

    fn id(&self) -> (k: i32) {
        self.id
    }

    #[verifier::rlimit(60)]
    fn parse(bytes: &[u8], at: usize) -> (r: Option<Self>) {
        if bytes.len() < 255 || at > bytes.len() - 255 {
            return None;
        }
        let mut r = Reader::new(bytes, at);
        let iihf_ranking_score_bits = r.read_u64();
        assert(r.taken() =~= le_u64(iihf_ranking_score_bits));
        let iihf_ranking_score_98_bits = r.read_u64();
        let iihf_ranking_score_99_bits = r.read_u64();
        let iihf_ranking_score_00_bits = r.read_u64();
        let iihf_ranking_score_01_bits = r.read_u64();
        let iihf_ranking_score_02_bits = r.read_u64();
        let iihf_ranking_score_03_bits = r.read_u64();
        let jr_final_position_1 = r.read_i8();
        assert(r.pos == at + 57);
        let jr_final_position_2 = r.read_i8();
        let jr_final_position_3 = r.read_i8();
        let men_final_position_1 = r.read_i8();
        let men_final_position_2 = r.read_i8();
        let men_final_position_3 = r.read_i8();
        let id = r.read_i32();
        let number_staff = r.read_i32();
        let continent_id = r.read_i32();
        assert(r.pos == at + 74);
        let capital_id = r.read_i32();
        let national_stadium_id = r.read_i32();
        let foreground_colour1_id = r.read_i32();
        let background_colour1_id = r.read_i32();
        let trim_colour1_id = r.read_i32();
        let foreground_colour2_id = r.read_i32();
        let background_colour2_id = r.read_i32();
        let trim_colour2_id = r.read_i32();
        assert(r.pos == at + 106);
        let foreground_colour3_id = r.read_i32();
        let background_colour3_id = r.read_i32();
        let trim_colour3_id = r.read_i32();
        let rival1_id = r.read_i32();
        let rival2_id = r.read_i32();
        let rival3_id = r.read_i32();
        let b_three_letter_name = r.read_bytes::<THREE_LETTER_TEXT_LENGTH>();
        let number_clubs = r.read_i16();
        assert(r.pos == at + 136);
        let reputation = r.read_i16();
        let b_name = r.read_bytes::<STANDARD_TEXT_LENGTH>();
        let b_short_name = r.read_bytes::<SHORT_TEXT_LENGTH>();
        let b_nationality_name = r.read_bytes::<SHORT_TEXT_LENGTH>();
        let gender_name = r.read_i8();
        let gender_name_short = r.read_i8();
        let region = r.read_i8();
        let actual_region = r.read_i8();
        assert(r.pos == at + 245);
        let first_language = r.read_i8();
        let second_language = r.read_i8();
        let third_language = r.read_i8();
        let state_of_development = r.read_i8();
        let group_membership = r.read_i8();
        let game_importance = r.read_i8();
        let league_standard = r.read_i8();
        let league_selected = r.read_i8();
        assert(r.pos == at + 253);
        let games_played = r.read_i8();
        let citizenship_years = r.read_i8();
        let rec = Nation {
            iihf_ranking_score_bits,
            iihf_ranking_score_98_bits,
            iihf_ranking_score_99_bits,
            iihf_ranking_score_00_bits,
            iihf_ranking_score_01_bits,
            iihf_ranking_score_02_bits,
            iihf_ranking_score_03_bits,
            jr_final_position_1,
            jr_final_position_2,
            jr_final_position_3,
            men_final_position_1,
            men_final_position_2,
            men_final_position_3,
            id,
            number_staff,
            continent_id,
            capital_id,
            national_stadium_id,
            foreground_colour1_id,
            background_colour1_id,
            trim_colour1_id,
            foreground_colour2_id,
            background_colour2_id,
            trim_colour2_id,
            foreground_colour3_id,
            background_colour3_id,
            trim_colour3_id,
            rival1_id,
            rival2_id,
            rival3_id,
            b_three_letter_name,
            number_clubs,
            reputation,
            b_name,
            b_short_name,
            b_nationality_name,
            gender_name,
            gender_name_short,
            region,
            actual_region,
            first_language,
            second_language,
            third_language,
            state_of_development,
            group_membership,
            game_importance,
            league_standard,
            league_selected,
            games_played,
            citizenship_years,
        };
        proof {
            r.lemma_taken();
        }
        Some(rec)
    }

    fn to_bytes(&self) -> (out: Vec<u8>) {
        let mut out = Vec::new();
        put_u64(&mut out, self.iihf_ranking_score_bits);
        assert(out@ =~= le_u64(self.iihf_ranking_score_bits));
        put_u64(&mut out, self.iihf_ranking_score_98_bits);
        put_u64(&mut out, self.iihf_ranking_score_99_bits);
        put_u64(&mut out, self.iihf_ranking_score_00_bits);
        put_u64(&mut out, self.iihf_ranking_score_01_bits);
        put_u64(&mut out, self.iihf_ranking_score_02_bits);
        put_u64(&mut out, self.iihf_ranking_score_03_bits);
        put_i8(&mut out, self.jr_final_position_1);
        put_i8(&mut out, self.jr_final_position_2);
        put_i8(&mut out, self.jr_final_position_3);
        put_i8(&mut out, self.men_final_position_1);
        put_i8(&mut out, self.men_final_position_2);
        put_i8(&mut out, self.men_final_position_3);
        put_i32(&mut out, self.id);
        put_i32(&mut out, self.number_staff);
        put_i32(&mut out, self.continent_id);
        put_i32(&mut out, self.capital_id);
        put_i32(&mut out, self.national_stadium_id);
        put_i32(&mut out, self.foreground_colour1_id);
        put_i32(&mut out, self.background_colour1_id);
        put_i32(&mut out, self.trim_colour1_id);
        put_i32(&mut out, self.foreground_colour2_id);
        put_i32(&mut out, self.background_colour2_id);
        put_i32(&mut out, self.trim_colour2_id);
        put_i32(&mut out, self.foreground_colour3_id);
        put_i32(&mut out, self.background_colour3_id);
        put_i32(&mut out, self.trim_colour3_id);
        put_i32(&mut out, self.rival1_id);
        put_i32(&mut out, self.rival2_id);
        put_i32(&mut out, self.rival3_id);
        put_bytes(&mut out, &self.b_three_letter_name);
        put_i16(&mut out, self.number_clubs);
        put_i16(&mut out, self.reputation);
        put_bytes(&mut out, &self.b_name);
        put_bytes(&mut out, &self.b_short_name);
        put_bytes(&mut out, &self.b_nationality_name);
        put_i8(&mut out, self.gender_name);
        put_i8(&mut out, self.gender_name_short);
        put_i8(&mut out, self.region);
        put_i8(&mut out, self.actual_region);
        put_i8(&mut out, self.first_language);
        put_i8(&mut out, self.second_language);
        put_i8(&mut out, self.third_language);
        put_i8(&mut out, self.state_of_development);
        put_i8(&mut out, self.group_membership);
        put_i8(&mut out, self.game_importance);
        put_i8(&mut out, self.league_standard);
        put_i8(&mut out, self.league_selected);
        put_i8(&mut out, self.games_played);
        put_i8(&mut out, self.citizenship_years);
        out
    }
}

} // verus!
