//! The layout of a club, or a national team laid out as one.

use vstd::prelude::*;
use vstd::utf8::{decode_utf8, valid_utf8};

use crate::chars::{bytes_to_string, EncodingError, to_utf8, until_nul};
use crate::data::{REAL_SHORT_TEXT_LENGTH, SHORT_TEXT_LENGTH, STANDARD_TEXT_LENGTH};
use crate::data::record::Record;
use crate::to_bytes::{
    group_le_len, le_i16, le_i32, le_i32s, le_i8, lemma_concat_cancel, lemma_le_i16_injective,
    lemma_le_i32_injective, lemma_le_i32s_injective, lemma_le_i8_injective, put_bytes, put_i16,
    put_i32, put_i32s, put_i8, Reader,
};

verus! {

broadcast use group_le_len;

/// A club, or a national team laid out as one.
#[derive(Clone, Copy, Debug, PartialEq, Eq)]
pub struct Club {
    pub id: i32,
    pub cash: i32,
    pub attendance: i32,
    pub min_attendance: i32,
    pub max_attendance: i32,
    pub euro_flag: i32,
    pub tactic_training: [i32; 4],
    pub tactic_selected: i32,
    pub fan_support: i32,
    pub player_budget: i32,
    pub nation_id: i32,
    pub division_id: i32,
    pub last_division_id: i32,
    pub reserve_division_id: i32,
    pub stadium_id: i32,
    pub practice_facilities_id: i32,
    pub foreground_colour1_id: i32,
    pub background_colour1_id: i32,
    pub trim_colour1_id: i32,
    pub foreground_colour2_id: i32,
    pub background_colour2_id: i32,
    pub trim_colour2_id: i32,
    pub foreground_colour3_id: i32,
    pub background_colour3_id: i32,
    pub trim_colour3_id: i32,
    pub favourite_staff1_id: i32,
    pub favourite_staff2_id: i32,
    pub favourite_staff3_id: i32,
    pub disliked_staff1_id: i32,
    pub disliked_staff2_id: i32,
    pub disliked_staff3_id: i32,
    pub rival1_id: i32,
    pub rival2_id: i32,
    pub rival3_id: i32,
    pub chairman_id: i32,
    pub director_ids: [i32; 3],
    pub manager_id: i32,
    pub assistant_manager_id: i32,
    pub head_coach_id: i32,
    pub head_scout_id: i32,
    pub squad_ids: [i32; 75],
    pub coach_ids: [i32; 5],
    pub scout_ids: [i32; 15],
    pub physio_ids: [i32; 3],
    pub captain_id: i32,
    pub assistant_captain1_id: i32,
    pub assistant_captain2_id: i32,
    pub reputation: i16,
    pub year_founded: i16,
    pub b_name: [u8; STANDARD_TEXT_LENGTH],
    pub b_short_name: [u8; SHORT_TEXT_LENGTH],
    pub b_abbreviation: [u8; REAL_SHORT_TEXT_LENGTH],
    pub b_nickname: [u8; STANDARD_TEXT_LENGTH],
    pub gender_name_short: i8,
    pub last_position: i8,
    pub professional_status: i8,
    pub own_stadium: i8,
    pub home_match_day: i8,
    pub training: i8,
    pub plc: i8,
    pub gender_name: i8,
    pub euro_seeding: i8,
    pub has_linked_club: i8,
    pub market_size: i8,
}

impl Club {
    /// The full name of the club.
    pub fn name(&self) -> (r: Result<String, EncodingError>)
        ensures
            r.is_ok() <==> valid_utf8(to_utf8(until_nul(self.b_name@))),
            r matches Ok(s) ==> s@ == decode_utf8(to_utf8(until_nul(self.b_name@))),
            r matches Err(e) ==> e.raw@ == self.b_name@,
    {
        bytes_to_string(&self.b_name)
    }

    /// The short name of the club.
    pub fn short_name(&self) -> (r: Result<String, EncodingError>)
        ensures
            r.is_ok() <==> valid_utf8(to_utf8(until_nul(self.b_short_name@))),
            r matches Ok(s) ==> s@ == decode_utf8(to_utf8(until_nul(self.b_short_name@))),
            r matches Err(e) ==> e.raw@ == self.b_short_name@,
    {
        bytes_to_string(&self.b_short_name)
    }

    /// The club's abbreviation.
    pub fn abbreviation(&self) -> (r: Result<String, EncodingError>)
        ensures
            r.is_ok() <==> valid_utf8(to_utf8(until_nul(self.b_abbreviation@))),
            r matches Ok(s) ==> s@ == decode_utf8(to_utf8(until_nul(self.b_abbreviation@))),
            r matches Err(e) ==> e.raw@ == self.b_abbreviation@,
    {
        bytes_to_string(&self.b_abbreviation)
    }

    /// The club's nickname.
    pub fn nickname(&self) -> (r: Result<String, EncodingError>)
        ensures
            r.is_ok() <==> valid_utf8(to_utf8(until_nul(self.b_nickname@))),
            r matches Ok(s) ==> s@ == decode_utf8(to_utf8(until_nul(self.b_nickname@))),
            r matches Err(e) ==> e.raw@ == self.b_nickname@,
    {
        bytes_to_string(&self.b_nickname)
    }
}

impl Record for Club {
    open spec fn encoding(&self) -> Seq<u8> {
        le_i32(self.id)
        + le_i32(self.cash)
        + le_i32(self.attendance)
        + le_i32(self.min_attendance)
        + le_i32(self.max_attendance)
        + le_i32(self.euro_flag)
        + le_i32s(self.tactic_training@)
        + le_i32(self.tactic_selected)
        + le_i32(self.fan_support)
        + le_i32(self.player_budget)
        + le_i32(self.nation_id)
        + le_i32(self.division_id)
        + le_i32(self.last_division_id)
        + le_i32(self.reserve_division_id)
        + le_i32(self.stadium_id)
        + le_i32(self.practice_facilities_id)
        + le_i32(self.foreground_colour1_id)
        + le_i32(self.background_colour1_id)
        + le_i32(self.trim_colour1_id)
        + le_i32(self.foreground_colour2_id)
        + le_i32(self.background_colour2_id)
        + le_i32(self.trim_colour2_id)
        + le_i32(self.foreground_colour3_id)
        + le_i32(self.background_colour3_id)
        + le_i32(self.trim_colour3_id)
        + le_i32(self.favourite_staff1_id)
        + le_i32(self.favourite_staff2_id)
        + le_i32(self.favourite_staff3_id)
        + le_i32(self.disliked_staff1_id)
        + le_i32(self.disliked_staff2_id)
        + le_i32(self.disliked_staff3_id)
        + le_i32(self.rival1_id)
        + le_i32(self.rival2_id)
        + le_i32(self.rival3_id)
        + le_i32(self.chairman_id)
        + le_i32s(self.director_ids@)
        + le_i32(self.manager_id)
        + le_i32(self.assistant_manager_id)
        + le_i32(self.head_coach_id)
        + le_i32(self.head_scout_id)
        + le_i32s(self.squad_ids@)
        + le_i32s(self.coach_ids@)
        + le_i32s(self.scout_ids@)
        + le_i32s(self.physio_ids@)
        + le_i32(self.captain_id)
        + le_i32(self.assistant_captain1_id)
        + le_i32(self.assistant_captain2_id)
        + le_i16(self.reputation)
        + le_i16(self.year_founded)
        + self.b_name@
        + self.b_short_name@
        + self.b_abbreviation@
        + self.b_nickname@
        + le_i8(self.gender_name_short)
        + le_i8(self.last_position)
        + le_i8(self.professional_status)
        + le_i8(self.own_stadium)
        + le_i8(self.home_match_day)
        + le_i8(self.training)
        + le_i8(self.plc)
        + le_i8(self.gender_name)
        + le_i8(self.euro_seeding)
        + le_i8(self.has_linked_club)
        + le_i8(self.market_size)
    }

    open spec fn key(&self) -> i32 {
        self.id
    }

    open spec fn stride() -> nat {
        733
    }

    proof fn lemma_stride(&self) {
    }

    #[verifier::rlimit(60)]
    proof fn lemma_injective(a: Self, b: Self) {
        let a0 = le_i32(a.id);
        let b0 = le_i32(b.id);
        let a1 = a0 + le_i32(a.cash);
        let b1 = b0 + le_i32(b.cash);
        let a2 = a1 + le_i32(a.attendance);
        let b2 = b1 + le_i32(b.attendance);
        let a3 = a2 + le_i32(a.min_attendance);
        let b3 = b2 + le_i32(b.min_attendance);
        let a4 = a3 + le_i32(a.max_attendance);
        let b4 = b3 + le_i32(b.max_attendance);
        let a5 = a4 + le_i32(a.euro_flag);
        let b5 = b4 + le_i32(b.euro_flag);
        let a6 = a5 + le_i32s(a.tactic_training@);
        let b6 = b5 + le_i32s(b.tactic_training@);
        let a7 = a6 + le_i32(a.tactic_selected);
        let b7 = b6 + le_i32(b.tactic_selected);
        let a8 = a7 + le_i32(a.fan_support);
        let b8 = b7 + le_i32(b.fan_support);
        let a9 = a8 + le_i32(a.player_budget);
        let b9 = b8 + le_i32(b.player_budget);
        let a10 = a9 + le_i32(a.nation_id);
        let b10 = b9 + le_i32(b.nation_id);
        let a11 = a10 + le_i32(a.division_id);
        let b11 = b10 + le_i32(b.division_id);
        let a12 = a11 + le_i32(a.last_division_id);
        let b12 = b11 + le_i32(b.last_division_id);
        let a13 = a12 + le_i32(a.reserve_division_id);
        let b13 = b12 + le_i32(b.reserve_division_id);
        let a14 = a13 + le_i32(a.stadium_id);
        let b14 = b13 + le_i32(b.stadium_id);
        let a15 = a14 + le_i32(a.practice_facilities_id);
        let b15 = b14 + le_i32(b.practice_facilities_id);
        let a16 = a15 + le_i32(a.foreground_colour1_id);
        let b16 = b15 + le_i32(b.foreground_colour1_id);
        let a17 = a16 + le_i32(a.background_colour1_id);
        let b17 = b16 + le_i32(b.background_colour1_id);
        let a18 = a17 + le_i32(a.trim_colour1_id);
        let b18 = b17 + le_i32(b.trim_colour1_id);
        let a19 = a18 + le_i32(a.foreground_colour2_id);
        let b19 = b18 + le_i32(b.foreground_colour2_id);
        let a20 = a19 + le_i32(a.background_colour2_id);
        let b20 = b19 + le_i32(b.background_colour2_id);
        let a21 = a20 + le_i32(a.trim_colour2_id);
        let b21 = b20 + le_i32(b.trim_colour2_id);
        let a22 = a21 + le_i32(a.foreground_colour3_id);
        let b22 = b21 + le_i32(b.foreground_colour3_id);
        let a23 = a22 + le_i32(a.background_colour3_id);
        let b23 = b22 + le_i32(b.background_colour3_id);
        let a24 = a23 + le_i32(a.trim_colour3_id);
        let b24 = b23 + le_i32(b.trim_colour3_id);
        let a25 = a24 + le_i32(a.favourite_staff1_id);
        let b25 = b24 + le_i32(b.favourite_staff1_id);
        let a26 = a25 + le_i32(a.favourite_staff2_id);
        let b26 = b25 + le_i32(b.favourite_staff2_id);
        let a27 = a26 + le_i32(a.favourite_staff3_id);
        let b27 = b26 + le_i32(b.favourite_staff3_id);
        let a28 = a27 + le_i32(a.disliked_staff1_id);
        let b28 = b27 + le_i32(b.disliked_staff1_id);
        let a29 = a28 + le_i32(a.disliked_staff2_id);
        let b29 = b28 + le_i32(b.disliked_staff2_id);
        let a30 = a29 + le_i32(a.disliked_staff3_id);
        let b30 = b29 + le_i32(b.disliked_staff3_id);
        let a31 = a30 + le_i32(a.rival1_id);
        let b31 = b30 + le_i32(b.rival1_id);
        let a32 = a31 + le_i32(a.rival2_id);
        let b32 = b31 + le_i32(b.rival2_id);
        let a33 = a32 + le_i32(a.rival3_id);
        let b33 = b32 + le_i32(b.rival3_id);
        let a34 = a33 + le_i32(a.chairman_id);
        let b34 = b33 + le_i32(b.chairman_id);
        let a35 = a34 + le_i32s(a.director_ids@);
        let b35 = b34 + le_i32s(b.director_ids@);
        let a36 = a35 + le_i32(a.manager_id);
        let b36 = b35 + le_i32(b.manager_id);
        let a37 = a36 + le_i32(a.assistant_manager_id);
        let b37 = b36 + le_i32(b.assistant_manager_id);
        let a38 = a37 + le_i32(a.head_coach_id);
        let b38 = b37 + le_i32(b.head_coach_id);
        let a39 = a38 + le_i32(a.head_scout_id);
        let b39 = b38 + le_i32(b.head_scout_id);
        let a40 = a39 + le_i32s(a.squad_ids@);
        let b40 = b39 + le_i32s(b.squad_ids@);
        let a41 = a40 + le_i32s(a.coach_ids@);
        let b41 = b40 + le_i32s(b.coach_ids@);
        let a42 = a41 + le_i32s(a.scout_ids@);
        let b42 = b41 + le_i32s(b.scout_ids@);
        let a43 = a42 + le_i32s(a.physio_ids@);
        let b43 = b42 + le_i32s(b.physio_ids@);
        let a44 = a43 + le_i32(a.captain_id);
        let b44 = b43 + le_i32(b.captain_id);
        let a45 = a44 + le_i32(a.assistant_captain1_id);
        let b45 = b44 + le_i32(b.assistant_captain1_id);
        let a46 = a45 + le_i32(a.assistant_captain2_id);
        let b46 = b45 + le_i32(b.assistant_captain2_id);
        let a47 = a46 + le_i16(a.reputation);
        let b47 = b46 + le_i16(b.reputation);
        let a48 = a47 + le_i16(a.year_founded);
        let b48 = b47 + le_i16(b.year_founded);
        let a49 = a48 + a.b_name@;
        let b49 = b48 + b.b_name@;
        let a50 = a49 + a.b_short_name@;
        let b50 = b49 + b.b_short_name@;
        let a51 = a50 + a.b_abbreviation@;
        let b51 = b50 + b.b_abbreviation@;
        let a52 = a51 + a.b_nickname@;
        let b52 = b51 + b.b_nickname@;
        let a53 = a52 + le_i8(a.gender_name_short);
        let b53 = b52 + le_i8(b.gender_name_short);
        let a54 = a53 + le_i8(a.last_position);
        let b54 = b53 + le_i8(b.last_position);
        let a55 = a54 + le_i8(a.professional_status);
        let b55 = b54 + le_i8(b.professional_status);
        let a56 = a55 + le_i8(a.own_stadium);
        let b56 = b55 + le_i8(b.own_stadium);
        let a57 = a56 + le_i8(a.home_match_day);
        let b57 = b56 + le_i8(b.home_match_day);
        let a58 = a57 + le_i8(a.training);
        let b58 = b57 + le_i8(b.training);
        let a59 = a58 + le_i8(a.plc);
        let b59 = b58 + le_i8(b.plc);
        let a60 = a59 + le_i8(a.gender_name);
        let b60 = b59 + le_i8(b.gender_name);
        let a61 = a60 + le_i8(a.euro_seeding);
        let b61 = b60 + le_i8(b.euro_seeding);
        let a62 = a61 + le_i8(a.has_linked_club);
        let b62 = b61 + le_i8(b.has_linked_club);
        lemma_concat_cancel(a62, le_i8(a.market_size), b62, le_i8(b.market_size));
        lemma_le_i8_injective(a.market_size, b.market_size);
        lemma_concat_cancel(a61, le_i8(a.has_linked_club), b61, le_i8(b.has_linked_club));
        lemma_le_i8_injective(a.has_linked_club, b.has_linked_club);
        lemma_concat_cancel(a60, le_i8(a.euro_seeding), b60, le_i8(b.euro_seeding));
        lemma_le_i8_injective(a.euro_seeding, b.euro_seeding);
        lemma_concat_cancel(a59, le_i8(a.gender_name), b59, le_i8(b.gender_name));
        lemma_le_i8_injective(a.gender_name, b.gender_name);
        lemma_concat_cancel(a58, le_i8(a.plc), b58, le_i8(b.plc));
        lemma_le_i8_injective(a.plc, b.plc);
        lemma_concat_cancel(a57, le_i8(a.training), b57, le_i8(b.training));
        lemma_le_i8_injective(a.training, b.training);
        lemma_concat_cancel(a56, le_i8(a.home_match_day), b56, le_i8(b.home_match_day));
        lemma_le_i8_injective(a.home_match_day, b.home_match_day);
        lemma_concat_cancel(a55, le_i8(a.own_stadium), b55, le_i8(b.own_stadium));
        lemma_le_i8_injective(a.own_stadium, b.own_stadium);
        lemma_concat_cancel(a54, le_i8(a.professional_status), b54, le_i8(b.professional_status));
        lemma_le_i8_injective(a.professional_status, b.professional_status);
        lemma_concat_cancel(a53, le_i8(a.last_position), b53, le_i8(b.last_position));
        lemma_le_i8_injective(a.last_position, b.last_position);
        lemma_concat_cancel(a52, le_i8(a.gender_name_short), b52, le_i8(b.gender_name_short));
        lemma_le_i8_injective(a.gender_name_short, b.gender_name_short);
        lemma_concat_cancel(a51, a.b_nickname@, b51, b.b_nickname@);
        assert(a.b_nickname =~= b.b_nickname);
        lemma_concat_cancel(a50, a.b_abbreviation@, b50, b.b_abbreviation@);
        assert(a.b_abbreviation =~= b.b_abbreviation);
        lemma_concat_cancel(a49, a.b_short_name@, b49, b.b_short_name@);
        assert(a.b_short_name =~= b.b_short_name);
        lemma_concat_cancel(a48, a.b_name@, b48, b.b_name@);
        assert(a.b_name =~= b.b_name);
        lemma_concat_cancel(a47, le_i16(a.year_founded), b47, le_i16(b.year_founded));
        lemma_le_i16_injective(a.year_founded, b.year_founded);
        lemma_concat_cancel(a46, le_i16(a.reputation), b46, le_i16(b.reputation));
        lemma_le_i16_injective(a.reputation, b.reputation);
        lemma_concat_cancel(
            a45,
            le_i32(a.assistant_captain2_id),
            b45,
            le_i32(b.assistant_captain2_id),
        );
        lemma_le_i32_injective(a.assistant_captain2_id, b.assistant_captain2_id);
        lemma_concat_cancel(
            a44,
            le_i32(a.assistant_captain1_id),
            b44,
            le_i32(b.assistant_captain1_id),
        );
        lemma_le_i32_injective(a.assistant_captain1_id, b.assistant_captain1_id);
        lemma_concat_cancel(a43, le_i32(a.captain_id), b43, le_i32(b.captain_id));
        lemma_le_i32_injective(a.captain_id, b.captain_id);
        lemma_concat_cancel(a42, le_i32s(a.physio_ids@), b42, le_i32s(b.physio_ids@));
        lemma_le_i32s_injective(a.physio_ids@, b.physio_ids@);
        assert(a.physio_ids =~= b.physio_ids);
        lemma_concat_cancel(a41, le_i32s(a.scout_ids@), b41, le_i32s(b.scout_ids@));
        lemma_le_i32s_injective(a.scout_ids@, b.scout_ids@);
        assert(a.scout_ids =~= b.scout_ids);
        lemma_concat_cancel(a40, le_i32s(a.coach_ids@), b40, le_i32s(b.coach_ids@));
        lemma_le_i32s_injective(a.coach_ids@, b.coach_ids@);
        assert(a.coach_ids =~= b.coach_ids);
        lemma_concat_cancel(a39, le_i32s(a.squad_ids@), b39, le_i32s(b.squad_ids@));
        lemma_le_i32s_injective(a.squad_ids@, b.squad_ids@);
        assert(a.squad_ids =~= b.squad_ids);
        lemma_concat_cancel(a38, le_i32(a.head_scout_id), b38, le_i32(b.head_scout_id));
        lemma_le_i32_injective(a.head_scout_id, b.head_scout_id);
        lemma_concat_cancel(a37, le_i32(a.head_coach_id), b37, le_i32(b.head_coach_id));
        lemma_le_i32_injective(a.head_coach_id, b.head_coach_id);
        lemma_concat_cancel(
            a36,
            le_i32(a.assistant_manager_id),
            b36,
            le_i32(b.assistant_manager_id),
        );
        lemma_le_i32_injective(a.assistant_manager_id, b.assistant_manager_id);
        lemma_concat_cancel(a35, le_i32(a.manager_id), b35, le_i32(b.manager_id));
        lemma_le_i32_injective(a.manager_id, b.manager_id);
        lemma_concat_cancel(a34, le_i32s(a.director_ids@), b34, le_i32s(b.director_ids@));
        lemma_le_i32s_injective(a.director_ids@, b.director_ids@);
        assert(a.director_ids =~= b.director_ids);
        lemma_concat_cancel(a33, le_i32(a.chairman_id), b33, le_i32(b.chairman_id));
        lemma_le_i32_injective(a.chairman_id, b.chairman_id);
        lemma_concat_cancel(a32, le_i32(a.rival3_id), b32, le_i32(b.rival3_id));
        lemma_le_i32_injective(a.rival3_id, b.rival3_id);
        lemma_concat_cancel(a31, le_i32(a.rival2_id), b31, le_i32(b.rival2_id));
        lemma_le_i32_injective(a.rival2_id, b.rival2_id);
        lemma_concat_cancel(a30, le_i32(a.rival1_id), b30, le_i32(b.rival1_id));
        lemma_le_i32_injective(a.rival1_id, b.rival1_id);
        lemma_concat_cancel(a29, le_i32(a.disliked_staff3_id), b29, le_i32(b.disliked_staff3_id));
        lemma_le_i32_injective(a.disliked_staff3_id, b.disliked_staff3_id);
        lemma_concat_cancel(a28, le_i32(a.disliked_staff2_id), b28, le_i32(b.disliked_staff2_id));
        lemma_le_i32_injective(a.disliked_staff2_id, b.disliked_staff2_id);
        lemma_concat_cancel(a27, le_i32(a.disliked_staff1_id), b27, le_i32(b.disliked_staff1_id));
        lemma_le_i32_injective(a.disliked_staff1_id, b.disliked_staff1_id);
        lemma_concat_cancel(a26, le_i32(a.favourite_staff3_id), b26, le_i32(b.favourite_staff3_id));
        lemma_le_i32_injective(a.favourite_staff3_id, b.favourite_staff3_id);
        lemma_concat_cancel(a25, le_i32(a.favourite_staff2_id), b25, le_i32(b.favourite_staff2_id));
        lemma_le_i32_injective(a.favourite_staff2_id, b.favourite_staff2_id);
        lemma_concat_cancel(a24, le_i32(a.favourite_staff1_id), b24, le_i32(b.favourite_staff1_id));
        lemma_le_i32_injective(a.favourite_staff1_id, b.favourite_staff1_id);
        lemma_concat_cancel(a23, le_i32(a.trim_colour3_id), b23, le_i32(b.trim_colour3_id));
        lemma_le_i32_injective(a.trim_colour3_id, b.trim_colour3_id);
        lemma_concat_cancel(
            a22,
            le_i32(a.background_colour3_id),
            b22,
            le_i32(b.background_colour3_id),
        );
        lemma_le_i32_injective(a.background_colour3_id, b.background_colour3_id);
        lemma_concat_cancel(
            a21,
            le_i32(a.foreground_colour3_id),
            b21,
            le_i32(b.foreground_colour3_id),
        );
        lemma_le_i32_injective(a.foreground_colour3_id, b.foreground_colour3_id);
        lemma_concat_cancel(a20, le_i32(a.trim_colour2_id), b20, le_i32(b.trim_colour2_id));
        lemma_le_i32_injective(a.trim_colour2_id, b.trim_colour2_id);
        lemma_concat_cancel(
            a19,
            le_i32(a.background_colour2_id),
            b19,
            le_i32(b.background_colour2_id),
        );
        lemma_le_i32_injective(a.background_colour2_id, b.background_colour2_id);
        lemma_concat_cancel(
            a18,
            le_i32(a.foreground_colour2_id),
            b18,
            le_i32(b.foreground_colour2_id),
        );
        lemma_le_i32_injective(a.foreground_colour2_id, b.foreground_colour2_id);
        lemma_concat_cancel(a17, le_i32(a.trim_colour1_id), b17, le_i32(b.trim_colour1_id));
        lemma_le_i32_injective(a.trim_colour1_id, b.trim_colour1_id);
        lemma_concat_cancel(
            a16,
            le_i32(a.background_colour1_id),
            b16,
            le_i32(b.background_colour1_id),
        );
        lemma_le_i32_injective(a.background_colour1_id, b.background_colour1_id);
        lemma_concat_cancel(
            a15,
            le_i32(a.foreground_colour1_id),
            b15,
            le_i32(b.foreground_colour1_id),
        );
        lemma_le_i32_injective(a.foreground_colour1_id, b.foreground_colour1_id);
        lemma_concat_cancel(
            a14,
            le_i32(a.practice_facilities_id),
            b14,
            le_i32(b.practice_facilities_id),
        );
        lemma_le_i32_injective(a.practice_facilities_id, b.practice_facilities_id);
        lemma_concat_cancel(a13, le_i32(a.stadium_id), b13, le_i32(b.stadium_id));
        lemma_le_i32_injective(a.stadium_id, b.stadium_id);
        lemma_concat_cancel(a12, le_i32(a.reserve_division_id), b12, le_i32(b.reserve_division_id));
        lemma_le_i32_injective(a.reserve_division_id, b.reserve_division_id);
        lemma_concat_cancel(a11, le_i32(a.last_division_id), b11, le_i32(b.last_division_id));
        lemma_le_i32_injective(a.last_division_id, b.last_division_id);
        lemma_concat_cancel(a10, le_i32(a.division_id), b10, le_i32(b.division_id));
        lemma_le_i32_injective(a.division_id, b.division_id);
        lemma_concat_cancel(a9, le_i32(a.nation_id), b9, le_i32(b.nation_id));
        lemma_le_i32_injective(a.nation_id, b.nation_id);
        lemma_concat_cancel(a8, le_i32(a.player_budget), b8, le_i32(b.player_budget));
        lemma_le_i32_injective(a.player_budget, b.player_budget);
        lemma_concat_cancel(a7, le_i32(a.fan_support), b7, le_i32(b.fan_support));
        lemma_le_i32_injective(a.fan_support, b.fan_support);
        lemma_concat_cancel(a6, le_i32(a.tactic_selected), b6, le_i32(b.tactic_selected));
        lemma_le_i32_injective(a.tactic_selected, b.tactic_selected);
        lemma_concat_cancel(a5, le_i32s(a.tactic_training@), b5, le_i32s(b.tactic_training@));
        lemma_le_i32s_injective(a.tactic_training@, b.tactic_training@);
        assert(a.tactic_training =~= b.tactic_training);
        lemma_concat_cancel(a4, le_i32(a.euro_flag), b4, le_i32(b.euro_flag));
        lemma_le_i32_injective(a.euro_flag, b.euro_flag);
        lemma_concat_cancel(a3, le_i32(a.max_attendance), b3, le_i32(b.max_attendance));
        lemma_le_i32_injective(a.max_attendance, b.max_attendance);
        lemma_concat_cancel(a2, le_i32(a.min_attendance), b2, le_i32(b.min_attendance));
        lemma_le_i32_injective(a.min_attendance, b.min_attendance);
        lemma_concat_cancel(a1, le_i32(a.attendance), b1, le_i32(b.attendance));
        lemma_le_i32_injective(a.attendance, b.attendance);
        lemma_concat_cancel(a0, le_i32(a.cash), b0, le_i32(b.cash));
        lemma_le_i32_injective(a.cash, b.cash);
        lemma_le_i32_injective(a.id, b.id);
    }

    fn width() -> (n: usize) {
        733
    }

    fn id(&self) -> (k: i32) {
        self.id
    }

    #[verifier::rlimit(60)]
    fn parse(bytes: &[u8], at: usize) -> (r: Option<Self>) {
        if bytes.len() < 733 || at > bytes.len() - 733 {
            return None;
        }
        let mut r = Reader::new(bytes, at);
        let id = r.read_i32();
        assert(r.taken() =~= le_i32(id));
        let cash = r.read_i32();
        let attendance = r.read_i32();
        let min_attendance = r.read_i32();
        let max_attendance = r.read_i32();
        let euro_flag = r.read_i32();
        let tactic_training = r.read_i32s::<4>();
        let tactic_selected = r.read_i32();
        assert(r.pos == at + 44);
        let fan_support = r.read_i32();
        let player_budget = r.read_i32();
        let nation_id = r.read_i32();
        let division_id = r.read_i32();
        let last_division_id = r.read_i32();
        let reserve_division_id = r.read_i32();
        let stadium_id = r.read_i32();
        let practice_facilities_id = r.read_i32();
        assert(r.pos == at + 76);
        let foreground_colour1_id = r.read_i32();
        let background_colour1_id = r.read_i32();
        let trim_colour1_id = r.read_i32();
        let foreground_colour2_id = r.read_i32();
        let background_colour2_id = r.read_i32();
        let trim_colour2_id = r.read_i32();
        let foreground_colour3_id = r.read_i32();
        let background_colour3_id = r.read_i32();
        assert(r.pos == at + 108);
        let trim_colour3_id = r.read_i32();
        let favourite_staff1_id = r.read_i32();
        let favourite_staff2_id = r.read_i32();
        let favourite_staff3_id = r.read_i32();
        let disliked_staff1_id = r.read_i32();
        let disliked_staff2_id = r.read_i32();
        let disliked_staff3_id = r.read_i32();
        let rival1_id = r.read_i32();
        assert(r.pos == at + 140);
        let rival2_id = r.read_i32();
        let rival3_id = r.read_i32();
        let chairman_id = r.read_i32();
        let director_ids = r.read_i32s::<3>();
        let manager_id = r.read_i32();
        let assistant_manager_id = r.read_i32();
        let head_coach_id = r.read_i32();
        let head_scout_id = r.read_i32();
        assert(r.pos == at + 180);
        let squad_ids = r.read_i32s::<75>();
        let coach_ids = r.read_i32s::<5>();
        let scout_ids = r.read_i32s::<15>();
        let physio_ids = r.read_i32s::<3>();
        let captain_id = r.read_i32();
        let assistant_captain1_id = r.read_i32();
        let assistant_captain2_id = r.read_i32();
        let reputation = r.read_i16();
        assert(r.pos == at + 586);
        let year_founded = r.read_i16();
        let b_name = r.read_bytes::<STANDARD_TEXT_LENGTH>();
        let b_short_name = r.read_bytes::<SHORT_TEXT_LENGTH>();
        let b_abbreviation = r.read_bytes::<REAL_SHORT_TEXT_LENGTH>();
        let b_nickname = r.read_bytes::<STANDARD_TEXT_LENGTH>();
        let gender_name_short = r.read_i8();
        let last_position = r.read_i8();
        let professional_status = r.read_i8();
        assert(r.pos == at + 725);
        let own_stadium = r.read_i8();
        let home_match_day = r.read_i8();
        let training = r.read_i8();
        let plc = r.read_i8();
        let gender_name = r.read_i8();
        let euro_seeding = r.read_i8();
        let has_linked_club = r.read_i8();
        let market_size = r.read_i8();
        let rec = Club {
            id,
            cash,
            attendance,
            min_attendance,
            max_attendance,
            euro_flag,
            tactic_training,
            tactic_selected,
            fan_support,
            player_budget,
            nation_id,
            division_id,
            last_division_id,
            reserve_division_id,
            stadium_id,
            practice_facilities_id,
            foreground_colour1_id,
            background_colour1_id,
            trim_colour1_id,
            foreground_colour2_id,
            background_colour2_id,
            trim_colour2_id,
            foreground_colour3_id,
            background_colour3_id,
            trim_colour3_id,
            favourite_staff1_id,
            favourite_staff2_id,
            favourite_staff3_id,
            disliked_staff1_id,
            disliked_staff2_id,
            disliked_staff3_id,
            rival1_id,
            rival2_id,
            rival3_id,
            chairman_id,
            director_ids,
            manager_id,
            assistant_manager_id,
            head_coach_id,
            head_scout_id,
            squad_ids,
            coach_ids,
            scout_ids,
            physio_ids,
            captain_id,
            assistant_captain1_id,
            assistant_captain2_id,
            reputation,
            year_founded,
            b_name,
            b_short_name,
            b_abbreviation,
            b_nickname,
            gender_name_short,
            last_position,
            professional_status,
            own_stadium,
            home_match_day,
            training,
            plc,
            gender_name,
            euro_seeding,
            has_linked_club,
            market_size,
        };
        proof {
            r.lemma_taken();
        }
        Some(rec)
    }

    fn to_bytes(&self) -> (out: Vec<u8>) {
        let mut out = Vec::new();
        put_i32(&mut out, self.id);
        assert(out@ =~= le_i32(self.id));
        put_i32(&mut out, self.cash);
        put_i32(&mut out, self.attendance);
        put_i32(&mut out, self.min_attendance);
        put_i32(&mut out, self.max_attendance);
        put_i32(&mut out, self.euro_flag);
        put_i32s(&mut out, &self.tactic_training);
        put_i32(&mut out, self.tactic_selected);
        put_i32(&mut out, self.fan_support);
        put_i32(&mut out, self.player_budget);
        put_i32(&mut out, self.nation_id);
        put_i32(&mut out, self.division_id);
        put_i32(&mut out, self.last_division_id);
        put_i32(&mut out, self.reserve_division_id);
        put_i32(&mut out, self.stadium_id);
        put_i32(&mut out, self.practice_facilities_id);
        put_i32(&mut out, self.foreground_colour1_id);
        put_i32(&mut out, self.background_colour1_id);
        put_i32(&mut out, self.trim_colour1_id);
        put_i32(&mut out, self.foreground_colour2_id);
        put_i32(&mut out, self.background_colour2_id);
        put_i32(&mut out, self.trim_colour2_id);
        put_i32(&mut out, self.foreground_colour3_id);
        put_i32(&mut out, self.background_colour3_id);
        put_i32(&mut out, self.trim_colour3_id);
        put_i32(&mut out, self.favourite_staff1_id);
        put_i32(&mut out, self.favourite_staff2_id);
        put_i32(&mut out, self.favourite_staff3_id);
        put_i32(&mut out, self.disliked_staff1_id);
        put_i32(&mut out, self.disliked_staff2_id);
        put_i32(&mut out, self.disliked_staff3_id);
        put_i32(&mut out, self.rival1_id);
        put_i32(&mut out, self.rival2_id);
        put_i32(&mut out, self.rival3_id);
        put_i32(&mut out, self.chairman_id);
        put_i32s(&mut out, &self.director_ids);
        put_i32(&mut out, self.manager_id);
        put_i32(&mut out, self.assistant_manager_id);
        put_i32(&mut out, self.head_coach_id);
        put_i32(&mut out, self.head_scout_id);
        put_i32s(&mut out, &self.squad_ids);
        put_i32s(&mut out, &self.coach_ids);
        put_i32s(&mut out, &self.scout_ids);
        put_i32s(&mut out, &self.physio_ids);
        put_i32(&mut out, self.captain_id);
        put_i32(&mut out, self.assistant_captain1_id);
        put_i32(&mut out, self.assistant_captain2_id);
        put_i16(&mut out, self.reputation);
        put_i16(&mut out, self.year_founded);
        put_bytes(&mut out, &self.b_name);
        put_bytes(&mut out, &self.b_short_name);
        put_bytes(&mut out, &self.b_abbreviation);
        put_bytes(&mut out, &self.b_nickname);
        put_i8(&mut out, self.gender_name_short);
        put_i8(&mut out, self.last_position);
        put_i8(&mut out, self.professional_status);
        put_i8(&mut out, self.own_stadium);
        put_i8(&mut out, self.home_match_day);
        put_i8(&mut out, self.training);
        put_i8(&mut out, self.plc);
        put_i8(&mut out, self.gender_name);
        put_i8(&mut out, self.euro_seeding);
        put_i8(&mut out, self.has_linked_club);
        put_i8(&mut out, self.market_size);
        out
    }
}

} // verus!
