//! A person: the layout, the questions that a query asks of a person, the
//! names that a person refers to, and the scores and ratings of a person as a
//! player.

use vstd::prelude::*;
use vstd::string::StringExecFns;

use crate::chars::{bytes_to_string_or_debug, regex_is_match, regex_match, shown_text};
use crate::data::{ANY_NATION, Data, NO_REFERENCE, ReferenceError};
use crate::data::club::Club;
use crate::data::date::{is_leap, is_leap_year, LEAP_DAY, lemma_date_encoding_injective, SIDate};
use crate::data::player::{Attribute, Player};
use crate::data::record::Record;
use crate::data::section::SectionKind;
use crate::globals::AttributeChart;
use crate::rating::{Fraction, product, RatingBounds};
use crate::to_bytes::{
    group_le_len, le_i16, le_i32, le_i8, le_u8, lemma_concat_cancel, lemma_le_i16_injective,
    lemma_le_i32_injective, lemma_le_i8_injective, lemma_le_u8_injective, put_i16, put_i32, put_i8,
    put_u8, Reader,
};

verus! {

broadcast use group_le_len;

/// A person: a player, a coach, or both.
#[derive(Clone, Copy, Debug, PartialEq, Eq)]
pub struct Staff {
    pub id: i32,
    pub estimated_wage: i32,
    pub estimated_value: i32,
    pub nation_id: i32,
    pub second_nation_id: i32,
    pub player_data_id: i32,
    pub preferences_id: i32,
    pub non_player_data_id: i32,
    pub nation_contracted_id: i32,
    pub club_contracted_id: i32,
    pub club_playing_id: i32,
    pub player_rights_index: i32,
    pub birth_town_id: i32,
    pub forename_id: i32,
    pub surname_id: i32,
    pub date_of_birth: SIDate,
    pub date_joined_nation: SIDate,
    pub contract_expires_nation: SIDate,
    pub date_joined_club: SIDate,
    pub contract_expires_club: SIDate,
    pub first_pro_contract: SIDate,
    pub age: i16,
    pub international_apps: u8,
    pub international_goals: u8,
    pub international_assists: u8,
    pub job_for_nation: i8,
    pub adaptability: i8,
    pub job_for_club: i8,
    pub ambition: i8,
    pub determination: i8,
    pub loyalty: i8,
    pub pressure: i8,
    pub professionalism: i8,
    pub sportsmanship: i8,
    pub temperament: i8,
    pub playing_squad: i8,
    pub classification: i8,
    pub club_valuation: i8,
    pub declared_nation: i8,
    pub stanley_cups_won: i8,
    pub squad_selected_for: i8,
    pub national_team_job_level: i8,
    pub estimated_wage_weekly: i32,
}

impl Record for Staff {
    open spec fn encoding(&self) -> Seq<u8> {
        le_i32(self.id)
        + le_i32(self.estimated_wage)
        + le_i32(self.estimated_value)
        + le_i32(self.nation_id)
        + le_i32(self.second_nation_id)
        + le_i32(self.player_data_id)
        + le_i32(self.preferences_id)
        + le_i32(self.non_player_data_id)
        + le_i32(self.nation_contracted_id)
        + le_i32(self.club_contracted_id)
        + le_i32(self.club_playing_id)
        + le_i32(self.player_rights_index)
        + le_i32(self.birth_town_id)
        + le_i32(self.forename_id)
        + le_i32(self.surname_id)
        + self.date_of_birth.encoding()
        + self.date_joined_nation.encoding()
        + self.contract_expires_nation.encoding()
        + self.date_joined_club.encoding()
        + self.contract_expires_club.encoding()
        + self.first_pro_contract.encoding()
        + le_i16(self.age)
        + le_u8(self.international_apps)
        + le_u8(self.international_goals)
        + le_u8(self.international_assists)
        + le_i8(self.job_for_nation)
        + le_i8(self.adaptability)
        + le_i8(self.job_for_club)
        + le_i8(self.ambition)
        + le_i8(self.determination)
        + le_i8(self.loyalty)
        + le_i8(self.pressure)
        + le_i8(self.professionalism)
        + le_i8(self.sportsmanship)
        + le_i8(self.temperament)
        + le_i8(self.playing_squad)
        + le_i8(self.classification)
        + le_i8(self.club_valuation)
        + le_i8(self.declared_nation)
        + le_i8(self.stanley_cups_won)
        + le_i8(self.squad_selected_for)
        + le_i8(self.national_team_job_level)
        + le_i32(self.estimated_wage_weekly)
    }

    open spec fn key(&self) -> i32 {
        self.id
    }

    open spec fn stride() -> nat {
        116
    }

    proof fn lemma_stride(&self) {
    }

    #[verifier::rlimit(60)]
    proof fn lemma_injective(a: Self, b: Self) {
        let a0 = le_i32(a.id);
        let b0 = le_i32(b.id);
        let a1 = a0 + le_i32(a.estimated_wage);
        let b1 = b0 + le_i32(b.estimated_wage);
        let a2 = a1 + le_i32(a.estimated_value);
        let b2 = b1 + le_i32(b.estimated_value);
        let a3 = a2 + le_i32(a.nation_id);
        let b3 = b2 + le_i32(b.nation_id);
        let a4 = a3 + le_i32(a.second_nation_id);
        let b4 = b3 + le_i32(b.second_nation_id);
        let a5 = a4 + le_i32(a.player_data_id);
        let b5 = b4 + le_i32(b.player_data_id);
        let a6 = a5 + le_i32(a.preferences_id);
        let b6 = b5 + le_i32(b.preferences_id);
        let a7 = a6 + le_i32(a.non_player_data_id);
        let b7 = b6 + le_i32(b.non_player_data_id);
        let a8 = a7 + le_i32(a.nation_contracted_id);
        let b8 = b7 + le_i32(b.nation_contracted_id);
        let a9 = a8 + le_i32(a.club_contracted_id);
        let b9 = b8 + le_i32(b.club_contracted_id);
        let a10 = a9 + le_i32(a.club_playing_id);
        let b10 = b9 + le_i32(b.club_playing_id);
        let a11 = a10 + le_i32(a.player_rights_index);
        let b11 = b10 + le_i32(b.player_rights_index);
        let a12 = a11 + le_i32(a.birth_town_id);
        let b12 = b11 + le_i32(b.birth_town_id);
        let a13 = a12 + le_i32(a.forename_id);
        let b13 = b12 + le_i32(b.forename_id);
        let a14 = a13 + le_i32(a.surname_id);
        let b14 = b13 + le_i32(b.surname_id);
        let a15 = a14 + a.date_of_birth.encoding();
        let b15 = b14 + b.date_of_birth.encoding();
        let a16 = a15 + a.date_joined_nation.encoding();
        let b16 = b15 + b.date_joined_nation.encoding();
        let a17 = a16 + a.contract_expires_nation.encoding();
        let b17 = b16 + b.contract_expires_nation.encoding();
        let a18 = a17 + a.date_joined_club.encoding();
        let b18 = b17 + b.date_joined_club.encoding();
        let a19 = a18 + a.contract_expires_club.encoding();
        let b19 = b18 + b.contract_expires_club.encoding();
        let a20 = a19 + a.first_pro_contract.encoding();
        let b20 = b19 + b.first_pro_contract.encoding();
        let a21 = a20 + le_i16(a.age);
        let b21 = b20 + le_i16(b.age);
        let a22 = a21 + le_u8(a.international_apps);
        let b22 = b21 + le_u8(b.international_apps);
        let a23 = a22 + le_u8(a.international_goals);
        let b23 = b22 + le_u8(b.international_goals);
        let a24 = a23 + le_u8(a.international_assists);
        let b24 = b23 + le_u8(b.international_assists);
        let a25 = a24 + le_i8(a.job_for_nation);
        let b25 = b24 + le_i8(b.job_for_nation);
        let a26 = a25 + le_i8(a.adaptability);
        let b26 = b25 + le_i8(b.adaptability);
        let a27 = a26 + le_i8(a.job_for_club);
        let b27 = b26 + le_i8(b.job_for_club);
        let a28 = a27 + le_i8(a.ambition);
        let b28 = b27 + le_i8(b.ambition);
        let a29 = a28 + le_i8(a.determination);
        let b29 = b28 + le_i8(b.determination);
        let a30 = a29 + le_i8(a.loyalty);
        let b30 = b29 + le_i8(b.loyalty);
        let a31 = a30 + le_i8(a.pressure);
        let b31 = b30 + le_i8(b.pressure);
        let a32 = a31 + le_i8(a.professionalism);
        let b32 = b31 + le_i8(b.professionalism);
        let a33 = a32 + le_i8(a.sportsmanship);
        let b33 = b32 + le_i8(b.sportsmanship);
        let a34 = a33 + le_i8(a.temperament);
        let b34 = b33 + le_i8(b.temperament);
        let a35 = a34 + le_i8(a.playing_squad);
        let b35 = b34 + le_i8(b.playing_squad);
        let a36 = a35 + le_i8(a.classification);
        let b36 = b35 + le_i8(b.classification);
        let a37 = a36 + le_i8(a.club_valuation);
        let b37 = b36 + le_i8(b.club_valuation);
        let a38 = a37 + le_i8(a.declared_nation);
        let b38 = b37 + le_i8(b.declared_nation);
        let a39 = a38 + le_i8(a.stanley_cups_won);
        let b39 = b38 + le_i8(b.stanley_cups_won);
        let a40 = a39 + le_i8(a.squad_selected_for);
        let b40 = b39 + le_i8(b.squad_selected_for);
        let a41 = a40 + le_i8(a.national_team_job_level);
        let b41 = b40 + le_i8(b.national_team_job_level);
        lemma_concat_cancel(
            a41,
            le_i32(a.estimated_wage_weekly),
            b41,
            le_i32(b.estimated_wage_weekly),
        );
        lemma_le_i32_injective(a.estimated_wage_weekly, b.estimated_wage_weekly);
        lemma_concat_cancel(
            a40,
            le_i8(a.national_team_job_level),
            b40,
            le_i8(b.national_team_job_level),
        );
        lemma_le_i8_injective(a.national_team_job_level, b.national_team_job_level);
        lemma_concat_cancel(a39, le_i8(a.squad_selected_for), b39, le_i8(b.squad_selected_for));
        lemma_le_i8_injective(a.squad_selected_for, b.squad_selected_for);
        lemma_concat_cancel(a38, le_i8(a.stanley_cups_won), b38, le_i8(b.stanley_cups_won));
        lemma_le_i8_injective(a.stanley_cups_won, b.stanley_cups_won);
        lemma_concat_cancel(a37, le_i8(a.declared_nation), b37, le_i8(b.declared_nation));
        lemma_le_i8_injective(a.declared_nation, b.declared_nation);
        lemma_concat_cancel(a36, le_i8(a.club_valuation), b36, le_i8(b.club_valuation));
        lemma_le_i8_injective(a.club_valuation, b.club_valuation);
        lemma_concat_cancel(a35, le_i8(a.classification), b35, le_i8(b.classification));
        lemma_le_i8_injective(a.classification, b.classification);
        lemma_concat_cancel(a34, le_i8(a.playing_squad), b34, le_i8(b.playing_squad));
        lemma_le_i8_injective(a.playing_squad, b.playing_squad);
        lemma_concat_cancel(a33, le_i8(a.temperament), b33, le_i8(b.temperament));
        lemma_le_i8_injective(a.temperament, b.temperament);
        lemma_concat_cancel(a32, le_i8(a.sportsmanship), b32, le_i8(b.sportsmanship));
        lemma_le_i8_injective(a.sportsmanship, b.sportsmanship);
        lemma_concat_cancel(a31, le_i8(a.professionalism), b31, le_i8(b.professionalism));
        lemma_le_i8_injective(a.professionalism, b.professionalism);
        lemma_concat_cancel(a30, le_i8(a.pressure), b30, le_i8(b.pressure));
        lemma_le_i8_injective(a.pressure, b.pressure);
        lemma_concat_cancel(a29, le_i8(a.loyalty), b29, le_i8(b.loyalty));
        lemma_le_i8_injective(a.loyalty, b.loyalty);
        lemma_concat_cancel(a28, le_i8(a.determination), b28, le_i8(b.determination));
        lemma_le_i8_injective(a.determination, b.determination);
        lemma_concat_cancel(a27, le_i8(a.ambition), b27, le_i8(b.ambition));
        lemma_le_i8_injective(a.ambition, b.ambition);
        lemma_concat_cancel(a26, le_i8(a.job_for_club), b26, le_i8(b.job_for_club));
        lemma_le_i8_injective(a.job_for_club, b.job_for_club);
        lemma_concat_cancel(a25, le_i8(a.adaptability), b25, le_i8(b.adaptability));
        lemma_le_i8_injective(a.adaptability, b.adaptability);
        lemma_concat_cancel(a24, le_i8(a.job_for_nation), b24, le_i8(b.job_for_nation));
        lemma_le_i8_injective(a.job_for_nation, b.job_for_nation);
        lemma_concat_cancel(
            a23,
            le_u8(a.international_assists),
            b23,
            le_u8(b.international_assists),
        );
        lemma_le_u8_injective(a.international_assists, b.international_assists);
        lemma_concat_cancel(a22, le_u8(a.international_goals), b22, le_u8(b.international_goals));
        lemma_le_u8_injective(a.international_goals, b.international_goals);
        lemma_concat_cancel(a21, le_u8(a.international_apps), b21, le_u8(b.international_apps));
        lemma_le_u8_injective(a.international_apps, b.international_apps);
        lemma_concat_cancel(a20, le_i16(a.age), b20, le_i16(b.age));
        lemma_le_i16_injective(a.age, b.age);
        lemma_concat_cancel(
            a19,
            a.first_pro_contract.encoding(),
            b19,
            b.first_pro_contract.encoding(),
        );
        lemma_date_encoding_injective(a.first_pro_contract, b.first_pro_contract);
        lemma_concat_cancel(
            a18,
            a.contract_expires_club.encoding(),
            b18,
            b.contract_expires_club.encoding(),
        );
        lemma_date_encoding_injective(a.contract_expires_club, b.contract_expires_club);
        lemma_concat_cancel(a17, a.date_joined_club.encoding(), b17, b.date_joined_club.encoding());
        lemma_date_encoding_injective(a.date_joined_club, b.date_joined_club);
        lemma_concat_cancel(
            a16,
            a.contract_expires_nation.encoding(),
            b16,
            b.contract_expires_nation.encoding(),
        );
        lemma_date_encoding_injective(a.contract_expires_nation, b.contract_expires_nation);
        lemma_concat_cancel(
            a15,
            a.date_joined_nation.encoding(),
            b15,
            b.date_joined_nation.encoding(),
        );
        lemma_date_encoding_injective(a.date_joined_nation, b.date_joined_nation);
        lemma_concat_cancel(a14, a.date_of_birth.encoding(), b14, b.date_of_birth.encoding());
        lemma_date_encoding_injective(a.date_of_birth, b.date_of_birth);
        lemma_concat_cancel(a13, le_i32(a.surname_id), b13, le_i32(b.surname_id));
        lemma_le_i32_injective(a.surname_id, b.surname_id);
        lemma_concat_cancel(a12, le_i32(a.forename_id), b12, le_i32(b.forename_id));
        lemma_le_i32_injective(a.forename_id, b.forename_id);
        lemma_concat_cancel(a11, le_i32(a.birth_town_id), b11, le_i32(b.birth_town_id));
        lemma_le_i32_injective(a.birth_town_id, b.birth_town_id);
        lemma_concat_cancel(a10, le_i32(a.player_rights_index), b10, le_i32(b.player_rights_index));
        lemma_le_i32_injective(a.player_rights_index, b.player_rights_index);
        lemma_concat_cancel(a9, le_i32(a.club_playing_id), b9, le_i32(b.club_playing_id));
        lemma_le_i32_injective(a.club_playing_id, b.club_playing_id);
        lemma_concat_cancel(a8, le_i32(a.club_contracted_id), b8, le_i32(b.club_contracted_id));
        lemma_le_i32_injective(a.club_contracted_id, b.club_contracted_id);
        lemma_concat_cancel(a7, le_i32(a.nation_contracted_id), b7, le_i32(b.nation_contracted_id));
        lemma_le_i32_injective(a.nation_contracted_id, b.nation_contracted_id);
        lemma_concat_cancel(a6, le_i32(a.non_player_data_id), b6, le_i32(b.non_player_data_id));
        lemma_le_i32_injective(a.non_player_data_id, b.non_player_data_id);
        lemma_concat_cancel(a5, le_i32(a.preferences_id), b5, le_i32(b.preferences_id));
        lemma_le_i32_injective(a.preferences_id, b.preferences_id);
        lemma_concat_cancel(a4, le_i32(a.player_data_id), b4, le_i32(b.player_data_id));
        lemma_le_i32_injective(a.player_data_id, b.player_data_id);
        lemma_concat_cancel(a3, le_i32(a.second_nation_id), b3, le_i32(b.second_nation_id));
        lemma_le_i32_injective(a.second_nation_id, b.second_nation_id);
        lemma_concat_cancel(a2, le_i32(a.nation_id), b2, le_i32(b.nation_id));
        lemma_le_i32_injective(a.nation_id, b.nation_id);
        lemma_concat_cancel(a1, le_i32(a.estimated_value), b1, le_i32(b.estimated_value));
        lemma_le_i32_injective(a.estimated_value, b.estimated_value);
        lemma_concat_cancel(a0, le_i32(a.estimated_wage), b0, le_i32(b.estimated_wage));
        lemma_le_i32_injective(a.estimated_wage, b.estimated_wage);
        lemma_le_i32_injective(a.id, b.id);
    }

    fn width() -> (n: usize) {
        116
    }

    fn id(&self) -> (k: i32) {
        self.id
    }

    #[verifier::rlimit(60)]
    fn parse(bytes: &[u8], at: usize) -> (r: Option<Self>) {
        if bytes.len() < 116 || at > bytes.len() - 116 {
            return None;
        }
        let mut r = Reader::new(bytes, at);
        let id = r.read_i32();
        assert(r.taken() =~= le_i32(id));
        let estimated_wage = r.read_i32();
        let estimated_value = r.read_i32();
        let nation_id = r.read_i32();
        let second_nation_id = r.read_i32();
        let player_data_id = r.read_i32();
        let preferences_id = r.read_i32();
        let non_player_data_id = r.read_i32();
        assert(r.pos == at + 32);
        let nation_contracted_id = r.read_i32();
        let club_contracted_id = r.read_i32();
        let club_playing_id = r.read_i32();
        let player_rights_index = r.read_i32();
        let birth_town_id = r.read_i32();
        let forename_id = r.read_i32();
        let surname_id = r.read_i32();
        let date_of_birth = SIDate::read(&mut r);
        assert(r.pos == at + 65);
        let date_joined_nation = SIDate::read(&mut r);
        let contract_expires_nation = SIDate::read(&mut r);
        let date_joined_club = SIDate::read(&mut r);
        let contract_expires_club = SIDate::read(&mut r);
        let first_pro_contract = SIDate::read(&mut r);
        let age = r.read_i16();
        let international_apps = r.read_u8();
        let international_goals = r.read_u8();
        assert(r.pos == at + 94);
        let international_assists = r.read_u8();
        let job_for_nation = r.read_i8();
        let adaptability = r.read_i8();
        let job_for_club = r.read_i8();
        let ambition = r.read_i8();
        let determination = r.read_i8();
        let loyalty = r.read_i8();
        let pressure = r.read_i8();
        assert(r.pos == at + 102);
        let professionalism = r.read_i8();
        let sportsmanship = r.read_i8();
        let temperament = r.read_i8();
        let playing_squad = r.read_i8();
        let classification = r.read_i8();
        let club_valuation = r.read_i8();
        let declared_nation = r.read_i8();
        let stanley_cups_won = r.read_i8();
        assert(r.pos == at + 110);
        let squad_selected_for = r.read_i8();
        let national_team_job_level = r.read_i8();
        let estimated_wage_weekly = r.read_i32();
        let rec = Staff {
            id,
            estimated_wage,
            estimated_value,
            nation_id,
            second_nation_id,
            player_data_id,
            preferences_id,
            non_player_data_id,
            nation_contracted_id,
            club_contracted_id,
            club_playing_id,
            player_rights_index,
            birth_town_id,
            forename_id,
            surname_id,
            date_of_birth,
            date_joined_nation,
            contract_expires_nation,
            date_joined_club,
            contract_expires_club,
            first_pro_contract,
            age,
            international_apps,
            international_goals,
            international_assists,
            job_for_nation,
            adaptability,
            job_for_club,
            ambition,
            determination,
            loyalty,
            pressure,
            professionalism,
            sportsmanship,
            temperament,
            playing_squad,
            classification,
            club_valuation,
            declared_nation,
            stanley_cups_won,
            squad_selected_for,
            national_team_job_level,
            estimated_wage_weekly,
        };
        proof {
            r.lemma_taken();
        }
        Some(rec)
    }

    fn to_bytes(&self) -> (out: Vec<u8>) {
        let mut out = Vec::new();
        put_i32(&mut out, self.id);
        assert(out@ =~= le_i32(self.id));
        put_i32(&mut out, self.estimated_wage);
        put_i32(&mut out, self.estimated_value);
        put_i32(&mut out, self.nation_id);
        put_i32(&mut out, self.second_nation_id);
        put_i32(&mut out, self.player_data_id);
        put_i32(&mut out, self.preferences_id);
        put_i32(&mut out, self.non_player_data_id);
        put_i32(&mut out, self.nation_contracted_id);
        put_i32(&mut out, self.club_contracted_id);
        put_i32(&mut out, self.club_playing_id);
        put_i32(&mut out, self.player_rights_index);
        put_i32(&mut out, self.birth_town_id);
        put_i32(&mut out, self.forename_id);
        put_i32(&mut out, self.surname_id);
        self.date_of_birth.write(&mut out);
        self.date_joined_nation.write(&mut out);
        self.contract_expires_nation.write(&mut out);
        self.date_joined_club.write(&mut out);
        self.contract_expires_club.write(&mut out);
        self.first_pro_contract.write(&mut out);
        put_i16(&mut out, self.age);
        put_u8(&mut out, self.international_apps);
        put_u8(&mut out, self.international_goals);
        put_u8(&mut out, self.international_assists);
        put_i8(&mut out, self.job_for_nation);
        put_i8(&mut out, self.adaptability);
        put_i8(&mut out, self.job_for_club);
        put_i8(&mut out, self.ambition);
        put_i8(&mut out, self.determination);
        put_i8(&mut out, self.loyalty);
        put_i8(&mut out, self.pressure);
        put_i8(&mut out, self.professionalism);
        put_i8(&mut out, self.sportsmanship);
        put_i8(&mut out, self.temperament);
        put_i8(&mut out, self.playing_squad);
        put_i8(&mut out, self.classification);
        put_i8(&mut out, self.club_valuation);
        put_i8(&mut out, self.declared_nation);
        put_i8(&mut out, self.stanley_cups_won);
        put_i8(&mut out, self.squad_selected_for);
        put_i8(&mut out, self.national_team_job_level);
        put_i32(&mut out, self.estimated_wage_weekly);
        out
    }
}

/// The regular expression for a name without special characters.
pub const PLAIN_NAME: &'static str = "^[\\w ]+$";

/// What follows from the answer of the regular expression: a name is plain
/// where the expression matched it.
pub fn is_plain(matched: Option<bool>) -> (plain: bool)
    ensures
        plain == (matched == Some(true)),
{
    match matched {
        Some(b) => b,
        None => false,
    }
}

/// The numbers that a query lets through: those of `wanted`, or all where
/// `wanted` is empty, but none of `unwanted`.
#[derive(Clone, Debug, Default)]
pub struct IdFilter {
    pub wanted: Vec<i32>,
    pub unwanted: Vec<i32>,
}

/// What a query asks of the clubs of a person: of the club that has the
/// person under contract and of the club that the person plays for, and of
/// the nation and the competition of each of the two.
#[derive(Clone, Debug, Default)]
pub struct Affiliations {
    pub clubs_contracted: IdFilter,
    pub clubs_playing: IdFilter,
    pub comps_contracted: IdFilter,
    pub comps_playing: IdFilter,
    pub nations_contracted: IdFilter,
    pub nations_playing: IdFilter,
}

/// Whether a filter lets a number through.
pub open spec fn lets_through(filter: &IdFilter, id: i32) -> bool {
    (filter.wanted@.len() == 0 || filter.wanted@.contains(id)) && !filter.unwanted@.contains(id)
}

/// The nation of a club; the number for "no reference" where there is no
/// club.
pub open spec fn nation_of(club: Option<Club>) -> i32 {
    match club {
        Some(c) => c.nation_id,
        None => NO_REFERENCE,
    }
}

/// The competition of a club; the number for "no reference" where there is
/// no club.
pub open spec fn competition_of(club: Option<Club>) -> i32 {
    match club {
        Some(c) => c.division_id,
        None => NO_REFERENCE,
    }
}

impl IdFilter {
    /// Whether the filter lets a number through.
    pub fn passes(&self, id: i32) -> (b: bool)
        ensures
            b == lets_through(self, id),
    {
        (self.wanted.len() == 0 || contains_id(self.wanted.as_slice(), id)) && !contains_id(
            self.unwanted.as_slice(),
            id,
        )
    }
}

/// Whether a number occurs in a list of numbers.
pub fn contains_id(ids: &[i32], id: i32) -> (found: bool)
    ensures
        found == ids@.contains(id),
{
    let mut i: usize = 0;
    while i < ids.len()
        invariant
            i <= ids@.len(),
            forall|k: int| 0 <= k < i ==> ids@[k] != id,
        decreases ids@.len() - i,
    {
        if ids[i] == id {
            return true;
        }
        i += 1;
    }
    false
}

impl Staff {
    /// The nation that the person has chosen to play for, where the person
    /// has chosen.
    pub open spec fn declared(&self) -> Option<i32> {
        if self.declared_nation == 0 {
            None
        } else if self.declared_nation == 1 {
            Some(self.nation_id)
        } else {
            Some(self.second_nation_id)
        }
    }

    /// Whether the person is of the given nation. The number -2 stands for
    /// any nation, and the number -1, which stands for no nation, is never
    /// held against the second nationality.
    pub open spec fn of_nation(&self, nation_id: i32) -> bool {
        nation_id == ANY_NATION || nation_id == self.nation_id || (nation_id != NO_REFERENCE
            && nation_id == self.second_nation_id)
    }

    /// Whether the person can play for the national team of the given
    /// nation: a person who has not chosen can, and one who has must have
    /// chosen that nation. Nothing is asked where `check` is off or the
    /// number stands for no one nation.
    pub open spec fn national_team_open(&self, nation_id: i32, check: bool) -> bool {
        nation_id < 0 || !check || self.declared() is None || self.declared() == Some(nation_id)
    }

    /// Whether the person can still choose the given nation: a person with
    /// a second nationality who has not chosen. Nothing is asked where
    /// `check` is off or the number stands for no one nation.
    pub open spec fn country_choice_open(&self, nation_id: i32, check: bool) -> bool {
        nation_id < 0 || !check || (self.second_nation_id >= 0 && self.declared() is None)
    }

    /// Whether the person passes where the players of North America, or of
    /// its top league, are left out: a person passes who plays for no club,
    /// or for a club that is of none of the nations `na_ids` where those of
    /// North America are left out, and in none of the divisions `nhl_ids`
    /// where those of the league are.
    pub open spec fn outside_north_america(
        &self,
        club: Option<Club>,
        exclude_na: bool,
        exclude_nhl: bool,
        na_ids: Seq<i32>,
        nhl_ids: Seq<i32>,
    ) -> bool {
        match club {
            Some(c) => !(exclude_na && na_ids.contains(c.nation_id)) && !(exclude_nhl
                && nhl_ids.contains(c.division_id)),
            None => true,
        }
    }

    /// The forename of the person; `None` where the save file lacks it.
    pub open spec fn forename_text(&self, data: &Data) -> Option<Seq<char>> {
        match data.spec_forename(self.forename_id) {
            Some(f) => Some(shown_text(f.b_name@)),
            None => None,
        }
    }

    /// The surname of the person; `None` where the save file lacks it.
    pub open spec fn surname_text(&self, data: &Data) -> Option<Seq<char>> {
        match data.spec_surname(self.surname_id) {
            Some(s) => Some(shown_text(s.b_name@)),
            None => None,
        }
    }

    /// The forename and the surname of the person, with a blank between
    /// them; `None` where the save file lacks one of the two.
    pub open spec fn full_name_text(&self, data: &Data) -> Option<Seq<char>> {
        match (data.spec_forename(self.forename_id), data.spec_surname(self.surname_id)) {
            (Some(f), Some(s)) => Some(shown_text(f.b_name@) + " "@ + shown_text(s.b_name@)),
            _ => None,
        }
    }

    /// The name that the save file lacks: the forename, or else the surname.
    pub open spec fn missing_name(&self, data: &Data) -> ReferenceError {
        if data.spec_forename(self.forename_id) is None {
            ReferenceError { kind: SectionKind::Forename, id: self.forename_id }
        } else {
            ReferenceError { kind: SectionKind::Surname, id: self.surname_id }
        }
    }

    /// The name of a nation; empty where the save file has no such nation.
    pub open spec fn nation_text(data: &Data, id: i32) -> Seq<char> {
        match data.spec_nation(id) {
            Some(n) => shown_text(n.b_name@),
            None => Seq::<char>::empty(),
        }
    }

    /// The name of a club; empty where the save file has no such club.
    pub open spec fn club_text(data: &Data, id: i32) -> Seq<char> {
        match data.spec_club(id) {
            Some(c) => shown_text(c.b_name@),
            None => Seq::<char>::empty(),
        }
    }

    /// The three-letter name of a nation; empty where the save file has no
    /// such nation.
    pub open spec fn nation_short_text(data: &Data, id: i32) -> Seq<char> {
        match data.spec_nation(id) {
            Some(n) => shown_text(n.b_three_letter_name@),
            None => Seq::<char>::empty(),
        }
    }

    /// The short name of a club; empty where the save file has no such
    /// club.
    pub open spec fn club_short_text(data: &Data, id: i32) -> Seq<char> {
        match data.spec_club(id) {
            Some(c) => shown_text(c.b_short_name@),
            None => Seq::<char>::empty(),
        }
    }

    /// Where the person was born: the town, then the abbreviation of its
    /// state and the three-letter name of its nation, each after a comma
    /// and a blank, and each left out where the save file does not have
    /// it. Empty where the save file does not have the town.
    pub open spec fn birthplace_text(&self, data: &Data) -> Seq<char> {
        match data.spec_city(self.birth_town_id) {
            Some(town) => shown_text(town.b_name@) + (match data.spec_state_province(
                town.state_id,
            ) {
                Some(state) => ", "@ + shown_text(state.b_abbreviation@),
                None => Seq::<char>::empty(),
            }) + (match data.spec_nation(town.nation_id) {
                Some(nation) => ", "@ + shown_text(nation.b_three_letter_name@),
                None => Seq::<char>::empty(),
            }),
            None => Seq::<char>::empty(),
        }
    }

    /// The nation that the person has chosen to play for, where the person
    /// has chosen.
    pub fn declared_nation_id(&self) -> (r: Option<i32>)
        ensures
            r == self.declared(),
    {
        if self.declared_nation == 0 {
            return None;
        }
        if self.declared_nation == 1 {
            return Some(self.nation_id);
        }
        Some(self.second_nation_id)
    }

    /// Whether the person was born in the given year or later.
    pub fn has_given_age(&self, earliest_birth_year: i16) -> (b: bool)
        ensures
            b == (self.date_of_birth.year >= earliest_birth_year),
    {
        self.date_of_birth.year >= earliest_birth_year
    }

    /// Whether the person can play for the national team of the given
    /// nation.
    pub fn check_national_team(&self, nation_id: i32, national_team_check: bool) -> (b: bool)
        ensures
            b == self.national_team_open(nation_id, national_team_check),
    {
        if nation_id < 0 || !national_team_check {
            return true;
        }
        match self.declared_nation_id() {
            Some(declared) => declared == nation_id,
            None => true,
        }
    }

    /// Whether the person can still choose to play for the given nation.
    pub fn check_country_choice(&self, nation_id: i32, country_choice_check: bool) -> (b: bool)
        ensures
            b == self.country_choice_open(nation_id, country_choice_check),
    {
        if nation_id < 0 || !country_choice_check {
            return true;
        }
        if self.second_nation_id < 0 {
            return false;
        }
        self.declared_nation_id().is_none()
    }

    /// Whether the person is of the given nation.
    pub fn has_nationality(&self, nation_id: i32) -> (b: bool)
        ensures
            b == self.of_nation(nation_id),
    {
        if nation_id == ANY_NATION {
            return true;
        }
        if nation_id == self.nation_id {
            return true;
        }
        nation_id != NO_REFERENCE && nation_id == self.second_nation_id
    }

    /// Whether the person passes where the players of North America, or of
    /// its top league, are left out.
    pub fn check_na_exclusion(
        &self,
        data: &Data,
        exclude_na: bool,
        exclude_nhl: bool,
        na_ids: &[i32],
        nhl_ids: &[i32],
    ) -> (b: bool)
        requires
            data.wf(),
        ensures
            b == self.outside_north_america(
                data.spec_club(self.club_playing_id),
                exclude_na,
                exclude_nhl,
                na_ids@,
                nhl_ids@,
            ),
    {
        if !exclude_nhl && !exclude_na {
            return true;
        }
        let club = match self.club_playing(data) {
            Some(c) => c,
            None => return true,
        };
        if exclude_na && contains_id(na_ids, club.nation_id) {
            return false;
        }
        if exclude_nhl {
            return !contains_id(nhl_ids, club.division_id);
        }
        true
    }

    /// Whether the clubs of the person pass a query: the club under
    /// contract and the club played for, each with its own number, the
    /// number of its nation and the number of its competition. A person
    /// without a club has the number for "no reference" in its place.
    pub open spec fn affiliations_pass(&self, data: &Data, query: &Affiliations) -> bool {
        let contracted = data.spec_club(self.club_contracted_id);
        let playing = data.spec_club(self.club_playing_id);
        &&& lets_through(&query.clubs_contracted, self.club_contracted_id)
        &&& lets_through(&query.clubs_playing, self.club_playing_id)
        &&& lets_through(&query.comps_contracted, competition_of(contracted))
        &&& lets_through(&query.comps_playing, competition_of(playing))
        &&& lets_through(&query.nations_contracted, nation_of(contracted))
        &&& lets_through(&query.nations_playing, nation_of(playing))
    }

    /// Whether the clubs of the person pass a query.
    pub fn check_affiliations(&self, data: &Data, query: &Affiliations) -> (b: bool)
        requires
            data.wf(),
        ensures
            b == self.affiliations_pass(data, query),
    {
        let (contracted_nation, contracted_comp) = match data.club(self.club_contracted_id) {
            Some(c) => (c.nation_id, c.division_id),
            None => (NO_REFERENCE, NO_REFERENCE),
        };
        let (playing_nation, playing_comp) = match data.club(self.club_playing_id) {
            Some(c) => (c.nation_id, c.division_id),
            None => (NO_REFERENCE, NO_REFERENCE),
        };
        query.clubs_contracted.passes(self.club_contracted_id) && query.clubs_playing.passes(
            self.club_playing_id,
        ) && query.comps_contracted.passes(contracted_comp) && query.comps_playing.passes(
            playing_comp,
        ) && query.nations_contracted.passes(contracted_nation) && query.nations_playing.passes(
            playing_nation,
        )
    }

    /// Whether the person passes all the filters of a query.
    pub fn check_player_filters(
        &self,
        data: &Data,
        nation_id: i32,
        national_team_check: bool,
        country_choice_check: bool,
        earliest_birth_year: i16,
        exclude_nhl: bool,
        exclude_na: bool,
        na_ids: &[i32],
        nhl_ids: &[i32],
    ) -> (b: bool)
        requires
            data.wf(),
        ensures
            b == {
                &&& self.of_nation(nation_id)
                &&& self.national_team_open(nation_id, national_team_check)
                &&& self.country_choice_open(nation_id, country_choice_check)
                &&& self.date_of_birth.year >= earliest_birth_year
                &&& self.outside_north_america(
                    data.spec_club(self.club_playing_id),
                    exclude_na,
                    exclude_nhl,
                    na_ids@,
                    nhl_ids@,
                )
            },
    {
        self.has_nationality(nation_id) && self.check_national_team(
            nation_id,
            national_team_check,
        ) && self.check_country_choice(nation_id, country_choice_check) && self.has_given_age(
            earliest_birth_year,
        ) && self.check_na_exclusion(data, exclude_na, exclude_nhl, na_ids, nhl_ids)
    }

    /// The forename of the person. Fails where the save file has no such
    /// forename.
    pub fn forename(&self, data: &Data) -> (r: Result<String, ReferenceError>)
        requires
            data.wf(),
        ensures
            match data.spec_forename(self.forename_id) {
                Some(n) => r matches Ok(s) && s@ == shown_text(n.b_name@),
                None => r == Err::<String, ReferenceError>(
                    ReferenceError { kind: SectionKind::Forename, id: self.forename_id },
                ),
            },
    {
        match data.forename(self.forename_id) {
            Some(n) => Ok(bytes_to_string_or_debug(&n.b_name)),
            None => Err(ReferenceError { kind: SectionKind::Forename, id: self.forename_id }),
        }
    }

    /// The surname of the person. Fails where the save file has no such
    /// surname.
    pub fn surname(&self, data: &Data) -> (r: Result<String, ReferenceError>)
        requires
            data.wf(),
        ensures
            match data.spec_surname(self.surname_id) {
                Some(n) => r matches Ok(s) && s@ == shown_text(n.b_name@),
                None => r == Err::<String, ReferenceError>(
                    ReferenceError { kind: SectionKind::Surname, id: self.surname_id },
                ),
            },
    {
        match data.surname(self.surname_id) {
            Some(n) => Ok(bytes_to_string_or_debug(&n.b_name)),
            None => Err(ReferenceError { kind: SectionKind::Surname, id: self.surname_id }),
        }
    }

    /// The forename and the surname of the person, with a blank between
    /// them. Fails where the save file lacks one of the two, the forename
    /// first.
    pub fn full_name(&self, data: &Data) -> (r: Result<String, ReferenceError>)
        requires
            data.wf(),
        ensures
            match self.full_name_text(data) {
                Some(name) => r matches Ok(s) && s@ == name,
                None => r == Err::<String, ReferenceError>(self.missing_name(data)),
            },
    {
        let mut name = match self.forename(data) {
            Ok(s) => s,
            Err(e) => return Err(e),
        };
        let surname = match self.surname(data) {
            Ok(s) => s,
            Err(e) => return Err(e),
        };
        name.append(" ");
        name.append(surname.as_str());
        Ok(name)
    }

    /// The name of the person's nation; empty where the save file has no
    /// such nation.
    pub fn nation_name(&self, data: &Data) -> (s: String)
        requires
            data.wf(),
        ensures
            s@ == Self::nation_text(data, self.nation_id),
    {
        match data.nation(self.nation_id) {
            Some(n) => bytes_to_string_or_debug(&n.b_name),
            None => String::new(),
        }
    }

    /// The name of the person's second nation; empty where the person has
    /// none.
    pub fn second_nation_name(&self, data: &Data) -> (s: String)
        requires
            data.wf(),
        ensures
            s@ == Self::nation_text(data, self.second_nation_id),
    {
        match data.nation(self.second_nation_id) {
            Some(n) => bytes_to_string_or_debug(&n.b_name),
            None => String::new(),
        }
    }

    /// The three-letter name of the person's nation; empty where the save
    /// file has no such nation.
    pub fn _nation_three_letter_name(&self, data: &Data) -> (s: String)
        requires
            data.wf(),
        ensures
            s@ == Self::nation_short_text(data, self.nation_id),
    {
        match data.nation(self.nation_id) {
            Some(n) => bytes_to_string_or_debug(&n.b_three_letter_name),
            None => String::new(),
        }
    }

    /// The three-letter name of the person's second nation; empty where the
    /// person has none.
    pub fn _second_nation_three_letter_name(&self, data: &Data) -> (s: String)
        requires
            data.wf(),
        ensures
            s@ == Self::nation_short_text(data, self.second_nation_id),
    {
        match data.nation(self.second_nation_id) {
            Some(n) => bytes_to_string_or_debug(&n.b_three_letter_name),
            None => String::new(),
        }
    }

    /// The name of the club that has the person under contract; empty
    /// where there is none.
    pub fn club_contracted_name(&self, data: &Data) -> (s: String)
        requires
            data.wf(),
        ensures
            s@ == Self::club_text(data, self.club_contracted_id),
    {
        match data.club(self.club_contracted_id) {
            Some(c) => bytes_to_string_or_debug(&c.b_name),
            None => String::new(),
        }
    }

    /// The short name of the club that has the person under contract;
    /// empty where there is none.
    pub fn _club_contracted_short_name(&self, data: &Data) -> (s: String)
        requires
            data.wf(),
        ensures
            s@ == Self::club_short_text(data, self.club_contracted_id),
    {
        match data.club(self.club_contracted_id) {
            Some(c) => bytes_to_string_or_debug(&c.b_short_name),
            None => String::new(),
        }
    }

    /// The club that the person plays for.
    pub fn club_playing(&self, data: &Data) -> (r: Option<Club>)
        requires
            data.wf(),
        ensures
            r == data.spec_club(self.club_playing_id),
    {
        match data.club(self.club_playing_id) {
            Some(c) => Some(*c),
            None => None,
        }
    }

    /// The name of the club that the person plays for; empty where there
    /// is none.
    pub fn club_playing_name(&self, data: &Data) -> (s: String)
        requires
            data.wf(),
        ensures
            s@ == Self::club_text(data, self.club_playing_id),
    {
        match data.club(self.club_playing_id) {
            Some(c) => bytes_to_string_or_debug(&c.b_name),
            None => String::new(),
        }
    }

    /// The short name of the club that the person plays for; empty where
    /// there is none.
    pub fn _club_playing_short_name(&self, data: &Data) -> (s: String)
        requires
            data.wf(),
        ensures
            s@ == Self::club_short_text(data, self.club_playing_id),
    {
        match data.club(self.club_playing_id) {
            Some(c) => bytes_to_string_or_debug(&c.b_short_name),
            None => String::new(),
        }
    }

    /// Whether the full name of the person is made of letters, digits,
    /// underscores and blanks alone, as far as the regular expression
    /// `PLAIN_NAME` can tell. Fails where the save file lacks the forename or
    /// the surname.
    pub fn _has_no_special_characters(&self, data: &Data) -> (r: Result<bool, ReferenceError>)
        requires
            data.wf(),
        ensures
            match self.full_name_text(data) {
                Some(name) => r matches Ok(plain) && plain == (regex_is_match(PLAIN_NAME@, name)
                    == Some(true)),
                None => r == Err::<bool, ReferenceError>(self.missing_name(data)),
            },
    {
        match self.full_name(data) {
            Ok(name) => Ok(is_plain(regex_match(PLAIN_NAME, name.as_str()))),
            Err(e) => Err(e),
        }
    }

    /// What the person is as a player; `None` for a person who is none.
    pub fn player_data(&self, data: &Data) -> (r: Option<Player>)
        requires
            data.wf(),
        ensures
            r == data.spec_player(self.player_data_id),
    {
        match data.player(self.player_data_id) {
            Some(p) => Some(*p),
            None => None,
        }
    }

    /// Where the person was born: the town, then the abbreviation of its
    /// state and the three-letter name of its nation, each after a comma
    /// and a blank, and each left out where the save file does not have
    /// it. Empty where the save file does not have the town.
    pub fn _birthplace(&self, data: &Data) -> (s: String)
        requires
            data.wf(),
        ensures
            s@ == self.birthplace_text(data),
    {
        let town = match data.city(self.birth_town_id) {
            Some(t) => t,
            None => return String::new(),
        };
        let mut place = bytes_to_string_or_debug(&town.b_name);
        let ghost town_name = place@;
        match data.state_province(town.state_id) {
            Some(state) => {
                let abbreviation = bytes_to_string_or_debug(&state.b_abbreviation);
                place.append(", ");
                place.append(abbreviation.as_str());
                assert(place@ =~= town_name + (", "@ + abbreviation@));
            },
            None => {
                assert(place@ =~= town_name + Seq::<char>::empty());
            },
        }
        let ghost with_state = place@;
        match data.nation(town.nation_id) {
            Some(nation) => {
                let name = bytes_to_string_or_debug(&nation.b_three_letter_name);
                place.append(", ");
                place.append(name.as_str());
                assert(place@ =~= with_state + (", "@ + name@));
            },
            None => {
                assert(place@ =~= with_state + Seq::<char>::empty());
            },
        }
        place
    }

    /// The birthday of the current age: the birthday in the year in which
    /// the person reached the age. Where one of the two years is a leap
    /// year and the other is not, a birthday from the day that a
    /// twenty-ninth of February would push back is counted a day earlier or
    /// later, so that it falls on the same day of the same month.
    pub open spec fn birthday_of_age(&self) -> SIDate {
        SIDate {
            day: self.date_of_birth.day,
            year: (self.age + self.date_of_birth.year) as i16,
            b_is_leap_year: 0,
        }
    }

    /// By how many days the birthday moves in the year of the current age.
    pub open spec fn leap_shift(&self) -> int {
        let born_in_leap = is_leap(self.date_of_birth.year as int);
        let aged_in_leap = is_leap(self.age + self.date_of_birth.year);
        if self.date_of_birth.day < LEAP_DAY {
            0
        } else if born_in_leap && !aged_in_leap {
            -1
        } else if !born_in_leap && aged_in_leap {
            1
        } else {
            0
        }
    }

    /// For how many days after its first day the current age lasts.
    pub open spec fn age_span(first: SIDate) -> int {
        if (is_leap(first.year as int) && first.day <= LEAP_DAY) || (is_leap(first.year + 1)
            && first.day >= LEAP_DAY) {
            365
        } else {
            364
        }
    }

    /// The first and the last day on which the person has the current age:
    /// the day after the birthday of the age, and the day of the next
    /// birthday. `None` where one of the two lies in a year that cannot be
    /// stored.
    pub open spec fn age_window(&self) -> Option<(SIDate, SIDate)> {
        if i16::MIN <= self.age + self.date_of_birth.year <= i16::MAX {
            match self.birthday_of_age().shift(1 + self.leap_shift()) {
                Some(first) => match first.shift(Self::age_span(first)) {
                    Some(last) => Some((first, last)),
                    None => None,
                },
                None => None,
            }
        } else {
            None
        }
    }

    /// The first and the last day on which the person has the current age.
    /// The age changes on the day after the birthday.
    pub fn dates_with_this_age(&self) -> (r: Option<(SIDate, SIDate)>)
        ensures
            r == self.age_window(),
    {
        let year: i32 = self.age as i32 + self.date_of_birth.year as i32;
        if year < i16::MIN as i32 || year > i16::MAX as i32 {
            return None;
        }
        let year: i16 = year as i16;
        let born_in_leap = is_leap_year(self.date_of_birth.year);
        let aged_in_leap = is_leap_year(year);
        let day = self.date_of_birth.day;
        let shift: i64 = if day < LEAP_DAY {
            0
        } else if born_in_leap && !aged_in_leap {
            -1
        } else if !born_in_leap && aged_in_leap {
            1
        } else {
            0
        };
        let mut first = SIDate { day, year, b_is_leap_year: 0 };
        if !first.add_days(1 + shift) {
            return None;
        }
        let mut last = first;
        let next_is_leap = if first.year == i16::MAX {
            proof {
                assert(is_leap(0x8000)) by {
                    assert(0x8000int % 4 == 0 && 0x8000int % 100 != 0);
                }
            }
            true
        } else {
            is_leap_year(first.year + 1)
        };
        let span: i64 = if (is_leap_year(first.year) && first.day <= LEAP_DAY) || (next_is_leap
            && first.day >= LEAP_DAY) {
            365
        } else {
            364
        };
        if !last.add_days(span) {
            return None;
        }
        Some((first, last))
    }
}

/// The questions about a person's nation are all answered with yes where
/// any nation will do.
pub proof fn lemma_any_nation_passes(
    s: Staff,
    national_team_check: bool,
    country_choice_check: bool,
)
    ensures
        s.of_nation(ANY_NATION),
        s.national_team_open(ANY_NATION, national_team_check),
        s.country_choice_open(ANY_NATION, country_choice_check),
{
}

/// A person is of no nation only by the first nationality: the second is
/// never taken for "no nation".
pub proof fn lemma_no_nation_is_not_the_second(s: Staff)
    ensures
        s.of_nation(NO_REFERENCE) <==> s.nation_id == NO_REFERENCE,
{
}

impl Staff {
    /// Whether the chart shows every attribute that counts for a goalkeeper.
    pub open spec fn gk_shown(p: &Player, chart: &AttributeChart) -> bool {
        &&& p.shown(chart, Attribute::Glove) is Some
        &&& p.shown(chart, Attribute::Recovery) is Some
        &&& p.shown(chart, Attribute::Reflexes) is Some
        &&& p.shown(chart, Attribute::Blocker) is Some
        &&& p.shown(chart, Attribute::OneOnOnes) is Some
        &&& p.shown(chart, Attribute::Positioning) is Some
        &&& p.shown(chart, Attribute::ReboundControl) is Some
        &&& p.shown(chart, Attribute::Balance) is Some
        &&& p.shown(chart, Attribute::Passing) is Some
        &&& p.shown(chart, Attribute::Pokecheck) is Some
        &&& p.shown(chart, Attribute::Stickhandling) is Some
        &&& p.shown(chart, Attribute::Anticipation) is Some
        &&& p.shown(chart, Attribute::Decisions) is Some
    }

    /// The score of the person as a goalkeeper: the attributes that count for the
    /// position, those that count most thirty times, the next twenty and ten
    /// times, the rest once. `None` where the chart does not show one of them.
    #[verifier::opaque]
    pub open spec fn gk_score(&self, p: &Player, chart: &AttributeChart) -> Option<int> {
        if Self::gk_shown(p, chart) {
            Some(
                30 * (p.agility + p.bravery + self.determination
                    + p.shown_value(chart, Attribute::Glove)
                    + p.shown_value(chart, Attribute::Recovery)
                    + p.shown_value(chart, Attribute::Reflexes))
                + 20 * (p.shown_value(chart, Attribute::Blocker)
                    + p.shown_value(chart, Attribute::OneOnOnes)
                    + p.shown_value(chart, Attribute::Positioning)
                    + p.shown_value(chart, Attribute::ReboundControl) + p.stamina)
                + 10 * (p.shown_value(chart, Attribute::Balance)
                    + p.shown_value(chart, Attribute::Passing)
                    + p.shown_value(chart, Attribute::Pokecheck) + self.pressure
                    + self.professionalism + self.sportsmanship
                    + p.shown_value(chart, Attribute::Stickhandling) + self.temperament)
                + (p.acceleration + p.agitation
                    + p.shown_value(chart, Attribute::Anticipation)
                    + p.shown_value(chart, Attribute::Decisions) + p.flair
                    + p.leadership + p.natural_fitness + p.pace + p.strength
                    + p.teamwork),
            )
        } else {
            None
        }
    }

    /// Whether the chart shows every attribute that counts for a defender.
    pub open spec fn d_shown(p: &Player, chart: &AttributeChart) -> bool {
        &&& p.shown(chart, Attribute::Anticipation) is Some
        &&& p.shown(chart, Attribute::Checking) is Some
        &&& p.shown(chart, Attribute::Hitting) is Some
        &&& p.shown(chart, Attribute::Passing) is Some
        &&& p.shown(chart, Attribute::Pokecheck) is Some
        &&& p.shown(chart, Attribute::Positioning) is Some
        &&& p.shown(chart, Attribute::Slapshot) is Some
        &&& p.shown(chart, Attribute::Balance) is Some
        &&& p.shown(chart, Attribute::Decisions) is Some
        &&& p.shown(chart, Attribute::Creativity) is Some
        &&& p.shown(chart, Attribute::OffThePuck) is Some
        &&& p.shown(chart, Attribute::Stickhandling) is Some
        &&& p.shown(chart, Attribute::Wristshot) is Some
        &&& p.shown(chart, Attribute::Deflections) is Some
        &&& p.shown(chart, Attribute::Deking) is Some
    }

    /// The score of the person as a defender: the attributes that count for the
    /// position, those that count most thirty times, the next twenty and ten
    /// times, the rest once. `None` where the chart does not show one of them.
    #[verifier::opaque]
    pub open spec fn d_score(&self, p: &Player, chart: &AttributeChart) -> Option<int> {
        if Self::d_shown(p, chart) {
            Some(
                30 * (p.acceleration + p.shown_value(chart, Attribute::Anticipation)
                    + p.bravery + p.shown_value(chart, Attribute::Checking)
                    + self.determination + p.shown_value(chart, Attribute::Hitting)
                    + p.shown_value(chart, Attribute::Passing)
                    + p.shown_value(chart, Attribute::Pokecheck)
                    + p.shown_value(chart, Attribute::Positioning) + self.pressure
                    + p.shown_value(chart, Attribute::Slapshot) + p.pace + p.teamwork)
                + 20 * (p.shown_value(chart, Attribute::Balance)
                    + p.shown_value(chart, Attribute::Decisions) + p.stamina
                    + p.strength)
                + 10 * (p.agility + p.agitation
                    + p.shown_value(chart, Attribute::Creativity) + p.flair
                    + p.shown_value(chart, Attribute::OffThePuck) + self.professionalism
                    + self.sportsmanship
                    + p.shown_value(chart, Attribute::Stickhandling) + self.temperament
                    + p.shown_value(chart, Attribute::Wristshot))
                + (p.shown_value(chart, Attribute::Deflections)
                    + p.shown_value(chart, Attribute::Deking) + p.leadership
                    + p.natural_fitness),
            )
        } else {
            None
        }
    }

    /// Whether the chart shows every attribute that counts for a winger.
    pub open spec fn w_shown(p: &Player, chart: &AttributeChart) -> bool {
        &&& p.shown(chart, Attribute::Anticipation) is Some
        &&& p.shown(chart, Attribute::Passing) is Some
        &&& p.shown(chart, Attribute::Stickhandling) is Some
        &&& p.shown(chart, Attribute::Wristshot) is Some
        &&& p.shown(chart, Attribute::Balance) is Some
        &&& p.shown(chart, Attribute::Creativity) is Some
        &&& p.shown(chart, Attribute::Decisions) is Some
        &&& p.shown(chart, Attribute::Deking) is Some
        &&& p.shown(chart, Attribute::OffThePuck) is Some
        &&& p.shown(chart, Attribute::Positioning) is Some
        &&& p.shown(chart, Attribute::Checking) is Some
        &&& p.shown(chart, Attribute::Deflections) is Some
        &&& p.shown(chart, Attribute::Hitting) is Some
        &&& p.shown(chart, Attribute::Pokecheck) is Some
        &&& p.shown(chart, Attribute::Slapshot) is Some
    }

    /// The score of the person as a winger: the attributes that count for the
    /// position, those that count most thirty times, the next twenty and ten
    /// times, the rest once. `None` where the chart does not show one of them.
    #[verifier::opaque]
    pub open spec fn w_score(&self, p: &Player, chart: &AttributeChart) -> Option<int> {
        if Self::w_shown(p, chart) {
            Some(
                30 * (p.acceleration + p.agility
                    + p.shown_value(chart, Attribute::Anticipation) + self.determination
                    + p.shown_value(chart, Attribute::Passing) + self.pressure + p.pace
                    + p.shown_value(chart, Attribute::Stickhandling)
                    + p.shown_value(chart, Attribute::Wristshot))
                + 20 * (p.shown_value(chart, Attribute::Balance) + p.bravery
                    + p.shown_value(chart, Attribute::Creativity)
                    + p.shown_value(chart, Attribute::Decisions)
                    + p.shown_value(chart, Attribute::Deking) + p.flair
                    + p.shown_value(chart, Attribute::OffThePuck)
                    + p.shown_value(chart, Attribute::Positioning) + p.stamina
                    + p.strength + p.teamwork)
                + 10 * (p.agitation + p.shown_value(chart, Attribute::Checking)
                    + p.shown_value(chart, Attribute::Deflections)
                    + p.shown_value(chart, Attribute::Hitting)
                    + p.shown_value(chart, Attribute::Pokecheck) + self.professionalism
                    + p.shown_value(chart, Attribute::Slapshot) + self.sportsmanship
                    + self.temperament)
                + (p.leadership + p.natural_fitness),
            )
        } else {
            None
        }
    }

    /// Whether the chart shows every attribute that counts for a centre.
    pub open spec fn c_shown(p: &Player, chart: &AttributeChart) -> bool {
        &&& p.shown(chart, Attribute::Anticipation) is Some
        &&& p.shown(chart, Attribute::Creativity) is Some
        &&& p.shown(chart, Attribute::Faceoffs) is Some
        &&& p.shown(chart, Attribute::Passing) is Some
        &&& p.shown(chart, Attribute::Stickhandling) is Some
        &&& p.shown(chart, Attribute::Wristshot) is Some
        &&& p.shown(chart, Attribute::Balance) is Some
        &&& p.shown(chart, Attribute::Checking) is Some
        &&& p.shown(chart, Attribute::Decisions) is Some
        &&& p.shown(chart, Attribute::Deflections) is Some
        &&& p.shown(chart, Attribute::Deking) is Some
        &&& p.shown(chart, Attribute::Hitting) is Some
        &&& p.shown(chart, Attribute::OffThePuck) is Some
        &&& p.shown(chart, Attribute::Pokecheck) is Some
        &&& p.shown(chart, Attribute::Positioning) is Some
        &&& p.shown(chart, Attribute::Slapshot) is Some
    }

    /// The score of the person as a centre: the attributes that count for the
    /// position, those that count most thirty times, the next twenty and ten
    /// times, the rest once. `None` where the chart does not show one of them.
    #[verifier::opaque]
    pub open spec fn c_score(&self, p: &Player, chart: &AttributeChart) -> Option<int> {
        if Self::c_shown(p, chart) {
            Some(
                30 * (p.acceleration + p.shown_value(chart, Attribute::Anticipation)
                    + p.shown_value(chart, Attribute::Creativity) + self.determination
                    + p.shown_value(chart, Attribute::Faceoffs)
                    + p.shown_value(chart, Attribute::Passing) + self.pressure + p.pace
                    + p.shown_value(chart, Attribute::Stickhandling) + p.strength
                    + p.shown_value(chart, Attribute::Wristshot))
                + 20 * (p.agility + p.shown_value(chart, Attribute::Balance) + p.bravery
                    + p.shown_value(chart, Attribute::Checking)
                    + p.shown_value(chart, Attribute::Decisions)
                    + p.shown_value(chart, Attribute::Deflections)
                    + p.shown_value(chart, Attribute::Deking) + p.flair
                    + p.shown_value(chart, Attribute::Hitting)
                    + p.shown_value(chart, Attribute::OffThePuck)
                    + p.shown_value(chart, Attribute::Pokecheck)
                    + p.shown_value(chart, Attribute::Positioning) + p.stamina
                    + p.teamwork)
                + 10 * (p.agitation + self.professionalism
                    + p.shown_value(chart, Attribute::Slapshot) + self.sportsmanship
                    + self.temperament)
                + (p.leadership + p.natural_fitness),
            )
        } else {
            None
        }
    }

    /// The score of the person as a goalkeeper.
    pub fn gk_attribute_score(&self, p: &Player, chart: &AttributeChart) -> (r: Option<
        i64,
    >)
        ensures
            r.is_some() <==> self.gk_score(p, chart).is_some(),
            r matches Some(score) ==> self.gk_score(p, chart) == Some(score as int),
            r matches Some(score) ==> -100_000 <= score <= 100_000,
    {
        reveal(Staff::gk_score);
        let glove = match p.convert(chart, Attribute::Glove) {
            Some(v) => v,
            None => return None,
        };
        let recovery = match p.convert(chart, Attribute::Recovery) {
            Some(v) => v,
            None => return None,
        };
        let reflexes = match p.convert(chart, Attribute::Reflexes) {
            Some(v) => v,
            None => return None,
        };
        let blocker = match p.convert(chart, Attribute::Blocker) {
            Some(v) => v,
            None => return None,
        };
        let one_on_ones = match p.convert(chart, Attribute::OneOnOnes) {
            Some(v) => v,
            None => return None,
        };
        let positioning = match p.convert(chart, Attribute::Positioning) {
            Some(v) => v,
            None => return None,
        };
        let rebound_control = match p.convert(chart, Attribute::ReboundControl) {
            Some(v) => v,
            None => return None,
        };
        let balance = match p.convert(chart, Attribute::Balance) {
            Some(v) => v,
            None => return None,
        };
        let passing = match p.convert(chart, Attribute::Passing) {
            Some(v) => v,
            None => return None,
        };
        let pokecheck = match p.convert(chart, Attribute::Pokecheck) {
            Some(v) => v,
            None => return None,
        };
        let stickhandling = match p.convert(chart, Attribute::Stickhandling) {
            Some(v) => v,
            None => return None,
        };
        let anticipation = match p.convert(chart, Attribute::Anticipation) {
            Some(v) => v,
            None => return None,
        };
        let decisions = match p.convert(chart, Attribute::Decisions) {
            Some(v) => v,
            None => return None,
        };
        let x30: i64 = p.agility as i64 + p.bravery as i64 + self.determination as i64
            + glove as i64 + recovery as i64 + reflexes as i64;
        let x20: i64 = blocker as i64 + one_on_ones as i64 + positioning as i64
            + rebound_control as i64 + p.stamina as i64;
        let x10: i64 = balance as i64 + passing as i64 + pokecheck as i64 + self.pressure as i64
            + self.professionalism as i64 + self.sportsmanship as i64
            + stickhandling as i64 + self.temperament as i64;
        let x1: i64 = p.acceleration as i64 + p.agitation as i64 + anticipation as i64
            + decisions as i64 + p.flair as i64 + p.leadership as i64
            + p.natural_fitness as i64 + p.pace as i64 + p.strength as i64
            + p.teamwork as i64;
        Some(x30 * 30 + x20 * 20 + x10 * 10 + x1)
    }

    /// The score of the person as a defender.
    pub fn d_attribute_score(&self, p: &Player, chart: &AttributeChart) -> (r: Option<
        i64,
    >)
        ensures
            r.is_some() <==> self.d_score(p, chart).is_some(),
            r matches Some(score) ==> self.d_score(p, chart) == Some(score as int),
            r matches Some(score) ==> -100_000 <= score <= 100_000,
    {
        reveal(Staff::d_score);
        let anticipation = match p.convert(chart, Attribute::Anticipation) {
            Some(v) => v,
            None => return None,
        };
        let checking = match p.convert(chart, Attribute::Checking) {
            Some(v) => v,
            None => return None,
        };
        let hitting = match p.convert(chart, Attribute::Hitting) {
            Some(v) => v,
            None => return None,
        };
        let passing = match p.convert(chart, Attribute::Passing) {
            Some(v) => v,
            None => return None,
        };
        let pokecheck = match p.convert(chart, Attribute::Pokecheck) {
            Some(v) => v,
            None => return None,
        };
        let positioning = match p.convert(chart, Attribute::Positioning) {
            Some(v) => v,
            None => return None,
        };
        let slapshot = match p.convert(chart, Attribute::Slapshot) {
            Some(v) => v,
            None => return None,
        };
        let balance = match p.convert(chart, Attribute::Balance) {
            Some(v) => v,
            None => return None,
        };
        let decisions = match p.convert(chart, Attribute::Decisions) {
            Some(v) => v,
            None => return None,
        };
        let creativity = match p.convert(chart, Attribute::Creativity) {
            Some(v) => v,
            None => return None,
        };
        let off_the_puck = match p.convert(chart, Attribute::OffThePuck) {
            Some(v) => v,
            None => return None,
        };
        let stickhandling = match p.convert(chart, Attribute::Stickhandling) {
            Some(v) => v,
            None => return None,
        };
        let wristshot = match p.convert(chart, Attribute::Wristshot) {
            Some(v) => v,
            None => return None,
        };
        let deflections = match p.convert(chart, Attribute::Deflections) {
            Some(v) => v,
            None => return None,
        };
        let deking = match p.convert(chart, Attribute::Deking) {
            Some(v) => v,
            None => return None,
        };
        let x30: i64 = p.acceleration as i64 + anticipation as i64 + p.bravery as i64
            + checking as i64 + self.determination as i64 + hitting as i64
            + passing as i64 + pokecheck as i64 + positioning as i64
            + self.pressure as i64 + slapshot as i64 + p.pace as i64 + p.teamwork as i64;
        let x20: i64 = balance as i64 + decisions as i64 + p.stamina as i64 + p.strength as i64;
        let x10: i64 = p.agility as i64 + p.agitation as i64 + creativity as i64 + p.flair as i64
            + off_the_puck as i64 + self.professionalism as i64
            + self.sportsmanship as i64 + stickhandling as i64 + self.temperament as i64
            + wristshot as i64;
        let x1: i64 = deflections as i64 + deking as i64 + p.leadership as i64
            + p.natural_fitness as i64;
        Some(x30 * 30 + x20 * 20 + x10 * 10 + x1)
    }

    /// The score of the person as a winger.
    pub fn w_attribute_score(&self, p: &Player, chart: &AttributeChart) -> (r: Option<
        i64,
    >)
        ensures
            r.is_some() <==> self.w_score(p, chart).is_some(),
            r matches Some(score) ==> self.w_score(p, chart) == Some(score as int),
            r matches Some(score) ==> -100_000 <= score <= 100_000,
    {
        reveal(Staff::w_score);
        let anticipation = match p.convert(chart, Attribute::Anticipation) {
            Some(v) => v,
            None => return None,
        };
        let passing = match p.convert(chart, Attribute::Passing) {
            Some(v) => v,
            None => return None,
        };
        let stickhandling = match p.convert(chart, Attribute::Stickhandling) {
            Some(v) => v,
            None => return None,
        };
        let wristshot = match p.convert(chart, Attribute::Wristshot) {
            Some(v) => v,
            None => return None,
        };
        let balance = match p.convert(chart, Attribute::Balance) {
            Some(v) => v,
            None => return None,
        };
        let creativity = match p.convert(chart, Attribute::Creativity) {
            Some(v) => v,
            None => return None,
        };
        let decisions = match p.convert(chart, Attribute::Decisions) {
            Some(v) => v,
            None => return None,
        };
        let deking = match p.convert(chart, Attribute::Deking) {
            Some(v) => v,
            None => return None,
        };
        let off_the_puck = match p.convert(chart, Attribute::OffThePuck) {
            Some(v) => v,
            None => return None,
        };
        let positioning = match p.convert(chart, Attribute::Positioning) {
            Some(v) => v,
            None => return None,
        };
        let checking = match p.convert(chart, Attribute::Checking) {
            Some(v) => v,
            None => return None,
        };
        let deflections = match p.convert(chart, Attribute::Deflections) {
            Some(v) => v,
            None => return None,
        };
        let hitting = match p.convert(chart, Attribute::Hitting) {
            Some(v) => v,
            None => return None,
        };
        let pokecheck = match p.convert(chart, Attribute::Pokecheck) {
            Some(v) => v,
            None => return None,
        };
        let slapshot = match p.convert(chart, Attribute::Slapshot) {
            Some(v) => v,
            None => return None,
        };
        let x30: i64 = p.acceleration as i64 + p.agility as i64 + anticipation as i64
            + self.determination as i64 + passing as i64 + self.pressure as i64
            + p.pace as i64 + stickhandling as i64 + wristshot as i64;
        let x20: i64 = balance as i64 + p.bravery as i64 + creativity as i64 + decisions as i64
            + deking as i64 + p.flair as i64 + off_the_puck as i64 + positioning as i64
            + p.stamina as i64 + p.strength as i64 + p.teamwork as i64;
        let x10: i64 = p.agitation as i64 + checking as i64 + deflections as i64 + hitting as i64
            + pokecheck as i64 + self.professionalism as i64 + slapshot as i64
            + self.sportsmanship as i64 + self.temperament as i64;
        let x1: i64 = p.leadership as i64 + p.natural_fitness as i64;
        Some(x30 * 30 + x20 * 20 + x10 * 10 + x1)
    }

    /// The score of the person as a centre.
    pub fn c_attribute_score(&self, p: &Player, chart: &AttributeChart) -> (r: Option<
        i64,
    >)
        ensures
            r.is_some() <==> self.c_score(p, chart).is_some(),
            r matches Some(score) ==> self.c_score(p, chart) == Some(score as int),
            r matches Some(score) ==> -100_000 <= score <= 100_000,
    {
        reveal(Staff::c_score);
        let anticipation = match p.convert(chart, Attribute::Anticipation) {
            Some(v) => v,
            None => return None,
        };
        let creativity = match p.convert(chart, Attribute::Creativity) {
            Some(v) => v,
            None => return None,
        };
        let faceoffs = match p.convert(chart, Attribute::Faceoffs) {
            Some(v) => v,
            None => return None,
        };
        let passing = match p.convert(chart, Attribute::Passing) {
            Some(v) => v,
            None => return None,
        };
        let stickhandling = match p.convert(chart, Attribute::Stickhandling) {
            Some(v) => v,
            None => return None,
        };
        let wristshot = match p.convert(chart, Attribute::Wristshot) {
            Some(v) => v,
            None => return None,
        };
        let balance = match p.convert(chart, Attribute::Balance) {
            Some(v) => v,
            None => return None,
        };
        let checking = match p.convert(chart, Attribute::Checking) {
            Some(v) => v,
            None => return None,
        };
        let decisions = match p.convert(chart, Attribute::Decisions) {
            Some(v) => v,
            None => return None,
        };
        let deflections = match p.convert(chart, Attribute::Deflections) {
            Some(v) => v,
            None => return None,
        };
        let deking = match p.convert(chart, Attribute::Deking) {
            Some(v) => v,
            None => return None,
        };
        let hitting = match p.convert(chart, Attribute::Hitting) {
            Some(v) => v,
            None => return None,
        };
        let off_the_puck = match p.convert(chart, Attribute::OffThePuck) {
            Some(v) => v,
            None => return None,
        };
        let pokecheck = match p.convert(chart, Attribute::Pokecheck) {
            Some(v) => v,
            None => return None,
        };
        let positioning = match p.convert(chart, Attribute::Positioning) {
            Some(v) => v,
            None => return None,
        };
        let slapshot = match p.convert(chart, Attribute::Slapshot) {
            Some(v) => v,
            None => return None,
        };
        let x30: i64 = p.acceleration as i64 + anticipation as i64 + creativity as i64
            + self.determination as i64 + faceoffs as i64 + passing as i64
            + self.pressure as i64 + p.pace as i64 + stickhandling as i64
            + p.strength as i64 + wristshot as i64;
        let x20: i64 = p.agility as i64 + balance as i64 + p.bravery as i64 + checking as i64
            + decisions as i64 + deflections as i64 + deking as i64 + p.flair as i64
            + hitting as i64 + off_the_puck as i64 + pokecheck as i64
            + positioning as i64 + p.stamina as i64 + p.teamwork as i64;
        let x10: i64 = p.agitation as i64 + self.professionalism as i64 + slapshot as i64
            + self.sportsmanship as i64 + self.temperament as i64;
        let x1: i64 = p.leadership as i64 + p.natural_fitness as i64;
        Some(x30 * 30 + x20 * 20 + x10 * 10 + x1)
    }

    /// The score of a goalkeeper is a small number.
    pub proof fn lemma_gk_score_small(&self, p: &Player, chart: &AttributeChart)
        ensures
            self.gk_score(p, chart) matches Some(score) ==> -100_000 <= score <= 100_000,
    {
        reveal(Staff::gk_score);
    }

    /// The score of a defender is a small number.
    pub proof fn lemma_d_score_small(&self, p: &Player, chart: &AttributeChart)
        ensures
            self.d_score(p, chart) matches Some(score) ==> -100_000 <= score <= 100_000,
    {
        reveal(Staff::d_score);
    }

    /// The score of a winger is a small number.
    pub proof fn lemma_w_score_small(&self, p: &Player, chart: &AttributeChart)
        ensures
            self.w_score(p, chart) matches Some(score) ==> -100_000 <= score <= 100_000,
    {
        reveal(Staff::w_score);
    }

    /// The score of a centre is a small number.
    pub proof fn lemma_c_score_small(&self, p: &Player, chart: &AttributeChart)
        ensures
            self.c_score(p, chart) matches Some(score) ==> -100_000 <= score <= 100_000,
    {
        reveal(Staff::c_score);
    }

    /// The rating of the person as a goalkeeper;
    /// `None` where the chart does not show an attribute that counts for the
    /// position.
    pub open spec fn gk_rated(
        &self,
        p: &Player,
        chart: &AttributeChart,
        bounds: &RatingBounds,
    ) -> Option<Fraction> {
        match self.gk_score(p, chart) {
            Some(score) => Some(
                p.rated(bounds, score, bounds.worst_gk as int, bounds.best_gk as int),
            ),
            None => None,
        }
    }

    /// The rating of the person as a defender, whatever the side;
    /// `None` where the chart does not show an attribute that counts for the
    /// position.
    pub open spec fn d_rated(
        &self,
        p: &Player,
        chart: &AttributeChart,
        bounds: &RatingBounds,
    ) -> Option<Fraction> {
        match self.d_score(p, chart) {
            Some(score) => Some(
                p.rated(bounds, score, bounds.worst_d as int, bounds.best_d as int),
            ),
            None => None,
        }
    }

    /// The rating of the person as a winger, whatever the side;
    /// `None` where the chart does not show an attribute that counts for the
    /// position.
    pub open spec fn w_rated(
        &self,
        p: &Player,
        chart: &AttributeChart,
        bounds: &RatingBounds,
    ) -> Option<Fraction> {
        match self.w_score(p, chart) {
            Some(score) => Some(
                p.rated(bounds, score, bounds.worst_w as int, bounds.best_w as int),
            ),
            None => None,
        }
    }

    /// The rating of the person as a centre;
    /// `None` where the chart does not show an attribute that counts for the
    /// position.
    pub open spec fn c_rated(
        &self,
        p: &Player,
        chart: &AttributeChart,
        bounds: &RatingBounds,
    ) -> Option<Fraction> {
        match self.c_score(p, chart) {
            Some(score) => Some(
                product(
                    p.rated(bounds, score, bounds.worst_c as int, bounds.best_c as int),
                    p.position_fit(p.center),
                ),
            ),
            None => None,
        }
    }

    /// The rating of the person as a left defender;
    /// `None` where the chart does not show an attribute that counts for the
    /// position.
    pub open spec fn ld_rated(
        &self,
        p: &Player,
        chart: &AttributeChart,
        bounds: &RatingBounds,
    ) -> Option<Fraction> {
        match self.d_score(p, chart) {
            Some(score) => Some(
                product(
                    p.rated(bounds, score, bounds.worst_d as int, bounds.best_d as int),
                    p.position_fit(p.left_defence),
                ),
            ),
            None => None,
        }
    }

    /// The rating of the person as a right defender;
    /// `None` where the chart does not show an attribute that counts for the
    /// position.
    pub open spec fn rd_rated(
        &self,
        p: &Player,
        chart: &AttributeChart,
        bounds: &RatingBounds,
    ) -> Option<Fraction> {
        match self.d_score(p, chart) {
            Some(score) => Some(
                product(
                    p.rated(bounds, score, bounds.worst_d as int, bounds.best_d as int),
                    p.position_fit(p.right_defence),
                ),
            ),
            None => None,
        }
    }

    /// The rating of the person as a left winger;
    /// `None` where the chart does not show an attribute that counts for the
    /// position.
    pub open spec fn lw_rated(
        &self,
        p: &Player,
        chart: &AttributeChart,
        bounds: &RatingBounds,
    ) -> Option<Fraction> {
        match self.w_score(p, chart) {
            Some(score) => Some(
                product(
                    p.rated(bounds, score, bounds.worst_w as int, bounds.best_w as int),
                    p.position_fit(p.left_wing),
                ),
            ),
            None => None,
        }
    }

    /// The rating of the person as a right winger;
    /// `None` where the chart does not show an attribute that counts for the
    /// position.
    pub open spec fn rw_rated(
        &self,
        p: &Player,
        chart: &AttributeChart,
        bounds: &RatingBounds,
    ) -> Option<Fraction> {
        match self.w_score(p, chart) {
            Some(score) => Some(
                product(
                    p.rated(bounds, score, bounds.worst_w as int, bounds.best_w as int),
                    p.position_fit(p.right_wing),
                ),
            ),
            None => None,
        }
    }

    /// The rating of the person as a goalkeeper.
    pub fn gk_rating(
        &self,
        p: &Player,
        chart: &AttributeChart,
        bounds: &RatingBounds,
    ) -> (r: Option<Fraction>)
        ensures
            r == self.gk_rated(p, chart, bounds),
    {
        match self.gk_attribute_score(p, chart) {
            Some(score) => Some(p.rating(bounds, score, bounds.worst_gk, bounds.best_gk)),
            None => None,
        }
    }

    /// The rating of the person as a defender, whatever the side.
    pub fn d_rating(
        &self,
        p: &Player,
        chart: &AttributeChart,
        bounds: &RatingBounds,
    ) -> (r: Option<Fraction>)
        ensures
            r == self.d_rated(p, chart, bounds),
    {
        match self.d_attribute_score(p, chart) {
            Some(score) => Some(p.rating(bounds, score, bounds.worst_d, bounds.best_d)),
            None => None,
        }
    }

    /// The rating of the person as a winger, whatever the side.
    pub fn w_rating(
        &self,
        p: &Player,
        chart: &AttributeChart,
        bounds: &RatingBounds,
    ) -> (r: Option<Fraction>)
        ensures
            r == self.w_rated(p, chart, bounds),
    {
        match self.w_attribute_score(p, chart) {
            Some(score) => Some(p.rating(bounds, score, bounds.worst_w, bounds.best_w)),
            None => None,
        }
    }

    /// The rating of the person as a centre.
    pub fn c_rating(
        &self,
        p: &Player,
        chart: &AttributeChart,
        bounds: &RatingBounds,
    ) -> (r: Option<Fraction>)
        ensures
            r == self.c_rated(p, chart, bounds),
    {
        match self.c_attribute_score(p, chart) {
            Some(score) => Some(
                p.rating(bounds, score, bounds.worst_c, bounds.best_c).times(
                    p.position_rating(p.center),
                ),
            ),
            None => None,
        }
    }

    /// The rating of the person as a left defender.
    pub fn ld_rating(
        &self,
        p: &Player,
        chart: &AttributeChart,
        bounds: &RatingBounds,
    ) -> (r: Option<Fraction>)
        ensures
            r == self.ld_rated(p, chart, bounds),
    {
        match self.d_attribute_score(p, chart) {
            Some(score) => Some(
                p.rating(bounds, score, bounds.worst_d, bounds.best_d).times(
                    p.position_rating(p.left_defence),
                ),
            ),
            None => None,
        }
    }

    /// The rating of the person as a right defender.
    pub fn rd_rating(
        &self,
        p: &Player,
        chart: &AttributeChart,
        bounds: &RatingBounds,
    ) -> (r: Option<Fraction>)
        ensures
            r == self.rd_rated(p, chart, bounds),
    {
        match self.d_attribute_score(p, chart) {
            Some(score) => Some(
                p.rating(bounds, score, bounds.worst_d, bounds.best_d).times(
                    p.position_rating(p.right_defence),
                ),
            ),
            None => None,
        }
    }

    /// The rating of the person as a left winger.
    pub fn lw_rating(
        &self,
        p: &Player,
        chart: &AttributeChart,
        bounds: &RatingBounds,
    ) -> (r: Option<Fraction>)
        ensures
            r == self.lw_rated(p, chart, bounds),
    {
        match self.w_attribute_score(p, chart) {
            Some(score) => Some(
                p.rating(bounds, score, bounds.worst_w, bounds.best_w).times(
                    p.position_rating(p.left_wing),
                ),
            ),
            None => None,
        }
    }

    /// The rating of the person as a right winger.
    pub fn rw_rating(
        &self,
        p: &Player,
        chart: &AttributeChart,
        bounds: &RatingBounds,
    ) -> (r: Option<Fraction>)
        ensures
            r == self.rw_rated(p, chart, bounds),
    {
        match self.w_attribute_score(p, chart) {
            Some(score) => Some(
                p.rating(bounds, score, bounds.worst_w, bounds.best_w).times(
                    p.position_rating(p.right_wing),
                ),
            ),
            None => None,
        }
    }

    /// The rating of the person as a goalkeeper, looked up in the save file: minus
    /// one for a skater, and `None` for a person who is no player, or
    /// where the chart does not show an attribute that counts.
    pub fn relative_gk_rating(
        &self,
        data: &Data,
        chart: &AttributeChart,
        bounds: &RatingBounds,
    ) -> (r: Option<Fraction>)
        requires
            data.wf(),
        ensures
            r == match data.spec_player(self.player_data_id) {
                Some(p) => if !p.goalie() {
                    Some(Fraction { num: -1i128, den: 1 })
                } else {
                    self.gk_rated(&p, chart, bounds)
                },
                None => None,
            },
    {
        match data.player(self.player_data_id) {
            Some(p) => if !p.is_goalie() {
                Some(Fraction { num: -1, den: 1 })
            } else {
                self.gk_rating(p, chart, bounds)
            },
            None => None,
        }
    }

    /// The rating of the person as a left defender, looked up in the save file: minus
    /// one for a goalkeeper, and `None` for a person who is no player, or
    /// where the chart does not show an attribute that counts.
    pub fn relative_ld_rating(
        &self,
        data: &Data,
        chart: &AttributeChart,
        bounds: &RatingBounds,
    ) -> (r: Option<Fraction>)
        requires
            data.wf(),
        ensures
            r == match data.spec_player(self.player_data_id) {
                Some(p) => if p.goalie() {
                    Some(Fraction { num: -1i128, den: 1 })
                } else {
                    self.ld_rated(&p, chart, bounds)
                },
                None => None,
            },
    {
        match data.player(self.player_data_id) {
            Some(p) => if p.is_goalie() {
                Some(Fraction { num: -1, den: 1 })
            } else {
                self.ld_rating(p, chart, bounds)
            },
            None => None,
        }
    }

    /// The rating of the person as a right defender, looked up in the save file: minus
    /// one for a goalkeeper, and `None` for a person who is no player, or
    /// where the chart does not show an attribute that counts.
    pub fn relative_rd_rating(
        &self,
        data: &Data,
        chart: &AttributeChart,
        bounds: &RatingBounds,
    ) -> (r: Option<Fraction>)
        requires
            data.wf(),
        ensures
            r == match data.spec_player(self.player_data_id) {
                Some(p) => if p.goalie() {
                    Some(Fraction { num: -1i128, den: 1 })
                } else {
                    self.rd_rated(&p, chart, bounds)
                },
                None => None,
            },
    {
        match data.player(self.player_data_id) {
            Some(p) => if p.is_goalie() {
                Some(Fraction { num: -1, den: 1 })
            } else {
                self.rd_rating(p, chart, bounds)
            },
            None => None,
        }
    }

    /// The rating of the person as a left winger, looked up in the save file: minus
    /// one for a goalkeeper, and `None` for a person who is no player, or
    /// where the chart does not show an attribute that counts.
    pub fn relative_lw_rating(
        &self,
        data: &Data,
        chart: &AttributeChart,
        bounds: &RatingBounds,
    ) -> (r: Option<Fraction>)
        requires
            data.wf(),
        ensures
            r == match data.spec_player(self.player_data_id) {
                Some(p) => if p.goalie() {
                    Some(Fraction { num: -1i128, den: 1 })
                } else {
                    self.lw_rated(&p, chart, bounds)
                },
                None => None,
            },
    {
        match data.player(self.player_data_id) {
            Some(p) => if p.is_goalie() {
                Some(Fraction { num: -1, den: 1 })
            } else {
                self.lw_rating(p, chart, bounds)
            },
            None => None,
        }
    }

    /// The rating of the person as a centre, looked up in the save file: minus
    /// one for a goalkeeper, and `None` for a person who is no player, or
    /// where the chart does not show an attribute that counts.
    pub fn relative_c_rating(
        &self,
        data: &Data,
        chart: &AttributeChart,
        bounds: &RatingBounds,
    ) -> (r: Option<Fraction>)
        requires
            data.wf(),
        ensures
            r == match data.spec_player(self.player_data_id) {
                Some(p) => if p.goalie() {
                    Some(Fraction { num: -1i128, den: 1 })
                } else {
                    self.c_rated(&p, chart, bounds)
                },
                None => None,
            },
    {
        match data.player(self.player_data_id) {
            Some(p) => if p.is_goalie() {
                Some(Fraction { num: -1, den: 1 })
            } else {
                self.c_rating(p, chart, bounds)
            },
            None => None,
        }
    }

    /// The rating of the person as a right winger, looked up in the save file: minus
    /// one for a goalkeeper, and `None` for a person who is no player, or
    /// where the chart does not show an attribute that counts.
    pub fn relative_rw_rating(
        &self,
        data: &Data,
        chart: &AttributeChart,
        bounds: &RatingBounds,
    ) -> (r: Option<Fraction>)
        requires
            data.wf(),
        ensures
            r == match data.spec_player(self.player_data_id) {
                Some(p) => if p.goalie() {
                    Some(Fraction { num: -1i128, den: 1 })
                } else {
                    self.rw_rated(&p, chart, bounds)
                },
                None => None,
            },
    {
        match data.player(self.player_data_id) {
            Some(p) => if p.is_goalie() {
                Some(Fraction { num: -1, den: 1 })
            } else {
                self.rw_rating(p, chart, bounds)
            },
            None => None,
        }
    }

}

} // verus!
