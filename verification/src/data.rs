//! The decoded save file: its records, its sections, and the look-ups from
//! the numbers that records refer to each other by.

pub mod arena;
pub mod city;
pub mod club;
pub mod colour;
pub mod competition;
pub mod competition_history;
pub mod continent;
pub mod currency;
pub mod date;
pub mod date_order;
pub mod draft;
pub mod injury;
pub mod name;
pub mod nation;
pub mod non_player;
pub mod official;
pub mod player;
pub mod record;
pub mod retired_number;
pub mod section;
pub mod staff;
pub mod staff_award;
pub mod staff_preferences;
pub mod stage_name;
pub mod state_province;
pub mod table;

use vstd::prelude::*;

use crate::data::city::City;
use crate::data::club::Club;
use crate::data::competition::Competition;
use crate::data::date::SIDate;
use crate::data::date_order::{earlier_of, later_of};
use crate::data::name::Name;
use crate::data::nation::Nation;
use crate::data::player::Player;
use crate::data::section::{Section, SectionKind};
use crate::data::staff::Staff;
use crate::data::state_province::StateProvince;
use crate::data::table::{last_with_key, lookup, Table};
use crate::globals::AttributeChart;
use crate::init::{
    FileIndex, FormatError, head_ok, Header, HEADER_LENGTH, index_bytes, INDEX_LENGTH, is_fault,
    loadable, read_file_indexes, section_bytes, section_count, section_in_range, table_end,
};
use crate::rating::{no_bounds, RatingBounds};
use crate::round_trip::lemma_written_file_loads;
use crate::to_bytes::{group_le_len, put_bytes};

verus! {

broadcast use group_le_len;

/// The width of a long text field. Like every width of a text field, it has
/// room for the NUL at the end.
pub const LONG_TEXT_LENGTH: usize = 101;

/// The width of a text field of the usual length.
pub const STANDARD_TEXT_LENGTH: usize = 51;

/// The width of a short text field.
pub const SHORT_TEXT_LENGTH: usize = 26;

/// The width of a text field of six letters.
pub const SIX_LETTER_TEXT_LENGTH: usize = 7;

/// The width of a very short text field.
pub const REAL_SHORT_TEXT_LENGTH: usize = 6;

/// The width of a text field of three letters.
pub const THREE_LETTER_TEXT_LENGTH: usize = 4;

/// The number that stands for "no reference".
pub const NO_REFERENCE: i32 = -1;

/// The number that stands for "any nation" in a query.
pub const ANY_NATION: i32 = -2;

/// A number that refers to no record of the save file.
#[derive(Clone, Copy, Debug, PartialEq, Eq, Structural)]
pub struct ReferenceError {
    /// The section in which the record was looked for.
    pub kind: SectionKind,
    /// The number that was looked up.
    pub id: i32,
}

/// A decoded save file: its header, the table of its sections, and what
/// each section holds, in the order of the table.
#[derive(Clone, Debug)]
pub struct Data {
    pub header: Header,
    pub file_indexes: Vec<FileIndex>,
    pub sections: Vec<Section>,
}

/// The place of the last section of a kind.
pub open spec fn last_of_kind(sections: Seq<Section>, kind: SectionKind) -> Option<int>
    decreases sections.len(),
{
    if sections.len() == 0 {
        None
    } else if sections.last().kind() == Some(kind) {
        Some(sections.len() - 1)
    } else {
        last_of_kind(sections.drop_last(), kind)
    }
}

/// The place of the last section of a kind.
pub fn find_section(sections: &Vec<Section>, kind: SectionKind) -> (r: Option<usize>)
    ensures
        match r {
            Some(i) => last_of_kind(sections@, kind) == Some(i as int) && i < sections@.len()
                && sections@[i as int].kind() == Some(kind),
            None => last_of_kind(sections@, kind) is None,
        },
{
    let mut i: usize = sections.len();
    assert(sections@.subrange(0, i as int) =~= sections@);
    while i > 0
        invariant
            i <= sections@.len(),
            last_of_kind(sections@, kind) == last_of_kind(sections@.subrange(0, i as int), kind),
        decreases i,
    {
        let ghost front = sections@.subrange(0, i as int);
        assert(front.last() == sections@[i - 1]);
        assert(front.drop_last() =~= sections@.subrange(0, i - 1));
        match sections[i - 1].which() {
            Some(k) => {
                if k == kind {
                    return Some(i - 1);
                }
            },
            None => {},
        }
        i -= 1;
    }
    None
}

/// The value of an attribute as the screen shows it, for a player with the
/// given current ability; `None` where the chart has no band for it.
pub fn convert_attribute(chart: &AttributeChart, current_ability: i16, attribute: i8) -> (r:
    Option<i8>)
    ensures
        r == chart.converted(current_ability, attribute),
{
    chart.convert(current_ability, attribute)
}

/// The persons among the first `n` of `staff` whom their numbers refer to:
/// those that no later person shares a number with.
pub open spec fn current_staff(staff: Seq<Staff>, n: int) -> Seq<Staff>
    decreases n,
{
    if n <= 0 {
        Seq::empty()
    } else if last_with_key(staff, staff[n - 1].id) == Some(n - 1) {
        current_staff(staff, n - 1).push(staff[n - 1])
    } else {
        current_staff(staff, n - 1)
    }
}

/// The bounds `b` with one more player: the current ability, and the score
/// as a goalkeeper for a goalkeeper, the scores as a defender, a winger and
/// a centre for a skater. `None` where the chart does not show an attribute
/// that counts.
pub open spec fn widened(b: RatingBounds, s: Staff, p: Player, chart: &AttributeChart) -> Option<
    RatingBounds,
> {
    if p.goalie() {
        match s.gk_score(&p, chart) {
            Some(gk) => Some(b.with_ability(p.current_ability).with_goalie(gk as i64)),
            None => None,
        }
    } else {
        match (s.d_score(&p, chart), s.w_score(&p, chart), s.c_score(&p, chart)) {
            (Some(d), Some(w), Some(c)) => Some(
                b.with_ability(p.current_ability).with_skater(d as i64, w as i64, c as i64),
            ),
            _ => None,
        }
    }
}

/// The range of dates `range`, made no wider than a person's window.
pub open spec fn narrowed(range: (SIDate, SIDate), window: Option<(SIDate, SIDate)>) -> (
    SIDate,
    SIDate,
) {
    match window {
        Some((first, last)) => (
            if range.0.before(&first) {
                first
            } else {
                range.0
            },
            if last.before(&range.1) {
                last
            } else {
                range.1
            },
        ),
        None => range,
    }
}

/// The range of all dates.
pub open spec fn all_dates() -> (SIDate, SIDate) {
    (
        SIDate { day: i16::MIN, year: i16::MIN, b_is_leap_year: 0 },
        SIDate { day: i16::MAX, year: i16::MAX, b_is_leap_year: 0 },
    )
}

/// Where section `i` starts when the sections follow one another from
/// `first` on.
pub open spec fn offset_of(first: int, sections: Seq<Section>, i: int) -> int
    decreases i,
{
    if i <= 0 {
        first
    } else {
        offset_of(first, sections, i - 1) + sections[i - 1].encoding().len()
    }
}

/// The bytes of the sections, one after the other.
pub open spec fn concat_sections(sections: Seq<Section>) -> Seq<u8>
    decreases sections.len(),
{
    if sections.len() == 0 {
        Seq::empty()
    } else {
        concat_sections(sections.drop_last()) + sections.last().encoding()
    }
}

/// The bytes of the table of sections.
pub open spec fn encode_indexes(indexes: Seq<FileIndex>) -> Seq<u8>
    decreases indexes.len(),
{
    if indexes.len() == 0 {
        Seq::empty()
    } else {
        encode_indexes(indexes.drop_last()) + indexes.last().encoding()
    }
}

/// `n` NUL bytes; none where `n` is negative.
pub open spec fn zeros(n: int) -> Seq<u8> {
    Seq::new(
        if n < 0 {
            0
        } else {
            n as nat
        },
        |i: int| 0u8,
    )
}

impl Data {
    /// There is a section to every entry of the table, of the kind that the
    /// entry's name stands for, and the header counts them.
    pub open spec fn wf(&self) -> bool {
        &&& self.file_indexes@.len() == self.header.count()
        &&& self.sections@.len() == self.file_indexes@.len()
        &&& forall|i: int|
            0 <= i < self.sections@.len() ==> {
                &&& (#[trigger] self.sections@[i]).wf()
                &&& self.sections@[i].kind() == self.file_indexes@[i].kind()
            }
    }

    /// Whether the header and the table of sections are those of `bytes`.
    pub open spec fn head_decoded_from(&self, bytes: Seq<u8>) -> bool {
        &&& head_ok(bytes)
        &&& self.header.encoding() == bytes.subrange(0, HEADER_LENGTH as int)
        &&& self.header.count() == section_count(bytes)
        &&& self.file_indexes@.len() == section_count(bytes)
        &&& forall|i: int|
            0 <= i < self.file_indexes@.len() ==> (#[trigger] self.file_indexes@[i]).encoding()
                == index_bytes(bytes, i)
    }

    /// Whether this is what `bytes` decodes to.
    pub open spec fn decoded_from(&self, bytes: Seq<u8>) -> bool {
        &&& self.head_decoded_from(bytes)
        &&& self.sections@.len() == section_count(bytes)
        &&& forall|i: int|
            0 <= i < self.sections@.len() ==> {
                &&& section_in_range(bytes, i)
                &&& (#[trigger] self.sections@[i]).encoding() == section_bytes(bytes, i)
            }
    }

    /// The section of the persons: the last of its name.
    pub open spec fn spec_staff(&self) -> Option<Table<Staff>> {
        match last_of_kind(self.sections@, SectionKind::Staff) {
            Some(i) => match self.sections@[i] {
                Section::Staff(t) => Some(t),
                _ => None,
            },
            None => None,
        }
    }

    /// The person that `id` refers to. The number -1 refers to nothing.
    pub open spec fn spec_person(&self, id: i32) -> Option<Staff> {
        match self.spec_staff() {
            Some(t) => if id == NO_REFERENCE {
                None
            } else {
                lookup(t@, id)
            },
            None => None,
        }
    }

    /// The section of the persons: the last of its name.
    pub fn staff(&self) -> (r: Option<&Table<Staff>>)
        requires
            self.wf(),
        ensures
            r == match self.spec_staff() {
                Some(t) => Some(&t),
                None => None,
            },
            r matches Some(t) ==> t.wf(),
    {
        match find_section(&self.sections, SectionKind::Staff) {
            Some(i) => match &self.sections[i] {
                Section::Staff(t) => Some(t),
                _ => None,
            },
            None => None,
        }
    }

    /// The person that `id` refers to. The number -1 refers to nothing.
    pub fn person(&self, id: i32) -> (r: Option<&Staff>)
        requires
            self.wf(),
        ensures
            r == match self.spec_person(id) {
                Some(rec) => Some(&rec),
                None => None,
            },
    {
        match self.staff() {
            Some(t) => if id == NO_REFERENCE {
                None
            } else {
                t.get(id)
            },
            None => None,
        }
    }

    /// The section of what the persons are as players: the last of its name.
    pub open spec fn spec_players(&self) -> Option<Table<Player>> {
        match last_of_kind(self.sections@, SectionKind::Player) {
            Some(i) => match self.sections@[i] {
                Section::Players(t) => Some(t),
                _ => None,
            },
            None => None,
        }
    }

    /// The record of a player that `id` refers to. The number -1 refers to
    /// nothing.
    pub open spec fn spec_player(&self, id: i32) -> Option<Player> {
        match self.spec_players() {
            Some(t) => if id == NO_REFERENCE {
                None
            } else {
                lookup(t@, id)
            },
            None => None,
        }
    }

    /// The section of what the persons are as players: the last of its name.
    pub fn players(&self) -> (r: Option<&Table<Player>>)
        requires
            self.wf(),
        ensures
            r == match self.spec_players() {
                Some(t) => Some(&t),
                None => None,
            },
            r matches Some(t) ==> t.wf(),
    {
        match find_section(&self.sections, SectionKind::Player) {
            Some(i) => match &self.sections[i] {
                Section::Players(t) => Some(t),
                _ => None,
            },
            None => None,
        }
    }

    /// The record of a player that `id` refers to. The number -1 refers to
    /// nothing.
    pub fn player(&self, id: i32) -> (r: Option<&Player>)
        requires
            self.wf(),
        ensures
            r == match self.spec_player(id) {
                Some(rec) => Some(&rec),
                None => None,
            },
    {
        match self.players() {
            Some(t) => if id == NO_REFERENCE {
                None
            } else {
                t.get(id)
            },
            None => None,
        }
    }

    /// The section of the nations: the last of its name.
    pub open spec fn spec_nations(&self) -> Option<Table<Nation>> {
        match last_of_kind(self.sections@, SectionKind::Nation) {
            Some(i) => match self.sections@[i] {
                Section::Nations(t) => Some(t),
                _ => None,
            },
            None => None,
        }
    }

    /// The nation that `id` refers to. The number -1 refers to nothing.
    pub open spec fn spec_nation(&self, id: i32) -> Option<Nation> {
        match self.spec_nations() {
            Some(t) => if id == NO_REFERENCE {
                None
            } else {
                lookup(t@, id)
            },
            None => None,
        }
    }

    /// The section of the nations: the last of its name.
    pub fn nations(&self) -> (r: Option<&Table<Nation>>)
        requires
            self.wf(),
        ensures
            r == match self.spec_nations() {
                Some(t) => Some(&t),
                None => None,
            },
            r matches Some(t) ==> t.wf(),
    {
        match find_section(&self.sections, SectionKind::Nation) {
            Some(i) => match &self.sections[i] {
                Section::Nations(t) => Some(t),
                _ => None,
            },
            None => None,
        }
    }

    /// The nation that `id` refers to. The number -1 refers to nothing.
    pub fn nation(&self, id: i32) -> (r: Option<&Nation>)
        requires
            self.wf(),
        ensures
            r == match self.spec_nation(id) {
                Some(rec) => Some(&rec),
                None => None,
            },
    {
        match self.nations() {
            Some(t) => if id == NO_REFERENCE {
                None
            } else {
                t.get(id)
            },
            None => None,
        }
    }

    /// The section of the clubs: the last of its name.
    pub open spec fn spec_clubs(&self) -> Option<Table<Club>> {
        match last_of_kind(self.sections@, SectionKind::Club) {
            Some(i) => match self.sections@[i] {
                Section::Clubs(t) => Some(t),
                _ => None,
            },
            None => None,
        }
    }

    /// The club that `id` refers to. The number -1 refers to nothing.
    pub open spec fn spec_club(&self, id: i32) -> Option<Club> {
        match self.spec_clubs() {
            Some(t) => if id == NO_REFERENCE {
                None
            } else {
                lookup(t@, id)
            },
            None => None,
        }
    }

    /// The section of the clubs: the last of its name.
    pub fn clubs(&self) -> (r: Option<&Table<Club>>)
        requires
            self.wf(),
        ensures
            r == match self.spec_clubs() {
                Some(t) => Some(&t),
                None => None,
            },
            r matches Some(t) ==> t.wf(),
    {
        match find_section(&self.sections, SectionKind::Club) {
            Some(i) => match &self.sections[i] {
                Section::Clubs(t) => Some(t),
                _ => None,
            },
            None => None,
        }
    }

    /// The club that `id` refers to. The number -1 refers to nothing.
    pub fn club(&self, id: i32) -> (r: Option<&Club>)
        requires
            self.wf(),
        ensures
            r == match self.spec_club(id) {
                Some(rec) => Some(&rec),
                None => None,
            },
    {
        match self.clubs() {
            Some(t) => if id == NO_REFERENCE {
                None
            } else {
                t.get(id)
            },
            None => None,
        }
    }

    /// The section of the competitions of clubs: the last of its name.
    pub open spec fn spec_competitions(&self) -> Option<Table<Competition>> {
        match last_of_kind(self.sections@, SectionKind::Competition) {
            Some(i) => match self.sections@[i] {
                Section::Competitions(t) => Some(t),
                _ => None,
            },
            None => None,
        }
    }

    /// The competition that `id` refers to. The number -1 refers to nothing.
    pub open spec fn spec_competition(&self, id: i32) -> Option<Competition> {
        match self.spec_competitions() {
            Some(t) => if id == NO_REFERENCE {
                None
            } else {
                lookup(t@, id)
            },
            None => None,
        }
    }

    /// The section of the competitions of clubs: the last of its name.
    pub fn competitions(&self) -> (r: Option<&Table<Competition>>)
        requires
            self.wf(),
        ensures
            r == match self.spec_competitions() {
                Some(t) => Some(&t),
                None => None,
            },
            r matches Some(t) ==> t.wf(),
    {
        match find_section(&self.sections, SectionKind::Competition) {
            Some(i) => match &self.sections[i] {
                Section::Competitions(t) => Some(t),
                _ => None,
            },
            None => None,
        }
    }

    /// The competition that `id` refers to. The number -1 refers to nothing.
    pub fn competition(&self, id: i32) -> (r: Option<&Competition>)
        requires
            self.wf(),
        ensures
            r == match self.spec_competition(id) {
                Some(rec) => Some(&rec),
                None => None,
            },
    {
        match self.competitions() {
            Some(t) => if id == NO_REFERENCE {
                None
            } else {
                t.get(id)
            },
            None => None,
        }
    }

    /// The section of the forenames: the last of its name.
    pub open spec fn spec_forenames(&self) -> Option<Table<Name>> {
        match last_of_kind(self.sections@, SectionKind::Forename) {
            Some(i) => match self.sections@[i] {
                Section::Forenames(t) => Some(t),
                _ => None,
            },
            None => None,
        }
    }

    /// The forename that `id` refers to. The number -1 refers to nothing.
    pub open spec fn spec_forename(&self, id: i32) -> Option<Name> {
        match self.spec_forenames() {
            Some(t) => if id == NO_REFERENCE {
                None
            } else {
                lookup(t@, id)
            },
            None => None,
        }
    }

    /// The section of the forenames: the last of its name.
    pub fn forenames(&self) -> (r: Option<&Table<Name>>)
        requires
            self.wf(),
        ensures
            r == match self.spec_forenames() {
                Some(t) => Some(&t),
                None => None,
            },
            r matches Some(t) ==> t.wf(),
    {
        match find_section(&self.sections, SectionKind::Forename) {
            Some(i) => match &self.sections[i] {
                Section::Forenames(t) => Some(t),
                _ => None,
            },
            None => None,
        }
    }

    /// The forename that `id` refers to. The number -1 refers to nothing.
    pub fn forename(&self, id: i32) -> (r: Option<&Name>)
        requires
            self.wf(),
        ensures
            r == match self.spec_forename(id) {
                Some(rec) => Some(&rec),
                None => None,
            },
    {
        match self.forenames() {
            Some(t) => if id == NO_REFERENCE {
                None
            } else {
                t.get(id)
            },
            None => None,
        }
    }

    /// The section of the surnames: the last of its name.
    pub open spec fn spec_surnames(&self) -> Option<Table<Name>> {
        match last_of_kind(self.sections@, SectionKind::Surname) {
            Some(i) => match self.sections@[i] {
                Section::Surnames(t) => Some(t),
                _ => None,
            },
            None => None,
        }
    }

    /// The surname that `id` refers to. The number -1 refers to nothing.
    pub open spec fn spec_surname(&self, id: i32) -> Option<Name> {
        match self.spec_surnames() {
            Some(t) => if id == NO_REFERENCE {
                None
            } else {
                lookup(t@, id)
            },
            None => None,
        }
    }

    /// The section of the surnames: the last of its name.
    pub fn surnames(&self) -> (r: Option<&Table<Name>>)
        requires
            self.wf(),
        ensures
            r == match self.spec_surnames() {
                Some(t) => Some(&t),
                None => None,
            },
            r matches Some(t) ==> t.wf(),
    {
        match find_section(&self.sections, SectionKind::Surname) {
            Some(i) => match &self.sections[i] {
                Section::Surnames(t) => Some(t),
                _ => None,
            },
            None => None,
        }
    }

    /// The surname that `id` refers to. The number -1 refers to nothing.
    pub fn surname(&self, id: i32) -> (r: Option<&Name>)
        requires
            self.wf(),
        ensures
            r == match self.spec_surname(id) {
                Some(rec) => Some(&rec),
                None => None,
            },
    {
        match self.surnames() {
            Some(t) => if id == NO_REFERENCE {
                None
            } else {
                t.get(id)
            },
            None => None,
        }
    }

    /// The section of the cities: the last of its name.
    pub open spec fn spec_cities(&self) -> Option<Table<City>> {
        match last_of_kind(self.sections@, SectionKind::City) {
            Some(i) => match self.sections@[i] {
                Section::Cities(t) => Some(t),
                _ => None,
            },
            None => None,
        }
    }

    /// The city that `id` refers to. The number -1 refers to nothing.
    pub open spec fn spec_city(&self, id: i32) -> Option<City> {
        match self.spec_cities() {
            Some(t) => if id == NO_REFERENCE {
                None
            } else {
                lookup(t@, id)
            },
            None => None,
        }
    }

    /// The section of the cities: the last of its name.
    pub fn cities(&self) -> (r: Option<&Table<City>>)
        requires
            self.wf(),
        ensures
            r == match self.spec_cities() {
                Some(t) => Some(&t),
                None => None,
            },
            r matches Some(t) ==> t.wf(),
    {
        match find_section(&self.sections, SectionKind::City) {
            Some(i) => match &self.sections[i] {
                Section::Cities(t) => Some(t),
                _ => None,
            },
            None => None,
        }
    }

    /// The city that `id` refers to. The number -1 refers to nothing.
    pub fn city(&self, id: i32) -> (r: Option<&City>)
        requires
            self.wf(),
        ensures
            r == match self.spec_city(id) {
                Some(rec) => Some(&rec),
                None => None,
            },
    {
        match self.cities() {
            Some(t) => if id == NO_REFERENCE {
                None
            } else {
                t.get(id)
            },
            None => None,
        }
    }

    /// The section of the states and provinces: the last of its name.
    pub open spec fn spec_states_provinces(&self) -> Option<Table<StateProvince>> {
        match last_of_kind(self.sections@, SectionKind::StateProvince) {
            Some(i) => match self.sections@[i] {
                Section::StatesProvinces(t) => Some(t),
                _ => None,
            },
            None => None,
        }
    }

    /// The state or province that `id` refers to. The number -1 refers to nothing.
    pub open spec fn spec_state_province(&self, id: i32) -> Option<StateProvince> {
        match self.spec_states_provinces() {
            Some(t) => if id == NO_REFERENCE {
                None
            } else {
                lookup(t@, id)
            },
            None => None,
        }
    }

    /// The section of the states and provinces: the last of its name.
    pub fn states_provinces(&self) -> (r: Option<&Table<StateProvince>>)
        requires
            self.wf(),
        ensures
            r == match self.spec_states_provinces() {
                Some(t) => Some(&t),
                None => None,
            },
            r matches Some(t) ==> t.wf(),
    {
        match find_section(&self.sections, SectionKind::StateProvince) {
            Some(i) => match &self.sections[i] {
                Section::StatesProvinces(t) => Some(t),
                _ => None,
            },
            None => None,
        }
    }

    /// The state or province that `id` refers to. The number -1 refers to nothing.
    pub fn state_province(&self, id: i32) -> (r: Option<&StateProvince>)
        requires
            self.wf(),
        ensures
            r == match self.spec_state_province(id) {
                Some(rec) => Some(&rec),
                None => None,
            },
    {
        match self.states_provinces() {
            Some(t) => if id == NO_REFERENCE {
                None
            } else {
                t.get(id)
            },
            None => None,
        }
    }

    /// The records of the players: those of the last section of its name.
    pub open spec fn player_rows(&self) -> Seq<Player> {
        match self.spec_players() {
            Some(t) => t@,
            None => Seq::empty(),
        }
    }

    /// Whether the sections of `other` are of the same kinds as those of
    /// `self`, and all but the players hold the same.
    pub open spec fn same_but_players(&self, other: &Data) -> bool {
        &&& other.sections@.len() == self.sections@.len()
        &&& forall|i: int|
            0 <= i < self.sections@.len() ==> (#[trigger] other.sections@[i]).kind()
                == self.sections@[i].kind()
        &&& forall|i: int|
            0 <= i < self.sections@.len() && self.sections@[i].kind() != Some(
                SectionKind::Player,
            ) ==> #[trigger] other.sections@[i] == self.sections@[i]
    }

    /// Puts a player in the place of the one that the player's number
    /// refers to. Returns whether there was such a player; nothing is
    /// changed where there was none.
    pub fn store_player(&mut self, player: Player) -> (stored: bool)
        requires
            old(self).wf(),
        ensures
            final(self).wf(),
            final(self).header == old(self).header,
            final(self).file_indexes@ == old(self).file_indexes@,
            final(self).sections@.len() == old(self).sections@.len(),
            stored == (old(self).spec_player(player.id) is Some),
            !stored ==> final(self).sections@ == old(self).sections@,
            stored ==> final(self).spec_player(player.id) == Some(player),
            stored ==> final(self).player_rows() == old(self).player_rows().update(
                last_with_key(old(self).player_rows(), player.id).unwrap(),
                player,
            ),
            old(self).same_but_players(final(self)),
            forall|i: int|
                0 <= i < old(self).sections@.len() && Some(i) != last_of_kind(
                    old(self).sections@,
                    SectionKind::Player,
                ) ==> #[trigger] final(self).sections@[i] == old(self).sections@[i],
    {
        if player.id == NO_REFERENCE {
            return false;
        }
        let at = match find_section(&self.sections, SectionKind::Player) {
            Some(at) => at,
            None => return false,
        };
        let place = match &self.sections[at] {
            Section::Players(t) => match t.place(player.id) {
                Some(place) => place,
                None => return false,
            },
            _ => return false,
        };
        let old_section = self.sections.remove(at);
        let new_section = match old_section {
            Section::Players(mut t) => {
                proof {
                    crate::data::table::lemma_last_with_key(t@, player.id);
                }
                let ghost rows = t@;
                t.replace(place, player);
                proof {
                    assert(last_with_key(t@, player.id) == last_with_key(rows, player.id));
                }
                Section::Players(t)
            },
            other => other,
        };
        self.sections.insert(at, new_section);
        proof {
            let before = old(self).sections@;
            let after = self.sections@;
            assert(after.len() == before.len());
            assert forall|i: int| 0 <= i < after.len() implies (#[trigger] after[i]).kind()
                == before[i].kind() && after[i].wf() && (i != at ==> after[i] == before[i]) by {
                if i < at {
                    assert(after[i] == before[i]);
                } else if i > at {
                    assert(after[i] == before[i]);
                }
            }
            lemma_last_of_kind_same(before, after, SectionKind::Player);
            assert(after[at as int] == new_section);
            assert(before[at as int].kind() == Some(SectionKind::Player));
        }
        true
    }

    /// The bounds of the players among `people`, taken one after the other.
    /// `None` where the chart does not show an attribute that counts for
    /// one of them.
    pub open spec fn bounds_of(&self, people: Seq<Staff>, chart: &AttributeChart) -> Option<
        RatingBounds,
    >
        decreases people.len(),
    {
        if people.len() == 0 {
            Some(no_bounds())
        } else {
            match self.bounds_of(people.drop_last(), chart) {
                Some(b) => match self.spec_player(people.last().player_data_id) {
                    Some(p) => widened(b, people.last(), p, chart),
                    None => Some(b),
                },
                None => None,
            }
        }
    }

    /// The dates on which every one of `people` has the age that the save
    /// file gives: from the latest of the first days to the earliest of the
    /// last. A person whose days lie in years that cannot be stored is
    /// passed over.
    pub open spec fn date_range_of(people: Seq<Staff>) -> (SIDate, SIDate)
        decreases people.len(),
    {
        if people.len() == 0 {
            all_dates()
        } else {
            narrowed(Self::date_range_of(people.drop_last()), people.last().age_window())
        }
    }

    /// The persons of the save file, each once.
    pub open spec fn people(&self) -> Seq<Staff> {
        match self.spec_staff() {
            Some(t) => current_staff(t@, t@.len() as int),
            None => Seq::empty(),
        }
    }

    /// The highest and the lowest that the players of the save file reach.
    ///
    /// Every person who is a player counts once. `None` where the chart
    /// does not show an attribute that counts for one of them.
    pub fn calculate_rating_boundaries(&self, chart: &AttributeChart) -> (r: Option<RatingBounds>)
        requires
            self.wf(),
        ensures
            r == self.bounds_of(self.people(), chart),
    {
        let mut bounds = RatingBounds::new();
        let staff = match self.staff() {
            Some(t) => t,
            None => return Some(bounds),
        };
        let n = staff.len();
        let mut i: usize = 0;
        while i < n
            invariant
                i <= n,
                n == staff@.len(),
                staff.wf(),
                self.wf(),
                self.people() == current_staff(staff@, n as int),
                self.bounds_of(current_staff(staff@, i as int), chart) == Some(bounds),
            decreases n - i,
        {
            let person = staff.row(i);
            let ghost before = current_staff(staff@, i as int);
            if staff.is_current(i) {
                assert(current_staff(staff@, i + 1).drop_last() =~= before);
                assert(current_staff(staff@, i + 1).last() == *person);
                match self.player(person.player_data_id) {
                    Some(p) => {
                        bounds.add_ability(p.current_ability);
                        if p.is_goalie() {
                            match person.gk_attribute_score(p, chart) {
                                Some(gk) => bounds.add_goalie(gk),
                                None => {
                                    proof {
                                        assert(self.bounds_of(
                                            current_staff(staff@, i + 1),
                                            chart,
                                        ) is None);
                                        self.lemma_bounds_stay_none(staff@, i + 1, n as int, chart);
                                    }
                                    return None;
                                },
                            }
                        } else {
                            let d = person.d_attribute_score(p, chart);
                            let w = person.w_attribute_score(p, chart);
                            let c = person.c_attribute_score(p, chart);
                            match (d, w, c) {
                                (Some(d), Some(w), Some(c)) => bounds.add_skater(d, w, c),
                                _ => {
                                    proof {
                                        assert(self.bounds_of(
                                            current_staff(staff@, i + 1),
                                            chart,
                                        ) is None);
                                        self.lemma_bounds_stay_none(staff@, i + 1, n as int, chart);
                                    }
                                    return None;
                                },
                            }
                        }
                    },
                    None => {},
                }
            }
            i += 1;
        }
        Some(bounds)
    }

    /// The dates on which the save file may have been written: those on
    /// which every person has the age that the file gives.
    pub fn calculate_ingame_date(&self) -> (r: (SIDate, SIDate))
        requires
            self.wf(),
        ensures
            r == Self::date_range_of(self.people()),
    {
        let mut earliest = SIDate { day: i16::MIN, year: i16::MIN, b_is_leap_year: 0 };
        let mut latest = SIDate { day: i16::MAX, year: i16::MAX, b_is_leap_year: 0 };
        let staff = match self.staff() {
            Some(t) => t,
            None => return (earliest, latest),
        };
        let n = staff.len();
        let mut i: usize = 0;
        while i < n
            invariant
                i <= n,
                n == staff@.len(),
                staff.wf(),
                self.people() == current_staff(staff@, n as int),
                Self::date_range_of(current_staff(staff@, i as int)) == (earliest, latest),
            decreases n - i,
        {
            let ghost before = current_staff(staff@, i as int);
            if staff.is_current(i) {
                assert(current_staff(staff@, i + 1).drop_last() =~= before);
                assert(current_staff(staff@, i + 1).last() == staff@[i as int]);
                match staff.row(i).dates_with_this_age() {
                    Some((first, last)) => {
                        earliest = later_of(earliest, first);
                        latest = earlier_of(latest, last);
                    },
                    None => {},
                }
            }
            i += 1;
        }
        (earliest, latest)
    }

    /// Of one player alone, the best and the worst are the same: in current
    /// ability, and in the score of every class that the player stands in,
    /// which for a goalkeeper is that of the goalkeepers, and for a skater
    /// those of the defenders, the wingers and the centres.
    pub proof fn lemma_bounds_of_one(&self, s: Staff, chart: &AttributeChart)
        ensures
            match (self.spec_player(s.player_data_id), self.bounds_of(seq![s], chart)) {
                (Some(p), Some(b)) => {
                    &&& b.best_ca == p.current_ability
                    &&& b.worst_ca == p.current_ability
                    &&& p.goalie() ==> {
                        &&& s.gk_score(&p, chart) == Some(b.best_gk as int)
                        &&& b.worst_gk == b.best_gk
                    }
                    &&& !p.goalie() ==> {
                        &&& s.d_score(&p, chart) == Some(b.best_d as int)
                        &&& b.worst_d == b.best_d
                        &&& s.w_score(&p, chart) == Some(b.best_w as int)
                        &&& b.worst_w == b.best_w
                        &&& s.c_score(&p, chart) == Some(b.best_c as int)
                        &&& b.worst_c == b.best_c
                    }
                },
                (Some(p), None) => if p.goalie() {
                    s.gk_score(&p, chart) is None
                } else {
                    s.d_score(&p, chart) is None || s.w_score(&p, chart) is None || s.c_score(
                        &p,
                        chart,
                    ) is None
                },
                (None, b) => b == Some(no_bounds()),
            },
    {
        let people = seq![s];
        if let Some(p) = self.spec_player(s.player_data_id) {
            s.lemma_gk_score_small(&p, chart);
            s.lemma_d_score_small(&p, chart);
            s.lemma_w_score_small(&p, chart);
            s.lemma_c_score_small(&p, chart);
        }
        assert(people.drop_last() =~= Seq::<Staff>::empty());
        assert(people.last() == s);
        assert(self.bounds_of(people.drop_last(), chart) == Some(no_bounds()));
    }

    /// Once the bounds cannot be had, more persons do not bring them back.
    pub proof fn lemma_bounds_stay_none(
        &self,
        staff: Seq<Staff>,
        i: int,
        n: int,
        chart: &AttributeChart,
    )
        requires
            0 <= i <= n,
            self.bounds_of(current_staff(staff, i), chart) is None,
        ensures
            self.bounds_of(current_staff(staff, n), chart) is None,
        decreases n - i,
    {
        if i < n {
            self.lemma_bounds_stay_none(staff, i, n - 1, chart);
            if last_with_key(staff, staff[n - 1].id) == Some(n - 1) {
                assert(current_staff(staff, n).drop_last() =~= current_staff(staff, n - 1));
            }
        }
    }

    /// Where the first section starts; the end of the header where there is
    /// no section.
    pub open spec fn first_start(&self) -> int {
        if self.file_indexes@.len() == 0 {
            HEADER_LENGTH as int
        } else {
            self.file_indexes@[0].start_position as int
        }
    }

    /// Whether the file can be written: the first section starts after the
    /// table of sections, and the last ends where an offset can still say
    /// so.
    pub open spec fn fits(&self) -> bool {
        &&& table_end(self.sections@.len() as int) <= self.first_start()
        &&& offset_of(self.first_start(), self.sections@, self.sections@.len() as int)
            <= u32::MAX
    }

    /// Whether the table of sections says where the sections lie when they
    /// follow one another, and how long they are.
    pub open spec fn laid_out(&self) -> bool {
        forall|i: int|
            0 <= i < self.file_indexes@.len() ==> {
                &&& (#[trigger] self.file_indexes@[i]).start_position == offset_of(
                    self.first_start(),
                    self.sections@,
                    i,
                )
                &&& self.file_indexes@[i].size == self.sections@[i].encoding().len()
            }
    }

    /// The bytes of the file: the header, the table of sections, NUL bytes
    /// up to the start of the first section, and the sections.
    pub open spec fn file_bytes(&self) -> Seq<u8> {
        self.header.encoding() + encode_indexes(self.file_indexes@) + zeros(
            self.first_start() - table_end(self.sections@.len() as int),
        ) + concat_sections(self.sections@)
    }

    /// Encodes the save file.
    ///
    /// The sections are written in the order of the table, one after the
    /// other from where the first one started, and the table is brought up
    /// to date: every entry keeps its name and gets the place and the
    /// length that its section now has. What is written is a save file
    /// that can be read again. Fails, and changes nothing, where the file
    /// cannot be written.
    pub fn save_file(&mut self) -> (r: Result<Vec<u8>, FormatError>)
        requires
            old(self).wf(),
        ensures
            final(self).header == old(self).header,
            final(self).sections@ == old(self).sections@,
            final(self).file_indexes@.len() == old(self).file_indexes@.len(),
            forall|i: int|
                0 <= i < old(self).file_indexes@.len() ==> (#[trigger] final(
                    self
                ).file_indexes@[i]).b_name == old(self).file_indexes@[i].b_name,
            final(self).first_start() == old(self).first_start(),
            r.is_ok() <==> old(self).fits(),
            r matches Ok(out) ==> {
                &&& final(self).wf()
                &&& final(self).laid_out()
                &&& out@ == final(self).file_bytes()
                &&& loadable(out@)
            },
            r matches Err(e) ==> e == FormatError::Layout && final(self).file_indexes@ == old(
                self
            ).file_indexes@,
    {
        let n = self.sections.len();
        let first: u32 = if n == 0 {
            HEADER_LENGTH as u32
        } else {
            self.file_indexes[0].start_position
        };
        let table: u64 = HEADER_LENGTH as u64 + INDEX_LENGTH as u64 * (n as u64);
        if (first as u64) < table {
            return Err(FormatError::Layout);
        }
        let mut content: Vec<u8> = Vec::new();
        let mut indexes: Vec<FileIndex> = Vec::new();
        let mut total: u32 = first;
        let mut i: usize = 0;
        assert(self.sections@.subrange(0, 0) =~= Seq::<Section>::empty());
        while i < n
            invariant
                i <= n,
                n == self.sections@.len(),
                n == self.file_indexes@.len(),
                *self == *old(self),
                first == self.first_start(),
                total == offset_of(first as int, self.sections@, i as int),
                indexes@.len() == i,
                content@ == concat_sections(self.sections@.subrange(0, i as int)),
                forall|k: int|
                    0 <= k < i ==> {
                        &&& (#[trigger] indexes@[k]).b_name == self.file_indexes@[k].b_name
                        &&& indexes@[k].start_position == offset_of(
                            first as int,
                            self.sections@,
                            k,
                        )
                        &&& indexes@[k].size == self.sections@[k].encoding().len()
                    },
            decreases n - i,
        {
            let bin = self.sections[i].to_bytes();
            let size = bin.len();
            if size as u64 > (u32::MAX - total) as u64 {
                proof {
                    lemma_offset_of_monotonic(first as int, self.sections@, i + 1, n as int);
                }
                return Err(FormatError::Layout);
            }
            let ghost before = indexes@;
            indexes.push(
                FileIndex {
                    start_position: total,
                    size: size as u32,
                    b_name: self.file_indexes[i].b_name,
                },
            );
            put_bytes(&mut content, bin.as_slice());
            total = total + size as u32;
            proof {
                let next = self.sections@.subrange(0, i + 1);
                assert(next.drop_last() =~= self.sections@.subrange(0, i as int));
                assert(next.last() == self.sections@[i as int]);
                assert forall|k: int| 0 <= k < i + 1 implies {
                    &&& (#[trigger] indexes@[k]).b_name == self.file_indexes@[k].b_name
                    &&& indexes@[k].start_position == offset_of(
                        first as int,
                        self.sections@,
                        k,
                    )
                    &&& indexes@[k].size == self.sections@[k].encoding().len()
                } by {
                    if k < i {
                        assert(indexes@[k] == before[k]);
                    }
                }
            }
            i += 1;
        }
        assert(self.sections@.subrange(0, n as int) =~= self.sections@);
        let mut out = self.header._to_bytes();
        let ghost head = out@;
        let mut j: usize = 0;
        assert(indexes@.subrange(0, 0) =~= Seq::<FileIndex>::empty());
        assert(out@ =~= head + encode_indexes(indexes@.subrange(0, 0)));
        while j < n
            invariant
                j <= n,
                n == indexes@.len(),
                out@ == head + encode_indexes(indexes@.subrange(0, j as int)),
                out@.len() == table_end(j as int),
                head.len() == HEADER_LENGTH,
            decreases n - j,
        {
            let entry = indexes[j]._to_bytes();
            put_bytes(&mut out, entry.as_slice());
            proof {
                let next = indexes@.subrange(0, j + 1);
                assert(next.drop_last() =~= indexes@.subrange(0, j as int));
                assert(next.last() == indexes@[j as int]);
                assert((head + encode_indexes(next.drop_last())) + next.last().encoding() =~= head
                    + encode_indexes(next));
            }
            j += 1;
        }
        assert(indexes@.subrange(0, n as int) =~= indexes@);
        let ghost tabled = out@;
        while out.len() < first as usize
            invariant
                tabled.len() <= out@.len() <= first,
                out@ == tabled + zeros(out@.len() - tabled.len()),
            decreases first - out@.len(),
        {
            out.push(0);
            assert(out@ =~= tabled + zeros(out@.len() - tabled.len()));
        }
        put_bytes(&mut out, content.as_slice());
        self.file_indexes = indexes;
        proof {
            assert(self.first_start() == first);
            assert forall|k: int| 0 <= k < self.sections@.len() implies {
                &&& (#[trigger] self.sections@[k]).wf()
                &&& self.sections@[k].kind() == self.file_indexes@[k].kind()
            } by {
                assert(old(self).sections@[k].kind() == old(self).file_indexes@[k].kind());
                assert(self.file_indexes@[k].b_name == old(self).file_indexes@[k].b_name);
            }
            assert(self.laid_out());
            assert(self.fits());
            lemma_written_file_loads(*self);
        }
        Ok(out)
    }

    /// Reads the header and the table of sections. The sections themselves
    /// are not yet decoded.
    pub fn initialise(bytes: &[u8]) -> (r: Result<Data, FormatError>)
        ensures
            r.is_ok() <==> head_ok(bytes@),
            r matches Ok(d) ==> d.head_decoded_from(bytes@) && d.sections@.len() == 0,
            r matches Err(e) ==> is_fault(bytes@, e),
    {
        match Header::parse(bytes) {
            Some(header) => match read_file_indexes(bytes, &header) {
                Ok(file_indexes) => Ok(Data { header, file_indexes, sections: Vec::new() }),
                Err(e) => Err(e),
            },
            None => Err(FormatError::Header),
        }
    }
}

/// What is looked up in a save file is the same in another whose sections
/// are of the same kinds and hold the same, but for the players.
pub proof fn lemma_same_but_players(a: &Data, b: &Data)
    requires
        a.same_but_players(b),
    ensures
        forall|id: i32| #[trigger] b.spec_person(id) == a.spec_person(id),
        forall|id: i32| #[trigger] b.spec_nation(id) == a.spec_nation(id),
        forall|id: i32| #[trigger] b.spec_club(id) == a.spec_club(id),
        forall|id: i32| #[trigger] b.spec_competition(id) == a.spec_competition(id),
        forall|id: i32| #[trigger] b.spec_forename(id) == a.spec_forename(id),
        forall|id: i32| #[trigger] b.spec_surname(id) == a.spec_surname(id),
        forall|id: i32| #[trigger] b.spec_city(id) == a.spec_city(id),
        forall|id: i32| #[trigger] b.spec_state_province(id) == a.spec_state_province(id),
        b.spec_staff() == a.spec_staff(),
        b.people() == a.people(),
{
    lemma_last_of_kind_same(a.sections@, b.sections@, SectionKind::Staff);
    lemma_last_of_kind_same(a.sections@, b.sections@, SectionKind::Nation);
    lemma_last_of_kind_same(a.sections@, b.sections@, SectionKind::Club);
    lemma_last_of_kind_same(a.sections@, b.sections@, SectionKind::Competition);
    lemma_last_of_kind_same(a.sections@, b.sections@, SectionKind::Forename);
    lemma_last_of_kind_same(a.sections@, b.sections@, SectionKind::Surname);
    lemma_last_of_kind_same(a.sections@, b.sections@, SectionKind::City);
    lemma_last_of_kind_same(a.sections@, b.sections@, SectionKind::StateProvince);
    lemma_last_of_kind(a.sections@, SectionKind::Staff);
    lemma_last_of_kind(a.sections@, SectionKind::Nation);
    lemma_last_of_kind(a.sections@, SectionKind::Club);
    lemma_last_of_kind(a.sections@, SectionKind::Competition);
    lemma_last_of_kind(a.sections@, SectionKind::Forename);
    lemma_last_of_kind(a.sections@, SectionKind::Surname);
    lemma_last_of_kind(a.sections@, SectionKind::City);
    lemma_last_of_kind(a.sections@, SectionKind::StateProvince);
}

/// At the place of the last section of a kind stands a section of the
/// kind.
pub proof fn lemma_last_of_kind(sections: Seq<Section>, kind: SectionKind)
    ensures
        match last_of_kind(sections, kind) {
            Some(i) => 0 <= i < sections.len() && sections[i].kind() == Some(kind),
            None => true,
        },
    decreases sections.len(),
{
    if sections.len() > 0 {
        lemma_last_of_kind(sections.drop_last(), kind);
    }
}

/// Where the sections of two lists are of the same kinds, place by place,
/// the last of a kind stands at the same place in both.
pub proof fn lemma_last_of_kind_same(a: Seq<Section>, b: Seq<Section>, kind: SectionKind)
    requires
        a.len() == b.len(),
        forall|i: int| 0 <= i < a.len() ==> (#[trigger] a[i]).kind() == b[i].kind(),
    ensures
        last_of_kind(a, kind) == last_of_kind(b, kind),
    decreases a.len(),
{
    if a.len() > 0 {
        assert(a.last().kind() == b.last().kind());
        assert forall|i: int| 0 <= i < a.len() - 1 implies (#[trigger] a.drop_last()[i]).kind()
            == b.drop_last()[i].kind() by {
            assert(a[i].kind() == b[i].kind());
        }
        lemma_last_of_kind_same(a.drop_last(), b.drop_last(), kind);
    }
}

/// Sections that follow one another start in the order they stand in.
pub proof fn lemma_offset_of_monotonic(first: int, sections: Seq<Section>, i: int, j: int)
    requires
        i <= j,
    ensures
        offset_of(first, sections, i) <= offset_of(first, sections, j),
    decreases j - i,
{
    if i < j {
        lemma_offset_of_monotonic(first, sections, i, j - 1);
    }
}

} // verus!
