//! The sections of a save file: what each is called, what it holds, and
//! its bytes.

use vstd::prelude::*;
use vstd::slice::slice_to_vec;
use vstd::string::StringSliceAdditionalSpecFns;

use crate::data::arena::Arena;
use crate::data::city::City;
use crate::data::club::Club;
use crate::data::colour::Colour;
use crate::data::competition::Competition;
use crate::data::competition_history::CompetitionHistory;
use crate::data::continent::Continent;
use crate::data::currency::Currency;
use crate::data::draft::Draft;
use crate::data::injury::Injury;
use crate::data::name::Name;
use crate::data::nation::Nation;
use crate::data::non_player::NonPlayer;
use crate::data::official::Official;
use crate::data::player::Player;
use crate::data::record::Record;
use crate::data::retired_number::RetiredNumber;
use crate::data::staff::Staff;
use crate::data::staff_award::StaffAward;
use crate::data::staff_preferences::StaffPreferences;
use crate::data::stage_name::StageName;
use crate::data::state_province::StateProvince;
use crate::data::table::{
    encode_rows, lemma_encode_rows_injective, lemma_encode_rows_len, lemma_stride_positive, Table,
};

verus! {

/// The sections that are decoded into records.
#[derive(Clone, Copy, Debug, PartialEq, Eq, Structural)]
pub enum SectionKind {
    /// `continent.dat`: the continents.
    Continent,
    /// `officials.dat`: the referees and linesmen.
    Official,
    /// `first_names.dat`: the forenames.
    Forename,
    /// `second_names.dat`: the surnames.
    Surname,
    /// `city.dat`: the cities.
    City,
    /// `club.dat`: the clubs.
    Club,
    /// `nat_club.dat`: the national teams.
    NatClub,
    /// `staff_comp.dat`: the awards for persons.
    StaffAward,
    /// `club_comp.dat`: the competitions of clubs.
    Competition,
    /// `nation_comp.dat`: the competitions of nations.
    NatCompetition,
    /// `club_comp_history.dat`: the past seasons of the competitions of clubs.
    CompHistory,
    /// `nation_comp_history.dat`: the past seasons of the competitions of nations.
    NatCompHistory,
    /// `colour.dat`: the colours.
    Colour,
    /// `nation.dat`: the nations.
    Nation,
    /// `stadium.dat`: the arenas.
    Arena,
    /// `staff.dat`: the persons.
    Staff,
    /// `nonplayer.dat`: what the persons are off the ice.
    NonPlayer,
    /// `player.dat`: what the persons are as players.
    Player,
    /// `staff_preferences.dat`: the persons' likes and dislikes.
    StaffPreferences,
    /// `retired_numbers.dat`: the retired shirt numbers.
    RetiredNumber,
    /// `states_provinces.dat`: the states and provinces.
    StateProvince,
    /// `injuries.dat`: the kinds of injury.
    Injury,
    /// `currencies.dat`: the currencies.
    Currency,
    /// `drafts.dat`: the drafts.
    Draft,
    /// `stage_names.dat`: the names of the stages of competitions.
    StageName,
}

/// What a section holds: the records of a known section, or the bytes of
/// one that is carried through as it is.
#[derive(Clone, Debug)]
pub enum Section {
    Continents(Table<Continent>),
    Officials(Table<Official>),
    Forenames(Table<Name>),
    Surnames(Table<Name>),
    Cities(Table<City>),
    Clubs(Table<Club>),
    NatClubs(Table<Club>),
    StaffAwards(Table<StaffAward>),
    Competitions(Table<Competition>),
    NatCompetitions(Table<Competition>),
    CompHistory(Table<CompetitionHistory>),
    NatCompHistory(Table<CompetitionHistory>),
    Colours(Table<Colour>),
    Nations(Table<Nation>),
    Arenas(Table<Arena>),
    Staff(Table<Staff>),
    NonPlayers(Table<NonPlayer>),
    Players(Table<Player>),
    StaffPreferences(Table<StaffPreferences>),
    RetiredNumbers(Table<RetiredNumber>),
    StatesProvinces(Table<StateProvince>),
    Injuries(Table<Injury>),
    Currencies(Table<Currency>),
    Drafts(Table<Draft>),
    StageNames(Table<StageName>),
    Binary(Vec<u8>),
}

/// The section that a name stands for; `None` for a name that stands for
/// no known section.
pub open spec fn kind_of_name(name: Seq<char>) -> Option<SectionKind> {
    if name == "continent.dat"@ {
        Some(SectionKind::Continent)
    } else if name == "officials.dat"@ {
        Some(SectionKind::Official)
    } else if name == "first_names.dat"@ {
        Some(SectionKind::Forename)
    } else if name == "second_names.dat"@ {
        Some(SectionKind::Surname)
    } else if name == "city.dat"@ {
        Some(SectionKind::City)
    } else if name == "club.dat"@ {
        Some(SectionKind::Club)
    } else if name == "nat_club.dat"@ {
        Some(SectionKind::NatClub)
    } else if name == "staff_comp.dat"@ {
        Some(SectionKind::StaffAward)
    } else if name == "club_comp.dat"@ {
        Some(SectionKind::Competition)
    } else if name == "nation_comp.dat"@ {
        Some(SectionKind::NatCompetition)
    } else if name == "club_comp_history.dat"@ {
        Some(SectionKind::CompHistory)
    } else if name == "nation_comp_history.dat"@ {
        Some(SectionKind::NatCompHistory)
    } else if name == "colour.dat"@ {
        Some(SectionKind::Colour)
    } else if name == "nation.dat"@ {
        Some(SectionKind::Nation)
    } else if name == "stadium.dat"@ {
        Some(SectionKind::Arena)
    } else if name == "staff.dat"@ {
        Some(SectionKind::Staff)
    } else if name == "nonplayer.dat"@ {
        Some(SectionKind::NonPlayer)
    } else if name == "player.dat"@ {
        Some(SectionKind::Player)
    } else if name == "staff_preferences.dat"@ {
        Some(SectionKind::StaffPreferences)
    } else if name == "retired_numbers.dat"@ {
        Some(SectionKind::RetiredNumber)
    } else if name == "states_provinces.dat"@ {
        Some(SectionKind::StateProvince)
    } else if name == "injuries.dat"@ {
        Some(SectionKind::Injury)
    } else if name == "currencies.dat"@ {
        Some(SectionKind::Currency)
    } else if name == "drafts.dat"@ {
        Some(SectionKind::Draft)
    } else if name == "stage_names.dat"@ {
        Some(SectionKind::StageName)
    } else {
        None
    }
}

/// Whether two texts are the same.
pub fn same_text(a: &str, b: &str) -> (same: bool)
    ensures
        same == (a@ == b@),
{
    let x = a.as_bytes();
    let y = b.as_bytes();
    proof {
        vstd::utf8::encode_utf8_decode_utf8(a@);
        vstd::utf8::encode_utf8_decode_utf8(b@);
    }
    if x.len() != y.len() {
        return false;
    }
    let mut i: usize = 0;
    while i < x.len()
        invariant
            i <= x@.len(),
            x@.len() == y@.len(),
            x@ == a.spec_bytes(),
            y@ == b.spec_bytes(),
            forall|k: int| 0 <= k < i ==> x@[k] == y@[k],
        decreases x@.len() - i,
    {
        if x[i] != y[i] {
            assert(a@ != b@);
            return false;
        }
        i += 1;
    }
    assert(x@ =~= y@);
    true
}

/// The section that a name stands for.
pub fn get_parser_guide(name: &str) -> (kind: Option<SectionKind>)
    ensures
        kind == kind_of_name(name@),
{
    if same_text(name, "continent.dat") {
        Some(SectionKind::Continent)
    } else if same_text(name, "officials.dat") {
        Some(SectionKind::Official)
    } else if same_text(name, "first_names.dat") {
        Some(SectionKind::Forename)
    } else if same_text(name, "second_names.dat") {
        Some(SectionKind::Surname)
    } else if same_text(name, "city.dat") {
        Some(SectionKind::City)
    } else if same_text(name, "club.dat") {
        Some(SectionKind::Club)
    } else if same_text(name, "nat_club.dat") {
        Some(SectionKind::NatClub)
    } else if same_text(name, "staff_comp.dat") {
        Some(SectionKind::StaffAward)
    } else if same_text(name, "club_comp.dat") {
        Some(SectionKind::Competition)
    } else if same_text(name, "nation_comp.dat") {
        Some(SectionKind::NatCompetition)
    } else if same_text(name, "club_comp_history.dat") {
        Some(SectionKind::CompHistory)
    } else if same_text(name, "nation_comp_history.dat") {
        Some(SectionKind::NatCompHistory)
    } else if same_text(name, "colour.dat") {
        Some(SectionKind::Colour)
    } else if same_text(name, "nation.dat") {
        Some(SectionKind::Nation)
    } else if same_text(name, "stadium.dat") {
        Some(SectionKind::Arena)
    } else if same_text(name, "staff.dat") {
        Some(SectionKind::Staff)
    } else if same_text(name, "nonplayer.dat") {
        Some(SectionKind::NonPlayer)
    } else if same_text(name, "player.dat") {
        Some(SectionKind::Player)
    } else if same_text(name, "staff_preferences.dat") {
        Some(SectionKind::StaffPreferences)
    } else if same_text(name, "retired_numbers.dat") {
        Some(SectionKind::RetiredNumber)
    } else if same_text(name, "states_provinces.dat") {
        Some(SectionKind::StateProvince)
    } else if same_text(name, "injuries.dat") {
        Some(SectionKind::Injury)
    } else if same_text(name, "currencies.dat") {
        Some(SectionKind::Currency)
    } else if same_text(name, "drafts.dat") {
        Some(SectionKind::Draft)
    } else if same_text(name, "stage_names.dat") {
        Some(SectionKind::StageName)
    } else {
        None
    }
}

/// The width of the records of a section.
pub open spec fn stride_of(kind: SectionKind) -> nat {
    match kind {
        SectionKind::Continent => Continent::stride(),
        SectionKind::Official => Official::stride(),
        SectionKind::Forename => Name::stride(),
        SectionKind::Surname => Name::stride(),
        SectionKind::City => City::stride(),
        SectionKind::Club => Club::stride(),
        SectionKind::NatClub => Club::stride(),
        SectionKind::StaffAward => StaffAward::stride(),
        SectionKind::Competition => Competition::stride(),
        SectionKind::NatCompetition => Competition::stride(),
        SectionKind::CompHistory => CompetitionHistory::stride(),
        SectionKind::NatCompHistory => CompetitionHistory::stride(),
        SectionKind::Colour => Colour::stride(),
        SectionKind::Nation => Nation::stride(),
        SectionKind::Arena => Arena::stride(),
        SectionKind::Staff => Staff::stride(),
        SectionKind::NonPlayer => NonPlayer::stride(),
        SectionKind::Player => Player::stride(),
        SectionKind::StaffPreferences => StaffPreferences::stride(),
        SectionKind::RetiredNumber => RetiredNumber::stride(),
        SectionKind::StateProvince => StateProvince::stride(),
        SectionKind::Injury => Injury::stride(),
        SectionKind::Currency => Currency::stride(),
        SectionKind::Draft => Draft::stride(),
        SectionKind::StageName => StageName::stride(),
    }
}

impl Section {
    /// Which section this is; `None` for one that is carried through.
    pub open spec fn kind(&self) -> Option<SectionKind> {
        match self {
            Section::Continents(_) => Some(SectionKind::Continent),
            Section::Officials(_) => Some(SectionKind::Official),
            Section::Forenames(_) => Some(SectionKind::Forename),
            Section::Surnames(_) => Some(SectionKind::Surname),
            Section::Cities(_) => Some(SectionKind::City),
            Section::Clubs(_) => Some(SectionKind::Club),
            Section::NatClubs(_) => Some(SectionKind::NatClub),
            Section::StaffAwards(_) => Some(SectionKind::StaffAward),
            Section::Competitions(_) => Some(SectionKind::Competition),
            Section::NatCompetitions(_) => Some(SectionKind::NatCompetition),
            Section::CompHistory(_) => Some(SectionKind::CompHistory),
            Section::NatCompHistory(_) => Some(SectionKind::NatCompHistory),
            Section::Colours(_) => Some(SectionKind::Colour),
            Section::Nations(_) => Some(SectionKind::Nation),
            Section::Arenas(_) => Some(SectionKind::Arena),
            Section::Staff(_) => Some(SectionKind::Staff),
            Section::NonPlayers(_) => Some(SectionKind::NonPlayer),
            Section::Players(_) => Some(SectionKind::Player),
            Section::StaffPreferences(_) => Some(SectionKind::StaffPreferences),
            Section::RetiredNumbers(_) => Some(SectionKind::RetiredNumber),
            Section::StatesProvinces(_) => Some(SectionKind::StateProvince),
            Section::Injuries(_) => Some(SectionKind::Injury),
            Section::Currencies(_) => Some(SectionKind::Currency),
            Section::Drafts(_) => Some(SectionKind::Draft),
            Section::StageNames(_) => Some(SectionKind::StageName),
            Section::Binary(_) => None,
        }
    }

    /// The bytes of the section in the file.
    pub open spec fn encoding(&self) -> Seq<u8> {
        match self {
            Section::Continents(t) => encode_rows(t@),
            Section::Officials(t) => encode_rows(t@),
            Section::Forenames(t) => encode_rows(t@),
            Section::Surnames(t) => encode_rows(t@),
            Section::Cities(t) => encode_rows(t@),
            Section::Clubs(t) => encode_rows(t@),
            Section::NatClubs(t) => encode_rows(t@),
            Section::StaffAwards(t) => encode_rows(t@),
            Section::Competitions(t) => encode_rows(t@),
            Section::NatCompetitions(t) => encode_rows(t@),
            Section::CompHistory(t) => encode_rows(t@),
            Section::NatCompHistory(t) => encode_rows(t@),
            Section::Colours(t) => encode_rows(t@),
            Section::Nations(t) => encode_rows(t@),
            Section::Arenas(t) => encode_rows(t@),
            Section::Staff(t) => encode_rows(t@),
            Section::NonPlayers(t) => encode_rows(t@),
            Section::Players(t) => encode_rows(t@),
            Section::StaffPreferences(t) => encode_rows(t@),
            Section::RetiredNumbers(t) => encode_rows(t@),
            Section::StatesProvinces(t) => encode_rows(t@),
            Section::Injuries(t) => encode_rows(t@),
            Section::Currencies(t) => encode_rows(t@),
            Section::Drafts(t) => encode_rows(t@),
            Section::StageNames(t) => encode_rows(t@),
            Section::Binary(b) => b@,
        }
    }

    /// The index of the records is in order.
    pub open spec fn wf(&self) -> bool {
        match self {
            Section::Continents(t) => t.wf(),
            Section::Officials(t) => t.wf(),
            Section::Forenames(t) => t.wf(),
            Section::Surnames(t) => t.wf(),
            Section::Cities(t) => t.wf(),
            Section::Clubs(t) => t.wf(),
            Section::NatClubs(t) => t.wf(),
            Section::StaffAwards(t) => t.wf(),
            Section::Competitions(t) => t.wf(),
            Section::NatCompetitions(t) => t.wf(),
            Section::CompHistory(t) => t.wf(),
            Section::NatCompHistory(t) => t.wf(),
            Section::Colours(t) => t.wf(),
            Section::Nations(t) => t.wf(),
            Section::Arenas(t) => t.wf(),
            Section::Staff(t) => t.wf(),
            Section::NonPlayers(t) => t.wf(),
            Section::Players(t) => t.wf(),
            Section::StaffPreferences(t) => t.wf(),
            Section::RetiredNumbers(t) => t.wf(),
            Section::StatesProvinces(t) => t.wf(),
            Section::Injuries(t) => t.wf(),
            Section::Currencies(t) => t.wf(),
            Section::Drafts(t) => t.wf(),
            Section::StageNames(t) => t.wf(),
            Section::Binary(_) => true,
        }
    }

    /// Whether two sections hold the same: the same records in the same
    /// order, or the same bytes.
    pub open spec fn same_as(&self, other: &Section) -> bool {
        match (self, other) {
            (Section::Continents(a), Section::Continents(b)) => a@ == b@,
            (Section::Officials(a), Section::Officials(b)) => a@ == b@,
            (Section::Forenames(a), Section::Forenames(b)) => a@ == b@,
            (Section::Surnames(a), Section::Surnames(b)) => a@ == b@,
            (Section::Cities(a), Section::Cities(b)) => a@ == b@,
            (Section::Clubs(a), Section::Clubs(b)) => a@ == b@,
            (Section::NatClubs(a), Section::NatClubs(b)) => a@ == b@,
            (Section::StaffAwards(a), Section::StaffAwards(b)) => a@ == b@,
            (Section::Competitions(a), Section::Competitions(b)) => a@ == b@,
            (Section::NatCompetitions(a), Section::NatCompetitions(b)) => a@ == b@,
            (Section::CompHistory(a), Section::CompHistory(b)) => a@ == b@,
            (Section::NatCompHistory(a), Section::NatCompHistory(b)) => a@ == b@,
            (Section::Colours(a), Section::Colours(b)) => a@ == b@,
            (Section::Nations(a), Section::Nations(b)) => a@ == b@,
            (Section::Arenas(a), Section::Arenas(b)) => a@ == b@,
            (Section::Staff(a), Section::Staff(b)) => a@ == b@,
            (Section::NonPlayers(a), Section::NonPlayers(b)) => a@ == b@,
            (Section::Players(a), Section::Players(b)) => a@ == b@,
            (Section::StaffPreferences(a), Section::StaffPreferences(b)) => a@ == b@,
            (Section::RetiredNumbers(a), Section::RetiredNumbers(b)) => a@ == b@,
            (Section::StatesProvinces(a), Section::StatesProvinces(b)) => a@ == b@,
            (Section::Injuries(a), Section::Injuries(b)) => a@ == b@,
            (Section::Currencies(a), Section::Currencies(b)) => a@ == b@,
            (Section::Drafts(a), Section::Drafts(b)) => a@ == b@,
            (Section::StageNames(a), Section::StageNames(b)) => a@ == b@,
            (Section::Binary(a), Section::Binary(b)) => a@ == b@,
            _ => false,
        }
    }

    pub fn which(&self) -> (kind: Option<SectionKind>)
        ensures
            kind == self.kind(),
    {
        match self {
            Section::Continents(_) => Some(SectionKind::Continent),
            Section::Officials(_) => Some(SectionKind::Official),
            Section::Forenames(_) => Some(SectionKind::Forename),
            Section::Surnames(_) => Some(SectionKind::Surname),
            Section::Cities(_) => Some(SectionKind::City),
            Section::Clubs(_) => Some(SectionKind::Club),
            Section::NatClubs(_) => Some(SectionKind::NatClub),
            Section::StaffAwards(_) => Some(SectionKind::StaffAward),
            Section::Competitions(_) => Some(SectionKind::Competition),
            Section::NatCompetitions(_) => Some(SectionKind::NatCompetition),
            Section::CompHistory(_) => Some(SectionKind::CompHistory),
            Section::NatCompHistory(_) => Some(SectionKind::NatCompHistory),
            Section::Colours(_) => Some(SectionKind::Colour),
            Section::Nations(_) => Some(SectionKind::Nation),
            Section::Arenas(_) => Some(SectionKind::Arena),
            Section::Staff(_) => Some(SectionKind::Staff),
            Section::NonPlayers(_) => Some(SectionKind::NonPlayer),
            Section::Players(_) => Some(SectionKind::Player),
            Section::StaffPreferences(_) => Some(SectionKind::StaffPreferences),
            Section::RetiredNumbers(_) => Some(SectionKind::RetiredNumber),
            Section::StatesProvinces(_) => Some(SectionKind::StateProvince),
            Section::Injuries(_) => Some(SectionKind::Injury),
            Section::Currencies(_) => Some(SectionKind::Currency),
            Section::Drafts(_) => Some(SectionKind::Draft),
            Section::StageNames(_) => Some(SectionKind::StageName),
            Section::Binary(_) => None,
        }
    }

    pub fn to_bytes(&self) -> (out: Vec<u8>)
        ensures
            out@ == self.encoding(),
    {
        match self {
            Section::Continents(t) => t.to_bytes(),
            Section::Officials(t) => t.to_bytes(),
            Section::Forenames(t) => t.to_bytes(),
            Section::Surnames(t) => t.to_bytes(),
            Section::Cities(t) => t.to_bytes(),
            Section::Clubs(t) => t.to_bytes(),
            Section::NatClubs(t) => t.to_bytes(),
            Section::StaffAwards(t) => t.to_bytes(),
            Section::Competitions(t) => t.to_bytes(),
            Section::NatCompetitions(t) => t.to_bytes(),
            Section::CompHistory(t) => t.to_bytes(),
            Section::NatCompHistory(t) => t.to_bytes(),
            Section::Colours(t) => t.to_bytes(),
            Section::Nations(t) => t.to_bytes(),
            Section::Arenas(t) => t.to_bytes(),
            Section::Staff(t) => t.to_bytes(),
            Section::NonPlayers(t) => t.to_bytes(),
            Section::Players(t) => t.to_bytes(),
            Section::StaffPreferences(t) => t.to_bytes(),
            Section::RetiredNumbers(t) => t.to_bytes(),
            Section::StatesProvinces(t) => t.to_bytes(),
            Section::Injuries(t) => t.to_bytes(),
            Section::Currencies(t) => t.to_bytes(),
            Section::Drafts(t) => t.to_bytes(),
            Section::StageNames(t) => t.to_bytes(),
            Section::Binary(b) => slice_to_vec(b.as_slice()),
        }
    }

    /// Decodes the bytes of a section. A known section is decoded record by
    /// record to its end, and fails where bytes are left over, with their
    /// number; any other is kept as it is.
    #[verifier::spinoff_prover]
    #[verifier::rlimit(60)]
    pub fn parse(kind: Option<SectionKind>, bytes: &[u8]) -> (r: Result<Section, usize>)
        ensures
            r.is_ok() <==> leftover(kind, bytes@.len()) == 0,
            r matches Ok(s) ==> s.wf() && s.kind() == kind && s.encoding() == bytes@,
            r matches Err(left) ==> left == leftover(kind, bytes@.len()),
    {
        match kind {
            Some(SectionKind::Continent) => match Table::<Continent>::parse(bytes) {
                Ok(t) => Ok(Section::Continents(t)),
                Err(left) => Err(left),
            },
            Some(SectionKind::Official) => match Table::<Official>::parse(bytes) {
                Ok(t) => Ok(Section::Officials(t)),
                Err(left) => Err(left),
            },
            Some(SectionKind::Forename) => match Table::<Name>::parse(bytes) {
                Ok(t) => Ok(Section::Forenames(t)),
                Err(left) => Err(left),
            },
            Some(SectionKind::Surname) => match Table::<Name>::parse(bytes) {
                Ok(t) => Ok(Section::Surnames(t)),
                Err(left) => Err(left),
            },
            Some(SectionKind::City) => match Table::<City>::parse(bytes) {
                Ok(t) => Ok(Section::Cities(t)),
                Err(left) => Err(left),
            },
            Some(SectionKind::Club) => match Table::<Club>::parse(bytes) {
                Ok(t) => Ok(Section::Clubs(t)),
                Err(left) => Err(left),
            },
            Some(SectionKind::NatClub) => match Table::<Club>::parse(bytes) {
                Ok(t) => Ok(Section::NatClubs(t)),
                Err(left) => Err(left),
            },
            Some(SectionKind::StaffAward) => match Table::<StaffAward>::parse(bytes) {
                Ok(t) => Ok(Section::StaffAwards(t)),
                Err(left) => Err(left),
            },
            Some(SectionKind::Competition) => match Table::<Competition>::parse(bytes) {
                Ok(t) => Ok(Section::Competitions(t)),
                Err(left) => Err(left),
            },
            Some(SectionKind::NatCompetition) => match Table::<Competition>::parse(bytes) {
                Ok(t) => Ok(Section::NatCompetitions(t)),
                Err(left) => Err(left),
            },
            Some(SectionKind::CompHistory) => match Table::<CompetitionHistory>::parse(bytes) {
                Ok(t) => Ok(Section::CompHistory(t)),
                Err(left) => Err(left),
            },
            Some(SectionKind::NatCompHistory) => match Table::<CompetitionHistory>::parse(bytes) {
                Ok(t) => Ok(Section::NatCompHistory(t)),
                Err(left) => Err(left),
            },
            Some(SectionKind::Colour) => match Table::<Colour>::parse(bytes) {
                Ok(t) => Ok(Section::Colours(t)),
                Err(left) => Err(left),
            },
            Some(SectionKind::Nation) => match Table::<Nation>::parse(bytes) {
                Ok(t) => Ok(Section::Nations(t)),
                Err(left) => Err(left),
            },
            Some(SectionKind::Arena) => match Table::<Arena>::parse(bytes) {
                Ok(t) => Ok(Section::Arenas(t)),
                Err(left) => Err(left),
            },
            Some(SectionKind::Staff) => match Table::<Staff>::parse(bytes) {
                Ok(t) => Ok(Section::Staff(t)),
                Err(left) => Err(left),
            },
            Some(SectionKind::NonPlayer) => match Table::<NonPlayer>::parse(bytes) {
                Ok(t) => Ok(Section::NonPlayers(t)),
                Err(left) => Err(left),
            },
            Some(SectionKind::Player) => match Table::<Player>::parse(bytes) {
                Ok(t) => Ok(Section::Players(t)),
                Err(left) => Err(left),
            },
            Some(SectionKind::StaffPreferences) => match Table::<StaffPreferences>::parse(bytes) {
                Ok(t) => Ok(Section::StaffPreferences(t)),
                Err(left) => Err(left),
            },
            Some(SectionKind::RetiredNumber) => match Table::<RetiredNumber>::parse(bytes) {
                Ok(t) => Ok(Section::RetiredNumbers(t)),
                Err(left) => Err(left),
            },
            Some(SectionKind::StateProvince) => match Table::<StateProvince>::parse(bytes) {
                Ok(t) => Ok(Section::StatesProvinces(t)),
                Err(left) => Err(left),
            },
            Some(SectionKind::Injury) => match Table::<Injury>::parse(bytes) {
                Ok(t) => Ok(Section::Injuries(t)),
                Err(left) => Err(left),
            },
            Some(SectionKind::Currency) => match Table::<Currency>::parse(bytes) {
                Ok(t) => Ok(Section::Currencies(t)),
                Err(left) => Err(left),
            },
            Some(SectionKind::Draft) => match Table::<Draft>::parse(bytes) {
                Ok(t) => Ok(Section::Drafts(t)),
                Err(left) => Err(left),
            },
            Some(SectionKind::StageName) => match Table::<StageName>::parse(bytes) {
                Ok(t) => Ok(Section::StageNames(t)),
                Err(left) => Err(left),
            },
            None => Ok(Section::Binary(slice_to_vec(bytes))),
        }
    }
}

/// The bytes at the end of a section of `len` bytes that make up no
/// record. A section that is carried through has none.
pub open spec fn leftover(kind: Option<SectionKind>, len: nat) -> nat {
    match kind {
        Some(k) => len % stride_of(k),
        None => 0,
    }
}

/// Sections of one kind with the same bytes hold the same.
pub proof fn lemma_section_known_by_bytes(a: Section, b: Section)
    requires
        a.kind() == b.kind(),
        a.encoding() == b.encoding(),
    ensures
        a.same_as(&b),
{
    match (a, b) {
        (Section::Continents(x), Section::Continents(y)) => {
            lemma_encode_rows_injective(x@, y@);
        },
        (Section::Officials(x), Section::Officials(y)) => {
            lemma_encode_rows_injective(x@, y@);
        },
        (Section::Forenames(x), Section::Forenames(y)) => {
            lemma_encode_rows_injective(x@, y@);
        },
        (Section::Surnames(x), Section::Surnames(y)) => {
            lemma_encode_rows_injective(x@, y@);
        },
        (Section::Cities(x), Section::Cities(y)) => {
            lemma_encode_rows_injective(x@, y@);
        },
        (Section::Clubs(x), Section::Clubs(y)) => {
            lemma_encode_rows_injective(x@, y@);
        },
        (Section::NatClubs(x), Section::NatClubs(y)) => {
            lemma_encode_rows_injective(x@, y@);
        },
        (Section::StaffAwards(x), Section::StaffAwards(y)) => {
            lemma_encode_rows_injective(x@, y@);
        },
        (Section::Competitions(x), Section::Competitions(y)) => {
            lemma_encode_rows_injective(x@, y@);
        },
        (Section::NatCompetitions(x), Section::NatCompetitions(y)) => {
            lemma_encode_rows_injective(x@, y@);
        },
        (Section::CompHistory(x), Section::CompHistory(y)) => {
            lemma_encode_rows_injective(x@, y@);
        },
        (Section::NatCompHistory(x), Section::NatCompHistory(y)) => {
            lemma_encode_rows_injective(x@, y@);
        },
        (Section::Colours(x), Section::Colours(y)) => {
            lemma_encode_rows_injective(x@, y@);
        },
        (Section::Nations(x), Section::Nations(y)) => {
            lemma_encode_rows_injective(x@, y@);
        },
        (Section::Arenas(x), Section::Arenas(y)) => {
            lemma_encode_rows_injective(x@, y@);
        },
        (Section::Staff(x), Section::Staff(y)) => {
            lemma_encode_rows_injective(x@, y@);
        },
        (Section::NonPlayers(x), Section::NonPlayers(y)) => {
            lemma_encode_rows_injective(x@, y@);
        },
        (Section::Players(x), Section::Players(y)) => {
            lemma_encode_rows_injective(x@, y@);
        },
        (Section::StaffPreferences(x), Section::StaffPreferences(y)) => {
            lemma_encode_rows_injective(x@, y@);
        },
        (Section::RetiredNumbers(x), Section::RetiredNumbers(y)) => {
            lemma_encode_rows_injective(x@, y@);
        },
        (Section::StatesProvinces(x), Section::StatesProvinces(y)) => {
            lemma_encode_rows_injective(x@, y@);
        },
        (Section::Injuries(x), Section::Injuries(y)) => {
            lemma_encode_rows_injective(x@, y@);
        },
        (Section::Currencies(x), Section::Currencies(y)) => {
            lemma_encode_rows_injective(x@, y@);
        },
        (Section::Drafts(x), Section::Drafts(y)) => {
            lemma_encode_rows_injective(x@, y@);
        },
        (Section::StageNames(x), Section::StageNames(y)) => {
            lemma_encode_rows_injective(x@, y@);
        },
        _ => {},
    }
}

/// The bytes of a section make up whole records.
pub proof fn lemma_section_has_no_leftover(s: Section)
    ensures
        leftover(s.kind(), s.encoding().len()) == 0,
{
    match s {
        Section::Continents(x) => {
            lemma_encode_rows_len(x@);
            lemma_stride_positive::<Continent>();
            vstd::arithmetic::div_mod::lemma_mod_multiples_basic(
                x@.len() as int,
                Continent::stride() as int,
            );
        },
        Section::Officials(x) => {
            lemma_encode_rows_len(x@);
            lemma_stride_positive::<Official>();
            vstd::arithmetic::div_mod::lemma_mod_multiples_basic(
                x@.len() as int,
                Official::stride() as int,
            );
        },
        Section::Forenames(x) => {
            lemma_encode_rows_len(x@);
            lemma_stride_positive::<Name>();
            vstd::arithmetic::div_mod::lemma_mod_multiples_basic(
                x@.len() as int,
                Name::stride() as int,
            );
        },
        Section::Surnames(x) => {
            lemma_encode_rows_len(x@);
            lemma_stride_positive::<Name>();
            vstd::arithmetic::div_mod::lemma_mod_multiples_basic(
                x@.len() as int,
                Name::stride() as int,
            );
        },
        Section::Cities(x) => {
            lemma_encode_rows_len(x@);
            lemma_stride_positive::<City>();
            vstd::arithmetic::div_mod::lemma_mod_multiples_basic(
                x@.len() as int,
                City::stride() as int,
            );
        },
        Section::Clubs(x) => {
            lemma_encode_rows_len(x@);
            lemma_stride_positive::<Club>();
            vstd::arithmetic::div_mod::lemma_mod_multiples_basic(
                x@.len() as int,
                Club::stride() as int,
            );
        },
        Section::NatClubs(x) => {
            lemma_encode_rows_len(x@);
            lemma_stride_positive::<Club>();
            vstd::arithmetic::div_mod::lemma_mod_multiples_basic(
                x@.len() as int,
                Club::stride() as int,
            );
        },
        Section::StaffAwards(x) => {
            lemma_encode_rows_len(x@);
            lemma_stride_positive::<StaffAward>();
            vstd::arithmetic::div_mod::lemma_mod_multiples_basic(
                x@.len() as int,
                StaffAward::stride() as int,
            );
        },
        Section::Competitions(x) => {
            lemma_encode_rows_len(x@);
            lemma_stride_positive::<Competition>();
            vstd::arithmetic::div_mod::lemma_mod_multiples_basic(
                x@.len() as int,
                Competition::stride() as int,
            );
        },
        Section::NatCompetitions(x) => {
            lemma_encode_rows_len(x@);
            lemma_stride_positive::<Competition>();
            vstd::arithmetic::div_mod::lemma_mod_multiples_basic(
                x@.len() as int,
                Competition::stride() as int,
            );
        },
        Section::CompHistory(x) => {
            lemma_encode_rows_len(x@);
            lemma_stride_positive::<CompetitionHistory>();
            vstd::arithmetic::div_mod::lemma_mod_multiples_basic(
                x@.len() as int,
                CompetitionHistory::stride() as int,
            );
        },
        Section::NatCompHistory(x) => {
            lemma_encode_rows_len(x@);
            lemma_stride_positive::<CompetitionHistory>();
            vstd::arithmetic::div_mod::lemma_mod_multiples_basic(
                x@.len() as int,
                CompetitionHistory::stride() as int,
            );
        },
        Section::Colours(x) => {
            lemma_encode_rows_len(x@);
            lemma_stride_positive::<Colour>();
            vstd::arithmetic::div_mod::lemma_mod_multiples_basic(
                x@.len() as int,
                Colour::stride() as int,
            );
        },
        Section::Nations(x) => {
            lemma_encode_rows_len(x@);
            lemma_stride_positive::<Nation>();
            vstd::arithmetic::div_mod::lemma_mod_multiples_basic(
                x@.len() as int,
                Nation::stride() as int,
            );
        },
        Section::Arenas(x) => {
            lemma_encode_rows_len(x@);
            lemma_stride_positive::<Arena>();
            vstd::arithmetic::div_mod::lemma_mod_multiples_basic(
                x@.len() as int,
                Arena::stride() as int,
            );
        },
        Section::Staff(x) => {
            lemma_encode_rows_len(x@);
            lemma_stride_positive::<Staff>();
            vstd::arithmetic::div_mod::lemma_mod_multiples_basic(
                x@.len() as int,
                Staff::stride() as int,
            );
        },
        Section::NonPlayers(x) => {
            lemma_encode_rows_len(x@);
            lemma_stride_positive::<NonPlayer>();
            vstd::arithmetic::div_mod::lemma_mod_multiples_basic(
                x@.len() as int,
                NonPlayer::stride() as int,
            );
        },
        Section::Players(x) => {
            lemma_encode_rows_len(x@);
            lemma_stride_positive::<Player>();
            vstd::arithmetic::div_mod::lemma_mod_multiples_basic(
                x@.len() as int,
                Player::stride() as int,
            );
        },
        Section::StaffPreferences(x) => {
            lemma_encode_rows_len(x@);
            lemma_stride_positive::<StaffPreferences>();
            vstd::arithmetic::div_mod::lemma_mod_multiples_basic(
                x@.len() as int,
                StaffPreferences::stride() as int,
            );
        },
        Section::RetiredNumbers(x) => {
            lemma_encode_rows_len(x@);
            lemma_stride_positive::<RetiredNumber>();
            vstd::arithmetic::div_mod::lemma_mod_multiples_basic(
                x@.len() as int,
                RetiredNumber::stride() as int,
            );
        },
        Section::StatesProvinces(x) => {
            lemma_encode_rows_len(x@);
            lemma_stride_positive::<StateProvince>();
            vstd::arithmetic::div_mod::lemma_mod_multiples_basic(
                x@.len() as int,
                StateProvince::stride() as int,
            );
        },
        Section::Injuries(x) => {
            lemma_encode_rows_len(x@);
            lemma_stride_positive::<Injury>();
            vstd::arithmetic::div_mod::lemma_mod_multiples_basic(
                x@.len() as int,
                Injury::stride() as int,
            );
        },
        Section::Currencies(x) => {
            lemma_encode_rows_len(x@);
            lemma_stride_positive::<Currency>();
            vstd::arithmetic::div_mod::lemma_mod_multiples_basic(
                x@.len() as int,
                Currency::stride() as int,
            );
        },
        Section::Drafts(x) => {
            lemma_encode_rows_len(x@);
            lemma_stride_positive::<Draft>();
            vstd::arithmetic::div_mod::lemma_mod_multiples_basic(
                x@.len() as int,
                Draft::stride() as int,
            );
        },
        Section::StageNames(x) => {
            lemma_encode_rows_len(x@);
            lemma_stride_positive::<StageName>();
            vstd::arithmetic::div_mod::lemma_mod_multiples_basic(
                x@.len() as int,
                StageName::stride() as int,
            );
        },
        Section::Binary(_) => {},
    }
}

} // verus!
