//! A player as a row of the table on the screen.

use vstd::prelude::*;

use crate::data::{Data, ReferenceError};
use crate::data::date::{epoch, lemma_ordinal_bounds};
use crate::data::player::{attribute_of_name, Player as PlayerData, position_names};
use crate::data::section::same_text;
use crate::data::staff::Staff;
use crate::globals::AttributeChart;
use crate::rating::{Fraction, RatingBounds};

verus! {

/// What stands in a column of the table.
#[derive(Clone, Debug, PartialEq, Eq)]
pub enum Cell {
    /// A whole number.
    Number(i64),
    /// Text.
    Text(String),
    /// A rating, as a ratio.
    Rating(Fraction),
    /// Nothing: the value could not be had.
    Missing,
}

/// What stands in a column, as a value.
pub ghost enum CellValue {
    Number(int),
    Text(Seq<char>),
    Rating(Fraction),
    Missing,
}

impl View for Cell {
    type V = CellValue;

    open spec fn view(&self) -> CellValue {
        match self {
            Cell::Number(n) => CellValue::Number(*n as int),
            Cell::Text(t) => CellValue::Text(t@),
            Cell::Rating(r) => CellValue::Rating(*r),
            Cell::Missing => CellValue::Missing,
        }
    }
}

/// The positions on the ice.
#[derive(Clone, Copy, Debug, PartialEq, Eq, Structural)]
pub enum Position {
    GK,
    LD,
    RD,
    LW,
    C,
    RW,
}

/// The rating of a player in a position, among the players of the save
/// file: minus one for a goalkeeper in a skater's position and for a skater
/// in goal, and `None` where the chart does not show an attribute that
/// counts.
pub open spec fn relative_rating(
    s: &Staff,
    p: &PlayerData,
    chart: &AttributeChart,
    bounds: &RatingBounds,
    position: Position,
) -> Option<Fraction> {
    if p.goalie() != (position == Position::GK) {
        Some(Fraction { num: -1i128, den: 1 })
    } else {
        match position {
            Position::GK => s.gk_rated(p, chart, bounds),
            Position::LD => s.ld_rated(p, chart, bounds),
            Position::RD => s.rd_rated(p, chart, bounds),
            Position::LW => s.lw_rated(p, chart, bounds),
            Position::C => s.c_rated(p, chart, bounds),
            Position::RW => s.rw_rated(p, chart, bounds),
        }
    }
}

/// The rating of a player in a position, among the players of the save
/// file.
pub fn rating_in(
    s: &Staff,
    p: &PlayerData,
    chart: &AttributeChart,
    bounds: &RatingBounds,
    position: Position,
) -> (r: Option<Fraction>)
    ensures
        r == relative_rating(s, p, chart, bounds, position),
{
    let in_goal = match position {
        Position::GK => true,
        _ => false,
    };
    if p.is_goalie() != in_goal {
        return Some(Fraction { num: -1, den: 1 });
    }
    match position {
        Position::GK => s.gk_rating(p, chart, bounds),
        Position::LD => s.ld_rating(p, chart, bounds),
        Position::RD => s.rd_rating(p, chart, bounds),
        Position::LW => s.lw_rating(p, chart, bounds),
        Position::C => s.c_rating(p, chart, bounds),
        Position::RW => s.rw_rating(p, chart, bounds),
    }
}

/// What stands in the column with the given heading, for a player who is
/// the `counter`-th of the table. A heading that is none of the fixed ones
/// is taken for the name of an attribute, and its column shows the
/// attribute as the screen does.
pub open spec fn cell_for(
    header: Seq<char>,
    counter: usize,
    s: &Staff,
    p: &PlayerData,
    data: &Data,
    chart: &AttributeChart,
    bounds: &RatingBounds,
) -> CellValue {
    if header == "Random"@ {
        CellValue::Number(counter as int)
    } else if header == "Staff ID"@ {
        CellValue::Number(s.id as int)
    } else if header == "Name"@ {
        match s.full_name_text(data) {
            Some(name) => CellValue::Text(name),
            None => CellValue::Missing,
        }
    } else if header == "Nation"@ {
        CellValue::Text(Staff::nation_text(data, s.nation_id))
    } else if header == "Second Nation"@ {
        CellValue::Text(Staff::nation_text(data, s.second_nation_id))
    } else if header == "Club Contracted"@ {
        CellValue::Text(Staff::club_text(data, s.club_contracted_id))
    } else if header == "Club Playing"@ {
        CellValue::Text(Staff::club_text(data, s.club_playing_id))
    } else if header == "Birthday"@ {
        if epoch().ordinal() <= s.date_of_birth.ordinal() {
            CellValue::Number(s.date_of_birth.ordinal() - epoch().ordinal())
        } else {
            CellValue::Missing
        }
    } else if header == "Position"@ {
        CellValue::Text(position_names(p.positions()))
    } else if header == "GK Rating"@ {
        match relative_rating(s, p, chart, bounds, Position::GK) {
            Some(r) => CellValue::Rating(r),
            None => CellValue::Missing,
        }
    } else if header == "LD Rating"@ {
        match relative_rating(s, p, chart, bounds, Position::LD) {
            Some(r) => CellValue::Rating(r),
            None => CellValue::Missing,
        }
    } else if header == "RD Rating"@ {
        match relative_rating(s, p, chart, bounds, Position::RD) {
            Some(r) => CellValue::Rating(r),
            None => CellValue::Missing,
        }
    } else if header == "LW Rating"@ {
        match relative_rating(s, p, chart, bounds, Position::LW) {
            Some(r) => CellValue::Rating(r),
            None => CellValue::Missing,
        }
    } else if header == "C Rating"@ {
        match relative_rating(s, p, chart, bounds, Position::C) {
            Some(r) => CellValue::Rating(r),
            None => CellValue::Missing,
        }
    } else if header == "RW Rating"@ {
        match relative_rating(s, p, chart, bounds, Position::RW) {
            Some(r) => CellValue::Rating(r),
            None => CellValue::Missing,
        }
    } else if header == "Adaptability"@ {
        CellValue::Number(s.adaptability as int)
    } else if header == "Ambition"@ {
        CellValue::Number(s.ambition as int)
    } else if header == "Determination"@ {
        CellValue::Number(s.determination as int)
    } else if header == "Loyalty"@ {
        CellValue::Number(s.loyalty as int)
    } else if header == "Pressure"@ {
        CellValue::Number(s.pressure as int)
    } else if header == "Professionalism"@ {
        CellValue::Number(s.professionalism as int)
    } else if header == "Sportsmanship"@ {
        CellValue::Number(s.sportsmanship as int)
    } else if header == "Temperament"@ {
        CellValue::Number(s.temperament as int)
    } else if header == "Current Ability"@ {
        CellValue::Number(p.current_ability as int)
    } else if header == "Potential Ability"@ {
        CellValue::Number(p.potential_ability as int)
    } else if header == "Acceleration"@ {
        CellValue::Number(p.acceleration as int)
    } else if header == "Aggression"@ {
        CellValue::Number(p.aggression as int)
    } else if header == "Agility"@ {
        CellValue::Number(p.agility as int)
    } else if header == "Bravery"@ {
        CellValue::Number(p.bravery as int)
    } else if header == "Consistency"@ {
        CellValue::Number(p.consistency as int)
    } else if header == "Dirtiness"@ {
        CellValue::Number(p.dirtiness as int)
    } else if header == "Flair"@ {
        CellValue::Number(p.flair as int)
    } else if header == "Important Matches"@ {
        CellValue::Number(p.important_matches as int)
    } else if header == "Injury Proneness"@ {
        CellValue::Number(p.injury_proneness as int)
    } else if header == "Influence"@ {
        CellValue::Number(p.leadership as int)
    } else if header == "Natural Fitness"@ {
        CellValue::Number(p.natural_fitness as int)
    } else if header == "Speed"@ {
        CellValue::Number(p.pace as int)
    } else if header == "Stamina"@ {
        CellValue::Number(p.stamina as int)
    } else if header == "Strength"@ {
        CellValue::Number(p.strength as int)
    } else if header == "Teamwork"@ {
        CellValue::Number(p.teamwork as int)
    } else if header == "Versatility"@ {
        CellValue::Number(p.versatility as int)
    } else if header == "Work Rate"@ {
        CellValue::Number(p.work_rate as int)
    } else if header == "GK"@ {
        CellValue::Number(p.goaltender as int)
    } else if header == "LD"@ {
        CellValue::Number(p.left_defence as int)
    } else if header == "RD"@ {
        CellValue::Number(p.right_defence as int)
    } else if header == "LW"@ {
        CellValue::Number(p.left_wing as int)
    } else if header == "C"@ {
        CellValue::Number(p.center as int)
    } else if header == "RW"@ {
        CellValue::Number(p.right_wing as int)
    } else if header == "Agitation"@ {
        CellValue::Number(p.agitation as int)
    } else if header == "Defensive Role"@ {
        CellValue::Number(p.defensive_role as int)
    } else if header == "Offensive Role"@ {
        CellValue::Number(p.offensive_role as int)
    } else if header == "Pass Tendency"@ {
        CellValue::Number(p.pass_tendency as int)
    } else {
        match attribute_of_name(header) {
            Some(a) => match p.shown(chart, a) {
                Some(v) => CellValue::Number(v as int),
                None => CellValue::Missing,
            },
            None => CellValue::Missing,
        }
    }
}

/// What stands in the column with the given heading.
pub fn cell(
    header: &str,
    counter: usize,
    s: &Staff,
    p: &PlayerData,
    data: &Data,
    chart: &AttributeChart,
    bounds: &RatingBounds,
) -> (cell: Cell)
    requires
        data.wf(),
        counter <= i64::MAX,
    ensures
        cell@ == cell_for(header@, counter, s, p, data, chart, bounds),
{
    if same_text(header, "Random") {
        Cell::Number(counter as i64)
    } else if same_text(header, "Staff ID") {
        Cell::Number(s.id as i64)
    } else if same_text(header, "Name") {
        match s.full_name(data) {
            Ok(name) => Cell::Text(name),
            Err(_) => Cell::Missing,
        }
    } else if same_text(header, "Nation") {
        Cell::Text(s.nation_name(data))
    } else if same_text(header, "Second Nation") {
        Cell::Text(s.second_nation_name(data))
    } else if same_text(header, "Club Contracted") {
        Cell::Text(s.club_contracted_name(data))
    } else if same_text(header, "Club Playing") {
        Cell::Text(s.club_playing_name(data))
    } else if same_text(header, "Birthday") {
        match s.date_of_birth._to_days() {
            Some(days) => {
            proof {
                lemma_ordinal_bounds(s.date_of_birth);
            }
            Cell::Number(days as i64)
            },
            None => Cell::Missing,
        }
    } else if same_text(header, "Position") {
        Cell::Text(p.position_string())
    } else if same_text(header, "GK Rating") {
        match rating_in(s, p, chart, bounds, Position::GK) {
            Some(r) => Cell::Rating(r),
            None => Cell::Missing,
        }
    } else if same_text(header, "LD Rating") {
        match rating_in(s, p, chart, bounds, Position::LD) {
            Some(r) => Cell::Rating(r),
            None => Cell::Missing,
        }
    } else if same_text(header, "RD Rating") {
        match rating_in(s, p, chart, bounds, Position::RD) {
            Some(r) => Cell::Rating(r),
            None => Cell::Missing,
        }
    } else if same_text(header, "LW Rating") {
        match rating_in(s, p, chart, bounds, Position::LW) {
            Some(r) => Cell::Rating(r),
            None => Cell::Missing,
        }
    } else if same_text(header, "C Rating") {
        match rating_in(s, p, chart, bounds, Position::C) {
            Some(r) => Cell::Rating(r),
            None => Cell::Missing,
        }
    } else if same_text(header, "RW Rating") {
        match rating_in(s, p, chart, bounds, Position::RW) {
            Some(r) => Cell::Rating(r),
            None => Cell::Missing,
        }
    } else if same_text(header, "Adaptability") {
        Cell::Number(s.adaptability as i64)
    } else if same_text(header, "Ambition") {
        Cell::Number(s.ambition as i64)
    } else if same_text(header, "Determination") {
        Cell::Number(s.determination as i64)
    } else if same_text(header, "Loyalty") {
        Cell::Number(s.loyalty as i64)
    } else if same_text(header, "Pressure") {
        Cell::Number(s.pressure as i64)
    } else if same_text(header, "Professionalism") {
        Cell::Number(s.professionalism as i64)
    } else if same_text(header, "Sportsmanship") {
        Cell::Number(s.sportsmanship as i64)
    } else if same_text(header, "Temperament") {
        Cell::Number(s.temperament as i64)
    } else if same_text(header, "Current Ability") {
        Cell::Number(p.current_ability as i64)
    } else if same_text(header, "Potential Ability") {
        Cell::Number(p.potential_ability as i64)
    } else if same_text(header, "Acceleration") {
        Cell::Number(p.acceleration as i64)
    } else if same_text(header, "Aggression") {
        Cell::Number(p.aggression as i64)
    } else if same_text(header, "Agility") {
        Cell::Number(p.agility as i64)
    } else if same_text(header, "Bravery") {
        Cell::Number(p.bravery as i64)
    } else if same_text(header, "Consistency") {
        Cell::Number(p.consistency as i64)
    } else if same_text(header, "Dirtiness") {
        Cell::Number(p.dirtiness as i64)
    } else if same_text(header, "Flair") {
        Cell::Number(p.flair as i64)
    } else if same_text(header, "Important Matches") {
        Cell::Number(p.important_matches as i64)
    } else if same_text(header, "Injury Proneness") {
        Cell::Number(p.injury_proneness as i64)
    } else if same_text(header, "Influence") {
        Cell::Number(p.leadership as i64)
    } else if same_text(header, "Natural Fitness") {
        Cell::Number(p.natural_fitness as i64)
    } else if same_text(header, "Speed") {
        Cell::Number(p.pace as i64)
    } else if same_text(header, "Stamina") {
        Cell::Number(p.stamina as i64)
    } else if same_text(header, "Strength") {
        Cell::Number(p.strength as i64)
    } else if same_text(header, "Teamwork") {
        Cell::Number(p.teamwork as i64)
    } else if same_text(header, "Versatility") {
        Cell::Number(p.versatility as i64)
    } else if same_text(header, "Work Rate") {
        Cell::Number(p.work_rate as i64)
    } else if same_text(header, "GK") {
        Cell::Number(p.goaltender as i64)
    } else if same_text(header, "LD") {
        Cell::Number(p.left_defence as i64)
    } else if same_text(header, "RD") {
        Cell::Number(p.right_defence as i64)
    } else if same_text(header, "LW") {
        Cell::Number(p.left_wing as i64)
    } else if same_text(header, "C") {
        Cell::Number(p.center as i64)
    } else if same_text(header, "RW") {
        Cell::Number(p.right_wing as i64)
    } else if same_text(header, "Agitation") {
        Cell::Number(p.agitation as i64)
    } else if same_text(header, "Defensive Role") {
        Cell::Number(p.defensive_role as i64)
    } else if same_text(header, "Offensive Role") {
        Cell::Number(p.offensive_role as i64)
    } else if same_text(header, "Pass Tendency") {
        Cell::Number(p.pass_tendency as i64)
    } else {
        match p.convert_attribute(chart, header) {
            Some(v) => Cell::Number(v as i64),
            None => Cell::Missing,
        }
    }
}

/// A player as a row of the table.
#[derive(Clone, Debug, PartialEq, Eq)]
pub struct Player {
    pub columns: Vec<Cell>,
    pub forename: String,
    pub surname: String,
    pub positions: Vec<u8>,
}

impl Player {
    /// Adds the column with the given heading at the end of the row.
    pub fn add_column(
        &mut self,
        data: &Data,
        chart: &AttributeChart,
        bounds: &RatingBounds,
        counter: usize,
        header: &str,
        s: &Staff,
        p: &PlayerData,
    )
        requires
            data.wf(),
            counter <= i64::MAX,
        ensures
            final(self).columns@.len() == old(self).columns@.len() + 1,
            final(self).columns@.drop_last() == old(self).columns@,
            final(self).columns@.last()@ == cell_for(header@, counter, s, p, data, chart, bounds),
            final(self).forename == old(self).forename,
            final(self).surname == old(self).surname,
            final(self).positions == old(self).positions,
    {
        let cell = self::cell(header, counter, s, p, data, chart, bounds);
        self.columns.push(cell);
        assert(self.columns@.drop_last() =~= old(self).columns@);
    }
}

impl Staff {
    /// The row of the table for the person as a player: the names, the
    /// positions, and a column for every heading. Fails where the save file
    /// lacks the forename or the surname.
    pub fn create_player_view(
        &self,
        p: &PlayerData,
        data: &Data,
        chart: &AttributeChart,
        bounds: &RatingBounds,
        headers: &[String],
        counter: usize,
    ) -> (r: Result<Player, ReferenceError>)
        requires
            data.wf(),
            counter <= i64::MAX,
        ensures
            r.is_ok() <==> self.full_name_text(data) is Some,
            r matches Err(e) ==> e == self.missing_name(data),
            r matches Ok(row) ==> {
                &&& Some(row.forename@) == self.forename_text(data)
                &&& Some(row.surname@) == self.surname_text(data)
                &&& row.positions@ == p.positions()
                &&& row.columns@.len() == headers@.len()
                &&& forall|i: int|
                    0 <= i < headers@.len() ==> (#[trigger] row.columns@[i])@ == cell_for(
                        headers@[i]@,
                        counter,
                        self,
                        p,
                        data,
                        chart,
                        bounds,
                    )
            },
    {
        let forename = match self.forename(data) {
            Ok(s) => s,
            Err(e) => return Err(e),
        };
        let surname = match self.surname(data) {
            Ok(s) => s,
            Err(e) => return Err(e),
        };
        let positions = p.position_vec();
        let mut row = Player { columns: Vec::new(), forename, surname, positions };
        let mut i: usize = 0;
        while i < headers.len()
            invariant
                i <= headers@.len(),
                data.wf(),
                counter <= i64::MAX,
                Some(row.forename@) == self.forename_text(data),
                Some(row.surname@) == self.surname_text(data),
                row.positions@ == p.positions(),
                row.columns@.len() == i,
                forall|k: int|
                    0 <= k < i ==> (#[trigger] row.columns@[k])@ == cell_for(
                        headers@[k]@,
                        counter,
                        self,
                        p,
                        data,
                        chart,
                        bounds,
                    ),
            decreases headers@.len() - i,
        {
            let ghost before = row.columns@;
            row.add_column(data, chart, bounds, counter, headers[i].as_str(), self, p);
            assert forall|k: int| 0 <= k < i + 1 implies (#[trigger] row.columns@[k])@ == cell_for(
                headers@[k]@,
                counter,
                self,
                p,
                data,
                chart,
                bounds,
            ) by {
                if k < i {
                    assert(row.columns@[k] == row.columns@.drop_last()[k]);
                } else {
                    assert(row.columns@[k] == row.columns@.last());
                }
            }
            i += 1;
        }
        Ok(row)
    }
}

} // verus!
