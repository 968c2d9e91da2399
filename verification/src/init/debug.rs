//! Players made up to find out more of the chart of attributes.

use vstd::prelude::*;
use vstd::string::StringExecFns;

use crate::chars::{decimal_text, push_decimal};
use crate::chars::regex_is_match;
use crate::data::{current_staff, Data, lemma_same_but_players, NO_REFERENCE, ReferenceError};
use crate::data::section::SectionKind;
use crate::data::staff::PLAIN_NAME;
use crate::data::table::{last_with_key, lemma_last_with_key, lookup};
use crate::data::player::{Attribute, attribute_by_name, attribute_of_name, Player};
use crate::data::staff::Staff;

verus! {

/// The lowest value that is tried for an attribute.
pub const FIRST_VALUE: i16 = -60;

/// The highest value that is tried for an attribute.
pub const LAST_VALUE: i16 = 122;

/// The highest current ability that there is.
pub const LAST_ABILITY: i16 = 200;

/// The number of attributes that are tried.
pub const TRIED: usize = 15;

/// The heading of the table of made-up players.
pub const HEADING: &'static str =
    "CA;Value;Name;Forename;Surname;Age;Birthplace;Nation;Second Nation;Club Contracted;Club Playing";

/// The heading of the table of made-up players.
pub open spec fn heading() -> Seq<char> {
    HEADING@
}

/// The attributes that are tried, in their order.
pub open spec fn tried(i: int) -> Attribute {
    if i == 0 {
        Attribute::Balance
    } else if i == 1 {
        Attribute::Anticipation
    } else if i == 2 {
        Attribute::Creativity
    } else if i == 3 {
        Attribute::Checking
    } else if i == 4 {
        Attribute::Deflections
    } else if i == 5 {
        Attribute::Deking
    } else if i == 6 {
        Attribute::Faceoffs
    } else if i == 7 {
        Attribute::Hitting
    } else if i == 8 {
        Attribute::OffThePuck
    } else if i == 9 {
        Attribute::Passing
    } else if i == 10 {
        Attribute::Pokecheck
    } else if i == 11 {
        Attribute::Positioning
    } else if i == 12 {
        Attribute::Slapshot
    } else if i == 13 {
        Attribute::Stickhandling
    } else {
        Attribute::Wristshot
    }
}

/// The attributes that are tried, in their order.
pub fn attribute_tried(i: usize) -> (a: Attribute)
    ensures
        a == tried(i as int),
{
    if i == 0 {
        Attribute::Balance
    } else if i == 1 {
        Attribute::Anticipation
    } else if i == 2 {
        Attribute::Creativity
    } else if i == 3 {
        Attribute::Checking
    } else if i == 4 {
        Attribute::Deflections
    } else if i == 5 {
        Attribute::Deking
    } else if i == 6 {
        Attribute::Faceoffs
    } else if i == 7 {
        Attribute::Hitting
    } else if i == 8 {
        Attribute::OffThePuck
    } else if i == 9 {
        Attribute::Passing
    } else if i == 10 {
        Attribute::Pokecheck
    } else if i == 11 {
        Attribute::Positioning
    } else if i == 12 {
        Attribute::Slapshot
    } else if i == 13 {
        Attribute::Stickhandling
    } else {
        Attribute::Wristshot
    }
}

/// The name on the screen of an attribute that is tried.
pub open spec fn tried_name(i: int) -> Seq<char> {
    if i == 0 {
        "Balance"@
    } else if i == 1 {
        "Anticipation"@
    } else if i == 2 {
        "Creativity"@
    } else if i == 3 {
        "Checking"@
    } else if i == 4 {
        "Deflections"@
    } else if i == 5 {
        "Deking"@
    } else if i == 6 {
        "Faceoffs"@
    } else if i == 7 {
        "Hitting"@
    } else if i == 8 {
        "Off The Puck"@
    } else if i == 9 {
        "Passing"@
    } else if i == 10 {
        "Pokecheck"@
    } else if i == 11 {
        "Positioning"@
    } else if i == 12 {
        "Slapshot"@
    } else if i == 13 {
        "Stickhandling"@
    } else {
        "Wristshot"@
    }
}

/// The name on the screen of an attribute that is tried.
pub fn name_of_tried(i: usize) -> (name: &'static str)
    ensures
        name@ == tried_name(i as int),
{
    if i == 0 {
        "Balance"
    } else if i == 1 {
        "Anticipation"
    } else if i == 2 {
        "Creativity"
    } else if i == 3 {
        "Checking"
    } else if i == 4 {
        "Deflections"
    } else if i == 5 {
        "Deking"
    } else if i == 6 {
        "Faceoffs"
    } else if i == 7 {
        "Hitting"
    } else if i == 8 {
        "Off The Puck"
    } else if i == 9 {
        "Passing"
    } else if i == 10 {
        "Pokecheck"
    } else if i == 11 {
        "Positioning"
    } else if i == 12 {
        "Slapshot"
    } else if i == 13 {
        "Stickhandling"
    } else {
        "Wristshot"
    }
}

/// Whether an attribute is one that a skater is judged by, and so one that
/// can be given.
pub open spec fn can_be_given(a: Attribute) -> bool {
    match a {
        Attribute::Anticipation | Attribute::Balance | Attribute::OffThePuck
        | Attribute::Passing | Attribute::Positioning | Attribute::Creativity
        | Attribute::Checking | Attribute::Deflections | Attribute::Deking
        | Attribute::Faceoffs | Attribute::Hitting | Attribute::Pokecheck
        | Attribute::Slapshot | Attribute::Stickhandling | Attribute::Wristshot => true,
        _ => false,
    }
}

/// The attribute with the given name, where it can be given.
pub open spec fn given_attribute(attr_name: Seq<char>) -> Option<Attribute> {
    match attribute_of_name(attr_name) {
        Some(a) => if can_be_given(a) {
            Some(a)
        } else {
            None
        },
        None => None,
    }
}

/// Gives a player the next value of the attribute with the given name, and
/// moves on to the value after it. Returns whether it did: nothing is done
/// for a name that is none of an attribute that can be given.
pub fn _give_attribute(p: &mut Player, attribute: &mut i16, attr_name: &str) -> (given: bool)
    requires
        i8::MIN <= *old(attribute) <= i8::MAX,
    ensures
        given == (given_attribute(attr_name@) is Some),
        match given_attribute(attr_name@) {
            Some(a) => *final(p) == old(p).with_raw(a, *old(attribute) as i8) && *final(attribute)
                == *old(attribute) + 1,
            None => *final(p) == *old(p) && *final(attribute) == *old(attribute),
        },
{
    let a = match attribute_by_name(attr_name) {
        Some(a) => a,
        None => return false,
    };
    match a {
        Attribute::Anticipation | Attribute::Balance | Attribute::OffThePuck
        | Attribute::Passing | Attribute::Positioning | Attribute::Creativity
        | Attribute::Checking | Attribute::Deflections | Attribute::Deking
        | Attribute::Faceoffs | Attribute::Hitting | Attribute::Pokecheck
        | Attribute::Slapshot | Attribute::Stickhandling | Attribute::Wristshot => {},
        _ => return false,
    }
    p.set_raw(a, *attribute as i8);
    *attribute = *attribute + 1;
    true
}

/// How many attributes a skater is given when the next value to try is
/// `attribute`: all that are tried, or as many as there are values left.
pub open spec fn given_count(attribute: i16) -> int {
    if LAST_VALUE + 1 - attribute < TRIED {
        LAST_VALUE + 1 - attribute
    } else {
        TRIED as int
    }
}

/// A player with the first `n` of the attributes that are tried made up:
/// they have the values from `first` on, one after the other.
pub open spec fn made_up(p: Player, first: i16, n: int) -> Player
    decreases n,
{
    if n <= 0 {
        p
    } else {
        made_up(p, first, n - 1).with_raw(tried(n - 1), (first + n - 1) as i8)
    }
}

/// Makes up a skater: the skater gets the current ability `ca`, as
/// potential ability too, and the attributes that are tried get the values
/// from `attribute` on, as far as there are values left. Where the values run
/// out, the next skater starts over with the next current ability.
///
/// Returns how many attributes were given.
pub fn make_up(player: &mut Player, ca: &mut i16, attribute: &mut i16) -> (count: usize)
    requires
        FIRST_VALUE <= *old(attribute) <= LAST_VALUE + 1,
        *old(ca) < i16::MAX,
    ensures
        count == given_count(*old(attribute)),
        *final(player) == made_up(
            Player { current_ability: *old(ca), potential_ability: *old(ca), ..*old(player) },
            *old(attribute),
            count as int,
        ),
        count < TRIED ==> *final(ca) == *old(ca) + 1 && *final(attribute) == FIRST_VALUE,
        count == TRIED ==> *final(ca) == *old(ca) && *final(attribute) == *old(attribute) + TRIED,
{
    player.current_ability = *ca;
    player.potential_ability = *ca;
    let ghost start = *player;
    let mut k: usize = 0;
    while k < TRIED && *attribute <= LAST_VALUE
        invariant
            k <= TRIED,
            *attribute == *old(attribute) + k,
            *attribute <= LAST_VALUE + 1,
            FIRST_VALUE <= *old(attribute),
            *ca == *old(ca),
            *player == made_up(start, *old(attribute), k as int),
        decreases TRIED - k,
    {
        player.set_raw(attribute_tried(k), *attribute as i8);
        *attribute = *attribute + 1;
        k += 1;
    }
    if k < TRIED {
        *ca = *ca + 1;
        *attribute = FIRST_VALUE;
    }
    k
}

/// A made-up player and the one attribute that was given last.
#[derive(Clone, Debug, PartialEq, Eq)]
pub struct _Player {
    pub forename: String,
    pub surname: String,
    pub age: i16,
    pub birthplace: String,
    pub nation: String,
    pub second_nation: String,
    pub club_contracted: String,
    pub club_playing: String,
    pub attribute: i8,
    pub attribute_name: String,
    pub current_ability: i16,
}

impl _Player {
    /// The row of the table for the player.
    pub open spec fn row(&self) -> Seq<char> {
        decimal_text(self.current_ability as int) + ";"@ + decimal_text(self.attribute as int)
            + ";"@ + self.attribute_name@ + ";"@ + self.forename@ + ";"@ + self.surname@ + ";"@
            + decimal_text(self.age as int) + ";"@ + self.birthplace@ + ";"@ + self.nation@
            + ";"@ + self.second_nation@ + ";"@ + self.club_contracted@ + ";"@
            + self.club_playing@
    }

    /// Looks up what is told of a person in the table. Fails where the
    /// save file lacks the forename or the surname.
    pub fn _new(
        person: &Staff,
        current_ability: i16,
        attribute: i8,
        attribute_name: &str,
        save: &Data,
    ) -> (r: Result<_Player, ReferenceError>)
        requires
            save.wf(),
        ensures
            match person.full_name_text(save) {
                Some(name) => {
                    &&& r matches Ok(p)
                    &&& Some(p.forename@) == person.forename_text(save)
                    &&& Some(p.surname@) == person.surname_text(save)
                    &&& p.age == person.age
                    &&& p.birthplace@ == person.birthplace_text(save)
                    &&& p.nation@ == Staff::nation_short_text(save, person.nation_id)
                    &&& p.second_nation@ == Staff::nation_short_text(save, person.second_nation_id)
                    &&& p.club_contracted@ == Staff::club_short_text(
                        save,
                        person.club_contracted_id,
                    )
                    &&& p.club_playing@ == Staff::club_short_text(save, person.club_playing_id)
                    &&& p.attribute == attribute
                    &&& p.attribute_name@ == attribute_name@
                    &&& p.current_ability == current_ability
                },
                None => r == Err::<_Player, ReferenceError>(person.missing_name(save)),
            },
    {
        let forename = match person.forename(save) {
            Ok(s) => s,
            Err(e) => return Err(e),
        };
        let surname = match person.surname(save) {
            Ok(s) => s,
            Err(e) => return Err(e),
        };
        Ok(
            _Player {
                forename,
                surname,
                age: person.age,
                birthplace: person._birthplace(save),
                nation: person._nation_three_letter_name(save),
                second_nation: person._second_nation_three_letter_name(save),
                club_contracted: person._club_contracted_short_name(save),
                club_playing: person._club_playing_short_name(save),
                attribute,
                attribute_name: attribute_name.to_owned(),
                current_ability,
            },
        )
    }

    /// The row of the table for the player: the current ability, the value
    /// and the name of the attribute, and what is told of the person, with
    /// semicolons between them.
    pub fn _to_csv_row(&self) -> (s: String)
        ensures
            s@ == self.row(),
    {
        let mut s = String::new();
        push_decimal(&mut s, self.current_ability as i64);
        assert(s@ =~= decimal_text(self.current_ability as int));
        s.append(";");
        push_decimal(&mut s, self.attribute as i64);
        s.append(";");
        s.append(self.attribute_name.as_str());
        s.append(";");
        s.append(self.forename.as_str());
        s.append(";");
        s.append(self.surname.as_str());
        s.append(";");
        push_decimal(&mut s, self.age as i64);
        s.append(";");
        s.append(self.birthplace.as_str());
        s.append(";");
        s.append(self.nation.as_str());
        s.append(";");
        s.append(self.second_nation.as_str());
        s.append(";");
        s.append(self.club_contracted.as_str());
        s.append(";");
        s.append(self.club_playing.as_str());
        s
    }
}

/// The row of the table for a person and one value that was given.
pub open spec fn row_text(person: Staff, save: &Data, ca: i16, value: i8, name: Seq<char>) -> Seq<
    char,
> {
    decimal_text(ca as int) + ";"@ + decimal_text(value as int) + ";"@ + name + ";"@
        + person.forename_text(save).unwrap() + ";"@ + person.surname_text(save).unwrap() + ";"@
        + decimal_text(person.age as int) + ";"@ + person.birthplace_text(save) + ";"@
        + Staff::nation_short_text(save, person.nation_id) + ";"@ + Staff::nation_short_text(
        save,
        person.second_nation_id,
    ) + ";"@ + Staff::club_short_text(save, person.club_contracted_id) + ";"@
        + Staff::club_short_text(save, person.club_playing_id)
}

/// The rows of the table for the first `n` values that a person was given,
/// from the value `first` on.
pub open spec fn rows_for(person: Staff, save: &Data, ca: i16, first: i16, n: int) -> Seq<
    Seq<char>,
>
    decreases n,
{
    if n <= 0 {
        Seq::empty()
    } else {
        rows_for(person, save, ca, first, n - 1).push(
            row_text(person, save, ca, (first + n - 1) as i8, tried_name(n - 1)),
        )
    }
}

/// How far the trying has come: the current ability and the value that are
/// tried next, the players as they now are, the rows of the table, and the
/// name that was found lacking, where one was.
pub ghost struct Trial {
    pub ca: i16,
    pub attribute: i16,
    pub players: Seq<Player>,
    pub rows: Seq<Seq<char>>,
    pub failed: Option<ReferenceError>,
}

/// The player that a number refers to among some players. The number -1
/// refers to nothing.
pub open spec fn player_of(players: Seq<Player>, id: i32) -> Option<Player> {
    if id == NO_REFERENCE {
        None
    } else {
        lookup(players, id)
    }
}

/// The trying with one more person. Nothing is done once a name has been
/// found lacking or every current ability has been tried, nor for a person
/// whose name is not plain, who is no player, or who is a goalkeeper. A
/// skater is made up, and has a row in the table for every value given.
pub open spec fn tried_with(save: &Data, t: Trial, person: Staff) -> Trial {
    if t.failed is Some || t.ca > LAST_ABILITY {
        t
    } else {
        match person.full_name_text(save) {
            None => Trial { failed: Some(person.missing_name(save)), ..t },
            Some(name) => match player_of(t.players, person.player_data_id) {
                Some(p) => if regex_is_match(PLAIN_NAME@, name) == Some(true) && !p.goalie() {
                    let count = given_count(t.attribute);
                    Trial {
                        ca: if count < TRIED {
                            (t.ca + 1) as i16
                        } else {
                            t.ca
                        },
                        attribute: if count < TRIED {
                            FIRST_VALUE
                        } else {
                            (t.attribute + TRIED) as i16
                        },
                        players: t.players.update(
                            last_with_key(t.players, p.id).unwrap(),
                            made_up(
                                Player { current_ability: t.ca, potential_ability: t.ca, ..p },
                                t.attribute,
                                count,
                            ),
                        ),
                        rows: t.rows + rows_for(person, save, t.ca, t.attribute, count),
                        failed: None,
                    }
                } else {
                    t
                },
                None => t,
            },
        }
    }
}

/// The trying with some persons, one after the other, from the first
/// current ability and the first value on.
pub open spec fn trial(save: &Data, people: Seq<Staff>) -> Trial
    decreases people.len(),
{
    if people.len() == 0 {
        Trial {
            ca: 1,
            attribute: FIRST_VALUE,
            players: save.player_rows(),
            rows: seq![heading()],
            failed: None,
        }
    } else {
        tried_with(save, trial(save, people.drop_last()), people.last())
    }
}

/// The texts of some rows.
pub open spec fn texts_of(rows: Seq<String>) -> Seq<Seq<char>> {
    Seq::new(rows.len(), |i: int| rows[i]@)
}

/// Gives the skaters of a save file made-up attributes: one skater after
/// the other gets the current ability that is tried, and the attributes
/// that are tried get the values from `FIRST_VALUE` to `LAST_VALUE` in turn,
/// across the skaters, until every current ability up to `LAST_ABILITY` has
/// had every value. Persons with special characters in their names are
/// passed over.
///
/// Returns the table of what was given: a heading, and a row for every
/// value. Fails at the first person whose name the save file lacks, with
/// what was done before left in place.
pub fn _check_players(save: &mut Data) -> (r: Result<Vec<String>, ReferenceError>)
    requires
        old(save).wf(),
    ensures
        final(save).wf(),
        final(save).header == old(save).header,
        final(save).file_indexes@ == old(save).file_indexes@,
        old(save).same_but_players(final(save)),
        final(save).player_rows() == trial(old(save), old(save).people()).players,
        match trial(old(save), old(save).people()).failed {
            None => r matches Ok(log) && texts_of(log@) == trial(
                old(save),
                old(save).people(),
            ).rows,
            Some(e) => r == Err::<Vec<String>, ReferenceError>(e),
        },
{
    let mut log: Vec<String> = Vec::new();
    log.push(HEADING.to_owned());
    let mut ca: i16 = 1;
    let mut attribute: i16 = FIRST_VALUE;
    let n = match save.staff() {
        Some(t) => t.len(),
        None => 0,
    };
    let ghost staff = match old(save).spec_staff() {
        Some(t) => t@,
        None => Seq::empty(),
    };
    let mut i: usize = 0;
    proof {
        assert(texts_of(log@) =~= seq![heading()]);
    }
    while i < n
        invariant
            i <= n,
            n == staff.len(),
            old(save).wf(),
            old(save).people() == current_staff(staff, n as int),
            old(save).spec_staff() matches Some(t) ==> t@ == staff,
            old(save).spec_staff() is None ==> n == 0,
            save.wf(),
            save.header == old(save).header,
            save.file_indexes@ == old(save).file_indexes@,
            old(save).same_but_players(save),
            1 <= ca <= LAST_ABILITY + 1,
            FIRST_VALUE <= attribute <= LAST_VALUE + 1,
            trial(old(save), current_staff(staff, i as int)) == (Trial {
                ca,
                attribute,
                players: save.player_rows(),
                rows: texts_of(log@),
                failed: None,
            }),
        decreases n - i,
    {
        proof {
            lemma_same_but_players(old(save), save);
        }
        let ghost before = trial(old(save), current_staff(staff, i as int));
        let person = match save.staff() {
            Some(t) => if i < t.len() && t.is_current(i) {
                Some(*t.row(i))
            } else {
                None
            },
            None => None,
        };
        proof {
            if person is Some {
                assert(current_staff(staff, i + 1).drop_last() =~= current_staff(staff, i as int));
                assert(current_staff(staff, i + 1).last() == person.unwrap());
            }
        }
        i += 1;
        let person = match person {
            Some(p) => p,
            None => continue ,
        };
        if ca > LAST_ABILITY {
            continue ;
        }
        let plain = match person._has_no_special_characters(save) {
            Ok(plain) => plain,
            Err(e) => {
                proof {
                    lemma_trial_stays_failed(old(save), staff, i as int, n as int);
                }
                return Err(e);
            },
        };
        let mut player = match person.player_data(save) {
            Some(p) => p,
            None => continue ,
        };
        if !plain || player.is_goalie() {
            continue ;
        }
        let ghost found = player;
        proof {
            lemma_last_with_key(save.player_rows(), person.player_data_id);
        }
        let first = attribute;
        let first_ca = ca;
        let mut row = match _Player::_new(&person, ca, 0, "", save) {
            Ok(p) => p,
            Err(e) => {
                proof {
                    lemma_trial_stays_failed(old(save), staff, i as int, n as int);
                }
                return Err(e);
            },
        };
        let count = make_up(&mut player, &mut ca, &mut attribute);
        let ghost lead = texts_of(log@);
        let mut k: usize = 0;
        proof {
            assert(texts_of(log@) =~= lead + rows_for(person, old(save), first_ca, first, 0));
        }
        while k < count
            invariant
                k <= count <= TRIED,
                FIRST_VALUE <= first,
                first + count <= LAST_VALUE + 1,
                row.current_ability == first_ca,
                Some(row.forename@) == person.forename_text(old(save)),
                Some(row.surname@) == person.surname_text(old(save)),
                row.age == person.age,
                row.birthplace@ == person.birthplace_text(old(save)),
                row.nation@ == Staff::nation_short_text(old(save), person.nation_id),
                row.second_nation@ == Staff::nation_short_text(
                    old(save),
                    person.second_nation_id,
                ),
                row.club_contracted@ == Staff::club_short_text(
                    old(save),
                    person.club_contracted_id,
                ),
                row.club_playing@ == Staff::club_short_text(old(save), person.club_playing_id),
                texts_of(log@) == lead + rows_for(person, old(save), first_ca, first, k as int),
            decreases count - k,
        {
            row.attribute = (first + k as i16) as i8;
            row.attribute_name = name_of_tried(k).to_owned();
            let ghost so_far = texts_of(log@);
            let text = row._to_csv_row();
            proof {
                assert(text@ == row_text(
                    person,
                    old(save),
                    first_ca,
                    (first + k) as i8,
                    tried_name(k as int),
                ));
            }
            log.push(text);
            proof {
                assert(texts_of(log@) =~= so_far.push(text@));
                assert(texts_of(log@) =~= lead + rows_for(
                    person,
                    old(save),
                    first_ca,
                    first,
                    k + 1,
                ));
            }
            k += 1;
        }
        proof {
            lemma_made_up_keeps_number(
                Player { current_ability: first_ca, potential_ability: first_ca, ..found },
                first,
                count as int,
            );
        }
        let ghost kept = *save;
        save.store_player(player);
        proof {
            assert(old(save).same_but_players(save)) by {
                assert forall|j: int| 0 <= j < old(save).sections@.len() implies (
                #[trigger] save.sections@[j]).kind() == old(save).sections@[j].kind() by {
                    assert(kept.sections@[j].kind() == old(save).sections@[j].kind());
                }
                assert forall|j: int|
                    0 <= j < old(save).sections@.len() && old(save).sections@[j].kind() != Some(
                        SectionKind::Player,
                    ) implies #[trigger] save.sections@[j] == old(save).sections@[j] by {
                    assert(kept.sections@[j] == old(save).sections@[j]);
                    assert(kept.sections@[j].kind() == old(save).sections@[j].kind());
                }
            }
        }
    }
    Ok(log)
}

/// Making up a player leaves the number of the player as it is.
pub proof fn lemma_made_up_keeps_number(p: Player, first: i16, n: int)
    ensures
        made_up(p, first, n).id == p.id,
    decreases n,
{
    if n > 0 {
        lemma_made_up_keeps_number(p, first, n - 1);
    }
}

/// Once a name is lacking, more persons change nothing.
pub proof fn lemma_trial_stays_failed(save: &Data, staff: Seq<Staff>, i: int, n: int)
    requires
        0 <= i <= n,
        trial(save, current_staff(staff, i)).failed is Some,
    ensures
        trial(save, current_staff(staff, n)) == trial(save, current_staff(staff, i)),
    decreases n - i,
{
    if i < n {
        lemma_trial_stays_failed(save, staff, i, n - 1);
        if last_with_key(staff, staff[n - 1].id) == Some(n - 1) {
            assert(current_staff(staff, n).drop_last() =~= current_staff(staff, n - 1));
        }
    }
}

} // verus!
