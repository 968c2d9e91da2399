//! A player of a database beside the same player in a save file that was
//! started from it.

use vstd::prelude::*;
use vstd::string::StringExecFns;

use crate::chars::{decimal_text, push_decimal};
use crate::data::player::{Attribute, OWN_POSITION, Player};
use crate::research::{_AttributeData, counted_up, key_of};

verus! {

/// The number of attributes that are shown on a scale of their own.
pub const ATTRIBUTES: usize = 23;

/// The attributes in the order in which they are listed.
pub open spec fn attribute_of(i: int) -> Attribute {
    if i == 0 {
        Attribute::Anticipation
    } else if i == 1 {
        Attribute::Balance
    } else if i == 2 {
        Attribute::Decisions
    } else if i == 3 {
        Attribute::OffThePuck
    } else if i == 4 {
        Attribute::OneOnOnes
    } else if i == 5 {
        Attribute::Passing
    } else if i == 6 {
        Attribute::Positioning
    } else if i == 7 {
        Attribute::Reflexes
    } else if i == 8 {
        Attribute::Creativity
    } else if i == 9 {
        Attribute::Blocker
    } else if i == 10 {
        Attribute::Checking
    } else if i == 11 {
        Attribute::Deflections
    } else if i == 12 {
        Attribute::Deking
    } else if i == 13 {
        Attribute::Faceoffs
    } else if i == 14 {
        Attribute::Fighting
    } else if i == 15 {
        Attribute::Glove
    } else if i == 16 {
        Attribute::Hitting
    } else if i == 17 {
        Attribute::Pokecheck
    } else if i == 18 {
        Attribute::ReboundControl
    } else if i == 19 {
        Attribute::Recovery
    } else if i == 20 {
        Attribute::Slapshot
    } else if i == 21 {
        Attribute::Stickhandling
    } else {
        Attribute::Wristshot
    }
}

pub fn attribute_at(i: usize) -> (a: Attribute)
    ensures
        a == attribute_of(i as int),
{
    if i == 0 {
        Attribute::Anticipation
    } else if i == 1 {
        Attribute::Balance
    } else if i == 2 {
        Attribute::Decisions
    } else if i == 3 {
        Attribute::OffThePuck
    } else if i == 4 {
        Attribute::OneOnOnes
    } else if i == 5 {
        Attribute::Passing
    } else if i == 6 {
        Attribute::Positioning
    } else if i == 7 {
        Attribute::Reflexes
    } else if i == 8 {
        Attribute::Creativity
    } else if i == 9 {
        Attribute::Blocker
    } else if i == 10 {
        Attribute::Checking
    } else if i == 11 {
        Attribute::Deflections
    } else if i == 12 {
        Attribute::Deking
    } else if i == 13 {
        Attribute::Faceoffs
    } else if i == 14 {
        Attribute::Fighting
    } else if i == 15 {
        Attribute::Glove
    } else if i == 16 {
        Attribute::Hitting
    } else if i == 17 {
        Attribute::Pokecheck
    } else if i == 18 {
        Attribute::ReboundControl
    } else if i == 19 {
        Attribute::Recovery
    } else if i == 20 {
        Attribute::Slapshot
    } else if i == 21 {
        Attribute::Stickhandling
    } else {
        Attribute::Wristshot
    }
}

/// Who can be judged by an attribute.
#[derive(Clone, Copy, Debug, PartialEq, Eq, Structural)]
pub enum Judged {
    Everyone,
    Skaters,
    Goalies,
}

/// Who can be judged by an attribute: goalkeepers by those of the goal,
/// skaters by those of the play with the puck, and everyone by the rest.
pub open spec fn judged_by(a: Attribute) -> Judged {
    match a {
        Attribute::OneOnOnes | Attribute::Reflexes | Attribute::Blocker | Attribute::Glove
        | Attribute::ReboundControl | Attribute::Recovery => Judged::Goalies,
        Attribute::OffThePuck | Attribute::Creativity | Attribute::Checking
        | Attribute::Deflections | Attribute::Deking | Attribute::Faceoffs | Attribute::Hitting
        | Attribute::Slapshot | Attribute::Wristshot => Judged::Skaters,
        _ => Judged::Everyone,
    }
}

pub fn who_is_judged_by(a: Attribute) -> (j: Judged)
    ensures
        j == judged_by(a),
{
    match a {
        Attribute::OneOnOnes | Attribute::Reflexes | Attribute::Blocker | Attribute::Glove
        | Attribute::ReboundControl | Attribute::Recovery => Judged::Goalies,
        Attribute::OffThePuck | Attribute::Creativity | Attribute::Checking
        | Attribute::Deflections | Attribute::Deking | Attribute::Faceoffs | Attribute::Hitting
        | Attribute::Slapshot | Attribute::Wristshot => Judged::Skaters,
        _ => Judged::Everyone,
    }
}

/// Whether the database has a skater's position as the player's own.
pub open spec fn is_skater(db: Player) -> bool {
    db.left_defence >= OWN_POSITION || db.right_defence >= OWN_POSITION || db.left_wing
        >= OWN_POSITION || db.center >= OWN_POSITION || db.right_wing >= OWN_POSITION
}

/// Whether the database has the goal as the player's own position.
pub open spec fn is_goalie(db: Player) -> bool {
    db.goaltender >= OWN_POSITION
}

/// Whether an attribute of a player is taken into the research: its value
/// in the database lies between 1 and 20, and the player is one who can be
/// judged by it.
pub open spec fn is_taken(db: Player, a: Attribute) -> bool {
    1 <= db.raw(a) <= 20 && match judged_by(a) {
        Judged::Everyone => true,
        Judged::Skaters => is_skater(db),
        Judged::Goalies => is_goalie(db),
    }
}

/// How many of the first `upto` attributes of a player are taken into the
/// research under the given key.
pub open spec fn hits_of(current_ability: i16, save: Player, db: Player, upto: int, key: u32) -> nat
    decreases upto,
{
    if upto <= 0 {
        0
    } else {
        let a = attribute_of(upto - 1);
        hits_of(current_ability, save, db, upto - 1, key) + if is_taken(db, a) && key_of(
            current_ability,
            db.raw(a),
            save.raw(a),
        ) == key {
            1nat
        } else {
            0nat
        }
    }
}

/// A player of a database, with what the save file holds of the same
/// player.
#[derive(Clone, Debug)]
pub struct _Player {
    pub forename: String,
    pub surname: String,
    pub age: i16,
    pub birthplace: String,
    pub nation: String,
    pub second_nation: String,
    pub club: String,
    pub current_ability: i16,
    /// The player as the save file has it.
    pub save: Player,
    /// The player as the database has it.
    pub db: Player,
}

impl _Player {
    /// Whether the player has a skater's position of the player's own.
    pub open spec fn skater(&self) -> bool {
        is_skater(self.db)
    }

    /// Whether the goal is the player's own position.
    pub open spec fn goalie(&self) -> bool {
        is_goalie(self.db)
    }

    /// Whether an attribute of the player is taken into the research: its
    /// value in the database lies between 1 and 20, and the player is one
    /// who can be judged by it.
    pub open spec fn counts(&self, a: Attribute) -> bool {
        is_taken(self.db, a)
    }

    /// An attribute in the row of a table: the value in the save file and
    /// the value in the database, with a semicolon between them; the
    /// semicolon alone for an attribute that is not taken into the research.
    pub open spec fn attribute_text(&self, a: Attribute) -> Seq<char> {
        if self.counts(a) {
            decimal_text(self.save.raw(a) as int) + ";"@ + decimal_text(self.db.raw(a) as int)
        } else {
            ";"@
        }
    }

    /// The attributes from the `from`-th to the last, each after a
    /// semicolon.
    pub open spec fn attributes_text(&self, from: int) -> Seq<char>
        decreases ATTRIBUTES - from,
    {
        if from >= ATTRIBUTES {
            Seq::empty()
        } else {
            ";"@ + self.attribute_text(attribute_of(from)) + self.attributes_text(from + 1)
        }
    }

    /// How many of the first `upto` attributes are taken into the research
    /// under the given key.
    pub open spec fn hits(&self, upto: int, key: u32) -> nat {
        hits_of(self.current_ability, self.save, self.db, upto, key)
    }

    pub fn _is_skater(&self) -> (b: bool)
        ensures
            b == self.skater(),
    {
        self.db.left_defence >= OWN_POSITION || self.db.right_defence >= OWN_POSITION
            || self.db.left_wing >= OWN_POSITION || self.db.center >= OWN_POSITION
            || self.db.right_wing >= OWN_POSITION
    }

    pub fn _is_goalie(&self) -> (b: bool)
        ensures
            b == self.goalie(),
    {
        self.db.goaltender >= OWN_POSITION
    }

    /// Whether an attribute of the player is taken into the research.
    pub fn is_counted(&self, a: Attribute) -> (b: bool)
        ensures
            b == self.counts(a),
    {
        let value = self.db.raw_attribute(a);
        1 <= value && value <= 20 && match who_is_judged_by(a) {
            Judged::Everyone => true,
            Judged::Skaters => self._is_skater(),
            Judged::Goalies => self._is_goalie(),
        }
    }

    /// An attribute in the row of a table.
    pub fn _attribute(&self, a: Attribute) -> (s: String)
        ensures
            s@ == self.attribute_text(a),
    {
        let mut s = String::new();
        if self.is_counted(a) {
            push_decimal(&mut s, self.save.raw_attribute(a) as i64);
            assert(s@ =~= decimal_text(self.save.raw(a) as int));
            s.append(";");
            push_decimal(&mut s, self.db.raw_attribute(a) as i64);
        } else {
            s.append(";");
            assert(s@ =~= ";"@);
        }
        s
    }

    /// The player as the row of a table: the current ability, the names,
    /// the age, the birthplace, the nations and the club, and then every
    /// attribute, with semicolons between them.
    pub fn _create_csv_row(&self) -> (s: String)
        ensures
            s@ == decimal_text(self.current_ability as int) + ";"@ + self.forename@ + ";"@
                + self.surname@ + ";"@ + decimal_text(self.age as int) + ";"@ + self.birthplace@
                + ";"@ + self.nation@ + ";"@ + self.second_nation@ + ";"@ + self.club@
                + self.attributes_text(0),
    {
        let mut s = String::new();
        push_decimal(&mut s, self.current_ability as i64);
        assert(s@ =~= decimal_text(self.current_ability as int));
        s.append(";");
        s.append(self.forename.as_str());
        s.append(";");
        s.append(self.surname.as_str());
        s.append(";");
        push_decimal(&mut s, self.age as i64);
        s.append(";");
        s.append(self.birthplace.as_str());
        s.append(";");
        s.append(self.nation.as_str());
        s.append(";");
        s.append(self.second_nation.as_str());
        s.append(";");
        s.append(self.club.as_str());
        let ghost lead = s@;
        let mut i: usize = 0;
        assert(self.attributes_text(ATTRIBUTES as int) =~= Seq::<char>::empty());
        while i < ATTRIBUTES
            invariant
                i <= ATTRIBUTES,
                s@ + self.attributes_text(i as int) == lead + self.attributes_text(0),
            decreases ATTRIBUTES - i,
        {
            let ghost before = s@;
            let one = self._attribute(attribute_at(i));
            s.append(";");
            s.append(one.as_str());
            proof {
                assert(s@ + self.attributes_text(i + 1) =~= before + self.attributes_text(
                    i as int,
                ));
            }
            i += 1;
        }
        assert(s@ + self.attributes_text(ATTRIBUTES as int) =~= s@);
        s
    }

    /// Counts one more pair for the current ability of the player.
    pub fn _add_attr(&self, attr_data: &mut _AttributeData, db_attr: i8, save_attr: i8)
        requires
            old(attr_data).wf(),
        ensures
            final(attr_data).wf(),
            final(attr_data).count(self.current_ability, db_attr, save_attr) == counted_up(
                old(attr_data).count(self.current_ability, db_attr, save_attr),
                1,
            ),
            forall|k: u32|
                k != key_of(self.current_ability, db_attr, save_attr) ==> final(attr_data).amount(
                    k,
                ) == old(attr_data).amount(k),
    {
        attr_data._add_attr(self.current_ability, db_attr, save_attr);
    }

    /// Takes the attributes of the player into the research: every one
    /// that counts is counted once, under the current ability, its value
    /// in the database and its value in the save file.
    pub fn _add_to_attr_data(&self, attr_data: &mut _AttributeData)
        requires
            old(attr_data).wf(),
        ensures
            final(attr_data).wf(),
            forall|k: u32| #[trigger]
                final(attr_data).amount(k) == counted_many(
                    old(attr_data).amount(k),
                    self.hits(ATTRIBUTES as int, k),
                ),
    {
        let mut i: usize = 0;
        while i < ATTRIBUTES
            invariant
                i <= ATTRIBUTES,
                attr_data.wf(),
                forall|k: u32| #[trigger]
                    attr_data.amount(k) == counted_many(
                        old(attr_data).amount(k),
                        self.hits(i as int, k),
                    ),
            decreases ATTRIBUTES - i,
        {
            let a = attribute_at(i);
            if self.is_counted(a) {
                self._add_attr(attr_data, self.db.raw_attribute(a), self.save.raw_attribute(a));
            }
            i += 1;
        }
    }
}

/// A count with some more added; it stays at the highest count once it has
/// reached it.
pub open spec fn counted_many(count: u64, more: nat) -> u64 {
    if count + more > u64::MAX {
        u64::MAX
    } else {
        (count + more) as u64
    }
}

} // verus!
