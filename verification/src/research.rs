//! Research into the chart of attributes: how often a value in a save file
//! stands for a value in the database that the save was started from.

pub mod db;

use std::collections::HashMap;
use vstd::prelude::*;
use vstd::string::StringExecFns;

use crate::chars::{decimal_text, push_decimal};
use crate::data::{current_staff, Data, ReferenceError};
use crate::data::player::Player;
use crate::data::staff::Staff;
use crate::research::db::{ATTRIBUTES, counted_many, hits_of, _Player};

verus! {

broadcast use vstd::std_specs::hash::group_hash_axioms;

/// The key under which the pairs of a current ability, a value in the
/// database and a value in the save file are counted. The keys are in the
/// order of the three numbers.
pub open spec fn key_of(current_ability: i16, db_attr: i8, save_attr: i8) -> u32 {
    ((current_ability + 0x8000) * 0x1_0000 + (db_attr + 0x80) * 0x100 + (save_attr + 0x80)) as u32
}

/// A count with one more added; it stays at the highest count once it has
/// reached it.
pub open spec fn counted_up(count: u64, more: u64) -> u64 {
    if count + more > u64::MAX {
        u64::MAX
    } else {
        (count + more) as u64
    }
}

/// How often each pair was seen, for every current ability.
#[derive(Clone, Debug)]
pub struct _AttributeData {
    pub counts: HashMap<u32, u64>,
    /// The keys that have a count, in the order in which they were first
    /// counted.
    pub keys: Vec<u32>,
}

impl _AttributeData {
    /// Every key with a count stands in the list of keys once.
    pub open spec fn wf(&self) -> bool {
        &&& forall|k: u32| self.counts@.contains_key(k) <==> self.keys@.contains(k)
        &&& self.keys@.no_duplicates()
    }

    /// How often the pair with the given key was seen.
    pub open spec fn amount(&self, key: u32) -> u64 {
        if self.counts@.contains_key(key) {
            self.counts@[key]
        } else {
            0
        }
    }

    /// How often a value of the database was seen with a value of the save
    /// file, for a current ability.
    pub open spec fn count(&self, current_ability: i16, db_attr: i8, save_attr: i8) -> u64 {
        self.amount(key_of(current_ability, db_attr, save_attr))
    }

    pub fn new() -> (d: _AttributeData)
        ensures
            d.wf(),
            forall|k: u32| d.amount(k) == 0,
    {
        _AttributeData { counts: HashMap::new(), keys: Vec::new() }
    }

    pub fn key(current_ability: i16, db_attr: i8, save_attr: i8) -> (k: u32)
        ensures
            k == key_of(current_ability, db_attr, save_attr),
    {
        let ca: u32 = (current_ability as i32 + 0x8000) as u32;
        let db: u32 = (db_attr as i32 + 0x80) as u32;
        let save: u32 = (save_attr as i32 + 0x80) as u32;
        ca * 0x1_0000 + db * 0x100 + save
    }

    /// The current ability, the value in the database and the value in the
    /// save file that are counted under a key.
    pub fn parts(key: u32) -> (r: (i16, i8, i8))
        ensures
            key_of(r.0, r.1, r.2) == key,
    {
        let ca: i16 = ((key / 0x1_0000) as i32 - 0x8000) as i16;
        let db: i8 = ((key / 0x100 % 0x100) as i32 - 0x80) as i8;
        let save: i8 = ((key % 0x100) as i32 - 0x80) as i8;
        (ca, db, save)
    }

    pub fn amount_of(&self, key: u32) -> (n: u64)
        ensures
            n == self.amount(key),
    {
        match self.counts.get(&key) {
            Some(n) => *n,
            None => 0,
        }
    }

    pub fn count_of(&self, current_ability: i16, db_attr: i8, save_attr: i8) -> (n: u64)
        ensures
            n == self.count(current_ability, db_attr, save_attr),
    {
        self.amount_of(Self::key(current_ability, db_attr, save_attr))
    }

    /// Counts the pair with the given key `more` times more.
    pub fn add(&mut self, key: u32, more: u64)
        requires
            old(self).wf(),
        ensures
            final(self).wf(),
            final(self).amount(key) == counted_up(old(self).amount(key), more),
            forall|k: u32| k != key ==> final(self).amount(k) == old(self).amount(k),
            forall|k: u32| old(self).counts@.contains_key(
                k,
            ) ==> final(self).counts@.contains_key(k),
    {
        let had = self.counts.get(&key).is_some();
        let count = self.amount_of(key);
        let sum: u64 = if more > u64::MAX - count {
            u64::MAX
        } else {
            count + more
        };
        self.counts.insert(key, sum);
        if !had {
            self.keys.push(key);
            proof {
                assert forall|k: u32| self.counts@.contains_key(k) <==> self.keys@.contains(
                    k,
                ) by {
                    if k == key {
                        assert(self.keys@[self.keys@.len() - 1] == key);
                    } else if old(self).keys@.contains(k) {
                        let i = choose|i: int|
                            0 <= i < old(self).keys@.len() && old(self).keys@[i] == k;
                        assert(self.keys@[i] == k);
                    } else if self.keys@.contains(k) {
                        let i = choose|i: int| 0 <= i < self.keys@.len() && self.keys@[i] == k;
                        assert(old(self).keys@[i] == k);
                    }
                }
                assert forall|i: int, j: int|
                    0 <= i < self.keys@.len() && 0 <= j < self.keys@.len() && i
                        != j implies self.keys@[i] != self.keys@[j] by {
                    assert(!old(self).keys@.contains(key));
                    if i == self.keys@.len() - 1 {
                        if old(self).keys@[j] == key {
                            assert(old(self).keys@.contains(key));
                        }
                    } else if j == self.keys@.len() - 1 {
                        if old(self).keys@[i] == key {
                            assert(old(self).keys@.contains(key));
                        }
                    } else {
                        assert(old(self).keys@[i] != old(self).keys@[j]);
                    }
                }
            }
        } else {
            assert(old(self).keys@.contains(key));
        }
    }

    /// Counts one more pair of a value of the database and a value of the
    /// save file, for a current ability.
    pub fn _add_attr(&mut self, current_ability: i16, db_attr: i8, save_attr: i8)
        requires
            old(self).wf(),
        ensures
            final(self).wf(),
            final(self).count(current_ability, db_attr, save_attr) == counted_up(
                old(self).count(current_ability, db_attr, save_attr),
                1,
            ),
            forall|k: u32|
                k != key_of(current_ability, db_attr, save_attr) ==> final(self).amount(k) == old(
                    self,
                ).amount(k),
    {
        self.add(Self::key(current_ability, db_attr, save_attr), 1);
    }
}

/// Adds the counts of one database to those of all.
pub fn add_attr(main: &mut _AttributeData, db: &_AttributeData)
    requires
        old(main).wf(),
        db.wf(),
    ensures
        final(main).wf(),
        forall|k: u32| final(main).amount(k) == counted_up(old(main).amount(k), db.amount(k)),
{
    let mut i: usize = 0;
    while i < db.keys.len()
        invariant
            i <= db.keys@.len(),
            main.wf(),
            db.wf(),
            forall|k: u32|
                main.amount(k) == if db.keys@.subrange(0, i as int).contains(k) {
                    counted_up(old(main).amount(k), db.amount(k))
                } else {
                    old(main).amount(k)
                },
        decreases db.keys@.len() - i,
    {
        let key = db.keys[i];
        let ghost before = *main;
        let ghost done = db.keys@.subrange(0, i as int);
        let ghost next = db.keys@.subrange(0, i + 1);
        main.add(key, db.amount_of(key));
        proof {
            assert(next[i as int] == key);
            assert(!done.contains(key)) by {
                if done.contains(key) {
                    let j = choose|j: int| 0 <= j < done.len() && done[j] == key;
                    assert(db.keys@[j] == db.keys@[i as int]);
                }
            }
            assert forall|k: u32|
                main.amount(k) == if next.contains(k) {
                    counted_up(old(main).amount(k), db.amount(k))
                } else {
                    old(main).amount(k)
                } by {
                if k != key {
                    if done.contains(k) {
                        let j = choose|j: int| 0 <= j < done.len() && done[j] == k;
                        assert(next[j] == k);
                    } else if next.contains(k) {
                        let j = choose|j: int| 0 <= j < next.len() && next[j] == k;
                        assert(done[j] == k);
                    }
                }
            }
        }
        i += 1;
    }
    proof {
        assert(db.keys@.subrange(0, i as int) =~= db.keys@);
        assert forall|k: u32| main.amount(k) == counted_up(old(main).amount(k), db.amount(k)) by {
            if !db.keys@.contains(k) {
                assert(db.amount(k) == 0);
            }
        }
    }
}

/// The number by which a count is put in its place in the listing: first
/// by the current ability, then by the value in the database, then by how
/// often the pair was seen, the most often first, and last by the value in
/// the save file.
pub open spec fn rank_of(key: u32, count: u64) -> u128 {
    ((key / 0x100) * 0x1_0000_0000_0000_0000_00 + (u64::MAX - count) * 0x100 + key % 0x100) as u128
}

/// The current ability of a rank.
pub open spec fn rank_ability(rank: u128) -> int {
    rank / 0x1_0000_0000_0000_0000_0000 - 0x8000
}

/// The value in the database of a rank.
pub open spec fn rank_db(rank: u128) -> int {
    rank / 0x1_0000_0000_0000_0000_00 % 0x100 - 0x80
}

/// The count of a rank.
pub open spec fn rank_count(rank: u128) -> int {
    u64::MAX - rank / 0x100 % 0x1_0000_0000_0000_0000
}

/// The value in the save file of a rank.
pub open spec fn rank_save(rank: u128) -> int {
    rank % 0x100 - 0x80
}

/// The ranks of the counts under the first `n` keys.
pub open spec fn ranks_of(data: &_AttributeData, n: int) -> Seq<u128>
    decreases n,
{
    if n <= 0 {
        Seq::empty()
    } else {
        ranks_of(data, n - 1).push(rank_of(data.keys@[n - 1], data.amount(data.keys@[n - 1])))
    }
}

/// The lines of the listing for the first `n` of `rows`: before the first
/// row of a current ability a line with the current ability, before the
/// first row of a value in the database a line with that value after a
/// tab, and for every row, after two tabs, how often the value in the save
/// file was seen with it, and the value. Every line but the first starts on
/// a new line.
pub open spec fn listing(rows: Seq<u128>, n: int) -> Seq<char>
    decreases n,
{
    if n <= 0 {
        Seq::empty()
    } else {
        let row = rows[n - 1];
        let new_ability = n == 1 || rank_ability(rows[n - 2]) != rank_ability(row);
        let new_db = new_ability || rank_db(rows[n - 2]) != rank_db(row);
        listing(rows, n - 1) + (if new_ability {
            (if n == 1 {
                Seq::<char>::empty()
            } else {
                "\n"@
            }) + "CA: "@ + decimal_text(rank_ability(row))
        } else {
            Seq::<char>::empty()
        }) + (if new_db {
            "\n\tDB Attribute: "@ + decimal_text(rank_db(row))
        } else {
            Seq::<char>::empty()
        }) + "\n\t\tx"@ + decimal_text(rank_count(row)) + ": "@ + decimal_text(rank_save(row))
    }
}

/// Whether `rows` are the ranks of the counts, in rising order.
pub open spec fn is_ranking(data: &_AttributeData, rows: Seq<u128>) -> bool {
    &&& rows.to_multiset() == ranks_of(data, data.keys@.len() as int).to_multiset()
    &&& forall|i: int, j: int| 0 <= i <= j < rows.len() ==> rows[i] <= rows[j]
}

/// `<[u128]>::sort` puts the numbers of a slice in rising order and keeps
/// every one of them.
#[verifier::external_body]
fn sort_ranks(v: &mut Vec<u128>)
    ensures
        final(v)@.to_multiset() == old(v)@.to_multiset(),
        forall|i: int, j: int| 0 <= i <= j < final(v)@.len() ==> final(v)@[i] <= final(v)@[j],
{
    v.sort()
}

/// The findings as a text: the counts listed by current ability, then by
/// the value in the database, and under each of these the values in the
/// save file, the one seen most often first.
pub fn sorted_attr_data(data: &_AttributeData) -> (s: String)
    requires
        data.wf(),
    ensures
        exists|rows: Seq<u128>| is_ranking(data, rows) && s@ == #[trigger] listing(
            rows,
            rows.len() as int,
        ),
{
    let mut rows: Vec<u128> = Vec::new();
    let mut i: usize = 0;
    while i < data.keys.len()
        invariant
            i <= data.keys@.len(),
            rows@ == ranks_of(data, i as int),
        decreases data.keys@.len() - i,
    {
        let key = data.keys[i];
        let count = data.amount_of(key);
        let rank: u128 = (key / 0x100) as u128 * 0x1_0000_0000_0000_0000_00 + (u64::MAX
            - count) as u128 * 0x100 + (key % 0x100) as u128;
        rows.push(rank);
        i += 1;
    }
    sort_ranks(&mut rows);
    let mut s = String::new();
    let mut n: usize = 0;
    assert(s@ =~= listing(rows@, 0));
    while n < rows.len()
        invariant
            n <= rows@.len(),
            s@ == listing(rows@, n as int),
        decreases rows@.len() - n,
    {
        let row = rows[n];
        let ability: i64 = (row / 0x1_0000_0000_0000_0000_0000) as i64 - 0x8000;
        let db: i64 = (row / 0x1_0000_0000_0000_0000_00 % 0x100) as i64 - 0x80;
        let count: u64 = u64::MAX - (row / 0x100 % 0x1_0000_0000_0000_0000) as u64;
        let save: i64 = (row % 0x100) as i64 - 0x80;
        let new_ability = n == 0 || rows[n - 1] / 0x1_0000_0000_0000_0000_0000 != row
            / 0x1_0000_0000_0000_0000_0000;
        let new_db = new_ability || rows[n - 1] / 0x1_0000_0000_0000_0000_00 % 0x100 != row
            / 0x1_0000_0000_0000_0000_00 % 0x100;
        let ghost before = s@;
        if new_ability {
            if n > 0 {
                s.append("\n");
            }
            s.append("CA: ");
            push_decimal(&mut s, ability);
        }
        let ghost with_ability = s@;
        if new_db {
            s.append("\n\tDB Attribute: ");
            push_decimal(&mut s, db);
        }
        let ghost with_db = s@;
        s.append("\n\t\tx");
        push_count(&mut s, count);
        s.append(": ");
        push_decimal(&mut s, save);
        proof {
            let head = if new_ability {
                (if n == 0 {
                    Seq::<char>::empty()
                } else {
                    "\n"@
                }) + "CA: "@ + decimal_text(rank_ability(row))
            } else {
                Seq::<char>::empty()
            };
            let sub = if new_db {
                "\n\tDB Attribute: "@ + decimal_text(rank_db(row))
            } else {
                Seq::<char>::empty()
            };
            assert(with_ability =~= before + head);
            assert(with_db =~= before + head + sub);
            assert(s@ =~= before + head + sub + "\n\t\tx"@ + decimal_text(rank_count(row))
                + ": "@ + decimal_text(rank_save(row)));
        }
        n += 1;
    }
    s
}

/// Appends a count in decimal digits.
fn push_count(s: &mut String, count: u64)
    ensures
        final(s)@ == old(s)@ + decimal_text(count as int),
{
    if count <= i64::MAX as u64 {
        push_decimal(s, count as i64);
    } else {
        // A count this high has twenty digits: the last goes on its own.
        push_decimal(s, (count / 10) as i64);
        push_decimal(s, (count % 10) as i64);
        proof {
            let n = count as int;
            assert(crate::chars::digits(n) == crate::chars::digits(n / 10).push(
                crate::chars::digit(n % 10),
            ));
            assert(crate::chars::digits(n % 10) == seq![crate::chars::digit(n % 10)]);
            assert(s@ =~= old(s)@ + decimal_text(n));
        }
    }
}

/// What a person is known by in a database and in a save file started from
/// it: the names, the birthplace, the nations and the club under contract.
#[derive(Clone, Debug)]
pub struct StaffKey {
    pub forename: String,
    pub surname: String,
    pub birthplace: String,
    pub nation: String,
    pub second_nation: String,
    pub club_contracted: String,
}

/// The texts of a key.
pub struct KeyTexts {
    pub forename: Seq<char>,
    pub surname: Seq<char>,
    pub birthplace: Seq<char>,
    pub nation: Seq<char>,
    pub second_nation: Seq<char>,
    pub club_contracted: Seq<char>,
}

impl View for StaffKey {
    type V = KeyTexts;

    open spec fn view(&self) -> KeyTexts {
        KeyTexts {
            forename: self.forename@,
            surname: self.surname@,
            birthplace: self.birthplace@,
            nation: self.nation@,
            second_nation: self.second_nation@,
            club_contracted: self.club_contracted@,
        }
    }
}

impl StaffKey {
    /// Whether two keys have the same texts.
    pub fn same(&self, other: &StaffKey) -> (b: bool)
        ensures
            b == (self@ == other@),
    {
        self.forename == other.forename && self.surname == other.surname && self.birthplace
            == other.birthplace && self.nation == other.nation && self.second_nation
            == other.second_nation && self.club_contracted == other.club_contracted
    }
}

/// What a person of a save file is known by; `None` where the save file
/// lacks the forename or the surname.
pub open spec fn key_texts(person: Staff, data: &Data) -> Option<KeyTexts> {
    match (data.spec_forename(person.forename_id), data.spec_surname(person.surname_id)) {
        (Some(f), Some(s)) => Some(
            KeyTexts {
                forename: crate::chars::shown_text(f.b_name@),
                surname: crate::chars::shown_text(s.b_name@),
                birthplace: person.birthplace_text(data),
                nation: Staff::nation_text(data, person.nation_id),
                second_nation: Staff::nation_text(data, person.second_nation_id),
                club_contracted: Staff::club_text(data, person.club_contracted_id),
            },
        ),
        _ => None,
    }
}

/// The texts of the keys of a list of persons, each with its person.
pub open spec fn keyed_view(list: Seq<(StaffKey, Staff)>) -> Seq<(KeyTexts, Staff)> {
    Seq::new(list.len(), |i: int| (list[i].0@, list[i].1))
}

/// The first place in a list at which a key stands.
pub open spec fn place_of(list: Seq<(KeyTexts, Staff)>, key: KeyTexts) -> Option<int>
    decreases list.len(),
{
    if list.len() == 0 {
        None
    } else {
        match place_of(list.drop_last(), key) {
            Some(i) => Some(i),
            None => if list.last().0 == key {
                Some(list.len() - 1)
            } else {
                None
            },
        }
    }
}

/// A list with one more person: taken in at the end, or, where the key of
/// the person stands in the list already, the entry of that key taken out
/// instead.
pub open spec fn toggled(list: Seq<(KeyTexts, Staff)>, key: KeyTexts, person: Staff) -> Seq<
    (KeyTexts, Staff),
> {
    match place_of(list, key) {
        Some(i) => list.remove(i),
        None => list.push((key, person)),
    }
}

/// The players among `people`, each under its key. A key that two players
/// share stands for neither. Fails at the first player whose name the save
/// file lacks, with that name.
pub open spec fn keyed(data: &Data, people: Seq<Staff>) -> Result<
    Seq<(KeyTexts, Staff)>,
    ReferenceError,
>
    decreases people.len(),
{
    if people.len() == 0 {
        Ok(Seq::empty())
    } else {
        match keyed(data, people.drop_last()) {
            Ok(list) => if data.spec_player(people.last().player_data_id) is Some {
                match key_texts(people.last(), data) {
                    Some(key) => Ok(toggled(list, key, people.last())),
                    None => Err(people.last().missing_name(data)),
                }
            } else {
                Ok(list)
            },
            Err(e) => Err(e),
        }
    }
}

/// The place in a list at which a key stands.
pub fn find_key(list: &Vec<(StaffKey, Staff)>, key: &StaffKey) -> (r: Option<usize>)
    ensures
        match r {
            Some(i) => place_of(keyed_view(list@), key@) == Some(i as int) && i < list@.len(),
            None => place_of(keyed_view(list@), key@) is None,
        },
{
    let ghost all = keyed_view(list@);
    let mut i: usize = 0;
    assert(all.subrange(0, 0) =~= Seq::<(KeyTexts, Staff)>::empty());
    while i < list.len()
        invariant
            i <= list@.len(),
            all == keyed_view(list@),
            place_of(all.subrange(0, i as int), key@) is None,
        decreases list@.len() - i,
    {
        let ghost next = all.subrange(0, i + 1);
        proof {
            assert(next.drop_last() =~= all.subrange(0, i as int));
            assert(next.last() == all[i as int]);
        }
        if list[i].0.same(key) {
            proof {
                lemma_place_of_prefix(all, key@, i + 1, all.len() as int);
                assert(all.subrange(0, all.len() as int) =~= all);
            }
            return Some(i);
        }
        i += 1;
    }
    assert(all.subrange(0, all.len() as int) =~= all);
    None
}

/// At the place of a key stands the key.
pub proof fn lemma_place_of(list: Seq<(KeyTexts, Staff)>, key: KeyTexts)
    ensures
        match place_of(list, key) {
            Some(i) => 0 <= i < list.len() && list[i].0 == key,
            None => true,
        },
    decreases list.len(),
{
    if list.len() > 0 {
        lemma_place_of(list.drop_last(), key);
    }
}

/// Where a key stands in the front of a list, it stands in the list.
pub proof fn lemma_place_of_prefix(list: Seq<(KeyTexts, Staff)>, key: KeyTexts, n: int, m: int)
    requires
        0 <= n <= m <= list.len(),
        place_of(list.subrange(0, n), key) is Some,
    ensures
        place_of(list.subrange(0, m), key) == place_of(list.subrange(0, n), key),
    decreases m - n,
{
    if n < m {
        lemma_place_of_prefix(list, key, n, m - 1);
        assert(list.subrange(0, m).drop_last() =~= list.subrange(0, m - 1));
    }
}

/// What a person of a save file is known by.
pub fn key_of_person(person: &Staff, data: &Data) -> (r: Result<StaffKey, ReferenceError>)
    requires
        data.wf(),
    ensures
        match key_texts(*person, data) {
            Some(k) => r matches Ok(key) && key@ == k,
            None => r == Err::<StaffKey, ReferenceError>(person.missing_name(data)),
        },
{
    let forename = match person.forename(data) {
        Ok(s) => s,
        Err(e) => return Err(e),
    };
    let surname = match person.surname(data) {
        Ok(s) => s,
        Err(e) => return Err(e),
    };
    Ok(
        StaffKey {
            forename,
            surname,
            birthplace: person._birthplace(data),
            nation: person.nation_name(data),
            second_nation: person.second_nation_name(data),
            club_contracted: person.club_contracted_name(data),
        },
    )
}

/// The players of a save file, each under what the player is known by. Two
/// players known by the same stand for neither. Fails where the save file
/// lacks the name of a player.
pub fn get_staff_hash(data: &Data) -> (r: Result<Vec<(StaffKey, Staff)>, ReferenceError>)
    requires
        data.wf(),
    ensures
        match keyed(data, data.people()) {
            Ok(list) => r matches Ok(v) && keyed_view(v@) == list,
            Err(e) => r == Err::<Vec<(StaffKey, Staff)>, ReferenceError>(e),
        },
{
    let mut list: Vec<(StaffKey, Staff)> = Vec::new();
    let staff = match data.staff() {
        Some(t) => t,
        None => {
            assert(keyed_view(list@) =~= Seq::<(KeyTexts, Staff)>::empty());
            return Ok(list);
        },
    };
    let n = staff.len();
    let mut i: usize = 0;
    assert(keyed_view(list@) =~= Seq::<(KeyTexts, Staff)>::empty());
    while i < n
        invariant
            i <= n,
            n == staff@.len(),
            staff.wf(),
            data.wf(),
            data.people() == current_staff(staff@, n as int),
            keyed(data, current_staff(staff@, i as int)) == Ok::<
                Seq<(KeyTexts, Staff)>,
                ReferenceError,
            >(keyed_view(list@)),
        decreases n - i,
    {
        let ghost before = current_staff(staff@, i as int);
        if staff.is_current(i) {
            let person = staff.row(i);
            proof {
                assert(current_staff(staff@, i + 1).drop_last() =~= before);
                assert(current_staff(staff@, i + 1).last() == *person);
            }
            if data.player(person.player_data_id).is_some() {
                let key = match key_of_person(person, data) {
                    Ok(k) => k,
                    Err(e) => {
                        proof {
                            lemma_keyed_stays_failed(data, staff@, i + 1, n as int);
                        }
                        return Err(e);
                    },
                };
                let ghost old_list = keyed_view(list@);
                match find_key(&list, &key) {
                    Some(at) => {
                        list.remove(at);
                        assert(keyed_view(list@) =~= old_list.remove(at as int));
                    },
                    None => {
                        let ghost k = key@;
                        list.push((key, *person));
                        assert(keyed_view(list@) =~= old_list.push((k, *person)));
                    },
                }
            }
        }
        i += 1;
    }
    Ok(list)
}

/// Once a name is lacking, more persons do not bring the list back.
pub proof fn lemma_keyed_stays_failed(data: &Data, staff: Seq<Staff>, i: int, n: int)
    requires
        0 <= i <= n,
        keyed(data, current_staff(staff, i)) is Err,
    ensures
        keyed(data, current_staff(staff, n)) == keyed(data, current_staff(staff, i)),
    decreases n - i,
{
    if i < n {
        lemma_keyed_stays_failed(data, staff, i, n - 1);
        if crate::data::table::last_with_key(staff, staff[n - 1].id) == Some(n - 1) {
            assert(current_staff(staff, n).drop_last() =~= current_staff(staff, n - 1));
        }
    }
}

impl Staff {
    /// Puts a player of a database beside the same player of a save file
    /// started from it, and takes that player out of the list of those of
    /// the save file. `None` where the save file has no player of this key,
    /// or one of the two persons is no player; the list is then left as it
    /// was. Fails where the database lacks the name of the person.
    pub fn _merge_players(
        &self,
        db: &Data,
        save: &Data,
        key: &StaffKey,
        save_staff: &mut Vec<(StaffKey, Staff)>,
    ) -> (r: Result<Option<_Player>, ReferenceError>)
        requires
            db.wf(),
            save.wf(),
        ensures
            match merged(*self, db, save, key@, keyed_view(old(save_staff)@)) {
                Merged::Lacking => r == Err::<Option<_Player>, ReferenceError>(
                    self.missing_name(db),
                ) && final(save_staff)@ == old(save_staff)@,
                Merged::Alone => r matches Ok(None) && final(save_staff)@ == old(save_staff)@,
                Merged::Pair { place, current_ability, save: in_save, db: in_db } => {
                    &&& r matches Ok(Some(p))
                    &&& p.current_ability == current_ability
                    &&& p.save == in_save
                    &&& p.db == in_db
                    &&& p.age == old(save_staff)@[place].1.age
                    &&& Some(p.forename@) == self.forename_text(db)
                    &&& Some(p.surname@) == self.surname_text(db)
                    &&& p.birthplace@ == old(save_staff)@[place].1.birthplace_text(save)
                    &&& p.nation@ == Staff::nation_short_text(
                        save,
                        old(save_staff)@[place].1.nation_id,
                    )
                    &&& p.second_nation@ == Staff::nation_short_text(
                        save,
                        old(save_staff)@[place].1.second_nation_id,
                    )
                    &&& p.club@ == Staff::club_short_text(
                        save,
                        old(save_staff)@[place].1.club_playing_id,
                    )
                    &&& final(save_staff)@ == old(save_staff)@.remove(place)
                },
            },
    {
        let db_player = match self.player_data(db) {
            Some(p) => p,
            None => return Ok(None),
        };
        let at = match find_key(save_staff, key) {
            Some(at) => at,
            None => return Ok(None),
        };
        let save_person = save_staff[at].1;
        let save_player = match save_person.player_data(save) {
            Some(p) => p,
            None => return Ok(None),
        };
        let forename = match self.forename(db) {
            Ok(s) => s,
            Err(e) => return Err(e),
        };
        let surname = match self.surname(db) {
            Ok(s) => s,
            Err(e) => return Err(e),
        };
        save_staff.remove(at);
        Ok(
            Some(
                _Player {
                    forename,
                    surname,
                    age: save_person.age,
                    birthplace: save_person._birthplace(save),
                    nation: save_person._nation_three_letter_name(save),
                    second_nation: save_person._second_nation_three_letter_name(save),
                    club: save_person._club_playing_short_name(save),
                    current_ability: save_player.current_ability,
                    save: save_player,
                    db: db_player,
                },
            ),
        )
    }
}

/// What comes of putting a person of a database beside the persons of a
/// save file.
pub ghost enum Merged {
    /// The database lacks the name of the person.
    Lacking,
    /// There is no such player in the save file, or the person is no
    /// player.
    Alone,
    /// The player of the save file at `place` is the same player.
    Pair { place: int, current_ability: i16, save: Player, db: Player },
}

/// What comes of putting a person of a database beside the persons of a
/// save file that are known by `key`.
pub open spec fn merged(
    person: Staff,
    db: &Data,
    save: &Data,
    key: KeyTexts,
    save_staff: Seq<(KeyTexts, Staff)>,
) -> Merged {
    match (db.spec_player(person.player_data_id), place_of(save_staff, key)) {
        (Some(in_db), Some(place)) => match save.spec_player(save_staff[place].1.player_data_id) {
            Some(in_save) => if person.full_name_text(db) is Some {
                Merged::Pair {
                    place,
                    current_ability: in_save.current_ability,
                    save: in_save,
                    db: in_db,
                }
            } else {
                Merged::Lacking
            },
            None => Merged::Alone,
        },
        _ => Merged::Alone,
    }
}

/// The counts of the research after the first `n` players of a database
/// have been put beside those of a save file: how often each pair is taken
/// in, and the players of the save file that are left.
pub open spec fn researched(
    db: &Data,
    save: &Data,
    db_staff: Seq<(KeyTexts, Staff)>,
    save_staff: Seq<(KeyTexts, Staff)>,
    n: int,
) -> Result<(spec_fn(u32) -> nat, Seq<(KeyTexts, Staff)>), ReferenceError>
    decreases n,
{
    if n <= 0 {
        Ok((|k: u32| 0nat, save_staff))
    } else {
        match researched(db, save, db_staff, save_staff, n - 1) {
            Ok((hits, left)) => match merged(
                db_staff[n - 1].1,
                db,
                save,
                db_staff[n - 1].0,
                left,
            ) {
                Merged::Lacking => Err(db_staff[n - 1].1.missing_name(db)),
                Merged::Alone => Ok((hits, left)),
                Merged::Pair { place, current_ability, save: in_save, db: in_db } => Ok(
                    (
                        |k: u32|
                            hits(k) + hits_of(
                                current_ability,
                                in_save,
                                in_db,
                                ATTRIBUTES as int,
                                k,
                            ),
                        left.remove(place),
                    ),
                ),
            },
            Err(e) => Err(e),
        }
    }
}

/// What the research comes to: how often each pair is taken in. Fails where
/// the database or the save file lacks the name of a player: with the first
/// such name of the database, or else of the save file, or else of a player
/// of the database who is put beside one of the save file.
pub open spec fn research_of(save: &Data, db: &Data) -> Result<
    spec_fn(u32) -> nat,
    ReferenceError,
> {
    match keyed(db, db.people()) {
        Ok(db_staff) => match keyed(save, save.people()) {
            Ok(save_staff) => match researched(
                db,
                save,
                db_staff,
                save_staff,
                db_staff.len() as int,
            ) {
                Ok((hits, _)) => Ok(hits),
                Err(e) => Err(e),
            },
            Err(e) => Err(e),
        },
        Err(e) => Err(e),
    }
}

/// Takes the players of a database and of a save file started from it
/// into the research: every player of the database who is known by the
/// same in the save file, with every attribute that counts.
pub fn add_to_research(save: &Data, db: &Data) -> (r: Result<_AttributeData, ReferenceError>)
    requires
        save.wf(),
        db.wf(),
    ensures
        match research_of(save, db) {
            Ok(hits) => r matches Ok(found) && found.wf() && forall|k: u32| #[trigger]
                found.amount(k) == counted_many(0, hits(k)),
            Err(e) => r matches Err(failed) && failed == e,
        },
{
    let db_staff = match get_staff_hash(db) {
        Ok(list) => list,
        Err(e) => return Err(e),
    };
    let mut save_staff = match get_staff_hash(save) {
        Ok(list) => list,
        Err(e) => return Err(e),
    };
    let ghost all_db = keyed_view(db_staff@);
    let ghost all_save = keyed_view(save_staff@);
    let mut found = _AttributeData::new();
    let mut i: usize = 0;
    while i < db_staff.len()
        invariant
            i <= db_staff@.len(),
            save.wf(),
            db.wf(),
            found.wf(),
            all_db == keyed_view(db_staff@),
            keyed(db, db.people()) == Ok::<Seq<(KeyTexts, Staff)>, ReferenceError>(all_db),
            keyed(save, save.people()) == Ok::<Seq<(KeyTexts, Staff)>, ReferenceError>(all_save),
            match researched(db, save, all_db, all_save, i as int) {
                Ok((hits, left)) => left == keyed_view(save_staff@) && forall|k: u32| #[trigger]
                    found.amount(k) == counted_many(0, hits(k)),
                Err(_) => false,
            },
        decreases db_staff@.len() - i,
    {
        let ghost before = researched(db, save, all_db, all_save, i as int).unwrap();
        let ghost was = found;
        let ghost left = save_staff@;
        assert(all_db[i as int] == (db_staff@[i as int].0@, db_staff@[i as int].1));
        match db_staff[i].1._merge_players(db, save, &db_staff[i].0, &mut save_staff) {
            Ok(Some(player)) => {
                player._add_to_attr_data(&mut found);
                proof {
                    let now = researched(db, save, all_db, all_save, i + 1).unwrap();
                    assert forall|k: u32| #[trigger]
                        found.amount(k) == counted_many(0, (now.0)(k)) by {
                        assert(was.amount(k) == counted_many(0, (before.0)(k)));
                        assert(found.amount(k) == counted_many(
                            was.amount(k),
                            player.hits(ATTRIBUTES as int, k),
                        ));
                    }
                    match merged(
                        db_staff@[i as int].1,
                        db,
                        save,
                        db_staff@[i as int].0@,
                        keyed_view(left),
                    ) {
                        Merged::Pair { place, .. } => {
                            lemma_place_of(keyed_view(left), db_staff@[i as int].0@);
                            lemma_keyed_view_remove(left, place);
                        },
                        _ => {},
                    }
                    assert(keyed_view(save_staff@) == now.1);
                }
            },
            Ok(None) => {},
            Err(e) => {
                proof {
                    lemma_researched_stays_failed(
                        db,
                        save,
                        all_db,
                        all_save,
                        i + 1,
                        all_db.len() as int,
                    );
                }
                return Err(e);
            },
        }
        i += 1;
    }
    Ok(found)
}

/// The keys of a list without one of its entries are the keys of the list
/// without that one.
pub proof fn lemma_keyed_view_remove(list: Seq<(StaffKey, Staff)>, i: int)
    requires
        0 <= i < list.len(),
    ensures
        keyed_view(list.remove(i)) == keyed_view(list).remove(i),
{
    assert(keyed_view(list.remove(i)) =~= keyed_view(list).remove(i));
}

/// Once a name is lacking, more players do not bring the research back.
pub proof fn lemma_researched_stays_failed(
    db: &Data,
    save: &Data,
    db_staff: Seq<(KeyTexts, Staff)>,
    save_staff: Seq<(KeyTexts, Staff)>,
    i: int,
    n: int,
)
    requires
        0 <= i <= n,
        researched(db, save, db_staff, save_staff, i) is Err,
    ensures
        researched(db, save, db_staff, save_staff, n) matches Err(e) && researched(
            db,
            save,
            db_staff,
            save_staff,
            i,
        ) matches Err(first) && e == first,
    decreases n - i,
{
    if i < n {
        lemma_researched_stays_failed(db, save, db_staff, save_staff, i, n - 1);
    }
}

/// Different pairs are counted under different keys.
pub proof fn lemma_key_of_injective(a: (i16, i8, i8), b: (i16, i8, i8))
    requires
        key_of(a.0, a.1, a.2) == key_of(b.0, b.1, b.2),
    ensures
        a == b,
{
}

} // verus!
