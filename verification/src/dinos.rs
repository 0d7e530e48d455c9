//! The table of creatures and the ledger of what happened to them.

use vstd::prelude::*;
use vstd::string::*;
use crate::parts::DinoParts;
use crate::text::{file_name_of, get_file_name, names_file, same_text};

verus! {

/// How a creature came to its owner.
#[derive(Debug, Clone, Copy, PartialEq, Eq, Structural)]
pub enum TransactionKind {
    Hatch,
    Gift,
}

/// One entry of the ledger: the creature came to `user_id`, hatched or as
/// a gift of `gifter_id`. Entries are only ever added.
#[derive(Debug, Clone, Copy, PartialEq, Eq)]
pub struct Transaction {
    pub dino_id: i64,
    pub user_id: u64,
    pub gifter_id: Option<u64>,
    pub kind: TransactionKind,
    pub created_at: i64,
}

/// One creature.
#[derive(Debug, Clone)]
pub struct DinoRecord {
    pub id: i64,
    pub owner_id: u64,
    pub name: String,
    pub filename: String,
    pub created_at: i64,
    pub body: String,
    pub mouth: String,
    pub eyes: String,
}

/// A creature as the contracts see it.
pub struct DinoRow {
    pub id: int,
    pub owner_id: u64,
    pub name: Seq<char>,
    pub filename: Seq<char>,
    pub created_at: i64,
    pub body: Seq<char>,
    pub mouth: Seq<char>,
    pub eyes: Seq<char>,
}

impl View for DinoRecord {
    type V = DinoRow;

    open spec fn view(&self) -> DinoRow {
        DinoRow {
            id: self.id as int,
            owner_id: self.owner_id,
            name: self.name@,
            filename: self.filename@,
            created_at: self.created_at,
            body: self.body@,
            mouth: self.mouth@,
            eyes: self.eyes@,
        }
    }
}

impl DinoRow {
    /// The three parts that the creature is made of.
    pub open spec fn tuple(self) -> (Seq<char>, Seq<char>, Seq<char>) {
        (self.body, self.mouth, self.eyes)
    }
}

impl DinoRecord {
    /// A copy of the record.
    pub fn duplicate(&self) -> (copy: DinoRecord)
        ensures
            copy@ == self@,
    {
        DinoRecord {
            id: self.id,
            owner_id: self.owner_id,
            name: self.name.clone(),
            filename: self.filename.clone(),
            created_at: self.created_at,
            body: self.body.clone(),
            mouth: self.mouth.clone(),
            eyes: self.eyes.clone(),
        }
    }
}

/// The most creatures that a collection shows.
pub const COLLECTION_LIMIT: usize = 25;

/// The rows of `dinos` that `owner` owns, in their order.
pub open spec fn owned_by(dinos: Seq<DinoRow>, owner: u64) -> Seq<DinoRow>
    decreases dinos.len(),
{
    if dinos.len() == 0 {
        Seq::empty()
    } else if dinos.last().owner_id == owner {
        owned_by(dinos.drop_last(), owner).push(dinos.last())
    } else {
        owned_by(dinos.drop_last(), owner)
    }
}

/// The number of `entries` about creatures of `dinos` that `owner` owns.
pub open spec fn entries_about_owned(
    entries: Seq<Transaction>,
    dinos: Seq<DinoRow>,
    owner: u64,
) -> nat
    decreases entries.len(),
{
    if entries.len() == 0 {
        0
    } else {
        let rest = entries_about_owned(entries.drop_last(), dinos, owner);
        let about = entries.last().dino_id - 1;
        if 0 <= about < dinos.len() && dinos[about].owner_id == owner {
            rest + 1
        } else {
            rest
        }
    }
}

/// The first `limit` items of `s`, or all of them where there are fewer.
pub open spec fn first_of<T>(s: Seq<T>, limit: int) -> Seq<T> {
    if s.len() <= limit {
        s
    } else {
        s.take(limit)
    }
}

/// The state of the table: the creatures in the order of their hatching,
/// and the ledger in the order of its entries.
pub struct Herd {
    pub dinos: Seq<DinoRow>,
    pub ledger: Seq<Transaction>,
}

impl Herd {
    /// Whether a creature is called `name`.
    pub open spec fn has_name(self, name: Seq<char>) -> bool {
        exists|i: int| 0 <= i < self.dinos.len() && #[trigger] self.dinos[i].name == name
    }

    /// The position of the creature called `name`.
    pub open spec fn position_of(self, name: Seq<char>) -> int {
        choose|i: int| 0 <= i < self.dinos.len() && #[trigger] self.dinos[i].name == name
    }

    /// Whether a creature other than the one at `except` is called `name`.
    pub open spec fn name_taken_by_other(self, name: Seq<char>, except: int) -> bool {
        exists|i: int|
            0 <= i < self.dinos.len() && i != except && #[trigger] self.dinos[i].name == name
    }

    /// Whether a creature is made of these three parts.
    pub open spec fn has_tuple(self, tuple: (Seq<char>, Seq<char>, Seq<char>)) -> bool {
        exists|i: int| 0 <= i < self.dinos.len() && #[trigger] self.dinos[i].tuple() == tuple
    }

    /// Whether `id` is that of a creature.
    pub open spec fn has_id(self, id: int) -> bool {
        1 <= id <= self.dinos.len()
    }

    /// Creatures are numbered from one in the order of their hatching. No
    /// two share a name, and no two are made of the same three parts. Every
    /// entry of the ledger is about a creature of the table, and names a
    /// giver exactly where it records a gift.
    pub open spec fn wf(self) -> bool {
        &&& self.dinos.len() <= i64::MAX
        &&& forall|i: int| 0 <= i < self.dinos.len() ==> (#[trigger] self.dinos[i]).id == i + 1
        &&& forall|i: int, j: int|
            0 <= i < j < self.dinos.len() ==> (#[trigger] self.dinos[i]).name != (
            #[trigger] self.dinos[j]).name
        &&& forall|i: int, j: int|
            0 <= i < j < self.dinos.len() ==> (#[trigger] self.dinos[i]).tuple() != (
            #[trigger] self.dinos[j]).tuple()
        &&& forall|k: int|
            0 <= k < self.ledger.len() ==> self.has_id((#[trigger] self.ledger[k]).dino_id as int)
                && (self.ledger[k].kind is Gift <==> self.ledger[k].gifter_id is Some)
    }

    /// Whether one more creature can be numbered.
    pub open spec fn has_room(self) -> bool {
        self.dinos.len() < i64::MAX
    }

    /// The table after a creature hatched for `owner`: one more row, with
    /// the next number, and one more entry that records the hatch.
    pub open spec fn after_insert(
        self,
        owner: u64,
        name: Seq<char>,
        filename: Seq<char>,
        tuple: (Seq<char>, Seq<char>, Seq<char>),
        now: i64,
    ) -> Herd {
        Herd {
            dinos: self.dinos.push(
                DinoRow {
                    id: self.dinos.len() as int + 1,
                    owner_id: owner,
                    name,
                    filename,
                    created_at: now,
                    body: tuple.0,
                    mouth: tuple.1,
                    eyes: tuple.2,
                },
            ),
            ledger: self.ledger.push(
                Transaction {
                    dino_id: (self.dinos.len() + 1) as i64,
                    user_id: owner,
                    gifter_id: None,
                    kind: TransactionKind::Hatch,
                    created_at: now,
                },
            ),
        }
    }

    /// The table after the creature `id` was renamed: that row alone
    /// changes, and only in its name.
    pub open spec fn after_rename(self, id: int, name: Seq<char>) -> Herd {
        Herd { dinos: self.dinos.update(id - 1, DinoRow { name, ..self.dinos[id - 1] }), ..self }
    }

    /// The table after `gifter` gave the creature `id` to `recipient`: that
    /// row alone changes, and only in its owner, and one more entry records
    /// the gift.
    pub open spec fn after_gift(self, id: int, gifter: u64, recipient: u64, now: i64) -> Herd {
        Herd {
            dinos: self.dinos.update(
                id - 1,
                DinoRow { owner_id: recipient, ..self.dinos[id - 1] },
            ),
            ledger: self.ledger.push(
                Transaction {
                    dino_id: id as i64,
                    user_id: recipient,
                    gifter_id: Some(gifter),
                    kind: TransactionKind::Gift,
                    created_at: now,
                },
            ),
        }
    }
}

/// Why a creature could not be entered into the table.
#[derive(Debug, Clone, Copy, PartialEq, Eq, Structural)]
pub enum InsertError {
    /// A creature made of the same three parts exists.
    DuplicateParts,
    /// A creature of the same name exists.
    NameConflict,
}

/// The name is that of another creature.
#[derive(Debug, Clone, Copy, PartialEq, Eq, Structural)]
pub struct NameConflict;

/// The three parts as the table keeps them: by their file names.
pub open spec fn tuple_of(parts: DinoParts) -> (Seq<char>, Seq<char>, Seq<char>) {
    (file_name_of(parts.body@), file_name_of(parts.mouth@), file_name_of(parts.eyes@))
}

/// What a user sees of their collection.
pub struct DinoCollection {
    /// The number of creatures that the user owns.
    pub dino_count: usize,
    /// The number of ledger entries about those creatures.
    pub transaction_count: usize,
    /// The first of those creatures, up to the limit.
    pub dinos: Vec<DinoRecord>,
}

/// The table of creatures and its ledger.
pub struct DinoTable {
    dinos: Vec<DinoRecord>,
    ledger: Vec<Transaction>,
}

impl View for DinoTable {
    type V = Herd;

    closed spec fn view(&self) -> Herd {
        Herd { dinos: self.dinos.deep_view(), ledger: self.ledger@ }
    }
}

impl DeepView for DinoRecord {
    type V = DinoRow;

    open spec fn deep_view(&self) -> DinoRow {
        self@
    }
}

impl DinoTable {
    /// An empty table.
    pub fn new() -> (table: DinoTable)
        ensures
            table@.dinos.len() == 0,
            table@.ledger.len() == 0,
            table@.wf(),
    {
        DinoTable { dinos: Vec::new(), ledger: Vec::new() }
    }

    /// The number of creatures.
    pub fn len(&self) -> (n: usize)
        ensures
            n == self@.dinos.len(),
    {
        self.dinos.len()
    }

    /// The number of ledger entries.
    pub fn ledger_len(&self) -> (n: usize)
        ensures
            n == self@.ledger.len(),
    {
        self.ledger.len()
    }

    /// The ledger entry at `index`.
    pub fn ledger_entry(&self, index: usize) -> (entry: Option<Transaction>)
        ensures
            entry == if index < self@.ledger.len() {
                Some(self@.ledger[index as int])
            } else {
                None
            },
    {
        if index < self.ledger.len() {
            Some(self.ledger[index])
        } else {
            None
        }
    }

    /// The creature numbered `id`.
    pub fn get(&self, id: i64) -> (record: Option<DinoRecord>)
        ensures
            match record {
                Some(r) => self@.has_id(id as int) && r@ == self@.dinos[id - 1],
                None => !self@.has_id(id as int),
            },
    {
        if id < 1 {
            return None;
        }
        let at: u64 = (id - 1) as u64;
        let count: u64 = self.dinos.len() as u64;
        if at < count {
            Some(self.dinos[at as usize].duplicate())
        } else {
            None
        }
    }

    /// The position of the creature called `name`.
    fn find_name(&self, name: &str) -> (found: Option<usize>)
        ensures
            match found {
                Some(i) => i < self@.dinos.len() && self@.dinos[i as int].name == name@,
                None => !self@.has_name(name@),
            },
    {
        let mut i: usize = 0;
        while i < self.dinos.len()
            invariant
                i <= self.dinos.len(),
                forall|j: int| 0 <= j < i ==> (#[trigger] self@.dinos[j]).name != name@,
            decreases self.dinos.len() - i,
        {
            if same_text(self.dinos[i].name.as_str(), name) {
                return Some(i);
            }
            i += 1;
        }
        None
    }

    /// Looks the creature called `name` up.
    pub fn get_dino_record(&self, name: &str) -> (record: Option<DinoRecord>)
        requires
            self@.wf(),
        ensures
            match record {
                Some(r) => self@.has_name(name@) && r@ == self@.dinos[self@.position_of(name@)],
                None => !self@.has_name(name@),
            },
    {
        match self.find_name(name) {
            Some(i) => {
                assert(self@.dinos[i as int].name == name@);
                Some(self.dinos[i].duplicate())
            },
            None => None,
        }
    }

    /// Whether a creature is made of the three parts.
    pub fn has_parts(&self, body: &str, mouth: &str, eyes: &str) -> (taken: bool)
        ensures
            taken == self@.has_tuple((body@, mouth@, eyes@)),
    {
        let mut i: usize = 0;
        while i < self.dinos.len()
            invariant
                i <= self.dinos.len(),
                forall|j: int|
                    0 <= j < i ==> (#[trigger] self@.dinos[j]).tuple() != (body@, mouth@, eyes@),
            decreases self.dinos.len() - i,
        {
            let d = &self.dinos[i];
            if same_text(d.body.as_str(), body) && same_text(d.mouth.as_str(), mouth) && same_text(
                d.eyes.as_str(),
                eyes,
            ) {
                assert(self@.dinos[i as int].tuple() == (body@, mouth@, eyes@));
                return true;
            }
            i += 1;
        }
        false
    }
}

impl DinoTable {
    /// Whether one more creature can be numbered.
    pub fn has_room(&self) -> (room: bool)
        ensures
            room == self@.has_room(),
    {
        (self.dinos.len() as u64) < (i64::MAX as u64)
    }

    /// Whether a creature is made of the three parts, told by their file
    /// names.
    pub fn are_parts_duplicate(&self, parts: &DinoParts) -> (duplicate: bool)
        requires
            parts.has_paths(),
        ensures
            duplicate == self@.has_tuple(tuple_of(*parts)),
    {
        let body = get_file_name(parts.body.as_str());
        let mouth = get_file_name(parts.mouth.as_str());
        let eyes = get_file_name(parts.eyes.as_str());
        self.has_parts(body.as_str(), mouth.as_str(), eyes.as_str())
    }

    /// Enters a creature made of `parts` for `user_id`, with its image at
    /// `file_path`, and records the hatch in the ledger. Refused, with
    /// nothing changed, where the parts or the name are taken. The step of
    /// the table alone: the owner's cooldown is the recorder's to start.
    pub(crate) fn enter(
        &mut self,
        user_id: u64,
        parts: &DinoParts,
        file_path: &str,
        now: i64,
    ) -> (result: Result<i64, InsertError>)
        requires
            old(self)@.wf(),
            old(self)@.has_room(),
            parts.has_paths(),
            names_file(file_path@),
        ensures
            final(self)@.wf(),
            match result {
                Ok(id) => {
                    &&& !old(self)@.has_tuple(tuple_of(*parts))
                    &&& !old(self)@.has_name(parts.name@)
                    &&& id == old(self)@.dinos.len() + 1
                    &&& final(self)@ == old(self)@.after_insert(
                        user_id,
                        parts.name@,
                        file_name_of(file_path@),
                        tuple_of(*parts),
                        now,
                    )
                },
                Err(InsertError::DuplicateParts) => {
                    &&& old(self)@.has_tuple(tuple_of(*parts))
                    &&& final(self)@ == old(self)@
                },
                Err(InsertError::NameConflict) => {
                    &&& !old(self)@.has_tuple(tuple_of(*parts))
                    &&& old(self)@.has_name(parts.name@)
                    &&& final(self)@ == old(self)@
                },
            },
    {
        let body = get_file_name(parts.body.as_str());
        let mouth = get_file_name(parts.mouth.as_str());
        let eyes = get_file_name(parts.eyes.as_str());
        if self.has_parts(body.as_str(), mouth.as_str(), eyes.as_str()) {
            return Err(InsertError::DuplicateParts);
        }
        if self.find_name(parts.name.as_str()).is_some() {
            return Err(InsertError::NameConflict);
        }
        let id: i64 = (self.dinos.len() as u64 + 1) as i64;
        let record = DinoRecord {
            id,
            owner_id: user_id,
            name: parts.name.clone(),
            filename: get_file_name(file_path),
            created_at: now,
            body,
            mouth,
            eyes,
        };
        let ghost row = record@;
        self.dinos.push(record);
        self.ledger.push(
            Transaction {
                dino_id: id,
                user_id,
                gifter_id: None,
                kind: TransactionKind::Hatch,
                created_at: now,
            },
        );
        proof {
            assert(self.dinos.deep_view() =~= old(self).dinos.deep_view().push(row));
            let before = old(self)@;
            let after = self@;
            assert forall|i: int, j: int| 0 <= i < j < after.dinos.len() implies (
            #[trigger] after.dinos[i]).name != (#[trigger] after.dinos[j]).name by {
                if j == before.dinos.len() {
                    assert(before.dinos[i].name != parts.name@);
                }
            }
            assert forall|i: int, j: int| 0 <= i < j < after.dinos.len() implies (
            #[trigger] after.dinos[i]).tuple() != (#[trigger] after.dinos[j]).tuple() by {
                if j == before.dinos.len() {
                    assert(before.dinos[i].tuple() != tuple_of(*parts));
                }
            }
        }
        Ok(id)
    }

    /// Gives the creature numbered `dino_id` the name `new_name`. Refused,
    /// with nothing changed, where another creature has that name. An
    /// unknown number changes nothing.
    pub fn update_dino_name(&mut self, dino_id: i64, new_name: &str) -> (result: Result<
        (),
        NameConflict,
    >)
        requires
            old(self)@.wf(),
        ensures
            final(self)@.wf(),
            result is Err <==> old(self)@.has_id(dino_id as int) && old(self)@.name_taken_by_other(
                new_name@,
                dino_id - 1,
            ),
            final(self)@ == if result is Ok && old(self)@.has_id(dino_id as int) {
                old(self)@.after_rename(dino_id as int, new_name@)
            } else {
                old(self)@
            },
    {
        if dino_id < 1 || (dino_id - 1) as u64 >= self.dinos.len() as u64 {
            return Ok(());
        }
        let at: usize = (dino_id - 1) as usize;
        match self.find_name(new_name) {
            Some(other) => {
                if other != at {
                    assert(self@.dinos[other as int].name == new_name@);
                    return Err(NameConflict);
                }
                assert forall|i: int|
                    0 <= i < self@.dinos.len() && i != at implies (#[trigger] self@.dinos[i]).name
                    != new_name@ by {
                    assert(self@.dinos[at as int].name == new_name@);
                }
            },
            None => {},
        }
        let mut record = self.dinos[at].duplicate();
        record.name = String::from_str(new_name);
        let ghost row = record@;
        self.dinos.set(at, record);
        proof {
            assert(self.dinos.deep_view() =~= old(self).dinos.deep_view().update(at as int, row));
            let before = old(self)@;
            let after = self@;
            assert(after == before.after_rename(dino_id as int, new_name@));
            assert forall|i: int, j: int| 0 <= i < j < after.dinos.len() implies (
            #[trigger] after.dinos[i]).name != (#[trigger] after.dinos[j]).name by {
                assert(before.dinos[i].name != before.dinos[j].name);
            }
            assert forall|i: int, j: int| 0 <= i < j < after.dinos.len() implies (
            #[trigger] after.dinos[i]).tuple() != (#[trigger] after.dinos[j]).tuple() by {
                assert(before.dinos[i].tuple() != before.dinos[j].tuple());
            }
        }
        Ok(())
    }

    /// Hands the creature numbered `dino_id` from `gifter_id` over to
    /// `recipient_id` and records the gift in the ledger. Returns whether
    /// there is such a creature; an unknown number changes nothing. The
    /// step of the table alone: the recipient's record is the recorder's
    /// to enter.
    pub(crate) fn hand_over(&mut self, dino_id: i64, gifter_id: u64, recipient_id: u64, now: i64) -> (given:
        bool)
        requires
            old(self)@.wf(),
        ensures
            final(self)@.wf(),
            given == old(self)@.has_id(dino_id as int),
            final(self)@ == if given {
                old(self)@.after_gift(dino_id as int, gifter_id, recipient_id, now)
            } else {
                old(self)@
            },
    {
        if dino_id < 1 || (dino_id - 1) as u64 >= self.dinos.len() as u64 {
            return false;
        }
        let at: usize = (dino_id - 1) as usize;
        let mut record = self.dinos[at].duplicate();
        record.owner_id = recipient_id;
        let ghost row = record@;
        self.dinos.set(at, record);
        self.ledger.push(
            Transaction {
                dino_id,
                user_id: recipient_id,
                gifter_id: Some(gifter_id),
                kind: TransactionKind::Gift,
                created_at: now,
            },
        );
        proof {
            assert(self.dinos.deep_view() =~= old(self).dinos.deep_view().update(at as int, row));
            let before = old(self)@;
            let after = self@;
            assert(after == before.after_gift(dino_id as int, gifter_id, recipient_id, now));
            assert forall|i: int, j: int| 0 <= i < j < after.dinos.len() implies (
            #[trigger] after.dinos[i]).name != (#[trigger] after.dinos[j]).name by {
                assert(before.dinos[i].name != before.dinos[j].name);
            }
            assert forall|i: int, j: int| 0 <= i < j < after.dinos.len() implies (
            #[trigger] after.dinos[i]).tuple() != (#[trigger] after.dinos[j]).tuple() by {
                assert(before.dinos[i].tuple() != before.dinos[j].tuple());
            }
            assert forall|k: int| 0 <= k < after.ledger.len() implies after.has_id(
                (#[trigger] after.ledger[k]).dino_id as int,
            ) && (after.ledger[k].kind is Gift <==> after.ledger[k].gifter_id is Some) by {
                if k < before.ledger.len() {
                    assert(before.has_id(before.ledger[k].dino_id as int));
                }
            }
        }
        true
    }

    /// What `user_id` owns: the count, the first creatures up to the limit,
    /// and the number of ledger entries about creatures of theirs.
    pub fn fetch_collection(&self, user_id: u64) -> (collection: DinoCollection)
        ensures
            collection.dino_count == owned_by(self@.dinos, user_id).len(),
            collection.dinos.deep_view() == first_of(
                owned_by(self@.dinos, user_id),
                COLLECTION_LIMIT as int,
            ),
            collection.transaction_count == entries_about_owned(
                self@.ledger,
                self@.dinos,
                user_id,
            ),
    {
        let ghost rows = self@.dinos;
        let ghost entries = self@.ledger;
        let mut shown: Vec<DinoRecord> = Vec::new();
        let mut dino_count: usize = 0;
        let mut i: usize = 0;
        assert(rows.take(0) =~= Seq::<DinoRow>::empty());
        while i < self.dinos.len()
            invariant
                i <= self.dinos.len(),
                rows == self@.dinos,
                dino_count <= i,
                dino_count == owned_by(rows.take(i as int), user_id).len(),
                shown.deep_view() == first_of(
                    owned_by(rows.take(i as int), user_id),
                    COLLECTION_LIMIT as int,
                ),
            decreases self.dinos.len() - i,
        {
            let ghost upto = rows.take(i + 1);
            assert(upto.drop_last() =~= rows.take(i as int));
            assert(upto.last() == rows[i as int]);
            if self.dinos[i].owner_id == user_id {
                if dino_count < COLLECTION_LIMIT {
                    let ghost before = shown.deep_view();
                    shown.push(self.dinos[i].duplicate());
                    assert(shown.deep_view() =~= before.push(rows[i as int]));
                } else {
                    let ghost owned = owned_by(rows.take(i as int), user_id);
                    assert(owned.push(rows[i as int]).take(COLLECTION_LIMIT as int) =~= owned.take(
                        COLLECTION_LIMIT as int,
                    ));
                }
                dino_count += 1;
            }
            i += 1;
        }
        assert(rows.take(i as int) =~= rows);
        let mut transaction_count: usize = 0;
        let mut k: usize = 0;
        assert(entries.take(0) =~= Seq::<Transaction>::empty());
        while k < self.ledger.len()
            invariant
                k <= self.ledger.len(),
                rows == self@.dinos,
                entries == self@.ledger,
                transaction_count <= k,
                transaction_count == entries_about_owned(entries.take(k as int), rows, user_id),
            decreases self.ledger.len() - k,
        {
            let ghost upto = entries.take(k + 1);
            assert(upto.drop_last() =~= entries.take(k as int));
            assert(upto.last() == entries[k as int]);
            let entry = self.ledger[k];
            if entry.dino_id >= 1 && ((entry.dino_id - 1) as u64) < (self.dinos.len() as u64) {
                if self.dinos[(entry.dino_id - 1) as usize].owner_id == user_id {
                    transaction_count += 1;
                }
            }
            k += 1;
        }
        assert(entries.take(k as int) =~= entries);
        DinoCollection { dino_count, transaction_count, dinos: shown }
    }
}

/// One call that changes the table, as it appears in a history of calls.
pub enum TableCall {
    Insert {
        owner: u64,
        name: Seq<char>,
        filename: Seq<char>,
        tuple: (Seq<char>, Seq<char>, Seq<char>),
        now: i64,
    },
    Rename { id: int, name: Seq<char> },
    Gift { id: int, gifter: u64, recipient: u64, now: i64 },
}

impl Herd {
    /// The table after `call`: changed where the call is accepted, and
    /// otherwise as before.
    pub open spec fn after(self, call: TableCall) -> Herd {
        match call {
            TableCall::Insert { owner, name, filename, tuple, now } => if !self.has_tuple(tuple)
                && !self.has_name(name) && self.has_room() {
                self.after_insert(owner, name, filename, tuple, now)
            } else {
                self
            },
            TableCall::Rename { id, name } => if self.has_id(id) && !self.name_taken_by_other(
                name,
                id - 1,
            ) {
                self.after_rename(id, name)
            } else {
                self
            },
            TableCall::Gift { id, gifter, recipient, now } => if self.has_id(id) {
                self.after_gift(id, gifter, recipient, now)
            } else {
                self
            },
        }
    }

    /// The table after the `calls`, made in order.
    pub open spec fn after_all(self, calls: Seq<TableCall>) -> Herd
        decreases calls.len(),
    {
        if calls.len() == 0 {
            self
        } else {
            self.after_all(calls.drop_last()).after(calls.last())
        }
    }
}

/// Every call keeps the table sound.
pub proof fn lemma_call_keeps_table_wf(herd: Herd, call: TableCall)
    requires
        herd.wf(),
    ensures
        herd.after(call).wf(),
{
    let after = herd.after(call);
    if after != herd {
        match call {
            TableCall::Insert { owner, name, filename, tuple, now } => {
                assert forall|i: int, j: int| 0 <= i < j < after.dinos.len() implies (
                #[trigger] after.dinos[i]).name != (#[trigger] after.dinos[j]).name by {
                    if j == herd.dinos.len() {
                        assert(herd.dinos[i].name != name);
                    }
                }
                assert forall|i: int, j: int| 0 <= i < j < after.dinos.len() implies (
                #[trigger] after.dinos[i]).tuple() != (#[trigger] after.dinos[j]).tuple() by {
                    if j == herd.dinos.len() {
                        assert(herd.dinos[i].tuple() != tuple);
                    }
                }
            },
            TableCall::Rename { id, name } => {
                assert forall|i: int, j: int| 0 <= i < j < after.dinos.len() implies (
                #[trigger] after.dinos[i]).name != (#[trigger] after.dinos[j]).name by {
                    assert(herd.dinos[i].name != herd.dinos[j].name);
                    if i == id - 1 {
                        assert(herd.dinos[j].name != name);
                    }
                    if j == id - 1 {
                        assert(herd.dinos[i].name != name);
                    }
                }
                assert forall|i: int, j: int| 0 <= i < j < after.dinos.len() implies (
                #[trigger] after.dinos[i]).tuple() != (#[trigger] after.dinos[j]).tuple() by {
                    assert(herd.dinos[i].tuple() != herd.dinos[j].tuple());
                }
            },
            TableCall::Gift { id, gifter, recipient, now } => {
                assert forall|i: int, j: int| 0 <= i < j < after.dinos.len() implies (
                #[trigger] after.dinos[i]).name != (#[trigger] after.dinos[j]).name by {
                    assert(herd.dinos[i].name != herd.dinos[j].name);
                }
                assert forall|i: int, j: int| 0 <= i < j < after.dinos.len() implies (
                #[trigger] after.dinos[i]).tuple() != (#[trigger] after.dinos[j]).tuple() by {
                    assert(herd.dinos[i].tuple() != herd.dinos[j].tuple());
                }
                assert forall|k: int| 0 <= k < after.ledger.len() implies after.has_id(
                    (#[trigger] after.ledger[k]).dino_id as int,
                ) && (after.ledger[k].kind is Gift <==> after.ledger[k].gifter_id is Some) by {
                    if k < herd.ledger.len() {
                        assert(herd.has_id(herd.ledger[k].dino_id as int));
                    }
                }
            },
        }
    }
}

/// Whatever creatures are entered, renamed and given away, in whatever
/// order, no two creatures of the table are ever made of the same three
/// parts, and no two share a name.
pub proof fn lemma_no_two_creatures_alike(start: Herd, calls: Seq<TableCall>, i: int, j: int)
    requires
        start.wf(),
        0 <= i < start.after_all(calls).dinos.len(),
        0 <= j < start.after_all(calls).dinos.len(),
        i != j,
    ensures
        start.after_all(calls).wf(),
        start.after_all(calls).dinos[i].tuple() != start.after_all(calls).dinos[j].tuple(),
        start.after_all(calls).dinos[i].name != start.after_all(calls).dinos[j].name,
{
    lemma_calls_keep_table_wf(start, calls);
    let end = start.after_all(calls);
    if i < j {
        assert(end.dinos[i].tuple() != end.dinos[j].tuple());
    } else {
        assert(end.dinos[j].tuple() != end.dinos[i].tuple());
    }
}

/// Every history of calls keeps the table sound.
pub proof fn lemma_calls_keep_table_wf(start: Herd, calls: Seq<TableCall>)
    requires
        start.wf(),
    ensures
        start.after_all(calls).wf(),
    decreases calls.len(),
{
    if calls.len() > 0 {
        lemma_calls_keep_table_wf(start, calls.drop_last());
        lemma_call_keeps_table_wf(start.after_all(calls.drop_last()), calls.last());
    }
}

/// A creature made of parts that the table holds is never entered, and a
/// creature that is entered leaves all others as they were.
pub proof fn lemma_insert_refuses_duplicates(
    herd: Herd,
    owner: u64,
    name: Seq<char>,
    filename: Seq<char>,
    tuple: (Seq<char>, Seq<char>, Seq<char>),
    now: i64,
)
    requires
        herd.wf(),
    ensures
        herd.has_tuple(tuple) ==> herd.after(
            TableCall::Insert { owner, name, filename, tuple, now },
        ) == herd,
        forall|i: int|
            0 <= i < herd.dinos.len() ==> herd.after(
                TableCall::Insert { owner, name, filename, tuple, now },
            ).dinos[i] == herd.dinos[i],
{
}

/// A gift changes the owner of the one creature and nothing else about
/// it: not its number, its name, its parts, its image or its age. No other
/// creature changes, and the ledger gains exactly one entry, which records
/// the gift.
pub proof fn lemma_gift_changes_owner_only(
    herd: Herd,
    id: int,
    gifter: u64,
    recipient: u64,
    now: i64,
)
    requires
        herd.wf(),
        herd.has_id(id),
    ensures
        ({
            let after = herd.after_gift(id, gifter, recipient, now);
            &&& after.wf()
            &&& after.dinos.len() == herd.dinos.len()
            &&& after.dinos[id - 1] == (DinoRow { owner_id: recipient, ..herd.dinos[id - 1] })
            &&& after.dinos[id - 1].id == id
            &&& after.dinos[id - 1].name == herd.dinos[id - 1].name
            &&& after.dinos[id - 1].tuple() == herd.dinos[id - 1].tuple()
            &&& forall|i: int|
                0 <= i < herd.dinos.len() && i != id - 1 ==> after.dinos[i] == herd.dinos[i]
            &&& after.ledger.len() == herd.ledger.len() + 1
            &&& after.ledger.drop_last() == herd.ledger
            &&& after.ledger.last().kind is Gift
            &&& after.ledger.last().dino_id == id
            &&& after.ledger.last().user_id == recipient
            &&& after.ledger.last().gifter_id == Some(gifter)
        }),
{
    lemma_call_keeps_table_wf(herd, TableCall::Gift { id, gifter, recipient, now });
    let after = herd.after_gift(id, gifter, recipient, now);
    assert(after.ledger.drop_last() =~= herd.ledger);
}

/// A rename to the name of another creature changes nothing. Any other
/// rename changes the name of the one creature and nothing else: no other
/// row, nothing else in that row, and not the ledger.
pub proof fn lemma_rename_changes_one_name(herd: Herd, id: int, name: Seq<char>)
    requires
        herd.wf(),
        herd.has_id(id),
    ensures
        herd.name_taken_by_other(name, id - 1) ==> herd.after(TableCall::Rename { id, name })
            == herd,
        !herd.name_taken_by_other(name, id - 1) ==> {
            let after = herd.after(TableCall::Rename { id, name });
            &&& after.wf()
            &&& after.dinos.len() == herd.dinos.len()
            &&& after.dinos[id - 1] == (DinoRow { name, ..herd.dinos[id - 1] })
            &&& forall|i: int|
                0 <= i < herd.dinos.len() && i != id - 1 ==> after.dinos[i] == herd.dinos[i]
            &&& after.ledger == herd.ledger
        },
{
    lemma_call_keeps_table_wf(herd, TableCall::Rename { id, name });
}

} // verus!
