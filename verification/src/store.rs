//! The upsert reconciler and the roster it writes to: at most one record
//! for each member identifier, inserted on first sight and overwritten on
//! every later one.

use vstd::prelude::*;
use crate::record::{copy_value, identifier_of, Attendee, RecordView, Value};
use crate::schema::{Field, FIELD_COUNT};

verus! {

/// The stored records as a mathematical value: each under its identifier.
pub type RosterView = Map<i32, RecordView>;

/// The roster after `record` has been written to it: the record stands
/// under its identifier, whatever stood there before; a record without an
/// identifier changes nothing.
pub open spec fn upserted(roster: RosterView, record: RecordView) -> RosterView {
    match identifier_of(record) {
        Some(capid) => roster.insert(capid, record),
        None => roster,
    }
}

/// The roster after each of `records` has been written to it, in order.
pub open spec fn upserted_all(roster: RosterView, records: Seq<RecordView>) -> RosterView
    decreases records.len(),
{
    if records.len() == 0 {
        roster
    } else {
        upserted(upserted_all(roster, records.drop_last()), records.last())
    }
}

/// How a single conditional write is to treat a record whose identifier is
/// already stored: the column that decides the conflict, and the columns
/// that the incoming record overwrites.
#[derive(Clone, Debug, PartialEq, Eq)]
pub struct ConflictPlan {
    /// The conflict key.
    pub key: Field,
    /// The columns to overwrite, in field order.
    pub update: Vec<Field>,
}

/// Every field but the member identifier, in field order.
pub open spec fn update_columns() -> Seq<Field> {
    Seq::new((FIELD_COUNT - 1) as nat, |i: int| Field::spec_at((i + 1) as usize))
}

/// The plan of the attendee upsert: conflicts are decided by the member
/// identifier alone, and every other column is overwritten. The key is
/// never among the columns to overwrite.
pub fn conflict_plan() -> (plan: ConflictPlan)
    ensures
        plan.key == Field::Capid,
        plan.update@ == update_columns(),
        !plan.update@.contains(plan.key),
{
    let mut update: Vec<Field> = Vec::new();
    let mut i: usize = 1;
    while i < FIELD_COUNT
        invariant
            1 <= i <= FIELD_COUNT,
            update.len() == i - 1,
            forall|j: int| 0 <= j < i - 1 ==> update[j] == Field::spec_at((j + 1) as usize),
        decreases FIELD_COUNT - i,
    {
        update.push(Field::at(i));
        i += 1;
    }
    assert(update@ =~= update_columns());
    assert forall|j: int| 0 <= j < update.len() implies update[j] != Field::Capid by {
        assert(update[j].spec_index() == j + 1);
    }
    ConflictPlan { key: Field::Capid, update }
}

/// The record that stands in the store after `incoming` has met the stored
/// record `existing` of the same identifier: the key of `existing`, and the
/// value of `incoming` in every column that the conflict plan overwrites,
/// which makes it equal to `incoming`. `None` where the two do not have the
/// same identifier, or have none.
pub fn overwrite(existing: &Attendee, incoming: &Attendee) -> (merged: Option<Attendee>)
    ensures
        merged is Some <==> identifier_of(existing@) is Some && identifier_of(existing@)
            == identifier_of(incoming@),
        merged matches Some(record) ==> record@ == incoming@,
{
    match (existing.identifier(), incoming.identifier()) {
        (Some(kept), Some(offered)) => {
            if kept != offered {
                return None;
            }
        },
        _ => {
            return None;
        },
    }
    let plan = conflict_plan();
    let mut values: Vec<Value> = Vec::new();
    values.push(copy_value(existing.get(plan.key)));
    let mut k: usize = 0;
    while k < plan.update.len()
        invariant
            k <= plan.update.len(),
            plan.update@ == update_columns(),
            incoming@.len() == FIELD_COUNT,
            values.len() == k + 1,
            values[0]@ == incoming@[0],
            forall|j: int| 1 <= j <= k ==> (#[trigger] values[j])@ == incoming@[j],
        decreases plan.update.len() - k,
    {
        let field = plan.update[k];
        assert(field.spec_index() == k + 1);
        values.push(copy_value(incoming.get(field)));
        k += 1;
    }
    let merged = Attendee { values };
    assert(merged@ =~= incoming@);
    Some(merged)
}

/// What an upsert did.
#[derive(Clone, Copy, Debug, PartialEq, Eq, Structural)]
pub enum Change {
    /// No record had the identifier: the record was added.
    Inserted,
    /// A record had the identifier: its other columns were overwritten.
    Updated,
}

/// Whether the records all have an identifier, and no two the same.
pub open spec fn distinct_identifiers(records: Seq<Attendee>) -> bool {
    &&& forall|i: int| 0 <= i < records.len() ==> identifier_of((#[trigger] records[i])@) is Some
    &&& forall|i: int, j: int|
        0 <= i < j < records.len() ==> identifier_of((#[trigger] records[i])@) != identifier_of(
            (#[trigger] records[j])@,
        )
}

/// Whether one of `records` has the identifier `capid`.
pub open spec fn holds(records: Seq<Attendee>, capid: i32) -> bool {
    exists|i: int| 0 <= i < records.len() && identifier_of((#[trigger] records[i])@) == Some(capid)
}

/// The records, each under its identifier.
pub open spec fn table(records: Seq<Attendee>) -> RosterView {
    Map::new(
        |capid: i32| holds(records, capid),
        |capid: i32|
            records[choose|i: int|
                0 <= i < records.len() && identifier_of((#[trigger] records[i])@) == Some(
                    capid,
                )]@,
    )
}

/// In a table of distinct identifiers each record is found under its own.
pub proof fn lemma_table_entry(records: Seq<Attendee>, i: int)
    requires
        distinct_identifiers(records),
        0 <= i < records.len(),
    ensures
        table(records).dom().contains(identifier_of(records[i]@)->0),
        table(records)[identifier_of(records[i]@)->0] == records[i]@,
{
    let capid = identifier_of(records[i]@)->0;
    assert(holds(records, capid));
    let chosen = choose|k: int|
        0 <= k < records.len() && identifier_of((#[trigger] records[k])@) == Some(capid);
    assert(chosen == i);
}

/// Adding a record with a new identifier adds it to the table.
pub proof fn lemma_table_push(records: Seq<Attendee>, record: Attendee)
    requires
        distinct_identifiers(records),
        identifier_of(record@) is Some,
        !holds(records, identifier_of(record@)->0),
    ensures
        distinct_identifiers(records.push(record)),
        table(records.push(record)) == upserted(table(records), record@),
{
    let after = records.push(record);
    let capid = identifier_of(record@)->0;
    assert forall|i: int, j: int| 0 <= i < j < after.len() implies identifier_of(
        (#[trigger] after[i])@,
    ) != identifier_of((#[trigger] after[j])@) by {
        if j == records.len() {
            assert(after[i] == records[i]);
        } else {
            assert(after[i] == records[i]);
            assert(after[j] == records[j]);
        }
    }
    assert forall|i: int| 0 <= i < after.len() implies identifier_of((#[trigger] after[i])@) is Some by {
        if i < records.len() {
            assert(after[i] == records[i]);
        }
    }
    assert forall|id: i32| holds(after, id) <==> (id == capid || holds(records, id)) by {
        if holds(after, id) {
            let i = choose|i: int|
                0 <= i < after.len() && identifier_of((#[trigger] after[i])@) == Some(id);
            if i < records.len() {
                assert(after[i] == records[i]);
            }
        }
        if id == capid {
            assert(after[records.len() as int] == record);
        }
        if holds(records, id) {
            let i = choose|i: int|
                0 <= i < records.len() && identifier_of((#[trigger] records[i])@) == Some(id);
            assert(after[i] == records[i]);
        }
    }
    assert forall|id: i32| holds(after, id) implies #[trigger] table(after)[id] == upserted(
        table(records),
        record@,
    )[id] by {
        let i = choose|i: int|
            0 <= i < after.len() && identifier_of((#[trigger] after[i])@) == Some(id);
        lemma_table_entry(after, i);
        if i < records.len() {
            assert(after[i] == records[i]);
            lemma_table_entry(records, i);
        }
    }
    assert(table(after) =~= upserted(table(records), record@));
}

/// Replacing a record by one of the same identifier replaces it in the
/// table.
pub proof fn lemma_table_update(records: Seq<Attendee>, at: int, record: Attendee)
    requires
        distinct_identifiers(records),
        0 <= at < records.len(),
        identifier_of(record@) == identifier_of(records[at]@),
    ensures
        distinct_identifiers(records.update(at, record)),
        table(records.update(at, record)) == upserted(table(records), record@),
{
    let after = records.update(at, record);
    let capid = identifier_of(record@)->0;
    assert forall|i: int| 0 <= i < after.len() implies identifier_of((#[trigger] after[i])@)
        == identifier_of(records[i]@) by {}
    assert(distinct_identifiers(after));
    assert forall|id: i32| holds(after, id) <==> holds(records, id) by {
        if holds(after, id) {
            let i = choose|i: int|
                0 <= i < after.len() && identifier_of((#[trigger] after[i])@) == Some(id);
            assert(identifier_of(records[i]@) == Some(id));
        }
        if holds(records, id) {
            let i = choose|i: int|
                0 <= i < records.len() && identifier_of((#[trigger] records[i])@) == Some(id);
            assert(identifier_of(after[i]@) == Some(id));
        }
    }
    assert(holds(records, capid));
    assert forall|id: i32| holds(after, id) implies #[trigger] table(after)[id] == upserted(
        table(records),
        record@,
    )[id] by {
        let i = choose|i: int|
            0 <= i < after.len() && identifier_of((#[trigger] after[i])@) == Some(id);
        lemma_table_entry(after, i);
        if i != at {
            assert(after[i] == records[i]);
            lemma_table_entry(records, i);
        }
    }
    assert(table(after) =~= upserted(table(records), record@));
}

/// A table of distinct identifiers has as many entries as records.
pub proof fn lemma_table_size(records: Seq<Attendee>)
    requires
        distinct_identifiers(records),
    ensures
        table(records).dom().finite(),
        table(records).dom().len() == records.len(),
    decreases records.len(),
{
    if records.len() == 0 {
        assert(table(records).dom() =~= Set::<i32>::empty());
    } else {
        let init = records.drop_last();
        let last = records.last();
        let capid = identifier_of(last@)->0;
        assert forall|i: int| 0 <= i < init.len() implies init[i] == records[i] by {}
        assert(distinct_identifiers(init));
        assert(!holds(init, capid)) by {
            if holds(init, capid) {
                let i = choose|i: int|
                    0 <= i < init.len() && identifier_of((#[trigger] init[i])@) == Some(capid);
                assert(init[i] == records[i]);
            }
        }
        lemma_table_size(init);
        lemma_table_push(init, last);
        assert(init.push(last) =~= records);
        assert(table(records).dom() =~= table(init).dom().insert(capid));
    }
}

/// The stored attendee records.
#[derive(Debug)]
pub struct Roster {
    records: Vec<Attendee>,
}

impl View for Roster {
    type V = RosterView;

    closed spec fn view(&self) -> RosterView {
        table(self.records@)
    }
}

impl Roster {
    /// The validity of a roster: every stored record has an identifier, and
    /// no two the same.
    pub closed spec fn wf(&self) -> bool {
        distinct_identifiers(self.records@)
    }

    /// An empty roster.
    pub fn new() -> (roster: Roster)
        ensures
            roster.wf(),
            roster@ == Map::<i32, RecordView>::empty(),
    {
        let roster = Roster { records: Vec::new() };
        assert(roster@ =~= Map::<i32, RecordView>::empty());
        roster
    }

    /// The number of stored records.
    pub fn len(&self) -> (count: usize)
        requires
            self.wf(),
        ensures
            self@.dom().finite(),
            count == self@.dom().len(),
    {
        proof {
            lemma_table_size(self.records@);
        }
        self.records.len()
    }

    /// The stored records: no two of them have the same identifier.
    pub fn records(&self) -> (records: &Vec<Attendee>)
        requires
            self.wf(),
        ensures
            distinct_identifiers(records@),
            table(records@) == self@,
    {
        &self.records
    }

    /// Where the record of `capid` is kept.
    fn position(&self, capid: i32) -> (found: Option<usize>)
        ensures
            match found {
                Some(i) => i < self.records.len() && identifier_of(self.records[i as int]@)
                    == Some(capid),
                None => !holds(self.records@, capid),
            },
    {
        let mut i: usize = 0;
        while i < self.records.len()
            invariant
                i <= self.records.len(),
                forall|j: int|
                    0 <= j < i ==> identifier_of((#[trigger] self.records[j])@) != Some(capid),
            decreases self.records.len() - i,
        {
            if self.records[i].identifier() == Some(capid) {
                return Some(i);
            }
            i += 1;
        }
        None
    }

    /// The stored record of `capid`, if there is one.
    pub fn get(&self, capid: i32) -> (record: Option<&Attendee>)
        requires
            self.wf(),
        ensures
            match record {
                Some(found) => self@.dom().contains(capid) && self@[capid] == found@,
                None => !self@.dom().contains(capid),
            },
    {
        match self.position(capid) {
            Some(i) => {
                proof {
                    lemma_table_entry(self.records@, i as int);
                }
                Some(&self.records[i])
            },
            None => None,
        }
    }

    /// Writes `record` to the roster: adds it where no stored record has its
    /// identifier, and overwrites the other columns of the stored record
    /// where one has. A record without an identifier is not written.
    pub fn upsert(&mut self, record: Attendee) -> (change: Option<Change>)
        requires
            old(self).wf(),
        ensures
            final(self).wf(),
            final(self)@ == upserted(old(self)@, record@),
            match change {
                Some(Change::Inserted) => identifier_of(record@) matches Some(capid) && !old(
                    self,
                )@.dom().contains(capid),
                Some(Change::Updated) => identifier_of(record@) matches Some(capid) && old(
                    self,
                )@.dom().contains(capid),
                None => identifier_of(record@) is None,
            },
    {
        let capid = match record.identifier() {
            Some(capid) => capid,
            None => {
                return None;
            },
        };
        match self.position(capid) {
            Some(i) => {
                let merged = match overwrite(&self.records[i], &record) {
                    Some(merged) => merged,
                    None => record,
                };
                proof {
                    lemma_table_entry(self.records@, i as int);
                    lemma_table_update(self.records@, i as int, merged);
                }
                self.records.set(i, merged);
                Some(Change::Updated)
            },
            None => {
                proof {
                    lemma_table_push(self.records@, record);
                }
                self.records.push(record);
                Some(Change::Inserted)
            },
        }
    }
}

/// Writing the same record twice leaves the roster as writing it once.
pub proof fn lemma_upsert_idempotent(roster: RosterView, record: RecordView)
    ensures
        upserted(upserted(roster, record), record) == upserted(roster, record),
{
    assert(upserted(upserted(roster, record), record) =~= upserted(roster, record));
}

/// Writing records to a roster gives the roster overlaid with what the
/// same records give on an empty one.
proof fn lemma_upserted_all_overlay(roster: RosterView, records: Seq<RecordView>)
    ensures
        upserted_all(roster, records) == roster.union_prefer_right(
            upserted_all(Map::empty(), records),
        ),
    decreases records.len(),
{
    let fresh = upserted_all(Map::empty(), records);
    if records.len() == 0 {
        assert(roster.union_prefer_right(fresh) =~= roster);
    } else {
        lemma_upserted_all_overlay(roster, records.drop_last());
        assert(upserted_all(roster, records) =~= roster.union_prefer_right(fresh));
    }
}

/// Idempotence: importing the same records a second time leaves the roster
/// as the first import left it.
pub proof fn lemma_import_idempotent(roster: RosterView, records: Seq<RecordView>)
    ensures
        upserted_all(upserted_all(roster, records), records) == upserted_all(roster, records),
{
    let once = upserted_all(roster, records);
    let fresh = upserted_all(Map::empty(), records);
    lemma_upserted_all_overlay(roster, records);
    lemma_upserted_all_overlay(once, records);
    assert(once.union_prefer_right(fresh) =~= once);
}

/// Last occurrence wins: after an import the roster holds, under each
/// identifier that occurs among the imported records, the last record that
/// has it.
pub proof fn lemma_last_occurrence_wins(roster: RosterView, records: Seq<RecordView>, last: int)
    requires
        0 <= last < records.len(),
        identifier_of(records[last]) is Some,
        forall|k: int|
            last < k < records.len() ==> identifier_of(#[trigger] records[k]) != identifier_of(
                records[last],
            ),
    ensures
        upserted_all(roster, records).dom().contains(identifier_of(records[last])->0),
        upserted_all(roster, records)[identifier_of(records[last])->0] == records[last],
    decreases records.len(),
{
    if last < records.len() - 1 {
        let init = records.drop_last();
        assert(init[last] == records[last]);
        assert forall|k: int| last < k < init.len() implies identifier_of(#[trigger] init[k])
            != identifier_of(init[last]) by {
            assert(init[k] == records[k]);
        }
        lemma_last_occurrence_wins(roster, init, last);
        assert(identifier_of(records.last()) != identifier_of(records[last]));
    }
}

/// Records that occur in no import stay as they were.
pub proof fn lemma_others_untouched(roster: RosterView, records: Seq<RecordView>, capid: i32)
    requires
        forall|k: int| 0 <= k < records.len() ==> identifier_of(#[trigger] records[k]) != Some(capid),
    ensures
        upserted_all(roster, records).dom().contains(capid) == roster.dom().contains(capid),
        roster.dom().contains(capid) ==> upserted_all(roster, records)[capid] == roster[capid],
    decreases records.len(),
{
    if records.len() > 0 {
        let init = records.drop_last();
        assert forall|k: int| 0 <= k < init.len() implies identifier_of(#[trigger] init[k]) != Some(
            capid,
        ) by {
            assert(init[k] == records[k]);
        }
        lemma_others_untouched(roster, init, capid);
        assert(identifier_of(records[records.len() - 1]) != Some(capid));
    }
}

/// Whether every record of the roster stands under its own identifier, so
/// that no two stored records share one.
pub open spec fn keyed(roster: RosterView) -> bool {
    forall|capid: i32| #[trigger]
        roster.dom().contains(capid) ==> identifier_of(roster[capid]) == Some(capid)
}

/// Uniqueness: whatever is written to a roster, in whatever order, every
/// stored record stands under its own identifier, so no two stored records
/// share one.
pub proof fn lemma_uniqueness_kept(roster: RosterView, records: Seq<RecordView>)
    requires
        keyed(roster),
    ensures
        keyed(upserted_all(roster, records)),
    decreases records.len(),
{
    if records.len() > 0 {
        lemma_uniqueness_kept(roster, records.drop_last());
    }
}

impl Roster {
    /// A valid roster keeps every record under its own identifier.
    pub proof fn lemma_keyed(&self)
        requires
            self.wf(),
        ensures
            keyed(self@),
    {
        assert forall|capid: i32| #[trigger] self@.dom().contains(capid) implies identifier_of(
            self@[capid],
        ) == Some(capid) by {
            let i = choose|i: int|
                0 <= i < self.records@.len() && identifier_of((#[trigger] self.records@[i])@)
                    == Some(capid);
            lemma_table_entry(self.records@, i);
        }
    }
}

} // verus!
