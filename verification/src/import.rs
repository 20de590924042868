//! The import of one workbook: every data row is normalized, validated and
//! written to the roster, in file order. The import stops at the first row
//! that is rejected; the rows before it stay written, and the report names
//! their identifiers.

use vstd::prelude::*;
use crate::cell::{row_view, rows_view, Cell, CellView};
use crate::error::{ErrorClass, FieldError};
use crate::mapping::Mapping;
use crate::normalize::{normalize_row, normalized};
use crate::record::{identifier_of, Attendee, RecordView};
use crate::schema::Rule;
use crate::store::{upserted, upserted_all, Change, Roster, RosterView};
use crate::validate::{
    is_valid_record, lemma_valid_record, validate, violations, ValidationError, Violation,
};
use crate::workbook::{parse_workbook, sheet_name, without_header, workbook_sheet, ParseError};

verus! {

/// Why a row was rejected.
#[derive(Clone, Debug, PartialEq, Eq)]
pub enum RowError {
    /// A field could not be normalized.
    Field(FieldError),
    /// The normalized record of the row at position `row` violates
    /// invariants of the store.
    Invalid { row: usize, violations: Vec<Violation> },
}

impl RowError {
    /// The class of the error.
    pub fn class(&self) -> (class: ErrorClass)
        ensures
            class == match self {
                RowError::Field(error) => if error.spec_is_schema_mismatch() {
                    ErrorClass::SchemaMismatch
                } else {
                    ErrorClass::Field
                },
                RowError::Invalid { .. } => ErrorClass::Validation,
            },
    {
        match self {
            RowError::Field(error) => error.class(),
            RowError::Invalid { .. } => ErrorClass::Validation,
        }
    }
}

/// Why a row was rejected, as a mathematical value.
pub enum RowFault {
    Field(FieldError),
    Invalid { row: usize, violations: Seq<Violation> },
}

impl View for RowError {
    type V = RowFault;

    open spec fn view(&self) -> RowFault {
        match self {
            RowError::Field(error) => RowFault::Field(*error),
            RowError::Invalid { row, violations } => RowFault::Invalid {
                row: *row,
                violations: violations@,
            },
        }
    }
}

/// The record of the row at position `index`, normalized by `rules` and
/// valid, or why the row is rejected.
pub open spec fn row_record(rules: Seq<Rule>, row: Seq<CellView>, index: usize) -> Result<
    RecordView,
    RowFault,
> {
    match normalized(rules, row, index) {
        Err(error) => Err(RowFault::Field(error)),
        Ok(record) => if is_valid_record(record) {
            Ok(record)
        } else {
            Err(RowFault::Invalid { row: index, violations: violations(record) })
        },
    }
}

/// The position of the first row from `from` on that is rejected; the
/// number of rows where none is.
pub open spec fn first_rejected(rules: Seq<Rule>, rows: Seq<Seq<CellView>>, from: int) -> int
    decreases rows.len() - from,
{
    if from >= rows.len() {
        rows.len() as int
    } else if row_record(rules, rows[from], from as usize) is Err {
        from
    } else {
        first_rejected(rules, rows, from + 1)
    }
}

/// The records of the rows before the first that is rejected.
pub open spec fn accepted_records(rules: Seq<Rule>, rows: Seq<Seq<CellView>>) -> Seq<RecordView> {
    Seq::new(
        first_rejected(rules, rows, 0) as nat,
        |i: int| row_record(rules, rows[i], i as usize)->Ok_0,
    )
}

/// Why the first rejected row is rejected, where there is one.
pub open spec fn import_fault(rules: Seq<Rule>, rows: Seq<Seq<CellView>>) -> Option<RowFault> {
    let stop = first_rejected(rules, rows, 0);
    if stop < rows.len() {
        Some(row_record(rules, rows[stop], stop as usize)->Err_0)
    } else {
        None
    }
}

/// The roster after the import of `rows`.
pub open spec fn imported(rules: Seq<Rule>, rows: Seq<Seq<CellView>>, roster: RosterView) -> RosterView {
    upserted_all(roster, accepted_records(rules, rows))
}

/// The identifiers of `records`, in order.
pub open spec fn identifiers(records: Seq<RecordView>) -> Seq<i32> {
    Seq::new(records.len(), |i: int| identifier_of(records[i])->0)
}

/// What an import did.
#[derive(Clone, Debug, PartialEq, Eq)]
pub struct ImportReport {
    /// The identifiers of the rows that were written, in file order.
    pub committed: Vec<i32>,
    /// Why the import stopped before the last row, where it did.
    pub failure: Option<RowError>,
}

impl ImportReport {
    /// Why the import stopped, as a mathematical value.
    pub open spec fn fault(&self) -> Option<RowFault> {
        match self.failure {
            Some(error) => Some(error@),
            None => None,
        }
    }

    /// Whether every row was written.
    pub fn succeeded(&self) -> (succeeded: bool)
        ensures
            succeeded == (self.failure is None),
    {
        self.failure.is_none()
    }
}

/// Normalizes and validates the row at position `index`.
pub fn process_row(mapping: &Mapping, row: &Vec<Cell>, index: usize) -> (result: Result<
    Attendee,
    RowError,
>)
    requires
        mapping.wf(),
    ensures
        match result {
            Ok(record) => row_record(mapping.rules@, row_view(row@), index) == Ok::<
                RecordView,
                RowFault,
            >(record@),
            Err(error) => row_record(mapping.rules@, row_view(row@), index) == Err::<
                RecordView,
                RowFault,
            >(error@),
        },
{
    match normalize_row(mapping, row, index) {
        Err(error) => Err(RowError::Field(error)),
        Ok(record) => match validate(&record) {
            Ok(()) => Ok(record),
            Err(invalid) => Err(RowError::Invalid { row: index, violations: invalid.violations }),
        },
    }
}

/// Writes a single record to the roster, as a row of an import is written:
/// validated first, then upserted. An invalid record changes nothing.
pub fn create_record(roster: &mut Roster, record: Attendee) -> (result: Result<
    Change,
    ValidationError,
>)
    requires
        old(roster).wf(),
    ensures
        final(roster).wf(),
        match result {
            Ok(change) => is_valid_record(record@) && final(roster)@ == upserted(
                old(roster)@,
                record@,
            ) && (change == Change::Updated <==> old(roster)@.dom().contains(
                identifier_of(record@)->0,
            )),
            Err(error) => !is_valid_record(record@) && error.violations@ == violations(record@)
                && final(roster)@ == old(roster)@,
        },
{
    match validate(&record) {
        Err(error) => Err(error),
        Ok(()) => {
            proof {
                lemma_valid_record(record@);
            }
            match roster.upsert(record) {
                Some(change) => Ok(change),
                None => Ok(Change::Inserted),
            }
        },
    }
}

/// Rows before the first rejected one are accepted.
pub proof fn lemma_before_first_rejected(
    rules: Seq<Rule>,
    rows: Seq<Seq<CellView>>,
    from: int,
    i: int,
)
    requires
        0 <= from <= i < first_rejected(rules, rows, from),
    ensures
        i < rows.len(),
        row_record(rules, rows[i], i as usize) is Ok,
    decreases rows.len() - from,
{
    if from < rows.len() {
        if i > from {
            lemma_before_first_rejected(rules, rows, from + 1, i);
        }
    }
}

/// Imports the data rows of a sheet: each row in file order is normalized,
/// validated and upserted. The import stops at the first row that is
/// rejected; the rows before it stay written.
#[verifier::rlimit(50)]
pub fn import_rows(mapping: &Mapping, rows: &Vec<Vec<Cell>>, roster: &mut Roster) -> (report:
    ImportReport)
    requires
        mapping.wf(),
        old(roster).wf(),
    ensures
        final(roster).wf(),
        final(roster)@ == imported(mapping.rules@, rows_view(rows@), old(roster)@),
        report.committed@ == identifiers(accepted_records(mapping.rules@, rows_view(rows@))),
        report.fault() == import_fault(mapping.rules@, rows_view(rows@)),
        rows@.len() == 0 ==> final(roster)@ == old(roster)@ && report.committed@.len() == 0
            && report.failure is None,
{
    let ghost rules = mapping.rules@;
    let ghost cells = rows_view(rows@);
    let ghost before = roster@;
    let mut committed: Vec<i32> = Vec::new();
    let mut i: usize = 0;
    let ghost mut done: Seq<RecordView> = Seq::empty();
    while i < rows.len()
        invariant
            i <= rows.len(),
            mapping.wf(),
            rules == mapping.rules@,
            cells == rows_view(rows@),
            roster.wf(),
            first_rejected(rules, cells, 0) == first_rejected(rules, cells, i as int),
            done.len() == i,
            forall|k: int|
                0 <= k < i ==> row_record(rules, cells[k], k as usize) == Ok::<
                    RecordView,
                    RowFault,
                >(#[trigger] done[k]),
            before == old(roster)@,
            roster@ == upserted_all(before, done),
            committed@ == identifiers(done),
        decreases rows.len() - i,
    {
        assert(cells[i as int] == row_view(rows[i as int]@));
        match process_row(mapping, &rows[i], i) {
            Ok(record) => {
                proof {
                    lemma_valid_record(record@);
                    let next = done.push(record@);
                    assert(next.drop_last() =~= done);
                    assert(identifiers(next) =~= identifiers(done).push(
                        identifier_of(record@)->0,
                    ));
                    done = next;
                }
                match record.identifier() {
                    Some(capid) => {
                        committed.push(capid);
                    },
                    None => {},
                }
                roster.upsert(record);
            },
            Err(error) => {
                proof {
                    assert(first_rejected(rules, cells, 0) == i);
                    assert(done =~= accepted_records(rules, cells));
                }
                return ImportReport { committed, failure: Some(error) };
            },
        }
        i += 1;
    }
    proof {
        assert(first_rejected(rules, cells, 0) == rows.len());
        assert(done =~= accepted_records(rules, cells));
    }
    ImportReport { committed, failure: None }
}

/// The roster after the import of a workbook: unchanged where the workbook
/// cannot be read.
pub open spec fn workbook_imported(rules: Seq<Rule>, bytes: Seq<u8>, roster: RosterView) -> RosterView {
    match workbook_sheet(bytes, sheet_name()) {
        Some(sheet) => imported(rules, without_header(sheet), roster),
        None => roster,
    }
}

/// Imports a workbook: reads the data rows of its roster sheet and imports
/// them. A workbook that cannot be read fails the import before any row is
/// looked at, and the roster stays as it was.
pub fn import_workbook(mapping: &Mapping, bytes: &[u8], roster: &mut Roster) -> (result: Result<
    ImportReport,
    ParseError,
>)
    requires
        mapping.wf(),
        old(roster).wf(),
    ensures
        final(roster).wf(),
        final(roster)@ == workbook_imported(mapping.rules@, bytes@, old(roster)@),
        result is Err <==> workbook_sheet(bytes@, sheet_name()) is None,
        result is Err ==> final(roster)@ == old(roster)@,
        result matches Ok(report) ==> {
            let rows = without_header(workbook_sheet(bytes@, sheet_name())->0);
            &&& report.committed@ == identifiers(accepted_records(mapping.rules@, rows))
            &&& report.fault() == import_fault(mapping.rules@, rows)
        },
{
    match parse_workbook(bytes) {
        Ok(rows) => Ok(import_rows(mapping, &rows, roster)),
        Err(error) => Err(error),
    }
}

/// Idempotence: importing the same rows a second time leaves the roster as
/// the first import left it.
pub proof fn lemma_reimport(rules: Seq<Rule>, rows: Seq<Seq<CellView>>, roster: RosterView)
    ensures
        imported(rules, rows, imported(rules, rows, roster)) == imported(rules, rows, roster),
{
    crate::store::lemma_import_idempotent(roster, accepted_records(rules, rows));
}

/// Idempotence: importing the same workbook a second time leaves the roster
/// as the first import left it.
pub proof fn lemma_workbook_reimport(rules: Seq<Rule>, bytes: Seq<u8>, roster: RosterView)
    ensures
        workbook_imported(rules, bytes, workbook_imported(rules, bytes, roster))
            == workbook_imported(rules, bytes, roster),
{
    match workbook_sheet(bytes, sheet_name()) {
        Some(sheet) => lemma_reimport(rules, without_header(sheet), roster),
        None => {},
    }
}

/// Last occurrence wins: where every row is accepted and the row at `last`
/// is the last with its identifier, the roster holds that row's record
/// under the identifier after the import.
pub proof fn lemma_last_row_wins(
    rules: Seq<Rule>,
    rows: Seq<Seq<CellView>>,
    roster: RosterView,
    last: int,
)
    requires
        first_rejected(rules, rows, 0) == rows.len(),
        0 <= last < rows.len(),
        forall|k: int|
            last < k < rows.len() ==> identifier_of(
                #[trigger] row_record(rules, rows[k], k as usize)->Ok_0,
            ) != identifier_of(row_record(rules, rows[last], last as usize)->Ok_0),
    ensures
        row_record(rules, rows[last], last as usize) matches Ok(record) && identifier_of(
            record,
        ) matches Some(capid) && imported(rules, rows, roster).dom().contains(capid) && imported(
            rules,
            rows,
            roster,
        )[capid] == record,
{
    let records = accepted_records(rules, rows);
    lemma_before_first_rejected(rules, rows, 0, last);
    lemma_valid_record(records[last]);
    assert forall|k: int| last < k < records.len() implies identifier_of(#[trigger] records[k])
        != identifier_of(records[last]) by {
        assert(records[k] == row_record(rules, rows[k], k as usize)->Ok_0);
    }
    crate::store::lemma_last_occurrence_wins(roster, records, last);
}

/// The request machine agrees with the import: fed one event for each row
/// that the import writes, and the rejection of the first row that it
/// rejects, the machine ends in success exactly when the import reports no
/// failure.
pub proof fn lemma_machine_agrees(rules: Seq<Rule>, rows: Seq<Seq<CellView>>)
    requires
        rows.len() <= usize::MAX,
    ensures
        0 <= first_rejected(rules, rows, 0) <= rows.len(),
        crate::pipeline::run(
            crate::pipeline::Phase::Idle,
            crate::pipeline::request_events(
                rows.len() as usize,
                first_rejected(rules, rows, 0) as usize,
            ),
        ) == (if import_fault(rules, rows) is None {
            crate::pipeline::Phase::Succeeded
        } else {
            crate::pipeline::Phase::Failed
        }),
{
    lemma_first_rejected_in_range(rules, rows, 0);
    crate::pipeline::lemma_request_ends(
        rows.len() as usize,
        first_rejected(rules, rows, 0) as usize,
    );
}

/// The first rejected row lies among the rows, or is their number.
proof fn lemma_first_rejected_in_range(rules: Seq<Rule>, rows: Seq<Seq<CellView>>, from: int)
    requires
        0 <= from <= rows.len(),
    ensures
        from <= first_rejected(rules, rows, from) <= rows.len(),
    decreases rows.len() - from,
{
    if from < rows.len() {
        lemma_first_rejected_in_range(rules, rows, from + 1);
    }
}

} // verus!
