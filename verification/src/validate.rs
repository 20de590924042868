//! The record validator: checks a canonical record against the invariants
//! that the store relies on, and names every one that is violated.

use vstd::prelude::*;
use crate::record::{Attendee, RecordView, Value, ValueView};
use crate::schema::{Field, FieldKind, FIELD_COUNT};
use crate::text::{chars_of, is_digit};

verus! {

/// An invariant that a record violates.
#[derive(Clone, Copy, Debug, PartialEq, Eq, Structural)]
pub enum Violation {
    /// The record does not hold one value for each field.
    WrongFieldCount,
    /// A required field has no value.
    Missing(Field),
    /// A field holds a value of another kind than its own.
    WrongKind(Field),
    /// A date field holds a day that the calendar does not have.
    InvalidDate(Field),
    /// The member identifier is zero or negative.
    IdentifierNotPositive,
    /// The unit code is not of the form `region-wing-number`.
    MalformedUnitCode,
}

/// The violations of a record, in the order in which they are reported.
#[derive(Clone, Debug, PartialEq, Eq)]
pub struct ValidationError {
    pub violations: Vec<Violation>,
}

/// Whether `code` splits at the hyphens at `first` and `last` into a
/// region without a hyphen, a wing, and a number of three digits or more.
pub open spec fn splits_unit_code(code: Seq<char>, first: int, last: int) -> bool {
    &&& 0 < first
    &&& first + 1 < last
    &&& last + 3 < code.len()
    &&& code[first] == '-'
    &&& code[last] == '-'
    &&& forall|k: int| 0 <= k < first ==> code[k] != '-'
    &&& forall|k: int| last < k < code.len() ==> is_digit(#[trigger] code[k])
}

/// Whether `code` has the form `region-wing-number`: a region without a
/// hyphen, a wing, and a number of three digits or more, none of them empty.
pub open spec fn is_unit_code(code: Seq<char>) -> bool {
    exists|first: int, last: int| splits_unit_code(code, first, last)
}

/// What is wrong with the value of one field by itself, if anything.
pub open spec fn field_violation(value: ValueView, field: Field) -> Option<Violation> {
    match value {
        ValueView::Absent => if field.spec_required() {
            Some(Violation::Missing(field))
        } else {
            None
        },
        ValueView::Date(date) => if field.spec_kind() != FieldKind::Date {
            Some(Violation::WrongKind(field))
        } else if !date.is_valid() {
            Some(Violation::InvalidDate(field))
        } else {
            None
        },
        _ => if value.suits(field) {
            None
        } else {
            Some(Violation::WrongKind(field))
        },
    }
}

/// The violations of the first `count` fields, each by itself, in field
/// order.
pub open spec fn field_violations(record: RecordView, count: int) -> Seq<Violation>
    decreases count,
{
    if count <= 0 {
        Seq::empty()
    } else {
        match field_violation(record[count - 1], Field::spec_at((count - 1) as usize)) {
            Some(violation) => field_violations(record, count - 1).push(violation),
            None => field_violations(record, count - 1),
        }
    }
}

/// The violations of the invariants that go beyond one field's kind: the
/// member identifier is positive, the unit code is well formed.
pub open spec fn record_violations(record: RecordView) -> Seq<Violation> {
    let identifier = match record[Field::Capid.spec_index() as int] {
        ValueView::Integer(capid) => if capid <= 0 {
            seq![Violation::IdentifierNotPositive]
        } else {
            Seq::empty()
        },
        _ => Seq::empty(),
    };
    let unit = match record[Field::Unit.spec_index() as int] {
        ValueView::Text(code) => if is_unit_code(code) {
            Seq::empty()
        } else {
            seq![Violation::MalformedUnitCode]
        },
        _ => Seq::empty(),
    };
    identifier + unit
}

/// Every invariant that `record` violates: first the fields, each by
/// itself and in field order, then the identifier, then the unit code.
pub open spec fn violations(record: RecordView) -> Seq<Violation> {
    if record.len() != FIELD_COUNT {
        seq![Violation::WrongFieldCount]
    } else {
        field_violations(record, FIELD_COUNT as int) + record_violations(record)
    }
}

/// Whether `record` meets every invariant.
pub open spec fn is_valid_record(record: RecordView) -> bool {
    violations(record).len() == 0
}

/// Whether `code` has the form `region-wing-number`.
pub fn check_unit_code(code: &str) -> (well_formed: bool)
    ensures
        well_formed == is_unit_code(code@),
{
    let chars = chars_of(code);
    let n = chars.len();
    let mut first: usize = 0;
    while first < n && chars[first] != '-'
        invariant
            first <= n,
            n == chars.len(),
            forall|k: int| 0 <= k < first ==> chars[k] != '-',
        decreases n - first,
    {
        first += 1;
    }
    if first == n {
        assert forall|i: int, j: int| !splits_unit_code(chars@, i, j) by {}
        return false;
    }
    let mut last: usize = n - 1;
    while chars[last] != '-'
        invariant
            first <= last < n,
            n == chars.len(),
            chars[first as int] == '-',
            forall|k: int| last < k < n ==> chars[k] != '-',
        decreases last,
    {
        last -= 1;
    }
    let mut digits = true;
    let mut k: usize = last + 1;
    while k < n
        invariant
            last < k <= n,
            n == chars.len(),
            digits <==> forall|m: int| last < m < k ==> is_digit(#[trigger] chars[m]),
        decreases n - k,
    {
        if !('0' <= chars[k] && chars[k] <= '9') {
            digits = false;
        }
        k += 1;
    }
    let well_formed = 0 < first && first + 1 < last && n - last > 3 && digits;
    proof {
        if well_formed {
            assert(splits_unit_code(chars@, first as int, last as int));
        } else {
            assert forall|i: int, j: int| !splits_unit_code(chars@, i, j) by {
                if splits_unit_code(chars@, i, j) {
                    assert(i == first);
                    assert(j == last) by {
                        if j < last {
                            assert(is_digit(chars@[last as int]));
                        }
                    }
                }
            }
        }
    }
    well_formed
}

/// What is wrong with the value of one field by itself, if anything.
pub fn check_field(value: &Value, field: Field) -> (violation: Option<Violation>)
    ensures
        violation == field_violation(value@, field),
{
    match value {
        Value::Absent => if field.required() {
            Some(Violation::Missing(field))
        } else {
            None
        },
        Value::Text(_) => if field.kind() == FieldKind::Text {
            None
        } else {
            Some(Violation::WrongKind(field))
        },
        Value::Integer(_) => if field.kind() == FieldKind::Integer {
            None
        } else {
            Some(Violation::WrongKind(field))
        },
        Value::Flag(_) => if field.kind() == FieldKind::Flag {
            None
        } else {
            Some(Violation::WrongKind(field))
        },
        Value::Date(date) => if field.kind() != FieldKind::Date {
            Some(Violation::WrongKind(field))
        } else if !date.valid() {
            Some(Violation::InvalidDate(field))
        } else {
            None
        },
    }
}

/// Checks `record` against every invariant and reports all that it
/// violates.
pub fn validate(record: &Attendee) -> (result: Result<(), ValidationError>)
    ensures
        result is Ok <==> is_valid_record(record@),
        result matches Err(error) ==> error.violations@ == violations(record@),
{
    let mut found: Vec<Violation> = Vec::new();
    if record.values.len() != FIELD_COUNT {
        found.push(Violation::WrongFieldCount);
        return Err(ValidationError { violations: found });
    }
    let mut i: usize = 0;
    while i < FIELD_COUNT
        invariant
            i <= FIELD_COUNT,
            record@.len() == FIELD_COUNT,
            found@ == field_violations(record@, i as int),
        decreases FIELD_COUNT - i,
    {
        match check_field(&record.values[i], Field::at(i)) {
            Some(violation) => {
                found.push(violation);
            },
            None => {},
        }
        i += 1;
    }
    let ghost fields = found@;
    match &record.values[Field::Capid.index()] {
        Value::Integer(capid) => {
            if *capid <= 0 {
                found.push(Violation::IdentifierNotPositive);
            }
        },
        _ => {},
    }
    match &record.values[Field::Unit.index()] {
        Value::Text(code) => {
            if !check_unit_code(code.as_str()) {
                found.push(Violation::MalformedUnitCode);
            }
        },
        _ => {},
    }
    assert(found@ =~= fields + record_violations(record@));
    if found.len() == 0 {
        Ok(())
    } else {
        Err(ValidationError { violations: found })
    }
}

/// A record that meets every invariant holds a value that suits each field,
/// a positive member identifier and a well-formed unit code.
pub proof fn lemma_valid_record(record: RecordView)
    requires
        is_valid_record(record),
    ensures
        crate::record::well_typed(record),
        crate::record::identifier_of(record) matches Some(capid) && capid > 0,
        record[Field::Unit.spec_index() as int] matches ValueView::Text(code) && is_unit_code(code),
        forall|i: int|
            0 <= i < FIELD_COUNT ==> ((#[trigger] record[i]) matches ValueView::Date(date)
                ==> date.is_valid()),
{
    assert forall|i: int| 0 <= i < FIELD_COUNT implies field_violation(
        #[trigger] record[i],
        Field::spec_at(i as usize),
    ) is None by {
        lemma_no_field_violation(record, FIELD_COUNT as int, i);
    }
    assert(field_violation(record[0], Field::spec_at(0)) is None);
    assert(field_violation(record[5], Field::spec_at(5)) is None);
}

/// Where the first `count` fields have no violation, none of them has one.
proof fn lemma_no_field_violation(record: RecordView, count: int, i: int)
    requires
        0 <= i < count,
        field_violations(record, count).len() == 0,
    ensures
        field_violation(record[i], Field::spec_at(i as usize)) is None,
    decreases count,
{
    if i < count - 1 {
        lemma_no_field_violation(record, count - 1, i);
    }
}

} // verus!
