use roster_ingest::date::CalendarDate;
use roster_ingest::import::create_record;
use roster_ingest::record::{copy_value, Attendee, Value};
use roster_ingest::schema::{Field, FieldKind, FIELD_COUNT};
use roster_ingest::store::{Change, Roster};
use roster_ingest::validate::{check_field, check_unit_code, validate, ValidationError, Violation};

/// A record that meets every invariant.
fn sample(capid: i32) -> Attendee {
    let mut values = Vec::new();
    for index in 0..FIELD_COUNT {
        let field = Field::at(index);
        values.push(if !field.required() {
            Value::Absent
        } else {
            match field.kind() {
                FieldKind::Text => Value::Text("text".to_string()),
                FieldKind::Integer => Value::Integer(1),
                FieldKind::Flag => Value::Flag(false),
                FieldKind::Date => Value::Date(CalendarDate { year: 2024, month: 2, day: 29 }),
            }
        });
    }
    values[Field::Capid.index()] = Value::Integer(capid);
    values[Field::Unit.index()] = Value::Text("NER-MA-007".to_string());
    Attendee { values }
}

fn violations(record: &Attendee) -> Vec<Violation> {
    match validate(record) {
        Ok(()) => Vec::new(),
        Err(ValidationError { violations }) => violations,
    }
}

#[test]
fn a_sound_record_is_valid() {
    assert_eq!(validate(&sample(100001)), Ok(()));
    assert_eq!(validate(&sample(1)), Ok(()));
    assert_eq!(validate(&sample(i32::MAX)), Ok(()));
}

#[test]
fn the_identifier_must_be_positive() {
    assert_eq!(violations(&sample(0)), vec![Violation::IdentifierNotPositive]);
    assert_eq!(violations(&sample(-5)), vec![Violation::IdentifierNotPositive]);
    let mut record = sample(1);
    record.values[0] = Value::Absent;
    assert_eq!(violations(&record), vec![Violation::Missing(Field::Capid)]);
    record.values[0] = Value::Text("1".to_string());
    assert_eq!(violations(&record), vec![Violation::WrongKind(Field::Capid)]);
}

#[test]
fn every_violation_is_reported_in_order() {
    let mut record = sample(0);
    record.values[Field::Rank.index()] = Value::Absent;
    record.values[Field::Unit.index()] = Value::Text("NER-MA".to_string());
    record.values[Field::Expiration.index()] =
        Value::Date(CalendarDate { year: 2023, month: 2, day: 29 });
    record.values[Field::Height.index()] = Value::Flag(true);
    record.values[Field::FirstAid.index()] =
        Value::Date(CalendarDate { year: 2023, month: 13, day: 1 });
    record.values[Field::IsPilot.index()] = Value::Absent;
    assert_eq!(
        violations(&record),
        vec![
            Violation::Missing(Field::Rank),
            Violation::WrongKind(Field::Height),
            Violation::InvalidDate(Field::Expiration),
            Violation::Missing(Field::IsPilot),
            Violation::InvalidDate(Field::FirstAid),
            Violation::IdentifierNotPositive,
            Violation::MalformedUnitCode,
        ]
    );
}

#[test]
fn a_record_of_the_wrong_length_is_reported_as_such() {
    let mut record = sample(1);
    record.values.pop();
    assert_eq!(violations(&record), vec![Violation::WrongFieldCount]);
    assert_eq!(violations(&Attendee { values: Vec::new() }), vec![Violation::WrongFieldCount]);
    assert_eq!(Attendee { values: Vec::new() }.identifier(), None);
}

#[test]
fn unit_codes_have_region_wing_and_three_digits_or_more() {
    for code in ["NER-MA-007", "A-B-007", "A-B-1234", "GLR-IL-WI-123", "a b-c d-000"] {
        assert!(check_unit_code(code), "{code:?}");
    }
    for code in ["", "NER", "NER-MA", "NER-MA-", "NER-MA-07", "NER-MA-07a", "NER-MA-0-7",
        "-MA-007", "NER--007", "NER-007", "--000", "A-B-00٧", "NER-MA-007 ", "NERMA007"]
    {
        assert!(!check_unit_code(code), "{code:?}");
    }
}

#[test]
fn a_field_is_checked_against_its_kind() {
    assert_eq!(check_field(&Value::Absent, Field::MiddleName), None);
    assert_eq!(check_field(&Value::Absent, Field::LastName), Some(Violation::Missing(Field::LastName)));
    assert_eq!(check_field(&Value::Integer(3), Field::LastName), Some(Violation::WrongKind(Field::LastName)));
    assert_eq!(check_field(&Value::Flag(true), Field::IsStaff), None);
    assert_eq!(check_field(&Value::Text(String::new()), Field::IsStaff), Some(Violation::WrongKind(Field::IsStaff)));
    let leap = Value::Date(CalendarDate { year: 2024, month: 2, day: 29 });
    assert_eq!(check_field(&leap, Field::DateOfBirth), None);
    assert_eq!(check_field(&leap, Field::Rank), Some(Violation::WrongKind(Field::Rank)));
    let never = Value::Date(CalendarDate { year: 2024, month: 2, day: 30 });
    assert_eq!(check_field(&never, Field::DateOfBirth), Some(Violation::InvalidDate(Field::DateOfBirth)));
    assert_eq!(check_field(&never, Field::Rank), Some(Violation::WrongKind(Field::Rank)));
}

#[test]
fn a_single_record_is_created_through_the_same_upsert() {
    let mut roster = Roster::new();
    assert_eq!(create_record(&mut roster, sample(7)), Ok(Change::Inserted));
    let mut changed = sample(7);
    changed.values[Field::FirstName.index()] = Value::Text("Janet".to_string());
    assert_eq!(create_record(&mut roster, changed.copy()), Ok(Change::Updated));
    assert_eq!(roster.len(), 1);
    assert_eq!(roster.get(7), Some(&changed));
    assert_eq!(
        create_record(&mut roster, sample(0)),
        Err(ValidationError { violations: vec![Violation::IdentifierNotPositive] })
    );
    assert_eq!(roster.len(), 1);
    assert_eq!(roster.get(7), Some(&changed));
    assert_eq!(copy_value(changed.get(Field::FirstName)), Value::Text("Janet".to_string()));
}
