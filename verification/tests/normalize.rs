use roster_ingest::cell::Cell;
use roster_ingest::date::{CalendarDate, DatePattern};
use roster_ingest::error::{Cause, Failure, FieldError};
use roster_ingest::mapping::{mapping_for, shift_column, shift_rule, Mapping, UNIVERSAL_REPORT};
use roster_ingest::normalize::{apply_rule, compose_unit_code, is_placeholder, normalize_row};
use roster_ingest::record::Value;
use roster_ingest::schema::{Field, Rule, Sentinels, FIELD_COUNT};

fn number(value: f64) -> Cell {
    Cell::Number(value.to_bits())
}

fn text(value: &str) -> Cell {
    Cell::Text(value.to_string())
}

fn fails(column: usize, cause: Cause) -> Result<Value, Failure> {
    Err(Failure { column, cause })
}

/// A row of the `UniversalReport` layout that normalizes to a valid record.
fn sample_row() -> Vec<Cell> {
    let mut row = vec![Cell::Empty; 88];
    row[1] = number(100001.0);
    for column in [5, 6, 7, 12, 20, 22, 27, 28, 29, 30, 31, 32, 35, 59, 60, 61, 62] {
        row[column] = text("text");
    }
    row[9] = text("NER");
    row[10] = text("MA");
    row[11] = text("7");
    row[13] = text("03/08");
    row[15] = number(16.0);
    row[16] = number(17.0);
    row[21] = text("31 Dec 2026 ");
    row[36] = text("Yes");
    row[40] = number(42.0);
    row[63] = text("No");
    row[66] = text("");
    for column in 68..82 {
        row[column] = text("Not Complete");
    }
    row[72] = text("");
    row
}

#[test]
fn height_of_zero_is_absent() {
    let rule = Rule::OptionalInteger { column: 0, zero_is_absent: true };
    assert_eq!(apply_rule(rule, &vec![number(0.0)]), Ok(Value::Absent));
    assert_eq!(apply_rule(rule, &vec![number(-0.0)]), Ok(Value::Absent));
    assert_eq!(apply_rule(rule, &vec![Cell::Empty]), Ok(Value::Absent));
    assert_eq!(apply_rule(rule, &vec![number(0.3)]), Ok(Value::Integer(0)));
}

#[test]
fn height_of_seventy_is_stored() {
    let rule = Rule::OptionalInteger { column: 0, zero_is_absent: true };
    assert_eq!(apply_rule(rule, &vec![number(70.0)]), Ok(Value::Integer(70)));
    assert_eq!(apply_rule(rule, &vec![number(69.5)]), Ok(Value::Integer(70)));
}

#[test]
fn optional_number_may_keep_zero() {
    let rule = Rule::OptionalInteger { column: 0, zero_is_absent: false };
    assert_eq!(apply_rule(rule, &vec![number(0.0)]), Ok(Value::Integer(0)));
    assert_eq!(apply_rule(rule, &vec![Cell::Empty]), Ok(Value::Absent));
    assert_eq!(apply_rule(rule, &vec![text("7")]), fails(0, Cause::KindMismatch));
}

#[test]
fn plain_number_is_rounded_and_must_be_there() {
    let rule = Rule::Integer { column: 1 };
    assert_eq!(apply_rule(rule, &vec![Cell::Empty, number(16.5)]), Ok(Value::Integer(17)));
    assert_eq!(apply_rule(rule, &vec![Cell::Empty, number(0.0)]), Ok(Value::Integer(0)));
    assert_eq!(apply_rule(rule, &vec![Cell::Empty, Cell::Empty]), fails(1, Cause::Required));
    assert_eq!(apply_rule(rule, &vec![Cell::Empty, text("16")]), fails(1, Cause::KindMismatch));
    assert_eq!(apply_rule(rule, &vec![Cell::Empty, Cell::Other]), fails(1, Cause::KindMismatch));
    assert_eq!(apply_rule(rule, &vec![Cell::Empty]), fails(1, Cause::ColumnMissing));
}

#[test]
fn staff_flag_is_true_for_yes_only() {
    let rule = Rule::Flag { column: 0 };
    assert_eq!(apply_rule(rule, &vec![text("Yes")]), Ok(Value::Flag(true)));
    assert_eq!(apply_rule(rule, &vec![text("No")]), Ok(Value::Flag(false)));
    assert_eq!(apply_rule(rule, &vec![Cell::Empty]), Ok(Value::Flag(false)));
    assert_eq!(apply_rule(rule, &vec![text("yes")]), Ok(Value::Flag(false)));
    assert_eq!(apply_rule(rule, &vec![text("Yes ")]), Ok(Value::Flag(false)));
    assert_eq!(apply_rule(rule, &vec![number(1.0)]), Ok(Value::Flag(false)));
    assert_eq!(apply_rule(rule, &vec![Cell::Other]), Ok(Value::Flag(false)));
    assert_eq!(apply_rule(rule, &vec![]), fails(0, Cause::ColumnMissing));
}

#[test]
fn unit_code_pads_the_number() {
    let rule = Rule::UnitCode { region: 0, wing: 1, number: 2 };
    let row = vec![text("A"), text("B"), number(7.0)];
    assert_eq!(apply_rule(rule, &row), Ok(Value::Text("A-B-007".to_string())));
    let row = vec![text("A"), text("B"), text("7")];
    assert_eq!(apply_rule(rule, &row), Ok(Value::Text("A-B-007".to_string())));
    let row = vec![text("NER"), text("MA"), text("1234")];
    assert_eq!(apply_rule(rule, &row), Ok(Value::Text("NER-MA-1234".to_string())));
    assert_eq!(compose_unit_code("A", "B", &vec!['7']), "A-B-007");
    assert_eq!(compose_unit_code("", "", &vec![]), "--000");
}

#[test]
fn unit_code_reports_the_first_part_that_fails() {
    let rule = Rule::UnitCode { region: 2, wing: 1, number: 0 };
    let row = vec![text("7"), text("B"), Cell::Empty];
    assert_eq!(apply_rule(rule, &row), fails(2, Cause::Required));
    let row = vec![text("7"), number(1.0), text("A")];
    assert_eq!(apply_rule(rule, &row), fails(1, Cause::KindMismatch));
    let row = vec![Cell::Other, text("B"), text("A")];
    assert_eq!(apply_rule(rule, &row), fails(0, Cause::KindMismatch));
    let rule = Rule::UnitCode { region: 0, wing: 1, number: 5 };
    assert_eq!(apply_rule(rule, &vec![text("A"), text("B")]), fails(5, Cause::ColumnMissing));
}

#[test]
fn plain_text_is_copied_and_must_be_there() {
    let rule = Rule::Text { column: 0 };
    assert_eq!(apply_rule(rule, &vec![text(" C/SSgt ")]), Ok(Value::Text(" C/SSgt ".to_string())));
    assert_eq!(apply_rule(rule, &vec![text("")]), Ok(Value::Text(String::new())));
    assert_eq!(apply_rule(rule, &vec![text("Unavailable")]), Ok(Value::Text("Unavailable".to_string())));
    assert_eq!(apply_rule(rule, &vec![Cell::Empty]), fails(0, Cause::Required));
    assert_eq!(apply_rule(rule, &vec![number(1.0)]), fails(0, Cause::KindMismatch));
}

#[test]
fn missing_column_is_reported() {
    let rule = Rule::Text { column: 3 };
    assert_eq!(apply_rule(rule, &vec![text("x")]), fails(3, Cause::ColumnMissing));
}

#[test]
fn placeholders_are_absent_and_nothing_else_is() {
    let rule = Rule::OptionalText { column: 0, sentinels: Sentinels::placeholders() };
    assert_eq!(apply_rule(rule, &vec![text("          ")]), Ok(Value::Absent));
    assert_eq!(apply_rule(rule, &vec![text("Unavailable")]), Ok(Value::Absent));
    assert_eq!(apply_rule(rule, &vec![Cell::Empty]), Ok(Value::Absent));
    for kept in ["", " ", "         ", "           ", "unavailable", "Unavailable ", "Not Complete",
        "M"]
    {
        assert_eq!(apply_rule(rule, &vec![text(kept)]), Ok(Value::Text(kept.to_string())));
    }
    assert_eq!(apply_rule(rule, &vec![number(0.0)]), fails(0, Cause::KindMismatch));
    let plain = Rule::OptionalText { column: 0, sentinels: Sentinels::none() };
    for kept in ["", " ", "          ", "Unavailable", "Not Complete"] {
        assert_eq!(apply_rule(plain, &vec![text(kept)]), Ok(Value::Text(kept.to_string())));
    }
}

#[test]
fn each_placeholder_matches_its_own_text_only() {
    let texts = [" ", "          ", "Unavailable", "Not Complete", "", "x"];
    let sets = [
        (Sentinels::blank(), [true, false, false, false, false, false]),
        (Sentinels::placeholders(), [false, true, true, false, false, false]),
        (Sentinels::not_complete(), [false, false, false, true, false, false]),
        (Sentinels::none(), [false, false, false, false, false, false]),
    ];
    for (sentinels, expected) in sets {
        for (text, matched) in texts.iter().zip(expected) {
            assert_eq!(is_placeholder(sentinels, text), matched, "{sentinels:?} {text:?}");
        }
    }
}

#[test]
fn not_completed_dates_are_absent_and_other_text_is_a_date() {
    let pattern = DatePattern::DayMonthYear;
    let rule = Rule::OptionalDate { column: 0, pattern, sentinels: Sentinels::not_complete() };
    assert_eq!(apply_rule(rule, &vec![text("Not Complete")]), Ok(Value::Absent));
    assert_eq!(apply_rule(rule, &vec![text("")]), Ok(Value::Absent));
    assert_eq!(apply_rule(rule, &vec![Cell::Empty]), Ok(Value::Absent));
    assert_eq!(
        apply_rule(rule, &vec![text("15 Feb 2024 ")]),
        Ok(Value::Date(CalendarDate { year: 2024, month: 2, day: 15 }))
    );
    assert_eq!(apply_rule(rule, &vec![text(" ")]), fails(0, Cause::BadDate));
    assert_eq!(apply_rule(rule, &vec![text("not complete")]), fails(0, Cause::BadDate));
    assert_eq!(apply_rule(rule, &vec![text("30 Feb 2024 ")]), fails(0, Cause::BadDate));
    assert_eq!(apply_rule(rule, &vec![number(45000.0)]), fails(0, Cause::KindMismatch));
    let blank = Rule::OptionalDate { column: 0, pattern, sentinels: Sentinels::blank() };
    assert_eq!(apply_rule(blank, &vec![text(" ")]), Ok(Value::Absent));
    assert_eq!(apply_rule(blank, &vec![text("Not Complete")]), fails(0, Cause::BadDate));
}

#[test]
fn fixed_dates_must_be_there_and_fit_the_pattern() {
    let rule = Rule::Date { column: 0, pattern: DatePattern::MonthYear };
    assert_eq!(
        apply_rule(rule, &vec![text("03/08")]),
        Ok(Value::Date(CalendarDate { year: 2008, month: 3, day: 1 }))
    );
    assert_eq!(apply_rule(rule, &vec![text("")]), fails(0, Cause::BadDate));
    assert_eq!(apply_rule(rule, &vec![text("31 Dec 2026 ")]), fails(0, Cause::BadDate));
    assert_eq!(apply_rule(rule, &vec![Cell::Empty]), fails(0, Cause::Required));
    assert_eq!(apply_rule(rule, &vec![Cell::Other]), fails(0, Cause::KindMismatch));
}

#[test]
fn numeric_text_is_a_number_or_a_hard_failure() {
    let rule = Rule::NumericText { column: 0 };
    assert_eq!(apply_rule(rule, &vec![text("3")]), Ok(Value::Integer(3)));
    assert_eq!(apply_rule(rule, &vec![text("-12")]), Ok(Value::Integer(-12)));
    assert_eq!(apply_rule(rule, &vec![text("")]), Ok(Value::Absent));
    assert_eq!(apply_rule(rule, &vec![Cell::Empty]), Ok(Value::Absent));
    assert_eq!(apply_rule(rule, &vec![text("three")]), fails(0, Cause::BadNumber));
    assert_eq!(apply_rule(rule, &vec![text(" ")]), fails(0, Cause::BadNumber));
    assert_eq!(apply_rule(rule, &vec![text("3.5")]), fails(0, Cause::BadNumber));
    assert_eq!(apply_rule(rule, &vec![number(3.0)]), fails(0, Cause::KindMismatch));
}

#[test]
fn omitted_field_is_absent_whatever_the_row_holds() {
    assert_eq!(apply_rule(Rule::Omitted, &vec![]), Ok(Value::Absent));
    assert_eq!(apply_rule(Rule::Omitted, &vec![text("x")]), Ok(Value::Absent));
}

#[test]
fn a_row_normalizes_to_one_value_for_each_field() {
    let mapping = Mapping::universal_report();
    let record = normalize_row(&mapping, &sample_row(), 0).unwrap();
    assert_eq!(record.values.len(), FIELD_COUNT);
    assert_eq!(record.identifier(), Some(100001));
    assert_eq!(record.get(Field::Unit), &Value::Text("NER-MA-007".to_string()));
    assert_eq!(record.get(Field::IsStaff), &Value::Flag(true));
    assert_eq!(record.get(Field::IsPilot), &Value::Flag(false));
    assert_eq!(record.get(Field::HighestORide), &Value::Absent);
    assert_eq!(record.get(Field::FirstAid), &Value::Absent);
    assert_eq!(record.get(Field::RegisteredBy), &Value::Absent);
}

#[test]
fn the_first_field_that_fails_is_reported_with_row_and_column() {
    let mapping = Mapping::universal_report();
    let mut row = sample_row();
    row[66] = text("many");
    row[21] = text("tomorrow");
    assert_eq!(
        normalize_row(&mapping, &row, 7),
        Err(FieldError { row: 7, column: 21, field: Field::Expiration, cause: Cause::BadDate })
    );
    row[21] = text("31 Dec 2026 ");
    assert_eq!(
        normalize_row(&mapping, &row, 8),
        Err(FieldError { row: 8, column: 66, field: Field::HighestORide, cause: Cause::BadNumber })
    );
    row.truncate(80);
    row[66] = text("2");
    assert_eq!(
        normalize_row(&mapping, &row, 9),
        Err(FieldError { row: 9, column: 80, field: Field::Capt117Part3, cause: Cause::ColumnMissing })
    );
    assert!(normalize_row(&mapping, &row, 9).unwrap_err().is_schema_mismatch());
    assert!(!FieldError { row: 0, column: 0, field: Field::Capid, cause: Cause::BadDate }
        .is_schema_mismatch());
}

#[test]
fn normalizing_a_row_depends_on_that_row_alone() {
    let mapping = Mapping::universal_report();
    let first = normalize_row(&mapping, &sample_row(), 0).unwrap();
    let mut other = sample_row();
    other[1] = text("broken");
    assert!(normalize_row(&mapping, &other, 1).is_err());
    assert_eq!(normalize_row(&mapping, &sample_row(), 2).unwrap(), first);
}

#[test]
fn a_layout_with_columns_put_in_is_read_by_the_shifted_table() {
    let mapping = Mapping::universal_report();
    let shifted = mapping.shifted(2, 9, 3).unwrap();
    assert_eq!(shifted.version, 2);
    assert_eq!(shifted.rule(Field::Capid), Rule::Integer { column: 1 });
    assert_eq!(shifted.rule(Field::MiddleName), mapping.rule(Field::MiddleName));
    assert_eq!(shifted.rule(Field::Unit), Rule::UnitCode { region: 12, wing: 13, number: 14 });
    assert_eq!(
        shifted.rule(Field::RegisteredBy),
        Rule::OptionalText { column: 90, sentinels: Sentinels::none() }
    );
    let row = sample_row();
    let mut wide = row.clone();
    for cell in [text("new"), Cell::Empty, number(1.0)] {
        wide.insert(9, cell);
    }
    assert_eq!(normalize_row(&shifted, &wide, 4), normalize_row(&mapping, &row, 4));
    wide[24] = text("tomorrow");
    assert_eq!(
        normalize_row(&shifted, &wide, 4),
        Err(FieldError { row: 4, column: 24, field: Field::Expiration, cause: Cause::BadDate })
    );
    assert!(normalize_row(&mapping, &wide, 4).is_err());
}

#[test]
fn columns_cannot_be_shifted_past_the_last_column_number() {
    assert_eq!(shift_column(5, 9, 3), Some(5));
    assert_eq!(shift_column(9, 9, 3), Some(12));
    assert_eq!(shift_column(10, 9, usize::MAX), None);
    assert_eq!(shift_column(8, 9, usize::MAX), Some(8));
    assert_eq!(shift_rule(Rule::Omitted, 0, usize::MAX), Some(Rule::Omitted));
    assert_eq!(
        shift_rule(Rule::UnitCode { region: 1, wing: 2, number: 3 }, 2, 10),
        Some(Rule::UnitCode { region: 1, wing: 12, number: 13 })
    );
    assert_eq!(shift_rule(Rule::UnitCode { region: 1, wing: 2, number: 3 }, 3, usize::MAX), None);
    assert_eq!(Mapping::universal_report().shifted(2, 80, usize::MAX), None);
    assert!(Mapping::universal_report().shifted(2, 88, usize::MAX).is_some());
}

#[test]
fn the_version_number_selects_the_table() {
    assert_eq!(mapping_for(UNIVERSAL_REPORT), Some(Mapping::universal_report()));
    assert_eq!(mapping_for(0), None);
    assert_eq!(mapping_for(2), None);
}
