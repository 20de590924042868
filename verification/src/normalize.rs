//! The row normalizer: applies a mapping table to the cells of one row and
//! yields the canonical record, or the first field that could not be read.

use vstd::prelude::*;
use crate::cell::{row_view, Cell, CellView};
use crate::date::{date_reading, parse_date, DatePattern};
use crate::error::{Cause, Failure, FieldError};
use crate::mapping::{can_shift, shifted_column, shifted_rule, shifted_rules, Mapping};
use crate::number::{is_zero, is_zero_number, round_to_i32, rounded_i32};
use crate::record::{Attendee, RecordView, Value, ValueView};
use crate::schema::{Field, Rule, Sentinels, FIELD_COUNT};
use crate::text::{
    chars_of, decimal_reading, push_chars, push_signed_decimal, push_zero_padded, read_decimal,
    same_text, signed_decimal, text_of, zero_padded,
};

verus! {

/// The outcome of one rule on one row.
pub type Outcome = Result<ValueView, Failure>;

/// The cell of `row` at `column`.
pub open spec fn cell_at(row: Seq<CellView>, column: usize) -> Result<CellView, Failure> {
    if column < row.len() {
        Ok(row[column as int])
    } else {
        Err(Failure { column, cause: Cause::ColumnMissing })
    }
}

/// The text of a cell that must hold text.
pub open spec fn required_text(row: Seq<CellView>, column: usize) -> Result<Seq<char>, Failure> {
    match cell_at(row, column) {
        Ok(CellView::Text(text)) => Ok(text),
        Ok(CellView::Empty) => Err(Failure { column, cause: Cause::Required }),
        Ok(_) => Err(Failure { column, cause: Cause::KindMismatch }),
        Err(failure) => Err(failure),
    }
}

/// The unit number of a unit code: the text of the cell, or the decimal
/// writing of the rounded number in it.
pub open spec fn unit_number(row: Seq<CellView>, column: usize) -> Result<Seq<char>, Failure> {
    match cell_at(row, column) {
        Ok(CellView::Text(text)) => Ok(text),
        Ok(CellView::Number(bits)) => Ok(signed_decimal(rounded_i32(bits))),
        Ok(CellView::Empty) => Err(Failure { column, cause: Cause::Required }),
        Ok(_) => Err(Failure { column, cause: Cause::KindMismatch }),
        Err(failure) => Err(failure),
    }
}

/// Region, wing and unit number as one code.
pub open spec fn unit_code(region: Seq<char>, wing: Seq<char>, number: Seq<char>) -> Seq<char> {
    region + seq!['-'] + wing + seq!['-'] + zero_padded(number, 3)
}

/// The outcome of a date rule on the text of a cell.
pub open spec fn date_outcome(text: Seq<char>, column: usize, pattern: DatePattern) -> Outcome {
    match date_reading(text, pattern) {
        Some(date) => Ok(ValueView::Date(date)),
        None => Err(Failure { column, cause: Cause::BadDate }),
    }
}

/// The outcome of `rule` on `row`: the value it yields, or why it yields
/// none.
pub open spec fn rule_outcome(rule: Rule, row: Seq<CellView>) -> Outcome {
    match rule {
        Rule::Text { column } => match required_text(row, column) {
            Ok(text) => Ok(ValueView::Text(text)),
            Err(failure) => Err(failure),
        },
        Rule::OptionalText { column, sentinels } => match cell_at(row, column) {
            Ok(CellView::Text(text)) => if sentinels.matches(text) {
                Ok(ValueView::Absent)
            } else {
                Ok(ValueView::Text(text))
            },
            Ok(CellView::Empty) => Ok(ValueView::Absent),
            Ok(_) => Err(Failure { column, cause: Cause::KindMismatch }),
            Err(failure) => Err(failure),
        },
        Rule::Integer { column } => match cell_at(row, column) {
            Ok(CellView::Number(bits)) => Ok(ValueView::Integer(rounded_i32(bits) as i32)),
            Ok(CellView::Empty) => Err(Failure { column, cause: Cause::Required }),
            Ok(_) => Err(Failure { column, cause: Cause::KindMismatch }),
            Err(failure) => Err(failure),
        },
        Rule::OptionalInteger { column, zero_is_absent } => match cell_at(row, column) {
            Ok(CellView::Number(bits)) => if zero_is_absent && is_zero(bits) {
                Ok(ValueView::Absent)
            } else {
                Ok(ValueView::Integer(rounded_i32(bits) as i32))
            },
            Ok(CellView::Empty) => Ok(ValueView::Absent),
            Ok(_) => Err(Failure { column, cause: Cause::KindMismatch }),
            Err(failure) => Err(failure),
        },
        Rule::Flag { column } => match cell_at(row, column) {
            Ok(CellView::Text(text)) => Ok(ValueView::Flag(text == "Yes"@)),
            Ok(_) => Ok(ValueView::Flag(false)),
            Err(failure) => Err(failure),
        },
        Rule::Date { column, pattern } => match required_text(row, column) {
            Ok(text) => date_outcome(text, column, pattern),
            Err(failure) => Err(failure),
        },
        Rule::OptionalDate { column, pattern, sentinels } => match cell_at(row, column) {
            Ok(CellView::Text(text)) => if text.len() == 0 || sentinels.matches(text) {
                Ok(ValueView::Absent)
            } else {
                date_outcome(text, column, pattern)
            },
            Ok(CellView::Empty) => Ok(ValueView::Absent),
            Ok(_) => Err(Failure { column, cause: Cause::KindMismatch }),
            Err(failure) => Err(failure),
        },
        Rule::UnitCode { region, wing, number } => match required_text(row, region) {
            Ok(region_text) => match required_text(row, wing) {
                Ok(wing_text) => match unit_number(row, number) {
                    Ok(number_text) => Ok(
                        ValueView::Text(unit_code(region_text, wing_text, number_text)),
                    ),
                    Err(failure) => Err(failure),
                },
                Err(failure) => Err(failure),
            },
            Err(failure) => Err(failure),
        },
        Rule::NumericText { column } => match cell_at(row, column) {
            Ok(CellView::Text(text)) => if text.len() == 0 {
                Ok(ValueView::Absent)
            } else {
                match decimal_reading(text) {
                    Some(number) => Ok(ValueView::Integer(number)),
                    None => Err(Failure { column, cause: Cause::BadNumber }),
                }
            },
            Ok(CellView::Empty) => Ok(ValueView::Absent),
            Ok(_) => Err(Failure { column, cause: Cause::KindMismatch }),
            Err(failure) => Err(failure),
        },
        Rule::Omitted => Ok(ValueView::Absent),
    }
}

/// What an outcome computed on values says as a mathematical value.
pub open spec fn outcome_view(outcome: Result<Value, Failure>) -> Outcome {
    match outcome {
        Ok(value) => Ok(value@),
        Err(failure) => Err(failure),
    }
}

/// Whether `text` is one of the placeholders that `sentinels` switches on.
pub fn is_placeholder(sentinels: Sentinels, text: &str) -> (matched: bool)
    ensures
        matched == sentinels.matches(text@),
{
    (sentinels.blank && same_text(text, " ")) || (sentinels.padding && same_text(
        text,
        "          ",
    )) || (sentinels.unavailable && same_text(text, "Unavailable")) || (sentinels.not_complete
        && same_text(text, "Not Complete"))
}

/// The cell of `row` at `column`.
fn fetch(row: &Vec<Cell>, column: usize) -> (cell: Result<&Cell, Failure>)
    ensures
        match cell {
            Ok(c) => cell_at(row_view(row@), column) == Ok::<CellView, Failure>(c@),
            Err(failure) => cell_at(row_view(row@), column) == Err::<CellView, Failure>(failure),
        },
{
    if column < row.len() {
        Ok(&row[column])
    } else {
        Err(Failure { column, cause: Cause::ColumnMissing })
    }
}

/// The text of a cell that must hold text.
fn fetch_text(row: &Vec<Cell>, column: usize) -> (text: Result<&String, Failure>)
    ensures
        match text {
            Ok(t) => required_text(row_view(row@), column) == Ok::<Seq<char>, Failure>(t@),
            Err(failure) => required_text(row_view(row@), column) == Err::<Seq<char>, Failure>(
                failure,
            ),
        },
{
    match fetch(row, column) {
        Ok(Cell::Text(text)) => Ok(text),
        Ok(Cell::Empty) => Err(Failure { column, cause: Cause::Required }),
        Ok(_) => Err(Failure { column, cause: Cause::KindMismatch }),
        Err(failure) => Err(failure),
    }
}

/// The unit number of a unit code, as characters.
fn fetch_unit_number(row: &Vec<Cell>, column: usize) -> (number: Result<Vec<char>, Failure>)
    ensures
        match number {
            Ok(n) => unit_number(row_view(row@), column) == Ok::<Seq<char>, Failure>(n@),
            Err(failure) => unit_number(row_view(row@), column) == Err::<Seq<char>, Failure>(
                failure,
            ),
        },
{
    match fetch(row, column) {
        Ok(Cell::Text(text)) => Ok(chars_of(text.as_str())),
        Ok(Cell::Number(bits)) => {
            let mut digits: Vec<char> = Vec::new();
            push_signed_decimal(&mut digits, round_to_i32(*bits));
            Ok(digits)
        },
        Ok(Cell::Empty) => Err(Failure { column, cause: Cause::Required }),
        Ok(_) => Err(Failure { column, cause: Cause::KindMismatch }),
        Err(failure) => Err(failure),
    }
}

/// Joins region, wing and unit number into a unit code: `region-wing-number`,
/// the number with zeros in front up to three characters.
pub fn compose_unit_code(region: &str, wing: &str, number: &Vec<char>) -> (code: String)
    ensures
        code@ == unit_code(region@, wing@, number@),
{
    let mut chars = chars_of(region);
    chars.push('-');
    let wing_chars = chars_of(wing);
    push_chars(&mut chars, &wing_chars);
    chars.push('-');
    push_zero_padded(&mut chars, number, 3);
    text_of(&chars)
}

/// Reads the text of a date cell.
fn read_date(text: &str, column: usize, pattern: DatePattern) -> (outcome: Result<Value, Failure>)
    ensures
        outcome_view(outcome) == date_outcome(text@, column, pattern),
{
    match parse_date(text, pattern) {
        Some(date) => Ok(Value::Date(date)),
        None => Err(Failure { column, cause: Cause::BadDate }),
    }
}

/// Applies `rule` to `row`.
#[verifier::rlimit(50)]
pub fn apply_rule(rule: Rule, row: &Vec<Cell>) -> (outcome: Result<Value, Failure>)
    ensures
        outcome_view(outcome) == rule_outcome(rule, row_view(row@)),
{
    match rule {
        Rule::Text { column } => match fetch_text(row, column) {
            Ok(text) => Ok(Value::Text(text.clone())),
            Err(failure) => Err(failure),
        },
        Rule::OptionalText { column, sentinels } => match fetch(row, column) {
            Ok(Cell::Text(text)) => if is_placeholder(sentinels, text.as_str()) {
                Ok(Value::Absent)
            } else {
                Ok(Value::Text(text.clone()))
            },
            Ok(Cell::Empty) => Ok(Value::Absent),
            Ok(_) => Err(Failure { column, cause: Cause::KindMismatch }),
            Err(failure) => Err(failure),
        },
        Rule::Integer { column } => match fetch(row, column) {
            Ok(Cell::Number(bits)) => Ok(Value::Integer(round_to_i32(*bits))),
            Ok(Cell::Empty) => Err(Failure { column, cause: Cause::Required }),
            Ok(_) => Err(Failure { column, cause: Cause::KindMismatch }),
            Err(failure) => Err(failure),
        },
        Rule::OptionalInteger { column, zero_is_absent } => match fetch(row, column) {
            Ok(Cell::Number(bits)) => if zero_is_absent && is_zero_number(*bits) {
                Ok(Value::Absent)
            } else {
                Ok(Value::Integer(round_to_i32(*bits)))
            },
            Ok(Cell::Empty) => Ok(Value::Absent),
            Ok(_) => Err(Failure { column, cause: Cause::KindMismatch }),
            Err(failure) => Err(failure),
        },
        Rule::Flag { column } => match fetch(row, column) {
            Ok(Cell::Text(text)) => Ok(Value::Flag(same_text(text.as_str(), "Yes"))),
            Ok(_) => Ok(Value::Flag(false)),
            Err(failure) => Err(failure),
        },
        Rule::Date { column, pattern } => match fetch_text(row, column) {
            Ok(text) => read_date(text.as_str(), column, pattern),
            Err(failure) => Err(failure),
        },
        Rule::OptionalDate { column, pattern, sentinels } => match fetch(row, column) {
            Ok(Cell::Text(text)) => if same_text(text.as_str(), "") || is_placeholder(
                sentinels,
                text.as_str(),
            ) {
                proof {
                    reveal_strlit("");
                }
                Ok(Value::Absent)
            } else {
                proof {
                    reveal_strlit("");
                }
                assert(text@.len() != 0) by {
                    if text@.len() == 0 {
                        assert(text@ =~= ""@);
                    }
                }
                read_date(text.as_str(), column, pattern)
            },
            Ok(Cell::Empty) => Ok(Value::Absent),
            Ok(_) => Err(Failure { column, cause: Cause::KindMismatch }),
            Err(failure) => Err(failure),
        },
        Rule::UnitCode { region, wing, number } => match fetch_text(row, region) {
            Ok(region_text) => match fetch_text(row, wing) {
                Ok(wing_text) => match fetch_unit_number(row, number) {
                    Ok(number_text) => Ok(
                        Value::Text(
                            compose_unit_code(
                                region_text.as_str(),
                                wing_text.as_str(),
                                &number_text,
                            ),
                        ),
                    ),
                    Err(failure) => Err(failure),
                },
                Err(failure) => Err(failure),
            },
            Err(failure) => Err(failure),
        },
        Rule::NumericText { column } => match fetch(row, column) {
            Ok(Cell::Text(text)) => {
                let chars = chars_of(text.as_str());
                if chars.len() == 0 {
                    Ok(Value::Absent)
                } else {
                    match read_decimal(&chars) {
                        Some(number) => Ok(Value::Integer(number)),
                        None => Err(Failure { column, cause: Cause::BadNumber }),
                    }
                }
            },
            Ok(Cell::Empty) => Ok(Value::Absent),
            Ok(_) => Err(Failure { column, cause: Cause::KindMismatch }),
            Err(failure) => Err(failure),
        },
        Rule::Omitted => Ok(Value::Absent),
    }
}

/// The position of the first rule from `from` on whose outcome on `row` is
/// a failure.
pub open spec fn first_failure(rules: Seq<Rule>, row: Seq<CellView>, from: int) -> Option<int>
    decreases rules.len() - from,
{
    if from >= rules.len() {
        None
    } else if rule_outcome(rules[from], row) is Err {
        Some(from)
    } else {
        first_failure(rules, row, from + 1)
    }
}

/// The record that the rules of a mapping table yield on the row at
/// position `index`: the value of every rule, in field order, or the error
/// of the first field whose rule fails.
pub open spec fn normalized(rules: Seq<Rule>, row: Seq<CellView>, index: usize) -> Result<
    RecordView,
    FieldError,
> {
    match first_failure(rules, row, 0) {
        Some(i) => Err(
            FieldError {
                row: index,
                column: rule_outcome(rules[i], row)->Err_0.column,
                field: Field::spec_at(i as usize),
                cause: rule_outcome(rules[i], row)->Err_0.cause,
            },
        ),
        None => Ok(Seq::new(rules.len(), |i: int| rule_outcome(rules[i], row)->Ok_0)),
    }
}

/// What the result of normalizing a row says as a mathematical value.
pub open spec fn normalized_view(result: Result<Attendee, FieldError>) -> Result<
    RecordView,
    FieldError,
> {
    match result {
        Ok(record) => Ok(record@),
        Err(error) => Err(error),
    }
}

/// A rule that suits a field yields only values that the field may hold.
pub proof fn lemma_outcome_suits(rule: Rule, row: Seq<CellView>, field: Field)
    requires
        rule.spec_suits(field),
        rule_outcome(rule, row) is Ok,
    ensures
        rule_outcome(rule, row)->Ok_0.suits(field),
{
}

/// Which cells an optional rule takes for "no value": an empty cell, the
/// placeholders that the rule switches on and, for a date or a number
/// written as text, the empty text; no other cell. A rule for a required
/// field never yields "no value".
#[verifier::rlimit(50)]
pub proof fn lemma_sentinel_mapping(rule: Rule, row: Seq<CellView>)
    ensures
        rule_outcome(rule, row) == Ok::<ValueView, Failure>(ValueView::Absent) <==> match rule {
            Rule::OptionalText { column, sentinels } => column < row.len() && match row[column as int] {
                CellView::Empty => true,
                CellView::Text(text) => sentinels.matches(text),
                _ => false,
            },
            Rule::OptionalDate { column, sentinels, .. } => column < row.len() && match row[column as int] {
                CellView::Empty => true,
                CellView::Text(text) => text.len() == 0 || sentinels.matches(text),
                _ => false,
            },
            Rule::NumericText { column } => column < row.len() && match row[column as int] {
                CellView::Empty => true,
                CellView::Text(text) => text.len() == 0,
                _ => false,
            },
            Rule::OptionalInteger { column, zero_is_absent } => column < row.len() && match row[column as int] {
                CellView::Empty => true,
                CellView::Number(bits) => zero_is_absent && is_zero(bits),
                _ => false,
            },
            Rule::Omitted => true,
            _ => false,
        },
{
}

/// Normalizes the row at position `index` among the data rows: applies each
/// rule of `mapping` in field order and stops at the first that fails.
pub fn normalize_row(mapping: &Mapping, row: &Vec<Cell>, index: usize) -> (result: Result<
    Attendee,
    FieldError,
>)
    requires
        mapping.wf(),
    ensures
        normalized_view(result) == normalized(mapping.rules@, row_view(row@), index),
        result matches Ok(record) ==> crate::record::well_typed(record@),
{
    let ghost cells = row_view(row@);
    let mut values: Vec<Value> = Vec::new();
    let mut i: usize = 0;
    while i < FIELD_COUNT
        invariant
            i <= FIELD_COUNT,
            mapping.wf(),
            cells == row_view(row@),
            values.len() == i,
            forall|j: int|
                0 <= j < i ==> rule_outcome(mapping.rules[j], cells) == Ok::<ValueView, Failure>(
                    (#[trigger] values[j])@,
                ),
            first_failure(mapping.rules@, cells, 0) == first_failure(mapping.rules@, cells, i as int),
        decreases FIELD_COUNT - i,
    {
        match apply_rule(mapping.rules[i], row) {
            Ok(value) => {
                values.push(value);
            },
            Err(failure) => {
                return Err(
                    FieldError {
                        row: index,
                        column: failure.column,
                        field: Field::at(i),
                        cause: failure.cause,
                    },
                );
            },
        }
        i += 1;
    }
    let record = Attendee { values };
    proof {
        assert(record@ =~= Seq::new(
            mapping.rules@.len(),
            |i: int| rule_outcome(mapping.rules@[i], cells)->Ok_0,
        ));
        assert forall|j: int| 0 <= j < FIELD_COUNT implies (#[trigger] record@[j]).suits(
            Field::spec_at(j as usize),
        ) by {
            assert(rule_outcome(mapping.rules[j], cells) == Ok::<ValueView, Failure>(
                record.values[j]@,
            ));
            lemma_outcome_suits(mapping.rules[j], cells, Field::spec_at(j as usize));
        }
    }
    Ok(record)
}

/// `row` with the cells `inserted` put in before column `from`.
pub open spec fn widened(row: Seq<CellView>, from: usize, inserted: Seq<CellView>) -> Seq<CellView> {
    row.take(from as int) + inserted + row.skip(from as int)
}

/// An outcome on a row, as it reads after columns have been put in: the
/// same value, or the same cause at the shifted column.
pub open spec fn shifted_outcome(outcome: Outcome, from: usize, by: usize) -> Outcome {
    match outcome {
        Ok(value) => Ok(value),
        Err(failure) => Err(
            Failure { column: shifted_column(failure.column, from, by) as usize, cause: failure.cause },
        ),
    }
}

/// A cell of a row is found in the widened row at the shifted column.
proof fn lemma_shifted_cell(
    row: Seq<CellView>,
    column: usize,
    from: usize,
    inserted: Seq<CellView>,
)
    requires
        from <= row.len(),
        shifted_column(column, from, inserted.len() as usize) <= usize::MAX,
        inserted.len() <= usize::MAX,
    ensures
        cell_at(
            widened(row, from, inserted),
            shifted_column(column, from, inserted.len() as usize) as usize,
        ) == match cell_at(row, column) {
            Ok(cell) => Ok::<CellView, Failure>(cell),
            Err(failure) => Err::<CellView, Failure>(
                Failure {
                    column: shifted_column(column, from, inserted.len() as usize) as usize,
                    cause: Cause::ColumnMissing,
                },
            ),
        },
{
}

/// A shifted rule reads from a widened row what the rule reads from the
/// row: where columns are put into a layout, the rules shifted by as many
/// columns yield the same values, and fail for the same causes.
#[verifier::rlimit(50)]
pub proof fn lemma_shifted_rule(
    rule: Rule,
    row: Seq<CellView>,
    from: usize,
    inserted: Seq<CellView>,
)
    requires
        from <= row.len(),
        inserted.len() <= usize::MAX,
        can_shift(rule, from, inserted.len() as usize),
    ensures
        rule_outcome(
            shifted_rule(rule, from, inserted.len() as usize),
            widened(row, from, inserted),
        ) == shifted_outcome(rule_outcome(rule, row), from, inserted.len() as usize),
{
    match rule {
        Rule::Text { column }
        | Rule::OptionalText { column, .. }
        | Rule::Integer { column }
        | Rule::OptionalInteger { column, .. }
        | Rule::Flag { column }
        | Rule::Date { column, .. }
        | Rule::OptionalDate { column, .. }
        | Rule::NumericText { column } => {
            lemma_shifted_cell(row, column, from, inserted);
        },
        Rule::UnitCode { region, wing, number } => {
            lemma_shifted_cell(row, region, from, inserted);
            lemma_shifted_cell(row, wing, from, inserted);
            lemma_shifted_cell(row, number, from, inserted);
        },
        Rule::Omitted => {},
    }
}

/// Shifting the rules of a table does not move the first failure.
proof fn lemma_shifted_first_failure(
    rules: Seq<Rule>,
    row: Seq<CellView>,
    from: usize,
    inserted: Seq<CellView>,
    start: int,
)
    requires
        0 <= start,
        from <= row.len(),
        inserted.len() <= usize::MAX,
        forall|i: int|
            0 <= i < rules.len() ==> can_shift(#[trigger] rules[i], from, inserted.len() as usize),
    ensures
        first_failure(
            shifted_rules(rules, from, inserted.len() as usize),
            widened(row, from, inserted),
            start,
        ) == first_failure(rules, row, start),
    decreases rules.len() - start,
{
    if start < rules.len() {
        lemma_shifted_rule(rules[start], row, from, inserted);
        lemma_shifted_first_failure(rules, row, from, inserted, start + 1);
    }
}

/// A layout that differs from another by columns put in is read by the
/// shifted table as the other layout is read by its own: the same record
/// for every row, or the same error at the shifted column.
pub proof fn lemma_shifted_layout(
    rules: Seq<Rule>,
    row: Seq<CellView>,
    index: usize,
    from: usize,
    inserted: Seq<CellView>,
)
    requires
        from <= row.len(),
        inserted.len() <= usize::MAX,
        forall|i: int|
            0 <= i < rules.len() ==> can_shift(#[trigger] rules[i], from, inserted.len() as usize),
    ensures
        normalized(
            shifted_rules(rules, from, inserted.len() as usize),
            widened(row, from, inserted),
            index,
        ) == match normalized(rules, row, index) {
            Ok(record) => Ok::<RecordView, FieldError>(record),
            Err(error) => Err::<RecordView, FieldError>(
                FieldError {
                    column: shifted_column(error.column, from, inserted.len() as usize) as usize,
                    ..error
                },
            ),
        },
{
    let by = inserted.len() as usize;
    let moved = shifted_rules(rules, from, by);
    let wide = widened(row, from, inserted);
    lemma_shifted_first_failure(rules, row, from, inserted, 0);
    match first_failure(rules, row, 0) {
        Some(i) => {
            lemma_first_failure_in_range(rules, row, 0);
            lemma_shifted_rule(rules[i], row, from, inserted);
        },
        None => {
            assert forall|i: int| 0 <= i < rules.len() implies rule_outcome(moved[i], wide)
                == rule_outcome(rules[i], row) by {
                lemma_no_failure(rules, row, 0, i);
                lemma_shifted_rule(rules[i], row, from, inserted);
            }
            assert(normalized(moved, wide, index)->Ok_0 =~= normalized(rules, row, index)->Ok_0);
        },
    }
}

/// The first failure, where there is one, is a rule of the table.
proof fn lemma_first_failure_in_range(rules: Seq<Rule>, row: Seq<CellView>, start: int)
    requires
        0 <= start,
    ensures
        first_failure(rules, row, start) matches Some(i) ==> start <= i < rules.len()
            && rule_outcome(rules[i], row) is Err,
    decreases rules.len() - start,
{
    if start < rules.len() {
        lemma_first_failure_in_range(rules, row, start + 1);
    }
}

/// Where no rule fails from `start` on, each of those rules yields a value.
proof fn lemma_no_failure(rules: Seq<Rule>, row: Seq<CellView>, start: int, i: int)
    requires
        0 <= start <= i < rules.len(),
        first_failure(rules, row, start) is None,
    ensures
        rule_outcome(rules[i], row) is Ok,
    decreases rules.len() - start,
{
    if start < i {
        lemma_no_failure(rules, row, start + 1, i);
    }
}

} // verus!
