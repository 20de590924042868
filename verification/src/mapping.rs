//! Mapping tables: one rule for each field of the record, under a version
//! number that names the workbook layout.

use vstd::prelude::*;
use crate::schema::{universal_rule, Field, Rule, FIELD_COUNT};

verus! {

/// The version number of the layout of the `UniversalReport` sheet.
pub const UNIVERSAL_REPORT: u32 = 1;

/// The mapping table of one workbook layout.
#[derive(Clone, Debug, PartialEq, Eq)]
pub struct Mapping {
    /// The version of the layout.
    pub version: u32,
    /// The rule for each field, in field order.
    pub rules: Vec<Rule>,
}

/// Whether `rules` holds one rule for each field, each yielding what its
/// field holds.
pub open spec fn rules_fit(rules: Seq<Rule>) -> bool {
    &&& rules.len() == FIELD_COUNT
    &&& forall|i: int| 0 <= i < FIELD_COUNT ==> (#[trigger] rules[i]).spec_suits(Field::spec_at(i as usize))
}

impl Mapping {
    /// Whether the table holds a fitting rule for each field.
    pub open spec fn wf(&self) -> bool {
        rules_fit(self.rules@)
    }

    /// The table of the `UniversalReport` layout.
    pub fn universal_report() -> (mapping: Mapping)
        ensures
            mapping.wf(),
            mapping.version == UNIVERSAL_REPORT,
            forall|field: Field| #[trigger] mapping.rules[field.spec_index() as int] == universal_rule(field),
    {
        let mut rules: Vec<Rule> = Vec::new();
        let mut i: usize = 0;
        while i < FIELD_COUNT
            invariant
                i <= FIELD_COUNT,
                rules.len() == i,
                forall|j: int| 0 <= j < i ==> #[trigger] rules[j] == universal_rule(Field::spec_at(j as usize)),
                forall|j: int| 0 <= j < i ==> (#[trigger] rules[j]).spec_suits(Field::spec_at(j as usize)),
            decreases FIELD_COUNT - i,
        {
            rules.push(universal_rule(Field::at(i)));
            i += 1;
        }
        let mapping = Mapping { version: UNIVERSAL_REPORT, rules };
        assert forall|field: Field| #[trigger] mapping.rules[field.spec_index() as int] == universal_rule(field) by {
            crate::schema::lemma_field_positions(field, 0);
        }
        mapping
    }

    /// The table of another layout, where `rules` holds a fitting rule for
    /// each field.
    pub fn new(version: u32, rules: Vec<Rule>) -> (mapping: Option<Mapping>)
        ensures
            mapping is Some <==> rules_fit(rules@),
            mapping matches Some(m) ==> m.version == version && m.rules@ == rules@,
    {
        if rules.len() != FIELD_COUNT {
            return None;
        }
        let mut i: usize = 0;
        while i < FIELD_COUNT
            invariant
                i <= FIELD_COUNT,
                rules.len() == FIELD_COUNT,
                forall|j: int| 0 <= j < i ==> (#[trigger] rules[j]).spec_suits(Field::spec_at(j as usize)),
            decreases FIELD_COUNT - i,
        {
            if !rules[i].suits(Field::at(i)) {
                return None;
            }
            i += 1;
        }
        Some(Mapping { version, rules })
    }

    /// The rule for `field`.
    pub fn rule(&self, field: Field) -> (rule: Rule)
        requires
            self.wf(),
        ensures
            rule == self.rules[field.spec_index() as int],
            rule.spec_suits(field),
    {
        proof {
            crate::schema::lemma_field_positions(field, 0);
        }
        self.rules[field.index()]
    }
}

/// The position in `mappings` of the first table of layout `version`.
pub fn select_mapping(mappings: &Vec<Mapping>, version: u32) -> (found: Option<usize>)
    ensures
        match found {
            Some(i) => i < mappings.len() && mappings[i as int].version == version && forall|j: int|
                0 <= j < i ==> mappings[j].version != version,
            None => forall|j: int| 0 <= j < mappings.len() ==> mappings[j].version != version,
        },
{
    let mut i: usize = 0;
    while i < mappings.len()
        invariant
            i <= mappings.len(),
            forall|j: int| 0 <= j < i ==> mappings[j].version != version,
        decreases mappings.len() - i,
    {
        if mappings[i].version == version {
            return Some(i);
        }
        i += 1;
    }
    None
}

/// The table of the layout that `version` names, where this library knows
/// the layout.
pub fn mapping_for(version: u32) -> (mapping: Option<Mapping>)
    ensures
        mapping is Some <==> version == UNIVERSAL_REPORT,
        mapping matches Some(m) ==> m.wf() && m.version == version && forall|field: Field| #[trigger]
            m.rules[field.spec_index() as int] == universal_rule(field),
{
    if version == UNIVERSAL_REPORT {
        Some(Mapping::universal_report())
    } else {
        None
    }
}

/// Where a column lies after `by` columns have been put in before column
/// `from`.
pub open spec fn shifted_column(column: usize, from: usize, by: usize) -> int {
    if column >= from {
        column + by
    } else {
        column as int
    }
}

/// Whether every column that `rule` reads can be shifted without leaving
/// the range of column numbers.
pub open spec fn can_shift(rule: Rule, from: usize, by: usize) -> bool {
    match rule {
        Rule::Text { column }
        | Rule::OptionalText { column, .. }
        | Rule::Integer { column }
        | Rule::OptionalInteger { column, .. }
        | Rule::Flag { column }
        | Rule::Date { column, .. }
        | Rule::OptionalDate { column, .. }
        | Rule::NumericText { column } => shifted_column(column, from, by) <= usize::MAX,
        Rule::UnitCode { region, wing, number } => shifted_column(region, from, by) <= usize::MAX
            && shifted_column(wing, from, by) <= usize::MAX && shifted_column(number, from, by)
            <= usize::MAX,
        Rule::Omitted => true,
    }
}

/// `rule` for a layout in which `by` columns have been put in before column
/// `from`: the same rule, reading each of its columns where it now lies.
pub open spec fn shifted_rule(rule: Rule, from: usize, by: usize) -> Rule {
    match rule {
        Rule::Text { column } => Rule::Text { column: shifted_column(column, from, by) as usize },
        Rule::OptionalText { column, sentinels } => Rule::OptionalText {
            column: shifted_column(column, from, by) as usize,
            sentinels,
        },
        Rule::Integer { column } => Rule::Integer {
            column: shifted_column(column, from, by) as usize,
        },
        Rule::OptionalInteger { column, zero_is_absent } => Rule::OptionalInteger {
            column: shifted_column(column, from, by) as usize,
            zero_is_absent,
        },
        Rule::Flag { column } => Rule::Flag { column: shifted_column(column, from, by) as usize },
        Rule::Date { column, pattern } => Rule::Date {
            column: shifted_column(column, from, by) as usize,
            pattern,
        },
        Rule::OptionalDate { column, pattern, sentinels } => Rule::OptionalDate {
            column: shifted_column(column, from, by) as usize,
            pattern,
            sentinels,
        },
        Rule::UnitCode { region, wing, number } => Rule::UnitCode {
            region: shifted_column(region, from, by) as usize,
            wing: shifted_column(wing, from, by) as usize,
            number: shifted_column(number, from, by) as usize,
        },
        Rule::NumericText { column } => Rule::NumericText {
            column: shifted_column(column, from, by) as usize,
        },
        Rule::Omitted => Rule::Omitted,
    }
}

/// The rules of a table, each shifted.
pub open spec fn shifted_rules(rules: Seq<Rule>, from: usize, by: usize) -> Seq<Rule> {
    Seq::new(rules.len(), |i: int| shifted_rule(rules[i], from, by))
}

/// Where a column lies after `by` columns have been put in before column
/// `from`; `None` where that is past the last column number.
pub fn shift_column(column: usize, from: usize, by: usize) -> (shifted: Option<usize>)
    ensures
        shifted is Some <==> shifted_column(column, from, by) <= usize::MAX,
        shifted matches Some(c) ==> c == shifted_column(column, from, by),
{
    if column >= from {
        column.checked_add(by)
    } else {
        Some(column)
    }
}

/// `rule` for a layout in which `by` columns have been put in before column
/// `from`; `None` where a column of the rule cannot be shifted.
pub fn shift_rule(rule: Rule, from: usize, by: usize) -> (shifted: Option<Rule>)
    ensures
        shifted is Some <==> can_shift(rule, from, by),
        shifted matches Some(r) ==> r == shifted_rule(rule, from, by),
{
    match rule {
        Rule::Text { column } => match shift_column(column, from, by) {
            Some(column) => Some(Rule::Text { column }),
            None => None,
        },
        Rule::OptionalText { column, sentinels } => match shift_column(column, from, by) {
            Some(column) => Some(Rule::OptionalText { column, sentinels }),
            None => None,
        },
        Rule::Integer { column } => match shift_column(column, from, by) {
            Some(column) => Some(Rule::Integer { column }),
            None => None,
        },
        Rule::OptionalInteger { column, zero_is_absent } => match shift_column(column, from, by) {
            Some(column) => Some(Rule::OptionalInteger { column, zero_is_absent }),
            None => None,
        },
        Rule::Flag { column } => match shift_column(column, from, by) {
            Some(column) => Some(Rule::Flag { column }),
            None => None,
        },
        Rule::Date { column, pattern } => match shift_column(column, from, by) {
            Some(column) => Some(Rule::Date { column, pattern }),
            None => None,
        },
        Rule::OptionalDate { column, pattern, sentinels } => match shift_column(column, from, by) {
            Some(column) => Some(Rule::OptionalDate { column, pattern, sentinels }),
            None => None,
        },
        Rule::UnitCode { region, wing, number } => match (
            shift_column(region, from, by),
            shift_column(wing, from, by),
            shift_column(number, from, by),
        ) {
            (Some(region), Some(wing), Some(number)) => Some(
                Rule::UnitCode { region, wing, number },
            ),
            _ => None,
        },
        Rule::NumericText { column } => match shift_column(column, from, by) {
            Some(column) => Some(Rule::NumericText { column }),
            None => None,
        },
        Rule::Omitted => Some(Rule::Omitted),
    }
}

impl Mapping {
    /// The table, under the number `version`, of the layout that comes of
    /// this one when `by` columns are put in before column `from`; `None`
    /// where a column cannot be shifted.
    pub fn shifted(&self, version: u32, from: usize, by: usize) -> (mapping: Option<Mapping>)
        requires
            self.wf(),
        ensures
            mapping is Some <==> forall|i: int|
                0 <= i < FIELD_COUNT ==> can_shift(#[trigger] self.rules[i], from, by),
            mapping matches Some(m) ==> m.wf() && m.version == version && m.rules@
                == shifted_rules(self.rules@, from, by),
    {
        let mut rules: Vec<Rule> = Vec::new();
        let mut i: usize = 0;
        while i < FIELD_COUNT
            invariant
                i <= FIELD_COUNT,
                self.wf(),
                rules.len() == i,
                forall|j: int| 0 <= j < i ==> can_shift(#[trigger] self.rules[j], from, by),
                forall|j: int|
                    0 <= j < i ==> #[trigger] rules[j] == shifted_rule(self.rules[j], from, by),
            decreases FIELD_COUNT - i,
        {
            match shift_rule(self.rules[i], from, by) {
                Some(rule) => {
                    rules.push(rule);
                },
                None => {
                    return None;
                },
            }
            i += 1;
        }
        assert(rules@ =~= shifted_rules(self.rules@, from, by));
        assert forall|j: int| 0 <= j < FIELD_COUNT implies (#[trigger] rules[j]).spec_suits(
            Field::spec_at(j as usize),
        ) by {
            assert(self.rules[j].spec_suits(Field::spec_at(j as usize)));
        }
        Some(Mapping { version, rules })
    }
}

} // verus!
