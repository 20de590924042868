//! The canonical attendee record: one value for each field, in field order.

use vstd::prelude::*;
use crate::date::CalendarDate;
use crate::schema::{Field, FieldKind, FIELD_COUNT};

verus! {

/// The value of one field of a record.
#[derive(Clone, Debug, PartialEq, Eq)]
pub enum Value {
    /// No value.
    Absent,
    Text(String),
    Integer(i32),
    Flag(bool),
    Date(CalendarDate),
}

/// The value of one field, as a mathematical value.
pub enum ValueView {
    Absent,
    Text(Seq<char>),
    Integer(i32),
    Flag(bool),
    Date(CalendarDate),
}

impl View for Value {
    type V = ValueView;

    open spec fn view(&self) -> ValueView {
        match self {
            Value::Absent => ValueView::Absent,
            Value::Text(text) => ValueView::Text(text@),
            Value::Integer(number) => ValueView::Integer(*number),
            Value::Flag(flag) => ValueView::Flag(*flag),
            Value::Date(date) => ValueView::Date(*date),
        }
    }
}

impl ValueView {
    /// Whether the value is one that `field` may hold: of the field's kind,
    /// or absent where the field is optional.
    pub open spec fn suits(self, field: Field) -> bool {
        match self {
            ValueView::Absent => !field.spec_required(),
            ValueView::Text(_) => field.spec_kind() == FieldKind::Text,
            ValueView::Integer(_) => field.spec_kind() == FieldKind::Integer,
            ValueView::Flag(_) => field.spec_kind() == FieldKind::Flag,
            ValueView::Date(_) => field.spec_kind() == FieldKind::Date,
        }
    }
}

/// A record as a mathematical value: the values of its fields, in order.
pub type RecordView = Seq<ValueView>;

/// Whether a record holds, for each field, a value that the field may hold.
pub open spec fn well_typed(record: RecordView) -> bool {
    &&& record.len() == FIELD_COUNT
    &&& forall|i: int| 0 <= i < FIELD_COUNT ==> (#[trigger] record[i]).suits(Field::spec_at(i as usize))
}

/// The member identifier of a record, where it holds one.
pub open spec fn identifier_of(record: RecordView) -> Option<i32> {
    if record.len() == FIELD_COUNT {
        match record[Field::Capid.spec_index() as int] {
            ValueView::Integer(capid) => Some(capid),
            _ => None,
        }
    } else {
        None
    }
}

/// A copy of `value`.
pub fn copy_value(value: &Value) -> (copy: Value)
    ensures
        copy@ == value@,
{
    match value {
        Value::Absent => Value::Absent,
        Value::Text(text) => Value::Text(text.clone()),
        Value::Integer(number) => Value::Integer(*number),
        Value::Flag(flag) => Value::Flag(*flag),
        Value::Date(date) => Value::Date(*date),
    }
}

/// The canonical attendee record.
#[derive(Clone, Debug, PartialEq, Eq)]
pub struct Attendee {
    /// The values of the fields, in field order.
    pub values: Vec<Value>,
}

impl View for Attendee {
    type V = RecordView;

    open spec fn view(&self) -> RecordView {
        Seq::new(self.values@.len(), |i: int| self.values@[i]@)
    }
}

impl Attendee {
    /// The value of `field`.
    pub fn get(&self, field: Field) -> (value: &Value)
        requires
            self@.len() == FIELD_COUNT,
        ensures
            value@ == self@[field.spec_index() as int],
    {
        &self.values[field.index()]
    }

    /// The member identifier, where the record holds one.
    pub fn identifier(&self) -> (capid: Option<i32>)
        ensures
            capid == identifier_of(self@),
    {
        if self.values.len() != FIELD_COUNT {
            return None;
        }
        match &self.values[Field::Capid.index()] {
            Value::Integer(capid) => Some(*capid),
            _ => None,
        }
    }

    /// A copy of the record.
    pub fn copy(&self) -> (copy: Attendee)
        ensures
            copy@ == self@,
    {
        let mut values: Vec<Value> = Vec::new();
        let mut i: usize = 0;
        while i < self.values.len()
            invariant
                i <= self.values.len(),
                values.len() == i,
                forall|j: int| 0 <= j < i ==> values[j]@ == self.values[j]@,
            decreases self.values.len() - i,
        {
            values.push(copy_value(&self.values[i]));
            i += 1;
        }
        let copy = Attendee { values };
        assert(copy@ =~= self@);
        copy
    }
}

} // verus!
