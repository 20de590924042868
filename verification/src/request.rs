//! The parameters of the requests that name a stored item by its number:
//! what a query string must hold for the request to be served.

use vstd::prelude::*;
use crate::text::{chars_of, decimal_reading, read_decimal, same_text};

verus! {

/// The number that a query parameter gives: the `i32` that its text writes
/// in decimal. `None` where the parameter is missing or writes no `i32`.
pub open spec fn identifier_reading(value: Option<Seq<char>>) -> Option<i32> {
    match value {
        Some(text) => decimal_reading(text),
        None => None,
    }
}

/// The switch that a query parameter gives: `true` or `false` for exactly
/// those words, `true` where the parameter is missing. `None` for any other
/// text.
pub open spec fn switch_reading(value: Option<Seq<char>>) -> Option<bool> {
    match value {
        None => Some(true),
        Some(text) => if text == "true"@ {
            Some(true)
        } else if text == "false"@ {
            Some(false)
        } else {
            None
        },
    }
}

/// What a query parameter holds, as a mathematical value.
pub open spec fn parameter_view(value: Option<&str>) -> Option<Seq<char>> {
    match value {
        Some(text) => Some(text@),
        None => None,
    }
}

/// Reads the number of an item from a query parameter.
pub fn read_identifier(value: Option<&str>) -> (number: Option<i32>)
    ensures
        number == identifier_reading(parameter_view(value)),
{
    match value {
        Some(text) => {
            let chars = chars_of(text);
            read_decimal(&chars)
        },
        None => None,
    }
}

/// Reads a switch from a query parameter.
pub fn read_switch(value: Option<&str>) -> (switch: Option<bool>)
    ensures
        switch == switch_reading(parameter_view(value)),
{
    match value {
        None => Some(true),
        Some(text) => if same_text(text, "true") {
            Some(true)
        } else if same_text(text, "false") {
            Some(false)
        } else {
            None
        },
    }
}

/// A request to take an item back from the member it was issued to.
#[derive(Clone, Copy, Debug, PartialEq, Eq, Structural)]
pub struct ReturnRequest {
    /// The number of the item.
    pub item: i32,
    /// Whether the item stays in service.
    pub in_service: bool,
}

/// The return request that two query parameters give: the number of the
/// item, which must be there, and whether it stays in service, which it
/// does unless the parameter says `false`. `None` where either cannot be
/// read.
pub open spec fn return_reading(item: Option<Seq<char>>, in_service: Option<Seq<char>>) -> Option<
    ReturnRequest,
> {
    match (identifier_reading(item), switch_reading(in_service)) {
        (Some(item), Some(in_service)) => Some(ReturnRequest { item, in_service }),
        _ => None,
    }
}

/// Reads a return request from its two query parameters.
pub fn read_return(item: Option<&str>, in_service: Option<&str>) -> (request: Option<ReturnRequest>)
    ensures
        request == return_reading(parameter_view(item), parameter_view(in_service)),
{
    let item = match read_identifier(item) {
        Some(item) => item,
        None => {
            return None;
        },
    };
    match read_switch(in_service) {
        Some(in_service) => Some(ReturnRequest { item, in_service }),
        None => None,
    }
}

} // verus!
