//! How a cell and its handles describe themselves.

use vstd::prelude::*;
use vstd::string::StringExecFns;

verus! {

/// What a look at the locked slot found.
#[derive(Clone, Copy, Debug, PartialEq, Eq, Structural)]
pub enum Glimpse {
    /// The lock is poisoned: what the slot holds is not to be trusted.
    Poisoned,
    /// The slot is empty.
    Empty,
    /// The slot holds a value.
    Full,
}

/// What is shown of the slot. The value itself is never shown.
pub open spec fn slot_text(seen: Glimpse) -> Seq<char> {
    match seen {
        Glimpse::Poisoned => "\"<poisoned>\""@,
        Glimpse::Empty => "None"@,
        Glimpse::Full => "Some(\"<opaque>\")"@,
    }
}

/// What is shown of a cell.
pub open spec fn cell_text(seen: Glimpse) -> Seq<char> {
    "Future { signal: \"<opaque>\", result: "@ + slot_text(seen) + " }"@
}

/// What is shown of a flag.
pub open spec fn flag_text(cancelled: bool) -> Seq<char> {
    if cancelled {
        "true"@
    } else {
        "false"@
    }
}

/// What is shown of a handle called `name`.
pub open spec fn handle_text(name: Seq<char>, seen: Glimpse, cancelled: bool) -> Seq<char> {
    name + " { future: "@ + cell_text(seen) + ", cancelled: "@ + flag_text(cancelled) + " }"@
}

/// Looks at a slot that is locked and not poisoned.
pub fn glimpse<T>(slot: &Option<T>) -> (seen: Glimpse)
    ensures
        seen == (if *slot is Some {
            Glimpse::Full
        } else {
            Glimpse::Empty
        }),
{
    if slot.is_some() {
        Glimpse::Full
    } else {
        Glimpse::Empty
    }
}

/// The text for the slot.
pub fn slot_label(seen: Glimpse) -> (label: &'static str)
    ensures
        label@ == slot_text(seen),
{
    match seen {
        Glimpse::Poisoned => "\"<poisoned>\"",
        Glimpse::Empty => "None",
        Glimpse::Full => "Some(\"<opaque>\")",
    }
}

/// The text for a cell.
pub fn render_cell(seen: Glimpse) -> (text: String)
    ensures
        text@ == cell_text(seen),
{
    String::from_str("Future { signal: \"<opaque>\", result: ").concat(slot_label(seen)).concat(" }")
}

/// The text for a handle called `name`.
pub fn render_handle(name: &str, seen: Glimpse, cancelled: bool) -> (text: String)
    ensures
        text@ == handle_text(name@, seen, cancelled),
{
    let cell = render_cell(seen);
    let flag = if cancelled {
        "true"
    } else {
        "false"
    };
    String::from_str(name).concat(" { future: ").concat(cell.as_str()).concat(", cancelled: ").concat(
        flag,
    ).concat(" }")
}

} // verus!
