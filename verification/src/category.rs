//! Timing categories: when a todo is meant to be done. Stored as the text value.

use vstd::prelude::*;
use crate::text::str_eq;

verus! {

/// (value, display name) of each built-in category, in tab order.
pub const CATEGORIES: [(&'static str, &'static str); 6] = [
    ("today", "Today"),
    ("tomorrow", "Tomorrow"),
    ("this_week", "This Week"),
    ("planned", "Planned"),
    ("someday", "Someday"),
    ("event", "Event"),
];

/// The category of a new todo (the database default).
pub const DEFAULT_CATEGORY: &'static str = "someday";

/// The display name of a built-in category value, if it is one.
pub open spec fn category_name(value: Seq<char>) -> Option<Seq<char>> {
    if value == "today"@ { Some("Today"@) }
    else if value == "tomorrow"@ { Some("Tomorrow"@) }
    else if value == "this_week"@ { Some("This Week"@) }
    else if value == "planned"@ { Some("Planned"@) }
    else if value == "someday"@ { Some("Someday"@) }
    else if value == "event"@ { Some("Event"@) }
    else { None }
}

/// The display name of a category value; an unknown value is shown as is.
pub fn category_label(value: &str) -> (s: &str)
    ensures
        s@ == match category_name(value@) {
            Some(name) => name,
            None => value@,
        },
{
    if str_eq(value, "today") { "Today" }
    else if str_eq(value, "tomorrow") { "Tomorrow" }
    else if str_eq(value, "this_week") { "This Week" }
    else if str_eq(value, "planned") { "Planned" }
    else if str_eq(value, "someday") { "Someday" }
    else if str_eq(value, "event") { "Event" }
    else { value }
}

} // verus!
