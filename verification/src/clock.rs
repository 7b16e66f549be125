//! The wall clock, and what becomes of its answer.

use vstd::prelude::*;

verus! {

/// Renders the local wall-clock time of this moment with the strftime-style
/// pattern `format`.
///
/// This calls `chrono::Local::now`, `chrono::DateTime::format` and
/// `chrono::format::DelayedFormat::write_to`. The text depends on the time of
/// the call and on the time zone of the machine, so nothing is claimed of it.
/// `None` stands for the error that `write_to` reports, which it does for a
/// pattern that chrono cannot render.
#[verifier::external_body]
pub(crate) fn get_time(format: &str) -> (time: Option<String>) {
    let mut text = String::new();
    match chrono::Local::now().format(format).write_to(&mut text) {
        Ok(()) => Some(text),
        Err(_) => None,
    }
}

/// The text that stands for the time in a line or a file name: what the clock
/// rendered, or nothing where it could not render the pattern.
pub open spec fn time_text(rendered: Option<String>) -> Seq<char> {
    match rendered {
        Some(text) => text@,
        None => Seq::empty(),
    }
}

/// Turns the answer of the clock into the text that stands for the time.
pub fn time_or_empty(rendered: Option<String>) -> (text: String)
    ensures
        text@ == time_text(rendered),
{
    match rendered {
        Some(text) => text,
        None => String::new(),
    }
}

} // verus!
