//! Text renderings of a lock that never block: the value if the lock could be
//! taken on the spot, a fixed placeholder if not.

use crate::monitor::Monitor;
use crate::mutex::Mutex;
use std::fmt::Write;
use vstd::prelude::*;
use vstd::string::*;

verus! {

/// What is shown in place of a value that is locked away.
pub open spec fn placeholder() -> Seq<char> {
    "<locked>"@
}

/// `inner` in brackets behind `name`.
pub open spec fn framed(name: Seq<char>, inner: Seq<char>) -> Seq<char> {
    name + "("@ + inner + ")"@
}

/// The rendering of a lock called `name` whose value, if it could be read,
/// shows as `shown`.
pub open spec fn rendering(name: Seq<char>, shown: Option<Seq<char>>) -> Seq<char> {
    match shown {
        Some(inner) => framed(name, inner),
        None => framed(name, placeholder()),
    }
}

/// The text of `shown`, if there is one.
pub open spec fn text_of(shown: Option<String>) -> Option<Seq<char>> {
    match shown {
        Some(inner) => Some(inner@),
        None => None,
    }
}

/// `write!` with `{:?}` into a fresh `String`: the `Debug` text of `value`,
/// or nothing where the value's `Debug` reported an error.
#[verifier::external_body]
fn debug_text<T: core::fmt::Debug>(value: &T) -> (text: Option<String>) {
    let mut text = String::new();
    match write!(text, "{:?}", value) {
        Ok(()) => Some(text),
        Err(_) => None,
    }
}

/// The rendering of a lock called `name`, given what an attempt to read its
/// value found: nothing, where the lock was taken; the text of the value;
/// or, where the value was there and could not be shown, its failure to
/// show, which makes the rendering fail too.
pub fn frame_found(name: &str, found: Option<Option<String>>) -> (text: Option<String>)
    ensures
        match found {
            None => text is Some && text->0@ == rendering(name@, None),
            Some(Some(inner)) => text is Some && text->0@ == rendering(name@, Some(inner@)),
            Some(None) => text is None,
        },
{
    match found {
        None => Some(frame(name, None)),
        Some(Some(inner)) => Some(frame(name, Some(inner))),
        Some(None) => None,
    }
}

/// Renders a lock called `name`: the name, and in brackets behind it the text
/// of the value, or the placeholder where the value could not be read.
pub fn frame(name: &str, shown: Option<String>) -> (text: String)
    ensures
        text@ == rendering(name@, text_of(shown)),
{
    let mut text = String::from_str(name);
    text.append("(");
    match shown {
        Some(inner) => text.append(inner.as_str()),
        None => text.append("<locked>"),
    }
    text.append(")");
    text
}

impl<T: core::fmt::Debug> Mutex<T> {
    /// Renders the lock without blocking: `Mutex(` and `)` around the `Debug`
    /// text of the value if the lock is free at this instant, around
    /// `<locked>` otherwise. `None` means that the value was there and that
    /// its `Debug` reported an error.
    pub fn render(&self) -> (text: Option<String>)
        ensures
            text is Some ==> exists|shown: Option<Seq<char>>| text->0@ == rendering("Mutex"@, shown),
    {
        let found = match self.try_lock() {
            Some(guard) => Some(debug_text::<T>(&guard)),
            None => None,
        };
        frame_found("Mutex", found)
    }
}

impl<T: core::fmt::Debug> Monitor<T> {
    /// Renders the lock without blocking: `Monitor(` and `)` around the
    /// `Debug` text of the value if the lock is free at this instant, around
    /// `<locked>` otherwise. `None` means that the value was there and that
    /// its `Debug` reported an error.
    pub fn render(&self) -> (text: Option<String>)
        ensures
            text is Some ==> exists|shown: Option<Seq<char>>| text->0@ == rendering("Monitor"@, shown),
    {
        let found = match self.try_lock() {
            Some(guard) => Some(debug_text::<T>(&guard)),
            None => None,
        };
        frame_found("Monitor", found)
    }
}

} // verus!
