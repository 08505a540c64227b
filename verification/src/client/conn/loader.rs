//! What the page shows while it waits for the server.

use vstd::prelude::*;

verus! {

/// What the waiting section shows: a label, with or without a spinner.
#[derive(Clone, Debug, PartialEq, Eq)]
pub struct Loader {
    pub label: String,
    pub spinner: bool,
}

/// What is shown while the connection is opened.
pub fn show_connecting() -> (r: Loader)
    ensures
        r.label@ == "Connecting"@,
        r.spinner,
{
    Loader { label: String::from_str("Connecting"), spinner: true }
}

/// What is shown while the page loads.
pub fn show_loading() -> (r: Loader)
    ensures
        r.label@ == "Loading"@,
        r.spinner,
{
    Loader { label: String::from_str("Loading"), spinner: true }
}

/// What is shown while waiting to connect again: the time that is left.
pub fn show_duration(duration: &str) -> (r: Loader)
    ensures
        r.label@ == "Reconnection dans "@ + duration@,
        !r.spinner,
{
    let mut label = String::from_str("Reconnection dans ");
    label.append(duration);
    Loader { label, spinner: false }
}

} // verus!
