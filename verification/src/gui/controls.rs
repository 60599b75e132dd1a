//! The side panel of the packages tab.
use crate::text::{decimal, decimal_spec};
use vstd::prelude::*;

verus! {

/// The state of the side panel: whether a connection check is under way.
#[derive(Clone, Copy, Debug, PartialEq, Eq, Structural)]
pub struct Controls {
    pub checking_connection: bool,
}

impl Default for Controls {
    fn default() -> (r: Controls)
        ensures
            !r.checking_connection,
    {
        Controls { checking_connection: false }
    }
}

impl Controls {
    /// Whether the button that checks the connection again acts: not while
    /// a check is under way.
    pub fn reconnect_enabled(&self) -> (r: bool)
        ensures
            r == !self.checking_connection,
    {
        !self.checking_connection
    }
}

/// Whether the bar that says the servers cannot be reached is shown: it is
/// exactly when there is no connection.
pub fn connection_warning_shown(can_connect: bool) -> (r: bool)
    ensures
        r == !can_connect,
{
    !can_connect
}

/// Whether the buttons that check for updates and fetch lists act: only
/// with a connection, and while nothing is being installed or fetched.
pub fn controls_enabled(can_connect: bool, installing: bool, fetching: bool) -> (r: bool)
    ensures
        r == (can_connect && !installing && !fetching),
{
    can_connect && !installing && !fetching
}

/// The label of a filter: its name, then the number of updates in brackets
/// where there are any.
pub open spec fn filter_label_spec(name: Seq<char>, count: Option<usize>) -> Seq<char> {
    match count {
        Some(n) => name + " ["@ + decimal_spec(n as nat) + "]"@,
        None => name,
    }
}

/// The label of a filter, with its number of updates where there are any.
pub fn filter_label(name: &str, count: Option<usize>) -> (r: String)
    ensures
        r@ == filter_label_spec(name@, count),
{
    match count {
        Some(n) => String::from_str(name).concat(" [").concat(decimal(n).as_str()).concat("]"),
        None => String::from_str(name),
    }
}

} // verus!
