//! State for a client that only lists the globals a compositor offers.

use vstd::prelude::*;
use crate::text::{decimal_chars, push_decimal};

verus! {

/// A client state that holds nothing.
pub struct EmptyAppData;

/// The line that lists a global: `[name] interface (vversion)`, with the
/// numbers in decimal.
pub open spec fn global_line(name: u32, interface: Seq<char>, version: u32) -> Seq<char> {
    "["@ + decimal_chars(name as nat) + "] "@ + interface + " (v"@ + decimal_chars(version as nat) + ")"@
}

impl EmptyAppData {
    /// The line printed for a global that the registry announces.
    pub fn describe_global(name: u32, interface: &str, version: u32) -> (line: String)
        ensures
            line@ == global_line(name, interface@, version),
    {
        let mut line = String::from_str("[");
        push_decimal(&mut line, name);
        line.append("] ");
        line.append(interface);
        line.append(" (v");
        push_decimal(&mut line, version);
        line.append(")");
        line
    }
}

} // verus!
