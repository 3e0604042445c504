//! The key-show subcommand's own decisions.
//!
//! The subcommand takes a key name as its first positional argument,
//! has an external key store derive the display address for that name,
//! and prints the name and the address on one tab-separated line. The
//! store and the printing are the caller's; what is decided here is which
//! argument is the name — the first, and it is required — and the exact
//! shape of the output line.

use vstd::prelude::*;
use vstd::string::StringExecFns;

verus! {

/// The key-show subcommand: its positional arguments.
#[derive(Debug)]
pub struct ShowCosmosKeyCmd {
    /// The positional arguments, the key name first.
    pub args: Vec<String>,
}

impl Default for ShowCosmosKeyCmd {
    /// A subcommand with no arguments given.
    fn default() -> (r: ShowCosmosKeyCmd)
        ensures
            r.args@.len() == 0,
    {
        ShowCosmosKeyCmd { args: Vec::new() }
    }
}

impl ShowCosmosKeyCmd {
    /// The key name: the first positional argument, if one was given.
    pub fn key_name(&self) -> (r: Option<&String>)
        ensures
            match r {
                Some(name) => self.args@.len() > 0 && name@ == self.args@[0]@,
                None => self.args@.len() == 0,
            },
    {
        if self.args.len() > 0 {
            Some(&self.args[0])
        } else {
            None
        }
    }
}

/// The one output line of the key-show subcommand: the name and the
/// derived address, separated by a tab.
pub fn display_line(name: &str, address: &str) -> (r: String)
    ensures
        r@ == name@ + "\t"@ + address@,
{
    let mut line = String::from_str(name);
    line.append("\t");
    line.append(address);
    line
}

} // verus!
