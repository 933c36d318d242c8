//! Log line composition. Writing to an output stream happens outside the
//! library; the library pins what a line says.

use vstd::prelude::*;

verus! {

/// A logging handle, identified by the location it reports for.
#[derive(Debug, Clone, PartialEq, Eq)]
pub struct LogManager {
    location: String,
}

impl LogManager {
    /// The location this handle reports for.
    pub closed spec fn spec_location(&self) -> Seq<char> {
        self.location@
    }

    pub fn new(location: &str) -> (m: LogManager)
        ensures
            m.spec_location() == location@,
    {
        LogManager { location: location.to_owned() }
    }
}

/// One log line: the category in brackets (`"Others"` when none is given),
/// then the message.
pub fn format_line(category: Option<&str>, msg: &str) -> (r: String)
    ensures
        match category {
            Some(c) => r@ == "["@ + c@ + "] "@ + msg@,
            None => r@ == "["@ + "Others"@ + "] "@ + msg@,
        },
{
    let mut s = String::from_str("[");
    match category {
        Some(c) => s.append(c),
        None => s.append("Others"),
    }
    s.append("] ");
    s.append(msg);
    proof {
        match category {
            Some(c) => {
                assert(s@ =~= "["@ + c@ + "] "@ + msg@);
            },
            None => {
                assert(s@ =~= "["@ + "Others"@ + "] "@ + msg@);
            },
        }
    }
    s
}

} // verus!
