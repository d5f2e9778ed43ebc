//! The command-line vocabulary shared with the surrounding application:
//! the layout-dump verbosity switch and validation of boolean arguments.
//! Argument parsing itself is the application's job.

use vstd::prelude::*;
use vstd::string::StrSliceExecFns;
use vstd::string::StringExecFns;

verus! {

/// Whether two strings hold the same characters.
pub fn str_eq(s: &str, t: &str) -> (r: bool)
    ensures
        r <==> s@ == t@,
{
    let n = s.unicode_len();
    let m = t.unicode_len();
    if n != m {
        return false;
    }
    let mut i: usize = 0;
    while i < n
        invariant
            i <= n,
            n == s@.len(),
            n == t@.len(),
            forall|j: int| 0 <= j < i ==> s@[j] == t@[j],
        decreases n - i,
    {
        if s.get_char(i) != t.get_char(i) {
            return false;
        }
        i = i + 1;
    }
    proof {
        assert(s@ =~= t@);
    }
    true
}

/// The error text `is_bool_validator` reports for a value it rejects.
pub open spec fn spec_bool_arg_error(s: Seq<char>) -> Seq<char> {
    "given arg '"@ + s + "' is not a bool value"@
}

/// Whether a command-line string is accepted as a boolean: the two
/// boolean literals, or the shorthand digits `0` and `1`.
pub open spec fn spec_is_bool_arg(s: Seq<char>) -> bool {
    s == "true"@ || s == "false"@ || s == "0"@ || s == "1"@
}

/// Accept exactly the strings `true`, `false`, `0` and `1`; reject
/// anything else with a message naming the offending value.
pub fn is_bool_validator(string: String) -> (r: Result<(), String>)
    ensures
        r is Ok <==> spec_is_bool_arg(string@),
        r matches Err(msg) ==> msg@ == spec_bool_arg_error(string@),
{
    let s = string.as_str();
    if str_eq(s, "true") || str_eq(s, "false") || str_eq(s, "0") || str_eq(s, "1") {
        Result::Ok(())
    } else {
        let mut msg = String::new();
        msg.append("given arg '");
        msg.append(string.as_str());
        msg.append("' is not a bool value");
        Result::Err(msg)
    }
}

/// How much detail a layout dump carries.
#[derive(Clone, Copy, Debug, PartialEq, Eq, Structural)]
pub enum DumpLayoutVerbosity {
    /// Includes more information in the layout dump, such as margin,
    /// border, and padding values for each box.
    Verbose,
    /// The most minimal layout-dump representation: box type, size and
    /// position coordinates.
    NonVerbose,
}

impl DumpLayoutVerbosity {
    /// The form this flag takes on the command line: currently a boolean
    /// digit.
    pub open spec fn spec_to_cli_string(&self) -> Seq<char> {
        match self {
            DumpLayoutVerbosity::Verbose => "1"@,
            DumpLayoutVerbosity::NonVerbose => "0"@,
        }
    }

    pub fn to_cli_string(&self) -> (r: String)
        ensures
            r@ == self.spec_to_cli_string(),
    {
        match self {
            DumpLayoutVerbosity::Verbose => String::from_str("1"),
            DumpLayoutVerbosity::NonVerbose => String::from_str("0"),
        }
    }
}

/// A runnable command selected on the command line.
pub trait CliCommand {
    type RunReturn;

    fn run(&self) -> Result<Self::RunReturn, String>;
}

} // verus!
