//! The command line: the program to run and the arguments handed to it.

use vstd::prelude::*;
use crate::outcome::Failure;

verus! {

/// The requested program and its ordered argument list, built once from the
/// wrapper's own command line and immutable thereafter.
#[derive(Debug, PartialEq, Eq)]
pub struct Invocation {
    pub program: String,
    pub args: Vec<String>,
}

impl Invocation {
    /// Splits the wrapper's argument list — everything after the wrapper's
    /// own name — into the program and the arguments passed through to it
    /// verbatim. An empty list is the usage error; nothing is run then.
    pub fn from_arg_list(argv: Vec<String>) -> (r: Result<Invocation, Failure>)
        ensures
            argv@.len() == 0 <==> r == Err::<Invocation, Failure>(Failure::Usage),
            argv@.len() > 0 ==> r is Ok,
            argv@.len() > 0 ==> r->Ok_0.program@ == argv@[0]@,
            argv@.len() > 0 ==> r->Ok_0.args@.len() == argv@.len() - 1,
            argv@.len() > 0 ==> forall|i: int|
                0 <= i < argv@.len() - 1 ==> #[trigger] r->Ok_0.args@[i]@ == argv@[i + 1]@,
    {
        let mut rest = argv;
        if rest.len() == 0 {
            return Err(Failure::Usage);
        }
        let program = rest.remove(0);
        Ok(Invocation { program, args: rest })
    }
}

} // verus!
