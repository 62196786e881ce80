//! Command line options, once read.
use vstd::prelude::*;

verus! {

/// Command line arguments.
///
/// They may hold the Postgres password, so they have no `Debug`.
pub struct Args {
    /// Override config file
    pub conf: Option<String>,
    /// Override Fantasia host
    pub host: Option<String>,
    /// Override Fantasia port
    pub port: Option<u16>,
    /// Override Postgres superuser
    pub pguser: Option<String>,
    /// Override Postgres superuser password
    pub pgpassword: Option<String>,
    /// Override Postgres host
    pub pghost: Option<String>,
    /// Override Postgres port
    pub pgport: Option<u16>,
    /// Override Postgres database
    pub pgdatabase: Option<String>,
}

/// The command line held arguments that are no option of Fantasia.
#[derive(Debug)]
pub struct InvalidArguments {
    /// The arguments left over, in order.
    pub extra: Vec<String>,
}

impl InvalidArguments {
    /// Why the invocation is refused.
    pub fn cause(&self) -> (r: &'static str)
        ensures
            r@ == "Invoked Fantasia with invalid arguments"@,
    {
        "Invoked Fantasia with invalid arguments"
    }
}

impl Args {
    /// Arguments with no option given.
    pub open spec fn none_given(self) -> bool {
        &&& self.conf is None
        &&& self.host is None
        &&& self.port is None
        &&& self.pguser is None
        &&& self.pgpassword is None
        &&& self.pghost is None
        &&& self.pgport is None
        &&& self.pgdatabase is None
    }

    /// Accepts the options read from the command line only if nothing else
    /// was left on it: an extra argument most likely means a mistyped
    /// option, and going on would surprise the invoker.
    pub fn checked(self, remaining: Vec<String>) -> (r: Result<Args, InvalidArguments>)
        ensures
            remaining@.len() == 0 ==> r == Ok::<Args, InvalidArguments>(self),
            remaining@.len() != 0 ==> (r matches Err(e) && e.extra@ == remaining@),
    {
        if remaining.len() == 0 {
            Ok(self)
        } else {
            Err(InvalidArguments { extra: remaining })
        }
    }
}

} // verus!
