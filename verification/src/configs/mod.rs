//! How the service is assembled, configured and stopped.

pub mod app;
pub mod environment;
pub mod helpers;
pub mod shutdown;

use vstd::prelude::*;
use vstd::string::StringExecFns;

verus! {

/// The surroundings in which the service runs.
#[derive(Clone, Copy, Debug, PartialEq, Eq, Structural)]
pub enum Environment {
    PROD,
    DEV,
}

/// The environment that a text names, if it names one.
pub open spec fn environment_named(text: Seq<char>) -> Option<Environment> {
    if text == "PROD"@ {
        Some(Environment::PROD)
    } else if text == "DEV"@ {
        Some(Environment::DEV)
    } else {
        None
    }
}

impl Environment {
    /// Reads `PROD` or `DEV`, in exactly this spelling.
    pub fn from_str(s: &str) -> (r: Result<Environment, &'static str>)
        ensures
            r is Ok <==> environment_named(s@) is Some,
            r is Ok ==> Some(r->Ok_0) == environment_named(s@),
            r is Err ==> r->Err_0@ == "Invalid environment string"@,
    {
        let text = String::from_str(s);
        if text == String::from_str("PROD") {
            Ok(Environment::PROD)
        } else if text == String::from_str("DEV") {
            Ok(Environment::DEV)
        } else {
            Err("Invalid environment string")
        }
    }
}

} // verus!
