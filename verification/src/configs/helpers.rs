//! Questions about the configuration that are asked in many places.

use vstd::prelude::*;
use crate::configs::Environment;

verus! {

/// The service runs in development.
#[must_use]
pub fn is_dev(env: Environment) -> (r: bool)
    ensures
        r == (env == Environment::DEV),
{
    match env {
        Environment::DEV => true,
        Environment::PROD => false,
    }
}

} // verus!
