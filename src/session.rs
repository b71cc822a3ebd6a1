use vstd::prelude::*;

use crate::error::GameSenseError;

verus! {

/// How setting up a game ends, from the answers to the two requests it
/// makes: withdrawing an earlier registration of the game, which may well
/// not exist and so cannot fail the setup, and registering it anew, whose
/// failure is the setup's failure.
pub fn registration_outcome(
    removed: Result<String, GameSenseError>,
    registered: Result<String, GameSenseError>,
) -> (r: Result<(), GameSenseError>)
    ensures
        registered is Ok ==> r is Ok,
        registered matches Err(e) ==> r == Err::<(), GameSenseError>(e),
{
    match registered {
        Ok(_) => Ok(()),
        Err(e) => Err(e),
    }
}

} // verus!
