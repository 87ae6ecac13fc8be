//! The authorization gate: an owner-scoped operation is open to the owner
//! alone.

use vstd::prelude::*;
use crate::error::CartError;
use crate::ids::Uuid;

verus! {

/// Whether the caller may act on what `owner` owns: the caller is
/// authenticated and is the owner.
pub open spec fn is_authorized(caller: Option<Uuid>, owner: Uuid) -> bool {
    caller == Some(owner)
}

/// Lets the caller pass if it is the owner, and fails closed otherwise: an
/// absent identity and another identity are both refused.
pub fn authorize_user(caller: Option<Uuid>, owner: Uuid) -> (result: Result<(), CartError>)
    ensures
        is_authorized(caller, owner) ==> result == Ok::<(), CartError>(()),
        !is_authorized(caller, owner) ==> result == Err::<(), CartError>(
            CartError::Unauthorized { owner },
        ),
{
    match caller {
        Some(identity) => if identity == owner {
            Ok(())
        } else {
            Err(CartError::Unauthorized { owner })
        },
        None => Err(CartError::Unauthorized { owner }),
    }
}

} // verus!
