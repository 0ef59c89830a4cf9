//! The authorization subsystem: a capability check (the named caller proved
//! its identity to the host) followed by a role check (the caller is the
//! stored privileged address). Every admin-gated mutator of both resolvers
//! runs both checks, in that order, before touching any state.

use crate::interface::ResolverError;
use vstd::prelude::*;

verus! {

/// A host-verified identity proof. Possession of `Capability { address: a }`
/// stands for the host having checked a's signature over the current
/// invocation; a resolver accepts an operation in the name of a caller only
/// when presented with that caller's capability.
#[derive(Clone, Copy, Debug, PartialEq, Eq, Structural)]
pub struct Capability {
    pub address: u64,
}

/// The outcome of the two admin checks, in the order they are made:
/// first the identity proof must name the caller, then the resolver must be
/// configured, then the caller must be the stored admin.
pub open spec fn admin_gate(
    initialized: bool,
    admin: u64,
    cap_address: u64,
    caller: u64,
) -> Option<ResolverError> {
    if cap_address != caller {
        Some(ResolverError::NotAuthorized)
    } else if !initialized {
        Some(ResolverError::Uninitialized)
    } else if caller != admin {
        Some(ResolverError::NotAuthorized)
    } else {
        None
    }
}

/// Run the capability check and the role check against a stored admin
/// address. Returns the first failure, before any caller mutates state.
pub fn check_admin(
    initialized: bool,
    admin: u64,
    cap: &Capability,
    caller: u64,
) -> (r: Result<(), ResolverError>)
    ensures
        match admin_gate(initialized, admin, cap.address, caller) {
            Some(e) => r == Err::<(), ResolverError>(e),
            None => r == Ok::<(), ResolverError>(()),
        },
{
    if cap.address != caller {
        return Err(ResolverError::NotAuthorized);
    }
    if !initialized {
        return Err(ResolverError::Uninitialized);
    }
    if caller != admin {
        return Err(ResolverError::NotAuthorized);
    }
    Ok(())
}

} // verus!
