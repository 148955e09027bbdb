use vstd::prelude::*;

use crate::entry::Identity;
use crate::ledger::LedgerError;

verus! {

/// The account that signs an invocation, as the hosting runtime hands it
/// over: its identity, and whether the runtime verified its signature.
#[derive(Clone, Copy, Debug, PartialEq, Eq)]
pub struct Signer {
    pub key: Identity,
    pub is_signer: bool,
}

impl Signer {
    pub fn new(key: Identity, is_signer: bool) -> (r: Signer)
        ensures
            r.key == key,
            r.is_signer == is_signer,
    {
        Signer { key, is_signer }
    }
}

/// The identity to bind as author: exactly the signer's own key, and only
/// when its signature was verified.
pub open spec fn authorized_identity(signer: Signer) -> Result<Identity, LedgerError> {
    if signer.is_signer {
        Ok(signer.key)
    } else {
        Err(LedgerError::UnauthorizedCaller)
    }
}

/// Extracts the identity that authorized the current invocation.
pub fn authorize(signer: &Signer) -> (r: Result<Identity, LedgerError>)
    ensures
        r == authorized_identity(*signer),
{
    if signer.is_signer {
        Ok(signer.key)
    } else {
        Err(LedgerError::UnauthorizedCaller)
    }
}

} // verus!
