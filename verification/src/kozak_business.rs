//! The workspace's placeholder program: its one instruction takes no accounts and succeeds.
use vstd::prelude::*;

verus! {

/// Accounts of `initialize`: none.
#[derive(Debug, Clone, Copy)]
pub struct Initialize {}

/// The greeting instruction; it changes nothing and always succeeds.
pub fn initialize(accounts: &Initialize) -> (r: Result<(), ()>)
    ensures
        r is Ok,
{
    Ok(())
}

} // verus!
