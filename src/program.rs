use vstd::prelude::*;

use crate::auth::{authorize, authorized_identity, Signer};
use crate::entry::Message;
use crate::ledger::{append_step, initialize_step, BaseAccount, LedgerError, LedgerState};

verus! {

/// The accounts that initialization works on.
pub struct StartStuffOff {
    pub base_account: BaseAccount,
}

/// The accounts that an append works on: the ledger and the signer whose
/// identity becomes the entry's author.
pub struct AddMsg {
    pub base_account: BaseAccount,
    pub user: Signer,
}

/// An append request as a transition: the signer must be verified, and
/// then its own key, and no other, becomes the entry's author.
pub open spec fn add_msg_step(s: LedgerState, content: Seq<char>, user: Signer) -> (
    LedgerState,
    Result<u64, LedgerError>,
) {
    match authorized_identity(user) {
        Ok(author) => append_step(s, Message { content, author }),
        Err(e) => (s, Err(e)),
    }
}

/// Initializes the ledger: count zero, no entries.
pub fn start_stuff_off(ctx: &mut StartStuffOff) -> (r: Result<(), LedgerError>)
    requires
        old(ctx).base_account.wf(),
    ensures
        final(ctx).base_account.wf(),
        (final(ctx).base_account@, r) == initialize_step(old(ctx).base_account@),
{
    ctx.base_account.initialize()
}

/// Appends `msg_content` under the identity of the signing user and returns
/// the new entry's index. The author is never taken from the caller's data.
pub fn add_msg(ctx: &mut AddMsg, msg_content: String) -> (r: Result<u64, LedgerError>)
    requires
        old(ctx).base_account.wf(),
    ensures
        final(ctx).base_account.wf(),
        final(ctx).user == old(ctx).user,
        (final(ctx).base_account@, r) == add_msg_step(
            old(ctx).base_account@,
            msg_content@,
            old(ctx).user,
        ),
{
    let author = match authorize(&ctx.user) {
        Ok(id) => id,
        Err(e) => return Err(e),
    };
    ctx.base_account.append(msg_content, author)
}

} // verus!
