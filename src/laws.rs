use vstd::prelude::*;

use crate::auth::Signer;
use crate::entry::{entry_size, lemma_entries_size_push, Message};
use crate::ledger::{
    append_step, fits, initialize_step, ledger_inv, used_bytes, LedgerError, LedgerState,
};
use crate::program::add_msg_step;

verus! {

/// The state after appending each message of `calls`, in order, from `s`.
pub open spec fn run_appends(s: LedgerState, calls: Seq<Message>) -> LedgerState
    decreases calls.len(),
{
    if calls.len() == 0 {
        s
    } else {
        append_step(run_appends(s, calls.drop_last()), calls.last()).0
    }
}

/// The result of the append of `calls[k]`, made after the appends before it.
pub open spec fn append_result(s: LedgerState, calls: Seq<Message>, k: int) -> Result<
    u64,
    LedgerError,
> {
    append_step(run_appends(s, calls.take(k)), calls[k]).1
}

/// When every append of a sequence succeeds, the entries grow by exactly
/// the appended messages, in call order, and each call returns the index
/// at which its message now stands. From an empty ledger, the count after
/// N appends is N and entry i is the i-th call's content and author.
pub proof fn lemma_appends_in_order(s: LedgerState, calls: Seq<Message>)
    requires
        forall|k: int| 0 <= k < calls.len() ==> (#[trigger] append_result(s, calls, k)) is Ok,
    ensures
        run_appends(s, calls).entries == s.entries + calls,
        run_appends(s, calls).budget == s.budget,
        run_appends(s, calls).initialized == s.initialized,
        forall|k: int|
            0 <= k < calls.len() ==> #[trigger] append_result(s, calls, k) == Ok::<u64, LedgerError>(
                (s.entries.len() + k) as u64,
            ),
    decreases calls.len(),
{
    if calls.len() == 0 {
        assert(s.entries + calls =~= s.entries);
    } else {
        let n = calls.len() - 1;
        let front = calls.drop_last();
        assert forall|k: int| 0 <= k < front.len() implies (#[trigger] append_result(
            s,
            front,
            k,
        )) is Ok by {
            assert(front.take(k) =~= calls.take(k));
            assert(append_result(s, calls, k) is Ok);
        }
        lemma_appends_in_order(s, front);
        assert(calls.take(n) =~= front);
        assert(append_result(s, calls, n) is Ok);
        assert(s.entries + calls =~= (s.entries + front).push(calls.last()));
        assert forall|k: int| 0 <= k < calls.len() implies #[trigger] append_result(s, calls, k)
            == Ok::<u64, LedgerError>((s.entries.len() + k) as u64) by {
            if k < n {
                assert(front.take(k) =~= calls.take(k));
                assert(append_result(s, front, k) == Ok::<u64, LedgerError>(
                    (s.entries.len() + k) as u64,
                ));
            }
        }
    }
}

/// Initialize never resets a ledger: on an initialized one it fails with
/// `AlreadyInitialized` and leaves it as it was, so a second Initialize
/// after a successful one always fails.
pub proof fn lemma_initialize_once(s: LedgerState)
    ensures
        s.initialized ==> initialize_step(s) == (s, Err::<(), LedgerError>(
            LedgerError::AlreadyInitialized,
        )),
        initialize_step(s).1 is Ok ==> initialize_step(initialize_step(s).0) == (
            initialize_step(s).0,
            Err::<(), LedgerError>(LedgerError::AlreadyInitialized),
        ),
{
}

/// Append before Initialize fails with `NotInitialized` and writes nothing,
/// whoever signed the request.
pub proof fn lemma_append_before_initialize(s: LedgerState, content: Seq<char>, user: Signer)
    requires
        !s.initialized,
        user.is_signer,
    ensures
        append_step(s, Message { content, author: user.key }) == (s, Err::<u64, LedgerError>(
            LedgerError::NotInitialized,
        )),
        add_msg_step(s, content, user) == (s, Err::<u64, LedgerError>(
            LedgerError::NotInitialized,
        )),
{
}

/// An entry fits exactly when its serialized size is within the bytes that
/// remain of the budget; one that does not fit fails with
/// `CapacityExceeded` and leaves the ledger as it was.
pub proof fn lemma_over_budget(s: LedgerState, m: Message)
    requires
        s.initialized,
    ensures
        fits(s, m) <==> used_bytes(s) + entry_size(m) <= s.budget,
        used_bytes(s) + entry_size(m) > s.budget ==> append_step(s, m) == (
            s,
            Err::<u64, LedgerError>(LedgerError::CapacityExceeded),
        ),
{
    lemma_entries_size_push(s.entries, m);
}

/// An append request either changes nothing, or adds one entry whose author
/// is the key of the verified signer of that very request, leaving every
/// earlier entry, and so its author, as it was.
pub proof fn lemma_author_is_signer(s: LedgerState, content: Seq<char>, user: Signer)
    ensures
        ({
            let (t, r) = add_msg_step(s, content, user);
            &&& r is Ok ==> user.is_signer && t.entries == s.entries.push(
                Message { content, author: user.key },
            )
            &&& r is Ok ==> t.entries.last().author == user.key
            &&& r is Ok ==> t.entries.take(s.entries.len() as int) == s.entries
            &&& r is Err ==> t == s
        }),
{
    let (t, r) = add_msg_step(s, content, user);
    if r is Ok {
        assert(t.entries.take(s.entries.len() as int) =~= s.entries);
    }
}

/// Every operation keeps a valid ledger valid.
pub proof fn lemma_steps_keep_inv(s: LedgerState, content: Seq<char>, user: Signer)
    requires
        ledger_inv(s),
    ensures
        ledger_inv(initialize_step(s).0),
        ledger_inv(add_msg_step(s, content, user).0),
{
}

} // verus!
