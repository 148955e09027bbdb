use vstd::prelude::*;

use crate::entry::{
    entries_size, entry_size, lemma_entries_size_lower_bound, lemma_entries_size_push,
    record_size, Identity, ItemStruct, Message, ENTRY_OVERHEAD, HEADER_SIZE,
};

verus! {

/// Why an operation on the ledger failed. A failed operation changes nothing.
#[derive(Clone, Copy, Debug, PartialEq, Eq, Structural)]
pub enum LedgerError {
    AlreadyInitialized,
    NotInitialized,
    CapacityExceeded,
    UnauthorizedCaller,
}

/// The ledger as mathematical values: its fixed byte budget, whether it
/// was initialized, and its entries in the order they were appended.
pub struct LedgerState {
    pub budget: nat,
    pub initialized: bool,
    pub entries: Seq<Message>,
}

/// Bytes of storage that a ledger in state `s` occupies.
pub open spec fn used_bytes(s: LedgerState) -> nat {
    if s.initialized {
        record_size(s.entries)
    } else {
        0
    }
}

/// Whether one more entry `m` fits in the byte budget of `s`.
pub open spec fn fits(s: LedgerState, m: Message) -> bool {
    record_size(s.entries.push(m)) <= s.budget
}

/// Initialize as a transition: the next state and the result.
pub open spec fn initialize_step(s: LedgerState) -> (LedgerState, Result<(), LedgerError>) {
    if s.initialized {
        (s, Err(LedgerError::AlreadyInitialized))
    } else if s.budget < HEADER_SIZE {
        (s, Err(LedgerError::CapacityExceeded))
    } else {
        (LedgerState { initialized: true, ..s }, Ok(()))
    }
}

/// Append of `m` as a transition: the next state and the result, which on
/// success is the index of the new entry.
pub open spec fn append_step(s: LedgerState, m: Message) -> (LedgerState, Result<u64, LedgerError>) {
    if !s.initialized {
        (s, Err(LedgerError::NotInitialized))
    } else if !fits(s, m) {
        (s, Err(LedgerError::CapacityExceeded))
    } else {
        (LedgerState { entries: s.entries.push(m), ..s }, Ok(s.entries.len() as u64))
    }
}

/// What every reachable ledger state satisfies.
pub open spec fn ledger_inv(s: LedgerState) -> bool {
    &&& s.budget <= u32::MAX
    &&& !s.initialized ==> s.entries.len() == 0
    &&& used_bytes(s) <= s.budget
}

/// The single persistent record: a count and an append-only list of entries,
/// held in a storage allocation whose size is fixed when it is created.
pub struct BaseAccount {
    total_msgs: u64,
    msg_list: Vec<ItemStruct>,
    budget: u32,
    used: usize,
    initialized: bool,
}

impl View for BaseAccount {
    type V = LedgerState;

    closed spec fn view(&self) -> LedgerState {
        LedgerState {
            budget: self.budget as nat,
            initialized: self.initialized,
            entries: self.msg_list@.map_values(|i: ItemStruct| i@),
        }
    }
}

impl BaseAccount {
    /// The count and the tracked size agree with the entries, and the
    /// record stays within its budget.
    pub closed spec fn wf(&self) -> bool {
        &&& ledger_inv(self@)
        &&& self.total_msgs as nat == self.msg_list@.len()
        &&& self.used as nat == used_bytes(self@)
    }

    /// Fresh, zeroed storage of `budget` bytes, not yet initialized.
    pub fn allocate(budget: u32) -> (r: BaseAccount)
        ensures
            r.wf(),
            r@ == (LedgerState { budget: budget as nat, initialized: false, entries: Seq::empty() }),
    {
        let r = BaseAccount { total_msgs: 0, msg_list: Vec::new(), budget, used: 0, initialized: false };
        assert(r@.entries =~= Seq::<Message>::empty());
        r
    }

    /// Every well-formed ledger satisfies the ledger invariant.
    pub proof fn lemma_inv(&self)
        requires
            self.wf(),
        ensures
            ledger_inv(self@),
    {
    }

    /// Writes the empty record: no entries, count zero. Fails on a ledger that
    /// was already initialized, and when the budget cannot hold the header.
    pub fn initialize(&mut self) -> (r: Result<(), LedgerError>)
        requires
            old(self).wf(),
        ensures
            final(self).wf(),
            (final(self)@, r) == initialize_step(old(self)@),
    {
        if self.initialized {
            return Err(LedgerError::AlreadyInitialized);
        }
        if (self.budget as usize) < HEADER_SIZE {
            return Err(LedgerError::CapacityExceeded);
        }
        self.initialized = true;
        self.used = HEADER_SIZE;
        Ok(())
    }

    /// Appends one entry written by `author` and returns its zero-based index.
    /// Fails before initialization, and when the entry would not fit.
    pub fn append(&mut self, content: String, author: Identity) -> (r: Result<u64, LedgerError>)
        requires
            old(self).wf(),
        ensures
            final(self).wf(),
            (final(self)@, r) == append_step(old(self)@, Message { content: content@, author }),
    {
        if !self.initialized {
            return Err(LedgerError::NotInitialized);
        }
        let ghost s = self@;
        let ghost m = Message { content: content@, author };
        let len: usize = content.as_str().as_bytes().len();
        proof {
            lemma_entries_size_push(s.entries, m);
        }
        let room: usize = (self.budget as usize) - self.used;
        if room < ENTRY_OVERHEAD || len > room - ENTRY_OVERHEAD {
            return Err(LedgerError::CapacityExceeded);
        }
        proof {
            lemma_entries_size_lower_bound(s.entries);
        }
        let index: u64 = self.total_msgs;
        self.msg_list.push(ItemStruct { msg_content: content, user_address: author });
        self.total_msgs = index + 1;
        self.used = self.used + ENTRY_OVERHEAD + len;
        proof {
            assert(self@.entries =~= s.entries.push(m));
        }
        Ok(index)
    }

    /// The number of entries appended so far.
    pub fn total_msgs(&self) -> (r: u64)
        requires
            self.wf(),
        ensures
            r == self@.entries.len(),
    {
        self.total_msgs
    }

    /// The entries, in the order they were appended.
    pub fn msg_list(&self) -> (r: &Vec<ItemStruct>)
        requires
            self.wf(),
        ensures
            r@.map_values(|i: ItemStruct| i@) == self@.entries,
    {
        &self.msg_list
    }

    /// The fixed byte budget of the storage.
    pub fn budget(&self) -> (r: u32)
        ensures
            r == self@.budget,
    {
        self.budget
    }

    /// Bytes of the budget that the record occupies.
    pub fn used(&self) -> (r: usize)
        requires
            self.wf(),
        ensures
            r == used_bytes(self@),
    {
        self.used
    }

    /// Whether the empty record has been written.
    pub fn is_initialized(&self) -> (r: bool)
        ensures
            r == self@.initialized,
    {
        self.initialized
    }
}

} // verus!
