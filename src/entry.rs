use vstd::prelude::*;
use vstd::utf8::encode_utf8;

verus! {

/// Bytes of the record header that holds the entry count.
pub const HEADER_SIZE: usize = 8;

/// Bytes of the length prefix written before each entry's content.
pub const LENGTH_PREFIX_SIZE: usize = 4;

/// Bytes of the identity stored with each entry.
pub const IDENTITY_SIZE: usize = 32;

/// Fixed bytes of every entry: its length prefix and its identity.
pub const ENTRY_OVERHEAD: usize = LENGTH_PREFIX_SIZE + IDENTITY_SIZE;

/// A verified 32-byte identity, bound to an entry when it is appended.
#[derive(Clone, Copy, Debug, PartialEq, Eq)]
pub struct Identity {
    pub bytes: [u8; 32],
}

impl Identity {
    pub fn new(bytes: [u8; 32]) -> (r: Identity)
        ensures
            r.bytes == bytes,
    {
        Identity { bytes }
    }
}

/// What an entry holds, as mathematical values.
pub struct Message {
    pub content: Seq<char>,
    pub author: Identity,
}

/// One entry of the ledger: a text payload and the identity that submitted it.
#[derive(Clone, Debug)]
pub struct ItemStruct {
    pub msg_content: String,
    pub user_address: Identity,
}

impl View for ItemStruct {
    type V = Message;

    open spec fn view(&self) -> Message {
        Message { content: self.msg_content@, author: self.user_address }
    }
}

/// The UTF-8 bytes of a message's content.
pub open spec fn content_bytes(m: Message) -> Seq<u8> {
    encode_utf8(m.content)
}

/// Serialized size of one entry: length prefix, content bytes, identity.
pub open spec fn entry_size(m: Message) -> nat {
    (LENGTH_PREFIX_SIZE + content_bytes(m).len() + IDENTITY_SIZE) as nat
}

/// Serialized size of a sequence of entries.
pub open spec fn entries_size(s: Seq<Message>) -> nat
    decreases s.len(),
{
    if s.len() == 0 {
        0
    } else {
        entries_size(s.drop_last()) + entry_size(s.last())
    }
}

/// Serialized size of a whole record: the header, then the entries.
pub open spec fn record_size(s: Seq<Message>) -> nat {
    (HEADER_SIZE + entries_size(s)) as nat
}

/// Appending one entry grows the serialized size by that entry's size.
pub proof fn lemma_entries_size_push(s: Seq<Message>, m: Message)
    ensures
        entries_size(s.push(m)) == entries_size(s) + entry_size(m),
{
    assert(s.push(m).drop_last() =~= s);
}

/// Every entry costs at least its fixed overhead.
pub proof fn lemma_entries_size_lower_bound(s: Seq<Message>)
    ensures
        entries_size(s) >= ENTRY_OVERHEAD * s.len(),
    decreases s.len(),
{
    if s.len() > 0 {
        lemma_entries_size_lower_bound(s.drop_last());
    }
}

} // verus!
