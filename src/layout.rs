use vstd::prelude::*;

use crate::entry::{
    content_bytes, entries_size, entry_size, lemma_entries_size_push, record_size, ItemStruct,
    Message,
};
use crate::ledger::{used_bytes, BaseAccount};

verus! {

/// The eight little-endian bytes of `v`.
pub open spec fn u64_le(v: u64) -> Seq<u8> {
    Seq::new(8, |i: int| ((v >> ((8 * i) as u64)) & 0xff) as u8)
}

/// The four little-endian bytes of `v`.
pub open spec fn u32_le(v: u32) -> Seq<u8> {
    Seq::new(4, |i: int| ((v >> ((8 * i) as u32)) & 0xff) as u8)
}

/// One stored entry: the content's byte length, the content, the author.
pub open spec fn entry_bytes(m: Message) -> Seq<u8> {
    u32_le(content_bytes(m).len() as u32) + content_bytes(m) + m.author.bytes@
}

/// The stored entries, one after the other in append order.
pub open spec fn entries_bytes(s: Seq<Message>) -> Seq<u8>
    decreases s.len(),
{
    if s.len() == 0 {
        Seq::empty()
    } else {
        entries_bytes(s.drop_last()) + entry_bytes(s.last())
    }
}

/// The stored record: the entry count, then the entries.
pub open spec fn record_bytes(s: Seq<Message>) -> Seq<u8> {
    u64_le(s.len() as u64) + entries_bytes(s)
}

/// The stored form of the entries takes exactly the size that is tracked
/// for them.
pub proof fn lemma_entries_bytes_len(s: Seq<Message>)
    ensures
        entries_bytes(s).len() == entries_size(s),
    decreases s.len(),
{
    if s.len() > 0 {
        lemma_entries_bytes_len(s.drop_last());
        assert(s.last().author.bytes@.len() == 32);
    }
}

/// A prefix of the entries takes no more room than all of them.
pub proof fn lemma_entries_size_prefix(s: Seq<Message>, k: int)
    requires
        0 <= k <= s.len(),
    ensures
        entries_size(s.take(k)) <= entries_size(s),
    decreases s.len(),
{
    if k == s.len() {
        assert(s.take(k) =~= s);
    } else {
        lemma_entries_size_prefix(s.drop_last(), k);
        assert(s.drop_last().take(k) =~= s.take(k));
    }
}

/// Appends the little-endian bytes of `v`.
fn push_u64_le(out: &mut Vec<u8>, v: u64)
    ensures
        final(out)@ == old(out)@ + u64_le(v),
{
    let ghost start = out@;
    let mut i: u64 = 0;
    while i < 8
        invariant
            i <= 8,
            out@ == start + u64_le(v).take(i as int),
        decreases 8 - i,
    {
        out.push(((v >> (8 * i)) & 0xff) as u8);
        i = i + 1;
        assert(u64_le(v).take(i as int) =~= u64_le(v).take(i - 1).push(
            ((v >> ((8 * (i - 1)) as u64)) & 0xff) as u8,
        ));
    }
    assert(u64_le(v).take(8) =~= u64_le(v));
}

/// Appends the little-endian bytes of `v`.
fn push_u32_le(out: &mut Vec<u8>, v: u32)
    ensures
        final(out)@ == old(out)@ + u32_le(v),
{
    let ghost start = out@;
    let mut i: u32 = 0;
    while i < 4
        invariant
            i <= 4,
            out@ == start + u32_le(v).take(i as int),
        decreases 4 - i,
    {
        out.push(((v >> (8 * i)) & 0xff) as u8);
        i = i + 1;
        assert(u32_le(v).take(i as int) =~= u32_le(v).take(i - 1).push(
            ((v >> ((8 * (i - 1)) as u32)) & 0xff) as u8,
        ));
    }
    assert(u32_le(v).take(4) =~= u32_le(v));
}

/// Appends every byte of `bytes`.
fn push_slice(out: &mut Vec<u8>, bytes: &[u8])
    ensures
        final(out)@ == old(out)@ + bytes@,
{
    let ghost start = out@;
    let mut i: usize = 0;
    while i < bytes.len()
        invariant
            i <= bytes@.len(),
            out@ == start + bytes@.take(i as int),
        decreases bytes@.len() - i,
    {
        out.push(bytes[i]);
        i = i + 1;
        assert(bytes@.take(i as int) =~= bytes@.take(i - 1).push(bytes@[i - 1]));
    }
    assert(bytes@.take(i as int) =~= bytes@);
}

/// Appends the stored form of one entry, whose content fits a 4-byte length.
fn push_entry(out: &mut Vec<u8>, item: &ItemStruct)
    requires
        content_bytes(item@).len() <= u32::MAX,
    ensures
        final(out)@ == old(out)@ + entry_bytes(item@),
{
    let ghost start = out@;
    let content: &[u8] = item.msg_content.as_str().as_bytes();
    push_u32_le(out, content.len() as u32);
    push_slice(out, content);
    push_slice(out, item.user_address.bytes.as_slice());
    assert(out@ =~= start + entry_bytes(item@));
}

impl BaseAccount {
    /// The record in its stored binary form: the entry count as eight
    /// little-endian bytes, then each entry as a four-byte little-endian
    /// content length, the UTF-8 content and the 32-byte author.
    pub fn to_bytes(&self) -> (r: Vec<u8>)
        requires
            self.wf(),
        ensures
            r@ == record_bytes(self@.entries),
    {
        let list = self.msg_list();
        let ghost s = self@.entries;
        proof {
            self.lemma_inv();
        }
        let mut out: Vec<u8> = Vec::new();
        push_u64_le(&mut out, self.total_msgs());
        let mut i: usize = 0;
        while i < list.len()
            invariant
                i <= list@.len(),
                list@.map_values(|it: ItemStruct| it@) == s,
                s.len() == 0 || record_size(s) <= self@.budget,
                self@.budget <= u32::MAX,
                out@ == u64_le(s.len() as u64) + entries_bytes(s.take(i as int)),
            decreases list@.len() - i,
        {
            let item = &list[i];
            proof {
                assert(item@ == s[i as int]);
                lemma_entries_size_prefix(s, i + 1);
                lemma_entries_size_push(s.take(i as int), s[i as int]);
                assert(s.take(i + 1) =~= s.take(i as int).push(s[i as int]));
            }
            push_entry(&mut out, item);
            proof {
                let t = s.take(i + 1);
                assert(t.drop_last() =~= s.take(i as int));
                assert(out@ =~= u64_le(s.len() as u64) + entries_bytes(t));
            }
            i = i + 1;
        }
        assert(s.take(i as int) =~= s);
        out
    }
}

/// The stored form of an initialized record has exactly the tracked size,
/// so it always fits in the byte budget.
pub proof fn lemma_stored_size(a: &BaseAccount)
    requires
        a.wf(),
        a@.initialized,
    ensures
        record_bytes(a@.entries).len() == used_bytes(a@),
        used_bytes(a@) <= a@.budget,
{
    a.lemma_inv();
    lemma_entries_bytes_len(a@.entries);
}

} // verus!
