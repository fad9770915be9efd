//! The listing of the mailbox as an index: messages in order of creation,
//! numbered from one.

use crate::inode::{lines_view, spec_page, DirEntry, DirEntryView, Inode, MAX_ID};
use crate::model::content::{lemma_entry_names_differ, InboxEntry, InboxItem};
use crate::text::str_equal;
use vstd::prelude::*;

verus! {

/// The position of a message on the time line.
pub open spec fn time_key(item: InboxItem) -> int {
    item.created_at.key()
}

/// The first position at or after `from` whose message in `s` is not earlier
/// than `k`.
pub open spec fn rank_from(s: Seq<InboxItem>, k: int, from: int) -> int
    decreases s.len() - from,
{
    if 0 <= from < s.len() && time_key(s[from]) < k {
        rank_from(s, k, from + 1)
    } else {
        from
    }
}

/// `s` with `x` put in front of the first message that is not earlier than `x`.
pub open spec fn inserted(s: Seq<InboxItem>, x: InboxItem) -> Seq<InboxItem> {
    s.insert(rank_from(s, time_key(x), 0), x)
}

/// The messages in order of creation, earliest first. Messages created at the
/// same instant keep the order in which they came.
pub open spec fn sorted_by_time(items: Seq<InboxItem>) -> Seq<InboxItem>
    decreases items.len(),
{
    if items.len() == 0 {
        Seq::empty()
    } else {
        inserted(sorted_by_time(items.drop_first()), items[0])
    }
}

/// Whether no message comes before an earlier one.
pub open spec fn in_time_order(s: Seq<InboxItem>) -> bool {
    forall|i: int, j: int| 0 <= i <= j < s.len() ==> time_key(s[i]) <= time_key(s[j])
}

/// The messages with sequence numbers from one, in the order given.
pub open spec fn numbered(items: Seq<InboxItem>) -> Seq<InboxEntry> {
    Seq::new(items.len(), |i: int| InboxEntry { id: (i + 1) as u32, item: items[i] })
}

/// The rank lies between `from` and the end; all messages from `from` up to
/// it are earlier than `k`, and the message at it, if any, is not.
pub proof fn lemma_rank_bounds(s: Seq<InboxItem>, k: int, from: int)
    requires
        0 <= from <= s.len(),
    ensures
        from <= rank_from(s, k, from) <= s.len(),
        forall|i: int| from <= i < rank_from(s, k, from) ==> time_key(#[trigger] s[i]) < k,
        rank_from(s, k, from) < s.len() ==> time_key(s[rank_from(s, k, from)]) >= k,
    decreases s.len() - from,
{
    if from < s.len() && time_key(s[from]) < k {
        lemma_rank_bounds(s, k, from + 1);
    }
}

/// Putting a message into an ordered run keeps the run ordered and adds just
/// that message.
pub proof fn lemma_inserted_ordered(s: Seq<InboxItem>, x: InboxItem)
    requires
        in_time_order(s),
    ensures
        in_time_order(inserted(s, x)),
        inserted(s, x).len() == s.len() + 1,
        inserted(s, x).to_multiset() == s.to_multiset().insert(x),
{
    let k = time_key(x);
    let r = rank_from(s, k, 0);
    lemma_rank_bounds(s, k, 0);
    let t = inserted(s, x);
    assert forall|i: int, j: int| 0 <= i <= j < t.len() implies time_key(t[i]) <= time_key(
        t[j],
    ) by {
        if j < r {
            assert(t[i] == s[i] && t[j] == s[j]);
        } else if j == r {
            if i < r {
                assert(t[i] == s[i]);
            }
        } else {
            assert(t[j] == s[j - 1]);
            if i < r {
                assert(t[i] == s[i]);
            } else if i == r {
                assert(time_key(s[r]) >= k);
                assert(time_key(s[r]) <= time_key(s[j - 1]));
            } else {
                assert(t[i] == s[i - 1]);
            }
        }
    }
    vstd::seq_lib::to_multiset_insert(s, r, x);
}

/// Sorting orders the messages by creation time and neither drops nor adds
/// one: the result holds each message as often as the input does.
pub proof fn lemma_sorted_by_time(items: Seq<InboxItem>)
    ensures
        in_time_order(sorted_by_time(items)),
        sorted_by_time(items).len() == items.len(),
        sorted_by_time(items).to_multiset() == items.to_multiset(),
    decreases items.len(),
{
    if items.len() == 0 {
        assert(items =~= Seq::<InboxItem>::empty());
    } else {
        let rest = items.drop_first();
        lemma_sorted_by_time(rest);
        lemma_inserted_ordered(sorted_by_time(rest), items[0]);
        assert(items =~= rest.insert(0, items[0]));
        vstd::seq_lib::to_multiset_insert(rest, 0, items[0]);
        assert(items.to_multiset() =~= rest.to_multiset().insert(items[0]));
    }
}

/// Whether a message was created at the instant with key `k`.
pub open spec fn at_key(k: int) -> spec_fn(InboxItem) -> bool {
    |x: InboxItem| time_key(x) == k
}

/// The messages of `s` that were created at the instant with key `k`, in
/// the order in which they stand in `s`.
pub open spec fn created_at_key(s: Seq<InboxItem>, k: int) -> Seq<InboxItem> {
    s.filter(at_key(k))
}

/// A run in which no message satisfies `p` has nothing left after filtering.
proof fn lemma_filter_nothing(s: Seq<InboxItem>, p: spec_fn(InboxItem) -> bool)
    requires
        forall|i: int| 0 <= i < s.len() ==> !p(#[trigger] s[i]),
    ensures
        s.filter(p) == Seq::<InboxItem>::empty(),
    decreases s.len(),
{
    reveal(Seq::filter);
    if s.len() > 0 {
        lemma_filter_nothing(s.drop_last(), p);
    }
}

/// Filtering a run of one message keeps it or drops it.
proof fn lemma_filter_one(x: InboxItem, p: spec_fn(InboxItem) -> bool)
    ensures
        seq![x].filter(p) == if p(x) {
            seq![x]
        } else {
            Seq::<InboxItem>::empty()
        },
{
    reveal(Seq::filter);
    let one = seq![x];
    assert(one.drop_last() =~= Seq::<InboxItem>::empty());
    assert(one.drop_last().filter(p) =~= Seq::<InboxItem>::empty());
    assert(one.last() == x);
    if p(x) {
        assert(Seq::<InboxItem>::empty().push(x) =~= seq![x]);
    }
}

/// Sorting is stable: the messages created at one instant stand in the
/// sorted run in the order in which they came.
pub proof fn lemma_sort_is_stable(items: Seq<InboxItem>, k: int)
    ensures
        created_at_key(sorted_by_time(items), k) == created_at_key(items, k),
    decreases items.len(),
{
    let p = at_key(k);
    if items.len() > 0 {
        let x = items[0];
        let rest = items.drop_first();
        lemma_sort_is_stable(rest, k);
        let s = sorted_by_time(rest);
        let r = rank_from(s, time_key(x), 0);
        lemma_rank_bounds(s, time_key(x), 0);
        lemma_sorted_by_time(rest);
        let head = s.take(r);
        let tail = s.skip(r);
        assert(s.insert(r, x) =~= (head + seq![x]) + tail);
        assert(s =~= head + tail);
        assert(items =~= seq![x] + rest);
        Seq::filter_distributes_over_add(head + seq![x], tail, p);
        Seq::filter_distributes_over_add(head, seq![x], p);
        Seq::filter_distributes_over_add(head, tail, p);
        Seq::filter_distributes_over_add(seq![x], rest, p);
        lemma_filter_one(x, p);
        if p(x) {
            assert forall|i: int| 0 <= i < head.len() implies !p(#[trigger] head[i]) by {
                assert(head[i] == s[i]);
            }
            lemma_filter_nothing(head, p);
            assert(Seq::<InboxItem>::empty() + seq![x] + tail.filter(p) =~= seq![x] + (
            Seq::<InboxItem>::empty() + tail.filter(p)));
        } else {
            assert(head.filter(p) + Seq::<InboxItem>::empty() + tail.filter(p) =~= head.filter(p)
                + tail.filter(p));
            assert(Seq::<InboxItem>::empty() + rest.filter(p) =~= rest.filter(p));
        }
    }
}

/// The index over one listing: its messages, earliest first, each with its
/// sequence number, which is its position counted from one.
#[derive(Debug)]
pub struct InboxListing {
    entries: Vec<InboxEntry>,
}

impl View for InboxListing {
    type V = Seq<InboxEntry>;

    closed spec fn view(&self) -> Seq<InboxEntry> {
        self.entries@
    }
}

/// Whether `entries` are numbered from one by position, fit the range of
/// entry ids, and stand in order of creation.
pub open spec fn is_index(entries: Seq<InboxEntry>) -> bool {
    &&& entries.len() <= MAX_ID
    &&& forall|i: int| 0 <= i < entries.len() ==> (#[trigger] entries[i]).id == i + 1
    &&& forall|i: int, j: int|
        0 <= i <= j < entries.len() ==> time_key(entries[i].item) <= time_key(entries[j].item)
}

/// The entry with sequence number `id`.
pub open spec fn spec_by_id(entries: Seq<InboxEntry>, id: u32) -> Option<InboxEntry> {
    if 1 <= id <= entries.len() {
        Some(entries[id - 1])
    } else {
        None
    }
}

/// Whether some entry has the directory name `name`.
pub open spec fn has_name(entries: Seq<InboxEntry>, name: Seq<char>) -> bool {
    exists|i: int| 0 <= i < entries.len() && (#[trigger] entries[i]).spec_name() == name
}

/// The position of an entry with the directory name `name`, where there is one.
pub open spec fn position_of_name(entries: Seq<InboxEntry>, name: Seq<char>) -> int {
    choose|i: int| 0 <= i < entries.len() && (#[trigger] entries[i]).spec_name() == name
}

/// The entry with the directory name `name`.
pub open spec fn spec_by_name(entries: Seq<InboxEntry>, name: Seq<char>) -> Option<InboxEntry> {
    if has_name(entries, name) {
        Some(entries[position_of_name(entries, name)])
    } else {
        None
    }
}

/// The node that `name` names in the root directory.
pub open spec fn spec_root_lookup(entries: Seq<InboxEntry>, name: Seq<char>) -> Option<Inode> {
    match spec_by_name(entries, name) {
        Some(e) => Some(Inode::InboxEntry { entry_id: e.id }),
        None => None,
    }
}

/// In an index no two entries share a directory name.
pub proof fn lemma_index_names_differ(entries: Seq<InboxEntry>, i: int, j: int)
    requires
        is_index(entries),
        0 <= i < entries.len(),
        0 <= j < entries.len(),
        entries[i].spec_name() == entries[j].spec_name(),
    ensures
        i == j,
{
    lemma_entry_names_differ(
        entries[i].id as nat,
        entries[i].item.sender_name@,
        entries[i].item.subject@,
        entries[j].id as nat,
        entries[j].item.sender_name@,
        entries[j].item.subject@,
    );
}

/// The lines of the root directory: one per message, in order.
pub open spec fn spec_root_lines(entries: Seq<InboxEntry>) -> Seq<DirEntryView> {
    Seq::new(
        entries.len(),
        |i: int|
            DirEntryView {
                name: entries[i].spec_name(),
                inode: Inode::InboxEntry { entry_id: entries[i].id },
            },
    )
}

impl InboxListing {
    /// The entries are numbered from one by position and stand in order of
    /// creation.
    pub open spec fn wf(&self) -> bool {
        is_index(self@)
    }

    #[verifier::type_invariant]
    spec fn inv(&self) -> bool {
        self.wf()
    }

    /// The index over the messages of one listing: sorted by creation time,
    /// earliest first, and numbered from one. The order in which the remote
    /// side sent them matters only among messages created at the same instant.
    pub fn from_content_specs(items: Vec<InboxItem>) -> (listing: InboxListing)
        requires
            items@.len() <= MAX_ID,
        ensures
            listing@ == numbered(sorted_by_time(items@)),
            listing.wf(),
    {
        let ghost given = items@;
        let mut rest: Vec<InboxItem> = items;
        let mut sorted: Vec<InboxItem> = Vec::new();
        assert(given.skip(given.len() as int) =~= Seq::<InboxItem>::empty());
        while rest.len() > 0
            invariant
                rest@.len() <= given.len(),
                rest@ == given.take(rest@.len() as int),
                sorted@ == sorted_by_time(given.skip(rest@.len() as int)),
            decreases rest@.len(),
        {
            let ghost before = rest@.len() as int;
            let x: InboxItem = rest.pop().unwrap();
            assert(x == given[before - 1]);
            let mut j: usize = 0;
            while j < sorted.len() && !x.created_at.not_after(&sorted[j].created_at)
                invariant
                    j <= sorted@.len(),
                    rank_from(sorted@, time_key(x), j as int) == rank_from(
                        sorted@,
                        time_key(x),
                        0,
                    ),
                decreases sorted@.len() - j,
            {
                j = j + 1;
            }
            sorted.insert(j, x);
            proof {
                let tail = given.skip(before - 1);
                assert(tail[0] == x);
                assert(tail.drop_first() =~= given.skip(before));
                assert(rest@ =~= given.take(before - 1));
            }
        }
        assert(given.skip(0) =~= given);
        proof {
            lemma_sorted_by_time(given);
        }
        let ghost ordered = sorted@;
        let mut entries: Vec<InboxEntry> = Vec::new();
        let mut back: Vec<InboxItem> = Vec::new();
        while sorted.len() > 0
            invariant
                sorted@.len() + back@.len() == ordered.len(),
                sorted@ == ordered.take(sorted@.len() as int),
                forall|i: int|
                    0 <= i < back@.len() ==> #[trigger] back@[i] == ordered[ordered.len() - 1 - i],
            decreases sorted@.len(),
        {
            let x: InboxItem = sorted.pop().unwrap();
            back.push(x);
        }
        while back.len() > 0
            invariant
                ordered.len() <= MAX_ID,
                entries@.len() + back@.len() == ordered.len(),
                forall|i: int|
                    0 <= i < back@.len() ==> #[trigger] back@[i] == ordered[ordered.len() - 1 - i],
                entries@ == numbered(ordered).take(entries@.len() as int),
            decreases back@.len(),
        {
            let item: InboxItem = back.pop().unwrap();
            let id: u32 = (entries.len() + 1) as u32;
            entries.push(InboxEntry { id, item });
            assert(entries@ =~= numbered(ordered).take(entries@.len() as int));
        }
        assert(entries@ =~= numbered(ordered));
        InboxListing { entries }
    }

    /// The number of messages.
    pub fn len(&self) -> (n: usize)
        ensures
            n == self@.len(),
    {
        self.entries.len()
    }

    /// The messages with their sequence numbers, earliest first.
    pub fn entries(&self) -> (entries: &Vec<InboxEntry>)
        ensures
            entries@ == self@,
            is_index(entries@),
    {
        proof {
            use_type_invariant(self);
        }
        &self.entries
    }

    /// The entry with sequence number `id`; `None` where the listing has no
    /// such number.
    pub fn entry_by_id(&self, id: u32) -> (found: Option<&InboxEntry>)
        ensures
            match found {
                Some(e) => spec_by_id(self@, id) == Some(*e) && e.id == id,
                None => spec_by_id(self@, id) is None,
            },
    {
        proof {
            use_type_invariant(self);
        }
        if id >= 1 && id as usize <= self.entries.len() {
            Some(&self.entries[(id - 1) as usize])
        } else {
            None
        }
    }

    /// Takes the entry with sequence number `id` out of the listing; `None`
    /// where the listing has no such number.
    pub fn into_entry(self, id: u32) -> (found: Option<InboxEntry>)
        ensures
            found == spec_by_id(self@, id),
    {
        proof {
            use_type_invariant(&self);
        }
        let mut entries: Vec<InboxEntry> = self.entries;
        if id >= 1 && id as usize <= entries.len() {
            Some(entries.swap_remove((id - 1) as usize))
        } else {
            None
        }
    }

    /// The entry whose directory name is `name`; `None` where no message has
    /// that name.
    pub fn entry_by_name(&self, name: &str) -> (found: Option<&InboxEntry>)
        ensures
            match found {
                Some(e) => spec_by_name(self@, name@) == Some(*e),
                None => spec_by_name(self@, name@) is None,
            },
    {
        proof {
            use_type_invariant(self);
        }
        let mut i: usize = 0;
        while i < self.entries.len()
            invariant
                i <= self.entries@.len(),
                is_index(self.entries@),
                forall|k: int| 0 <= k < i ==> (#[trigger] self.entries@[k]).spec_name() != name@,
            decreases self.entries@.len() - i,
        {
            let candidate: String = self.entries[i].name();
            if str_equal(candidate.as_str(), name) {
                proof {
                    assert(self.entries@[i as int].spec_name() == name@);
                    assert(has_name(self@, name@));
                    lemma_index_names_differ(self@, i as int, position_of_name(self@, name@));
                }
                return Some(&self.entries[i]);
            }
            i = i + 1;
        }
        None
    }

    /// The node that `name` names in the root directory; `None` where no
    /// message has that directory name.
    pub fn lookup_name(&self, name: &str) -> (found: Option<Inode>)
        ensures
            found == spec_root_lookup(self@, name@),
    {
        match self.entry_by_name(name) {
            Some(e) => Some(Inode::InboxEntry { entry_id: e.id }),
            None => None,
        }
    }

    /// The lines of the root directory from position `offset` on: one line
    /// per message, in the order of the sequence numbers.
    pub fn dir_entries(&self, offset: u64) -> (lines: Vec<DirEntry>)
        ensures
            lines_view(lines@) == spec_page(spec_root_lines(self@), offset as nat),
    {
        let n: usize = self.entries.len();
        let mut lines: Vec<DirEntry> = Vec::new();
        if offset >= n as u64 {
            assert(lines_view(lines@) =~= spec_page(spec_root_lines(self@), offset as nat));
            return lines;
        }
        let start: usize = offset as usize;
        let mut i: usize = start;
        while i < n
            invariant
                n == self.entries@.len(),
                start <= i <= n,
                lines@.len() == i - start,
                forall|k: int|
                    0 <= k < lines@.len() ==> (#[trigger] lines@[k])@ == spec_root_lines(
                        self@,
                    )[start + k],
            decreases n - i,
        {
            let name: String = self.entries[i].name();
            lines.push(DirEntry { name, inode: Inode::InboxEntry { entry_id: self.entries[i].id } });
            i = i + 1;
        }
        assert(lines_view(lines@) =~= spec_page(spec_root_lines(self@), offset as nat));
        lines
    }
}

/// In the root directory a name leads back to its node: the node that a
/// lookup finds under the name of line `i` is the node of line `i`.
pub proof fn lemma_root_lookup_agrees(entries: Seq<InboxEntry>, i: int)
    requires
        is_index(entries),
        0 <= i < entries.len(),
    ensures
        spec_root_lookup(entries, spec_root_lines(entries)[i].name) == Some(
            spec_root_lines(entries)[i].inode,
        ),
{
    let name = entries[i].spec_name();
    assert(has_name(entries, name));
    lemma_index_names_differ(entries, i, position_of_name(entries, name));
}

} // verus!
