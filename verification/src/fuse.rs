//! The driver: `lookup`, `getattr`, `read` and `readdir` over the caches and
//! the remote mailbox.
//!
//! Every operation takes the present instant, in milliseconds, from its
//! caller. What it answers is then a function of the caches where they are
//! fresh, and of what the remote mailbox returns where they are not.
//!
//! Details and downloaded attachments are cached under the sequence number
//! of their message. Sequence numbers are positions in the listing: when a
//! fresh listing holds a message that was created before others already
//! listed, the later ones move up by one, and what is cached under a number
//! then belongs to the message that had the number before, until it expires
//! or is evicted.

use crate::cache::{Cache, CacheEntry};
use crate::client::Client;
use crate::error::{ClientError, ClientErrorView, FsError, FsErrorView};
use crate::inode::{
    lines_view, spec_locate, spec_page, Attributes, DirEntry, DirEntryView, Inode, Location, MAX_ID,
};
use crate::lru::{
    lemma_stored_is_resident, lemma_touched_keeps_values, stored, touched, value_of, LruCache,
};
use crate::model::content::{
    lemma_entry_lookup_agrees, read_window, same_entry, spec_window, Attachment, InboxEntry,
    InboxItem, ItemDetails,
};
use crate::model::listing::{
    is_index, lemma_root_lookup_agrees, numbered, sorted_by_time, spec_by_id, spec_root_lines,
    spec_root_lookup, InboxListing,
};
use vstd::prelude::*;
use vstd::string::*;

verus! {

/// How long a listing may be used: sixty seconds.
pub const LISTING_TTL_MS: i64 = 60_000;

/// How long the details of a message may be used: sixty minutes.
pub const DETAILS_TTL_MS: i64 = 3_600_000;

/// How many downloaded attachments stay resident.
pub const ATTACHMENT_SLOTS: usize = 10;

/// The one key of the listing cache.
pub const LISTING_KEY: u64 = 0;

/// What the caches alone say to a request: `None` where the remote mailbox
/// has to be asked first, else the answer.
pub type Reply<T> = Option<Result<T, FsErrorView>>;

/// The outcome of an operation with its failure as a view.
pub open spec fn outcome<T>(r: Result<T, FsError>) -> Result<T, FsErrorView> {
    match r {
        Ok(t) => Ok(t),
        Err(e) => Err(e@),
    }
}

/// The outcome of `readdir` with names as sequences of characters.
pub open spec fn lines_outcome(r: Result<Vec<DirEntry>, FsError>) -> Result<
    Seq<DirEntryView>,
    FsErrorView,
> {
    match r {
        Ok(lines) => Ok(lines_view(lines@)),
        Err(e) => Err(e@),
    }
}

/// The outcome of `read` with the bytes as a sequence.
pub open spec fn bytes_outcome(r: Result<Vec<u8>, FsError>) -> Result<Seq<u8>, FsErrorView> {
    match r {
        Ok(bytes) => Ok(bytes@),
        Err(e) => Err(e@),
    }
}

/// Whether `new` came from `old` by fetches at `now`: every entry of `old` is
/// still there, unchanged unless it was stale at `now` and was replaced by
/// one fetched at `now`; every other entry was fetched at `now`.
pub open spec fn refreshed<Value>(old: Cache<Value>, new: Cache<Value>, now: i64) -> bool {
    &&& new.spec_ttl() == old.spec_ttl()
    &&& forall|k: u64| old@.contains_key(k) ==> new@.contains_key(k)
    &&& forall|k: u64| #[trigger]
        new@.contains_key(k) ==> (old@.contains_key(k) && new@[k] == old@[k]) || (!old.has_fresh(
            k,
            now,
        ) && new@[k].fetched_at == now)
}

/// The window of `bytes` from `offset` of at most `count` bytes, or all of
/// `bytes` where `count` is `None`.
pub open spec fn spec_cut(bytes: Seq<u8>, offset: u64, count: Option<u32>) -> Seq<u8> {
    match count {
        Some(c) => spec_window(bytes, offset as nat, c as nat),
        None => bytes,
    }
}

/// The window of `data` from `offset` of at most `count` bytes, or all of
/// `data` where `count` is `None`.
fn cut(data: &[u8], offset: u64, count: Option<u32>) -> (bytes: Vec<u8>)
    ensures
        bytes@ == spec_cut(data@, offset, count),
{
    match count {
        Some(c) => read_window(data, offset, c),
        None => vstd::slice::slice_to_vec(data),
    }
}

/// Whether two records of details say the same.
pub open spec fn same_details(a: ItemDetails, b: ItemDetails) -> bool {
    &&& a.subject == b.subject
    &&& a.sender_name == b.sender_name
    &&& a.created_at == b.created_at
    &&& a.parts@ == b.parts@
}

/// Whether `m` is a message that an internal error may carry: the message
/// of a failure of the remote mailbox, or the complaint about a listing that
/// is longer than there are entry ids.
pub open spec fn remote_message(m: Seq<char>) -> bool {
    m == "inbox listing too large"@ || exists|e: ClientErrorView| m == #[trigger] e.message()
}

/// Whether a failure, if it is an internal error, carries a message of the
/// remote side.
pub open spec fn explained<T>(r: Result<T, FsError>) -> bool {
    r matches Err(FsError::InternalError(m)) ==> remote_message(m@)
}

/// The message of every failure of the remote mailbox may be carried.
proof fn lemma_message_is_remote(e: ClientErrorView)
    ensures
        remote_message(e.message()),
{
}

/// What the remote side did to an operation that ended in `r`: it failed
/// it where `r` is an internal error, and did not otherwise.
pub open spec fn remote_failure<T>(r: Result<T, FsError>) -> Result<(), FsError> {
    match r {
        Ok(_) => Ok(()),
        Err(e) => if e is InternalError {
            Err(e)
        } else {
            Ok(())
        },
    }
}

/// Whether `r` is a sound answer: a failure of the remote side only where
/// the caches could not answer before; beyond that, exactly what the caches
/// say after.
pub open spec fn answers<T>(before: Reply<T>, after: Reply<T>, r: Result<T, FsErrorView>) -> bool {
    if r matches Err(FsErrorView::InternalError(_)) {
        before is None
    } else {
        after == Some(r)
    }
}

/// What an operation needs from the remote mailbox, at the most, before the
/// caches can answer it.
#[derive(Clone, Copy, Debug, PartialEq, Eq, Structural)]
pub enum Need {
    /// The caches can always answer.
    Nothing,
    /// The listing.
    Listing,
    /// The listing, and the details of the message with this entry id.
    Details { entry_id: u32 },
    /// The listing, the details of the message, and the bytes of the
    /// attachment with this inode number.
    Contents { ino: u64 },
}

/// What `lookup` and `readdir` need for the directory at `ino`.
pub open spec fn spec_need_of_directory(ino: u64) -> Need {
    match spec_locate(ino) {
        Location::Root => Need::Listing,
        Location::InboxEntry { entry_id } => Need::Details { entry_id },
        Location::Attachment { .. } => Need::Nothing,
    }
}

/// What `getattr` needs for the node at `ino`.
pub open spec fn spec_need_of_node(ino: u64) -> Need {
    match spec_locate(ino) {
        Location::Root => Need::Nothing,
        Location::InboxEntry { .. } => Need::Listing,
        Location::Attachment { entry_id, .. } => Need::Details { entry_id },
    }
}

/// What `read` needs for the node at `ino`.
pub open spec fn spec_need_of_bytes(ino: u64) -> Need {
    match spec_locate(ino) {
        Location::Attachment { .. } => Need::Contents { ino },
        _ => Need::Nothing,
    }
}

/// One request to the remote mailbox.
#[derive(Debug)]
pub enum Fetch {
    /// List the mailbox.
    Listing,
    /// Fetch the details of the message with the remote key `item_key`, to
    /// be cached under `entry_id`.
    Details { entry_id: u32, item_key: String },
    /// Download the attachment with the remote keys `item_key` and
    /// `attachment_key`, to be cached under `ino`.
    Contents { ino: u64, item_key: String, attachment_key: String },
}

/// A request to the remote mailbox with its keys as sequences of characters.
pub enum FetchView {
    Listing,
    Details { entry_id: u32, item_key: Seq<char> },
    Contents { ino: u64, item_key: Seq<char>, attachment_key: Seq<char> },
}

impl View for Fetch {
    type V = FetchView;

    open spec fn view(&self) -> FetchView {
        match *self {
            Fetch::Listing => FetchView::Listing,
            Fetch::Details { entry_id, item_key } => FetchView::Details {
                entry_id,
                item_key: item_key@,
            },
            Fetch::Contents { ino, item_key, attachment_key } => FetchView::Contents {
                ino,
                item_key: item_key@,
                attachment_key: attachment_key@,
            },
        }
    }
}

/// An optional request with its keys as sequences of characters.
pub open spec fn fetch_view(fetch: Option<Fetch>) -> Option<FetchView> {
    match fetch {
        Some(f) => Some(f@),
        None => None,
    }
}

impl Need {
    /// What `lookup` and `readdir` need for the directory at `ino`.
    pub fn of_directory(ino: u64) -> (need: Need)
        ensures
            need == spec_need_of_directory(ino),
    {
        match Inode::locate(ino) {
            Location::Root => Need::Listing,
            Location::InboxEntry { entry_id } => Need::Details { entry_id },
            Location::Attachment { .. } => Need::Nothing,
        }
    }

    /// What `getattr` needs for the node at `ino`.
    pub fn of_node(ino: u64) -> (need: Need)
        ensures
            need == spec_need_of_node(ino),
    {
        match Inode::locate(ino) {
            Location::Root => Need::Nothing,
            Location::InboxEntry { .. } => Need::Listing,
            Location::Attachment { entry_id, .. } => Need::Details { entry_id },
        }
    }

    /// What `read` needs for the node at `ino`.
    pub fn of_bytes(ino: u64) -> (need: Need)
        ensures
            need == spec_need_of_bytes(ino),
    {
        match Inode::locate(ino) {
            Location::Attachment { .. } => Need::Contents { ino },
            _ => Need::Nothing,
        }
    }
}

/// The file tree over one remote mailbox, with its three caches.
pub struct KivraFs<C: Client> {
    client: C,
    inbox_cache: Cache<InboxListing>,
    details_cache: Cache<ItemDetails>,
    attachment_cache: LruCache<Vec<u8>>,
}

impl<C: Client> KivraFs<C> {
    /// The remote mailbox.
    pub closed spec fn spec_client(&self) -> C {
        self.client
    }

    /// The listing cache.
    pub closed spec fn listings(&self) -> Cache<InboxListing> {
        self.inbox_cache
    }

    /// The details cache, keyed by entry id.
    pub closed spec fn detail_cache(&self) -> Cache<ItemDetails> {
        self.details_cache
    }

    /// The cache of downloaded attachments, keyed by inode number.
    pub closed spec fn contents(&self) -> LruCache<Vec<u8>> {
        self.attachment_cache
    }

    /// The caches have their times to live and their bound, and the listing
    /// cache holds at most the one listing, which is an index.
    pub open spec fn wf(&self) -> bool {
        &&& self.listings().spec_ttl() == LISTING_TTL_MS
        &&& self.detail_cache().spec_ttl() == DETAILS_TTL_MS
        &&& self.contents().wf()
        &&& self.contents().spec_capacity() == ATTACHMENT_SLOTS
        &&& forall|k: u64| #[trigger]
            self.listings()@.contains_key(k) ==> k == LISTING_KEY && is_index(
                self.listings()@[k].value@,
            )
    }

    /// The listing, if the cache has one that is fresh at `now`.
    pub open spec fn listing_at(&self, now: i64) -> Option<InboxListing> {
        self.listings().spec_lookup(LISTING_KEY, now)
    }

    /// The details of message number `entry_id`, if the cache has them fresh
    /// at `now`.
    pub open spec fn details_at(&self, entry_id: u32, now: i64) -> Option<ItemDetails> {
        self.detail_cache().spec_lookup(entry_id as u64, now)
    }

    /// What the caches say of message number `entry_id`.
    pub open spec fn cached_entry(&self, entry_id: u32, now: i64) -> Reply<InboxEntry> {
        match self.listing_at(now) {
            None => None,
            Some(listing) => Some(
                match spec_by_id(listing@, entry_id) {
                    Some(e) => Ok(e),
                    None => Err(FsErrorView::NotFound),
                },
            ),
        }
    }

    /// What the caches say of the details of message number `entry_id`. The
    /// message is resolved through the listing first.
    pub open spec fn cached_details(&self, entry_id: u32, now: i64) -> Reply<ItemDetails> {
        match self.cached_entry(entry_id, now) {
            None => None,
            Some(Err(e)) => Some(Err(e)),
            Some(Ok(_)) => match self.details_at(entry_id, now) {
                None => None,
                Some(d) => Some(Ok(d)),
            },
        }
    }

    /// What the caches say of attachment number `attachment_id` of message
    /// number `entry_id`.
    pub open spec fn cached_part(&self, entry_id: u32, attachment_id: u32, now: i64) -> Reply<
        Attachment,
    > {
        match self.cached_details(entry_id, now) {
            None => None,
            Some(Err(e)) => Some(Err(e)),
            Some(Ok(d)) => Some(
                if attachment_id < d.spec_listed() {
                    Ok(d.parts@[attachment_id as int])
                } else {
                    Err(FsErrorView::NotFound)
                },
            ),
        }
    }

    /// What the caches say of the node of an attachment.
    pub open spec fn cached_attachment(
        &self,
        entry_id: u32,
        attachment_id: u32,
        now: i64,
    ) -> Reply<Inode> {
        match self.cached_details(entry_id, now) {
            None => None,
            Some(Err(e)) => Some(Err(e)),
            Some(Ok(d)) => Some(
                if attachment_id < d.spec_listed() {
                    Ok(d.spec_node(entry_id, attachment_id as int))
                } else {
                    Err(FsErrorView::NotFound)
                },
            ),
        }
    }

    /// Whether the bytes of the attachment at `ino` come from a download:
    /// the caches know the attachment, and it has a key and no inline body.
    pub open spec fn is_downloaded(&self, ino: u64, now: i64) -> bool {
        match spec_locate(ino) {
            Location::Attachment { entry_id, attachment_id } => match self.cached_details(
                entry_id,
                now,
            ) {
                Some(Ok(d)) => attachment_id < d.spec_listed() && d.parts@[attachment_id as int].body
                    is None && d.parts@[attachment_id as int].key is Some,
                _ => false,
            },
            _ => false,
        }
    }

    /// What the caches say of the bytes of the attachment at `ino`: an inline
    /// body comes first, then a resident download; an attachment with neither
    /// body nor key is invalid.
    pub open spec fn cached_contents(&self, ino: u64, now: i64) -> Reply<Seq<u8>> {
        match spec_locate(ino) {
            Location::Attachment { entry_id, attachment_id } => match self.cached_details(
                entry_id,
                now,
            ) {
                None => None,
                Some(Err(e)) => Some(Err(e)),
                Some(Ok(d)) => if attachment_id < d.spec_listed() {
                    let part = d.parts@[attachment_id as int];
                    match part.body {
                        Some(body) => Some(Ok(vstd::utf8::encode_utf8(body@))),
                        None => match part.key {
                            None => Some(Err(FsErrorView::Invalid)),
                            Some(_) => match value_of(self.contents()@, ino) {
                                Some(bytes) => Some(Ok(bytes@)),
                                None => None,
                            },
                        },
                    }
                } else {
                    Some(Err(FsErrorView::NotFound))
                },
            },
            _ => Some(Err(FsErrorView::IsDir)),
        }
    }

    /// What the caches say to `lookup`.
    pub open spec fn cached_lookup(&self, parent: u64, name: Seq<char>, now: i64) -> Reply<Inode> {
        match spec_locate(parent) {
            Location::Root => match self.listing_at(now) {
                None => None,
                Some(listing) => Some(
                    match spec_root_lookup(listing@, name) {
                        Some(node) => Ok(node),
                        None => Err(FsErrorView::NotFound),
                    },
                ),
            },
            Location::InboxEntry { entry_id } => match self.cached_details(entry_id, now) {
                None => None,
                Some(Err(e)) => Some(Err(e)),
                Some(Ok(d)) => Some(
                    match d.spec_lookup(entry_id, name) {
                        Some(node) => Ok(node),
                        None => Err(FsErrorView::NotFound),
                    },
                ),
            },
            Location::Attachment { .. } => Some(Err(FsErrorView::IsNotDir)),
        }
    }

    /// What the caches say of the node at `ino`.
    pub open spec fn cached_node(&self, ino: u64, now: i64) -> Reply<Inode> {
        match spec_locate(ino) {
            Location::Root => Some(Ok(Inode::Root)),
            Location::InboxEntry { entry_id } => match self.cached_entry(entry_id, now) {
                None => None,
                Some(Err(e)) => Some(Err(e)),
                Some(Ok(_)) => Some(Ok(Inode::InboxEntry { entry_id })),
            },
            Location::Attachment { entry_id, attachment_id } => self.cached_attachment(
                entry_id,
                attachment_id,
                now,
            ),
        }
    }

    /// What the caches say to `getattr`.
    pub open spec fn cached_getattr(&self, ino: u64, now: i64) -> Reply<Attributes> {
        match self.cached_node(ino, now) {
            None => None,
            Some(Err(e)) => Some(Err(e)),
            Some(Ok(node)) => Some(Ok(node.spec_attr())),
        }
    }

    /// What the caches say to `readdir`.
    pub open spec fn cached_readdir(&self, ino: u64, offset: u64, now: i64) -> Reply<
        Seq<DirEntryView>,
    > {
        match spec_locate(ino) {
            Location::Root => match self.listing_at(now) {
                None => None,
                Some(listing) => Some(Ok(spec_page(spec_root_lines(listing@), offset as nat))),
            },
            Location::InboxEntry { entry_id } => match self.cached_details(entry_id, now) {
                None => None,
                Some(Err(e)) => Some(Err(e)),
                Some(Ok(d)) => Some(Ok(spec_page(d.spec_lines(entry_id), offset as nat))),
            },
            Location::Attachment { .. } => Some(Err(FsErrorView::IsNotDir)),
        }
    }

    /// What the caches say of a part of the bytes of the attachment at `ino`:
    /// the window from `offset` of at most `count` bytes, or all bytes where
    /// `count` is `None`.
    pub open spec fn cached_cut(&self, ino: u64, offset: u64, count: Option<u32>, now: i64) -> Reply<
        Seq<u8>,
    > {
        match self.cached_contents(ino, now) {
            None => None,
            Some(Err(e)) => Some(Err(e)),
            Some(Ok(bytes)) => Some(Ok(spec_cut(bytes, offset, count))),
        }
    }

    /// What the caches say to `read`.
    pub open spec fn cached_read(&self, ino: u64, offset: u64, count: u32, now: i64) -> Reply<
        Seq<u8>,
    > {
        self.cached_cut(ino, offset, Some(count), now)
    }

    /// The request that the details of message number `entry_id` wait for:
    /// the listing where none is fresh; the details, under the remote key of
    /// the message, where the listing has the message and its details are not
    /// fresh; nothing where the listing lacks the message.
    pub open spec fn pending_details(&self, entry_id: u32, now: i64) -> Option<FetchView> {
        match self.listing_at(now) {
            None => Some(FetchView::Listing),
            Some(listing) => match spec_by_id(listing@, entry_id) {
                None => None,
                Some(entry) => if self.details_at(entry_id, now) is None {
                    Some(FetchView::Details { entry_id, item_key: entry.item.key@ })
                } else {
                    None
                },
            },
        }
    }

    /// The request that the bytes of the attachment at `ino` wait for: what
    /// the details of its message wait for; then, where the attachment exists
    /// and has a key and no inline body and its bytes are not resident, the
    /// download under the remote keys of message and attachment.
    pub open spec fn pending_contents(&self, ino: u64, now: i64) -> Option<FetchView> {
        match spec_locate(ino) {
            Location::Attachment { entry_id, attachment_id } => match self.pending_details(
                entry_id,
                now,
            ) {
                Some(f) => Some(f),
                None => match (self.cached_entry(entry_id, now), self.details_at(entry_id, now)) {
                    (Some(Ok(entry)), Some(d)) => if attachment_id < d.spec_listed() {
                        let part = d.parts@[attachment_id as int];
                        if part.body is None && part.key is Some && value_of(
                            self.contents()@,
                            ino,
                        ) is None {
                            Some(
                                FetchView::Contents {
                                    ino,
                                    item_key: entry.item.key@,
                                    attachment_key: part.key->0@,
                                },
                            )
                        } else {
                            None
                        }
                    } else {
                        None
                    },
                    _ => None,
                },
            },
            _ => None,
        }
    }

    /// The next request to the remote mailbox that `need` waits for at
    /// `now`; `None` where the caches hold all that `need` asks for.
    pub open spec fn spec_pending(&self, need: Need, now: i64) -> Option<FetchView> {
        match need {
            Need::Nothing => None,
            Need::Listing => if self.listing_at(now) is None {
                Some(FetchView::Listing)
            } else {
                None
            },
            Need::Details { entry_id } => self.pending_details(entry_id, now),
            Need::Contents { ino } => self.pending_contents(ino, now),
        }
    }

    /// Whether the caches of `post` and the result `r` are what taking in
    /// the answer `fetched` to a request for the listing makes of this state at
    /// `now`. A listing is indexed and cached as fetched at `now`; a failure
    /// becomes an internal error with the remote side's message and leaves the
    /// caches as they were, and so does a listing with more messages than there
    /// are entry ids.
    pub open spec fn listing_absorbed(
        self,
        post: Self,
        fetched: Result<Vec<InboxItem>, ClientError>,
        now: i64,
        r: Result<(), FsError>,
    ) -> bool {
        &&& post.detail_cache() == self.detail_cache()
        &&& post.contents() == self.contents()
        &&& post.listings().spec_ttl() == self.listings().spec_ttl()
        &&& match fetched {
            Ok(items) => if items@.len() <= MAX_ID {
                &&& r is Ok
                &&& post.listings()@.dom() == self.listings()@.dom().insert(LISTING_KEY)
                &&& post.listings()@[LISTING_KEY].fetched_at == now
                &&& post.listings()@[LISTING_KEY].value@ == numbered(sorted_by_time(items@))
            } else {
                &&& outcome(r) == Err::<(), FsErrorView>(
                    FsErrorView::InternalError("inbox listing too large"@),
                )
                &&& post.listings() == self.listings()
            },
            Err(e) => {
                &&& outcome(r) == Err::<(), FsErrorView>(FsErrorView::InternalError(e@.message()))
                &&& post.listings() == self.listings()
            },
        }
    }

    /// Whether the caches of `post` and the result `r` are what taking in
    /// the answer `fetched` to a request for the details of message number
    /// `entry_id` makes of this state at `now`. Details are cached as fetched
    /// at `now`; a failure becomes an internal error with the remote side's
    /// message and leaves the caches as they were.
    pub open spec fn details_absorbed(
        self,
        post: Self,
        entry_id: u32,
        fetched: Result<ItemDetails, ClientError>,
        now: i64,
        r: Result<(), FsError>,
    ) -> bool {
        &&& post.listings() == self.listings()
        &&& post.contents() == self.contents()
        &&& post.detail_cache().spec_ttl() == self.detail_cache().spec_ttl()
        &&& match fetched {
            Ok(d) => r is Ok && post.detail_cache()@ == self.detail_cache()@.insert(
                entry_id as u64,
                CacheEntry { value: d, fetched_at: now },
            ),
            Err(e) => {
                &&& outcome(r) == Err::<(), FsErrorView>(FsErrorView::InternalError(e@.message()))
                &&& post.detail_cache() == self.detail_cache()
            },
        }
    }

    /// Whether the caches of `post` and the result `r` are what taking in
    /// the answer `fetched` to a download of the attachment at `ino` makes of
    /// this state. The bytes become resident as the most recently used entry;
    /// a failure becomes an internal error with the remote side's message and
    /// leaves the caches as they were.
    pub open spec fn contents_absorbed(
        self,
        post: Self,
        ino: u64,
        fetched: Result<Vec<u8>, ClientError>,
        r: Result<(), FsError>,
    ) -> bool {
        &&& post.listings() == self.listings()
        &&& post.detail_cache() == self.detail_cache()
        &&& match fetched {
            Ok(bytes) => r is Ok && post.contents()@ == stored(
                self.contents()@,
                ATTACHMENT_SLOTS as nat,
                ino,
                bytes,
            ),
            Err(e) => {
                &&& outcome(r) == Err::<(), FsErrorView>(FsErrorView::InternalError(e@.message()))
                &&& post.contents() == self.contents()
            },
        }
    }

    /// Whether `post` and `r` are what a request for the listing makes of
    /// this state at `now`: the remote mailbox gives an answer that it may give
    /// in this state, and the answer is taken in.
    pub open spec fn listing_performed(self, post: Self, now: i64, r: Result<(), FsError>) -> bool {
        exists|fetched: Result<Vec<InboxItem>, ClientError>|
            self.spec_client().listing_outcome(fetched) && #[trigger] self.listing_absorbed(
                post,
                fetched,
                now,
                r,
            )
    }

    /// Whether `post` and `r` are what a request for the details of message
    /// number `entry_id` makes of this state at `now`: the remote mailbox is
    /// asked with `item_key`, gives an answer that it may give to that in this
    /// state, and the answer is taken in.
    pub open spec fn details_performed(
        self,
        post: Self,
        entry_id: u32,
        item_key: Seq<char>,
        now: i64,
        r: Result<(), FsError>,
    ) -> bool {
        exists|fetched: Result<ItemDetails, ClientError>|
            self.spec_client().details_outcome(item_key, fetched)
                && #[trigger] self.details_absorbed(post, entry_id, fetched, now, r)
    }

    /// Whether `post` and `r` are what a download for the attachment at `ino`
    /// makes of this state: the remote mailbox is asked with `item_key` and
    /// `attachment_key`, gives an answer that it may give to that in this
    /// state, and the answer is taken in.
    pub open spec fn contents_performed(
        self,
        post: Self,
        ino: u64,
        item_key: Seq<char>,
        attachment_key: Seq<char>,
        r: Result<(), FsError>,
    ) -> bool {
        exists|fetched: Result<Vec<u8>, ClientError>|
            self.spec_client().download_outcome(item_key, attachment_key, fetched)
                && #[trigger] self.contents_absorbed(post, ino, fetched, r)
    }

    /// Whether the caches of `post` and the result `r` are what making the
    /// request `fetch` makes of this state at `now`: the remote mailbox is
    /// asked with the keys of the request, it gives an answer that it may give
    /// in this state, and the answer is taken in.
    pub open spec fn performed(
        self,
        post: Self,
        fetch: FetchView,
        now: i64,
        r: Result<(), FsError>,
    ) -> bool {
        match fetch {
            FetchView::Listing => self.listing_performed(post, now, r),
            FetchView::Details { entry_id, item_key } => self.details_performed(
                post,
                entry_id,
                item_key,
                now,
                r,
            ),
            FetchView::Contents { ino, item_key, attachment_key } => self.contents_performed(
                post,
                ino,
                item_key,
                attachment_key,
                r,
            ),
        }
    }

    /// Whether `post` and `r` are what making sure of the listing makes of
    /// this state at `now`: nothing where a fresh listing is cached; else one
    /// request for the listing.
    pub open spec fn listing_resolved(self, post: Self, now: i64, r: Result<(), FsError>) -> bool {
        if self.listing_at(now) is Some {
            post == self && r is Ok
        } else {
            self.listing_performed(post, now, r)
        }
    }

    /// Whether `post` and `r` are what follows in this state once the
    /// listing was made sure of with the result `first`: nothing more where
    /// that failed; else the request that the details of message number
    /// `entry_id` wait for, where there is one.
    pub open spec fn details_step(
        self,
        post: Self,
        entry_id: u32,
        now: i64,
        first: Result<(), FsError>,
        r: Result<(), FsError>,
    ) -> bool {
        if first is Err {
            post == self && r == first
        } else {
            match self.pending_details(entry_id, now) {
                Some(FetchView::Details { entry_id: asked, item_key }) => self.details_performed(
                    post,
                    asked,
                    item_key,
                    now,
                    r,
                ),
                _ => post == self && r is Ok,
            }
        }
    }

    /// Whether `post` and `r` are what making sure of the details of message
    /// number `entry_id` makes of this state at `now`: the listing is made
    /// sure of, and then the details, each by at most one request.
    pub open spec fn details_resolved(
        self,
        post: Self,
        entry_id: u32,
        now: i64,
        r: Result<(), FsError>,
    ) -> bool {
        exists|mid: Self, first: Result<(), FsError>| #[trigger]
            self.listing_resolved(mid, now, first) && mid.details_step(
                post,
                entry_id,
                now,
                first,
                r,
            )
    }

    /// Whether `post` and `r` are what follows in this state once the
    /// details were made sure of with the result `second`: nothing more where
    /// that failed; else the download that the attachment at `ino` waits for,
    /// where there is one; else, where its bytes are resident, their use.
    pub open spec fn contents_step(
        self,
        post: Self,
        ino: u64,
        now: i64,
        second: Result<(), FsError>,
        r: Result<(), FsError>,
    ) -> bool {
        if second is Err {
            post == self && r == second
        } else {
            match self.pending_contents(ino, now) {
                Some(FetchView::Contents { ino: asked, item_key, attachment_key }) =>
                    self.contents_performed(post, asked, item_key, attachment_key, r),
                _ => {
                    &&& r is Ok
                    &&& post.spec_client() == self.spec_client()
                    &&& post.listings() == self.listings()
                    &&& post.detail_cache() == self.detail_cache()
                    &&& post.contents()@ == if self.is_downloaded(ino, now) {
                        touched(self.contents()@, ino)
                    } else {
                        self.contents()@
                    }
                },
            }
        }
    }

    /// Whether `post` and `r` are what making sure of the bytes of the
    /// attachment at `ino` makes of this state at `now`: the listing, the
    /// details of its message and then the bytes are made sure of, each by at
    /// most one request.
    pub open spec fn contents_resolved(
        self,
        post: Self,
        ino: u64,
        now: i64,
        r: Result<(), FsError>,
    ) -> bool {
        match spec_locate(ino) {
            Location::Attachment { entry_id, .. } => {
                exists|mid: Self, second: Result<(), FsError>| #[trigger]
                    self.details_resolved(mid, entry_id, now, second) && mid.contents_step(
                        post,
                        ino,
                        now,
                        second,
                        r,
                    )
            },
            _ => post == self && r is Ok,
        }
    }

    /// Whether `post` and `r` are what making sure of `need` makes of this
    /// state at `now`. The remote mailbox is asked only for what is pending,
    /// in order: the listing, the details, the bytes. Each request is made
    /// with the keys that `spec_pending` names, its answer is one that the
    /// mailbox may give, and the answer is taken in. The first failure ends
    /// it and is `r`.
    pub open spec fn resolved(self, post: Self, need: Need, now: i64, r: Result<(), FsError>) -> bool {
        match need {
            Need::Nothing => post == self && r is Ok,
            Need::Listing => self.listing_resolved(post, now, r),
            Need::Details { entry_id } => self.details_resolved(post, entry_id, now, r),
            Need::Contents { ino } => self.contents_resolved(post, ino, now, r),
        }
    }

    /// A driver over `client` with empty caches.
    pub fn new(client: C) -> (fs: Self)
        ensures
            fs.wf(),
            fs.spec_client() == client,
            fs.listings()@ == Map::<u64, CacheEntry<InboxListing>>::empty(),
            fs.detail_cache()@ == Map::<u64, CacheEntry<ItemDetails>>::empty(),
            fs.contents()@ == Seq::<(u64, Vec<u8>)>::empty(),
    {
        KivraFs {
            client,
            inbox_cache: Cache::new(LISTING_TTL_MS),
            details_cache: Cache::new(DETAILS_TTL_MS),
            attachment_cache: LruCache::new(ATTACHMENT_SLOTS),
        }
    }

    /// The remote mailbox.
    pub fn client(&self) -> (client: &C)
        ensures
            *client == self.spec_client(),
    {
        &self.client
    }

    /// Gives the remote mailbox back.
    pub fn into_client(self) -> (client: C)
        ensures
            client == self.spec_client(),
    {
        self.client
    }

    /// Takes in what the remote mailbox answered to a request for the
    /// listing. A listing is indexed and cached as fetched at `now`; a failure
    /// becomes an internal error with the remote side's message and leaves the
    /// caches as they were, and so does a listing with more messages than there
    /// are entry ids.
    pub fn absorb_listing(&mut self, fetched: Result<Vec<InboxItem>, ClientError>, now: i64) -> (r:
        Result<(), FsError>)
        requires
            old(self).wf(),
        ensures
            final(self).wf(),
            final(self).spec_client() == old(self).spec_client(),
            old(self).listing_absorbed(*final(self), fetched, now, r),
    {
        match fetched {
            Ok(items) => {
                if items.len() as u64 > MAX_ID as u64 {
                    return Err(
                        FsError::InternalError(String::from_str("inbox listing too large")),
                    );
                }
                let listing: InboxListing = InboxListing::from_content_specs(items);
                self.inbox_cache.insert(LISTING_KEY, listing, now);
                assert(final(self).listings()@.dom() =~= old(self).listings()@.dom().insert(
                    LISTING_KEY,
                ));
                Ok(())
            },
            Err(e) => Err(e.into_fs_error()),
        }
    }

    /// Takes in what the remote mailbox answered to a request for the details
    /// of message number `entry_id`. Details are cached as fetched at `now`; a
    /// failure becomes an internal error with the remote side's message and
    /// leaves the caches as they were.
    pub fn absorb_details(
        &mut self,
        entry_id: u32,
        fetched: Result<ItemDetails, ClientError>,
        now: i64,
    ) -> (r: Result<(), FsError>)
        requires
            old(self).wf(),
        ensures
            final(self).wf(),
            final(self).spec_client() == old(self).spec_client(),
            old(self).details_absorbed(*final(self), entry_id, fetched, now, r),
    {
        match fetched {
            Ok(d) => {
                self.details_cache.insert(entry_id as u64, d, now);
                Ok(())
            },
            Err(e) => Err(e.into_fs_error()),
        }
    }

    /// Takes in what the remote mailbox answered to a download of the
    /// attachment at `ino`. The bytes become resident as the most recently used
    /// entry; a failure becomes an internal error with the remote side's
    /// message and leaves the caches as they were.
    pub fn absorb_contents(&mut self, ino: u64, fetched: Result<Vec<u8>, ClientError>) -> (r:
        Result<(), FsError>)
        requires
            old(self).wf(),
        ensures
            final(self).wf(),
            final(self).spec_client() == old(self).spec_client(),
            old(self).contents_absorbed(*final(self), ino, fetched, r),
    {
        match fetched {
            Ok(bytes) => {
                self.attachment_cache.put(ino, bytes);
                Ok(())
            },
            Err(e) => Err(e.into_fs_error()),
        }
    }

    /// The request that the details of message number `entry_id` wait for.
    fn next_for_details(&self, entry_id: u32, now: i64) -> (fetch: Option<Fetch>)
        requires
            self.wf(),
        ensures
            fetch_view(fetch) == self.pending_details(entry_id, now),
    {
        match self.inbox_cache.lookup(LISTING_KEY, now) {
            None => Some(Fetch::Listing),
            Some(listing) => match listing.entry_by_id(entry_id) {
                None => None,
                Some(entry) => {
                    if self.details_cache.lookup(entry_id as u64, now).is_none() {
                        Some(Fetch::Details { entry_id, item_key: entry.item.key.clone() })
                    } else {
                        None
                    }
                },
            },
        }
    }

    /// The request that the bytes of the attachment at `ino` wait for.
    fn next_for_contents(&self, ino: u64, now: i64) -> (fetch: Option<Fetch>)
        requires
            self.wf(),
        ensures
            fetch_view(fetch) == self.pending_contents(ino, now),
    {
        match Inode::locate(ino) {
            Location::Attachment { entry_id, attachment_id } => {
                match self.next_for_details(entry_id, now) {
                    Some(f) => Some(f),
                    None => {
                        let entry = match self.inbox_cache.lookup(LISTING_KEY, now) {
                            Some(listing) => match listing.entry_by_id(entry_id) {
                                Some(entry) => entry,
                                None => {
                                    return None;
                                },
                            },
                            None => vstd::pervasive::unreached(),
                        };
                        match self.details_cache.lookup(entry_id as u64, now) {
                            Some(d) => {
                                if attachment_id as usize >= d.listed() {
                                    return None;
                                }
                                let part = &d.parts[attachment_id as usize];
                                if part.body.is_some() {
                                    return None;
                                }
                                match &part.key {
                                    None => None,
                                    Some(key) => {
                                        if self.attachment_cache.contains(ino) {
                                            None
                                        } else {
                                            Some(
                                                Fetch::Contents {
                                                    ino,
                                                    item_key: entry.item.key.clone(),
                                                    attachment_key: key.clone(),
                                                },
                                            )
                                        }
                                    },
                                }
                            },
                            None => vstd::pervasive::unreached(),
                        }
                    },
                }
            },
            _ => None,
        }
    }

    /// The next request to the remote mailbox that `need` waits for at
    /// `now`, with the keys that it is made with; `None` where the caches hold
    /// all that `need` asks for. The listing comes before the details of a
    /// message, and these before the bytes of an attachment.
    pub fn pending_fetch(&self, need: Need, now: i64) -> (fetch: Option<Fetch>)
        requires
            self.wf(),
        ensures
            fetch_view(fetch) == self.spec_pending(need, now),
    {
        match need {
            Need::Nothing => None,
            Need::Listing => {
                if self.inbox_cache.lookup(LISTING_KEY, now).is_none() {
                    Some(Fetch::Listing)
                } else {
                    None
                }
            },
            Need::Details { entry_id } => self.next_for_details(entry_id, now),
            Need::Contents { ino } => self.next_for_contents(ino, now),
        }
    }

    /// Makes one request to the remote mailbox, with the keys that `fetch`
    /// names, and takes in what it answers as `absorb_listing`,
    /// `absorb_details` and `absorb_contents` say. What is cached is what the
    /// mailbox gave; a failure is an internal error with its message and
    /// leaves the caches as they were.
    pub fn perform(&mut self, fetch: Fetch, now: i64) -> (r: Result<(), FsError>)
        requires
            old(self).wf(),
        ensures
            final(self).wf(),
            old(self).performed(*final(self), fetch@, now, r),
            explained(r),
            r matches Err(e) ==> {
                &&& e is InternalError
                &&& final(self).listings() == old(self).listings()
                &&& final(self).detail_cache() == old(self).detail_cache()
                &&& final(self).contents() == old(self).contents()
                &&& forall|need: Need, at: i64| #[trigger]
                    final(self).spec_pending(need, at) == old(self).spec_pending(need, at)
            },
            match fetch {
                Fetch::Listing => {
                    &&& final(self).detail_cache() == old(self).detail_cache()
                    &&& final(self).contents() == old(self).contents()
                    &&& final(self).listings().spec_ttl() == old(self).listings().spec_ttl()
                    &&& r is Ok ==> {
                        &&& final(self).listings()@.dom() == old(self).listings()@.dom().insert(
                            LISTING_KEY,
                        )
                        &&& final(self).listings()@[LISTING_KEY].fetched_at == now
                        &&& final(self).listing_at(now) is Some
                    }
                },
                Fetch::Details { entry_id, .. } => {
                    &&& final(self).listings() == old(self).listings()
                    &&& final(self).contents() == old(self).contents()
                    &&& final(self).detail_cache().spec_ttl() == old(self).detail_cache().spec_ttl()
                    &&& r is Ok ==> {
                        &&& final(self).detail_cache()@ == old(self).detail_cache()@.insert(
                            entry_id as u64,
                            final(self).detail_cache()@[entry_id as u64],
                        )
                        &&& final(self).detail_cache()@[entry_id as u64].fetched_at == now
                        &&& final(self).details_at(entry_id, now) is Some
                    }
                },
                Fetch::Contents { ino, .. } => {
                    &&& final(self).listings() == old(self).listings()
                    &&& final(self).detail_cache() == old(self).detail_cache()
                    &&& r is Ok ==> {
                        &&& final(self).contents()@ == stored(
                            old(self).contents()@,
                            ATTACHMENT_SLOTS as nat,
                            ino,
                            final(self).contents()@.last().1,
                        )
                        &&& value_of(final(self).contents()@, ino) is Some
                    }
                },
            },
    {
        match fetch {
            Fetch::Listing => {
                let fetched = self.client.get_inbox_listing();
                let ghost answer = fetched;
                proof {
                    if fetched is Err {
                        lemma_message_is_remote(fetched->Err_0@);
                    }
                }
                let done = self.absorb_listing(fetched, now);
                assert(old(self).listing_absorbed(*self, answer, now, done));
                done
            },
            Fetch::Details { entry_id, item_key } => {
                let fetched = self.client.get_item_details(item_key.as_str());
                let ghost answer = fetched;
                proof {
                    if fetched is Err {
                        lemma_message_is_remote(fetched->Err_0@);
                    }
                }
                let done = self.absorb_details(entry_id, fetched, now);
                assert(old(self).details_absorbed(*self, entry_id, answer, now, done));
                done
            },
            Fetch::Contents { ino, item_key, attachment_key } => {
                let fetched = self.client.download_attachment(
                    item_key.as_str(),
                    attachment_key.as_str(),
                );
                let ghost answer = fetched;
                proof {
                    if fetched is Ok {
                        lemma_stored_is_resident(
                            self.attachment_cache@,
                            ATTACHMENT_SLOTS as nat,
                            ino,
                            fetched->Ok_0,
                        );
                    } else {
                        lemma_message_is_remote(fetched->Err_0@);
                    }
                }
                let done = self.absorb_contents(ino, fetched);
                assert(old(self).contents_absorbed(*self, ino, answer, done));
                done
            },
        }
    }

    /// Fetches the listing unless the cache has one that is fresh at `now`.
    fn refresh_listing(&mut self, now: i64) -> (r: Result<(), FsError>)
        requires
            old(self).wf(),
        ensures
            final(self).wf(),
            final(self).detail_cache() == old(self).detail_cache(),
            final(self).contents() == old(self).contents(),
            explained(r),
            refreshed(old(self).listings(), final(self).listings(), now),
            old(self).listing_at(now) is Some ==> *final(self) == *old(self) && r is Ok,
            old(self).listing_resolved(*final(self), now, r),
            match r {
                Ok(_) => final(self).listing_at(now) is Some,
                Err(e) => {
                    &&& e is InternalError
                    &&& old(self).listing_at(now) is None
                    &&& final(self).listings() == old(self).listings()
                },
            },
    {
        match self.pending_fetch(Need::Listing, now) {
            None => Ok(()),
            Some(fetch) => self.perform(fetch, now),
        }
    }

    /// Resolves message number `entry_id` through the listing and fetches its
    /// details unless the cache has them fresh at `now`.
    fn refresh_details(&mut self, entry_id: u32, now: i64) -> (r: Result<(), FsError>)
        requires
            old(self).wf(),
        ensures
            final(self).wf(),
            final(self).contents() == old(self).contents(),
            explained(r),
            refreshed(old(self).listings(), final(self).listings(), now),
            refreshed(old(self).detail_cache(), final(self).detail_cache(), now),
            old(self).cached_details(entry_id, now) is Some ==> *final(self) == *old(self),
            old(self).details_resolved(*final(self), entry_id, now, remote_failure(r)),
            match r {
                Ok(_) => final(self).cached_details(entry_id, now) matches Some(Ok(_)),
                Err(e) => if e is InternalError {
                    old(self).cached_details(entry_id, now) is None
                } else {
                    final(self).cached_details(entry_id, now) == Some(
                        Err::<ItemDetails, FsErrorView>(e@),
                    )
                },
            },
    {
        let first = self.refresh_listing(now);
        let ghost mid = *self;
        match first {
            Err(e) => {
                assert(mid.details_step(mid, entry_id, now, first, Err(e)));
                return Err(e);
            },
            Ok(_) => {},
        }
        let r = match self.pending_fetch(Need::Details { entry_id }, now) {
            Some(fetch) => self.perform(fetch, now),
            None => match self.inbox_cache.lookup(LISTING_KEY, now) {
                Some(listing) => match listing.entry_by_id(entry_id) {
                    Some(_) => Ok(()),
                    None => Err(FsError::NotFound),
                },
                None => vstd::pervasive::unreached(),
            },
        };
        assert(mid.details_step(*self, entry_id, now, first, remote_failure(r)));
        r
    }

    /// The node that `name` names in the directory at `parent`. In the root
    /// the name is searched among the directory names of the messages, in the
    /// directory of a message among the file names of its attachments; an
    /// attachment has no children. A name that is not there is `NotFound`.
    pub fn lookup(&mut self, parent: u64, name: &str, now: i64) -> (r: Result<Inode, FsError>)
        requires
            old(self).wf(),
        ensures
            final(self).wf(),
            final(self).contents() == old(self).contents(),
            explained(r),
            old(self).resolved(*final(self), spec_need_of_directory(parent), now, remote_failure(r)),
            refreshed(old(self).listings(), final(self).listings(), now),
            refreshed(old(self).detail_cache(), final(self).detail_cache(), now),
            old(self).cached_lookup(parent, name@, now) is Some ==> *final(self) == *old(self),
            answers(
                old(self).cached_lookup(parent, name@, now),
                final(self).cached_lookup(parent, name@, now),
                outcome(r),
            ),
    {
        match Inode::locate(parent) {
            Location::Root => {
                self.refresh_listing(now)?;
                match self.inbox_cache.lookup(LISTING_KEY, now) {
                    Some(listing) => match listing.lookup_name(name) {
                        Some(node) => Ok(node),
                        None => Err(FsError::NotFound),
                    },
                    None => vstd::pervasive::unreached(),
                }
            },
            Location::InboxEntry { entry_id } => {
                self.refresh_details(entry_id, now)?;
                match self.details_cache.lookup(entry_id as u64, now) {
                    Some(d) => match d.lookup_name(entry_id, name) {
                        Some(node) => Ok(node),
                        None => Err(FsError::NotFound),
                    },
                    None => vstd::pervasive::unreached(),
                }
            },
            Location::Attachment { .. } => Err(FsError::IsNotDir),
        }
    }

    /// The node at `ino`: the mount point, a message of the listing, or an
    /// attachment with the size that the details of its message record.
    fn node(&mut self, ino: u64, now: i64) -> (r: Result<Inode, FsError>)
        requires
            old(self).wf(),
        ensures
            final(self).wf(),
            final(self).contents() == old(self).contents(),
            explained(r),
            old(self).resolved(*final(self), spec_need_of_node(ino), now, remote_failure(r)),
            refreshed(old(self).listings(), final(self).listings(), now),
            refreshed(old(self).detail_cache(), final(self).detail_cache(), now),
            old(self).cached_node(ino, now) is Some ==> *final(self) == *old(self),
            answers(
                old(self).cached_node(ino, now),
                final(self).cached_node(ino, now),
                outcome(r),
            ),
    {
        match Inode::locate(ino) {
            Location::Root => Ok(Inode::Root),
            Location::InboxEntry { entry_id } => {
                self.refresh_listing(now)?;
                match self.inbox_cache.lookup(LISTING_KEY, now) {
                    Some(listing) => match listing.entry_by_id(entry_id) {
                        Some(_) => Ok(Inode::InboxEntry { entry_id }),
                        None => Err(FsError::NotFound),
                    },
                    None => vstd::pervasive::unreached(),
                }
            },
            Location::Attachment { entry_id, attachment_id } => {
                self.refresh_details(entry_id, now)?;
                match self.details_cache.lookup(entry_id as u64, now) {
                    Some(d) => {
                        if (attachment_id as usize) < d.listed() {
                            Ok(d.node(entry_id, attachment_id as usize))
                        } else {
                            Err(FsError::NotFound)
                        }
                    },
                    None => vstd::pervasive::unreached(),
                }
            },
        }
    }

    /// The attributes of the node at `ino`. The mount point and a message are
    /// directories of size zero; an attachment is a regular file whose size
    /// comes from the details of its message, without a download.
    pub fn getattr(&mut self, ino: u64, now: i64) -> (r: Result<Attributes, FsError>)
        requires
            old(self).wf(),
        ensures
            final(self).wf(),
            final(self).contents() == old(self).contents(),
            explained(r),
            old(self).resolved(*final(self), spec_need_of_node(ino), now, remote_failure(r)),
            refreshed(old(self).listings(), final(self).listings(), now),
            refreshed(old(self).detail_cache(), final(self).detail_cache(), now),
            old(self).cached_getattr(ino, now) is Some ==> *final(self) == *old(self),
            answers(
                old(self).cached_getattr(ino, now),
                final(self).cached_getattr(ino, now),
                outcome(r),
            ),
            spec_locate(ino) is Root ==> r == Ok::<Attributes, FsError>(Inode::Root.spec_attr()),
    {
        match self.node(ino, now) {
            Ok(node) => Ok(node.attr()),
            Err(e) => Err(e),
        }
    }

    /// The lines of the directory at `ino` from position `offset` on. The
    /// root has one line per message, in the order of the sequence numbers; a
    /// message has one line per attachment, in the order of the attachments;
    /// an attachment is no directory. Line `i` of the answer stands at
    /// position `offset + i`, so a caller resumes after it at `offset + i + 1`.
    pub fn readdir(&mut self, ino: u64, offset: u64, now: i64) -> (r: Result<
        Vec<DirEntry>,
        FsError,
    >)
        requires
            old(self).wf(),
        ensures
            final(self).wf(),
            final(self).contents() == old(self).contents(),
            explained(r),
            old(self).resolved(*final(self), spec_need_of_directory(ino), now, remote_failure(r)),
            refreshed(old(self).listings(), final(self).listings(), now),
            refreshed(old(self).detail_cache(), final(self).detail_cache(), now),
            old(self).cached_readdir(ino, offset, now) is Some ==> *final(self) == *old(self),
            answers(
                old(self).cached_readdir(ino, offset, now),
                final(self).cached_readdir(ino, offset, now),
                lines_outcome(r),
            ),
    {
        match Inode::locate(ino) {
            Location::Root => {
                self.refresh_listing(now)?;
                match self.inbox_cache.lookup(LISTING_KEY, now) {
                    Some(listing) => Ok(listing.dir_entries(offset)),
                    None => vstd::pervasive::unreached(),
                }
            },
            Location::InboxEntry { entry_id } => {
                self.refresh_details(entry_id, now)?;
                match self.details_cache.lookup(entry_id as u64, now) {
                    Some(d) => Ok(d.dir_entries(entry_id, offset)),
                    None => vstd::pervasive::unreached(),
                }
            },
            Location::Attachment { .. } => Err(FsError::IsNotDir),
        }
    }

    /// A part of the bytes of the attachment at `ino`. An inline body is used
    /// as it is; otherwise the bytes are downloaded unless they are resident,
    /// and stay resident afterwards.
    fn contents_cut(&mut self, ino: u64, offset: u64, count: Option<u32>, now: i64) -> (r: Result<
        Vec<u8>,
        FsError,
    >)
        requires
            old(self).wf(),
        ensures
            final(self).wf(),
            explained(r),
            old(self).contents_resolved(*final(self), ino, now, remote_failure(r)),
            refreshed(old(self).listings(), final(self).listings(), now),
            refreshed(old(self).detail_cache(), final(self).detail_cache(), now),
            old(self).cached_cut(ino, offset, count, now) is Some ==> {
                &&& final(self).spec_client() == old(self).spec_client()
                &&& final(self).listings() == old(self).listings()
                &&& final(self).detail_cache() == old(self).detail_cache()
                &&& final(self).contents()@ == if old(self).is_downloaded(ino, now) {
                    touched(old(self).contents()@, ino)
                } else {
                    old(self).contents()@
                }
            },
            answers(
                old(self).cached_cut(ino, offset, count, now),
                final(self).cached_cut(ino, offset, count, now),
                bytes_outcome(r),
            ),
            ({
                ||| final(self).contents()@ == old(self).contents()@
                ||| final(self).contents()@ == touched(old(self).contents()@, ino)
                ||| final(self).contents()@ == stored(
                    old(self).contents()@,
                    ATTACHMENT_SLOTS as nat,
                    ino,
                    final(self).contents()@.last().1,
                )
            }),
    {
        match Inode::locate(ino) {
            Location::Attachment { entry_id, attachment_id } => {
                let second = self.refresh_details(entry_id, now);
                let ghost mid = *self;
                let ghost made_sure = remote_failure(second);
                match second {
                    Err(e) => {
                        assert(mid.contents_step(mid, ino, now, made_sure, remote_failure(second)));
                        return Err(e);
                    },
                    Ok(_) => {},
                }
                match self.details_cache.lookup(entry_id as u64, now) {
                    Some(d) => {
                        if attachment_id as usize >= d.listed() {
                            assert(mid.contents_step(mid, ino, now, made_sure, Ok(())));
                            return Err(FsError::NotFound);
                        }
                        let part = &d.parts[attachment_id as usize];
                        match &part.body {
                            Some(body) => {
                                assert(mid.contents_step(mid, ino, now, made_sure, Ok(())));
                                return Ok(cut(body.as_str().as_bytes(), offset, count));
                            },
                            None => {
                                if part.key.is_none() {
                                    assert(mid.contents_step(mid, ino, now, made_sure, Ok(())));
                                    return Err(FsError::Invalid);
                                }
                            },
                        }
                    },
                    None => vstd::pervasive::unreached(),
                }
                let ghost resident = self.attachment_cache@;
                match self.pending_fetch(Need::Contents { ino }, now) {
                    None => {
                        proof {
                            lemma_touched_keeps_values(resident, ino, ino);
                        }
                        let taken: Vec<u8> = match self.attachment_cache.get(ino) {
                            Some(bytes) => cut(bytes.as_slice(), offset, count),
                            None => vstd::pervasive::unreached(),
                        };
                        assert(mid.contents_step(*self, ino, now, made_sure, Ok(())));
                        Ok(taken)
                    },
                    Some(fetch) => {
                        let fetched = self.perform(fetch, now);
                        assert(mid.contents_step(*self, ino, now, made_sure, fetched));
                        match fetched {
                            Err(e) => {
                                return Err(e);
                            },
                            Ok(_) => {},
                        }
                        proof {
                            lemma_stored_is_resident(
                                resident,
                                ATTACHMENT_SLOTS as nat,
                                ino,
                                self.attachment_cache@.last().1,
                            );
                        }
                        match self.attachment_cache.peek(ino) {
                            Some(bytes) => Ok(cut(bytes.as_slice(), offset, count)),
                            None => vstd::pervasive::unreached(),
                        }
                    },
                }
            },
            _ => Err(FsError::IsDir),
        }
    }

    /// The bytes of the attachment at `ino` from `offset` on, at most `count`
    /// of them. An inline body is used as it is; otherwise the bytes are
    /// downloaded unless they are resident, and stay resident afterwards. An
    /// offset at or past the end gives no bytes and is no error; a read of a
    /// directory is `IsDir`; an attachment with neither body nor key is
    /// `Invalid`.
    pub fn read(&mut self, ino: u64, offset: u64, count: u32, now: i64) -> (r: Result<
        Vec<u8>,
        FsError,
    >)
        requires
            old(self).wf(),
        ensures
            final(self).wf(),
            explained(r),
            old(self).resolved(*final(self), spec_need_of_bytes(ino), now, remote_failure(r)),
            refreshed(old(self).listings(), final(self).listings(), now),
            refreshed(old(self).detail_cache(), final(self).detail_cache(), now),
            old(self).cached_read(ino, offset, count, now) is Some ==> {
                &&& final(self).spec_client() == old(self).spec_client()
                &&& final(self).listings() == old(self).listings()
                &&& final(self).detail_cache() == old(self).detail_cache()
                &&& final(self).contents()@ == if old(self).is_downloaded(ino, now) {
                    touched(old(self).contents()@, ino)
                } else {
                    old(self).contents()@
                }
            },
            answers(
                old(self).cached_read(ino, offset, count, now),
                final(self).cached_read(ino, offset, count, now),
                bytes_outcome(r),
            ),
            ({
                ||| final(self).contents()@ == old(self).contents()@
                ||| final(self).contents()@ == touched(old(self).contents()@, ino)
                ||| final(self).contents()@ == stored(
                    old(self).contents()@,
                    ATTACHMENT_SLOTS as nat,
                    ino,
                    final(self).contents()@.last().1,
                )
            }),
    {
        self.contents_cut(ino, offset, Some(count), now)
    }

    /// Message number `entry_id` of the listing, which is fetched unless a
    /// fresh one is cached. A number that the listing does not have is
    /// `NotFound`.
    pub fn inbox_entry(&mut self, entry_id: u32, now: i64) -> (r: Result<InboxEntry, FsError>)
        requires
            old(self).wf(),
        ensures
            final(self).wf(),
            final(self).detail_cache() == old(self).detail_cache(),
            final(self).contents() == old(self).contents(),
            explained(r),
            old(self).resolved(*final(self), Need::Listing, now, remote_failure(r)),
            refreshed(old(self).listings(), final(self).listings(), now),
            old(self).cached_entry(entry_id, now) is Some ==> *final(self) == *old(self),
            match r {
                Ok(entry) => final(self).cached_entry(entry_id, now) matches Some(Ok(cached))
                    && same_entry(entry, cached),
                Err(e) => if e is InternalError {
                    old(self).cached_entry(entry_id, now) is None
                } else {
                    final(self).cached_entry(entry_id, now) == Some(
                        Err::<InboxEntry, FsErrorView>(e@),
                    )
                },
            },
    {
        self.refresh_listing(now)?;
        match self.inbox_cache.lookup(LISTING_KEY, now) {
            Some(listing) => match listing.entry_by_id(entry_id) {
                Some(e) => Ok(e.clone()),
                None => Err(FsError::NotFound),
            },
            None => vstd::pervasive::unreached(),
        }
    }

    /// The details of message number `entry_id`. The message is resolved
    /// through the listing; its details are fetched unless fresh ones are
    /// cached.
    pub fn details(&mut self, entry_id: u32, now: i64) -> (r: Result<ItemDetails, FsError>)
        requires
            old(self).wf(),
        ensures
            final(self).wf(),
            final(self).contents() == old(self).contents(),
            explained(r),
            old(self).resolved(*final(self), Need::Details { entry_id }, now, remote_failure(r)),
            refreshed(old(self).listings(), final(self).listings(), now),
            refreshed(old(self).detail_cache(), final(self).detail_cache(), now),
            old(self).cached_details(entry_id, now) is Some ==> *final(self) == *old(self),
            match r {
                Ok(d) => final(self).cached_details(entry_id, now) matches Some(Ok(c))
                    && same_details(d, c),
                Err(e) => if e is InternalError {
                    old(self).cached_details(entry_id, now) is None
                } else {
                    final(self).cached_details(entry_id, now) == Some(
                        Err::<ItemDetails, FsErrorView>(e@),
                    )
                },
            },
    {
        self.refresh_details(entry_id, now)?;
        match self.details_cache.lookup(entry_id as u64, now) {
            Some(d) => Ok(d.clone()),
            None => vstd::pervasive::unreached(),
        }
    }

    /// Attachment number `attachment_id` of message number `entry_id`, by
    /// position in the details of the message. A position past the last
    /// attachment is `NotFound`.
    pub fn attachment(&mut self, entry_id: u32, attachment_id: u32, now: i64) -> (r: Result<
        Attachment,
        FsError,
    >)
        requires
            old(self).wf(),
        ensures
            final(self).wf(),
            final(self).contents() == old(self).contents(),
            explained(r),
            old(self).resolved(*final(self), Need::Details { entry_id }, now, remote_failure(r)),
            refreshed(old(self).listings(), final(self).listings(), now),
            refreshed(old(self).detail_cache(), final(self).detail_cache(), now),
            old(self).cached_part(entry_id, attachment_id, now) is Some ==> {
                *final(self) == *old(self)
            },
            answers(
                old(self).cached_part(entry_id, attachment_id, now),
                final(self).cached_part(entry_id, attachment_id, now),
                outcome(r),
            ),
    {
        self.refresh_details(entry_id, now)?;
        match self.details_cache.lookup(entry_id as u64, now) {
            Some(d) => {
                if (attachment_id as usize) < d.listed() {
                    Ok(d.parts[attachment_id as usize].clone())
                } else {
                    Err(FsError::NotFound)
                }
            },
            None => vstd::pervasive::unreached(),
        }
    }

    /// All bytes of attachment number `attachment_id` of message number
    /// `entry_id`: the inline body where there is one, else the download, which
    /// is cached. An attachment with neither body nor key is `Invalid`. Ids
    /// above `MAX_ID` name nothing: once the listing, and for an entry id in
    /// range the details, are at hand they are `NotFound`.
    pub fn attachment_contents(&mut self, entry_id: u32, attachment_id: u32, now: i64) -> (r:
        Result<Vec<u8>, FsError>)
        requires
            old(self).wf(),
        ensures
            final(self).wf(),
            explained(r),
            old(self).resolved(
                *final(self),
                if entry_id <= MAX_ID && attachment_id <= MAX_ID {
                    Need::Contents {
                        ino: (Location::Attachment { entry_id, attachment_id }).spec_encode(),
                    }
                } else {
                    Need::Details { entry_id }
                },
                now,
                remote_failure(r),
            ),
            refreshed(old(self).listings(), final(self).listings(), now),
            refreshed(old(self).detail_cache(), final(self).detail_cache(), now),
            entry_id <= MAX_ID && attachment_id <= MAX_ID ==> ({
                let ino = (Location::Attachment { entry_id, attachment_id }).spec_encode();
                &&& answers(
                    old(self).cached_contents(ino, now),
                    final(self).cached_contents(ino, now),
                    bytes_outcome(r),
                )
                &&& old(self).cached_contents(ino, now) is Some ==> {
                    &&& final(self).spec_client() == old(self).spec_client()
                    &&& final(self).listings() == old(self).listings()
                    &&& final(self).detail_cache() == old(self).detail_cache()
                    &&& final(self).contents()@ == if old(self).is_downloaded(ino, now) {
                        touched(old(self).contents()@, ino)
                    } else {
                        old(self).contents()@
                    }
                }
                &&& {
                    ||| final(self).contents()@ == old(self).contents()@
                    ||| final(self).contents()@ == touched(old(self).contents()@, ino)
                    ||| final(self).contents()@ == stored(
                        old(self).contents()@,
                        ATTACHMENT_SLOTS as nat,
                        ino,
                        final(self).contents()@.last().1,
                    )
                }
            }),
            entry_id > MAX_ID || attachment_id > MAX_ID ==> {
                &&& final(self).contents() == old(self).contents()
                &&& old(self).cached_details(entry_id, now) is Some ==> *final(self) == *old(self)
                &&& r matches Err(e) && if e is InternalError {
                    old(self).cached_details(entry_id, now) is None
                } else {
                    e is NotFound
                }
            },
    {
        if entry_id > MAX_ID || attachment_id > MAX_ID {
            self.refresh_details(entry_id, now)?;
            return Err(FsError::NotFound);
        }
        let ino: u64 = (Location::Attachment { entry_id, attachment_id }).encode();
        self.contents_cut(ino, 0, None, now)
    }
}

/// What `readdir` lists, `lookup` finds: for every line that the caches give
/// for the directory at `parent`, from whatever offset, a lookup of the line's
/// name in `parent` at the same instant gives exactly the line's node.
pub proof fn lemma_readdir_lookup_agree<C: Client>(
    fs: KivraFs<C>,
    parent: u64,
    offset: u64,
    now: i64,
    i: int,
)
    requires
        fs.wf(),
        fs.cached_readdir(parent, offset, now) matches Some(Ok(lines)) && 0 <= i < lines.len(),
    ensures
        fs.cached_lookup(parent, fs.cached_readdir(parent, offset, now)->0->Ok_0[i].name, now)
            == Some(
            Ok::<Inode, FsErrorView>(fs.cached_readdir(parent, offset, now)->0->Ok_0[i].inode),
        ),
{
    match spec_locate(parent) {
        Location::Root => {
            let listing = fs.listing_at(now)->0;
            assert(fs.listings()@.contains_key(LISTING_KEY));
            lemma_root_lookup_agrees(listing@, offset + i);
        },
        Location::InboxEntry { entry_id } => {
            let d = fs.cached_details(entry_id, now)->0->Ok_0;
            lemma_entry_lookup_agrees(d, entry_id, offset + i);
        },
        Location::Attachment { .. } => {},
    }
}

/// The caches answer exactly where nothing is pending: an operation asks the
/// remote mailbox if and only if its need has a pending request.
pub proof fn lemma_pending_iff_unanswered<C: Client>(
    fs: KivraFs<C>,
    ino: u64,
    name: Seq<char>,
    offset: u64,
    count: u32,
    now: i64,
)
    ensures
        fs.spec_pending(spec_need_of_directory(ino), now) is None <==> fs.cached_lookup(
            ino,
            name,
            now,
        ) is Some,
        fs.spec_pending(spec_need_of_directory(ino), now) is None <==> fs.cached_readdir(
            ino,
            offset,
            now,
        ) is Some,
        fs.spec_pending(spec_need_of_node(ino), now) is None <==> fs.cached_getattr(ino, now)
            is Some,
        fs.spec_pending(spec_need_of_bytes(ino), now) is None <==> fs.cached_read(
            ino,
            offset,
            count,
            now,
        ) is Some,
{
}

/// Requests come in order and each at most once: what is pending for the
/// bytes of an attachment is first the listing, then the details, then the
/// download, and a request whose answer is cached at `now` is not pending at
/// `now`.
pub proof fn lemma_pending_order<C: Client>(fs: KivraFs<C>, ino: u64, now: i64)
    ensures
        fs.listing_at(now) is None && !(spec_need_of_bytes(ino) is Nothing) ==> fs.spec_pending(
            spec_need_of_bytes(ino),
            now,
        ) == Some(FetchView::Listing),
        fs.listing_at(now) is Some ==> fs.spec_pending(spec_need_of_bytes(ino), now) != Some(
            FetchView::Listing,
        ),
        match spec_locate(ino) {
            Location::Attachment { entry_id, .. } => fs.listing_at(now) is Some && fs.details_at(
                entry_id,
                now,
            ) is Some ==> !(fs.spec_pending(spec_need_of_bytes(ino), now) matches Some(
                FetchView::Details { .. },
            )),
            _ => true,
        },
        value_of(fs.contents()@, ino) is Some ==> !(fs.spec_pending(
            spec_need_of_bytes(ino),
            now,
        ) matches Some(FetchView::Contents { .. })),
{
}

/// Answers are stable while the caches are fresh: at two instants at which
/// the caches can answer without the remote mailbox, they give the same
/// answer to `lookup`, `getattr`, `readdir` and `read`.
pub proof fn lemma_answers_stable<C: Client>(
    fs: KivraFs<C>,
    ino: u64,
    name: Seq<char>,
    offset: u64,
    count: u32,
    t1: i64,
    t2: i64,
)
    ensures
        fs.cached_lookup(ino, name, t1) is Some && fs.cached_lookup(ino, name, t2) is Some
            ==> fs.cached_lookup(ino, name, t1) == fs.cached_lookup(ino, name, t2),
        fs.cached_getattr(ino, t1) is Some && fs.cached_getattr(ino, t2) is Some
            ==> fs.cached_getattr(ino, t1) == fs.cached_getattr(ino, t2),
        fs.cached_readdir(ino, offset, t1) is Some && fs.cached_readdir(ino, offset, t2) is Some
            ==> fs.cached_readdir(ino, offset, t1) == fs.cached_readdir(ino, offset, t2),
        fs.cached_read(ino, offset, count, t1) is Some && fs.cached_read(ino, offset, count, t2)
            is Some ==> fs.cached_read(ino, offset, count, t1) == fs.cached_read(
            ino,
            offset,
            count,
            t2,
        ),
{
}

/// Answers persist while the caches are fresh: what the caches answer at
/// `t0` they answer at every instant `t1` up to which the listing, and the
/// details of the message that `ino` belongs to, stay within their times to
/// live. A second call in that window therefore needs no request.
pub proof fn lemma_answers_persist<C: Client>(
    fs: KivraFs<C>,
    ino: u64,
    name: Seq<char>,
    offset: u64,
    count: u32,
    t0: i64,
    t1: i64,
)
    requires
        fs.wf(),
        fs.listings()@.contains_key(LISTING_KEY) ==> t1 <= fs.listings()@[LISTING_KEY].fetched_at
            + LISTING_TTL_MS,
        forall|k: u64| #[trigger]
            fs.detail_cache()@.contains_key(k) ==> t1 <= fs.detail_cache()@[k].fetched_at
                + DETAILS_TTL_MS,
    ensures
        fs.cached_lookup(ino, name, t0) is Some ==> fs.cached_lookup(ino, name, t1)
            == fs.cached_lookup(ino, name, t0),
        fs.cached_getattr(ino, t0) is Some ==> fs.cached_getattr(ino, t1) == fs.cached_getattr(
            ino,
            t0,
        ),
        fs.cached_readdir(ino, offset, t0) is Some ==> fs.cached_readdir(ino, offset, t1)
            == fs.cached_readdir(ino, offset, t0),
        fs.cached_read(ino, offset, count, t0) is Some ==> fs.cached_read(ino, offset, count, t1)
            == fs.cached_read(ino, offset, count, t0),
{
}

/// The listing expires: once it is older than sixty seconds the caches no
/// longer answer for the root directory, so the next `readdir` or `lookup`
/// there asks the remote mailbox again.
pub proof fn lemma_listing_expires<C: Client>(fs: KivraFs<C>, name: Seq<char>, offset: u64, now: i64)
    requires
        fs.wf(),
        fs.listings()@.contains_key(LISTING_KEY),
        now > fs.listings()@[LISTING_KEY].fetched_at + LISTING_TTL_MS,
    ensures
        fs.listing_at(now) is None,
        fs.cached_readdir(crate::inode::ROOT_INO, offset, now) is None,
        fs.cached_lookup(crate::inode::ROOT_INO, name, now) is None,
{
}

/// The mount point always has attributes: the caches answer `getattr` for
/// it whatever they hold, with a directory of size zero.
pub proof fn lemma_root_always_resolves<C: Client>(fs: KivraFs<C>, now: i64)
    ensures
        fs.cached_getattr(crate::inode::ROOT_INO, now) == Some(
            Ok::<Attributes, FsErrorView>(Inode::Root.spec_attr()),
        ),
        Inode::Root.spec_attr().kind == crate::inode::FileKind::Directory,
        Inode::Root.spec_attr().size == 0,
{
}

} // verus!
