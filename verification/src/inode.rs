//! Inode numbers and the places they stand for.
//!
//! A 64-bit inode number carries two 32-bit fields. The high field holds the
//! entry id plus one, the low field the attachment id plus one; a field of
//! zero means "absent". Number `1` is the mount point.

use vstd::prelude::*;

verus! {

/// Largest entry or attachment id that fits a 32-bit field after the offset of one.
pub const MAX_ID: u32 = 0xFFFF_FFFE;

/// The inode number of the mount point.
pub const ROOT_INO: u64 = 1;

/// Width of one field of an inode number, as a multiplier.
pub const FIELD: u64 = 0x1_0000_0000;

/// Allocation unit reported for every file.
pub const BLOCK_SIZE: u32 = 512;

/// A node of the tree, with what is needed to answer a size query.
#[derive(Clone, Copy, Debug, PartialEq, Eq, Structural)]
pub enum Inode {
    Root,
    InboxEntry { entry_id: u32 },
    Attachment { entry_id: u32, attachment_id: u32, size: u64 },
}

/// The place an inode number points at: what the two fields of the number say.
#[derive(Clone, Copy, Debug, PartialEq, Eq, Structural)]
pub enum Location {
    Root,
    InboxEntry { entry_id: u32 },
    Attachment { entry_id: u32, attachment_id: u32 },
}

/// Directory or regular file.
#[derive(Clone, Copy, Debug, PartialEq, Eq, Structural)]
pub enum FileKind {
    Directory,
    RegularFile,
}

/// The attributes reported for an inode. Times are the epoch and are left out.
#[derive(Clone, Copy, Debug, PartialEq, Eq, Structural)]
pub struct Attributes {
    pub ino: u64,
    pub size: u64,
    pub blocks: u64,
    pub kind: FileKind,
    pub perm: u16,
    pub nlink: u32,
    pub uid: u32,
    pub gid: u32,
    pub rdev: u32,
    pub flags: u32,
    pub blksize: u32,
}

/// One line of a directory: a name and the node it names.
#[derive(Debug)]
pub struct DirEntry {
    pub name: String,
    pub inode: Inode,
}

/// A directory line with its name as a sequence of characters.
pub struct DirEntryView {
    pub name: Seq<char>,
    pub inode: Inode,
}

impl View for DirEntry {
    type V = DirEntryView;

    open spec fn view(&self) -> DirEntryView {
        DirEntryView { name: self.name@, inode: self.inode }
    }
}

/// The lines of a directory with their names as sequences of characters.
pub open spec fn lines_view(lines: Seq<DirEntry>) -> Seq<DirEntryView> {
    Seq::new(lines.len(), |i: int| lines[i]@)
}

/// The lines of a directory from position `offset` on; none where `offset`
/// is at or past the end.
pub open spec fn spec_page(lines: Seq<DirEntryView>, offset: nat) -> Seq<DirEntryView> {
    if offset >= lines.len() {
        Seq::empty()
    } else {
        lines.skip(offset as int)
    }
}

/// The high field of an inode number.
pub open spec fn high_field(ino: u64) -> int {
    ino as int / FIELD as int
}

/// The low field of an inode number.
pub open spec fn low_field(ino: u64) -> int {
    ino as int % FIELD as int
}

/// An id as it is stored in a field: plus one, wrapping at the field's width.
pub open spec fn field_of(id: u32) -> int {
    (id as int + 1) % FIELD as int
}

/// The entry id in an inode number, if the high field holds one.
pub open spec fn spec_entry_id_of(ino: u64) -> Option<u32> {
    if high_field(ino) == 0 {
        None
    } else {
        Some((high_field(ino) - 1) as u32)
    }
}

/// The attachment id in an inode number, if the low field holds one.
pub open spec fn spec_attachment_id_of(ino: u64) -> Option<u32> {
    if low_field(ino) == 0 {
        None
    } else {
        Some((low_field(ino) - 1) as u32)
    }
}

/// The place an inode number points at.
pub open spec fn spec_locate(ino: u64) -> Location {
    match (spec_entry_id_of(ino), spec_attachment_id_of(ino)) {
        (None, _) => Location::Root,
        (Some(entry_id), None) => Location::InboxEntry { entry_id },
        (Some(entry_id), Some(attachment_id)) => Location::Attachment { entry_id, attachment_id },
    }
}

/// Number of blocks of `BLOCK_SIZE` bytes needed for `size` bytes.
pub open spec fn spec_blocks(size: u64) -> int {
    (size as int + BLOCK_SIZE as int - 1) / BLOCK_SIZE as int
}

impl Location {
    /// Both ids lie in the range that the two fields can hold.
    pub open spec fn wf(self) -> bool {
        match self {
            Location::Root => true,
            Location::InboxEntry { entry_id } => entry_id <= MAX_ID,
            Location::Attachment { entry_id, attachment_id } => entry_id <= MAX_ID
                && attachment_id <= MAX_ID,
        }
    }

    /// The inode number of this place.
    pub open spec fn spec_encode(self) -> u64 {
        match self {
            Location::Root => ROOT_INO,
            Location::InboxEntry { entry_id } => (field_of(entry_id) * FIELD as int) as u64,
            Location::Attachment { entry_id, attachment_id } => (field_of(entry_id) * FIELD as int
                + field_of(attachment_id)) as u64,
        }
    }

    /// The inode number of this place. Ids above `MAX_ID` wrap to an empty field.
    pub fn encode(&self) -> (ino: u64)
        ensures
            ino == self.spec_encode(),
            self.wf() && !(*self is Root) ==> spec_locate(ino) == *self,
    {
        match *self {
            Location::Root => ROOT_INO,
            Location::InboxEntry { entry_id } => {
                let high: u64 = entry_id.wrapping_add(1) as u64;
                high * FIELD
            },
            Location::Attachment { entry_id, attachment_id } => {
                let high: u64 = entry_id.wrapping_add(1) as u64;
                let low: u64 = attachment_id.wrapping_add(1) as u64;
                high * FIELD + low
            },
        }
    }
}

impl Inode {
    /// Both ids lie in the range that the two fields can hold.
    pub open spec fn wf(self) -> bool {
        self.location().wf()
    }

    /// The place of this node: the node without its size.
    pub open spec fn location(self) -> Location {
        match self {
            Inode::Root => Location::Root,
            Inode::InboxEntry { entry_id } => Location::InboxEntry { entry_id },
            Inode::Attachment { entry_id, attachment_id, size } => Location::Attachment {
                entry_id,
                attachment_id,
            },
        }
    }

    /// The inode number of this node.
    pub open spec fn spec_encode(self) -> u64 {
        self.location().spec_encode()
    }

    /// The attributes of this node.
    pub open spec fn spec_attr(self) -> Attributes {
        let size = match self {
            Inode::Attachment { size, .. } => size,
            _ => 0u64,
        };
        Attributes {
            ino: self.spec_encode(),
            size,
            blocks: spec_blocks(size) as u64,
            kind: if self is Attachment {
                FileKind::RegularFile
            } else {
                FileKind::Directory
            },
            perm: if self is Attachment {
                0o400u16
            } else {
                0o500u16
            },
            nlink: 1,
            uid: 1000,
            gid: 1001,
            rdev: 0,
            flags: 0,
            blksize: BLOCK_SIZE,
        }
    }

    /// The place of this node.
    pub fn place(&self) -> (at: Location)
        ensures
            at == self.location(),
    {
        match *self {
            Inode::Root => Location::Root,
            Inode::InboxEntry { entry_id } => Location::InboxEntry { entry_id },
            Inode::Attachment { entry_id, attachment_id, .. } => Location::Attachment {
                entry_id,
                attachment_id,
            },
        }
    }

    /// The inode number of this node: `1` for the mount point, else the entry id
    /// plus one in the high field and the attachment id plus one in the low field.
    pub fn encode(&self) -> (ino: u64)
        ensures
            ino == self.spec_encode(),
            *self is Root ==> ino == 1,
            self.wf() && !(*self is Root) ==> spec_locate(ino) == self.location(),
    {
        self.place().encode()
    }

    /// The entry id held in the high field of `ino`; `None` exactly when that field is zero.
    pub fn entry_id_of(ino: u64) -> (id: Option<u32>)
        ensures
            id == spec_entry_id_of(ino),
            id is None <==> high_field(ino) == 0,
    {
        let high: u64 = ino / FIELD;
        if high == 0 {
            None
        } else {
            Some((high - 1) as u32)
        }
    }

    /// The attachment id held in the low field of `ino`; `None` exactly when that field is zero.
    pub fn attachment_id_of(ino: u64) -> (id: Option<u32>)
        ensures
            id == spec_attachment_id_of(ino),
            id is None <==> low_field(ino) == 0,
    {
        let low: u64 = ino % FIELD;
        if low == 0 {
            None
        } else {
            Some((low - 1) as u32)
        }
    }

    /// The place that `ino` points at. Every number points somewhere: a zero
    /// high field is the mount point, a zero low field an inbox entry.
    pub fn locate(ino: u64) -> (at: Location)
        ensures
            at == spec_locate(ino),
            at.wf(),
    {
        match Inode::entry_id_of(ino) {
            None => Location::Root,
            Some(entry_id) => match Inode::attachment_id_of(ino) {
                None => Location::InboxEntry { entry_id },
                Some(attachment_id) => Location::Attachment { entry_id, attachment_id },
            },
        }
    }

    /// The attributes of this node: directories are empty and read-and-search
    /// only, an attachment is a read-only file of its recorded size.
    pub fn attr(&self) -> (a: Attributes)
        ensures
            a == self.spec_attr(),
    {
        let (kind, perm, size): (FileKind, u16, u64) = match *self {
            Inode::Root => (FileKind::Directory, 0o500, 0),
            Inode::InboxEntry { .. } => (FileKind::Directory, 0o500, 0),
            Inode::Attachment { size, .. } => (FileKind::RegularFile, 0o400, size),
        };
        let block: u64 = BLOCK_SIZE as u64;
        let blocks: u64 = size / block + (if size % block == 0 {
            0
        } else {
            1
        });
        Attributes {
            ino: self.encode(),
            size,
            blocks,
            kind,
            perm,
            nlink: 1,
            uid: 1000,
            gid: 1001,
            rdev: 0,
            flags: 0,
            blksize: BLOCK_SIZE,
        }
    }
}

/// Encoding then reading back the fields returns the ids: for every entry id
/// and attachment id up to `MAX_ID`, the number of an inbox entry yields its
/// entry id, the number of an attachment yields both of its ids, and the
/// mount point has number `1`.
pub proof fn lemma_codec_round_trip(entry_id: u32, attachment_id: u32, size: u64)
    requires
        entry_id <= MAX_ID,
        attachment_id <= MAX_ID,
    ensures
        spec_entry_id_of((Inode::InboxEntry { entry_id }).spec_encode()) == Some(entry_id),
        spec_attachment_id_of((Inode::InboxEntry { entry_id }).spec_encode()) == None::<u32>,
        spec_entry_id_of((Inode::Attachment { entry_id, attachment_id, size }).spec_encode())
            == Some(entry_id),
        spec_attachment_id_of((Inode::Attachment { entry_id, attachment_id, size }).spec_encode())
            == Some(attachment_id),
        Inode::Root.spec_encode() == 1,
        spec_entry_id_of(Inode::Root.spec_encode()) == None::<u32>,
{
}

/// No two places in range share an inode number.
pub proof fn lemma_encode_injective(a: Location, b: Location)
    requires
        a.wf(),
        b.wf(),
        a.spec_encode() == b.spec_encode(),
    ensures
        a == b,
{
}

/// Every inode number other than those of the mount point is the number of
/// the place it points at.
pub proof fn lemma_locate_then_encode(ino: u64)
    ensures
        spec_locate(ino).wf(),
        !(spec_locate(ino) is Root) ==> spec_locate(ino).spec_encode() == ino,
        spec_locate(ino) is Root <==> ino < FIELD,
{
}

} // verus!
