use kivinge::inode::{Attributes, FileKind, Inode, Location, BLOCK_SIZE, MAX_ID, ROOT_INO};

#[test]
fn root_encodes_to_one() {
    assert_eq!(Inode::Root.encode(), 1);
    assert_eq!(ROOT_INO, 1);
    assert_eq!(Inode::locate(1), Location::Root);
    assert_eq!(Inode::entry_id_of(1), None);
}

#[test]
fn entry_round_trip() {
    for entry_id in [0u32, 1, 2, 77, 0xFFFF_FFFE] {
        let ino = Inode::InboxEntry { entry_id }.encode();
        assert_eq!(Inode::entry_id_of(ino), Some(entry_id));
        assert_eq!(Inode::attachment_id_of(ino), None);
        assert_eq!(Inode::locate(ino), Location::InboxEntry { entry_id });
    }
}

#[test]
fn attachment_round_trip() {
    for entry_id in [0u32, 1, 9, MAX_ID] {
        for attachment_id in [0u32, 1, 41, MAX_ID] {
            let node = Inode::Attachment { entry_id, attachment_id, size: 123 };
            let ino = node.encode();
            assert_eq!(Inode::entry_id_of(ino), Some(entry_id));
            assert_eq!(Inode::attachment_id_of(ino), Some(attachment_id));
            assert_eq!(Inode::locate(ino), Location::Attachment { entry_id, attachment_id });
            assert_eq!(Inode::locate(ino).encode(), ino);
        }
    }
}

#[test]
fn encode_packs_ids_offset_by_one() {
    assert_eq!(Inode::InboxEntry { entry_id: 1 }.encode(), 8_589_934_592);
    assert_eq!(Inode::Attachment { entry_id: 1, attachment_id: 0, size: 0 }.encode(), 8_589_934_593);
    assert_eq!(Inode::Attachment { entry_id: 4, attachment_id: 2, size: 9 }.encode(), 21_474_836_483);
    assert_eq!(Inode::InboxEntry { entry_id: MAX_ID }.encode(), 18_446_744_069_414_584_320);
    assert_eq!(
        Inode::Attachment { entry_id: MAX_ID, attachment_id: MAX_ID, size: 0 }.encode(),
        u64::MAX
    );
}

#[test]
fn size_does_not_change_the_number() {
    let small = Inode::Attachment { entry_id: 3, attachment_id: 5, size: 1 };
    let large = Inode::Attachment { entry_id: 3, attachment_id: 5, size: 1 << 40 };
    assert_eq!(small.encode(), large.encode());
    assert_eq!(small.place(), large.place());
}

#[test]
fn ids_past_the_range_wrap_to_an_empty_field() {
    assert_eq!(Inode::InboxEntry { entry_id: u32::MAX }.encode(), 0);
    assert_eq!(Inode::Attachment { entry_id: 0, attachment_id: u32::MAX, size: 0 }.encode(), 1 << 32);
}

#[test]
fn every_number_points_somewhere() {
    assert_eq!(Inode::locate(0), Location::Root);
    assert_eq!(Inode::locate(2), Location::Root);
    assert_eq!(Inode::locate(0xFFFF_FFFF), Location::Root);
    assert_eq!(Inode::attachment_id_of(1), Some(0));
    assert_eq!(Inode::locate(1 << 32), Location::InboxEntry { entry_id: 0 });
    assert_eq!(
        Inode::locate(u64::MAX),
        Location::Attachment { entry_id: MAX_ID, attachment_id: MAX_ID }
    );
}

#[test]
fn distinct_places_have_distinct_numbers() {
    let places = [
        Location::Root,
        Location::InboxEntry { entry_id: 0 },
        Location::InboxEntry { entry_id: 1 },
        Location::Attachment { entry_id: 0, attachment_id: 0 },
        Location::Attachment { entry_id: 0, attachment_id: 1 },
        Location::Attachment { entry_id: 1, attachment_id: 0 },
    ];
    for (i, a) in places.iter().enumerate() {
        for (j, b) in places.iter().enumerate() {
            assert_eq!(a.encode() == b.encode(), i == j);
        }
    }
}

#[test]
fn directory_attributes() {
    let expected = Attributes {
        ino: 1,
        size: 0,
        blocks: 0,
        kind: FileKind::Directory,
        perm: 0o500,
        nlink: 1,
        uid: 1000,
        gid: 1001,
        rdev: 0,
        flags: 0,
        blksize: 512,
    };
    assert_eq!(Inode::Root.attr(), expected);
    let entry = Inode::InboxEntry { entry_id: 6 }.attr();
    assert_eq!(entry.kind, FileKind::Directory);
    assert_eq!(entry.size, 0);
    assert_eq!(entry.perm, 0o500);
    assert_eq!(entry.ino, 7 << 32);
}

#[test]
fn file_attributes_count_blocks_upwards() {
    assert_eq!(BLOCK_SIZE, 512);
    for (size, blocks) in [(0u64, 0u64), (1, 1), (511, 1), (512, 1), (513, 2), (1024, 2), (1025, 3)] {
        let attr = Inode::Attachment { entry_id: 1, attachment_id: 0, size }.attr();
        assert_eq!(attr.kind, FileKind::RegularFile);
        assert_eq!(attr.perm, 0o400);
        assert_eq!(attr.size, size);
        assert_eq!(attr.blocks, blocks);
        assert_eq!(attr.ino, (2 << 32) + 1);
    }
    let huge = Inode::Attachment { entry_id: 1, attachment_id: 0, size: u64::MAX }.attr();
    assert_eq!(huge.blocks, (u64::MAX / 512) + 1);
}
