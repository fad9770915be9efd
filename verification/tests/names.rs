use kivinge::error::Error;
use kivinge::inode::{DirEntry, Inode};
use kivinge::model::content::{
    compose_attachment_name, compose_entry_name, file_extension, read_window, Amount, Attachment,
    InboxEntry, InboxItem, ItemDetails,
};
use kivinge::model::Date;
use kivinge::model::listing::InboxListing;
use kivinge::text::{decimal, str_equal};
use kivinge::time::Timestamp;

fn at(secs: i64) -> Timestamp {
    Timestamp::new(secs, 0).unwrap()
}

fn item(key: &str, sender: &str, subject: &str, secs: i64) -> InboxItem {
    InboxItem {
        key: key.to_string(),
        sender: "sender-key".to_string(),
        sender_name: sender.to_string(),
        created_at: at(secs),
        subject: subject.to_string(),
        status: "unread".to_string(),
        labels: [("inbox".to_string(), true)].into_iter().collect(),
        indexed_at: Timestamp::new(secs + 1, 0).unwrap(),
        payable: true,
        amount: Some(Amount { mantissa: 12_345, scale: 2 }),
        input_amount: None,
        currency: Some("SEK".to_string()),
        payment_status: None,
        pay_date: None,
        due_date: Some(Date { year: 2024, month: 6, day: 30 }),
        agreement_key: None,
        agreement_status: None,
        variable_amount: None,
        content_type: "letter".to_string(),
        has_multiple_options: false,
        sender_icon_url: "https://static.example.invalid/s.png".to_string(),
    }
}

fn part(content_type: &str, size: usize) -> Attachment {
    Attachment { content_type: content_type.to_string(), size, key: Some("k".to_string()), body: None }
}

fn details(parts: Vec<Attachment>) -> ItemDetails {
    ItemDetails {
        subject: "Your tax return".to_string(),
        sender_name: "Tax Agency".to_string(),
        created_at: at(1_714_550_400),
        parts,
    }
}

fn names(lines: &[DirEntry]) -> Vec<String> {
    lines.iter().map(|l| l.name.clone()).collect()
}

#[test]
fn decimal_numerals() {
    assert_eq!(decimal(0), "0");
    assert_eq!(decimal(7), "7");
    assert_eq!(decimal(10), "10");
    assert_eq!(decimal(4_294_967_295), "4294967295");
    assert_eq!(decimal(u64::MAX), "18446744073709551615");
}

#[test]
fn texts_compare_by_characters() {
    assert!(str_equal("", ""));
    assert!(str_equal("räksmörgås", "räksmörgås"));
    assert!(!str_equal("a", "A"));
    assert!(!str_equal("a", "ab"));
}

#[test]
fn timestamps_are_written_as_rfc3339() {
    assert_eq!(at(1_714_550_400).to_rfc3339(), "2024-05-01T08:00:00+00:00");
    assert_eq!(at(0).to_rfc3339(), "1970-01-01T00:00:00+00:00");
    assert_eq!(at(-1).to_rfc3339(), "1969-12-31T23:59:59+00:00");
    assert_eq!(
        Timestamp::new(1_700_000_000, 250_000_000).unwrap().to_rfc3339(),
        "2023-11-14T22:13:20.250+00:00"
    );
}

#[test]
fn timestamps_out_of_range_are_refused() {
    assert!(Timestamp::new(i64::MAX, 0).is_none());
    assert!(Timestamp::new(i64::MIN, 0).is_none());
    assert!(Timestamp::new(0, 2_000_000_000).is_none());
    let t = Timestamp::new(12, 34).unwrap();
    assert_eq!((t.secs(), t.nanos()), (12, 34));
}

#[test]
fn timestamps_order_by_seconds_then_nanoseconds() {
    let a = Timestamp::new(10, 5).unwrap();
    let b = Timestamp::new(10, 6).unwrap();
    let c = Timestamp::new(11, 0).unwrap();
    let d = Timestamp::new(-3, 999).unwrap();
    assert!(a.not_after(&a));
    assert!(a.not_after(&b));
    assert!(!b.not_after(&a));
    assert!(b.not_after(&c));
    assert!(!c.not_after(&a));
    assert!(d.not_after(&a));
    assert!(!a.not_after(&d));
}

#[test]
fn extension_follows_content_type() {
    assert_eq!(file_extension("application/pdf"), "pdf");
    assert_eq!(file_extension("text/html"), "html");
    assert_eq!(file_extension("text/plain"), "txt");
    assert_eq!(file_extension(""), "txt");
    assert_eq!(file_extension("Application/PDF"), "txt");
}

#[test]
fn attachment_name_from_parts() {
    assert_eq!(
        compose_attachment_name("2024-05-01T08:00:00+00:00", "Tax Agency", "Your tax return", 3, "application/pdf"),
        "2024-05-01T08:00:00+00:00-Tax_Agency-Your_tax_return-3.pdf"
    );
    assert_eq!(compose_attachment_name("", "", "", 0, "x"), "---0.txt");
    assert_eq!(compose_attachment_name("a b", " ", "c/d", 12, "text/html"), "a_b-_-c/d-12.html");
}

#[test]
fn attachment_name_of_details() {
    let d = details(vec![part("text/html", 10), part("application/pdf", 20), part("image/png", 30)]);
    assert_eq!(
        d.attachment_name(0).unwrap(),
        "2024-05-01T08:00:00+00:00-Tax_Agency-Your_tax_return-0.html"
    );
    assert_eq!(
        d.attachment_name(1).unwrap(),
        "2024-05-01T08:00:00+00:00-Tax_Agency-Your_tax_return-1.pdf"
    );
    assert_eq!(
        d.attachment_name(2).unwrap(),
        "2024-05-01T08:00:00+00:00-Tax_Agency-Your_tax_return-2.txt"
    );
}

#[test]
fn attachment_name_out_of_bounds() {
    let d = details(vec![part("text/html", 10)]);
    match d.attachment_name(1) {
        Err(Error::AppError(m)) => assert_eq!(m, "Attachment index out of bounds"),
        other => panic!("unexpected {:?}", other),
    }
    assert!(details(vec![]).attachment_name(0).is_err());
}

#[test]
fn entry_name_from_parts() {
    assert_eq!(compose_entry_name(1, "Tax Agency", "Your tax return"), "1-Tax_Agency-Your_tax_return");
    assert_eq!(compose_entry_name(42, "a/b", "c\0d e"), "42-a_b-c_d_e");
    assert_eq!(compose_entry_name(0, "", ""), "0--");
    let entry = InboxEntry { id: 7, item: item("k", "Bank", "Statement May", 5) };
    assert_eq!(entry.name(), "7-Bank-Statement_May");
}

#[test]
fn entry_names_hold_no_separator() {
    let name = compose_entry_name(3, "//", "../..//x");
    assert!(!name.contains('/'));
    assert!(!name.contains('\0'));
    assert_ne!(name, ".");
    assert_ne!(name, "..");
}

#[test]
fn listing_sorts_by_creation_and_numbers_from_one() {
    let listing = InboxListing::from_content_specs(vec![
        item("c", "C", "third", 300),
        item("a", "A", "first", 100),
        item("b", "B", "second", 200),
    ]);
    let keys: Vec<(u32, String)> =
        listing.entries().iter().map(|e| (e.id, e.item.key.clone())).collect();
    assert_eq!(
        keys,
        vec![(1, "a".to_string()), (2, "b".to_string()), (3, "c".to_string())]
    );
    assert_eq!(listing.len(), 3);
}

#[test]
fn listing_sort_is_stable() {
    let listing = InboxListing::from_content_specs(vec![
        item("x1", "X", "s", 50),
        item("y", "Y", "s", 10),
        item("x2", "X", "s", 50),
        item("x3", "X", "s", 50),
        item("z", "Z", "s", 10),
    ]);
    let keys: Vec<String> = listing.entries().iter().map(|e| e.item.key.clone()).collect();
    assert_eq!(keys, vec!["y", "z", "x1", "x2", "x3"]);
    let again = InboxListing::from_content_specs(vec![
        item("x1", "X", "s", 50),
        item("y", "Y", "s", 10),
        item("x2", "X", "s", 50),
        item("x3", "X", "s", 50),
        item("z", "Z", "s", 10),
    ]);
    let keys_again: Vec<String> = again.entries().iter().map(|e| e.item.key.clone()).collect();
    assert_eq!(keys, keys_again);
}

#[test]
fn listing_sort_looks_at_nanoseconds() {
    let mut late = item("late", "L", "s", 7);
    late.created_at = Timestamp::new(7, 2).unwrap();
    let mut early = item("early", "E", "s", 7);
    early.created_at = Timestamp::new(7, 1).unwrap();
    let listing = InboxListing::from_content_specs(vec![late, early]);
    let keys: Vec<String> = listing.entries().iter().map(|e| e.item.key.clone()).collect();
    assert_eq!(keys, vec!["early", "late"]);
}

#[test]
fn empty_listing() {
    let listing = InboxListing::from_content_specs(vec![]);
    assert_eq!(listing.len(), 0);
    assert!(listing.entry_by_id(0).is_none());
    assert!(listing.entry_by_id(1).is_none());
    assert!(listing.entry_by_name("1--").is_none());
    assert!(listing.dir_entries(0).is_empty());
}

#[test]
fn listing_finds_by_id_and_by_name() {
    let listing = InboxListing::from_content_specs(vec![
        item("b", "Bank", "Statement", 200),
        item("a", "Tax Agency", "Your tax return", 100),
    ]);
    assert_eq!(listing.entry_by_id(1).map(|e| e.item.key.clone()), Some("a".to_string()));
    assert_eq!(listing.entry_by_id(2).map(|e| e.item.key.clone()), Some("b".to_string()));
    assert!(listing.entry_by_id(0).is_none());
    assert!(listing.entry_by_id(3).is_none());
    assert_eq!(listing.entry_by_name("2-Bank-Statement").map(|e| e.id), Some(2));
    assert_eq!(listing.lookup_name("1-Tax_Agency-Your_tax_return"), Some(Inode::InboxEntry { entry_id: 1 }));
    assert_eq!(listing.lookup_name("1-Tax Agency-Your tax return"), None);
    assert_eq!(listing.lookup_name("3-Bank-Statement"), None);
}

#[test]
fn messages_with_equal_sender_and_subject_have_distinct_names() {
    let listing = InboxListing::from_content_specs(vec![
        item("a", "Bank", "Statement", 1),
        item("b", "Bank", "Statement", 2),
        item("c", "Bank", "Statement", 3),
    ]);
    let lines = listing.dir_entries(0);
    assert_eq!(names(&lines), vec!["1-Bank-Statement", "2-Bank-Statement", "3-Bank-Statement"]);
    for line in &lines {
        assert_eq!(listing.lookup_name(&line.name), Some(line.inode));
    }
}

#[test]
fn root_lines_resume_at_an_offset() {
    let listing = InboxListing::from_content_specs(vec![
        item("a", "A", "s", 1),
        item("b", "B", "s", 2),
        item("c", "C", "s", 3),
    ]);
    let all = names(&listing.dir_entries(0));
    assert_eq!(all, vec!["1-A-s", "2-B-s", "3-C-s"]);
    assert_eq!(names(&listing.dir_entries(1)), all[1..].to_vec());
    assert_eq!(names(&listing.dir_entries(2)), all[2..].to_vec());
    assert!(listing.dir_entries(3).is_empty());
    assert!(listing.dir_entries(u64::MAX).is_empty());
}

#[test]
fn attachment_lines_and_lookup_agree() {
    let d = details(vec![part("text/html", 10), part("application/pdf", 20), part("text/html", 30)]);
    let lines = d.dir_entries(4, 0);
    assert_eq!(lines.len(), 3);
    for (i, line) in lines.iter().enumerate() {
        assert_eq!(line.name, d.attachment_name(i).unwrap());
        assert_eq!(
            line.inode,
            Inode::Attachment { entry_id: 4, attachment_id: i as u32, size: (i as u64 + 1) * 10 }
        );
        assert_eq!(d.lookup_name(4, &line.name), Some(line.inode));
        assert_eq!(d.find_attachment(&line.name), Some(i));
    }
    assert_eq!(d.lookup_name(4, "nothing"), None);
    assert_eq!(names(&d.dir_entries(4, 2)), vec![d.attachment_name(2).unwrap()]);
    assert!(d.dir_entries(4, 3).is_empty());
    assert_eq!(d.listed(), 3);
}

#[test]
fn window_is_clamped_to_the_content() {
    let data = b"hello world";
    assert_eq!(read_window(data, 0, 100), b"hello world".to_vec());
    assert_eq!(read_window(data, 0, 5), b"hello".to_vec());
    assert_eq!(read_window(data, 6, 5), b"world".to_vec());
    assert_eq!(read_window(data, 6, 6), b"world".to_vec());
    assert_eq!(read_window(data, 10, 1), b"d".to_vec());
    assert_eq!(read_window(data, 11, 1), Vec::<u8>::new());
    assert_eq!(read_window(data, 12, 100), Vec::<u8>::new());
    assert_eq!(read_window(data, u64::MAX, u32::MAX), Vec::<u8>::new());
    assert_eq!(read_window(data, 3, 0), Vec::<u8>::new());
    assert_eq!(read_window(data, 4, u32::MAX).len(), 7);
    assert_eq!(read_window(b"", 0, 10), Vec::<u8>::new());
}

#[test]
fn copies_are_equal() {
    let d = details(vec![part("text/html", 10), part("application/pdf", 20)]);
    let copy = d.clone();
    assert_eq!(copy.subject, d.subject);
    assert_eq!(copy.parts.len(), 2);
    assert_eq!(copy.parts[1].content_type, "application/pdf");
    assert_eq!(copy.attachment_name(1).unwrap(), d.attachment_name(1).unwrap());
    let i = item("k", "S", "T", 9);
    let j = i.clone();
    assert_eq!(j.labels, i.labels);
    assert_eq!((j.amount, j.due_date, j.pay_date), (i.amount, i.due_date, i.pay_date));
    assert_eq!(j.indexed_at.secs(), 10);
    assert_eq!((j.currency.as_deref(), j.payable), (Some("SEK"), true));
    assert_eq!(j.sender_icon_url, i.sender_icon_url);
    assert_eq!((j.key, j.sender_name, j.subject), (i.key, i.sender_name, i.subject));
}
