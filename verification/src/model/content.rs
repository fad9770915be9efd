//! Messages, their details and attachments, and the names under which they
//! appear as files.

use crate::error::Error;
use crate::inode::{DirEntry, DirEntryView, Inode, MAX_ID};
use crate::model::Date;
use crate::text::{
    decimal, is_digit, lemma_decimal_digits, lemma_numeral_prefix_unique, lemma_replace_concat,
    lemma_replace_keeps_numeral, path_safe, push_decimal, push_path_safe, push_underscored,
    spec_decimal, str_equal, underscored,
};
use crate::time::Timestamp;
use std::collections::BTreeMap;
use vstd::prelude::*;
use vstd::string::*;

verus! {

/// Remote key of a message.
pub type ContentKey = String;

/// Remote key of a sender.
pub type SenderKey = String;

/// Remote key under which the bytes of an attachment are fetched.
pub type AttachmentKey = String;

/// Remote key of an agreement.
pub type AgreementKey = String;

/// The labels of a message: for each name whether the label is set.
pub type ContentLabels = BTreeMap<String, bool>;

/// An amount of money as a decimal number: `mantissa` divided by ten to the
/// power of `scale`.
#[derive(Clone, Copy, Debug, PartialEq, Eq, Structural)]
pub struct Amount {
    pub mantissa: i128,
    pub scale: u32,
}

/// One message of the remote listing.
#[derive(Debug)]
pub struct InboxItem {
    pub key: ContentKey,
    pub sender: SenderKey,
    pub sender_name: String,
    pub created_at: Timestamp,
    pub subject: String,
    pub status: String,
    pub labels: ContentLabels,
    pub indexed_at: Timestamp,
    pub payable: bool,
    pub amount: Option<Amount>,
    pub input_amount: Option<Amount>,
    pub currency: Option<String>,
    pub payment_status: Option<String>,
    pub pay_date: Option<Date>,
    pub due_date: Option<Date>,
    pub agreement_key: Option<AgreementKey>,
    pub agreement_status: Option<String>,
    pub variable_amount: Option<bool>,
    pub content_type: String,
    pub has_multiple_options: bool,
    pub sender_icon_url: String,
}

/// A message together with its sequence number in the listing.
#[derive(Debug)]
pub struct InboxEntry {
    pub id: u32,
    pub item: InboxItem,
}

/// One file of a message. It has an inline body or a key for a download.
#[derive(Debug)]
pub struct Attachment {
    pub content_type: String,
    pub size: usize,
    pub key: Option<AttachmentKey>,
    pub body: Option<String>,
}

/// What the remote side tells about one message.
#[derive(Debug)]
pub struct ItemDetails {
    pub subject: String,
    pub sender_name: String,
    pub created_at: Timestamp,
    pub parts: Vec<Attachment>,
}

/// A copy of an optional text.
fn clone_text(text: &Option<String>) -> (copy: Option<String>)
    ensures
        copy == *text,
{
    match text {
        Some(t) => Some(t.clone()),
        None => None,
    }
}

/// Whether two messages say the same in every field but the labels.
pub open spec fn same_item(a: InboxItem, b: InboxItem) -> bool {
    &&& a.key == b.key
    &&& a.sender == b.sender
    &&& a.sender_name == b.sender_name
    &&& a.created_at == b.created_at
    &&& a.subject == b.subject
    &&& a.status == b.status
    &&& a.indexed_at == b.indexed_at
    &&& a.payable == b.payable
    &&& a.amount == b.amount
    &&& a.input_amount == b.input_amount
    &&& a.currency == b.currency
    &&& a.payment_status == b.payment_status
    &&& a.pay_date == b.pay_date
    &&& a.due_date == b.due_date
    &&& a.agreement_key == b.agreement_key
    &&& a.agreement_status == b.agreement_status
    &&& a.variable_amount == b.variable_amount
    &&& a.content_type == b.content_type
    &&& a.has_multiple_options == b.has_multiple_options
    &&& a.sender_icon_url == b.sender_icon_url
}

/// Whether two entries have the same sequence number and say the same in
/// every field but the labels.
pub open spec fn same_entry(a: InboxEntry, b: InboxEntry) -> bool {
    a.id == b.id && same_item(a.item, b.item)
}

impl Clone for InboxItem {
    /// A copy: every field but the labels is known to be the same; of the
    /// copy of the labels nothing is known.
    fn clone(&self) -> (copy: Self)
        ensures
            same_item(copy, *self),
    {
        InboxItem {
            key: self.key.clone(),
            sender: self.sender.clone(),
            sender_name: self.sender_name.clone(),
            created_at: self.created_at,
            subject: self.subject.clone(),
            status: self.status.clone(),
            labels: self.labels.clone(),
            indexed_at: self.indexed_at,
            payable: self.payable,
            amount: self.amount,
            input_amount: self.input_amount,
            currency: clone_text(&self.currency),
            payment_status: clone_text(&self.payment_status),
            pay_date: self.pay_date,
            due_date: self.due_date,
            agreement_key: clone_text(&self.agreement_key),
            agreement_status: clone_text(&self.agreement_status),
            variable_amount: self.variable_amount,
            content_type: self.content_type.clone(),
            has_multiple_options: self.has_multiple_options,
            sender_icon_url: self.sender_icon_url.clone(),
        }
    }
}

impl Clone for InboxEntry {
    fn clone(&self) -> (copy: Self)
        ensures
            same_entry(copy, *self),
    {
        InboxEntry { id: self.id, item: self.item.clone() }
    }
}

impl Clone for Attachment {
    fn clone(&self) -> (copy: Self)
        ensures
            copy == *self,
    {
        Attachment {
            content_type: self.content_type.clone(),
            size: self.size,
            key: clone_text(&self.key),
            body: clone_text(&self.body),
        }
    }
}

impl Clone for ItemDetails {
    fn clone(&self) -> (copy: Self)
        ensures
            copy.subject == self.subject,
            copy.sender_name == self.sender_name,
            copy.created_at == self.created_at,
            copy.parts@ == self.parts@,
    {
        let mut parts: Vec<Attachment> = Vec::new();
        let mut i: usize = 0;
        while i < self.parts.len()
            invariant
                i <= self.parts@.len(),
                parts@ == self.parts@.take(i as int),
            decreases self.parts@.len() - i,
        {
            parts.push(self.parts[i].clone());
            assert(parts@ =~= self.parts@.take(i as int + 1));
            i = i + 1;
        }
        assert(parts@ =~= self.parts@);
        ItemDetails {
            subject: self.subject.clone(),
            sender_name: self.sender_name.clone(),
            created_at: self.created_at,
            parts,
        }
    }
}

/// The file extension for a content type.
pub open spec fn spec_extension(content_type: Seq<char>) -> Seq<char> {
    if content_type == "application/pdf"@ {
        "pdf"@
    } else if content_type == "text/html"@ {
        "html"@
    } else {
        "txt"@
    }
}

/// The text that all attachment names of one message start with, before
/// spaces are replaced: time, sender and subject, each followed by a hyphen.
pub open spec fn spec_name_stem(stamp: Seq<char>, sender: Seq<char>, subject: Seq<char>) -> Seq<
    char,
> {
    ((stamp.push('-') + sender).push('-') + subject).push('-')
}

/// The file name of attachment number `index`:
/// `<time>-<sender>-<subject>-<index>.<extension>`, spaces as underscores.
pub open spec fn spec_attachment_name(
    stamp: Seq<char>,
    sender: Seq<char>,
    subject: Seq<char>,
    index: nat,
    content_type: Seq<char>,
) -> Seq<char> {
    underscored(
        (spec_name_stem(stamp, sender, subject) + spec_decimal(index)).push('.') + spec_extension(
            content_type,
        ),
    )
}

/// The directory name of message number `id`: `<id>-<sender>-<subject>` with
/// spaces, path separators and NUL as underscores.
pub open spec fn spec_entry_name(id: nat, sender: Seq<char>, subject: Seq<char>) -> Seq<char> {
    path_safe((spec_decimal(id).push('-') + sender).push('-') + subject)
}

/// The file extension for a content type: `pdf` for `application/pdf`, `html`
/// for `text/html`, `txt` for everything else.
pub fn file_extension(content_type: &str) -> (extension: &'static str)
    ensures
        extension@ == spec_extension(content_type@),
{
    if str_equal(content_type, "application/pdf") {
        "pdf"
    } else if str_equal(content_type, "text/html") {
        "html"
    } else {
        "txt"
    }
}

/// The file name of an attachment from its parts:
/// `<stamp>-<sender>-<subject>-<index>.<extension>`, where the extension
/// follows from `content_type` and every space becomes an underscore.
pub fn compose_attachment_name(
    stamp: &str,
    sender: &str,
    subject: &str,
    index: usize,
    content_type: &str,
) -> (name: String)
    ensures
        name@ == spec_attachment_name(stamp@, sender@, subject@, index as nat, content_type@),
{
    let mut raw: String = String::from_str(stamp);
    raw.push('-');
    raw.append(sender);
    raw.push('-');
    raw.append(subject);
    raw.push('-');
    push_decimal(&mut raw, index as u64);
    raw.push('.');
    raw.append(file_extension(content_type));
    let mut name: String = String::new();
    push_underscored(&mut name, raw.as_str());
    assert(Seq::<char>::empty() + underscored(raw@) =~= underscored(raw@));
    name
}

/// The directory name of a message from its parts: `<id>-<sender>-<subject>`
/// with every space, path separator and NUL replaced by an underscore.
pub fn compose_entry_name(id: u32, sender: &str, subject: &str) -> (name: String)
    ensures
        name@ == spec_entry_name(id as nat, sender@, subject@),
{
    let mut raw: String = decimal(id as u64);
    raw.push('-');
    raw.append(sender);
    raw.push('-');
    raw.append(subject);
    let mut name: String = String::new();
    push_path_safe(&mut name, raw.as_str());
    assert(Seq::<char>::empty() + path_safe(raw@) =~= path_safe(raw@));
    name
}

impl InboxEntry {
    /// The directory name of this message.
    pub open spec fn spec_name(&self) -> Seq<char> {
        spec_entry_name(self.id as nat, self.item.sender_name@, self.item.subject@)
    }

    /// The directory name of this message. It starts with the sequence number,
    /// so no two messages of one listing share a name, and it holds no path
    /// separator.
    pub fn name(&self) -> (name: String)
        ensures
            name@ == self.spec_name(),
    {
        compose_entry_name(self.id, self.item.sender_name.as_str(), self.item.subject.as_str())
    }
}

/// No two attachments of one message share a file name: names made from
/// the same time, sender and subject are equal only for equal indices.
pub proof fn lemma_attachment_names_differ(
    stamp: Seq<char>,
    sender: Seq<char>,
    subject: Seq<char>,
    i: nat,
    j: nat,
    type_i: Seq<char>,
    type_j: Seq<char>,
)
    requires
        spec_attachment_name(stamp, sender, subject, i, type_i) == spec_attachment_name(
            stamp,
            sender,
            subject,
            j,
            type_j,
        ),
    ensures
        i == j,
{
    let stem = spec_name_stem(stamp, sender, subject);
    let space = |c: char| c == ' ';
    let rest_i = seq!['.'] + spec_extension(type_i);
    let rest_j = seq!['.'] + spec_extension(type_j);
    let name_i = spec_attachment_name(stamp, sender, subject, i, type_i);
    let name_j = spec_attachment_name(stamp, sender, subject, j, type_j);
    assert((stem + spec_decimal(i)).push('.') + spec_extension(type_i) =~= stem + (spec_decimal(i)
        + rest_i));
    assert((stem + spec_decimal(j)).push('.') + spec_extension(type_j) =~= stem + (spec_decimal(j)
        + rest_j));
    lemma_replace_concat(stem, spec_decimal(i) + rest_i, space);
    lemma_replace_concat(stem, spec_decimal(j) + rest_j, space);
    lemma_replace_concat(spec_decimal(i), rest_i, space);
    lemma_replace_concat(spec_decimal(j), rest_j, space);
    lemma_replace_keeps_numeral(i, space);
    lemma_replace_keeps_numeral(j, space);
    let head = underscored(stem);
    let tail_i = spec_decimal(i) + underscored(rest_i);
    let tail_j = spec_decimal(j) + underscored(rest_j);
    assert(name_i == head + tail_i);
    assert(name_j == head + tail_j);
    assert(tail_i =~= (head + tail_i).skip(head.len() as int));
    assert(tail_j =~= (head + tail_j).skip(head.len() as int));
    assert(underscored(rest_i)[0] == '.');
    assert(underscored(rest_j)[0] == '.');
    lemma_numeral_prefix_unique(i, j, underscored(rest_i), underscored(rest_j));
}

/// No two messages with different sequence numbers share a directory name.
pub proof fn lemma_entry_names_differ(
    id_a: nat,
    sender_a: Seq<char>,
    subject_a: Seq<char>,
    id_b: nat,
    sender_b: Seq<char>,
    subject_b: Seq<char>,
)
    requires
        spec_entry_name(id_a, sender_a, subject_a) == spec_entry_name(id_b, sender_b, subject_b),
    ensures
        id_a == id_b,
{
    let unsafe_char = |c: char| c == ' ' || c == '/' || c == '\0';
    let rest_a = (seq!['-'] + sender_a).push('-') + subject_a;
    let rest_b = (seq!['-'] + sender_b).push('-') + subject_b;
    assert((spec_decimal(id_a).push('-') + sender_a).push('-') + subject_a =~= spec_decimal(id_a)
        + rest_a);
    assert((spec_decimal(id_b).push('-') + sender_b).push('-') + subject_b =~= spec_decimal(id_b)
        + rest_b);
    lemma_replace_concat(spec_decimal(id_a), rest_a, unsafe_char);
    lemma_replace_concat(spec_decimal(id_b), rest_b, unsafe_char);
    lemma_replace_keeps_numeral(id_a, unsafe_char);
    lemma_replace_keeps_numeral(id_b, unsafe_char);
    assert(path_safe(rest_a)[0] == '-');
    assert(path_safe(rest_b)[0] == '-');
    lemma_numeral_prefix_unique(id_a, id_b, path_safe(rest_a), path_safe(rest_b));
}

/// A directory name holds no path separator and no NUL.
pub proof fn lemma_entry_name_is_path_safe(id: nat, sender: Seq<char>, subject: Seq<char>)
    ensures
        forall|k: int|
            0 <= k < spec_entry_name(id, sender, subject).len() ==> {
                let c = #[trigger] spec_entry_name(id, sender, subject)[k];
                c != '/' && c != '\0'
            },
        spec_entry_name(id, sender, subject).len() >= 3,
        is_digit(spec_entry_name(id, sender, subject)[0]),
{
    lemma_decimal_digits(id);
}

/// The number of attachments that have a place in the tree: all of them,
/// up to the number of attachment ids.
pub open spec fn listed_parts(parts: nat) -> nat {
    if parts <= MAX_ID as nat + 1 {
        parts
    } else {
        MAX_ID as nat + 1
    }
}

impl ItemDetails {
    /// The file name of attachment number `index`.
    pub open spec fn spec_name_of(&self, index: int) -> Seq<char> {
        spec_attachment_name(
            self.created_at.text(),
            self.sender_name@,
            self.subject@,
            index as nat,
            self.parts@[index].content_type@,
        )
    }

    /// The number of attachments that have a place in the tree.
    pub open spec fn spec_listed(&self) -> nat {
        listed_parts(self.parts@.len())
    }

    /// The node of attachment number `index` of message number `entry_id`.
    pub open spec fn spec_node(&self, entry_id: u32, index: int) -> Inode {
        Inode::Attachment {
            entry_id,
            attachment_id: index as u32,
            size: self.parts@[index].size as u64,
        }
    }

    /// The lines of the directory of message number `entry_id`: one per
    /// attachment, in order.
    pub open spec fn spec_lines(&self, entry_id: u32) -> Seq<DirEntryView> {
        Seq::new(
            self.spec_listed(),
            |i: int| DirEntryView { name: self.spec_name_of(i), inode: self.spec_node(entry_id, i) },
        )
    }

    /// Whether some listed attachment has the file name `name`.
    pub open spec fn has_name(&self, name: Seq<char>) -> bool {
        exists|i: int| 0 <= i < self.spec_listed() && #[trigger] self.spec_name_of(i) == name
    }

    /// The number of a listed attachment with the file name `name`, where
    /// there is one.
    pub open spec fn index_of_name(&self, name: Seq<char>) -> int {
        choose|i: int| 0 <= i < self.spec_listed() && #[trigger] self.spec_name_of(i) == name
    }

    /// The node that `name` names in the directory of message number `entry_id`.
    pub open spec fn spec_lookup(&self, entry_id: u32, name: Seq<char>) -> Option<Inode> {
        if self.has_name(name) {
            Some(self.spec_node(entry_id, self.index_of_name(name)))
        } else {
            None
        }
    }

    /// The number of attachments that have a place in the tree.
    pub fn listed(&self) -> (n: usize)
        ensures
            n == self.spec_listed(),
    {
        let n: usize = self.parts.len();
        if n as u64 <= MAX_ID as u64 + 1 {
            n
        } else {
            (MAX_ID as u64 + 1) as usize
        }
    }

    /// The file name of attachment number `index`:
    /// `<created-at>-<sender>-<subject>-<index>.<extension>` with spaces as
    /// underscores. Fails exactly when the message has no such attachment.
    pub fn attachment_name(&self, index: usize) -> (name: Result<String, Error>)
        ensures
            match name {
                Ok(text) => index < self.parts@.len() && text@ == self.spec_name_of(index as int),
                Err(e) => index >= self.parts@.len() && (e matches Error::AppError(m) && m@
                    == "Attachment index out of bounds"@),
            },
    {
        if index >= self.parts.len() {
            return Err(Error::AppError(String::from_str("Attachment index out of bounds")));
        }
        let stamp: String = self.created_at.to_rfc3339();
        Ok(
            compose_attachment_name(
                stamp.as_str(),
                self.sender_name.as_str(),
                self.subject.as_str(),
                index,
                self.parts[index].content_type.as_str(),
            ),
        )
    }

    /// The node of attachment number `index` of message number `entry_id`,
    /// with the size that the message's details record for it.
    pub fn node(&self, entry_id: u32, index: usize) -> (node: Inode)
        requires
            index < self.spec_listed(),
        ensures
            node == self.spec_node(entry_id, index as int),
    {
        Inode::Attachment {
            entry_id,
            attachment_id: index as u32,
            size: self.parts[index].size as u64,
        }
    }

    /// The number of the attachment whose file name is `name`.
    pub fn find_attachment(&self, name: &str) -> (found: Option<usize>)
        ensures
            match found {
                Some(i) => self.has_name(name@) && i == self.index_of_name(name@),
                None => !self.has_name(name@),
            },
    {
        let n: usize = self.listed();
        let stamp: String = self.created_at.to_rfc3339();
        let mut i: usize = 0;
        while i < n
            invariant
                n == self.spec_listed(),
                i <= n,
                stamp@ == self.created_at.text(),
                forall|k: int| 0 <= k < i ==> #[trigger] self.spec_name_of(k) != name@,
            decreases n - i,
        {
            let candidate: String = compose_attachment_name(
                stamp.as_str(),
                self.sender_name.as_str(),
                self.subject.as_str(),
                i,
                self.parts[i].content_type.as_str(),
            );
            if str_equal(candidate.as_str(), name) {
                proof {
                    assert(self.spec_name_of(i as int) == name@);
                    assert(self.has_name(name@));
                    let chosen = self.index_of_name(name@);
                    lemma_attachment_names_differ(
                        self.created_at.text(),
                        self.sender_name@,
                        self.subject@,
                        i as nat,
                        chosen as nat,
                        self.parts@[i as int].content_type@,
                        self.parts@[chosen].content_type@,
                    );
                }
                return Some(i);
            }
            i = i + 1;
        }
        None
    }

    /// The node that `name` names in the directory of message number
    /// `entry_id`; `None` where no attachment has that file name.
    pub fn lookup_name(&self, entry_id: u32, name: &str) -> (found: Option<Inode>)
        ensures
            found == self.spec_lookup(entry_id, name@),
    {
        match self.find_attachment(name) {
            Some(i) => Some(self.node(entry_id, i)),
            None => None,
        }
    }

    /// The lines of the directory of message number `entry_id` from position
    /// `offset` on: one line per attachment, in the order of the attachments.
    pub fn dir_entries(&self, entry_id: u32, offset: u64) -> (lines: Vec<DirEntry>)
        ensures
            crate::inode::lines_view(lines@) == crate::inode::spec_page(
                self.spec_lines(entry_id),
                offset as nat,
            ),
    {
        let n: usize = self.listed();
        let mut lines: Vec<DirEntry> = Vec::new();
        if offset >= n as u64 {
            assert(crate::inode::lines_view(lines@) =~= crate::inode::spec_page(
                self.spec_lines(entry_id),
                offset as nat,
            ));
            return lines;
        }
        let stamp: String = self.created_at.to_rfc3339();
        let start: usize = offset as usize;
        let mut i: usize = start;
        while i < n
            invariant
                n == self.spec_listed(),
                start <= i <= n,
                stamp@ == self.created_at.text(),
                lines@.len() == i - start,
                forall|k: int|
                    0 <= k < lines@.len() ==> (#[trigger] lines@[k])@ == self.spec_lines(
                        entry_id,
                    )[start + k],
            decreases n - i,
        {
            let name: String = compose_attachment_name(
                stamp.as_str(),
                self.sender_name.as_str(),
                self.subject.as_str(),
                i,
                self.parts[i].content_type.as_str(),
            );
            lines.push(DirEntry { name, inode: self.node(entry_id, i) });
            i = i + 1;
        }
        assert(crate::inode::lines_view(lines@) =~= crate::inode::spec_page(
            self.spec_lines(entry_id),
            offset as nat,
        ));
        lines
    }
}

/// In the directory of a message a name leads back to its node: the node
/// that a lookup finds under the name of line `i` is the node of line `i`.
pub proof fn lemma_entry_lookup_agrees(details: ItemDetails, entry_id: u32, i: int)
    requires
        0 <= i < details.spec_lines(entry_id).len(),
    ensures
        details.spec_lookup(entry_id, details.spec_lines(entry_id)[i].name) == Some(
            details.spec_lines(entry_id)[i].inode,
        ),
{
    let name = details.spec_name_of(i);
    assert(details.has_name(name));
    let chosen = details.index_of_name(name);
    lemma_attachment_names_differ(
        details.created_at.text(),
        details.sender_name@,
        details.subject@,
        i as nat,
        chosen as nat,
        details.parts@[i].content_type@,
        details.parts@[chosen].content_type@,
    );
}

/// The bytes of `data` from `offset` on, at most `count` of them; none where
/// `offset` is at or past the end.
pub open spec fn spec_window(data: Seq<u8>, offset: nat, count: nat) -> Seq<u8> {
    if offset >= data.len() {
        Seq::empty()
    } else if offset + count >= data.len() {
        data.subrange(offset as int, data.len() as int)
    } else {
        data.subrange(offset as int, (offset + count) as int)
    }
}

/// A window is clamped to the content: it is empty from the end on, and
/// where it would reach past the end it holds exactly the bytes that are left.
pub proof fn lemma_window_clamped(data: Seq<u8>, offset: nat, count: nat)
    ensures
        offset >= data.len() ==> spec_window(data, offset, count).len() == 0,
        offset < data.len() && offset + count > data.len() ==> spec_window(
            data,
            offset,
            count,
        ).len() == data.len() - offset,
        offset + count <= data.len() ==> spec_window(data, offset, count).len() == count,
        forall|k: int|
            0 <= k < spec_window(data, offset, count).len() ==> spec_window(data, offset, count)[k]
                == data[offset + k],
{
}

/// The bytes of `data` from `offset` on, at most `count` of them. An offset
/// at or past the end gives no bytes and is no error.
pub fn read_window(data: &[u8], offset: u64, count: u32) -> (bytes: Vec<u8>)
    ensures
        bytes@ == spec_window(data@, offset as nat, count as nat),
{
    let len: usize = data.len();
    let mut bytes: Vec<u8> = Vec::new();
    if offset >= len as u64 {
        return bytes;
    }
    let start: usize = offset as usize;
    let room: usize = len - start;
    let take: usize = if count as u64 >= room as u64 {
        room
    } else {
        count as usize
    };
    let end: usize = start + take;
    let mut i: usize = start;
    while i < end
        invariant
            start <= i <= end <= len,
            len == data@.len(),
            bytes@ == data@.subrange(start as int, i as int),
        decreases end - i,
    {
        bytes.push(data[i]);
        assert(bytes@ =~= data@.subrange(start as int, i as int + 1));
        i = i + 1;
    }
    bytes
}

} // verus!
