//! One message as text: its head and the names of its attachments.

use crate::model::content::{compose_attachment_name, ItemDetails};
use crate::text::{push_decimal, spec_decimal};
use vstd::prelude::*;
use vstd::string::*;

verus! {

/// The lines for the first `n` attachments: number, colon and file name,
/// indented by two spaces.
pub open spec fn spec_attachment_lines(details: ItemDetails, n: nat) -> Seq<char>
    decreases n,
{
    if n == 0 {
        Seq::empty()
    } else {
        spec_attachment_lines(details, (n - 1) as nat) + "  "@ + spec_decimal((n - 1) as nat)
            + ": "@ + details.spec_name_of(n - 1) + "\n"@
    }
}

/// The text that shows a message: sender, subject, creation time as
/// `created` gives it, and one line per attachment.
pub open spec fn spec_format(details: ItemDetails, created: Seq<char>) -> Seq<char> {
    "Sender:   "@ + details.sender_name@ + "\n"@ + "Subject:  "@ + details.subject@ + "\n"@
        + "Created:  "@ + created + "\n\n"@ + "Attachments:\n"@ + spec_attachment_lines(
        details,
        details.parts@.len(),
    )
}

/// The text that shows a message. `created` is the creation time in the
/// form and the time zone in which it is to be shown.
pub fn format(details: &ItemDetails, created: &str) -> (text: String)
    ensures
        text@ == spec_format(*details, created@),
{
    let mut text: String = String::from_str("Sender:   ");
    text.append(details.sender_name.as_str());
    text.append("\n");
    text.append("Subject:  ");
    text.append(details.subject.as_str());
    text.append("\n");
    text.append("Created:  ");
    text.append(created);
    text.append("\n\n");
    text.append("Attachments:\n");
    let ghost head = text@;
    let stamp: String = details.created_at.to_rfc3339();
    let n: usize = details.parts.len();
    let mut i: usize = 0;
    assert(head + spec_attachment_lines(*details, 0) =~= head);
    while i < n
        invariant
            n == details.parts@.len(),
            i <= n,
            stamp@ == details.created_at.text(),
            text@ == head + spec_attachment_lines(*details, i as nat),
        decreases n - i,
    {
        let name: String = compose_attachment_name(
            stamp.as_str(),
            details.sender_name.as_str(),
            details.subject.as_str(),
            i,
            details.parts[i].content_type.as_str(),
        );
        let ghost before = text@;
        text.append("  ");
        push_decimal(&mut text, i as u64);
        text.append(": ");
        text.append(name.as_str());
        text.append("\n");
        assert(text@ =~= head + (spec_attachment_lines(*details, i as nat) + "  "@ + spec_decimal(
            i as nat,
        ) + ": "@ + details.spec_name_of(i as int) + "\n"@));
        i = i + 1;
    }
    text
}

} // verus!
