//! What the commands share: finding a message and the bytes of an attachment.

use crate::error::Error;
use crate::model::content::{InboxEntry, ItemDetails};
use crate::model::listing::{spec_by_id, InboxListing};
use vstd::prelude::*;
use vstd::string::*;

verus! {

/// Where the bytes of an attachment come from.
#[derive(Debug)]
pub enum ContentSource {
    /// The bytes came with the details of the message.
    Inline(Vec<u8>),
    /// The bytes have to be downloaded under this key.
    Remote(String),
}

/// Where the bytes of attachment number `index` of `details` come from;
/// `None` where the attachment has neither body nor key.
pub open spec fn spec_content_source(details: ItemDetails, index: int) -> Option<
    Result<Seq<u8>, Seq<char>>,
> {
    let part = details.parts@[index];
    match part.body {
        Some(body) => Some(Ok(vstd::utf8::encode_utf8(body@))),
        None => match part.key {
            Some(key) => Some(Err(key@)),
            None => None,
        },
    }
}

/// The entry with sequence number `item_id` of `inbox`. A number that the
/// listing does not have is an error of the user.
pub fn get_entry_by_id(inbox: InboxListing, item_id: u32) -> (found: Result<InboxEntry, Error>)
    ensures
        match spec_by_id(inbox@, item_id) {
            Some(entry) => found == Ok::<InboxEntry, Error>(entry),
            None => found matches Err(Error::UserError(m)) && m@ == "Inbox item does not exist"@,
        },
{
    match inbox.into_entry(item_id) {
        Some(entry) => Ok(entry),
        None => Err(Error::UserError(String::from_str("Inbox item does not exist"))),
    }
}

/// Where the bytes of attachment number `attachment_num` of `details` come
/// from. An inline body is used where there is one, before any key. A
/// number that the message does not have is an error of the user; an
/// attachment with neither body nor key is an error of the program.
pub fn content_source(details: &ItemDetails, attachment_num: u32) -> (source: Result<
    ContentSource,
    Error,
>)
    ensures
        if attachment_num >= details.parts@.len() {
            source matches Err(Error::UserError(m)) && m@
                == "Inbox item has no such attachment number"@
        } else {
            match spec_content_source(*details, attachment_num as int) {
                Some(Ok(bytes)) => source matches Ok(ContentSource::Inline(v)) && v@ == bytes,
                Some(Err(key)) => source matches Ok(ContentSource::Remote(k)) && k@ == key,
                None => source matches Err(Error::AppError(m)) && m@
                    == "Attachment has no attachment key nor inline body"@,
            }
        },
{
    if attachment_num as usize >= details.parts.len() {
        return Err(Error::UserError(String::from_str("Inbox item has no such attachment number")));
    }
    let part = &details.parts[attachment_num as usize];
    match &part.body {
        Some(body) => Ok(ContentSource::Inline(body.as_str().as_bytes_vec())),
        None => match &part.key {
            Some(key) => Ok(ContentSource::Remote(key.clone())),
            None => Err(
                Error::AppError(String::from_str("Attachment has no attachment key nor inline body")),
            ),
        },
    }
}

} // verus!
