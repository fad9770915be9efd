//! The records exchanged with the remote mailbox.

use crate::error::Error;
use vstd::prelude::*;
use vstd::string::*;

pub mod auth;
pub mod content;
pub mod listing;

verus! {

/// Identifier of a user.
pub type UserId = String;

/// What the remote side publishes about its login service.
#[derive(Debug)]
pub struct Config {
    pub company_onboard_complete_oauth_client_id: String,
    pub oauth_endpoint_url: String,
    pub oauth_default_client_id: String,
    pub oauth_default_redirect_uri: String,
    pub oauth_grant_type: String,
    pub oauth_response_type: String,
}

/// The calendar date that a text of the form `%Y-%m-%d` stands for, as
/// `chrono` reads it: year, month and day; `None` where `chrono` refuses
/// the text.
pub uninterp spec fn ymd_parsed(text: Seq<char>) -> Option<(i32, u32, u32)>;

/// `chrono::NaiveDate::parse_from_str` with the format `%Y-%m-%d`, and the
/// year, month and day of the date that it returns. The outcome depends on
/// the text alone, which is all that is claimed here.
#[verifier::external_body]
fn parse_ymd(text: &str) -> (date: Option<(i32, u32, u32)>)
    ensures
        date == ymd_parsed(text@),
{
    match chrono::NaiveDate::parse_from_str(text, "%Y-%m-%d") {
        Ok(d) => Some(
            (chrono::Datelike::year(&d), chrono::Datelike::month(&d), chrono::Datelike::day(&d)),
        ),
        Err(_) => None,
    }
}

/// How many bytes of a date and time are its date.
pub const DATE_LENGTH: usize = 10;

/// A calendar date.
#[derive(Clone, Copy, Debug, PartialEq, Eq, Structural)]
pub struct Date {
    pub year: i32,
    pub month: u32,
    pub day: u32,
}

impl Date {
    /// The text that the first `DATE_LENGTH` bytes of `text` hold, where
    /// `text` has that many bytes and the cut falls between two characters.
    pub open spec fn spec_head(text: Seq<char>) -> Option<Seq<char>> {
        let bytes = vstd::utf8::encode_utf8(text);
        if bytes.len() >= DATE_LENGTH && vstd::utf8::is_char_boundary(bytes, DATE_LENGTH as int) {
            Some(vstd::utf8::decode_utf8(bytes.subrange(0, DATE_LENGTH as int)))
        } else {
            None
        }
    }

    /// The date that `text` starts with, or `None` where it starts with
    /// none: `text` is shorter than `DATE_LENGTH` bytes, or the cut after
    /// these bytes falls inside a character, or what they hold is not read
    /// as year, month and day.
    pub open spec fn spec_parse(text: Seq<char>) -> Option<Date> {
        match Date::spec_head(text) {
            None => None,
            Some(head) => match ymd_parsed(head) {
                Some((year, month, day)) => Some(Date { year, month, day }),
                None => None,
            },
        }
    }

    /// The date at the start of a date and time such as
    /// `2024-05-01T08:00:00Z`: what follows the first ten bytes is dropped,
    /// and what these hold is read as year, month and day. A text of fewer
    /// bytes, or one whose tenth byte does not end a character, holds no
    /// date.
    pub fn parse(text: &str) -> (date: Result<Date, Error>)
        ensures
            match Date::spec_parse(text@) {
                Some(d) => date == Ok::<Date, Error>(d),
                None => date matches Err(Error::AppError(m)) && m@ == "Invalid date"@,
            },
    {
        broadcast use {vstd::utf8::encode_utf8_valid_utf8, vstd::utf8::encode_utf8_decode_utf8};

        if text.as_bytes().len() < DATE_LENGTH || !text.is_char_boundary(DATE_LENGTH) {
            return Err(Error::AppError(String::from_str("Invalid date")));
        }
        let (head, _) = text.split_at(DATE_LENGTH);
        assert(head@ == vstd::utf8::decode_utf8(
            vstd::utf8::encode_utf8(text@).subrange(0, DATE_LENGTH as int),
        )) by {
            assert(head.spec_bytes() == vstd::utf8::encode_utf8(head@));
        }
        match parse_ymd(head) {
            Some((year, month, day)) => Ok(Date { year, month, day }),
            None => Err(Error::AppError(String::from_str("Invalid date"))),
        }
    }
}

} // verus!
