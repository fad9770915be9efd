//! A stand-in for the remote mailbox that answers from fixed data.

use crate::client::request::{is_verifier, random_verifier, VERIFIER_LENGTH};
use crate::client::Client;
use crate::error::ClientError;
use crate::model::auth::{AuthCode, AuthResponse, AuthStatus, AuthTokenResponse, CodeVerifier};
use crate::model::content::{Attachment, InboxItem, ItemDetails};
use crate::model::Config;
use crate::time::{rfc3339_text, Timestamp};
use std::collections::BTreeMap;
use vstd::prelude::*;
use vstd::string::*;

verus! {

/// The number of polls after which a login with the stand-in is complete.
pub const POLLS_UNTIL_LOGIN: u32 = 3;

/// When the later of the two messages was created, and the details that
/// the stand-in has: 1 May 2024, 08:00 UTC, in seconds since the epoch.
pub const LATER_SECS: i64 = 1_714_550_400;

/// When the earlier of the two messages was created: 1 March 2024, 09:00
/// UTC, in seconds since the epoch.
pub const EARLIER_SECS: i64 = 1_709_283_600;

/// A mailbox of two messages that needs no network. A login with it
/// completes on the fourth poll.
#[derive(Debug)]
pub struct MockClient {
    check_auth_calls: u32,
}

/// Whether `outcome` is the failure that a record with an unreadable time
/// gives.
pub open spec fn is_time_failure<T>(outcome: Result<T, ClientError>) -> bool {
    outcome matches Err(ClientError::JsonError(m)) && m@ == "invalid timestamp"@
}

/// Whether `item` is a message of the fixed listing with this key, sender
/// name, subject and time of creation.
pub open spec fn is_fixture_item(
    item: InboxItem,
    key: Seq<char>,
    sender_name: Seq<char>,
    subject: Seq<char>,
    secs: i64,
) -> bool {
    &&& item.key@ == key
    &&& item.sender@ == "15198791822166a7ac2c1f4b2a9d9e1f"@
    &&& item.sender_name@ == sender_name
    &&& item.created_at.spec_secs() == secs
    &&& item.created_at.spec_nanos() == 0
    &&& item.subject@ == subject
    &&& item.status@ == "unread"@
    &&& item.labels@ == Map::<String, bool>::empty()
    &&& item.indexed_at == item.created_at
    &&& !item.payable
    &&& item.amount is None
    &&& item.input_amount is None
    &&& item.currency is None
    &&& item.payment_status is None
    &&& item.pay_date is None
    &&& item.due_date is None
    &&& item.agreement_key is None
    &&& item.agreement_status is None
    &&& item.variable_amount is None
    &&& item.content_type@ == "letter"@
    &&& !item.has_multiple_options
    &&& item.sender_icon_url@ == "https://static.example.invalid/sender.png"@
}

/// Whether `config` holds the fixed settings.
pub open spec fn is_fixture_config(config: Config) -> bool {
    &&& config.company_onboard_complete_oauth_client_id@ == "mock-onboard"@
    &&& config.oauth_endpoint_url@ == "https://accounts.example.invalid/oauth2"@
    &&& config.oauth_default_client_id@ == "mock-client"@
    &&& config.oauth_default_redirect_uri@ == "https://inbox.example.invalid/auth/callback"@
    &&& config.oauth_grant_type@ == "authorization_code"@
    &&& config.oauth_response_type@ == "code"@
}

/// Whether `verifier` and `started` are an answer of the stand-in to a
/// started login: a secret of `VERIFIER_LENGTH` bytes, and the fixed code to
/// show.
pub open spec fn is_fixture_start(verifier: CodeVerifier, started: AuthResponse) -> bool {
    &&& is_verifier(verifier@, VERIFIER_LENGTH as nat)
    &&& started.auto_start_token@ == "mock-auto-start"@
    &&& started.qr_data@.len() == 1
    &&& started.qr_data@[0]@ == "bankid.mock.0.0000"@
    &&& started.qr_code@ == "bankid.mock.0.0000"@
    &&& started.code@ == "mock-code"@
    &&& started.next_poll_url@ == "/v2/oauth2/authorize/mock"@
}

/// Whether `status` is the fixed report on a login after `polls` earlier
/// polls: pending, and naming the user from the poll after
/// `POLLS_UNTIL_LOGIN` on.
pub open spec fn is_fixture_status(status: AuthStatus, polls: u32) -> bool {
    &&& status.status@ == "pending"@
    &&& status.progress_status@ == "outstanding_transaction"@
    &&& status.message_code@ == "rfa1"@
    &&& status.qr_code@ == "bankid.mock.1.0001"@
    &&& status.retry_after == Some(1u32)
    &&& status.next_poll_url matches Some(url) && url@ == "/v2/oauth2/authorize/mock"@
    &&& match status.ssn {
        Some(ssn) => polls >= POLLS_UNTIL_LOGIN && ssn@ == "195208152712"@,
        None => polls < POLLS_UNTIL_LOGIN,
    }
}

/// Whether `tokens` are the fixed tokens.
pub open spec fn is_fixture_tokens(tokens: AuthTokenResponse) -> bool {
    &&& tokens.access_token@ == "mock-access-token"@
    &&& tokens.expires_in == 3600
    &&& tokens.id_token@ == "e30.e30.mock"@
    &&& tokens.scope@ == "openid profile"@
    &&& tokens.token_type@ == "bearer"@
}

/// Whether `details` are the fixed details: one page with an inline body
/// and one document that has to be downloaded.
pub open spec fn is_fixture_details(details: ItemDetails) -> bool {
    &&& details.subject@ == "Slutskattebesked"@
    &&& details.sender_name@ == "Skatteverket"@
    &&& details.created_at.spec_secs() == LATER_SECS
    &&& details.created_at.spec_nanos() == 0
    &&& details.parts@.len() == 2
    &&& details.parts@[0].content_type@ == "text/html"@
    &&& details.parts@[0].size == 19
    &&& details.parts@[0].key is None
    &&& details.parts@[0].body matches Some(body) && body@ == "<p>Hej fran oss</p>"@
    &&& details.parts@[1].content_type@ == "application/pdf"@
    &&& details.parts@[1].size == 5
    &&& details.parts@[1].key matches Some(key) && key@ == "mock-attachment-key"@
    &&& details.parts@[1].body is None
}

/// The bytes of every download: the word `tjena`.
pub open spec fn fixture_bytes() -> Seq<u8> {
    seq![116u8, 106u8, 101u8, 110u8, 97u8]
}

/// What the stand-in answers to a request for the listing: the two fixed
/// messages, the later one first, where both times of creation can be
/// written as text; else the failure of an unreadable time.
pub open spec fn is_fixture_listing(outcome: Result<Vec<InboxItem>, ClientError>) -> bool {
    if rfc3339_text(LATER_SECS, 0) is Some && rfc3339_text(EARLIER_SECS, 0) is Some {
        &&& outcome matches Ok(items)
        &&& items@.len() == 2
        &&& is_fixture_item(
            items@[0],
            "1714550400a1b2c3"@,
            "Skatteverket"@,
            "Slutskattebesked"@,
            LATER_SECS,
        )
        &&& is_fixture_item(
            items@[1],
            "1709283600d4e5f6"@,
            "Kivra"@,
            "Welcome to Kivra"@,
            EARLIER_SECS,
        )
    } else {
        is_time_failure(outcome)
    }
}

/// The instant at `secs` seconds after the epoch; where that instant
/// cannot be written as text, the failure that a record with an unreadable
/// time gives.
fn fixture_time(secs: i64) -> (at: Result<Timestamp, ClientError>)
    ensures
        match rfc3339_text(secs, 0) {
            Some(_) => at matches Ok(t) && t.spec_secs() == secs && t.spec_nanos() == 0,
            None => is_time_failure(at),
        },
{
    match Timestamp::new(secs, 0) {
        Some(t) => Ok(t),
        None => Err(ClientError::JsonError(String::from_str("invalid timestamp"))),
    }
}

/// One message of the fixed listing.
fn fixture_item(key: &str, sender_name: &str, subject: &str, created_at: Timestamp) -> (item:
    InboxItem)
    ensures
        item.created_at == created_at,
        created_at.spec_nanos() == 0 ==> is_fixture_item(
            item,
            key@,
            sender_name@,
            subject@,
            created_at.spec_secs(),
        ),
{
    InboxItem {
        key: String::from_str(key),
        sender: String::from_str("15198791822166a7ac2c1f4b2a9d9e1f"),
        sender_name: String::from_str(sender_name),
        created_at,
        subject: String::from_str(subject),
        status: String::from_str("unread"),
        labels: BTreeMap::new(),
        indexed_at: created_at,
        payable: false,
        amount: None,
        input_amount: None,
        currency: None,
        payment_status: None,
        pay_date: None,
        due_date: None,
        agreement_key: None,
        agreement_status: None,
        variable_amount: None,
        content_type: String::from_str("letter"),
        has_multiple_options: false,
        sender_icon_url: String::from_str("https://static.example.invalid/sender.png"),
    }
}

impl MockClient {
    /// How often the state of a login was asked for.
    pub closed spec fn spec_polls(&self) -> u32 {
        self.check_auth_calls
    }

    /// A stand-in that has not been polled yet.
    pub fn new() -> (client: MockClient)
        ensures
            client.spec_polls() == 0,
    {
        MockClient { check_auth_calls: 0 }
    }

    /// How often the state of a login was asked for.
    pub fn polls(&self) -> (polls: u32)
        ensures
            polls == self.spec_polls(),
    {
        self.check_auth_calls
    }
}

impl Default for MockClient {
    fn default() -> (client: MockClient)
        ensures
            client.spec_polls() == 0,
    {
        MockClient::new()
    }
}

impl Client for MockClient {
    open spec fn config_outcome(&self, outcome: Result<Config, ClientError>) -> bool {
        outcome matches Ok(config) && is_fixture_config(config)
    }

    open spec fn start_outcome(
        &self,
        config: Config,
        outcome: Result<(CodeVerifier, AuthResponse), ClientError>,
    ) -> bool {
        outcome matches Ok(started) && is_fixture_start(started.0, started.1)
    }

    open spec fn check_outcome(
        &self,
        poll_url: Seq<char>,
        outcome: Result<AuthStatus, ClientError>,
    ) -> bool {
        outcome matches Ok(status) && is_fixture_status(status, self.spec_polls())
    }

    open spec fn abort_outcome(&self, poll_url: Seq<char>, outcome: Result<(), ClientError>) -> bool {
        outcome is Ok
    }

    open spec fn token_outcome(
        &self,
        config: Config,
        auth_code: Seq<char>,
        verifier: Seq<u8>,
        outcome: Result<AuthTokenResponse, ClientError>,
    ) -> bool {
        outcome matches Ok(tokens) && is_fixture_tokens(tokens)
    }

    open spec fn revoke_outcome(&self, outcome: Result<(), ClientError>) -> bool {
        outcome is Ok
    }

    open spec fn listing_outcome(&self, outcome: Result<Vec<InboxItem>, ClientError>) -> bool {
        is_fixture_listing(outcome)
    }

    open spec fn details_outcome(
        &self,
        item_key: Seq<char>,
        outcome: Result<ItemDetails, ClientError>,
    ) -> bool {
        if rfc3339_text(LATER_SECS, 0) is Some {
            outcome matches Ok(details) && is_fixture_details(details)
        } else {
            is_time_failure(outcome)
        }
    }

    open spec fn read_outcome(&self, item_key: Seq<char>, outcome: Result<(), ClientError>) -> bool {
        outcome is Ok
    }

    open spec fn download_outcome(
        &self,
        item_key: Seq<char>,
        attachment_key: Seq<char>,
        outcome: Result<Vec<u8>, ClientError>,
    ) -> bool {
        outcome matches Ok(bytes) && bytes@ == fixture_bytes()
    }

    /// The fixed settings.
    fn get_config(&self) -> (config: Result<Config, ClientError>) {
        Ok(
            Config {
                company_onboard_complete_oauth_client_id: String::from_str("mock-onboard"),
                oauth_endpoint_url: String::from_str("https://accounts.example.invalid/oauth2"),
                oauth_default_client_id: String::from_str("mock-client"),
                oauth_default_redirect_uri: String::from_str(
                    "https://inbox.example.invalid/auth/callback",
                ),
                oauth_grant_type: String::from_str("authorization_code"),
                oauth_response_type: String::from_str("code"),
            },
        )
    }

    /// A fresh secret and the fixed answer to a started login, whatever the
    /// settings.
    fn start_auth(&self, _config: &Config) -> (started: Result<
        (CodeVerifier, AuthResponse),
        ClientError,
    >) {
        let verifier: Vec<u8> = random_verifier(VERIFIER_LENGTH);
        let mut qr_data: Vec<String> = Vec::new();
        qr_data.push(String::from_str("bankid.mock.0.0000"));
        Ok(
            (
                verifier,
                AuthResponse {
                    auto_start_token: String::from_str("mock-auto-start"),
                    qr_data,
                    qr_code: String::from_str("bankid.mock.0.0000"),
                    code: String::from_str("mock-code"),
                    next_poll_url: String::from_str("/v2/oauth2/authorize/mock"),
                },
            ),
        )
    }

    /// Counts the poll and reports on the login: pending, and complete from
    /// the poll after `POLLS_UNTIL_LOGIN` on.
    fn check_auth(&mut self, _poll_url: &str) -> (status: Result<AuthStatus, ClientError>)
        ensures
            final(self).spec_polls() == if old(self).spec_polls() < u32::MAX {
                (old(self).spec_polls() + 1) as u32
            } else {
                u32::MAX
            },
    {
        if self.check_auth_calls < u32::MAX {
            self.check_auth_calls = self.check_auth_calls + 1;
        }
        let ssn: Option<String> = if self.check_auth_calls > POLLS_UNTIL_LOGIN {
            Some(String::from_str("195208152712"))
        } else {
            None
        };
        Ok(
            AuthStatus {
                status: String::from_str("pending"),
                progress_status: String::from_str("outstanding_transaction"),
                message_code: String::from_str("rfa1"),
                qr_code: String::from_str("bankid.mock.1.0001"),
                ssn,
                retry_after: Some(1),
                next_poll_url: Some(String::from_str("/v2/oauth2/authorize/mock")),
            },
        )
    }

    fn abort_auth(&self, _poll_url: &str) -> (done: Result<(), ClientError>) {
        Ok(())
    }

    /// The fixed tokens, whatever the code and the secret.
    fn get_auth_token(&self, _config: &Config, _auth_code: AuthCode, _verifier: CodeVerifier) -> (tokens:
        Result<AuthTokenResponse, ClientError>) {
        Ok(
            AuthTokenResponse {
                access_token: String::from_str("mock-access-token"),
                expires_in: 3600,
                id_token: String::from_str("e30.e30.mock"),
                scope: String::from_str("openid profile"),
                token_type: String::from_str("bearer"),
            },
        )
    }

    fn revoke_auth_token(&mut self) -> (done: Result<(), ClientError>)
        ensures
            final(self).spec_polls() == old(self).spec_polls(),
    {
        Ok(())
    }

    /// The two fixed messages, the later one first.
    fn get_inbox_listing(&mut self) -> (listing: Result<Vec<InboxItem>, ClientError>)
        ensures
            final(self).spec_polls() == old(self).spec_polls(),
    {
        let later: Timestamp = fixture_time(LATER_SECS)?;
        let earlier: Timestamp = fixture_time(EARLIER_SECS)?;
        let mut items: Vec<InboxItem> = Vec::new();
        items.push(fixture_item("1714550400a1b2c3", "Skatteverket", "Slutskattebesked", later));
        items.push(fixture_item("1709283600d4e5f6", "Kivra", "Welcome to Kivra", earlier));
        Ok(items)
    }

    /// The fixed details, whatever the key.
    fn get_item_details(&mut self, _item_key: &str) -> (details: Result<ItemDetails, ClientError>)
        ensures
            final(self).spec_polls() == old(self).spec_polls(),
    {
        let created_at: Timestamp = fixture_time(LATER_SECS)?;
        let mut parts: Vec<Attachment> = Vec::new();
        parts.push(
            Attachment {
                content_type: String::from_str("text/html"),
                size: 19,
                key: None,
                body: Some(String::from_str("<p>Hej fran oss</p>")),
            },
        );
        parts.push(
            Attachment {
                content_type: String::from_str("application/pdf"),
                size: 5,
                key: Some(String::from_str("mock-attachment-key")),
                body: None,
            },
        );
        Ok(
            ItemDetails {
                subject: String::from_str("Slutskattebesked"),
                sender_name: String::from_str("Skatteverket"),
                created_at,
                parts,
            },
        )
    }

    fn mark_as_read(&mut self, _item_key: &str) -> (done: Result<(), ClientError>)
        ensures
            final(self).spec_polls() == old(self).spec_polls(),
    {
        Ok(())
    }

    /// The fixed bytes, whatever the keys.
    fn download_attachment(&mut self, _item_key: &str, _attachment_key: &str) -> (bytes: Result<
        Vec<u8>,
        ClientError,
    >)
        ensures
            final(self).spec_polls() == old(self).spec_polls(),
    {
        let mut bytes: Vec<u8> = Vec::new();
        bytes.push(116);
        bytes.push(106);
        bytes.push(101);
        bytes.push(110);
        bytes.push(97);
        assert(bytes@ =~= fixture_bytes());
        Ok(bytes)
    }
}

} // verus!
