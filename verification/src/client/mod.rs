//! The remote mailbox as the driver sees it.

use crate::error::ClientError;
use crate::model::auth::{AuthCode, AuthResponse, AuthStatus, AuthTokenResponse, CodeVerifier};
use crate::model::content::{InboxItem, ItemDetails};
use crate::model::Config;
use vstd::prelude::*;

pub mod mock_client;
pub mod request;

pub use mock_client::MockClient;

verus! {

/// The operations of the remote mailbox.
///
/// Each operation has a predicate that says which outcomes it may have, in
/// the state in which it is called and for the arguments it is given. An
/// implementation that says nothing keeps the default, under which every
/// outcome may occur; callers are verified for every outcome.
pub trait Client {
    /// Whether `get_config` may return `outcome`.
    open spec fn config_outcome(&self, outcome: Result<Config, ClientError>) -> bool {
        true
    }

    /// Whether `start_auth` may return `outcome` for `config`.
    open spec fn start_outcome(
        &self,
        config: Config,
        outcome: Result<(CodeVerifier, AuthResponse), ClientError>,
    ) -> bool {
        true
    }

    /// Whether `check_auth` may return `outcome` for `poll_url`.
    open spec fn check_outcome(
        &self,
        poll_url: Seq<char>,
        outcome: Result<AuthStatus, ClientError>,
    ) -> bool {
        true
    }

    /// Whether `abort_auth` may return `outcome` for `poll_url`.
    open spec fn abort_outcome(&self, poll_url: Seq<char>, outcome: Result<(), ClientError>) -> bool {
        true
    }

    /// Whether `get_auth_token` may return `outcome` for these arguments.
    open spec fn token_outcome(
        &self,
        config: Config,
        auth_code: Seq<char>,
        verifier: Seq<u8>,
        outcome: Result<AuthTokenResponse, ClientError>,
    ) -> bool {
        true
    }

    /// Whether `revoke_auth_token` may return `outcome`.
    open spec fn revoke_outcome(&self, outcome: Result<(), ClientError>) -> bool {
        true
    }

    /// Whether `get_inbox_listing` may return `outcome`.
    open spec fn listing_outcome(&self, outcome: Result<Vec<InboxItem>, ClientError>) -> bool {
        true
    }

    /// Whether `get_item_details` may return `outcome` for `item_key`.
    open spec fn details_outcome(
        &self,
        item_key: Seq<char>,
        outcome: Result<ItemDetails, ClientError>,
    ) -> bool {
        true
    }

    /// Whether `mark_as_read` may return `outcome` for `item_key`.
    open spec fn read_outcome(&self, item_key: Seq<char>, outcome: Result<(), ClientError>) -> bool {
        true
    }

    /// Whether `download_attachment` may return `outcome` for these keys.
    open spec fn download_outcome(
        &self,
        item_key: Seq<char>,
        attachment_key: Seq<char>,
        outcome: Result<Vec<u8>, ClientError>,
    ) -> bool {
        true
    }

    /// Fetches the settings of the login service.
    fn get_config(&self) -> (outcome: Result<Config, ClientError>)
        ensures
            self.config_outcome(outcome),
    ;

    /// Starts a login and returns the secret that belongs to it.
    fn start_auth(&self, config: &Config) -> (outcome: Result<
        (CodeVerifier, AuthResponse),
        ClientError,
    >)
        ensures
            self.start_outcome(*config, outcome),
    ;

    /// Asks how far a login has come.
    fn check_auth(&mut self, poll_url: &str) -> (outcome: Result<AuthStatus, ClientError>)
        ensures
            old(self).check_outcome(poll_url@, outcome),
    ;

    /// Gives up a login.
    fn abort_auth(&self, poll_url: &str) -> (outcome: Result<(), ClientError>)
        ensures
            self.abort_outcome(poll_url@, outcome),
    ;

    /// Redeems a finished login for the tokens of a session.
    fn get_auth_token(&self, config: &Config, auth_code: AuthCode, verifier: CodeVerifier) -> (outcome:
        Result<AuthTokenResponse, ClientError>)
        ensures
            self.token_outcome(*config, auth_code@, verifier@, outcome),
    ;

    /// Ends the session.
    fn revoke_auth_token(&mut self) -> (outcome: Result<(), ClientError>)
        ensures
            old(self).revoke_outcome(outcome),
    ;

    /// Lists the messages of the mailbox, in any order.
    fn get_inbox_listing(&mut self) -> (outcome: Result<Vec<InboxItem>, ClientError>)
        ensures
            old(self).listing_outcome(outcome),
    ;

    /// Fetches the details of the message with the remote key `item_key`.
    fn get_item_details(&mut self, item_key: &str) -> (outcome: Result<ItemDetails, ClientError>)
        ensures
            old(self).details_outcome(item_key@, outcome),
    ;

    /// Marks the message with the remote key `item_key` as read.
    fn mark_as_read(&mut self, item_key: &str) -> (outcome: Result<(), ClientError>)
        ensures
            old(self).read_outcome(item_key@, outcome),
    ;

    /// Downloads the bytes of an attachment.
    fn download_attachment(&mut self, item_key: &str, attachment_key: &str) -> (outcome: Result<
        Vec<u8>,
        ClientError,
    >)
        ensures
            old(self).download_outcome(item_key@, attachment_key@, outcome),
    ;
}

/// A boxed mailbox is the mailbox in the box: each operation hands its
/// arguments on and returns what the mailbox in the box returns.
impl Client for Box<dyn Client> {
    open spec fn config_outcome(&self, outcome: Result<Config, ClientError>) -> bool {
        (**self).config_outcome(outcome)
    }

    open spec fn start_outcome(
        &self,
        config: Config,
        outcome: Result<(CodeVerifier, AuthResponse), ClientError>,
    ) -> bool {
        (**self).start_outcome(config, outcome)
    }

    open spec fn check_outcome(
        &self,
        poll_url: Seq<char>,
        outcome: Result<AuthStatus, ClientError>,
    ) -> bool {
        (**self).check_outcome(poll_url, outcome)
    }

    open spec fn abort_outcome(&self, poll_url: Seq<char>, outcome: Result<(), ClientError>) -> bool {
        (**self).abort_outcome(poll_url, outcome)
    }

    open spec fn token_outcome(
        &self,
        config: Config,
        auth_code: Seq<char>,
        verifier: Seq<u8>,
        outcome: Result<AuthTokenResponse, ClientError>,
    ) -> bool {
        (**self).token_outcome(config, auth_code, verifier, outcome)
    }

    open spec fn revoke_outcome(&self, outcome: Result<(), ClientError>) -> bool {
        (**self).revoke_outcome(outcome)
    }

    open spec fn listing_outcome(&self, outcome: Result<Vec<InboxItem>, ClientError>) -> bool {
        (**self).listing_outcome(outcome)
    }

    open spec fn details_outcome(
        &self,
        item_key: Seq<char>,
        outcome: Result<ItemDetails, ClientError>,
    ) -> bool {
        (**self).details_outcome(item_key, outcome)
    }

    open spec fn read_outcome(&self, item_key: Seq<char>, outcome: Result<(), ClientError>) -> bool {
        (**self).read_outcome(item_key, outcome)
    }

    open spec fn download_outcome(
        &self,
        item_key: Seq<char>,
        attachment_key: Seq<char>,
        outcome: Result<Vec<u8>, ClientError>,
    ) -> bool {
        (**self).download_outcome(item_key, attachment_key, outcome)
    }

    fn get_config(&self) -> Result<Config, ClientError> {
        (**self).get_config()
    }

    fn start_auth(&self, config: &Config) -> Result<(CodeVerifier, AuthResponse), ClientError> {
        (**self).start_auth(config)
    }

    fn check_auth(&mut self, poll_url: &str) -> Result<AuthStatus, ClientError> {
        (**self).check_auth(poll_url)
    }

    fn abort_auth(&self, poll_url: &str) -> Result<(), ClientError> {
        (**self).abort_auth(poll_url)
    }

    fn get_auth_token(
        &self,
        config: &Config,
        auth_code: AuthCode,
        verifier: CodeVerifier,
    ) -> Result<AuthTokenResponse, ClientError> {
        (**self).get_auth_token(config, auth_code, verifier)
    }

    fn revoke_auth_token(&mut self) -> Result<(), ClientError> {
        (**self).revoke_auth_token()
    }

    fn get_inbox_listing(&mut self) -> Result<Vec<InboxItem>, ClientError> {
        (**self).get_inbox_listing()
    }

    fn get_item_details(&mut self, item_key: &str) -> Result<ItemDetails, ClientError> {
        (**self).get_item_details(item_key)
    }

    fn mark_as_read(&mut self, item_key: &str) -> Result<(), ClientError> {
        (**self).mark_as_read(item_key)
    }

    fn download_attachment(&mut self, item_key: &str, attachment_key: &str) -> Result<
        Vec<u8>,
        ClientError,
    > {
        (**self).download_attachment(item_key, attachment_key)
    }
}

} // verus!
