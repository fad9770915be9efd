//! The login view: it polls the remote side until the login is complete or
//! the user gives up.

use crate::client::Client;
use crate::error::ClientError;
use crate::model::auth::{AuthCode, AuthResponse, AuthStatus, AuthTokenResponse, CodeVerifier};
use crate::model::Config;
use crate::tui::keymap::KeyCommand;
use crate::tui::{Command, Event};
use vstd::prelude::*;

verus! {

/// Seconds between two polls until the remote side says otherwise.
pub const FIRST_RETRY_AFTER: u32 = 1;

/// The state of a login in progress.
#[derive(Debug)]
pub struct LoginView {
    pub config: Config,
    pub auth_code: AuthCode,
    pub code_verifier: CodeVerifier,
    pub qr_code: String,
    pub next_poll_url: String,
    pub retry_after: u32,
}

impl LoginView {
    /// The state of a login that was just started with these settings, this
    /// secret and this answer of the remote side.
    pub open spec fn started_with(
        config: Config,
        verifier: CodeVerifier,
        started: AuthResponse,
    ) -> LoginView {
        LoginView {
            config,
            auth_code: started.code,
            code_verifier: verifier,
            qr_code: started.qr_code,
            next_poll_url: started.next_poll_url,
            retry_after: FIRST_RETRY_AFTER,
        }
    }

    /// Whether `made` is what starting a login with `client` may give: the
    /// state that follows from settings and an answer that `client` may
    /// return, or a failure that `client` may return for the settings or,
    /// given some settings, for the start.
    pub open spec fn made_with<C: Client>(client: C, made: Result<LoginView, ClientError>) -> bool {
        match made {
            Ok(view) => {
                exists|config: Config, verifier: CodeVerifier, started: AuthResponse|
                    client.config_outcome(Ok(config)) && #[trigger] client.start_outcome(
                        config,
                        Ok((verifier, started)),
                    ) && view == LoginView::started_with(config, verifier, started)
            },
            Err(e) => {
                ||| client.config_outcome(Err(e))
                ||| exists|config: Config|
                    client.config_outcome(Ok(config)) && #[trigger] client.start_outcome(
                        config,
                        Err(e),
                    )
            },
        }
    }

    /// Whether `client` may report a complete login to a poll at the address
    /// of this state.
    pub open spec fn may_complete<C: Client>(self, client: C) -> bool {
        exists|status: AuthStatus| #[trigger]
            client.check_outcome(self.next_poll_url@, Ok(status)) && status.ssn is Some
    }

    /// Whether `client` may return `outcome` when the login of this state
    /// is redeemed: it is asked with the settings, the code and the secret of
    /// the state.
    pub open spec fn redeemed_with<C: Client>(
        self,
        client: C,
        outcome: Result<AuthTokenResponse, ClientError>,
    ) -> bool {
        client.token_outcome(self.config, self.auth_code@, self.code_verifier@, outcome)
    }

    /// Whether `client` may report `status`, which names no user, to a poll
    /// at the address of this state.
    pub open spec fn may_report_pending<C: Client>(self, client: C, status: AuthStatus) -> bool {
        client.check_outcome(self.next_poll_url@, Ok(status)) && status.ssn is None
    }

    /// Whether `post` and `tokens` are what one poll makes of this state,
    /// with a client that is `before` when it is polled and `after` when the
    /// login is redeemed.
    ///
    /// The client is polled at the address of the state. While its report
    /// names no user the state follows the report and nothing is returned.
    /// Once it names the user the login is redeemed with the settings, the
    /// code and the secret of the state; the tokens are returned and the state
    /// stays. A failure of the client, at the poll or at the redeeming, is
    /// handed on and the state stays.
    pub open spec fn polled_with<C: Client>(
        self,
        post: LoginView,
        before: C,
        after: C,
        tokens: Result<Option<AuthTokenResponse>, ClientError>,
    ) -> bool {
        match tokens {
            Ok(None) => {
                exists|status: AuthStatus| #[trigger]
                    self.may_report_pending(before, status) && post == self.absorbed(status)
            },
            Ok(Some(t)) => {
                &&& post == self
                &&& self.may_complete(before)
                &&& self.redeemed_with(after, Ok(t))
            },
            Err(e) => {
                &&& post == self
                &&& {
                    ||| before.check_outcome(self.next_poll_url@, Err(e))
                    ||| {
                        &&& self.may_complete(before)
                        &&& self.redeemed_with(after, Err(e))
                    }
                }
            },
        }
    }

    /// Whether `asked` is what giving the login up with `client` comes to:
    /// the client is asked at the address of this state and gives an answer
    /// that it may give; where that is a failure it is handed on, else the view
    /// is left with nothing.
    pub open spec fn given_up_with<C: Client>(
        self,
        client: C,
        asked: Result<Command<Option<AuthTokenResponse>>, ClientError>,
    ) -> bool {
        exists|answer: Result<(), ClientError>| #[trigger]
            client.abort_outcome(self.next_poll_url@, answer) && match asked {
                Ok(command) => answer is Ok && command == Command::<
                    Option<AuthTokenResponse>,
                >::Return(None),
                Err(e) => answer == Err::<(), ClientError>(e),
            }
    }

    /// Whether `post` and `asked` are what `event` makes of this state, with
    /// a client that is `before` at first and `after` in the end.
    ///
    /// Quit gives the login up at the address of the state and leaves the
    /// view with nothing, unless the client fails. A timeout polls once: while
    /// the login is pending the view waits for as long as the report asks,
    /// and once it is complete the view is left with the tokens. Every other
    /// event waits for as long as the remote side last asked, and asks the
    /// client nothing.
    pub open spec fn updated_with<C: Client>(
        self,
        post: LoginView,
        before: C,
        after: C,
        event: Event,
        asked: Result<Command<Option<AuthTokenResponse>>, ClientError>,
    ) -> bool {
        if event == Event::Key(KeyCommand::Quit) {
            &&& post == self
            &&& after == before
            &&& self.given_up_with(before, asked)
        } else if event is Timeout {
            match asked {
                Ok(Command::AwaitTimeout(secs)) => secs == post.retry_after && self.polled_with(
                    post,
                    before,
                    after,
                    Ok(None),
                ),
                Ok(Command::Return(Some(t))) => self.polled_with(post, before, after, Ok(Some(t))),
                Ok(_) => false,
                Err(e) => self.polled_with(post, before, after, Err(e)),
            }
        } else {
            &&& post == self
            &&& after == before
            &&& asked == Ok::<Command<Option<AuthTokenResponse>>, ClientError>(
                Command::AwaitTimeout(self.retry_after as u64),
            )
        }
    }

    /// The state of a login that was just started.
    pub fn from_started(config: Config, verifier: CodeVerifier, started: AuthResponse) -> (view:
        LoginView)
        ensures
            view == LoginView::started_with(config, verifier, started),
    {
        LoginView {
            config,
            auth_code: started.code,
            code_verifier: verifier,
            qr_code: started.qr_code,
            next_poll_url: started.next_poll_url,
            retry_after: FIRST_RETRY_AFTER,
        }
    }

    /// Starts a login with `client`: fetches the settings, then opens the
    /// exchange with them. The state is made of the settings and of what the
    /// remote side answered; a failure of either step is handed on.
    pub fn make<C: Client>(client: &mut C) -> (made: Result<LoginView, ClientError>)
        ensures
            *final(client) == *old(client),
            LoginView::made_with(*old(client), made),
    {
        let config: Config = match client.get_config() {
            Ok(config) => config,
            Err(e) => {
                return Err(e);
            },
        };
        let (verifier, started) = match client.start_auth(&config) {
            Ok(answer) => answer,
            Err(e) => {
                assert(client.config_outcome(Ok(config)) && client.start_outcome(config, Err(e)));
                return Err(e);
            },
        };
        assert(client.config_outcome(Ok(config)) && client.start_outcome(
            config,
            Ok((verifier, started)),
        ));
        Ok(LoginView::from_started(config, verifier, started))
    }

    /// The state after a report of the remote side: unchanged where the report
    /// names the user; else with the code of the report, and with its address
    /// to poll and its pause between polls where it gives them.
    pub open spec fn absorbed(self, status: AuthStatus) -> LoginView {
        if status.ssn is Some {
            self
        } else {
            LoginView {
                qr_code: status.qr_code,
                next_poll_url: match status.next_poll_url {
                    Some(url) => url,
                    None => self.next_poll_url,
                },
                retry_after: match status.retry_after {
                    Some(secs) => secs,
                    None => self.retry_after,
                },
                ..self
            }
        }
    }

    /// Takes in the state of the login as the remote side reports it. Returns
    /// whether the login is complete, which it is when the report names the
    /// user. While it is not, the code to show is replaced, and so are the
    /// address to poll and the pause between polls where the report gives
    /// them.
    pub fn absorb_status(&mut self, status: AuthStatus) -> (complete: bool)
        ensures
            complete == status.ssn is Some,
            *final(self) == old(self).absorbed(status),
    {
        if status.ssn.is_some() {
            return true;
        }
        self.qr_code = status.qr_code;
        match status.next_poll_url {
            Some(url) => {
                self.next_poll_url = url;
            },
            None => {},
        }
        match status.retry_after {
            Some(secs) => {
                self.retry_after = secs;
            },
            None => {},
        }
        false
    }

    /// Polls the remote side once, at the address of the state. While the
    /// report names no user the login is pending: the state follows the report
    /// and `None` is returned. Once it names the user the login is redeemed,
    /// with the settings, the code and the secret of the state, and the tokens
    /// are returned; the state stays as it was. A failure of the remote side,
    /// at the poll or at the redeeming, is handed on and leaves the state as it
    /// was.
    pub fn check_auth<C: Client>(&mut self, client: &mut C) -> (tokens: Result<
        Option<AuthTokenResponse>,
        ClientError,
    >)
        ensures
            old(self).polled_with(*final(self), *old(client), *final(client), tokens),
    {
        let status: AuthStatus = match client.check_auth(self.next_poll_url.as_str()) {
            Ok(status) => status,
            Err(e) => {
                return Err(e);
            },
        };
        let ghost report = status;
        if self.absorb_status(status) {
            assert(old(client).check_outcome(old(self).next_poll_url@, Ok(report)) && report.ssn
                is Some);
            let verifier: Vec<u8> = vstd::slice::slice_to_vec(self.code_verifier.as_slice());
            match client.get_auth_token(&self.config, self.auth_code.clone(), verifier) {
                Ok(tokens) => Ok(Some(tokens)),
                Err(e) => Err(e),
            }
        } else {
            assert(old(self).may_report_pending(*old(client), report));
            Ok(None)
        }
    }

    /// Handles one event. Quit gives the login up and leaves the view with
    /// nothing; a timeout polls the remote side and leaves the view with the
    /// tokens once the login is complete; everything else waits, for as long
    /// as the remote side last asked.
    pub fn update<C: Client>(&mut self, client: &mut C, event: Event) -> (asked: Result<
        Command<Option<AuthTokenResponse>>,
        ClientError,
    >)
        ensures
            old(self).updated_with(*final(self), *old(client), *final(client), event, asked),
    {
        match event {
            Event::Key(KeyCommand::Quit) => {
                let answer = client.abort_auth(self.next_poll_url.as_str());
                assert(client.abort_outcome(self.next_poll_url@, answer));
                match answer {
                    Ok(_) => Ok(Command::Return(None)),
                    Err(e) => Err(e),
                }
            },
            Event::Timeout => match self.check_auth(client) {
                Ok(None) => Ok(Command::AwaitTimeout(self.retry_after as u64)),
                Ok(Some(tokens)) => Ok(Command::Return(Some(tokens))),
                Err(e) => Err(e),
            },
            _ => Ok(Command::AwaitTimeout(self.retry_after as u64)),
        }
    }
}

} // verus!
