use kivinge::cli::inbox::{flex_width, term_width_or_default};
use kivinge::client::request::{
    authorize_url, config_url, download_url, inbox_url, item_url, poll_url, revoke_url,
    start_request, start_request_with, token_request, token_url, view_url, VERIFIER_LENGTH,
};
use kivinge::client::{Client, MockClient};
use kivinge::error::{ClientError, Error};
use kivinge::fuse::KivraFs;
use kivinge::inode::FileKind;
use kivinge::model::auth::{AuthRequest, AuthStatus, AuthTokenRequest, RevokeRequest};
use kivinge::model::content::{Attachment, ItemDetails};
use kivinge::model::listing::InboxListing;
use kivinge::table::{Table, TableRow};
use kivinge::text::{find_from, push_char_run, push_path_safe, push_underscored};
use kivinge::time::Timestamp;
use kivinge::tui::inbox::InboxView;
use kivinge::tui::inbox_item::{step_down, step_up, ItemView, ItemViewResult};
use kivinge::tui::keymap::{key_command, read_command, Key, KeyCommand};
use kivinge::tui::login::LoginView;
use kivinge::model::Date;
use kivinge::tui::qr::encode;
use kivinge::tui::{Command, Event, TuiView};
use kivinge::util::{content_source, get_entry_by_id, ContentSource};

fn key(k: KeyCommand) -> Event {
    Event::Key(k)
}

#[test]
fn keys_map_to_commands() {
    assert_eq!(key_command(Key::Up), KeyCommand::Up);
    assert_eq!(key_command(Key::Char('k')), KeyCommand::Up);
    assert_eq!(key_command(Key::Char('p')), KeyCommand::Up);
    assert_eq!(key_command(Key::Down), KeyCommand::Down);
    assert_eq!(key_command(Key::Char('j')), KeyCommand::Down);
    assert_eq!(key_command(Key::Char('n')), KeyCommand::Down);
    assert_eq!(key_command(Key::Enter), KeyCommand::Select);
    assert_eq!(key_command(Key::Right), KeyCommand::Select);
    assert_eq!(key_command(Key::Char('l')), KeyCommand::Select);
    assert_eq!(key_command(Key::Char('f')), KeyCommand::Select);
    assert_eq!(key_command(Key::Left), KeyCommand::Back);
    assert_eq!(key_command(Key::Char('h')), KeyCommand::Back);
    assert_eq!(key_command(Key::Char('b')), KeyCommand::Back);
    assert_eq!(key_command(Key::Esc), KeyCommand::Quit);
    assert_eq!(key_command(Key::Char('q')), KeyCommand::Quit);
    assert_eq!(key_command(Key::Char('r')), KeyCommand::Key(Key::Char('r')));
    assert_eq!(key_command(Key::Char('Q')), KeyCommand::Key(Key::Char('Q')));
    assert_eq!(key_command(Key::Tab), KeyCommand::Key(Key::Tab));
    assert_eq!(key_command(Key::Other), KeyCommand::Key(Key::Other));
    assert_eq!(read_command(None), KeyCommand::Unknown);
    assert_eq!(read_command(Some(Key::Esc)), KeyCommand::Quit);
}

#[test]
fn selection_steps_stop_at_the_ends() {
    assert_eq!(step_up(None), 0);
    assert_eq!(step_up(Some(0)), 0);
    assert_eq!(step_up(Some(5)), 4);
    assert_eq!(step_down(None, 3), 1);
    assert_eq!(step_down(Some(1), 3), 2);
    assert_eq!(step_down(Some(2), 3), 2);
    assert_eq!(step_down(Some(0), 0), 0);
    assert_eq!(step_down(Some(0), 1), 0);
    assert_eq!(step_down(Some(usize::MAX), usize::MAX), usize::MAX);
}

#[test]
fn item_view_moves_and_opens() {
    let mut view = ItemView::make(3, false);
    assert_eq!(view.selected, Some(0));
    assert!(matches!(view.update(Event::Init), Ok(Command::AwaitKey)));
    assert!(matches!(view.update(key(KeyCommand::Down)), Ok(Command::AwaitKey)));
    assert!(matches!(view.update(key(KeyCommand::Down)), Ok(Command::AwaitKey)));
    assert!(matches!(view.update(key(KeyCommand::Down)), Ok(Command::AwaitKey)));
    assert_eq!(view.selected, Some(2));
    assert!(matches!(
        view.update(key(KeyCommand::Select)),
        Ok(Command::Return(ItemViewResult::Open(2)))
    ));
    assert!(matches!(view.update(key(KeyCommand::Up)), Ok(Command::AwaitKey)));
    assert_eq!(view.selected, Some(1));
    assert!(matches!(view.update(key(KeyCommand::Quit)), Ok(Command::Return(ItemViewResult::Close))));
    assert!(matches!(view.update(key(KeyCommand::Back)), Ok(Command::Return(ItemViewResult::Close))));
    assert!(matches!(view.update(Event::Timeout), Ok(Command::AwaitKey)));
    assert!(matches!(view.update(key(KeyCommand::Unknown)), Ok(Command::AwaitKey)));
}

#[test]
fn item_view_marks_read() {
    let mut view = ItemView::make(1, false);
    assert!(matches!(
        view.update(key(KeyCommand::Key(Key::Char('r')))),
        Ok(Command::Return(ItemViewResult::MarkRead))
    ));
    assert!(view.read);
    assert!(matches!(view.update(key(KeyCommand::Key(Key::Char('x')))), Ok(Command::AwaitKey)));
}

#[test]
fn item_view_without_attachments_cannot_open() {
    let mut view = ItemView::make(0, true);
    assert_eq!(view.selected, None);
    match view.update(key(KeyCommand::Select)) {
        Err(Error::AppError(m)) => {
            assert_eq!(m, "No attachment selected (this should not be possible and is a bug)")
        }
        other => panic!("unexpected {:?}", other),
    }
    assert!(matches!(view.update(key(KeyCommand::Down)), Ok(Command::AwaitKey)));
    assert_eq!(view.selected, Some(0));
}

#[test]
fn inbox_view_selects_a_message() {
    let mut view = InboxView::make(2);
    assert!(matches!(view.update(key(KeyCommand::Down)), Ok(Command::AwaitKey)));
    assert!(matches!(view.update(key(KeyCommand::Select)), Ok(Command::Return(Some(1)))));
    assert!(matches!(view.update(key(KeyCommand::Down)), Ok(Command::AwaitKey)));
    assert!(matches!(view.update(key(KeyCommand::Down)), Ok(Command::AwaitKey)));
    assert_eq!(view.selected, Some(2));
    match view.update(key(KeyCommand::Select)) {
        Err(Error::AppError(m)) => assert_eq!(m, "Selected item out of bounds"),
        other => panic!("unexpected {:?}", other),
    }
    assert!(matches!(view.update(key(KeyCommand::Up)), Ok(Command::AwaitKey)));
    assert_eq!(view.selected, Some(1));
    assert!(!view.expanded);
    assert!(matches!(view.update(key(KeyCommand::Key(Key::Tab))), Ok(Command::AwaitKey)));
    assert!(view.expanded);
    assert!(matches!(view.update(key(KeyCommand::Quit)), Ok(Command::Return(None))));
}

#[test]
fn login_completes_on_the_fourth_poll() {
    let mut client = MockClient::new();
    let mut view = LoginView::make(&mut client).unwrap();
    assert_eq!(view.retry_after, 1);
    assert_eq!(view.auth_code, "mock-code");
    assert_eq!(view.code_verifier.len(), 48);
    assert!(matches!(view.update(&mut client, Event::Init), Ok(Command::AwaitTimeout(1))));
    for _ in 0..3 {
        assert!(matches!(view.update(&mut client, Event::Timeout), Ok(Command::AwaitTimeout(1))));
    }
    assert_eq!(view.qr_code, "bankid.mock.1.0001");
    match view.update(&mut client, Event::Timeout) {
        Ok(Command::Return(Some(tokens))) => assert_eq!(tokens.access_token, "mock-access-token"),
        other => panic!("unexpected {:?}", other),
    }
    assert_eq!(client.polls(), 4);
}

#[test]
fn login_can_be_given_up() {
    let mut client = MockClient::default();
    let mut view = LoginView::make(&mut client).unwrap();
    assert!(matches!(
        view.update(&mut client, Event::Key(KeyCommand::Up)),
        Ok(Command::AwaitTimeout(1))
    ));
    assert!(matches!(
        view.update(&mut client, Event::Key(KeyCommand::Quit)),
        Ok(Command::Return(None))
    ));
    assert_eq!(client.polls(), 0);
}

#[test]
fn login_takes_in_a_pending_status() {
    let mut client = MockClient::new();
    let mut view = LoginView::make(&mut client).unwrap();
    let pending = AuthStatus {
        status: "pending".to_string(),
        progress_status: "p".to_string(),
        message_code: "m".to_string(),
        qr_code: "new-code".to_string(),
        ssn: None,
        retry_after: Some(5),
        next_poll_url: None,
    };
    assert!(!view.absorb_status(pending));
    assert_eq!(view.qr_code, "new-code");
    assert_eq!(view.retry_after, 5);
    assert_eq!(view.next_poll_url, "/v2/oauth2/authorize/mock");
    let complete = AuthStatus {
        status: "complete".to_string(),
        progress_status: "p".to_string(),
        message_code: "m".to_string(),
        qr_code: "ignored".to_string(),
        ssn: Some("181512100000".to_string()),
        retry_after: Some(9),
        next_poll_url: Some("/other".to_string()),
    };
    assert!(view.absorb_status(complete));
    assert_eq!(view.qr_code, "new-code");
    assert_eq!(view.retry_after, 5);
    assert!(matches!(view.update(&mut client, Event::Init), Ok(Command::AwaitTimeout(5))));
}

#[test]
fn mock_mailbox_serves_the_tree() {
    let mut fs = KivraFs::new(MockClient::new());
    let root = fs.readdir(1, 0, 0).unwrap();
    let names: Vec<String> = root.iter().map(|l| l.name.clone()).collect();
    assert_eq!(names, vec!["1-Kivra-Welcome_to_Kivra", "2-Skatteverket-Slutskattebesked"]);
    let files = fs.readdir(root[1].inode.encode(), 0, 0).unwrap();
    assert_eq!(files.len(), 2);
    assert_eq!(files[0].name, "2024-05-01T08:00:00+00:00-Skatteverket-Slutskattebesked-0.html");
    assert_eq!(files[1].name, "2024-05-01T08:00:00+00:00-Skatteverket-Slutskattebesked-1.pdf");
    assert_eq!(fs.getattr(files[0].inode.encode(), 0).unwrap().kind, FileKind::RegularFile);
    assert_eq!(fs.read(files[0].inode.encode(), 0, 100, 0).unwrap(), b"<p>Hej fran oss</p>".to_vec());
    assert_eq!(fs.getattr(files[0].inode.encode(), 0).unwrap().size, 19);
    assert_eq!(fs.read(files[1].inode.encode(), 0, 100, 0).unwrap(), b"tjena".to_vec());
}

#[test]
fn mock_mailbox_answers_the_login_calls() {
    let mut client = MockClient::new();
    let config = client.get_config().unwrap();
    assert_eq!(config.oauth_default_client_id, "mock-client");
    let (verifier, started) = client.start_auth(&config).unwrap();
    assert_eq!(verifier.len(), 48);
    assert!(verifier.iter().all(|b| b.is_ascii_alphanumeric() || b"-._~".contains(b)));
    assert_ne!(client.start_auth(&config).unwrap().0, verifier);
    assert_eq!(started.code, "mock-code");
    assert!(client.check_auth("/x").unwrap().ssn.is_none());
    assert!(client.abort_auth("/x").is_ok());
    assert!(client.mark_as_read("k").is_ok());
    assert!(client.revoke_auth_token().is_ok());
    assert_eq!(client.get_auth_token(&config, "c".to_string(), verifier).unwrap().expires_in, 3600);
    assert_eq!(client.get_inbox_listing().unwrap().len(), 2);
}

#[test]
fn client_errors_have_messages() {
    assert_eq!(ClientError::HttpError("timed out".to_string()).message(), "HTTP error: timed out");
    assert_eq!(ClientError::FromUtf8Error("bad".to_string()).message(), "utf8 decode failed: bad");
    assert_eq!(ClientError::JsonError("eof".to_string()).message(), "JSON error: eof");
    assert_eq!(ClientError::NoSession.message(), "no session");
    assert_eq!(ClientError::SessionExpired.message(), "session expired");
    assert_eq!(ClientError::LoginFailed.message(), "login failed");
    assert_eq!(ClientError::LoginAborted.message(), "login aborted");
    assert_eq!(ClientError::SessionError("x".to_string()).message(), "session error: x");
    assert_eq!(ClientError::TuiError("y".to_string()).message(), "tui error: y");
    assert_eq!(ClientError::CloneError.message(), "request body is not cloneable");
    assert!(ClientError::NoSession.needs_login());
    assert!(ClientError::SessionExpired.needs_login());
    assert!(!ClientError::LoginAborted.needs_login());
    assert!(!ClientError::HttpError(String::new()).needs_login());
    assert_eq!(ClientError::NoSession.clone().message(), "no session");
    assert_eq!(ClientError::NoSession.into_fs_error().message(), "internal error: no session");
}

#[test]
fn column_width_shares_what_is_left() {
    assert_eq!(flex_width(150), 57);
    assert_eq!(flex_width(151), 58);
    assert_eq!(flex_width(75), 20);
    assert_eq!(flex_width(76), 20);
    assert_eq!(flex_width(77), 21);
    assert_eq!(flex_width(0), 20);
    assert_eq!(flex_width(34), 20);
    assert_eq!(flex_width(usize::MAX), (usize::MAX - 35) / 2);
    assert_eq!(term_width_or_default(None), 150);
    assert_eq!(term_width_or_default(Some(80)), 80);
}

#[test]
fn item_text_lists_the_attachments() {
    let details = ItemDetails {
        subject: "Your tax return".to_string(),
        sender_name: "Tax Agency".to_string(),
        created_at: Timestamp::new(1_714_550_400, 0).unwrap(),
        parts: vec![
            Attachment { content_type: "text/html".to_string(), size: 1, key: None, body: None },
            Attachment { content_type: "application/pdf".to_string(), size: 2, key: None, body: None },
        ],
    };
    assert_eq!(
        kivinge::cli::inbox_item::format(&details, "2024-05-01 10:00"),
        "Sender:   Tax Agency\nSubject:  Your tax return\nCreated:  2024-05-01 10:00\n\nAttachments:\n  \
         0: 2024-05-01T08:00:00+00:00-Tax_Agency-Your_tax_return-0.html\n  \
         1: 2024-05-01T08:00:00+00:00-Tax_Agency-Your_tax_return-1.pdf\n"
    );
    let bare = ItemDetails { parts: vec![], ..details };
    assert_eq!(
        kivinge::cli::inbox_item::format(&bare, ""),
        "Sender:   Tax Agency\nSubject:  Your tax return\nCreated:  \n\nAttachments:\n"
    );
}

#[test]
fn request_addresses() {
    assert_eq!(config_url(), "https://accounts.kivra.com/config.json");
    assert_eq!(authorize_url(), "https://app.api.kivra.com/v2/oauth2/authorize");
    assert_eq!(poll_url("/v2/poll/1"), "https://app.api.kivra.com/v2/poll/1");
    assert_eq!(token_url(), "https://app.api.kivra.com/v2/oauth2/token");
    assert_eq!(revoke_url(), "https://app.api.kivra.com/v2/oauth2/token/revoke");
    assert_eq!(inbox_url("u1"), "https://app.api.kivra.com/v3/user/u1/content");
    assert_eq!(item_url("u1", "k9"), "https://app.api.kivra.com/v3/user/u1/content/k9");
    assert_eq!(view_url("u1", "k9"), "https://app.api.kivra.com/v2/user/u1/content/k9/view");
    assert_eq!(
        download_url("u1", "k9", "a3"),
        "https://app.api.kivra.com/v1/user/u1/content/k9/file/a3/raw"
    );
}

#[test]
fn request_bodies() {
    let config = MockClient::new().get_config().unwrap();
    let start = AuthRequest::for_config(&config, "challenge".to_string());
    assert_eq!(start.client_id, "mock-client");
    assert_eq!(start.redirect_uri, "https://inbox.example.invalid/auth/callback");
    assert_eq!(start.response_type, "bankid_all");
    assert_eq!(start.code_challenge, "challenge");
    assert_eq!(start.code_challenge_method, "S256");
    assert_eq!(start.scope, "openid profile");
    let redeem = AuthTokenRequest::for_config(&config, "code".to_string(), "verifier".to_string());
    assert_eq!(redeem.client_id, "mock-client");
    assert_eq!(redeem.code, "code");
    assert_eq!(redeem.code_verifier, "verifier");
    assert_eq!(redeem.grant_type, "authorization_code");
    let revoke = RevokeRequest::for_token("tok");
    assert_eq!(revoke.token, "tok");
    assert_eq!(revoke.token_type_hint, "access_token");
}

#[test]
fn attachments_are_table_rows() {
    assert_eq!(Attachment::columns(), vec!["content_type", "size", "key", "body"]);
    let part = Attachment {
        content_type: "text/html".to_string(),
        size: 1234,
        key: None,
        body: Some("<p>".to_string()),
    };
    assert_eq!(part.try_get_field("content_type"), Some("text/html".to_string()));
    assert_eq!(part.try_get_field("size"), Some("1234".to_string()));
    assert_eq!(part.try_get_field("key"), Some(String::new()));
    assert_eq!(part.try_get_field("body"), Some("<p>".to_string()));
    assert_eq!(part.try_get_field("nothing"), None);
    let table = Table::new(vec![part.clone(), part]);
    assert_eq!(table.len(), 2);
    assert_eq!(table.rows().len(), 2);
    assert_eq!(table.row(1).and_then(|r| r.try_get_field("size")), Some("1234".to_string()));
    assert!(table.row(2).is_none());
}

#[test]
fn entries_are_found_by_number() {
    let items = MockClient::new().get_inbox_listing().unwrap();
    let listing = InboxListing::from_content_specs(items.clone());
    assert_eq!(get_entry_by_id(listing, 2).unwrap().item.subject, "Slutskattebesked");
    let listing = InboxListing::from_content_specs(items.clone());
    assert_eq!(get_entry_by_id(listing, 1).unwrap().item.sender_name, "Kivra");
    for missing in [0u32, 3, u32::MAX] {
        let listing = InboxListing::from_content_specs(items.clone());
        match get_entry_by_id(listing, missing) {
            Err(Error::UserError(m)) => assert_eq!(m, "Inbox item does not exist"),
            other => panic!("unexpected {:?}", other),
        }
    }
}

#[test]
fn content_comes_inline_or_by_key() {
    let details = MockClient::new().get_item_details("k").unwrap();
    match content_source(&details, 0) {
        Ok(ContentSource::Inline(bytes)) => assert_eq!(bytes, b"<p>Hej fran oss</p>".to_vec()),
        other => panic!("unexpected {:?}", other),
    }
    match content_source(&details, 1) {
        Ok(ContentSource::Remote(key)) => assert_eq!(key, "mock-attachment-key"),
        other => panic!("unexpected {:?}", other),
    }
    match content_source(&details, 2) {
        Err(Error::UserError(m)) => assert_eq!(m, "Inbox item has no such attachment number"),
        other => panic!("unexpected {:?}", other),
    }
    let broken = ItemDetails {
        parts: vec![Attachment { content_type: String::new(), size: 0, key: None, body: None }],
        ..details
    };
    match content_source(&broken, 0) {
        Err(Error::AppError(m)) => assert_eq!(m, "Attachment has no attachment key nor inline body"),
        other => panic!("unexpected {:?}", other),
    }
}

#[test]
fn dates_are_read_from_the_first_ten_bytes() {
    assert_eq!(Date::parse("2024-05-01T08:00:00Z").unwrap(), Date { year: 2024, month: 5, day: 1 });
    assert_eq!(Date::parse("1999-12-31").unwrap(), Date { year: 1999, month: 12, day: 31 });
    assert_eq!(Date::parse("2024-02-29 and more").unwrap(), Date { year: 2024, month: 2, day: 29 });
    assert_eq!(Date::parse("2024-03-05ö").unwrap(), Date { year: 2024, month: 3, day: 5 });
}

#[test]
fn the_cut_counts_bytes_not_characters() {
    assert_eq!(Date::parse("\u{3000}999-1-1").unwrap(), Date { year: 999, month: 1, day: 1 });
    assert_eq!(Date::parse("\u{3000}999-1-1T00:00").unwrap(), Date { year: 999, month: 1, day: 1 });
    assert_eq!(Date::parse("  2024-1-2").unwrap(), Date { year: 2024, month: 1, day: 2 });
}

#[test]
fn texts_that_start_with_no_date_are_refused() {
    for text in [
        "",
        "2024-05-0",
        "2023-02-29T00:00:00Z",
        "01/05/2024 10:00",
        "2024-13-01T",
        "åååå-åå-åå",
        "2024-01-0é",
        "2024-1-1é",
        "\u{3000}999-1-",
    ] {
        match Date::parse(text) {
            Err(Error::AppError(m)) => assert_eq!(m, "Invalid date"),
            other => panic!("unexpected {:?} for {}", other, text),
        }
    }
}

#[test]
fn qr_code_is_drawn_as_text() {
    let data = "bankid.aba9c84c-c6ab-420f-830d-6aaa59ce9599.3.d421c4e52d81fe6ad708b6817aef3b23be7a306d800324b871b0303c041e62f2";
    let picture = encode(data).unwrap();
    assert_ne!(picture, data);
    let lines: Vec<&str> = picture.lines().collect();
    assert_eq!(lines.len(), 35);
    for line in &lines {
        assert_eq!(line.chars().count(), 69);
    }
    assert_eq!(encode(data).unwrap(), picture);
    assert_ne!(encode("bankid.other").unwrap(), picture);
}

#[test]
fn data_too_long_for_the_code_is_refused() {
    let long = "x".repeat(500);
    match encode(&long) {
        Err(Error::TuiError(m)) => assert_eq!(m, "QR code generation failed"),
        other => panic!("unexpected {:?}", other),
    }
}

#[test]
fn login_request_carries_the_challenge_of_its_verifier() {
    let config = MockClient::new().get_config().unwrap();
    let verifier = b"dBjftJeZ4CVP-mB92K27uhbUJU1p1r_wW1gFWFOEjXk".to_vec();
    let request = start_request_with(&config, &verifier);
    assert_eq!(request.code_challenge, "E9Melhoa2OwvFrEMTJguCHaoeK1t8URWbuGJSstw-cM");
    assert_eq!(request.client_id, "mock-client");
    assert_eq!(request.response_type, "bankid_all");
    assert_eq!(request.code_challenge_method, "S256");
    assert_eq!(request.scope, "openid profile");
    assert_eq!(request.redirect_uri, "https://inbox.example.invalid/auth/callback");
}

#[test]
fn a_fresh_login_request_has_a_verifier_of_full_length() {
    let config = MockClient::new().get_config().unwrap();
    let (verifier, request) = start_request(&config);
    assert_eq!(verifier.len(), 48);
    assert!(verifier.iter().all(|b| b.is_ascii_alphanumeric() || b"-._~".contains(b)));
    assert!(token_request(&config, "c".to_string(), verifier.clone()).is_ok());
    assert_eq!(VERIFIER_LENGTH, 48);
    assert_eq!(request.code_challenge, start_request_with(&config, &verifier).code_challenge);
    assert_ne!(request.code_challenge.as_bytes(), verifier.as_slice());
    let (other, _) = start_request(&config);
    assert_ne!(other, verifier);
}

#[test]
fn token_request_carries_the_verifier_as_text() {
    let config = MockClient::new().get_config().unwrap();
    let request = token_request(&config, "code-1".to_string(), b"verifier-text".to_vec()).unwrap();
    assert_eq!(request.code_verifier, "verifier-text");
    assert_eq!(request.code, "code-1");
    assert_eq!(request.client_id, "mock-client");
    assert_eq!(request.grant_type, "authorization_code");
    let odd = token_request(&config, "c".to_string(), "räka".as_bytes().to_vec()).unwrap();
    assert_eq!(odd.code_verifier, "räka");
}

#[test]
fn a_verifier_that_is_no_text_is_refused() {
    let config = MockClient::new().get_config().unwrap();
    for bytes in [vec![0xffu8], vec![b'a', 0xc3], vec![0xed, 0xa0, 0x80]] {
        match token_request(&config, "c".to_string(), bytes) {
            Err(ClientError::FromUtf8Error(_)) => {}
            other => panic!("unexpected {:?}", other),
        }
    }
}

#[test]
fn characters_are_found_from_a_position() {
    assert_eq!(find_from("a.b.c", '.', 0), 1);
    assert_eq!(find_from("a.b.c", '.', 1), 1);
    assert_eq!(find_from("a.b.c", '.', 2), 3);
    assert_eq!(find_from("a.b.c", '.', 4), 5);
    assert_eq!(find_from("a.b.c", '.', 5), 5);
    assert_eq!(find_from("", '.', 0), 0);
    assert_eq!(find_from("äö.ü", '.', 0), 2);
    assert_eq!(find_from("abc", 'x', 0), 3);
}

#[test]
fn runs_of_characters_are_copied() {
    let mut out = "<".to_string();
    push_char_run(&mut out, "häst och vagn", 1, 4);
    assert_eq!(out, "<äst");
    push_char_run(&mut out, "xyz", 3, 3);
    push_char_run(&mut out, "xyz", 0, 0);
    assert_eq!(out, "<äst");
    push_char_run(&mut out, "xyz", 0, 3);
    assert_eq!(out, "<ästxyz");
}

#[test]
fn characters_are_replaced_one_for_one() {
    let mut out = ">".to_string();
    push_underscored(&mut out, " a  b/c ");
    assert_eq!(out, ">_a__b/c_");
    let mut out = String::new();
    push_path_safe(&mut out, " a/b\0c\\d ");
    assert_eq!(out, "_a_b_c\\d_");
    let mut out = "x".to_string();
    push_underscored(&mut out, "");
    push_path_safe(&mut out, "");
    assert_eq!(out, "x");
}

#[test]
fn a_boxed_mailbox_answers_as_the_mailbox_in_the_box() {
    let mut plain = MockClient::new();
    let mut boxed: Box<dyn Client> = Box::new(MockClient::new());
    let config = boxed.get_config().unwrap();
    assert_eq!(config.oauth_default_client_id, plain.get_config().unwrap().oauth_default_client_id);
    let (verifier, started) = boxed.start_auth(&config).unwrap();
    assert_eq!(verifier.len(), 48);
    assert_eq!(started.next_poll_url, "/v2/oauth2/authorize/mock");
    for _ in 0..3 {
        assert!(boxed.check_auth("/x").unwrap().ssn.is_none());
    }
    assert_eq!(boxed.check_auth("/x").unwrap().ssn.as_deref(), Some("195208152712"));
    assert!(boxed.abort_auth("/x").is_ok());
    assert!(boxed.revoke_auth_token().is_ok());
    assert!(boxed.mark_as_read("k").is_ok());
    assert_eq!(
        boxed.get_auth_token(&config, "c".to_string(), verifier).unwrap().id_token,
        "e30.e30.mock"
    );
    let keys: Vec<String> = boxed.get_inbox_listing().unwrap().into_iter().map(|i| i.key).collect();
    assert_eq!(keys, vec!["1714550400a1b2c3", "1709283600d4e5f6"]);
    let details = boxed.get_item_details("1714550400a1b2c3").unwrap();
    assert_eq!(details.parts.len(), 2);
    assert_eq!(details.parts[1].key.as_deref(), Some("mock-attachment-key"));
    assert_eq!(details.created_at.secs(), 1_714_550_400);
    assert_eq!(boxed.download_attachment("a", "b").unwrap(), b"tjena".to_vec());
    let mut fs = KivraFs::new(boxed);
    assert_eq!(fs.readdir(1, 0, 0).unwrap().len(), 2);
}

#[test]
fn the_fixed_records_of_the_stand_in() {
    let mut client = MockClient::new();
    let config = client.get_config().unwrap();
    assert_eq!(config.company_onboard_complete_oauth_client_id, "mock-onboard");
    assert_eq!(config.oauth_endpoint_url, "https://accounts.example.invalid/oauth2");
    assert_eq!(config.oauth_grant_type, "authorization_code");
    assert_eq!(config.oauth_response_type, "code");
    let (_, started) = client.start_auth(&config).unwrap();
    assert_eq!(started.auto_start_token, "mock-auto-start");
    assert_eq!(started.qr_data, vec!["bankid.mock.0.0000"]);
    assert_eq!(started.qr_code, "bankid.mock.0.0000");
    let status = client.check_auth("/x").unwrap();
    assert_eq!(status.status, "pending");
    assert_eq!(status.progress_status, "outstanding_transaction");
    assert_eq!(status.message_code, "rfa1");
    assert_eq!((status.retry_after, status.next_poll_url.as_deref()), (Some(1), Some("/v2/oauth2/authorize/mock")));
    let tokens = client.get_auth_token(&config, String::new(), Vec::new()).unwrap();
    assert_eq!((tokens.scope.as_str(), tokens.token_type.as_str()), ("openid profile", "bearer"));
    let items = client.get_inbox_listing().unwrap();
    assert_eq!(items[0].sender_name, "Skatteverket");
    assert_eq!(items[0].created_at.secs(), 1_714_550_400);
    assert_eq!(items[1].subject, "Welcome to Kivra");
    assert_eq!(items[1].created_at.secs(), 1_709_283_600);
    assert_eq!(items[1].sender, "15198791822166a7ac2c1f4b2a9d9e1f");
    assert_eq!((items[1].status.as_str(), items[1].content_type.as_str()), ("unread", "letter"));
    let details = client.get_item_details("any").unwrap();
    assert_eq!((details.subject.as_str(), details.sender_name.as_str()), ("Slutskattebesked", "Skatteverket"));
    assert_eq!(details.parts[0].body.as_deref(), Some("<p>Hej fran oss</p>"));
    assert_eq!((details.parts[0].size, details.parts[1].size), (19, 5));
}
