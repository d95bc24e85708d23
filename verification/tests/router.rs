use issue_bot::conf::Configuration;
use issue_bot::error::{Error, ErrorKind};
use issue_bot::router::{
    command, finish_request, parse_command, run_request, unwritten, Action, Command, Handled,
    Message, Outcome, Pending, Step,
};
use issue_bot::store::Store;
use issue_bot::token::Token;
use issue_bot::tracker::{Request, Response};

fn conf() -> Configuration {
    Configuration {
        tag: "issues".to_string(),
        auth_token: "0123456789abcdef".to_string(),
        local_part: "issues".to_string(),
        domain: "example.com".to_string(),
        base_url: "https://git.example.com".to_string(),
        repo: "owner/repo".to_string(),
        bot_name: "IssueBot".to_string(),
        bot_username: "issuebot".to_string(),
        mailer: "sendmail -t".to_string(),
        log_file: "issue_bot.log".to_string(),
        dry_run: false,
    }
}

fn message(tag: &str, from: &str, subject: &str, body: &str) -> Message {
    let to = if tag.is_empty() {
        "issues@example.com".to_string()
    } else {
        format!("issues+{}@example.com", tag)
    };
    Message { to, from: from.to_string(), subject: subject.to_string(), body: body.to_string() }
}

fn answer(success: bool, text: &str) -> Result<Response, Error> {
    Ok(Response { success, text: text.to_string() })
}

fn done(step: Step) -> Handled {
    match step {
        Step::Done(handled) => handled,
        other => panic!("{:?}", other),
    }
}

fn failure(handled: &Handled) -> &Error {
    match &handled.outcome {
        Outcome::Failed(e) => e,
        other => panic!("{:?}", other),
    }
}

/// Files an issue through the router and hands back its token.
fn file(store: &mut Store, tag: &str, number: i64) -> Token {
    let step = run_request(store, &message(tag, "a@x.com", "Crash on save", "steps…"), &conf());
    let pending = match step {
        Step::Call { pending, .. } => pending,
        other => panic!("{:?}", other),
    };
    let text = format!("{{\"number\": {}, \"created_at\": \"2024-01-01T10:00:00Z\"}}", number);
    match finish_request(store, pending, answer(true, &text), &conf()).outcome {
        Outcome::Created { token, .. } => token,
        other => panic!("{:?}", other),
    }
}

fn same_command(a: Command, b: Command) -> bool {
    match (a, b) {
        (Command::NewIssue { anonymous: x }, Command::NewIssue { anonymous: y }) => x == y,
        (
            Command::Authenticated { token: t, action: a },
            Command::Authenticated { token: u, action: b },
        ) => t == u && a == b,
        (Command::Invalid, Command::Invalid) => true,
        _ => false,
    }
}

#[test]
fn addresses_are_read_as_commands() {
    let text = "67e55044-10b1-426f-9247-bb680e5fe0c8";
    let token = Some(Token { value: 0x67e55044_10b1_426f_9247_bb680e5fe0c8 });
    let cases = [
        ("issues@example.com".to_string(), Command::NewIssue { anonymous: false }),
        ("issues+anonymous@example.com".to_string(), Command::NewIssue { anonymous: true }),
        (
            format!("issues+{}+reply@example.com", text),
            Command::Authenticated { token, action: Action::Reply },
        ),
        (
            format!("issues+{}+close@example.com", text),
            Command::Authenticated { token, action: Action::Close },
        ),
        (
            format!("issues+{}+subscribe@example.com", text),
            Command::Authenticated { token, action: Action::Subscribe },
        ),
        (
            format!("issues+{}+unsubscribe@example.com", text),
            Command::Authenticated { token, action: Action::Unsubscribe },
        ),
        (
            "issues+badtoken+reply@example.com".to_string(),
            Command::Authenticated { token: None, action: Action::Reply },
        ),
        ("issues+help@example.com".to_string(), Command::Invalid),
        (format!("issues+{}@example.com", text), Command::Invalid),
        (format!("issues+{}+delete@example.com", text), Command::Invalid),
        (format!("issues+{}+reply+more@example.com", text), Command::Invalid),
        (format!("issues+reply+{}@example.com", text), Command::Invalid),
        ("issues+@example.com".to_string(), Command::Invalid),
        ("issues+anonymous+@example.com".to_string(), Command::Invalid),
        ("issues".to_string(), Command::NewIssue { anonymous: false }),
        ("+anonymous@example.com".to_string(), Command::NewIssue { anonymous: true }),
        ("issues@example.com+anonymous".to_string(), Command::NewIssue { anonymous: false }),
    ];
    for (to, expected) in cases {
        assert!(same_command(parse_command(&to), expected), "{}", to);
    }
}

#[test]
fn tags_are_read_as_commands() {
    assert!(same_command(command(&Vec::new()), Command::NewIssue { anonymous: false }));
    assert!(same_command(
        command(&vec!["anonymous".to_string()]),
        Command::NewIssue { anonymous: true }
    ));
    assert!(same_command(command(&vec!["Anonymous".to_string()]), Command::Invalid));
    assert!(same_command(
        command(&vec!["x".to_string(), "close".to_string()]),
        Command::Authenticated { token: None, action: Action::Close }
    ));
    assert!(same_command(
        command(&vec!["x".to_string(), "close".to_string(), "y".to_string()]),
        Command::Invalid
    ));
}

#[test]
fn new_issue_is_filed_and_stored() {
    let mut store = Store::new();
    let step = run_request(&mut store, &message("", "a@x.com", "Crash on save", "steps…"), &conf());
    let (request, pending) = match step {
        Step::Call { request, pending } => (request, pending),
        other => panic!("{:?}", other),
    };
    match request {
        Request::CreateIssue { title, body } => {
            assert_eq!(title, "Crash on save");
            assert_eq!(body, "a@x.com reports:\n\nsteps…");
        }
        other => panic!("{:?}", other),
    }
    assert_eq!(store.len(), 0);
    let handled = finish_request(
        &mut store,
        pending,
        answer(true, r#"{"number": 42, "created_at": "2024-01-01T10:00:00Z"}"#),
        &conf(),
    );
    let token = match handled.outcome {
        Outcome::Created { token, id } => {
            assert_eq!(id, 42);
            token
        }
        other => panic!("{:?}", other),
    };
    let all = store.list_all();
    assert_eq!(all.len(), 1);
    assert_eq!(all[0].id, 42);
    assert_eq!(all[0].token, token);
    assert_eq!(all[0].submitter, "a@x.com");
    assert_eq!(all[0].title, "Crash on save");
    assert!(!all[0].anonymous);
    assert!(all[0].subscribed);
    assert_eq!(all[0].watermark, "");
    assert_eq!(handled.reply.from, "issues@example.com");
    assert_eq!(handled.reply.to, "a@x.com");
    assert_eq!(handled.reply.subject, "[issues] Issue `Crash on save` successfully created");
    assert!(handled.reply.body.contains(&token.to_string()));
    assert!(handled.reply.body.contains("https://git.example.com/owner/repo/issues/42"));
}

#[test]
fn anonymous_issue_hides_the_submitter_from_the_tracker() {
    let mut store = Store::new();
    let step =
        run_request(&mut store, &message("anonymous", "a@x.com", "Crash", "steps"), &conf());
    let (request, pending) = match step {
        Step::Call { request, pending } => (request, pending),
        other => panic!("{:?}", other),
    };
    match request {
        Request::CreateIssue { body, .. } => assert_eq!(body, "Anonymous reports:\n\nsteps"),
        other => panic!("{:?}", other),
    }
    finish_request(
        &mut store,
        pending,
        answer(true, r#"{"number": 1, "created_at": "2024-01-01T10:00:00Z"}"#),
        &conf(),
    );
    assert!(store.list_all()[0].anonymous);
}

#[test]
fn issue_that_the_tracker_did_not_file_is_not_stored() {
    let mut store = Store::new();
    let step = run_request(&mut store, &message("", "a@x.com", "Crash on save", "steps"), &conf());
    let pending = match step {
        Step::Call { pending, .. } => pending,
        other => panic!("{:?}", other),
    };
    let handled = finish_request(
        &mut store,
        pending,
        Err(Error::with_kind(ErrorKind::RemoteCallFailed, "connection refused")),
        &conf(),
    );
    assert_eq!(failure(&handled).kind, ErrorKind::RemoteCallFailed);
    assert_eq!(store.len(), 0);
    assert_eq!(handled.reply.subject, "[issues] Issue `Crash on save` could not be created");
    assert!(handled.reply.body.contains("The reason was: `connection refused`"));
    assert!(handled.reply.body.starts_with("Hello,\n\nUnfortunately we were not able to create"));
}

#[test]
fn issue_with_an_unreadable_answer_is_not_stored() {
    let mut store = Store::new();
    let pending = Pending::Create {
        title: "Crash".to_string(),
        anonymous: false,
        submitter: "a@x.com".to_string(),
    };
    let handled = finish_request(&mut store, pending, answer(true, r#"{"id": 42}"#), &conf());
    assert_eq!(failure(&handled).kind, ErrorKind::MalformedRemoteResponse);
    assert_eq!(store.len(), 0);
}

#[test]
fn issue_whose_number_is_taken_is_not_stored_twice() {
    let mut store = Store::new();
    file(&mut store, "", 42);
    let pending = Pending::Create {
        title: "Again".to_string(),
        anonymous: false,
        submitter: "b@x.com".to_string(),
    };
    let handled = finish_request(
        &mut store,
        pending,
        answer(true, r#"{"number": 42, "created_at": "2024-01-01T10:00:00Z"}"#),
        &conf(),
    );
    assert_eq!(failure(&handled).kind, ErrorKind::Other);
    assert_eq!(store.len(), 1);
    assert_eq!(store.list_all()[0].title, "Crash on save");
}

#[test]
fn subscribe_when_subscribed_is_already_in_state() {
    let mut store = Store::new();
    let token = file(&mut store, "", 42);
    let tag = format!("{}+subscribe", token.to_string());
    let handled = done(run_request(&mut store, &message(&tag, "a@x.com", "", ""), &conf()));
    assert_eq!(failure(&handled).kind, ErrorKind::AlreadyInState);
    let all = store.list_all();
    assert_eq!(all.len(), 1);
    assert!(all[0].subscribed);
    assert_eq!(handled.reply.subject, "[issues] could not subscribe");
    assert_eq!(handled.reply.to, "a@x.com");
    assert!(handled.reply.body.contains("You are already subscribed."));
}

#[test]
fn unsubscribe_when_unsubscribed_is_already_in_state() {
    let mut store = Store::new();
    let token = file(&mut store, "", 42);
    let tag = format!("{}+unsubscribe", token.to_string());
    let handled = done(run_request(&mut store, &message(&tag, "a@x.com", "", ""), &conf()));
    match handled.outcome {
        Outcome::Subscription { token: t, subscribed } => {
            assert_eq!(t, token);
            assert!(!subscribed);
        }
        other => panic!("{:?}", other),
    }
    assert_eq!(handled.reply.subject, "[issues] subscription removal to `Crash on save` successful");
    assert!(!store.list_all()[0].subscribed);
    let handled = done(run_request(&mut store, &message(&tag, "a@x.com", "", ""), &conf()));
    assert_eq!(failure(&handled).kind, ErrorKind::AlreadyInState);
    assert_eq!(handled.reply.subject, "[issues] could not unsubscribe");
    assert!(handled.reply.body.contains("You are already unsubscribed."));
    assert!(!store.list_all()[0].subscribed);
}

#[test]
fn subscribe_after_unsubscribe_succeeds() {
    let mut store = Store::new();
    let token = file(&mut store, "", 42);
    let off = format!("{}+unsubscribe", token.to_string());
    let on = format!("{}+subscribe", token.to_string());
    done(run_request(&mut store, &message(&off, "a@x.com", "", ""), &conf()));
    let handled = done(run_request(&mut store, &message(&on, "a@x.com", "", ""), &conf()));
    match handled.outcome {
        Outcome::Subscription { subscribed, .. } => assert!(subscribed),
        other => panic!("{:?}", other),
    }
    assert_eq!(handled.reply.subject, "[issues] subscription to `Crash on save` successful");
    assert!(store.list_all()[0].subscribed);
}

#[test]
fn bad_token_is_not_found_without_a_remote_call() {
    let mut store = Store::new();
    file(&mut store, "", 42);
    let step = run_request(&mut store, &message("badtoken+reply", "b@x.com", "", "hi"), &conf());
    let handled = done(step);
    let e = failure(&handled);
    assert_eq!(e.kind, ErrorKind::NotFound);
    assert_eq!(e.message, "Not found");
    assert_eq!(handled.reply.subject, "[issues] Your reply could not be created");
    assert!(handled.reply.body.contains("The reason was: `Not found`"));
    assert_eq!(store.len(), 1);
}

#[test]
fn unknown_token_is_not_found_for_every_action() {
    let mut store = Store::new();
    file(&mut store, "", 42);
    let unknown = Token { value: 1 }.to_string();
    for (action, subject) in [
        ("reply", "[issues] Your reply could not be created"),
        ("close", "[issues] issue could not be closed"),
        ("subscribe", "[issues] could not subscribe"),
        ("unsubscribe", "[issues] could not unsubscribe"),
    ] {
        for token in [unknown.as_str(), "badtoken"] {
            let tag = format!("{}+{}", token, action);
            let handled =
                done(run_request(&mut store, &message(&tag, "b@x.com", "", "hi"), &conf()));
            assert_eq!(failure(&handled).kind, ErrorKind::NotFound, "{}", tag);
            assert_eq!(handled.reply.subject, subject);
            assert!(handled.reply.body.contains("ot found`"), "{}", handled.reply.body);
        }
    }
    let all = store.list_all();
    assert_eq!(all.len(), 1);
    assert!(all[0].subscribed);
}

#[test]
fn reply_is_posted_and_confirmed() {
    let mut store = Store::new();
    let token = file(&mut store, "anonymous", 42);
    let tag = format!("{}+reply", token.to_string());
    let step = run_request(&mut store, &message(&tag, "b@x.com", "Re: Crash", "me too"), &conf());
    let (request, pending) = match step {
        Step::Call { request, pending } => (request, pending),
        other => panic!("{:?}", other),
    };
    match request {
        Request::PostComment { id, body } => {
            assert_eq!(id, 42);
            assert_eq!(body, "Anonymous replies:\n\nme too");
        }
        other => panic!("{:?}", other),
    }
    let handled = finish_request(&mut store, pending, answer(true, ""), &conf());
    match handled.outcome {
        Outcome::Replied { id } => assert_eq!(id, 42),
        other => panic!("{:?}", other),
    }
    assert_eq!(handled.reply.to, "b@x.com");
    assert_eq!(
        handled.reply.subject,
        "[issues] Your reply on issue `Crash on save` has been posted"
    );
    assert!(handled.reply.body.contains("You will receive replies from other users."));
}

#[test]
fn reply_that_the_tracker_refused_is_reported() {
    let mut store = Store::new();
    let token = file(&mut store, "", 42);
    let pending = Pending::Comment { token, sender: "b@x.com".to_string() };
    let handled = finish_request(&mut store, pending, answer(false, ""), &conf());
    let e = failure(&handled);
    assert_eq!(e.kind, ErrorKind::RemoteCallFailed);
    assert_eq!(handled.reply.subject, "[issues] Your reply could not be created");
    assert!(handled
        .reply
        .body
        .contains("`You can not reply to this issue due to an internal error.`"));
}

#[test]
fn close_is_asked_and_confirmed() {
    let mut store = Store::new();
    let token = file(&mut store, "", 42);
    let tag = format!("{}+close", token.to_string());
    let step = run_request(&mut store, &message(&tag, "a@x.com", "", ""), &conf());
    let (request, pending) = match step {
        Step::Call { request, pending } => (request, pending),
        other => panic!("{:?}", other),
    };
    match request {
        Request::CloseIssue { id } => assert_eq!(id, 42),
        other => panic!("{:?}", other),
    }
    let handled =
        finish_request(&mut store, pending, answer(true, r#"{"state": "closed"}"#), &conf());
    match handled.outcome {
        Outcome::Closed { id } => assert_eq!(id, 42),
        other => panic!("{:?}", other),
    }
    assert_eq!(handled.reply.subject, "[issues] issue `Crash on save` has been closed");
    assert!(handled.reply.body.contains("has been successfully closed"));
    assert_eq!(store.len(), 1);
}

#[test]
fn close_that_left_the_issue_open_is_reported() {
    let mut store = Store::new();
    let token = file(&mut store, "", 42);
    let pending = Pending::Close { token, sender: "a@x.com".to_string() };
    let handled =
        finish_request(&mut store, pending, answer(true, r#"{"state": "open"}"#), &conf());
    assert_eq!(failure(&handled).kind, ErrorKind::RemoteCallFailed);
    assert_eq!(handled.reply.subject, "[issues] issue could not be closed");
}

#[test]
fn failure_status_gets_the_failure_reply_and_changes_nothing() {
    let mut store = Store::new();
    let token = file(&mut store, "", 42);
    let closed = r#"{"number": 42, "state": "closed"}"#;
    let pending = Pending::Close { token, sender: "a@x.com".to_string() };
    let handled = finish_request(&mut store, pending, answer(false, closed), &conf());
    assert_eq!(failure(&handled).kind, ErrorKind::RemoteCallFailed);
    assert_eq!(handled.reply.subject, "[issues] issue could not be closed");
    assert!(handled
        .reply
        .body
        .contains("The reason was: `Issue cannot be closed due to an internal error.`"));

    let pending = Pending::Create {
        title: "Another".to_string(),
        anonymous: false,
        submitter: "b@x.com".to_string(),
    };
    let filed = r#"{"number": 43, "created_at": "2024-01-01T10:00:00Z"}"#;
    let handled = finish_request(&mut store, pending, answer(false, filed), &conf());
    assert_eq!(failure(&handled).kind, ErrorKind::RemoteCallFailed);
    assert_eq!(handled.reply.subject, "[issues] Issue `Another` could not be created");
    assert!(handled
        .reply
        .body
        .contains("The reason was: `Issue cannot be created due to an internal error.`"));
    let all = store.list_all();
    assert_eq!(all.len(), 1);
    assert_eq!(all[0].id, 42);
}

#[test]
fn change_that_could_not_be_kept_is_answered_as_a_failure() {
    let mut store = Store::new();
    let step = run_request(&mut store, &message("", "a@x.com", "Crash on save", "steps"), &conf());
    let pending = match step {
        Step::Call { pending, .. } => pending,
        other => panic!("{:?}", other),
    };
    let handled = finish_request(
        &mut store,
        pending,
        answer(true, r#"{"number": 42, "created_at": "2024-01-01T10:00:00Z"}"#),
        &conf(),
    );
    let handled = unwritten(handled, "Crash on save", Error::new("disk full"), &conf());
    let e = failure(&handled);
    assert_eq!(e.kind, ErrorKind::Other);
    assert_eq!(e.message, "disk full");
    assert_eq!(handled.reply.to, "a@x.com");
    assert_eq!(handled.reply.subject, "[issues] Issue `Crash on save` could not be created");
    assert!(handled.reply.body.contains("The reason was: `disk full`"));

    let token = store.list_all()[0].token;
    let tag = format!("{}+unsubscribe", token.to_string());
    let handled = done(run_request(&mut store, &message(&tag, "a@x.com", "", ""), &conf()));
    let handled = unwritten(handled, "", Error::new("disk full"), &conf());
    assert_eq!(failure(&handled).message, "disk full");
    assert_eq!(handled.reply.subject, "[issues] could not unsubscribe");
    assert!(handled.reply.body.contains("The reason was: `disk full`"));

    let handled = done(run_request(&mut store, &message("help", "a@x.com", "", ""), &conf()));
    let handled = unwritten(handled, "", Error::new("disk full"), &conf());
    assert!(matches!(handled.outcome, Outcome::Invalid));
    assert_eq!(handled.reply.subject, "[issues] invalid request");
}

#[test]
fn invalid_request_gets_the_list_of_valid_ones() {
    let mut store = Store::new();
    file(&mut store, "", 42);
    for tag in ["help", "a+b+c", "anonymous+reply+x", "x+delete"] {
        let handled = done(run_request(&mut store, &message(tag, "b@x.com", "s", "b"), &conf()));
        assert!(matches!(handled.outcome, Outcome::Invalid), "{}", tag);
        assert_eq!(handled.reply.subject, "[issues] invalid request");
        assert_eq!(handled.reply.from, "issues@example.com");
        assert_eq!(handled.reply.to, "b@x.com");
        assert!(handled.reply.body.starts_with("Hello,\n\nYour request was not correct."));
    }
    assert_eq!(store.len(), 1);
}

#[test]
fn filing_adds_exactly_one_issue_under_a_new_token() {
    let mut store = Store::new();
    file(&mut store, "", 1);
    file(&mut store, "anonymous", 2);
    let earlier: Vec<Token> = store.list_all().iter().map(|issue| issue.token).collect();
    let token = file(&mut store, "", 3);
    let all = store.list_all();
    assert_eq!(all.len(), 3);
    let new: Vec<&Token> =
        all.iter().map(|issue| &issue.token).filter(|t| !earlier.contains(t)).collect();
    assert_eq!(new, vec![&token]);
    assert_eq!(all[0].id, 1);
    assert_eq!(all[1].id, 2);
    assert_eq!(all[2].id, 3);
    assert_eq!(all[2].token, token);
}

#[test]
fn token_in_the_reply_acts_on_the_issue() {
    let mut store = Store::new();
    let step = run_request(&mut store, &message("", "a@x.com", "Crash on save", "steps"), &conf());
    let pending = match step {
        Step::Call { pending, .. } => pending,
        other => panic!("{:?}", other),
    };
    let handled = finish_request(
        &mut store,
        pending,
        answer(true, r#"{"number": 42, "created_at": "2024-01-01T10:00:00Z"}"#),
        &conf(),
    );
    let marker = "send an email to issues+";
    let start = handled.reply.body.find(marker).unwrap() + "send an email to ".len();
    let end = start + handled.reply.body[start..].find(".\n").unwrap();
    let address = &handled.reply.body[start..end];
    assert!(address.ends_with("+unsubscribe@example.com"), "{}", address);
    let unsubscribe = Message {
        to: address.to_string(),
        from: "a@x.com".to_string(),
        subject: String::new(),
        body: String::new(),
    };
    let handled = done(run_request(&mut store, &unsubscribe, &conf()));
    assert!(matches!(handled.outcome, Outcome::Subscription { subscribed: false, .. }));
    assert!(!store.list_all()[0].subscribed);
}
