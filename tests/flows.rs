use zero2prod::error_chain::error_chain_fmt;
use zero2prod::new_subscriber::FormData;
use zero2prod::sub_confirm::{
    confirm, on_status_update, on_token_lookup, ConfirmAction, ConfirmError, Parameters,
};
use zero2prod::subscriptions::{
    confirmation_link, SubscribeAction, SubscribeError, SubscribeFlow, SubscribeStage,
    SubscriptionStatus,
};

const BASE_URL: &str = "http://127.0.0.1:8000";

fn form(name: &str, email: &str) -> FormData {
    FormData { email: email.to_string(), name: name.to_string() }
}

fn start_valid() -> (SubscribeFlow, SubscribeAction) {
    SubscribeFlow::start(form("le guin", "ursula_le_guin@gmail.com"), BASE_URL.to_string())
        .ok()
        .unwrap()
}

/// Runs a flow, reporting `outcomes` in turn, and returns every action asked for.
fn run(outcomes: &[Result<(), String>]) -> (SubscribeFlow, Vec<SubscribeAction>) {
    let (mut flow, first) = start_valid();
    let mut actions = vec![first];
    for o in outcomes {
        if flow.stage == SubscribeStage::Done {
            break;
        }
        actions.push(flow.step(o.clone()));
    }
    (flow, actions)
}

fn all_ok() -> Vec<Result<(), String>> {
    vec![Ok(()); 5]
}

fn finish_status(a: &SubscribeAction) -> u16 {
    match a {
        SubscribeAction::Finish(Ok(())) => 200,
        SubscribeAction::Finish(Err(e)) => e.status_code(),
        _ => panic!("the flow did not finish"),
    }
}

fn token_of(link: &str) -> String {
    link.split("sub_token=").nth(1).unwrap().to_string()
}

fn sent_email(actions: &[SubscribeAction]) -> (String, String, String, String) {
    let sent: Vec<_> = actions
        .iter()
        .filter_map(|a| match a {
            SubscribeAction::SendEmail(e) => Some((
                e.recipient.clone(),
                e.subject.clone(),
                e.html_body.clone(),
                e.plain_body.clone(),
            )),
            _ => None,
        })
        .collect();
    assert_eq!(sent.len(), 1);
    sent[0].clone()
}

fn link_in(body: &str) -> String {
    let start = body.find("http://").unwrap();
    let rest = &body[start..];
    let end = rest.find(|c: char| c == '"' || c == ' ').unwrap();
    rest[..end].to_string()
}

#[test]
fn subscriptions_subscribe_returns_a_200_for_valid_form_data() {
    let (_, actions) = run(&all_ok());
    assert_eq!(finish_status(actions.last().unwrap()), 200);
}

#[test]
fn subscribe_persists_data_in_db() {
    let (flow, actions) = run(&all_ok());
    match &actions[1] {
        SubscribeAction::InsertSubscriber { sub_id, email, name, status, .. } => {
            assert_eq!(email, "ursula_le_guin@gmail.com");
            assert_eq!(name, "le guin");
            assert_eq!(status.as_str(), "pending_confirmation");
            assert_eq!(*sub_id, flow.sub_id);
        }
        _ => panic!("the second action must insert the subscriber"),
    }
    match &actions[2] {
        SubscribeAction::StoreToken { sub_token, sub_id } => {
            assert_eq!(sub_token, &flow.sub_token);
            assert_eq!(*sub_id, flow.sub_id);
        }
        _ => panic!("the third action must store the token"),
    }
}

#[test]
fn subscribe_asks_for_the_steps_in_order() {
    let (_, actions) = run(&all_ok());
    assert_eq!(actions.len(), 6);
    assert!(matches!(actions[0], SubscribeAction::BeginTransaction));
    assert!(matches!(actions[1], SubscribeAction::InsertSubscriber { .. }));
    assert!(matches!(actions[2], SubscribeAction::StoreToken { .. }));
    assert!(matches!(actions[3], SubscribeAction::CommitTransaction));
    assert!(matches!(actions[4], SubscribeAction::SendEmail(_)));
    assert!(matches!(actions[5], SubscribeAction::Finish(Ok(()))));
}

#[test]
fn subscribe_returns_a_400_when_fields_are_present_but_invalid() {
    let cases = vec![
        (form("", "ursula_le_guin@gmail.com"), "empty name"),
        (form("Ursula", ""), "empty email"),
        (form("Ursula", "definitely-not-an-email"), "invalid email"),
    ];
    for (f, description) in cases {
        match SubscribeFlow::start(f, BASE_URL.to_string()) {
            Err(e) => {
                assert_eq!(e.status_code(), 400, "payload was {}", description);
                assert!(matches!(e, SubscribeError::ValidationError(_)));
            }
            Ok(_) => panic!("The API did not return a 400 when the payload was {}.", description),
        }
    }
}

#[test]
fn subscribe_sends_a_confirmation_email_for_valid_data() {
    let (flow, actions) = run(&all_ok());
    let (recipient, subject, html, plain) = sent_email(&actions);
    assert_eq!(recipient, "ursula_le_guin@gmail.com");
    assert_eq!(subject, "Welcome!");
    let expected = format!("{}/subscriptions/confirm?sub_token={}", BASE_URL, flow.sub_token);
    assert_eq!(link_in(&html), expected);
    assert_eq!(link_in(&plain), expected);
}

#[test]
fn confirmation_email_bodies_are_exact() {
    let (flow, actions) = run(&all_ok());
    let (_, _, html, plain) = sent_email(&actions);
    let link = format!("{}/subscriptions/confirm?sub_token={}", BASE_URL, flow.sub_token);
    assert_eq!(
        html,
        format!(
            "Welcome to our newsletter!<br />Click <a href=\"{}\">here</a> to confirm your subscription.",
            link
        )
    );
    assert_eq!(
        plain,
        format!("Welcome to our newsletter!\nVisit {} to confirm your subscription.", link)
    );
}

#[test]
fn confirmation_link_is_exact() {
    assert_eq!(
        confirmation_link("https://news.example", "abc123"),
        "https://news.example/subscriptions/confirm?sub_token=abc123"
    );
}

#[test]
fn confirmations_without_token_are_rejected_with_a_400() {
    match confirm(None) {
        ConfirmAction::Finish(Err(e)) => {
            assert!(matches!(e, ConfirmError::MissingToken));
            assert_eq!(e.status_code(), 400);
        }
        _ => panic!("a request without a token must be refused"),
    }
}

#[test]
fn unknown_tokens_are_rejected_and_change_nothing() {
    let a = confirm(Some(Parameters { sub_token: "unknownTokenValue12345678".to_string() }));
    assert!(matches!(a, ConfirmAction::LookupToken(ref t) if t == "unknownTokenValue12345678"));
    match on_token_lookup(Ok(None)) {
        ConfirmAction::Finish(Err(e)) => {
            assert!(matches!(e, ConfirmError::TokenNotFound));
            assert_eq!(e.status_code(), 401);
        }
        _ => panic!("an unknown token must be refused"),
    }
}

#[test]
fn the_link_returned_by_subscribe_returns_a_200_if_called() {
    let (flow, actions) = run(&all_ok());
    let (_, _, html, _) = sent_email(&actions);
    let link = link_in(&html);
    assert!(link.starts_with("http://127.0.0.1"));
    let token = token_of(&link);
    assert_eq!(token, flow.sub_token);
    let a = confirm(Some(Parameters { sub_token: token.clone() }));
    assert!(matches!(a, ConfirmAction::LookupToken(ref t) if *t == token));
    assert!(matches!(on_token_lookup(Ok(Some(flow.sub_id))), ConfirmAction::MarkConfirmed { .. }));
    assert!(matches!(on_status_update(Ok(())), ConfirmAction::Finish(Ok(()))));
}

#[test]
fn clicking_on_the_confirmation_link_confirms_a_subscriber() {
    let (flow, actions) = run(&all_ok());
    let (_, _, _, plain) = sent_email(&actions);
    let token = token_of(&link_in(&plain));
    assert_eq!(token.len(), 25);
    match on_token_lookup(Ok(Some(flow.sub_id))) {
        ConfirmAction::MarkConfirmed { sub_id, status } => {
            assert_eq!(sub_id, flow.sub_id);
            assert_eq!(status, SubscriptionStatus::Confirmed);
            assert_eq!(status.as_str(), "confirmed");
        }
        _ => panic!("a known token must confirm its subscriber"),
    }
}

#[test]
fn confirm_storage_failures_are_500() {
    match on_token_lookup(Err("connection reset".to_string())) {
        ConfirmAction::Finish(Err(e)) => {
            assert_eq!(e.status_code(), 500);
            assert!(matches!(e, ConfirmError::LookupError(ref c) if c == "connection reset"));
        }
        _ => panic!("a failed lookup must end the confirmation"),
    }
    match on_status_update(Err("disk full".to_string())) {
        ConfirmAction::Finish(Err(e)) => {
            assert_eq!(e.status_code(), 500);
            assert!(matches!(e, ConfirmError::UpdateError(ref c) if c == "disk full"));
        }
        _ => panic!("a failed update must end the confirmation"),
    }
}

#[test]
fn store_token_fails() {
    let outcomes = vec![Ok(()), Ok(()), Err("column sub_token does not exist".to_string())];
    let (flow, actions) = run(&outcomes);
    assert_eq!(flow.stage, SubscribeStage::Done);
    let last = actions.last().unwrap();
    assert_eq!(finish_status(last), 500);
    assert!(matches!(last, SubscribeAction::Finish(Err(SubscribeError::StoreTokenError(_)))));
    assert!(!actions.iter().any(|a| matches!(a, SubscribeAction::CommitTransaction)));
    assert!(!actions.iter().any(|a| matches!(a, SubscribeAction::SendEmail(_))));
}

#[test]
fn insert_sub_fails() {
    let outcomes = vec![Ok(()), Err("column email does not exist".to_string())];
    let (_, actions) = run(&outcomes);
    let last = actions.last().unwrap();
    assert_eq!(finish_status(last), 500);
    assert!(matches!(last, SubscribeAction::Finish(Err(SubscribeError::InsertSubscriberError(_)))));
    assert_eq!(actions.len(), 3);
}

#[test]
fn send_email_fails() {
    let mut outcomes = vec![Ok(()); 4];
    outcomes.push(Err("500 from the email service".to_string()));
    let (_, actions) = run(&outcomes);
    let last = actions.last().unwrap();
    assert_eq!(finish_status(last), 500);
    assert!(matches!(last, SubscribeAction::Finish(Err(SubscribeError::SendEmailError(_)))));
    // The commit was asked for before the email, and is not undone.
    assert!(matches!(actions[3], SubscribeAction::CommitTransaction));
}

#[test]
fn pool_and_commit_failures_are_500() {
    let (_, actions) = run(&[Err("pool timed out".to_string())]);
    assert!(matches!(actions.last().unwrap(), SubscribeAction::Finish(Err(SubscribeError::PoolError(_)))));
    let (_, actions) = run(&[Ok(()), Ok(()), Ok(()), Err("serialization failure".to_string())]);
    let last = actions.last().unwrap();
    assert_eq!(finish_status(last), 500);
    assert!(matches!(last, SubscribeAction::Finish(Err(SubscribeError::TransactionCommitError(ref c))) if c == "serialization failure"));
}

#[test]
fn every_start_gets_its_own_token_and_id() {
    let (a, _) = start_valid();
    let (b, _) = start_valid();
    assert_ne!(a.sub_token, b.sub_token);
    assert_ne!(a.sub_id, b.sub_id);
    assert_eq!(a.sub_token.len(), 25);
}

#[test]
fn duplicate_subscriptions_are_not_deduplicated() {
    // No uniqueness is enforced on the address: a second request for the same
    // address is accepted and gets its own identity.
    let (a, _) = start_valid();
    let (b, _) = start_valid();
    assert_eq!(a.new_subscriber.email.as_ref(), b.new_subscriber.email.as_ref());
    assert_ne!(a.sub_id, b.sub_id);
}

#[test]
fn subscribe_error_messages() {
    assert_eq!(SubscribeError::ValidationError("bad name".to_string()).message(), "bad name");
    assert_eq!(
        SubscribeError::PoolError("x".to_string()).message(),
        "Failed to acquire a Postgres connection from the pool"
    );
    assert_eq!(
        SubscribeError::InsertSubscriberError("x".to_string()).message(),
        "Failed to insert new subscriber in the database."
    );
    assert_eq!(
        SubscribeError::StoreTokenError("x".to_string()).message(),
        "Failed to store the confirmation token for a new subscriber."
    );
    assert_eq!(
        SubscribeError::TransactionCommitError("x".to_string()).message(),
        "Failed to commit SQL transaction to store a new subscriber."
    );
    assert_eq!(
        SubscribeError::SendEmailError("x".to_string()).message(),
        "Failed to send a confirmation email."
    );
    let from: SubscribeError = String::from("oops").into();
    assert!(matches!(from, SubscribeError::ValidationError(ref m) if m == "oops"));
}

#[test]
fn error_chain_lists_each_cause() {
    let causes = vec!["db error".to_string(), "io error".to_string()];
    assert_eq!(
        error_chain_fmt("Failed to store", &causes),
        "Failed to store\n\nCaused by: \n\tdb error\nCaused by: \n\tio error\n"
    );
    assert_eq!(error_chain_fmt("alone", &Vec::new()), "alone\n\n");
}
