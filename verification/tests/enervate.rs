use tass::chat_enervate::{self, ChatEnervateCommand, ChatEnervateDriver, ChatOutcome};
use tass::chat_enervate::Input as ChatInput;
use tass::engine::{Command, Event, Outcome};
use tass::enervate::{
    self, parse_amount, pick_tass, EnervateCommand, EnervateDriver, EnervateError, EnervateOutcome, Impl, Input,
    Output, State, Step,
};
use tass::json::JsonValue;
use tass::phase::{run_events, run_result, RunError, Stop};
use tass::repo::{envelope, RecordEnvelope};

fn ev(t: &str) -> Event {
    Event {
        actor_did: "did:plc:x".into(),
        source_record: "at://did:plc:x/app.bsky.feed.post/1".into(),
        source_rev: "r".into(),
        subject: "at://did:plc:mage/app.bsky.feed.post/2".into(),
        collection: "app.bsky.feed.post".into(),
        text: t.into(),
    }
}

fn tass_record(uri: &str, form: Option<&str>, quintessence: Option<i64>) -> RecordEnvelope {
    let mut members = Vec::new();
    if let Some(f) = form {
        members.push(("form".to_string(), JsonValue::Str(f.to_string())));
    }
    if let Some(q) = quintessence {
        members.push(("quintessence".to_string(), JsonValue::Int(q)));
    }
    envelope(uri.to_string(), None, JsonValue::Object(members))
}

fn drive(events: Vec<Input>) -> EnervateOutcome {
    let (end, stop, _) = run_events::<Impl>(State::Matched, &events);
    match run_result::<Impl, ()>(end, stop, ()) {
        Ok(out) => out,
        Err(_) => panic!("script exhausted"),
    }
}

#[test]
fn matches_burn_tass_only() {
    let cmd = EnervateCommand;
    assert!(cmd.matches(&ev("please burn my tass")));
    assert!(!cmd.matches(&ev("burn the toast")));
    assert!(!cmd.matches(&ev("hello")));
}

#[test]
fn parses_amount_or_none() {
    assert_eq!(parse_amount("burn 5 tass"), Some(5));
    assert_eq!(parse_amount("burn my tass"), None);
}

#[test]
fn happy_path_burns() {
    let out = drive(vec![Input::FoundTass, Input::Owner, Input::Sufficient, Input::Wrote, Input::Attested]);
    assert_eq!(out, EnervateOutcome::Burned);
}

#[test]
fn short_circuits() {
    assert_eq!(drive(vec![Input::NoTass]), EnervateOutcome::Skipped);
    assert_eq!(drive(vec![Input::FoundTass, Input::NotOwner]), EnervateOutcome::Denied);
    assert_eq!(drive(vec![Input::FoundTass, Input::Owner, Input::Insufficient]), EnervateOutcome::Aborted);
}

#[test]
fn burn_chain_emits_read_write_attest_in_order() {
    let (end, stop, effects) = run_events::<Impl>(State::Matched, &vec![Input::FoundTass, Input::Owner, Input::Sufficient, Input::Wrote, Input::Attested]);
    assert_eq!(end, State::Done);
    assert_eq!(stop, Stop::Finished);
    assert_eq!(effects, vec![Output::ReadBalance, Output::WriteEnervate, Output::WriteAttestation]);
}

#[test]
fn aborted_run_never_writes() {
    let (end, _, effects) = run_events::<Impl>(State::Matched, &vec![Input::FoundTass, Input::Owner, Input::Insufficient, Input::Wrote]);
    assert_eq!(end, State::Aborted);
    assert_eq!(effects, vec![Output::ReadBalance]);
}

#[test]
fn parked_run_resumes_where_it_stopped() {
    let (parked, stop, first) = run_events::<Impl>(State::Matched, &vec![Input::FoundTass, Input::Owner]);
    assert_eq!(stop, Stop::Exhausted);
    assert_eq!(parked, State::Authorized);
    let (end, stop2, rest) = run_events::<Impl>(parked, &vec![Input::Sufficient, Input::Wrote, Input::Attested]);
    assert_eq!((end, stop2), (State::Done, Stop::Finished));
    let mut all = first;
    all.extend(rest);
    assert_eq!(all, vec![Output::ReadBalance, Output::WriteEnervate, Output::WriteAttestation]);
}

#[test]
fn wrong_event_is_stuck() {
    let (end, stop, _) = run_events::<Impl>(State::Matched, &vec![Input::Owner]);
    assert_eq!((end, stop), (State::Matched, Stop::Stuck));
    assert!(matches!(run_result::<Impl, ()>(end, stop, ()), Err(RunError::Stuck)));
}

#[test]
fn amount_is_first_integer_that_fits() {
    assert_eq!(parse_amount("burn 12 of 30 tass"), Some(12));
    assert_eq!(parse_amount("burn 007 tass"), Some(7));
    assert_eq!(parse_amount("burn 99999999999999999999 or 4"), Some(4));
    assert_eq!(parse_amount("burn 9223372036854775807"), Some(i64::MAX));
    assert_eq!(parse_amount("-3 tass"), Some(3));
    assert_eq!(parse_amount(""), None);
}

#[test]
fn picks_tass_by_form_else_first() {
    let records = vec![
        tass_record("at://did:plc:x/t/1", Some("Silver Coin"), Some(5)),
        tass_record("at://did:plc:x/t/2", Some("river-stone"), Some(9)),
    ];
    assert_eq!(pick_tass(&records, "burn my RIVER-STONE tass"), Some(("at://did:plc:x/t/2".to_string(), 9)));
    assert_eq!(pick_tass(&records, "burn my tass"), Some(("at://did:plc:x/t/1".to_string(), 5)));
    let unnamed = vec![tass_record("at://did:plc:x/t/3", Some(""), None)];
    assert_eq!(pick_tass(&unnamed, "burn tass"), Some(("at://did:plc:x/t/3".to_string(), 0)));
    assert_eq!(pick_tass(&[], "burn tass"), None);
}

#[test]
fn driver_decides_sufficiency_from_message_and_balance() {
    let mut d = EnervateDriver::dry_run(ev("burn 3 tass"));
    assert_eq!(d.next_event(State::Matched).unwrap(), Step::ReadTass);
    let found = d.tass_read(&[tass_record("at://did:plc:x/t/1", Some("coin"), Some(5))]);
    assert_eq!(found, Input::FoundTass);
    assert_eq!(d.tass_uri.as_deref(), Some("at://did:plc:x/t/1"));
    assert_eq!(d.next_event(State::Resolved).unwrap(), Step::Report(Input::Owner));
    assert_eq!(d.next_event(State::Authorized).unwrap(), Step::Report(Input::Sufficient));
    assert_eq!(d.amount, 3);

    let mut greedy = EnervateDriver::dry_run(ev("burn 8 tass"));
    greedy.tass_read(&[tass_record("at://did:plc:x/t/1", None, Some(5))]);
    assert_eq!(greedy.next_event(State::Authorized).unwrap(), Step::Report(Input::Insufficient));

    let mut whole = EnervateDriver::dry_run(ev("burn my tass"));
    whole.tass_read(&[tass_record("at://did:plc:x/t/1", None, Some(0))]);
    assert_eq!(whole.next_event(State::Authorized).unwrap(), Step::Report(Input::Insufficient));
}

#[test]
fn driver_refuses_terminal_phases_and_real_writes() {
    let mut d = EnervateDriver::dry_run(ev("burn tass"));
    match d.next_event(State::Done) {
        Err(e) => assert_eq!(e.message(), "driver reached an unexpected phase: Done"),
        Ok(_) => panic!("terminal phase accepted"),
    }
    assert!(d.effect(Output::WriteEnervate).is_ok());
    d.dry_run = false;
    assert!(matches!(d.effect(Output::WriteEnervate), Err(EnervateError::WritesNotWired)));
    assert!(matches!(
        d.consume(State::Authorized, Input::Sufficient),
        Err(RunError::Driver(EnervateError::WritesNotWired))
    ));
    assert!(d.effect(Output::ReadBalance).is_ok());
}

#[test]
fn outcomes_reported_to_engine() {
    assert!(matches!(enervate::report(&Ok(EnervateOutcome::Burned)), Outcome::DryRun));
    assert!(matches!(enervate::report(&Ok(EnervateOutcome::Skipped)), Outcome::Skipped("no tass to burn")));
    assert!(matches!(enervate::report(&Ok(EnervateOutcome::Denied)), Outcome::Denied("not the actor's tass")));
    assert!(matches!(enervate::report(&Ok(EnervateOutcome::Aborted)), Outcome::Skipped("no quintessence available")));
    match enervate::report(&Err(RunError::Driver(EnervateError::Read("boom".into())))) {
        Outcome::Failed(m) => assert_eq!(m, "driver error: reading the actor's tass failed: boom"),
        other => panic!("unexpected {other:?}"),
    }
    match enervate::report(&Err(RunError::Stuck)) {
        Outcome::Failed(m) => assert_eq!(m, "no transition for the produced event"),
        other => panic!("unexpected {other:?}"),
    }
}

#[test]
fn lib_matches_burn_tass_only() {
    let cmd = ChatEnervateCommand;
    assert!(cmd.matches(&ev("please burn my tass")));
    assert!(!cmd.matches(&ev("burn the toast")));
    assert_eq!(cmd.name(), "enervate-chat");
}

#[test]
fn lib_parses_amount_or_none() {
    assert_eq!(parse_amount("burn 5 tass"), Some(5));
    assert_eq!(parse_amount("burn my tass"), None);
}

fn chat_drive(events: Vec<chat_enervate::Input>) -> ChatOutcome {
    let (end, stop, _) = run_events::<chat_enervate::Impl>(chat_enervate::State::Matched, &events);
    match run_result::<chat_enervate::Impl, ()>(end, stop, ()) {
        Ok(out) => out,
        Err(_) => panic!("script exhausted"),
    }
}

#[test]
fn paths() {
    assert_eq!(
        chat_drive(vec![ChatInput::FoundTass, ChatInput::Authorized, ChatInput::Minted]),
        ChatOutcome::Minted
    );
    assert_eq!(chat_drive(vec![ChatInput::NoTass]), ChatOutcome::Skipped);
    assert_eq!(chat_drive(vec![ChatInput::FoundTass, ChatInput::Unauthorized]), ChatOutcome::NeedsAuth);
}

#[test]
fn chat_flight_nudges_until_authorized() {
    let mut d = ChatEnervateDriver::dry_run(ev("burn 2 tass"));
    assert!(!d.user_has_authorized());
    assert_eq!(d.next_event(chat_enervate::State::Matched).unwrap(), chat_enervate::Step::ReadTass);
    let found = d.tass_read(&[tass_record("at://did:plc:x/t/1", None, Some(5))]);
    assert_eq!(found, chat_enervate::Input::FoundTass);
    assert_eq!(d.amount, 2);
    assert_eq!(
        d.next_event(chat_enervate::State::Resolved).unwrap(),
        chat_enervate::Step::Report(chat_enervate::Input::Unauthorized)
    );
    match chat_enervate::report(&Ok(ChatOutcome::NeedsAuth)) {
        Outcome::Skipped(m) => assert_eq!(m, "user has not authorized \u{2014} OAuth web-flow required"),
        other => panic!("unexpected {other:?}"),
    }
}
