use webgrid_smoke::interaction::{
    expected_title, first_title_match, progress_cookie, status_cookie, typed_hash_value,
    InteractionPhase, ScriptedInteraction, StepAction, StepEvent, Target,
};
use webgrid_smoke::metadata::WebgridMetadataCommand;

const PAGE_BODY: &str = "<html></html>";

fn acked() -> StepEvent {
    StepEvent::Acked
}

fn text(t: &str) -> StepEvent {
    StepEvent::Text { text: t.to_owned() }
}

fn texts(ts: &[&str]) -> StepEvent {
    StepEvent::Texts { texts: ts.iter().map(|t| (*t).to_owned()).collect() }
}

fn failed(reason: &str) -> StepEvent {
    StepEvent::Failed { reason: reason.to_owned() }
}

/// Drive a fresh interaction up to the phase that reads the counter again,
/// with the counter first read as `before`.
fn interaction_at_reread(before: &str) -> ScriptedInteraction {
    let mut machine = ScriptedInteraction::new(PAGE_BODY);
    machine.step(acked());
    machine.step(acked());
    machine.step(texts(&["Horrible looking test-page"]));
    machine.step(text(before));
    machine.step(acked());
    machine
}

#[test]
fn the_navigate_action_carries_the_inline_page_as_a_data_url() {
    let machine = ScriptedInteraction::new(PAGE_BODY);
    assert_eq!(machine.phase, InteractionPhase::Navigating);
    match machine.current_action() {
        StepAction::Navigate { url } => {
            assert_eq!(url, "data:text/html;charset=utf-8;base64,PGh0bWw+PC9odG1sPg==");
        },
        _ => panic!("the first action must navigate"),
    }
    assert_eq!(machine.progress_message(), Some("Visiting demo page"));
}

#[test]
fn the_full_script_succeeds_in_order() {
    let mut machine = ScriptedInteraction::new(PAGE_BODY);

    machine.step(acked());
    assert_eq!(machine.phase, InteractionPhase::AttachingMetadata);
    match machine.current_action() {
        StepAction::AttachMetadata { command } => {
            assert_eq!(command.lookup("answer").unwrap(), "42");
        },
        _ => panic!("after navigating, the runtime metadata is attached"),
    }

    machine.step(acked());
    assert_eq!(machine.phase, InteractionPhase::ReadingTitle);
    assert_eq!(machine.progress_message(), Some("Checking title"));
    match machine.current_action() {
        StepAction::ReadAllTexts { target } => assert_eq!(target, Target::TitleHeading),
        _ => panic!("the title step reads every matching heading"),
    }

    machine.step(texts(&["Horrible looking test-page"]));
    assert_eq!(machine.phase, InteractionPhase::ReadingCounter);
    assert_eq!(machine.progress_message(), Some("Checking increment"));

    machine.step(text("41"));
    assert_eq!(machine.phase, InteractionPhase::Clicking { before: 41 });
    match machine.current_action() {
        StepAction::Click { target } => assert_eq!(target, Target::IncrementButton),
        _ => panic!("the mutate step clicks the increment button"),
    }

    machine.step(acked());
    assert_eq!(machine.phase, InteractionPhase::RereadingCounter { before: 41 });

    machine.step(text("42"));
    assert_eq!(machine.phase, InteractionPhase::TypingHash);
    assert_eq!(machine.progress_message(), Some("Checking hash value"));
    match machine.current_action() {
        StepAction::TypeAndSubmit { target, text } => {
            assert_eq!(target, Target::HashInput);
            assert_eq!(text, typed_hash_value());
        },
        _ => panic!("the hash step types the fixed value"),
    }

    machine.step(acked());
    assert_eq!(machine.phase, InteractionPhase::ReadingHash);

    machine.step(text(typed_hash_value()));
    assert_eq!(machine.phase, InteractionPhase::Finished { success: true });
    assert_eq!(machine.failure, None);
    assert_eq!(machine.note.as_deref(), Some("It worked!"));
}

#[test]
fn a_title_mismatch_reports_expected_and_actual() {
    let mut machine = ScriptedInteraction::new(PAGE_BODY);
    machine.step(acked());
    machine.step(acked());
    machine.step(texts(&["Beautiful looking test-page"]));
    assert_eq!(machine.phase, InteractionPhase::Finished { success: false });
    assert_eq!(
        machine.failure.as_deref(),
        Some(
            "title mismatch: expected \"Horrible looking test-page\", got \"Beautiful looking test-page\""
        )
    );
    assert_eq!(machine.note.as_deref(), Some("Title mismatch."));
}

#[test]
fn the_title_assertion_ignores_ascii_case() {
    let mut machine = ScriptedInteraction::new(PAGE_BODY);
    machine.step(acked());
    machine.step(acked());
    machine.step(texts(&["HORRIBLE LOOKING TEST-PAGE"]));
    assert_eq!(machine.phase, InteractionPhase::ReadingCounter);
}

#[test]
fn a_subset_of_located_elements_may_match() {
    let headings = vec![
        "wrong".to_owned(),
        "Horrible looking TEST-PAGE".to_owned(),
        "also wrong".to_owned(),
    ];
    assert_eq!(first_title_match(&headings), Some(1));
    assert_eq!(first_title_match(&vec!["no".to_owned()]), None);
    assert_eq!(expected_title(), "Horrible looking test-page");

    let mut machine = ScriptedInteraction::new(PAGE_BODY);
    machine.step(acked());
    machine.step(acked());
    machine.step(texts(&["wrong", "Horrible looking test-page"]));
    assert_eq!(machine.phase, InteractionPhase::ReadingCounter);
}

#[test]
fn a_broken_increment_reports_expected_and_actual() {
    let mut machine = interaction_at_reread("41");
    machine.step(text("43"));
    assert_eq!(machine.phase, InteractionPhase::Finished { success: false });
    assert_eq!(
        machine.failure.as_deref(),
        Some("increment is broken: expected 42, got 43")
    );
    assert_eq!(machine.note.as_deref(), Some("Increment is broken."));
}

#[test]
fn a_counter_that_is_not_a_number_is_terminal() {
    let mut machine = ScriptedInteraction::new(PAGE_BODY);
    machine.step(acked());
    machine.step(acked());
    machine.step(texts(&["Horrible looking test-page"]));
    machine.step(text("soon"));
    assert_eq!(machine.phase, InteractionPhase::Finished { success: false });
    assert_eq!(
        machine.failure.as_deref(),
        Some("counter value is not an integer: soon")
    );
    assert_eq!(machine.note, None);
}

#[test]
fn the_increment_assertion_handles_the_extremes() {
    let mut machine = interaction_at_reread("2147483646");
    machine.step(text("2147483647"));
    assert_eq!(machine.phase, InteractionPhase::TypingHash);

    let mut machine = interaction_at_reread("2147483647");
    machine.step(text("2147483647"));
    assert_eq!(machine.phase, InteractionPhase::Finished { success: false });
    assert_eq!(
        machine.failure.as_deref(),
        Some("increment is broken: expected 2147483648, got 2147483647")
    );

    let mut machine = interaction_at_reread("-2");
    machine.step(text("-1"));
    assert_eq!(machine.phase, InteractionPhase::TypingHash);
}

#[test]
fn the_typed_hash_value_must_round_trip_byte_for_byte() {
    let mut machine = interaction_at_reread("0");
    machine.step(text("1"));
    machine.step(acked());
    machine.step(text("No emojis allowed here :"));
    assert_eq!(machine.phase, InteractionPhase::Finished { success: false });
    assert_eq!(
        machine.failure.as_deref(),
        Some("hash value updating is broken: No emojis allowed here : != No emojis allowed here :(")
    );
    assert_eq!(machine.note.as_deref(), Some("Hash value updating is broken."));
}

#[test]
fn a_transport_failure_is_terminal_wherever_it_strikes() {
    let mut machine = ScriptedInteraction::new(PAGE_BODY);
    machine.step(failed("net::ERR_CONNECTION_REFUSED"));
    assert_eq!(machine.phase, InteractionPhase::Finished { success: false });
    assert_eq!(machine.failure.as_deref(), Some("net::ERR_CONNECTION_REFUSED"));
    assert_eq!(machine.note, None);

    let mut machine = interaction_at_reread("0");
    machine.step(failed("element not found"));
    assert_eq!(machine.phase, InteractionPhase::Finished { success: false });
    assert_eq!(machine.failure.as_deref(), Some("element not found"));
}

#[test]
fn a_metadata_failure_is_swallowed() {
    let mut machine = ScriptedInteraction::new(PAGE_BODY);
    machine.step(acked());
    machine.step(failed("metadata endpoint missing"));
    assert_eq!(machine.phase, InteractionPhase::ReadingTitle);
    assert_eq!(machine.failure, None);
}

#[test]
fn telemetry_cookies_carry_json_encoded_values() {
    let (name, value) = progress_cookie("Visiting demo page");
    assert_eq!(name, "webgrid:message");
    assert_eq!(value, "\"Visiting demo page\"");

    let (name, value) = status_cookie(true);
    assert_eq!(name, "webgrid:metadata.session:status");
    assert_eq!(value, "\"success\"");

    let (_, value) = status_cookie(false);
    assert_eq!(value, "\"failure\"");
}

#[test]
fn metadata_fields_insert_and_replace() {
    let mut command = WebgridMetadataCommand::new();
    assert_eq!(command.lookup("name"), None);
    command.add("name".to_owned(), "first".to_owned());
    command.add("build".to_owned(), "b1".to_owned());
    command.add("name".to_owned(), "second".to_owned());
    assert_eq!(command.lookup("name").unwrap(), "second");
    assert_eq!(command.lookup("build").unwrap(), "b1");
    assert_eq!(command.lookup("absent"), None);
    assert_eq!(command.endpoint_path(), "/webgrid/metadata");

    let single = WebgridMetadataCommand::with_field("answer".to_owned(), "42".to_owned());
    assert_eq!(single.lookup("answer").unwrap(), "42");
}

#[test]
fn a_title_mismatch_fails_one_task_and_leaves_siblings_alone() {
    let mut tally = webgrid_smoke::tally::Tally::new(2);

    let mut broken = ScriptedInteraction::new(PAGE_BODY);
    broken.step(acked());
    broken.step(acked());
    broken.step(texts(&["Wrong title"]));
    let failed_reason = broken.failure.clone().expect("the mismatching task must fail");
    assert!(failed_reason.contains("Horrible looking test-page"));
    assert!(failed_reason.contains("Wrong title"));
    tally.record(matches!(broken.phase, InteractionPhase::Finished { success: true }));

    let mut healthy = ScriptedInteraction::new(PAGE_BODY);
    healthy.step(acked());
    healthy.step(acked());
    healthy.step(texts(&["Horrible looking test-page"]));
    healthy.step(text("0"));
    healthy.step(acked());
    healthy.step(text("1"));
    healthy.step(acked());
    healthy.step(text(typed_hash_value()));
    tally.record(matches!(healthy.phase, InteractionPhase::Finished { success: true }));

    let summary = tally.summary();
    assert_eq!(summary.failed, 1);
    assert_eq!(summary.succeeded(), 1);
    assert_eq!(summary.exit_code(), 1);
}

#[test]
fn locators_name_the_fixture_elements() {
    assert_eq!(Target::TitleHeading.locator(), ("tag", "h1"));
    assert_eq!(Target::Counter.locator(), ("id", "counter"));
    assert_eq!(Target::IncrementButton.locator(), ("id", "increment"));
    assert_eq!(Target::HashInput.locator(), ("id", "newHashValue"));
    assert_eq!(Target::HashValue.locator(), ("id", "hashValue"));
}
