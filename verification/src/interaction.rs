//! The scripted interaction: a strictly ordered sequence of steps against one
//! open session. Any step's failure is terminal for the interaction — no
//! retry, no skipping. The machine here decides every transition; the caller
//! performs the remote calls the current action names and feeds the result
//! back as an event.

use vstd::prelude::*;
use vstd::string::StringSliceAdditionalSpecFns;
use crate::metadata::WebgridMetadataCommand;
use crate::remote::{demo_page_url, json_encode_str, json_string_of, page_data_url};
use crate::text::{
    eq_ascii_ci, i32_numeral_value, i64_to_dec, parse_i32, signed_dec, str_eq,
    str_eq_ignore_ascii_case, valid_i32_numeral,
};

verus! {

/// The elements the script touches, each with its locator.
#[derive(Clone, Copy, Debug, PartialEq, Eq, Structural)]
pub enum Target {
    TitleHeading,
    Counter,
    IncrementButton,
    HashInput,
    HashValue,
}

impl Target {
    /// The locator of the target: a tag-name strategy for the heading, an
    /// element id for the rest.
    pub fn locator(&self) -> (r: (&'static str, &'static str))
        ensures
            self is TitleHeading ==> r.0@ == "tag"@ && r.1@ == "h1"@,
            self is Counter ==> r.0@ == "id"@ && r.1@ == "counter"@,
            self is IncrementButton ==> r.0@ == "id"@ && r.1@ == "increment"@,
            self is HashInput ==> r.0@ == "id"@ && r.1@ == "newHashValue"@,
            self is HashValue ==> r.0@ == "id"@ && r.1@ == "hashValue"@,
    {
        match self {
            Target::TitleHeading => ("tag", "h1"),
            Target::Counter => ("id", "counter"),
            Target::IncrementButton => ("id", "increment"),
            Target::HashInput => ("id", "newHashValue"),
            Target::HashValue => ("id", "hashValue"),
        }
    }
}

/// The title the page must carry, compared ignoring ASCII case.
pub open spec fn expected_title_seq() -> Seq<char> {
    "Horrible looking test-page"@
}

/// The expected page title.
pub fn expected_title() -> (r: &'static str)
    ensures
        r@ == expected_title_seq(),
{
    "Horrible looking test-page"
}

/// The value the script types into the hash input and must read back
/// byte for byte.
pub open spec fn typed_hash_seq() -> Seq<char> {
    "No emojis allowed here :("@
}

/// The value typed into the hash input.
pub fn typed_hash_value() -> (r: &'static str)
    ensures
        r@ == typed_hash_seq(),
{
    "No emojis allowed here :("
}

/// Whether any of the located elements' texts satisfies the title assertion.
/// Scanned in order; it is not an error for only a subset to match.
pub open spec fn title_match(texts: Seq<String>) -> bool {
    exists|i: int| 0 <= i < texts.len() && eq_ascii_ci(#[trigger] texts[i]@, expected_title_seq())
}

/// The title assertion's failure reason, carrying expected and actual.
pub open spec fn title_mismatch_reason(actual: Seq<char>) -> Seq<char> {
    "title mismatch: expected \""@ + expected_title_seq() + "\", got \""@ + actual + "\""@
}

/// The failure reason of a counter text that is not a decimal integer.
pub open spec fn counter_parse_reason(text: Seq<char>) -> Seq<char> {
    "counter value is not an integer: "@ + text
}

/// The increment assertion's failure reason, carrying expected and actual.
pub open spec fn increment_mismatch_reason(before: int, actual: int) -> Seq<char> {
    "increment is broken: expected "@ + signed_dec(before + 1) + ", got "@ + signed_dec(actual)
}

/// The round-trip assertion's failure reason, carrying actual and expected.
pub open spec fn hash_mismatch_reason(actual: Seq<char>) -> Seq<char> {
    "hash value updating is broken: "@ + actual + " != "@ + typed_hash_seq()
}

/// Where the interaction stands: the states of the step sequence, in order,
/// with the terminal `Finished` at the end.
#[derive(Clone, Copy, Debug, PartialEq, Eq, Structural)]
pub enum InteractionPhase {
    Navigating,
    AttachingMetadata,
    ReadingTitle,
    ReadingCounter,
    Clicking { before: i32 },
    RereadingCounter { before: i32 },
    TypingHash,
    ReadingHash,
    Finished { success: bool },
}

/// What the caller must do against the session for the current phase.
pub enum StepAction {
    Navigate { url: String },
    AttachMetadata { command: WebgridMetadataCommand },
    ReadAllTexts { target: Target },
    ReadText { target: Target },
    Click { target: Target },
    TypeAndSubmit { target: Target, text: String },
    Report,
}

/// What came back from the session for the current phase.
pub enum StepEvent {
    Acked,
    Texts { texts: Vec<String> },
    Text { text: String },
    Failed { reason: String },
}

/// Which events a phase can consume: an acknowledgement where an action was
/// performed, texts where elements were read, and a failure anywhere.
pub open spec fn event_fits(phase: InteractionPhase, event: StepEvent) -> bool {
    match phase {
        InteractionPhase::Navigating => event is Acked || event is Failed,
        InteractionPhase::AttachingMetadata => event is Acked || event is Failed,
        InteractionPhase::ReadingTitle => (event matches StepEvent::Texts { texts } && texts@.len()
            > 0) || event is Failed,
        InteractionPhase::ReadingCounter => event is Text || event is Failed,
        InteractionPhase::Clicking { .. } => event is Acked || event is Failed,
        InteractionPhase::RereadingCounter { .. } => event is Text || event is Failed,
        InteractionPhase::TypingHash => event is Acked || event is Failed,
        InteractionPhase::ReadingHash => event is Text || event is Failed,
        InteractionPhase::Finished { .. } => false,
    }
}

/// One session's scripted interaction, driven step by step.
pub struct ScriptedInteraction {
    pub phase: InteractionPhase,
    pub page_url: String,
    pub failure: Option<String>,
    pub note: Option<String>,
}

/// The machine failed with the given reason and no closing telemetry note.
pub open spec fn failed_quiet(s: ScriptedInteraction, reason: Seq<char>) -> bool {
    &&& s.phase matches InteractionPhase::Finished { success } && !success
    &&& s.failure matches Some(f) && f@ == reason
    &&& s.note is None
}

/// The machine failed with the given reason and closing telemetry note.
pub open spec fn failed_noted(s: ScriptedInteraction, reason: Seq<char>, note: Seq<char>) -> bool {
    &&& s.phase matches InteractionPhase::Finished { success } && !success
    &&& s.failure matches Some(f) && f@ == reason
    &&& s.note matches Some(n) && n@ == note
}

/// The machine succeeded, with the closing telemetry note.
pub open spec fn succeeded(s: ScriptedInteraction) -> bool {
    &&& s.phase matches InteractionPhase::Finished { success } && success
    &&& s.failure is None
    &&& s.note matches Some(n) && n@ == "It worked!"@
}

impl ScriptedInteraction {
    /// A terminal phase records a failure reason exactly on failure; before
    /// that, nothing is recorded.
    pub open spec fn wf(self) -> bool {
        &&& (self.phase matches InteractionPhase::Finished { success } ==> (success <==> self.failure is None))
        &&& (!(self.phase is Finished) ==> self.failure is None && self.note is None)
    }

    /// Start the interaction for a session about to visit the given page
    /// body, inlined as a data URL.
    pub fn new(page_body: &str) -> (r: Self)
        requires
            page_body.spec_bytes().len() <= usize::MAX / 4,
        ensures
            r.wf(),
            r.phase is Navigating,
            r.page_url@ == page_data_url(page_body.spec_bytes()),
    {
        ScriptedInteraction {
            phase: InteractionPhase::Navigating,
            page_url: demo_page_url(page_body),
            failure: None,
            note: None,
        }
    }

    /// The rolling progress message to emit on entering the current phase,
    /// where the script reports one.
    pub fn progress_message(&self) -> (r: Option<&'static str>)
        ensures
            self.phase is Navigating ==> (r matches Some(m) && m@ == "Visiting demo page"@),
            self.phase is ReadingTitle ==> (r matches Some(m) && m@ == "Checking title"@),
            self.phase is ReadingCounter ==> (r matches Some(m) && m@ == "Checking increment"@),
            self.phase is TypingHash ==> (r matches Some(m) && m@ == "Checking hash value"@),
            !(self.phase is Navigating || self.phase is ReadingTitle || self.phase
                is ReadingCounter || self.phase is TypingHash) ==> r is None,
    {
        match self.phase {
            InteractionPhase::Navigating => Some("Visiting demo page"),
            InteractionPhase::ReadingTitle => Some("Checking title"),
            InteractionPhase::ReadingCounter => Some("Checking increment"),
            InteractionPhase::TypingHash => Some("Checking hash value"),
            _ => None,
        }
    }

    /// The remote call the caller must make for the current phase.
    pub fn current_action(&self) -> (r: StepAction)
        ensures
            self.phase is Navigating ==> (r matches StepAction::Navigate { url } && url@
                == self.page_url@),
            self.phase is AttachingMetadata ==> (r matches StepAction::AttachMetadata { command }
                && command@ == Map::<Seq<char>, Seq<char>>::empty().insert("answer"@, "42"@)),
            self.phase is ReadingTitle ==> (r matches StepAction::ReadAllTexts { target } && target
                is TitleHeading),
            self.phase is ReadingCounter ==> (r matches StepAction::ReadText { target } && target
                is Counter),
            self.phase is Clicking ==> (r matches StepAction::Click { target } && target
                is IncrementButton),
            self.phase is RereadingCounter ==> (r matches StepAction::ReadText { target } && target
                is Counter),
            self.phase is TypingHash ==> (r matches StepAction::TypeAndSubmit { target, text }
                && target is HashInput && text@ == typed_hash_seq()),
            self.phase is ReadingHash ==> (r matches StepAction::ReadText { target } && target
                is HashValue),
            self.phase is Finished ==> r is Report,
    {
        match self.phase {
            InteractionPhase::Navigating => StepAction::Navigate { url: self.page_url.clone() },
            InteractionPhase::AttachingMetadata => StepAction::AttachMetadata {
                command: WebgridMetadataCommand::with_field("answer".to_owned(), "42".to_owned()),
            },
            InteractionPhase::ReadingTitle => StepAction::ReadAllTexts {
                target: Target::TitleHeading,
            },
            InteractionPhase::ReadingCounter => StepAction::ReadText { target: Target::Counter },
            InteractionPhase::Clicking { .. } => StepAction::Click {
                target: Target::IncrementButton,
            },
            InteractionPhase::RereadingCounter { .. } => StepAction::ReadText {
                target: Target::Counter,
            },
            InteractionPhase::TypingHash => StepAction::TypeAndSubmit {
                target: Target::HashInput,
                text: typed_hash_value().to_owned(),
            },
            InteractionPhase::ReadingHash => StepAction::ReadText { target: Target::HashValue },
            InteractionPhase::Finished { .. } => StepAction::Report,
        }
    }

    /// Consume the result of the current phase's action and move to the next
    /// state of the step sequence. Steps run strictly in order; the first
    /// failure is terminal. The metadata step alone swallows its failure,
    /// being pure telemetry.
    pub fn step(&mut self, event: StepEvent)
        requires
            old(self).wf(),
            event_fits(old(self).phase, event),
        ensures
            final(self).wf(),
            final(self).page_url == old(self).page_url,
            old(self).phase is Navigating ==> (match event {
                StepEvent::Acked => final(self).phase is AttachingMetadata && final(self).failure
                    is None,
                StepEvent::Failed { reason } => failed_quiet(*final(self), reason@),
                _ => false,
            }),
            old(self).phase is AttachingMetadata ==> (final(self).phase is ReadingTitle
                && final(self).failure is None),
            old(self).phase is ReadingTitle ==> (match event {
                StepEvent::Texts { texts } => (if title_match(texts@) {
                    final(self).phase is ReadingCounter && final(self).failure is None
                } else {
                    failed_noted(
                        *final(self),
                        title_mismatch_reason(texts@[0]@),
                        "Title mismatch."@,
                    )
                }),
                StepEvent::Failed { reason } => failed_quiet(*final(self), reason@),
                _ => false,
            }),
            old(self).phase is ReadingCounter ==> (match event {
                StepEvent::Text { text } => (if valid_i32_numeral(text@) {
                    final(self).phase matches InteractionPhase::Clicking { before } && before
                        == i32_numeral_value(text@) && final(self).failure is None
                } else {
                    failed_quiet(*final(self), counter_parse_reason(text@))
                }),
                StepEvent::Failed { reason } => failed_quiet(*final(self), reason@),
                _ => false,
            }),
            old(self).phase matches InteractionPhase::Clicking { before } ==> (match event {
                StepEvent::Acked => (final(self).phase
                    matches InteractionPhase::RereadingCounter { before: after } && after == before
                    && final(self).failure is None),
                StepEvent::Failed { reason } => failed_quiet(*final(self), reason@),
                _ => false,
            }),
            old(self).phase matches InteractionPhase::RereadingCounter { before } ==> (match event {
                StepEvent::Text { text } => (if valid_i32_numeral(text@) {
                    if i32_numeral_value(text@) == before + 1 {
                        final(self).phase is TypingHash && final(self).failure is None
                    } else {
                        failed_noted(
                            *final(self),
                            increment_mismatch_reason(before as int, i32_numeral_value(text@)),
                            "Increment is broken."@,
                        )
                    }
                } else {
                    failed_quiet(*final(self), counter_parse_reason(text@))
                }),
                StepEvent::Failed { reason } => failed_quiet(*final(self), reason@),
                _ => false,
            }),
            old(self).phase is TypingHash ==> (match event {
                StepEvent::Acked => final(self).phase is ReadingHash && final(self).failure
                    is None,
                StepEvent::Failed { reason } => failed_quiet(*final(self), reason@),
                _ => false,
            }),
            old(self).phase is ReadingHash ==> (match event {
                StepEvent::Text { text } => (if text@ == typed_hash_seq() {
                    succeeded(*final(self))
                } else {
                    failed_noted(
                        *final(self),
                        hash_mismatch_reason(text@),
                        "Hash value updating is broken."@,
                    )
                }),
                StepEvent::Failed { reason } => failed_quiet(*final(self), reason@),
                _ => false,
            }),
    {
        match self.phase {
            InteractionPhase::Navigating => {
                match event {
                    StepEvent::Acked => {
                        self.phase = InteractionPhase::AttachingMetadata;
                    },
                    StepEvent::Failed { reason } => {
                        self.fail_quietly(reason);
                    },
                    _ => {
                        proof {
                            assert(false);
                        }
                    },
                }
            },
            InteractionPhase::AttachingMetadata => {
                self.phase = InteractionPhase::ReadingTitle;
            },
            InteractionPhase::ReadingTitle => {
                match event {
                    StepEvent::Texts { texts } => {
                        let matched = first_title_match(&texts);
                        match matched {
                            Some(_) => {
                                self.phase = InteractionPhase::ReadingCounter;
                            },
                            None => {
                                let mut reason = "title mismatch: expected \"".to_owned();
                                reason.append(expected_title());
                                reason.append("\", got \"");
                                reason.append(texts[0].as_str());
                                reason.append("\"");
                                proof {
                                    assert(reason@ =~= title_mismatch_reason(texts@[0]@));
                                }
                                self.fail_with_note(reason, "Title mismatch.".to_owned());
                            },
                        }
                    },
                    StepEvent::Failed { reason } => {
                        self.fail_quietly(reason);
                    },
                    _ => {
                        proof {
                            assert(false);
                        }
                    },
                }
            },
            InteractionPhase::ReadingCounter => {
                match event {
                    StepEvent::Text { text } => {
                        match parse_i32(text.as_str()) {
                            Some(value) => {
                                self.phase = InteractionPhase::Clicking { before: value };
                            },
                            None => {
                                let reason = counter_parse_failure(text);
                                self.fail_quietly(reason);
                            },
                        }
                    },
                    StepEvent::Failed { reason } => {
                        self.fail_quietly(reason);
                    },
                    _ => {
                        proof {
                            assert(false);
                        }
                    },
                }
            },
            InteractionPhase::Clicking { before } => {
                match event {
                    StepEvent::Acked => {
                        self.phase = InteractionPhase::RereadingCounter { before };
                    },
                    StepEvent::Failed { reason } => {
                        self.fail_quietly(reason);
                    },
                    _ => {
                        proof {
                            assert(false);
                        }
                    },
                }
            },
            InteractionPhase::RereadingCounter { before } => {
                match event {
                    StepEvent::Text { text } => {
                        match parse_i32(text.as_str()) {
                            Some(value) => {
                                if (value as i64) == (before as i64) + 1 {
                                    self.phase = InteractionPhase::TypingHash;
                                } else {
                                    let mut reason = "increment is broken: expected ".to_owned();
                                    let expected_text = i64_to_dec((before as i64) + 1);
                                    reason.append(expected_text.as_str());
                                    reason.append(", got ");
                                    let actual_text = i64_to_dec(value as i64);
                                    reason.append(actual_text.as_str());
                                    proof {
                                        assert(reason@ =~= increment_mismatch_reason(
                                            before as int,
                                            value as int,
                                        ));
                                    }
                                    self.fail_with_note(reason, "Increment is broken.".to_owned());
                                }
                            },
                            None => {
                                let reason = counter_parse_failure(text);
                                self.fail_quietly(reason);
                            },
                        }
                    },
                    StepEvent::Failed { reason } => {
                        self.fail_quietly(reason);
                    },
                    _ => {
                        proof {
                            assert(false);
                        }
                    },
                }
            },
            InteractionPhase::TypingHash => {
                match event {
                    StepEvent::Acked => {
                        self.phase = InteractionPhase::ReadingHash;
                    },
                    StepEvent::Failed { reason } => {
                        self.fail_quietly(reason);
                    },
                    _ => {
                        proof {
                            assert(false);
                        }
                    },
                }
            },
            InteractionPhase::ReadingHash => {
                match event {
                    StepEvent::Text { text } => {
                        if str_eq(text.as_str(), typed_hash_value()) {
                            self.phase = InteractionPhase::Finished { success: true };
                            self.note = Some("It worked!".to_owned());
                        } else {
                            let mut reason = "hash value updating is broken: ".to_owned();
                            reason.append(text.as_str());
                            reason.append(" != ");
                            reason.append(typed_hash_value());
                            proof {
                                assert(reason@ =~= hash_mismatch_reason(text@));
                            }
                            self.fail_with_note(reason, "Hash value updating is broken.".to_owned());
                        }
                    },
                    StepEvent::Failed { reason } => {
                        self.fail_quietly(reason);
                    },
                    _ => {
                        proof {
                            assert(false);
                        }
                    },
                }
            },
            InteractionPhase::Finished { .. } => {
                proof {
                    assert(false);
                }
            },
        }
    }

    /// End the interaction as failed with the given reason, no closing note.
    fn fail_quietly(&mut self, reason: String)
        requires
            old(self).note is None,
        ensures
            failed_quiet(*final(self), reason@),
            final(self).wf(),
            final(self).page_url == old(self).page_url,
    {
        self.phase = InteractionPhase::Finished { success: false };
        self.failure = Some(reason);
    }

    /// End the interaction as failed with the given reason and closing note.
    fn fail_with_note(&mut self, reason: String, note: String)
        ensures
            failed_noted(*final(self), reason@, note@),
            final(self).wf(),
            final(self).page_url == old(self).page_url,
    {
        self.phase = InteractionPhase::Finished { success: false };
        self.failure = Some(reason);
        self.note = Some(note);
    }
}

/// Render the failure reason of a counter text that is not an integer.
fn counter_parse_failure(text: String) -> (r: String)
    ensures
        r@ == counter_parse_reason(text@),
{
    let mut reason = "counter value is not an integer: ".to_owned();
    reason.append(text.as_str());
    reason
}

/// The index of the first located element whose text satisfies the title
/// assertion: elements are scanned in order, and it is not an error for only
/// a subset to match.
pub fn first_title_match(texts: &Vec<String>) -> (r: Option<usize>)
    ensures
        r is Some <==> title_match(texts@),
        r matches Some(i) ==> i < texts@.len() && eq_ascii_ci(texts@[i as int]@, expected_title_seq())
            && (forall|j: int| 0 <= j < i ==> !eq_ascii_ci(#[trigger] texts@[j]@, expected_title_seq())),
{
    let n: usize = texts.len();
    let mut i: usize = 0;
    while i < n
        invariant
            0 <= i <= n,
            n == texts@.len(),
            forall|j: int| 0 <= j < i ==> !eq_ascii_ci(#[trigger] texts@[j]@, expected_title_seq()),
        decreases n - i,
    {
        if str_eq_ignore_ascii_case(texts[i].as_str(), expected_title()) {
            return Some(i);
        }
        i = i + 1;
    }
    None
}

/// The telemetry cookie carrying a rolling progress message.
pub fn progress_cookie(message: &str) -> (r: (String, String))
    ensures
        r.0@ == "webgrid:message"@,
        r.1@ == json_string_of(message@),
{
    ("webgrid:message".to_owned(), json_encode_str(message))
}

/// The telemetry cookie carrying the final status marker.
pub fn status_cookie(success: bool) -> (r: (String, String))
    ensures
        r.0@ == "webgrid:metadata.session:status"@,
        success ==> r.1@ == json_string_of("success"@),
        !success ==> r.1@ == json_string_of("failure"@),
{
    let value = if success {
        json_encode_str("success")
    } else {
        json_encode_str("failure")
    };
    ("webgrid:metadata.session:status".to_owned(), value)
}

} // verus!
