//! The tag loop as a state machine.
//!
//! The loop polls the reader for a tag, selects it, announces and emits its
//! identifier, waits until the tag is taken away, and starts over. Each step
//! takes in the outcome of the request that was outstanding and names the
//! next one. Whoever runs the loop performs the requests, sends the reports
//! and shows the indicator; every decision is taken here.

use vstd::prelude::*;

use crate::report::{emission, emitted_reports, HidReport};
use crate::tag::TagIdentifier;

verus! {

/// Milliseconds between two polls of the reader, while detecting and while
/// waiting for removal alike.
pub const POLL_INTERVAL_MS: u64 = 150;

/// How the reader answered a presence request or a wake request.
#[derive(Clone, Copy, Debug, PartialEq, Eq, Structural)]
pub enum ReaderReply {
    /// A tag answered.
    Answered,
    /// Several answers collided. This is transient and says nothing about
    /// whether a tag is there.
    Collision,
    /// No tag answered, or the request failed in another way.
    Failed,
}

/// Which answer the loop is waiting for.
#[derive(Clone, Copy, Debug, PartialEq, Eq, Structural)]
pub enum TagPhase {
    /// A presence request is due at the next poll.
    Detecting,
    /// A tag answered; its selection is outstanding.
    Selecting,
    /// The reports of a selected tag are being sent.
    Emitting,
    /// A wake request is due at the next poll.
    AwaitingRemoval,
}

/// What has happened since the last step.
#[derive(Debug)]
pub enum TagEvent {
    /// The presence request was answered.
    Presence(ReaderReply),
    /// The selection gave an identifier. With it come the suspend flag and
    /// the mode input, both read once, now.
    Selected { id: TagIdentifier, suspended: bool, hotkey: bool },
    /// The selection failed.
    SelectFailed,
    /// All reports were handed to the host, or given up on one by one.
    Emitted,
    /// The wake request was answered.
    Wake(ReaderReply),
}

/// What to do next.
#[derive(Debug, PartialEq, Eq)]
pub enum TagAction {
    /// Wait one poll interval, then issue a presence request.
    RequestPresence,
    /// Select the tag that answered.
    Select,
    /// Raise the wakeup request if `wakeup` is set, then send `reports` in
    /// order, each one after the one before it has completed. A report that
    /// cannot be sent is skipped; the rest still go out.
    Emit { wakeup: bool, reports: Vec<HidReport> },
    /// Wait one poll interval, then issue a wake request.
    RequestWake,
}

/// Whether the loop waits for `event` in `phase`.
pub open spec fn expects(phase: TagPhase, event: TagEvent) -> bool {
    match phase {
        TagPhase::Detecting => event is Presence,
        TagPhase::Selecting => event is Selected || event is SelectFailed,
        TagPhase::Emitting => event is Emitted,
        TagPhase::AwaitingRemoval => event is Wake,
    }
}

/// The phase that follows `phase` on `event`. An event that the loop does
/// not wait for changes nothing.
pub open spec fn next_phase(phase: TagPhase, event: TagEvent) -> TagPhase {
    match (phase, event) {
        (TagPhase::Detecting, TagEvent::Presence(ReaderReply::Answered)) => TagPhase::Selecting,
        (TagPhase::Selecting, TagEvent::Selected { .. }) => TagPhase::Emitting,
        (TagPhase::Selecting, TagEvent::SelectFailed) => TagPhase::Detecting,
        (TagPhase::Emitting, TagEvent::Emitted) => TagPhase::AwaitingRemoval,
        (TagPhase::AwaitingRemoval, TagEvent::Wake(ReaderReply::Failed)) => TagPhase::Detecting,
        _ => phase,
    }
}

/// Whether `action` is what the loop asks for when `event` arrives in
/// `phase`: nothing for an event it does not wait for; else the request
/// that the next phase waits on, and on a selection the emission of that
/// identifier, with the wakeup request exactly if the bus is suspended.
pub open spec fn is_action_for(phase: TagPhase, event: TagEvent, action: Option<TagAction>) -> bool {
    if !expects(phase, event) {
        action is None
    } else {
        match next_phase(phase, event) {
            TagPhase::Detecting => action == Some(TagAction::RequestPresence),
            TagPhase::Selecting => action == Some(TagAction::Select),
            TagPhase::AwaitingRemoval => action == Some(TagAction::RequestWake),
            TagPhase::Emitting => {
                &&& event matches TagEvent::Selected { id, suspended, hotkey }
                &&& action matches Some(TagAction::Emit { wakeup, reports })
                &&& wakeup == suspended
                &&& reports@ == emitted_reports(id@, hotkey)
            },
        }
    }
}

/// The phase that comes after `phase` in a detection cycle.
pub open spec fn following(phase: TagPhase) -> TagPhase {
    match phase {
        TagPhase::Detecting => TagPhase::Selecting,
        TagPhase::Selecting => TagPhase::Emitting,
        TagPhase::Emitting => TagPhase::AwaitingRemoval,
        TagPhase::AwaitingRemoval => TagPhase::Detecting,
    }
}

/// Whether the indicator shows a tag in `phase`: from its selection until
/// it is taken away.
pub open spec fn indicator_in(phase: TagPhase) -> bool {
    phase == TagPhase::Emitting || phase == TagPhase::AwaitingRemoval
}

/// The phase after a run of wake answers, oldest first.
pub open spec fn phase_after_wakes(phase: TagPhase, answers: Seq<ReaderReply>) -> TagPhase
    decreases answers.len(),
{
    if answers.len() == 0 {
        phase
    } else {
        next_phase(phase_after_wakes(phase, answers.drop_last()), TagEvent::Wake(answers.last()))
    }
}

/// The tag loop.
#[derive(Debug)]
pub struct TagLoop {
    phase: TagPhase,
}

impl View for TagLoop {
    type V = TagPhase;

    closed spec fn view(&self) -> TagPhase {
        self.phase
    }
}

impl TagLoop {
    /// A loop that has seen no tag yet, and the request to begin with.
    pub fn start() -> (r: (TagLoop, TagAction))
        ensures
            r.0@ == TagPhase::Detecting,
            r.1 == TagAction::RequestPresence,
    {
        (TagLoop { phase: TagPhase::Detecting }, TagAction::RequestPresence)
    }

    /// The current phase.
    pub fn phase(&self) -> (p: TagPhase)
        ensures
            p == self@,
    {
        self.phase
    }

    /// Whether the indicator is to be lit.
    pub fn indicator(&self) -> (lit: bool)
        ensures
            lit == indicator_in(self@),
    {
        match self.phase {
            TagPhase::Emitting => true,
            TagPhase::AwaitingRemoval => true,
            _ => false,
        }
    }

    /// Takes in what has happened and tells what to do next. An event that
    /// the loop does not wait for is answered with `None` and changes
    /// nothing.
    pub fn step(&mut self, event: TagEvent) -> (action: Option<TagAction>)
        ensures
            final(self)@ == next_phase(old(self)@, event),
            is_action_for(old(self)@, event, action),
    {
        match (self.phase, event) {
            (TagPhase::Detecting, TagEvent::Presence(reply)) => {
                match reply {
                    ReaderReply::Answered => {
                        self.phase = TagPhase::Selecting;
                        Some(TagAction::Select)
                    },
                    _ => Some(TagAction::RequestPresence),
                }
            },
            (TagPhase::Selecting, TagEvent::Selected { id, suspended, hotkey }) => {
                let reports = emission(&id, hotkey);
                self.phase = TagPhase::Emitting;
                Some(TagAction::Emit { wakeup: suspended, reports })
            },
            (TagPhase::Selecting, TagEvent::SelectFailed) => {
                self.phase = TagPhase::Detecting;
                Some(TagAction::RequestPresence)
            },
            (TagPhase::Emitting, TagEvent::Emitted) => {
                self.phase = TagPhase::AwaitingRemoval;
                Some(TagAction::RequestWake)
            },
            (TagPhase::AwaitingRemoval, TagEvent::Wake(reply)) => {
                match reply {
                    ReaderReply::Failed => {
                        self.phase = TagPhase::Detecting;
                        Some(TagAction::RequestPresence)
                    },
                    _ => Some(TagAction::RequestWake),
                }
            },
            _ => None,
        }
    }
}

/// A detection cycle keeps its order: a step stays in its phase, goes on to
/// the following one, or gives a failed selection up and detects again.
/// So nothing is emitted but for a tag just selected, the wait for removal
/// begins only when the emission is over, and the indicator goes on with the
/// selection and off with the removal.
pub proof fn lemma_cycle_order(phase: TagPhase, event: TagEvent)
    ensures
        next_phase(phase, event) == phase || next_phase(phase, event) == following(phase) || (phase
            == TagPhase::Selecting && event is SelectFailed && next_phase(phase, event)
            == TagPhase::Detecting),
        next_phase(phase, event) == TagPhase::Emitting && phase != TagPhase::Emitting ==> phase
            == TagPhase::Selecting && event is Selected,
        next_phase(phase, event) == TagPhase::AwaitingRemoval && phase != TagPhase::AwaitingRemoval
            ==> phase == TagPhase::Emitting && event is Emitted,
        indicator_in(next_phase(phase, event)) && !indicator_in(phase) ==> event is Selected,
        !indicator_in(next_phase(phase, event)) && indicator_in(phase) ==> event
            == TagEvent::Wake(ReaderReply::Failed),
{
}

/// The wait for removal ends with the first wake request that fails other
/// than by a collision, and not before: when the last of a run of answers
/// is such a failure and none before it is, the loop is still waiting after
/// every shorter run and back to detecting after the whole run.
pub proof fn lemma_removal_wait_ends(answers: Seq<ReaderReply>, k: int)
    requires
        answers.len() >= 1,
        answers.last() == ReaderReply::Failed,
        forall|i: int| 0 <= i < answers.len() - 1 ==> answers[i] != ReaderReply::Failed,
        0 <= k < answers.len(),
    ensures
        phase_after_wakes(TagPhase::AwaitingRemoval, answers.take(k)) == TagPhase::AwaitingRemoval,
        phase_after_wakes(TagPhase::AwaitingRemoval, answers) == TagPhase::Detecting,
{
    lemma_removal_wait_goes_on(answers.take(k));
    lemma_removal_wait_goes_on(answers.drop_last());
}

/// Collisions never end the wait for removal, nor do answers of the tag:
/// after any run of answers without a failure other than a collision the
/// loop is still waiting.
pub proof fn lemma_removal_wait_goes_on(answers: Seq<ReaderReply>)
    requires
        forall|i: int| 0 <= i < answers.len() ==> answers[i] != ReaderReply::Failed,
    ensures
        phase_after_wakes(TagPhase::AwaitingRemoval, answers) == TagPhase::AwaitingRemoval,
    decreases answers.len(),
{
    if answers.len() > 0 {
        lemma_removal_wait_goes_on(answers.drop_last());
    }
}

} // verus!
