//! Decisions of the speech dispatcher: which requests become speech commands,
//! their numbering, the "latest interactive feedback wins" policy and the
//! dispatcher's counters. The worker thread and the synthesizer stay with the
//! runtime, which reports each outcome back here.
use vstd::prelude::*;

use crate::text::{owned, trim, trim_seq};

verus! {

/// The text that is actually spoken for a request: the trimmed request, or
/// nothing when it is blank.
pub open spec fn prepared_text_spec(input: Seq<char>) -> Option<Seq<char>> {
    let t = trim_seq(input);
    if t.len() == 0 {
        None
    } else {
        Some(t)
    }
}

pub fn prepare_text(input: &str) -> (r: Option<String>)
    ensures
        r matches Some(t) ==> prepared_text_spec(input@) == Some(t@),
        r is None <==> prepared_text_spec(input@) is None,
{
    let trimmed = trim(input);
    if trimmed.is_empty() {
        return None;
    }
    Some(owned(trimmed))
}

/// A unit of work for the speech worker.
#[derive(Debug, PartialEq, Eq)]
pub enum SpeechCommand {
    /// Ordered output that newer feedback never supersedes.
    Queued { sequence: u64, text: String },
    /// Interactive feedback, dropped when a newer replaceable request exists.
    Replace { sequence: u64, generation: u64, text: String },
}

/// How one command's rendering ended.
#[derive(Debug, Clone, Copy, PartialEq, Eq, Structural)]
pub enum SpeechOutcome {
    /// The audio reached the media player.
    Output,
    /// Synthesis or playback failed.
    Failed,
    /// A newer replaceable request superseded this one before playback.
    Replaced,
    /// The command could not be handed to the worker.
    EnqueueFailed,
    /// The worker did not confirm a flush in time.
    FlushFailed,
}

/// A counter after one increment; counters wrap around like the atomic
/// counters of the runtime.
pub open spec fn bump(c: u64) -> u64 {
    if c == u64::MAX {
        0
    } else {
        (c + 1) as u64
    }
}

/// What the worker does with a replaceable command it is about to play.
#[derive(Debug, Clone, Copy, PartialEq, Eq, Structural)]
pub enum PlaybackDecision {
    /// The command is the latest interactive feedback: play it.
    Play,
    /// A newer request superseded it: drop it and report it as replaced.
    Replaced,
}

/// The dispatcher's counters, as plain numbers.
pub struct SpeechCountsView {
    pub requested: u64,
    pub output: u64,
    pub failed: u64,
    pub queue_failures: u64,
    pub replaced: u64,
    pub latest_generation: u64,
}

/// The counters after one outcome.
pub open spec fn record_spec(c: SpeechCountsView, outcome: SpeechOutcome) -> SpeechCountsView {
    match outcome {
        SpeechOutcome::Output => SpeechCountsView {
            output: bump(c.output),
            ..c
        },
        SpeechOutcome::Failed => SpeechCountsView {
            failed: bump(c.failed),
            ..c
        },
        SpeechOutcome::Replaced => SpeechCountsView {
            replaced: bump(c.replaced),
            ..c
        },
        SpeechOutcome::EnqueueFailed => SpeechCountsView {
            queue_failures: bump(c.queue_failures),
            failed: bump(c.failed),
            ..c
        },
        SpeechOutcome::FlushFailed => SpeechCountsView {
            queue_failures: bump(c.queue_failures),
            ..c
        },
    }
}

/// The counters after a replaceable request, and the generation it carries.
pub open spec fn speak_step(c: SpeechCountsView) -> (SpeechCountsView, u64) {
    let generation = bump(c.latest_generation);
    (SpeechCountsView { requested: bump(c.requested), latest_generation: generation, ..c }, generation)
}

/// The counters after an ordered request.
pub open spec fn speak_queued_step(c: SpeechCountsView) -> SpeechCountsView {
    SpeechCountsView { requested: bump(c.requested), ..c }
}

/// The decision for a replaceable command of `generation`, and the counters
/// after it: a superseded command is dropped and counted as replaced.
pub open spec fn decide_step(c: SpeechCountsView, generation: u64) -> (SpeechCountsView, PlaybackDecision) {
    if generation != c.latest_generation {
        (record_spec(c, SpeechOutcome::Replaced), PlaybackDecision::Replaced)
    } else {
        (c, PlaybackDecision::Play)
    }
}

/// The dispatcher state shared by the requesting threads and the worker.
pub struct SpeechDispatch {
    requested: u64,
    output: u64,
    failed: u64,
    queue_failures: u64,
    replaced: u64,
    latest_generation: u64,
}

impl View for SpeechDispatch {
    type V = SpeechCountsView;

    closed spec fn view(&self) -> SpeechCountsView {
        SpeechCountsView {
            requested: self.requested,
            output: self.output,
            failed: self.failed,
            queue_failures: self.queue_failures,
            replaced: self.replaced,
            latest_generation: self.latest_generation,
        }
    }
}

impl SpeechDispatch {
    pub fn new() -> (r: Self)
        ensures
            r@ == (SpeechCountsView {
                requested: 0,
                output: 0,
                failed: 0,
                queue_failures: 0,
                replaced: 0,
                latest_generation: 0,
            }),
    {
        SpeechDispatch {
            requested: 0,
            output: 0,
            failed: 0,
            queue_failures: 0,
            replaced: 0,
            latest_generation: 0,
        }
    }

    /// Interactive feedback: newer feedback supersedes older feedback that has
    /// not reached the media player yet. Blank text produces no command.
    pub fn speak(&mut self, text: &str) -> (r: Option<SpeechCommand>)
        ensures
            match prepared_text_spec(text@) {
                None => r is None && final(self)@ == old(self)@,
                Some(t) => {
                    let (after, generation) = speak_step(old(self)@);
                    &&& final(self)@ == after
                    &&& r matches Some(SpeechCommand::Replace { sequence: s, generation: g, text: x })
                    &&& s == after.requested && g == generation && x@ == t
                },
            },
    {
        match prepare_text(text) {
            None => None,
            Some(text) => {
                self.requested = self.requested.wrapping_add(1);
                self.latest_generation = self.latest_generation.wrapping_add(1);
                Some(
                    SpeechCommand::Replace {
                        sequence: self.requested,
                        generation: self.latest_generation,
                        text,
                    },
                )
            },
        }
    }

    /// Ordered output (say-all, explicit read commands): never superseded.
    pub fn speak_queued(&mut self, text: &str) -> (r: Option<SpeechCommand>)
        ensures
            match prepared_text_spec(text@) {
                None => r is None && final(self)@ == old(self)@,
                Some(t) => {
                    &&& final(self)@ == speak_queued_step(old(self)@)
                    &&& r matches Some(SpeechCommand::Queued { sequence: s, text: x })
                    &&& s == final(self)@.requested && x@ == t
                },
            },
    {
        match prepare_text(text) {
            None => None,
            Some(text) => {
                self.requested = self.requested.wrapping_add(1);
                Some(SpeechCommand::Queued { sequence: self.requested, text })
            },
        }
    }

    /// Whether a replaceable command of `generation` has been superseded.
    pub fn is_superseded(&self, generation: u64) -> (r: bool)
        ensures
            r == (generation != self@.latest_generation),
    {
        generation != self.latest_generation
    }

    /// Decides, right before playback, whether a replaceable command of
    /// `generation` is still the latest; a superseded one is counted as
    /// replaced and must not be played.
    pub fn decide_playback(&mut self, generation: u64) -> (r: PlaybackDecision)
        ensures
            (final(self)@, r) == decide_step(old(self)@, generation),
    {
        if generation != self.latest_generation {
            self.record(SpeechOutcome::Replaced);
            PlaybackDecision::Replaced
        } else {
            PlaybackDecision::Play
        }
    }

    pub fn record(&mut self, outcome: SpeechOutcome)
        ensures
            final(self)@ == record_spec(old(self)@, outcome),
    {
        match outcome {
            SpeechOutcome::Output => {
                self.output = self.output.wrapping_add(1);
            },
            SpeechOutcome::Failed => {
                self.failed = self.failed.wrapping_add(1);
            },
            SpeechOutcome::Replaced => {
                self.replaced = self.replaced.wrapping_add(1);
            },
            SpeechOutcome::EnqueueFailed => {
                self.queue_failures = self.queue_failures.wrapping_add(1);
                self.failed = self.failed.wrapping_add(1);
            },
            SpeechOutcome::FlushFailed => {
                self.queue_failures = self.queue_failures.wrapping_add(1);
            },
        }
    }

    pub fn requested(&self) -> (r: u64)
        ensures
            r == self@.requested,
    {
        self.requested
    }

    pub fn output(&self) -> (r: u64)
        ensures
            r == self@.output,
    {
        self.output
    }

    pub fn failed(&self) -> (r: u64)
        ensures
            r == self@.failed,
    {
        self.failed
    }

    pub fn queue_failures(&self) -> (r: u64)
        ensures
            r == self@.queue_failures,
    {
        self.queue_failures
    }

    pub fn replaced(&self) -> (r: u64)
        ensures
            r == self@.replaced,
    {
        self.replaced
    }
}

/// Latest interactive feedback wins: a replaceable request is superseded by
/// the next one, while the newest stays current.
pub proof fn newer_feedback_supersedes_older(c: SpeechCountsView)
    ensures
        ({
            let (c1, g1) = speak_step(c);
            let (c2, g2) = speak_step(c1);
            &&& g1 == c1.latest_generation
            &&& g1 != c2.latest_generation
            &&& g2 == c2.latest_generation
        }),
{
}

/// Latest wins at playback: after two interactive requests, the older one is
/// dropped and counted as replaced, while the newer one, one generation
/// later, is played.
pub proof fn older_feedback_is_replaced_not_played(c: SpeechCountsView)
    ensures
        ({
            let (c1, g1) = speak_step(c);
            let (c2, g2) = speak_step(c1);
            let (c3, d1) = decide_step(c2, g1);
            let (c4, d2) = decide_step(c3, g2);
            &&& d1 == PlaybackDecision::Replaced
            &&& c3.replaced == bump(c2.replaced)
            &&& c3.output == c2.output
            &&& g2 == bump(g1)
            &&& d2 == PlaybackDecision::Play
            &&& c4 == c3
        }),
{
}

/// Ordered requests and reported outcomes never supersede interactive feedback.
pub proof fn ordered_speech_and_outcomes_keep_feedback_current(
    c: SpeechCountsView,
    outcome: SpeechOutcome,
)
    ensures
        speak_queued_step(c).latest_generation == c.latest_generation,
        record_spec(c, outcome).latest_generation == c.latest_generation,
        record_spec(c, outcome).requested == c.requested,
{
}

/// Every request takes the next sequence number, until the counter wraps.
pub proof fn request_sequence_increases(c: SpeechCountsView)
    requires
        c.requested < u64::MAX,
    ensures
        speak_step(c).0.requested == c.requested + 1,
        speak_queued_step(c).requested == c.requested + 1,
{
}

} // verus!
