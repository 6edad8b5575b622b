use vstd::prelude::*;
use crate::analysis::AnalysisResult;
use crate::metadata::{extract_metadata, metadata_of, ContextMetadata};

verus! {

/// Pause between two screen ticks (10 per second).
pub const SCREEN_INTERVAL_MS: u64 = 100;
/// Pause between two audio ticks.
pub const AUDIO_INTERVAL_MS: u64 = 100;
/// Pause between two fused context ticks (1 per second).
pub const BRAIN_CONTEXT_INTERVAL_MS: u64 = 1000;
/// Pause before each pattern detection.
pub const PATTERNS_INTERVAL_MS: u64 = 10000;
/// Resolution reported for a screen frame until the capture reports its own.
pub const FRAME_WIDTH: u32 = 1920;
pub const FRAME_HEIGHT: u32 = 1080;
/// Confidence, in millionths, of the synthesized pattern detection.
pub const PATTERN_CONFIDENCE: u32 = 800_000;
pub const PATTERN_LABEL: &'static str = "focus_session";
pub const PATTERN_DESCRIPTION: &'static str = "User focused session detected";
pub const PATTERN_EVIDENCE: &'static str = "Screen activity";

/// The four kinds of stream a subscriber can ask for.
#[derive(Clone, Copy, PartialEq, Eq, Structural, Debug)]
pub enum StreamKind {
    Screen,
    Audio,
    BrainContext,
    Patterns,
}

pub open spec fn interval_of(kind: StreamKind) -> u64 {
    match kind {
        StreamKind::Screen => SCREEN_INTERVAL_MS,
        StreamKind::Audio => AUDIO_INTERVAL_MS,
        StreamKind::BrainContext => BRAIN_CONTEXT_INTERVAL_MS,
        StreamKind::Patterns => PATTERNS_INTERVAL_MS,
    }
}

/// The fixed pause between two ticks of a stream of this kind.
pub fn interval_ms(kind: StreamKind) -> (r: u64)
    ensures
        r == interval_of(kind),
{
    match kind {
        StreamKind::Screen => SCREEN_INTERVAL_MS,
        StreamKind::Audio => AUDIO_INTERVAL_MS,
        StreamKind::BrainContext => BRAIN_CONTEXT_INTERVAL_MS,
        StreamKind::Patterns => PATTERNS_INTERVAL_MS,
    }
}

/// Where a producer stands in its loop.
#[derive(Clone, Copy, PartialEq, Eq, Structural, Debug)]
pub enum Phase {
    /// The tick's work (capture, analysis, synthesis) is due.
    Working,
    /// An event was handed out and awaits delivery to the subscriber.
    Sending,
    /// The pause before the next tick is due.
    Sleeping,
    /// The subscription is over; nothing more is scheduled.
    Terminated,
}

/// What the loop that runs a producer has to do next.
#[derive(Clone, Copy, PartialEq, Eq, Structural, Debug)]
pub enum Action {
    /// Perform the tick's work and report it with `complete_work`.
    Work,
    /// Push the event last handed out and report with `complete_send`.
    Deliver,
    /// Pause for the given milliseconds and report with `complete_sleep`.
    Sleep(u64),
    /// Stop: the loop ends.
    Stop,
}

/// What one tick's work produced.
pub enum WorkOutcome {
    /// The screen (or audio) capture failed.
    CaptureFailed,
    /// The capture succeeded but its analysis failed.
    AnalysisFailed,
    /// The bytes of one captured screen image.
    Frame(Vec<u8>),
    /// The bytes of one captured audio chunk.
    AudioSamples(Vec<u8>),
    /// A captured image and the perception worker's reading of it.
    Analyzed(AnalysisResult),
    /// The pattern timer elapsed.
    PatternDue,
}

pub struct ScreenFrame {
    pub data: Vec<u8>,
    pub timestamp: i64,
    pub width: u32,
    pub height: u32,
}

pub struct AudioChunk {
    pub data: Vec<u8>,
    pub timestamp: i64,
}

pub struct PatternDetection {
    pub pattern_type: String,
    pub confidence: u32,
    pub description: String,
    pub timestamp: i64,
    pub evidence: Vec<String>,
}

/// The fused output unit of a brain context stream.
pub struct ContextUpdate {
    pub screen_text: String,
    pub audio_transcript: String,
    pub patterns: Vec<PatternDetection>,
    pub ocr_confidence: u32,
    pub asr_confidence: u32,
    pub timestamp: i64,
    pub metadata: ContextMetadata,
}

/// One event for a subscriber.
pub enum StreamEvent {
    Frame(ScreenFrame),
    Audio(AudioChunk),
    Context(ContextUpdate),
    Pattern(PatternDetection),
}

impl StreamEvent {
    pub open spec fn timestamp_of(&self) -> i64 {
        match self {
            StreamEvent::Frame(f) => f.timestamp,
            StreamEvent::Audio(a) => a.timestamp,
            StreamEvent::Context(c) => c.timestamp,
            StreamEvent::Pattern(p) => p.timestamp,
        }
    }

    pub fn timestamp(&self) -> (r: i64)
        ensures
            r == self.timestamp_of(),
    {
        match self {
            StreamEvent::Frame(f) => f.timestamp,
            StreamEvent::Audio(a) => a.timestamp,
            StreamEvent::Context(c) => c.timestamp,
            StreamEvent::Pattern(p) => p.timestamp,
        }
    }
}

/// Whether a tick with this outcome emits an event on a stream of this
/// kind. A brain context tick emits exactly when the recognized text's
/// confidence reaches the subscriber's threshold; failures, and outcomes
/// that belong to another kind, emit nothing.
pub open spec fn emits(kind: StreamKind, threshold: u32, outcome: WorkOutcome) -> bool {
    match outcome {
        WorkOutcome::Frame(_) => kind == StreamKind::Screen,
        WorkOutcome::AudioSamples(_) => kind == StreamKind::Audio,
        WorkOutcome::Analyzed(a) => kind == StreamKind::BrainContext && a.ocr_confidence >= threshold,
        WorkOutcome::PatternDue => kind == StreamKind::Patterns,
        _ => false,
    }
}

/// The event that an emitting tick with this outcome produces, stamped `ts`.
pub open spec fn is_event_for(e: StreamEvent, outcome: WorkOutcome, ts: i64) -> bool {
    match (e, outcome) {
        (StreamEvent::Frame(f), WorkOutcome::Frame(data)) => {
            &&& f.data@ == data@
            &&& f.timestamp == ts
            &&& f.width == FRAME_WIDTH
            &&& f.height == FRAME_HEIGHT
        },
        (StreamEvent::Audio(c), WorkOutcome::AudioSamples(data)) => {
            &&& c.data@ == data@
            &&& c.timestamp == ts
        },
        (StreamEvent::Context(u), WorkOutcome::Analyzed(a)) => {
            &&& u.screen_text@ == a.screen_text@
            &&& u.audio_transcript@ == Seq::<char>::empty()
            &&& u.patterns@.len() == 0
            &&& u.ocr_confidence == a.ocr_confidence
            &&& u.asr_confidence == 0
            &&& u.timestamp == ts
            &&& u.metadata@ == metadata_of(a.screen_text@)
        },
        (StreamEvent::Pattern(p), WorkOutcome::PatternDue) => is_pattern_detection(p, ts),
        _ => false,
    }
}

/// The synthesized pattern detection stamped `ts`.
pub open spec fn is_pattern_detection(p: PatternDetection, ts: i64) -> bool {
    &&& p.pattern_type@ == PATTERN_LABEL@
    &&& p.confidence == PATTERN_CONFIDENCE
    &&& p.description@ == PATTERN_DESCRIPTION@
    &&& p.timestamp == ts
    &&& p.evidence@.len() == 1
    &&& p.evidence@[0]@ == PATTERN_EVIDENCE@
}

/// The stamp of an event emitted at clock reading `now` after the events
/// stamped `emitted`: the clock reading, raised to the last stamp where the
/// clock went back.
pub open spec fn stamp_after(emitted: Seq<i64>, now: i64) -> i64 {
    if emitted.len() > 0 && emitted.last() > now {
        emitted.last()
    } else {
        now
    }
}

/// A counter that stops at its largest value.
pub open spec fn bumped(n: u64) -> u64 {
    if n < u64::MAX {
        (n + 1) as u64
    } else {
        n
    }
}

fn bump(n: u64) -> (r: u64)
    ensures
        r == bumped(n),
{
    if n < u64::MAX {
        n + 1
    } else {
        n
    }
}

/// Mathematical model of a producer.
pub struct ProducerView {
    pub kind: StreamKind,
    pub threshold: u32,
    pub phase: Phase,
    /// The stamps of the events handed out so far, in tick order.
    pub emitted: Seq<i64>,
    pub capture_failures: u64,
    pub analysis_failures: u64,
    pub below_threshold: u64,
}

/// What the loop has to do next in a producer with this model.
pub open spec fn action_of(v: ProducerView) -> Action {
    match v.phase {
        Phase::Working => Action::Work,
        Phase::Sending => Action::Deliver,
        Phase::Sleeping => Action::Sleep(interval_of(v.kind)),
        Phase::Terminated => Action::Stop,
    }
}

/// The decisions of one subscription's sampling loop: which tick emits,
/// how its event is stamped, and when the loop ends. The loop itself
/// performs the work, the delivery and the pauses, and reports each back.
pub struct Producer {
    kind: StreamKind,
    threshold: u32,
    phase: Phase,
    last_timestamp: Option<i64>,
    emitted: Ghost<Seq<i64>>,
    capture_failures: u64,
    analysis_failures: u64,
    below_threshold: u64,
}

impl View for Producer {
    type V = ProducerView;

    closed spec fn view(&self) -> ProducerView {
        ProducerView {
            kind: self.kind,
            threshold: self.threshold,
            phase: self.phase,
            emitted: self.emitted@,
            capture_failures: self.capture_failures,
            analysis_failures: self.analysis_failures,
            below_threshold: self.below_threshold,
        }
    }
}

impl Producer {
    /// The producer's invariant: the stamps handed out never decrease, and
    /// the last of them is remembered.
    pub closed spec fn wf(&self) -> bool {
        &&& forall|i: int, j: int|
            0 <= i < j < self.emitted@.len() ==> self.emitted@[i] <= self.emitted@[j]
        &&& self.last_timestamp == if self.emitted@.len() == 0 {
            None::<i64>
        } else {
            Some(self.emitted@.last())
        }
    }

    /// A producer for a new subscription. The threshold gates brain context
    /// ticks only. A pattern stream begins with its pause; the others begin
    /// with work.
    pub fn new(kind: StreamKind, threshold: u32) -> (r: Producer)
        ensures
            r.wf(),
            r@.kind == kind,
            r@.threshold == threshold,
            r@.phase == if kind == StreamKind::Patterns {
                Phase::Sleeping
            } else {
                Phase::Working
            },
            r@.emitted.len() == 0,
            r@.capture_failures == 0,
            r@.analysis_failures == 0,
            r@.below_threshold == 0,
    {
        let phase = match kind {
            StreamKind::Patterns => Phase::Sleeping,
            _ => Phase::Working,
        };
        Producer {
            kind,
            threshold,
            phase,
            last_timestamp: None,
            emitted: Ghost(Seq::empty()),
            capture_failures: 0,
            analysis_failures: 0,
            below_threshold: 0,
        }
    }

    pub fn kind(&self) -> (r: StreamKind)
        ensures
            r == self@.kind,
    {
        self.kind
    }

    pub fn threshold(&self) -> (r: u32)
        ensures
            r == self@.threshold,
    {
        self.threshold
    }

    pub fn phase(&self) -> (r: Phase)
        ensures
            r == self@.phase,
    {
        self.phase
    }

    pub fn capture_failures(&self) -> (r: u64)
        ensures
            r == self@.capture_failures,
    {
        self.capture_failures
    }

    pub fn analysis_failures(&self) -> (r: u64)
        ensures
            r == self@.analysis_failures,
    {
        self.analysis_failures
    }

    pub fn below_threshold(&self) -> (r: u64)
        ensures
            r == self@.below_threshold,
    {
        self.below_threshold
    }

    /// Whether the subscription is still live.
    pub fn is_running(&self) -> (r: bool)
        ensures
            r <==> self@.phase != Phase::Terminated,
    {
        !matches!(self.phase, Phase::Terminated)
    }

    /// What the loop has to do next.
    pub fn next_action(&self) -> (r: Action)
        ensures
            r == action_of(self@),
    {
        match self.phase {
            Phase::Working => Action::Work,
            Phase::Sending => Action::Deliver,
            Phase::Sleeping => Action::Sleep(interval_ms(self.kind)),
            Phase::Terminated => Action::Stop,
        }
    }

    /// Reports the tick's work and decides whether it emits. An emitting
    /// tick hands out its event, stamped with the clock reading `now_ms`
    /// (raised to the previous stamp where the clock went back), and awaits
    /// delivery; any other tick, a failure or a reading below the threshold,
    /// goes on to the pause. Outside the work phase nothing happens.
    pub fn complete_work(&mut self, outcome: WorkOutcome, now_ms: i64) -> (r: Option<StreamEvent>)
        requires
            old(self).wf(),
        ensures
            final(self).wf(),
            final(self)@.kind == old(self)@.kind,
            final(self)@.threshold == old(self)@.threshold,
            old(self)@.phase != Phase::Working ==> r is None && final(self)@ == old(self)@,
            old(self)@.phase == Phase::Working && emits(old(self)@.kind, old(self)@.threshold, outcome) ==> {
                let ts = stamp_after(old(self)@.emitted, now_ms);
                &&& r is Some
                &&& is_event_for(r->Some_0, outcome, ts)
                &&& final(self)@.phase == Phase::Sending
                &&& final(self)@.emitted == old(self)@.emitted.push(ts)
            },
            old(self)@.phase == Phase::Working && !emits(old(self)@.kind, old(self)@.threshold, outcome) ==> {
                &&& r is None
                &&& final(self)@.phase == Phase::Sleeping
                &&& final(self)@.emitted == old(self)@.emitted
            },
            old(self)@.phase == Phase::Working ==> {
                &&& final(self)@.capture_failures == if outcome is CaptureFailed {
                    bumped(old(self)@.capture_failures)
                } else {
                    old(self)@.capture_failures
                }
                &&& final(self)@.analysis_failures == if outcome is AnalysisFailed {
                    bumped(old(self)@.analysis_failures)
                } else {
                    old(self)@.analysis_failures
                }
                &&& final(self)@.below_threshold == if old(self)@.kind == StreamKind::BrainContext
                    && outcome is Analyzed && outcome->Analyzed_0.ocr_confidence < old(self)@.threshold {
                    bumped(old(self)@.below_threshold)
                } else {
                    old(self)@.below_threshold
                }
            },
    {
        if !matches!(self.phase, Phase::Working) {
            return None;
        }
        let ts: i64 = match self.last_timestamp {
            Some(last) => if last > now_ms {
                last
            } else {
                now_ms
            },
            None => now_ms,
        };
        let kind = self.kind;
        let event: Option<StreamEvent> = match outcome {
            WorkOutcome::CaptureFailed => {
                self.capture_failures = bump(self.capture_failures);
                None
            },
            WorkOutcome::AnalysisFailed => {
                self.analysis_failures = bump(self.analysis_failures);
                None
            },
            WorkOutcome::Frame(data) => match kind {
                StreamKind::Screen => Some(
                    StreamEvent::Frame(
                        ScreenFrame { data, timestamp: ts, width: FRAME_WIDTH, height: FRAME_HEIGHT },
                    ),
                ),
                _ => None,
            },
            WorkOutcome::AudioSamples(data) => match kind {
                StreamKind::Audio => Some(StreamEvent::Audio(AudioChunk { data, timestamp: ts })),
                _ => None,
            },
            WorkOutcome::Analyzed(a) => match kind {
                StreamKind::BrainContext => if a.ocr_confidence >= self.threshold {
                    let metadata = extract_metadata(a.screen_text.as_str());
                    Some(
                        StreamEvent::Context(
                            ContextUpdate {
                                screen_text: a.screen_text,
                                audio_transcript: String::new(),
                                patterns: Vec::new(),
                                ocr_confidence: a.ocr_confidence,
                                asr_confidence: 0,
                                timestamp: ts,
                                metadata,
                            },
                        ),
                    )
                } else {
                    self.below_threshold = bump(self.below_threshold);
                    None
                },
                _ => None,
            },
            WorkOutcome::PatternDue => match kind {
                StreamKind::Patterns => Some(StreamEvent::Pattern(pattern_detection(ts))),
                _ => None,
            },
        };
        match event {
            Some(e) => {
                self.phase = Phase::Sending;
                self.last_timestamp = Some(ts);
                self.emitted = Ghost(self.emitted@.push(ts));
                Some(e)
            },
            None => {
                self.phase = Phase::Sleeping;
                None
            },
        }
    }

    /// Reports the delivery of the event last handed out. A delivered event
    /// leads to the pause; a refused one (the subscriber's channel is
    /// closed) ends the subscription. Outside the sending phase nothing
    /// happens.
    pub fn complete_send(&mut self, delivered: bool)
        ensures
            final(self)@.kind == old(self)@.kind,
            final(self)@.threshold == old(self)@.threshold,
            final(self)@.emitted == old(self)@.emitted,
            final(self)@.capture_failures == old(self)@.capture_failures,
            final(self)@.analysis_failures == old(self)@.analysis_failures,
            final(self)@.below_threshold == old(self)@.below_threshold,
            old(self).wf() ==> final(self).wf(),
            final(self)@.phase == if old(self)@.phase != Phase::Sending {
                old(self)@.phase
            } else if delivered {
                Phase::Sleeping
            } else {
                Phase::Terminated
            },
    {
        if matches!(self.phase, Phase::Sending) {
            self.phase = if delivered {
                Phase::Sleeping
            } else {
                Phase::Terminated
            };
        }
    }

    /// Reports the end of the pause: the next tick's work is due. Outside
    /// the pause nothing happens.
    pub fn complete_sleep(&mut self)
        ensures
            final(self)@ == (ProducerView {
                phase: if old(self)@.phase == Phase::Sleeping {
                    Phase::Working
                } else {
                    old(self)@.phase
                },
                ..old(self)@
            }),
            old(self).wf() ==> final(self).wf(),
    {
        if matches!(self.phase, Phase::Sleeping) {
            self.phase = Phase::Working;
        }
    }

    /// Ends the subscription at once, whatever the phase: the explicit
    /// cancellation signal, checked by the loop at each suspension point.
    pub fn cancel(&mut self)
        ensures
            final(self)@ == (ProducerView { phase: Phase::Terminated, ..old(self)@ }),
            old(self).wf() ==> final(self).wf(),
    {
        self.phase = Phase::Terminated;
    }
}

/// The synthesized pattern detection stamped `ts`.
pub fn pattern_detection(ts: i64) -> (r: PatternDetection)
    ensures
        is_pattern_detection(r, ts),
{
    let mut evidence: Vec<String> = Vec::new();
    evidence.push(PATTERN_EVIDENCE.to_string());
    PatternDetection {
        pattern_type: PATTERN_LABEL.to_string(),
        confidence: PATTERN_CONFIDENCE,
        description: PATTERN_DESCRIPTION.to_string(),
        timestamp: ts,
        evidence,
    }
}

/// Confidence gating: a brain context tick emits exactly when the
/// analysis confidence reaches the threshold.
pub proof fn lemma_gate_iff_threshold(threshold: u32, analysis: AnalysisResult)
    ensures
        emits(StreamKind::BrainContext, threshold, WorkOutcome::Analyzed(analysis))
            <==> analysis.ocr_confidence >= threshold,
{
}

/// Tick order is kept: of two events that a producer handed out, the
/// earlier one carries a stamp no later than the later one.
pub proof fn lemma_emitted_in_tick_order(p: &Producer, i: int, j: int)
    requires
        p.wf(),
        0 <= i < j < p@.emitted.len(),
    ensures
        p@.emitted[i] <= p@.emitted[j],
{
}

/// A tick that emits nothing, a failed capture among them, leaves the
/// producer running: the next step is the pause, then the next tick.
pub proof fn lemma_quiet_tick_goes_on(v: ProducerView)
    requires
        v.phase == Phase::Sleeping,
    ensures
        action_of(v) == Action::Sleep(interval_of(v.kind)),
        action_of(ProducerView { phase: Phase::Working, ..v }) == Action::Work,
{
}

/// Once the subscription is over the producer schedules nothing more.
pub proof fn lemma_terminated_stops(v: ProducerView)
    requires
        v.phase == Phase::Terminated,
    ensures
        action_of(v) == Action::Stop,
{
}

} // verus!
