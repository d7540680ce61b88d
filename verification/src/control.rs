//! The dictation controller: push-to-talk edges drive record, transcribe and
//! paste, and the status pill follows along.
//!
//! Hold to talk, quick-tap to latch: holding the push-to-talk key records
//! until it is released; a press released within [`LATCH_TAP_MS`] instead
//! latches recording on, and the next press stops it.
//!
//! The controller only decides. The application feeds it one [`Input`] at a
//! time, and for each [`Step`] first shows the pill state it names (if any),
//! then carries out its [`Command`] and feeds the outcome back as the next
//! input.

use crate::config::Engine;
use crate::hotkey::KeyEdge;
use crate::overlay::State;
use vstd::prelude::*;

verus! {

/// Recordings shorter than this many samples (0.1 s at 16 kHz) are too short
/// to hold speech (an accidental double tap, microphone warm-up noise) and
/// are dropped.
pub const MIN_SAMPLES: usize = 1_600;

/// A press of the push-to-talk key released sooner than this many
/// milliseconds is a tap: it latches recording on instead of ending it.
pub const LATCH_TAP_MS: u64 = 300;

/// Where the controller is in a dictation.
#[derive(Debug, Clone, Copy, PartialEq, Eq, Structural)]
pub enum Phase {
    /// Waiting for the push-to-talk key.
    Idle,
    /// The recorder is being started.
    Starting,
    /// The microphone is recording.
    Recording,
    /// The recorder is being stopped and its samples collected.
    Stopping,
    /// Checking whether the local model is on disk.
    CheckingModel,
    /// Downloading the local model.
    DownloadingModel,
    /// An engine is transcribing the recording.
    Transcribing,
    /// The transcript is being pasted.
    Pasting,
    /// The error pill is shown for a while.
    ShowingError,
}

/// What happened, as reported to the controller.
#[derive(Debug, Clone)]
pub enum Input {
    /// The push-to-talk key went down or up, `at_ms` milliseconds after a
    /// fixed starting point of a monotonic clock.
    Key { edge: KeyEdge, at_ms: u64 },
    /// The recorder started.
    RecorderStarted,
    /// The recorder could not be started.
    RecorderFailed,
    /// The recorder stopped with `samples` 16 kHz mono samples; `engine` is
    /// the engine configured at that moment.
    Captured { samples: usize, engine: Engine },
    /// The recorder could not be stopped cleanly.
    CaptureFailed,
    /// Whether the local model is on disk.
    ModelPresent(bool),
    /// The local model was downloaded.
    ModelReady,
    /// The local model could not be downloaded.
    ModelFailed,
    /// The engine returned this transcript.
    Transcript(String),
    /// The engine failed.
    TranscribeFailed,
    /// The transcript was handed to the focused window (or pasting failed,
    /// which is only logged).
    Pasted,
    /// The error pill has been shown long enough.
    ErrorShown,
}

/// What the application is asked to do next.
#[derive(Debug, Clone)]
pub enum Command {
    /// Nothing.
    Wait,
    /// Open the microphone and start recording.
    StartRecorder,
    /// Stop the recorder and collect its samples.
    StopRecorder,
    /// Check whether the local model is on disk.
    CheckModel,
    /// Download the local model.
    DownloadModel,
    /// Transcribe the collected samples with the configured engine.
    Transcribe,
    /// Paste this transcript into the focused window.
    Paste(String),
    /// Keep the error pill up for a while (two seconds).
    HoldError,
}

/// The controller's answer to one input: a pill state to show first, if any,
/// then a command.
#[derive(Debug, Clone)]
pub struct Step {
    pub overlay: Option<State>,
    pub command: Command,
}

/// The controller's state.
#[derive(Debug, Clone, Copy, PartialEq, Eq, Structural)]
pub struct Controller {
    pub phase: Phase,
    /// Size of the last recording collected, in samples.
    pub samples: usize,
    /// When the press that started the current recording went down.
    pub pressed_at_ms: u64,
    /// Whether the current recording was latched on by a tap.
    pub latched: bool,
}

/// Whether a release at `at_ms` of a press made at `pressed_at_ms` is a tap.
pub open spec fn is_tap(pressed_at_ms: u64, at_ms: u64) -> bool {
    pressed_at_ms <= at_ms && at_ms - pressed_at_ms < LATCH_TAP_MS
}

/// The controller after `input`, and its answer.
pub open spec fn transition(c: Controller, input: Input) -> (Controller, Step) {
    let stay = (c, Step { overlay: None, command: Command::Wait });
    match (c.phase, input) {
        (Phase::Idle, Input::Key { edge: KeyEdge::Down, at_ms }) => (
            Controller { phase: Phase::Starting, pressed_at_ms: at_ms, latched: false, ..c },
            Step { overlay: None, command: Command::StartRecorder },
        ),
        (Phase::Starting, Input::RecorderStarted) => (
            Controller { phase: Phase::Recording, ..c },
            Step { overlay: Some(State::Recording), command: Command::Wait },
        ),
        (Phase::Starting, Input::RecorderFailed) => (
            Controller { phase: Phase::Idle, ..c },
            Step { overlay: None, command: Command::Wait },
        ),
        (Phase::Recording, Input::Key { edge: KeyEdge::Up, at_ms }) => if c.latched {
            stay
        } else if is_tap(c.pressed_at_ms, at_ms) {
            (Controller { latched: true, ..c }, Step { overlay: None, command: Command::Wait })
        } else {
            (
                Controller { phase: Phase::Stopping, ..c },
                Step { overlay: Some(State::Transcribing), command: Command::StopRecorder },
            )
        },
        (Phase::Recording, Input::Key { edge: KeyEdge::Down, at_ms: _ }) => if c.latched {
            (
                Controller { phase: Phase::Stopping, latched: false, ..c },
                Step { overlay: Some(State::Transcribing), command: Command::StopRecorder },
            )
        } else {
            stay
        },
        (Phase::Stopping, Input::CaptureFailed) => (
            Controller { phase: Phase::Idle, ..c },
            Step { overlay: Some(State::Hidden), command: Command::Wait },
        ),
        (Phase::Stopping, Input::Captured { samples, engine }) => if samples < MIN_SAMPLES {
            (
                Controller { phase: Phase::Idle, samples, ..c },
                Step { overlay: Some(State::Hidden), command: Command::Wait },
            )
        } else if engine == Engine::Local {
            (
                Controller { phase: Phase::CheckingModel, samples, ..c },
                Step { overlay: None, command: Command::CheckModel },
            )
        } else {
            (
                Controller { phase: Phase::Transcribing, samples, ..c },
                Step { overlay: None, command: Command::Transcribe },
            )
        },
        (Phase::CheckingModel, Input::ModelPresent(present)) => if present {
            (
                Controller { phase: Phase::Transcribing, ..c },
                Step { overlay: None, command: Command::Transcribe },
            )
        } else {
            (
                Controller { phase: Phase::DownloadingModel, ..c },
                Step { overlay: Some(State::DownloadingModel), command: Command::DownloadModel },
            )
        },
        (Phase::DownloadingModel, Input::ModelReady) => (
            Controller { phase: Phase::Transcribing, ..c },
            Step { overlay: None, command: Command::Transcribe },
        ),
        (Phase::DownloadingModel, Input::ModelFailed) => (
            Controller { phase: Phase::ShowingError, ..c },
            Step { overlay: Some(State::Error), command: Command::HoldError },
        ),
        (Phase::Transcribing, Input::Transcript(text)) => if text@.len() > 0 {
            (
                Controller { phase: Phase::Pasting, ..c },
                Step { overlay: None, command: Command::Paste(text) },
            )
        } else {
            (
                Controller { phase: Phase::Idle, ..c },
                Step { overlay: Some(State::Hidden), command: Command::Wait },
            )
        },
        (Phase::Transcribing, Input::TranscribeFailed) => (
            Controller { phase: Phase::ShowingError, ..c },
            Step { overlay: Some(State::Error), command: Command::HoldError },
        ),
        (Phase::Pasting, Input::Pasted) => (
            Controller { phase: Phase::Idle, ..c },
            Step { overlay: Some(State::Hidden), command: Command::Wait },
        ),
        (Phase::ShowingError, Input::ErrorShown) => (
            Controller { phase: Phase::Idle, ..c },
            Step { overlay: Some(State::Hidden), command: Command::Wait },
        ),
        _ => stay,
    }
}

impl Controller {
    /// A controller waiting for the push-to-talk key.
    pub fn new() -> (c: Controller)
        ensures
            c.phase == Phase::Idle,
            c.samples == 0,
            c.pressed_at_ms == 0,
            !c.latched,
    {
        Controller { phase: Phase::Idle, samples: 0, pressed_at_ms: 0, latched: false }
    }

    /// Takes one input and answers with the pill state to show and the next
    /// command. Inputs that do not fit the current phase change nothing.
    pub fn step(&mut self, input: Input) -> (s: Step)
        ensures
            (*final(self), s) == transition(*old(self), input),
    {
        let wait = Step { overlay: None, command: Command::Wait };
        match self.phase {
            Phase::Idle => match input {
                Input::Key { edge: KeyEdge::Down, at_ms } => {
                    self.phase = Phase::Starting;
                    self.pressed_at_ms = at_ms;
                    self.latched = false;
                    Step { overlay: None, command: Command::StartRecorder }
                },
                _ => wait,
            },
            Phase::Starting => match input {
                Input::RecorderStarted => {
                    self.phase = Phase::Recording;
                    Step { overlay: Some(State::Recording), command: Command::Wait }
                },
                Input::RecorderFailed => {
                    self.phase = Phase::Idle;
                    wait
                },
                _ => wait,
            },
            Phase::Recording => match input {
                Input::Key { edge: KeyEdge::Up, at_ms } => {
                    if self.latched {
                        wait
                    } else if self.pressed_at_ms <= at_ms && at_ms - self.pressed_at_ms < LATCH_TAP_MS {
                        self.latched = true;
                        wait
                    } else {
                        self.phase = Phase::Stopping;
                        Step { overlay: Some(State::Transcribing), command: Command::StopRecorder }
                    }
                },
                Input::Key { edge: KeyEdge::Down, at_ms: _ } => {
                    if self.latched {
                        self.phase = Phase::Stopping;
                        self.latched = false;
                        Step { overlay: Some(State::Transcribing), command: Command::StopRecorder }
                    } else {
                        wait
                    }
                },
                _ => wait,
            },
            Phase::Stopping => match input {
                Input::CaptureFailed => {
                    self.phase = Phase::Idle;
                    Step { overlay: Some(State::Hidden), command: Command::Wait }
                },
                Input::Captured { samples, engine } => {
                    self.samples = samples;
                    if samples < MIN_SAMPLES {
                        self.phase = Phase::Idle;
                        Step { overlay: Some(State::Hidden), command: Command::Wait }
                    } else if engine == Engine::Local {
                        self.phase = Phase::CheckingModel;
                        Step { overlay: None, command: Command::CheckModel }
                    } else {
                        self.phase = Phase::Transcribing;
                        Step { overlay: None, command: Command::Transcribe }
                    }
                },
                _ => wait,
            },
            Phase::CheckingModel => match input {
                Input::ModelPresent(present) => {
                    if present {
                        self.phase = Phase::Transcribing;
                        Step { overlay: None, command: Command::Transcribe }
                    } else {
                        self.phase = Phase::DownloadingModel;
                        Step { overlay: Some(State::DownloadingModel), command: Command::DownloadModel }
                    }
                },
                _ => wait,
            },
            Phase::DownloadingModel => match input {
                Input::ModelReady => {
                    self.phase = Phase::Transcribing;
                    Step { overlay: None, command: Command::Transcribe }
                },
                Input::ModelFailed => {
                    self.phase = Phase::ShowingError;
                    Step { overlay: Some(State::Error), command: Command::HoldError }
                },
                _ => wait,
            },
            Phase::Transcribing => match input {
                Input::Transcript(text) => {
                    if !text.as_str().is_empty() {
                        self.phase = Phase::Pasting;
                        Step { overlay: None, command: Command::Paste(text) }
                    } else {
                        self.phase = Phase::Idle;
                        Step { overlay: Some(State::Hidden), command: Command::Wait }
                    }
                },
                Input::TranscribeFailed => {
                    self.phase = Phase::ShowingError;
                    Step { overlay: Some(State::Error), command: Command::HoldError }
                },
                _ => wait,
            },
            Phase::Pasting => match input {
                Input::Pasted => {
                    self.phase = Phase::Idle;
                    Step { overlay: Some(State::Hidden), command: Command::Wait }
                },
                _ => wait,
            },
            Phase::ShowingError => match input {
                Input::ErrorShown => {
                    self.phase = Phase::Idle;
                    Step { overlay: Some(State::Hidden), command: Command::Wait }
                },
                _ => wait,
            },
        }
    }
}

/// The pill state that matches each phase: hidden while idle or starting,
/// "Recording" while recording, "Transcribing" from release until an engine
/// answers (or "Downloading local model" when the model had to be fetched
/// first), "Error" while the error is held.
pub open spec fn pill_matches(phase: Phase, pill: State) -> bool {
    match phase {
        Phase::Idle | Phase::Starting => pill == State::Hidden,
        Phase::Recording => pill == State::Recording,
        Phase::Stopping | Phase::CheckingModel => pill == State::Transcribing,
        Phase::DownloadingModel => pill == State::DownloadingModel,
        Phase::Transcribing | Phase::Pasting => pill == State::Transcribing || pill == State::DownloadingModel,
        Phase::ShowingError => pill == State::Error,
    }
}

/// The pill state after a step: the one the step shows, or the previous one.
pub open spec fn pill_after(pill: State, s: Step) -> State {
    match s.overlay {
        Some(p) => p,
        None => pill,
    }
}

/// Whether the controller's bookkeeping is consistent: once a recording has
/// been accepted for transcription, it had at least `MIN_SAMPLES` samples.
pub open spec fn controller_wf(c: Controller) -> bool {
    (c.phase == Phase::CheckingModel || c.phase == Phase::DownloadingModel || c.phase
        == Phase::Transcribing || c.phase == Phase::Pasting) ==> c.samples >= MIN_SAMPLES
}

/// Step law: every step keeps the controller consistent and the pill in step
/// with the phase; the recorder is started only from idle and stopped only
/// while recording; a quick tap latches recording on, the next press of a
/// latched recording stops it, and a held press stops it on release; and a
/// paste is only ever asked for a non-empty transcript of a recording of at
/// least `MIN_SAMPLES` samples.
pub proof fn lemma_step_laws(c: Controller, pill: State, input: Input)
    requires
        controller_wf(c),
        pill_matches(c.phase, pill),
    ensures
        ({
            let (c2, s) = transition(c, input);
            &&& controller_wf(c2)
            &&& pill_matches(c2.phase, pill_after(pill, s))
            &&& (s.command is StartRecorder ==> c.phase == Phase::Idle && c2.phase == Phase::Starting)
            &&& (s.command is StopRecorder ==> c.phase == Phase::Recording && c2.phase == Phase::Stopping)
            &&& (s.command matches Command::Paste(t) ==> t@.len() > 0 && c.phase == Phase::Transcribing
                && c.samples >= MIN_SAMPLES)
            &&& (c.phase == Phase::Recording && !c.latched ==> (input matches Input::Key {
                edge: KeyEdge::Up,
                at_ms,
            } ==> if is_tap(c.pressed_at_ms, at_ms) {
                c2.phase == Phase::Recording && c2.latched && s.command is Wait
            } else {
                c2.phase == Phase::Stopping && s.command is StopRecorder
            }))
            &&& (c.phase == Phase::Recording && c.latched ==> (input matches Input::Key {
                edge: KeyEdge::Down,
                at_ms: _,
            } ==> c2.phase == Phase::Stopping && s.command is StopRecorder))
        }),
{
}

/// Capture law: a recording collected while stopping is dropped (pill
/// hidden, back to idle) exactly when it is shorter than `MIN_SAMPLES`
/// samples; any longer recording, however long, goes on: to the model check
/// for the local engine, straight to transcription for a cloud engine, with
/// no pill change and its size remembered.
pub proof fn lemma_capture_goes_on(c: Controller, samples: usize, engine: Engine)
    requires
        c.phase == Phase::Stopping,
    ensures
        ({
            let (c2, s) = transition(c, Input::Captured { samples, engine });
            &&& c2.samples == samples
            &&& (samples < MIN_SAMPLES ==> c2.phase == Phase::Idle && s.overlay == Some(State::Hidden)
                && s.command is Wait)
            &&& (samples >= MIN_SAMPLES && engine == Engine::Local ==> c2.phase == Phase::CheckingModel
                && s.overlay is None && s.command is CheckModel)
            &&& (samples >= MIN_SAMPLES && engine != Engine::Local ==> c2.phase == Phase::Transcribing
                && s.overlay is None && s.command is Transcribe)
        }),
{
}

/// The controller and pill after a whole sequence of inputs.
pub open spec fn controller_run(c: Controller, pill: State, inputs: Seq<Input>) -> (Controller, State)
    decreases inputs.len(),
{
    if inputs.len() == 0 {
        (c, pill)
    } else {
        let (c2, s) = transition(c, inputs[0]);
        controller_run(c2, pill_after(pill, s), inputs.drop_first())
    }
}

/// Run law: starting idle with the pill hidden, after any inputs whatever the
/// controller is doing the pill shows the matching state; in particular it is
/// hidden whenever the controller is idle again.
pub proof fn lemma_run_keeps_pill_in_step(c: Controller, pill: State, inputs: Seq<Input>)
    requires
        controller_wf(c),
        pill_matches(c.phase, pill),
    ensures
        controller_wf(controller_run(c, pill, inputs).0),
        pill_matches(controller_run(c, pill, inputs).0.phase, controller_run(c, pill, inputs).1),
        controller_run(c, pill, inputs).0.phase == Phase::Idle ==> controller_run(c, pill, inputs).1 == State::Hidden,
    decreases inputs.len(),
{
    if inputs.len() > 0 {
        lemma_step_laws(c, pill, inputs[0]);
        let (c2, s) = transition(c, inputs[0]);
        lemma_run_keeps_pill_in_step(c2, pill_after(pill, s), inputs.drop_first());
    }
}

/// Whether a recorder is open: being started or recording.
pub open spec fn recorder_open(phase: Phase) -> bool {
    phase == Phase::Starting || phase == Phase::Recording
}

/// What one step does to the recorder: `Some(true)` when it starts one,
/// `Some(false)` when it ends the open one (a stop, or a start that failed),
/// `None` otherwise.
pub open spec fn recorder_event(c: Controller, input: Input) -> Option<bool> {
    let (c2, s) = transition(c, input);
    if s.command is StartRecorder {
        Some(true)
    } else if s.command is StopRecorder || (c.phase == Phase::Starting && input is RecorderFailed) {
        Some(false)
    } else {
        None
    }
}

/// The recorder events of a whole sequence of inputs, in order.
pub open spec fn recorder_events(c: Controller, inputs: Seq<Input>) -> Seq<bool>
    decreases inputs.len(),
{
    if inputs.len() == 0 {
        Seq::empty()
    } else {
        let (c2, s) = transition(c, inputs[0]);
        let rest = recorder_events(c2, inputs.drop_first());
        match recorder_event(c, inputs[0]) {
            Some(e) => seq![e] + rest,
            None => rest,
        }
    }
}

proof fn lemma_recorder_event_step(c: Controller, input: Input)
    ensures
        ({
            let (c2, s) = transition(c, input);
            match recorder_event(c, input) {
                Some(true) => !recorder_open(c.phase) && recorder_open(c2.phase),
                Some(false) => recorder_open(c.phase) && !recorder_open(c2.phase),
                None => recorder_open(c.phase) == recorder_open(c2.phase),
            }
        }),
{
}

/// One-recorder law: over any sequence of inputs, recorder starts and ends
/// alternate, so a second recorder is never started before the first has
/// been stopped (or failed to start); starting with none open, the events
/// are start, end, start, ...; and a recorder is open at the end exactly
/// when the count of events says so.
pub proof fn lemma_one_recorder_at_a_time(c: Controller, inputs: Seq<Input>)
    ensures
        ({
            let ev = recorder_events(c, inputs);
            let open = recorder_open(c.phase);
            &&& forall|i: int| 0 <= i < ev.len() ==> ev[i] == ((i % 2 == 0) != open)
            &&& recorder_open(controller_run(c, State::Hidden, inputs).0.phase) == (open != (ev.len() % 2
                == 1))
        }),
    decreases inputs.len(),
{
    if inputs.len() > 0 {
        let (c2, s) = transition(c, inputs[0]);
        lemma_recorder_event_step(c, inputs[0]);
        lemma_one_recorder_at_a_time(c2, inputs.drop_first());
        lemma_run_ignores_pill(c2, State::Hidden, pill_after(State::Hidden, s), inputs.drop_first());
        let rest = recorder_events(c2, inputs.drop_first());
        match recorder_event(c, inputs[0]) {
            Some(e) => {
                let ev = seq![e] + rest;
                assert forall|i: int| 0 <= i < ev.len() implies ev[i] == ((i % 2 == 0) != recorder_open(
                    c.phase,
                )) by {
                    if i > 0 {
                        assert(ev[i] == rest[i - 1]);
                    }
                }
            },
            None => {},
        }
    }
}

proof fn lemma_run_ignores_pill(c: Controller, p1: State, p2: State, inputs: Seq<Input>)
    ensures
        controller_run(c, p1, inputs).0 == controller_run(c, p2, inputs).0,
    decreases inputs.len(),
{
    if inputs.len() > 0 {
        let (c2, s) = transition(c, inputs[0]);
        lemma_run_ignores_pill(c2, pill_after(p1, s), pill_after(p2, s), inputs.drop_first());
    }
}

/// Whether `input` is an outcome of carrying out `cmd`.
pub open spec fn answers(cmd: Command, input: Input) -> bool {
    match cmd {
        Command::StopRecorder => input is Captured || input is CaptureFailed,
        Command::CheckModel => input is ModelPresent,
        Command::DownloadModel => input is ModelReady || input is ModelFailed,
        Command::Transcribe => input is Transcript || input is TranscribeFailed,
        Command::Paste(_) => input is Pasted,
        Command::HoldError => input is ErrorShown,
        _ => true,
    }
}

/// Whether each input answers the command of the step before it, starting
/// with `cmd`, until a step asks for nothing.
pub open spec fn all_answer(c: Controller, cmd: Command, inputs: Seq<Input>) -> bool
    decreases inputs.len(),
{
    if inputs.len() == 0 || cmd is Wait {
        true
    } else {
        answers(cmd, inputs[0]) && {
            let (c2, s) = transition(c, inputs[0]);
            all_answer(c2, s.command, inputs.drop_first())
        }
    }
}

/// Where a chain of answered commands ends: the controller, the pill shown
/// last, the pending command, whether the error pill was shown along the
/// way, and whether a download or a transcription failed along the way.
pub struct ChainEnd {
    pub controller: Controller,
    pub pill: State,
    pub command: Command,
    pub showed_error: bool,
    pub failed: bool,
}

/// The chain of steps that carries out `cmd` and then each command that
/// follows, fed `inputs` until a step asks for nothing.
pub open spec fn chain(c: Controller, pill: State, cmd: Command, inputs: Seq<Input>) -> ChainEnd
    decreases inputs.len(),
{
    if inputs.len() == 0 || cmd is Wait {
        ChainEnd { controller: c, pill, command: cmd, showed_error: false, failed: false }
    } else {
        let (c2, s) = transition(c, inputs[0]);
        let rest = chain(c2, pill_after(pill, s), s.command, inputs.drop_first());
        ChainEnd {
            showed_error: rest.showed_error || s.overlay == Some(State::Error),
            failed: rest.failed || (c.phase == Phase::DownloadingModel && inputs[0] is ModelFailed) || (
            c.phase == Phase::Transcribing && inputs[0] is TranscribeFailed),
            ..rest
        }
    }
}

/// The command a phase of the stop chain waits on.
pub open spec fn awaits(phase: Phase, cmd: Command) -> bool {
    match phase {
        Phase::Stopping => cmd is StopRecorder,
        Phase::CheckingModel => cmd is CheckModel,
        Phase::DownloadingModel => cmd is DownloadModel,
        Phase::Transcribing => cmd is Transcribe,
        Phase::Pasting => cmd is Paste,
        Phase::ShowingError => cmd is HoldError,
        _ => false,
    }
}

/// The most commands left to carry out from a phase of the stop chain.
pub open spec fn steps_left(phase: Phase) -> nat {
    match phase {
        Phase::Stopping => 5,
        Phase::CheckingModel => 4,
        Phase::DownloadingModel => 3,
        Phase::Transcribing => 2,
        _ => 1,
    }
}

proof fn lemma_chain_from(c: Controller, pill: State, cmd: Command, inputs: Seq<Input>)
    requires
        awaits(c.phase, cmd),
        pill_matches(c.phase, pill),
        controller_wf(c),
        all_answer(c, cmd, inputs),
        inputs.len() >= steps_left(c.phase),
    ensures
        ({
            let end = chain(c, pill, cmd, inputs);
            &&& end.controller.phase == Phase::Idle
            &&& end.command is Wait
            &&& end.pill == State::Hidden
            &&& end.showed_error == end.failed
        }),
    decreases inputs.len(),
{
    let (c2, s) = transition(c, inputs[0]);
    lemma_step_laws(c, pill, inputs[0]);
    assert(answers(cmd, inputs[0]));
    assert(all_answer(c2, s.command, inputs.drop_first()));
    let end = chain(c, pill, cmd, inputs);
    let rest = chain(c2, pill_after(pill, s), s.command, inputs.drop_first());
    assert(end.controller == rest.controller);
    if s.command is Wait {
        assert(c2.phase == Phase::Idle);
        assert(rest.showed_error == false);
        assert(end.failed == (s.overlay == Some(State::Error)));
    }
    if !(s.command is Wait) {
        lemma_chain_from(c2, pill_after(pill, s), s.command, inputs.drop_first());
    }
}

/// Stop-chain law: once a recording is being stopped, if every command the
/// controller issues is answered by one of its outcomes, at most five answers
/// bring the controller back to idle with nothing pending and the pill
/// hidden last; the error pill was shown along the way exactly when the
/// model download or the transcription failed; and a key release after that
/// changes nothing and asks for nothing.
pub proof fn lemma_stop_chain_ends_idle(c: Controller, inputs: Seq<Input>)
    requires
        c.phase == Phase::Stopping,
        all_answer(c, Command::StopRecorder, inputs),
        inputs.len() >= 5,
    ensures
        ({
            let end = chain(c, State::Transcribing, Command::StopRecorder, inputs);
            &&& end.controller.phase == Phase::Idle
            &&& end.command is Wait
            &&& end.pill == State::Hidden
            &&& end.showed_error == end.failed
            &&& forall|at_ms: u64| {
                let (c3, s3) = #[trigger] transition(
                    end.controller,
                    Input::Key { edge: KeyEdge::Up, at_ms },
                );
                c3 == end.controller && s3.overlay is None && s3.command is Wait
            }
        }),
{
    lemma_chain_from(c, State::Transcribing, Command::StopRecorder, inputs);
}

} // verus!
