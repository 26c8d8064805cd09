//! The hotkey state machine: which command a key event asks for, given the
//! interaction mode and whether a capture session is active, and what the
//! shell is told before and after the command runs.

use crate::error::PipelineError;
use crate::recording::{
    phase_after_device_answer, phase_after_start_request, start_admitted, CaptureFormat,
    CapturePhase,
};
use crate::text::str_eq;
use vstd::prelude::*;
use vstd::string::*;

verus! {

/// How the hotkey drives recording.
#[derive(Clone, Copy, Debug, PartialEq, Eq, Structural)]
pub enum HotkeyMode {
    /// Recording lasts while the key is held.
    PushToTalk,
    /// Each key press starts or stops recording.
    Toggle,
}

/// What the key did.
#[derive(Clone, Copy, Debug, PartialEq, Eq, Structural)]
pub enum KeyEvent {
    Pressed,
    Released,
}

/// What the capture session is asked to do in answer to a key event.
#[derive(Clone, Copy, Debug, PartialEq, Eq, Structural)]
pub enum HotkeyCommand {
    Start,
    Stop,
    Ignore,
}

/// One thing the shell does around a hotkey command.
#[derive(Clone, Debug, PartialEq, Eq)]
pub enum ShellAction {
    /// Emit `hotkey-pressed`.
    EmitHotkeyPressed,
    /// Emit `recording-will-start`.
    EmitRecordingWillStart,
    /// Emit `hotkey-released`.
    EmitHotkeyReleased,
    /// Show the recording indicator.
    ShowRecordingBar,
    /// Hide the recording indicator.
    HideRecordingBar,
    /// Emit `recording-error` with the failure.
    EmitRecordingError(PipelineError),
    /// Emit `recording-stopped` with an empty result, so that listeners
    /// return to their idle state.
    EmitRecordingReset,
}

/// The mode a stored mode name stands for: `"toggle"` is toggle, every
/// other name is push-to-talk.
pub open spec fn mode_named(name: Seq<char>) -> HotkeyMode {
    if name == "toggle"@ {
        HotkeyMode::Toggle
    } else {
        HotkeyMode::PushToTalk
    }
}

/// The name under which a mode is stored.
pub open spec fn name_of_mode(mode: HotkeyMode) -> Seq<char> {
    match mode {
        HotkeyMode::Toggle => "toggle"@,
        HotkeyMode::PushToTalk => "push-to-talk"@,
    }
}

/// The command a key event asks for.
///
/// Toggle mode reacts to presses only and alternates between start and
/// stop. Push-to-talk starts on a press and stops on the release that ends
/// a recording; a release while idle asks for nothing.
pub open spec fn command_for(mode: HotkeyMode, recording: bool, event: KeyEvent) -> HotkeyCommand {
    match (mode, event) {
        (HotkeyMode::Toggle, KeyEvent::Pressed) => if recording {
            HotkeyCommand::Stop
        } else {
            HotkeyCommand::Start
        },
        (HotkeyMode::Toggle, KeyEvent::Released) => HotkeyCommand::Ignore,
        (HotkeyMode::PushToTalk, KeyEvent::Pressed) => HotkeyCommand::Start,
        (HotkeyMode::PushToTalk, KeyEvent::Released) => if recording {
            HotkeyCommand::Stop
        } else {
            HotkeyCommand::Ignore
        },
    }
}

/// Whether a session is active once `command` has run.
///
/// A start that succeeds leaves a session active and one that fails leaves
/// things as they were; after a stop, successful or not, none is active.
pub open spec fn recording_after(recording: bool, command: HotkeyCommand, succeeded: bool) -> bool {
    match command {
        HotkeyCommand::Start => succeeded || recording,
        HotkeyCommand::Stop => false,
        HotkeyCommand::Ignore => recording,
    }
}

/// The commands a run of key events asks for, from the given state, when
/// every command succeeds.
pub open spec fn commands_for(mode: HotkeyMode, recording: bool, events: Seq<KeyEvent>) -> Seq<
    HotkeyCommand,
>
    decreases events.len(),
{
    if events.len() == 0 {
        Seq::empty()
    } else {
        let first = command_for(mode, recording, events.first());
        seq![first] + commands_for(mode, recording_after(recording, first, true), events.drop_first())
    }
}

/// How many of the first `upto` events are presses.
pub open spec fn presses_before(events: Seq<KeyEvent>, upto: int) -> nat
    decreases upto,
{
    if upto <= 0 || upto > events.len() {
        0
    } else {
        presses_before(events, upto - 1) + if events[upto - 1] == KeyEvent::Pressed {
            1nat
        } else {
            0nat
        }
    }
}

/// What the shell does before `command` runs.
pub open spec fn announcement(command: HotkeyCommand) -> Seq<ShellAction> {
    match command {
        HotkeyCommand::Start => seq![
            ShellAction::EmitHotkeyPressed,
            ShellAction::EmitRecordingWillStart,
        ],
        HotkeyCommand::Stop => seq![ShellAction::EmitHotkeyReleased],
        HotkeyCommand::Ignore => Seq::empty(),
    }
}

/// What the shell does once a start has returned `outcome`.
pub open spec fn start_follow_up(mode: HotkeyMode, outcome: Result<(), PipelineError>) -> Seq<
    ShellAction,
> {
    match outcome {
        Ok(_) => seq![ShellAction::ShowRecordingBar],
        Err(e) => match mode {
            HotkeyMode::Toggle => seq![
                ShellAction::EmitRecordingError(e),
                ShellAction::EmitRecordingReset,
            ],
            HotkeyMode::PushToTalk => seq![ShellAction::EmitRecordingError(e)],
        },
    }
}

/// What the shell does once a stop has ended, successfully or not.
pub open spec fn stop_follow_up(succeeded: bool) -> Seq<ShellAction> {
    if succeeded {
        Seq::empty()
    } else {
        seq![ShellAction::HideRecordingBar, ShellAction::EmitRecordingReset]
    }
}

/// The interaction mode, kept by name so that it can change while the key
/// binding stays registered.
pub struct HotkeyModeState {
    /// `"push-to-talk"` or `"toggle"`.
    pub mode: String,
}

impl HotkeyModeState {
    /// A state in push-to-talk mode.
    pub fn new() -> (state: Self)
        ensures
            state.mode@ == "push-to-talk"@,
            state.current() == HotkeyMode::PushToTalk,
    {
        proof {
            lemma_mode_names_differ();
        }
        HotkeyModeState { mode: String::from_str("push-to-talk") }
    }

    /// The mode the stored name stands for.
    pub open spec fn current(&self) -> HotkeyMode {
        mode_named(self.mode@)
    }

    /// Stores `mode` as the new mode name.
    pub fn set_mode(&mut self, mode: &str)
        ensures
            final(self).mode@ == mode@,
            final(self).current() == mode_named(mode@),
    {
        self.mode = String::from_str(mode);
    }

    /// Stores the name of `mode`.
    pub fn select(&mut self, mode: HotkeyMode)
        ensures
            final(self).mode@ == name_of_mode(mode),
            final(self).current() == mode,
    {
        proof {
            lemma_mode_names_differ();
        }
        match mode {
            HotkeyMode::Toggle => {
                self.mode = String::from_str("toggle");
            },
            HotkeyMode::PushToTalk => {
                self.mode = String::from_str("push-to-talk");
            },
        }
    }

    /// Reads the mode, as the key handler does on every event.
    pub fn mode(&self) -> (mode: HotkeyMode)
        ensures
            mode == self.current(),
    {
        if str_eq(self.mode.as_str(), "toggle") {
            HotkeyMode::Toggle
        } else {
            HotkeyMode::PushToTalk
        }
    }
}

/// The key binding registered at start-up.
pub const DEFAULT_HOTKEY: &'static str = "Alt+Space";

/// One step of replacing the registered key binding.
#[derive(Clone, Copy, Debug, PartialEq, Eq, Structural)]
pub enum RebindStep {
    /// Remove every binding that is registered.
    UnregisterAll,
    /// Register the new binding with the key handler.
    Register,
}

/// The steps that replace the binding: the old one goes, then the new one
/// comes.
pub open spec fn rebind_steps() -> Seq<RebindStep> {
    seq![RebindStep::UnregisterAll, RebindStep::Register]
}

/// Plans the replacement of the key binding by the one that `spec`
/// describes. `rejection` is what parsing `spec` complained of, if it did.
///
/// The new binding is judged before the old one is touched: a text that is
/// no binding is refused with `InvalidHotkeySpec` and no step is taken, so
/// that the old binding stays registered.
pub fn plan_rebind(spec: &str, rejection: Option<String>) -> (plan: Result<
    Vec<RebindStep>,
    PipelineError,
>)
    ensures
        match rejection {
            None => plan matches Ok(steps) && steps@ == rebind_steps(),
            Some(reason) => {
                &&& plan matches Err(PipelineError::InvalidHotkeySpec { spec: refused, detail })
                &&& refused@ == spec@
                &&& detail@ == reason@
            },
        },
{
    match rejection {
        None => {
            let mut steps: Vec<RebindStep> = Vec::new();
            steps.push(RebindStep::UnregisterAll);
            steps.push(RebindStep::Register);
            assert(steps@ =~= rebind_steps());
            Ok(steps)
        },
        Some(reason) => Err(
            PipelineError::InvalidHotkeySpec { spec: String::from_str(spec), detail: reason },
        ),
    }
}

/// The two mode names are different texts.
pub proof fn lemma_mode_names_differ()
    ensures
        "push-to-talk"@ != "toggle"@,
        mode_named(name_of_mode(HotkeyMode::PushToTalk)) == HotkeyMode::PushToTalk,
        mode_named(name_of_mode(HotkeyMode::Toggle)) == HotkeyMode::Toggle,
{
    reveal_strlit("push-to-talk");
    reveal_strlit("toggle");
    assert("push-to-talk"@.len() == 12);
    assert("toggle"@.len() == 6);
}

/// Decides what a key event asks of the capture session.
pub fn on_key_event(mode: HotkeyMode, recording: bool, event: KeyEvent) -> (command: HotkeyCommand)
    ensures
        command == command_for(mode, recording, event),
{
    match mode {
        HotkeyMode::Toggle => match event {
            KeyEvent::Pressed => if recording {
                HotkeyCommand::Stop
            } else {
                HotkeyCommand::Start
            },
            KeyEvent::Released => HotkeyCommand::Ignore,
        },
        HotkeyMode::PushToTalk => match event {
            KeyEvent::Pressed => HotkeyCommand::Start,
            KeyEvent::Released => if recording {
                HotkeyCommand::Stop
            } else {
                HotkeyCommand::Ignore
            },
        },
    }
}

/// The shell's part before `command` runs.
pub fn announce(command: HotkeyCommand) -> (actions: Vec<ShellAction>)
    ensures
        actions@ == announcement(command),
{
    let mut actions: Vec<ShellAction> = Vec::new();
    match command {
        HotkeyCommand::Start => {
            actions.push(ShellAction::EmitHotkeyPressed);
            actions.push(ShellAction::EmitRecordingWillStart);
        },
        HotkeyCommand::Stop => {
            actions.push(ShellAction::EmitHotkeyReleased);
        },
        HotkeyCommand::Ignore => {},
    }
    assert(actions@ =~= announcement(command));
    actions
}

/// The shell's part after a start: the indicator is shown on success; a
/// failure is reported, and in toggle mode listeners are reset as well.
pub fn after_start(mode: HotkeyMode, outcome: Result<(), PipelineError>) -> (actions: Vec<
    ShellAction,
>)
    ensures
        actions@ == start_follow_up(mode, outcome),
{
    let mut actions: Vec<ShellAction> = Vec::new();
    match outcome {
        Ok(_) => {
            actions.push(ShellAction::ShowRecordingBar);
        },
        Err(e) => {
            actions.push(ShellAction::EmitRecordingError(e));
            match mode {
                HotkeyMode::Toggle => {
                    actions.push(ShellAction::EmitRecordingReset);
                },
                HotkeyMode::PushToTalk => {},
            }
        },
    }
    assert(actions@ =~= start_follow_up(mode, outcome));
    actions
}

/// The shell's part after a stop: nothing on success, since the indicator
/// stays until the transcript is in; after a failure the indicator is
/// hidden and listeners are reset.
pub fn after_stop(succeeded: bool) -> (actions: Vec<ShellAction>)
    ensures
        actions@ == stop_follow_up(succeeded),
{
    let mut actions: Vec<ShellAction> = Vec::new();
    if !succeeded {
        actions.push(ShellAction::HideRecordingBar);
        actions.push(ShellAction::EmitRecordingReset);
    }
    assert(actions@ =~= stop_follow_up(succeeded));
    actions
}

/// The state that the hotkey machine reckons with is the capture
/// session's own. Whatever phase the session is in, after a start command
/// (the request and, where it was admitted, the device's answer) and after
/// a stop command, a session is active exactly when `recording_after` says
/// so; a start counts as succeeded when it was admitted and the device
/// delivered a format.
pub proof fn lemma_state_follows_session(phase: CapturePhase, answer: Option<CaptureFormat>)
    ensures
        ({
            let admitted = start_admitted(phase);
            let requested = phase_after_start_request(phase);
            let settled = if admitted {
                phase_after_device_answer(requested, answer)
            } else {
                requested
            };
            !(settled is Idle) == recording_after(
                !(phase is Idle),
                HotkeyCommand::Start,
                admitted && answer is Some,
            )
        }),
        !recording_after(!(phase is Idle), HotkeyCommand::Stop, true),
        !recording_after(!(phase is Idle), HotkeyCommand::Stop, false),
{
}

/// In toggle mode two presses in a row, with no release between them, ask
/// for one start and one stop: a start then a stop from idle, a stop then a
/// start while recording. Never two starts, never two stops.
pub proof fn lemma_toggle_two_presses(recording: bool)
    ensures
        commands_for(
            HotkeyMode::Toggle,
            recording,
            seq![KeyEvent::Pressed, KeyEvent::Pressed],
        ) == if recording {
            seq![HotkeyCommand::Stop, HotkeyCommand::Start]
        } else {
            seq![HotkeyCommand::Start, HotkeyCommand::Stop]
        },
{
    let events = seq![KeyEvent::Pressed, KeyEvent::Pressed];
    let rest = events.drop_first();
    assert(rest =~= seq![KeyEvent::Pressed]);
    assert(rest.drop_first() =~= Seq::<KeyEvent>::empty());
    reveal_with_fuel(commands_for, 3);
    let first = command_for(HotkeyMode::Toggle, recording, KeyEvent::Pressed);
    let then = recording_after(recording, first, true);
    assert(commands_for(HotkeyMode::Toggle, then, rest) =~= seq![
        command_for(HotkeyMode::Toggle, then, KeyEvent::Pressed),
    ]);
    assert(commands_for(HotkeyMode::Toggle, recording, events) =~= seq![first] + commands_for(
        HotkeyMode::Toggle,
        then,
        rest,
    ));
}

/// In toggle mode, over any run of key events whose commands all succeed,
/// releases ask for nothing and presses alternate between start and stop:
/// counted from idle, the even presses start and the odd ones stop.
pub proof fn lemma_toggle_alternates(recording: bool, events: Seq<KeyEvent>, i: int)
    requires
        0 <= i < events.len(),
    ensures
        commands_for(HotkeyMode::Toggle, recording, events).len() == events.len(),
        commands_for(HotkeyMode::Toggle, recording, events)[i] == if events[i]
            == KeyEvent::Released {
            HotkeyCommand::Ignore
        } else if (presses_before(events, i) % 2 == 0) == recording {
            HotkeyCommand::Stop
        } else {
            HotkeyCommand::Start
        },
    decreases events.len(),
{
    lemma_commands_len(HotkeyMode::Toggle, recording, events);
    let first = command_for(HotkeyMode::Toggle, recording, events.first());
    let then = recording_after(recording, first, true);
    let rest = events.drop_first();
    lemma_commands_len(HotkeyMode::Toggle, then, rest);
    if i == 0 {
        assert(presses_before(events, 0) == 0);
    } else {
        lemma_toggle_alternates(then, rest, i - 1);
        lemma_presses_shift(events, i);
        assert(rest[i - 1] == events[i]);
    }
}

proof fn lemma_commands_len(mode: HotkeyMode, recording: bool, events: Seq<KeyEvent>)
    ensures
        commands_for(mode, recording, events).len() == events.len(),
    decreases events.len(),
{
    if events.len() > 0 {
        let first = command_for(mode, recording, events.first());
        lemma_commands_len(mode, recording_after(recording, first, true), events.drop_first());
    }
}

proof fn lemma_presses_shift(events: Seq<KeyEvent>, i: int)
    requires
        0 < i <= events.len(),
    ensures
        presses_before(events, i) == presses_before(events.drop_first(), i - 1) + if events[0]
            == KeyEvent::Pressed {
            1nat
        } else {
            0nat
        },
    decreases i,
{
    let rest = events.drop_first();
    if i == 1 {
        assert(presses_before(events, 0) == 0);
        assert(presses_before(rest, 0) == 0);
    } else {
        lemma_presses_shift(events, i - 1);
        assert(rest[i - 2] == events[i - 1]);
    }
}

} // verus!
