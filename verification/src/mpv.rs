//! The media engine: its control protocol, its supervisor and the capture
//! loop, with the result and status values handed to the host.

pub mod ipc;
pub mod external;
pub mod gl_context;
pub mod render_loop;
pub mod renderer;

use vstd::prelude::*;
use vstd::string::*;
use crate::json::{bool_of, json_bool};
use crate::mpv::external::{ExternalMpv, ExternalMpvState, ShutdownPlan, SupervisorState};
use crate::mpv::ipc::{exhausted_text, succeeded, MpvResponse, Request};
use crate::platform::Platform;
use crate::text::text_eq;

pub use crate::mpv::render_loop::FrameData;

verus! {

/// The volume that a status reports when the engine gives none, in
/// thousandths of a percent.
pub const DEFAULT_VOLUME: u64 = 100000;

/// The status of the engine as the host sees it. Volume is in thousandths
/// of a percent, position and duration in milliseconds.
#[derive(Clone, Copy, Debug, PartialEq, Eq, Structural)]
pub struct MpvStatus {
    pub playing: bool,
    pub volume: u64,
    pub muted: bool,
    pub position: u64,
    pub duration: u64,
}

/// The status that five readings give. Each field goes by its own reading
/// alone: a reading that failed gives that field its default and touches no
/// other. Playing is the opposite of paused and defaults to false, volume
/// defaults to a hundred percent, muted to false, position and duration to
/// zero.
pub open spec fn status_of(
    pause: Option<bool>,
    volume: Option<u64>,
    mute: Option<bool>,
    position: Option<u64>,
    duration: Option<u64>,
) -> MpvStatus {
    MpvStatus {
        playing: match pause {
            Some(paused) => !paused,
            None => false,
        },
        volume: match volume {
            Some(v) => v,
            None => DEFAULT_VOLUME,
        },
        muted: match mute {
            Some(m) => m,
            None => false,
        },
        position: match position {
            Some(p) => p,
            None => 0,
        },
        duration: match duration {
            Some(d) => d,
            None => 0,
        },
    }
}

/// The flag that the outcome of reading a property holds: there is one
/// where the read succeeded and its data is a JSON boolean.
pub open spec fn flag_in(outcome: Result<Option<serde_json::Value>, String>) -> Option<bool> {
    match outcome {
        Ok(Some(value)) => json_bool(value),
        _ => None,
    }
}

impl MpvStatus {
    /// The status from five readings, each `None` where it failed.
    pub fn from_readings(
        pause: Option<bool>,
        volume: Option<u64>,
        mute: Option<bool>,
        position: Option<u64>,
        duration: Option<u64>,
    ) -> (status: MpvStatus)
        ensures
            status == status_of(pause, volume, mute, position, duration),
    {
        MpvStatus {
            playing: match pause {
                Some(paused) => !paused,
                None => false,
            },
            volume: match volume {
                Some(v) => v,
                None => DEFAULT_VOLUME,
            },
            muted: match mute {
                Some(m) => m,
                None => false,
            },
            position: match position {
                Some(p) => p,
                None => 0,
            },
            duration: match duration {
                Some(d) => d,
                None => 0,
            },
        }
    }

    /// The status reported while no engine runs: every field at its default.
    pub fn idle() -> (status: MpvStatus)
        ensures
            status == status_of(None, None, None, None, None),
    {
        MpvStatus::from_readings(None, None, None, None, None)
    }
}

/// Reads a flag out of the outcome of reading a property.
pub fn flag_reading(outcome: &Result<Option<serde_json::Value>, String>) -> (flag: Option<bool>)
    ensures
        flag == flag_in(*outcome),
{
    match outcome {
        Ok(Some(value)) => bool_of(value),
        _ => None,
    }
}

/// One reading that fails, whatever the others are, changes its own field
/// of the status to the default and leaves the other four as they were.
pub proof fn lemma_status_fields_are_independent(
    pause: Option<bool>,
    volume: Option<u64>,
    mute: Option<bool>,
    position: Option<u64>,
    duration: Option<u64>,
)
    ensures
        ({
            let all = status_of(pause, volume, mute, position, duration);
            &&& status_of(None, volume, mute, position, duration) == MpvStatus {
                playing: false,
                ..all
            }
            &&& status_of(pause, None, mute, position, duration) == MpvStatus {
                volume: DEFAULT_VOLUME,
                ..all
            }
            &&& status_of(pause, volume, None, position, duration) == MpvStatus {
                muted: false,
                ..all
            }
            &&& status_of(pause, volume, mute, None, duration) == MpvStatus { position: 0, ..all }
            &&& status_of(pause, volume, mute, position, None) == MpvStatus { duration: 0, ..all }
        }),
{
}

/// The result of one command as the host sees it: `success` is set where
/// the command went through, `error` holds the failure where it did not.
#[derive(Debug)]
pub struct MpvResult {
    pub success: Option<bool>,
    pub error: Option<String>,
}

/// What a result holds, as mathematical values.
pub struct ResultModel {
    pub success: Option<bool>,
    pub error: Option<Seq<char>>,
}

impl View for MpvResult {
    type V = ResultModel;

    open spec fn view(&self) -> ResultModel {
        ResultModel {
            success: self.success,
            error: match self.error {
                Some(message) => Some(message@),
                None => None,
            },
        }
    }
}

/// The result of a command that went through.
pub open spec fn ok_result() -> ResultModel {
    ResultModel { success: Some(true), error: None }
}

/// The result of a command that failed, with the failure in words.
pub open spec fn err_result(message: Seq<char>) -> ResultModel {
    ResultModel { success: None, error: Some(message) }
}

/// The result of a command, from the end of its round trip: success for a
/// reply that reports success, the engine's own message for a reply that
/// does not, and the failure in words where no reply came.
pub open spec fn result_of_reply(outcome: Result<MpvResponse, String>) -> ResultModel {
    match outcome {
        Ok(reply) => if succeeded(reply@) {
            ok_result()
        } else {
            err_result(reply.error@)
        },
        Err(message) => err_result(message@),
    }
}

impl MpvResult {
    /// The result of a command that went through.
    pub fn ok() -> (out: MpvResult)
        ensures
            out@ == ok_result(),
    {
        MpvResult { success: Some(true), error: None }
    }

    /// The result of a command that failed.
    pub fn err(msg: String) -> (out: MpvResult)
        ensures
            out@ == err_result(msg@),
    {
        MpvResult { success: None, error: Some(msg) }
    }

    /// The result of a command, from the end of its round trip.
    pub fn from_reply(outcome: Result<MpvResponse, String>) -> (out: MpvResult)
        ensures
            out@ == result_of_reply(outcome),
    {
        match outcome {
            Ok(reply) => {
                if text_eq(reply.error.as_str(), "success") {
                    MpvResult::ok()
                } else {
                    MpvResult::err(reply.error)
                }
            },
            Err(message) => MpvResult::err(message),
        }
    }

    /// The result of setting a property, from what setting it gave.
    pub fn from_property_set(outcome: Result<(), String>) -> (out: MpvResult)
        ensures
            out@ == (match outcome {
                Ok(_) => ok_result(),
                Err(message) => err_result(message@),
            }),
    {
        match outcome {
            Ok(_) => MpvResult::ok(),
            Err(message) => MpvResult::err(message),
        }
    }
}

/// The engine as the host holds it: the platform, and the supervisor of the
/// external engine where one runs.
pub struct MpvState {
    pub platform: Platform,
    pub external: ExternalMpvState,
}

/// What a command of the host comes to: a line to send to the engine, whose
/// reply then gives the result, or a result at once.
#[derive(Debug)]
pub enum CommandStep {
    Send(Request),
    Done(MpvResult),
}

/// The result of a command while no engine runs: on every platform the
/// command fails as not initialized.
pub open spec fn absent_result() -> ResultModel {
    err_result("mpv not initialized"@)
}

impl MpvState {
    /// Whether the state is sound: a supervisor that is held is sound and
    /// runs.
    pub open spec fn wf(&self) -> bool {
        self.external.mpv is Some ==> held(self.external.mpv.unwrap())
    }

    /// Whether an engine runs.
    pub fn is_active(&self) -> (active: bool)
        ensures
            active == (self.external.mpv is Some),
    {
        self.external.mpv.is_some()
    }
}

/// Whether a supervisor is fit to be held by the host: it is sound and
/// runs.
pub open spec fn held(mpv: ExternalMpv) -> bool {
    mpv.wf() && mpv.state() == SupervisorState::Running
}

fn absent() -> (out: MpvResult)
    ensures
        out@ == absent_result(),
{
    MpvResult::err(String::from_str("mpv not initialized"))
}

/// What a command does to the engine state. With a supervisor it issues
/// the command with these arguments and nothing else changes; should every
/// request id be given out, nothing is sent and the result says so. Without
/// a supervisor the state stays as it is, nothing is sent, and the result is
/// the not-initialized error.
pub open spec fn commanded(
    before: MpvState,
    after: MpvState,
    step: CommandStep,
    args: Seq<Seq<char>>,
) -> bool {
    &&& after.wf()
    &&& after.platform == before.platform
    &&& match before.external.mpv {
        Some(mpv) => {
            &&& after.external.mpv is Some
            &&& match step {
                CommandStep::Send(request) => external::issued(
                    mpv,
                    after.external.mpv.unwrap(),
                    Ok(request),
                    args,
                ),
                CommandStep::Done(result) => {
                    &&& result@ == err_result(exhausted_text())
                    &&& mpv.client().next_request_id() == u64::MAX
                    &&& after.external.mpv.unwrap().client().next_request_id() == u64::MAX
                    &&& after.external.mpv.unwrap().client().pending_ids()
                        == mpv.client().pending_ids()
                    &&& after.external.mpv.unwrap().state() == mpv.state()
                },
            }
        },
        None => {
            &&& after.external.mpv is None
            &&& step is Done
            &&& step->Done_0@ == absent_result()
        },
    }
}

fn step_for(outcome: Result<Request, String>) -> (step: CommandStep)
    ensures
        match outcome {
            Ok(request) => step == CommandStep::Send(request),
            Err(message) => step is Done && step->Done_0@ == err_result(message@),
        },
{
    match outcome {
        Ok(request) => CommandStep::Send(request),
        Err(message) => CommandStep::Done(MpvResult::err(message)),
    }
}

/// Sets up the engine for a platform. Where the engine renders into the
/// host's window, the outcome of starting it there decides: a supervisor is
/// kept, a failure leaves the state empty and is handed on, and so does a
/// missing main window (`None`). Elsewhere the state starts empty, the
/// host is told at once that playback is ready (`Ok(true)`), and the
/// outcome is not looked at.
pub fn init_mpv(platform: Platform, embedded: Option<Result<ExternalMpv, String>>) -> (out: (
    MpvState,
    Result<bool, String>,
))
    requires
        embedded matches Some(Ok(mpv)) ==> held(mpv),
    ensures
        out.0.wf(),
        out.0.platform == platform,
        match (platform, embedded) {
            (Platform::Windows, Some(Ok(mpv))) => {
                &&& out.0.external.mpv == Some(mpv)
                &&& out.1 == Ok::<bool, String>(false)
            },
            (Platform::Windows, Some(Err(reason))) => {
                &&& out.0.external.mpv is None
                &&& out.1 is Err
                &&& out.1->Err_0@ == reason@
            },
            (Platform::Windows, None) => {
                &&& out.0.external.mpv is None
                &&& out.1 is Err
                &&& out.1->Err_0@ == "Main window not found"@
            },
            _ => {
                &&& out.0.external.mpv is None
                &&& out.1 == Ok::<bool, String>(true)
            },
        },
{
    match platform {
        Platform::Windows => match embedded {
            Some(Ok(mpv)) => (
                MpvState { platform, external: ExternalMpvState { mpv: Some(mpv) } },
                Ok(false),
            ),
            Some(Err(reason)) => (MpvState { platform, external: ExternalMpvState::new() }, Err(reason)),
            None => (
                MpvState { platform, external: ExternalMpvState::new() },
                Err(String::from_str("Main window not found")),
            ),
        },
        _ => (MpvState { platform, external: ExternalMpvState::new() }, Ok(true)),
    }
}

/// Issues the command that loads a media file or stream. The result is
/// made of the reply by `MpvResult::from_reply`.
pub fn mpv_load(state: &mut MpvState, url: &str) -> (step: CommandStep)
    requires
        old(state).wf(),
    ensures
        commanded(*old(state), *final(state), step, seq!["loadfile"@, url@]),
{
    match &mut state.external.mpv {
        Some(mpv) => step_for(mpv.load(url)),
        None => CommandStep::Done(absent()),
    }
}

/// Issues the command that starts playback. The result is made of the
/// reply by `MpvResult::from_reply`.
pub fn mpv_play(state: &mut MpvState) -> (step: CommandStep)
    requires
        old(state).wf(),
    ensures
        commanded(*old(state), *final(state), step, seq!["set_property"@, "pause"@, "no"@]),
{
    match &mut state.external.mpv {
        Some(mpv) => step_for(mpv.play()),
        None => CommandStep::Done(absent()),
    }
}

/// Issues the command that pauses playback. The result is made of the
/// reply by `MpvResult::from_reply`.
pub fn mpv_pause(state: &mut MpvState) -> (step: CommandStep)
    requires
        old(state).wf(),
    ensures
        commanded(*old(state), *final(state), step, seq!["set_property"@, "pause"@, "yes"@]),
{
    match &mut state.external.mpv {
        Some(mpv) => step_for(mpv.pause()),
        None => CommandStep::Done(absent()),
    }
}

/// Issues the command that pauses playback if it runs and resumes it if
/// it is paused. The result is made of the reply by
/// `MpvResult::from_reply`.
pub fn mpv_toggle_pause(state: &mut MpvState) -> (step: CommandStep)
    requires
        old(state).wf(),
    ensures
        commanded(*old(state), *final(state), step, seq!["cycle"@, "pause"@]),
{
    match &mut state.external.mpv {
        Some(mpv) => step_for(mpv.toggle_pause()),
        None => CommandStep::Done(absent()),
    }
}

/// Issues the command that stops playback. The result is made of the
/// reply by `MpvResult::from_reply`.
pub fn mpv_stop(state: &mut MpvState) -> (step: CommandStep)
    requires
        old(state).wf(),
    ensures
        commanded(*old(state), *final(state), step, seq!["stop"@]),
{
    match &mut state.external.mpv {
        Some(mpv) => step_for(mpv.stop()),
        None => CommandStep::Done(absent()),
    }
}

/// Issues the command that sets the volume to a number given as text.
/// The result is made of the reply by `MpvResult::from_reply`. The number
/// is not checked against a range: the engine clamps it.
pub fn mpv_set_volume(state: &mut MpvState, volume: &str) -> (step: CommandStep)
    requires
        old(state).wf(),
    ensures
        commanded(*old(state), *final(state), step, seq!["set_property"@, "volume"@, volume@]),
{
    match &mut state.external.mpv {
        Some(mpv) => step_for(mpv.set_volume(volume)),
        None => CommandStep::Done(absent()),
    }
}

/// Issues the command that mutes the sound if it is on and turns it on
/// if it is muted. The result is made of the reply by
/// `MpvResult::from_reply`.
pub fn mpv_toggle_mute(state: &mut MpvState) -> (step: CommandStep)
    requires
        old(state).wf(),
    ensures
        commanded(*old(state), *final(state), step, seq!["cycle"@, "mute"@]),
{
    match &mut state.external.mpv {
        Some(mpv) => step_for(mpv.toggle_mute()),
        None => CommandStep::Done(absent()),
    }
}

/// Issues the command that seeks to a position in seconds, given as text.
/// The result is made of the reply by `MpvResult::from_reply`. The number
/// is not checked against a range: the engine clamps it.
pub fn mpv_seek(state: &mut MpvState, seconds: &str) -> (step: CommandStep)
    requires
        old(state).wf(),
    ensures
        commanded(*old(state), *final(state), step, seq!["seek"@, seconds@, "absolute"@]),
{
    match &mut state.external.mpv {
        Some(mpv) => step_for(mpv.seek(seconds)),
        None => CommandStep::Done(absent()),
    }
}

/// Whether the status has to be polled from the engine. Without a
/// supervisor it is the idle status, which `MpvStatus::idle` gives.
pub fn mpv_get_status(state: &MpvState) -> (out: Option<MpvStatus>)
    ensures
        match state.external.mpv {
            Some(_) => out is None,
            None => out == Some(status_of(None, None, None, None, None)),
        },
{
    match &state.external.mpv {
        Some(_) => None,
        None => Some(MpvStatus::idle()),
    }
}

/// Whether the external player window may be started: only on Linux, and
/// only while none runs. The failure says which of the two is in the way.
pub fn mpv_enable_external_window(state: &MpvState) -> (out: Result<(), MpvResult>)
    ensures
        match out {
            Ok(_) => state.platform == Platform::Linux && state.external.mpv is None,
            Err(result) => if state.platform != Platform::Linux {
                result@ == err_result("External window mode only available on Linux"@)
            } else {
                state.external.mpv is Some && result@ == err_result(
                    "External mpv already running"@,
                )
            },
        },
{
    if state.platform != Platform::Linux {
        Err(MpvResult::err(String::from_str("External window mode only available on Linux")))
    } else if state.external.mpv.is_some() {
        Err(MpvResult::err(String::from_str("External mpv already running")))
    } else {
        Ok(())
    }
}

/// Takes the outcome of starting the external player window: a supervisor
/// is kept and the command succeeds, a failure leaves the state as it was
/// and is the command's error.
pub fn external_window_started(state: &mut MpvState, started: Result<ExternalMpv, String>) -> (out:
    MpvResult)
    requires
        old(state).platform == Platform::Linux,
        old(state).external.mpv is None,
        started matches Ok(mpv) ==> held(mpv),
    ensures
        final(state).wf(),
        final(state).platform == old(state).platform,
        match started {
            Ok(mpv) => final(state).external.mpv == Some(mpv) && out@ == ok_result(),
            Err(reason) => final(state).external.mpv is None && out@ == err_result(reason@),
        },
{
    match started {
        Ok(mpv) => {
            state.external.mpv = Some(mpv);
            MpvResult::ok()
        },
        Err(reason) => MpvResult::err(reason),
    }
}

/// Stops the external player window. On Linux the supervisor, if one is
/// held, is shut down and let go, and its teardown is handed back; the
/// command succeeds either way. Elsewhere the command fails and nothing
/// changes.
pub fn mpv_disable_external_window(state: &mut MpvState) -> (out: (MpvResult, Option<ShutdownPlan>))
    requires
        old(state).wf(),
    ensures
        final(state).platform == old(state).platform,
        final(state).wf(),
        if old(state).platform == Platform::Linux {
            &&& final(state).external.mpv is None
            &&& out.0@ == ok_result()
            &&& match old(state).external.mpv {
                Some(mpv) => out.1 is Some && external::torn_down(mpv, out.1.unwrap()),
                None => out.1 is None,
            }
        } else {
            &&& final(state).external.mpv == old(state).external.mpv
            &&& out.0@ == err_result("External window mode only available on Linux"@)
            &&& out.1 is None
        },
{
    if state.platform != Platform::Linux {
        return (
            MpvResult::err(String::from_str("External window mode only available on Linux")),
            None,
        );
    }
    let held = state.external.mpv.take();
    match held {
        Some(mut mpv) => {
            let plan = mpv.shutdown();
            (MpvResult::ok(), Some(plan))
        },
        None => (MpvResult::ok(), None),
    }
}

} // verus!
