//! The timing of the offscreen capture loop: when to render, how often to
//! capture a frame, when to ask the engine for the source's frame rate and
//! when to poll the status. The loop itself, its graphics context and its
//! clock belong to the caller; times are milliseconds on the caller's
//! monotonic clock, frame rates are thousandths of a frame per second.

use vstd::prelude::*;
use vstd::string::*;
use crate::encoding::{base64_standard, encode_base64};
use crate::text::join2;

verus! {

/// The lowest frame rate the capture follows: 10 frames per second.
pub const MIN_RATE: u64 = 10000;

/// The highest frame rate the capture follows: 60 frames per second.
pub const MAX_RATE: u64 = 60000;

/// The frame rate assumed while the source reports none: 30 frames per
/// second.
pub const DEFAULT_RATE: u64 = 30000;

/// How often the source's frame rate is asked for.
pub const RATE_CHECK_MILLIS: u64 = 1000;

/// How often the status is polled.
pub const STATUS_MILLIS: u64 = 100;

/// How long the loop sleeps between two iterations.
pub const SLEEP_MILLIS: u64 = 8;

/// The quality at which frames are encoded.
pub const JPEG_QUALITY: u8 = 80;

/// The frame rate the capture follows for a reported source rate: the
/// default where none or zero is reported, else the reported rate, but no
/// less than the lowest and no more than the highest.
pub open spec fn capture_rate(reported: Option<u64>) -> u64 {
    match reported {
        Some(rate) => if rate == 0 {
            DEFAULT_RATE
        } else if rate < MIN_RATE {
            MIN_RATE
        } else if rate > MAX_RATE {
            MAX_RATE
        } else {
            rate
        },
        None => DEFAULT_RATE,
    }
}

/// The time between two captures for a reported source rate, in whole
/// milliseconds.
pub open spec fn capture_interval_of(reported: Option<u64>) -> u64 {
    (1000000int / capture_rate(reported) as int) as u64
}

/// The time from `since` to `now`, and zero where the clock went back.
pub open spec fn elapsed_of(now: u64, since: u64) -> u64 {
    if now >= since {
        (now - since) as u64
    } else {
        0
    }
}

/// The time between two captures for a reported source rate. It lies
/// between a sixtieth and a tenth of a second whatever is reported.
pub fn capture_interval(reported: Option<u64>) -> (millis: u64)
    ensures
        millis == capture_interval_of(reported),
        1000int / 60 <= millis <= 1000int / 10,
{
    let rate: u64 = match reported {
        Some(rate) => if rate == 0 {
            DEFAULT_RATE
        } else if rate < MIN_RATE {
            MIN_RATE
        } else if rate > MAX_RATE {
            MAX_RATE
        } else {
            rate
        },
        None => DEFAULT_RATE,
    };
    let millis: u64 = 1000000 / rate;
    assert(16 <= millis <= 100) by (nonlinear_arith)
        requires
            10000 <= rate <= 60000,
            millis == 1000000int / rate as int,
    ;
    millis
}

fn elapsed(now: u64, since: u64) -> (millis: u64)
    ensures
        millis == elapsed_of(now, since),
{
    if now >= since {
        now - since
    } else {
        0
    }
}

/// Where the engine is to render.
#[derive(Clone, Copy, Debug, PartialEq, Eq, Structural)]
pub enum RenderTarget {
    /// Into the framebuffer, from which frames are captured.
    Framebuffer,
    /// Into a target of one pixel that is thrown away, only to keep the
    /// engine's clock going.
    Discard,
}

/// How the render of one iteration went.
#[derive(Clone, Copy, Debug, PartialEq, Eq, Structural)]
pub enum Rendered {
    /// Nothing was to be rendered.
    Skipped,
    /// The engine rendered.
    Done,
    /// The engine failed to render.
    Failed,
}

/// What an iteration starts with.
#[derive(Clone, Copy, Debug, PartialEq, Eq, Structural)]
pub struct Step {
    /// The loop is to end.
    pub stop: bool,
    /// The engine is to render, and where.
    pub render: Option<RenderTarget>,
    /// The source's frame rate is to be asked for.
    pub query_rate: bool,
}

/// What an iteration ends with.
#[derive(Clone, Copy, Debug, PartialEq, Eq, Structural)]
pub struct Work {
    /// A frame is to be read back, encoded and sent.
    pub capture: bool,
    /// The status is to be polled and sent.
    pub poll_status: bool,
    /// How long to sleep before the next iteration.
    pub sleep_millis: u64,
}

/// The state of the capture loop.
#[derive(Clone, Copy, Debug, PartialEq, Eq, Structural)]
pub struct RenderLoop {
    /// Whether the framebuffer was complete when the loop started. Where it
    /// was not, the loop only keeps the engine's clock going, for good.
    pub framebuffer_ok: bool,
    /// The time between two captures.
    pub frame_interval: u64,
    /// When the last frame was captured.
    pub last_frame: u64,
    /// When the status was last polled.
    pub last_status: u64,
    /// When the source's frame rate was last asked for.
    pub last_rate_check: u64,
}

/// What an iteration starts with: nothing once shutdown was asked for;
/// else a render if the engine signalled a frame, into the framebuffer or,
/// where that is unusable, into the discard target; and the question for
/// the source's rate once a second.
pub open spec fn step_of(state: RenderLoop, now: u64, shutdown: bool, frame_pending: bool) -> Step {
    if shutdown {
        Step { stop: true, render: None, query_rate: false }
    } else {
        Step {
            stop: false,
            render: if frame_pending {
                Some(
                    if state.framebuffer_ok {
                        RenderTarget::Framebuffer
                    } else {
                        RenderTarget::Discard
                    },
                )
            } else {
                None
            },
            query_rate: elapsed_of(now, state.last_rate_check) >= RATE_CHECK_MILLIS,
        }
    }
}

/// The state after taking the answer to the question for the source's
/// rate: `None` where the question was not asked, else what the source
/// reported.
pub open spec fn with_rate(state: RenderLoop, now: u64, rate: Option<Option<u64>>) -> RenderLoop {
    match rate {
        Some(reported) => RenderLoop {
            frame_interval: capture_interval_of(reported),
            last_rate_check: now,
            ..state
        },
        None => state,
    }
}

/// Whether a frame is captured: the framebuffer is usable and the time
/// between two captures has passed.
pub open spec fn capture_due(state: RenderLoop, now: u64) -> bool {
    state.framebuffer_ok && elapsed_of(now, state.last_frame) >= state.frame_interval
}

/// Whether the status is polled: its own, shorter time has passed.
pub open spec fn status_due(state: RenderLoop, now: u64) -> bool {
    elapsed_of(now, state.last_status) >= STATUS_MILLIS
}

/// What an iteration ends with, and the state it leaves. A failed render
/// skips the iteration: nothing is captured or polled and the state stays.
/// Otherwise the rate, if it was asked for, sets the time between
/// captures; a frame is captured if that time has passed; and the status is
/// polled on its own cadence, whether or not a frame was captured. The
/// loop sleeps the same short time either way.
pub open spec fn work_of(state: RenderLoop, now: u64, rendered: Rendered, rate: Option<Option<u64>>) -> (
    RenderLoop,
    Work,
) {
    if rendered == Rendered::Failed {
        (state, Work { capture: false, poll_status: false, sleep_millis: SLEEP_MILLIS })
    } else {
        let paced = with_rate(state, now, rate);
        let capture = capture_due(paced, now);
        let poll = status_due(paced, now);
        (
            RenderLoop {
                last_frame: if capture {
                    now
                } else {
                    paced.last_frame
                },
                last_status: if poll {
                    now
                } else {
                    paced.last_status
                },
                ..paced
            },
            Work { capture, poll_status: poll, sleep_millis: SLEEP_MILLIS },
        )
    }
}

impl RenderLoop {
    /// Whether the time between two captures lies between a sixtieth and a
    /// tenth of a second.
    pub open spec fn wf(&self) -> bool {
        1000int / 60 <= self.frame_interval <= 1000int / 10
    }

    /// The loop at its start, from whether the framebuffer is complete:
    /// the default frame rate is assumed and every clock starts now.
    pub fn new(framebuffer_ok: bool, now: u64) -> (state: RenderLoop)
        ensures
            state.wf(),
            state == (RenderLoop {
                framebuffer_ok,
                frame_interval: capture_interval_of(None),
                last_frame: now,
                last_status: now,
                last_rate_check: now,
            }),
    {
        RenderLoop {
            framebuffer_ok,
            frame_interval: capture_interval(None),
            last_frame: now,
            last_status: now,
            last_rate_check: now,
        }
    }

    /// What an iteration starts with.
    pub fn begin(&self, now: u64, shutdown: bool, frame_pending: bool) -> (step: Step)
        ensures
            step == step_of(*self, now, shutdown, frame_pending),
    {
        if shutdown {
            return Step { stop: true, render: None, query_rate: false };
        }
        let render = if frame_pending {
            if self.framebuffer_ok {
                Some(RenderTarget::Framebuffer)
            } else {
                Some(RenderTarget::Discard)
            }
        } else {
            None
        };
        Step {
            stop: false,
            render,
            query_rate: elapsed(now, self.last_rate_check) >= RATE_CHECK_MILLIS,
        }
    }

    /// What an iteration ends with, from how the render went and what the
    /// source reported as its rate, if it was asked.
    pub fn finish(&mut self, now: u64, rendered: Rendered, rate: Option<Option<u64>>) -> (work: Work)
        requires
            old(self).wf(),
        ensures
            final(self).wf(),
            (*final(self), work) == work_of(*old(self), now, rendered, rate),
            final(self).framebuffer_ok == old(self).framebuffer_ok,
            !old(self).framebuffer_ok ==> !work.capture,
    {
        if rendered == Rendered::Failed {
            return Work { capture: false, poll_status: false, sleep_millis: SLEEP_MILLIS };
        }
        match rate {
            Some(reported) => {
                self.frame_interval = capture_interval(reported);
                self.last_rate_check = now;
            },
            None => {},
        }
        let capture = self.framebuffer_ok && elapsed(now, self.last_frame) >= self.frame_interval;
        if capture {
            self.last_frame = now;
        }
        let poll = elapsed(now, self.last_status) >= STATUS_MILLIS;
        if poll {
            self.last_status = now;
        }
        Work { capture, poll_status: poll, sleep_millis: SLEEP_MILLIS }
    }
}

/// A frame on its way to the host: its size and its encoded bytes as
/// base64 text.
#[derive(Debug)]
pub struct FrameData {
    pub width: u32,
    pub height: u32,
    pub jpeg: String,
}

impl FrameData {
    /// The frame of this size with these encoded bytes.
    pub fn encode(width: u32, height: u32, jpeg: &Vec<u8>) -> (frame: FrameData)
        requires
            jpeg@.len() / 3 * 4 + 4 <= usize::MAX,
        ensures
            frame.width == width,
            frame.height == height,
            frame.jpeg@ == base64_standard(jpeg@),
            frame.jpeg@.len() == (jpeg@.len() + 2) / 3 * 4,
    {
        FrameData { width, height, jpeg: encode_base64(jpeg) }
    }
}

/// The width of the framebuffer before the engine reports the video's.
pub const INITIAL_WIDTH: u32 = 1920;

/// The height of the framebuffer before the engine reports the video's.
pub const INITIAL_HEIGHT: u32 = 1080;

/// The value of an option the engine is created with.
#[derive(Debug)]
pub enum OptionValue {
    Text(String),
    Integer(i64),
}

/// An option the engine is created with.
#[derive(Debug)]
pub struct EngineOption {
    pub name: String,
    pub value: OptionValue,
}

pub enum OptionValueModel {
    Text(Seq<char>),
    Integer(i64),
}

/// What an option holds, as mathematical values.
pub open spec fn option_model(option: EngineOption) -> (Seq<char>, OptionValueModel) {
    (
        option.name@,
        match option.value {
            OptionValue::Text(text) => OptionValueModel::Text(text@),
            OptionValue::Integer(number) => OptionValueModel::Integer(number),
        },
    )
}

/// What each of a list of options holds.
pub open spec fn option_models(options: Seq<EngineOption>) -> Seq<(Seq<char>, OptionValueModel)> {
    Seq::new(options.len(), |i: int| option_model(options[i]))
}

/// The options of an engine that renders offscreen, in the order they are
/// set.
pub open spec fn offscreen_options() -> Seq<(Seq<char>, OptionValueModel)> {
    seq![
        ("vo"@, OptionValueModel::Text("libmpv"@)),
        ("osc"@, OptionValueModel::Text("no"@)),
        ("osd-level"@, OptionValueModel::Integer(0)),
        ("keep-open"@, OptionValueModel::Text("yes"@)),
        ("idle"@, OptionValueModel::Text("yes"@)),
        ("input-default-bindings"@, OptionValueModel::Text("no"@)),
        ("hwdec"@, OptionValueModel::Text("auto"@)),
        ("tone-mapping"@, OptionValueModel::Text("mobius"@)),
    ]
}

fn text_option(name: &str, value: &str) -> (option: EngineOption)
    ensures
        option_model(option) == (name@, OptionValueModel::Text(value@)),
{
    EngineOption { name: String::from_str(name), value: OptionValue::Text(String::from_str(value)) }
}

/// The options of an engine that renders offscreen, in the order they are
/// set.
pub fn engine_options() -> (options: Vec<EngineOption>)
    ensures
        option_models(options@) == offscreen_options(),
{
    let options = vec![
        text_option("vo", "libmpv"),
        text_option("osc", "no"),
        EngineOption { name: String::from_str("osd-level"), value: OptionValue::Integer(0) },
        text_option("keep-open", "yes"),
        text_option("idle", "yes"),
        text_option("input-default-bindings", "no"),
        text_option("hwdec", "auto"),
        text_option("tone-mapping", "mobius"),
    ];
    assert(option_models(options@) =~= offscreen_options());
    options
}

/// The end of creating the offscreen engine: what it gave, from what the
/// engine's library gave: nothing, or the error in words. The options the
/// engine is created with are `engine_options`; the thread that is started
/// next is `render_thread_fbo`.
pub fn init_mpv_fbo(created: Result<(), String>) -> (out: Result<(), String>)
    ensures
        match created {
            Ok(_) => out is Ok,
            Err(reason) => out is Err && out->Err_0@ == "Failed to create mpv: "@ + reason@,
        },
{
    match created {
        Ok(_) => Ok(()),
        Err(reason) => Err(join2("Failed to create mpv: ", reason.as_str())),
    }
}

/// How the start of the capture thread went.
#[derive(Debug)]
pub enum Startup {
    /// The graphics context could not be set up or made current, with the
    /// error in words.
    ContextFailed(String),
    /// The engine's render context could not be created, with the reason.
    RenderContextFailed(String),
    /// Creating the engine's render context panicked.
    RenderContextPanicked,
    /// Everything stands; the framebuffer is complete or it is not.
    Ready { framebuffer_complete: bool },
}

/// The capture loop at the start of its thread, from how the start went.
/// A thread that could not get its graphics context or its render context
/// ends with the error in words. An incomplete framebuffer ends nothing:
/// the loop runs, and only keeps the engine's clock going.
pub fn render_thread_fbo(startup: Startup, now: u64) -> (out: Result<RenderLoop, String>)
    ensures
        match startup {
            Startup::ContextFailed(message) => out is Err && out->Err_0@ == message@,
            Startup::RenderContextFailed(reason) => out is Err && out->Err_0@
                == "Failed to create render context: "@ + reason@,
            Startup::RenderContextPanicked => out is Err && out->Err_0@
                == "Render context creation panicked"@,
            Startup::Ready { framebuffer_complete } => out is Ok && out->Ok_0.wf() && out->Ok_0 == (
            RenderLoop {
                framebuffer_ok: framebuffer_complete,
                frame_interval: capture_interval_of(None),
                last_frame: now,
                last_status: now,
                last_rate_check: now,
            }),
        },
{
    match startup {
        Startup::ContextFailed(message) => Err(message),
        Startup::RenderContextFailed(reason) => Err(
            join2("Failed to create render context: ", reason.as_str()),
        ),
        Startup::RenderContextPanicked => Err(String::from_str("Render context creation panicked")),
        Startup::Ready { framebuffer_complete } => Ok(RenderLoop::new(framebuffer_complete, now)),
    }
}

/// Between two frames at least the time between two captures passes: once
/// an iteration has captured a frame, a later iteration less than that
/// time after it captures none.
pub proof fn lemma_one_frame_per_interval(state: RenderLoop, first: u64, second: u64)
    requires
        state.wf(),
        first <= second,
        work_of(state, first, Rendered::Done, None).1.capture,
        second - first < state.frame_interval,
    ensures
        !work_of(work_of(state, first, Rendered::Done, None).0, second, Rendered::Done, None).1.capture,
{
}

/// A loop whose framebuffer was unusable at the start never captures, and
/// stays so, whatever is rendered and reported.
pub proof fn lemma_unusable_framebuffer_never_captures(
    state: RenderLoop,
    now: u64,
    rendered: Rendered,
    rate: Option<Option<u64>>,
)
    requires
        !state.framebuffer_ok,
    ensures
        !work_of(state, now, rendered, rate).1.capture,
        !work_of(state, now, rendered, rate).0.framebuffer_ok,
{
}

} // verus!
