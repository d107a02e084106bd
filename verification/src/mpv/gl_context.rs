//! The lifecycle of the headless graphics context that the capture loop
//! renders in: the steps that set it up, in order, the failure each step
//! can end in, and the order in which it is torn down. The context itself
//! belongs to the caller's graphics backend.

use vstd::prelude::*;
use vstd::string::*;
use crate::platform::Platform;
use crate::text::join2;

verus! {

/// A step of setting the context up.
#[derive(Clone, Copy, Debug, PartialEq, Eq, Structural)]
pub enum GraphicsStage {
    /// Connect to the display server.
    Connection,
    /// Pick the graphics adapter.
    Adapter,
    /// Open the device.
    Device,
    /// Describe the context: version 3.3 with an alpha channel.
    ContextDescriptor,
    /// Create the context.
    Context,
    /// Create a surface of one pixel.
    Surface,
    /// Bind the surface to the context.
    BindSurface,
    /// Make the context current on this thread.
    MakeCurrent,
}

/// How a step failed.
#[derive(Debug)]
pub enum GraphicsFailure {
    /// The backend reported an error, given in words.
    Reported(String),
    /// The backend panicked, with what it said.
    Panicked(String),
}

/// A step of tearing the context down.
#[derive(Clone, Copy, Debug, PartialEq, Eq, Structural)]
pub enum TeardownStep {
    UnbindSurface,
    DestroySurface,
    DestroyContext,
    ReleaseDevice,
}

/// Whether the context needs a surface bound to it on a platform. It does
/// on Linux alone; elsewhere rendering into a framebuffer works without.
pub open spec fn needs_surface(platform: Platform) -> bool {
    platform == Platform::Linux
}

/// The steps that set the context up on a platform, in order.
pub open spec fn stages_of(platform: Platform) -> Seq<GraphicsStage> {
    if needs_surface(platform) {
        seq![
            GraphicsStage::Connection,
            GraphicsStage::Adapter,
            GraphicsStage::Device,
            GraphicsStage::ContextDescriptor,
            GraphicsStage::Context,
            GraphicsStage::Surface,
            GraphicsStage::BindSurface,
            GraphicsStage::MakeCurrent,
        ]
    } else {
        seq![
            GraphicsStage::Connection,
            GraphicsStage::Adapter,
            GraphicsStage::Device,
            GraphicsStage::ContextDescriptor,
            GraphicsStage::Context,
            GraphicsStage::MakeCurrent,
        ]
    }
}

/// The words a failed step's error begins with.
pub open spec fn failure_prefix(stage: GraphicsStage, panicked: bool) -> Seq<char> {
    match stage {
        GraphicsStage::Connection => "Surfman connection failed: "@,
        GraphicsStage::Adapter => "Surfman adapter failed: "@,
        GraphicsStage::Device => if panicked {
            "Surfman device panicked: "@
        } else {
            "Surfman device failed: "@
        },
        GraphicsStage::ContextDescriptor => "Surfman context descriptor failed: "@,
        GraphicsStage::Context => "Surfman context creation failed: "@,
        GraphicsStage::Surface => "Surfman surface creation failed: "@,
        GraphicsStage::BindSurface => "Surfman bind_surface failed: "@,
        GraphicsStage::MakeCurrent => "Surfman make_current failed: "@,
    }
}

/// The error of a failed step: its opening words and what the backend
/// said. A panic has words of its own only where the device is opened.
pub open spec fn failure_message(stage: GraphicsStage, failure: GraphicsFailure) -> Seq<char> {
    match failure {
        GraphicsFailure::Reported(detail) => failure_prefix(stage, false) + detail@,
        GraphicsFailure::Panicked(detail) => failure_prefix(stage, true) + detail@,
    }
}

/// The steps that tear a context down, in order: the surface, where one is
/// bound, is unbound and destroyed before the context, and the device is
/// released last.
pub open spec fn teardown_of(surface_bound: bool) -> Seq<TeardownStep> {
    if surface_bound {
        seq![
            TeardownStep::UnbindSurface,
            TeardownStep::DestroySurface,
            TeardownStep::DestroyContext,
            TeardownStep::ReleaseDevice,
        ]
    } else {
        seq![TeardownStep::DestroyContext, TeardownStep::ReleaseDevice]
    }
}

fn prefix(stage: GraphicsStage, panicked: bool) -> (out: &'static str)
    ensures
        out@ == failure_prefix(stage, panicked),
{
    match stage {
        GraphicsStage::Connection => "Surfman connection failed: ",
        GraphicsStage::Adapter => "Surfman adapter failed: ",
        GraphicsStage::Device => if panicked {
            "Surfman device panicked: "
        } else {
            "Surfman device failed: "
        },
        GraphicsStage::ContextDescriptor => "Surfman context descriptor failed: ",
        GraphicsStage::Context => "Surfman context creation failed: ",
        GraphicsStage::Surface => "Surfman surface creation failed: ",
        GraphicsStage::BindSurface => "Surfman bind_surface failed: ",
        GraphicsStage::MakeCurrent => "Surfman make_current failed: ",
    }
}

/// The steps that set the context up on a platform, in order.
pub fn stages(platform: Platform) -> (out: Vec<GraphicsStage>)
    ensures
        out@ == stages_of(platform),
{
    let out = if platform == Platform::Linux {
        vec![
            GraphicsStage::Connection,
            GraphicsStage::Adapter,
            GraphicsStage::Device,
            GraphicsStage::ContextDescriptor,
            GraphicsStage::Context,
            GraphicsStage::Surface,
            GraphicsStage::BindSurface,
            GraphicsStage::MakeCurrent,
        ]
    } else {
        vec![
            GraphicsStage::Connection,
            GraphicsStage::Adapter,
            GraphicsStage::Device,
            GraphicsStage::ContextDescriptor,
            GraphicsStage::Context,
            GraphicsStage::MakeCurrent,
        ]
    };
    assert(out@ =~= stages_of(platform));
    out
}

/// A headless graphics context that was set up, as far as its lifecycle
/// goes: whether a surface is bound to it, and whether it still stands.
pub struct HeadlessGLContext {
    surface_bound: bool,
    alive: bool,
}

impl HeadlessGLContext {
    /// Whether a surface is bound to the context.
    pub closed spec fn surface_bound(&self) -> bool {
        self.surface_bound
    }

    /// Whether the context still stands.
    pub closed spec fn alive(&self) -> bool {
        self.alive
    }

    /// The context on a platform, from how setting it up went: `None`
    /// where every step went through, else the first step that failed and
    /// how. A context that was set up stands, with a surface bound where
    /// the platform needs one; a failure gives the error in words.
    pub fn new(platform: Platform, failed: Option<(GraphicsStage, GraphicsFailure)>) -> (out: Result<
        Self,
        String,
    >)
        ensures
            match (failed, out) {
                (None, Ok(context)) => context.alive() && context.surface_bound() == needs_surface(
                    platform,
                ),
                (Some((stage, failure)), Err(message)) => message@ == failure_message(stage, failure),
                _ => false,
            },
    {
        match failed {
            None => Ok(HeadlessGLContext { surface_bound: platform == Platform::Linux, alive: true }),
            Some((stage, failure)) => match failure {
                GraphicsFailure::Reported(detail) => Err(join2(prefix(stage, false), detail.as_str())),
                GraphicsFailure::Panicked(detail) => Err(join2(prefix(stage, true), detail.as_str())),
            },
        }
    }

    /// Whether the context still stands.
    pub fn is_alive(&self) -> (alive: bool)
        ensures
            alive == self.alive(),
    {
        self.alive
    }

    /// Whether a surface is bound to the context.
    pub fn has_surface(&self) -> (bound: bool)
        ensures
            bound == self.surface_bound(),
    {
        self.surface_bound
    }

    /// What making the context current gave, from what the backend gave:
    /// nothing, or the error in words.
    pub fn make_current(&self, outcome: Result<(), String>) -> (out: Result<(), String>)
        ensures
            match outcome {
                Ok(_) => out is Ok,
                Err(detail) => out is Err && out->Err_0@ == failure_prefix(
                    GraphicsStage::MakeCurrent,
                    false,
                ) + detail@,
            },
    {
        match outcome {
            Ok(_) => Ok(()),
            Err(detail) => Err(join2(prefix(GraphicsStage::MakeCurrent, false), detail.as_str())),
        }
    }

    /// Tears the context down: the steps to take, in order. A context
    /// that was torn down before has none left.
    pub fn shutdown(&mut self) -> (steps: Vec<TeardownStep>)
        ensures
            !final(self).alive(),
            !final(self).surface_bound(),
            steps@ == (if old(self).alive() {
                teardown_of(old(self).surface_bound())
            } else {
                Seq::<TeardownStep>::empty()
            }),
    {
        let steps = if !self.alive {
            Vec::new()
        } else if self.surface_bound {
            vec![
                TeardownStep::UnbindSurface,
                TeardownStep::DestroySurface,
                TeardownStep::DestroyContext,
                TeardownStep::ReleaseDevice,
            ]
        } else {
            vec![TeardownStep::DestroyContext, TeardownStep::ReleaseDevice]
        };
        assert(steps@ =~= (if self.alive {
            teardown_of(self.surface_bound)
        } else {
            Seq::<TeardownStep>::empty()
        }));
        self.alive = false;
        self.surface_bound = false;
        steps
    }
}

} // verus!
