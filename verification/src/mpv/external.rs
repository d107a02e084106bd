//! The supervisor of the external engine process: what to launch and with
//! which flags, the states it passes through from launch to teardown, the
//! commands of the host as lines of the control protocol, and what becomes
//! of the lines that come back.
//!
//! The supervisor spawns nothing and opens nothing itself. Each step hands
//! back what the caller is to do, and the caller reports how it went.

use vstd::prelude::*;
use vstd::string::*;
use crate::mpv::ipc::{
    command_line,
    dispatch,
    exhausted,
    exhausted_text,
    inbound_of,
    issued_by,
    one_line,
    start_reader_thread,
    texts,
    ActionModel,
    EventModel,
    MpvEvent,
    MpvIpcClient,
    MpvResponse,
    ReaderAction,
    ReplyModel,
    Request,
};
use crate::mpv::{status_of, MpvStatus};
use crate::platform::Platform;
use crate::text::{decimal, decimal_string, join2, signed_decimal, signed_decimal_string, text_eq};

verus! {

/// How long the engine is given to open its endpoint before the supervisor
/// connects, in milliseconds.
pub const SETTLE_MILLIS: u64 = 500;

/// The states of a supervisor. It starts at `NotStarted`, goes through
/// `Spawning`, `Connected` and `Running`, and ends through `ShuttingDown`
/// in `Terminated`. A failure while spawning or connecting ends in `Failed`.
#[derive(Clone, Copy, Debug, PartialEq, Eq, Structural)]
pub enum SupervisorState {
    NotStarted,
    Spawning,
    Connected,
    Running,
    ShuttingDown,
    Terminated,
    Failed,
}

/// Whether a supervisor may go from one state straight to another.
pub open spec fn may_follow(from: SupervisorState, to: SupervisorState) -> bool {
    match (from, to) {
        (SupervisorState::NotStarted, SupervisorState::Spawning) => true,
        (SupervisorState::Spawning, SupervisorState::Connected) => true,
        (SupervisorState::Spawning, SupervisorState::Failed) => true,
        (SupervisorState::Connected, SupervisorState::Running) => true,
        (SupervisorState::Connected, SupervisorState::Failed) => true,
        (SupervisorState::Running, SupervisorState::ShuttingDown) => true,
        (SupervisorState::ShuttingDown, SupervisorState::Terminated) => true,
        _ => false,
    }
}

/// Whether a step of a supervisor keeps the order of its states: it stays
/// in its state or goes straight to one that may follow.
pub open spec fn in_order(from: SupervisorState, to: SupervisorState) -> bool {
    from == to || may_follow(from, to)
}

/// What the caller is to launch: the engine binary with its flags, the
/// endpoint the engine will open, whether a stale endpoint file is to be
/// removed first, how long to wait before connecting, and what becomes of
/// the process's standard streams.
#[derive(Debug)]
pub struct LaunchPlan {
    pub binary: String,
    pub args: Vec<String>,
    pub socket_path: String,
    pub remove_stale_socket: bool,
    pub settle_millis: u64,
    /// The process gets no input.
    pub stdin_closed: bool,
    /// The process's output and errors are captured, not shown.
    pub output_captured: bool,
}

/// What the caller is to do to tear the engine down: write the quit line
/// without waiting for a reply, and go on if that fails; kill the process;
/// remove the endpoint file, if there is one.
#[derive(Debug)]
pub struct ShutdownPlan {
    pub quit_line: String,
    pub kill_process: bool,
    pub remove_socket: Option<String>,
}

/// What the host is to do about one inbound line.
#[derive(Debug)]
pub enum HostAction {
    /// Tell the host that a property changed and the status is to be
    /// read again.
    EmitPropertyChange,
    /// Complete the request with this id, once, with this reply.
    Fulfil(u64, MpvResponse),
    /// Nothing.
    Nothing,
}

pub enum HostActionModel {
    EmitPropertyChange,
    Fulfil(u64, ReplyModel),
    Nothing,
}

impl View for HostAction {
    type V = HostActionModel;

    open spec fn view(&self) -> HostActionModel {
        match self {
            HostAction::EmitPropertyChange => HostActionModel::EmitPropertyChange,
            HostAction::Fulfil(id, reply) => HostActionModel::Fulfil(*id, reply@),
            HostAction::Nothing => HostActionModel::Nothing,
        }
    }
}

/// The endpoint of the control channel for the supervisor's process id: a
/// named pipe or a socket file.
pub open spec fn socket_path_of(pid: u32, named_pipe: bool) -> Seq<char> {
    if named_pipe {
        "\\\\.\\pipe\\mpv-socket-"@ + decimal(pid as nat)
    } else {
        "/tmp/mpv-socket-"@ + decimal(pid as nat)
    }
}

/// The flags of an engine that renders into the window with handle `hwnd`.
pub open spec fn embedded_flags(socket_path: Seq<char>, hwnd: i64) -> Seq<Seq<char>> {
    seq![
        "--input-ipc-server="@ + socket_path,
        "--wid="@ + signed_decimal(hwnd as int),
        "--no-osc"@,
        "--no-osd-bar"@,
        "--osd-level=0"@,
        "--keep-open=yes"@,
        "--idle=yes"@,
        "--input-default-bindings=no"@,
        "--no-input-cursor"@,
        "--cursor-autohide=no"@,
        "--no-terminal"@,
        "--really-quiet"@,
        "--hwdec=auto"@,
        "--vo=gpu"@,
        "--tone-mapping=mobius"@,
    ]
}

/// The flags of an engine that opens a window of its own.
pub open spec fn standalone_flags(socket_path: Seq<char>) -> Seq<Seq<char>> {
    seq![
        "--input-ipc-server="@ + socket_path,
        "--no-osc"@,
        "--osd-level=1"@,
        "--keep-open=yes"@,
        "--idle=yes"@,
        "--hwdec=auto"@,
        "--vo=gpu"@,
        "--tone-mapping=mobius"@,
        "--title=sbtlTV Player"@,
    ]
}

/// The lines that register the five standard observers, the first of them
/// with request id `first`.
pub open spec fn observer_lines(first: u64) -> Seq<Seq<char>> {
    seq![
        command_line(seq!["observe_property"@, decimal(1), "pause"@], first),
        command_line(seq!["observe_property"@, decimal(2), "volume"@], (first + 1) as u64),
        command_line(seq!["observe_property"@, decimal(3), "mute"@], (first + 2) as u64),
        command_line(seq!["observe_property"@, decimal(4), "time-pos"@], (first + 3) as u64),
        command_line(seq!["observe_property"@, decimal(5), "duration"@], (first + 4) as u64),
    ]
}

/// Whether a property is one of the five that make up the status.
pub open spec fn observed(name: Seq<char>) -> bool {
    name == "pause"@ || name == "volume"@ || name == "mute"@ || name == "time-pos"@ || name
        == "duration"@
}

/// Whether an event is worth telling the host: a change of one of the
/// observed properties.
pub open spec fn notifies(event: EventModel) -> bool {
    event.event == "property-change"@ && event.name is Some && observed(event.name.unwrap())
}

/// What the host is to do about what the reader found. An event reaches
/// the host only while no shutdown was asked for.
pub open spec fn host_action(shutdown: bool, action: ActionModel) -> HostActionModel {
    match action {
        ActionModel::Notify(event) => if !shutdown && notifies(event) {
            HostActionModel::EmitPropertyChange
        } else {
            HostActionModel::Nothing
        },
        ActionModel::Fulfil(id, reply) => HostActionModel::Fulfil(id, reply),
        ActionModel::Nothing => HostActionModel::Nothing,
    }
}

/// The endpoint of the control channel for a process id.
pub fn get_socket_path(pid: u32, named_pipe: bool) -> (path: String)
    ensures
        path@ == socket_path_of(pid, named_pipe),
{
    let number = decimal_string(pid as u64);
    if named_pipe {
        join2("\\\\.\\pipe\\mpv-socket-", number.as_str())
    } else {
        join2("/tmp/mpv-socket-", number.as_str())
    }
}

/// Whether an event is worth telling the host.
pub fn handle_mpv_event(event: &MpvEvent) -> (notify: bool)
    ensures
        notify == notifies(event@),
{
    if !text_eq(event.event.as_str(), "property-change") {
        return false;
    }
    match &event.name {
        Some(name) => {
            let name = name.as_str();
            text_eq(name, "pause") || text_eq(name, "volume") || text_eq(name, "mute") || text_eq(
                name,
                "time-pos",
            ) || text_eq(name, "duration")
        },
        None => false,
    }
}

fn embedded_args(socket_path: &str, hwnd: i64) -> (args: Vec<String>)
    ensures
        texts(args@) == embedded_flags(socket_path@, hwnd),
{
    let handle = signed_decimal_string(hwnd);
    let args = vec![
        join2("--input-ipc-server=", socket_path),
        join2("--wid=", handle.as_str()),
        String::from_str("--no-osc"),
        String::from_str("--no-osd-bar"),
        String::from_str("--osd-level=0"),
        String::from_str("--keep-open=yes"),
        String::from_str("--idle=yes"),
        String::from_str("--input-default-bindings=no"),
        String::from_str("--no-input-cursor"),
        String::from_str("--cursor-autohide=no"),
        String::from_str("--no-terminal"),
        String::from_str("--really-quiet"),
        String::from_str("--hwdec=auto"),
        String::from_str("--vo=gpu"),
        String::from_str("--tone-mapping=mobius"),
    ];
    assert(texts(args@) =~= embedded_flags(socket_path@, hwnd));
    args
}

fn standalone_args(socket_path: &str) -> (args: Vec<String>)
    ensures
        texts(args@) == standalone_flags(socket_path@),
{
    let args = vec![
        join2("--input-ipc-server=", socket_path),
        String::from_str("--no-osc"),
        String::from_str("--osd-level=1"),
        String::from_str("--keep-open=yes"),
        String::from_str("--idle=yes"),
        String::from_str("--hwdec=auto"),
        String::from_str("--vo=gpu"),
        String::from_str("--tone-mapping=mobius"),
        String::from_str("--title=sbtlTV Player"),
    ];
    assert(texts(args@) =~= standalone_flags(socket_path@));
    args
}

/// The characters of an optional text.
pub open spec fn text_view(text: Option<&str>) -> Option<Seq<char>> {
    match text {
        Some(t) => Some(t@),
        None => None,
    }
}

/// One place under a directory, where the directory is known.
pub open spec fn place_under(dir: Option<Seq<char>>, rest: Seq<char>) -> Seq<Seq<char>> {
    match dir {
        Some(d) => seq![d + rest],
        None => Seq::empty(),
    }
}

/// The places where the engine's binary is looked for, in the order they
/// are tried: first the one bundled with the program, under its resource
/// directory, then the places where the system installs it, and last, on
/// Windows, the user's own programs. No binary is bundled on Linux.
pub open spec fn binary_places(
    platform: Platform,
    resources: Option<Seq<char>>,
    local_app_data: Option<Seq<char>>,
) -> Seq<Seq<char>> {
    match platform {
        Platform::Windows => place_under(resources, "\\mpv\\mpv.exe"@) + seq![
            "C:\\Program Files\\mpv\\mpv.exe"@,
            "C:\\Program Files (x86)\\mpv\\mpv.exe"@,
            "C:\\ProgramData\\chocolatey\\lib\\mpvio.install\\tools\\mpv.exe"@,
        ] + place_under(local_app_data, "\\Programs\\mpv\\mpv.exe"@),
        Platform::MacOs => place_under(resources, "/mpv/MacOS/mpv"@) + seq![
            "/opt/homebrew/bin/mpv"@,
            "/usr/local/bin/mpv"@,
            "/usr/bin/mpv"@,
        ],
        Platform::Linux => seq!["/usr/bin/mpv"@, "/usr/local/bin/mpv"@],
    }
}

/// The places where the engine's binary is looked for, in the order they
/// are tried.
pub fn mpv_candidates(platform: Platform, resources: Option<&str>, local_app_data: Option<&str>) -> (out:
    Vec<String>)
    ensures
        texts(out@) == binary_places(platform, text_view(resources), text_view(local_app_data)),
{
    let mut out: Vec<String> = Vec::new();
    match platform {
        Platform::Windows => {
            match resources {
                Some(dir) => {
                    out.push(join2(dir, "\\mpv\\mpv.exe"));
                },
                None => {},
            }
            out.push(String::from_str("C:\\Program Files\\mpv\\mpv.exe"));
            out.push(String::from_str("C:\\Program Files (x86)\\mpv\\mpv.exe"));
            out.push(
                String::from_str("C:\\ProgramData\\chocolatey\\lib\\mpvio.install\\tools\\mpv.exe"),
            );
            match local_app_data {
                Some(dir) => {
                    out.push(join2(dir, "\\Programs\\mpv\\mpv.exe"));
                },
                None => {},
            }
        },
        Platform::MacOs => {
            match resources {
                Some(dir) => {
                    out.push(join2(dir, "/mpv/MacOS/mpv"));
                },
                None => {},
            }
            out.push(String::from_str("/opt/homebrew/bin/mpv"));
            out.push(String::from_str("/usr/local/bin/mpv"));
            out.push(String::from_str("/usr/bin/mpv"));
        },
        Platform::Linux => {
            out.push(String::from_str("/usr/bin/mpv"));
            out.push(String::from_str("/usr/local/bin/mpv"));
        },
    }
    assert(texts(out@) =~= binary_places(
        platform,
        text_view(resources),
        text_view(local_app_data),
    ));
    out
}

/// The engine's binary: the first of the places at which one was found,
/// where `found` says of each place, in order, whether one is there. A
/// place of which nothing is said counts as empty.
pub fn find_mpv_binary(places: &Vec<String>, found: &Vec<bool>) -> (out: Option<String>)
    ensures
        match out {
            Some(path) => exists|i: int|
                0 <= i < places@.len() && i < found@.len() && #[trigger] found@[i] && path@
                    == places@[i]@ && forall|j: int| 0 <= j < i ==> !#[trigger] found@[j],
            None => forall|j: int| 0 <= j < places@.len() && j < found@.len() ==> !#[trigger] found@[j],
        },
{
    let mut i: usize = 0;
    while i < places.len() && i < found.len()
        invariant
            forall|j: int| 0 <= j < i ==> !#[trigger] found@[j],
        decreases places.len() - i,
    {
        if found[i] {
            return Some(places[i].clone());
        }
        i += 1;
    }
    None
}

/// The supervisor of one engine process.
pub struct ExternalMpv {
    state: SupervisorState,
    ipc: MpvIpcClient,
    shutdown: bool,
    events_enabled: bool,
    named_pipe: bool,
    socket_path: String,
}

/// What the launch of a supervisor starts from: it is spawning, asked for
/// no shutdown, and its endpoint goes by the process id.
pub open spec fn launched(mpv: ExternalMpv, pid: u32, named_pipe: bool, events: bool) -> bool {
    &&& mpv.wf()
    &&& mpv.state() == SupervisorState::Spawning
    &&& !mpv.shutdown_requested()
    &&& mpv.events_enabled() == events
    &&& mpv.named_pipe() == named_pipe
    &&& mpv.socket_path() == socket_path_of(pid, named_pipe)
}

/// What stays as it is while a supervisor works: its endpoint and how it
/// was set up.
pub open spec fn same_setup(before: ExternalMpv, after: ExternalMpv) -> bool {
    &&& after.events_enabled() == before.events_enabled()
    &&& after.named_pipe() == before.named_pipe()
    &&& after.socket_path() == before.socket_path()
}

/// What issuing a command with these arguments does to a supervisor: the
/// client issues it, or does not where every request id was given out, and
/// nothing else changes.
pub open spec fn issued(
    before: ExternalMpv,
    after: ExternalMpv,
    out: Result<Request, String>,
    args: Seq<Seq<char>>,
) -> bool {
    &&& after.wf()
    &&& same_setup(before, after)
    &&& after.state() == before.state()
    &&& in_order(before.state(), after.state())
    &&& after.shutdown_requested() == before.shutdown_requested()
    &&& issued_by(before.client(), after.client(), out, args)
}

/// What a teardown holds for the supervisor it was made for: the quit
/// command, on one line, under the next request id; the order to kill the
/// process; and the endpoint file, unless the endpoint is a named pipe,
/// which leaves none.
pub open spec fn torn_down(before: ExternalMpv, plan: ShutdownPlan) -> bool {
    &&& plan.kill_process
    &&& plan.quit_line@ == command_line(seq!["quit"@], before.client().next_request_id())
    &&& one_line(plan.quit_line@)
    &&& match plan.remove_socket {
        Some(path) => !before.named_pipe() && path@ == before.socket_path(),
        None => before.named_pipe(),
    }
}

impl ExternalMpv {
    /// The state the supervisor is in.
    pub closed spec fn state(&self) -> SupervisorState {
        self.state
    }

    /// The protocol client of the supervisor.
    pub closed spec fn client(&self) -> MpvIpcClient {
        self.ipc
    }

    /// Whether a shutdown was asked for.
    pub closed spec fn shutdown_requested(&self) -> bool {
        self.shutdown
    }

    /// Whether the engine's events are read. Where they are not, commands
    /// still work, and the status has to be polled.
    pub closed spec fn events_enabled(&self) -> bool {
        self.events_enabled
    }

    /// Whether the endpoint is a named pipe rather than a socket file.
    pub closed spec fn named_pipe(&self) -> bool {
        self.named_pipe
    }

    /// The endpoint of the control channel.
    pub closed spec fn socket_path(&self) -> Seq<char> {
        self.socket_path@
    }

    /// The invariant of the supervisor: its client is sound, and a
    /// shutdown was asked for exactly in the two last states.
    pub open spec fn wf(&self) -> bool {
        &&& self.client().wf()
        &&& self.shutdown_requested() == (self.state() == SupervisorState::ShuttingDown
            || self.state() == SupervisorState::Terminated)
    }

    /// The state the supervisor is in.
    pub fn current_state(&self) -> (state: SupervisorState)
        ensures
            state == self.state(),
    {
        self.state
    }

    /// Whether a shutdown was asked for. The reader and the capture loop
    /// stop when they see it.
    pub fn is_shutting_down(&self) -> (flag: bool)
        ensures
            flag == self.shutdown_requested(),
    {
        self.shutdown
    }

    /// Whether the engine's events are read.
    pub fn has_events(&self) -> (flag: bool)
        ensures
            flag == self.events_enabled(),
    {
        self.events_enabled
    }

    /// Whether the engine runs, so that commands can be issued.
    pub fn is_running(&self) -> (running: bool)
        ensures
            running == (self.state() == SupervisorState::Running),
    {
        self.state == SupervisorState::Running
    }

    /// Whether a request id is left for another command.
    pub fn has_free_id(&self) -> (free: bool)
        ensures
            free == (self.client().next_request_id() < u64::MAX),
    {
        self.ipc.has_free_id()
    }

    /// How many requests await a reply.
    pub fn pending_count(&self) -> (count: usize)
        ensures
            count == self.client().pending_ids().len(),
    {
        self.ipc.pending_count()
    }

    /// Starts a supervisor for an engine that renders into the host's
    /// window. Without a binary there is nothing to launch, and the
    /// failure says so. With one, the supervisor is spawning and the plan
    /// says what to launch. Such an engine's events are not read.
    pub fn new_embedded(binary: Option<String>, pid: u32, hwnd: i64) -> (out: Result<
        (ExternalMpv, LaunchPlan),
        String,
    >)
        ensures
            match (binary, out) {
                (Some(path), Ok((mpv, plan))) => {
                    &&& launched(mpv, pid, true, false)
                    &&& plan.binary@ == path@
                    &&& texts(plan.args@) == embedded_flags(socket_path_of(pid, true), hwnd)
                    &&& plan.socket_path@ == socket_path_of(pid, true)
                    &&& !plan.remove_stale_socket
                    &&& plan.settle_millis == SETTLE_MILLIS
                    &&& plan.stdin_closed
                    &&& plan.output_captured
                },
                (None, Err(message)) => message@
                    == "mpv not found - install mpv or check bundled resources"@,
                _ => false,
            },
    {
        let path = match binary {
            Some(path) => path,
            None => {
                return Err(
                    String::from_str("mpv not found - install mpv or check bundled resources"),
                );
            },
        };
        let socket_path = get_socket_path(pid, true);
        let args = embedded_args(socket_path.as_str(), hwnd);
        let plan = LaunchPlan {
            binary: path,
            args,
            socket_path: socket_path.clone(),
            remove_stale_socket: false,
            settle_millis: SETTLE_MILLIS,
            stdin_closed: true,
            output_captured: true,
        };
        let mpv = ExternalMpv {
            state: SupervisorState::Spawning,
            ipc: MpvIpcClient::fresh(),
            shutdown: false,
            events_enabled: false,
            named_pipe: true,
            socket_path,
        };
        Ok((mpv, plan))
    }

    /// Starts a supervisor for an engine that opens a window of its own.
    /// Without a binary there is nothing to launch, and the failure says
    /// so. With one, the supervisor is spawning and the plan says what to
    /// launch, after removing what an earlier run left at the endpoint.
    /// Such an engine's events are read.
    pub fn new_standalone(binary: Option<String>, pid: u32) -> (out: Result<
        (ExternalMpv, LaunchPlan),
        String,
    >)
        ensures
            match (binary, out) {
                (Some(path), Ok((mpv, plan))) => {
                    &&& launched(mpv, pid, false, true)
                    &&& plan.binary@ == path@
                    &&& texts(plan.args@) == standalone_flags(socket_path_of(pid, false))
                    &&& plan.socket_path@ == socket_path_of(pid, false)
                    &&& plan.remove_stale_socket
                    &&& plan.settle_millis == SETTLE_MILLIS
                    &&& plan.stdin_closed
                    &&& plan.output_captured
                },
                (None, Err(message)) => message@ == "mpv not found - install via package manager"@,
                _ => false,
            },
    {
        let path = match binary {
            Some(path) => path,
            None => {
                return Err(String::from_str("mpv not found - install via package manager"));
            },
        };
        let socket_path = get_socket_path(pid, false);
        let args = standalone_args(socket_path.as_str());
        let plan = LaunchPlan {
            binary: path,
            args,
            socket_path: socket_path.clone(),
            remove_stale_socket: true,
            settle_millis: SETTLE_MILLIS,
            stdin_closed: true,
            output_captured: true,
        };
        let mpv = ExternalMpv {
            state: SupervisorState::Spawning,
            ipc: MpvIpcClient::fresh(),
            shutdown: false,
            events_enabled: true,
            named_pipe: false,
            socket_path,
        };
        Ok((mpv, plan))
    }

    /// Takes a failure to spawn the process: the supervisor has failed,
    /// and the message is the initialization error.
    pub fn spawn_failed(&mut self, reason: &str) -> (message: String)
        requires
            old(self).wf(),
            old(self).state() == SupervisorState::Spawning,
        ensures
            final(self).wf(),
            same_setup(*old(self), *final(self)),
            in_order(old(self).state(), final(self).state()),
            final(self).state() == SupervisorState::Failed,
            message@ == "Failed to spawn mpv: "@ + reason@,
    {
        self.state = SupervisorState::Failed;
        join2("Failed to spawn mpv: ", reason)
    }

    /// Takes the outcome of connecting to the endpoint. A connection
    /// makes the supervisor connected, with a client whose first request
    /// id is 1 and whose table is empty, and the answer says whether the
    /// reader is to be started. A failure makes it failed, and the message
    /// is the initialization error.
    pub fn connected(&mut self, opened: Result<(), String>) -> (out: Result<bool, String>)
        requires
            old(self).wf(),
            old(self).state() == SupervisorState::Spawning,
        ensures
            final(self).wf(),
            same_setup(*old(self), *final(self)),
            in_order(old(self).state(), final(self).state()),
            match (opened, out) {
                (Ok(_), Ok(start_reader)) => {
                    &&& final(self).state() == SupervisorState::Connected
                    &&& start_reader == old(self).events_enabled()
                    &&& final(self).client().next_request_id() == 1
                    &&& final(self).client().pending_ids() == Set::<u64>::empty()
                },
                (Err(reason), Err(message)) => {
                    &&& final(self).state() == SupervisorState::Failed
                    &&& message@ == (if old(self).named_pipe() {
                        "Failed to connect to mpv pipe: "@
                    } else {
                        "Failed to connect to mpv socket: "@
                    }) + reason@
                },
                _ => false,
            },
    {
        match MpvIpcClient::connect(opened, self.named_pipe) {
            Ok(client) => {
                self.ipc = client;
                self.state = SupervisorState::Connected;
                Ok(self.events_enabled)
            },
            Err(message) => {
                self.state = SupervisorState::Failed;
                Err(message)
            },
        }
    }

    /// Takes the outcome of starting the reader. A reader that started
    /// changes nothing. A failure makes the supervisor failed, and the
    /// message is the initialization error.
    pub fn reader_started(&mut self, opened: Result<(), String>) -> (out: Result<(), String>)
        requires
            old(self).wf(),
            old(self).state() == SupervisorState::Connected,
        ensures
            final(self).wf(),
            same_setup(*old(self), *final(self)),
            in_order(old(self).state(), final(self).state()),
            final(self).client() == old(self).client(),
            match opened {
                Ok(_) => out is Ok && final(self).state() == SupervisorState::Connected,
                Err(reason) => {
                    &&& final(self).state() == SupervisorState::Failed
                    &&& out is Err
                    &&& out->Err_0@ == (if old(self).named_pipe() {
                        "Failed to open mpv pipe for reading: "@
                    } else {
                        "Failed to connect to mpv socket for reading: "@
                    }) + reason@
                },
            },
    {
        match start_reader_thread(opened, self.named_pipe) {
            Ok(_) => Ok(()),
            Err(message) => {
                self.state = SupervisorState::Failed;
                Err(message)
            },
        }
    }

    /// The lines that register the standard observers, to be written
    /// without awaiting replies: five where the engine's events are read,
    /// none where they are not. Where fewer than five request ids are left,
    /// nothing is registered and nothing changes.
    pub fn register_observers(&mut self) -> (out: Result<Vec<String>, String>)
        requires
            old(self).wf(),
            old(self).state() == SupervisorState::Connected,
        ensures
            final(self).wf(),
            same_setup(*old(self), *final(self)),
            in_order(old(self).state(), final(self).state()),
            final(self).state() == SupervisorState::Connected,
            final(self).client().pending_ids() == old(self).client().pending_ids(),
            match out {
                Ok(lines) => if old(self).events_enabled() {
                    &&& old(self).client().next_request_id() <= u64::MAX - 5
                    &&& texts(lines@) == observer_lines(old(self).client().next_request_id())
                    &&& final(self).client().next_request_id() == old(
                        self,
                    ).client().next_request_id() + 5
                } else {
                    &&& lines@.len() == 0
                    &&& final(self).client().next_request_id() == old(
                        self,
                    ).client().next_request_id()
                },
                Err(message) => {
                    &&& old(self).events_enabled()
                    &&& old(self).client().next_request_id() > u64::MAX - 5
                    &&& message@ == exhausted_text()
                    &&& final(self).client().next_request_id() == old(
                        self,
                    ).client().next_request_id()
                },
            },
    {
        let mut lines: Vec<String> = Vec::new();
        if !self.events_enabled {
            return Ok(lines);
        }
        if self.ipc.next_id() > u64::MAX - 5 {
            return Err(exhausted());
        }
        let ghost first = self.ipc.next_request_id();
        match self.ipc.observe_property(1, "pause") {
            Ok(line) => lines.push(line),
            Err(message) => {
                return Err(message);
            },
        }
        match self.ipc.observe_property(2, "volume") {
            Ok(line) => lines.push(line),
            Err(message) => {
                return Err(message);
            },
        }
        match self.ipc.observe_property(3, "mute") {
            Ok(line) => lines.push(line),
            Err(message) => {
                return Err(message);
            },
        }
        match self.ipc.observe_property(4, "time-pos") {
            Ok(line) => lines.push(line),
            Err(message) => {
                return Err(message);
            },
        }
        match self.ipc.observe_property(5, "duration") {
            Ok(line) => lines.push(line),
            Err(message) => {
                return Err(message);
            },
        }
        assert(texts(lines@) =~= observer_lines(first));
        Ok(lines)
    }

    /// Takes a failure to write an observer's line: the supervisor has
    /// failed, and the reason is the initialization error.
    pub fn observers_failed(&mut self, reason: String) -> (message: String)
        requires
            old(self).wf(),
            old(self).state() == SupervisorState::Connected,
        ensures
            final(self).wf(),
            same_setup(*old(self), *final(self)),
            in_order(old(self).state(), final(self).state()),
            final(self).state() == SupervisorState::Failed,
            message@ == reason@,
    {
        self.state = SupervisorState::Failed;
        reason
    }

    /// Makes a connected supervisor running. The host is then told that
    /// the engine is ready.
    pub fn ready(&mut self)
        requires
            old(self).wf(),
            old(self).state() == SupervisorState::Connected,
        ensures
            final(self).wf(),
            same_setup(*old(self), *final(self)),
            in_order(old(self).state(), final(self).state()),
            final(self).state() == SupervisorState::Running,
            final(self).client() == old(self).client(),
    {
        self.state = SupervisorState::Running;
    }

    /// Issues the command that loads a media file or stream. The result is
    /// made of the reply by `MpvResult::from_reply`.
    pub fn load(&mut self, url: &str) -> (out: Result<Request, String>)
        requires
            old(self).wf(),
            old(self).state() == SupervisorState::Running,
        ensures
            issued(*old(self), *final(self), out, seq!["loadfile"@, url@]),
    {
        let command = vec![String::from_str("loadfile"), String::from_str(url)];
        assert(texts(command@) =~= seq!["loadfile"@, url@]);
        self.ipc.send_command(&command)
    }

    /// Issues the command that starts playback. The result is made of the
    /// reply by `MpvResult::from_reply`.
    pub fn play(&mut self) -> (out: Result<Request, String>)
        requires
            old(self).wf(),
            old(self).state() == SupervisorState::Running,
        ensures
            issued(*old(self), *final(self), out, seq!["set_property"@, "pause"@, "no"@]),
    {
        self.ipc.set_property("pause", "no")
    }

    /// Issues the command that pauses playback. The result is made of the
    /// reply by `MpvResult::from_reply`.
    pub fn pause(&mut self) -> (out: Result<Request, String>)
        requires
            old(self).wf(),
            old(self).state() == SupervisorState::Running,
        ensures
            issued(*old(self), *final(self), out, seq!["set_property"@, "pause"@, "yes"@]),
    {
        self.ipc.set_property("pause", "yes")
    }

    /// Issues the command that pauses playback if it runs and resumes it if
    /// it is paused. The result is made of the reply by
    /// `MpvResult::from_reply`.
    pub fn toggle_pause(&mut self) -> (out: Result<Request, String>)
        requires
            old(self).wf(),
            old(self).state() == SupervisorState::Running,
        ensures
            issued(*old(self), *final(self), out, seq!["cycle"@, "pause"@]),
    {
        let command = vec![String::from_str("cycle"), String::from_str("pause")];
        assert(texts(command@) =~= seq!["cycle"@, "pause"@]);
        self.ipc.send_command(&command)
    }

    /// Issues the command that stops playback. The result is made of the
    /// reply by `MpvResult::from_reply`.
    pub fn stop(&mut self) -> (out: Result<Request, String>)
        requires
            old(self).wf(),
            old(self).state() == SupervisorState::Running,
        ensures
            issued(*old(self), *final(self), out, seq!["stop"@]),
    {
        let command = vec![String::from_str("stop")];
        assert(texts(command@) =~= seq!["stop"@]);
        self.ipc.send_command(&command)
    }

    /// Issues the command that sets the volume to a number given as text.
    /// The result is made of the reply by `MpvResult::from_reply`. The
    /// number is not checked against a range: the engine clamps it.
    pub fn set_volume(&mut self, volume: &str) -> (out: Result<Request, String>)
        requires
            old(self).wf(),
            old(self).state() == SupervisorState::Running,
        ensures
            issued(*old(self), *final(self), out, seq!["set_property"@, "volume"@, volume@]),
    {
        self.ipc.set_property("volume", volume)
    }

    /// Issues the command that mutes the sound if it is on and turns it on
    /// if it is muted. The result is made of the reply by
    /// `MpvResult::from_reply`.
    pub fn toggle_mute(&mut self) -> (out: Result<Request, String>)
        requires
            old(self).wf(),
            old(self).state() == SupervisorState::Running,
        ensures
            issued(*old(self), *final(self), out, seq!["cycle"@, "mute"@]),
    {
        let command = vec![String::from_str("cycle"), String::from_str("mute")];
        assert(texts(command@) =~= seq!["cycle"@, "mute"@]);
        self.ipc.send_command(&command)
    }

    /// Issues the command that seeks to a position in seconds, given as
    /// text. The result is made of the reply by `MpvResult::from_reply`. The
    /// number is not checked against a range: the engine clamps it.
    pub fn seek(&mut self, seconds: &str) -> (out: Result<Request, String>)
        requires
            old(self).wf(),
            old(self).state() == SupervisorState::Running,
        ensures
            issued(*old(self), *final(self), out, seq!["seek"@, seconds@, "absolute"@]),
    {
        let command = vec![
            String::from_str("seek"),
            String::from_str(seconds),
            String::from_str("absolute"),
        ];
        assert(texts(command@) =~= seq!["seek"@, seconds@, "absolute"@]);
        self.ipc.send_command(&command)
    }

    /// Issues the command that reads one property of the status. The
    /// status is made of five such readings, by `get_status`.
    pub fn read_status_property(&mut self, property: &str) -> (out: Result<Request, String>)
        requires
            old(self).wf(),
            old(self).state() == SupervisorState::Running,
        ensures
            issued(*old(self), *final(self), out, seq!["get_property"@, property@]),
    {
        self.ipc.get_property(property)
    }

    /// The status of the engine, from the five readings of a poll: of
    /// `pause`, `volume`, `mute`, `time-pos` and `duration`, each `None`
    /// where reading it failed. Each field goes by its own reading alone.
    pub fn get_status(
        &self,
        pause: Option<bool>,
        volume: Option<u64>,
        mute: Option<bool>,
        position: Option<u64>,
        duration: Option<u64>,
    ) -> (status: MpvStatus)
        ensures
            status == status_of(pause, volume, mute, position, duration),
    {
        MpvStatus::from_readings(pause, volume, mute, position, duration)
    }

    /// Takes one inbound line, without its newline: the client sorts it
    /// and looks it up in its table, and the answer says what the host is
    /// to do.
    pub fn handle_line(&mut self, line: &str) -> (action: HostAction)
        requires
            old(self).wf(),
        ensures
            final(self).wf(),
            same_setup(*old(self), *final(self)),
            in_order(old(self).state(), final(self).state()),
            final(self).state() == old(self).state(),
            final(self).shutdown_requested() == old(self).shutdown_requested(),
            final(self).client().next_request_id() == old(self).client().next_request_id(),
            final(self).client().pending_ids() == dispatch(
                old(self).client().pending_ids(),
                inbound_of(line@),
            ).0,
            action@ == host_action(
                old(self).shutdown_requested(),
                dispatch(old(self).client().pending_ids(), inbound_of(line@)).1,
            ),
    {
        match self.ipc.handle_line(line) {
            ReaderAction::Notify(event) => {
                if !self.shutdown && handle_mpv_event(&event) {
                    HostAction::EmitPropertyChange
                } else {
                    HostAction::Nothing
                }
            },
            ReaderAction::Fulfil(id, reply) => HostAction::Fulfil(id, reply),
            ReaderAction::Nothing => HostAction::Nothing,
        }
    }

    /// Asks a running supervisor to shut down. From then on the shutdown
    /// flag is set, and the plan tells the caller to write the quit line
    /// without awaiting a reply, to kill the process, and to remove the
    /// endpoint file where there is one.
    pub fn shutdown(&mut self) -> (plan: ShutdownPlan)
        requires
            old(self).wf(),
            old(self).state() == SupervisorState::Running,
        ensures
            final(self).wf(),
            same_setup(*old(self), *final(self)),
            in_order(old(self).state(), final(self).state()),
            final(self).state() == SupervisorState::ShuttingDown,
            final(self).shutdown_requested(),
            final(self).client().pending_ids() == old(self).client().pending_ids(),
            final(self).client().next_request_id() == (if old(self).client().next_request_id()
                < u64::MAX {
                old(self).client().next_request_id() + 1
            } else {
                old(self).client().next_request_id() as int
            }),
            torn_down(*old(self), plan),
    {
        self.shutdown = true;
        self.state = SupervisorState::ShuttingDown;
        let quit_line = self.ipc.quit();
        let remove_socket = if self.named_pipe {
            None
        } else {
            Some(self.socket_path.clone())
        };
        ShutdownPlan { quit_line, kill_process: true, remove_socket }
    }

    /// Takes the word that the process is gone and the endpoint file
    /// removed: the supervisor is terminated.
    pub fn terminated(&mut self)
        requires
            old(self).wf(),
            old(self).state() == SupervisorState::ShuttingDown,
        ensures
            final(self).wf(),
            same_setup(*old(self), *final(self)),
            in_order(old(self).state(), final(self).state()),
            final(self).state() == SupervisorState::Terminated,
            final(self).shutdown_requested(),
    {
        self.state = SupervisorState::Terminated;
    }
}

/// The place where the host keeps its supervisor, if it has one.
pub struct ExternalMpvState {
    pub mpv: Option<ExternalMpv>,
}

impl ExternalMpvState {
    /// The place with no supervisor in it.
    pub fn new() -> (out: Self)
        ensures
            out.mpv is None,
    {
        ExternalMpvState { mpv: None }
    }

    /// The state of the supervisor held, and `NotStarted` where none is.
    pub fn state(&self) -> (state: SupervisorState)
        ensures
            state == (match self.mpv {
                Some(mpv) => mpv.state(),
                None => SupervisorState::NotStarted,
            }),
    {
        match &self.mpv {
            Some(mpv) => mpv.current_state(),
            None => SupervisorState::NotStarted,
        }
    }
}

/// The shutdown flag is set once and for all: whatever a sound supervisor
/// does after it was asked to shut down, the flag stays set.
pub proof fn lemma_shutdown_flag_stays_set(before: ExternalMpv, after: ExternalMpv)
    requires
        before.wf(),
        after.wf(),
        in_order(before.state(), after.state()),
        before.shutdown_requested(),
    ensures
        after.shutdown_requested(),
{
}

/// Every step of a supervisor follows the order of its states: a failure
/// comes only out of spawning or connecting, nothing follows `Terminated`
/// or `Failed`, and no state is entered twice.
pub proof fn lemma_states_run_one_way(from: SupervisorState, to: SupervisorState)
    requires
        may_follow(from, to),
    ensures
        to == SupervisorState::Failed ==> from == SupervisorState::Spawning || from
            == SupervisorState::Connected,
        from != SupervisorState::Terminated && from != SupervisorState::Failed,
        to != SupervisorState::NotStarted,
        !may_follow(to, from),
        from != to,
{
}

} // verus!
