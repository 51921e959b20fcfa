//! Capturing one application's audio: a null sink takes the application's
//! stream, a loopback plays that sink back on the default sink, and the
//! recording reads the null sink's monitor. The program around the library
//! runs each action (a `pactl` command, a question to the audio server, a
//! stream move) and reports what came of it.

use vstd::prelude::*;
use crate::text::{decimal, decimal_string, parse_u32, parse_u32_spec};

verus! {

broadcast use vstd::string::group_string_axioms;

/// Where a capture session stands.
#[derive(Clone, Copy, PartialEq, Eq, Structural)]
pub enum CapturePhase {
    Idle,
    /// Stopping: the loopback is being unloaded; the null sink follows.
    StopUnloadingLoopback { then_start: Option<u32> },
    /// Stopping: the null sink is being unloaded.
    StopUnloadingNullSink { then_start: Option<u32> },
    /// Starting: the null sink is being loaded.
    LoadingNullSink { app_index: u32 },
    /// Starting: the default sink is being asked for.
    QueryingDefaultSink { app_index: u32, null_module: u32 },
    /// Starting: the loopback is being loaded.
    LoadingLoopback { app_index: u32, null_module: u32 },
    /// Starting: the application's stream is being moved to the null sink.
    Moving { app_index: u32, null_module: u32, loopback: Option<u32> },
    /// Giving up: the loopback is being unloaded; the null sink follows.
    RollingBackLoopback { null_module: u32 },
    /// Giving up: the null sink is being unloaded.
    RollingBackNullSink,
}

/// The modules loaded for a capture, and where the session stands.
#[derive(Clone, Copy)]
pub struct AppCapture {
    /// The program's process id, which names the null sink.
    pub pid: u32,
    /// Module index of the null sink loaded for the capture.
    pub null_sink_module: Option<u32>,
    /// Module index of the loopback that plays the captured audio back.
    pub loopback_module: Option<u32>,
    /// Stream index of the application being captured.
    pub sink_input_index: Option<u32>,
    pub phase: CapturePhase,
}

/// How moving the stream went.
#[derive(Clone, Copy, PartialEq, Eq, Structural)]
pub enum MoveOutcome {
    /// No connection to the audio server could be made for the move.
    NoController,
    /// The server refused the move.
    Failed,
    Moved,
}

/// What came of an action.
pub enum CaptureEvent {
    /// A `pactl` command ended: its trimmed output where it succeeded.
    PactlDone(Option<String>),
    /// The default sink's name, `None` where the server could not tell.
    DefaultSink(Option<String>),
    Moved(MoveOutcome),
}

/// What to do next.
pub enum CaptureAction {
    /// Run `pactl` with these arguments, then report `PactlDone`.
    RunPactl(Vec<String>),
    /// Ask the server for the default sink, then report `DefaultSink`.
    QueryDefaultSink,
    /// Move stream `stream` to the sink named `sink`, then report `Moved`.
    MoveStream { stream: u32, sink: String },
    /// Stopping is over.
    Stopped,
    /// Starting is over: the source to record from, or `None`.
    Started(Option<String>),
    /// The event did not fit where the session stands; nothing changed.
    Ignored,
}

/// An event, by the values it carries.
pub enum EventView {
    PactlDone(Option<Seq<char>>),
    DefaultSink(Option<Seq<char>>),
    Moved(MoveOutcome),
}

/// An action, by the values it carries.
pub enum ActionView {
    RunPactl(Seq<Seq<char>>),
    QueryDefaultSink,
    MoveStream { stream: u32, sink: Seq<char> },
    Stopped,
    Started(Option<Seq<char>>),
    Ignored,
}

pub open spec fn opt_view(o: Option<String>) -> Option<Seq<char>> {
    match o {
        Some(s) => Some(s@),
        None => None,
    }
}

impl CaptureEvent {
    pub open spec fn view(&self) -> EventView {
        match self {
            CaptureEvent::PactlDone(o) => EventView::PactlDone(opt_view(*o)),
            CaptureEvent::DefaultSink(o) => EventView::DefaultSink(opt_view(*o)),
            CaptureEvent::Moved(m) => EventView::Moved(*m),
        }
    }
}

pub open spec fn strings_view(v: Vec<String>) -> Seq<Seq<char>> {
    v@.map_values(|s: String| s@)
}

impl CaptureAction {
    pub open spec fn view(&self) -> ActionView {
        match self {
            CaptureAction::RunPactl(args) => ActionView::RunPactl(strings_view(*args)),
            CaptureAction::QueryDefaultSink => ActionView::QueryDefaultSink,
            CaptureAction::MoveStream { stream, sink } => ActionView::MoveStream { stream: *stream, sink: sink@ },
            CaptureAction::Stopped => ActionView::Stopped,
            CaptureAction::Started(o) => ActionView::Started(opt_view(*o)),
            CaptureAction::Ignored => ActionView::Ignored,
        }
    }
}

/// The name of the null sink that takes the captured stream.
pub open spec fn null_sink_name(pid: u32) -> Seq<char> {
    "songrec_cap_"@ + decimal(pid as nat)
}

/// The source to record from: the null sink's monitor.
pub open spec fn capture_source(pid: u32) -> Seq<char> {
    null_sink_name(pid) + ".monitor"@
}

pub open spec fn load_null_sink_args(pid: u32) -> Seq<Seq<char>> {
    seq![
        "load-module"@,
        "module-null-sink"@,
        "sink_name="@ + null_sink_name(pid),
        "sink_properties=device.description=\"SongRec\\ Capture\""@,
    ]
}

pub open spec fn load_loopback_args(pid: u32, default_sink: Seq<char>) -> Seq<Seq<char>> {
    seq![
        "load-module"@,
        "module-loopback"@,
        "source="@ + capture_source(pid),
        "sink="@ + default_sink,
        "latency_msec=1"@,
    ]
}

pub open spec fn unload_args(module: u32) -> Seq<Seq<char>> {
    seq!["unload-module"@, decimal(module as nat)]
}

/// The module index that a `pactl load-module` printed.
pub open spec fn module_index(out: Option<Seq<char>>) -> Option<u32> {
    match out {
        Some(text) => parse_u32_spec(text),
        None => None,
    }
}

/// Where stopping starts: with a loopback it goes first, with only a null
/// sink that goes, and with no null sink there is nothing to stop.
pub open spec fn stop_from(s: AppCapture, then_start: Option<u32>) -> (AppCapture, ActionView) {
    match (s.null_sink_module, s.loopback_module) {
        (None, _) => match then_start {
            None => (s, ActionView::Stopped),
            Some(app_index) => (
                AppCapture { phase: CapturePhase::LoadingNullSink { app_index }, ..s },
                ActionView::RunPactl(load_null_sink_args(s.pid)),
            ),
        },
        (Some(n), Some(l)) => (
            AppCapture {
                loopback_module: None,
                phase: CapturePhase::StopUnloadingLoopback { then_start },
                ..s
            },
            ActionView::RunPactl(unload_args(l)),
        ),
        (Some(n), None) => (
            AppCapture {
                null_sink_module: None,
                phase: CapturePhase::StopUnloadingNullSink { then_start },
                ..s
            },
            ActionView::RunPactl(unload_args(n)),
        ),
    }
}

/// Starting a capture of stream `app_index`: any capture in progress is
/// stopped first.
pub open spec fn start_spec(s: AppCapture, app_index: u32) -> (AppCapture, ActionView) {
    if s.phase == CapturePhase::Idle {
        stop_from(s, Some(app_index))
    } else {
        (s, ActionView::Ignored)
    }
}

/// Stopping the capture.
pub open spec fn stop_spec(s: AppCapture) -> (AppCapture, ActionView) {
    if s.phase == CapturePhase::Idle {
        stop_from(s, None)
    } else {
        (s, ActionView::Ignored)
    }
}

/// One step of a session: where it goes and what to do, for what came of the
/// last action.
pub open spec fn step_spec(s: AppCapture, e: EventView) -> (AppCapture, ActionView) {
    match (s.phase, e) {
        (CapturePhase::StopUnloadingLoopback { then_start }, EventView::PactlDone(_)) => match s.null_sink_module {
            Some(n) => (
                AppCapture {
                    null_sink_module: None,
                    phase: CapturePhase::StopUnloadingNullSink { then_start },
                    ..s
                },
                ActionView::RunPactl(unload_args(n)),
            ),
            None => (s, ActionView::Ignored),
        },
        (CapturePhase::StopUnloadingNullSink { then_start }, EventView::PactlDone(_)) => match then_start {
            None => (
                AppCapture { sink_input_index: None, phase: CapturePhase::Idle, ..s },
                ActionView::Stopped,
            ),
            Some(app_index) => (
                AppCapture {
                    sink_input_index: None,
                    phase: CapturePhase::LoadingNullSink { app_index },
                    ..s
                },
                ActionView::RunPactl(load_null_sink_args(s.pid)),
            ),
        },
        (CapturePhase::LoadingNullSink { app_index }, EventView::PactlDone(out)) => match module_index(out) {
            None => (AppCapture { phase: CapturePhase::Idle, ..s }, ActionView::Started(None)),
            Some(null_module) => (
                AppCapture { phase: CapturePhase::QueryingDefaultSink { app_index, null_module }, ..s },
                ActionView::QueryDefaultSink,
            ),
        },
        (CapturePhase::QueryingDefaultSink { app_index, null_module }, EventView::DefaultSink(name)) => {
            let sink = match name {
                Some(n) => n,
                None => Seq::empty(),
            };
            if sink.len() == 0 {
                (
                    AppCapture { phase: CapturePhase::Moving { app_index, null_module, loopback: None }, ..s },
                    ActionView::MoveStream { stream: app_index, sink: null_sink_name(s.pid) },
                )
            } else {
                (
                    AppCapture { phase: CapturePhase::LoadingLoopback { app_index, null_module }, ..s },
                    ActionView::RunPactl(load_loopback_args(s.pid, sink)),
                )
            }
        },
        (CapturePhase::LoadingLoopback { app_index, null_module }, EventView::PactlDone(out)) => (
            AppCapture {
                phase: CapturePhase::Moving { app_index, null_module, loopback: module_index(out) },
                ..s
            },
            ActionView::MoveStream { stream: app_index, sink: null_sink_name(s.pid) },
        ),
        (CapturePhase::Moving { app_index, null_module, loopback }, EventView::Moved(outcome)) => match outcome {
            MoveOutcome::Moved => (
                AppCapture {
                    null_sink_module: Some(null_module),
                    loopback_module: loopback,
                    sink_input_index: Some(app_index),
                    phase: CapturePhase::Idle,
                    ..s
                },
                ActionView::Started(Some(capture_source(s.pid))),
            ),
            MoveOutcome::NoController => (
                AppCapture { phase: CapturePhase::RollingBackNullSink, ..s },
                ActionView::RunPactl(unload_args(null_module)),
            ),
            MoveOutcome::Failed => match loopback {
                Some(l) => (
                    AppCapture { phase: CapturePhase::RollingBackLoopback { null_module }, ..s },
                    ActionView::RunPactl(unload_args(l)),
                ),
                None => (
                    AppCapture { phase: CapturePhase::RollingBackNullSink, ..s },
                    ActionView::RunPactl(unload_args(null_module)),
                ),
            },
        },
        (CapturePhase::RollingBackLoopback { null_module }, EventView::PactlDone(_)) => (
            AppCapture { phase: CapturePhase::RollingBackNullSink, ..s },
            ActionView::RunPactl(unload_args(null_module)),
        ),
        (CapturePhase::RollingBackNullSink, EventView::PactlDone(_)) => (
            AppCapture { phase: CapturePhase::Idle, ..s },
            ActionView::Started(None),
        ),
        _ => (s, ActionView::Ignored),
    }
}

fn concat2(a: &str, b: &str) -> (r: String)
    ensures
        r@ == a@ + b@,
{
    let mut r = String::from_str(a);
    r.append(b);
    r
}

fn null_sink_name_string(pid: u32) -> (r: String)
    ensures
        r@ == null_sink_name(pid),
{
    let digits = decimal_string(pid);
    concat2("songrec_cap_", digits.as_str())
}

fn capture_source_string(pid: u32) -> (r: String)
    ensures
        r@ == capture_source(pid),
{
    let name = null_sink_name_string(pid);
    concat2(name.as_str(), ".monitor")
}

fn load_null_sink_action(pid: u32) -> (r: CaptureAction)
    ensures
        r.view() == ActionView::RunPactl(load_null_sink_args(pid)),
{
    let name = null_sink_name_string(pid);
    let mut args: Vec<String> = Vec::new();
    args.push(String::from_str("load-module"));
    args.push(String::from_str("module-null-sink"));
    args.push(concat2("sink_name=", name.as_str()));
    args.push(String::from_str("sink_properties=device.description=\"SongRec\\ Capture\""));
    assert(strings_view(args) =~= load_null_sink_args(pid));
    CaptureAction::RunPactl(args)
}

fn load_loopback_action(pid: u32, default_sink: &String) -> (r: CaptureAction)
    ensures
        r.view() == ActionView::RunPactl(load_loopback_args(pid, default_sink@)),
{
    let source = capture_source_string(pid);
    let mut args: Vec<String> = Vec::new();
    args.push(String::from_str("load-module"));
    args.push(String::from_str("module-loopback"));
    args.push(concat2("source=", source.as_str()));
    args.push(concat2("sink=", default_sink.as_str()));
    args.push(String::from_str("latency_msec=1"));
    assert(strings_view(args) =~= load_loopback_args(pid, default_sink@));
    CaptureAction::RunPactl(args)
}

fn unload_action(module: u32) -> (r: CaptureAction)
    ensures
        r.view() == ActionView::RunPactl(unload_args(module)),
{
    let mut args: Vec<String> = Vec::new();
    args.push(String::from_str("unload-module"));
    args.push(decimal_string(module));
    assert(strings_view(args) =~= unload_args(module));
    CaptureAction::RunPactl(args)
}

fn move_action(pid: u32, stream: u32) -> (r: CaptureAction)
    ensures
        r.view() == (ActionView::MoveStream { stream, sink: null_sink_name(pid) }),
{
    CaptureAction::MoveStream { stream, sink: null_sink_name_string(pid) }
}

fn module_index_of(out: &Option<String>) -> (r: Option<u32>)
    ensures
        r == module_index(opt_view(*out)),
{
    match out {
        Some(text) => parse_u32(text.as_str()),
        None => None,
    }
}

impl AppCapture {
    /// A session with nothing loaded, for the program with process id `pid`.
    pub fn new(pid: u32) -> (r: AppCapture)
        ensures
            r == (AppCapture {
                pid,
                null_sink_module: None,
                loopback_module: None,
                sink_input_index: None,
                phase: CapturePhase::Idle,
            }),
    {
        AppCapture {
            pid,
            null_sink_module: None,
            loopback_module: None,
            sink_input_index: None,
            phase: CapturePhase::Idle,
        }
    }

    fn stop_then(&mut self, then_start: Option<u32>) -> (a: CaptureAction)
        ensures
            (*final(self), a.view()) == stop_from(*old(self), then_start),
    {
        match (self.null_sink_module, self.loopback_module) {
            (None, _) => match then_start {
                None => CaptureAction::Stopped,
                Some(app_index) => {
                    self.phase = CapturePhase::LoadingNullSink { app_index };
                    load_null_sink_action(self.pid)
                },
            },
            (Some(_), Some(l)) => {
                self.loopback_module = None;
                self.phase = CapturePhase::StopUnloadingLoopback { then_start };
                unload_action(l)
            },
            (Some(n), None) => {
                self.null_sink_module = None;
                self.phase = CapturePhase::StopUnloadingNullSink { then_start };
                unload_action(n)
            },
        }
    }

    /// Starts capturing stream `app_index`, stopping any capture first.
    pub fn start_app_capture(&mut self, app_index: u32) -> (a: CaptureAction)
        ensures
            (*final(self), a.view()) == start_spec(*old(self), app_index),
    {
        if self.phase == CapturePhase::Idle {
            self.stop_then(Some(app_index))
        } else {
            CaptureAction::Ignored
        }
    }

    /// Stops the capture: unloads the loopback, then the null sink.
    pub fn stop_app_capture(&mut self) -> (a: CaptureAction)
        ensures
            (*final(self), a.view()) == stop_spec(*old(self)),
    {
        if self.phase == CapturePhase::Idle {
            self.stop_then(None)
        } else {
            CaptureAction::Ignored
        }
    }

    /// Takes in what came of the last action and gives the next one.
    pub fn step(&mut self, event: CaptureEvent) -> (a: CaptureAction)
        ensures
            (*final(self), a.view()) == step_spec(*old(self), event.view()),
    {
        let pid = self.pid;
        match (self.phase, event) {
            (CapturePhase::StopUnloadingLoopback { then_start }, CaptureEvent::PactlDone(_)) => {
                match self.null_sink_module {
                    Some(n) => {
                        self.null_sink_module = None;
                        self.phase = CapturePhase::StopUnloadingNullSink { then_start };
                        unload_action(n)
                    },
                    None => CaptureAction::Ignored,
                }
            },
            (CapturePhase::StopUnloadingNullSink { then_start }, CaptureEvent::PactlDone(_)) => {
                self.sink_input_index = None;
                match then_start {
                    None => {
                        self.phase = CapturePhase::Idle;
                        CaptureAction::Stopped
                    },
                    Some(app_index) => {
                        self.phase = CapturePhase::LoadingNullSink { app_index };
                        load_null_sink_action(pid)
                    },
                }
            },
            (CapturePhase::LoadingNullSink { app_index }, CaptureEvent::PactlDone(out)) => {
                match module_index_of(&out) {
                    None => {
                        self.phase = CapturePhase::Idle;
                        CaptureAction::Started(None)
                    },
                    Some(null_module) => {
                        self.phase = CapturePhase::QueryingDefaultSink { app_index, null_module };
                        CaptureAction::QueryDefaultSink
                    },
                }
            },
            (CapturePhase::QueryingDefaultSink { app_index, null_module }, CaptureEvent::DefaultSink(name)) => {
                let sink = match name {
                    Some(n) => n,
                    None => String::new(),
                };
                if sink.as_str().is_empty() {
                    self.phase = CapturePhase::Moving { app_index, null_module, loopback: None };
                    move_action(pid, app_index)
                } else {
                    self.phase = CapturePhase::LoadingLoopback { app_index, null_module };
                    load_loopback_action(pid, &sink)
                }
            },
            (CapturePhase::LoadingLoopback { app_index, null_module }, CaptureEvent::PactlDone(out)) => {
                let loopback = module_index_of(&out);
                self.phase = CapturePhase::Moving { app_index, null_module, loopback };
                move_action(pid, app_index)
            },
            (CapturePhase::Moving { app_index, null_module, loopback }, CaptureEvent::Moved(outcome)) => {
                match outcome {
                    MoveOutcome::Moved => {
                        self.null_sink_module = Some(null_module);
                        self.loopback_module = loopback;
                        self.sink_input_index = Some(app_index);
                        self.phase = CapturePhase::Idle;
                        CaptureAction::Started(Some(capture_source_string(pid)))
                    },
                    MoveOutcome::NoController => {
                        self.phase = CapturePhase::RollingBackNullSink;
                        unload_action(null_module)
                    },
                    MoveOutcome::Failed => match loopback {
                        Some(l) => {
                            self.phase = CapturePhase::RollingBackLoopback { null_module };
                            unload_action(l)
                        },
                        None => {
                            self.phase = CapturePhase::RollingBackNullSink;
                            unload_action(null_module)
                        },
                    },
                }
            },
            (CapturePhase::RollingBackLoopback { null_module }, CaptureEvent::PactlDone(_)) => {
                self.phase = CapturePhase::RollingBackNullSink;
                unload_action(null_module)
            },
            (CapturePhase::RollingBackNullSink, CaptureEvent::PactlDone(_)) => {
                self.phase = CapturePhase::Idle;
                CaptureAction::Started(None)
            },
            _ => CaptureAction::Ignored,
        }
    }
}


/// Nothing is loaded or captured.
pub open spec fn is_clean(s: AppCapture) -> bool {
    s.null_sink_module is None && s.loopback_module is None && s.sink_input_index is None
}

/// The session's bookkeeping agrees with where it stands: a loopback only
/// with a null sink; when idle, a null sink exactly while a stream is
/// captured; while stopping, only what is still to be unloaded; while
/// starting or giving up, nothing recorded.
pub open spec fn well_formed(s: AppCapture) -> bool {
    &&& s.loopback_module is Some ==> s.null_sink_module is Some
    &&& match s.phase {
        CapturePhase::Idle => (s.null_sink_module is Some <==> s.sink_input_index is Some),
        CapturePhase::StopUnloadingLoopback { .. } => s.null_sink_module is Some && s.loopback_module is None,
        CapturePhase::StopUnloadingNullSink { .. } => s.null_sink_module is None && s.loopback_module is None,
        _ => is_clean(s),
    }
}

/// A new session is well formed.
pub proof fn new_session_well_formed(pid: u32)
    ensures
        well_formed(AppCapture {
            pid,
            null_sink_module: None,
            loopback_module: None,
            sink_input_index: None,
            phase: CapturePhase::Idle,
        }),
{
}

/// Every operation keeps a session well formed.
pub proof fn operations_keep_well_formed(s: AppCapture, app_index: u32, e: EventView)
    requires
        well_formed(s),
    ensures
        well_formed(start_spec(s, app_index).0),
        well_formed(stop_spec(s).0),
        well_formed(step_spec(s, e).0),
{
}

/// Stopping unloads the loopback before the null sink, whatever the unload
/// commands print, and ends with nothing loaded or captured.
pub proof fn stop_unloads_everything(s: AppCapture, out1: Option<Seq<char>>, out2: Option<Seq<char>>)
    requires
        well_formed(s),
        s.phase == CapturePhase::Idle,
    ensures
        ({
            let (s1, a1) = stop_spec(s);
            let (s2, a2) = step_spec(s1, EventView::PactlDone(out1));
            let (s3, a3) = step_spec(s2, EventView::PactlDone(out2));
            match (s.null_sink_module, s.loopback_module) {
                (None, _) => a1 == ActionView::Stopped && s1 == s && is_clean(s1),
                (Some(n), None) => a1 == ActionView::RunPactl(unload_args(n)) && a2 == ActionView::Stopped
                    && is_clean(s2) && s2.phase == CapturePhase::Idle,
                (Some(n), Some(l)) => a1 == ActionView::RunPactl(unload_args(l)) && a2
                    == ActionView::RunPactl(unload_args(n)) && a3 == ActionView::Stopped && is_clean(s3)
                    && s3.phase == CapturePhase::Idle,
            }
        }),
{
}

/// Starting a capture while another one runs unloads its loopback, then its
/// null sink, and only then loads the new null sink; with only a null sink,
/// that goes first; with nothing running, the new null sink is loaded at
/// once. The output of the unload commands changes nothing.
pub proof fn start_replaces_running_capture(
    s: AppCapture,
    app_index: u32,
    out1: Option<Seq<char>>,
    out2: Option<Seq<char>>,
)
    requires
        well_formed(s),
        s.phase == CapturePhase::Idle,
    ensures
        ({
            let (s1, a1) = start_spec(s, app_index);
            let (s2, a2) = step_spec(s1, EventView::PactlDone(out1));
            let (s3, a3) = step_spec(s2, EventView::PactlDone(out2));
            match (s.null_sink_module, s.loopback_module) {
                (Some(n), Some(l)) => a1 == ActionView::RunPactl(unload_args(l))
                    && a2 == ActionView::RunPactl(unload_args(n))
                    && a3 == ActionView::RunPactl(load_null_sink_args(s.pid))
                    && is_clean(s3) && s3.phase == (CapturePhase::LoadingNullSink { app_index }),
                (Some(n), None) => a1 == ActionView::RunPactl(unload_args(n))
                    && a2 == ActionView::RunPactl(load_null_sink_args(s.pid))
                    && is_clean(s2) && s2.phase == (CapturePhase::LoadingNullSink { app_index }),
                (None, _) => a1 == ActionView::RunPactl(load_null_sink_args(s.pid))
                    && is_clean(s1) && s1.phase == (CapturePhase::LoadingNullSink { app_index }),
            }
        }),
{
}

/// A whole successful start, from a session with nothing running: the null
/// sink is loaded, the default sink asked for, a loopback to it loaded, the
/// stream moved to the null sink, and the modules printed by `pactl` are
/// recorded with the stream; the source to record from is the null sink's
/// monitor.
pub proof fn successful_start_records_modules(
    s: AppCapture,
    app_index: u32,
    n: u32,
    sink: Seq<char>,
    l: u32,
)
    requires
        is_clean(s),
        s.phase == CapturePhase::Idle,
        sink.len() > 0,
    ensures
        ({
            let (s1, a1) = start_spec(s, app_index);
            let (s2, a2) = step_spec(s1, EventView::PactlDone(Some(decimal(n as nat))));
            let (s3, a3) = step_spec(s2, EventView::DefaultSink(Some(sink)));
            let (s4, a4) = step_spec(s3, EventView::PactlDone(Some(decimal(l as nat))));
            let (s5, a5) = step_spec(s4, EventView::Moved(MoveOutcome::Moved));
            &&& a1 == ActionView::RunPactl(load_null_sink_args(s.pid))
            &&& a2 == ActionView::QueryDefaultSink
            &&& a3 == ActionView::RunPactl(load_loopback_args(s.pid, sink))
            &&& a4 == (ActionView::MoveStream { stream: app_index, sink: null_sink_name(s.pid) })
            &&& a5 == ActionView::Started(Some(capture_source(s.pid)))
            &&& s5.null_sink_module == Some(n)
            &&& s5.loopback_module == Some(l)
            &&& s5.sink_input_index == Some(app_index)
            &&& s5.phase == CapturePhase::Idle
        }),
{
    crate::text::parse_reads_back_decimal(n);
    crate::text::parse_reads_back_decimal(l);
}

/// A start that ends without a source leaves nothing recorded; one that
/// ends with a source records the null sink and the captured stream, and
/// the source is the null sink's monitor.
pub proof fn start_outcome_matches_bookkeeping(s: AppCapture, e: EventView)
    requires
        well_formed(s),
    ensures
        ({
            let (s2, a) = step_spec(s, e);
            &&& a == ActionView::Started(None) ==> is_clean(s2) && s2.phase == CapturePhase::Idle
            &&& a matches ActionView::Started(Some(src)) ==> src == capture_source(s.pid)
                && s2.null_sink_module is Some && s2.phase == CapturePhase::Idle && (s.phase matches CapturePhase::Moving { app_index, .. } && s2.sink_input_index == Some(app_index))
        }),
{
}

/// When the stream cannot be moved, the loopback (where one was loaded) is
/// unloaded, then the null sink, and the start ends without a source; when
/// no connection for the move could be made, only the null sink is unloaded.
pub proof fn failed_move_rolls_back(
    s: AppCapture,
    outcome: MoveOutcome,
    out1: Option<Seq<char>>,
    out2: Option<Seq<char>>,
)
    requires
        s.phase matches CapturePhase::Moving { .. },
        outcome != MoveOutcome::Moved,
    ensures
        ({
            let (s1, a1) = step_spec(s, EventView::Moved(outcome));
            let (s2, a2) = step_spec(s1, EventView::PactlDone(out1));
            let (s3, a3) = step_spec(s2, EventView::PactlDone(out2));
            match s.phase {
                CapturePhase::Moving { null_module, loopback, .. } => match (outcome, loopback) {
                    (MoveOutcome::Failed, Some(l)) => a1 == ActionView::RunPactl(unload_args(l))
                        && a2 == ActionView::RunPactl(unload_args(null_module))
                        && a3 == ActionView::Started(None) && s3.phase == CapturePhase::Idle,
                    _ => a1 == ActionView::RunPactl(unload_args(null_module))
                        && a2 == ActionView::Started(None) && s2.phase == CapturePhase::Idle,
                },
                _ => false,
            }
        }),
{
}

} // verus!
