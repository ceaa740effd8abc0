//! The broker as a server and as a system service: the order in which it
//! listens, works and reports, and when it ends.
use vstd::prelude::*;
use crate::broker::{handle_request, handled, Step, StepView};
use crate::error::{lemma_tells, tells, with_heading};
use crate::limiter::{ConcurrencyLimiter, LimiterView, MAX_CONCURRENT_REQUESTS};
use crate::log::{
    answer_line, answer_noted, failure_line, failure_noted, note_request, request_noted,
};
use crate::pipe::{PipeError, PipeErrorView};
use crate::protocol::{
    opt_text, viewed, AdminRequest, AdminResponse, RequestView, ResponseView,
};

verus! {

// ---------------------------------------------------------------------------
// Being told to stop
// ---------------------------------------------------------------------------

/// What the system's service manager asks of the service.
#[derive(Debug, Clone, Copy)]
pub enum Control {
    Stop,
    Interrogate,
    Other,
}

/// What the service does about it.
#[derive(Debug, Clone, Copy)]
pub struct ControlReply {
    /// The server is told to stop.
    pub stop: bool,
    /// The service knows what to do; else it says that it does not.
    pub handled: bool,
}

/// The reply to the service manager: a stop is passed on, an interrogation is
/// acknowledged, and nothing else is known.
pub open spec fn replied(asked: Control) -> ControlReply {
    ControlReply { stop: asked is Stop, handled: asked is Stop || asked is Interrogate }
}

/// Answers the service manager.
pub fn control(asked: Control) -> (r: ControlReply)
    ensures
        r == replied(asked),
{
    match asked {
        Control::Stop => ControlReply { stop: true, handled: true },
        Control::Interrogate => ControlReply { stop: false, handled: true },
        Control::Other => ControlReply { stop: false, handled: false },
    }
}

/// Whether the server is to stop. It is not at first; once it is, nothing takes
/// that back.
pub struct StopFlag {
    set: bool,
}

impl View for StopFlag {
    type V = bool;

    closed spec fn view(&self) -> bool {
        self.set
    }
}

/// The flag after a control: only a stop sets it.
pub open spec fn flag_next(flag: bool, asked: Control) -> bool {
    flag || replied(asked).stop
}

impl StopFlag {
    /// A flag that is not set.
    pub fn new() -> (r: Self)
        ensures
            r@ == false,
    {
        StopFlag { set: false }
    }

    /// Answers the service manager, and is set where it asks to stop.
    pub fn obey(&mut self, asked: Control) -> (r: ControlReply)
        ensures
            r == replied(asked),
            final(self)@ == flag_next(old(self)@, asked),
    {
        let reply = control(asked);
        self.set = self.set || reply.stop;
        reply
    }

    /// Whether the flag is set.
    pub fn is_set(&self) -> (r: bool)
        ensures
            r == self@,
    {
        self.set
    }
}

// ---------------------------------------------------------------------------
// Listening
// ---------------------------------------------------------------------------

/// What the server is to do next.
#[derive(Debug)]
pub enum ServeStep {
    /// Create a new instance of the pipe.
    CreatePipe,
    /// Wait for a client on it.
    Connect,
    /// Wait for a permit to work, and go on with [`ask_permit`].
    Acquire,
    /// Start a worker that handles the client and then gives the permit back.
    Spawn,
    /// Stop serving, with this result.
    Done(Result<(), PipeError>),
}

/// A [`ServeStep`], with texts as sequences of characters.
pub enum ServeStepView {
    CreatePipe,
    Connect,
    Acquire,
    Spawn,
    Done(Result<(), PipeErrorView>),
}

impl View for ServeStep {
    type V = ServeStepView;

    open spec fn view(&self) -> ServeStepView {
        match *self {
            ServeStep::CreatePipe => ServeStepView::CreatePipe,
            ServeStep::Connect => ServeStepView::Connect,
            ServeStep::Acquire => ServeStepView::Acquire,
            ServeStep::Spawn => ServeStepView::Spawn,
            ServeStep::Done(result) => ServeStepView::Done(viewed(result)),
        }
    }
}

/// The step at the start of a round: the server listens unless it was told to
/// stop.
pub open spec fn round(stop: bool) -> ServeStepView {
    if stop {
        ServeStepView::Done(Ok(()))
    } else {
        ServeStepView::CreatePipe
    }
}

/// The step after `step` was done with an outcome. Failing to create the pipe,
/// or to wait on it, ends the server; the stop flag counts only between two
/// rounds; and only a permit leads on from waiting for one.
pub open spec fn serve_next_of(
    step: ServeStepView,
    outcome: Result<(), PipeErrorView>,
    stop: bool,
) -> ServeStepView {
    match step {
        ServeStepView::CreatePipe => match outcome {
            Ok(_) => ServeStepView::Connect,
            Err(e) => ServeStepView::Done(Err(e)),
        },
        ServeStepView::Connect => match outcome {
            Ok(_) => ServeStepView::Acquire,
            Err(e) => ServeStepView::Done(Err(e)),
        },
        ServeStepView::Acquire => ServeStepView::Acquire,
        ServeStepView::Spawn => round(stop),
        ServeStepView::Done(result) => ServeStepView::Done(result),
    }
}

/// The step of a server that asks for a permit: it starts a worker where one is
/// left, and else waits.
pub open spec fn admitted(permits: LimiterView) -> ServeStepView {
    if permits.active < permits.max {
        ServeStepView::Spawn
    } else {
        ServeStepView::Acquire
    }
}

/// Starts serving.
pub fn serve(stop: &StopFlag) -> (r: ServeStep)
    ensures
        r@ == round(stop@),
{
    if stop.is_set() {
        ServeStep::Done(Ok(()))
    } else {
        ServeStep::CreatePipe
    }
}

/// Goes on after `step` was done: `outcome` says how, and `stop` whether the
/// server was told to stop. Starting a worker does not fail; from waiting for a
/// permit only [`ask_permit`] leads on.
pub fn serve_next(step: ServeStep, outcome: Result<(), PipeError>, stop: &StopFlag) -> (r:
    ServeStep)
    ensures
        r@ == serve_next_of(step@, viewed(outcome), stop@),
{
    match step {
        ServeStep::CreatePipe => match outcome {
            Ok(_) => ServeStep::Connect,
            Err(e) => ServeStep::Done(Err(e)),
        },
        ServeStep::Connect => match outcome {
            Ok(_) => ServeStep::Acquire,
            Err(e) => ServeStep::Done(Err(e)),
        },
        ServeStep::Acquire => ServeStep::Acquire,
        ServeStep::Spawn => serve(stop),
        ServeStep::Done(result) => ServeStep::Done(result),
    }
}

/// Asks for a permit for the worker that is to be started. Without one the
/// server asks again after the next release.
pub fn ask_permit(permits: &mut ConcurrencyLimiter) -> (r: ServeStep)
    ensures
        final(permits)@ == old(permits)@.acquired(),
        r@ == admitted(old(permits)@),
{
    if permits.acquire() {
        ServeStep::Spawn
    } else {
        ServeStep::Acquire
    }
}

// ---------------------------------------------------------------------------
// One client
// ---------------------------------------------------------------------------

/// What a worker is to do next with its client. What a step writes to the log
/// is written first.
pub enum WorkerStep {
    /// Write the line to the log, carry out the request, and go on with
    /// [`answered`].
    Work { line: String, request: Step },
    /// Write the line to the log, send the answer, and go on with
    /// [`response_sent`].
    Reply { line: String, answer: AdminResponse },
    /// Write the line to the log, where there is one, and close the pipe.
    Close { line: Option<String> },
}

/// A [`WorkerStep`], with texts as sequences of characters.
pub enum WorkerStepView {
    Work { line: Seq<char>, request: StepView },
    Reply { line: Seq<char>, answer: ResponseView },
    Close { line: Option<Seq<char>> },
}

impl View for WorkerStep {
    type V = WorkerStepView;

    open spec fn view(&self) -> WorkerStepView {
        match *self {
            WorkerStep::Work { line, request } => WorkerStepView::Work {
                line: line@,
                request: request@,
            },
            WorkerStep::Reply { line, answer } => WorkerStepView::Reply {
                line: line@,
                answer: answer@,
            },
            WorkerStep::Close { line } => WorkerStepView::Close { line: opt_text(line) },
        }
    }
}

/// The step that gives a client up.
pub open spec fn gave_up(failure: Seq<char>) -> WorkerStepView {
    WorkerStepView::Close { line: Some(failure_noted(failure)) }
}

/// The worker's step once it read a message, which is a request or not.
pub open spec fn client_read(message: Result<RequestView, Seq<char>>) -> WorkerStepView {
    match message {
        Ok(req) => WorkerStepView::Work { line: request_noted(req), request: handled(req) },
        Err(cause) => gave_up("invalid request json: "@ + cause),
    }
}

/// The worker's step once it has the answer to a request.
pub open spec fn client_answered(answer: ResponseView, elapsed: Seq<char>) -> WorkerStepView {
    WorkerStepView::Reply { line: answer_noted(answer, elapsed), answer }
}

/// What came of sending an answer.
#[derive(Debug)]
pub enum Sending {
    /// The answer was sent.
    Sent,
    /// The answer could not be encoded.
    EncodeFailed { cause: String },
    /// The answer could not be written.
    WriteFailed { cause: String },
}

/// A [`Sending`], with texts as sequences of characters.
pub enum SendingView {
    Sent,
    EncodeFailed { cause: Seq<char> },
    WriteFailed { cause: Seq<char> },
}

impl View for Sending {
    type V = SendingView;

    open spec fn view(&self) -> SendingView {
        match *self {
            Sending::Sent => SendingView::Sent,
            Sending::EncodeFailed { cause } => SendingView::EncodeFailed { cause: cause@ },
            Sending::WriteFailed { cause } => SendingView::WriteFailed { cause: cause@ },
        }
    }
}

/// The worker's step once it sent the answer, or could not.
pub open spec fn client_sent(sending: SendingView) -> WorkerStepView {
    match sending {
        SendingView::Sent => WorkerStepView::Close { line: None },
        SendingView::EncodeFailed { cause } => gave_up(cause),
        SendingView::WriteFailed { cause } => gave_up("WriteFile failed: "@ + cause),
    }
}

fn give_up(failure: &str) -> (r: WorkerStep)
    ensures
        r@ == gave_up(failure@),
{
    WorkerStep::Close { line: Some(failure_line(failure)) }
}

/// Goes on once a client's message was read. Every request is logged, also one
/// that is then refused; what is no request is not answered.
pub fn handle_one(message: Result<AdminRequest, String>) -> (r: WorkerStep)
    ensures
        r@ == client_read(viewed(message)),
{
    match message {
        Ok(req) => {
            let line = note_request(&req);
            WorkerStep::Work { line, request: handle_request(req) }
        },
        Err(cause) => give_up(with_heading("invalid request json: ", cause.as_str()).as_str()),
    }
}

/// Goes on once a request has its answer. `elapsed` says how long that took.
pub fn answered(answer: AdminResponse, elapsed: &str) -> (r: WorkerStep)
    ensures
        r@ == client_answered(answer@, elapsed@),
{
    WorkerStep::Reply { line: answer_line(&answer, elapsed), answer }
}

/// Goes on once the answer was sent, or could not be.
pub fn response_sent(sending: Sending) -> (r: WorkerStep)
    ensures
        r@ == client_sent(sending@),
{
    match sending {
        Sending::Sent => WorkerStep::Close { line: None },
        Sending::EncodeFailed { cause } => give_up(cause.as_str()),
        Sending::WriteFailed { cause } => give_up(
            with_heading("WriteFile failed: ", cause.as_str()).as_str(),
        ),
    }
}

// ---------------------------------------------------------------------------
// The system service
// ---------------------------------------------------------------------------

/// What the service is to do next. It starts with `Register`.
#[derive(Debug)]
pub enum ServiceStep {
    /// Register with the service manager.
    Register,
    /// Report that the service runs and may be stopped.
    ReportRunning,
    /// Serve until the server ends.
    Serve,
    /// Report that the service is stopped. The server ended with this result.
    ReportStopped(Result<(), String>),
    /// End, with this result.
    Done(Result<(), String>),
}

/// A [`ServiceStep`], with texts as sequences of characters.
pub enum ServiceStepView {
    Register,
    ReportRunning,
    Serve,
    ReportStopped(Result<(), Seq<char>>),
    Done(Result<(), Seq<char>>),
}

impl View for ServiceStep {
    type V = ServiceStepView;

    open spec fn view(&self) -> ServiceStepView {
        match *self {
            ServiceStep::Register => ServiceStepView::Register,
            ServiceStep::ReportRunning => ServiceStepView::ReportRunning,
            ServiceStep::Serve => ServiceStepView::Serve,
            ServiceStep::ReportStopped(result) => ServiceStepView::ReportStopped(viewed(result)),
            ServiceStep::Done(result) => ServiceStepView::Done(viewed(result)),
        }
    }
}

/// The step after `step` was done with an outcome. What fails outside the
/// server ends the service with that failure; how the server ends is reported
/// first, and is the result if the report goes through.
pub open spec fn service_next_of(
    step: ServiceStepView,
    outcome: Result<(), Seq<char>>,
) -> ServiceStepView {
    match step {
        ServiceStepView::Register => match outcome {
            Ok(_) => ServiceStepView::ReportRunning,
            Err(e) => ServiceStepView::Done(Err(e)),
        },
        ServiceStepView::ReportRunning => match outcome {
            Ok(_) => ServiceStepView::Serve,
            Err(e) => ServiceStepView::Done(Err(e)),
        },
        ServiceStepView::Serve => ServiceStepView::ReportStopped(outcome),
        ServiceStepView::ReportStopped(result) => match outcome {
            Ok(_) => ServiceStepView::Done(result),
            Err(e) => ServiceStepView::Done(Err(e)),
        },
        ServiceStepView::Done(result) => ServiceStepView::Done(result),
    }
}

/// Goes on after `step` was done; `outcome` says how.
pub fn run_service(step: ServiceStep, outcome: Result<(), String>) -> (r: ServiceStep)
    ensures
        r@ == service_next_of(step@, viewed(outcome)),
{
    match step {
        ServiceStep::Register => match outcome {
            Ok(_) => ServiceStep::ReportRunning,
            Err(e) => ServiceStep::Done(Err(e)),
        },
        ServiceStep::ReportRunning => match outcome {
            Ok(_) => ServiceStep::Serve,
            Err(e) => ServiceStep::Done(Err(e)),
        },
        ServiceStep::Serve => ServiceStep::ReportStopped(outcome),
        ServiceStep::ReportStopped(result) => match outcome {
            Ok(_) => ServiceStep::Done(result),
            Err(e) => ServiceStep::Done(Err(e)),
        },
        ServiceStep::Done(result) => ServiceStep::Done(result),
    }
}

/// What the service reports of itself.
#[derive(Debug, Clone, Copy)]
pub struct ServiceReport {
    /// It runs; else it is stopped.
    pub running: bool,
    /// It may be asked to stop.
    pub accepts_stop: bool,
}

/// What is reported at a step, if anything: that the service runs and may be
/// stopped, or that it is stopped and takes no further control.
pub open spec fn reported(step: ServiceStepView) -> Option<ServiceReport> {
    match step {
        ServiceStepView::ReportRunning => Some(
            ServiceReport { running: true, accepts_stop: true },
        ),
        ServiceStepView::ReportStopped(_) => Some(
            ServiceReport { running: false, accepts_stop: false },
        ),
        _ => None,
    }
}

/// The exit code in the report of a step, if it reports: no error, however the
/// server ended.
pub open spec fn reported_exit_code(step: ServiceStepView) -> Option<u32> {
    if step is ReportRunning || step is ReportStopped {
        Some(0)
    } else {
        None
    }
}

/// Tells what is reported at a step, if anything.
pub fn report(step: &ServiceStep) -> (r: Option<ServiceReport>)
    ensures
        r == reported(step@),
{
    match step {
        ServiceStep::ReportRunning => Some(ServiceReport { running: true, accepts_stop: true }),
        ServiceStep::ReportStopped(_) => Some(
            ServiceReport { running: false, accepts_stop: false },
        ),
        _ => None,
    }
}

/// Tells the exit code in the report of a step, if it reports.
pub fn report_exit_code(step: &ServiceStep) -> (r: Option<u32>)
    ensures
        r == reported_exit_code(step@),
{
    match step {
        ServiceStep::ReportRunning | ServiceStep::ReportStopped(_) => Some(0),
        _ => None,
    }
}

// ---------------------------------------------------------------------------
// Laws
// ---------------------------------------------------------------------------

/// Where the stop flag is after a sequence of controls.
pub open spec fn flag_after(controls: Seq<Control>) -> bool
    decreases controls.len(),
{
    if controls.len() == 0 {
        false
    } else {
        flag_next(flag_after(controls.drop_last()), controls.last())
    }
}

/// The stop flag starts unset, and is set exactly from the first stop on: no
/// other control changes it, and nothing takes it back.
pub proof fn law_stop_flag(controls: Seq<Control>)
    ensures
        flag_after(controls) <==> exists|i: int|
            0 <= i < controls.len() && (#[trigger] controls[i]) is Stop,
    decreases controls.len(),
{
    if controls.len() > 0 {
        let before = controls.drop_last();
        law_stop_flag(before);
        assert forall|i: int| 0 <= i < before.len() implies before[i] == controls[i] by {}
        if flag_after(before) {
            let i = choose|i: int| 0 <= i < before.len() && (#[trigger] before[i]) is Stop;
            assert(controls[i] is Stop);
        }
        if controls.last() is Stop {
            assert(controls[controls.len() - 1] is Stop);
        }
        if exists|i: int| 0 <= i < controls.len() && (#[trigger] controls[i]) is Stop {
            let i = choose|i: int| 0 <= i < controls.len() && (#[trigger] controls[i]) is Stop;
            if i < before.len() {
                assert(before[i] is Stop);
            }
        }
    }
}

/// A stop flag that is set stays set, whatever is asked.
pub proof fn law_stop_flag_stays_set(controls: Seq<Control>, more: Seq<Control>)
    requires
        flag_after(controls),
    ensures
        flag_after(controls + more),
    decreases more.len(),
{
    if more.len() == 0 {
        assert(controls + more =~= controls);
    } else {
        law_stop_flag_stays_set(controls, more.drop_last());
        assert((controls + more).drop_last() =~= controls + more.drop_last());
    }
}

/// A server and its workers: where it stands, its permits, how many of its
/// workers work, how many clients it handed to one, and whether it is told to
/// stop.
pub struct ServerView {
    pub step: ServeStepView,
    pub permits: LimiterView,
    pub working: nat,
    pub served: nat,
    pub stop: bool,
}

/// What happens to a server.
pub enum ServerEvent {
    /// The server does its step, with this outcome.
    Advances(Result<(), PipeErrorView>),
    /// The service manager asks for something.
    Controlled(Control),
    /// One of the workers comes to its end.
    WorkerEnds,
}

/// A server at its start, where the stop flag may already be set.
pub open spec fn fresh_server(stop: bool) -> ServerView {
    ServerView {
        step: round(stop),
        permits: LimiterView { max: MAX_CONCURRENT_REQUESTS as nat, active: 0 },
        working: 0,
        served: 0,
        stop,
    }
}

/// The server after an event: it stays waiting for a permit while none is left,
/// a worker starts with a permit, and gives it back when it ends; the stop flag
/// that the server sees is the one that controls set.
pub open spec fn server_next(server: ServerView, event: ServerEvent) -> ServerView {
    match event {
        ServerEvent::Advances(outcome) => {
            if server.step is Acquire {
                ServerView {
                    step: admitted(server.permits),
                    permits: server.permits.acquired(),
                    ..server
                }
            } else {
                let started: nat = if server.step is Spawn {
                    1
                } else {
                    0
                };
                ServerView {
                    step: serve_next_of(server.step, outcome, server.stop),
                    working: server.working + started,
                    served: server.served + started,
                    ..server
                }
            }
        },
        ServerEvent::Controlled(asked) => ServerView {
            stop: flag_next(server.stop, asked),
            ..server
        },
        ServerEvent::WorkerEnds => {
            if server.working > 0 {
                ServerView {
                    permits: server.permits.released(),
                    working: (server.working - 1) as nat,
                    ..server
                }
            } else {
                server
            }
        },
    }
}

/// The server after a sequence of events.
pub open spec fn server_after(stop: bool, events: Seq<ServerEvent>) -> ServerView
    decreases events.len(),
{
    if events.len() == 0 {
        fresh_server(stop)
    } else {
        server_next(server_after(stop, events.drop_last()), events.last())
    }
}

/// Each worker has a permit; the server itself holds one more while it is about
/// to start a worker; and no more are out than there are.
pub open spec fn server_valid(server: ServerView) -> bool {
    &&& server.permits.max == MAX_CONCURRENT_REQUESTS
    &&& server.permits.valid()
    &&& server.permits.active == server.working + (if server.step is Spawn {
        1int
    } else {
        0int
    })
}

/// Whatever happens, each worker has a permit of its own, and never more than
/// eight workers work at a time.
pub proof fn law_at_most_eight_workers(stop: bool, events: Seq<ServerEvent>)
    ensures
        server_valid(server_after(stop, events)),
        server_after(stop, events).working <= 8,
    decreases events.len(),
{
    if events.len() > 0 {
        law_at_most_eight_workers(stop, events.drop_last());
    }
}

/// A server that waits for a permit is held up only by workers: it goes on to
/// start one exactly where fewer than eight work, and else stays where it is.
pub proof fn law_server_waits_only_for_workers(
    stop: bool,
    events: Seq<ServerEvent>,
    outcome: Result<(), PipeErrorView>,
)
    requires
        server_after(stop, events).step is Acquire,
    ensures
        ({
            let server = server_after(stop, events);
            let next = server_next(server, ServerEvent::Advances(outcome));
            &&& next.step is Spawn <==> server.working < 8
            &&& !(next.step is Spawn) ==> next == server
        }),
{
    law_at_most_eight_workers(stop, events);
}

/// An event by which the service manager asks to stop.
pub open spec fn stops(event: ServerEvent) -> bool {
    event matches ServerEvent::Controlled(asked) && asked is Stop
}

/// The server sees the stop flag set exactly if it was set when the server
/// started or a stop was asked for since.
pub proof fn law_server_sees_every_stop(stop: bool, events: Seq<ServerEvent>)
    ensures
        server_after(stop, events).stop <==> stop || exists|i: int|
            0 <= i < events.len() && stops(#[trigger] events[i]),
    decreases events.len(),
{
    if events.len() > 0 {
        let before = events.drop_last();
        law_server_sees_every_stop(stop, before);
        assert forall|i: int| 0 <= i < before.len() implies before[i] == events[i] by {}
        if exists|i: int| 0 <= i < before.len() && stops(#[trigger] before[i]) {
            let i = choose|i: int| 0 <= i < before.len() && stops(#[trigger] before[i]);
            assert(stops(events[i]));
        }
        if stops(events.last()) {
            assert(stops(events[events.len() - 1]));
        }
        if exists|i: int| 0 <= i < events.len() && stops(#[trigger] events[i]) {
            let i = choose|i: int| 0 <= i < events.len() && stops(#[trigger] events[i]);
            if i < before.len() {
                assert(stops(before[i]));
            }
        }
    }
}

/// Whatever happens to a server that stopped, it stays where it is: it creates
/// no further pipe and starts no further worker.
pub proof fn law_stopped_server_stays_stopped(
    stop: bool,
    events: Seq<ServerEvent>,
    more: Seq<ServerEvent>,
)
    requires
        server_after(stop, events).step is Done,
    ensures
        ({
            let server = server_after(stop, events);
            let later = server_after(stop, events + more);
            &&& later.step == server.step
            &&& later.served == server.served
            &&& later.working <= server.working
        }),
    decreases more.len(),
{
    if more.len() == 0 {
        assert(events + more =~= events);
    } else {
        law_stopped_server_stays_stopped(stop, events, more.drop_last());
        assert((events + more).drop_last() =~= events + more.drop_last());
    }
}

/// Once a server is told to stop, it hands at most one more client to a worker,
/// whatever happens; and with that client it stops.
pub proof fn law_stop_lets_one_more_client_in(
    stop: bool,
    events: Seq<ServerEvent>,
    more: Seq<ServerEvent>,
)
    requires
        server_after(stop, events).stop,
    ensures
        ({
            let server = server_after(stop, events);
            let later = server_after(stop, events + more);
            &&& later.stop
            &&& server.served <= later.served <= server.served + 1
            &&& later.served > server.served ==> later.step == ServeStepView::Done(Ok(()))
        }),
    decreases more.len(),
{
    if more.len() == 0 {
        assert(events + more =~= events);
    } else {
        law_stop_lets_one_more_client_in(stop, events, more.drop_last());
        assert((events + more).drop_last() =~= events + more.drop_last());
    }
}

/// A server that is told to stop, and has a permit left, is done after four
/// steps at the latest, however they turn out.
pub proof fn law_server_told_to_stop_ends(
    stop: bool,
    events: Seq<ServerEvent>,
    first: Result<(), PipeErrorView>,
    second: Result<(), PipeErrorView>,
    third: Result<(), PipeErrorView>,
    fourth: Result<(), PipeErrorView>,
)
    requires
        server_after(stop, events).stop,
        server_after(stop, events).working < 8,
    ensures
        ({
            let a = server_next(server_after(stop, events), ServerEvent::Advances(first));
            let b = server_next(a, ServerEvent::Advances(second));
            let c = server_next(b, ServerEvent::Advances(third));
            server_next(c, ServerEvent::Advances(fourth)).step is Done
        }),
{
    law_at_most_eight_workers(stop, events);
}

/// Once the server ran, the service reports that it is stopped whatever the
/// server's result, and ends with that result if the report goes through.
pub proof fn law_service_reports_its_end(result: Result<(), Seq<char>>)
    ensures
        ({
            let reporting = service_next_of(ServiceStepView::Serve, result);
            &&& reporting is ReportStopped
            &&& service_next_of(reporting, Ok(())) == ServiceStepView::Done(result)
        }),
{
}

/// A service that can register and report goes through these steps, whatever
/// the server's result: it reports that it runs before it serves, and that it
/// is stopped after, both without an error, and nothing else; it ends with the
/// server's result.
pub proof fn law_service_reports_twice(served: Result<(), Seq<char>>)
    ensures
        ({
            let start = ServiceStepView::Register;
            let first = service_next_of(start, Ok(()));
            let second = service_next_of(first, Ok(()));
            let third = service_next_of(second, served);
            let fourth = service_next_of(third, Ok(()));
            &&& second is Serve
            &&& fourth == ServiceStepView::Done(served)
            &&& reported(first) == Some(ServiceReport { running: true, accepts_stop: true })
            &&& reported(third) == Some(ServiceReport { running: false, accepts_stop: false })
            &&& reported(start) is None && reported(second) is None && reported(fourth) is None
            &&& reported_exit_code(first) == Some(0u32)
            &&& reported_exit_code(third) == Some(0u32)
        }),
{
}

/// Wherever a service stands, its report has an exit code, and the code is that
/// of no error.
pub proof fn law_reports_carry_no_error(step: ServiceStepView)
    ensures
        reported(step) is Some <==> reported_exit_code(step) is Some,
        reported_exit_code(step) matches Some(code) ==> code == 0,
{
}

/// The steps of a service: four outcomes bring it to its end, and it serves only
/// after it registered and reported that it runs.
pub proof fn law_service_order(
    registered: Result<(), Seq<char>>,
    running: Result<(), Seq<char>>,
    served: Result<(), Seq<char>>,
    stopped: Result<(), Seq<char>>,
)
    ensures
        ({
            let first = service_next_of(ServiceStepView::Register, registered);
            let second = service_next_of(first, running);
            let third = service_next_of(second, served);
            let fourth = service_next_of(third, stopped);
            &&& second is Serve <==> registered is Ok && running is Ok
            &&& fourth is Done
        }),
{
}

/// A client that was read is closed: at once where it sent no request, else
/// once its answer was sent or could not be.
pub proof fn law_every_client_is_closed(
    message: Result<RequestView, Seq<char>>,
    answer: ResponseView,
    elapsed: Seq<char>,
    sending: SendingView,
)
    ensures
        message is Err ==> client_read(message) is Close,
        message is Ok ==> client_read(message) is Work,
        client_answered(answer, elapsed) is Reply,
        client_sent(sending) is Close,
{
}

/// The lines that a step of a worker writes to the log.
pub open spec fn lines_of(step: WorkerStepView) -> Seq<Seq<char>> {
    match step {
        WorkerStepView::Work { line, .. } => seq![line],
        WorkerStepView::Reply { line, .. } => seq![line],
        WorkerStepView::Close { line: Some(line) } => seq![line],
        WorkerStepView::Close { line: None } => Seq::empty(),
    }
}

/// All that is logged of a client: of the message that was read, and, where
/// that is a request, of its answer and of sending it.
pub open spec fn client_log(
    message: Result<RequestView, Seq<char>>,
    answer: ResponseView,
    elapsed: Seq<char>,
    sending: SendingView,
) -> Seq<Seq<char>> {
    let first = client_read(message);
    if first is Work {
        lines_of(first) + lines_of(client_answered(answer, elapsed)) + lines_of(
            client_sent(sending),
        )
    } else {
        lines_of(first)
    }
}

/// Of a request that is answered exactly two lines are logged: its operation
/// and reason, with the step that then carries it out, and the outcome, with
/// the step that then sends the answer. This holds of a refused request too.
/// Where the answer cannot be sent, and where a message is no request, a
/// further line says so.
pub proof fn law_requests_are_logged(
    message: Result<RequestView, Seq<char>>,
    answer: ResponseView,
    elapsed: Seq<char>,
    sending: SendingView,
)
    ensures
        message matches Ok(req) ==> {
            let two = seq![request_noted(req), answer_noted(answer, elapsed)];
            &&& client_read(message) == (WorkerStepView::Work {
                line: request_noted(req),
                request: handled(req),
            })
            &&& client_answered(answer, elapsed) == (WorkerStepView::Reply {
                line: answer_noted(answer, elapsed),
                answer,
            })
            &&& client_log(message, answer, elapsed, sending) == (match sending {
                SendingView::Sent => two,
                SendingView::EncodeFailed { cause } => two.push(failure_noted(cause)),
                SendingView::WriteFailed { cause } => two.push(
                    failure_noted("WriteFile failed: "@ + cause),
                ),
            })
        },
        message matches Err(cause) ==> client_log(message, answer, elapsed, sending) == seq![
            failure_noted("invalid request json: "@ + cause),
        ],
{
}

/// A control is answered as known exactly if it is a stop or an interrogation,
/// and is a stop exactly if it asks for one. The flag starts unset, is set by a
/// stop and by nothing else, and says whether it is.
pub proof fn law_obey(
    asked: Control,
    reply: ControlReply,
    fresh: StopFlag,
    flag: &mut StopFlag,
    answer: ControlReply,
    seen: &StopFlag,
    set: bool,
)
    requires
        call_ensures(control, (asked,), reply),
        call_ensures(StopFlag::new, (), fresh),
        call_ensures(StopFlag::obey, (flag, asked), answer),
        call_ensures(StopFlag::is_set, (seen,), set),
    ensures
        reply.handled <==> asked is Stop || asked is Interrogate,
        reply.stop <==> asked is Stop,
        answer.handled == reply.handled && answer.stop == reply.stop,
        !fresh@,
        asked is Stop ==> final(flag)@,
        !(asked is Stop) ==> final(flag)@ == old(flag)@,
        old(flag)@ ==> final(flag)@,
        set == seen@,
{
}

/// A server that is told to stop does not start; any other creates its pipe.
/// With a pipe it waits for a client, with a client for a permit, and after it
/// started a worker it begins anew, unless it is told to stop then. It fails
/// exactly where the pipe does, with that error.
pub proof fn law_serve_next(
    stop: &StopFlag,
    start: ServeStep,
    step: ServeStep,
    outcome: Result<(), PipeError>,
    r: ServeStep,
)
    requires
        call_ensures(serve, (stop,), start),
        call_ensures(serve_next, (step, outcome, stop), r),
    ensures
        !stop@ ==> start is CreatePipe,
        stop@ ==> (start matches ServeStep::Done(result) && result is Ok),
        step is CreatePipe && outcome is Ok ==> r is Connect,
        step is Connect && outcome is Ok ==> r is Acquire,
        step is Acquire ==> r is Acquire,
        step is Spawn ==> r@ == start@,
        (step is CreatePipe || step is Connect) && outcome is Err ==> (r matches ServeStep::Done(
            Err(e),
        ) && e@ == outcome->Err_0@),
        step is Done ==> r@ == step@,
{
}

/// Only a permit starts a worker, and only one that is left is given.
pub proof fn law_ask_permit(permits: &mut ConcurrencyLimiter, r: ServeStep)
    requires
        call_ensures(ask_permit, (permits,), r),
    ensures
        r is Spawn <==> old(permits)@.active < old(permits)@.max,
        r is Acquire <==> old(permits)@.active >= old(permits)@.max,
        r is Spawn ==> final(permits)@.active == old(permits)@.active + 1,
        r is Acquire ==> final(permits)@.active == old(permits)@.active,
        final(permits)@.max == old(permits)@.max,
{
}

/// A request is logged by its own line and worked on by its own step; what is no
/// request is logged with the cause, and its client closed.
pub proof fn law_handle_one(
    message: Result<AdminRequest, String>,
    line_of_it: String,
    step_of_it: Step,
    r: WorkerStep,
)
    requires
        call_ensures(handle_one, (message,), r),
        message matches Ok(req) ==> call_ensures(note_request, (&req,), line_of_it)
            && call_ensures(handle_request, (req,), step_of_it),
    ensures
        message is Ok ==> (r matches WorkerStep::Work { line, request } && line@ == line_of_it@
            && request@ == step_of_it@),
        message matches Err(cause) ==> r matches WorkerStep::Close { line: Some(line) } && tells(
            line@,
            "request failed: "@ + "invalid request json: "@,
            cause@,
        ),
{
    if let Err(cause) = message {
        lemma_tells("request failed: "@ + "invalid request json: "@, cause@);
        assert("request failed: "@ + ("invalid request json: "@ + cause@) =~= "request failed: "@
            + "invalid request json: "@ + cause@);
    }
}

/// An answer is logged by its own line and sent as it is, in every field.
pub proof fn law_answered(
    answer: AdminResponse,
    elapsed: &str,
    line_of_it: String,
    r: WorkerStep,
)
    requires
        call_ensures(answered, (answer, elapsed), r),
        call_ensures(answer_line, (&answer, elapsed), line_of_it),
    ensures
        r matches WorkerStep::Reply { line, answer: sent } && {
            &&& line@ == line_of_it@
            &&& sent.ok == answer.ok
            &&& sent.exit_code == answer.exit_code
            &&& sent.stdout@ == answer.stdout@
            &&& sent.stderr@ == answer.stderr@
        },
{
}

/// After sending the client is closed in any case, and a line is logged exactly
/// where the answer was not sent, with the cause.
pub proof fn law_response_sent(sending: Sending, r: WorkerStep)
    requires
        call_ensures(response_sent, (sending,), r),
    ensures
        r is Close,
        r matches WorkerStep::Close { line } ==> {
            &&& line is None <==> sending is Sent
            &&& sending matches Sending::EncodeFailed { cause } ==> tells(
                line->Some_0@,
                "request failed: "@,
                cause@,
            )
            &&& sending matches Sending::WriteFailed { cause } ==> tells(
                line->Some_0@,
                "request failed: "@ + "WriteFile failed: "@,
                cause@,
            )
        },
{
    match sending {
        Sending::EncodeFailed { cause } => lemma_tells("request failed: "@, cause@),
        Sending::WriteFailed { cause } => {
            lemma_tells("request failed: "@ + "WriteFile failed: "@, cause@);
            assert("request failed: "@ + ("WriteFile failed: "@ + cause@) =~= "request failed: "@
                + "WriteFile failed: "@ + cause@);
        },
        Sending::Sent => {},
    }
}

/// A service goes on from step to step while they succeed, and ends with the
/// failure of the first that does not; but how the server ended is reported
/// first, and is the end where the report succeeds.
pub proof fn law_run_service(step: ServiceStep, outcome: Result<(), String>, r: ServiceStep)
    requires
        call_ensures(run_service, (step, outcome), r),
    ensures
        step is Register && outcome is Ok ==> r is ReportRunning,
        step is ReportRunning && outcome is Ok ==> r is Serve,
        step is Serve ==> (r matches ServiceStep::ReportStopped(served) && viewed(served) == viewed(
            outcome,
        )),
        step matches ServiceStep::ReportStopped(served) ==> outcome is Ok ==> (
        r matches ServiceStep::Done(result) && viewed(result) == viewed(served)),
        !(step is Serve) && !(step is Done) && outcome is Err ==> (r matches ServiceStep::Done(
            Err(e),
        ) && e@ == outcome->Err_0@),
        step is Done ==> r@ == step@,
{
}

/// A step reports exactly if it is there for that: that the service runs and may
/// be stopped, or that it is stopped and takes no control; always with the exit
/// code of no error.
pub proof fn law_report(step: &ServiceStep, r: Option<ServiceReport>, code: Option<u32>)
    requires
        call_ensures(report, (step,), r),
        call_ensures(report_exit_code, (step,), code),
    ensures
        r is Some <==> *step is ReportRunning || *step is ReportStopped,
        r matches Some(told) ==> {
            &&& told.running <==> *step is ReportRunning
            &&& told.accepts_stop <==> *step is ReportRunning
        },
        code is Some <==> r is Some,
        code matches Some(n) ==> n == 0,
{
}

} // verus!
