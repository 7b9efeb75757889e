//! The life cycle of one channel's engine process.
//!
//! A supervisor performs no input or output. It is told what happened, as
//! an [`Event`], and answers with what is to be done next, as a
//! [`Directive`]. Requests to start and to stop come from the caller that
//! controls the channel; events come from the task that runs the process.

use vstd::prelude::*;

verus! {

/// The name of the engine's executable, by which its processes are ended
/// when the process of a channel is not known.
pub const ENGINE_IMAGE: &'static str = "gst-launch-1.0.exe";

/// How long a configuration has to stay alive before it is adopted, in
/// milliseconds.
pub const WARMUP_MILLIS: u64 = 2000;

/// How long the task that watches a process waits between two polls, in
/// milliseconds.
pub const POLL_MILLIS: u64 = 100;

/// How long a stop waits for the process to end before it waits for the
/// channel's tasks, in milliseconds.
pub const GRACE_MILLIS: u64 = 500;

/// What can go wrong in supervising a channel.
#[derive(Clone, Copy, Debug, PartialEq, Eq)]
pub enum SupervisorError {
    /// The index names no channel.
    InvalidChannelIndex,
    /// The channel is not idle.
    AlreadyRunning,
    /// The only configuration could not be launched.
    SpawnFailed,
    /// Every configuration failed: it could not be launched, or it ended
    /// before it was warm.
    AllVariantsFailed,
    /// The process ended though nobody had asked it to.
    UnexpectedExit,
    /// The process could not be ended.
    ProcessTerminationFailed,
}

impl SupervisorError {
    /// The message that describes the error.
    pub open spec fn text(self) -> Seq<char> {
        match self {
            SupervisorError::InvalidChannelIndex => "Invalid camera index"@,
            SupervisorError::AlreadyRunning => "Camera already running"@,
            SupervisorError::SpawnFailed => "Failed to start pipeline"@,
            SupervisorError::AllVariantsFailed => "All pipeline configurations failed"@,
            SupervisorError::UnexpectedExit => "Pipeline exited unexpectedly"@,
            SupervisorError::ProcessTerminationFailed => "Failed to terminate pipeline"@,
        }
    }

    /// The message that describes the error.
    pub fn message(&self) -> (r: String)
        ensures
            r@ == self.text(),
    {
        match self {
            SupervisorError::InvalidChannelIndex => "Invalid camera index".to_owned(),
            SupervisorError::AlreadyRunning => "Camera already running".to_owned(),
            SupervisorError::SpawnFailed => "Failed to start pipeline".to_owned(),
            SupervisorError::AllVariantsFailed => "All pipeline configurations failed".to_owned(),
            SupervisorError::UnexpectedExit => "Pipeline exited unexpectedly".to_owned(),
            SupervisorError::ProcessTerminationFailed => "Failed to terminate pipeline".to_owned(),
        }
    }
}

/// Where a channel is in its life cycle.
#[derive(Clone, Copy, Debug, PartialEq, Eq)]
pub enum ChannelState {
    /// No process, and none wanted.
    Idle,
    /// Configurations are being tried.
    Starting,
    /// A configuration has been adopted and is watched.
    Running,
    /// The process is being ended.
    Stopping,
}

/// What a poll of a process finds.
#[derive(Clone, Copy, Debug, PartialEq, Eq)]
pub enum ExitState {
    /// The process is alive.
    Running,
    /// The process has ended with this status.
    Exited(i32),
}

/// The process of a channel.
#[derive(Clone, Copy, Debug, PartialEq, Eq)]
pub struct ProcessHandle {
    /// The process that was launched.
    pub launcher_pid: u32,
    /// The process that does the work, once it is known; it may be a child
    /// of the launcher.
    pub worker_pid: Option<u32>,
}

/// How the process of a channel is to be ended.
#[derive(Clone, Copy, Debug, PartialEq, Eq)]
pub enum Termination {
    /// End the process with this identifier.
    ById(u32),
    /// End every process of the engine's executable, [`ENGINE_IMAGE`].
    ByName,
}

/// What the task that runs the process reports.
#[derive(Clone, Copy, Debug, PartialEq, Eq)]
pub enum Event {
    /// The configuration was launched as the process with this identifier.
    Spawned(u32),
    /// The configuration could not be launched.
    SpawnFailed,
    /// The warm-up interval is over, and the process was found so.
    WarmedUp(ExitState),
    /// The search for the worker process has ended so.
    WorkerResolved(Option<u32>),
    /// The poll interval is over, and the process was found so.
    Polled(ExitState),
}

/// What the task that runs the process is to do next.
#[derive(Clone, Copy, Debug, PartialEq, Eq)]
pub enum Directive {
    /// Launch the configuration with this number, and report `Spawned` or
    /// `SpawnFailed`.
    Launch(usize),
    /// Wait for the warm-up interval, poll the process, and report
    /// `WarmedUp`.
    AwaitWarmup,
    /// Look for a child of the launcher with this identifier, and report
    /// `WorkerResolved`.
    ResolveWorker(u32),
    /// Wait for the poll interval, poll the process, and report `Polled`.
    Monitor,
    /// End the process, if there is one, and return: the event came out of
    /// turn, or a stop has been requested.
    Abort,
    /// Return: the channel is idle. An error tells why.
    Finished(Option<SupervisorError>),
}

/// What a supervisor holds.
pub struct SupervisorState {
    /// Where the channel is in its life cycle.
    pub state: ChannelState,
    /// The number of configurations that a start may try.
    pub variant_count: usize,
    /// The number of the configuration that is being tried or was adopted.
    pub attempt: usize,
    /// The process of the channel, if there is one.
    pub handle: Option<ProcessHandle>,
    /// Whether any configuration of this start could be launched.
    pub spawned_any: bool,
    /// Why the channel last went idle by itself.
    pub notice: Option<SupervisorError>,
}

impl SupervisorState {
    /// An idle supervisor.
    pub open spec fn idle(variant_count: usize) -> SupervisorState {
        SupervisorState {
            state: ChannelState::Idle,
            variant_count,
            attempt: 0,
            handle: None,
            spawned_any: false,
            notice: None,
        }
    }

    /// An idle channel has no process, a starting one has a configuration
    /// left to try, and a running one has a process; a process is one that
    /// this start has launched.
    pub open spec fn wf(self) -> bool {
        &&& self.state is Idle ==> self.handle is None
        &&& self.state is Starting ==> self.attempt < self.variant_count
        &&& self.state is Running ==> self.handle is Some
        &&& self.handle is Some ==> self.spawned_any
    }

    /// Whether the channel is starting or running.
    pub open spec fn is_running(self) -> bool {
        self.state is Starting || self.state is Running
    }

    /// The outcome of a request to start: an idle channel with a
    /// configuration to try begins with the first one.
    pub open spec fn start(self) -> (SupervisorState, Result<Directive, SupervisorError>) {
        if !(self.state is Idle) {
            (self, Err(SupervisorError::AlreadyRunning))
        } else if self.variant_count == 0 {
            (self, Err(SupervisorError::AllVariantsFailed))
        } else {
            (
                SupervisorState {
                    state: ChannelState::Starting,
                    attempt: 0,
                    handle: None,
                    spawned_any: false,
                    notice: None,
                    ..self
                },
                Ok(Directive::Launch(0)),
            )
        }
    }

    /// How the process is to be ended: by its identifier when the worker
    /// is known, else by the engine's name.
    pub open spec fn termination(self) -> Termination {
        match self.handle {
            Some(ProcessHandle { worker_pid: Some(pid), .. }) => Termination::ById(pid),
            _ => Termination::ByName,
        }
    }

    /// The outcome of a request to stop: nothing for an idle channel, else
    /// the channel is stopping and the process is to be ended as told.
    pub open spec fn stop(self) -> (SupervisorState, Option<Termination>) {
        if self.state is Idle {
            (self, None)
        } else {
            (SupervisorState { state: ChannelState::Stopping, ..self }, Some(self.termination()))
        }
    }

    /// The state once a stop has been carried out: the channel is idle
    /// whether or not the process could be ended, and a failure is noted.
    pub open spec fn finish_stop(self, terminated: bool) -> (SupervisorState, Option<SupervisorError>) {
        if self.state is Stopping {
            let notice = if terminated {
                None
            } else {
                Some(SupervisorError::ProcessTerminationFailed)
            };
            (SupervisorState { state: ChannelState::Idle, handle: None, notice, ..self }, notice)
        } else {
            (self, None)
        }
    }

    /// The error of a start that has tried every configuration:
    /// `AllVariantsFailed`. Only a start that has a single configuration,
    /// and could not launch it, fails with `SpawnFailed`.
    pub open spec fn exhausted(self) -> SupervisorError {
        if self.variant_count == 1 && !self.spawned_any {
            SupervisorError::SpawnFailed
        } else {
            SupervisorError::AllVariantsFailed
        }
    }

    /// The outcome when the configuration that is being tried has failed:
    /// the next one is launched, or the start fails and the channel is
    /// idle.
    pub open spec fn next_variant(self) -> (SupervisorState, Directive) {
        if self.attempt + 1 < self.variant_count {
            (
                SupervisorState { attempt: (self.attempt + 1) as usize, handle: None, ..self },
                Directive::Launch((self.attempt + 1) as usize),
            )
        } else {
            (
                SupervisorState {
                    state: ChannelState::Idle,
                    handle: None,
                    notice: Some(self.exhausted()),
                    ..self
                },
                Directive::Finished(Some(self.exhausted())),
            )
        }
    }

    /// The channel once its run has ended without a request to stop: it is
    /// idle and has no process.
    pub open spec fn ended(self) -> SupervisorState {
        SupervisorState {
            state: ChannelState::Idle,
            handle: None,
            notice: Some(SupervisorError::UnexpectedExit),
            ..self
        }
    }

    /// The outcome of an event. An event that comes out of turn ends the
    /// run of a channel that is starting or running: the task is told to
    /// end the process and to return, and the channel is idle. On a channel
    /// that is idle or stopping it changes nothing.
    pub open spec fn after(self, event: Event) -> (SupervisorState, Directive) {
        match (self.state, event, self.handle) {
            (ChannelState::Starting, Event::Spawned(pid), None) => (
                SupervisorState {
                    handle: Some(ProcessHandle { launcher_pid: pid, worker_pid: None }),
                    spawned_any: true,
                    ..self
                },
                Directive::AwaitWarmup,
            ),
            (ChannelState::Starting, Event::SpawnFailed, None) => self.next_variant(),
            (ChannelState::Starting, Event::WarmedUp(ExitState::Exited(_)), Some(_)) => {
                self.next_variant()
            },
            (ChannelState::Starting, Event::WarmedUp(ExitState::Running), Some(handle)) => (
                SupervisorState { state: ChannelState::Running, ..self },
                Directive::ResolveWorker(handle.launcher_pid),
            ),
            (ChannelState::Running, Event::WorkerResolved(worker), Some(handle)) => (
                SupervisorState {
                    handle: Some(ProcessHandle { worker_pid: worker, ..handle }),
                    ..self
                },
                Directive::Monitor,
            ),
            (ChannelState::Running, Event::Polled(ExitState::Running), Some(_)) => (
                self,
                Directive::Monitor,
            ),
            (ChannelState::Running, Event::Polled(ExitState::Exited(_)), Some(_)) => (
                self.ended(),
                Directive::Finished(Some(SupervisorError::UnexpectedExit)),
            ),
            _ => if self.is_running() {
                (self.ended(), Directive::Abort)
            } else {
                (self, Directive::Abort)
            },
        }
    }
}

/// Supervises the engine process of one channel.
#[derive(Clone, Copy, Debug)]
pub struct ChannelSupervisor {
    state: ChannelState,
    variant_count: usize,
    attempt: usize,
    handle: Option<ProcessHandle>,
    spawned_any: bool,
    notice: Option<SupervisorError>,
}

impl View for ChannelSupervisor {
    type V = SupervisorState;

    closed spec fn view(&self) -> SupervisorState {
        SupervisorState {
            state: self.state,
            variant_count: self.variant_count,
            attempt: self.attempt,
            handle: self.handle,
            spawned_any: self.spawned_any,
            notice: self.notice,
        }
    }
}

impl ChannelSupervisor {
    /// An idle supervisor whose starts try `variant_count` configurations.
    pub fn new(variant_count: usize) -> (r: ChannelSupervisor)
        ensures
            r@ == SupervisorState::idle(variant_count),
            r@.wf(),
    {
        ChannelSupervisor {
            state: ChannelState::Idle,
            variant_count,
            attempt: 0,
            handle: None,
            spawned_any: false,
            notice: None,
        }
    }

    /// Where the channel is in its life cycle.
    pub fn state(&self) -> (r: ChannelState)
        ensures
            r == self@.state,
    {
        self.state
    }

    /// The process of the channel, if there is one.
    pub fn handle(&self) -> (r: Option<ProcessHandle>)
        ensures
            r == self@.handle,
    {
        self.handle
    }

    /// The number of the configuration that is being tried or was adopted.
    pub fn attempt(&self) -> (r: usize)
        ensures
            r == self@.attempt,
    {
        self.attempt
    }

    /// Why the channel last went idle by itself.
    pub fn notice(&self) -> (r: Option<SupervisorError>)
        ensures
            r == self@.notice,
    {
        self.notice
    }

    /// Whether the channel is starting or running.
    pub fn is_running(&self) -> (r: bool)
        ensures
            r == self@.is_running(),
    {
        match self.state {
            ChannelState::Starting => true,
            ChannelState::Running => true,
            _ => false,
        }
    }

    /// Asks the channel to start. It fails with `AlreadyRunning`, and
    /// changes nothing, unless the channel is idle.
    pub fn start(&mut self) -> (r: Result<Directive, SupervisorError>)
        ensures
            (final(self)@, r) == old(self)@.start(),
            old(self)@.wf() ==> final(self)@.wf(),
    {
        match self.state {
            ChannelState::Idle => {
                if self.variant_count == 0 {
                    Err(SupervisorError::AllVariantsFailed)
                } else {
                    self.state = ChannelState::Starting;
                    self.attempt = 0;
                    self.handle = None;
                    self.spawned_any = false;
                    self.notice = None;
                    Ok(Directive::Launch(0))
                }
            },
            _ => Err(SupervisorError::AlreadyRunning),
        }
    }

    /// Asks the channel to stop, and tells how its process is to be ended;
    /// `None` when the channel is idle. The caller ends the process, waits
    /// for the channel's tasks, and then calls `finish_stop`.
    pub fn stop(&mut self) -> (r: Option<Termination>)
        ensures
            (final(self)@, r) == old(self)@.stop(),
            old(self)@.wf() ==> final(self)@.wf(),
            !final(self)@.is_running(),
    {
        match self.state {
            ChannelState::Idle => None,
            _ => {
                let plan = match self.handle {
                    Some(ProcessHandle { worker_pid: Some(pid), .. }) => Termination::ById(pid),
                    _ => Termination::ByName,
                };
                self.state = ChannelState::Stopping;
                Some(plan)
            },
        }
    }

    /// Ends a stop: the channel is idle and has no process. `terminated`
    /// tells whether the process could be ended; a failure is returned and
    /// noted, and the channel is idle all the same.
    pub fn finish_stop(&mut self, terminated: bool) -> (r: Option<SupervisorError>)
        ensures
            (final(self)@, r) == old(self)@.finish_stop(terminated),
            old(self)@.wf() ==> final(self)@.wf(),
    {
        match self.state {
            ChannelState::Stopping => {
                let notice = if terminated {
                    None
                } else {
                    Some(SupervisorError::ProcessTerminationFailed)
                };
                self.state = ChannelState::Idle;
                self.handle = None;
                self.notice = notice;
                notice
            },
            _ => None,
        }
    }

    fn next_variant(&mut self) -> (r: Directive)
        ensures
            (final(self)@, r) == old(self)@.next_variant(),
    {
        if self.variant_count > 0 && self.attempt < self.variant_count - 1 {
            self.attempt = self.attempt + 1;
            self.handle = None;
            Directive::Launch(self.attempt)
        } else {
            let error = if self.variant_count == 1 && !self.spawned_any {
                SupervisorError::SpawnFailed
            } else {
                SupervisorError::AllVariantsFailed
            };
            self.state = ChannelState::Idle;
            self.handle = None;
            self.notice = Some(error);
            Directive::Finished(Some(error))
        }
    }

    /// Takes an event from the task that runs the process, and tells what
    /// the task is to do next.
    pub fn advance(&mut self, event: Event) -> (r: Directive)
        ensures
            (final(self)@, r) == old(self)@.after(event),
            old(self)@.wf() ==> final(self)@.wf(),
    {
        match (self.state, event, self.handle) {
            (ChannelState::Starting, Event::Spawned(pid), None) => {
                self.handle = Some(ProcessHandle { launcher_pid: pid, worker_pid: None });
                self.spawned_any = true;
                Directive::AwaitWarmup
            },
            (ChannelState::Starting, Event::SpawnFailed, None) => self.next_variant(),
            (ChannelState::Starting, Event::WarmedUp(ExitState::Exited(_)), Some(_)) => {
                self.next_variant()
            },
            (ChannelState::Starting, Event::WarmedUp(ExitState::Running), Some(handle)) => {
                self.state = ChannelState::Running;
                Directive::ResolveWorker(handle.launcher_pid)
            },
            (ChannelState::Running, Event::WorkerResolved(worker), Some(handle)) => {
                self.handle = Some(
                    ProcessHandle { launcher_pid: handle.launcher_pid, worker_pid: worker },
                );
                Directive::Monitor
            },
            (ChannelState::Running, Event::Polled(ExitState::Running), Some(_)) => {
                Directive::Monitor
            },
            (ChannelState::Running, Event::Polled(ExitState::Exited(_)), Some(_)) => {
                self.state = ChannelState::Idle;
                self.handle = None;
                self.notice = Some(SupervisorError::UnexpectedExit);
                Directive::Finished(Some(SupervisorError::UnexpectedExit))
            },
            _ => {
                if self.is_running() {
                    self.state = ChannelState::Idle;
                    self.handle = None;
                    self.notice = Some(SupervisorError::UnexpectedExit);
                }
                Directive::Abort
            },
        }
    }
}

/// A start is refused with `AlreadyRunning` unless the channel is idle,
/// and a refused start changes nothing: a run that exists is untouched.
pub proof fn lemma_start_refused_unless_idle(s: SupervisorState)
    requires
        !(s.state is Idle),
    ensures
        s.start() == (s, Err::<Directive, SupervisorError>(SupervisorError::AlreadyRunning)),
{
}

/// A start that is accepted begins with the first configuration, and a
/// channel that is starting or running is not idle: at most one start is
/// in progress on a channel.
pub proof fn lemma_start_accepted_once(s: SupervisorState)
    requires
        s.start().1 is Ok,
    ensures
        s.start().1 == Ok::<Directive, SupervisorError>(Directive::Launch(0)),
        s.start().0.state is Starting,
        s.start().0.handle is None,
        s.start().0.start().1 == Err::<Directive, SupervisorError>(SupervisorError::AlreadyRunning),
{
}

/// After a stop the channel is not running, and once the stop is finished
/// the channel is idle and has no process, whether or not the process
/// could be ended.
pub proof fn lemma_stop_leaves_nothing(s: SupervisorState, terminated: bool)
    requires
        s.wf(),
    ensures
        !s.stop().0.is_running(),
        ({
            let done = s.stop().0.finish_stop(terminated).0;
            &&& done.state is Idle
            &&& done.handle is None
            &&& !done.is_running()
            &&& done.wf()
        }),
{
}

/// A process is ended by its identifier exactly when the worker is known.
pub proof fn lemma_termination_is_scoped(s: SupervisorState)
    ensures
        s.stop().1 matches Some(Termination::ById(pid)) ==> (s.handle matches Some(handle)
            && handle.worker_pid == Some(pid)),
        s.stop().1 == Some(Termination::ByName) ==> !(s.state is Idle) && !(s.handle matches Some(
            handle,
        ) && handle.worker_pid is Some),
        !(s.state is Idle) ==> s.stop().1 is Some,
{
}

/// A channel whose task is told to finish is idle and has no process: a
/// start that fails leaves nothing half started, and a process that ends
/// by itself leaves the channel free.
pub proof fn lemma_finished_is_idle(s: SupervisorState, event: Event)
    ensures
        s.after(event).1 is Finished ==> {
            &&& s.after(event).0.state is Idle
            &&& s.after(event).0.handle is None
            &&& s.after(event).0.notice == s.after(event).1->Finished_0
            &&& s.after(event).1->Finished_0 is Some
        },
{
}

/// A configuration is launched only while the channel is starting and has
/// no process, and the configurations are tried one after the other.
pub proof fn lemma_launch_in_order(s: SupervisorState, event: Event)
    requires
        s.wf(),
    ensures
        s.after(event).1 matches Directive::Launch(k) ==> {
            &&& s.state is Starting
            &&& s.after(event).0.state is Starting
            &&& s.after(event).0.handle is None
            &&& k == s.attempt + 1
            &&& k == s.after(event).0.attempt
            &&& k < s.variant_count
        },
{
}

/// A channel runs only a configuration that was alive when its warm-up
/// interval was over.
pub proof fn lemma_running_after_warmup(s: SupervisorState, event: Event)
    requires
        !(s.state is Running),
        s.after(event).0.state is Running,
    ensures
        s.state is Starting,
        event == Event::WarmedUp(ExitState::Running),
        s.after(event).0.handle == s.handle,
        s.after(event).0.attempt == s.attempt,
{
}

/// Events change nothing on a channel that is idle or stopping; the task
/// that reports them is told to end its process and return.
pub proof fn lemma_events_cannot_restart(s: SupervisorState, event: Event)
    requires
        s.state is Idle || s.state is Stopping,
    ensures
        s.after(event) == (s, Directive::Abort),
{
}

/// `directive` tells the task to go on with the run.
pub open spec fn goes_on(directive: Directive) -> bool {
    directive is Launch || directive is AwaitWarmup || directive is ResolveWorker
        || directive is Monitor
}

/// After every event the channel reports running exactly when its task is
/// told to go on: a task that is told to return leaves no channel behind
/// that still counts as starting or running.
pub proof fn lemma_running_while_task_goes_on(s: SupervisorState, event: Event)
    ensures
        s.after(event).0.is_running() == goes_on(s.after(event).1),
        goes_on(s.after(event).1) ==> s.is_running(),
{
}

/// A start that has several configurations and fails has failed with
/// `AllVariantsFailed`, whatever each configuration failed of; a start
/// fails with `SpawnFailed` only if its single configuration could not be
/// launched.
pub proof fn lemma_failed_start(s: SupervisorState, event: Event)
    requires
        s.wf(),
        s.state is Starting,
        s.after(event).1 is Finished,
    ensures
        s.after(event).0.state is Idle,
        s.variant_count > 1 ==> s.after(event).1 == Directive::Finished(
            Some(SupervisorError::AllVariantsFailed),
        ),
        s.after(event).1 == Directive::Finished(Some(SupervisorError::SpawnFailed)) ==> {
            &&& s.variant_count == 1
            &&& event == Event::SpawnFailed
            &&& !s.spawned_any
        },
{
}

} // verus!
