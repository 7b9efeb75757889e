//! The registry of the sending channels.
//!
//! A sender tries three configurations of its pipeline, one after the
//! other, and adopts the first that is still alive when its warm-up
//! interval is over.

use vstd::prelude::*;
use crate::pipeline::{
    sender_pipeline, sender_pipeline_text, PipelineVariant, SENDER_VARIANTS,
};
use crate::supervisor::{
    ChannelState, ChannelSupervisor, Directive, Event, SupervisorError, SupervisorState,
    Termination,
};
use crate::pipeline::{decimal_digits, decimal_string};
use crate::text::{
    chars_of, lines, lines_of, line_views, parse_u32, parse_u32_spec, second_part, take_second,
    trim, trim_slice,
};
use crate::types::{StreamConfig, StreamConfigView};

verus! {

/// One sending channel: its supervisor, and the configuration of its
/// current run.
pub struct SenderStream {
    supervisor: ChannelSupervisor,
    config: Option<StreamConfig>,
}

/// What the registry holds of one sending channel.
pub struct StreamView {
    /// The life cycle of the channel.
    pub supervisor: SupervisorState,
    /// The configuration of the current or the last run.
    pub config: Option<StreamConfigView>,
}

/// What `config` holds.
pub open spec fn config_view(config: Option<StreamConfig>) -> Option<StreamConfigView> {
    match config {
        Some(c) => Some(c@),
        None => None,
    }
}

impl View for SenderStream {
    type V = StreamView;

    closed spec fn view(&self) -> StreamView {
        StreamView { supervisor: self.supervisor@, config: config_view(self.config) }
    }
}

impl StreamView {
    /// An idle channel that has never run.
    pub open spec fn idle() -> StreamView {
        StreamView { supervisor: SupervisorState::idle(SENDER_VARIANTS), config: None }
    }

    /// A channel that is not idle has the configuration of its run.
    pub open spec fn wf(self) -> bool {
        &&& self.supervisor.wf()
        &&& self.supervisor.variant_count == SENDER_VARIANTS
        &&& !(self.supervisor.state is Idle) ==> self.config is Some
    }

    /// Whether the channel is starting or running.
    pub open spec fn is_streaming(self) -> bool {
        self.supervisor.is_running()
    }

    /// The outcome of a request to start with `config`: an idle channel
    /// takes the configuration and begins with the first variant.
    pub open spec fn start(self, config: StreamConfigView) -> (
        StreamView,
        Result<Directive, SupervisorError>,
    ) {
        if self.supervisor.state is Idle {
            (
                StreamView { supervisor: self.supervisor.start().0, config: Some(config) },
                self.supervisor.start().1,
            )
        } else {
            (self, Err(SupervisorError::AlreadyRunning))
        }
    }

    /// The outcome of a request to stop.
    pub open spec fn stop(self) -> (StreamView, Option<Termination>) {
        (StreamView { supervisor: self.supervisor.stop().0, ..self }, self.supervisor.stop().1)
    }

    /// The channel once a stop has been carried out.
    pub open spec fn finish_stop(self, terminated: bool) -> (StreamView, Option<SupervisorError>) {
        (
            StreamView { supervisor: self.supervisor.finish_stop(terminated).0, ..self },
            self.supervisor.finish_stop(terminated).1,
        )
    }

    /// The outcome of an event.
    pub open spec fn after(self, event: Event) -> (StreamView, Directive) {
        (
            StreamView { supervisor: self.supervisor.after(event).0, ..self },
            self.supervisor.after(event).1,
        )
    }

    /// The description of the configuration that channel `control_index`
    /// is trying; `None` unless the channel is starting.
    pub open spec fn launch_text(self, control_index: usize) -> Option<Seq<char>> {
        match (self.supervisor.state, self.config, PipelineVariant::at(self.supervisor.attempt as int)) {
            (ChannelState::Starting, Some(config), Some(variant)) => Some(
                sender_pipeline_text(variant, config, control_index),
            ),
            _ => None,
        }
    }
}

/// The registry of the sending channels.
pub struct GStreamerManager {
    streams: Vec<SenderStream>,
}

impl View for GStreamerManager {
    type V = Seq<StreamView>;

    closed spec fn view(&self) -> Seq<StreamView> {
        Seq::new(self.streams@.len(), |i: int| self.streams@[i]@)
    }
}

/// Every channel of `streams` is well formed.
pub open spec fn streams_wf(streams: Seq<StreamView>) -> bool {
    forall|i: int| 0 <= i < streams.len() ==> (#[trigger] streams[i]).wf()
}

impl GStreamerManager {
    /// Every channel is well formed.
    pub open spec fn wf(&self) -> bool {
        streams_wf(self@)
    }

    /// A registry without channels.
    pub fn new() -> (r: GStreamerManager)
        ensures
            r.wf(),
            r@.len() == 0,
    {
        GStreamerManager { streams: Vec::new() }
    }

    /// Adds `count` idle channels.
    pub fn initialize_streams(&mut self, count: usize)
        requires
            old(self).wf(),
        ensures
            final(self).wf(),
            final(self)@ == old(self)@ + Seq::new(count as nat, |i: int| StreamView::idle()),
    {
        let mut i: usize = 0;
        while i < count
            invariant
                i <= count,
                self.wf(),
                self@ == old(self)@ + Seq::new(i as nat, |j: int| StreamView::idle()),
            decreases count - i,
        {
            let ghost before = self@;
            self.streams.push(
                SenderStream { supervisor: ChannelSupervisor::new(SENDER_VARIANTS), config: None },
            );
            assert(self@ =~= before.push(StreamView::idle()));
            assert(self@ =~= old(self)@ + Seq::new((i + 1) as nat, |j: int| StreamView::idle()));
            assert forall|k: int| 0 <= k < self@.len() implies (#[trigger] self@[k]).wf() by {
                if k < before.len() {
                    assert(before[k].wf());
                }
            }
            i += 1;
        }
    }

    /// The number of channels.
    pub fn stream_count(&self) -> (r: usize)
        ensures
            r == self@.len(),
    {
        self.streams.len()
    }

    /// The description of a sender that takes the device's own format.
    pub fn build_standard_pipeline(config: &StreamConfig, control_index: usize) -> (r: String)
        ensures
            r@ == sender_pipeline_text(PipelineVariant::Standard, config@, control_index),
    {
        sender_pipeline(PipelineVariant::Standard, config, control_index)
    }

    /// The description of a sender that requests its format outright, as
    /// virtual cameras need it.
    pub fn build_virtual_camera_pipeline(config: &StreamConfig, control_index: usize) -> (r: String)
        ensures
            r@ == sender_pipeline_text(PipelineVariant::VirtualCamera, config@, control_index),
    {
        sender_pipeline(PipelineVariant::VirtualCamera, config, control_index)
    }

    /// The description of a sender that requests a larger picture and
    /// scales it down.
    pub fn build_scaled_pipeline(config: &StreamConfig, control_index: usize) -> (r: String)
        ensures
            r@ == sender_pipeline_text(PipelineVariant::Scaled, config@, control_index),
    {
        sender_pipeline(PipelineVariant::Scaled, config, control_index)
    }

    /// Asks channel `control_index` to start with `config`. An idle
    /// channel takes the configuration, and the caller is told to launch
    /// the first variant. A channel that is not idle is left as it is,
    /// with `AlreadyRunning`.
    pub fn start_pipeline(&mut self, control_index: usize, config: StreamConfig) -> (r: Result<
        Directive,
        SupervisorError,
    >)
        requires
            old(self).wf(),
        ensures
            final(self).wf(),
            control_index >= old(self)@.len() ==> r == Err::<Directive, SupervisorError>(
                SupervisorError::InvalidChannelIndex,
            ) && final(self)@ == old(self)@,
            control_index < old(self)@.len() ==> r == old(self)@[control_index as int].start(
                config@,
            ).1 && final(self)@ == old(self)@.update(
                control_index as int,
                old(self)@[control_index as int].start(config@).0,
            ),
    {
        if control_index >= self.streams.len() {
            return Err(SupervisorError::InvalidChannelIndex);
        }
        assert(old(self)@[control_index as int].wf());
        let stream = &mut self.streams[control_index];
        let r = match stream.supervisor.state() {
            ChannelState::Idle => {
                stream.config = Some(config);
                stream.supervisor.start()
            },
            _ => Err(SupervisorError::AlreadyRunning),
        };
        assert(self@ =~= old(self)@.update(
            control_index as int,
            old(self)@[control_index as int].start(config@).0,
        ));
        assert forall|i: int| 0 <= i < self@.len() implies (#[trigger] self@[i]).wf() by {
            assert(old(self)@[i].wf());
        }
        r
    }

    /// The description that the engine of channel `control_index` is to be
    /// launched with: that of the variant that is being tried. `None`
    /// unless the channel is starting.
    pub fn launch_command(&self, control_index: usize) -> (r: Result<
        Option<String>,
        SupervisorError,
    >)
        requires
            self.wf(),
        ensures
            control_index >= self@.len() ==> r == Err::<Option<String>, SupervisorError>(
                SupervisorError::InvalidChannelIndex,
            ),
            control_index < self@.len() ==> (r matches Ok(command) && match self@[control_index as int].launch_text(
                control_index,
            ) {
                Some(text) => (command matches Some(c) && c@ == text),
                None => command is None,
            }),
    {
        if control_index >= self.streams.len() {
            return Err(SupervisorError::InvalidChannelIndex);
        }
        let stream = &self.streams[control_index];
        match (stream.supervisor.state(), &stream.config, PipelineVariant::nth(stream.supervisor.attempt())) {
            (ChannelState::Starting, Some(config), Some(variant)) => Ok(
                Some(sender_pipeline(variant, config, control_index)),
            ),
            _ => Ok(None),
        }
    }

    /// Asks channel `control_index` to stop, and tells how its process is
    /// to be ended; `None` when the channel is idle.
    pub fn stop_pipeline(&mut self, control_index: usize) -> (r: Result<
        Option<Termination>,
        SupervisorError,
    >)
        requires
            old(self).wf(),
        ensures
            final(self).wf(),
            control_index >= old(self)@.len() ==> r == Err::<Option<Termination>, SupervisorError>(
                SupervisorError::InvalidChannelIndex,
            ) && final(self)@ == old(self)@,
            control_index < old(self)@.len() ==> r == Ok::<Option<Termination>, SupervisorError>(
                old(self)@[control_index as int].stop().1,
            ) && final(self)@ == old(self)@.update(
                control_index as int,
                old(self)@[control_index as int].stop().0,
            ) && !final(self)@[control_index as int].is_streaming(),
    {
        if control_index >= self.streams.len() {
            return Err(SupervisorError::InvalidChannelIndex);
        }
        assert(old(self)@[control_index as int].wf());
        let plan = self.streams[control_index].supervisor.stop();
        assert(self@ =~= old(self)@.update(
            control_index as int,
            old(self)@[control_index as int].stop().0,
        ));
        assert forall|i: int| 0 <= i < self@.len() implies (#[trigger] self@[i]).wf() by {
            assert(old(self)@[i].wf());
        }
        Ok(plan)
    }

    /// Ends the stop of channel `control_index`: the channel is idle.
    pub fn finish_stop(&mut self, control_index: usize, terminated: bool) -> (r: Result<
        Option<SupervisorError>,
        SupervisorError,
    >)
        requires
            old(self).wf(),
        ensures
            final(self).wf(),
            control_index >= old(self)@.len() ==> r == Err::<
                Option<SupervisorError>,
                SupervisorError,
            >(SupervisorError::InvalidChannelIndex) && final(self)@ == old(self)@,
            control_index < old(self)@.len() ==> r == Ok::<Option<SupervisorError>, SupervisorError>(
                old(self)@[control_index as int].finish_stop(terminated).1,
            ) && final(self)@ == old(self)@.update(
                control_index as int,
                old(self)@[control_index as int].finish_stop(terminated).0,
            ),
    {
        if control_index >= self.streams.len() {
            return Err(SupervisorError::InvalidChannelIndex);
        }
        assert(old(self)@[control_index as int].wf());
        let notice = self.streams[control_index].supervisor.finish_stop(terminated);
        assert(self@ =~= old(self)@.update(
            control_index as int,
            old(self)@[control_index as int].finish_stop(terminated).0,
        ));
        assert forall|i: int| 0 <= i < self@.len() implies (#[trigger] self@[i]).wf() by {
            assert(old(self)@[i].wf());
        }
        Ok(notice)
    }

    /// Takes an event from the task that runs the process of channel
    /// `control_index`, and tells what the task is to do next.
    pub fn advance(&mut self, control_index: usize, event: Event) -> (r: Result<
        Directive,
        SupervisorError,
    >)
        requires
            old(self).wf(),
        ensures
            final(self).wf(),
            control_index >= old(self)@.len() ==> r == Err::<Directive, SupervisorError>(
                SupervisorError::InvalidChannelIndex,
            ) && final(self)@ == old(self)@,
            control_index < old(self)@.len() ==> r == Ok::<Directive, SupervisorError>(
                old(self)@[control_index as int].after(event).1,
            ) && final(self)@ == old(self)@.update(
                control_index as int,
                old(self)@[control_index as int].after(event).0,
            ),
    {
        if control_index >= self.streams.len() {
            return Err(SupervisorError::InvalidChannelIndex);
        }
        assert(old(self)@[control_index as int].wf());
        let directive = self.streams[control_index].supervisor.advance(event);
        assert(self@ =~= old(self)@.update(
            control_index as int,
            old(self)@[control_index as int].after(event).0,
        ));
        assert forall|i: int| 0 <= i < self@.len() implies (#[trigger] self@[i]).wf() by {
            assert(old(self)@[i].wf());
        }
        Ok(directive)
    }

    /// Whether channel `control_index` is starting or running.
    pub fn is_streaming(&self, control_index: usize) -> (r: Result<bool, SupervisorError>)
        ensures
            control_index >= self@.len() ==> r == Err::<bool, SupervisorError>(
                SupervisorError::InvalidChannelIndex,
            ),
            control_index < self@.len() ==> r == Ok::<bool, SupervisorError>(
                self@[control_index as int].is_streaming(),
            ),
    {
        if control_index >= self.streams.len() {
            return Err(SupervisorError::InvalidChannelIndex);
        }
        Ok(self.streams[control_index].supervisor.is_running())
    }

    /// The process of channel `control_index`, if it has one.
    pub fn process(&self, control_index: usize) -> (r: Result<
        Option<crate::supervisor::ProcessHandle>,
        SupervisorError,
    >)
        ensures
            control_index >= self@.len() ==> r == Err::<
                Option<crate::supervisor::ProcessHandle>,
                SupervisorError,
            >(SupervisorError::InvalidChannelIndex),
            control_index < self@.len() ==> r == Ok::<
                Option<crate::supervisor::ProcessHandle>,
                SupervisorError,
            >(self@[control_index as int].supervisor.handle),
    {
        if control_index >= self.streams.len() {
            return Err(SupervisorError::InvalidChannelIndex);
        }
        Ok(self.streams[control_index].supervisor.handle())
    }
}

/// What a toggle of a sending channel did.
#[derive(Clone, Copy, Debug, PartialEq, Eq)]
pub enum SenderToggle {
    /// The channel was asked to start, and this is to be done next.
    Started(Directive),
    /// The channel was asked to stop, and its process is to be ended so.
    Stopping(Option<Termination>),
    /// The channel is not streaming and no device is selected: nothing
    /// was done.
    NoCamera,
}

/// The outcome of a toggle of channel `index`: a channel that is
/// streaming is stopped; any other is started with `config`, if there is
/// one.
pub open spec fn toggled(
    streams: Seq<StreamView>,
    index: usize,
    config: Option<StreamConfigView>,
) -> (Result<SenderToggle, SupervisorError>, Seq<StreamView>) {
    let stream = streams[index as int];
    if stream.is_streaming() {
        (Ok(SenderToggle::Stopping(stream.stop().1)), streams.update(index as int, stream.stop().0))
    } else {
        match config {
            Some(c) => (
                match stream.start(c).1 {
                    Ok(directive) => Ok(SenderToggle::Started(directive)),
                    Err(error) => Err(error),
                },
                streams.update(index as int, stream.start(c).0),
            ),
            None => (Ok(SenderToggle::NoCamera), streams),
        }
    }
}

impl GStreamerManager {
    /// Stops channel `control_index` if it is streaming; else starts it
    /// with `config`, which is `None` when no device is selected.
    pub fn toggle_pipeline(&mut self, control_index: usize, config: Option<StreamConfig>) -> (r:
        Result<SenderToggle, SupervisorError>)
        requires
            old(self).wf(),
        ensures
            final(self).wf(),
            control_index >= old(self)@.len() ==> r == Err::<SenderToggle, SupervisorError>(
                SupervisorError::InvalidChannelIndex,
            ) && final(self)@ == old(self)@,
            control_index < old(self)@.len() ==> (r, final(self)@) == toggled(
                old(self)@,
                control_index,
                config_view(config),
            ),
    {
        match self.is_streaming(control_index) {
            Err(error) => Err(error),
            Ok(true) => match self.stop_pipeline(control_index) {
                Ok(plan) => Ok(SenderToggle::Stopping(plan)),
                Err(error) => Err(error),
            },
            Ok(false) => match config {
                Some(c) => match self.start_pipeline(control_index, c) {
                    Ok(directive) => Ok(SenderToggle::Started(directive)),
                    Err(error) => Err(error),
                },
                None => Ok(SenderToggle::NoCamera),
            },
        }
    }

    /// Asks every channel that is streaming to stop, and tells for each
    /// how its process is to be ended; `None` for a channel that was not
    /// streaming, which is left as it is. Afterwards no channel streams.
    pub fn shutdown(&mut self) -> (r: Vec<Option<Termination>>)
        requires
            old(self).wf(),
        ensures
            final(self).wf(),
            final(self)@.len() == old(self)@.len(),
            r@.len() == old(self)@.len(),
            forall|i: int|
                0 <= i < old(self)@.len() ==> (#[trigger] final(self)@[i], r@[i]) == (if old(
                    self,
                )@[i].is_streaming() {
                    old(self)@[i].stop()
                } else {
                    (old(self)@[i], None::<Termination>)
                }),
            forall|i: int| 0 <= i < old(self)@.len() ==> !(#[trigger] final(self)@[i]).is_streaming(),
    {
        let mut plans: Vec<Option<Termination>> = Vec::new();
        let count = self.streams.len();
        let mut i: usize = 0;
        while i < count
            invariant
                i <= count,
                count == old(self)@.len(),
                self.wf(),
                self@.len() == old(self)@.len(),
                plans@.len() == i,
                forall|j: int|
                    0 <= j < i ==> (#[trigger] self@[j], plans@[j]) == (if old(
                        self,
                    )@[j].is_streaming() {
                        old(self)@[j].stop()
                    } else {
                        (old(self)@[j], None::<Termination>)
                    }),
                forall|j: int| i <= j < count ==> #[trigger] self@[j] == old(self)@[j],
            decreases count - i,
        {
            let streaming = match self.is_streaming(i) {
                Ok(streaming) => streaming,
                Err(_) => false,
            };
            let plan = if streaming {
                match self.stop_pipeline(i) {
                    Ok(plan) => plan,
                    Err(_) => None,
                }
            } else {
                None
            };
            plans.push(plan);
            i += 1;
        }
        plans
    }
}

/// The start of the condition that selects the children of a process.
pub const PARENT_CONDITION: &'static str = "ParentProcessId=";

/// The condition that selects the children of the process `launcher_pid`
/// in a query of the process table.
pub open spec fn worker_query_text(launcher_pid: u32) -> Seq<char> {
    PARENT_CONDITION@ + decimal_digits(launcher_pid as nat)
}

/// The process that one row of the answer names: the one whose number is
/// the row's second field, the fields being divided by commas. The first
/// field is the name of the machine. A row whose second field is not a
/// number, as that of the title row, names none.
pub open spec fn line_pid(line: Seq<char>) -> Option<u32> {
    match second_part(line, ","@) {
        Some(field) => parse_u32_spec(trim(field)),
        None => None,
    }
}

/// The process that the first of the first `upto` lines to name one names.
pub open spec fn first_pid(lines: Seq<Seq<char>>, upto: int) -> Option<u32>
    decreases upto,
{
    if upto <= 0 {
        None
    } else {
        match first_pid(lines, upto - 1) {
            Some(pid) => Some(pid),
            None => line_pid(lines[upto - 1]),
        }
    }
}

/// The worker process that the answer to a query names: the process of
/// the first row that names one, which is the first child of the launcher
/// that the table lists.
pub open spec fn worker_pid(output: Seq<char>) -> Option<u32> {
    first_pid(lines(output), lines(output).len() as int)
}

fn read_line_pid(line: &[char]) -> (r: Option<u32>)
    ensures
        r == line_pid(line@),
{
    let comma = chars_of(",");
    match take_second(line, comma.as_slice()) {
        Some(field) => parse_u32(trim_slice(field)),
        None => None,
    }
}

impl GStreamerManager {
    /// The condition by which the process table is asked for the children
    /// of the process `launcher_pid`.
    pub fn worker_query(launcher_pid: u32) -> (r: String)
        ensures
            r@ == worker_query_text(launcher_pid),
    {
        let mut r = PARENT_CONDITION.to_owned();
        let pid = decimal_string(launcher_pid as usize);
        r.append(pid.as_str());
        r
    }

    /// Reads the worker process from the answer to a query of the process
    /// table.
    pub fn find_gstreamer_pid(output: &str) -> (r: Option<u32>)
        ensures
            r == worker_pid(output@),
    {
        let chars = chars_of(output);
        let all = lines_of(chars.as_slice());
        let mut i: usize = 0;
        while i < all.len()
            invariant
                i <= all@.len(),
                line_views(all@) == lines(output@),
                first_pid(lines(output@), i as int) is None,
            decreases all@.len() - i,
        {
            assert(line_views(all@)[i as int] == all@[i as int]@);
            match read_line_pid(all[i].as_slice()) {
                Some(pid) => {
                    proof {
                        lemma_first_pid_stays(lines(output@), i + 1, all@.len() as int);
                    }
                    return Some(pid);
                },
                None => {},
            }
            i += 1;
        }
        None
    }
}

/// Once a line has named a process, later lines do not change the answer.
pub proof fn lemma_first_pid_stays(lines: Seq<Seq<char>>, found: int, upto: int)
    requires
        first_pid(lines, found) is Some,
        found <= upto,
    ensures
        first_pid(lines, upto) == first_pid(lines, found),
    decreases upto - found,
{
    if found < upto {
        lemma_first_pid_stays(lines, found, upto - 1);
    }
}

} // verus!
