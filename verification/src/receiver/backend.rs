//! The registry of the receiving channels.
//!
//! Every operation names a channel by its index and checks the index first:
//! an index that names no channel gives `InvalidChannelIndex`, and nothing
//! changes.

use vstd::prelude::*;
use crate::receiver::gstreamer::{GStreamerPipeline, PipelineView, RECEIVER_VARIANTS};
use crate::stats_collector::{observe, CollectorState, Observation, StatsCollector, StreamStats};
use crate::supervisor::{
    ChannelState, Directive, Event, SupervisorError, SupervisorState, Termination,
};
use crate::types::{CameraConfig, CameraState, ConfigView};

verus! {

/// The number of channels of a registry made by `CameraBackend::new`.
pub const DEFAULT_CHANNELS: usize = 4;

/// The sender that a channel listens to until it is configured.
pub const DEFAULT_SENDER: &'static str = "192.168.0.105";

/// What the registry holds of one channel.
#[verifier::ext_equal]
pub struct ChannelView {
    /// The configuration that the next start will use.
    pub config: ConfigView,
    /// Whether the channel is starting or running.
    pub receiving: bool,
    /// The pipeline of the channel, unless it is idle.
    pub pipeline: Option<PipelineView>,
    /// The statistics of the current or the last run, if there was one.
    pub stats: Option<CollectorState>,
}

/// The statistics once the channel no longer records.
pub open spec fn frozen(stats: Option<CollectorState>) -> Option<CollectorState> {
    match stats {
        Some(c) => Some(CollectorState { active: false, ..c }),
        None => None,
    }
}

impl ChannelView {
    /// An idle channel that has never run.
    pub open spec fn idle(config: ConfigView) -> ChannelView {
        ChannelView { config, receiving: false, pipeline: None, stats: None }
    }

    /// Where the channel is in its life cycle.
    pub open spec fn state(self) -> ChannelState {
        match self.pipeline {
            Some(p) => p.supervisor.state,
            None => ChannelState::Idle,
        }
    }

    /// The channel with index `index` holds a pipeline exactly while it is
    /// not idle, and records statistics exactly while it is receiving.
    pub open spec fn wf(self, index: int) -> bool {
        &&& self.pipeline matches Some(p) ==> {
            &&& p.supervisor.wf()
            &&& !(p.supervisor.state is Idle)
            &&& p.camera_index == index
        }
        &&& self.receiving == (self.pipeline matches Some(p) && p.supervisor.is_running())
        &&& self.stats matches Some(c) ==> c.wf() && c.active == self.receiving && c.channel == index
    }

    /// The channel with new endpoints. A run that is in progress keeps the
    /// configuration that it was started with.
    pub open spec fn configured(
        self,
        sender_ip: Seq<char>,
        rtp_port: Seq<char>,
        fec_port: Seq<char>,
    ) -> ChannelView {
        ChannelView { config: ConfigView { sender_ip, rtp_port, fec_port }, ..self }
    }

    /// The outcome of a request to start channel `index`: an idle channel
    /// gets a pipeline with the current configuration and fresh statistics.
    pub open spec fn start(self, index: usize) -> (ChannelView, Result<Directive, SupervisorError>) {
        if !(self.state() is Idle) {
            (self, Err(SupervisorError::AlreadyRunning))
        } else {
            (
                ChannelView {
                    config: self.config,
                    receiving: true,
                    pipeline: Some(
                        PipelineView {
                            camera_index: index,
                            config: self.config,
                            supervisor: SupervisorState::idle(RECEIVER_VARIANTS).start().0,
                        },
                    ),
                    stats: Some(CollectorState::fresh(index, true)),
                },
                Ok(Directive::Launch(0)),
            )
        }
    }

    /// The outcome of a request to stop: the channel no longer receives,
    /// and its statistics stay as they are.
    pub open spec fn stop(self) -> (ChannelView, Option<Termination>) {
        match self.pipeline {
            Some(p) => (
                ChannelView {
                    receiving: false,
                    pipeline: Some(PipelineView { supervisor: p.supervisor.stop().0, ..p }),
                    stats: frozen(self.stats),
                    ..self
                },
                p.supervisor.stop().1,
            ),
            None => (self, None),
        }
    }

    /// The channel once a stop has been carried out: it is idle.
    pub open spec fn finish_stop(self, terminated: bool) -> (ChannelView, Option<SupervisorError>) {
        match self.pipeline {
            Some(p) => if p.supervisor.state is Stopping {
                (
                    ChannelView { pipeline: None, ..self },
                    p.supervisor.finish_stop(terminated).1,
                )
            } else {
                (self, None)
            },
            None => (self, None),
        }
    }

    /// The outcome of an event. A channel that goes idle by itself gives
    /// up its pipeline and keeps its statistics as they are.
    pub open spec fn after(self, event: Event) -> (ChannelView, Directive) {
        match self.pipeline {
            Some(p) => {
                let (next, directive) = p.supervisor.after(event);
                if next.state is Idle {
                    (
                        ChannelView {
                            receiving: false,
                            pipeline: None,
                            stats: frozen(self.stats),
                            ..self
                        },
                        directive,
                    )
                } else {
                    (
                        ChannelView {
                            pipeline: Some(PipelineView { supervisor: next, ..p }),
                            ..self
                        },
                        directive,
                    )
                }
            },
            None => (self, Directive::Abort),
        }
    }

    /// The channel after `observation` is recorded at time `now`.
    pub open spec fn record(self, observation: Observation, now: u64) -> ChannelView {
        match self.stats {
            Some(c) => ChannelView { stats: Some(c.record(observation, now)), ..self },
            None => self,
        }
    }

    /// The snapshot of the channel's statistics.
    pub open spec fn snapshot(self) -> Option<StreamStats> {
        match self.stats {
            Some(c) => Some(c.stats),
            None => None,
        }
    }
}

/// The registry of the receiving channels.
pub struct CameraBackend {
    cameras: Vec<CameraState>,
    pipelines: Vec<Option<GStreamerPipeline>>,
    stats_collectors: Vec<Option<StatsCollector>>,
}

/// What `pipeline` holds.
pub open spec fn pipeline_view(pipeline: Option<GStreamerPipeline>) -> Option<PipelineView> {
    match pipeline {
        Some(p) => Some(p@),
        None => None,
    }
}

/// What `collector` holds.
pub open spec fn collector_view(collector: Option<StatsCollector>) -> Option<CollectorState> {
    match collector {
        Some(c) => Some(c@),
        None => None,
    }
}

impl View for CameraBackend {
    type V = Seq<ChannelView>;

    closed spec fn view(&self) -> Seq<ChannelView> {
        Seq::new(
            self.cameras@.len(),
            |i: int|
                ChannelView {
                    config: self.cameras@[i].config@,
                    receiving: self.cameras@[i].receiving,
                    pipeline: pipeline_view(self.pipelines@[i]),
                    stats: collector_view(self.stats_collectors@[i]),
                },
        )
    }
}

/// Every channel of `channels` is well formed.
pub open spec fn channels_wf(channels: Seq<ChannelView>) -> bool {
    forall|i: int| 0 <= i < channels.len() ==> (#[trigger] channels[i]).wf(i)
}

/// The text of the media port that channel `index` listens on by default.
pub open spec fn default_rtp_port(index: int) -> Seq<char> {
    if index == 0 {
        "5000"@
    } else if index == 1 {
        "5004"@
    } else if index == 2 {
        "5008"@
    } else {
        "5012"@
    }
}

/// The text of the repair port that channel `index` listens on by default.
pub open spec fn default_fec_port(index: int) -> Seq<char> {
    if index == 0 {
        "5002"@
    } else if index == 1 {
        "5006"@
    } else if index == 2 {
        "5010"@
    } else {
        "5014"@
    }
}

/// The configuration that channel `index` has by default.
pub open spec fn default_config(index: int) -> ConfigView {
    ConfigView {
        sender_ip: DEFAULT_SENDER@,
        rtp_port: default_rtp_port(index),
        fec_port: default_fec_port(index),
    }
}

impl CameraBackend {
    /// The three lists have one entry for each channel, and every channel
    /// is well formed.
    pub closed spec fn wf(&self) -> bool {
        &&& self.pipelines@.len() == self.cameras@.len()
        &&& self.stats_collectors@.len() == self.cameras@.len()
        &&& channels_wf(self@)
    }

    fn push_channel(&mut self, camera: CameraState)
        requires
            old(self).wf(),
            !camera.receiving,
        ensures
            final(self).wf(),
            final(self)@ == old(self)@.push(ChannelView::idle(camera.config@)),
    {
        self.cameras.push(camera);
        self.pipelines.push(None);
        self.stats_collectors.push(None);
        assert(self@ =~= old(self)@.push(ChannelView::idle(camera.config@)));
    }

    /// A registry of four idle channels with the default endpoints.
    pub fn new() -> (r: CameraBackend)
        ensures
            r.wf(),
            r@.len() == DEFAULT_CHANNELS,
            forall|i: int| 0 <= i < r@.len() ==> r@[i] == ChannelView::idle(default_config(i)),
    {
        let mut r = CameraBackend {
            cameras: Vec::new(),
            pipelines: Vec::new(),
            stats_collectors: Vec::new(),
        };
        assert(r@ =~= Seq::<ChannelView>::empty());
        r.push_channel(CameraState::new(DEFAULT_SENDER, "5000", "5002"));
        r.push_channel(CameraState::new(DEFAULT_SENDER, "5004", "5006"));
        r.push_channel(CameraState::new(DEFAULT_SENDER, "5008", "5010"));
        r.push_channel(CameraState::new(DEFAULT_SENDER, "5012", "5014"));
        r
    }

    /// A registry of idle channels, one for each configuration given.
    pub fn with_configs(configs: Vec<CameraConfig>) -> (r: CameraBackend)
        ensures
            r.wf(),
            r@.len() == configs@.len(),
            forall|i: int| 0 <= i < r@.len() ==> r@[i] == ChannelView::idle(configs@[i]@),
    {
        let mut r = CameraBackend {
            cameras: Vec::new(),
            pipelines: Vec::new(),
            stats_collectors: Vec::new(),
        };
        assert(r@ =~= Seq::<ChannelView>::empty());
        let mut i: usize = 0;
        while i < configs.len()
            invariant
                i <= configs@.len(),
                r.wf(),
                r@.len() == i,
                forall|j: int| 0 <= j < i ==> r@[j] == ChannelView::idle(configs@[j]@),
            decreases configs@.len() - i,
        {
            r.push_channel(CameraState { config: configs[i].clone(), receiving: false });
            i += 1;
        }
        r
    }

    /// The number of channels.
    pub fn channel_count(&self) -> (r: usize)
        ensures
            r == self@.len(),
    {
        self.cameras.len()
    }

    /// Gives channel `camera_index` new endpoints, for its next start.
    pub fn update_camera_config(
        &mut self,
        camera_index: usize,
        sender_ip: &str,
        rtp_port: &str,
        fec_port: &str,
    ) -> (r: Result<(), SupervisorError>)
        requires
            old(self).wf(),
        ensures
            final(self).wf(),
            camera_index >= old(self)@.len() ==> r == Err::<(), SupervisorError>(
                SupervisorError::InvalidChannelIndex,
            ) && final(self)@ == old(self)@,
            camera_index < old(self)@.len() ==> r is Ok && final(self)@ == old(self)@.update(
                camera_index as int,
                old(self)@[camera_index as int].configured(sender_ip@, rtp_port@, fec_port@),
            ),
    {
        if camera_index >= self.cameras.len() {
            return Err(SupervisorError::InvalidChannelIndex);
        }
        let camera = &mut self.cameras[camera_index];
        camera.config.sender_ip = sender_ip.to_owned();
        camera.config.rtp_port = rtp_port.to_owned();
        camera.config.fec_port = fec_port.to_owned();
        assert(self@ =~= old(self)@.update(
            camera_index as int,
            old(self)@[camera_index as int].configured(sender_ip@, rtp_port@, fec_port@),
        ));
        assert(old(self)@[camera_index as int].wf(camera_index as int));
        Ok(())
    }

    /// The configuration that the next start of channel `camera_index`
    /// will use.
    pub fn get_camera_config(&self, camera_index: usize) -> (r: Result<
        &CameraConfig,
        SupervisorError,
    >)
        requires
            self.wf(),
        ensures
            camera_index >= self@.len() ==> r == Err::<&CameraConfig, SupervisorError>(
                SupervisorError::InvalidChannelIndex,
            ),
            camera_index < self@.len() ==> (r matches Ok(config) && config@
                == self@[camera_index as int].config),
    {
        if camera_index >= self.cameras.len() {
            return Err(SupervisorError::InvalidChannelIndex);
        }
        Ok(&self.cameras[camera_index].config)
    }

    /// Whether channel `camera_index` is starting or running.
    pub fn is_camera_running(&self, camera_index: usize) -> (r: Result<bool, SupervisorError>)
        requires
            self.wf(),
        ensures
            camera_index >= self@.len() ==> r == Err::<bool, SupervisorError>(
                SupervisorError::InvalidChannelIndex,
            ),
            camera_index < self@.len() ==> r == Ok::<bool, SupervisorError>(
                self@[camera_index as int].receiving,
            ) && self@[camera_index as int].receiving == (self@[camera_index as int].state()
                is Starting || self@[camera_index as int].state() is Running),
    {
        if camera_index >= self.cameras.len() {
            return Err(SupervisorError::InvalidChannelIndex);
        }
        assert(self@[camera_index as int].wf(camera_index as int));
        Ok(self.cameras[camera_index].receiving)
    }

    /// Where channel `camera_index` is in its life cycle.
    pub fn channel_state(&self, camera_index: usize) -> (r: Result<ChannelState, SupervisorError>)
        requires
            self.wf(),
        ensures
            camera_index >= self@.len() ==> r == Err::<ChannelState, SupervisorError>(
                SupervisorError::InvalidChannelIndex,
            ),
            camera_index < self@.len() ==> r == Ok::<ChannelState, SupervisorError>(
                self@[camera_index as int].state(),
            ),
    {
        if camera_index >= self.cameras.len() {
            return Err(SupervisorError::InvalidChannelIndex);
        }
        match &self.pipelines[camera_index] {
            Some(pipeline) => Ok(pipeline.state()),
            None => Ok(ChannelState::Idle),
        }
    }

    /// The description that the engine of channel `camera_index` is
    /// launched with; `None` while the channel is idle.
    pub fn pipeline_command(&self, camera_index: usize) -> (r: Result<
        Option<String>,
        SupervisorError,
    >)
        requires
            self.wf(),
        ensures
            camera_index >= self@.len() ==> r == Err::<Option<String>, SupervisorError>(
                SupervisorError::InvalidChannelIndex,
            ),
            camera_index < self@.len() ==> (r matches Ok(command) && match self@[camera_index as int].pipeline {
                Some(p) => (command matches Some(text) && text@
                    == crate::pipeline::receiver_pipeline_text(p.camera_index, p.config)),
                None => command is None,
            }),
    {
        if camera_index >= self.cameras.len() {
            return Err(SupervisorError::InvalidChannelIndex);
        }
        match &self.pipelines[camera_index] {
            Some(pipeline) => Ok(Some(pipeline.command())),
            None => Ok(None),
        }
    }

    /// A copy of the statistics of channel `camera_index`; `None` when the
    /// channel has never been started.
    pub fn get_camera_stats(&self, camera_index: usize) -> (r: Result<
        Option<StreamStats>,
        SupervisorError,
    >)
        requires
            self.wf(),
        ensures
            camera_index >= self@.len() ==> r == Err::<Option<StreamStats>, SupervisorError>(
                SupervisorError::InvalidChannelIndex,
            ),
            camera_index < self@.len() ==> r == Ok::<Option<StreamStats>, SupervisorError>(
                self@[camera_index as int].snapshot(),
            ),
            r matches Ok(Some(stats)) ==> stats.consistent(),
    {
        if camera_index >= self.cameras.len() {
            return Err(SupervisorError::InvalidChannelIndex);
        }
        assert(self@[camera_index as int].wf(camera_index as int));
        match &self.stats_collectors[camera_index] {
            Some(collector) => Ok(Some(collector.get_stats())),
            None => Ok(None),
        }
    }

    /// Reads one diagnostic line of channel `camera_index` and records
    /// what it tells, at time `now`.
    pub fn parse_debug_line(&mut self, camera_index: usize, line: &str, now: u64) -> (r: Result<
        (),
        SupervisorError,
    >)
        requires
            old(self).wf(),
        ensures
            final(self).wf(),
            camera_index >= old(self)@.len() ==> r == Err::<(), SupervisorError>(
                SupervisorError::InvalidChannelIndex,
            ) && final(self)@ == old(self)@,
            camera_index < old(self)@.len() ==> r is Ok && final(self)@ == old(self)@.update(
                camera_index as int,
                old(self)@[camera_index as int].record(observe(line@), now),
            ),
    {
        if camera_index >= self.cameras.len() {
            return Err(SupervisorError::InvalidChannelIndex);
        }
        assert(old(self)@[camera_index as int].wf(camera_index as int));
        match &mut self.stats_collectors[camera_index] {
            Some(collector) => {
                collector.parse_debug_line(line, now);
            },
            None => {},
        }
        assert(self@ =~= old(self)@.update(
            camera_index as int,
            old(self)@[camera_index as int].record(observe(line@), now),
        ));
        assert forall|i: int| 0 <= i < self@.len() implies (#[trigger] self@[i]).wf(i) by {
            assert(old(self)@[i].wf(i));
        }
        Ok(())
    }

    /// Asks channel `camera_index` to start. An idle channel gets a
    /// pipeline made from its configuration, its statistics are reset, and
    /// the caller is told to launch the first configuration. A channel that
    /// is not idle is left as it is, with `AlreadyRunning`.
    pub fn start_camera(&mut self, camera_index: usize) -> (r: Result<Directive, SupervisorError>)
        requires
            old(self).wf(),
        ensures
            final(self).wf(),
            camera_index >= old(self)@.len() ==> r == Err::<Directive, SupervisorError>(
                SupervisorError::InvalidChannelIndex,
            ) && final(self)@ == old(self)@,
            camera_index < old(self)@.len() ==> r == old(self)@[camera_index as int].start(
                camera_index,
            ).1 && final(self)@ == old(self)@.update(
                camera_index as int,
                old(self)@[camera_index as int].start(camera_index).0,
            ),
    {
        if camera_index >= self.cameras.len() {
            return Err(SupervisorError::InvalidChannelIndex);
        }
        assert(old(self)@[camera_index as int].wf(camera_index as int));
        if self.pipelines[camera_index].is_some() {
            assert(self@ =~= old(self)@.update(
                camera_index as int,
                old(self)@[camera_index as int],
            ));
            return Err(SupervisorError::AlreadyRunning);
        }
        let rtp_port = self.cameras[camera_index].config.rtp_port_number();
        let fec_port = self.cameras[camera_index].config.fec_port_number();
        let mut collector = StatsCollector::new(camera_index, rtp_port, fec_port);
        collector.start();
        let mut pipeline = GStreamerPipeline::new(
            camera_index,
            self.cameras[camera_index].config.clone(),
        );
        let started = pipeline.start();
        self.stats_collectors[camera_index] = Some(collector);
        self.pipelines[camera_index] = Some(pipeline);
        self.cameras[camera_index].receiving = true;
        assert(self@ =~= old(self)@.update(
            camera_index as int,
            old(self)@[camera_index as int].start(camera_index).0,
        ));
        assert forall|i: int| 0 <= i < self@.len() implies (#[trigger] self@[i]).wf(i) by {
            assert(old(self)@[i].wf(i));
        }
        started
    }

    /// Asks channel `camera_index` to stop, and tells how its process is to
    /// be ended; `None` when the channel is idle. From then on the channel
    /// is not running and its statistics stay as they are. The caller ends
    /// the process, waits for the channel's tasks, and calls `finish_stop`.
    pub fn stop_camera(&mut self, camera_index: usize) -> (r: Result<
        Option<Termination>,
        SupervisorError,
    >)
        requires
            old(self).wf(),
        ensures
            final(self).wf(),
            camera_index >= old(self)@.len() ==> r == Err::<Option<Termination>, SupervisorError>(
                SupervisorError::InvalidChannelIndex,
            ) && final(self)@ == old(self)@,
            camera_index < old(self)@.len() ==> r == Ok::<Option<Termination>, SupervisorError>(
                old(self)@[camera_index as int].stop().1,
            ) && final(self)@ == old(self)@.update(
                camera_index as int,
                old(self)@[camera_index as int].stop().0,
            ) && !final(self)@[camera_index as int].receiving,
    {
        if camera_index >= self.cameras.len() {
            return Err(SupervisorError::InvalidChannelIndex);
        }
        assert(old(self)@[camera_index as int].wf(camera_index as int));
        let plan = match &mut self.pipelines[camera_index] {
            Some(pipeline) => pipeline.stop(),
            None => {
                assert(self@ =~= old(self)@.update(
                    camera_index as int,
                    old(self)@[camera_index as int],
                ));
                return Ok(None);
            },
        };
        self.cameras[camera_index].receiving = false;
        match &mut self.stats_collectors[camera_index] {
            Some(collector) => {
                collector.stop();
            },
            None => {},
        }
        assert(self@ =~= old(self)@.update(
            camera_index as int,
            old(self)@[camera_index as int].stop().0,
        ));
        assert forall|i: int| 0 <= i < self@.len() implies (#[trigger] self@[i]).wf(i) by {
            assert(old(self)@[i].wf(i));
        }
        Ok(plan)
    }

    /// Ends the stop of channel `camera_index`: the channel is idle and
    /// has no pipeline. `terminated` tells whether the process could be
    /// ended; a failure is returned, and the channel is idle all the same.
    pub fn finish_stop(&mut self, camera_index: usize, terminated: bool) -> (r: Result<
        Option<SupervisorError>,
        SupervisorError,
    >)
        requires
            old(self).wf(),
        ensures
            final(self).wf(),
            camera_index >= old(self)@.len() ==> r == Err::<
                Option<SupervisorError>,
                SupervisorError,
            >(SupervisorError::InvalidChannelIndex) && final(self)@ == old(self)@,
            camera_index < old(self)@.len() ==> r == Ok::<Option<SupervisorError>, SupervisorError>(
                old(self)@[camera_index as int].finish_stop(terminated).1,
            ) && final(self)@ == old(self)@.update(
                camera_index as int,
                old(self)@[camera_index as int].finish_stop(terminated).0,
            ),
    {
        if camera_index >= self.cameras.len() {
            return Err(SupervisorError::InvalidChannelIndex);
        }
        assert(old(self)@[camera_index as int].wf(camera_index as int));
        let stopping = match &self.pipelines[camera_index] {
            Some(pipeline) => match pipeline.state() {
                ChannelState::Stopping => true,
                _ => false,
            },
            None => false,
        };
        if !stopping {
            assert(self@ =~= old(self)@.update(
                camera_index as int,
                old(self)@[camera_index as int],
            ));
            return Ok(None);
        }
        let notice = match &mut self.pipelines[camera_index] {
            Some(pipeline) => pipeline.finish_stop(terminated),
            None => None,
        };
        self.pipelines[camera_index] = None;
        assert(self@ =~= old(self)@.update(
            camera_index as int,
            old(self)@[camera_index as int].finish_stop(terminated).0,
        ));
        assert forall|i: int| 0 <= i < self@.len() implies (#[trigger] self@[i]).wf(i) by {
            assert(old(self)@[i].wf(i));
        }
        Ok(notice)
    }

    /// Takes an event from the task that runs the process of channel
    /// `camera_index`, and tells what the task is to do next. A channel
    /// that goes idle gives up its pipeline.
    pub fn advance(&mut self, camera_index: usize, event: Event) -> (r: Result<
        Directive,
        SupervisorError,
    >)
        requires
            old(self).wf(),
        ensures
            final(self).wf(),
            camera_index >= old(self)@.len() ==> r == Err::<Directive, SupervisorError>(
                SupervisorError::InvalidChannelIndex,
            ) && final(self)@ == old(self)@,
            camera_index < old(self)@.len() ==> r == Ok::<Directive, SupervisorError>(
                old(self)@[camera_index as int].after(event).1,
            ) && final(self)@ == old(self)@.update(
                camera_index as int,
                old(self)@[camera_index as int].after(event).0,
            ),
    {
        if camera_index >= self.cameras.len() {
            return Err(SupervisorError::InvalidChannelIndex);
        }
        assert(old(self)@[camera_index as int].wf(camera_index as int));
        let (directive, idle) = match &mut self.pipelines[camera_index] {
            Some(pipeline) => {
                let directive = pipeline.advance(event);
                let idle = match pipeline.state() {
                    ChannelState::Idle => true,
                    _ => false,
                };
                (directive, idle)
            },
            None => {
                assert(self@ =~= old(self)@.update(
                    camera_index as int,
                    old(self)@[camera_index as int],
                ));
                return Ok(Directive::Abort);
            },
        };
        if idle {
            self.pipelines[camera_index] = None;
            self.cameras[camera_index].receiving = false;
            match &mut self.stats_collectors[camera_index] {
                Some(collector) => {
                    collector.stop();
                },
                None => {},
            }
        }
        assert(self@ =~= old(self)@.update(
            camera_index as int,
            old(self)@[camera_index as int].after(event).0,
        ));
        assert forall|i: int| 0 <= i < self@.len() implies (#[trigger] self@[i]).wf(i) by {
            assert(old(self)@[i].wf(i));
        }
        Ok(directive)
    }

    /// Stops channel `camera_index` if it is running, and starts it if it
    /// is not.
    pub fn toggle_camera(&mut self, camera_index: usize) -> (r: Result<Toggled, SupervisorError>)
        requires
            old(self).wf(),
        ensures
            final(self).wf(),
            camera_index >= old(self)@.len() ==> r == Err::<Toggled, SupervisorError>(
                SupervisorError::InvalidChannelIndex,
            ) && final(self)@ == old(self)@,
            camera_index < old(self)@.len() ==> (r, final(self)@) == toggled(
                old(self)@,
                camera_index,
            ),
    {
        match self.is_camera_running(camera_index) {
            Err(error) => Err(error),
            Ok(true) => match self.stop_camera(camera_index) {
                Ok(plan) => Ok(Toggled::Stopping(plan)),
                Err(error) => Err(error),
            },
            Ok(false) => match self.start_camera(camera_index) {
                Ok(directive) => Ok(Toggled::Started(directive)),
                Err(error) => Err(error),
            },
        }
    }

    /// Whether any channel is starting or running.
    pub fn any_running(&self) -> (r: bool)
        requires
            self.wf(),
        ensures
            r == exists|i: int| 0 <= i < self@.len() && (#[trigger] self@[i]).receiving,
    {
        let mut i: usize = 0;
        while i < self.cameras.len()
            invariant
                i <= self.cameras@.len(),
                self.cameras@.len() == self@.len(),
                forall|j: int| 0 <= j < i ==> !(#[trigger] self@[j]).receiving,
            decreases self.cameras@.len() - i,
        {
            if self.cameras[i].receiving {
                assert(self@[i as int].receiving);
                return true;
            }
            i += 1;
        }
        false
    }

    /// Asks every channel to stop, and tells for each how its process is
    /// to be ended; `None` for a channel that was idle. Afterwards no
    /// channel is running. The caller carries out each stop and calls
    /// `finish_stop` for it, whether or not the one before went well.
    pub fn shutdown(&mut self) -> (r: Vec<Option<Termination>>)
        requires
            old(self).wf(),
        ensures
            final(self).wf(),
            final(self)@.len() == old(self)@.len(),
            r@.len() == old(self)@.len(),
            forall|i: int|
                0 <= i < old(self)@.len() ==> (#[trigger] final(self)@[i], r@[i]) == old(
                    self,
                )@[i].stop(),
            forall|i: int| 0 <= i < old(self)@.len() ==> !(#[trigger] final(self)@[i]).receiving,
    {
        let mut plans: Vec<Option<Termination>> = Vec::new();
        let count = self.cameras.len();
        let mut i: usize = 0;
        while i < count
            invariant
                i <= count,
                count == old(self)@.len(),
                self.wf(),
                self@.len() == old(self)@.len(),
                plans@.len() == i,
                forall|j: int| 0 <= j < i ==> (#[trigger] self@[j], plans@[j]) == old(self)@[j].stop(),
                forall|j: int| i <= j < count ==> #[trigger] self@[j] == old(self)@[j],
            decreases count - i,
        {
            let plan = match self.stop_camera(i) {
                Ok(plan) => plan,
                Err(_) => None,
            };
            plans.push(plan);
            i += 1;
        }
        plans
    }
}

/// What a toggle did.
#[derive(Clone, Copy, Debug, PartialEq, Eq)]
pub enum Toggled {
    /// The channel was asked to start, and this is to be done next.
    Started(Directive),
    /// The channel was asked to stop, and its process is to be ended so.
    Stopping(Option<Termination>),
}

/// The outcome of a toggle of channel `index`: a channel that is starting
/// or running is stopped, any other is started.
pub open spec fn toggled(channels: Seq<ChannelView>, index: usize) -> (
    Result<Toggled, SupervisorError>,
    Seq<ChannelView>,
) {
    let channel = channels[index as int];
    if channel.receiving {
        (
            Ok(Toggled::Stopping(channel.stop().1)),
            channels.update(index as int, channel.stop().0),
        )
    } else {
        (
            match channel.start(index).1 {
                Ok(directive) => Ok(Toggled::Started(directive)),
                Err(error) => Err(error),
            },
            channels.update(index as int, channel.start(index).0),
        )
    }
}

/// Every channel of a well-formed registry is well formed.
pub proof fn lemma_registry_channels_wf(backend: &CameraBackend)
    requires
        backend.wf(),
    ensures
        channels_wf(backend@),
{
}

/// A well-formed channel holds a pipeline exactly while it is not idle,
/// and is receiving exactly while it is starting or running: an idle
/// channel holds no pipeline, and so no process.
pub proof fn lemma_idle_channel_holds_nothing(channel: ChannelView, index: int)
    requires
        channel.wf(index),
    ensures
        channel.state() is Idle <==> channel.pipeline is None,
        channel.receiving <==> channel.state() is Starting || channel.state() is Running,
        channel.state() is Idle ==> !channel.receiving,
{
}

/// A start of a channel that is not idle fails with `AlreadyRunning` and
/// leaves the channel as it is: its pipeline, its statistics and its
/// configuration are untouched.
pub proof fn lemma_start_of_busy_channel(channel: ChannelView, index: usize)
    requires
        !(channel.state() is Idle),
    ensures
        channel.start(index) == (
            channel,
            Err::<Directive, SupervisorError>(SupervisorError::AlreadyRunning),
        ),
{
}

/// A start of an idle channel succeeds; afterwards the channel is
/// starting, and its statistics are zero.
pub proof fn lemma_start_resets_statistics(channel: ChannelView, index: usize)
    requires
        channel.state() is Idle,
    ensures
        channel.start(index).1 == Ok::<Directive, SupervisorError>(Directive::Launch(0)),
        channel.start(index).0.state() is Starting,
        channel.start(index).0.receiving,
        channel.start(index).0.snapshot() == Some(StreamStats::zero()),
        channel.start(index).0.wf(index as int),
{
}

/// As soon as a stop is requested the channel is not running, and once
/// the stop is finished the channel is idle and holds no pipeline, and so
/// no process. Its statistics are those of the moment of the stop.
pub proof fn lemma_stop_is_complete(channel: ChannelView, index: int, terminated: bool)
    requires
        channel.wf(index),
    ensures
        !channel.stop().0.receiving,
        channel.stop().0.wf(index),
        ({
            let done = channel.stop().0.finish_stop(terminated).0;
            &&& done.state() is Idle
            &&& done.pipeline is None
            &&& !done.receiving
            &&& done.snapshot() == channel.snapshot()
            &&& done.wf(index)
        }),
{
}

/// A channel that is not receiving records nothing: after a stop, or
/// after the process has ended by itself, the statistics stay as they are.
pub proof fn lemma_idle_channel_records_nothing(
    channel: ChannelView,
    index: int,
    observation: Observation,
    now: u64,
)
    requires
        channel.wf(index),
        !channel.receiving,
    ensures
        channel.record(observation, now) == channel,
{
    match channel.stats {
        Some(c) => {
            assert(c.record(observation, now) == c);
        },
        None => {},
    }
}

/// Every step keeps a channel well formed, and a channel whose task is
/// told to finish is idle afterwards.
pub proof fn lemma_event_keeps_channel_well_formed(channel: ChannelView, index: int, event: Event)
    requires
        channel.wf(index),
    ensures
        channel.after(event).0.wf(index),
        channel.after(event).1 is Finished ==> channel.after(event).0.state() is Idle
            && !channel.after(event).0.receiving,
{
}

/// Whatever is recorded, no reader of a channel's statistics sees the
/// packets sent differ from those received and lost together, as long as
/// their sum fits the counter.
pub proof fn lemma_channel_snapshot_never_torn(
    channel: ChannelView,
    index: int,
    observation: Observation,
    now: u64,
)
    requires
        channel.wf(index),
    ensures
        channel.record(observation, now).wf(index),
        channel.record(observation, now).snapshot() matches Some(stats) ==> stats.consistent()
            && (stats.packets_received + stats.packets_lost <= u32::MAX ==> stats.packets_sent
            == stats.packets_received + stats.packets_lost),
{
    match channel.stats {
        Some(c) => {
            crate::stats_collector::lemma_snapshot_never_torn(c, observation, now);
        },
        None => {},
    }
}

} // verus!
