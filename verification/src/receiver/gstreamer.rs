//! The engine pipeline of one receiving channel.

use vstd::prelude::*;
use crate::pipeline::{receiver_pipeline, receiver_pipeline_text};
use crate::supervisor::{
    ChannelState, ChannelSupervisor, Directive, Event, SupervisorError, SupervisorState,
    Termination,
};
use crate::types::{CameraConfig, ConfigView};

verus! {

/// The number of configurations that a receiver tries.
pub const RECEIVER_VARIANTS: usize = 1;

/// The pipeline of one receiving channel: the configuration it was made
/// with, which stays as it is for the whole run, and its supervisor.
pub struct GStreamerPipeline {
    camera_index: usize,
    config: CameraConfig,
    supervisor: ChannelSupervisor,
}

/// What a `GStreamerPipeline` holds.
pub struct PipelineView {
    pub camera_index: usize,
    pub config: ConfigView,
    pub supervisor: SupervisorState,
}

impl View for GStreamerPipeline {
    type V = PipelineView;

    closed spec fn view(&self) -> PipelineView {
        PipelineView {
            camera_index: self.camera_index,
            config: self.config@,
            supervisor: self.supervisor@,
        }
    }
}

impl GStreamerPipeline {
    /// An idle pipeline for channel `camera_index`.
    pub fn new(camera_index: usize, config: CameraConfig) -> (r: GStreamerPipeline)
        ensures
            r@ == (PipelineView {
                camera_index,
                config: config@,
                supervisor: SupervisorState::idle(RECEIVER_VARIANTS),
            }),
            r@.supervisor.wf(),
    {
        GStreamerPipeline {
            camera_index,
            config,
            supervisor: ChannelSupervisor::new(RECEIVER_VARIANTS),
        }
    }

    /// Where the pipeline is in its life cycle.
    pub fn state(&self) -> (r: ChannelState)
        ensures
            r == self@.supervisor.state,
    {
        self.supervisor.state()
    }

    /// Whether the pipeline is starting or running.
    pub fn is_running(&self) -> (r: bool)
        ensures
            r == self@.supervisor.is_running(),
    {
        self.supervisor.is_running()
    }

    /// The supervisor of the pipeline.
    pub fn supervisor(&self) -> (r: ChannelSupervisor)
        ensures
            r@ == self@.supervisor,
    {
        self.supervisor
    }

    /// The description that is handed to the engine.
    pub fn command(&self) -> (r: String)
        ensures
            r@ == receiver_pipeline_text(self@.camera_index, self@.config),
    {
        receiver_pipeline(self.camera_index, &self.config)
    }

    /// Asks the pipeline to start.
    pub fn start(&mut self) -> (r: Result<Directive, SupervisorError>)
        ensures
            (final(self)@.supervisor, r) == old(self)@.supervisor.start(),
            final(self)@.camera_index == old(self)@.camera_index,
            final(self)@.config == old(self)@.config,
            old(self)@.supervisor.wf() ==> final(self)@.supervisor.wf(),
    {
        self.supervisor.start()
    }

    /// Asks the pipeline to stop, and tells how its process is to be ended.
    pub fn stop(&mut self) -> (r: Option<Termination>)
        ensures
            (final(self)@.supervisor, r) == old(self)@.supervisor.stop(),
            final(self)@.camera_index == old(self)@.camera_index,
            final(self)@.config == old(self)@.config,
            old(self)@.supervisor.wf() ==> final(self)@.supervisor.wf(),
    {
        self.supervisor.stop()
    }

    /// Ends a stop.
    pub fn finish_stop(&mut self, terminated: bool) -> (r: Option<SupervisorError>)
        ensures
            (final(self)@.supervisor, r) == old(self)@.supervisor.finish_stop(terminated),
            final(self)@.camera_index == old(self)@.camera_index,
            final(self)@.config == old(self)@.config,
            old(self)@.supervisor.wf() ==> final(self)@.supervisor.wf(),
    {
        self.supervisor.finish_stop(terminated)
    }

    /// Takes an event from the task that runs the process.
    pub fn advance(&mut self, event: Event) -> (r: Directive)
        ensures
            (final(self)@.supervisor, r) == old(self)@.supervisor.after(event),
            final(self)@.camera_index == old(self)@.camera_index,
            final(self)@.config == old(self)@.config,
            old(self)@.supervisor.wf() ==> final(self)@.supervisor.wf(),
    {
        self.supervisor.advance(event)
    }
}

} // verus!
