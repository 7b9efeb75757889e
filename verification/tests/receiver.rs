use stream_supervisor::receiver::backend::{CameraBackend, Toggled};
use stream_supervisor::receiver::gstreamer::GStreamerPipeline;
use stream_supervisor::stats_collector::StreamStats;
use stream_supervisor::supervisor::{
    ChannelState, Directive, Event, ExitState, SupervisorError, Termination,
};
use stream_supervisor::types::{CameraConfig, CameraState};

fn run(backend: &mut CameraBackend, index: usize, launcher: u32, worker: Option<u32>) {
    assert_eq!(backend.start_camera(index), Ok(Directive::Launch(0)));
    assert_eq!(backend.advance(index, Event::Spawned(launcher)), Ok(Directive::AwaitWarmup));
    assert_eq!(
        backend.advance(index, Event::WarmedUp(ExitState::Running)),
        Ok(Directive::ResolveWorker(launcher))
    );
    assert_eq!(backend.advance(index, Event::WorkerResolved(worker)), Ok(Directive::Monitor));
}

#[test]
fn camera_state_starts_idle() {
    let state = CameraState::new("192.168.0.105", "5000", "5002");
    assert_eq!(state.config.sender_ip, "192.168.0.105");
    assert_eq!(state.config.rtp_port, "5000");
    assert_eq!(state.config.fec_port, "5002");
    assert!(!state.receiving);
}

#[test]
fn registry_has_four_default_channels() {
    let backend = CameraBackend::new();
    assert_eq!(backend.channel_count(), 4);
    let ports = [("5000", "5002"), ("5004", "5006"), ("5008", "5010"), ("5012", "5014")];
    for i in 0..4 {
        let config = backend.get_camera_config(i).unwrap();
        assert_eq!(config.sender_ip, "192.168.0.105");
        assert_eq!(config.rtp_port, ports[i].0);
        assert_eq!(config.fec_port, ports[i].1);
        assert_eq!(backend.is_camera_running(i), Ok(false));
        assert_eq!(backend.get_camera_stats(i), Ok(None));
        assert_eq!(backend.channel_state(i), Ok(ChannelState::Idle));
        assert_eq!(backend.pipeline_command(i), Ok(None));
    }
    assert!(!backend.any_running());
}

#[test]
fn registry_of_any_size() {
    let configs: Vec<CameraConfig> = (0..7)
        .map(|i| CameraConfig {
            sender_ip: format!("10.0.0.{}", i),
            rtp_port: format!("{}", 7000 + i),
            fec_port: format!("{}", 8000 + i),
        })
        .collect();
    let mut backend = CameraBackend::with_configs(configs);
    assert_eq!(backend.channel_count(), 7);
    assert_eq!(backend.get_camera_config(6).unwrap().sender_ip, "10.0.0.6");
    assert_eq!(backend.start_camera(6), Ok(Directive::Launch(0)));
    assert_eq!(backend.start_camera(7), Err(SupervisorError::InvalidChannelIndex));
}

#[test]
fn every_operation_rejects_a_bad_index() {
    let mut backend = CameraBackend::new();
    run(&mut backend, 1, 10, Some(11));
    backend.parse_debug_line(1, "received-packets: 3", 1).unwrap();
    for bad in [4usize, 5, usize::MAX] {
        let e = SupervisorError::InvalidChannelIndex;
        assert_eq!(backend.update_camera_config(bad, "a", "b", "c"), Err(e));
        assert_eq!(backend.start_camera(bad), Err(e));
        assert_eq!(backend.stop_camera(bad), Err(e));
        assert_eq!(backend.finish_stop(bad, true), Err(e));
        assert_eq!(backend.toggle_camera(bad), Err(e));
        assert_eq!(backend.advance(bad, Event::SpawnFailed), Err(e));
        assert_eq!(backend.is_camera_running(bad), Err(e));
        assert_eq!(backend.channel_state(bad), Err(e));
        assert_eq!(backend.get_camera_stats(bad), Err(e));
        assert_eq!(backend.pipeline_command(bad), Err(e));
        assert_eq!(backend.parse_debug_line(bad, "received-packets: 9", 2), Err(e));
        assert!(backend.get_camera_config(bad).is_err());
    }
    assert_eq!(backend.is_camera_running(1), Ok(true));
    assert_eq!(backend.get_camera_stats(1).unwrap().unwrap().packets_received, 3);
    for i in [0usize, 2, 3] {
        assert_eq!(backend.is_camera_running(i), Ok(false));
        assert_eq!(backend.get_camera_stats(i), Ok(None));
    }
    assert_eq!(backend.get_camera_config(0).unwrap().sender_ip, "192.168.0.105");
}

#[test]
fn start_on_a_running_channel_leaves_the_run_untouched() {
    let mut backend = CameraBackend::new();
    run(&mut backend, 0, 10, Some(11));
    backend.parse_debug_line(0, "received-packets: 3", 1).unwrap();
    let command = backend.pipeline_command(0).unwrap();
    let stats = backend.get_camera_stats(0).unwrap();
    assert_eq!(backend.start_camera(0), Err(SupervisorError::AlreadyRunning));
    assert_eq!(backend.channel_state(0), Ok(ChannelState::Running));
    assert_eq!(backend.get_camera_stats(0).unwrap(), stats);
    assert_eq!(backend.pipeline_command(0).unwrap(), command);
    assert_eq!(backend.stop_camera(0), Ok(Some(Termination::ById(11))));
}

#[test]
fn start_resets_the_statistics() {
    let mut backend = CameraBackend::new();
    run(&mut backend, 0, 10, None);
    backend.parse_debug_line(0, "received-packets: 3", 1).unwrap();
    backend.stop_camera(0).unwrap();
    backend.finish_stop(0, true).unwrap();
    assert_eq!(backend.get_camera_stats(0).unwrap().unwrap().packets_received, 3);
    assert_eq!(backend.start_camera(0), Ok(Directive::Launch(0)));
    assert_eq!(backend.get_camera_stats(0), Ok(Some(StreamStats::new())));
}

#[test]
fn stop_is_complete_when_it_is_finished() {
    let mut backend = CameraBackend::new();
    run(&mut backend, 3, 10, None);
    assert_eq!(backend.stop_camera(3), Ok(Some(Termination::ByName)));
    assert_eq!(backend.is_camera_running(3), Ok(false));
    assert_eq!(backend.channel_state(3), Ok(ChannelState::Stopping));
    assert_eq!(backend.advance(3, Event::Polled(ExitState::Running)), Ok(Directive::Abort));
    assert_eq!(backend.finish_stop(3, true), Ok(None));
    assert_eq!(backend.is_camera_running(3), Ok(false));
    assert_eq!(backend.channel_state(3), Ok(ChannelState::Idle));
    assert_eq!(backend.pipeline_command(3), Ok(None));
    assert_eq!(backend.stop_camera(3), Ok(None));
    assert_eq!(backend.finish_stop(3, true), Ok(None));
}

#[test]
fn statistics_are_frozen_after_a_stop() {
    let mut backend = CameraBackend::new();
    run(&mut backend, 0, 10, None);
    backend.parse_debug_line(0, "lost-packets: 8", 1).unwrap();
    let before = backend.get_camera_stats(0).unwrap();
    backend.stop_camera(0).unwrap();
    backend.parse_debug_line(0, "lost-packets: 9", 2).unwrap();
    assert_eq!(backend.get_camera_stats(0).unwrap(), before);
    backend.finish_stop(0, false).unwrap();
    backend.parse_debug_line(0, "lost-packets: 10", 3).unwrap();
    assert_eq!(backend.get_camera_stats(0).unwrap(), before);
}

#[test]
fn a_failed_termination_is_reported_and_the_channel_is_idle() {
    let mut backend = CameraBackend::new();
    run(&mut backend, 0, 10, None);
    backend.stop_camera(0).unwrap();
    assert_eq!(backend.finish_stop(0, false), Ok(Some(SupervisorError::ProcessTerminationFailed)));
    assert_eq!(backend.channel_state(0), Ok(ChannelState::Idle));
    assert_eq!(backend.start_camera(0), Ok(Directive::Launch(0)));
}

#[test]
fn a_failed_start_leaves_the_channel_idle() {
    let mut backend = CameraBackend::new();
    assert_eq!(backend.start_camera(2), Ok(Directive::Launch(0)));
    assert_eq!(backend.is_camera_running(2), Ok(true));
    assert_eq!(
        backend.advance(2, Event::SpawnFailed),
        Ok(Directive::Finished(Some(SupervisorError::SpawnFailed)))
    );
    assert_eq!(backend.channel_state(2), Ok(ChannelState::Idle));
    assert_eq!(backend.is_camera_running(2), Ok(false));
    assert_eq!(backend.start_camera(2), Ok(Directive::Launch(0)));
    assert_eq!(backend.advance(2, Event::Spawned(5)), Ok(Directive::AwaitWarmup));
    assert_eq!(
        backend.advance(2, Event::WarmedUp(ExitState::Exited(1))),
        Ok(Directive::Finished(Some(SupervisorError::AllVariantsFailed)))
    );
    assert_eq!(backend.channel_state(2), Ok(ChannelState::Idle));
    assert_eq!(backend.pipeline_command(2), Ok(None));
}

#[test]
fn an_unexpected_exit_makes_the_channel_idle() {
    let mut backend = CameraBackend::new();
    run(&mut backend, 1, 10, Some(11));
    backend.parse_debug_line(1, "Add Lost timer for #5, x", 9).unwrap();
    assert_eq!(
        backend.advance(1, Event::Polled(ExitState::Exited(3))),
        Ok(Directive::Finished(Some(SupervisorError::UnexpectedExit)))
    );
    assert_eq!(backend.is_camera_running(1), Ok(false));
    assert_eq!(backend.channel_state(1), Ok(ChannelState::Idle));
    assert_eq!(backend.get_camera_stats(1).unwrap().unwrap().packets_lost, 1);
    assert_eq!(backend.advance(1, Event::Polled(ExitState::Running)), Ok(Directive::Abort));
}

#[test]
fn toggle_starts_and_stops() {
    let mut backend = CameraBackend::new();
    assert_eq!(backend.toggle_camera(0), Ok(Toggled::Started(Directive::Launch(0))));
    assert_eq!(backend.is_camera_running(0), Ok(true));
    assert!(backend.any_running());
    assert_eq!(backend.toggle_camera(0), Ok(Toggled::Stopping(Some(Termination::ByName))));
    assert_eq!(backend.is_camera_running(0), Ok(false));
    assert_eq!(backend.toggle_camera(0), Err(SupervisorError::AlreadyRunning));
    backend.finish_stop(0, true).unwrap();
    assert_eq!(backend.toggle_camera(0), Ok(Toggled::Started(Directive::Launch(0))));
}

#[test]
fn configuration_of_a_run_is_fixed_at_its_start() {
    let mut backend = CameraBackend::new();
    backend.update_camera_config(0, "10.0.0.1", "7000", "7002").unwrap();
    backend.start_camera(0).unwrap();
    let command = backend.pipeline_command(0).unwrap().unwrap();
    assert!(command.contains("udpsrc port=7002 address=0.0.0.0"));
    assert!(command.contains("udpsrc port=7000 address=0.0.0.0"));
    assert!(command.contains("name=raptor_0\\ "));
    backend.update_camera_config(0, "10.0.0.2", "9000", "9002").unwrap();
    assert_eq!(backend.get_camera_config(0).unwrap().rtp_port, "9000");
    assert_eq!(backend.pipeline_command(0).unwrap().unwrap(), command);
}

#[test]
fn shutdown_stops_every_channel() {
    let mut backend = CameraBackend::new();
    run(&mut backend, 0, 10, Some(11));
    run(&mut backend, 2, 20, None);
    backend.start_camera(3).unwrap();
    let plans = backend.shutdown();
    assert_eq!(
        plans,
        vec![Some(Termination::ById(11)), None, Some(Termination::ByName), Some(Termination::ByName)]
    );
    assert!(!backend.any_running());
    for i in 0..4 {
        assert_eq!(backend.is_camera_running(i), Ok(false));
        backend.finish_stop(i, i != 2).unwrap();
        assert_eq!(backend.channel_state(i), Ok(ChannelState::Idle));
    }
}

#[test]
fn snapshot_of_channel_two() {
    let mut backend = CameraBackend::new();
    backend.update_camera_config(2, "10.0.0.5", "6000", "6002").unwrap();
    run(&mut backend, 2, 40, Some(41));
    backend.parse_debug_line(2, "received-packets: 100", 1).unwrap();
    backend.parse_debug_line(2, "lost-packets: 5", 2).unwrap();
    backend.parse_debug_line(2, "recovered-packets: 5", 3).unwrap();
    let stats = backend.get_camera_stats(2).unwrap().unwrap();
    assert_eq!(
        stats,
        StreamStats {
            packets_received: 100,
            packets_lost: 5,
            packets_repaired: 5,
            packets_late: 0,
            packets_sent: 105,
            repair_rate_millipercent: 100_000 * 5 / 105,
            bitrate_decikbps: 8000,
            latency_ms: 10,
            last_update: Some(3),
        }
    );
    assert_eq!(stats.repair_rate_millipercent, 4761);
    assert_eq!(stats.packets_sent, stats.packets_received + stats.packets_lost);
}

#[test]
fn pipeline_runs_one_configuration() {
    let config = CameraConfig {
        sender_ip: "10.0.0.5".to_string(),
        rtp_port: "6000".to_string(),
        fec_port: "6002".to_string(),
    };
    let mut pipeline = GStreamerPipeline::new(1, config);
    assert_eq!(pipeline.state(), ChannelState::Idle);
    assert_eq!(pipeline.start(), Ok(Directive::Launch(0)));
    assert!(pipeline.is_running());
    assert_eq!(pipeline.advance(Event::Spawned(9)), Directive::AwaitWarmup);
    assert_eq!(
        pipeline.advance(Event::WarmedUp(ExitState::Exited(0))),
        Directive::Finished(Some(SupervisorError::AllVariantsFailed))
    );
    assert_eq!(pipeline.start(), Ok(Directive::Launch(0)));
    assert_eq!(pipeline.stop(), Some(Termination::ByName));
    assert_eq!(pipeline.finish_stop(true), None);
    assert_eq!(pipeline.supervisor().state(), ChannelState::Idle);
    assert!(pipeline.command().contains("name=raptor_1\\ "));
}

/// A process table that stands in for the operating system.
struct Table {
    next_pid: u32,
    alive: Vec<(usize, u32)>,
}

impl Table {
    fn new() -> Self {
        Table { next_pid: 100, alive: Vec::new() }
    }

    fn spawn(&mut self, channel: usize) -> (u32, u32) {
        let launcher = self.next_pid;
        let worker = self.next_pid + 1;
        self.next_pid += 2;
        self.alive.push((channel, launcher));
        self.alive.push((channel, worker));
        (launcher, worker)
    }

    fn terminate(&mut self, channel: usize, plan: Termination) -> bool {
        match plan {
            Termination::ById(pid) => {
                let known = self.alive.iter().any(|&(_, p)| p == pid);
                self.alive.retain(|&(c, _)| c != channel);
                known
            }
            Termination::ByName => {
                self.alive.clear();
                true
            }
        }
    }

    fn of(&self, channel: usize) -> usize {
        self.alive.iter().filter(|&&(c, _)| c == channel).count()
    }
}

fn start_on(table: &mut Table, backend: &mut CameraBackend, channel: usize) {
    let mut directive = backend.start_camera(channel).unwrap();
    let mut worker = None;
    loop {
        let event = match directive {
            Directive::Launch(_) => {
                let (launcher, w) = table.spawn(channel);
                worker = Some(w);
                Event::Spawned(launcher)
            }
            Directive::AwaitWarmup => Event::WarmedUp(ExitState::Running),
            Directive::ResolveWorker(_) => Event::WorkerResolved(worker),
            _ => break,
        };
        directive = backend.advance(channel, event).unwrap();
    }
    assert_eq!(directive, Directive::Monitor);
}

fn stop_on(table: &mut Table, backend: &mut CameraBackend, channel: usize) {
    if let Some(plan) = backend.stop_camera(channel).unwrap() {
        let terminated = table.terminate(channel, plan);
        assert_eq!(backend.advance(channel, Event::Polled(ExitState::Exited(1))), Ok(Directive::Abort));
        backend.finish_stop(channel, terminated).unwrap();
    }
}

#[test]
fn after_a_stop_no_process_of_the_channel_is_alive() {
    let mut table = Table::new();
    let mut backend = CameraBackend::new();
    start_on(&mut table, &mut backend, 0);
    start_on(&mut table, &mut backend, 3);
    assert_eq!(table.of(0), 2);
    assert_eq!(table.of(3), 2);
    stop_on(&mut table, &mut backend, 3);
    assert_eq!(backend.is_camera_running(3), Ok(false));
    assert_eq!(backend.channel_state(3), Ok(ChannelState::Idle));
    assert_eq!(table.of(3), 0);
    assert_eq!(table.of(0), 2);
    assert_eq!(backend.is_camera_running(0), Ok(true));
    start_on(&mut table, &mut backend, 3);
    assert_eq!(table.of(3), 2);
    assert_eq!(backend.start_camera(3), Err(SupervisorError::AlreadyRunning));
    assert_eq!(table.of(3), 2);
    stop_on(&mut table, &mut backend, 0);
    stop_on(&mut table, &mut backend, 3);
    stop_on(&mut table, &mut backend, 1);
    assert!(table.alive.is_empty());
    assert!(!backend.any_running());
}

#[test]
fn no_snapshot_is_torn() {
    let mut backend = CameraBackend::new();
    run(&mut backend, 0, 10, None);
    let lines = [
        "Successfully recovered packet: seqnum: 1, a",
        "Add Lost timer for #2, b",
        "received-packets: 40",
        "lost-packets: 2 recovered-packets: 1",
        "Successfully recovered packet: seqnum: 1, a",
        "noise",
        "Add Lost timer for #9, b",
        "buffered-media-packets=10",
    ];
    for (now, line) in lines.iter().enumerate() {
        backend.parse_debug_line(0, line, now as u64).unwrap();
        let stats = backend.get_camera_stats(0).unwrap().unwrap();
        assert_eq!(stats.packets_sent, stats.packets_received + stats.packets_lost, "{}", line);
        assert!(stats.repair_rate_millipercent <= 100_000, "{}", line);
    }
    let stats = backend.get_camera_stats(0).unwrap().unwrap();
    assert_eq!(stats.packets_received, 1);
    assert_eq!(stats.packets_lost, 2);
    assert_eq!(stats.bitrate_decikbps, 8010);
}
