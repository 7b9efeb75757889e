use stream_supervisor::sender::backend::{CameraBackend, ProbeOutcome, PROBED_DEVICES, PROBE_FORMS};
use stream_supervisor::sender::controls::{
    camera_choices, default_fec_port, default_port, get_selected_camera_index, stream_config,
    DEFAULT_RECEIVER,
};
use stream_supervisor::sender::gstreamer::{GStreamerManager, SenderToggle};
use stream_supervisor::supervisor::{
    Directive, Event, ExitState, ProcessHandle, SupervisorError, Termination,
};
use stream_supervisor::types::CameraInfo;

fn manager() -> GStreamerManager {
    let mut m = GStreamerManager::new();
    m.initialize_streams(6);
    m
}

#[test]
fn streams_are_initialized_idle() {
    let mut m = GStreamerManager::new();
    assert_eq!(m.stream_count(), 0);
    assert_eq!(m.is_streaming(0), Err(SupervisorError::InvalidChannelIndex));
    m.initialize_streams(6);
    assert_eq!(m.stream_count(), 6);
    for i in 0..6 {
        assert_eq!(m.is_streaming(i), Ok(false));
        assert_eq!(m.launch_command(i), Ok(None));
        assert_eq!(m.process(i), Ok(None));
    }
    m.initialize_streams(2);
    assert_eq!(m.stream_count(), 8);
}

#[test]
fn sender_tries_its_variants_in_order() {
    let mut m = manager();
    let config = stream_config(1, "192.168.0.101", "5008", "5010");
    assert_eq!(m.start_pipeline(2, config.clone()), Ok(Directive::Launch(0)));
    assert_eq!(m.is_streaming(2), Ok(true));
    assert_eq!(
        m.launch_command(2).unwrap().unwrap(),
        GStreamerManager::build_standard_pipeline(&config, 2)
    );
    assert_eq!(m.advance(2, Event::Spawned(70)), Ok(Directive::AwaitWarmup));
    assert_eq!(m.advance(2, Event::WarmedUp(ExitState::Exited(1))), Ok(Directive::Launch(1)));
    assert_eq!(
        m.launch_command(2).unwrap().unwrap(),
        GStreamerManager::build_virtual_camera_pipeline(&config, 2)
    );
    assert_eq!(m.advance(2, Event::SpawnFailed), Ok(Directive::Launch(2)));
    assert_eq!(
        m.launch_command(2).unwrap().unwrap(),
        GStreamerManager::build_scaled_pipeline(&config, 2)
    );
    assert_eq!(m.advance(2, Event::Spawned(72)), Ok(Directive::AwaitWarmup));
    assert_eq!(m.advance(2, Event::WarmedUp(ExitState::Running)), Ok(Directive::ResolveWorker(72)));
    assert_eq!(m.launch_command(2), Ok(None));
    assert_eq!(m.advance(2, Event::WorkerResolved(Some(73))), Ok(Directive::Monitor));
    assert_eq!(m.process(2), Ok(Some(ProcessHandle { launcher_pid: 72, worker_pid: Some(73) })));
    assert_eq!(m.start_pipeline(2, config), Err(SupervisorError::AlreadyRunning));
    assert_eq!(m.stop_pipeline(2), Ok(Some(Termination::ById(73))));
    assert_eq!(m.is_streaming(2), Ok(false));
    assert_eq!(m.finish_stop(2, true), Ok(None));
    assert_eq!(m.process(2), Ok(None));
}

#[test]
fn sender_fails_when_every_variant_fails() {
    let mut m = manager();
    let config = stream_config(0, "192.168.0.101", "5000", "5002");
    m.start_pipeline(0, config).unwrap();
    for next in [1usize, 2] {
        assert_eq!(m.advance(0, Event::Spawned(1)), Ok(Directive::AwaitWarmup));
        assert_eq!(
            m.advance(0, Event::WarmedUp(ExitState::Exited(1))),
            Ok(Directive::Launch(next))
        );
    }
    assert_eq!(m.advance(0, Event::Spawned(1)), Ok(Directive::AwaitWarmup));
    assert_eq!(
        m.advance(0, Event::WarmedUp(ExitState::Exited(1))),
        Ok(Directive::Finished(Some(SupervisorError::AllVariantsFailed)))
    );
    assert_eq!(m.is_streaming(0), Ok(false));
}

#[test]
fn sender_fails_with_all_variants_when_none_can_be_launched() {
    let mut m = manager();
    m.start_pipeline(3, stream_config(0, "192.168.0.101", "5000", "5002")).unwrap();
    assert_eq!(m.advance(3, Event::SpawnFailed), Ok(Directive::Launch(1)));
    assert_eq!(m.advance(3, Event::SpawnFailed), Ok(Directive::Launch(2)));
    assert_eq!(
        m.advance(3, Event::SpawnFailed),
        Ok(Directive::Finished(Some(SupervisorError::AllVariantsFailed)))
    );
    assert_eq!(m.is_streaming(3), Ok(false));
    assert_eq!(m.process(3), Ok(None));
    assert_eq!(m.launch_command(3), Ok(None));
}

#[test]
fn sender_rejects_a_bad_index() {
    let mut m = manager();
    let e = SupervisorError::InvalidChannelIndex;
    let config = stream_config(0, "a", "b", "c");
    assert_eq!(m.start_pipeline(6, config.clone()), Err(e));
    assert_eq!(m.stop_pipeline(6), Err(e));
    assert_eq!(m.finish_stop(6, true), Err(e));
    assert_eq!(m.advance(6, Event::SpawnFailed), Err(e));
    assert_eq!(m.is_streaming(6), Err(e));
    assert_eq!(m.launch_command(6), Err(e));
    assert_eq!(m.process(6), Err(e));
    assert_eq!(m.toggle_pipeline(6, Some(config)), Err(e));
}

#[test]
fn sender_toggle() {
    let mut m = manager();
    assert_eq!(m.toggle_pipeline(1, None), Ok(SenderToggle::NoCamera));
    assert_eq!(m.is_streaming(1), Ok(false));
    let config = stream_config(0, "a", "b", "c");
    assert_eq!(
        m.toggle_pipeline(1, Some(config)),
        Ok(SenderToggle::Started(Directive::Launch(0)))
    );
    assert_eq!(m.toggle_pipeline(1, None), Ok(SenderToggle::Stopping(Some(Termination::ByName))));
    assert_eq!(m.is_streaming(1), Ok(false));
}

#[test]
fn sender_shutdown_stops_what_streams() {
    let mut m = manager();
    m.start_pipeline(0, stream_config(0, "a", "b", "c")).unwrap();
    m.start_pipeline(4, stream_config(1, "a", "b", "c")).unwrap();
    m.advance(4, Event::Spawned(9)).unwrap();
    m.advance(4, Event::WarmedUp(ExitState::Running)).unwrap();
    m.advance(4, Event::WorkerResolved(Some(10))).unwrap();
    let plans = m.shutdown();
    assert_eq!(
        plans,
        vec![Some(Termination::ByName), None, None, None, Some(Termination::ById(10)), None]
    );
    for i in 0..6 {
        assert_eq!(m.is_streaming(i), Ok(false));
    }
}

#[test]
fn worker_query_names_the_parent() {
    assert_eq!(GStreamerManager::worker_query(4321), "ParentProcessId=4321");
    assert_eq!(GStreamerManager::worker_query(0), "ParentProcessId=0");
    assert_eq!(GStreamerManager::worker_query(u32::MAX), "ParentProcessId=4294967295");
}

#[test]
fn worker_pid_is_read_from_the_answer() {
    assert_eq!(GStreamerManager::find_gstreamer_pid(""), None);
    assert_eq!(GStreamerManager::find_gstreamer_pid("Node,ProcessId\r\nHOST,1234\r\n"), Some(1234));
    assert_eq!(
        GStreamerManager::find_gstreamer_pid("\r\n\r\nNode,ProcessId\r\nHOST,1234\r\nHOST,5678\r\n\r\n"),
        Some(1234)
    );
    assert_eq!(GStreamerManager::find_gstreamer_pid("Node,ProcessId\r\n"), None);
    assert_eq!(GStreamerManager::find_gstreamer_pid("No Instance(s) Available.\r\n"), None);
    assert_eq!(GStreamerManager::find_gstreamer_pid("ProcessId,1234\r\n"), Some(1234));
    assert_eq!(
        GStreamerManager::find_gstreamer_pid("\r\nx ProcessId, 77 ,more\nProcessId,88\n"),
        Some(77)
    );
    assert_eq!(
        GStreamerManager::find_gstreamer_pid("ProcessId,abc\nProcessId\nProcessId,5"),
        Some(5)
    );
    assert_eq!(GStreamerManager::find_gstreamer_pid("ProcessId,12\r"), Some(12));
    assert_eq!(GStreamerManager::find_gstreamer_pid("ProcessId,,12"), None);
    assert_eq!(GStreamerManager::find_gstreamer_pid("HOST,4294967296\nHOST,-1\nHOST,+7"), Some(7));
}

#[test]
fn probes_come_in_four_forms() {
    assert_eq!(PROBED_DEVICES, 6);
    assert_eq!(PROBE_FORMS, 4);
    let i = 3;
    assert_eq!(
        CameraBackend::probe_command(i, 0),
        format!("gst-launch-1.0 ksvideosrc device-index={} num-buffers=1 ! videoconvert ! fakesink", i)
    );
    assert_eq!(
        CameraBackend::probe_command(i, 1),
        format!("gst-launch-1.0 ksvideosrc device-index={} ! video/x-raw,width=640,height=480,framerate=30/1 ! videoconvert ! fakesink", i)
    );
    assert_eq!(
        CameraBackend::probe_command(i, 2),
        format!("gst-launch-1.0 ksvideosrc device-index={} ! video/x-raw,width=1280,height=720,framerate=30/1 ! videoconvert ! fakesink", i)
    );
    assert_eq!(
        CameraBackend::probe_command(i, 3),
        format!("gst-launch-1.0 ksvideosrc device-index={} ! video/x-raw ! videoconvert ! fakesink", i)
    );
}

#[test]
fn a_probe_works_when_the_pipeline_got_going() {
    assert!(CameraBackend::probe_succeeded(true, ""));
    assert!(CameraBackend::probe_succeeded(false, "x\nSetting pipeline to PAUSED ...\n"));
    assert!(CameraBackend::probe_succeeded(false, "Pipeline is PREROLLING"));
    assert!(!CameraBackend::probe_succeeded(false, "ERROR: not-negotiated"));
}

#[test]
fn devices_are_named() {
    assert_eq!(CameraBackend::name_device(2, ""), "Camera Device 2");
    assert_eq!(
        CameraBackend::name_device(2, "a\n  device-name=\"HD Webcam\", x=1\ndevice-name=Other,"),
        "Index 2: HD Webcam"
    );
    assert_eq!(
        CameraBackend::name_device(2, "device-name=\"HD Webcam\" , x=1"),
        "Index 2: HD Webcam\""
    );
    assert_eq!(
        CameraBackend::name_device(0, "device-name is unknown\r\nsrc: device-name=\" Front \"\r\n"),
        "Index 0: Front"
    );
    assert_eq!(CameraBackend::name_device(1, "device-name: none = here"), "Camera Device 1");
    assert_eq!(
        CameraBackend::name_device(4, "device-name=Camo,"),
        "Index 4: Camo Virtual Camera (iPhone)"
    );
    assert_eq!(
        CameraBackend::name_device(4, "loading Camo driver"),
        "Index 4: Camo Virtual Camera (iPhone)"
    );
    assert_eq!(
        CameraBackend::name_device(5, "device-name=Cam,\nUSB Video Device"),
        "Index 5: Integrated Camera"
    );
    assert_eq!(
        CameraBackend::name_device(5, "Integrated Webcam"),
        "Index 5: Integrated Camera"
    );
    assert_eq!(
        CameraBackend::name_device(3, "device-name=a device-name=b,c"),
        "Index 3: a"
    );
}

#[test]
fn detection_walks_devices_and_forms() {
    let mut d = CameraBackend::new();
    let mut probes = Vec::new();
    let mut steps = 0;
    while let Some(command) = d.next_probe() {
        probes.push(command.clone());
        steps += 1;
        assert!(steps <= 24);
        let outcome = if command.contains("device-index=1 ") && command.contains("1280") {
            Some(ProbeOutcome { success: true, stderr: "device-name=\"Cam One\",".to_string() })
        } else if command.contains("device-index=4 ") {
            Some(ProbeOutcome { success: false, stderr: "PREROLL\nUSB".to_string() })
        } else if command.contains("device-index=2 ") {
            None
        } else {
            Some(ProbeOutcome { success: false, stderr: "not-negotiated".to_string() })
        };
        d.report(outcome);
    }
    assert_eq!(probes.len(), 4 + 3 + 4 + 4 + 1 + 4);
    assert_eq!(probes[0], CameraBackend::probe_command(0, 0));
    assert_eq!(probes[4], CameraBackend::probe_command(1, 0));
    assert_eq!(probes[6], CameraBackend::probe_command(1, 2));
    assert_eq!(probes[7], CameraBackend::probe_command(2, 0));
    assert_eq!(probes[15], CameraBackend::probe_command(4, 0));
    assert_eq!(probes[16], CameraBackend::probe_command(5, 0));
    d.report(None);
    assert_eq!(d.next_probe(), None);
    let cameras = d.detect_cameras();
    assert_eq!(cameras.len(), 2);
    assert_eq!(cameras[0].index, 1);
    assert_eq!(cameras[0].name, "Index 1: Cam One");
    assert_eq!(cameras[0].device_path, "device-index=1");
    assert_eq!(cameras[1].index, 4);
    assert_eq!(cameras[1].name, "Index 4: Integrated Camera");
    assert_eq!(cameras[1].device_path, "device-index=4");
}

#[test]
fn controls_defaults() {
    assert_eq!(DEFAULT_RECEIVER, "192.168.0.101");
    for i in 0..6usize {
        assert_eq!(default_port(i), format!("{}", 5000 + i * 4));
        assert_eq!(default_fec_port(i), format!("{}", 5002 + i * 4));
    }
    assert_eq!(default_port(usize::MAX), format!("{}", 5000 + usize::MAX as u128 * 4));
    assert_eq!(default_fec_port(usize::MAX), format!("{}", 5002 + usize::MAX as u128 * 4));
}

#[test]
fn controls_list_and_selection() {
    let none: Vec<CameraInfo> = Vec::new();
    assert_eq!(camera_choices(&none), vec!["No cameras found".to_string()]);
    assert_eq!(get_selected_camera_index(Some(0), &none), None);
    assert_eq!(get_selected_camera_index(Some(1), &none), None);
    let cameras = vec![
        CameraInfo { index: 2, name: "Index 2: A".to_string(), device_path: "device-index=2".to_string() },
        CameraInfo { index: 5, name: "Index 5: B".to_string(), device_path: "device-index=5".to_string() },
    ];
    assert_eq!(
        camera_choices(&cameras),
        vec!["Select Camera".to_string(), "Index 2: A".to_string(), "Index 5: B".to_string()]
    );
    assert_eq!(get_selected_camera_index(None, &cameras), None);
    assert_eq!(get_selected_camera_index(Some(0), &cameras), None);
    assert_eq!(get_selected_camera_index(Some(1), &cameras), Some(2));
    assert_eq!(get_selected_camera_index(Some(2), &cameras), Some(5));
    assert_eq!(get_selected_camera_index(Some(3), &cameras), None);
    let copy = cameras[1].clone();
    assert_eq!(copy.index, 5);
    assert_eq!(copy.name, "Index 5: B");
}
