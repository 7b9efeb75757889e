use stream_supervisor::pipeline::{
    decimal_string, decimal_text, receiver_pipeline, sender_pipeline, PipelineVariant,
    SENDER_VARIANTS,
};
use stream_supervisor::sender::gstreamer::GStreamerManager;
use stream_supervisor::types::{CameraConfig, StreamConfig};

fn stream_config() -> StreamConfig {
    StreamConfig {
        camera_index: 12,
        ip: "192.168.0.101".to_string(),
        port: "5000".to_string(),
        fec_port: "5002".to_string(),
    }
}

#[test]
fn decimal_notation() {
    assert_eq!(decimal_string(0), "0");
    assert_eq!(decimal_string(7), "7");
    assert_eq!(decimal_string(10), "10");
    assert_eq!(decimal_string(4096), "4096");
    assert_eq!(decimal_string(usize::MAX), format!("{}", usize::MAX));
    assert_eq!(decimal_text(0), "0");
    assert_eq!(decimal_text(u128::MAX), format!("{}", u128::MAX));
}

#[test]
fn standard_pipeline_text() {
    let config = stream_config();
    let control_index = 3usize;
    let expected = format!(
        "gst-launch-1.0 \
rtpbin name=rtp latency=150 \
fec-encoders=\"fec,0=\\\"raptorqenc\\ mtu\\=1356\\ symbol-size\\=1344\\ \
protected-packets\\=10\\ repair-packets\\=1000\\ repair-window\\=200\\\";\" \
ksvideosrc device-index={} ! \
videoconvert ! videorate ! video/x-raw,framerate=15/1,width=640,height=480 ! \
x264enc key-int-max=45 tune=zerolatency speed-preset=veryfast bitrate=2000 ! \
queue max-size-buffers=0 max-size-time=0 max-size-bytes=0 ! mpegtsmux ! rtpmp2tpay ssrc={} ! \
rtp.send_rtp_sink_0 rtp.send_rtp_src_0 !
udpsink host={} port={} sync=false \
rtp.send_fec_src_0_0 ! udpsink host={} port={} async=false sync=false",
        config.camera_index, control_index, config.ip, config.port, config.ip, config.fec_port
    );
    assert_eq!(GStreamerManager::build_standard_pipeline(&config, control_index), expected);
    assert_eq!(sender_pipeline(PipelineVariant::Standard, &config, control_index), expected);
    assert!(expected.contains("rtp.send_rtp_src_0 !\nudpsink host=192.168.0.101 port=5000 "));
}

#[test]
fn virtual_camera_pipeline_text() {
    let config = stream_config();
    let control_index = 0usize;
    let expected = format!(
        "gst-launch-1.0 \
rtpbin name=rtp latency=150 \
fec-encoders=\"fec,0=\\\"raptorqenc\\ mtu\\=1356\\ symbol-size\\=1344\\ \
protected-packets\\=10\\ repair-packets\\=1000\\ repair-window\\=200\\\";\" \
ksvideosrc device-index={} ! video/x-raw,width=640,height=480,framerate=30/1 ! \
videoconvert ! videorate ! video/x-raw,framerate=15/1 ! \
x264enc key-int-max=45 tune=zerolatency speed-preset=veryfast bitrate=2000 ! \
queue max-size-buffers=0 max-size-time=0 max-size-bytes=0 ! mpegtsmux ! rtpmp2tpay ssrc={} ! \
rtp.send_rtp_sink_0 rtp.send_rtp_src_0 ! udpsink host={} port={} sync=false \
rtp.send_fec_src_0_0 ! udpsink host={} port={} async=false sync=false",
        config.camera_index, control_index, config.ip, config.port, config.ip, config.fec_port
    );
    assert_eq!(GStreamerManager::build_virtual_camera_pipeline(&config, control_index), expected);
}

#[test]
fn scaled_pipeline_text() {
    let config = stream_config();
    let control_index = 5usize;
    let expected = format!(
        "gst-launch-1.0 \
rtpbin name=rtp latency=150 \
fec-encoders=\"fec,0=\\\"raptorqenc\\ mtu\\=1356\\ symbol-size\\=1344\\ \
protected-packets\\=10\\ repair-packets\\=1000\\ repair-window\\=200\\\";\" \
ksvideosrc device-index={} ! video/x-raw,width=1280,height=720,framerate=30/1 ! \
videoconvert ! videoscale ! video/x-raw,width=640,height=480 ! videorate ! video/x-raw,framerate=15/1 ! \
x264enc key-int-max=45 tune=zerolatency speed-preset=veryfast bitrate=2000 ! \
queue max-size-buffers=0 max-size-time=0 max-size-bytes=0 ! mpegtsmux ! rtpmp2tpay ssrc={} ! \
rtp.send_rtp_sink_0 rtp.send_rtp_src_0 ! udpsink host={} port={} sync=false \
rtp.send_fec_src_0_0 ! udpsink host={} port={} async=false sync=false",
        config.camera_index, control_index, config.ip, config.port, config.ip, config.fec_port
    );
    assert_eq!(GStreamerManager::build_scaled_pipeline(&config, control_index), expected);
}

#[test]
fn receiver_pipeline_text() {
    let config = CameraConfig {
        sender_ip: "10.0.0.5".to_string(),
        rtp_port: "6000".to_string(),
        fec_port: "6002".to_string(),
    };
    let camera_index = 2usize;
    let expected = format!(
        "gst-launch-1.0 --gst-debug=raptorqdec:5,rtpjitterbuffer:4 \
        rtpbin latency=200 \
        fec-decoders=\"fec,0=\\\"raptorqdec\\ name=raptor_{}\\ \
        repair-window-tolerance\\=200\\\";\" name=rtp \
        udpsrc port={} address=0.0.0.0 \
        caps=\"application/x-rtp, payload=96, raptor-scheme-id=(string)6, \
        repair-window=(string)200000, t=(string)1344\" ! \
        queue max-size-buffers=0 max-size-time=0 max-size-bytes=0 ! rtp.recv_fec_sink_0_0 \
        udpsrc port={} address=0.0.0.0 \
        caps=\"application/x-rtp, media=video, clock-rate=90000, \
        encoding-name=mp2t, payload=33\" ! \
        queue max-size-buffers=0 max-size-time=0 max-size-bytes=0 ! \
        netsim drop-probability=0.5 duplicate-probability=0.1 delay-distribution=normal ! \
        rtp.recv_rtp_sink_0 \
        rtp. ! rtpjitterbuffer latency=600 do-lost=true ! rtpmp2tdepay ! \
        tsdemux ! h264parse ! avdec_h264 max-threads=4 ! videoconvert ! videorate ! \
        video/x-raw,framerate=15/1 ! autovideosink sync=false",
        camera_index, config.fec_port, config.rtp_port
    );
    assert_eq!(receiver_pipeline(camera_index, &config), expected);
    assert!(expected.contains("name=raptor_2\\ repair-window-tolerance"));
    assert!(expected.contains("udpsrc port=6002 address=0.0.0.0 caps=\"application/x-rtp, payload=96"));
}

#[test]
fn variants_come_in_order() {
    assert_eq!(SENDER_VARIANTS, 3);
    assert_eq!(PipelineVariant::nth(0), Some(PipelineVariant::Standard));
    assert_eq!(PipelineVariant::nth(1), Some(PipelineVariant::VirtualCamera));
    assert_eq!(PipelineVariant::nth(2), Some(PipelineVariant::Scaled));
    assert_eq!(PipelineVariant::nth(3), None);
}

#[test]
fn port_numbers_fall_back() {
    let config = CameraConfig {
        sender_ip: "10.0.0.5".to_string(),
        rtp_port: "6000".to_string(),
        fec_port: "port".to_string(),
    };
    assert_eq!(config.rtp_port_number(), 6000);
    assert_eq!(config.fec_port_number(), 5002);
    let config = CameraConfig {
        sender_ip: "10.0.0.5".to_string(),
        rtp_port: "65536".to_string(),
        fec_port: "65535".to_string(),
    };
    assert_eq!(config.rtp_port_number(), 5000);
    assert_eq!(config.fec_port_number(), 65535);
    let config = CameraConfig {
        sender_ip: String::new(),
        rtp_port: " 6000".to_string(),
        fec_port: "+6002".to_string(),
    };
    assert_eq!(config.rtp_port_number(), 5000);
    assert_eq!(config.fec_port_number(), 6002);
}

#[test]
fn configurations_are_copied() {
    let config = CameraConfig {
        sender_ip: "10.0.0.5".to_string(),
        rtp_port: "6000".to_string(),
        fec_port: "6002".to_string(),
    };
    let copy = config.clone();
    assert_eq!(copy.sender_ip, "10.0.0.5");
    assert_eq!(copy.rtp_port, "6000");
    assert_eq!(copy.fec_port, "6002");
    let stream = stream_config();
    let copy = stream.clone();
    assert_eq!(copy.camera_index, 12);
    assert_eq!(copy.ip, stream.ip);
    assert_eq!(copy.port, stream.port);
    assert_eq!(copy.fec_port, stream.fec_port);
}
