//! The textual pipeline descriptions that are handed to the engine.
//!
//! A description is built from fixed text, the channel's configuration and
//! the channel's number, which keeps the names of the engine's elements
//! apart when several channels run the same engine.

use vstd::prelude::*;
use crate::text::{all_digits, digits_value, is_digit, digit_value, parse_decimal};
use crate::types::{CameraConfig, ConfigView, StreamConfig, StreamConfigView};

verus! {

/// The start of every sender description, up to the device index.
pub const SENDER_HEAD: &'static str = "gst-launch-1.0 rtpbin name=rtp latency=150 fec-encoders=\"fec,0=\\\"raptorqenc\\ mtu\\=1356\\ symbol-size\\=1344\\ protected-packets\\=10\\ repair-packets\\=1000\\ repair-window\\=200\\\";\" ksvideosrc device-index=";

/// What follows the device index when the device's own format is taken.
pub const STANDARD_SOURCE: &'static str = " ! videoconvert ! videorate ! video/x-raw,framerate=15/1,width=640,height=480 ! ";

/// What follows the device index when the format is requested outright, as
/// virtual cameras need it.
pub const VIRTUAL_CAMERA_SOURCE: &'static str = " ! video/x-raw,width=640,height=480,framerate=30/1 ! videoconvert ! videorate ! video/x-raw,framerate=15/1 ! ";

/// What follows the device index when a larger picture is requested and
/// scaled down.
pub const SCALED_SOURCE: &'static str = " ! video/x-raw,width=1280,height=720,framerate=30/1 ! videoconvert ! videoscale ! video/x-raw,width=640,height=480 ! videorate ! video/x-raw,framerate=15/1 ! ";

/// The encoder and packetiser, up to the stream's identifier.
pub const SENDER_ENCODE: &'static str = "x264enc key-int-max=45 tune=zerolatency speed-preset=veryfast bitrate=2000 ! queue max-size-buffers=0 max-size-time=0 max-size-bytes=0 ! mpegtsmux ! rtpmp2tpay ssrc=";

/// What follows the stream's identifier.
pub const SENDER_LINK: &'static str = " ! rtp.send_rtp_sink_0 rtp.send_rtp_src_0 !";

/// The media sink, up to the receiver's address.
pub const SENDER_MEDIA_SINK: &'static str = "udpsink host=";

/// What stands between an address and a port.
pub const PORT_OPTION: &'static str = " port=";

/// The repair sink, up to the receiver's address.
pub const SENDER_REPAIR_SINK: &'static str = " sync=false rtp.send_fec_src_0_0 ! udpsink host=";

/// The end of every sender description.
pub const SENDER_TAIL: &'static str = " async=false sync=false";

/// The start of the receiver description, up to the channel's number.
pub const RECEIVER_HEAD: &'static str = "gst-launch-1.0 --gst-debug=raptorqdec:5,rtpjitterbuffer:4 rtpbin latency=200 fec-decoders=\"fec,0=\\\"raptorqdec\\ name=raptor_";

/// The repair source, up to its port.
pub const RECEIVER_REPAIR_SOURCE: &'static str = "\\ repair-window-tolerance\\=200\\\";\" name=rtp udpsrc port=";

/// The media source, up to its port.
pub const RECEIVER_MEDIA_SOURCE: &'static str = " address=0.0.0.0 caps=\"application/x-rtp, payload=96, raptor-scheme-id=(string)6, repair-window=(string)200000, t=(string)1344\" ! queue max-size-buffers=0 max-size-time=0 max-size-bytes=0 ! rtp.recv_fec_sink_0_0 udpsrc port=";

/// The end of the receiver description.
pub const RECEIVER_TAIL: &'static str = " address=0.0.0.0 caps=\"application/x-rtp, media=video, clock-rate=90000, encoding-name=mp2t, payload=33\" ! queue max-size-buffers=0 max-size-time=0 max-size-bytes=0 ! netsim drop-probability=0.5 duplicate-probability=0.1 delay-distribution=normal ! rtp.recv_rtp_sink_0 rtp. ! rtpjitterbuffer latency=600 do-lost=true ! rtpmp2tdepay ! tsdemux ! h264parse ! avdec_h264 max-threads=4 ! videoconvert ! videorate ! video/x-raw,framerate=15/1 ! autovideosink sync=false";

/// The number of configurations that a sender tries.
pub const SENDER_VARIANTS: usize = 3;

/// One candidate configuration of a sender, in the order in which they are
/// tried.
#[derive(Clone, Copy, Debug, PartialEq, Eq)]
pub enum PipelineVariant {
    /// The device's own format.
    Standard,
    /// An explicit format, for virtual cameras.
    VirtualCamera,
    /// A larger picture, scaled down.
    Scaled,
}

impl PipelineVariant {
    /// The variant that is tried as number `position`, counting from zero.
    pub open spec fn at(position: int) -> Option<PipelineVariant> {
        if position == 0 {
            Some(PipelineVariant::Standard)
        } else if position == 1 {
            Some(PipelineVariant::VirtualCamera)
        } else if position == 2 {
            Some(PipelineVariant::Scaled)
        } else {
            None
        }
    }

    /// The text that follows the device index.
    pub open spec fn source(self) -> Seq<char> {
        match self {
            PipelineVariant::Standard => STANDARD_SOURCE@,
            PipelineVariant::VirtualCamera => VIRTUAL_CAMERA_SOURCE@,
            PipelineVariant::Scaled => SCALED_SOURCE@,
        }
    }

    /// The text between the link and the media sink: a line break in the
    /// standard variant, a blank in the others.
    pub open spec fn joint(self) -> Seq<char> {
        match self {
            PipelineVariant::Standard => "\n"@,
            _ => " "@,
        }
    }

    /// The variant that is tried as number `position`, counting from zero.
    pub fn nth(position: usize) -> (r: Option<PipelineVariant>)
        ensures
            r == PipelineVariant::at(position as int),
            r.is_some() == (position < SENDER_VARIANTS),
    {
        if position == 0 {
            Some(PipelineVariant::Standard)
        } else if position == 1 {
            Some(PipelineVariant::VirtualCamera)
        } else if position == 2 {
            Some(PipelineVariant::Scaled)
        } else {
            None
        }
    }
}

/// The decimal digit for `d`.
pub open spec fn digit_char(d: nat) -> char {
    if d == 0 {
        '0'
    } else if d == 1 {
        '1'
    } else if d == 2 {
        '2'
    } else if d == 3 {
        '3'
    } else if d == 4 {
        '4'
    } else if d == 5 {
        '5'
    } else if d == 6 {
        '6'
    } else if d == 7 {
        '7'
    } else if d == 8 {
        '8'
    } else {
        '9'
    }
}

/// The decimal notation of `n`, without leading zeros.
pub open spec fn decimal_digits(n: nat) -> Seq<char>
    decreases n,
{
    if n < 10 {
        seq![digit_char(n)]
    } else {
        decimal_digits(n / 10).push(digit_char(n % 10))
    }
}

fn digit_text(d: usize) -> (r: &'static str)
    requires
        d < 10,
    ensures
        r@ == seq![digit_char(d as nat)],
{
    proof {
        reveal_strlit("0");
        reveal_strlit("1");
        reveal_strlit("2");
        reveal_strlit("3");
        reveal_strlit("4");
        reveal_strlit("5");
        reveal_strlit("6");
        reveal_strlit("7");
        reveal_strlit("8");
        reveal_strlit("9");
    }
    let r = if d == 0 {
        "0"
    } else if d == 1 {
        "1"
    } else if d == 2 {
        "2"
    } else if d == 3 {
        "3"
    } else if d == 4 {
        "4"
    } else if d == 5 {
        "5"
    } else if d == 6 {
        "6"
    } else if d == 7 {
        "7"
    } else if d == 8 {
        "8"
    } else {
        "9"
    };
    assert(r@ =~= seq![digit_char(d as nat)]);
    r
}

/// Writes `n` in decimal.
pub fn decimal_text(n: u128) -> (r: String)
    ensures
        r@ == decimal_digits(n as nat),
    decreases n,
{
    if n < 10 {
        digit_text(n as usize).to_owned()
    } else {
        let mut r = decimal_text(n / 10);
        r.append(digit_text((n % 10) as usize));
        assert(r@ =~= decimal_digits(n as nat));
        r
    }
}

/// Writes `n` in decimal.
pub fn decimal_string(n: usize) -> (r: String)
    ensures
        r@ == decimal_digits(n as nat),
{
    decimal_text(n as u128)
}

/// The decimal notation of a number consists of digits and denotes that
/// number: what is written with `decimal_string` is read back by
/// `parse_decimal`.
pub proof fn lemma_decimal_round_trip(n: nat, max: nat)
    requires
        n <= max,
    ensures
        decimal_digits(n).len() > 0,
        all_digits(decimal_digits(n)),
        digits_value(decimal_digits(n)) == n,
        parse_decimal(decimal_digits(n), max) == Some(n),
    decreases n,
{
    let d = decimal_digits(n);
    if n < 10 {
        assert(d =~= seq![digit_char(n)]);
        assert(d.drop_last() =~= Seq::<char>::empty());
        assert(digits_value(d.drop_last()) == 0);
        assert(is_digit(d[0]) && digit_value(d[0]) == n);
    } else {
        let front = decimal_digits(n / 10);
        lemma_decimal_round_trip(n / 10, n / 10);
        assert(d =~= front.push(digit_char(n % 10)));
        assert(d.drop_last() =~= front);
        assert(is_digit(d.last()) && digit_value(d.last()) == n % 10);
        assert forall|i: int| 0 <= i < d.len() implies is_digit(#[trigger] d[i]) by {
            if i < front.len() {
                assert(d[i] == front[i]);
            }
        }
    }
    assert(d[0] != '+');
}

/// The description of a sender in the given variant: the device is
/// selected by `config.camera_index`, the stream is identified by
/// `control_index`, and media and repair packets go to `config.ip`.
pub open spec fn sender_pipeline_text(
    variant: PipelineVariant,
    config: StreamConfigView,
    control_index: usize,
) -> Seq<char> {
    SENDER_HEAD@ + decimal_digits(config.camera_index as nat) + variant.source() + SENDER_ENCODE@
        + decimal_digits(control_index as nat) + SENDER_LINK@ + variant.joint()
        + SENDER_MEDIA_SINK@ + config.ip + PORT_OPTION@ + config.port + SENDER_REPAIR_SINK@
        + config.ip + PORT_OPTION@ + config.fec_port + SENDER_TAIL@
}

/// Builds the description of a sender in the given variant.
pub fn sender_pipeline(variant: PipelineVariant, config: &StreamConfig, control_index: usize) -> (r:
    String)
    ensures
        r@ == sender_pipeline_text(variant, config@, control_index),
{
    let mut r = SENDER_HEAD.to_owned();
    let device = decimal_string(config.camera_index);
    r.append(device.as_str());
    match variant {
        PipelineVariant::Standard => r.append(STANDARD_SOURCE),
        PipelineVariant::VirtualCamera => r.append(VIRTUAL_CAMERA_SOURCE),
        PipelineVariant::Scaled => r.append(SCALED_SOURCE),
    }
    r.append(SENDER_ENCODE);
    let stream = decimal_string(control_index);
    r.append(stream.as_str());
    r.append(SENDER_LINK);
    match variant {
        PipelineVariant::Standard => r.append("\n"),
        _ => r.append(" "),
    }
    r.append(SENDER_MEDIA_SINK);
    r.append(config.ip.as_str());
    r.append(PORT_OPTION);
    r.append(config.port.as_str());
    r.append(SENDER_REPAIR_SINK);
    r.append(config.ip.as_str());
    r.append(PORT_OPTION);
    r.append(config.fec_port.as_str());
    r.append(SENDER_TAIL);
    r
}

/// The description of the receiver of channel `camera_index`: repair
/// packets arrive on `config.fec_port`, media packets on `config.rtp_port`.
pub open spec fn receiver_pipeline_text(camera_index: usize, config: ConfigView) -> Seq<char> {
    RECEIVER_HEAD@ + decimal_digits(camera_index as nat) + RECEIVER_REPAIR_SOURCE@
        + config.fec_port + RECEIVER_MEDIA_SOURCE@ + config.rtp_port + RECEIVER_TAIL@
}

/// Builds the description of the receiver of channel `camera_index`.
pub fn receiver_pipeline(camera_index: usize, config: &CameraConfig) -> (r: String)
    ensures
        r@ == receiver_pipeline_text(camera_index, config@),
{
    let mut r = RECEIVER_HEAD.to_owned();
    let channel = decimal_string(camera_index);
    r.append(channel.as_str());
    r.append(RECEIVER_REPAIR_SOURCE);
    r.append(config.fec_port.as_str());
    r.append(RECEIVER_MEDIA_SOURCE);
    r.append(config.rtp_port.as_str());
    r.append(RECEIVER_TAIL);
    r
}

} // verus!
