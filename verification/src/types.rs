//! The plain data that describes a channel.

use vstd::prelude::*;
use crate::text::{chars_of, parse_u16, parse_u16_spec};

verus! {

/// The port on which a channel receives media when its configured text is
/// not a port number.
pub const DEFAULT_RTP_PORT: u16 = 5000;

/// The port on which a channel receives repair packets when its configured
/// text is not a port number.
pub const DEFAULT_FEC_PORT: u16 = 5002;

/// The endpoints of one receiving channel, as text.
pub struct CameraConfig {
    /// The address of the sender.
    pub sender_ip: String,
    /// The port for the media packets.
    pub rtp_port: String,
    /// The port for the repair packets.
    pub fec_port: String,
}

/// What a `CameraConfig` holds.
pub struct ConfigView {
    pub sender_ip: Seq<char>,
    pub rtp_port: Seq<char>,
    pub fec_port: Seq<char>,
}

impl View for CameraConfig {
    type V = ConfigView;

    open spec fn view(&self) -> ConfigView {
        ConfigView {
            sender_ip: self.sender_ip@,
            rtp_port: self.rtp_port@,
            fec_port: self.fec_port@,
        }
    }
}

/// The port that `text` names, or `fallback` when it names none.
pub open spec fn port_or(text: Seq<char>, fallback: u16) -> u16 {
    match parse_u16_spec(text) {
        Some(port) => port,
        None => fallback,
    }
}

fn read_port(text: &str, fallback: u16) -> (r: u16)
    ensures
        r == port_or(text@, fallback),
{
    let chars = chars_of(text);
    match parse_u16(chars.as_slice()) {
        Some(port) => port,
        None => fallback,
    }
}

impl CameraConfig {
    /// The media port as a number.
    pub fn rtp_port_number(&self) -> (r: u16)
        ensures
            r == port_or(self@.rtp_port, DEFAULT_RTP_PORT),
    {
        read_port(self.rtp_port.as_str(), DEFAULT_RTP_PORT)
    }

    /// The repair port as a number.
    pub fn fec_port_number(&self) -> (r: u16)
        ensures
            r == port_or(self@.fec_port, DEFAULT_FEC_PORT),
    {
        read_port(self.fec_port.as_str(), DEFAULT_FEC_PORT)
    }
}

impl Clone for CameraConfig {
    fn clone(&self) -> (r: CameraConfig)
        ensures
            r@ == self@,
    {
        CameraConfig {
            sender_ip: self.sender_ip.clone(),
            rtp_port: self.rtp_port.clone(),
            fec_port: self.fec_port.clone(),
        }
    }
}

/// One receiving channel: its endpoints, and whether it is receiving.
pub struct CameraState {
    pub config: CameraConfig,
    pub receiving: bool,
}

impl CameraState {
    /// A channel with the given endpoints that is not receiving.
    pub fn new(sender_ip: &str, rtp_port: &str, fec_port: &str) -> (r: CameraState)
        ensures
            r.config@.sender_ip == sender_ip@,
            r.config@.rtp_port == rtp_port@,
            r.config@.fec_port == fec_port@,
            !r.receiving,
    {
        CameraState {
            config: CameraConfig {
                sender_ip: sender_ip.to_owned(),
                rtp_port: rtp_port.to_owned(),
                fec_port: fec_port.to_owned(),
            },
            receiving: false,
        }
    }
}

/// A capture device that a sender can stream from.
pub struct CameraInfo {
    /// The index by which the engine selects the device.
    pub index: usize,
    /// The name shown for the device.
    pub name: String,
    /// The engine's selector for the device.
    pub device_path: String,
}

impl Clone for CameraInfo {
    fn clone(&self) -> (r: CameraInfo)
        ensures
            r.index == self.index,
            r.name@ == self.name@,
            r.device_path@ == self.device_path@,
    {
        CameraInfo {
            index: self.index,
            name: self.name.clone(),
            device_path: self.device_path.clone(),
        }
    }
}

/// The endpoints of one sending channel, as text, and the device it sends.
pub struct StreamConfig {
    /// The index by which the engine selects the capture device.
    pub camera_index: usize,
    /// The address of the receiver.
    pub ip: String,
    /// The receiver's port for the media packets.
    pub port: String,
    /// The receiver's port for the repair packets.
    pub fec_port: String,
}

/// What a `StreamConfig` holds.
pub struct StreamConfigView {
    pub camera_index: usize,
    pub ip: Seq<char>,
    pub port: Seq<char>,
    pub fec_port: Seq<char>,
}

impl View for StreamConfig {
    type V = StreamConfigView;

    open spec fn view(&self) -> StreamConfigView {
        StreamConfigView {
            camera_index: self.camera_index,
            ip: self.ip@,
            port: self.port@,
            fec_port: self.fec_port@,
        }
    }
}

impl Clone for StreamConfig {
    fn clone(&self) -> (r: StreamConfig)
        ensures
            r@ == self@,
    {
        StreamConfig {
            camera_index: self.camera_index,
            ip: self.ip.clone(),
            port: self.port.clone(),
            fec_port: self.fec_port.clone(),
        }
    }
}

} // verus!
