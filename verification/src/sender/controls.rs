//! What the controls of a sending channel show and select.

use vstd::prelude::*;
use crate::pipeline::{decimal_digits, decimal_text};
use crate::types::{CameraInfo, StreamConfig, StreamConfigView};

verus! {

/// The receiver that a sending channel addresses until it is configured.
pub const DEFAULT_RECEIVER: &'static str = "192.168.0.101";

/// The first entry of the list of devices when there are devices.
pub const SELECT_PROMPT: &'static str = "Select Camera";

/// The only entry of the list of devices when there are none.
pub const NO_CAMERAS: &'static str = "No cameras found";

/// The media port that channel `control_index` sends to by default.
pub open spec fn default_port_number(control_index: usize) -> int {
    5000 + control_index * 4
}

/// The repair port that channel `control_index` sends to by default.
pub open spec fn default_fec_port_number(control_index: usize) -> int {
    5002 + control_index * 4
}

/// The text of the media port that channel `control_index` sends to by
/// default.
pub fn default_port(control_index: usize) -> (r: String)
    ensures
        r@ == decimal_digits(default_port_number(control_index) as nat),
{
    decimal_text(5000u128 + (control_index as u128) * 4u128)
}

/// The text of the repair port that channel `control_index` sends to by
/// default.
pub fn default_fec_port(control_index: usize) -> (r: String)
    ensures
        r@ == decimal_digits(default_fec_port_number(control_index) as nat),
{
    decimal_text(5002u128 + (control_index as u128) * 4u128)
}

/// The entries of the list of devices: a prompt and then the name of each
/// device, or a single entry that says that there is none.
pub open spec fn choices(names: Seq<Seq<char>>) -> Seq<Seq<char>> {
    if names.len() > 0 {
        seq![SELECT_PROMPT@] + names
    } else {
        seq![NO_CAMERAS@]
    }
}

/// The names of `cameras`.
pub open spec fn camera_names(cameras: Seq<CameraInfo>) -> Seq<Seq<char>> {
    Seq::new(cameras.len(), |i: int| cameras[i].name@)
}

/// What each of `texts` holds.
pub open spec fn text_views(texts: Seq<String>) -> Seq<Seq<char>> {
    Seq::new(texts.len(), |i: int| texts[i]@)
}

/// The entries of the list from which a device is selected.
pub fn camera_choices(cameras: &Vec<CameraInfo>) -> (r: Vec<String>)
    ensures
        text_views(r@) == choices(camera_names(cameras@)),
{
    let mut items: Vec<String> = Vec::new();
    if cameras.len() == 0 {
        items.push(NO_CAMERAS.to_owned());
        assert(text_views(items@) =~= choices(camera_names(cameras@)));
        return items;
    }
    items.push(SELECT_PROMPT.to_owned());
    let mut i: usize = 0;
    while i < cameras.len()
        invariant
            i <= cameras@.len(),
            items@.len() == i + 1,
            text_views(items@) == seq![SELECT_PROMPT@] + camera_names(cameras@).take(i as int),
        decreases cameras@.len() - i,
    {
        let ghost before = text_views(items@);
        items.push(cameras[i].name.clone());
        assert(text_views(items@) =~= before.push(cameras@[i as int].name@));
        assert(text_views(items@) =~= seq![SELECT_PROMPT@] + camera_names(cameras@).take(i + 1));
        i += 1;
    }
    assert(camera_names(cameras@).take(cameras@.len() as int) =~= camera_names(cameras@));
    items
}

/// The device index that an entry of the list stands for: the entries
/// after the prompt stand for the devices, in their order.
pub open spec fn selected_device(selection: Option<usize>, cameras: Seq<CameraInfo>) -> Option<
    usize,
> {
    match selection {
        Some(entry) => if 0 < entry <= cameras.len() {
            Some(cameras[entry - 1].index)
        } else {
            None
        },
        None => None,
    }
}

/// The device index that the selected entry of the list stands for.
pub fn get_selected_camera_index(selection: Option<usize>, cameras: &Vec<CameraInfo>) -> (r:
    Option<usize>)
    ensures
        r == selected_device(selection, cameras@),
{
    match selection {
        Some(entry) => if entry > 0 && entry <= cameras.len() {
            Some(cameras[entry - 1].index)
        } else {
            None
        },
        None => None,
    }
}

/// The configuration of a run that sends device `camera_index` to the
/// endpoints given.
pub fn stream_config(camera_index: usize, ip: &str, port: &str, fec_port: &str) -> (r: StreamConfig)
    ensures
        r@ == (StreamConfigView { camera_index, ip: ip@, port: port@, fec_port: fec_port@ }),
{
    StreamConfig {
        camera_index,
        ip: ip.to_owned(),
        port: port.to_owned(),
        fec_port: fec_port.to_owned(),
    }
}

} // verus!
