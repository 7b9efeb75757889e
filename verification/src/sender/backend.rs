//! Finding the capture devices that a sender can stream from.
//!
//! A device is probed by running the engine on it with a short test
//! pipeline, in up to four forms. Which probe to run next, and what a
//! probe's outcome says of the device, is decided here; running the probe
//! is the caller's part.

use vstd::prelude::*;
use crate::pipeline::{decimal_digits, decimal_string};
use crate::text::{
    before_first, chars_of, contains, contains_in, lines, lines_of, line_views, second_part,
    string_of, strip_quotes, strip_quotes_slice, take_before, take_second, trim, trim_slice,
};
use crate::types::CameraInfo;

verus! {

/// The number of device indices that are probed.
pub const PROBED_DEVICES: usize = 6;

/// The number of forms in which a device is probed.
pub const PROBE_FORMS: usize = 4;

/// The start of every probe, up to the device index.
pub const PROBE_HEAD: &'static str = "gst-launch-1.0 ksvideosrc device-index=";

/// The probe that takes one buffer in the device's own format.
pub const PROBE_PLAIN: &'static str = " num-buffers=1 ! videoconvert ! fakesink";

/// The probe that requests a small picture outright.
pub const PROBE_SMALL: &'static str =
    " ! video/x-raw,width=640,height=480,framerate=30/1 ! videoconvert ! fakesink";

/// The probe that requests a large picture outright.
pub const PROBE_LARGE: &'static str =
    " ! video/x-raw,width=1280,height=720,framerate=30/1 ! videoconvert ! fakesink";

/// The probe that requests raw video of any size.
pub const PROBE_RAW: &'static str = " ! video/x-raw ! videoconvert ! fakesink";

/// What follows the device index in the probe of the given form.
pub open spec fn probe_tail(form: usize) -> Seq<char> {
    if form == 0 {
        PROBE_PLAIN@
    } else if form == 1 {
        PROBE_SMALL@
    } else if form == 2 {
        PROBE_LARGE@
    } else {
        PROBE_RAW@
    }
}

/// The command that probes device `index` in the given form.
pub open spec fn probe_text(index: usize, form: usize) -> Seq<char> {
    PROBE_HEAD@ + decimal_digits(index as nat) + probe_tail(form)
}

/// What a probe reported.
pub struct ProbeOutcome {
    /// Whether the engine ended with success.
    pub success: bool,
    /// What the engine wrote to its error stream.
    pub stderr: String,
}

/// The probe found a device that works: the engine ended with success, or
/// got as far as pausing or prerolling the pipeline.
pub open spec fn probe_works(success: bool, stderr: Seq<char>) -> bool {
    success || contains(stderr, "Setting pipeline to PAUSED"@) || contains(stderr, "PREROLL"@)
}

/// The start of every device name.
pub open spec fn name_prefix(index: usize) -> Seq<char> {
    "Index "@ + decimal_digits(index as nat) + ": "@
}

/// The name of a device of which nothing is known.
pub open spec fn anonymous_name(index: usize) -> Seq<char> {
    "Camera Device "@ + decimal_digits(index as nat)
}

/// The device name that `line` gives: what follows the first
/// `device-name=` up to the next one or to the first comma, without the
/// double quotes and the whitespace around it.
pub open spec fn name_in_line(line: Seq<char>) -> Option<Seq<char>> {
    if contains(line, "device-name"@) && contains(line, "="@) {
        match second_part(line, "device-name="@) {
            Some(part) => Some(trim(strip_quotes(before_first(part, ","@)))),
            None => None,
        }
    } else {
        None
    }
}

/// The device name that the first of the first `upto` lines to give one
/// gives.
pub open spec fn first_name(lines: Seq<Seq<char>>, upto: int) -> Option<Seq<char>>
    decreases upto,
{
    if upto <= 0 {
        None
    } else {
        match first_name(lines, upto - 1) {
            Some(name) => Some(name),
            None => name_in_line(lines[upto - 1]),
        }
    }
}

/// The name that the error stream reports for device `index`, or the
/// anonymous name when it reports none.
pub open spec fn reported_name(index: usize, stderr: Seq<char>) -> Seq<char> {
    if contains(stderr, "device-name"@) {
        match first_name(lines(stderr), lines(stderr).len() as int) {
            Some(name) => name_prefix(index) + name,
            None => anonymous_name(index),
        }
    } else {
        anonymous_name(index)
    }
}

/// The name under which device `index` is listed. Two kinds of device are
/// known by what the error stream mentions, and get a fixed name.
pub open spec fn device_name(index: usize, stderr: Seq<char>) -> Seq<char> {
    let reported = reported_name(index, stderr);
    if contains(stderr, "Camo"@) || contains(reported, "Camo"@) {
        name_prefix(index) + "Camo Virtual Camera (iPhone)"@
    } else if contains(stderr, "Integrated"@) || contains(stderr, "USB"@) {
        name_prefix(index) + "Integrated Camera"@
    } else {
        reported
    }
}

/// The engine's selector for device `index`.
pub open spec fn device_path(index: usize) -> Seq<char> {
    "device-index="@ + decimal_digits(index as nat)
}

/// Once a line has given a name, later lines do not change it.
pub proof fn lemma_first_name_stays(lines: Seq<Seq<char>>, found: int, upto: int)
    requires
        first_name(lines, found) is Some,
        found <= upto,
    ensures
        first_name(lines, upto) == first_name(lines, found),
    decreases upto - found,
{
    if found < upto {
        lemma_first_name_stays(lines, found, upto - 1);
    }
}

fn read_name_in_line(line: &[char]) -> (r: Option<String>)
    ensures
        r.is_some() == name_in_line(line@).is_some(),
        r matches Some(name) ==> name_in_line(line@) == Some(name@),
{
    let key = chars_of("device-name");
    let equals = chars_of("=");
    if contains_in(line, key.as_slice()) && contains_in(line, equals.as_slice()) {
        let assignment = chars_of("device-name=");
        match take_second(line, assignment.as_slice()) {
            Some(part) => {
                let comma = chars_of(",");
                let raw = take_before(part, comma.as_slice());
                Some(string_of(trim_slice(strip_quotes_slice(raw))))
            },
            None => None,
        }
    } else {
        None
    }
}

fn prefixed(index: usize, rest: &str) -> (r: String)
    ensures
        r@ == name_prefix(index) + rest@,
{
    let mut r = "Index ".to_owned();
    let digits = decimal_string(index);
    r.append(digits.as_str());
    r.append(": ");
    r.append(rest);
    r
}

fn read_reported_name(index: usize, stderr: &[char]) -> (r: String)
    ensures
        r@ == reported_name(index, stderr@),
{
    let mut anonymous = "Camera Device ".to_owned();
    let digits = decimal_string(index);
    anonymous.append(digits.as_str());
    let key = chars_of("device-name");
    if !contains_in(stderr, key.as_slice()) {
        return anonymous;
    }
    let all = lines_of(stderr);
    let mut i: usize = 0;
    while i < all.len()
        invariant
            i <= all@.len(),
            line_views(all@) == lines(stderr@),
            first_name(lines(stderr@), i as int) is None,
            contains(stderr@, "device-name"@),
            anonymous@ == anonymous_name(index),
        decreases all@.len() - i,
    {
        assert(line_views(all@)[i as int] == all@[i as int]@);
        match read_name_in_line(all[i].as_slice()) {
            Some(name) => {
                proof {
                    assert(lines(stderr@).len() == all@.len());
                    assert(first_name(lines(stderr@), i + 1) == Some(name@));
                    lemma_first_name_stays(lines(stderr@), i + 1, all@.len() as int);
                }
                return prefixed(index, name.as_str());
            },
            None => {},
        }
        i += 1;
    }
    anonymous
}

/// Probes the capture devices.
pub struct CameraBackend {
    index: usize,
    form: usize,
    cameras: Vec<CameraInfo>,
}

/// What a `CameraInfo` holds.
pub struct CameraInfoView {
    pub index: usize,
    pub name: Seq<char>,
    pub device_path: Seq<char>,
}

/// What `camera` holds.
pub open spec fn camera_view(camera: CameraInfo) -> CameraInfoView {
    CameraInfoView { index: camera.index, name: camera.name@, device_path: camera.device_path@ }
}

/// The device that a probe of device `index` found.
pub open spec fn found_camera(index: usize, stderr: Seq<char>) -> CameraInfoView {
    CameraInfoView {
        index,
        name: device_name(index, stderr),
        device_path: device_path(index),
    }
}

/// How far a detection has come.
pub struct DetectionState {
    /// The device that is probed next.
    pub index: usize,
    /// The form in which it is probed next.
    pub form: usize,
    /// The devices found so far.
    pub cameras: Seq<CameraInfoView>,
}

impl DetectionState {
    /// A detection that has probed nothing.
    pub open spec fn initial() -> DetectionState {
        DetectionState { index: 0, form: 0, cameras: Seq::empty() }
    }

    /// Every device has been dealt with.
    pub open spec fn done(self) -> bool {
        self.index >= PROBED_DEVICES
    }

    /// The probe that is next is one of the forms, and the devices found
    /// come in the order of their indices, which are below the one that is
    /// probed next.
    pub open spec fn wf(self) -> bool {
        &&& self.index <= PROBED_DEVICES
        &&& self.form < PROBE_FORMS
        &&& forall|k: int| 0 <= k < self.cameras.len() ==> (#[trigger] self.cameras[k]).index < self.index
        &&& forall|j: int, k: int|
            0 <= j < k < self.cameras.len() ==> (#[trigger] self.cameras[j]).index < (
            #[trigger] self.cameras[k]).index
    }

    /// The detection turned to the next device.
    pub open spec fn next_device(self) -> DetectionState {
        DetectionState { index: (self.index + 1) as usize, form: 0, ..self }
    }

    /// The detection after the probe that was next has been run, or could
    /// not be run (`None`). A probe that works lists the device and ends
    /// its probing; any other outcome leads to the next form, and after
    /// the last form to the next device.
    pub open spec fn reported(self, outcome: Option<(bool, Seq<char>)>) -> DetectionState {
        if self.done() {
            self
        } else {
            match outcome {
                Some((success, stderr)) if probe_works(success, stderr) => DetectionState {
                    cameras: self.cameras.push(found_camera(self.index, stderr)),
                    ..self
                }.next_device(),
                _ => if self.form + 1 < PROBE_FORMS {
                    DetectionState { form: (self.form + 1) as usize, ..self }
                } else {
                    self.next_device()
                },
            }
        }
    }
}

/// What `outcome` holds.
pub open spec fn outcome_view(outcome: Option<ProbeOutcome>) -> Option<(bool, Seq<char>)> {
    match outcome {
        Some(o) => Some((o.success, o.stderr@)),
        None => None,
    }
}

impl View for CameraBackend {
    type V = DetectionState;

    closed spec fn view(&self) -> DetectionState {
        DetectionState {
            index: self.index,
            form: self.form,
            cameras: Seq::new(self.cameras@.len(), |i: int| camera_view(self.cameras@[i])),
        }
    }
}

impl CameraBackend {
    /// A detection that has probed nothing.
    pub fn new() -> (r: CameraBackend)
        ensures
            r@ == DetectionState::initial(),
            r@.wf(),
    {
        let r = CameraBackend { index: 0, form: 0, cameras: Vec::new() };
        assert(r@.cameras =~= Seq::<CameraInfoView>::empty());
        r
    }

    /// The command that probes device `index` in the given form.
    pub fn probe_command(index: usize, form: usize) -> (r: String)
        ensures
            r@ == probe_text(index, form),
    {
        let mut r = PROBE_HEAD.to_owned();
        let digits = decimal_string(index);
        r.append(digits.as_str());
        if form == 0 {
            r.append(PROBE_PLAIN);
        } else if form == 1 {
            r.append(PROBE_SMALL);
        } else if form == 2 {
            r.append(PROBE_LARGE);
        } else {
            r.append(PROBE_RAW);
        }
        r
    }

    /// Whether a probe with this outcome found a device that works.
    pub fn probe_succeeded(success: bool, stderr: &str) -> (r: bool)
        ensures
            r == probe_works(success, stderr@),
    {
        if success {
            return true;
        }
        let chars = chars_of(stderr);
        let paused = chars_of("Setting pipeline to PAUSED");
        let preroll = chars_of("PREROLL");
        contains_in(chars.as_slice(), paused.as_slice()) || contains_in(
            chars.as_slice(),
            preroll.as_slice(),
        )
    }

    /// The name under which device `index` is listed, given what the
    /// engine wrote to its error stream.
    pub fn name_device(index: usize, stderr: &str) -> (r: String)
        ensures
            r@ == device_name(index, stderr@),
    {
        let chars = chars_of(stderr);
        let reported = read_reported_name(index, chars.as_slice());
        let reported_chars = chars_of(reported.as_str());
        let camo = chars_of("Camo");
        let integrated = chars_of("Integrated");
        let usb = chars_of("USB");
        if contains_in(chars.as_slice(), camo.as_slice()) || contains_in(
            reported_chars.as_slice(),
            camo.as_slice(),
        ) {
            prefixed(index, "Camo Virtual Camera (iPhone)")
        } else if contains_in(chars.as_slice(), integrated.as_slice()) || contains_in(
            chars.as_slice(),
            usb.as_slice(),
        ) {
            prefixed(index, "Integrated Camera")
        } else {
            reported
        }
    }

    /// The command of the probe that is to be run next; `None` when every
    /// device has been dealt with.
    pub fn next_probe(&self) -> (r: Option<String>)
        ensures
            self@.done() ==> r is None,
            !self@.done() ==> (r matches Some(command) && command@ == probe_text(
                self@.index,
                self@.form,
            )),
    {
        if self.index >= PROBED_DEVICES {
            None
        } else {
            Some(CameraBackend::probe_command(self.index, self.form))
        }
    }

    /// Takes the outcome of the probe that was next; `None` says that the
    /// probe could not be run.
    pub fn report(&mut self, outcome: Option<ProbeOutcome>)
        requires
            old(self)@.wf(),
        ensures
            final(self)@ == old(self)@.reported(outcome_view(outcome)),
            final(self)@.wf(),
    {
        if self.index >= PROBED_DEVICES {
            return ;
        }
        let works = match &outcome {
            Some(o) => CameraBackend::probe_succeeded(o.success, o.stderr.as_str()),
            None => false,
        };
        if works {
            let stderr = match &outcome {
                Some(o) => o.stderr.as_str(),
                None => "",
            };
            let mut path = "device-index=".to_owned();
            let digits = decimal_string(self.index);
            path.append(digits.as_str());
            let camera = CameraInfo {
                index: self.index,
                name: CameraBackend::name_device(self.index, stderr),
                device_path: path,
            };
            self.cameras.push(camera);
            self.index = self.index + 1;
            self.form = 0;
        } else if self.form + 1 < PROBE_FORMS {
            self.form = self.form + 1;
        } else {
            self.index = self.index + 1;
            self.form = 0;
        }
        assert(self@.cameras =~= old(self)@.reported(outcome_view(outcome)).cameras);
    }

    /// The devices found, in the order of their indices.
    pub fn detect_cameras(self) -> (r: Vec<CameraInfo>)
        ensures
            r@.len() == self@.cameras.len(),
            forall|i: int| 0 <= i < r@.len() ==> camera_view(#[trigger] r@[i]) == self@.cameras[i],
    {
        self.cameras
    }
}

/// The number of probes that a detection may still ask for.
pub open spec fn probes_left(state: DetectionState) -> int {
    (PROBED_DEVICES - state.index) * PROBE_FORMS - state.form
}

/// Every report brings the detection nearer to its end, so that it asks
/// for no more than four probes for each of the six devices.
pub proof fn lemma_detection_ends(state: DetectionState, outcome: Option<(bool, Seq<char>)>)
    requires
        state.wf(),
        !state.done(),
    ensures
        state.reported(outcome).wf(),
        0 <= probes_left(state.reported(outcome)) < probes_left(state),
        probes_left(DetectionState::initial()) == 24,
{
    let next = state.reported(outcome);
    assert(next.wf()) by {
        assert forall|k: int| 0 <= k < next.cameras.len() implies (#[trigger] next.cameras[k]).index
            < next.index by {
            if k < state.cameras.len() {
                assert(state.cameras[k].index < state.index);
            }
        }
        assert forall|j: int, k: int| 0 <= j < k < next.cameras.len() implies (
        #[trigger] next.cameras[j]).index < (#[trigger] next.cameras[k]).index by {
            if k < state.cameras.len() {
                assert(state.cameras[j].index < state.cameras[k].index);
            } else {
                assert(state.cameras[j].index < state.index);
            }
        }
    }
}

/// A device is listed only by a probe that works, and under the index
/// that was probed.
pub proof fn lemma_listed_by_a_working_probe(state: DetectionState, outcome: Option<(bool, Seq<char>)>)
    requires
        !state.done(),
    ensures
        ({
            let next = state.reported(outcome);
            match outcome {
                Some((success, stderr)) => if probe_works(success, stderr) {
                    next.cameras == state.cameras.push(found_camera(state.index, stderr))
                } else {
                    next.cameras == state.cameras
                },
                None => next.cameras == state.cameras,
            }
        }),
{
}

} // verus!
