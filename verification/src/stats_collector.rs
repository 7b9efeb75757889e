//! Stream-health statistics reconstructed from the engine's diagnostic text.
//!
//! Two kinds of lines are understood. An event line reports one packet by
//! its sequence number; the numbers seen are kept in sets, so that a number
//! reported twice counts once. A keyed line carries `key: value` or
//! `key=value` tokens whose values replace the counters they name.

use std::collections::HashSet;
use vstd::prelude::*;
use vstd::slice::slice_subrange;
use crate::text::{
    chars_of, contains, contains_in, find, find_in, leading_number, matches_at, parse_u32,
    parse_u32_spec, read_leading_number, saturate_u32, starts_at, trim, trim_slice, trim_start,
    trim_start_slice,
};

verus! {

/// The text that marks a line reporting a recovered packet.
pub open spec fn recovered_marker() -> Seq<char> {
    "Successfully recovered packet: seqnum:"@
}

/// The text that precedes the sequence number of a recovered packet.
pub open spec fn recovered_key() -> Seq<char> {
    "seqnum: "@
}

/// The text that marks, and precedes the sequence number of, a lost packet.
pub open spec fn lost_marker() -> Seq<char> {
    "Add Lost timer for #"@
}

/// The character that ends a sequence number.
pub open spec fn comma() -> Seq<char> {
    ","@
}

/// The text between the first `key` in `line` and the first comma after it.
pub open spec fn field_after(line: Seq<char>, key: Seq<char>) -> Option<Seq<char>> {
    match find(line, key) {
        Some(i) => {
            let rest = line.skip(i + key.len());
            match find(rest, comma()) {
                Some(j) => Some(rest.take(j)),
                None => None,
            }
        },
        None => None,
    }
}

/// The sequence number that follows the first `key` in `line`: the text up
/// to the next comma, trimmed and read as a `u32`.
pub open spec fn seqnum_after(line: Seq<char>, key: Seq<char>) -> Option<u32> {
    match field_after(line, key) {
        Some(field) => parse_u32_spec(trim(field)),
        None => None,
    }
}

fn extract_seqnum(line: &[char], key: &[char]) -> (r: Option<u32>)
    ensures
        r == seqnum_after(line@, key@),
{
    match find_in(line, key) {
        None => None,
        Some(i) => {
            let n: usize = line.len();
            let rest = slice_subrange(line, i + key.len(), n);
            assert(rest@ =~= line@.skip(i + key@.len()));
            let sep = chars_of(",");
            match find_in(rest, sep.as_slice()) {
                None => None,
                Some(j) => {
                    let field = slice_subrange(rest, 0, j);
                    assert(field@ =~= rest@.take(j as int));
                    parse_u32(trim_slice(field))
                },
            }
        },
    }
}

/// The sequence number of the packet whose recovery `line` reports.
pub fn extract_seqnum_from_recovered(line: &str) -> (r: Option<u32>)
    ensures
        r == seqnum_after(line@, recovered_key()),
{
    let chars = chars_of(line);
    let key = chars_of("seqnum: ");
    extract_seqnum(chars.as_slice(), key.as_slice())
}

/// The sequence number of the packet whose loss `line` reports.
pub fn extract_seqnum_from_lost(line: &str) -> (r: Option<u32>)
    ensures
        r == seqnum_after(line@, lost_marker()),
{
    let chars = chars_of(line);
    let key = chars_of("Add Lost timer for #");
    extract_seqnum(chars.as_slice(), key.as_slice())
}

/// The characters that may stand between a key and its value.
pub open spec fn is_separator(c: char) -> bool {
    c == ':' || c == '='
}

/// The value that follows a key: optional whitespace, a separator, optional
/// whitespace, then decimal digits, read as a number that saturates.
pub open spec fn value_after_key(rest: Seq<char>) -> Option<u32> {
    let a = trim_start(rest);
    if a.len() > 0 && is_separator(a[0]) {
        leading_number(trim_start(a.drop_first()))
    } else {
        None
    }
}

/// The value of the `key` token that starts at position `p` of `line`.
pub open spec fn token_at(line: Seq<char>, key: Seq<char>, p: int) -> Option<u32> {
    if matches_at(line, key, p) {
        value_after_key(line.skip(p + key.len()))
    } else {
        None
    }
}

/// The value of the last `key` token that starts before position `upto`.
pub open spec fn last_token(line: Seq<char>, key: Seq<char>, upto: int) -> Option<u32>
    decreases upto,
{
    if upto <= 0 {
        None
    } else {
        match token_at(line, key, upto - 1) {
            Some(v) => Some(v),
            None => last_token(line, key, upto - 1),
        }
    }
}

/// The value that `line` gives for `key`: that of its last `key` token.
pub open spec fn keyed_value(line: Seq<char>, key: Seq<char>) -> Option<u32> {
    last_token(line, key, line.len() as int)
}

fn read_token(line: &[char], key: &[char], p: usize) -> (r: Option<u32>)
    requires
        p < line@.len(),
    ensures
        r == token_at(line@, key@, p as int),
{
    if !starts_at(line, key, p) {
        return None;
    }
    let n: usize = line.len();
    let rest = slice_subrange(line, p + key.len(), n);
    assert(rest@ =~= line@.skip(p + key@.len()));
    let a = trim_start_slice(rest);
    if a.len() > 0 && (a[0] == ':' || a[0] == '=') {
        let b = slice_subrange(a, 1, a.len());
        assert(b@ =~= a@.drop_first());
        read_leading_number(trim_start_slice(b))
    } else {
        None
    }
}

/// Reads the value that `line` gives for `key`.
pub fn read_keyed_value(line: &[char], key: &[char]) -> (r: Option<u32>)
    ensures
        r == keyed_value(line@, key@),
{
    let n: usize = line.len();
    let mut best: Option<u32> = None;
    let mut p: usize = 0;
    while p < n
        invariant
            p <= n,
            n == line@.len(),
            best == last_token(line@, key@, p as int),
        decreases n - p,
    {
        match read_token(line, key, p) {
            Some(v) => {
                best = Some(v);
            },
            None => {},
        }
        p += 1;
    }
    best
}

/// The counters that one keyed line names, each with the value it gives.
#[derive(Clone, Copy, Debug, PartialEq, Eq)]
pub struct KeyedFields {
    /// `received-packets`.
    pub received: Option<u32>,
    /// `lost-packets`.
    pub lost: Option<u32>,
    /// `recovered-packets`.
    pub recovered: Option<u32>,
    /// `buffered-media-packets`.
    pub buffered_media: Option<u32>,
    /// `buffered-repair-packets`.
    pub buffered_repair: Option<u32>,
}

impl KeyedFields {
    /// No counter is named.
    pub open spec fn is_empty(self) -> bool {
        &&& self.received is None
        &&& self.lost is None
        &&& self.recovered is None
        &&& self.buffered_media is None
        &&& self.buffered_repair is None
    }
}

/// `n` limited to the range of `u32`.
pub open spec fn saturate_counter(n: Option<u64>) -> Option<u32> {
    match n {
        Some(v) => Some(saturate_u32(v as int)),
        None => None,
    }
}

fn saturating_counter(n: Option<u64>) -> (r: Option<u32>)
    ensures
        r == saturate_counter(n),
{
    match n {
        Some(v) => Some(
            if v >= 0xffff_ffff {
                0xffff_ffff
            } else {
                v as u32
            },
        ),
        None => None,
    }
}

impl KeyedFields {
    /// The fields for counters that were read as numbers, not as text: each
    /// is limited to the range of `u32`.
    pub fn from_counters(
        received: Option<u64>,
        lost: Option<u64>,
        recovered: Option<u64>,
        buffered_media: Option<u64>,
        buffered_repair: Option<u64>,
    ) -> (r: KeyedFields)
        ensures
            r == (KeyedFields {
                received: saturate_counter(received),
                lost: saturate_counter(lost),
                recovered: saturate_counter(recovered),
                buffered_media: saturate_counter(buffered_media),
                buffered_repair: saturate_counter(buffered_repair),
            }),
    {
        KeyedFields {
            received: saturating_counter(received),
            lost: saturating_counter(lost),
            recovered: saturating_counter(recovered),
            buffered_media: saturating_counter(buffered_media),
            buffered_repair: saturating_counter(buffered_repair),
        }
    }
}

/// The keyed fields that `line` carries.
pub open spec fn keyed_fields(line: Seq<char>) -> KeyedFields {
    KeyedFields {
        received: keyed_value(line, "received-packets"@),
        lost: keyed_value(line, "lost-packets"@),
        recovered: keyed_value(line, "recovered-packets"@),
        buffered_media: keyed_value(line, "buffered-media-packets"@),
        buffered_repair: keyed_value(line, "buffered-repair-packets"@),
    }
}

/// Reads the keyed fields that `line` carries.
pub fn read_keyed_fields(line: &[char]) -> (r: KeyedFields)
    ensures
        r == keyed_fields(line@),
{
    let received = chars_of("received-packets");
    let lost = chars_of("lost-packets");
    let recovered = chars_of("recovered-packets");
    let media = chars_of("buffered-media-packets");
    let repair = chars_of("buffered-repair-packets");
    KeyedFields {
        received: read_keyed_value(line, received.as_slice()),
        lost: read_keyed_value(line, lost.as_slice()),
        recovered: read_keyed_value(line, recovered.as_slice()),
        buffered_media: read_keyed_value(line, media.as_slice()),
        buffered_repair: read_keyed_value(line, repair.as_slice()),
    }
}

/// What one diagnostic line tells the collector.
#[derive(Clone, Copy, Debug, PartialEq, Eq)]
pub enum Observation {
    /// The packet with this sequence number was recovered.
    Recovered(u32),
    /// The packet with this sequence number was declared lost.
    Lost(u32),
    /// New values for the counters named.
    Fields(KeyedFields),
    /// Nothing that the collector records.
    Nothing,
}

/// What `line` tells the collector. A line that carries an event marker is
/// read as that event and as nothing else; any other line is searched for
/// keyed fields.
pub open spec fn observe(line: Seq<char>) -> Observation {
    if contains(line, recovered_marker()) {
        match seqnum_after(line, recovered_key()) {
            Some(n) => Observation::Recovered(n),
            None => Observation::Nothing,
        }
    } else if contains(line, lost_marker()) {
        match seqnum_after(line, lost_marker()) {
            Some(n) => Observation::Lost(n),
            None => Observation::Nothing,
        }
    } else {
        let fields = keyed_fields(line);
        if fields.is_empty() {
            Observation::Nothing
        } else {
            Observation::Fields(fields)
        }
    }
}

/// Reads one diagnostic line.
pub fn observe_line(line: &str) -> (r: Observation)
    ensures
        r == observe(line@),
{
    let chars = chars_of(line);
    let recovered = chars_of("Successfully recovered packet: seqnum:");
    let lost = chars_of("Add Lost timer for #");
    if contains_in(chars.as_slice(), recovered.as_slice()) {
        let key = chars_of("seqnum: ");
        match extract_seqnum(chars.as_slice(), key.as_slice()) {
            Some(n) => Observation::Recovered(n),
            None => Observation::Nothing,
        }
    } else if contains_in(chars.as_slice(), lost.as_slice()) {
        match extract_seqnum(chars.as_slice(), lost.as_slice()) {
            Some(n) => Observation::Lost(n),
            None => Observation::Nothing,
        }
    } else {
        let fields = read_keyed_fields(chars.as_slice());
        if fields.received.is_none() && fields.lost.is_none() && fields.recovered.is_none()
            && fields.buffered_media.is_none() && fields.buffered_repair.is_none() {
            Observation::Nothing
        } else {
            Observation::Fields(fields)
        }
    }
}

/// A snapshot of one channel's stream health.
///
/// The three rates are fixed-point integers: the repair rate in thousandths
/// of a percent, the bitrate in tenths of a kilobit per second, the latency
/// in milliseconds.
#[derive(Clone, Copy, Debug, PartialEq, Eq)]
pub struct StreamStats {
    /// The packets that arrived or were recovered.
    pub packets_received: u32,
    /// The packets that were declared lost.
    pub packets_lost: u32,
    /// The packets that error correction recovered.
    pub packets_repaired: u32,
    /// The packets that came too late: one lost packet in ten.
    pub packets_late: u32,
    /// The packets received and lost together; the sum saturates.
    pub packets_sent: u32,
    /// The packets repaired out of those sent, in thousandths of a percent.
    pub repair_rate_millipercent: u64,
    /// The estimated bitrate, in tenths of a kilobit per second.
    pub bitrate_decikbps: u64,
    /// The estimated latency, in milliseconds.
    pub latency_ms: u64,
    /// The caller's clock, in milliseconds, at the last update.
    pub last_update: Option<u64>,
}

impl StreamStats {
    /// The snapshot of a channel that has recorded nothing.
    pub open spec fn zero() -> StreamStats {
        StreamStats {
            packets_received: 0,
            packets_lost: 0,
            packets_repaired: 0,
            packets_late: 0,
            packets_sent: 0,
            repair_rate_millipercent: 0,
            bitrate_decikbps: 0,
            latency_ms: 0,
            last_update: None,
        }
    }

    /// The packets sent are those received and those lost, and one lost
    /// packet in ten counts as late.
    pub open spec fn consistent(self) -> bool {
        &&& self.packets_sent == saturate_u32(self.packets_received + self.packets_lost)
        &&& self.packets_late == self.packets_lost / 10
    }

    /// Returns the zero snapshot.
    pub fn new() -> (r: StreamStats)
        ensures
            r == StreamStats::zero(),
    {
        StreamStats {
            packets_received: 0,
            packets_lost: 0,
            packets_repaired: 0,
            packets_late: 0,
            packets_sent: 0,
            repair_rate_millipercent: 0,
            bitrate_decikbps: 0,
            latency_ms: 0,
            last_update: None,
        }
    }
}

impl Default for StreamStats {
    fn default() -> (r: StreamStats)
        ensures
            r == StreamStats::zero(),
    {
        StreamStats::new()
    }
}

/// The repair rate, in thousandths of a percent, of `repaired` packets out
/// of `total`; `previous` when `total` is zero.
pub open spec fn repair_rate(repaired: u32, total: int, previous: u64) -> u64 {
    if total > 0 {
        (100_000 * repaired / total) as u64
    } else {
        previous
    }
}

/// The bitrate estimate, in tenths of a kilobit per second, for a media
/// buffer of the given depth: 800 kbit/s and a tenth more for each packet.
pub open spec fn bitrate_estimate(buffered_media: u32) -> u64 {
    (8000 + buffered_media) as u64
}

/// The latency estimate, in milliseconds, for a repair buffer of the given
/// depth: 10 ms and two more for each packet.
pub open spec fn latency_estimate(buffered_repair: u32) -> u64 {
    (10 + 2 * buffered_repair) as u64
}

/// The snapshot that follows `previous` once the counters are as given.
pub open spec fn derive_stats(
    previous: StreamStats,
    received: u32,
    lost: u32,
    repaired: u32,
    buffered_media: u32,
    buffered_repair: u32,
    now: u64,
) -> StreamStats {
    StreamStats {
        packets_received: received,
        packets_lost: lost,
        packets_repaired: repaired,
        packets_late: lost / 10,
        packets_sent: saturate_u32(received + lost),
        repair_rate_millipercent: repair_rate(
            repaired,
            received + lost,
            previous.repair_rate_millipercent,
        ),
        bitrate_decikbps: bitrate_estimate(buffered_media),
        latency_ms: latency_estimate(buffered_repair),
        last_update: Some(now),
    }
}

/// The number of members of `s`, limited to the range of `u32`.
pub open spec fn count(s: Set<u32>) -> u32 {
    saturate_u32(s.len() as int)
}

/// What a collector holds.
#[verifier::ext_equal]
pub struct CollectorState {
    /// The channel whose statistics these are.
    pub channel: usize,
    /// Whether lines are being recorded.
    pub active: bool,
    /// The current snapshot.
    pub stats: StreamStats,
    /// The depth of the media buffer, as last reported.
    pub buffered_media: u32,
    /// The depth of the repair buffer, as last reported.
    pub buffered_repair: u32,
    /// The sequence numbers of the packets reported as recovered.
    pub recovered: Set<u32>,
    /// The sequence numbers of the packets reported as lost.
    pub lost: Set<u32>,
}

impl CollectorState {
    /// A collector that has recorded nothing.
    pub open spec fn fresh(channel: usize, active: bool) -> CollectorState {
        CollectorState {
            channel,
            active,
            stats: StreamStats::zero(),
            buffered_media: 0,
            buffered_repair: 0,
            recovered: Set::empty(),
            lost: Set::empty(),
        }
    }

    /// The state with its snapshot recomputed from the counters given.
    pub open spec fn refreshed(self, received: u32, lost: u32, repaired: u32, now: u64) -> CollectorState {
        CollectorState {
            stats: derive_stats(
                self.stats,
                received,
                lost,
                repaired,
                self.buffered_media,
                self.buffered_repair,
                now,
            ),
            ..self
        }
    }

    /// The state with its snapshot recomputed from the two sets: each
    /// recovered packet counts as received and as repaired.
    pub open spec fn recounted(self, now: u64) -> CollectorState {
        self.refreshed(count(self.recovered), count(self.lost), count(self.recovered), now)
    }

    /// The state with the counters that `fields` names overwritten.
    pub open spec fn overwritten(self, fields: KeyedFields, now: u64) -> CollectorState {
        let depths = CollectorState {
            buffered_media: match fields.buffered_media {
                Some(v) => v,
                None => self.buffered_media,
            },
            buffered_repair: match fields.buffered_repair {
                Some(v) => v,
                None => self.buffered_repair,
            },
            ..self
        };
        depths.refreshed(
            match fields.received {
                Some(v) => v,
                None => self.stats.packets_received,
            },
            match fields.lost {
                Some(v) => v,
                None => self.stats.packets_lost,
            },
            match fields.recovered {
                Some(v) => v,
                None => self.stats.packets_repaired,
            },
            now,
        )
    }

    /// The state after `observation` is recorded at time `now`. A collector
    /// that is not active records nothing.
    pub open spec fn record(self, observation: Observation, now: u64) -> CollectorState {
        if !self.active {
            self
        } else {
            match observation {
                Observation::Nothing => self,
                Observation::Recovered(n) => CollectorState {
                    recovered: self.recovered.insert(n),
                    ..self
                }.recounted(now),
                Observation::Lost(n) => CollectorState {
                    lost: self.lost.insert(n),
                    ..self
                }.recounted(now),
                Observation::Fields(fields) => self.overwritten(fields, now),
            }
        }
    }

    /// The two sets are finite. The snapshot is zero until the first
    /// update, and agrees with the buffer depths from then on.
    pub open spec fn wf(self) -> bool {
        &&& self.recovered.finite()
        &&& self.lost.finite()
        &&& self.stats.consistent()
        &&& self.stats.last_update is None ==> self.stats == StreamStats::zero()
        &&& self.stats.last_update is Some ==> {
            &&& self.stats.bitrate_decikbps == bitrate_estimate(self.buffered_media)
            &&& self.stats.latency_ms == latency_estimate(self.buffered_repair)
        }
    }
}

/// Collects the statistics of one channel.
pub struct StatsCollector {
    camera_index: usize,
    active: bool,
    stats: StreamStats,
    buffered_media: u32,
    buffered_repair: u32,
    recovered_packets: HashSet<u32>,
    lost_packets: HashSet<u32>,
}

impl View for StatsCollector {
    type V = CollectorState;

    closed spec fn view(&self) -> CollectorState {
        CollectorState {
            channel: self.camera_index,
            active: self.active,
            stats: self.stats,
            buffered_media: self.buffered_media,
            buffered_repair: self.buffered_repair,
            recovered: self.recovered_packets@,
            lost: self.lost_packets@,
        }
    }
}

fn saturating_count(n: usize) -> (r: u32)
    ensures
        r == saturate_u32(n as int),
{
    if n >= 0xffff_ffff {
        0xffff_ffff
    } else {
        n as u32
    }
}

impl StatsCollector {
    /// Creates an active collector that has recorded nothing. The two ports
    /// identify the channel to the caller and are not kept.
    pub fn new(camera_index: usize, _rtp_port: u16, _fec_port: u16) -> (r: StatsCollector)
        ensures
            r@ == CollectorState::fresh(camera_index, true),
            r@.wf(),
    {
        StatsCollector {
            camera_index,
            active: true,
            stats: StreamStats::new(),
            buffered_media: 0,
            buffered_repair: 0,
            recovered_packets: HashSet::new(),
            lost_packets: HashSet::new(),
        }
    }

    /// The channel that this collector belongs to.
    pub fn camera_index(&self) -> (r: usize)
        ensures
            r == self@.channel,
    {
        self.camera_index
    }

    /// Whether lines are being recorded.
    pub fn is_active(&self) -> (r: bool)
        ensures
            r == self@.active,
    {
        self.active
    }

    /// Resets the collector: every counter is zero, both sets are empty, and
    /// lines are recorded from now on.
    pub fn start(&mut self)
        ensures
            final(self)@ == CollectorState::fresh(old(self)@.channel, true),
            final(self)@.wf(),
    {
        self.stats = StreamStats::new();
        self.buffered_media = 0;
        self.buffered_repair = 0;
        self.recovered_packets.clear();
        self.lost_packets.clear();
        self.active = true;
    }

    /// Freezes the collector: the snapshot stays as it is, and lines are no
    /// longer recorded.
    pub fn stop(&mut self)
        ensures
            final(self)@ == (CollectorState { active: false, ..old(self)@ }),
            old(self)@.wf() ==> final(self)@.wf(),
    {
        self.active = false;
    }

    /// Returns a copy of the current snapshot.
    pub fn get_stats(&self) -> (r: StreamStats)
        ensures
            r == self@.stats,
    {
        self.stats
    }

    fn update_stats(&mut self, received: u32, lost: u32, repaired: u32, now: u64)
        ensures
            final(self)@ == old(self)@.refreshed(received, lost, repaired, now),
    {
        let total: u64 = received as u64 + lost as u64;
        let rate: u64 = if total > 0 {
            100_000u64 * (repaired as u64) / total
        } else {
            self.stats.repair_rate_millipercent
        };
        self.stats = StreamStats {
            packets_received: received,
            packets_lost: lost,
            packets_repaired: repaired,
            packets_late: lost / 10,
            packets_sent: received.saturating_add(lost),
            repair_rate_millipercent: rate,
            bitrate_decikbps: 8000u64 + self.buffered_media as u64,
            latency_ms: 10u64 + 2u64 * (self.buffered_repair as u64),
            last_update: Some(now),
        };
    }

    /// Records one observation at time `now`.
    pub fn record(&mut self, observation: Observation, now: u64)
        ensures
            final(self)@ == old(self)@.record(observation, now),
            old(self)@.wf() ==> final(self)@.wf(),
    {
        broadcast use vstd::std_specs::hash::group_hash_axioms;

        if !self.active {
            return ;
        }
        match observation {
            Observation::Nothing => {},
            Observation::Recovered(n) => {
                self.recovered_packets.insert(n);
                let received = saturating_count(self.recovered_packets.len());
                let lost = saturating_count(self.lost_packets.len());
                self.update_stats(received, lost, received, now);
            },
            Observation::Lost(n) => {
                self.lost_packets.insert(n);
                let received = saturating_count(self.recovered_packets.len());
                let lost = saturating_count(self.lost_packets.len());
                self.update_stats(received, lost, received, now);
            },
            Observation::Fields(fields) => {
                if let Some(v) = fields.buffered_media {
                    self.buffered_media = v;
                }
                if let Some(v) = fields.buffered_repair {
                    self.buffered_repair = v;
                }
                let received = match fields.received {
                    Some(v) => v,
                    None => self.stats.packets_received,
                };
                let lost = match fields.lost {
                    Some(v) => v,
                    None => self.stats.packets_lost,
                };
                let repaired = match fields.recovered {
                    Some(v) => v,
                    None => self.stats.packets_repaired,
                };
                self.update_stats(received, lost, repaired, now);
            },
        }
    }

    /// Reads one diagnostic line and records what it tells, at time `now`.
    pub fn parse_debug_line(&mut self, line: &str, now: u64)
        ensures
            final(self)@ == old(self)@.record(observe(line@), now),
            old(self)@.wf() ==> final(self)@.wf(),
    {
        let observation = observe_line(line);
        self.record(observation, now);
    }
}

/// The two snapshots agree in every counter and rate; the time of the last
/// update may differ.
pub open spec fn same_counters(a: StreamStats, b: StreamStats) -> bool {
    a == (StreamStats { last_update: a.last_update, ..b })
}

/// `observation` reports a packet by its sequence number.
pub open spec fn is_event(observation: Observation) -> bool {
    observation is Recovered || observation is Lost
}

/// Recording an event a second time changes neither the sets nor any
/// counter: a sequence number that is reported twice counts once.
pub proof fn lemma_event_recorded_once(
    state: CollectorState,
    event: Observation,
    first: u64,
    second: u64,
)
    requires
        is_event(event),
    ensures
        ({
            let once = state.record(event, first);
            let twice = once.record(event, second);
            &&& twice.recovered == once.recovered
            &&& twice.lost == once.lost
            &&& same_counters(twice.stats, once.stats)
        }),
{
    let once = state.record(event, first);
    let twice = once.record(event, second);
    if state.active {
        match event {
            Observation::Recovered(n) => {
                assert(once.recovered.insert(n) =~= once.recovered);
            },
            Observation::Lost(n) => {
                assert(once.lost.insert(n) =~= once.lost);
            },
            _ => {},
        }
    }
}

/// A line that reports an event, fed twice, counts once.
pub proof fn lemma_event_line_recorded_once(
    state: CollectorState,
    line: Seq<char>,
    first: u64,
    second: u64,
)
    requires
        is_event(observe(line)),
    ensures
        ({
            let once = state.record(observe(line), first);
            let twice = once.record(observe(line), second);
            &&& twice.recovered == once.recovered
            &&& twice.lost == once.lost
            &&& same_counters(twice.stats, once.stats)
        }),
{
    lemma_event_recorded_once(state, observe(line), first, second);
}

/// The first recovered packet that a fresh collector hears of counts as one
/// however often it is reported.
pub proof fn lemma_first_event_counts_one(channel: usize, n: u32, first: u64, second: u64)
    ensures
        ({
            let once = CollectorState::fresh(channel, true).record(
                Observation::Recovered(n),
                first,
            );
            let twice = once.record(Observation::Recovered(n), second);
            &&& once.stats.packets_received == 1
            &&& twice.stats.packets_received == 1
        }),
{
    let empty = Set::<u32>::empty();
    assert(empty.insert(n).insert(n) =~= empty.insert(n));
    assert(empty.insert(n).len() == 1);
}

/// `later` if it is there, else `earlier`.
pub open spec fn latest(earlier: u32, later: Option<u32>) -> u32 {
    match later {
        Some(v) => v,
        None => earlier,
    }
}

/// Of two keyed updates, the later one decides every counter that it
/// names; the earlier one decides the others that it names.
pub proof fn lemma_keyed_last_write_wins(
    state: CollectorState,
    earlier: KeyedFields,
    later: KeyedFields,
    first: u64,
    second: u64,
)
    requires
        state.active,
    ensures
        ({
            let end = state.record(Observation::Fields(earlier), first).record(
                Observation::Fields(later),
                second,
            );
            &&& end.stats.packets_received == latest(
                latest(state.stats.packets_received, earlier.received),
                later.received,
            )
            &&& end.stats.packets_lost == latest(
                latest(state.stats.packets_lost, earlier.lost),
                later.lost,
            )
            &&& end.stats.packets_repaired == latest(
                latest(state.stats.packets_repaired, earlier.recovered),
                later.recovered,
            )
            &&& end.buffered_media == latest(
                latest(state.buffered_media, earlier.buffered_media),
                later.buffered_media,
            )
            &&& end.buffered_repair == latest(
                latest(state.buffered_repair, earlier.buffered_repair),
                later.buffered_repair,
            )
        }),
{
}

/// Of two keyed lines, the later one decides every counter that it names.
pub proof fn lemma_keyed_lines_last_write_wins(
    state: CollectorState,
    earlier: Seq<char>,
    later: Seq<char>,
    first: u64,
    second: u64,
)
    requires
        state.active,
        observe(later) is Fields,
    ensures
        ({
            let fields = observe(later)->Fields_0;
            let end = state.record(observe(earlier), first).record(observe(later), second);
            &&& fields.received matches Some(v) ==> end.stats.packets_received == v
            &&& fields.lost matches Some(v) ==> end.stats.packets_lost == v
            &&& fields.recovered matches Some(v) ==> end.stats.packets_repaired == v
            &&& fields.buffered_media matches Some(v) ==> end.buffered_media == v
                && end.stats.bitrate_decikbps == bitrate_estimate(v)
            &&& fields.buffered_repair matches Some(v) ==> end.buffered_repair == v
                && end.stats.latency_ms == latency_estimate(v)
        }),
{
}

/// When no more packets are repaired than were sent, the repair rate is at
/// most one hundred percent.
pub proof fn lemma_repair_rate_bounded(repaired: u32, total: int, previous: u64)
    requires
        repaired <= total,
        previous <= 100_000,
    ensures
        repair_rate(repaired, total, previous) <= 100_000,
{
    if total > 0 {
        assert(100_000 * repaired / total <= 100_000) by (nonlinear_arith)
            requires
                0 <= repaired <= total,
                total > 0,
        ;
    }
}

/// Every update recomputes the repair rate from the counters that it
/// leaves, and keeps the rate when nothing was sent. The rate is at most
/// one hundred percent whenever no more packets count as repaired than
/// were sent, which is so after every event.
pub proof fn lemma_repair_rate_recomputed(state: CollectorState, observation: Observation, now: u64)
    requires
        state.active,
        !(observation is Nothing),
        state.stats.repair_rate_millipercent <= 100_000,
    ensures
        ({
            let next = state.record(observation, now).stats;
            let sent = next.packets_received + next.packets_lost;
            &&& next.repair_rate_millipercent == repair_rate(
                next.packets_repaired,
                sent,
                state.stats.repair_rate_millipercent,
            )
            &&& sent > 0 ==> next.repair_rate_millipercent == 100_000 * next.packets_repaired / sent
            &&& sent == 0 ==> next.repair_rate_millipercent == state.stats.repair_rate_millipercent
            &&& next.packets_repaired <= sent ==> next.repair_rate_millipercent <= 100_000
            &&& is_event(observation) ==> next.repair_rate_millipercent <= 100_000
        }),
{
    let next = state.record(observation, now).stats;
    let sent = next.packets_received + next.packets_lost;
    if next.packets_repaired <= sent {
        lemma_repair_rate_bounded(
            next.packets_repaired,
            sent,
            state.stats.repair_rate_millipercent,
        );
    }
}

/// A deeper buffer never gives a lower estimate.
pub proof fn lemma_estimates_monotone(shallow: u32, deep: u32)
    requires
        shallow <= deep,
    ensures
        bitrate_estimate(shallow) <= bitrate_estimate(deep),
        latency_estimate(shallow) <= latency_estimate(deep),
{
}

/// Whatever is recorded, the snapshot stays consistent: no reader sees the
/// packets sent differ from those received and lost together, as long as
/// their sum fits the counter.
pub proof fn lemma_snapshot_never_torn(state: CollectorState, observation: Observation, now: u64)
    requires
        state.wf(),
    ensures
        state.record(observation, now).wf(),
        ({
            let stats = state.record(observation, now).stats;
            stats.packets_received + stats.packets_lost <= u32::MAX ==> stats.packets_sent
                == stats.packets_received + stats.packets_lost
        }),
{
}

/// Whatever the counters are set to, the snapshot that is made of them is
/// consistent: the packets sent are those received and those lost
/// together, and where that sum does not fit the counter it is the
/// counter's largest value, never a wrapped one.
pub proof fn lemma_refreshed_is_consistent(
    state: CollectorState,
    received: u32,
    lost: u32,
    repaired: u32,
    now: u64,
)
    ensures
        ({
            let stats = state.refreshed(received, lost, repaired, now).stats;
            &&& stats.consistent()
            &&& stats.packets_received == received
            &&& stats.packets_lost == lost
            &&& received + lost <= u32::MAX ==> stats.packets_sent == received + lost
            &&& received + lost > u32::MAX ==> stats.packets_sent == u32::MAX
        }),
{
}

/// One if `n` is not yet in `seen`, else none.
pub open spec fn newly(seen: Set<u32>, n: u32) -> nat {
    if seen.contains(n) {
        0
    } else {
        1
    }
}

/// An event counts at most one packet more, and none less: the set that
/// it belongs to grows by its sequence number if that is new, the other
/// set stays, and the counters are the sizes of the sets.
pub proof fn lemma_event_counts_one_more(state: CollectorState, event: Observation, now: u64)
    requires
        state.wf(),
        state.active,
        is_event(event),
    ensures
        ({
            let next = state.record(event, now);
            &&& next.wf()
            &&& next.stats.packets_received == count(next.recovered)
            &&& next.stats.packets_lost == count(next.lost)
            &&& count(state.recovered) <= count(next.recovered) <= count(state.recovered) + 1
            &&& count(state.lost) <= count(next.lost) <= count(state.lost) + 1
            &&& event matches Observation::Recovered(n) ==> (next.lost == state.lost
                && next.recovered.len() == state.recovered.len() + newly(state.recovered, n))
            &&& event matches Observation::Lost(n) ==> (next.recovered == state.recovered
                && next.lost.len() == state.lost.len() + newly(state.lost, n))
        }),
{
}

} // verus!
