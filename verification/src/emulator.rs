//! Hardware emulation engine: per-endpoint synthetic hardware state —
//! sensor suite, audio routing, network overlay, battery — created on
//! attach, mutated by validated injection and simulation ticks, and
//! discarded on detach.

use vstd::prelude::*;
use crate::sensors::{
    SensorKind, SensorState, SensorSuite, SensorValue, spec_default_suite, default_suite,
    spec_apply_drift, apply_drift,
};
use crate::strutil::str_eq;

verus! {

/// Where injected or routed audio comes from.
#[derive(Debug, PartialEq, Eq)]
pub enum AudioSource {
    Microphone,
    TtsEngine,
    AudioFile(String),
    Synthetic,
}

impl Clone for AudioSource {
    fn clone(&self) -> (r: AudioSource)
        ensures
            r == *self,
    {
        match self {
            AudioSource::Microphone => AudioSource::Microphone,
            AudioSource::TtsEngine => AudioSource::TtsEngine,
            AudioSource::AudioFile(path) => AudioSource::AudioFile(path.clone()),
            AudioSource::Synthetic => AudioSource::Synthetic,
        }
    }
}

/// Where routed audio goes.
#[derive(Debug, PartialEq, Eq)]
pub enum AudioDestination {
    Speaker,
    SttEngine,
    AudioFile(String),
    Agent,
}

impl Clone for AudioDestination {
    fn clone(&self) -> (r: AudioDestination)
        ensures
            r == *self,
    {
        match self {
            AudioDestination::Speaker => AudioDestination::Speaker,
            AudioDestination::SttEngine => AudioDestination::SttEngine,
            AudioDestination::AudioFile(path) => AudioDestination::AudioFile(path.clone()),
            AudioDestination::Agent => AudioDestination::Agent,
        }
    }
}

/// Audio post-processing switches.
#[derive(Debug, Clone, Copy, PartialEq, Eq, Structural)]
pub struct AudioProcessingConfig {
    pub noise_reduction: bool,
    pub echo_cancellation: bool,
    pub voice_enhancement: bool,
    pub spatial_audio: bool,
}

/// The default processing: noise reduction and echo cancellation on.
pub open spec fn spec_default_processing() -> AudioProcessingConfig {
    AudioProcessingConfig {
        noise_reduction: true,
        echo_cancellation: true,
        voice_enhancement: false,
        spatial_audio: false,
    }
}

impl Default for AudioProcessingConfig {
    fn default() -> (r: AudioProcessingConfig)
        ensures
            r == spec_default_processing(),
    {
        AudioProcessingConfig {
            noise_reduction: true,
            echo_cancellation: true,
            voice_enhancement: false,
            spatial_audio: false,
        }
    }
}

/// One endpoint's active audio routing; at most one at a time.
#[derive(Debug, PartialEq, Eq)]
pub struct AudioRouting {
    pub input_source: AudioSource,
    pub output_destination: AudioDestination,
    pub tts_enabled: bool,
    pub stt_enabled: bool,
    pub audio_processing: AudioProcessingConfig,
}

impl Clone for AudioRouting {
    fn clone(&self) -> (r: AudioRouting)
        ensures
            r == *self,
    {
        AudioRouting {
            input_source: self.input_source.clone(),
            output_destination: self.output_destination.clone(),
            tts_enabled: self.tts_enabled,
            stt_enabled: self.stt_enabled,
            audio_processing: self.audio_processing,
        }
    }
}

/// The inert default routing: device microphone to device speaker.
pub open spec fn spec_default_routing() -> AudioRouting {
    AudioRouting {
        input_source: AudioSource::Microphone,
        output_destination: AudioDestination::Speaker,
        tts_enabled: false,
        stt_enabled: false,
        audio_processing: spec_default_processing(),
    }
}

impl Default for AudioRouting {
    fn default() -> (r: AudioRouting)
        ensures
            r == spec_default_routing(),
    {
        AudioRouting {
            input_source: AudioSource::Microphone,
            output_destination: AudioDestination::Speaker,
            tts_enabled: false,
            stt_enabled: false,
            audio_processing: AudioProcessingConfig::default(),
        }
    }
}

/// A routing deserves a bridging loop only when it is not the inert
/// microphone-to-speaker pair.
pub open spec fn spec_routing_active(r: AudioRouting) -> bool {
    !(r.input_source == AudioSource::Microphone && r.output_destination
        == AudioDestination::Speaker)
}

pub fn routing_active(r: &AudioRouting) -> (b: bool)
    ensures
        b == spec_routing_active(*r),
{
    let inert_in = match &r.input_source {
        AudioSource::Microphone => true,
        _ => false,
    };
    let inert_out = match &r.output_destination {
        AudioDestination::Speaker => true,
        _ => false,
    };
    !(inert_in && inert_out)
}

/// Which bridging pipeline a routing pair selects: synthesized speech
/// to the device speaker, the device microphone to transcription, the
/// loop of both for self-test, or a custom pair.
#[derive(Debug, Clone, Copy, PartialEq, Eq, Structural)]
pub enum AudioRouteKind {
    TtsToSpeaker,
    MicToStt,
    TtsToStt,
    Custom,
}

/// The pipeline a routing pair selects.
pub open spec fn spec_audio_route_kind(r: AudioRouting) -> AudioRouteKind {
    if r.input_source == AudioSource::TtsEngine && r.output_destination
        == AudioDestination::Speaker {
        AudioRouteKind::TtsToSpeaker
    } else if r.input_source == AudioSource::Microphone && r.output_destination
        == AudioDestination::SttEngine {
        AudioRouteKind::MicToStt
    } else if r.input_source == AudioSource::TtsEngine && r.output_destination
        == AudioDestination::SttEngine {
        AudioRouteKind::TtsToStt
    } else {
        AudioRouteKind::Custom
    }
}

pub fn audio_route_kind(r: &AudioRouting) -> (k: AudioRouteKind)
    ensures
        k == spec_audio_route_kind(*r),
{
    match (&r.input_source, &r.output_destination) {
        (AudioSource::TtsEngine, AudioDestination::Speaker) => AudioRouteKind::TtsToSpeaker,
        (AudioSource::Microphone, AudioDestination::SttEngine) => AudioRouteKind::MicToStt,
        (AudioSource::TtsEngine, AudioDestination::SttEngine) => AudioRouteKind::TtsToStt,
        _ => AudioRouteKind::Custom,
    }
}

/// The kind of simulated network link.
#[derive(Debug, Clone, Copy, PartialEq, Eq, Structural)]
pub enum NetworkType {
    Wifi,
    Cellular4G,
    Cellular5G,
    Ethernet,
    Offline,
}

/// The simulated network overlay: bandwidth in kilobits per second,
/// latency in milliseconds, loss in basis points (hundredths of a
/// percent), jitter in microseconds.
#[derive(Debug, Clone, Copy, PartialEq, Eq, Structural)]
pub struct NetworkConditions {
    pub connection_type: NetworkType,
    pub bandwidth_kbps: u64,
    pub latency_ms: u64,
    pub packet_loss_bp: u32,
    pub jitter_us: u64,
}

/// The default overlay: unimpaired wifi.
pub open spec fn spec_default_network() -> NetworkConditions {
    NetworkConditions {
        connection_type: NetworkType::Wifi,
        bandwidth_kbps: 100000,
        latency_ms: 20,
        packet_loss_bp: 0,
        jitter_us: 1000,
    }
}

impl Default for NetworkConditions {
    fn default() -> (r: NetworkConditions)
        ensures
            r == spec_default_network(),
    {
        NetworkConditions {
            connection_type: NetworkType::Wifi,
            bandwidth_kbps: 100000,
            latency_ms: 20,
            packet_loss_bp: 0,
            jitter_us: 1000,
        }
    }
}

/// A loss fraction cannot exceed the whole.
pub open spec fn spec_network_valid(c: NetworkConditions) -> bool {
    c.packet_loss_bp <= 10000
}

pub fn network_valid(c: &NetworkConditions) -> (r: bool)
    ensures
        r == spec_network_valid(*c),
{
    c.packet_loss_bp <= 10000
}

/// The simulated thermal envelope.
#[derive(Debug, Clone, Copy, PartialEq, Eq, Structural)]
pub enum ThermalState {
    Normal,
    SlightlyWarm,
    Warm,
    Hot,
    Critical,
}

/// A haptic request: one of the three preset strengths, or a custom
/// pulse with its duration in milliseconds and intensity in thousandths.
#[derive(Debug, Clone, Copy, PartialEq, Eq, Structural)]
pub enum HapticPattern {
    Light,
    Medium,
    Heavy,
    Custom { duration_ms: u32, intensity_milli: u32 },
}

/// A custom pulse must last some time and its intensity cannot exceed
/// full scale; the presets are always valid.
pub open spec fn spec_haptic_valid(p: HapticPattern) -> bool {
    match p {
        HapticPattern::Custom { duration_ms, intensity_milli } => duration_ms > 0
            && intensity_milli <= 1000,
        _ => true,
    }
}

pub fn haptic_valid(p: &HapticPattern) -> (r: bool)
    ensures
        r == spec_haptic_valid(*p),
{
    match p {
        HapticPattern::Custom { duration_ms, intensity_milli } => *duration_ms > 0
            && *intensity_milli <= 1000,
        _ => true,
    }
}

/// All synthetic hardware state of one attached endpoint.
#[derive(Debug, PartialEq, Eq)]
pub struct DeviceHardwareState {
    pub device_id: String,
    pub sensors: SensorSuite,
    pub audio_routing: AudioRouting,
    pub network_conditions: NetworkConditions,
    pub battery_level: u8,
    pub thermal_state: ThermalState,
}

impl Clone for DeviceHardwareState {
    fn clone(&self) -> (r: DeviceHardwareState)
        ensures
            r == *self,
    {
        DeviceHardwareState {
            device_id: self.device_id.clone(),
            sensors: self.sensors,
            audio_routing: self.audio_routing.clone(),
            network_conditions: self.network_conditions,
            battery_level: self.battery_level,
            thermal_state: self.thermal_state,
        }
    }
}

/// The state every attach establishes: the default sensor suite, the
/// inert audio routing, the default network overlay, a battery at 85
/// percent and a normal thermal envelope.
pub open spec fn hw_is_default(st: DeviceHardwareState, id: Seq<char>) -> bool {
    &&& st.device_id@ == id
    &&& st.sensors == spec_default_suite()
    &&& st.audio_routing == spec_default_routing()
    &&& st.network_conditions == spec_default_network()
    &&& st.battery_level == 85
    &&& st.thermal_state == ThermalState::Normal
}

/// No two entries share a device id.
pub open spec fn hw_ids_unique(s: Seq<DeviceHardwareState>) -> bool {
    forall|i: int, j: int| 0 <= i < j < s.len() ==> s[i].device_id@ != s[j].device_id@
}

/// Some entry carries this id.
pub open spec fn hw_has_id(s: Seq<DeviceHardwareState>, id: Seq<char>) -> bool {
    exists|i: int| 0 <= i < s.len() && s[i].device_id@ == id
}

/// The index of the entry with this id.
pub open spec fn hw_idx_of(s: Seq<DeviceHardwareState>, id: Seq<char>) -> int {
    choose|i: int| 0 <= i < s.len() && s[i].device_id@ == id
}

/// The entry with this id.
pub open spec fn hw_at(s: Seq<DeviceHardwareState>, id: Seq<char>) -> DeviceHardwareState {
    s[hw_idx_of(s, id)]
}

/// With unique ids, any matching index is the one `hw_at` denotes.
pub proof fn lemma_hw_at(s: Seq<DeviceHardwareState>, id: Seq<char>, i: int)
    requires
        hw_ids_unique(s),
        0 <= i < s.len(),
        s[i].device_id@ == id,
    ensures
        hw_has_id(s, id),
        hw_idx_of(s, id) == i,
        hw_at(s, id) == s[i],
{
    assert(hw_has_id(s, id));
    let j = hw_idx_of(s, id);
    if i != j {
        if i < j {
            assert(s[i].device_id@ != s[j].device_id@);
        } else {
            assert(s[j].device_id@ != s[i].device_id@);
        }
    }
}

/// Relies on rand::random_range: a value drawn uniformly from the
/// inclusive range handed to it, which for a nonnegative bound is never
/// empty.
#[verifier::external_body]
fn noise_sample(bound: i64) -> (r: i64)
    requires
        bound >= 0,
    ensures
        -bound <= r <= bound,
{
    rand::random_range(-bound..=bound)
}

/// What attaching promises: the endpoint's entry exists and holds
/// exactly the documented defaults; an absent id was appended, a present
/// one replaced in place; nothing else moved.
pub open spec fn attach_post(
    pre: Seq<DeviceHardwareState>,
    post: Seq<DeviceHardwareState>,
    id: Seq<char>,
) -> bool {
    &&& hw_has_id(post, id)
    &&& hw_is_default(hw_at(post, id), id)
    &&& (!hw_has_id(pre, id) ==> post == pre.push(hw_at(post, id)))
    &&& (hw_has_id(pre, id) ==> post == pre.update(hw_idx_of(pre, id), hw_at(post, id)))
}

/// What detaching promises: the endpoint's entry is gone; an absent id
/// changed nothing; nothing else moved.
pub open spec fn detach_post(
    pre: Seq<DeviceHardwareState>,
    post: Seq<DeviceHardwareState>,
    id: Seq<char>,
) -> bool {
    &&& !hw_has_id(post, id)
    &&& (!hw_has_id(pre, id) ==> post == pre)
    &&& (hw_has_id(pre, id) ==> post == pre.remove(hw_idx_of(pre, id)))
}

/// Attach, detach and attach again reset the endpoint's hardware state
/// to the documented defaults: whatever the first attachment's state
/// became, nothing of it survives into the second — the suite, routing,
/// overlay and battery read exactly as on any fresh attach.
pub proof fn lemma_reattach_resets_defaults(
    s0: Seq<DeviceHardwareState>,
    s1: Seq<DeviceHardwareState>,
    s2: Seq<DeviceHardwareState>,
    s3: Seq<DeviceHardwareState>,
    id: Seq<char>,
)
    requires
        attach_post(s0, s1, id),
        detach_post(s1, s2, id),
        attach_post(s2, s3, id),
    ensures
        hw_has_id(s3, id),
        hw_is_default(hw_at(s3, id), id),
{
}

/// The hardware emulation engine: one entry per attached endpoint.
#[derive(Debug)]
pub struct HardwareEmulator {
    devices: Vec<DeviceHardwareState>,
}

impl View for HardwareEmulator {
    type V = Seq<DeviceHardwareState>;

    closed spec fn view(&self) -> Seq<DeviceHardwareState> {
        self.devices@
    }
}

impl HardwareEmulator {
    /// Unique device ids; every operation preserves this.
    pub open spec fn wf(&self) -> bool {
        hw_ids_unique(self@)
    }

    pub fn new() -> (r: HardwareEmulator)
        ensures
            r@ == Seq::<DeviceHardwareState>::empty(),
            r.wf(),
    {
        HardwareEmulator { devices: Vec::new() }
    }

    fn find(&self, id: &str) -> (r: Option<usize>)
        ensures
            match r {
                Some(i) => i < self@.len() && self@[i as int].device_id@ == id@,
                None => !hw_has_id(self@, id@),
            },
    {
        let n = self.devices.len();
        let mut i: usize = 0;
        while i < n
            invariant
                0 <= i <= n,
                n == self@.len(),
                forall|j: int| 0 <= j < i ==> (#[trigger] self@[j]).device_id@ != id@,
            decreases n - i,
        {
            if str_eq(self.devices[i].device_id.as_str(), id) {
                return Some(i);
            }
            i += 1;
        }
        None
    }

    /// Whether this endpoint is attached.
    pub fn is_attached(&self, id: &str) -> (r: bool)
        ensures
            r == hw_has_id(self@, id@),
    {
        self.find(id).is_some()
    }

    /// The hardware state of one attached endpoint.
    pub fn get_device_state(&self, id: &str) -> (r: Option<&DeviceHardwareState>)
        requires
            self.wf(),
        ensures
            match r {
                Some(st) => hw_has_id(self@, id@) && *st == hw_at(self@, id@),
                None => !hw_has_id(self@, id@),
            },
    {
        match self.find(id) {
            Some(i) => {
                proof {
                    lemma_hw_at(self@, id@, i as int);
                }
                Some(&self.devices[i])
            },
            None => None,
        }
    }

    /// Attaches the endpoint: its hardware state becomes exactly the
    /// documented defaults, whether or not it was attached before —
    /// attach after detach never sees values left over from the prior
    /// attachment.
    pub fn attach_to_device(&mut self, id: &str)
        requires
            old(self).wf(),
        ensures
            final(self).wf(),
            attach_post(old(self)@, final(self)@, id@),
    {
        let fresh = DeviceHardwareState {
            device_id: String::from_str(id),
            sensors: default_suite(),
            audio_routing: AudioRouting::default(),
            network_conditions: NetworkConditions::default(),
            battery_level: 85,
            thermal_state: ThermalState::Normal,
        };
        match self.find(id) {
            Some(i) => {
                proof {
                    lemma_hw_at(self@, id@, i as int);
                }
                self.devices[i] = fresh;
                proof {
                    lemma_hw_at(self@, id@, i as int);
                }
            },
            None => {
                self.devices.push(fresh);
                proof {
                    assert forall|i: int, j: int|
                        0 <= i < j < self@.len() implies self@[i].device_id@
                        != self@[j].device_id@ by {
                        if j == self@.len() - 1 {
                            assert(!(old(self)@[i].device_id@ == id@));
                        }
                    }
                    lemma_hw_at(self@, id@, self@.len() - 1);
                }
            },
        }
    }

    /// Detaches the endpoint, discarding its hardware state; detaching
    /// an endpoint that is not attached is a no-op, not an error.
    pub fn detach_from_device(&mut self, id: &str)
        requires
            old(self).wf(),
        ensures
            final(self).wf(),
            detach_post(old(self)@, final(self)@, id@),
    {
        match self.find(id) {
            Some(i) => {
                proof {
                    lemma_hw_at(self@, id@, i as int);
                }
                self.devices.remove(i);
                proof {
                    assert forall|a: int, b: int|
                        0 <= a < b < self@.len() implies self@[a].device_id@
                        != self@[b].device_id@ by {
                        let s = old(self)@;
                        let ai = if a < i as int { a } else { a + 1 };
                        let bi = if b < i as int { b } else { b + 1 };
                        assert(self@[a] == s[ai]);
                        assert(self@[b] == s[bi]);
                    }
                    assert forall|k: int|
                        0 <= k < self@.len() implies (#[trigger] self@[k]).device_id@ != id@ by {
                        let s = old(self)@;
                        let ki = if k < i as int { k } else { k + 1 };
                        assert(self@[k] == s[ki]);
                        if ki != i as int {
                            if ki < i as int {
                                assert(s[ki].device_id@ != s[i as int].device_id@);
                            } else {
                                assert(s[i as int].device_id@ != s[ki].device_id@);
                            }
                        }
                    }
                }
            },
            None => {},
        }
    }

    /// Writes one sensor's current value, leaving its other settings and
    /// every other sensor untouched. True when the endpoint is attached.
    pub fn update_sensor_value(&mut self, id: &str, kind: SensorKind, value: SensorValue) -> (r:
        bool)
        requires
            old(self).wf(),
        ensures
            final(self).wf(),
            r == hw_has_id(old(self)@, id@),
            !hw_has_id(old(self)@, id@) ==> final(self)@ == old(self)@,
            hw_has_id(old(self)@, id@) ==> {
                let pre = hw_at(old(self)@, id@);
                final(self)@ == old(self)@.update(
                    hw_idx_of(old(self)@, id@),
                    DeviceHardwareState {
                        sensors: pre.sensors.spec_set(
                            kind,
                            SensorState { current_value: value, ..pre.sensors.spec_get(kind) },
                        ),
                        ..pre
                    },
                )
            },
    {
        match self.find(id) {
            Some(i) => {
                proof {
                    lemma_hw_at(self@, id@, i as int);
                }
                let st = SensorState { current_value: value, ..self.devices[i].sensors.get(kind) };
                let suite = self.devices[i].sensors.set(kind, st);
                self.devices[i].sensors = suite;
                true
            },
            None => false,
        }
    }

    /// One simulation tick: drifts one sensor's current value by a
    /// perturbation the caller drew, leaving everything else untouched.
    /// True when the endpoint is attached.
    pub fn apply_sensor_drift(&mut self, id: &str, kind: SensorKind, d: i64) -> (r: bool)
        requires
            old(self).wf(),
        ensures
            final(self).wf(),
            r == hw_has_id(old(self)@, id@),
            !hw_has_id(old(self)@, id@) ==> final(self)@ == old(self)@,
            hw_has_id(old(self)@, id@) ==> {
                let pre = hw_at(old(self)@, id@);
                final(self)@ == old(self)@.update(
                    hw_idx_of(old(self)@, id@),
                    DeviceHardwareState {
                        sensors: pre.sensors.spec_set(
                            kind,
                            SensorState {
                                current_value: spec_apply_drift(
                                    pre.sensors.spec_get(kind).current_value,
                                    d as int,
                                ),
                                ..pre.sensors.spec_get(kind)
                            },
                        ),
                        ..pre
                    },
                )
            },
    {
        match self.find(id) {
            Some(i) => {
                proof {
                    lemma_hw_at(self@, id@, i as int);
                }
                let cur = self.devices[i].sensors.get(kind);
                let drifted = apply_drift(&cur.current_value, d);
                let st = SensorState { current_value: drifted, ..cur };
                let suite = self.devices[i].sensors.set(kind, st);
                self.devices[i].sensors = suite;
                true
            },
            None => false,
        }
    }

    /// One cadence tick of the simulation loop for one sensor: when the
    /// endpoint is attached and the sensor is enabled with a nonzero
    /// cadence, its value drifts by a random perturbation bounded by the
    /// sensor's noise level, and the drifted value is handed back so a
    /// caller can forward it; otherwise nothing happens.
    pub fn simulate_sensor_tick(&mut self, id: &str, kind: SensorKind) -> (r: Option<SensorValue>)
        requires
            old(self).wf(),
        ensures
            final(self).wf(),
            !hw_has_id(old(self)@, id@) ==> final(self)@ == old(self)@ && r is None,
            hw_has_id(old(self)@, id@) ==> {
                let pre = hw_at(old(self)@, id@);
                let st = pre.sensors.spec_get(kind);
                &&& !(st.enabled && st.update_frequency_mhz > 0) ==> final(self)@ == old(self)@
                    && r is None
                &&& (st.enabled && st.update_frequency_mhz > 0) ==> (r matches Some(v) && exists|
                    d: int,
                |
                    -(st.noise_level_milli as int) <= d <= st.noise_level_milli as int && v
                        == #[trigger] spec_apply_drift(st.current_value, d) && final(self)@ == old(
                        self,
                    )@.update(
                        hw_idx_of(old(self)@, id@),
                        DeviceHardwareState {
                            sensors: pre.sensors.spec_set(
                                kind,
                                SensorState { current_value: v, ..st },
                            ),
                            ..pre
                        },
                    ))
            },
    {
        let st = match self.find(id) {
            None => {
                return None;
            },
            Some(i) => {
                proof {
                    lemma_hw_at(self@, id@, i as int);
                }
                self.devices[i].sensors.get(kind)
            },
        };
        if !(st.enabled && st.update_frequency_mhz > 0) {
            return None;
        }
        let d = noise_sample(st.noise_level_milli as i64);
        let drifted = apply_drift(&st.current_value, d);
        let applied = self.apply_sensor_drift(id, kind, d);
        proof {
            assert(applied);
            assert(-(st.noise_level_milli as int) <= d as int <= st.noise_level_milli as int
                && drifted == spec_apply_drift(st.current_value, d as int) && final(self)@ == old(
                self,
            )@.update(
                hw_idx_of(old(self)@, id@),
                DeviceHardwareState {
                    sensors: hw_at(old(self)@, id@).sensors.spec_set(
                        kind,
                        SensorState { current_value: drifted, ..st },
                    ),
                    ..hw_at(old(self)@, id@)
                },
            ));
        }
        Some(drifted)
    }

    /// Replaces the endpoint's audio routing. True when attached.
    pub fn set_audio_routing(&mut self, id: &str, routing: AudioRouting) -> (r: bool)
        requires
            old(self).wf(),
        ensures
            final(self).wf(),
            r == hw_has_id(old(self)@, id@),
            !hw_has_id(old(self)@, id@) ==> final(self)@ == old(self)@,
            hw_has_id(old(self)@, id@) ==> final(self)@ == old(self)@.update(
                hw_idx_of(old(self)@, id@),
                DeviceHardwareState { audio_routing: routing, ..hw_at(old(self)@, id@) },
            ),
    {
        match self.find(id) {
            Some(i) => {
                proof {
                    lemma_hw_at(self@, id@, i as int);
                }
                self.devices[i].audio_routing = routing;
                true
            },
            None => false,
        }
    }

    /// Replaces the endpoint's simulated network overlay. True when
    /// attached.
    pub fn set_network_conditions(&mut self, id: &str, conditions: NetworkConditions) -> (r: bool)
        requires
            old(self).wf(),
        ensures
            final(self).wf(),
            r == hw_has_id(old(self)@, id@),
            !hw_has_id(old(self)@, id@) ==> final(self)@ == old(self)@,
            hw_has_id(old(self)@, id@) ==> final(self)@ == old(self)@.update(
                hw_idx_of(old(self)@, id@),
                DeviceHardwareState { network_conditions: conditions, ..hw_at(old(self)@, id@) },
            ),
    {
        match self.find(id) {
            Some(i) => {
                proof {
                    lemma_hw_at(self@, id@, i as int);
                }
                self.devices[i].network_conditions = conditions;
                true
            },
            None => false,
        }
    }

    /// Sets the simulated battery level, in whole percent. True when
    /// attached.
    pub fn set_battery_level(&mut self, id: &str, percent: u8) -> (r: bool)
        requires
            old(self).wf(),
            percent <= 100,
        ensures
            final(self).wf(),
            r == hw_has_id(old(self)@, id@),
            !hw_has_id(old(self)@, id@) ==> final(self)@ == old(self)@,
            hw_has_id(old(self)@, id@) ==> final(self)@ == old(self)@.update(
                hw_idx_of(old(self)@, id@),
                DeviceHardwareState { battery_level: percent, ..hw_at(old(self)@, id@) },
            ),
    {
        match self.find(id) {
            Some(i) => {
                proof {
                    lemma_hw_at(self@, id@, i as int);
                }
                self.devices[i].battery_level = percent;
                true
            },
            None => false,
        }
    }
}

} // verus!
