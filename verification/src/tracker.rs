//! The tracking engine: base-station registry, per-sensor state table, and
//! the pulse event router that drives projection and triangulation.
//!
//! Per sensor the engine keeps the last decoded angle pair and the last
//! computed position fix. A sweep classification overwrites that sensor's
//! angles wholesale and, when at least two base stations are registered,
//! retriangulates; a successful triangulation overwrites the position, a
//! degenerate one leaves the previous fix in place. Sync and unknown
//! classifications change nothing. A fix never expires on its own.
//!
//! The router currently hands the one decoded measurement to both stations'
//! rays — a baseline simplification carried over deliberately; real rigs
//! decode one angle pair per beacon. `triangulate_pair` therefore accepts
//! one measurement per station, so replacing the simplification is a local
//! change to `apply_sweep_measurement`.

use vstd::prelude::*;

use crate::decoder::{classification_of_code, PulseDecoder, PulseType, SweepMeasurement};
use crate::geometry::{quat_identity, spec_quat_identity, Quat, Ray, Vec3};
use crate::ieee::{fmul, ieee_mul, ZERO_BITS};
use crate::projector::{project, spec_project};
use crate::triangulate::{closest_approach, spec_closest_approach};

verus! {

/// Bit pattern of the single-precision factor that converts radians to
/// degrees: one hundred eighty over pi.
pub const RAD_TO_DEG_BITS: u32 = 0x4265_2EE1;

/// A fixed beacon's pose in world space. Registered once; never mutated in
/// place. The orientation must be a unit quaternion: a non-unit value
/// silently corrupts triangulation, exactly as the arithmetic dictates.
#[derive(Clone, Copy, Debug, PartialEq, Eq, Structural)]
pub struct BaseStation {
    pub id: u8,
    pub position: Vec3,
    pub orientation: Quat,
}

/// A horizontal/vertical angle pair, each a single-precision bit pattern.
#[derive(Clone, Copy, Debug, PartialEq, Eq, Structural)]
pub struct AnglePair {
    pub horizontal: u32,
    pub vertical: u32,
}

/// Per-sensor state: the last decoded angles and the last computed fix.
#[derive(Clone, Copy, Debug, PartialEq, Eq, Structural)]
pub struct SensorState {
    pub sensor_id: u8,
    pub last_angles: AnglePair,
    pub position: Option<Vec3>,
}

/// One sensor's row of a diagnostic snapshot: whether a fix exists and its
/// value, plus the last angle pair converted to degrees.
#[derive(Clone, Copy, Debug, PartialEq, Eq, Structural)]
pub struct SensorStatus {
    pub sensor_id: u8,
    pub position: Option<Vec3>,
    pub angles_degrees: AnglePair,
}

impl BaseStation {
    /// A station at `position` with the identity orientation.
    pub fn new(id: u8, position: Vec3) -> (r: BaseStation)
        ensures
            r == (BaseStation { id, position, orientation: spec_quat_identity() }),
    {
        BaseStation { id, position, orientation: quat_identity() }
    }
}

/// The tracking engine.
pub struct LighthouseTracker {
    base_stations: Vec<BaseStation>,
    sensors: Vec<SensorState>,
    frame_count: u64,
}

/// The world-space ray a station casts toward the sensor for a measurement:
/// origin at the station, direction projected from the decoded angles.
pub open spec fn spec_station_ray(bs: BaseStation, m: SweepMeasurement) -> Ray {
    Ray { origin: bs.position, direction: spec_project(m, bs.orientation) }
}

/// The fix obtained from two stations, each with its own measurement.
pub open spec fn spec_triangulate_pair(
    bs1: BaseStation,
    m1: SweepMeasurement,
    bs2: BaseStation,
    m2: SweepMeasurement,
) -> Option<Vec3> {
    spec_closest_approach(spec_station_ray(bs1, m1), spec_station_ray(bs2, m2))
}

/// One sensor's state after a sweep with measurement `m`: the angles are
/// overwritten wholesale; with at least two stations registered the fix is
/// overwritten when triangulation (same measurement for the first two
/// registered stations) succeeds, and kept when it fails.
pub open spec fn spec_swept_sensor(
    s: SensorState,
    stations: Seq<BaseStation>,
    m: SweepMeasurement,
) -> SensorState {
    let angles = AnglePair { horizontal: m.angle_h, vertical: m.angle_v };
    let position = if stations.len() >= 2 {
        match spec_triangulate_pair(stations[0], m, stations[1], m) {
            Some(p) => Some(p),
            None => s.position,
        }
    } else {
        s.position
    };
    SensorState { sensor_id: s.sensor_id, last_angles: angles, position }
}

/// The sensor table after one sweep for `sensor_id`: the addressed row is
/// replaced by its swept state; an out-of-range id changes nothing.
pub open spec fn spec_apply_sweep(
    stations: Seq<BaseStation>,
    sensors: Seq<SensorState>,
    sensor_id: u8,
    m: SweepMeasurement,
) -> Seq<SensorState> {
    if (sensor_id as int) < sensors.len() {
        sensors.update(sensor_id as int, spec_swept_sensor(sensors[sensor_id as int], stations, m))
    } else {
        sensors
    }
}

/// The sensor table after a whole sequence of sweeps, applied in order.
pub open spec fn spec_apply_sweeps(
    stations: Seq<BaseStation>,
    sensors: Seq<SensorState>,
    events: Seq<(u8, SweepMeasurement)>,
) -> Seq<SensorState>
    decreases events.len(),
{
    if events.len() == 0 {
        sensors
    } else {
        spec_apply_sweeps(
            stations,
            spec_apply_sweep(stations, sensors, events[0].0, events[0].1),
            events.drop_first(),
        )
    }
}

/// The initial state of sensor `i`: zero angles, no fix.
pub open spec fn spec_initial_sensor(i: int) -> SensorState {
    SensorState {
        sensor_id: i as u8,
        last_angles: AnglePair { horizontal: ZERO_BITS, vertical: ZERO_BITS },
        position: None,
    }
}

/// An angle pair converted from radians to degrees, componentwise.
pub open spec fn spec_degrees_of(a: AnglePair) -> AnglePair {
    AnglePair {
        horizontal: ieee_mul(a.horizontal, RAD_TO_DEG_BITS),
        vertical: ieee_mul(a.vertical, RAD_TO_DEG_BITS),
    }
}

/// The diagnostic row for one sensor.
pub open spec fn spec_sensor_status(s: SensorState) -> SensorStatus {
    SensorStatus {
        sensor_id: s.sensor_id,
        position: s.position,
        angles_degrees: spec_degrees_of(s.last_angles),
    }
}

impl LighthouseTracker {
    /// The registered stations, in registration order.
    pub closed spec fn stations(&self) -> Seq<BaseStation> {
        self.base_stations@
    }

    /// The per-sensor state table.
    pub closed spec fn sensor_states(&self) -> Seq<SensorState> {
        self.sensors@
    }

    /// The frame counter reported by the status snapshot.
    pub closed spec fn frames(&self) -> u64 {
        self.frame_count
    }

    /// Builds an engine with `num_sensors` sensors, all without a fix, and
    /// resets the decoder exactly once.
    pub fn new<D: PulseDecoder>(num_sensors: usize, decoder: &mut D) -> (t: LighthouseTracker)
        ensures
            t.stations().len() == 0,
            t.sensor_states().len() == num_sensors,
            forall|i: int|
                0 <= i < num_sensors ==> #[trigger] t.sensor_states()[i] == spec_initial_sensor(i),
            t.frames() == 0,
    {
        decoder.reset();
        let mut sensors: Vec<SensorState> = Vec::new();
        let mut i: usize = 0;
        while i < num_sensors
            invariant
                i <= num_sensors,
                sensors@.len() == i,
                forall|j: int| 0 <= j < i ==> #[trigger] sensors@[j] == spec_initial_sensor(j),
            decreases num_sensors - i,
        {
            sensors.push(
                SensorState {
                    sensor_id: i as u8,
                    last_angles: AnglePair { horizontal: ZERO_BITS, vertical: ZERO_BITS },
                    position: None,
                },
            );
            i = i + 1;
        }
        LighthouseTracker { base_stations: Vec::new(), sensors, frame_count: 0 }
    }

    /// Appends a beacon to the registry. There is no removal and no
    /// mutation; duplicate ids are accepted as distinct entries, ordered by
    /// registration.
    pub fn add_base_station(&mut self, station: BaseStation)
        ensures
            final(self).stations() == old(self).stations().push(station),
            final(self).sensor_states() == old(self).sensor_states(),
            final(self).frames() == old(self).frames(),
    {
        self.base_stations.push(station);
    }

    /// How many base stations are registered.
    pub fn base_station_count(&self) -> (n: usize)
        ensures
            n == self.stations().len(),
    {
        self.base_stations.len()
    }

    /// How many sensors the engine was configured with.
    pub fn sensor_count(&self) -> (n: usize)
        ensures
            n == self.sensor_states().len(),
    {
        self.sensors.len()
    }

    /// The frame counter (kept for the diagnostic snapshot).
    pub fn frame_count(&self) -> (n: u64)
        ensures
            n == self.frames(),
    {
        self.frame_count
    }

    /// Routes one classified pulse. The classification code for the pulse is
    /// obtained from the decoder; a sync or unknown classification changes
    /// nothing, a sweep classification fetches the decoded measurement and
    /// applies it to the addressed sensor. The registry is never changed.
    pub fn process_photodiode_pulse<D: PulseDecoder>(
        &mut self,
        decoder: &mut D,
        sensor_id: u8,
        pulse_start_us: u64,
        pulse_duration_us: u64,
    ) -> (r: PulseType)
        ensures
            final(self).stations() == old(self).stations(),
            final(self).frames() == old(self).frames(),
            (r == PulseType::Sync || r == PulseType::Unknown) ==> final(self).sensor_states()
                == old(self).sensor_states(),
            r == PulseType::Sweep ==> exists|m: SweepMeasurement|
                final(self).sensor_states() == #[trigger] spec_apply_sweep(
                    old(self).stations(),
                    old(self).sensor_states(),
                    sensor_id,
                    m,
                ),
    {
        let code = decoder.classify(sensor_id, pulse_start_us, pulse_duration_us);
        match classification_of_code(code) {
            PulseType::Sync => PulseType::Sync,
            PulseType::Sweep => {
                let m = decoder.decode_angles();
                self.apply_sweep_measurement(sensor_id, m);
                PulseType::Sweep
            },
            PulseType::Unknown => PulseType::Unknown,
        }
    }

    /// Applies one decoded sweep measurement to the addressed sensor:
    /// overwrites that sensor's angles wholesale and, with at least two
    /// stations registered, retriangulates from the first two registered
    /// stations — handing the same measurement to both, the baseline
    /// simplification — and overwrites the fix only on success. An
    /// out-of-range sensor id is ignored.
    pub fn apply_sweep_measurement(&mut self, sensor_id: u8, m: SweepMeasurement)
        ensures
            final(self).stations() == old(self).stations(),
            final(self).frames() == old(self).frames(),
            final(self).sensor_states() == spec_apply_sweep(
                old(self).stations(),
                old(self).sensor_states(),
                sensor_id,
                m,
            ),
    {
        let idx = sensor_id as usize;
        if idx < self.sensors.len() {
            let mut s = self.sensors[idx];
            s.last_angles = AnglePair { horizontal: m.angle_h, vertical: m.angle_v };
            if self.base_stations.len() >= 2 {
                let bs1 = self.base_stations[0];
                let bs2 = self.base_stations[1];
                if let Some(p) = triangulate_pair(&bs1, &m, &bs2, &m) {
                    s.position = Some(p);
                }
            }
            self.sensors.set(idx, s);
        }
    }

    /// The current best fix for a sensor, or nothing when that sensor was
    /// never successfully triangulated or the id is out of range.
    pub fn get_tracked_position(&self, sensor_id: u8) -> (r: Option<Vec3>)
        ensures
            r == if (sensor_id as int) < self.sensor_states().len() {
                self.sensor_states()[sensor_id as int].position
            } else {
                None::<Vec3>
            },
    {
        let idx = sensor_id as usize;
        if idx < self.sensors.len() {
            self.sensors[idx].position
        } else {
            None
        }
    }

    /// A read-only diagnostic snapshot: one row per sensor, in order, with
    /// the angle pair converted to degrees. Mutates nothing.
    pub fn status_snapshot(&self) -> (v: Vec<SensorStatus>)
        ensures
            v@.len() == self.sensor_states().len(),
            forall|i: int|
                0 <= i < v@.len() ==> #[trigger] v@[i] == spec_sensor_status(
                    self.sensor_states()[i],
                ),
    {
        let mut v: Vec<SensorStatus> = Vec::new();
        let mut i: usize = 0;
        while i < self.sensors.len()
            invariant
                i <= self.sensors.len(),
                v@.len() == i,
                forall|j: int|
                    0 <= j < i ==> #[trigger] v@[j] == spec_sensor_status(self.sensors@[j]),
            decreases self.sensors.len() - i,
        {
            let s = self.sensors[i];
            v.push(
                SensorStatus {
                    sensor_id: s.sensor_id,
                    position: s.position,
                    angles_degrees: AnglePair {
                        horizontal: fmul(s.last_angles.horizontal, RAD_TO_DEG_BITS),
                        vertical: fmul(s.last_angles.vertical, RAD_TO_DEG_BITS),
                    },
                },
            );
            i = i + 1;
        }
        v
    }
}

/// Triangulates a sensor position from two stations, each with its own
/// decoded measurement: builds the two world-space rays and intersects them
/// by closest approach.
///
/// The engine's router currently passes the same measurement twice; the
/// second clause pins what that simplification forces whenever the two
/// stations share an orientation: the projected directions coincide, the
/// denominator cancels to zero exactly (its squared-norm product being
/// finite), and there is no fix.
pub fn triangulate_pair(
    bs1: &BaseStation,
    m1: &SweepMeasurement,
    bs2: &BaseStation,
    m2: &SweepMeasurement,
) -> (r: Option<Vec3>)
    ensures
        r == spec_triangulate_pair(*bs1, *m1, *bs2, *m2),
        (spec_project(*m1, bs1.orientation) == spec_project(*m2, bs2.orientation)
            && crate::ieee::is_finite_bits(
            ieee_mul(
                crate::geometry::spec_dot(
                    spec_project(*m1, bs1.orientation),
                    spec_project(*m1, bs1.orientation),
                ),
                crate::geometry::spec_dot(
                    spec_project(*m2, bs2.orientation),
                    spec_project(*m2, bs2.orientation),
                ),
            ),
        )) ==> r is None,
{
    let ray1 = Ray { origin: bs1.position, direction: project(m1, bs1.orientation) };
    let ray2 = Ray { origin: bs2.position, direction: project(m2, bs2.orientation) };
    closest_approach(&ray1, &ray2)
}

/// Law: a sweep for one sensor leaves every other sensor's row untouched.
pub proof fn lemma_sweep_changes_only_the_addressed_sensor(
    stations: Seq<BaseStation>,
    sensors: Seq<SensorState>,
    sensor_id: u8,
    m: SweepMeasurement,
    i: int,
)
    requires
        0 <= i < sensors.len(),
        i != sensor_id as int,
    ensures
        spec_apply_sweep(stations, sensors, sensor_id, m)[i] == sensors[i],
{
}

/// Law: with fewer than two registered stations a sweep changes no
/// sensor's position — only the addressed sensor's angles.
pub proof fn lemma_sweep_without_two_stations_keeps_positions(
    stations: Seq<BaseStation>,
    sensors: Seq<SensorState>,
    sensor_id: u8,
    m: SweepMeasurement,
)
    requires
        stations.len() < 2,
    ensures
        spec_apply_sweep(stations, sensors, sensor_id, m).len() == sensors.len(),
        forall|i: int|
            0 <= i < sensors.len() ==> (#[trigger] spec_apply_sweep(
                stations,
                sensors,
                sensor_id,
                m,
            )[i]).position == sensors[i].position,
{
}

/// Law: a fix, once present, persists: no sweep ever clears a sensor's
/// position — a failed retriangulation keeps the previous fix, a successful
/// one overwrites it.
pub proof fn lemma_fix_is_never_cleared(
    stations: Seq<BaseStation>,
    sensors: Seq<SensorState>,
    sensor_id: u8,
    m: SweepMeasurement,
    i: int,
)
    requires
        0 <= i < sensors.len(),
        sensors[i].position is Some,
    ensures
        spec_apply_sweep(stations, sensors, sensor_id, m)[i].position is Some,
{
}

/// Law: with fewer than two registered base stations, any sequence of
/// sweeps leaves every sensor that had no fix without a fix; in particular,
/// starting from the initial table every position stays absent forever.
pub proof fn lemma_no_fix_without_two_stations(
    stations: Seq<BaseStation>,
    sensors: Seq<SensorState>,
    events: Seq<(u8, SweepMeasurement)>,
)
    requires
        stations.len() < 2,
        forall|i: int| 0 <= i < sensors.len() ==> (#[trigger] sensors[i]).position is None,
    ensures
        spec_apply_sweeps(stations, sensors, events).len() == sensors.len(),
        forall|i: int|
            0 <= i < sensors.len() ==> (#[trigger] spec_apply_sweeps(
                stations,
                sensors,
                events,
            )[i]).position is None,
    decreases events.len(),
{
    if events.len() > 0 {
        let next = spec_apply_sweep(stations, sensors, events[0].0, events[0].1);
        lemma_sweep_without_two_stations_keeps_positions(
            stations,
            sensors,
            events[0].0,
            events[0].1,
        );
        lemma_no_fix_without_two_stations(stations, next, events.drop_first());
    }
}

} // verus!
