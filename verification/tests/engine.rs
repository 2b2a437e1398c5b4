use lighthouse_tracking::decoder::{classification_of_code, PulseDecoder, PulseType, SweepMeasurement};
use lighthouse_tracking::device::DeviceInfo;
use lighthouse_tracking::geometry::{Quat, Vec3};
use lighthouse_tracking::tracker::{BaseStation, LighthouseTracker, SensorStatus};

fn point(x: f32, y: f32, z: f32) -> Vec3 {
    Vec3 { x: x.to_bits(), y: y.to_bits(), z: z.to_bits() }
}

fn identity_quat() -> Quat {
    Quat {
        x: 0.0f32.to_bits(),
        y: 0.0f32.to_bits(),
        z: 0.0f32.to_bits(),
        w: 1.0f32.to_bits(),
    }
}

fn yaw_quat(angle: f32) -> Quat {
    let half = angle / 2.0;
    Quat {
        x: 0.0f32.to_bits(),
        y: half.sin().to_bits(),
        z: 0.0f32.to_bits(),
        w: half.cos().to_bits(),
    }
}

fn sweep_measurement(h: f32, v: f32) -> SweepMeasurement {
    SweepMeasurement {
        angle_h: h.to_bits(),
        angle_v: v.to_bits(),
        sin_h: h.sin().to_bits(),
        cos_h: h.cos().to_bits(),
        sin_v: v.sin().to_bits(),
        cos_v: v.cos().to_bits(),
    }
}

/// A deterministic decoder double: replays a script of classification codes
/// and hands out one queued measurement per sweep.
struct ScriptedDecoder {
    codes: Vec<u64>,
    measurements: Vec<SweepMeasurement>,
    resets: usize,
}

impl ScriptedDecoder {
    fn new() -> ScriptedDecoder {
        ScriptedDecoder { codes: Vec::new(), measurements: Vec::new(), resets: 0 }
    }

    fn push_sweep(&mut self, h: f32, v: f32) {
        self.codes.push(2);
        self.measurements.push(sweep_measurement(h, v));
    }

    fn push_code(&mut self, code: u64) {
        self.codes.push(code);
    }
}

impl PulseDecoder for ScriptedDecoder {
    fn reset(&mut self) {
        self.resets += 1;
    }

    fn classify(&mut self, _sensor_id: u8, _start_us: u64, _duration_us: u64) -> u64 {
        self.codes.remove(0)
    }

    fn decode_angles(&mut self) -> SweepMeasurement {
        self.measurements.remove(0)
    }
}

fn position_of(t: &LighthouseTracker, sensor_id: u8) -> Option<[f32; 3]> {
    t.get_tracked_position(sensor_id).map(|p| {
        [f32::from_bits(p.x), f32::from_bits(p.y), f32::from_bits(p.z)]
    })
}

#[test]
fn classification_codes_map_as_documented() {
    assert_eq!(classification_of_code(0), PulseType::Unknown);
    assert_eq!(classification_of_code(1), PulseType::Sync);
    assert_eq!(classification_of_code(2), PulseType::Sweep);
    assert_eq!(classification_of_code(3), PulseType::Unknown);
    assert_eq!(classification_of_code(u64::MAX), PulseType::Unknown);
}

#[test]
fn new_engine_has_no_stations_and_blank_sensors() {
    let mut d = ScriptedDecoder::new();
    let t = LighthouseTracker::new(4, &mut d);
    assert_eq!(d.resets, 1);
    assert_eq!(t.base_station_count(), 0);
    assert_eq!(t.sensor_count(), 4);
    assert_eq!(t.frame_count(), 0);
    let snapshot = t.status_snapshot();
    assert_eq!(snapshot.len(), 4);
    for (i, row) in snapshot.iter().enumerate() {
        assert_eq!(row.sensor_id, i as u8);
        assert!(row.position.is_none());
        assert_eq!(f32::from_bits(row.angles_degrees.horizontal), 0.0);
        assert_eq!(f32::from_bits(row.angles_degrees.vertical), 0.0);
    }
}

#[test]
fn base_stations_register_in_order_and_allow_duplicates() {
    let mut d = ScriptedDecoder::new();
    let mut t = LighthouseTracker::new(1, &mut d);
    t.add_base_station(BaseStation::new(7, point(0.0, 0.0, 0.0)));
    assert_eq!(t.base_station_count(), 1);
    t.add_base_station(BaseStation::new(7, point(2.0, 0.0, 0.0)));
    assert_eq!(t.base_station_count(), 2);
    let s = BaseStation::new(9, point(1.0, 2.0, 3.0));
    assert_eq!(s.orientation, identity_quat());
}

#[test]
fn sweeps_with_zero_or_one_station_leave_positions_absent() {
    for station_count in 0..2usize {
        let mut d = ScriptedDecoder::new();
        for _ in 0..6 {
            d.push_sweep(0.4, -0.2);
        }
        let mut t = LighthouseTracker::new(3, &mut d);
        for i in 0..station_count {
            t.add_base_station(BaseStation::new(i as u8, point(i as f32, 0.0, 0.0)));
        }
        for round in 0..2 {
            for sensor in 0..3u8 {
                let r = t.process_photodiode_pulse(&mut d, sensor, 100 + round, 50);
                assert_eq!(r, PulseType::Sweep);
            }
        }
        for sensor in 0..3u8 {
            assert!(t.get_tracked_position(sensor).is_none());
        }
    }
}

#[test]
fn sync_and_unknown_pulses_change_nothing() {
    let mut d = ScriptedDecoder::new();
    d.push_sweep(0.25, -0.125);
    d.push_code(1);
    d.push_code(0);
    d.push_code(42);
    let mut t = LighthouseTracker::new(2, &mut d);
    t.add_base_station(BaseStation::new(0, point(0.0, 0.0, 0.0)));
    let mut rotated = BaseStation::new(1, point(2.0, 0.0, 0.0));
    rotated.orientation = yaw_quat(std::f32::consts::FRAC_PI_2);
    t.add_base_station(rotated);

    assert_eq!(t.process_photodiode_pulse(&mut d, 0, 10, 5), PulseType::Sweep);
    let before: Vec<SensorStatus> = t.status_snapshot();
    assert!(before[0].position.is_some());

    assert_eq!(t.process_photodiode_pulse(&mut d, 0, 20, 5), PulseType::Sync);
    assert_eq!(t.status_snapshot(), before);
    assert_eq!(t.process_photodiode_pulse(&mut d, 0, 30, 5), PulseType::Unknown);
    assert_eq!(t.status_snapshot(), before);
    assert_eq!(t.process_photodiode_pulse(&mut d, 0, 40, 5), PulseType::Unknown);
    assert_eq!(t.status_snapshot(), before);
}

#[test]
fn scenario_identity_stations_stay_parallel() {
    // Two stations on the x axis, both with the identity orientation: the
    // same decoded angles give both rays the direction (0, 0, -1), so
    // triangulation is degenerate and no fix ever appears.
    let mut d = ScriptedDecoder::new();
    d.push_sweep(0.0, 0.0);
    let mut t = LighthouseTracker::new(1, &mut d);
    t.add_base_station(BaseStation::new(0, point(0.0, 0.0, 0.0)));
    t.add_base_station(BaseStation::new(1, point(2.0, 0.0, 0.0)));
    assert_eq!(t.process_photodiode_pulse(&mut d, 0, 10, 5), PulseType::Sweep);
    assert!(t.get_tracked_position(0).is_none());
}

#[test]
fn scenario_rotated_station_triangulates_and_is_idempotent() {
    // As the identity scenario, but the second station is turned a quarter
    // turn about the vertical axis: the rays now cross and a finite fix
    // appears; repeating the same sweep reproduces the same fix.
    let mut d = ScriptedDecoder::new();
    d.push_sweep(0.0, 0.0);
    d.push_sweep(0.0, 0.0);
    let mut t = LighthouseTracker::new(1, &mut d);
    t.add_base_station(BaseStation::new(0, point(0.0, 0.0, 0.0)));
    let mut second = BaseStation::new(1, point(2.0, 0.0, 0.0));
    second.orientation = yaw_quat(std::f32::consts::FRAC_PI_2);
    t.add_base_station(second);

    assert_eq!(t.process_photodiode_pulse(&mut d, 0, 10, 5), PulseType::Sweep);
    let first = position_of(&t, 0).expect("rotated station must yield a fix");
    for c in first {
        assert!(c.is_finite());
    }
    assert_eq!(t.process_photodiode_pulse(&mut d, 0, 20, 5), PulseType::Sweep);
    let second_fix = position_of(&t, 0).expect("fix must persist");
    assert_eq!(first, second_fix);
}

#[test]
fn failed_retriangulation_keeps_the_previous_fix() {
    let mut d = ScriptedDecoder::new();
    d.push_sweep(0.0, 0.0);
    // A sweep looking straight up is turned into itself by the yaw, so the
    // pair degenerates and the earlier fix must survive.
    d.push_sweep(0.0, std::f32::consts::FRAC_PI_2);
    let mut t = LighthouseTracker::new(1, &mut d);
    t.add_base_station(BaseStation::new(0, point(0.0, 0.0, 0.0)));
    let mut second = BaseStation::new(1, point(2.0, 0.0, 0.0));
    second.orientation = yaw_quat(std::f32::consts::FRAC_PI_2);
    t.add_base_station(second);

    assert_eq!(t.process_photodiode_pulse(&mut d, 0, 10, 5), PulseType::Sweep);
    let fix = position_of(&t, 0).expect("first sweep must yield a fix");
    assert_eq!(t.process_photodiode_pulse(&mut d, 0, 20, 5), PulseType::Sweep);
    assert_eq!(position_of(&t, 0), Some(fix));
    // The angles were still overwritten wholesale by the failed sweep.
    let snapshot = t.status_snapshot();
    let expected_v = std::f32::consts::FRAC_PI_2.to_degrees();
    assert_eq!(f32::from_bits(snapshot[0].angles_degrees.vertical), expected_v);
}

#[test]
fn out_of_range_sensor_ids_are_ignored() {
    let mut d = ScriptedDecoder::new();
    d.push_sweep(0.5, 0.5);
    let mut t = LighthouseTracker::new(2, &mut d);
    t.add_base_station(BaseStation::new(0, point(0.0, 0.0, 0.0)));
    let mut second = BaseStation::new(1, point(2.0, 0.0, 0.0));
    second.orientation = yaw_quat(std::f32::consts::FRAC_PI_2);
    t.add_base_station(second);
    let before = t.status_snapshot();
    assert_eq!(t.process_photodiode_pulse(&mut d, 5, 10, 5), PulseType::Sweep);
    assert_eq!(t.status_snapshot(), before);
    assert!(t.get_tracked_position(5).is_none());
}

#[test]
fn angles_are_overwritten_wholesale_and_reported_in_degrees() {
    let mut d = ScriptedDecoder::new();
    d.push_sweep(0.5, -0.25);
    d.push_sweep(-1.0, 0.75);
    let mut t = LighthouseTracker::new(1, &mut d);
    assert_eq!(t.process_photodiode_pulse(&mut d, 0, 10, 5), PulseType::Sweep);
    let s1 = t.status_snapshot();
    assert_eq!(f32::from_bits(s1[0].angles_degrees.horizontal), 0.5f32.to_degrees());
    assert_eq!(f32::from_bits(s1[0].angles_degrees.vertical), (-0.25f32).to_degrees());
    assert_eq!(t.process_photodiode_pulse(&mut d, 0, 20, 5), PulseType::Sweep);
    let s2 = t.status_snapshot();
    assert_eq!(f32::from_bits(s2[0].angles_degrees.horizontal), (-1.0f32).to_degrees());
    assert_eq!(f32::from_bits(s2[0].angles_degrees.vertical), 0.75f32.to_degrees());
}

#[test]
fn sensor_ids_truncate_beyond_one_byte() {
    let mut d = ScriptedDecoder::new();
    let t = LighthouseTracker::new(258, &mut d);
    assert_eq!(t.sensor_count(), 258);
    let snapshot = t.status_snapshot();
    assert_eq!(snapshot[255].sensor_id, 255);
    assert_eq!(snapshot[256].sensor_id, 0);
    assert_eq!(snapshot[257].sensor_id, 1);
}

#[test]
fn fix_survives_sync_after_success() {
    let mut d = ScriptedDecoder::new();
    d.push_sweep(0.1, 0.2);
    d.push_code(1);
    let mut t = LighthouseTracker::new(1, &mut d);
    t.add_base_station(BaseStation::new(0, point(0.0, 0.0, 0.0)));
    let mut second = BaseStation::new(1, point(2.0, 0.0, 0.0));
    second.orientation = yaw_quat(std::f32::consts::FRAC_PI_2);
    t.add_base_station(second);
    assert_eq!(t.process_photodiode_pulse(&mut d, 0, 10, 5), PulseType::Sweep);
    let fix = position_of(&t, 0);
    assert!(fix.is_some());
    assert_eq!(t.process_photodiode_pulse(&mut d, 0, 20, 5), PulseType::Sync);
    assert_eq!(position_of(&t, 0), fix);
}

#[test]
fn device_info_carries_its_identity() {
    let info = DeviceInfo {
        vendor_id: 0x0BB4,
        product_id: 0x0342,
        device_path: String::from("/dev/hidraw0"),
    };
    let copy = info.clone();
    assert_eq!(copy.vendor_id, 0x0BB4);
    assert_eq!(copy.product_id, 0x0342);
    assert_eq!(copy.device_path, "/dev/hidraw0");
}
