//! The flight detector driven tick by tick through simulated flights. Altitudes are given in
//! meters here and handed to the detector in millimeters.

use sirin::flight::{FlightDetector, FlightInput, FlightParams, FlightUpdate};
use sirin::mode::SirinMode;

const TICK_MS: u64 = 100;

/// Meters to the detector's millimeters.
fn mm(meters: f64) -> i64 {
    (meters * 1000.0).round() as i64
}

/// G² to the detector's thousandths of G².
fn milli_g2(g2: f64) -> u64 {
    (g2 * 1000.0).round() as u64
}

/// The Comp 2026 values from `examples/nosecone-ebay`, in meters.
const LAUNCH_ALTITUDE_M: f64 = 20.0;
const APOGEE_ERROR_M: f64 = 4.0;
const MAIN_DEPLOYMENT_ALTITUDE_M: f64 = 457.2;
const APOGEE_LOCKOUT_MS: u64 = 25_000;
const LANDED_STABLE_MS: u64 = 30_000;

struct ParamsInMeters {
    apogee_error: f64,
    apogee_lockout_ms: u64,
    landed_stable_ms: u64,
}

const PARAMS: ParamsInMeters = ParamsInMeters {
    apogee_error: APOGEE_ERROR_M,
    apogee_lockout_ms: APOGEE_LOCKOUT_MS,
    landed_stable_ms: LANDED_STABLE_MS,
};

fn params() -> FlightParams {
    FlightParams {
        launch_altitude: mm(LAUNCH_ALTITUDE_M),
        launch_accel_squared: milli_g2(10.0 * 10.0),
        apogee_error: mm(APOGEE_ERROR_M),
        apogee_lockout_ms: APOGEE_LOCKOUT_MS,
        main_deployment_altitude: Some(mm(MAIN_DEPLOYMENT_ALTITUDE_M)),
        landed_altitude_band: mm(4.0),
        landed_stable_ms: LANDED_STABLE_MS,
        flight_duration_ms: 1_000_000,
    }
}

fn entered(mode: SirinMode) -> FlightUpdate {
    FlightUpdate { new_mode: Some(mode), ..Default::default() }
}

/// A non-empty update, with the time and altitude it happened at.
#[derive(Clone, Copy, Debug, PartialEq)]
struct Event {
    now_ms: u64,
    altitude: f64,
    update: FlightUpdate,
}

/// Drives a detector with a barometric altitude profile at `TICK_MS` intervals.
struct Sim {
    detector: FlightDetector,
    now_ms: u64,
    /// The last altitude fed to the detector, in meters.
    last_altitude: f64,
}

impl Sim {
    fn new(params: FlightParams) -> Self {
        Self { detector: FlightDetector::new(params), now_ms: 0, last_altitude: 0.0 }
    }

    fn tick(&mut self, altitude: Option<f64>, accel_squared: Option<f64>, requested_mode: Option<SirinMode>) -> FlightUpdate {
        self.now_ms += TICK_MS;
        if let Some(altitude) = altitude {
            self.last_altitude = altitude;
        }
        self.detector.update(FlightInput {
            now_ms: self.now_ms,
            altitude: altitude.map(mm),
            accel_squared: accel_squared.map(milli_g2),
            requested_mode,
        })
    }

    /// One tick at `altitude` with a quiet IMU.
    fn altitude(&mut self, altitude: f64) -> FlightUpdate {
        self.tick(Some(altitude), Some(1.0), None)
    }

    /// One tick at the current altitude carrying an operator request.
    fn request(&mut self, mode: SirinMode) -> FlightUpdate {
        self.tick(Some(self.last_altitude), Some(1.0), Some(mode))
    }

    /// Holds `altitude` for `duration_ms`, asserting that nothing happens.
    fn hold(&mut self, altitude: f64, duration_ms: u64) {
        for _ in 0..duration_ms / TICK_MS {
            assert_eq!(self.altitude(altitude), FlightUpdate::default(), "at t={}ms", self.now_ms);
        }
    }

    /// Ramps linearly from the current altitude to `target` over `duration_ms` and returns
    /// every non-empty update.
    fn ramp(&mut self, target: f64, duration_ms: u64) -> Vec<Event> {
        let start = self.last_altitude;
        let steps = duration_ms / TICK_MS;
        let mut events = Vec::new();

        for step in 1..=steps {
            let altitude = start + (target - start) * step as f64 / steps as f64;
            let update = self.altitude(altitude);
            if update != FlightUpdate::default() {
                events.push(Event { now_ms: self.now_ms, altitude, update });
            }
        }

        events
    }

    /// Launches at 25 m and climbs to `apogee` over `ascent_ms`, then dips 10 m over one
    /// second so that apogee is declared. Returns the apogee event.
    fn fly_to_apogee(&mut self, apogee: f64, ascent_ms: u64) -> Event {
        assert_eq!(self.altitude(25.0), entered(SirinMode::Flight));
        assert_eq!(self.ramp(apogee, ascent_ms), vec![]);

        let events = self.ramp(apogee - 10.0, 1_000);
        assert_eq!(events.len(), 1, "{events:?}");
        assert_eq!(events[0].update.new_mode, Some(SirinMode::Descent));
        assert!(events[0].update.deploy_apo);
        assert_eq!(self.apogee(), Some(apogee));
        events[0]
    }

    fn mode(&self) -> SirinMode {
        self.detector.mode()
    }

    fn apogee(&self) -> Option<f64> {
        self.detector.apogee().map(|apogee| apogee as f64 / 1000.0)
    }

    fn max_altitude(&self) -> f64 {
        self.detector.max_altitude() as f64 / 1000.0
    }

    fn since_launch(&self) -> u64 {
        self.now_ms - self.detector.launched_at_ms().expect("not launched")
    }
}

#[test]
fn starts_in_standby() {
    let detector = FlightDetector::new(params());
    assert_eq!(detector.mode(), SirinMode::Standby);
    assert!(detector.apogee().is_none());
    assert_eq!(detector.launched_at_ms(), None);
    assert_eq!(detector.params(), &params());
}

#[test]
fn standby_ignores_noise_below_thresholds() {
    let mut sim = Sim::new(params());
    sim.hold(0.0, 1_000);
    sim.hold(19.0, 1_000);
    assert_eq!(sim.tick(Some(0.0), Some(99.0), None), FlightUpdate::default());
    assert_eq!(sim.tick(None, None, None), FlightUpdate::default());
    assert_eq!(sim.mode(), SirinMode::Standby);
    assert_eq!(sim.detector.launched_at_ms(), None);
}

#[test]
fn launch_by_altitude() {
    let mut sim = Sim::new(params());
    sim.hold(0.0, 1_000);

    assert_eq!(sim.altitude(20.5), entered(SirinMode::Flight));
    assert_eq!(sim.mode(), SirinMode::Flight);
    assert_eq!(sim.detector.launched_at_ms(), Some(sim.now_ms));
    assert_eq!(sim.max_altitude(), 20.5);
    assert_eq!(sim.apogee(), None);
}

#[test]
fn launch_by_acceleration() {
    let mut sim = Sim::new(params());
    sim.hold(0.0, 1_000);

    assert_eq!(sim.tick(Some(0.0), Some(11.0 * 11.0), None), entered(SirinMode::Flight));
    assert_eq!(sim.mode(), SirinMode::Flight);
}

#[test]
fn launch_by_acceleration_without_barometer() {
    let mut sim = Sim::new(params());
    assert_eq!(sim.tick(None, Some(11.0 * 11.0), None), entered(SirinMode::Flight));
}

#[test]
fn nominal_flight() {
    let mut sim = Sim::new(params());
    sim.hold(0.0, 2_000);

    // Boost and coast to a 3000 m apogee over 30 s.
    let events = sim.ramp(3000.0, 30_000);
    assert_eq!(events.len(), 1, "{events:?}");
    assert_eq!(events[0].update, entered(SirinMode::Flight));
    assert_eq!(sim.mode(), SirinMode::Flight);
    assert_eq!(sim.apogee(), None);

    // Fall back to the pad over 120 s (2.5 m per tick).
    let events = sim.ramp(0.0, 120_000);
    assert_eq!(events.len(), 2, "{events:?}");

    let apogee = events[0];
    assert_eq!(apogee.update, FlightUpdate { new_mode: Some(SirinMode::Descent), deploy_apo: true, deploy_main: false });
    assert!(apogee.altitude < 3000.0 - PARAMS.apogee_error, "apogee declared at {} m", apogee.altitude);
    assert!(apogee.altitude >= 3000.0 - PARAMS.apogee_error - 2.5, "apogee declared late at {} m", apogee.altitude);
    assert_eq!(sim.apogee(), Some(3000.0));

    let main = events[1];
    assert_eq!(main.update, FlightUpdate { new_mode: None, deploy_apo: false, deploy_main: true });
    assert!(main.altitude < 457.2 && main.altitude >= 457.2 - 2.5, "main deployed at {} m", main.altitude);

    // Still moving when we reach the pad: not landed yet.
    assert_eq!(sim.mode(), SirinMode::Descent);

    // Sitting on the ground (with a little noise) for the stable period lands the flight.
    let on_ground_at = sim.now_ms;
    let mut landed_at = None;
    for step in 0..(2 * PARAMS.landed_stable_ms / TICK_MS) {
        let update = sim.altitude(if step % 2 == 0 { 0.5 } else { -0.5 });
        if update != FlightUpdate::default() {
            assert_eq!(update, entered(SirinMode::Landed));
            landed_at = Some(sim.now_ms);
            break;
        }
    }
    let landed_at = landed_at.expect("never landed");
    // The anchor may have been taken a tick before the ramp ended.
    assert!(landed_at - on_ground_at >= PARAMS.landed_stable_ms - TICK_MS, "landed too early");
    assert!(landed_at - on_ground_at <= PARAMS.landed_stable_ms + TICK_MS, "landed too late");
    assert_eq!(sim.mode(), SirinMode::Landed);
    assert_eq!(sim.apogee(), Some(3000.0));

    // Nothing happens after landing, whatever the sensors say.
    sim.hold(0.0, 10_000);
    sim.hold(500.0, 10_000);
    assert_eq!(sim.tick(Some(0.0), Some(400.0), None), FlightUpdate::default());
    assert_eq!(sim.mode(), SirinMode::Landed);
}

#[test]
fn apogee_is_not_declared_during_lockout() {
    let mut sim = Sim::new(params());
    assert_eq!(sim.altitude(25.0), entered(SirinMode::Flight));

    // A pressure transient during boost looks like a 50 m drop 5 s into the flight.
    assert_eq!(sim.ramp(400.0, 5_000), vec![]);
    assert_eq!(sim.altitude(360.0), FlightUpdate::default());
    assert_eq!(sim.altitude(350.0), FlightUpdate::default());
    assert!(sim.since_launch() < PARAMS.apogee_lockout_ms);
    assert_eq!(sim.mode(), SirinMode::Flight);
    assert_eq!(sim.apogee(), None);

    // The rocket keeps climbing past the transient and reaches apogee after the lockout.
    assert_eq!(sim.ramp(2000.0, 30_000), vec![]);
    let events = sim.ramp(1990.0, 1_000);
    assert_eq!(events.len(), 1, "{events:?}");
    assert_eq!(events[0].update, FlightUpdate { new_mode: Some(SirinMode::Descent), deploy_apo: true, deploy_main: false });
    assert!(sim.since_launch() > PARAMS.apogee_lockout_ms);
    assert_eq!(sim.apogee(), Some(2000.0));
}

#[test]
fn early_apogee_is_declared_as_soon_as_lockout_ends() {
    let mut sim = Sim::new(params());
    assert_eq!(sim.altitude(25.0), entered(SirinMode::Flight));
    let launched_at = sim.detector.launched_at_ms().unwrap();

    // An underperforming flight: apogee at 800 m only 20 s in, then falling at 10 m/s.
    assert_eq!(sim.ramp(800.0, 20_000), vec![]);
    let events = sim.ramp(700.0, 10_000);

    assert_eq!(events.len(), 1, "{events:?}");
    let apogee = events[0];
    assert_eq!(apogee.update, FlightUpdate { new_mode: Some(SirinMode::Descent), deploy_apo: true, deploy_main: false });

    // Declared on the first tick after the lockout, with the true maximum as the apogee.
    let elapsed = apogee.now_ms - launched_at;
    assert!(elapsed > PARAMS.apogee_lockout_ms, "declared during lockout at {elapsed} ms");
    assert!(elapsed <= PARAMS.apogee_lockout_ms + TICK_MS, "declared late at {elapsed} ms");
    assert_eq!(sim.apogee(), Some(800.0));
}

#[test]
fn apogee_is_corrected_if_still_climbing() {
    let mut sim = Sim::new(params());
    sim.fly_to_apogee(1000.0, 30_000);
    assert_eq!(sim.mode(), SirinMode::Descent);
    assert_eq!(sim.apogee(), Some(1000.0));

    // The dip was a transient and the rocket is still climbing. The recorded apogee follows
    // the true maximum, the mode stays Descent, and the apogee charge is not fired again.
    assert_eq!(sim.ramp(1500.0, 10_000), vec![]);
    assert_eq!(sim.mode(), SirinMode::Descent);
    assert_eq!(sim.apogee(), Some(1500.0));

    // Noise inside the hysteresis band does not move the apogee.
    assert_eq!(sim.altitude(1503.0), FlightUpdate::default());
    assert_eq!(sim.apogee(), Some(1500.0));
}

#[test]
fn main_fires_once() {
    let mut sim = Sim::new(params());
    sim.fly_to_apogee(2000.0, 30_000);

    let events = sim.ramp(300.0, 60_000);
    assert_eq!(events.len(), 1, "{events:?}");
    assert_eq!(events[0].update, FlightUpdate { new_mode: None, deploy_apo: false, deploy_main: true });
    assert!(events[0].altitude < 457.2);

    // Bouncing back above and below the main altitude does not fire it again.
    assert_eq!(sim.ramp(500.0, 5_000), vec![]);
    assert_eq!(sim.ramp(300.0, 5_000), vec![]);
}

#[test]
fn low_apogee_fires_both_charges_in_one_tick() {
    let mut sim = Sim::new(params());
    let apogee = sim.fly_to_apogee(300.0, 30_000);
    assert_eq!(apogee.update, FlightUpdate { new_mode: Some(SirinMode::Descent), deploy_apo: true, deploy_main: true });
}

#[test]
fn main_deployment_can_be_disabled() {
    let mut sim = Sim::new(FlightParams { main_deployment_altitude: None, ..params() });
    sim.fly_to_apogee(2000.0, 30_000);
    assert_eq!(sim.ramp(10.0, 60_000), vec![]);
    assert_eq!(sim.mode(), SirinMode::Descent);
}

#[test]
fn flight_times_out_without_apogee() {
    let mut sim = Sim::new(FlightParams { flight_duration_ms: 60_000, ..params() });
    assert_eq!(sim.altitude(25.0), entered(SirinMode::Flight));

    // A stuck barometer: the altitude never comes down, so apogee is never declared.
    assert_eq!(sim.ramp(1000.0, 59_000), vec![]);
    assert_eq!(sim.mode(), SirinMode::Flight);

    for _ in 0..20 {
        let update = sim.altitude(1000.0);
        if update != FlightUpdate::default() {
            assert_eq!(update, entered(SirinMode::Landed));
            assert!(sim.since_launch() > 60_000);
            assert!(sim.since_launch() <= 60_000 + TICK_MS);
            assert_eq!(sim.apogee(), None);
            return;
        }
    }

    panic!("flight never timed out");
}

#[test]
fn descent_times_out() {
    let mut sim = Sim::new(FlightParams { flight_duration_ms: 60_000, ..params() });
    sim.fly_to_apogee(2000.0, 30_000);

    // Coming down slowly enough that the altitude never settles before the timeout.
    let events = sim.ramp(1500.0, 40_000);
    assert_eq!(events.len(), 1, "{events:?}");
    assert_eq!(events[0].update, entered(SirinMode::Landed));
    assert!(events[0].now_ms - sim.detector.launched_at_ms().unwrap() > 60_000);
    assert_eq!(sim.apogee(), Some(2000.0));
}

#[test]
fn timeout_also_applies_without_a_barometer() {
    let mut sim = Sim::new(FlightParams { flight_duration_ms: 10_000, ..params() });
    assert_eq!(sim.tick(None, Some(200.0), None), entered(SirinMode::Flight));

    for _ in 0..200 {
        let update = sim.tick(None, None, None);
        if update != FlightUpdate::default() {
            assert_eq!(update, entered(SirinMode::Landed));
            assert!(sim.since_launch() > 10_000);
            return;
        }
    }

    panic!("flight never timed out");
}

#[test]
fn landing_needs_fresh_readings() {
    let mut sim = Sim::new(params());
    sim.fly_to_apogee(2000.0, 30_000);
    sim.ramp(0.0, 60_000);
    assert_eq!(sim.mode(), SirinMode::Descent);

    // A dead barometer must not look like a stable altitude.
    for _ in 0..(2 * PARAMS.landed_stable_ms / TICK_MS) {
        assert_eq!(sim.tick(None, Some(1.0), None), FlightUpdate::default());
    }
    assert_eq!(sim.mode(), SirinMode::Descent);
}

#[test]
fn landing_anchor_resets_while_moving() {
    let mut sim = Sim::new(params());
    sim.fly_to_apogee(2000.0, 30_000);
    sim.ramp(300.0, 60_000);
    assert_eq!(sim.mode(), SirinMode::Descent);

    // Descending at 5 m/s for two minutes never looks like a landing.
    assert_eq!(sim.ramp(300.0 - 5.0 * 120.0, 120_000), vec![]);
    assert_eq!(sim.mode(), SirinMode::Descent);

    // Jitter inside the band does count, once it has gone on long enough.
    let settled_at = sim.now_ms;
    let mut landed_at = None;
    for step in 0..1_000 {
        let update = sim.altitude(-300.0 + (step % 3) as f64);
        if update != FlightUpdate::default() {
            assert_eq!(update, entered(SirinMode::Landed));
            landed_at = Some(sim.now_ms);
            break;
        }
    }
    let landed_at = landed_at.expect("never landed");
    assert!(landed_at - settled_at >= PARAMS.landed_stable_ms - TICK_MS);
    assert!(landed_at - settled_at <= PARAMS.landed_stable_ms + TICK_MS);
}

#[test]
fn requested_modes_walk_the_state_machine() {
    let mut sim = Sim::new(params());
    sim.hold(0.0, 1_000);

    assert_eq!(sim.request(SirinMode::Flight), entered(SirinMode::Flight));
    assert_eq!(sim.mode(), SirinMode::Flight);
    assert_eq!(sim.detector.launched_at_ms(), Some(sim.now_ms));

    // Forcing Descent never fires the apogee charge, but does record an apogee.
    assert_eq!(sim.request(SirinMode::Descent), entered(SirinMode::Descent));
    assert_eq!(sim.mode(), SirinMode::Descent);
    assert_eq!(sim.apogee(), Some(0.0));

    // Detection keeps running in the forced mode: on the pad we are below the main
    // deployment altitude, so the main charge fires on the next tick.
    assert_eq!(sim.altitude(0.0), FlightUpdate { new_mode: None, deploy_apo: false, deploy_main: true });

    assert_eq!(sim.request(SirinMode::Landed), entered(SirinMode::Landed));
    assert_eq!(sim.mode(), SirinMode::Landed);

    // Standby re-arms everything.
    assert_eq!(sim.request(SirinMode::Standby), entered(SirinMode::Standby));
    assert_eq!(sim.mode(), SirinMode::Standby);
    assert_eq!(sim.apogee(), None);
    assert_eq!(sim.detector.launched_at_ms(), None);
    sim.hold(0.0, 1_000);
    assert_eq!(sim.altitude(30.0), entered(SirinMode::Flight));
}

#[test]
fn requesting_the_current_mode_does_nothing() {
    let mut sim = Sim::new(params());
    assert_eq!(sim.request(SirinMode::Standby), FlightUpdate::default());
    sim.request(SirinMode::Flight);
    assert_eq!(sim.request(SirinMode::Flight), FlightUpdate::default());
    assert_eq!(sim.mode(), SirinMode::Flight);
}

#[test]
fn request_wins_over_detection_in_the_same_tick() {
    let mut sim = Sim::new(params());
    sim.hold(0.0, 1_000);

    // Launch would be detected this tick, but the operator asked for Landed.
    let update = sim.tick(Some(100.0), Some(1.0), Some(SirinMode::Landed));
    assert_eq!(update, entered(SirinMode::Landed));
    assert_eq!(sim.mode(), SirinMode::Landed);
}

#[test]
fn forced_flight_from_descent_starts_a_fresh_ascent() {
    let mut sim = Sim::new(params());
    sim.fly_to_apogee(2000.0, 30_000);
    let launched_at = sim.detector.launched_at_ms();

    assert_eq!(sim.request(SirinMode::Flight), entered(SirinMode::Flight));
    assert_eq!(sim.apogee(), None);
    assert_eq!(sim.max_altitude(), 1990.0);
    // The first launch time is kept so the flight timeout still counts from launch.
    assert_eq!(sim.detector.launched_at_ms(), launched_at);
}
