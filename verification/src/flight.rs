//! Flight phase detection: `Standby -> Flight -> Descent -> Landed`.
//!
//! [`FlightDetector`] is the single place that decides which [`SirinMode`] the rocket is in and
//! when the parachutes should be fired. It is pure -- no hardware, no timers, no I/O: the flight
//! software feeds it one [`FlightInput`] per control-loop tick and acts on the returned
//! [`FlightUpdate`] (fire charges, toggle the LED, start/stop flash logging).
//!
//! Altitudes are whole millimeters above the pad and accelerations squared are whole thousandths
//! of G², so that every comparison the detector makes is exact.
//!
//! # Phases
//!
//! * **Standby** -- on the pad. Launch is detected when the altitude above the pad exceeds
//!   [`FlightParams::launch_altitude`] or the acceleration exceeds
//!   [`FlightParams::launch_accel_squared`].
//! * **Flight** -- ascending. The running maximum altitude is tracked. Apogee is declared once
//!   the altitude has fallen [`FlightParams::apogee_error`] below that maximum *and*
//!   [`FlightParams::apogee_lockout_ms`] has elapsed since launch. Declaring apogee fires the
//!   apogee charge and enters `Descent`.
//! * **Descent** -- past apogee. The recorded apogee is corrected upwards if the rocket turns out
//!   to still be climbing, the main charge fires when the altitude drops below
//!   [`FlightParams::main_deployment_altitude`], and landing is declared once the altitude has
//!   stayed within [`FlightParams::landed_altitude_band`] for [`FlightParams::landed_stable_ms`].
//! * **Landed** -- on the ground. Nothing further happens.
//!
//! [`FlightParams::flight_duration_ms`] after launch the flight is declared over from either
//! airborne phase, so logging always stops eventually even if the sensors misbehave.
//!
//! An operator can force any mode. A forced transition never fires a charge by itself, but the
//! detection logic keeps running in the new mode.

use vstd::prelude::*;
use crate::mode::{mode_is_airborne, SirinMode};

verus! {

/// Tunable thresholds for flight phase detection.
#[derive(Clone, Copy, Debug, PartialEq, Eq, Structural)]
pub struct FlightParams {
    /// Altitude above the pad above which a launch is detected, in millimeters.
    pub launch_altitude: i64,
    /// Squared magnitude of the IMU acceleration above which a launch is detected, in
    /// thousandths of G².
    pub launch_accel_squared: u64,
    /// How far the altitude must fall below the running maximum before apogee is declared, in
    /// millimeters. This is the hysteresis that keeps barometric noise from declaring apogee.
    pub apogee_error: i64,
    /// Time after launch during which apogee is never declared, in milliseconds.
    pub apogee_lockout_ms: u64,
    /// Altitude below which the main parachute is deployed during descent, in millimeters.
    /// `None` means the detector never asks for a main deployment.
    pub main_deployment_altitude: Option<i64>,
    /// Altitude band that counts as "not moving" for landing detection, in millimeters.
    pub landed_altitude_band: i64,
    /// How long the altitude must stay inside `landed_altitude_band` before landing is
    /// declared, in milliseconds.
    pub landed_stable_ms: u64,
    /// Time after launch at which the flight is declared over regardless of the sensors, in
    /// milliseconds.
    pub flight_duration_ms: u64,
}

/// Measurements fed to the detector once per control-loop tick.
#[derive(Clone, Copy, Debug, PartialEq, Eq, Structural)]
pub struct FlightInput {
    /// Milliseconds since boot.
    pub now_ms: u64,
    /// Barometric altitude above the pad in millimeters, if the barometer produced a reading.
    pub altitude: Option<i64>,
    /// Squared magnitude of the IMU acceleration in thousandths of G², if the IMU produced a
    /// reading this tick.
    pub accel_squared: Option<u64>,
    /// A mode requested by the operator, if one arrived this tick.
    pub requested_mode: Option<SirinMode>,
}

/// What the flight computer should do after a tick.
#[derive(Clone, Copy, Debug, PartialEq, Eq, Structural)]
pub struct FlightUpdate {
    /// The mode entered during this tick, if the mode changed.
    pub new_mode: Option<SirinMode>,
    /// Apogee was declared this tick: fire the apogee charge.
    pub deploy_apo: bool,
    /// The main deployment altitude was crossed this tick: fire the main charge.
    pub deploy_main: bool,
}

/// The update that asks for nothing.
pub open spec fn no_update() -> FlightUpdate {
    FlightUpdate { new_mode: None, deploy_apo: false, deploy_main: false }
}

impl Default for FlightUpdate {
    fn default() -> (u: FlightUpdate)
        ensures
            u == no_update(),
    {
        FlightUpdate { new_mode: None, deploy_apo: false, deploy_main: false }
    }
}

/// The flight phase state machine. See the module documentation. Every detector is well
/// formed ([`FlightDetector::wf`]): it is made by [`FlightDetector::new`] and changed only by
/// [`FlightDetector::update`].
#[derive(Debug)]
pub struct FlightDetector {
    state: DetectorState,
}

impl Clone for FlightDetector {
    fn clone(&self) -> (c: Self)
        ensures
            c == *self,
    {
        proof {
            use_type_invariant(self);
        }
        FlightDetector { state: self.state }
    }
}

/// What a detector remembers between ticks.
#[derive(Clone, Copy, Debug)]
struct DetectorState {
    params: FlightParams,
    mode: SirinMode,
    /// Most recent barometric altitude above the pad.
    altitude: i64,
    /// Highest altitude seen since launch.
    max_altitude: i64,
    /// Altitude at which apogee was declared, corrected upwards if the rocket kept climbing.
    apogee: Option<i64>,
    /// Time of launch, in milliseconds since boot.
    launched_at_ms: Option<u64>,
    /// The main deployment altitude has already been crossed this flight.
    main_altitude_reached: bool,
    /// Reference altitude and the time it was taken, for landing detection.
    landed_anchor: Option<(i64, u64)>,
}

/// `a - b`, or 0 when `b` is later than `a`.
pub open spec fn elapsed_ms(now_ms: u64, since_ms: u64) -> nat {
    if now_ms >= since_ms {
        (now_ms - since_ms) as nat
    } else {
        0
    }
}

impl FlightDetector {
    pub closed spec fn spec_params(&self) -> FlightParams {
        self.state.params
    }

    pub closed spec fn spec_mode(&self) -> SirinMode {
        self.state.mode
    }

    pub closed spec fn spec_altitude(&self) -> i64 {
        self.state.altitude
    }

    pub closed spec fn spec_max_altitude(&self) -> i64 {
        self.state.max_altitude
    }

    pub closed spec fn spec_apogee(&self) -> Option<i64> {
        self.state.apogee
    }

    pub closed spec fn spec_launched_at_ms(&self) -> Option<u64> {
        self.state.launched_at_ms
    }

    pub closed spec fn spec_main_altitude_reached(&self) -> bool {
        self.state.main_altitude_reached
    }

    pub closed spec fn spec_landed_anchor(&self) -> Option<(i64, u64)> {
        self.state.landed_anchor
    }

    /// What every reachable detector satisfies: on the pad nothing of a flight is remembered,
    /// an airborne rocket has a launch time, an apogee is recorded exactly in `Descent` and
    /// `Landed`-or-later phases that passed through it, and never above the highest altitude;
    /// the main charge is not marked as fired before apogee.
    pub open spec fn wf(&self) -> bool {
        &&& self.spec_mode() == SirinMode::Standby ==> {
            &&& self.spec_launched_at_ms() is None
            &&& self.spec_apogee() is None
            &&& !self.spec_main_altitude_reached()
        }
        &&& mode_is_airborne(self.spec_mode()) ==> self.spec_launched_at_ms() is Some
        &&& self.spec_mode() == SirinMode::Flight ==> self.spec_apogee() is None
        &&& self.spec_mode() == SirinMode::Flight ==> !self.spec_main_altitude_reached()
        &&& self.spec_mode() == SirinMode::Descent ==> self.spec_apogee() is Some
        &&& (self.spec_apogee() matches Some(a) ==> a <= self.spec_max_altitude())
    }

    #[verifier::type_invariant]
    spec fn well_formed(self) -> bool {
        self.wf()
    }

    /// The flight has lasted longer than it may.
    pub open spec fn spec_timed_out(&self, now_ms: u64) -> bool {
        self.spec_launched_at_ms() matches Some(t) && elapsed_ms(now_ms, t)
            > self.spec_params().flight_duration_ms
    }

    /// The apogee lockout is over.
    pub open spec fn spec_past_lockout(&self, now_ms: u64) -> bool {
        self.spec_launched_at_ms() matches Some(t) && elapsed_ms(now_ms, t)
            > self.spec_params().apogee_lockout_ms
    }

    /// The launch condition of the `Standby` phase.
    pub open spec fn spec_launch_detected(&self, input: FlightInput) -> bool {
        (input.altitude matches Some(a) && a > self.spec_params().launch_altitude) || (
        input.accel_squared matches Some(g) && g > self.spec_params().launch_accel_squared)
    }

    /// The apogee condition of the `Flight` phase, for a reading `altitude`.
    pub open spec fn spec_descending(&self, altitude: i64) -> bool {
        self.spec_max_altitude() > altitude + self.spec_params().apogee_error
    }
}

/// A detector with its fields replaced, for stating how a tick changes it.
pub closed spec fn detector_with(
    d: FlightDetector,
    mode: SirinMode,
    altitude: i64,
    max_altitude: i64,
    apogee: Option<i64>,
    launched_at_ms: Option<u64>,
    main_altitude_reached: bool,
    landed_anchor: Option<(i64, u64)>,
) -> FlightDetector {
    FlightDetector {
        state: DetectorState {
            params: d.state.params,
            mode,
            altitude,
            max_altitude,
            apogee,
            launched_at_ms,
            main_altitude_reached,
            landed_anchor,
        },
    }
}

/// What a detector with replaced fields holds: the fields it was given, and the parameters of
/// the detector it was made from. This is what lets a caller follow a tick of
/// [`FlightDetector::update`] field by field.
pub broadcast proof fn lemma_detector_with(
    d: FlightDetector,
    mode: SirinMode,
    altitude: i64,
    max_altitude: i64,
    apogee: Option<i64>,
    launched_at_ms: Option<u64>,
    main_altitude_reached: bool,
    landed_anchor: Option<(i64, u64)>,
)
    ensures
        #![trigger detector_with(
            d,
            mode,
            altitude,
            max_altitude,
            apogee,
            launched_at_ms,
            main_altitude_reached,
            landed_anchor,
        )]
        ({
            let r = detector_with(
                d,
                mode,
                altitude,
                max_altitude,
                apogee,
                launched_at_ms,
                main_altitude_reached,
                landed_anchor,
            );
            &&& r.spec_params() == d.spec_params()
            &&& r.spec_mode() == mode
            &&& r.spec_altitude() == altitude
            &&& r.spec_max_altitude() == max_altitude
            &&& r.spec_apogee() == apogee
            &&& r.spec_launched_at_ms() == launched_at_ms
            &&& r.spec_main_altitude_reached() == main_altitude_reached
            &&& r.spec_landed_anchor() == landed_anchor
        }),
{
}

/// Taking in this tick's altitude reading, if any: the running maximum follows it while airborne.
pub open spec fn after_reading(d: FlightDetector, altitude: Option<i64>) -> FlightDetector {
    match altitude {
        Some(a) => detector_with(
            d,
            d.spec_mode(),
            a,
            if mode_is_airborne(d.spec_mode()) && a > d.spec_max_altitude() {
                a
            } else {
                d.spec_max_altitude()
            },
            d.spec_apogee(),
            d.spec_launched_at_ms(),
            d.spec_main_altitude_reached(),
            d.spec_landed_anchor(),
        ),
        None => d,
    }
}

/// Entering `mode` at `now_ms`: what is reset depends on the phase entered.
pub open spec fn after_enter(d: FlightDetector, mode: SirinMode, now_ms: u64, out: FlightUpdate) -> (
    FlightDetector,
    FlightUpdate,
) {
    let launched_or_now = match d.spec_launched_at_ms() {
        Some(t) => t,
        None => now_ms,
    };
    let nd = match mode {
        SirinMode::Standby => detector_with(
            d,
            mode,
            d.spec_altitude(),
            d.spec_altitude(),
            None,
            None,
            false,
            None,
        ),
        SirinMode::Flight => detector_with(
            d,
            mode,
            d.spec_altitude(),
            d.spec_altitude(),
            None,
            Some(launched_or_now),
            false,
            None,
        ),
        SirinMode::Descent => detector_with(
            d,
            mode,
            d.spec_altitude(),
            d.spec_max_altitude(),
            Some(
                match d.spec_apogee() {
                    Some(a) => a,
                    None => d.spec_max_altitude(),
                },
            ),
            Some(launched_or_now),
            d.spec_main_altitude_reached(),
            None,
        ),
        SirinMode::Landed => detector_with(
            d,
            mode,
            d.spec_altitude(),
            d.spec_max_altitude(),
            d.spec_apogee(),
            d.spec_launched_at_ms(),
            d.spec_main_altitude_reached(),
            None,
        ),
    };
    (nd, FlightUpdate { new_mode: Some(mode), ..out })
}

/// Firing the main charge once, when the reading is below the main deployment altitude.
pub open spec fn after_main_check(d: FlightDetector, altitude: i64, out: FlightUpdate) -> (
    FlightDetector,
    FlightUpdate,
) {
    match d.spec_params().main_deployment_altitude {
        Some(main_altitude) => if !d.spec_main_altitude_reached() && altitude < main_altitude {
            (
                detector_with(
                    d,
                    d.spec_mode(),
                    d.spec_altitude(),
                    d.spec_max_altitude(),
                    d.spec_apogee(),
                    d.spec_launched_at_ms(),
                    true,
                    d.spec_landed_anchor(),
                ),
                FlightUpdate { deploy_main: true, ..out },
            )
        } else {
            (d, out)
        },
        None => (d, out),
    }
}

/// Landing: the reading stayed within the band around the anchor for long enough; a reading
/// outside the band (or no anchor yet) takes a new anchor.
pub open spec fn after_landing_check(
    d: FlightDetector,
    altitude: i64,
    now_ms: u64,
    out: FlightUpdate,
) -> (FlightDetector, FlightUpdate) {
    let band = d.spec_params().landed_altitude_band;
    match d.spec_landed_anchor() {
        Some((anchor, since_ms)) if -band <= altitude - anchor <= band => {
            if elapsed_ms(now_ms, since_ms) >= d.spec_params().landed_stable_ms {
                after_enter(d, SirinMode::Landed, now_ms, out)
            } else {
                (d, out)
            }
        },
        _ => (
            detector_with(
                d,
                d.spec_mode(),
                d.spec_altitude(),
                d.spec_max_altitude(),
                d.spec_apogee(),
                d.spec_launched_at_ms(),
                d.spec_main_altitude_reached(),
                Some((altitude, now_ms)),
            ),
            out,
        ),
    }
}

/// The recorded apogee follows the maximum when it rose more than the hysteresis above it.
pub open spec fn after_apogee_correction(d: FlightDetector) -> FlightDetector {
    match d.spec_apogee() {
        Some(a) => if d.spec_max_altitude() > a + d.spec_params().apogee_error {
            detector_with(
                d,
                d.spec_mode(),
                d.spec_altitude(),
                d.spec_max_altitude(),
                Some(d.spec_max_altitude()),
                d.spec_launched_at_ms(),
                d.spec_main_altitude_reached(),
                d.spec_landed_anchor(),
            )
        } else {
            d
        },
        None => d,
    }
}

/// What the sensors decide in the current phase, before any operator request.
pub open spec fn after_detection(d: FlightDetector, input: FlightInput) -> (
    FlightDetector,
    FlightUpdate,
) {
    let now_ms = input.now_ms;
    match d.spec_mode() {
        SirinMode::Standby => if d.spec_launch_detected(input) {
            after_enter(d, SirinMode::Flight, now_ms, no_update())
        } else {
            (d, no_update())
        },
        SirinMode::Flight => if d.spec_timed_out(now_ms) {
            after_enter(d, SirinMode::Landed, now_ms, no_update())
        } else {
            match input.altitude {
                Some(a) => if d.spec_descending(a) && d.spec_past_lockout(now_ms) {
                    let d1 = detector_with(
                        d,
                        d.spec_mode(),
                        d.spec_altitude(),
                        d.spec_max_altitude(),
                        Some(d.spec_max_altitude()),
                        d.spec_launched_at_ms(),
                        d.spec_main_altitude_reached(),
                        d.spec_landed_anchor(),
                    );
                    let (d2, o2) = after_enter(
                        d1,
                        SirinMode::Descent,
                        now_ms,
                        FlightUpdate { deploy_apo: true, ..no_update() },
                    );
                    after_main_check(d2, a, o2)
                } else {
                    (d, no_update())
                },
                None => (d, no_update()),
            }
        },
        SirinMode::Descent => if d.spec_timed_out(now_ms) {
            after_enter(d, SirinMode::Landed, now_ms, no_update())
        } else {
            match input.altitude {
                Some(a) => {
                    let d1 = after_apogee_correction(d);
                    let (d2, o2) = after_main_check(d1, a, no_update());
                    after_landing_check(d2, a, now_ms, o2)
                },
                None => (d, no_update()),
            }
        },
        SirinMode::Landed => (d, no_update()),
    }
}

/// One tick of the state machine: the reading, the detection, then the operator's request,
/// which wins over whatever detection decided.
pub open spec fn flight_step(d: FlightDetector, input: FlightInput) -> (FlightDetector, FlightUpdate) {
    let (d2, o2) = after_detection(after_reading(d, input.altitude), input);
    match input.requested_mode {
        Some(mode) => if mode != d2.spec_mode() {
            after_enter(d2, mode, input.now_ms, o2)
        } else {
            (d2, o2)
        },
        None => (d2, o2),
    }
}


impl FlightDetector {
    /// A detector in `Standby` on the pad.
    pub fn new(params: FlightParams) -> (d: Self)
        ensures
            d.wf(),
            d.spec_params() == params,
            d.spec_mode() == SirinMode::Standby,
            d.spec_altitude() == 0,
            d.spec_max_altitude() == 0,
            d.spec_apogee() is None,
            d.spec_launched_at_ms() is None,
            !d.spec_main_altitude_reached(),
            d.spec_landed_anchor() is None,
    {
        FlightDetector {
            state: DetectorState {
                params,
                mode: SirinMode::Standby,
                altitude: 0,
                max_altitude: 0,
                apogee: None,
                launched_at_ms: None,
                main_altitude_reached: false,
                landed_anchor: None,
            },
        }
    }

    pub fn params(&self) -> (p: &FlightParams)
        ensures
            *p == self.spec_params(),
    {
        &self.state.params
    }

    pub fn mode(&self) -> (m: SirinMode)
        ensures
            m == self.spec_mode(),
    {
        self.state.mode
    }

    /// The apogee altitude, once apogee has been declared.
    pub fn apogee(&self) -> (a: Option<i64>)
        ensures
            a == self.spec_apogee(),
    {
        self.state.apogee
    }

    /// Highest altitude seen since launch.
    pub fn max_altitude(&self) -> (a: i64)
        ensures
            a == self.spec_max_altitude(),
    {
        self.state.max_altitude
    }

    /// Time of launch in milliseconds since boot, once launched.
    pub fn launched_at_ms(&self) -> (t: Option<u64>)
        ensures
            t == self.spec_launched_at_ms(),
    {
        self.state.launched_at_ms
    }

    /// Advance the state machine by one tick. The new detector is described by `flight_step`;
    /// with `broadcast use lemma_detector_with` a caller can read off each of its fields.
    pub fn update(&mut self, input: FlightInput) -> (out: FlightUpdate)
        ensures
            (*final(self), out) == flight_step(*old(self), input),
            final(self).wf(),
    {
        proof {
            use_type_invariant(&*self);
            lemma_step_preserves_wf(*self, input);
        }
        let mut st = self.state;
        let mut out = FlightUpdate::default();
        let now_ms = input.now_ms;

        if let Some(altitude) = input.altitude {
            st.altitude = altitude;
            if st.mode.is_airborne() && altitude > st.max_altitude {
                st.max_altitude = altitude;
            }
        }
        assert(FlightDetector { state: st } == after_reading(*old(self), input.altitude));

        match st.mode {
            SirinMode::Standby => {
                let by_altitude = match input.altitude {
                    Some(a) => a > st.params.launch_altitude,
                    None => false,
                };
                let by_accel = match input.accel_squared {
                    Some(g) => g > st.params.launch_accel_squared,
                    None => false,
                };
                if by_altitude || by_accel {
                    st.enter(SirinMode::Flight, now_ms, &mut out);
                }
            },
            SirinMode::Flight => {
                if st.flight_timed_out(now_ms) {
                    st.enter(SirinMode::Landed, now_ms, &mut out);
                } else if let Some(altitude) = input.altitude {
                    let descending = (st.max_altitude as i128) > (altitude as i128) + (
                    st.params.apogee_error as i128);
                    if descending && st.past_apogee_lockout(now_ms) {
                        st.apogee = Some(st.max_altitude);
                        out.deploy_apo = true;
                        st.enter(SirinMode::Descent, now_ms, &mut out);
                        // A low apogee can already be below the main deployment altitude.
                        st.check_main_altitude(altitude, &mut out);
                    }
                }
            },
            SirinMode::Descent => {
                if st.flight_timed_out(now_ms) {
                    st.enter(SirinMode::Landed, now_ms, &mut out);
                } else if let Some(altitude) = input.altitude {
                    // Apogee was declared while the rocket was still climbing: keep the recorded
                    // apogee honest.
                    if let Some(apogee) = st.apogee {
                        if (st.max_altitude as i128) > (apogee as i128) + (
                        st.params.apogee_error as i128) {
                            st.apogee = Some(st.max_altitude);
                        }
                    }
                    st.check_main_altitude(altitude, &mut out);
                    st.check_landed(altitude, now_ms, &mut out);
                }
            },
            SirinMode::Landed => {},
        }
        assert((FlightDetector { state: st }, out) == after_detection(
            after_reading(*old(self), input.altitude),
            input,
        ));

        // An operator request wins over whatever detection decided this tick.
        if let Some(mode) = input.requested_mode {
            if mode != st.mode {
                st.enter(mode, now_ms, &mut out);
            }
        }
        self.state = st;
        out
    }

}

impl DetectorState {
    fn enter(&mut self, mode: SirinMode, now_ms: u64, out: &mut FlightUpdate)
        ensures
            (FlightDetector { state: *final(self) }, *final(out)) == after_enter(FlightDetector { state: *old(self) }, mode, now_ms, *old(out)),
    {
        match mode {
            SirinMode::Standby => {
                self.launched_at_ms = None;
                self.max_altitude = self.altitude;
                self.apogee = None;
                self.main_altitude_reached = false;
            },
            SirinMode::Flight => {
                if self.launched_at_ms.is_none() {
                    self.launched_at_ms = Some(now_ms);
                }
                self.max_altitude = self.altitude;
                self.apogee = None;
                self.main_altitude_reached = false;
            },
            SirinMode::Descent => {
                if self.launched_at_ms.is_none() {
                    self.launched_at_ms = Some(now_ms);
                }
                if self.apogee.is_none() {
                    self.apogee = Some(self.max_altitude);
                }
            },
            SirinMode::Landed => {},
        }
        self.landed_anchor = None;
        self.mode = mode;
        out.new_mode = Some(mode);
    }

    fn flight_timed_out(&self, now_ms: u64) -> (b: bool)
        ensures
            b == (FlightDetector { state: *self }).spec_timed_out(now_ms),
    {
        match self.launched_at_ms {
            Some(launched_at) => now_ms.saturating_sub(launched_at) > self.params.flight_duration_ms,
            None => false,
        }
    }

    fn past_apogee_lockout(&self, now_ms: u64) -> (b: bool)
        ensures
            b == (FlightDetector { state: *self }).spec_past_lockout(now_ms),
    {
        match self.launched_at_ms {
            Some(launched_at) => now_ms.saturating_sub(launched_at) > self.params.apogee_lockout_ms,
            None => false,
        }
    }

    fn check_main_altitude(&mut self, altitude: i64, out: &mut FlightUpdate)
        ensures
            (FlightDetector { state: *final(self) }, *final(out)) == after_main_check(FlightDetector { state: *old(self) }, altitude, *old(out)),
    {
        if let Some(main_altitude) = self.params.main_deployment_altitude {
            if !self.main_altitude_reached && altitude < main_altitude {
                self.main_altitude_reached = true;
                out.deploy_main = true;
            }
        }
    }

    fn check_landed(&mut self, altitude: i64, now_ms: u64, out: &mut FlightUpdate)
        ensures
            (FlightDetector { state: *final(self) }, *final(out)) == after_landing_check(
                FlightDetector { state: *old(self) },
                altitude,
                now_ms,
                *old(out),
            ),
    {
        let band = self.params.landed_altitude_band as i128;
        let in_band = match self.landed_anchor {
            Some((anchor, _)) => {
                let delta = (altitude as i128) - (anchor as i128);
                -band <= delta && delta <= band
            },
            None => false,
        };
        if in_band {
            let since_ms = match self.landed_anchor {
                Some((_, since_ms)) => since_ms,
                None => now_ms,
            };
            if now_ms.saturating_sub(since_ms) >= self.params.landed_stable_ms {
                self.enter(SirinMode::Landed, now_ms, out);
            }
        } else {
            self.landed_anchor = Some((altitude, now_ms));
        }
    }
}

/// Every tick keeps a detector well formed.

pub proof fn lemma_step_preserves_wf(d: FlightDetector, input: FlightInput)
    requires
        d.wf(),
    ensures
        flight_step(d, input).0.wf(),
{
}

/// The same tick without the operator's request.
pub open spec fn without_request(input: FlightInput) -> FlightInput {
    FlightInput { requested_mode: None, ..input }
}

/// The update that reports entering `mode` and nothing else.
pub open spec fn entered(mode: SirinMode) -> FlightUpdate {
    FlightUpdate { new_mode: Some(mode), ..no_update() }
}

/// On the pad, a launch is detected exactly when the altitude or the acceleration is above its
/// threshold; the launch time is then the tick's time.
pub proof fn lemma_launch_detection(d: FlightDetector, input: FlightInput)
    requires
        d.wf(),
        d.spec_mode() == SirinMode::Standby,
        input.requested_mode is None,
    ensures
        ({
            let (nd, out) = flight_step(d, input);
            if d.spec_launch_detected(input) {
                &&& nd.spec_mode() == SirinMode::Flight
                &&& out == entered(SirinMode::Flight)
                &&& nd.spec_launched_at_ms() == Some(input.now_ms)
                &&& nd.spec_apogee() is None
            } else {
                &&& nd.spec_mode() == SirinMode::Standby
                &&& out == no_update()
            }
        }),
{
}

/// Apogee is only declared in `Flight`, after the lockout, when the reading has fallen more than
/// the hysteresis below the highest altitude.
pub proof fn lemma_apogee_declared_only_after_lockout(d: FlightDetector, input: FlightInput)
    requires
        d.wf(),
        flight_step(d, input).1.deploy_apo,
    ensures
        d.spec_mode() == SirinMode::Flight,
        d.spec_past_lockout(input.now_ms),
        !d.spec_timed_out(input.now_ms),
        input.altitude matches Some(a) && after_reading(d, input.altitude).spec_descending(a),
{
}

/// Declaring apogee enters `Descent` and records the highest altitude as the apogee, unless the
/// operator asked for another mode in the same tick.
pub proof fn lemma_apogee_declaration(d: FlightDetector, input: FlightInput)
    requires
        d.wf(),
        input.requested_mode is None,
        flight_step(d, input).1.deploy_apo,
    ensures
        flight_step(d, input).0.spec_mode() == SirinMode::Descent,
        flight_step(d, input).1.new_mode == Some(SirinMode::Descent),
        flight_step(d, input).0.spec_apogee() == Some(
            after_reading(d, input.altitude).spec_max_altitude(),
        ),
{
}

/// The main charge is asked for at most once per flight: only while it has not been, and the
/// detector then remembers it until a new flight (`Standby` or `Flight` entered) re-arms it.
pub proof fn lemma_main_fires_once(d: FlightDetector, input: FlightInput)
    requires
        d.wf(),
    ensures
        flight_step(d, input).1.deploy_main ==> !d.spec_main_altitude_reached(),
        flight_step(d, input).1.deploy_main && input.requested_mode != Some(SirinMode::Standby)
            && input.requested_mode != Some(SirinMode::Flight)
            ==> flight_step(d, input).0.spec_main_altitude_reached(),
        d.spec_main_altitude_reached() && !flight_step(d, input).0.spec_main_altitude_reached()
            ==> flight_step(d, input).0.spec_mode() == SirinMode::Standby || flight_step(
            d,
            input,
        ).0.spec_mode() == SirinMode::Flight,
        flight_step(d, input).1.deploy_main ==> (d.spec_params().main_deployment_altitude matches Some(
            m,
        ) && input.altitude matches Some(a) && a < m),
{
}

/// A tick of the descent with a reading `a`, before the timeout: the highest altitude follows
/// the reading, the apogee is corrected up to it when it rose more than the hysteresis above
/// the apogee, no apogee charge fires, and the rocket lands exactly when the reading is within
/// the band around the landing anchor taken at least the stable time ago.
pub proof fn lemma_descent_tick(d: FlightDetector, input: FlightInput, a: i64)
    requires
        d.wf(),
        d.spec_mode() == SirinMode::Descent,
        !d.spec_timed_out(input.now_ms),
        input.requested_mode is None,
        input.altitude == Some(a),
    ensures
        ({
            let (nd, out) = flight_step(d, input);
            let m = if a > d.spec_max_altitude() {
                a
            } else {
                d.spec_max_altitude()
            };
            let ap = d.spec_apogee()->0;
            let band = d.spec_params().landed_altitude_band;
            &&& nd.spec_max_altitude() == m
            &&& nd.spec_apogee() == Some(
                if m > ap + d.spec_params().apogee_error {
                    m
                } else {
                    ap
                },
            )
            &&& !out.deploy_apo
            &&& (out.new_mode == Some(SirinMode::Landed)) == (d.spec_landed_anchor() matches Some(
                (anchor, since_ms),
            ) && -band <= a - anchor <= band && elapsed_ms(input.now_ms, since_ms)
                >= d.spec_params().landed_stable_ms)
            &&& out.new_mode is None || out.new_mode == Some(SirinMode::Landed)
        }),
{
}

/// After apogee the recorded apogee is only ever corrected upwards, never lowered or lost,
/// whatever the sensors say.
pub proof fn lemma_apogee_only_rises(d: FlightDetector, input: FlightInput)
    requires
        d.wf(),
        d.spec_mode() == SirinMode::Descent,
        input.requested_mode is None,
    ensures
        d.spec_apogee() matches Some(a) && flight_step(d, input).0.spec_apogee() matches Some(b)
            && a <= b,
{
}

/// Once landed, nothing happens unless the operator asks for another mode: the mode, the
/// apogee, the highest altitude and the launch time all stay.
pub proof fn lemma_landed_is_final(d: FlightDetector, input: FlightInput)
    requires
        d.wf(),
        d.spec_mode() == SirinMode::Landed,
        input.requested_mode is None || input.requested_mode == Some(SirinMode::Landed),
    ensures
        flight_step(d, input).0.spec_mode() == SirinMode::Landed,
        flight_step(d, input).1 == no_update(),
        flight_step(d, input).0.spec_apogee() == d.spec_apogee(),
        flight_step(d, input).0.spec_max_altitude() == d.spec_max_altitude(),
        flight_step(d, input).0.spec_launched_at_ms() == d.spec_launched_at_ms(),
{
}

/// The tick of apogee: in `Flight`, before the timeout, with a reading `a`, apogee is declared
/// exactly when the highest altitude (this reading included) is more than the hysteresis above
/// `a` and the lockout is over. It then enters `Descent` with the highest altitude as apogee,
/// and fires the main charge in the same tick when `a` is already below the main deployment
/// altitude; otherwise nothing happens.
pub proof fn lemma_apogee_tick(d: FlightDetector, input: FlightInput, a: i64)
    requires
        d.wf(),
        d.spec_mode() == SirinMode::Flight,
        !d.spec_timed_out(input.now_ms),
        input.requested_mode is None,
        input.altitude == Some(a),
    ensures
        ({
            let (nd, out) = flight_step(d, input);
            let m = if a > d.spec_max_altitude() {
                a
            } else {
                d.spec_max_altitude()
            };
            let fire = m > a + d.spec_params().apogee_error && d.spec_past_lockout(input.now_ms);
            &&& out.deploy_apo == fire
            &&& fire ==> {
                &&& nd.spec_mode() == SirinMode::Descent
                &&& out.new_mode == Some(SirinMode::Descent)
                &&& nd.spec_apogee() == Some(m)
                &&& out.deploy_main == (d.spec_params().main_deployment_altitude matches Some(h)
                    && a < h)
            }
            &&& !fire ==> out == no_update() && nd.spec_mode() == SirinMode::Flight
                && nd.spec_max_altitude() == m
        }),
{
}

/// An operator request wins over detection: the tick ends in the requested mode, and reports it
/// as entered unless detection alone would already have ended there.
pub proof fn lemma_request_wins(d: FlightDetector, input: FlightInput, mode: SirinMode)
    requires
        d.wf(),
        input.requested_mode == Some(mode),
    ensures
        flight_step(d, input).0.spec_mode() == mode,
        flight_step(d, input).1.new_mode == if mode != flight_step(
            d,
            without_request(input),
        ).0.spec_mode() {
            Some(mode)
        } else {
            flight_step(d, without_request(input)).1.new_mode
        },
{
}

/// A request never fires a charge by itself: the charges asked for are those that detection
/// alone would ask for.
pub proof fn lemma_request_fires_no_charge(d: FlightDetector, input: FlightInput)
    requires
        d.wf(),
    ensures
        flight_step(d, input).1.deploy_apo == flight_step(d, without_request(input)).1.deploy_apo,
        flight_step(d, input).1.deploy_main == flight_step(d, without_request(input)).1.deploy_main,
{
}

/// Requesting the mode the detector is already in (and would stay in) changes nothing.
pub proof fn lemma_request_current_mode(d: FlightDetector, input: FlightInput)
    requires
        d.wf(),
        input.requested_mode == Some(flight_step(d, without_request(input)).0.spec_mode()),
    ensures
        flight_step(d, input) == flight_step(d, without_request(input)),
{
}

/// The flight is declared over from either airborne phase once it has lasted longer than the
/// flight duration, whatever the sensors say; the apogee and the launch time are kept.
pub proof fn lemma_flight_times_out(d: FlightDetector, input: FlightInput)
    requires
        d.wf(),
        mode_is_airborne(d.spec_mode()),
        d.spec_timed_out(input.now_ms),
        input.requested_mode is None,
    ensures
        flight_step(d, input).0.spec_mode() == SirinMode::Landed,
        flight_step(d, input).1 == entered(SirinMode::Landed),
        flight_step(d, input).0.spec_apogee() == d.spec_apogee(),
        flight_step(d, input).0.spec_launched_at_ms() == d.spec_launched_at_ms(),
{
}

/// Without requests the mode only moves forward through the phases
/// (`Standby -> Flight -> Descent -> Landed`, or `Flight -> Landed` on a timeout), and the
/// update names the new mode exactly when it changed.
pub proof fn lemma_phases_only_move_forward(d: FlightDetector, input: FlightInput)
    requires
        d.wf(),
        input.requested_mode is None,
    ensures
        ({
            let (nd, out) = flight_step(d, input);
            let (from, to) = (d.spec_mode(), nd.spec_mode());
            &&& from != to ==> ((from == SirinMode::Standby && to == SirinMode::Flight) || (from
                == SirinMode::Flight && to == SirinMode::Descent) || (from == SirinMode::Flight
                && to == SirinMode::Landed) || (from == SirinMode::Descent && to
                == SirinMode::Landed))
            &&& out.new_mode == (if from != to {
                Some(to)
            } else {
                None
            })
        }),
{
}

/// A dead barometer does not look like a stable altitude: in `Descent`, before the timeout, a
/// tick without an altitude reading changes nothing.
pub proof fn lemma_descent_needs_readings(d: FlightDetector, input: FlightInput)
    requires
        d.wf(),
        d.spec_mode() == SirinMode::Descent,
        !d.spec_timed_out(input.now_ms),
        input.altitude is None,
        input.requested_mode is None,
    ensures
        flight_step(d, input) == (d, no_update()),
{
}

/// Landing is declared only after the altitude stayed within the band for the stable period.
pub proof fn lemma_landing_needs_stable_altitude(d: FlightDetector, input: FlightInput)
    requires
        d.wf(),
        d.spec_mode() == SirinMode::Descent,
        !d.spec_timed_out(input.now_ms),
        input.requested_mode is None,
        flight_step(d, input).0.spec_mode() == SirinMode::Landed,
    ensures
        d.spec_landed_anchor() matches Some((anchor, since_ms)) && input.altitude matches Some(a)
            && -d.spec_params().landed_altitude_band <= a - anchor
            <= d.spec_params().landed_altitude_band && elapsed_ms(input.now_ms, since_ms)
            >= d.spec_params().landed_stable_ms,
{
}

} // verus!
