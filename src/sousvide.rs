//! The bang-bang control loop: from a reading of the bath and the setpoint
//! to the pump and heater levels, with a hysteresis band, edge-triggered
//! writes to the lines, and a fixed step cadence.
use vstd::prelude::*;
use crate::max31855::{Sample, SampleError, fahrenheit_of};

verus! {

/// Start heating when the bath falls this far below the setpoint
/// (hundredths of a degree).
pub const HEAT_THRESHOLD: i64 = 50;

/// Stop heating when the bath rises this far above the setpoint
/// (hundredths of a degree).
pub const COOL_THRESHOLD: i64 = 0;

/// Desired length of one step, in nanoseconds.
pub const STEP_PERIOD: u32 = 1_000_000_000;

/// Calibration offset added to the thermocouple's Fahrenheit reading, after
/// the unit conversion (hundredths of a degree). Its size depends on the
/// probe at hand; it is a calibration choice, not a property of the
/// amplifier.
pub const THERMOCOUPLE_CORRECTION: i64 = -300;

/// What the controller knows and drives, as mathematical values.
pub struct ControlState {
    /// Desired temperature, hundredths of a degree Fahrenheit.
    pub set_temp: Option<int>,
    /// Last reading of the bath, hundredths of a degree Fahrenheit.
    pub cur_temp: Option<int>,
    /// Whether the pump is on.
    pub pump: bool,
    /// Whether the heater is on.
    pub heater: bool,
}

/// The writes that one step issues to the lines, pump first: `Some(on)`
/// where the line changes, `None` where it keeps its level.
#[derive(Clone, Copy, Debug, PartialEq, Eq, Structural)]
pub struct Actuation {
    pub pump: Option<bool>,
    pub heater: Option<bool>,
}

/// The bath temperature that a read of the thermocouple gives, corrected;
/// nothing when the read failed or the sample is faulted.
pub open spec fn reading_of(r: Result<Sample, SampleError>) -> Option<int> {
    match r {
        Ok(s) => match fahrenheit_of(s) {
            Some(f) => Some(f + THERMOCOUPLE_CORRECTION),
            None => None,
        },
        Err(_) => None,
    }
}

/// The heater level after a step that found the bath at `cur` with the
/// setpoint at `set`, the heater having been at `heater`: on when too cold,
/// off when too hot, unchanged in between.
pub open spec fn heater_next(set: int, cur: int, heater: bool) -> bool {
    let warmed = if set - cur > HEAT_THRESHOLD {
        true
    } else {
        heater
    };
    if cur - set > COOL_THRESHOLD {
        false
    } else {
        warmed
    }
}

/// The state after a step from `s` in which the bath read `reading`.
pub open spec fn next_state(s: ControlState, reading: Option<int>) -> ControlState {
    match (s.set_temp, reading) {
        (Some(set), Some(cur)) => ControlState {
            set_temp: s.set_temp,
            cur_temp: reading,
            pump: true,
            heater: heater_next(set, cur, s.heater),
        },
        _ => ControlState { set_temp: s.set_temp, cur_temp: reading, pump: false, heater: false },
    }
}

/// The write to a line that moves it from `before` to `after`, if any.
pub open spec fn write_of(before: bool, after: bool) -> Option<bool> {
    if before == after {
        None
    } else {
        Some(after)
    }
}

/// The writes that take the lines from state `before` to state `after`.
pub open spec fn actuation_of(before: ControlState, after: ControlState) -> Actuation {
    Actuation { pump: write_of(before.pump, after.pump), heater: write_of(before.heater, after.heater) }
}

/// The delay before the next step, after a step that took `elapsed`
/// nanoseconds: the rest of the step period, or nothing on an overrun.
pub open spec fn delay_of(elapsed: int) -> Option<int> {
    if elapsed < STEP_PERIOD {
        Some(STEP_PERIOD - elapsed)
    } else {
        None
    }
}

/// The state after steps from `s` that read, in turn, each of `readings`.
pub open spec fn run(s: ControlState, readings: Seq<Option<int>>) -> ControlState
    decreases readings.len(),
{
    if readings.len() == 0 {
        s
    } else {
        next_state(run(s, readings.drop_last()), readings.last())
    }
}

/// Whether `reading` is a temperature inside the hysteresis band around the
/// setpoint `set`, where a step neither starts nor stops the heater.
pub open spec fn in_band(set: int, reading: Option<int>) -> bool {
    match reading {
        Some(c) => set - HEAT_THRESHOLD <= c <= set + COOL_THRESHOLD,
        None => false,
    }
}

/// Hysteresis: with a setpoint, a step turns an idle heater on exactly when
/// the bath is more than the heating threshold below the setpoint, turns a
/// running heater off exactly when the bath is above the setpoint by more
/// than the cooling threshold, and leaves the heater as it was while the
/// bath is within that band.
pub proof fn lemma_hysteresis(s: ControlState, cur: int)
    requires
        s.set_temp is Some,
    ensures
        ({
            let set = s.set_temp->Some_0;
            let n = next_state(s, Some(cur));
            &&& !s.heater ==> (n.heater <==> cur < set - HEAT_THRESHOLD)
            &&& s.heater ==> (!n.heater <==> cur > set + COOL_THRESHOLD)
            &&& set - HEAT_THRESHOLD <= cur <= set + COOL_THRESHOLD ==> n.heater == s.heater
        }),
{
}

/// No chatter: with a setpoint, any number of steps whose readings all stay
/// within the hysteresis band leave the heater as it was.
pub proof fn lemma_band_keeps_heater(s: ControlState, readings: Seq<Option<int>>)
    requires
        s.set_temp is Some,
        forall|i: int|
            0 <= i < readings.len() ==> in_band(s.set_temp->Some_0, #[trigger] readings[i]),
    ensures
        run(s, readings).heater == s.heater,
        run(s, readings).set_temp == s.set_temp,
    decreases readings.len(),
{
    if readings.len() > 0 {
        let prefix = readings.drop_last();
        assert forall|i: int| 0 <= i < prefix.len() implies in_band(
            s.set_temp->Some_0,
            #[trigger] prefix[i],
        ) by {
            assert(prefix[i] == readings[i]);
        }
        lemma_band_keeps_heater(s, prefix);
        assert(readings[readings.len() - 1] == readings.last());
    }
}

/// Steps repeated with an unchanged setpoint and reading settle after the
/// first: every later step leaves the state as it is and writes neither
/// line, so each line is written at most once over the whole run.
pub proof fn lemma_repeated_steps_settle(s: ControlState, reading: Option<int>, k: nat)
    ensures
        ({
            let first = next_state(s, reading);
            &&& next_state(first, reading) == first
            &&& actuation_of(first, next_state(first, reading)) == (Actuation {
                pump: None,
                heater: None,
            })
            &&& run(first, Seq::new(k, |i: int| reading)) == first
        }),
    decreases k,
{
    let first = next_state(s, reading);
    if k > 0 {
        lemma_repeated_steps_settle(s, reading, (k - 1) as nat);
        assert(Seq::new(k, |i: int| reading).drop_last() =~= Seq::new(
            (k - 1) as nat,
            |i: int| reading,
        ));
    }
}

/// State of the controller of one bath.
pub struct SousVide {
    set_temp: Option<i64>,
    cur_temp: Option<i64>,
    pump_state: bool,
    heater_state: bool,
}

/// A machine temperature as a mathematical one.
pub open spec fn temp_view(t: Option<i64>) -> Option<int> {
    match t {
        Some(v) => Some(v as int),
        None => None,
    }
}

impl View for SousVide {
    type V = ControlState;

    closed spec fn view(&self) -> ControlState {
        ControlState {
            set_temp: temp_view(self.set_temp),
            cur_temp: temp_view(self.cur_temp),
            pump: self.pump_state,
            heater: self.heater_state,
        }
    }
}

impl SousVide {
    /// A controller with no setpoint, no reading, and both lines off.
    pub fn new() -> (r: SousVide)
        ensures
            r@ == (ControlState { set_temp: None, cur_temp: None, pump: false, heater: false }),
    {
        SousVide { set_temp: None, cur_temp: None, pump_state: false, heater_state: false }
    }

    /// Clears the setpoint, which turns everything off at the next step.
    pub fn clear_set_temp(&mut self)
        ensures
            final(self)@ == (ControlState { set_temp: None, ..old(self)@ }),
    {
        self.set_temp = None;
    }

    /// Sets the setpoint to `set_temp` hundredths of a degree Fahrenheit.
    pub fn change_set_temp(&mut self, set_temp: i64)
        ensures
            final(self)@ == (ControlState { set_temp: Some(set_temp as int), ..old(self)@ }),
    {
        self.set_temp = Some(set_temp);
    }

    /// The setpoint, hundredths of a degree Fahrenheit.
    pub fn get_set_temp(&self) -> (r: Option<i64>)
        ensures
            temp_view(r) == self@.set_temp,
    {
        self.set_temp
    }

    /// The last reading of the bath, hundredths of a degree Fahrenheit.
    pub fn get_cur_temp(&self) -> (r: Option<i64>)
        ensures
            temp_view(r) == self@.cur_temp,
    {
        self.cur_temp
    }

    /// Whether the pump is on.
    pub fn get_pump_state(&self) -> (r: bool)
        ensures
            r == self@.pump,
    {
        self.pump_state
    }

    /// Whether the heater is on.
    pub fn get_heater_state(&self) -> (r: bool)
        ensures
            r == self@.heater,
    {
        self.heater_state
    }

    /// Turns the pump to `state`, and says whether that takes a write.
    fn set_pump_state(&mut self, state: bool) -> (w: Option<bool>)
        ensures
            final(self)@ == (ControlState { pump: state, ..old(self)@ }),
            w == write_of(old(self)@.pump, state),
    {
        if self.pump_state != state {
            self.pump_state = state;
            Some(state)
        } else {
            None
        }
    }

    /// Turns the heater to `state`, and says whether that takes a write.
    fn set_heater_state(&mut self, state: bool) -> (w: Option<bool>)
        ensures
            final(self)@ == (ControlState { heater: state, ..old(self)@ }),
            w == write_of(old(self)@.heater, state),
    {
        if self.heater_state != state {
            self.heater_state = state;
            Some(state)
        } else {
            None
        }
    }

    /// One step of the loop, given what reading the thermocouple gave:
    /// records the bath temperature, decides both levels, and returns the
    /// writes that the lines need, which are those whose level changed.
    /// Without a setpoint or a reading, both lines end off.
    pub fn step(&mut self, reading: Result<Sample, SampleError>) -> (act: Actuation)
        ensures
            final(self)@ == next_state(old(self)@, reading_of(reading)),
            act == actuation_of(old(self)@, final(self)@),
            final(self)@.set_temp is None || final(self)@.cur_temp is None ==> !final(self)@.pump
                && !final(self)@.heater,
            final(self)@.heater ==> final(self)@.pump,
    {
        let before = Ghost(self@);
        self.cur_temp = match reading {
            Ok(sample) => match sample.get_temp_fahrenheit() {
                Some(f) => Some(f + THERMOCOUPLE_CORRECTION),
                None => None,
            },
            Err(_) => None,
        };
        match (self.set_temp, self.cur_temp) {
            (Some(set), Some(cur)) => {
                let pump = self.set_pump_state(true);
                let mut heater: Option<bool> = None;
                if set as i128 - cur as i128 > HEAT_THRESHOLD as i128 {
                    heater = self.set_heater_state(true);
                }
                if cur as i128 - set as i128 > COOL_THRESHOLD as i128 {
                    heater = self.set_heater_state(false);
                }
                Actuation { pump, heater }
            },
            _ => {
                let pump = self.set_pump_state(false);
                let heater = self.set_heater_state(false);
                Actuation { pump, heater }
            },
        }
    }
}

/// The delay before the next step, after a step that took `elapsed_secs`
/// seconds and `elapsed_nanos` nanoseconds: the rest of the step period in
/// nanoseconds, or `None` when the step overran it and the next one is due
/// at once.
pub fn step_delay(elapsed_secs: u64, elapsed_nanos: u32) -> (r: Option<u32>)
    ensures
        r matches Some(d) ==> delay_of(elapsed_secs * 1_000_000_000 + elapsed_nanos) == Some(
            d as int,
        ),
        r is None ==> delay_of(elapsed_secs * 1_000_000_000 + elapsed_nanos) is None,
{
    if elapsed_secs == 0 && elapsed_nanos < STEP_PERIOD {
        Some(STEP_PERIOD - elapsed_nanos)
    } else {
        None
    }
}

} // verus!
