use sous_vide::max31855::{Sample, SampleError};
use sous_vide::sousvide::{step_delay, Actuation, SousVide};

/// A read whose corrected Fahrenheit value is `45 * t + 2900` hundredths.
fn reading(t: u32) -> Result<Sample, SampleError> {
    Ok(Sample::new(t << 18))
}

const BELOW_BAND: u32 = 156; // 99.20 F
const IN_BAND_LOW: u32 = 157; // 99.65 F
const ABOVE_BAND: u32 = 158; // 100.10 F

/// Counts the writes that the steps ask of each line.
#[derive(Default)]
struct CountingPins {
    pump: usize,
    heater: usize,
}

impl CountingPins {
    fn apply(&mut self, a: Actuation) {
        if a.pump.is_some() {
            self.pump += 1;
        }
        if a.heater.is_some() {
            self.heater += 1;
        }
    }
}

#[test]
fn new_controller_is_off() {
    let sv = SousVide::new();
    assert_eq!(sv.get_set_temp(), None);
    assert_eq!(sv.get_cur_temp(), None);
    assert!(!sv.get_pump_state());
    assert!(!sv.get_heater_state());
}

#[test]
fn setpoint_can_be_changed_and_cleared() {
    let mut sv = SousVide::new();
    sv.change_set_temp(13550);
    assert_eq!(sv.get_set_temp(), Some(13550));
    sv.clear_set_temp();
    assert_eq!(sv.get_set_temp(), None);
}

#[test]
fn reading_is_corrected_fahrenheit() {
    let mut sv = SousVide::new();
    sv.step(reading(100));
    assert_eq!(sv.get_cur_temp(), Some(7700 - 300));
    sv.step(reading(IN_BAND_LOW));
    assert_eq!(sv.get_cur_temp(), Some(9965));
}

#[test]
fn hysteresis_around_one_hundred_degrees() {
    let mut sv = SousVide::new();
    sv.change_set_temp(10000);

    // inside the band from cold: pump on, heater stays off
    let a = sv.step(reading(IN_BAND_LOW));
    assert_eq!(a, Actuation { pump: Some(true), heater: None });
    assert!(!sv.get_heater_state());

    // 99.20 < 99.5: heater comes on
    let a = sv.step(reading(BELOW_BAND));
    assert_eq!(a, Actuation { pump: None, heater: Some(true) });
    assert!(sv.get_heater_state());

    // back in the band: heater stays on, no chatter
    for _ in 0..5 {
        let a = sv.step(reading(IN_BAND_LOW));
        assert_eq!(a, Actuation { pump: None, heater: None });
        assert!(sv.get_heater_state());
    }

    // 100.10 > 100.0: heater goes off
    let a = sv.step(reading(ABOVE_BAND));
    assert_eq!(a, Actuation { pump: None, heater: Some(false) });
    assert!(!sv.get_heater_state());

    // back in the band: heater stays off
    for _ in 0..5 {
        sv.step(reading(IN_BAND_LOW));
        assert!(!sv.get_heater_state());
        assert!(sv.get_pump_state());
    }
}

#[test]
fn band_edges_are_exact() {
    // setpoint 99.65 + 0.5 = 100.15: a reading of 99.65 is exactly the
    // threshold below and does not start the heater
    let mut sv = SousVide::new();
    sv.change_set_temp(10015);
    sv.step(reading(IN_BAND_LOW));
    assert!(!sv.get_heater_state());
    sv.change_set_temp(10016);
    sv.step(reading(IN_BAND_LOW));
    assert!(sv.get_heater_state());
    // reading equal to the setpoint does not stop it
    sv.change_set_temp(9965);
    sv.step(reading(IN_BAND_LOW));
    assert!(sv.get_heater_state());
    sv.change_set_temp(9964);
    sv.step(reading(IN_BAND_LOW));
    assert!(!sv.get_heater_state());
}

#[test]
fn no_setpoint_turns_everything_off() {
    let mut sv = SousVide::new();
    sv.change_set_temp(10000);
    sv.step(reading(BELOW_BAND));
    assert!(sv.get_pump_state() && sv.get_heater_state());
    sv.clear_set_temp();
    let a = sv.step(reading(BELOW_BAND));
    assert_eq!(a, Actuation { pump: Some(false), heater: Some(false) });
    assert!(!sv.get_pump_state());
    assert!(!sv.get_heater_state());
}

#[test]
fn failed_or_faulted_read_turns_everything_off() {
    for bad in [Err(SampleError::Read), Err(SampleError::ShortRead), Ok(Sample::new(0x8001))] {
        let mut sv = SousVide::new();
        sv.change_set_temp(10000);
        sv.step(reading(BELOW_BAND));
        assert!(sv.get_pump_state() && sv.get_heater_state());
        sv.step(bad);
        assert_eq!(sv.get_cur_temp(), None);
        assert!(!sv.get_pump_state());
        assert!(!sv.get_heater_state());
    }
}

#[test]
fn repeated_steps_write_each_line_at_most_once() {
    for t in [BELOW_BAND, IN_BAND_LOW, ABOVE_BAND] {
        let mut sv = SousVide::new();
        sv.change_set_temp(10000);
        let mut pins = CountingPins::default();
        for _ in 0..10 {
            pins.apply(sv.step(reading(t)));
        }
        assert!(pins.pump <= 1);
        assert!(pins.heater <= 1);
        assert_eq!(pins.pump, 1);
    }
    let mut sv = SousVide::new();
    let mut pins = CountingPins::default();
    for _ in 0..10 {
        pins.apply(sv.step(reading(BELOW_BAND)));
    }
    assert_eq!((pins.pump, pins.heater), (0, 0));
}

#[test]
fn delay_is_rest_of_period() {
    assert_eq!(step_delay(0, 0), Some(1_000_000_000));
    assert_eq!(step_delay(0, 250_000_000), Some(750_000_000));
    assert_eq!(step_delay(0, 999_999_999), Some(1));
}

#[test]
fn overrun_gives_no_delay() {
    assert_eq!(step_delay(0, 1_000_000_000), None);
    assert_eq!(step_delay(1, 0), None);
    assert_eq!(step_delay(3, 5), None);
}
