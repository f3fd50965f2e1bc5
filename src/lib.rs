//! Core of a water-bath temperature controller: decoding of thermocouple
//! amplifier frames, the encoding used on digital output lines, and the
//! hysteresis control loop that drives a pump and a heater.
//!
//! Temperatures are carried as whole numbers of hundredths of a degree.
pub mod gpio;
pub mod max31855;
pub mod sousvide;
