//! Control logic of `bud`, a LEGO robot built around an ESP32-Pico (ATOM Matrix / ATOM Lite)
//! on an ATOMIC Motion base, driven by a DualShock 4 controller over Bluetooth Classic.
//!
//! This crate holds everything that decides or computes: stick shaping, servo pulse
//! mapping, the I2C register frames of the ATOMIC Motion base, the DS4 input report
//! decoder, the controller event bookkeeping, the LED frames and the main-loop
//! decisions. Talking to the hardware is left to the firmware around it.

pub mod arith;
pub mod atomic_motion;
pub mod control;
pub mod gamepad;
pub mod gpio_servo;
pub mod led;
pub mod motor;
