# bud

Control logic of a LEGO robot built on an ESP32-Pico (M5Stack ATOM Matrix or ATOM Lite)
with an ATOMIC Motion base v1.2, steered by a DualShock 4 over Bluetooth Classic.

* `src/` — the verified library (Verus): stick dead zone and servo pulse mapping, the
  register frames of the ATOMIC Motion base, the DS4 input report decoder, the
  controller event bookkeeping, LED frames, and the main-loop decisions (servo
  channels, neutral adjustment, retry of failed writes, LED status).
* `app/` — the firmware around it: ESP-IDF peripherals (I2C, RMT, LEDC, NVS), the
  Bluetooth HID host through FFI, threads, and the few computations done in floating
  point.
* `tests/` — tests of the library.
