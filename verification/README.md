# pendulum

Core logic of a reaction-wheel inverted pendulum (ESP32 firmware plus a host
tool), written in Verus so that each piece carries a machine-checked contract.

## Layout

- `src/` — the verified library:
  - `tmc6300` six-step commutation table (no pattern shorts a phase; successive
    patterns move one phase; period six);
  - `bytes`, `tmag5273`, `gy521` register decoding for the Hall sensor and the
    IMU, and the Hall sensor's default configuration;
  - `hall`, `imu` per-cycle sensor sessions as small state machines (probe,
    configure or verify and wake once per appearance, then read);
  - `current` ADC baselines and signed deviations;
  - `command` reassembly of zero-delimited command frames from the serial link;
  - `wifi` station decisions for the telemetry link and credential validation
    reports;
  - `text`, `cli`, `host` the host tool's command-line grammar, the request each
    command sends and how the answer is judged; `proxy` the relay's source
    description.
- `tests/` — tests on concrete values.
- `app/` — the host tool's `main` and the firmware's board code (I2C, ADC,
  UART, PWM, Wi-Fi, flash, the control loop and everything in floating point),
  built on the library.

Verify with Verus on `src/lib.rs`.
