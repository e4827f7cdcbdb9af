# fire_ant_control

Firmware core of the Fire Ant control board (RP2354 with an SX1280 2.4 GHz
LoRa transceiver, a three-phase BLDC motor stage and an RGB status LED).

- `src/` is the verified library (Verus):
  - `drivers/radio/`: the SX1280 command set (`opcode`), interrupt masks
    (`irq`), the LoRa configuration and its command frames (`radio_config`),
    status decoding (`status`) and the protocol driver (`radio`), which builds
    every SPI frame, decodes every reply and sequences bring-up, transmission
    and reception. `drivers/radio.rs` also holds the first buffer probe.
  - `drivers/bldc.rs`: six-step commutation and its open- and closed-loop
    timing.
  - `drivers/rgb_led.rs`: the LED colour table as PWM duty cycles.
  - `drivers/logger.rs`: the table of logged series (keys and value counts).
  - `std_calls.rs`: the contracts of the few std functions the library calls.
- `app/` is the firmware around it: board bring-up on embassy-rp, the SPI and
  GPIO plumbing of the radio, the PWM phase and LED drivers, the
  floating-point statistics and JSON report of the logger, and `main`.
- `tests/` exercises the library on the host.
