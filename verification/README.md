# mqnutd

Relays UPS status from a NUT server over MQTT (publisher mode), or listens to it and
powers the machine off as planned (subscriber mode).

- `src/` is the verified library: configuration and defaults, the shutdown plan and the
  latch that runs it once, the reading of UPS status tokens, MQTT message routing and
  the subscriber's state, the broker-silence timeout, and the shutdown executors.
  Battery charges are held as the bit patterns of the `f32` values they were read as.
- `app/` is the daemon around it: argument and TOML handling, the NUT and MQTT network
  I/O, parsing and formatting of `f32` charges, and running the shutdown program.
- `tests/` exercises the library on concrete values.
