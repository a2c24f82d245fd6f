# rp-pio-usb-host

Full- and low-speed USB host for a root port that a PIO block of an RP chip bit-bangs on
two adjacent GPIOs, with its decisions verified by Verus.

- `src/` is the verified library. Every operation that has to touch the hardware is a
  state machine that asks for one action at a time and takes in the outcome; its contract
  is the transition function, and the modules whose names end in `_runs` (with
  `debounce`) prove what holds of whole runs. `regs`, `clock`, `pipe` and `embassy` hold
  the calls into `rp-pac`, `embassy-time` and `embassy-usb-driver`, with what is taken on
  trust of them.
- `app/` performs the actions: registers, sleeping, the bus lock, and the
  `embassy-usb-driver` traits. The PIO programs and the bit-level encoder plug in through
  its `Drivers` trait.
- `tests/` runs the library on concrete values.

`Cargo.toml` selects the features with which the dependencies build on a development
machine, `_test` of `embassy-rp` and `std` of `embassy-time` among them.
