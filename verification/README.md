# thermostat

The Matter Thermostat cluster for a heating-only device, written and proved in
Verus.

- `src/handler.rs` serves the attributes and commands of the cluster. Its
  contracts say which requests are refused, what a served request does to the
  device, and which attributes are reported to subscribers.
- `src/model.rs` is the mathematics that those contracts speak of: the control
  state, the constraint chain of the setpoint limits, the requests and their
  plans.
- `src/hooks.rs` is the boundary: the device behind the thermostat and the
  subscribers in front of it. `src/journal.rs` records what the handler does to
  both, in order.
- `src/validation.rs` checks a cluster configuration; `src/text.rs` renders the
  numbers in its messages.
- `src/pending.rs` keeps the attributes that the device changed by itself until
  they are reported.
- `src/cluster.rs` and `src/error.rs` hold the identifiers, enumerations,
  metadata and errors.
- `src/room.rs`, `src/simulation.rs` and `src/device.rs` simulate a heated room
  and two devices in it, the second of which can save its state.
- `src/laws.rs` states what holds of the whole: the constraint chain survives
  every request that is served to the end or refused, a repair restores it, a
  change is applied before it is reported, no message is lost, a saved state is
  restored.

`app/` is a small program around the library: timers, files and the background
task. `tests/` runs the library.
