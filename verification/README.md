# anland

The verified core of the Anland backend of a Wayland compositor.

- `src/` is the library, verified with Verus:
  - `time`: a nanosecond `Duration` with saturating arithmetic;
  - `clock`: the lazy clock, which fetches the monotonic time once and keeps
    it until cleared, and the adjustable clock, whose virtual time follows it
    one capped (one frame) and scaled step per read;
  - `protocol`: the display daemon's input and output events;
  - `context`: the decisions of a daemon connection and the queue of events
    to send;
  - `input`: the virtual input device and its events.
- `app/` holds what the library cannot: the C bindings of the daemon's client
  library, the shared clock with its floating-point rate, the smithay trait
  impls and the render element wrapper.
- `tests/` runs the library on concrete values.
