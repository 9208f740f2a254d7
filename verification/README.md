# motion

A motion-control card abstraction whose hardware-neutral logic is verified
with Verus.

- `src/` is the verified library: card configuration and its builders, the
  state every card adapter keeps (initialization, axis table, failure count
  and message), the decoding of what the Advantech, Googol and Leadshine SDKs
  report, the simulated card (inputs, outputs, axis table), and the registry
  of card constructors. Laws about these stand beside them as proof
  functions.
- `app/` is the demonstration program and everything the library does not
  hold: the `MotionCard` and `Axis` traits (positions and velocities are
  floating-point numbers), the calls into the vendor SDKs, the simulated
  axis, and the error type with its display messages.
- `tests/` runs the library on concrete values.
