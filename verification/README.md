# groundlink

The decision logic of a satellite's onboard control system and of the ground control station
that talks to it, verified with Verus.

- `src/satellite/`: sensor cycles and the prioritized sample buffer, the task scheduler, the
  downlink batches, fault injection and recovery, telemetry, commands, the mission summary.
- `src/gcs/`: received telemetry, the command schedule and its interlock, the uplink and its
  backlog, the fault watchdog, the monitor.
- `src/mission.rs`: what holds of both sides together.
- `src/shared.rs`, `src/wire.rs`: the messages and their frames.
- `src/time.rs`, `src/text.rs`, `src/stats.rs`: spans of time, texts, statistics.
- `app/`: the two programs, `groundlink satellite` and `groundlink gcs`, with their sockets,
  timers and logs.

Every operation on a state is described by a function on the state's view (`after_...`), and
keeps the invariant of the view (`wf`). Proof functions named `law_...` say what follows for
several operations.

Monotonic time is passed in as nanoseconds since an epoch of the program's choice. Readings of
sensors are held in tenths, and shares of time and of buffers as pairs of whole numbers.
