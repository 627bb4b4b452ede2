# satrs_obsw

Verified components of a satellite on-board software, and of a small simulator for its devices.

- `fdir`, `device_fdir`, `device_mode`: fault counting, power cycle recovery and mode transitions
  of a device with a power switch.
- `acs`: handlers of the magnetometers (MGM) and the magnetorquer (MGT).
- `event_manager`, `tmtc`: filtering of events, and routing of telecommands.
- `interface`: decisions of the client which talks to the simulator.
- `minisim`: messages, protocol and behaviour of the simulated devices.
- `types`, `time`, `health`, `eps`, `hk`, `bytes`: what these components share.

Every component has a mathematical model, which its `view` returns. Contracts say what an
operation does to the model. The `*_laws` modules, and the functions which start with `law_`,
state what holds across several operations.

Operations which depend on the time exist twice: once reading a clock, and once with the reading
as an argument. Components queue what arrives and what they produce; the code in `app/` connects
these queues to channels and sockets, encodes messages, and runs the simulation engine. Sensor
values are raw counts in the library, and only converted to physical units in `app/`.
