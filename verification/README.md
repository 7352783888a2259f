# mavlink_server

A bridge between an ArduPilot vehicle (MAVLink) and operators (MQTT), with its
decision logic written in Verus and proved.

- `src/` — the verified library:
  - `protocol.rs`: plain-value forms of the MAVLink messages the bridge reads and sends;
  - `actor.rs`: the mission actor, a state machine over the MAVLink mission protocol
    (download, upload, clear) and operator commands (arm/disarm, mode);
  - `mission_laws.rs`: what the actor promises across events (upload and download
    sequences, refused concurrent writes, deferred reads, failed sends, runs of events);
  - `forwarder.rs`: what is published about mission traffic;
  - `flight_mode.rs`, `telemetry.rs`: Rover mode names, the heartbeat summary and the
    JSON document published for a heartbeat;
  - `gpio.rs`: the pin table and pin-read outcomes;
  - `version.rs`: the `/api/version` document.
- `app/` — the program: MAVLink connection, MQTT client, HTTP endpoint, GPIO task,
  and the conversions between the library's values and the `mavlink` crate's messages.
- `tests/` — tests of the library on concrete values.
