# mavlink_server

The decision logic of a MAVLink router with a REST API, verified with Verus.

- `src/` — the verified library:
  - `drivers/` — endpoint kinds and their URLs (`udp`, `tcp`, `serial`, `tlog`, `fake`,
    `file`, `websocket`, `zenoh`), the legacy `<scheme>:<arg1>[:<arg2>]` grammar and the
    endpoint registry (`registry`), query parameters, the policies of the send and receive
    tasks (`tasks`), the UDP server's client table and receive policy (`udp_clients`), tlog
    records and the messages read from them (`tlog`), the fake source's pacing and the Zenoh
    topic names;
  - `drivers/rest/` — MAVLink FTP (payload codec, listings, burst reads, uploads), vehicle
    log listing and download, the registry of downloads that clients follow, autopilot enums
    and flight modes, vehicle state updates, their publication rate and commands, the store of the last messages and
    their timing;
  - `cli` (arguments and the endpoints help), `callbacks` (the table of message callbacks),
    `hub` (heartbeat pacing, the table of drivers), `endpoint_url` (URLs parsed by the `url` crate),
    `mav` (constants of the `mavlink` crate), `text` (numbers and strings).
- `tests/` — tests of the library.
- `app/` — command line parsing with clap, help text, conversions to and from `mavlink`
  messages, vehicle bookkeeping with telemetry, the heartbeat loop, tlog files, the FTP
  and log client loops over a link that sends and receives, download threads, the UDP
  server's socket loop, the fake source's message generator, the message store as JSON and
  the calling of callbacks.
