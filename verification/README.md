# vrlive-server

A relay server between performers and audience members of a virtual reality
performance. Performers send audio (RTP/Opus) and motion capture (OSC); the
server synchronizes them and relays them, with server events and the backing
track, to every connected client.

## Layout

- `src/` is the verified library (Verus). It holds the protocol and the
  server's decisions:
  - `osc`, `osc_codec`, `osc_size`: OSC values, their codec (through `rosc`),
    and size estimates;
  - `osc_messages_in`, `osc_messages_out`, `lib`: client and server messages
    and their OSC addresses, with encode/decode round trips;
  - `wire`, `vrl_tcp_packet`, `backing_track`: the framed TCP packet format;
  - `vrl_packet`, `synchronizer`, `order`: RTP packets, motion-capture bundles,
    the synchronizer's state machine, and the frame sent to clients;
  - `vrm`: SlimeVR tracker messages turned into VMC bone messages;
  - `server`, `client`, `handshake`, `performance`, `analytics`, `heartbeat`:
    console commands, handshakes, relays, backing track state, moving averages.
- `tests/` runs the library on concrete values.
- `app/` is the program around it: sockets, tasks, JSON, the console, and the
  floating-point work (Euler angles, float arguments) that the library leaves
  to its callers.
