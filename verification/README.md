# Qonos

Qonos bridges Qobuz Connect to Sonos speakers. A Sonos group appears as a
Qobuz Connect device: playback is controlled from the Qobuz app, and the audio
plays through the Sonos speakers, which fetch it with their own Qobuz account.

## Layout

- `src/` is the library, written in Verus. It holds the rules and their proofs.
  - `bridge/`: what a bridge does on an event. A step tells which effects to
    carry out and which question to ask; the answer leads to the next step.
    `bridge/laws.rs` states what holds of whole conversations,
    `bridge/run_laws.rs` what holds over a run of events.
  - `cloud_queue/`: the queues that the players are served from, windows of
    them, the metadata cache and the answers of the queue server.
    `cloud_queue/laws.rs` states what holds of them.
  - `qobuz_api.rs`: requests to the Qobuz REST API and what its answers mean.
  - `topology.rs`: which bridges a household needs, and where it reaches us.
  - `connect.rs`, `sonos.rs`: the two protocols as plain values.
  - `text.rs`, `num.rs`, `clock.rs`, `model.rs`: numerals, casts, time, views.
- `app/` is the program: it talks to the players, the Qobuz session, the REST
  API and the HTTP clients of the queue server.
- `tests/` runs the library on concrete values.

## Usage

```bash
# Set your Qobuz app ID
export QOBUZ_APP_ID="your_app_id"
```

`QONOS_CLOUD_QUEUE_PORT` sets the port of the queue server, 9444 by default.
