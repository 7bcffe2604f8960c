# moonlight_web

The control logic of a browser front end for Moonlight game streaming, verified with
Verus.

- `src/` is the library. The web server's side keeps the stream hosts
  (`storage`, `json_storage`), talks to one host (`host`, `host_task`), finds, pairs and
  looks at the local Sunshine instance (`local`, `local_task`, `pin`) and answers requests
  (`api`, `error`). The streamer's side (`streamer`) turns browser packets into stream
  calls and decides when a connection starts and stops.
- `tests/` runs the library on concrete values.
- `app/` is the ordinary Rust around it: HTTP, the store's file, timers and tasks. It is
  generic over the Moonlight client and the browser transports.

Exchanges with the network are step functions: a step takes an event and gives the next
action. The caller performs the action and hands back what came of it.
