# edge_frame

The decision logic of a web front end for embedded devices (wifi and IP settings,
roles, plugins, static assets), verified with Verus; a thin yew application draws it.

- `src/net.rs`, `src/text.rs`: IPv4 addresses and subnets with their text forms;
  trimming and comparing text as the standard library does.
- `src/edge/`: asset metadata and preparation, roles and access, form inputs, the
  IP and wifi forms of the setup screen and what it saves.
- `src/components/`: loading and edited data, text inputs bound to a model, the
  access point screen as a state machine, the wifi page, layout classes.
- `src/plugin.rs`, `src/frame.rs`, `src/exit.rs`: plugins, where their entries go
  and who sees them.
- `src/api/`: endpoint URIs and the demo wifi API.
- `src/lambda.rs`, `src/utils/`, `src/redust.rs`: shared closures and reducer state.
- `app/`: the yew components, routes, web socket and file handling around the library.
