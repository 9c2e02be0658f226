# weasel

The logic of a Rime input method for Windows, written in Rust and verified with
Verus: the server that owns the input sessions, the renderer that shows candidates,
and the tools around them.

- `src/` is the library. `engine`, `client_session` and `session_route` hold the
  sessions; `server`, `admission`, `client_connection` and `worker` serve them;
  `librime` makes the calls of the native engine. `state`, `ui_runtime`,
  `renderer_bridge`, `presentation` and the `theme_*` modules decide what is shown
  and where. `deploy_*`, `preview*` and `silent_deploy` are the tools.
- The library does no input or output. Where the world has to be asked, a function
  returns the step to take, and another one takes the answer.
- What the library believes of serde_json, wasmparser and the standard library
  stands in the functions marked `external_body`, in `json`, `wasm_metadata`,
  `deploy_job`, `text` and `rpc`.
- `tests/` runs the library with those crates.
- `app/` is a program around the library: arguments, threads, files, and lines of
  JSON in place of named pipes.
