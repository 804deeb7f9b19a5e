# token2token

The provider-side logic of the Token2Token inference network client, verified with Verus.

- `src/` is the library: engine selection and model discovery results (`connectors`),
  the node's configuration checks (`config`), the decisions of a relay session
  (`session`), the managed vLLM runtime's arguments and readiness wait (`managed_vllm`),
  plain protocol data (`protocol`) and character-level helpers (`text`).
- `app/` is the `token2token` command: HTTP calls to engines, the relay WebSocket,
  Docker processes, files, and the floating-point earnings accounting.
- `tests/` exercise the library on concrete values.

The original's Tauri desktop console (configuration screens, model discovery and
starting/stopping the provider process) is not part of this crate: it is GUI and
process plumbing around the same logic, and Tauri's webview stack is not built here.
