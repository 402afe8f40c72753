# vibeguard_runtime

Verified core of the VibeGuard runtime helpers.

- `src/text.rs` — character-level string helpers (trim, substring search,
  decimal and hexadecimal formatting) with their specifications.
- `src/runtime_config.rs` — validation of the user runtime config; the JSON
  check is done by `serde_json`.
- `src/runtime_policy.rs` — exit codes of policy errors and the
  `runtime-policy-check` command as a step function.
- `src/wrapper_env.rs` — the `wrapper-env` command: token sanitizing, log
  layout, session files and the walk to the project root.
- `app/` — the handlers that read the environment and the file system, call
  the library and print or exit.
