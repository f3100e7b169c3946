# sledge

A low-level keyboard-event daemon: global hotkeys, app-scoped remaps and
modifier-tap triggers, configured in TOML.

The engine is a verified library (`src/`): every function there carries a
contract that Verus proves.

- `event`, `trigger`, `action`: the normalized key model and rule parts.
- `tap_fsm`: the modifier-tap state machine.
- `rule`: rule sets and the matcher that turns key events into verdicts.
- `config_models`, `config`: the configuration document, its validation
  into rules, alias resolution, and reloads.
- `mac`: macOS virtual key codes, event-flag translation, keystroke plans,
  the self-event filter and the permission preflight.
- `cli`, `ipc`, `paths`, `watch`: command-line choices, status/reload
  messages, default file locations, and which file notifications reload.
- `linux`, `windows`: placeholder backends.

`app/` is the daemon binary around it: argument parsing, TOML and JSON
decoding, logging, the status socket, signal handling, the config-file
watcher, and the macOS event tap, injection, input-source and focus code.
`tests/` exercises the library on concrete values.
