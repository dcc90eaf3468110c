# de-configurator

A background daemon that manages a Linux desktop from one KDL configuration
file: global hotkeys, VPN profiles, background daemons, reusable actions,
reactive triggers, application workspaces on bspwm, and a control socket
with the `de-action` script.

## Layout

- `src/` — the library, verified with Verus. It holds the configuration
  parsing of every feature (`features/*/config.rs`), the event model
  (`base/event_bus.rs`), and the decisions of each feature as functions from
  state and event to the next state and the work to do: action planning with
  its depth limit, VPN and keybind throttling, daemon control, trigger
  matching, workspace desktops, bspwm and `xprop` output, the IPC protocol,
  and the shared state store. Calls into `kdl`, `global-hotkey` and
  `str::to_lowercase` stand behind a few trusted wrappers whose contracts
  name their results.
- `app/` — the program around it: configuration files, the tokio event bus,
  processes, sockets, desktop notifications, the hotkey manager and the
  address lookup over HTTP.
- `tests/` — tests of the library on concrete values.
