# trickle

The decision logic of Trickle, a macOS menu bar power monitor, verified with
Verus.

- `src/interval.rs`: the bounds of the power-tick interval.
- `src/status_bar.rs`: which power reading the status bar shows.
- `src/sender.rs`: the power sender's settings, its answer to each message,
  the mapping from preference changes to messages, and the plan of a sample.
- `src/smc_retry.rs`: when to try to reconnect to AppleSMC.
- `src/health.rs`: the once-a-day battery health snapshot.
- `src/tray.rs`: the tray icon's click and menu handling.
- `src/duration.rs`: the `std::time::Duration` calls the library makes.

`app/` holds the Tauri side: timers, channels, the SMC and IORegistry
readers, event emission and the AppKit calls.
