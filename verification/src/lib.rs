//! Decision logic of the Trickle menu bar power monitor: the power-tick
//! interval bounds, the choice of the reading shown in the status bar, the
//! sender's reaction to preference changes, the SMC reconnection schedule,
//! the once-a-day battery health snapshot and the tray icon's click handling.

pub mod duration;
pub mod interval;
pub mod status_bar;
pub mod health;
pub mod smc_retry;
pub mod sender;
pub mod tray;
