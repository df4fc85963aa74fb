use std::time::Duration;
use vstd::prelude::*;

use crate::duration::{as_millis, duration_millis, from_millis_result, millis};
use crate::interval::{
    clamped_interval_ms, sanitize_interval_ms, sanitized_period, MAX_INTERVAL_MS, MIN_INTERVAL_MS,
};
use crate::status_bar::StatusBarItem;

verus! {

/// The power-tick interval used when no preference is stored, in
/// milliseconds.
pub const DEFAULT_UPDATE_INTERVAL_MS: u64 = 2000;

/// A request to the power sender.
#[derive(Debug)]
pub enum SenderMessage {
    /// Take and publish a sample now.
    ImmediateSend,
    /// Tick at a new interval.
    ChangeInterval(Duration),
    /// Show another reading in the status bar.
    ChangeStatusBarItem(StatusBarItem),
    /// Show, or stop showing, the charge rate while charging.
    StatusBarShowCharging(bool),
}

/// What the sender does in answer to a message.
#[derive(Debug)]
pub enum SenderAction {
    /// Take and publish a sample with the current settings.
    EmitSample,
    /// Replace the tick timer by one with this period; publish nothing.
    RestartTimer(Duration),
}

/// A preference change that the settings window announces.
#[derive(Debug)]
pub enum PreferenceEvent {
    /// The tick interval, in milliseconds.
    UpdateInterval(u32),
    StatusBarItem(StatusBarItem),
    StatusBarShowCharging(bool),
    /// The interface language; the sender does not react to it.
    Language(String),
    /// Any other preference; the sender does not react to it.
    Other,
}

/// The status bar settings that the sender publishes samples with.
#[derive(Clone, Copy, Debug, PartialEq, Eq, Structural)]
pub struct SenderConfig {
    pub status_bar_item: StatusBarItem,
    pub show_charging: bool,
}

/// The stored interval, or the default where none could be read.
pub open spec fn stored_or_default(stored_ms: Option<u64>) -> int {
    match stored_ms {
        Some(ms) => ms as int,
        None => DEFAULT_UPDATE_INTERVAL_MS as int,
    }
}

/// The tick period at startup, from the stored `updateInterval` preference,
/// or the default where none could be read, sanitized either way.
pub fn initial_interval(stored_ms: Option<u64>) -> (period: Duration)
    ensures
        period == sanitized_period(stored_or_default(stored_ms)),
        duration_millis(period) == clamped_interval_ms(stored_or_default(stored_ms)),
        stored_ms matches Some(ms) ==> period == sanitized_period(ms as int),
        stored_ms matches Some(ms) ==> (MIN_INTERVAL_MS <= ms <= MAX_INTERVAL_MS ==> duration_millis(period)
            == ms),
        stored_ms is None ==> duration_millis(period) == DEFAULT_UPDATE_INTERVAL_MS,
{
    let ms = match stored_ms {
        Some(ms) => ms,
        None => DEFAULT_UPDATE_INTERVAL_MS,
    };
    sanitize_interval_ms(ms)
}

/// A stored interval is used as it is, and the default only when none was
/// stored.
pub proof fn lemma_stored_interval_is_used(ms: u64)
    ensures
        stored_or_default(Some(ms)) == ms,
        stored_or_default(None) == 2000,
        clamped_interval_ms(stored_or_default(None)) == 2000,
{
}

/// The settings after `msg`.
pub open spec fn config_after(c: SenderConfig, msg: SenderMessage) -> SenderConfig {
    match msg {
        SenderMessage::ChangeStatusBarItem(item) => SenderConfig { status_bar_item: item, ..c },
        SenderMessage::StatusBarShowCharging(show) => SenderConfig { show_charging: show, ..c },
        _ => c,
    }
}

/// What each message does to the settings: an item change sets the item and
/// keeps show-charging, a show-charging change sets it and keeps the item,
/// and the other messages keep both.
pub proof fn lemma_message_settings(c: SenderConfig, msg: SenderMessage)
    ensures
        msg matches SenderMessage::ChangeStatusBarItem(item) ==> config_after(c, msg).status_bar_item == item
            && config_after(c, msg).show_charging == c.show_charging,
        msg matches SenderMessage::StatusBarShowCharging(show) ==> config_after(c, msg).show_charging == show
            && config_after(c, msg).status_bar_item == c.status_bar_item,
        msg is ImmediateSend || msg is ChangeInterval ==> config_after(c, msg) == c,
{
}

/// Showing the charge rate can be turned off and on again: the two changes
/// in turn restore the settings.
pub proof fn lemma_show_charging_round_trip(c: SenderConfig)
    ensures
        config_after(
            config_after(c, SenderMessage::StatusBarShowCharging(!c.show_charging)),
            SenderMessage::StatusBarShowCharging(c.show_charging),
        ) == c,
        config_after(c, SenderMessage::StatusBarShowCharging(true)).show_charging,
        !config_after(c, SenderMessage::StatusBarShowCharging(false)).show_charging,
{
}

/// The milliseconds of the tick period that a requested interval gives:
/// its whole milliseconds, clamped to the bounds.
pub open spec fn period_ms_for(requested: Duration) -> int {
    clamped_interval_ms(duration_millis(requested) as int)
}

/// Whatever interval is requested, the timer restarts with a period within
/// the bounds, and a request within the bounds is honoured exactly.
pub proof fn lemma_restart_period_in_bounds(requested: Duration)
    ensures
        MIN_INTERVAL_MS <= period_ms_for(requested) <= MAX_INTERVAL_MS,
        MIN_INTERVAL_MS <= duration_millis(requested) <= MAX_INTERVAL_MS ==> period_ms_for(requested)
            == duration_millis(requested),
        duration_millis(requested) > MAX_INTERVAL_MS ==> period_ms_for(requested) == MAX_INTERVAL_MS,
{
}

/// A change of the interval preference to `ms` milliseconds restarts the
/// timer with `ms` clamped to the bounds.
pub proof fn lemma_interval_preference_applies(requested: Duration, ms: u32)
    requires
        duration_millis(requested) == ms as u128,
    ensures
        period_ms_for(requested) == clamped_interval_ms(ms as int),
        sanitized_period(period_ms_for(requested)) == sanitized_period(ms as int),
{
}

impl SenderConfig {
    /// The settings at startup, from the stored `statusBarItem` and
    /// `statusBarShowCharging` preferences; where one could not be read, the
    /// system total and showing the charge rate.
    pub fn from_preferences(stored_item: Option<StatusBarItem>, stored_show_charging: Option<bool>) -> (c: Self)
        ensures
            c.status_bar_item == match stored_item {
                Some(item) => item,
                None => StatusBarItem::System,
            },
            c.show_charging == match stored_show_charging {
                Some(show) => show,
                None => true,
            },
    {
        let status_bar_item = match stored_item {
            Some(item) => item,
            None => StatusBarItem::System,
        };
        let show_charging = match stored_show_charging {
            Some(show) => show,
            None => true,
        };
        SenderConfig { status_bar_item, show_charging }
    }

    /// Applies `msg`: an interval change restarts the timer with the
    /// sanitized period (an interval beyond the bounds, however long, gives
    /// the nearer bound) and publishes nothing; every other message publishes
    /// a sample at once, with the settings that it changed.
    pub fn handle_message(&mut self, msg: SenderMessage) -> (action: SenderAction)
        ensures
            *final(self) == config_after(*old(self), msg),
            msg matches SenderMessage::ChangeStatusBarItem(item) ==> final(self).status_bar_item == item
                && final(self).show_charging == old(self).show_charging,
            msg matches SenderMessage::StatusBarShowCharging(show) ==> final(self).show_charging == show
                && final(self).status_bar_item == old(self).status_bar_item,
            msg is ImmediateSend || msg is ChangeInterval ==> final(self).status_bar_item == old(
                self,
            ).status_bar_item && final(self).show_charging == old(self).show_charging,
            match msg {
                SenderMessage::ChangeInterval(requested) => match action {
                    SenderAction::RestartTimer(period) => {
                        &&& period == sanitized_period(period_ms_for(requested))
                        &&& duration_millis(period) == period_ms_for(requested)
                        &&& duration_millis(requested) < MIN_INTERVAL_MS ==> duration_millis(period)
                            == MIN_INTERVAL_MS
                        &&& duration_millis(requested) > MAX_INTERVAL_MS ==> duration_millis(period)
                            == MAX_INTERVAL_MS
                        &&& MIN_INTERVAL_MS <= duration_millis(requested) <= MAX_INTERVAL_MS
                            ==> duration_millis(period) == duration_millis(requested)
                    },
                    SenderAction::EmitSample => false,
                },
                _ => action is EmitSample,
            },
    {
        match msg {
            SenderMessage::ImmediateSend => SenderAction::EmitSample,
            SenderMessage::ChangeInterval(interval) => {
                let total = as_millis(&interval);
                let ms: u64 = if total > MAX_INTERVAL_MS as u128 {
                    MAX_INTERVAL_MS
                } else {
                    total as u64
                };
                SenderAction::RestartTimer(sanitize_interval_ms(ms))
            },
            SenderMessage::ChangeStatusBarItem(item) => {
                self.status_bar_item = item;
                SenderAction::EmitSample
            },
            SenderMessage::StatusBarShowCharging(show) => {
                self.show_charging = show;
                SenderAction::EmitSample
            },
        }
    }
}

/// The message that a preference change sends to the sender, if any.
pub fn sender_message_for(event: PreferenceEvent) -> (msg: Option<SenderMessage>)
    ensures
        match event {
            PreferenceEvent::UpdateInterval(ms) => match msg {
                Some(SenderMessage::ChangeInterval(d)) => {
                    &&& d == from_millis_result(ms as u64)
                    &&& duration_millis(d) == ms as u128
                },
                _ => false,
            },
            PreferenceEvent::StatusBarItem(item) => msg == Some(SenderMessage::ChangeStatusBarItem(item)),
            PreferenceEvent::StatusBarShowCharging(show) => msg == Some(SenderMessage::StatusBarShowCharging(show)),
            _ => msg is None,
        },
{
    match event {
        PreferenceEvent::UpdateInterval(interval) => Some(SenderMessage::ChangeInterval(millis(interval as u64))),
        PreferenceEvent::StatusBarItem(item) => Some(SenderMessage::ChangeStatusBarItem(item)),
        PreferenceEvent::StatusBarShowCharging(show) => Some(SenderMessage::StatusBarShowCharging(show)),
        PreferenceEvent::Language(_) => None,
        PreferenceEvent::Other => None,
    }
}

/// What one power sample publishes, given which sources could be read.
#[derive(Clone, Copy, Debug, PartialEq, Eq, Structural)]
pub enum SamplePlan {
    /// The IORegistry was read: normalize it (with the SMC readings where
    /// `with_smc`), publish the status bar reading and the full tick, and
    /// offer the sample to the battery health history.
    Full { with_smc: bool },
    /// Only the SMC was read: publish the status bar reading from it.
    SmcOnly,
    /// Nothing was read: publish nothing.
    Nothing,
}

/// The plan for a sample where the IORegistry read succeeded or not, and the
/// SMC was read or not.
pub fn plan_sample(ioreg_read: bool, smc_read: bool) -> (plan: SamplePlan)
    ensures
        plan == if ioreg_read {
            SamplePlan::Full { with_smc: smc_read }
        } else if smc_read {
            SamplePlan::SmcOnly
        } else {
            SamplePlan::Nothing
        },
{
    if ioreg_read {
        SamplePlan::Full { with_smc: smc_read }
    } else if smc_read {
        SamplePlan::SmcOnly
    } else {
        SamplePlan::Nothing
    }
}

} // verus!
