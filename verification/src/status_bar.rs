use vstd::prelude::*;

verus! {

/// Which reading the status bar shows while it is not showing the charge rate.
#[derive(Clone, Copy, Debug, PartialEq, Eq, Structural)]
pub enum StatusBarItem {
    System,
    Screen,
    Heatpipe,
}

/// The item that a stored `statusBarItem` preference names. The settings
/// window stores the item's name in camel case; a name this version does not
/// know, such as one persisted by an older build, falls back to the system
/// total rather than failing the read.
pub open spec fn stored_item(name: Seq<char>) -> StatusBarItem {
    if name == "screen"@ {
        StatusBarItem::Screen
    } else if name == "heatpipe"@ {
        StatusBarItem::Heatpipe
    } else {
        StatusBarItem::System
    }
}

impl StatusBarItem {
    /// Reads a stored `statusBarItem` preference; see `stored_item`.
    pub fn from_stored_name(name: &str) -> (item: StatusBarItem)
        ensures
            item == stored_item(name@),
            name@ == "screen"@ ==> item == StatusBarItem::Screen,
            name@ == "heatpipe"@ ==> item == StatusBarItem::Heatpipe,
            name@ != "screen"@ && name@ != "heatpipe"@ ==> item == StatusBarItem::System,
    {
        proof {
            reveal_strlit("screen");
            reveal_strlit("heatpipe");
            assert("screen"@[0] != "heatpipe"@[0]);
        }
        let name = name.to_owned();
        if name == "screen".to_owned() {
            StatusBarItem::Screen
        } else if name == "heatpipe".to_owned() {
            StatusBarItem::Heatpipe
        } else {
            StatusBarItem::System
        }
    }
}

/// The names the settings window stores map to their items.
pub proof fn lemma_stored_names()
    ensures
        stored_item("system"@) == StatusBarItem::System,
        stored_item("screen"@) == StatusBarItem::Screen,
        stored_item("heatpipe"@) == StatusBarItem::Heatpipe,
        stored_item("none"@) == StatusBarItem::System,
        forall|name: Seq<char>| name != "screen"@ && name != "heatpipe"@ ==> #[trigger] stored_item(name)
            == StatusBarItem::System,
{
    reveal_strlit("system");
    reveal_strlit("screen");
    reveal_strlit("heatpipe");
    reveal_strlit("none");
    assert("system"@[1] != "screen"@[1]);
    assert("system"@[0] != "heatpipe"@[0]);
    assert("screen"@[0] != "heatpipe"@[0]);
    assert("none"@.len() != "screen"@.len());
    assert("none"@.len() != "heatpipe"@.len());
}

/// The four power readings that the status bar can show, with the charging
/// flag that decides between them. The readings are carried through as they
/// are; the library only chooses among them.
#[derive(Clone, Copy, Debug)]
pub struct PowerReadings<T> {
    pub is_charging: bool,
    /// Power flowing in from the adapter while charging.
    pub delivery_rate: T,
    /// Total system draw.
    pub system_total: T,
    /// Screen draw.
    pub brightness: T,
    /// Heatpipe draw.
    pub heatpipe: T,
}

/// The reading that the status bar shows: the charge rate while charging when
/// the user asked for it, else the reading that `item` names.
pub open spec fn shown_reading<T>(r: PowerReadings<T>, item: StatusBarItem, show_charging: bool) -> T {
    if r.is_charging && show_charging {
        r.delivery_rate
    } else {
        match item {
            StatusBarItem::System => r.system_total,
            StatusBarItem::Screen => r.brightness,
            StatusBarItem::Heatpipe => r.heatpipe,
        }
    }
}

/// The value to put in the status bar for these readings.
pub fn status_bar_text<T: Copy>(smc: &PowerReadings<T>, status_bar_item: &StatusBarItem, show_charging: bool) -> (v: T)
    ensures
        v == shown_reading(*smc, *status_bar_item, show_charging),
        smc.is_charging && show_charging ==> v == smc.delivery_rate,
        !(smc.is_charging && show_charging) && *status_bar_item == StatusBarItem::System ==> v == smc.system_total,
        !(smc.is_charging && show_charging) && *status_bar_item == StatusBarItem::Screen ==> v == smc.brightness,
        !(smc.is_charging && show_charging) && *status_bar_item == StatusBarItem::Heatpipe ==> v == smc.heatpipe,
{
    if smc.is_charging && show_charging {
        return smc.delivery_rate;
    }
    match status_bar_item {
        StatusBarItem::System => smc.system_total,
        StatusBarItem::Screen => smc.brightness,
        StatusBarItem::Heatpipe => smc.heatpipe,
    }
}

/// While charging with the charge rate enabled, the status bar shows the
/// delivery rate whatever item is selected; otherwise the selected item, the
/// same as with the charge rate disabled.
pub proof fn lemma_charging_overrides_item<T>(r: PowerReadings<T>, item: StatusBarItem, show_charging: bool)
    ensures
        r.is_charging && show_charging ==> shown_reading(r, item, show_charging) == r.delivery_rate,
        !(r.is_charging && show_charging) ==> shown_reading(r, item, show_charging) == shown_reading(r, item, false),
        shown_reading(r, item, false) == shown_reading(PowerReadings { is_charging: false, ..r }, item, true),
        shown_reading(r, StatusBarItem::System, false) == r.system_total,
        shown_reading(r, StatusBarItem::Screen, false) == r.brightness,
        shown_reading(r, StatusBarItem::Heatpipe, false) == r.heatpipe,
{
}

} // verus!
