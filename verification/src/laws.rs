//! What holds between showing a configuration and taking in events.

use vstd::prelude::*;
use crate::choices::{lemma_slot_entry, lemma_slot_of_entry, ChoicesView};
use crate::config::ConfigView;
use crate::template::Widget;
use crate::event::{Effect, Event};
use crate::widgets::AppWidgetsView;

verus! {

/// Whether the widget that reports `event` holds the event's value. The
/// settings button holds none, so it shows every click.
pub open spec fn shows(widgets: AppWidgetsView, event: Event) -> bool {
    match event {
        Event::SyncSelected(slot) => widgets.sync_combo == slot,
        Event::LanguageSelected(slot) => widgets.wine_lang == slot,
        Event::BorderlessSwitched(state) => widgets.borderless == state,
        Event::ResolutionSelected(slot) => widgets.virtual_desktop_row == slot,
        Event::VirtualDesktopSwitched(state) => widgets.virtual_desktop == state,
        Event::HudSelected(slot) => widgets.hud_combo == slot,
        Event::FsrQualitySelected(slot) => widgets.fsr_combo == slot,
        Event::FsrSwitched(state) => widgets.fsr_switcher == state,
        Event::DiscordRpcSwitched(state) => widgets.discord_rpc == state,
        Event::DiscordRpcStateEdited(text) => widgets.discord_rpc_state == text@,
        Event::DiscordRpcDescriptionEdited(text) => widgets.discord_rpc_desc == text@,
        Event::GamemodeSwitched(state) => widgets.gamemode_switcher == state,
        Event::GamescopeSettingsClicked => true,
        Event::GamescopeSwitched(state) => widgets.gamescope_switcher == state,
        Event::FpsUnlockerSwitched(state) => widgets.fps_unlocker_switcher == state,
        Event::FpsLimitSelected(slot) => widgets.fps_unlocker_combo == slot,
        Event::PowerSavingSwitched(state) => widgets.fps_unlocker_power_saving_switcher == state,
        Event::MonitorEdited(number) => widgets.fps_unlocker_monitor_num == number,
        Event::WindowModeSelected(slot) => widgets.fps_unlocker_window_mode_combo == slot,
        Event::PrioritySelected(slot) => widgets.fps_unlocker_priority_combo == slot,
    }
}

/// A value that was set comes back: once an event has been stored, the page
/// shows the event's value in the widget that reported it.
pub proof fn lemma_stored_value_is_shown(choices: ChoicesView, config: ConfigView, event: Event)
    requires
        choices.well_formed(),
        choices.admits(event),
        event.effect() == Effect::Save,
    ensures
        shows(choices.shown(choices.after(config, event)), event),
{
    match event {
        Event::ResolutionSelected(slot) => {
            lemma_slot_of_entry(choices.resolutions, slot - 1);
        },
        Event::FpsLimitSelected(slot) => {
            lemma_slot_of_entry(choices.fps_limits, slot - 1);
        },
        _ => {},
    }
}

/// An event that reports what the page shows already leaves the
/// configuration as it is.
pub proof fn lemma_shown_value_changes_nothing(
    choices: ChoicesView,
    config: ConfigView,
    event: Event,
)
    requires
        config.fits_rows(),
        shows(choices.shown(config), event),
    ensures
        choices.after(config, event) == config,
{
    match event {
        Event::ResolutionSelected(slot) => {
            if slot > 0 {
                let desktop = config.game.wine.virtual_desktop;
                lemma_slot_entry(choices.resolutions, (desktop.width, desktop.height));
            }
        },
        Event::FpsLimitSelected(slot) => {
            if slot > 0 {
                lemma_slot_entry(
                    choices.fps_limits,
                    config.game.enhancements.fps_unlocker.config.fps,
                );
            }
        },
        _ => {},
    }
}

/// Events leave a configuration one that the page can show, and one that
/// the rows can hold.
pub proof fn lemma_events_keep_displayable(choices: ChoicesView, config: ConfigView, event: Event)
    requires
        choices.admits(event),
    ensures
        config.displayable() ==> choices.after(config, event).displayable(),
        config.fits_rows() ==> choices.after(config, event).fits_rows(),
{
}

/// An event writes into the field of its own widget, or leaves it.
pub proof fn lemma_event_writes_its_field(choices: ChoicesView, config: ConfigView, event: Event)
    ensures
        choices.after(config, event).cell(event.spec_source()) == match choices.written(event) {
            Some(cell) => Some(cell),
            None => config.cell(event.spec_source()),
        },
{
}

/// An event leaves the fields of all other widgets as they are.
pub proof fn lemma_event_keeps_other_fields(
    choices: ChoicesView,
    config: ConfigView,
    event: Event,
    widget: Widget,
)
    requires
        widget != event.spec_source(),
    ensures
        choices.after(config, event).cell(widget) == config.cell(widget),
{
    // Record by record: within each, an event writes one field and the
    // widgets of the others read theirs unchanged.
    let next = choices.after(config, event);
    match event {
        Event::SyncSelected(_) | Event::LanguageSelected(_) | Event::BorderlessSwitched(_) => {
            assert(next.cell(widget) == config.cell(widget));
        },
        Event::ResolutionSelected(_) | Event::VirtualDesktopSwitched(_) => {
            assert(next.cell(widget) == config.cell(widget));
        },
        Event::HudSelected(_) | Event::GamemodeSwitched(_) | Event::GamescopeSwitched(_) => {
            assert(next.cell(widget) == config.cell(widget));
        },
        Event::FsrQualitySelected(_) | Event::FsrSwitched(_) => {
            assert(next.cell(widget) == config.cell(widget));
        },
        Event::DiscordRpcSwitched(_)
        | Event::DiscordRpcStateEdited(_)
        | Event::DiscordRpcDescriptionEdited(_) => {
            assert(next.cell(widget) == config.cell(widget));
        },
        Event::FpsUnlockerSwitched(_) | Event::FpsLimitSelected(_) | Event::PowerSavingSwitched(_) => {
            assert(next.cell(widget) == config.cell(widget));
        },
        Event::MonitorEdited(_) | Event::WindowModeSelected(_) | Event::PrioritySelected(_) => {
            assert(next.cell(widget) == config.cell(widget));
        },
        Event::GamescopeSettingsClicked => {},
    }
}

/// The fields that the widgets edit are all that there is to a
/// configuration.
pub proof fn lemma_fields_decide(a: ConfigView, b: ConfigView)
    requires
        forall|widget: Widget| a.cell(widget) == b.cell(widget),
    ensures
        a == b,
{
    assert(a.cell(Widget::SyncCombo) == b.cell(Widget::SyncCombo));
    assert(a.cell(Widget::WineLang) == b.cell(Widget::WineLang));
    assert(a.cell(Widget::Borderless) == b.cell(Widget::Borderless));
    assert(a.cell(Widget::VirtualDesktopRow) == b.cell(Widget::VirtualDesktopRow));
    assert(a.cell(Widget::VirtualDesktop) == b.cell(Widget::VirtualDesktop));
    assert(a.cell(Widget::HudCombo) == b.cell(Widget::HudCombo));
    assert(a.cell(Widget::FsrCombo) == b.cell(Widget::FsrCombo));
    assert(a.cell(Widget::FsrSwitcher) == b.cell(Widget::FsrSwitcher));
    assert(a.cell(Widget::DiscordRpc) == b.cell(Widget::DiscordRpc));
    assert(a.cell(Widget::DiscordRpcState) == b.cell(Widget::DiscordRpcState));
    assert(a.cell(Widget::DiscordRpcDesc) == b.cell(Widget::DiscordRpcDesc));
    assert(a.cell(Widget::GamemodeSwitcher) == b.cell(Widget::GamemodeSwitcher));
    assert(a.cell(Widget::GamescopeSwitcher) == b.cell(Widget::GamescopeSwitcher));
    assert(a.cell(Widget::FpsUnlockerSwitcher) == b.cell(Widget::FpsUnlockerSwitcher));
    assert(a.cell(Widget::FpsUnlockerCombo) == b.cell(Widget::FpsUnlockerCombo));
    assert(a.cell(Widget::FpsUnlockerPowerSavingSwitcher) == b.cell(Widget::FpsUnlockerPowerSavingSwitcher));
    assert(a.cell(Widget::FpsUnlockerMonitorNum) == b.cell(Widget::FpsUnlockerMonitorNum));
    assert(a.cell(Widget::FpsUnlockerWindowModeCombo) == b.cell(Widget::FpsUnlockerWindowModeCombo));
    assert(a.cell(Widget::FpsUnlockerPriorityCombo) == b.cell(Widget::FpsUnlockerPriorityCombo));
}

/// An event that is stored writes something.
pub proof fn lemma_stored_event_writes(choices: ChoicesView, event: Event)
    requires
        choices.admits(event),
        event.effect() == Effect::Save,
    ensures
        choices.written(event) is Some,
{
}

/// What a widget shows is decided by the field that it edits.
pub proof fn lemma_widget_shows_its_field(
    choices: ChoicesView,
    a: ConfigView,
    b: ConfigView,
    event: Event,
)
    requires
        a.cell(event.spec_source()) == b.cell(event.spec_source()),
    ensures
        shows(choices.shown(a), event) == shows(choices.shown(b), event),
{
}

/// Events of two widgets can be taken in either order.
pub proof fn lemma_events_commute(
    choices: ChoicesView,
    config: ConfigView,
    first: Event,
    second: Event,
)
    requires
        first.spec_source() != second.spec_source(),
    ensures
        choices.after(choices.after(config, first), second) == choices.after(
            choices.after(config, second),
            first,
        ),
{
    let after_first = choices.after(config, first);
    let after_second = choices.after(config, second);
    let one = choices.after(after_first, second);
    let other = choices.after(after_second, first);
    lemma_event_writes_its_field(choices, config, first);
    lemma_event_writes_its_field(choices, config, second);
    lemma_event_writes_its_field(choices, after_first, second);
    lemma_event_writes_its_field(choices, after_second, first);
    assert forall|widget: Widget| one.cell(widget) == other.cell(widget) by {
        if widget != first.spec_source() {
            lemma_event_keeps_other_fields(choices, config, first, widget);
            lemma_event_keeps_other_fields(choices, after_second, first, widget);
        }
        if widget != second.spec_source() {
            lemma_event_keeps_other_fields(choices, config, second, widget);
            lemma_event_keeps_other_fields(choices, after_first, second, widget);
        }
    }
    lemma_fields_decide(one, other);
}

/// Of two events of one widget the later decides, where it is stored at all.
pub proof fn lemma_last_write_wins(
    choices: ChoicesView,
    config: ConfigView,
    first: Event,
    second: Event,
)
    requires
        first.spec_source() == second.spec_source(),
        choices.admits(second),
        second.effect() == Effect::Save,
    ensures
        choices.after(choices.after(config, first), second) == choices.after(config, second),
{
    let after_first = choices.after(config, first);
    let both = choices.after(after_first, second);
    let last = choices.after(config, second);
    lemma_stored_event_writes(choices, second);
    lemma_event_writes_its_field(choices, config, second);
    lemma_event_writes_its_field(choices, after_first, second);
    assert forall|widget: Widget| both.cell(widget) == last.cell(widget) by {
        if widget != second.spec_source() {
            lemma_event_keeps_other_fields(choices, config, first, widget);
            lemma_event_keeps_other_fields(choices, config, second, widget);
            lemma_event_keeps_other_fields(choices, after_first, second, widget);
        }
    }
    lemma_fields_decide(both, last);
}

/// An event changes nothing of what the other widgets show.
pub proof fn lemma_other_widgets_keep_their_value(
    choices: ChoicesView,
    config: ConfigView,
    event: Event,
    other: Event,
)
    requires
        event.spec_source() != other.spec_source(),
    ensures
        shows(choices.shown(choices.after(config, event)), other) == shows(
            choices.shown(config),
            other,
        ),
{
    lemma_event_keeps_other_fields(choices, config, event, other.spec_source());
    lemma_widget_shows_its_field(choices, choices.after(config, event), config, other);
}

} // verus!
