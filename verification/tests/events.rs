use enhancements::config::{
    DiscordRpc, Enhancements, FpsUnlocker, FpsUnlockerConfig, Fsr, Game, Gamescope,
    VirtualDesktop, Wine,
};
use enhancements::template::Widget;
use enhancements::{App, Choices, Config, Effect, Event, Reaction};

fn page() -> App {
    App::new(
        Choices::new(
            4,
            11,
            3,
            vec![(1280, 720), (1920, 1080), (2560, 1440)],
            vec![90, 120, 144],
        )
        .unwrap(),
    )
}

fn config() -> Config {
    Config {
        game: Game {
            wine: Wine {
                sync: 1,
                language: 0,
                borderless: false,
                virtual_desktop: VirtualDesktop { enabled: false, width: 1920, height: 1080 },
            },
            enhancements: Enhancements {
                hud: 0,
                fsr: Fsr { strength: 2, enabled: true },
                discord_rpc: DiscordRpc {
                    enabled: false,
                    state: String::from("In game"),
                    description: String::from("Exploring"),
                },
                gamemode: false,
                gamescope: Gamescope { enabled: false },
                fps_unlocker: FpsUnlocker {
                    enabled: false,
                    config: FpsUnlockerConfig {
                        fps: 120,
                        power_saving: false,
                        monitor: 1,
                        window_mode: 0,
                        priority: 3,
                    },
                },
            },
        },
    }
}

#[test]
fn sync_selection_is_stored() {
    let (next, effect) = page().handle(config(), Event::SyncSelected(3));
    let mut expected = config();
    expected.game.wine.sync = 3;
    assert_eq!(next, expected);
    assert_eq!(effect, Effect::Save);
}

#[test]
fn language_selection_is_stored() {
    let (next, effect) = page().handle(config(), Event::LanguageSelected(10));
    let mut expected = config();
    expected.game.wine.language = 10;
    assert_eq!(next, expected);
    assert_eq!(effect, Effect::Save);
}

#[test]
fn borderless_switch_is_stored() {
    let (next, effect) = page().handle(config(), Event::BorderlessSwitched(true));
    let mut expected = config();
    expected.game.wine.borderless = true;
    assert_eq!(next, expected);
    assert_eq!(effect, Effect::Save);
}

#[test]
fn resolution_selection_stores_the_entry_before_the_slot() {
    let (next, effect) = page().handle(config(), Event::ResolutionSelected(1));
    let mut expected = config();
    expected.game.wine.virtual_desktop.width = 1280;
    expected.game.wine.virtual_desktop.height = 720;
    assert_eq!(next, expected);
    assert_eq!(effect, Effect::Save);

    let (next, effect) = page().handle(config(), Event::ResolutionSelected(3));
    let mut expected = config();
    expected.game.wine.virtual_desktop.width = 2560;
    expected.game.wine.virtual_desktop.height = 1440;
    assert_eq!(next, expected);
    assert_eq!(effect, Effect::Save);
}

#[test]
fn leading_resolution_slot_writes_nothing() {
    let (next, effect) = page().handle(config(), Event::ResolutionSelected(0));
    assert_eq!(next, config());
    assert_eq!(effect, Effect::Nothing);
}

#[test]
fn virtual_desktop_switch_is_stored() {
    let (next, effect) = page().handle(config(), Event::VirtualDesktopSwitched(true));
    let mut expected = config();
    expected.game.wine.virtual_desktop.enabled = true;
    assert_eq!(next, expected);
    assert_eq!(effect, Effect::Save);
}

#[test]
fn hud_selection_is_stored() {
    let (next, effect) = page().handle(config(), Event::HudSelected(2));
    let mut expected = config();
    expected.game.enhancements.hud = 2;
    assert_eq!(next, expected);
    assert_eq!(effect, Effect::Save);
}

#[test]
fn fsr_quality_counts_down_from_five() {
    for (slot, strength) in [(0u32, 5u64), (1, 4), (2, 3), (3, 2), (4, 1), (5, 0)] {
        let (next, effect) = page().handle(config(), Event::FsrQualitySelected(slot));
        let mut expected = config();
        expected.game.enhancements.fsr.strength = strength;
        assert_eq!(next, expected);
        assert_eq!(effect, Effect::Save);
    }
}

#[test]
fn fsr_switch_is_stored() {
    let (next, effect) = page().handle(config(), Event::FsrSwitched(false));
    let mut expected = config();
    expected.game.enhancements.fsr.enabled = false;
    assert_eq!(next, expected);
    assert_eq!(effect, Effect::Save);
}

#[test]
fn discord_rpc_switch_is_stored() {
    let (next, effect) = page().handle(config(), Event::DiscordRpcSwitched(true));
    let mut expected = config();
    expected.game.enhancements.discord_rpc.enabled = true;
    assert_eq!(next, expected);
    assert_eq!(effect, Effect::Save);
}

#[test]
fn discord_rpc_state_is_stored() {
    let (next, effect) =
        page().handle(config(), Event::DiscordRpcStateEdited(String::from("Fishing")));
    let mut expected = config();
    expected.game.enhancements.discord_rpc.state = String::from("Fishing");
    assert_eq!(next, expected);
    assert_eq!(effect, Effect::Save);
}

#[test]
fn discord_rpc_description_is_stored() {
    let (next, effect) =
        page().handle(config(), Event::DiscordRpcDescriptionEdited(String::new()));
    let mut expected = config();
    expected.game.enhancements.discord_rpc.description = String::new();
    assert_eq!(next, expected);
    assert_eq!(effect, Effect::Save);
}

#[test]
fn gamemode_switch_is_stored() {
    let (next, effect) = page().handle(config(), Event::GamemodeSwitched(true));
    let mut expected = config();
    expected.game.enhancements.gamemode = true;
    assert_eq!(next, expected);
    assert_eq!(effect, Effect::Save);
}

#[test]
fn settings_button_opens_the_settings() {
    let (next, effect) = page().handle(config(), Event::GamescopeSettingsClicked);
    assert_eq!(next, config());
    assert_eq!(effect, Effect::ShowGamescopeSettings);
}

#[test]
fn gamescope_switch_is_stored() {
    let (next, effect) = page().handle(config(), Event::GamescopeSwitched(true));
    let mut expected = config();
    expected.game.enhancements.gamescope.enabled = true;
    assert_eq!(next, expected);
    assert_eq!(effect, Effect::Save);
}

#[test]
fn fps_unlocker_switch_is_stored() {
    let (next, effect) = page().handle(config(), Event::FpsUnlockerSwitched(true));
    let mut expected = config();
    expected.game.enhancements.fps_unlocker.enabled = true;
    assert_eq!(next, expected);
    assert_eq!(effect, Effect::Save);
}

#[test]
fn fps_limit_selection_stores_the_entry_before_the_slot() {
    let (next, effect) = page().handle(config(), Event::FpsLimitSelected(1));
    let mut expected = config();
    expected.game.enhancements.fps_unlocker.config.fps = 90;
    assert_eq!(next, expected);
    assert_eq!(effect, Effect::Save);

    let (next, effect) = page().handle(config(), Event::FpsLimitSelected(3));
    let mut expected = config();
    expected.game.enhancements.fps_unlocker.config.fps = 144;
    assert_eq!(next, expected);
    assert_eq!(effect, Effect::Save);
}

#[test]
fn leading_fps_slot_writes_nothing() {
    let (next, effect) = page().handle(config(), Event::FpsLimitSelected(0));
    assert_eq!(next, config());
    assert_eq!(effect, Effect::Nothing);
}

#[test]
fn power_saving_switch_is_stored() {
    let (next, effect) = page().handle(config(), Event::PowerSavingSwitched(true));
    let mut expected = config();
    expected.game.enhancements.fps_unlocker.config.power_saving = true;
    assert_eq!(next, expected);
    assert_eq!(effect, Effect::Save);
}

#[test]
fn monitor_number_is_stored() {
    let (next, effect) = page().handle(config(), Event::MonitorEdited(7));
    let mut expected = config();
    expected.game.enhancements.fps_unlocker.config.monitor = 7;
    assert_eq!(next, expected);
    assert_eq!(effect, Effect::Save);

    let (next, _) = page().handle(config(), Event::MonitorEdited(u64::MAX));
    assert_eq!(next.game.enhancements.fps_unlocker.config.monitor, u64::MAX);
}

#[test]
fn window_mode_selection_is_stored() {
    let (next, effect) = page().handle(config(), Event::WindowModeSelected(2));
    let mut expected = config();
    expected.game.enhancements.fps_unlocker.config.window_mode = 2;
    assert_eq!(next, expected);
    assert_eq!(effect, Effect::Save);

    let (next, _) = page().handle(config(), Event::WindowModeSelected(u32::MAX));
    assert_eq!(next.game.enhancements.fps_unlocker.config.window_mode, 4294967295);
}

#[test]
fn priority_selection_is_stored() {
    let (next, effect) = page().handle(config(), Event::PrioritySelected(5));
    let mut expected = config();
    expected.game.enhancements.fps_unlocker.config.priority = 5;
    assert_eq!(next, expected);
    assert_eq!(effect, Effect::Save);
}

#[test]
fn admits_slots_that_a_row_has() {
    let page = page();
    assert!(page.admits(&Event::SyncSelected(0)));
    assert!(page.admits(&Event::SyncSelected(3)));
    assert!(page.admits(&Event::LanguageSelected(10)));
    assert!(page.admits(&Event::HudSelected(2)));
    assert!(page.admits(&Event::ResolutionSelected(0)));
    assert!(page.admits(&Event::ResolutionSelected(3)));
    assert!(page.admits(&Event::FpsLimitSelected(0)));
    assert!(page.admits(&Event::FpsLimitSelected(3)));
    assert!(page.admits(&Event::FsrQualitySelected(0)));
    assert!(page.admits(&Event::FsrQualitySelected(5)));
}

#[test]
fn admits_no_slot_beyond_a_row() {
    let page = page();
    assert!(!page.admits(&Event::SyncSelected(4)));
    assert!(!page.admits(&Event::LanguageSelected(11)));
    assert!(!page.admits(&Event::HudSelected(3)));
    assert!(!page.admits(&Event::ResolutionSelected(4)));
    assert!(!page.admits(&Event::FpsLimitSelected(4)));
    assert!(!page.admits(&Event::FsrQualitySelected(6)));
    assert!(!page.admits(&Event::SyncSelected(u32::MAX)));
    assert!(!page.admits(&Event::ResolutionSelected(u32::MAX)));
    assert!(!page.admits(&Event::FsrQualitySelected(u32::MAX)));
}

#[test]
fn admits_every_other_event() {
    let page = page();
    assert!(page.admits(&Event::BorderlessSwitched(true)));
    assert!(page.admits(&Event::VirtualDesktopSwitched(false)));
    assert!(page.admits(&Event::FsrSwitched(true)));
    assert!(page.admits(&Event::DiscordRpcSwitched(true)));
    assert!(page.admits(&Event::DiscordRpcStateEdited(String::from("x"))));
    assert!(page.admits(&Event::DiscordRpcDescriptionEdited(String::new())));
    assert!(page.admits(&Event::GamemodeSwitched(false)));
    assert!(page.admits(&Event::GamescopeSettingsClicked));
    assert!(page.admits(&Event::GamescopeSwitched(true)));
    assert!(page.admits(&Event::FpsUnlockerSwitched(true)));
    assert!(page.admits(&Event::PowerSavingSwitched(true)));
    assert!(page.admits(&Event::MonitorEdited(u64::MAX)));
    assert!(page.admits(&Event::WindowModeSelected(u32::MAX)));
    assert!(page.admits(&Event::PrioritySelected(u32::MAX)));
}

#[test]
fn page_without_choices_admits_only_leading_slots() {
    let page = App::new(Choices::new(0, 0, 0, vec![], vec![]).unwrap());
    assert!(!page.admits(&Event::SyncSelected(0)));
    assert!(!page.admits(&Event::LanguageSelected(0)));
    assert!(!page.admits(&Event::HudSelected(0)));
    assert!(page.admits(&Event::ResolutionSelected(0)));
    assert!(!page.admits(&Event::ResolutionSelected(1)));
    assert!(page.admits(&Event::FpsLimitSelected(0)));
    assert!(!page.admits(&Event::FpsLimitSelected(1)));
}

#[test]
fn each_event_names_its_widget() {
    assert_eq!(Event::SyncSelected(0).source(), Widget::SyncCombo);
    assert_eq!(Event::LanguageSelected(0).source(), Widget::WineLang);
    assert_eq!(Event::BorderlessSwitched(true).source(), Widget::Borderless);
    assert_eq!(Event::ResolutionSelected(0).source(), Widget::VirtualDesktopRow);
    assert_eq!(Event::VirtualDesktopSwitched(true).source(), Widget::VirtualDesktop);
    assert_eq!(Event::HudSelected(0).source(), Widget::HudCombo);
    assert_eq!(Event::FsrQualitySelected(0).source(), Widget::FsrCombo);
    assert_eq!(Event::FsrSwitched(true).source(), Widget::FsrSwitcher);
    assert_eq!(Event::DiscordRpcSwitched(true).source(), Widget::DiscordRpc);
    assert_eq!(Event::DiscordRpcStateEdited(String::new()).source(), Widget::DiscordRpcState);
    assert_eq!(
        Event::DiscordRpcDescriptionEdited(String::new()).source(),
        Widget::DiscordRpcDesc
    );
    assert_eq!(Event::GamemodeSwitched(true).source(), Widget::GamemodeSwitcher);
    assert_eq!(Event::GamescopeSettingsClicked.source(), Widget::GamescopeSettings);
    assert_eq!(Event::GamescopeSwitched(true).source(), Widget::GamescopeSwitcher);
    assert_eq!(Event::FpsUnlockerSwitched(true).source(), Widget::FpsUnlockerSwitcher);
    assert_eq!(Event::FpsLimitSelected(0).source(), Widget::FpsUnlockerCombo);
    assert_eq!(
        Event::PowerSavingSwitched(true).source(),
        Widget::FpsUnlockerPowerSavingSwitcher
    );
    assert_eq!(Event::MonitorEdited(0).source(), Widget::FpsUnlockerMonitorNum);
    assert_eq!(Event::WindowModeSelected(0).source(), Widget::FpsUnlockerWindowModeCombo);
    assert_eq!(Event::PrioritySelected(0).source(), Widget::FpsUnlockerPriorityCombo);
}

#[test]
fn events_of_two_widgets_commute() {
    let page = page();
    let (a, _) = page.handle(config(), Event::ResolutionSelected(1));
    let (a, _) = page.handle(a, Event::VirtualDesktopSwitched(true));
    let (b, _) = page.handle(config(), Event::VirtualDesktopSwitched(true));
    let (b, _) = page.handle(b, Event::ResolutionSelected(1));
    assert_eq!(a, b);

    let (a, _) = page.handle(config(), Event::DiscordRpcStateEdited(String::from("one")));
    let (a, _) = page.handle(a, Event::DiscordRpcDescriptionEdited(String::from("two")));
    let (b, _) = page.handle(config(), Event::DiscordRpcDescriptionEdited(String::from("two")));
    let (b, _) = page.handle(b, Event::DiscordRpcStateEdited(String::from("one")));
    assert_eq!(a, b);
    assert_eq!(a.game.enhancements.discord_rpc.state, "one");
    assert_eq!(a.game.enhancements.discord_rpc.description, "two");
}

#[test]
fn later_event_of_one_widget_decides() {
    let page = page();
    let (a, _) = page.handle(config(), Event::FpsLimitSelected(1));
    let (a, _) = page.handle(a, Event::FpsLimitSelected(3));
    let (b, _) = page.handle(config(), Event::FpsLimitSelected(3));
    assert_eq!(a, b);
    assert_eq!(a.game.enhancements.fps_unlocker.config.fps, 144);
}

#[test]
fn leading_slot_after_an_entry_keeps_the_entry() {
    let page = page();
    let (a, _) = page.handle(config(), Event::ResolutionSelected(3));
    let (a, effect) = page.handle(a, Event::ResolutionSelected(0));
    assert_eq!(effect, Effect::Nothing);
    assert_eq!(a.game.wine.virtual_desktop.width, 2560);
    assert_eq!(a.game.wine.virtual_desktop.height, 1440);
}

#[test]
fn effect_tells_what_follows_an_event() {
    assert_eq!(Event::GamescopeSettingsClicked.effect(), Effect::ShowGamescopeSettings);
    assert_eq!(Event::ResolutionSelected(0).effect(), Effect::Nothing);
    assert_eq!(Event::ResolutionSelected(1).effect(), Effect::Save);
    assert_eq!(Event::FpsLimitSelected(0).effect(), Effect::Nothing);
    assert_eq!(Event::FpsLimitSelected(2).effect(), Effect::Save);
    assert_eq!(Event::SyncSelected(0).effect(), Effect::Save);
    assert_eq!(Event::FsrQualitySelected(0).effect(), Effect::Save);
    assert_eq!(Event::WindowModeSelected(0).effect(), Effect::Save);
    assert_eq!(Event::BorderlessSwitched(false).effect(), Effect::Save);
    assert_eq!(Event::DiscordRpcStateEdited(String::new()).effect(), Effect::Save);
    assert_eq!(Event::MonitorEdited(0).effect(), Effect::Save);
}

#[test]
fn react_stores_what_an_event_writes() {
    let page = page();
    let mut expected = config();
    expected.game.enhancements.gamemode = true;
    assert_eq!(
        page.react(Some(config()), Event::GamemodeSwitched(true)),
        Reaction::Store(expected)
    );

    let mut expected = config();
    expected.game.wine.virtual_desktop.width = 1280;
    expected.game.wine.virtual_desktop.height = 720;
    assert_eq!(
        page.react(Some(config()), Event::ResolutionSelected(1)),
        Reaction::Store(expected)
    );

    let mut expected = config();
    expected.game.enhancements.fsr.strength = 4;
    assert_eq!(
        page.react(Some(config()), Event::FsrQualitySelected(1)),
        Reaction::Store(expected)
    );
}

#[test]
fn react_passes_over_events_while_the_configuration_cannot_be_read() {
    let page = page();
    assert_eq!(page.react(None, Event::GamemodeSwitched(true)), Reaction::Nothing);
    assert_eq!(page.react(None, Event::ResolutionSelected(1)), Reaction::Nothing);
    assert_eq!(page.react(None, Event::SyncSelected(2)), Reaction::Nothing);
    assert_eq!(
        page.react(None, Event::DiscordRpcStateEdited(String::from("Fishing"))),
        Reaction::Nothing
    );
    assert_eq!(page.react(None, Event::SyncSelected(99)), Reaction::Nothing);
}

#[test]
fn react_does_nothing_about_leading_slots() {
    let page = page();
    assert_eq!(page.react(Some(config()), Event::ResolutionSelected(0)), Reaction::Nothing);
    assert_eq!(page.react(Some(config()), Event::FpsLimitSelected(0)), Reaction::Nothing);
    assert_eq!(page.react(None, Event::FpsLimitSelected(0)), Reaction::Nothing);
}

#[test]
fn react_shows_the_settings_whatever_was_read() {
    let page = page();
    assert_eq!(
        page.react(Some(config()), Event::GamescopeSettingsClicked),
        Reaction::ShowGamescopeSettings
    );
    assert_eq!(page.react(None, Event::GamescopeSettingsClicked), Reaction::ShowGamescopeSettings);
}
