use enhancements::template::{resource_path, Tool, Widget};

fn all_widgets() -> Vec<Widget> {
    vec![
        Widget::Page,
        Widget::SyncCombo,
        Widget::WineLang,
        Widget::Borderless,
        Widget::VirtualDesktopRow,
        Widget::VirtualDesktop,
        Widget::HudCombo,
        Widget::FsrCombo,
        Widget::FsrSwitcher,
        Widget::GamemodeRow,
        Widget::GamemodeSwitcher,
        Widget::GamescopeRow,
        Widget::GamescopeSettings,
        Widget::GamescopeSwitcher,
        Widget::FpsUnlockerCombo,
        Widget::FpsUnlockerSwitcher,
        Widget::FpsUnlockerPowerSavingSwitcher,
        Widget::FpsUnlockerMonitorNum,
        Widget::FpsUnlockerWindowModeCombo,
        Widget::FpsUnlockerPriorityCombo,
        Widget::DiscordRpcRow,
        Widget::DiscordRpc,
        Widget::DiscordRpcStateRow,
        Widget::DiscordRpcState,
        Widget::DiscordRpcDescRow,
        Widget::DiscordRpcDesc,
    ]
}

#[test]
fn resource_path_is_that_of_the_page() {
    assert_eq!(resource_path(), "/org/app/ui/preferences/enhancements.ui");
}

#[test]
fn widget_ids_of_the_wine_group() {
    assert_eq!(Widget::Page.id(), "page");
    assert_eq!(Widget::SyncCombo.id(), "sync_combo");
    assert_eq!(Widget::WineLang.id(), "wine_lang");
    assert_eq!(Widget::Borderless.id(), "borderless");
    assert_eq!(Widget::VirtualDesktopRow.id(), "virtual_desktop_row");
    assert_eq!(Widget::VirtualDesktop.id(), "virtual_desktop");
}

#[test]
fn widget_ids_of_the_game_group() {
    assert_eq!(Widget::HudCombo.id(), "hud_combo");
    assert_eq!(Widget::FsrCombo.id(), "fsr_combo");
    assert_eq!(Widget::FsrSwitcher.id(), "fsr_switcher");
    assert_eq!(Widget::GamemodeRow.id(), "gamemode_row");
    assert_eq!(Widget::GamemodeSwitcher.id(), "gamemode_switcher");
    assert_eq!(Widget::GamescopeRow.id(), "gamescope_row");
    assert_eq!(Widget::GamescopeSettings.id(), "gamescope_settings");
    assert_eq!(Widget::GamescopeSwitcher.id(), "gamescope_switcher");
}

#[test]
fn widget_ids_of_the_unlocker_group() {
    assert_eq!(Widget::FpsUnlockerCombo.id(), "fps_unlocker_combo");
    assert_eq!(Widget::FpsUnlockerSwitcher.id(), "fps_unlocker_switcher");
    assert_eq!(
        Widget::FpsUnlockerPowerSavingSwitcher.id(),
        "fps_unlocker_power_saving_switcher"
    );
    assert_eq!(Widget::FpsUnlockerMonitorNum.id(), "fps_unlocker_monitor_num");
    assert_eq!(Widget::FpsUnlockerWindowModeCombo.id(), "fps_unlocker_window_mode_combo");
    assert_eq!(Widget::FpsUnlockerPriorityCombo.id(), "fps_unlocker_priority_combo");
}

#[test]
fn widget_ids_of_the_discord_group() {
    assert_eq!(Widget::DiscordRpcRow.id(), "discord_rpc_row");
    assert_eq!(Widget::DiscordRpc.id(), "discord_rpc_switch");
    assert_eq!(Widget::DiscordRpcStateRow.id(), "discord_rpc_state_row");
    assert_eq!(Widget::DiscordRpcState.id(), "discord_rpc_state");
    assert_eq!(Widget::DiscordRpcDescRow.id(), "discord_rpc_desc_row");
    assert_eq!(Widget::DiscordRpcDesc.id(), "discord_rpc_desc");
}

#[test]
fn widget_ids_differ() {
    let widgets = all_widgets();
    assert_eq!(widgets.len(), 26);
    for (i, a) in widgets.iter().enumerate() {
        for (j, b) in widgets.iter().enumerate() {
            assert_eq!(a.id() == b.id(), i == j);
            assert_eq!(a == b, i == j);
        }
    }
}

#[test]
fn tool_programs() {
    assert_eq!(Tool::Gamemode.program(), "gamemoderun");
    assert_eq!(Tool::Gamescope.program(), "gamescope");
}

#[test]
fn tool_rows() {
    assert_eq!(Tool::Gamemode.row(), Widget::GamemodeRow);
    assert_eq!(Tool::Gamescope.row(), Widget::GamescopeRow);
}

#[test]
fn installed_tool_leaves_its_row_open() {
    assert_eq!(Tool::Gamemode.shut_row(true), None);
    assert_eq!(Tool::Gamescope.shut_row(true), None);
}

#[test]
fn missing_tool_shuts_its_row() {
    assert_eq!(Tool::Gamemode.shut_row(false), Some("Gamemode is not installed"));
    assert_eq!(Tool::Gamescope.shut_row(false), Some("Gamescope is not installed"));
}
