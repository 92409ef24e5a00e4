//! How the page is put together from its interface description: where the
//! description lies, which name each widget has in it, and which rows are
//! shut when a program that they stand for is not installed.

use vstd::prelude::*;

verus! {

/// Where the interface description lies among the application's resources.
pub open spec fn resource_path_text() -> Seq<char> {
    "/org/app/ui/preferences/enhancements.ui"@
}

/// Where the interface description lies among the application's resources.
pub fn resource_path() -> (out: &'static str)
    ensures
        out@ == resource_path_text(),
{
    "/org/app/ui/preferences/enhancements.ui"
}

/// A widget that the page takes from its interface description.
#[derive(Clone, Copy, Debug, PartialEq, Eq, Structural)]
pub enum Widget {
    Page,
    SyncCombo,
    WineLang,
    Borderless,
    VirtualDesktopRow,
    VirtualDesktop,
    HudCombo,
    FsrCombo,
    FsrSwitcher,
    GamemodeRow,
    GamemodeSwitcher,
    GamescopeRow,
    GamescopeSettings,
    GamescopeSwitcher,
    FpsUnlockerCombo,
    FpsUnlockerSwitcher,
    FpsUnlockerPowerSavingSwitcher,
    FpsUnlockerMonitorNum,
    FpsUnlockerWindowModeCombo,
    FpsUnlockerPriorityCombo,
    DiscordRpcRow,
    DiscordRpc,
    DiscordRpcStateRow,
    DiscordRpcState,
    DiscordRpcDescRow,
    DiscordRpcDesc,
}

impl Widget {
    /// The name that the interface description gives the widget.
    pub open spec fn name(self) -> Seq<char> {
        match self {
            Widget::Page => "page"@,
            Widget::SyncCombo => "sync_combo"@,
            Widget::WineLang => "wine_lang"@,
            Widget::Borderless => "borderless"@,
            Widget::VirtualDesktopRow => "virtual_desktop_row"@,
            Widget::VirtualDesktop => "virtual_desktop"@,
            Widget::HudCombo => "hud_combo"@,
            Widget::FsrCombo => "fsr_combo"@,
            Widget::FsrSwitcher => "fsr_switcher"@,
            Widget::GamemodeRow => "gamemode_row"@,
            Widget::GamemodeSwitcher => "gamemode_switcher"@,
            Widget::GamescopeRow => "gamescope_row"@,
            Widget::GamescopeSettings => "gamescope_settings"@,
            Widget::GamescopeSwitcher => "gamescope_switcher"@,
            Widget::FpsUnlockerCombo => "fps_unlocker_combo"@,
            Widget::FpsUnlockerSwitcher => "fps_unlocker_switcher"@,
            Widget::FpsUnlockerPowerSavingSwitcher => "fps_unlocker_power_saving_switcher"@,
            Widget::FpsUnlockerMonitorNum => "fps_unlocker_monitor_num"@,
            Widget::FpsUnlockerWindowModeCombo => "fps_unlocker_window_mode_combo"@,
            Widget::FpsUnlockerPriorityCombo => "fps_unlocker_priority_combo"@,
            Widget::DiscordRpcRow => "discord_rpc_row"@,
            Widget::DiscordRpc => "discord_rpc_switch"@,
            Widget::DiscordRpcStateRow => "discord_rpc_state_row"@,
            Widget::DiscordRpcState => "discord_rpc_state"@,
            Widget::DiscordRpcDescRow => "discord_rpc_desc_row"@,
            Widget::DiscordRpcDesc => "discord_rpc_desc"@,
        }
    }

    /// The name under which the widget is found in the interface description.
    pub fn id(self) -> (out: &'static str)
        ensures
            out@ == self.name(),
    {
        match self {
            Widget::Page => "page",
            Widget::SyncCombo => "sync_combo",
            Widget::WineLang => "wine_lang",
            Widget::Borderless => "borderless",
            Widget::VirtualDesktopRow => "virtual_desktop_row",
            Widget::VirtualDesktop => "virtual_desktop",
            Widget::HudCombo => "hud_combo",
            Widget::FsrCombo => "fsr_combo",
            Widget::FsrSwitcher => "fsr_switcher",
            Widget::GamemodeRow => "gamemode_row",
            Widget::GamemodeSwitcher => "gamemode_switcher",
            Widget::GamescopeRow => "gamescope_row",
            Widget::GamescopeSettings => "gamescope_settings",
            Widget::GamescopeSwitcher => "gamescope_switcher",
            Widget::FpsUnlockerCombo => "fps_unlocker_combo",
            Widget::FpsUnlockerSwitcher => "fps_unlocker_switcher",
            Widget::FpsUnlockerPowerSavingSwitcher => "fps_unlocker_power_saving_switcher",
            Widget::FpsUnlockerMonitorNum => "fps_unlocker_monitor_num",
            Widget::FpsUnlockerWindowModeCombo => "fps_unlocker_window_mode_combo",
            Widget::FpsUnlockerPriorityCombo => "fps_unlocker_priority_combo",
            Widget::DiscordRpcRow => "discord_rpc_row",
            Widget::DiscordRpc => "discord_rpc_switch",
            Widget::DiscordRpcStateRow => "discord_rpc_state_row",
            Widget::DiscordRpcState => "discord_rpc_state",
            Widget::DiscordRpcDescRow => "discord_rpc_desc_row",
            Widget::DiscordRpcDesc => "discord_rpc_desc",
        }
    }
}

/// A program that the launcher can run the game through, if it is installed.
#[derive(Clone, Copy, Debug, PartialEq, Eq, Structural)]
pub enum Tool {
    /// The daemon that tunes the machine while the game runs.
    Gamemode,
    /// The compositor that the game can be run in.
    Gamescope,
}

impl Tool {
    /// The name under which the program is looked for.
    pub open spec fn program_text(self) -> Seq<char> {
        match self {
            Tool::Gamemode => "gamemoderun"@,
            Tool::Gamescope => "gamescope"@,
        }
    }

    /// What the row says where the program is lacking.
    pub open spec fn notice_text(self) -> Seq<char> {
        match self {
            Tool::Gamemode => "Gamemode is not installed"@,
            Tool::Gamescope => "Gamescope is not installed"@,
        }
    }

    /// The row that stands for the program.
    pub open spec fn spec_row(self) -> Widget {
        match self {
            Tool::Gamemode => Widget::GamemodeRow,
            Tool::Gamescope => Widget::GamescopeRow,
        }
    }

    /// The name under which the program is looked for.
    pub fn program(self) -> (out: &'static str)
        ensures
            out@ == self.program_text(),
    {
        match self {
            Tool::Gamemode => "gamemoderun",
            Tool::Gamescope => "gamescope",
        }
    }

    /// The row that stands for the program.
    #[verifier::when_used_as_spec(spec_row)]
    pub fn row(self) -> (out: Widget)
        ensures
            out == self.spec_row(),
    {
        match self {
            Tool::Gamemode => Widget::GamemodeRow,
            Tool::Gamescope => Widget::GamescopeRow,
        }
    }

    /// Says whether the program's row is to be shut. Where the program is
    /// installed the row is left as it is; where it is not, the row no
    /// longer takes input and explains itself with the text given.
    pub fn shut_row(self, installed: bool) -> (out: Option<&'static str>)
        ensures
            out is None <==> installed,
            out matches Some(text) ==> text@ == self.notice_text(),
    {
        if installed {
            None
        } else {
            match self {
                Tool::Gamemode => Some("Gamemode is not installed"),
                Tool::Gamescope => Some("Gamescope is not installed"),
            }
        }
    }
}

/// No two widgets share a name in the interface description.
pub proof fn lemma_names_differ(a: Widget, b: Widget)
    requires
        a.name() == b.name(),
    ensures
        a == b,
{
    reveal_strlit("page");
    reveal_strlit("sync_combo");
    reveal_strlit("wine_lang");
    reveal_strlit("borderless");
    reveal_strlit("virtual_desktop_row");
    reveal_strlit("virtual_desktop");
    reveal_strlit("hud_combo");
    reveal_strlit("fsr_combo");
    reveal_strlit("fsr_switcher");
    reveal_strlit("gamemode_row");
    reveal_strlit("gamemode_switcher");
    reveal_strlit("gamescope_row");
    reveal_strlit("gamescope_settings");
    reveal_strlit("gamescope_switcher");
    reveal_strlit("fps_unlocker_combo");
    reveal_strlit("fps_unlocker_switcher");
    reveal_strlit("fps_unlocker_power_saving_switcher");
    reveal_strlit("fps_unlocker_monitor_num");
    reveal_strlit("fps_unlocker_window_mode_combo");
    reveal_strlit("fps_unlocker_priority_combo");
    reveal_strlit("discord_rpc_row");
    reveal_strlit("discord_rpc_switch");
    reveal_strlit("discord_rpc_state_row");
    reveal_strlit("discord_rpc_state");
    reveal_strlit("discord_rpc_desc_row");
    reveal_strlit("discord_rpc_desc");
    // Length, first letter and twelfth letter tell any two names apart.
    assert("page"@.len() == 4 && "page"@[0] == 'p');
    assert("sync_combo"@.len() == 10 && "sync_combo"@[0] == 's');
    assert("wine_lang"@.len() == 9 && "wine_lang"@[0] == 'w');
    assert("borderless"@.len() == 10 && "borderless"@[0] == 'b');
    assert("virtual_desktop_row"@.len() == 19 && "virtual_desktop_row"@[0] == 'v' && "virtual_desktop_row"@[11] == 'k');
    assert("virtual_desktop"@.len() == 15 && "virtual_desktop"@[0] == 'v' && "virtual_desktop"@[11] == 'k');
    assert("hud_combo"@.len() == 9 && "hud_combo"@[0] == 'h');
    assert("fsr_combo"@.len() == 9 && "fsr_combo"@[0] == 'f');
    assert("fsr_switcher"@.len() == 12 && "fsr_switcher"@[0] == 'f' && "fsr_switcher"@[11] == 'r');
    assert("gamemode_row"@.len() == 12 && "gamemode_row"@[0] == 'g' && "gamemode_row"@[11] == 'w');
    assert("gamemode_switcher"@.len() == 17 && "gamemode_switcher"@[0] == 'g' && "gamemode_switcher"@[11] == 'i');
    assert("gamescope_row"@.len() == 13 && "gamescope_row"@[0] == 'g' && "gamescope_row"@[11] == 'o');
    assert("gamescope_settings"@.len() == 18 && "gamescope_settings"@[0] == 'g' && "gamescope_settings"@[11] == 'e');
    assert("gamescope_switcher"@.len() == 18 && "gamescope_switcher"@[0] == 'g' && "gamescope_switcher"@[11] == 'w');
    assert("fps_unlocker_combo"@.len() == 18 && "fps_unlocker_combo"@[0] == 'f' && "fps_unlocker_combo"@[11] == 'r');
    assert("fps_unlocker_switcher"@.len() == 21 && "fps_unlocker_switcher"@[0] == 'f' && "fps_unlocker_switcher"@[11] == 'r');
    assert("fps_unlocker_power_saving_switcher"@.len() == 34 && "fps_unlocker_power_saving_switcher"@[0] == 'f' && "fps_unlocker_power_saving_switcher"@[11] == 'r');
    assert("fps_unlocker_monitor_num"@.len() == 24 && "fps_unlocker_monitor_num"@[0] == 'f' && "fps_unlocker_monitor_num"@[11] == 'r');
    assert("fps_unlocker_window_mode_combo"@.len() == 30 && "fps_unlocker_window_mode_combo"@[0] == 'f' && "fps_unlocker_window_mode_combo"@[11] == 'r');
    assert("fps_unlocker_priority_combo"@.len() == 27 && "fps_unlocker_priority_combo"@[0] == 'f' && "fps_unlocker_priority_combo"@[11] == 'r');
    assert("discord_rpc_row"@.len() == 15 && "discord_rpc_row"@[0] == 'd' && "discord_rpc_row"@[11] == '_');
    assert("discord_rpc_switch"@.len() == 18 && "discord_rpc_switch"@[0] == 'd' && "discord_rpc_switch"@[11] == '_');
    assert("discord_rpc_state_row"@.len() == 21 && "discord_rpc_state_row"@[0] == 'd' && "discord_rpc_state_row"@[11] == '_');
    assert("discord_rpc_state"@.len() == 17 && "discord_rpc_state"@[0] == 'd' && "discord_rpc_state"@[11] == '_');
    assert("discord_rpc_desc_row"@.len() == 20 && "discord_rpc_desc_row"@[0] == 'd' && "discord_rpc_desc_row"@[11] == '_');
    assert("discord_rpc_desc"@.len() == 16 && "discord_rpc_desc"@[0] == 'd' && "discord_rpc_desc"@[11] == '_');
}

} // verus!
