//! What the page's widgets hold.

use vstd::prelude::*;
use crate::choices::ChoicesView;
use crate::config::{ConfigView, POSITION_RANGE, STRONGEST_SHARPENING};

verus! {

/// The value of every widget of the page that stands for a field of the
/// configuration: the state of a switch, the selected slot of a combo row,
/// the number in the spin button, the text that an entry shows while it is
/// empty.
#[derive(Debug, PartialEq, Eq)]
pub struct AppWidgets {
    pub sync_combo: u32,
    pub wine_lang: u32,
    pub borderless: bool,
    pub virtual_desktop_row: u32,
    pub virtual_desktop: bool,
    pub hud_combo: u32,
    pub fsr_combo: u32,
    pub fsr_switcher: bool,
    pub gamemode_switcher: bool,
    pub gamescope_switcher: bool,
    pub fps_unlocker_combo: u32,
    pub fps_unlocker_switcher: bool,
    pub fps_unlocker_power_saving_switcher: bool,
    pub fps_unlocker_monitor_num: u64,
    pub fps_unlocker_window_mode_combo: u32,
    pub fps_unlocker_priority_combo: u32,
    pub discord_rpc: bool,
    pub discord_rpc_state: String,
    pub discord_rpc_desc: String,
}

/// `AppWidgets` as plain values: slots and numbers as naturals, texts as
/// sequences of characters.
pub struct AppWidgetsView {
    pub sync_combo: nat,
    pub wine_lang: nat,
    pub borderless: bool,
    pub virtual_desktop_row: nat,
    pub virtual_desktop: bool,
    pub hud_combo: nat,
    pub fsr_combo: nat,
    pub fsr_switcher: bool,
    pub gamemode_switcher: bool,
    pub gamescope_switcher: bool,
    pub fps_unlocker_combo: nat,
    pub fps_unlocker_switcher: bool,
    pub fps_unlocker_power_saving_switcher: bool,
    pub fps_unlocker_monitor_num: nat,
    pub fps_unlocker_window_mode_combo: nat,
    pub fps_unlocker_priority_combo: nat,
    pub discord_rpc: bool,
    pub discord_rpc_state: Seq<char>,
    pub discord_rpc_desc: Seq<char>,
}

impl View for AppWidgets {
    type V = AppWidgetsView;

    open spec fn view(&self) -> AppWidgetsView {
        AppWidgetsView {
            sync_combo: self.sync_combo as nat,
            wine_lang: self.wine_lang as nat,
            borderless: self.borderless,
            virtual_desktop_row: self.virtual_desktop_row as nat,
            virtual_desktop: self.virtual_desktop,
            hud_combo: self.hud_combo as nat,
            fsr_combo: self.fsr_combo as nat,
            fsr_switcher: self.fsr_switcher,
            gamemode_switcher: self.gamemode_switcher,
            gamescope_switcher: self.gamescope_switcher,
            fps_unlocker_combo: self.fps_unlocker_combo as nat,
            fps_unlocker_switcher: self.fps_unlocker_switcher,
            fps_unlocker_power_saving_switcher: self.fps_unlocker_power_saving_switcher,
            fps_unlocker_monitor_num: self.fps_unlocker_monitor_num as nat,
            fps_unlocker_window_mode_combo: self.fps_unlocker_window_mode_combo as nat,
            fps_unlocker_priority_combo: self.fps_unlocker_priority_combo as nat,
            discord_rpc: self.discord_rpc,
            discord_rpc_state: self.discord_rpc_state@,
            discord_rpc_desc: self.discord_rpc_desc@,
        }
    }
}

impl ChoicesView {
    /// What the widgets hold once the page shows `config`.
    ///
    /// A switch takes its field as it is. A row whose field is a position
    /// takes the position, its low 32 bits where the field is wider. The row
    /// of sharpening levels counts down from the strongest. The rows of sizes
    /// and of limits take the slot of the configured value, which is the
    /// leading slot where the list lacks it.
    pub open spec fn shown(self, config: ConfigView) -> AppWidgetsView {
        let wine = config.game.wine;
        let enhancements = config.game.enhancements;
        let unlocker = enhancements.fps_unlocker.config;
        AppWidgetsView {
            sync_combo: wine.sync as nat,
            wine_lang: wine.language as nat,
            borderless: wine.borderless,
            virtual_desktop_row: self.resolution_slot(
                wine.virtual_desktop.width,
                wine.virtual_desktop.height,
            ),
            virtual_desktop: wine.virtual_desktop.enabled,
            hud_combo: enhancements.hud as nat,
            fsr_combo: (STRONGEST_SHARPENING - config.sharpening_position()) as nat,
            fsr_switcher: enhancements.fsr.enabled,
            gamemode_switcher: enhancements.gamemode,
            gamescope_switcher: enhancements.gamescope.enabled,
            fps_unlocker_combo: self.fps_slot(unlocker.fps),
            fps_unlocker_switcher: enhancements.fps_unlocker.enabled,
            fps_unlocker_power_saving_switcher: unlocker.power_saving,
            fps_unlocker_monitor_num: unlocker.monitor as nat,
            fps_unlocker_window_mode_combo: (unlocker.window_mode as int % POSITION_RANGE as int) as nat,
            fps_unlocker_priority_combo: (unlocker.priority as int % POSITION_RANGE as int) as nat,
            discord_rpc: enhancements.discord_rpc.enabled,
            discord_rpc_state: enhancements.discord_rpc.state,
            discord_rpc_desc: enhancements.discord_rpc.description,
        }
    }
}

} // verus!
