//! What the user can do on the page, and what each such event makes of the
//! configuration.
//!
//! Every control edits one field. A switch writes its state, a combo row the
//! choice behind its selected slot, an entry its text. The leading slot of
//! the rows of sizes and of limits stands for a value that the page cannot
//! name, so selecting it writes nothing.

use vstd::prelude::*;
use crate::choices::ChoicesView;
use crate::config::{
    Cell, ConfigView, DiscordRpcView, EnhancementsView, FpsUnlocker, FpsUnlockerConfig, Fsr,
    GameView, Gamescope, VirtualDesktop, Wine, STRONGEST_SHARPENING,
};
use crate::template::Widget;

verus! {

/// A change that the user made to a control, with the control's new value.
#[derive(Debug, PartialEq, Eq)]
pub enum Event {
    /// A synchronisation method was selected.
    SyncSelected(u32),
    /// A language was selected.
    LanguageSelected(u32),
    /// The switch for a borderless window changed.
    BorderlessSwitched(bool),
    /// A slot of the row of virtual desktop sizes was selected.
    ResolutionSelected(u32),
    /// The switch for the virtual desktop changed.
    VirtualDesktopSwitched(bool),
    /// An overlay was selected.
    HudSelected(u32),
    /// A sharpening level was selected, the strongest being slot 0.
    FsrQualitySelected(u32),
    /// The switch for upscaling changed.
    FsrSwitched(bool),
    /// The switch for announcements to the chat client changed.
    DiscordRpcSwitched(bool),
    /// The text of the announced state was edited.
    DiscordRpcStateEdited(String),
    /// The text of the announced description was edited.
    DiscordRpcDescriptionEdited(String),
    /// The switch for the performance daemon changed.
    GamemodeSwitched(bool),
    /// The button that opens the compositor's settings was clicked.
    GamescopeSettingsClicked,
    /// The switch for the compositor changed.
    GamescopeSwitched(bool),
    /// The switch for the frame rate unlocker changed.
    FpsUnlockerSwitched(bool),
    /// A slot of the row of frame rate limits was selected.
    FpsLimitSelected(u32),
    /// The switch for power saving changed.
    PowerSavingSwitched(bool),
    /// The number of the monitor was edited.
    MonitorEdited(u64),
    /// A window mode was selected.
    WindowModeSelected(u32),
    /// A process priority was selected.
    PrioritySelected(u32),
}

/// What is to be done once an event has been taken in.
#[derive(Clone, Copy, Debug, PartialEq, Eq, Structural)]
pub enum Effect {
    /// The configuration is as it was: nothing is to be done.
    Nothing,
    /// The configuration is to be stored.
    Save,
    /// The window with the compositor's settings is to be shown.
    ShowGamescopeSettings,
}

impl Event {
    /// The widget that reports the event.
    pub open spec fn spec_source(&self) -> Widget {
        match self {
            Event::SyncSelected(_) => Widget::SyncCombo,
            Event::LanguageSelected(_) => Widget::WineLang,
            Event::BorderlessSwitched(_) => Widget::Borderless,
            Event::ResolutionSelected(_) => Widget::VirtualDesktopRow,
            Event::VirtualDesktopSwitched(_) => Widget::VirtualDesktop,
            Event::HudSelected(_) => Widget::HudCombo,
            Event::FsrQualitySelected(_) => Widget::FsrCombo,
            Event::FsrSwitched(_) => Widget::FsrSwitcher,
            Event::DiscordRpcSwitched(_) => Widget::DiscordRpc,
            Event::DiscordRpcStateEdited(_) => Widget::DiscordRpcState,
            Event::DiscordRpcDescriptionEdited(_) => Widget::DiscordRpcDesc,
            Event::GamemodeSwitched(_) => Widget::GamemodeSwitcher,
            Event::GamescopeSettingsClicked => Widget::GamescopeSettings,
            Event::GamescopeSwitched(_) => Widget::GamescopeSwitcher,
            Event::FpsUnlockerSwitched(_) => Widget::FpsUnlockerSwitcher,
            Event::FpsLimitSelected(_) => Widget::FpsUnlockerCombo,
            Event::PowerSavingSwitched(_) => Widget::FpsUnlockerPowerSavingSwitcher,
            Event::MonitorEdited(_) => Widget::FpsUnlockerMonitorNum,
            Event::WindowModeSelected(_) => Widget::FpsUnlockerWindowModeCombo,
            Event::PrioritySelected(_) => Widget::FpsUnlockerPriorityCombo,
        }
    }

    /// The widget that reports the event.
    #[verifier::when_used_as_spec(spec_source)]
    pub fn source(&self) -> (out: Widget)
        ensures
            out == self.spec_source(),
    {
        match self {
            Event::SyncSelected(_) => Widget::SyncCombo,
            Event::LanguageSelected(_) => Widget::WineLang,
            Event::BorderlessSwitched(_) => Widget::Borderless,
            Event::ResolutionSelected(_) => Widget::VirtualDesktopRow,
            Event::VirtualDesktopSwitched(_) => Widget::VirtualDesktop,
            Event::HudSelected(_) => Widget::HudCombo,
            Event::FsrQualitySelected(_) => Widget::FsrCombo,
            Event::FsrSwitched(_) => Widget::FsrSwitcher,
            Event::DiscordRpcSwitched(_) => Widget::DiscordRpc,
            Event::DiscordRpcStateEdited(_) => Widget::DiscordRpcState,
            Event::DiscordRpcDescriptionEdited(_) => Widget::DiscordRpcDesc,
            Event::GamemodeSwitched(_) => Widget::GamemodeSwitcher,
            Event::GamescopeSettingsClicked => Widget::GamescopeSettings,
            Event::GamescopeSwitched(_) => Widget::GamescopeSwitcher,
            Event::FpsUnlockerSwitched(_) => Widget::FpsUnlockerSwitcher,
            Event::FpsLimitSelected(_) => Widget::FpsUnlockerCombo,
            Event::PowerSavingSwitched(_) => Widget::FpsUnlockerPowerSavingSwitcher,
            Event::MonitorEdited(_) => Widget::FpsUnlockerMonitorNum,
            Event::WindowModeSelected(_) => Widget::FpsUnlockerWindowModeCombo,
            Event::PrioritySelected(_) => Widget::FpsUnlockerPriorityCombo,
        }
    }

    /// What follows the event: a click on the settings button opens the
    /// settings, the leading slot of a row writes nothing, and everything
    /// else is stored.
    pub open spec fn spec_effect(&self) -> Effect {
        match *self {
            Event::GamescopeSettingsClicked => Effect::ShowGamescopeSettings,
            Event::ResolutionSelected(slot) => if slot == 0 {
                Effect::Nothing
            } else {
                Effect::Save
            },
            Event::FpsLimitSelected(slot) => if slot == 0 {
                Effect::Nothing
            } else {
                Effect::Save
            },
            _ => Effect::Save,
        }
    }

    /// What follows the event.
    #[verifier::when_used_as_spec(spec_effect)]
    pub fn effect(&self) -> (out: Effect)
        ensures
            out == self.spec_effect(),
    {
        match self {
            Event::GamescopeSettingsClicked => Effect::ShowGamescopeSettings,
            Event::ResolutionSelected(slot) => if *slot == 0 {
                Effect::Nothing
            } else {
                Effect::Save
            },
            Event::FpsLimitSelected(slot) => if *slot == 0 {
                Effect::Nothing
            } else {
                Effect::Save
            },
            _ => Effect::Save,
        }
    }
}

impl ConfigView {
    /// This record with other settings of the compatibility layer.
    pub open spec fn with_wine(self, wine: Wine) -> ConfigView {
        ConfigView { game: GameView { wine, ..self.game } }
    }

    /// This record with a virtual desktop of another kind.
    pub open spec fn with_virtual_desktop(self, virtual_desktop: VirtualDesktop) -> ConfigView {
        self.with_wine(Wine { virtual_desktop, ..self.game.wine })
    }

    /// This record with other enhancements.
    pub open spec fn with_enhancements(self, enhancements: EnhancementsView) -> ConfigView {
        ConfigView { game: GameView { enhancements, ..self.game } }
    }

    /// This record with other settings of upscaling.
    pub open spec fn with_fsr(self, fsr: Fsr) -> ConfigView {
        self.with_enhancements(EnhancementsView { fsr, ..self.game.enhancements })
    }

    /// This record with other announcements to the chat client.
    pub open spec fn with_discord_rpc(self, discord_rpc: DiscordRpcView) -> ConfigView {
        self.with_enhancements(EnhancementsView { discord_rpc, ..self.game.enhancements })
    }

    /// This record with another frame rate unlocker.
    pub open spec fn with_fps_unlocker(self, fps_unlocker: FpsUnlocker) -> ConfigView {
        self.with_enhancements(EnhancementsView { fps_unlocker, ..self.game.enhancements })
    }

    /// This record with something else handed to the frame rate unlocker.
    pub open spec fn with_unlocker_config(self, config: FpsUnlockerConfig) -> ConfigView {
        self.with_fps_unlocker(
            FpsUnlocker { config, ..self.game.enhancements.fps_unlocker },
        )
    }
}

impl ChoicesView {
    /// Whether a control of the page can report this event: a selected slot
    /// is one that its row has.
    pub open spec fn admits(self, event: Event) -> bool {
        match event {
            Event::SyncSelected(slot) => slot < self.sync_methods,
            Event::LanguageSelected(slot) => slot < self.languages,
            Event::HudSelected(slot) => slot < self.huds,
            Event::ResolutionSelected(slot) => slot <= self.resolutions.len(),
            Event::FpsLimitSelected(slot) => slot <= self.fps_limits.len(),
            Event::FsrQualitySelected(slot) => slot <= STRONGEST_SHARPENING,
            _ => true,
        }
    }

    /// What the event writes into the field of its widget, if anything.
    pub open spec fn written(self, event: Event) -> Option<Cell> {
        match event {
            Event::SyncSelected(slot) => Some(Cell::Position(slot)),
            Event::LanguageSelected(slot) => Some(Cell::Position(slot)),
            Event::BorderlessSwitched(state) => Some(Cell::Flag(state)),
            Event::ResolutionSelected(slot) => match self.resolution_at(slot) {
                Some((width, height)) => Some(Cell::Size(width, height)),
                None => None,
            },
            Event::VirtualDesktopSwitched(state) => Some(Cell::Flag(state)),
            Event::HudSelected(slot) => Some(Cell::Position(slot)),
            Event::FsrQualitySelected(slot) => Some(
                Cell::Number((STRONGEST_SHARPENING - slot) as u64),
            ),
            Event::FsrSwitched(state) => Some(Cell::Flag(state)),
            Event::DiscordRpcSwitched(state) => Some(Cell::Flag(state)),
            Event::DiscordRpcStateEdited(text) => Some(Cell::Text(text@)),
            Event::DiscordRpcDescriptionEdited(text) => Some(Cell::Text(text@)),
            Event::GamemodeSwitched(state) => Some(Cell::Flag(state)),
            Event::GamescopeSettingsClicked => None,
            Event::GamescopeSwitched(state) => Some(Cell::Flag(state)),
            Event::FpsUnlockerSwitched(state) => Some(Cell::Flag(state)),
            Event::FpsLimitSelected(slot) => match self.fps_at(slot) {
                Some(fps) => Some(Cell::Number(fps)),
                None => None,
            },
            Event::PowerSavingSwitched(state) => Some(Cell::Flag(state)),
            Event::MonitorEdited(number) => Some(Cell::Number(number)),
            Event::WindowModeSelected(slot) => Some(Cell::Number(slot as u64)),
            Event::PrioritySelected(slot) => Some(Cell::Number(slot as u64)),
        }
    }

    /// The configuration after the event: `config` with the one field that
    /// the event's control edits set to the event's value.
    pub open spec fn after(self, config: ConfigView, event: Event) -> ConfigView {
        let wine = config.game.wine;
        let enhancements = config.game.enhancements;
        let unlocker = enhancements.fps_unlocker.config;
        match event {
            Event::SyncSelected(slot) => config.with_wine(Wine { sync: slot, ..wine }),
            Event::LanguageSelected(slot) => config.with_wine(Wine { language: slot, ..wine }),
            Event::BorderlessSwitched(state) => config.with_wine(
                Wine { borderless: state, ..wine },
            ),
            Event::ResolutionSelected(slot) => match self.resolution_at(slot) {
                Some((width, height)) => config.with_virtual_desktop(
                    VirtualDesktop { width, height, ..wine.virtual_desktop },
                ),
                None => config,
            },
            Event::VirtualDesktopSwitched(state) => config.with_virtual_desktop(
                VirtualDesktop { enabled: state, ..wine.virtual_desktop },
            ),
            Event::HudSelected(slot) => config.with_enhancements(
                EnhancementsView { hud: slot, ..enhancements },
            ),
            Event::FsrQualitySelected(slot) => config.with_fsr(
                Fsr { strength: (STRONGEST_SHARPENING - slot) as u64, ..enhancements.fsr },
            ),
            Event::FsrSwitched(state) => config.with_fsr(
                Fsr { enabled: state, ..enhancements.fsr },
            ),
            Event::DiscordRpcSwitched(state) => config.with_discord_rpc(
                DiscordRpcView { enabled: state, ..enhancements.discord_rpc },
            ),
            Event::DiscordRpcStateEdited(text) => config.with_discord_rpc(
                DiscordRpcView { state: text@, ..enhancements.discord_rpc },
            ),
            Event::DiscordRpcDescriptionEdited(text) => config.with_discord_rpc(
                DiscordRpcView { description: text@, ..enhancements.discord_rpc },
            ),
            Event::GamemodeSwitched(state) => config.with_enhancements(
                EnhancementsView { gamemode: state, ..enhancements },
            ),
            Event::GamescopeSettingsClicked => config,
            Event::GamescopeSwitched(state) => config.with_enhancements(
                EnhancementsView { gamescope: Gamescope { enabled: state }, ..enhancements },
            ),
            Event::FpsUnlockerSwitched(state) => config.with_fps_unlocker(
                FpsUnlocker { enabled: state, ..enhancements.fps_unlocker },
            ),
            Event::FpsLimitSelected(slot) => match self.fps_at(slot) {
                Some(fps) => config.with_unlocker_config(FpsUnlockerConfig { fps, ..unlocker }),
                None => config,
            },
            Event::PowerSavingSwitched(state) => config.with_unlocker_config(
                FpsUnlockerConfig { power_saving: state, ..unlocker },
            ),
            Event::MonitorEdited(number) => config.with_unlocker_config(
                FpsUnlockerConfig { monitor: number, ..unlocker },
            ),
            Event::WindowModeSelected(slot) => config.with_unlocker_config(
                FpsUnlockerConfig { window_mode: slot as u64, ..unlocker },
            ),
            Event::PrioritySelected(slot) => config.with_unlocker_config(
                FpsUnlockerConfig { priority: slot as u64, ..unlocker },
            ),
        }
    }
}

} // verus!
