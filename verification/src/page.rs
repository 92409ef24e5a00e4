//! The page: it shows a configuration and takes in what the user does.

use vstd::prelude::*;
use crate::choices::{Choices, ChoicesView};
use crate::config::{Config, ConfigView, POSITION_RANGE, STRONGEST_SHARPENING};
use crate::event::{Effect, Event};
use crate::widgets::AppWidgets;

verus! {

/// Title under which the page is listed in the preferences window.
pub open spec fn title_text() -> Seq<char> {
    "Enhancements"@
}

/// What the window says while the page takes a configuration in.
pub open spec fn loading_text() -> Seq<char> {
    "Loading enhancements..."@
}

/// What is to be done about an event.
#[derive(Debug, PartialEq, Eq)]
pub enum Reaction {
    /// Nothing is to be done.
    Nothing,
    /// This configuration is to be stored.
    Store(Config),
    /// The window with the compositor's settings is to be shown.
    ShowGamescopeSettings,
}

/// `Reaction` with the texts of its configuration as sequences of
/// characters.
pub enum ReactionView {
    Nothing,
    Store(ConfigView),
    ShowGamescopeSettings,
}

impl View for Reaction {
    type V = ReactionView;

    open spec fn view(&self) -> ReactionView {
        match self {
            Reaction::Nothing => ReactionView::Nothing,
            Reaction::Store(config) => ReactionView::Store(config@),
            Reaction::ShowGamescopeSettings => ReactionView::ShowGamescopeSettings,
        }
    }
}

impl ChoicesView {
    /// What is to be done about `event` when reading the configuration gave
    /// `read`. A click on the settings button shows the settings. Of the
    /// other events those that write are stored, unless the configuration
    /// could not be read: then the event is passed over.
    pub open spec fn reaction(self, read: Option<ConfigView>, event: Event) -> ReactionView {
        match event.effect() {
            Effect::ShowGamescopeSettings => ReactionView::ShowGamescopeSettings,
            Effect::Nothing => ReactionView::Nothing,
            Effect::Save => match read {
                Some(config) => ReactionView::Store(self.after(config, event)),
                None => ReactionView::Nothing,
            },
        }
    }
}

/// The configuration that was read, if any, with its texts as sequences of
/// characters.
pub open spec fn read_view(read: Option<Config>) -> Option<ConfigView> {
    match read {
        Some(config) => Some(config@),
        None => None,
    }
}

/// The page, with the lists that its rows offer.
#[derive(Debug, PartialEq, Eq)]
pub struct App {
    choices: Choices,
}

impl View for App {
    type V = ChoicesView;

    closed spec fn view(&self) -> ChoicesView {
        self.choices@
    }
}

impl App {
    /// A page whose rows offer `choices`.
    pub fn new(choices: Choices) -> (out: App)
        ensures
            out@ == choices@,
    {
        App { choices }
    }

    /// The lists that the rows offer.
    pub fn choices(&self) -> (out: &Choices)
        ensures
            out@ == self@,
    {
        &self.choices
    }

    /// The page's title.
    pub fn title() -> (out: String)
        ensures
            out@ == title_text(),
    {
        "Enhancements".to_owned()
    }

    /// What the window says while the page takes a configuration in.
    pub fn loading_description() -> (out: String)
        ensures
            out@ == loading_text(),
    {
        "Loading enhancements...".to_owned()
    }

    /// Tells whether a control of the page can report `event`.
    pub fn admits(&self, event: &Event) -> (out: bool)
        ensures
            out == self@.admits(*event),
    {
        match event {
            Event::SyncSelected(slot) => *slot < self.choices.sync_methods(),
            Event::LanguageSelected(slot) => *slot < self.choices.languages(),
            Event::HudSelected(slot) => *slot < self.choices.huds(),
            Event::ResolutionSelected(slot) => *slot as usize <= self.choices.resolutions().len(),
            Event::FpsLimitSelected(slot) => *slot as usize <= self.choices.fps_limits().len(),
            Event::FsrQualitySelected(slot) => *slot <= STRONGEST_SHARPENING,
            _ => true,
        }
    }

    /// Takes in an event: gives the configuration with the field of the
    /// event's control set to the event's value, and says what is to be done
    /// with it.
    pub fn handle(&self, config: Config, event: Event) -> (out: (Config, Effect))
        requires
            self@.admits(event),
        ensures
            out.0@ == self@.after(config@, event),
            out.1 == event.effect(),
    {
        let mut config = config;
        match event {
            Event::SyncSelected(slot) => {
                config.game.wine.sync = slot;
                (config, Effect::Save)
            },
            Event::LanguageSelected(slot) => {
                config.game.wine.language = slot;
                (config, Effect::Save)
            },
            Event::BorderlessSwitched(state) => {
                config.game.wine.borderless = state;
                (config, Effect::Save)
            },
            Event::ResolutionSelected(slot) => {
                match self.choices.resolution_at(slot) {
                    Some((width, height)) => {
                        config.game.wine.virtual_desktop.width = width;
                        config.game.wine.virtual_desktop.height = height;
                        (config, Effect::Save)
                    },
                    None => (config, Effect::Nothing),
                }
            },
            Event::VirtualDesktopSwitched(state) => {
                config.game.wine.virtual_desktop.enabled = state;
                (config, Effect::Save)
            },
            Event::HudSelected(slot) => {
                config.game.enhancements.hud = slot;
                (config, Effect::Save)
            },
            Event::FsrQualitySelected(slot) => {
                config.game.enhancements.fsr.strength = (STRONGEST_SHARPENING - slot) as u64;
                (config, Effect::Save)
            },
            Event::FsrSwitched(state) => {
                config.game.enhancements.fsr.enabled = state;
                (config, Effect::Save)
            },
            Event::DiscordRpcSwitched(state) => {
                config.game.enhancements.discord_rpc.enabled = state;
                (config, Effect::Save)
            },
            Event::DiscordRpcStateEdited(text) => {
                config.game.enhancements.discord_rpc.state = text;
                (config, Effect::Save)
            },
            Event::DiscordRpcDescriptionEdited(text) => {
                config.game.enhancements.discord_rpc.description = text;
                (config, Effect::Save)
            },
            Event::GamemodeSwitched(state) => {
                config.game.enhancements.gamemode = state;
                (config, Effect::Save)
            },
            Event::GamescopeSettingsClicked => (config, Effect::ShowGamescopeSettings),
            Event::GamescopeSwitched(state) => {
                config.game.enhancements.gamescope.enabled = state;
                (config, Effect::Save)
            },
            Event::FpsUnlockerSwitched(state) => {
                config.game.enhancements.fps_unlocker.enabled = state;
                (config, Effect::Save)
            },
            Event::FpsLimitSelected(slot) => {
                match self.choices.fps_at(slot) {
                    Some(fps) => {
                        config.game.enhancements.fps_unlocker.config.fps = fps;
                        (config, Effect::Save)
                    },
                    None => (config, Effect::Nothing),
                }
            },
            Event::PowerSavingSwitched(state) => {
                config.game.enhancements.fps_unlocker.config.power_saving = state;
                (config, Effect::Save)
            },
            Event::MonitorEdited(number) => {
                config.game.enhancements.fps_unlocker.config.monitor = number;
                (config, Effect::Save)
            },
            Event::WindowModeSelected(slot) => {
                config.game.enhancements.fps_unlocker.config.window_mode = slot as u64;
                (config, Effect::Save)
            },
            Event::PrioritySelected(slot) => {
                config.game.enhancements.fps_unlocker.config.priority = slot as u64;
                (config, Effect::Save)
            },
        }
    }

    /// Says what is to be done about an event, given what reading the
    /// configuration gave.
    pub fn react(&self, read: Option<Config>, event: Event) -> (out: Reaction)
        requires
            read is Some ==> self@.admits(event),
        ensures
            out@ == self@.reaction(read_view(read), event),
    {
        match event.effect() {
            Effect::ShowGamescopeSettings => Reaction::ShowGamescopeSettings,
            Effect::Nothing => Reaction::Nothing,
            Effect::Save => match read {
                Some(config) => {
                    let (next, _) = self.handle(config, event);
                    Reaction::Store(next)
                },
                None => Reaction::Nothing,
            },
        }
    }

    /// Gives what every widget is to hold so that the page shows `config`.
    pub fn prepare(&self, config: &Config) -> (out: AppWidgets)
        requires
            config@.displayable(),
        ensures
            out@ == self@.shown(config@),
    {
        let wine = &config.game.wine;
        let enhancements = &config.game.enhancements;
        let unlocker = &enhancements.fps_unlocker.config;
        let sharpening: u64 = enhancements.fsr.strength % POSITION_RANGE;
        AppWidgets {
            sync_combo: wine.sync,
            wine_lang: wine.language,
            borderless: wine.borderless,
            virtual_desktop_row: self.choices.resolution_slot(
                wine.virtual_desktop.width,
                wine.virtual_desktop.height,
            ),
            virtual_desktop: wine.virtual_desktop.enabled,
            hud_combo: enhancements.hud,
            fsr_combo: STRONGEST_SHARPENING - sharpening as u32,
            fsr_switcher: enhancements.fsr.enabled,
            gamemode_switcher: enhancements.gamemode,
            gamescope_switcher: enhancements.gamescope.enabled,
            fps_unlocker_combo: self.choices.fps_slot(unlocker.fps),
            fps_unlocker_switcher: enhancements.fps_unlocker.enabled,
            fps_unlocker_power_saving_switcher: unlocker.power_saving,
            fps_unlocker_monitor_num: unlocker.monitor,
            fps_unlocker_window_mode_combo: (unlocker.window_mode % POSITION_RANGE) as u32,
            fps_unlocker_priority_combo: (unlocker.priority % POSITION_RANGE) as u32,
            discord_rpc: enhancements.discord_rpc.enabled,
            discord_rpc_state: enhancements.discord_rpc.state.clone(),
            discord_rpc_desc: enhancements.discord_rpc.description.clone(),
        }
    }
}

} // verus!
