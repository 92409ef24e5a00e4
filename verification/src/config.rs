//! The part of the launcher's configuration record that the page edits.
//!
//! The record is laid out as the launcher stores it: `game.wine` for the
//! settings of the compatibility layer, `game.enhancements` for everything
//! that is put around the game. Choices that the launcher offers from a list
//! (synchronisation method, language, overlay) are kept as their position in
//! that list.

use vstd::prelude::*;
use crate::template::Widget;

verus! {

/// How many positions a combo row can tell apart. Of a wider number a row
/// takes what is left after division by this.
pub const POSITION_RANGE: u64 = 0x1_0000_0000;

/// The strongest sharpening level, shown first in the list of levels.
pub const STRONGEST_SHARPENING: u32 = 5;

/// A desktop of fixed size that the game's window is confined to.
#[derive(Clone, Copy, Debug, PartialEq, Eq, Structural)]
pub struct VirtualDesktop {
    pub enabled: bool,
    pub width: u64,
    pub height: u64,
}

/// Settings of the compatibility layer.
#[derive(Clone, Copy, Debug, PartialEq, Eq, Structural)]
pub struct Wine {
    /// Position of the synchronisation method among those offered.
    pub sync: u32,
    /// Position of the language among those offered.
    pub language: u32,
    pub borderless: bool,
    pub virtual_desktop: VirtualDesktop,
}

/// Upscaling with sharpening; `strength` runs from 5 (strongest) downwards.
#[derive(Clone, Copy, Debug, PartialEq, Eq, Structural)]
pub struct Fsr {
    pub strength: u64,
    pub enabled: bool,
}

/// What the launcher announces to the chat client while the game runs.
#[derive(Debug, PartialEq, Eq)]
pub struct DiscordRpc {
    pub enabled: bool,
    pub state: String,
    pub description: String,
}

/// The compositor that the game can be run in.
#[derive(Clone, Copy, Debug, PartialEq, Eq, Structural)]
pub struct Gamescope {
    pub enabled: bool,
}

/// What is handed to the frame rate unlocker.
#[derive(Clone, Copy, Debug, PartialEq, Eq, Structural)]
pub struct FpsUnlockerConfig {
    pub fps: u64,
    pub power_saving: bool,
    pub monitor: u64,
    pub window_mode: u64,
    pub priority: u64,
}

/// The frame rate unlocker.
#[derive(Clone, Copy, Debug, PartialEq, Eq, Structural)]
pub struct FpsUnlocker {
    pub enabled: bool,
    pub config: FpsUnlockerConfig,
}

/// Everything that is put around the game.
#[derive(Debug, PartialEq, Eq)]
pub struct Enhancements {
    /// Position of the overlay among those offered.
    pub hud: u32,
    pub fsr: Fsr,
    pub discord_rpc: DiscordRpc,
    pub gamemode: bool,
    pub gamescope: Gamescope,
    pub fps_unlocker: FpsUnlocker,
}

/// Settings of the game.
#[derive(Debug, PartialEq, Eq)]
pub struct Game {
    pub wine: Wine,
    pub enhancements: Enhancements,
}

/// The configuration record, as far as the page reads and writes it.
#[derive(Debug, PartialEq, Eq)]
pub struct Config {
    pub game: Game,
}

/// `DiscordRpc` with its texts as sequences of characters.
pub struct DiscordRpcView {
    pub enabled: bool,
    pub state: Seq<char>,
    pub description: Seq<char>,
}

/// `Enhancements` with its texts as sequences of characters.
pub struct EnhancementsView {
    pub hud: u32,
    pub fsr: Fsr,
    pub discord_rpc: DiscordRpcView,
    pub gamemode: bool,
    pub gamescope: Gamescope,
    pub fps_unlocker: FpsUnlocker,
}

/// `Game` with its texts as sequences of characters.
pub struct GameView {
    pub wine: Wine,
    pub enhancements: EnhancementsView,
}

/// `Config` with its texts as sequences of characters.
pub struct ConfigView {
    pub game: GameView,
}

impl View for DiscordRpc {
    type V = DiscordRpcView;

    open spec fn view(&self) -> DiscordRpcView {
        DiscordRpcView {
            enabled: self.enabled,
            state: self.state@,
            description: self.description@,
        }
    }
}

impl View for Enhancements {
    type V = EnhancementsView;

    open spec fn view(&self) -> EnhancementsView {
        EnhancementsView {
            hud: self.hud,
            fsr: self.fsr,
            discord_rpc: self.discord_rpc@,
            gamemode: self.gamemode,
            gamescope: self.gamescope,
            fps_unlocker: self.fps_unlocker,
        }
    }
}

impl View for Game {
    type V = GameView;

    open spec fn view(&self) -> GameView {
        GameView { wine: self.wine, enhancements: self.enhancements@ }
    }
}

impl View for Config {
    type V = ConfigView;

    open spec fn view(&self) -> ConfigView {
        ConfigView { game: self.game@ }
    }
}

/// What the configuration holds in the field that one widget edits.
pub enum Cell {
    /// A setting that is on or off.
    Flag(bool),
    /// A position in a list of choices.
    Position(u32),
    /// A width and a height.
    Size(u64, u64),
    /// A number.
    Number(u64),
    /// A text.
    Text(Seq<char>),
}

impl ConfigView {
    /// What the configuration holds in the field that `widget` edits.
    /// Rows, the page itself and the settings button edit none.
    pub open spec fn cell(self, widget: Widget) -> Option<Cell> {
        let wine = self.game.wine;
        let enhancements = self.game.enhancements;
        let unlocker = enhancements.fps_unlocker.config;
        match widget {
            Widget::SyncCombo => Some(Cell::Position(wine.sync)),
            Widget::WineLang => Some(Cell::Position(wine.language)),
            Widget::Borderless => Some(Cell::Flag(wine.borderless)),
            Widget::VirtualDesktopRow => Some(
                Cell::Size(wine.virtual_desktop.width, wine.virtual_desktop.height),
            ),
            Widget::VirtualDesktop => Some(Cell::Flag(wine.virtual_desktop.enabled)),
            Widget::HudCombo => Some(Cell::Position(enhancements.hud)),
            Widget::FsrCombo => Some(Cell::Number(enhancements.fsr.strength)),
            Widget::FsrSwitcher => Some(Cell::Flag(enhancements.fsr.enabled)),
            Widget::DiscordRpc => Some(Cell::Flag(enhancements.discord_rpc.enabled)),
            Widget::DiscordRpcState => Some(Cell::Text(enhancements.discord_rpc.state)),
            Widget::DiscordRpcDesc => Some(Cell::Text(enhancements.discord_rpc.description)),
            Widget::GamemodeSwitcher => Some(Cell::Flag(enhancements.gamemode)),
            Widget::GamescopeSwitcher => Some(Cell::Flag(enhancements.gamescope.enabled)),
            Widget::FpsUnlockerSwitcher => Some(Cell::Flag(enhancements.fps_unlocker.enabled)),
            Widget::FpsUnlockerCombo => Some(Cell::Number(unlocker.fps)),
            Widget::FpsUnlockerPowerSavingSwitcher => Some(Cell::Flag(unlocker.power_saving)),
            Widget::FpsUnlockerMonitorNum => Some(Cell::Number(unlocker.monitor)),
            Widget::FpsUnlockerWindowModeCombo => Some(Cell::Number(unlocker.window_mode)),
            Widget::FpsUnlockerPriorityCombo => Some(Cell::Number(unlocker.priority)),
            _ => None,
        }
    }

    /// The sharpening strength as a combo row would take it: its low 32 bits.
    pub open spec fn sharpening_position(self) -> int {
        self.game.enhancements.fsr.strength as int % POSITION_RANGE as int
    }

    /// Whether the page can show this configuration: the sharpening strength
    /// has a place in the list of levels.
    pub open spec fn displayable(self) -> bool {
        self.sharpening_position() <= STRONGEST_SHARPENING
    }

    /// Whether the rows can hold what the configuration holds: the
    /// sharpening strength is a level of the list, and window mode and
    /// priority are positions.
    pub open spec fn fits_rows(self) -> bool {
        &&& self.game.enhancements.fsr.strength <= STRONGEST_SHARPENING
        &&& self.game.enhancements.fps_unlocker.config.window_mode < POSITION_RANGE
        &&& self.game.enhancements.fps_unlocker.config.priority < POSITION_RANGE
    }
}

impl Clone for DiscordRpc {
    fn clone(&self) -> (out: Self)
        ensures
            out@ == self@,
    {
        DiscordRpc {
            enabled: self.enabled,
            state: self.state.clone(),
            description: self.description.clone(),
        }
    }
}

impl Clone for Enhancements {
    fn clone(&self) -> (out: Self)
        ensures
            out@ == self@,
    {
        Enhancements {
            hud: self.hud,
            fsr: self.fsr,
            discord_rpc: self.discord_rpc.clone(),
            gamemode: self.gamemode,
            gamescope: self.gamescope,
            fps_unlocker: self.fps_unlocker,
        }
    }
}

impl Clone for Game {
    fn clone(&self) -> (out: Self)
        ensures
            out@ == self@,
    {
        Game { wine: self.wine, enhancements: self.enhancements.clone() }
    }
}

impl Clone for Config {
    fn clone(&self) -> (out: Self)
        ensures
            out@ == self@,
    {
        Config { game: self.game.clone() }
    }
}

impl Config {
    /// Tells whether the page can show this configuration.
    pub fn is_displayable(&self) -> (out: bool)
        ensures
            out == self@.displayable(),
    {
        self.game.enhancements.fsr.strength % POSITION_RANGE <= STRONGEST_SHARPENING as u64
    }
}

} // verus!
