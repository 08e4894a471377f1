//! The way through the application: which screen is shown, and what an
//! input leads to on each screen.

use vstd::prelude::*;
use crate::ai::difficulty::AiDifficulty;
use crate::game::GameAction;
use crate::input::AppInput;
use crate::menu::MenuChoice;

verus! {

/// How many difficulty presets there are to select from.
pub const DIFFICULTY_COUNT: usize = 4;

/// The last tab of the high-score screen.
pub const LAST_SCORE_TAB: usize = 2;

/// The screen that the application shows.
#[derive(Debug, Clone, Copy, PartialEq, Eq, Structural)]
pub enum AppState {
    Menu,
    DifficultySelect,
    Playing,
    Paused,
    GameOver,
    HighScores,
    Quitting,
}

/// What the application has to do after an input was taken in.
#[derive(Debug, Clone, Copy, PartialEq, Eq, Structural)]
pub enum Command {
    /// Nothing beyond showing the screen that is now current.
    Stay,
    /// Leave the application.
    Exit,
    /// Move the cursor of the main menu up.
    MenuUp,
    /// Move the cursor of the main menu down.
    MenuDown,
    StartSprint,
    StartEndless,
    StartVersus(AiDifficulty),
    /// Apply an action to the game.
    Play(GameAction),
    /// Start the same kind of game again.
    Restart,
    /// Let go of all held keys; the game pauses.
    ReleaseKeys,
    /// Stop taking game input; with the flag set, also let go of all held keys.
    LeaveGame { release_keys: bool },
}

/// The preset at a position of the difficulty selection.
pub open spec fn difficulty_at(position: usize) -> AiDifficulty {
    if position == 0 {
        AiDifficulty::Easy
    } else if position == 1 {
        AiDifficulty::Medium
    } else if position == 2 {
        AiDifficulty::Hard
    } else {
        AiDifficulty::Expert
    }
}

/// Where the application stands: the screen, the cursor of the difficulty
/// selection and the tab of the high-score screen.
#[derive(Debug, Clone, Copy, PartialEq, Eq, Structural)]
pub struct Flow {
    pub state: AppState,
    pub difficulty_selected: usize,
    pub hs_tab: usize,
}

impl Flow {
    /// Where the application starts: in the main menu, with the second
    /// preset selected and the first tab open.
    pub open spec fn spec_new() -> Flow {
        Flow { state: AppState::Menu, difficulty_selected: 1, hs_tab: 0 }
    }

    /// Where the application stands after an input, given what the entry
    /// under the cursor of the main menu offers.
    pub open spec fn after_input(self, input: AppInput, choice: MenuChoice) -> Flow {
        match self.state {
            AppState::Menu => match input {
                AppInput::MenuSelect => match choice {
                    MenuChoice::Sprint | MenuChoice::Endless => Flow {
                        state: AppState::Playing,
                        ..self
                    },
                    MenuChoice::Versus => Flow { state: AppState::DifficultySelect, ..self },
                    MenuChoice::HighScores => Flow { state: AppState::HighScores, ..self },
                    MenuChoice::Quit => self,
                },
                _ => self,
            },
            AppState::DifficultySelect => match input {
                AppInput::MenuUp => Flow {
                    difficulty_selected: if self.difficulty_selected > 0 {
                        (self.difficulty_selected - 1) as usize
                    } else {
                        3
                    },
                    ..self
                },
                AppInput::MenuDown => Flow {
                    difficulty_selected: ((self.difficulty_selected + 1) % 4) as usize,
                    ..self
                },
                AppInput::MenuSelect => Flow { state: AppState::Playing, ..self },
                AppInput::MenuBack | AppInput::Quit => Flow { state: AppState::Menu, ..self },
                _ => self,
            },
            AppState::Playing => match input {
                AppInput::Pause => Flow { state: AppState::Paused, ..self },
                AppInput::Quit => Flow { state: AppState::Menu, ..self },
                _ => self,
            },
            AppState::Paused => match input {
                AppInput::Pause | AppInput::Restart => Flow { state: AppState::Playing, ..self },
                AppInput::Quit | AppInput::MenuBack => Flow { state: AppState::Menu, ..self },
                _ => self,
            },
            AppState::GameOver => match input {
                AppInput::Restart | AppInput::MenuSelect => Flow {
                    state: AppState::Playing,
                    ..self
                },
                AppInput::MenuBack | AppInput::Quit => Flow { state: AppState::Menu, ..self },
                _ => self,
            },
            AppState::HighScores => match input {
                AppInput::MenuBack | AppInput::Quit => Flow { state: AppState::Menu, ..self },
                AppInput::MenuLeft => Flow {
                    hs_tab: if self.hs_tab > 0 {
                        (self.hs_tab - 1) as usize
                    } else {
                        self.hs_tab
                    },
                    ..self
                },
                AppInput::MenuRight => Flow {
                    hs_tab: if self.hs_tab < 2 {
                        (self.hs_tab + 1) as usize
                    } else {
                        self.hs_tab
                    },
                    ..self
                },
                _ => self,
            },
            AppState::Quitting => self,
        }
    }

    /// What the application has to do after an input, given what the entry
    /// under the cursor of the main menu offers.
    pub open spec fn command(self, input: AppInput, choice: MenuChoice) -> Command {
        match self.state {
            AppState::Menu => match input {
                AppInput::MenuUp => Command::MenuUp,
                AppInput::MenuDown => Command::MenuDown,
                AppInput::MenuSelect => match choice {
                    MenuChoice::Sprint => Command::StartSprint,
                    MenuChoice::Endless => Command::StartEndless,
                    MenuChoice::Versus | MenuChoice::HighScores => Command::Stay,
                    MenuChoice::Quit => Command::Exit,
                },
                AppInput::Quit | AppInput::MenuBack => Command::Exit,
                _ => Command::Stay,
            },
            AppState::DifficultySelect => match input {
                AppInput::MenuSelect => Command::StartVersus(
                    difficulty_at(self.difficulty_selected),
                ),
                _ => Command::Stay,
            },
            AppState::Playing => match input {
                AppInput::Game(action) => Command::Play(action),
                AppInput::Pause => Command::ReleaseKeys,
                AppInput::Restart => Command::Restart,
                AppInput::Quit => Command::LeaveGame { release_keys: true },
                _ => Command::Stay,
            },
            AppState::Paused => match input {
                AppInput::Restart => Command::Restart,
                AppInput::Quit | AppInput::MenuBack => Command::LeaveGame { release_keys: true },
                _ => Command::Stay,
            },
            AppState::GameOver => match input {
                AppInput::Restart | AppInput::MenuSelect => Command::Restart,
                AppInput::MenuBack | AppInput::Quit => Command::LeaveGame { release_keys: false },
                _ => Command::Stay,
            },
            AppState::HighScores => Command::Stay,
            AppState::Quitting => Command::Exit,
        }
    }

    /// Where the application starts.
    pub fn new() -> (flow: Flow)
        ensures
            flow == Self::spec_new(),
    {
        Flow { state: AppState::Menu, difficulty_selected: 1, hs_tab: 0 }
    }

    /// Takes in one input, moves to the screen it leads to, and returns what
    /// the application has to do. `choice` is what the entry under the
    /// cursor of the main menu offers.
    pub fn handle_input(&mut self, input: AppInput, choice: MenuChoice) -> (command: Command)
        requires
            old(self).state is DifficultySelect && input is MenuDown
                ==> old(self).difficulty_selected < usize::MAX,
        ensures
            *final(self) == old(self).after_input(input, choice),
            command == old(self).command(input, choice),
    {
        match self.state {
            AppState::Menu => match input {
                AppInput::MenuUp => Command::MenuUp,
                AppInput::MenuDown => Command::MenuDown,
                AppInput::MenuSelect => match choice {
                    MenuChoice::Sprint => {
                        self.state = AppState::Playing;
                        Command::StartSprint
                    },
                    MenuChoice::Endless => {
                        self.state = AppState::Playing;
                        Command::StartEndless
                    },
                    MenuChoice::Versus => {
                        self.state = AppState::DifficultySelect;
                        Command::Stay
                    },
                    MenuChoice::HighScores => {
                        self.state = AppState::HighScores;
                        Command::Stay
                    },
                    MenuChoice::Quit => Command::Exit,
                },
                AppInput::Quit | AppInput::MenuBack => Command::Exit,
                _ => Command::Stay,
            },
            AppState::DifficultySelect => match input {
                AppInput::MenuUp => {
                    if self.difficulty_selected > 0 {
                        self.difficulty_selected -= 1;
                    } else {
                        self.difficulty_selected = DIFFICULTY_COUNT - 1;
                    }
                    Command::Stay
                },
                AppInput::MenuDown => {
                    self.difficulty_selected = (self.difficulty_selected + 1) % DIFFICULTY_COUNT;
                    Command::Stay
                },
                AppInput::MenuSelect => {
                    let diff = match self.difficulty_selected {
                        0 => AiDifficulty::Easy,
                        1 => AiDifficulty::Medium,
                        2 => AiDifficulty::Hard,
                        _ => AiDifficulty::Expert,
                    };
                    self.state = AppState::Playing;
                    Command::StartVersus(diff)
                },
                AppInput::MenuBack | AppInput::Quit => {
                    self.state = AppState::Menu;
                    Command::Stay
                },
                _ => Command::Stay,
            },
            AppState::Playing => match input {
                AppInput::Game(action) => Command::Play(action),
                AppInput::Pause => {
                    self.state = AppState::Paused;
                    Command::ReleaseKeys
                },
                AppInput::Restart => Command::Restart,
                AppInput::Quit => {
                    self.state = AppState::Menu;
                    Command::LeaveGame { release_keys: true }
                },
                _ => Command::Stay,
            },
            AppState::Paused => match input {
                AppInput::Pause => {
                    self.state = AppState::Playing;
                    Command::Stay
                },
                AppInput::Restart => {
                    self.state = AppState::Playing;
                    Command::Restart
                },
                AppInput::Quit | AppInput::MenuBack => {
                    self.state = AppState::Menu;
                    Command::LeaveGame { release_keys: true }
                },
                _ => Command::Stay,
            },
            AppState::GameOver => match input {
                AppInput::Restart | AppInput::MenuSelect => {
                    self.state = AppState::Playing;
                    Command::Restart
                },
                AppInput::MenuBack | AppInput::Quit => {
                    self.state = AppState::Menu;
                    Command::LeaveGame { release_keys: false }
                },
                _ => Command::Stay,
            },
            AppState::HighScores => match input {
                AppInput::MenuBack | AppInput::Quit => {
                    self.state = AppState::Menu;
                    Command::Stay
                },
                AppInput::MenuLeft => {
                    if self.hs_tab > 0 {
                        self.hs_tab -= 1;
                    }
                    Command::Stay
                },
                AppInput::MenuRight => {
                    if self.hs_tab < LAST_SCORE_TAB {
                        self.hs_tab += 1;
                    }
                    Command::Stay
                },
                _ => Command::Stay,
            },
            AppState::Quitting => Command::Exit,
        }
    }
}

} // verus!
