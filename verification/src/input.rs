//! Input: keys, bindings, the timing of held keys, and the handler that
//! turns key events into what the game and the menus understand.

pub mod das;
pub mod keybinds;

use vstd::prelude::*;
use self::das::{DasHandler, DasState};
use self::keybinds::{resolve_from, Action, Key, KeybindMap};
use crate::game::GameAction;
use crate::time::Duration;

verus! {

/// What happened to a key.
#[derive(Debug, Clone, Copy, PartialEq, Eq, Structural)]
pub enum KeyEventKind {
    Press,
    Repeat,
    Release,
}

/// What the application is asked to do.
#[derive(Debug, Clone, Copy, PartialEq, Eq, Structural)]
pub enum AppInput {
    Game(GameAction),
    Pause,
    Quit,
    Restart,
    MenuUp,
    MenuDown,
    MenuLeft,
    MenuRight,
    MenuSelect,
    MenuBack,
    /// Nothing.
    Idle,
}

/// What a game action asks of the application; nothing for a menu action.
pub open spec fn game_input(action: Action) -> Option<AppInput> {
    match action {
        Action::MoveLeft => Some(AppInput::Game(GameAction::MoveLeft)),
        Action::MoveRight => Some(AppInput::Game(GameAction::MoveRight)),
        Action::SoftDrop => Some(AppInput::Game(GameAction::SoftDrop)),
        Action::HardDrop => Some(AppInput::Game(GameAction::HardDrop)),
        Action::RotateCW => Some(AppInput::Game(GameAction::RotateCW)),
        Action::RotateCCW => Some(AppInput::Game(GameAction::RotateCCW)),
        Action::Rotate180 => Some(AppInput::Game(GameAction::Rotate180)),
        Action::Hold => Some(AppInput::Game(GameAction::Hold)),
        Action::Pause => Some(AppInput::Pause),
        Action::Quit => Some(AppInput::Quit),
        Action::Restart => Some(AppInput::Restart),
        _ => None,
    }
}

/// What a menu action asks of the application; nothing for a game action.
pub open spec fn menu_input(action: Action) -> Option<AppInput> {
    match action {
        Action::MenuUp => Some(AppInput::MenuUp),
        Action::MenuDown => Some(AppInput::MenuDown),
        Action::MenuLeft => Some(AppInput::MenuLeft),
        Action::MenuRight => Some(AppInput::MenuRight),
        Action::MenuSelect => Some(AppInput::MenuSelect),
        Action::MenuBack => Some(AppInput::MenuBack),
        Action::Quit => Some(AppInput::Quit),
        _ => None,
    }
}

/// The inputs of a key event in a game on a terminal that reports releases:
/// a press gives the action of the key, the release of the soft-drop key
/// ends the soft drop, and repeats give nothing, since held keys are timed.
pub open spec fn inputs_with_release(action: Option<Action>, kind: KeyEventKind) -> Seq<AppInput> {
    match (kind, action) {
        (KeyEventKind::Press, Some(a)) => match game_input(a) {
            Some(input) => seq![input],
            None => seq![],
        },
        (KeyEventKind::Release, Some(Action::SoftDrop)) => seq![
            AppInput::Game(GameAction::SoftDropRelease),
        ],
        _ => seq![],
    }
}

/// The timing of held keys after a key event in a game on a terminal that
/// reports releases. Pressing a move key lets go of the opposite one.
pub open spec fn das_after_key(
    das: DasHandler,
    action: Option<Action>,
    kind: KeyEventKind,
) -> DasHandler {
    let held = DasState {
        pressed: true,
        phase: das::DasPhase::Charging,
        timer: Duration { nanos: 0 },
    };
    match (kind, action) {
        (KeyEventKind::Press, Some(Action::MoveLeft)) => DasHandler {
            right: DasState::spec_new(),
            left: held,
            ..das
        },
        (KeyEventKind::Press, Some(Action::MoveRight)) => DasHandler {
            left: DasState::spec_new(),
            right: held,
            ..das
        },
        (KeyEventKind::Press, Some(Action::SoftDrop)) => DasHandler { soft_drop: held, ..das },
        (KeyEventKind::Release, Some(Action::MoveLeft)) => DasHandler {
            left: DasState::spec_new(),
            ..das
        },
        (KeyEventKind::Release, Some(Action::MoveRight)) => DasHandler {
            right: DasState::spec_new(),
            ..das
        },
        (KeyEventKind::Release, Some(Action::SoftDrop)) => DasHandler {
            soft_drop: DasState::spec_new(),
            ..das
        },
        _ => das,
    }
}

/// The inputs of a key event in a game on a terminal that reports no
/// releases: every press and repeat gives the action of the key, but a hard
/// drop and a hold only on the press, and a soft drop ends at once.
pub open spec fn inputs_without_release(action: Option<Action>, kind: KeyEventKind) -> Seq<
    AppInput,
> {
    if kind is Release {
        seq![]
    } else {
        match action {
            Some(Action::SoftDrop) => seq![
                AppInput::Game(GameAction::SoftDrop),
                AppInput::Game(GameAction::SoftDropRelease),
            ],
            Some(Action::HardDrop) | Some(Action::Hold) => if kind is Press {
                seq![game_input(action->0)->0]
            } else {
                seq![]
            },
            Some(a) => match game_input(a) {
                Some(input) => seq![input],
                None => seq![],
            },
            None => seq![],
        }
    }
}

/// The input of a key event in a menu: the action of the key on a press.
pub open spec fn inputs_in_menu(action: Option<Action>, kind: KeyEventKind) -> Seq<AppInput> {
    match (kind, action) {
        (KeyEventKind::Press, Some(a)) => match menu_input(a) {
            Some(input) => seq![input],
            None => seq![],
        },
        _ => seq![],
    }
}

/// `count` times the same action.
pub open spec fn repeated(action: GameAction, count: int) -> Seq<GameAction> {
    Seq::new(
        if count >= 0 {
            count as nat
        } else {
            0
        },
        |i: int| action,
    )
}

/// Turns key events into inputs and times the keys that are held.
#[derive(Debug, Clone)]
pub struct InputHandler {
    pub keybinds: KeybindMap,
    pub das: DasHandler,
    /// Whether a game runs, rather than a menu.
    pub in_game: bool,
    /// Whether the terminal reports the release of keys. Without that, held
    /// keys are not timed, and each press or repeat counts once.
    pub has_key_release: bool,
}

impl InputHandler {
    /// The inputs that a key event gives.
    pub open spec fn key_inputs(self, key: Key, kind: KeyEventKind) -> Seq<AppInput> {
        if self.in_game {
            let action = resolve_from(self.keybinds@, key, true, 0);
            if self.has_key_release {
                inputs_with_release(action, kind)
            } else {
                inputs_without_release(action, kind)
            }
        } else {
            inputs_in_menu(resolve_from(self.keybinds@, key, false, 0), kind)
        }
    }

    /// The timing of held keys after a key event.
    pub open spec fn key_das(self, key: Key, kind: KeyEventKind) -> DasHandler {
        if self.in_game && self.has_key_release {
            das_after_key(self.das, resolve_from(self.keybinds@, key, true, 0), kind)
        } else {
            self.das
        }
    }

    /// Whether held keys are timed: in a game on a terminal that reports releases.
    pub open spec fn times_keys(self) -> bool {
        self.in_game && self.has_key_release
    }

    /// A handler with the default bindings, for a menu.
    pub fn new(has_key_release: bool) -> (handler: InputHandler)
        ensures
            handler.keybinds@ == keybinds::default_binds(),
            handler.das == DasHandler::spec_new(),
            !handler.in_game,
            handler.has_key_release == has_key_release,
    {
        InputHandler {
            keybinds: KeybindMap::new(),
            das: DasHandler::new(),
            in_game: false,
            has_key_release,
        }
    }

    /// Takes in a key event and adds the inputs it gives to `actions`.
    pub fn process_key(&mut self, key: Key, kind: KeyEventKind, actions: &mut Vec<AppInput>)
        ensures
            final(actions)@ == old(actions)@ + old(self).key_inputs(key, kind),
            final(self).das == old(self).key_das(key, kind),
            final(self).keybinds == old(self).keybinds,
            final(self).in_game == old(self).in_game,
            final(self).has_key_release == old(self).has_key_release,
    {
        if self.in_game {
            self.process_game_key(key, kind, actions);
        } else if let Some(a) = self.process_menu_key(key, kind) {
            actions.push(a);
            assert(actions@ =~= old(actions)@ + seq![a]);
        } else {
            assert(actions@ =~= old(actions)@ + Seq::<AppInput>::empty());
        }
    }

    fn process_game_key(&mut self, key: Key, kind: KeyEventKind, actions: &mut Vec<AppInput>)
        ensures
            final(actions)@ == old(actions)@ + if old(self).has_key_release {
                inputs_with_release(resolve_from(old(self).keybinds@, key, true, 0), kind)
            } else {
                inputs_without_release(resolve_from(old(self).keybinds@, key, true, 0), kind)
            },
            final(self).das == if old(self).has_key_release {
                das_after_key(old(self).das, resolve_from(old(self).keybinds@, key, true, 0), kind)
            } else {
                old(self).das
            },
            final(self).keybinds == old(self).keybinds,
            final(self).in_game == old(self).in_game,
            final(self).has_key_release == old(self).has_key_release,
    {
        if self.has_key_release {
            self.process_game_key_with_release(key, kind, actions);
        } else {
            self.process_game_key_no_release(key, kind, actions);
        }
    }

    /// A key event in a game on a terminal that reports releases.
    fn process_game_key_with_release(
        &mut self,
        key: Key,
        kind: KeyEventKind,
        actions: &mut Vec<AppInput>,
    )
        ensures
            final(actions)@ == old(actions)@ + inputs_with_release(
                resolve_from(old(self).keybinds@, key, true, 0),
                kind,
            ),
            final(self).das == das_after_key(
                old(self).das,
                resolve_from(old(self).keybinds@, key, true, 0),
                kind,
            ),
            final(self).keybinds == old(self).keybinds,
            final(self).in_game == old(self).in_game,
            final(self).has_key_release == old(self).has_key_release,
    {
        let ghost before = actions@;
        match kind {
            KeyEventKind::Press => {
                let action = match self.keybinds.resolve_game(key) {
                    Some(action) => action,
                    None => {
                        assert(actions@ =~= before + Seq::<AppInput>::empty());
                        return ;
                    },
                };
                match action {
                    Action::MoveLeft => {
                        self.das.right.release();
                        self.das.left.press();
                        actions.push(AppInput::Game(GameAction::MoveLeft));
                    },
                    Action::MoveRight => {
                        self.das.left.release();
                        self.das.right.press();
                        actions.push(AppInput::Game(GameAction::MoveRight));
                    },
                    Action::SoftDrop => {
                        self.das.soft_drop.press();
                        actions.push(AppInput::Game(GameAction::SoftDrop));
                    },
                    Action::HardDrop => actions.push(AppInput::Game(GameAction::HardDrop)),
                    Action::RotateCW => actions.push(AppInput::Game(GameAction::RotateCW)),
                    Action::RotateCCW => actions.push(AppInput::Game(GameAction::RotateCCW)),
                    Action::Rotate180 => actions.push(AppInput::Game(GameAction::Rotate180)),
                    Action::Hold => actions.push(AppInput::Game(GameAction::Hold)),
                    Action::Pause => actions.push(AppInput::Pause),
                    Action::Quit => actions.push(AppInput::Quit),
                    Action::Restart => actions.push(AppInput::Restart),
                    _ => {},
                }
                assert(actions@ =~= before + inputs_with_release(Some(action), kind));
            },
            KeyEventKind::Release => {
                let action = self.keybinds.resolve_game(key);
                match action {
                    Some(Action::MoveLeft) => {
                        self.das.left.release();
                    },
                    Some(Action::MoveRight) => {
                        self.das.right.release();
                    },
                    Some(Action::SoftDrop) => {
                        self.das.soft_drop.release();
                        actions.push(AppInput::Game(GameAction::SoftDropRelease));
                    },
                    _ => {},
                }
                assert(actions@ =~= before + inputs_with_release(action, kind));
            },
            _ => {
                assert(actions@ =~= before + Seq::<AppInput>::empty());
            },
        }
    }

    /// A key event in a game on a terminal that reports no releases.
    fn process_game_key_no_release(
        &mut self,
        key: Key,
        kind: KeyEventKind,
        actions: &mut Vec<AppInput>,
    )
        ensures
            final(actions)@ == old(actions)@ + inputs_without_release(
                resolve_from(old(self).keybinds@, key, true, 0),
                kind,
            ),
            *final(self) == *old(self),
    {
        let ghost before = actions@;
        match kind {
            KeyEventKind::Press | KeyEventKind::Repeat => {
                let action = match self.keybinds.resolve_game(key) {
                    Some(action) => action,
                    None => {
                        assert(actions@ =~= before + Seq::<AppInput>::empty());
                        return ;
                    },
                };
                match action {
                    Action::MoveLeft => actions.push(AppInput::Game(GameAction::MoveLeft)),
                    Action::MoveRight => actions.push(AppInput::Game(GameAction::MoveRight)),
                    Action::SoftDrop => {
                        actions.push(AppInput::Game(GameAction::SoftDrop));
                        actions.push(AppInput::Game(GameAction::SoftDropRelease));
                    },
                    Action::HardDrop => {
                        if kind == KeyEventKind::Press {
                            actions.push(AppInput::Game(GameAction::HardDrop));
                        }
                    },
                    Action::RotateCW => actions.push(AppInput::Game(GameAction::RotateCW)),
                    Action::RotateCCW => actions.push(AppInput::Game(GameAction::RotateCCW)),
                    Action::Rotate180 => actions.push(AppInput::Game(GameAction::Rotate180)),
                    Action::Hold => {
                        if kind == KeyEventKind::Press {
                            actions.push(AppInput::Game(GameAction::Hold));
                        }
                    },
                    Action::Pause => actions.push(AppInput::Pause),
                    Action::Quit => actions.push(AppInput::Quit),
                    Action::Restart => actions.push(AppInput::Restart),
                    _ => {},
                }
                assert(actions@ =~= before + inputs_without_release(Some(action), kind));
            },
            _ => {
                assert(actions@ =~= before + Seq::<AppInput>::empty());
            },
        }
    }

    /// A key event in a menu.
    fn process_menu_key(&mut self, key: Key, kind: KeyEventKind) -> (input: Option<AppInput>)
        ensures
            inputs_in_menu(resolve_from(old(self).keybinds@, key, false, 0), kind) == match input {
                Some(i) => seq![i],
                None => seq![],
            },
            *final(self) == *old(self),
    {
        if kind != KeyEventKind::Press {
            return None;
        }
        let action = match self.keybinds.resolve_menu(key) {
            Some(action) => action,
            None => {
                return None;
            },
        };
        match action {
            Action::MenuUp => Some(AppInput::MenuUp),
            Action::MenuDown => Some(AppInput::MenuDown),
            Action::MenuLeft => Some(AppInput::MenuLeft),
            Action::MenuRight => Some(AppInput::MenuRight),
            Action::MenuSelect => Some(AppInput::MenuSelect),
            Action::MenuBack => Some(AppInput::MenuBack),
            Action::Quit => Some(AppInput::Quit),
            _ => None,
        }
    }

    /// Lets `dt` pass for the held keys and returns the moves that their
    /// repeats make: those to the left, then those to the right. Outside a
    /// game, and on a terminal that reports no releases, nothing is timed.
    pub fn tick_das(&mut self, dt: Duration) -> (actions: Vec<GameAction>)
        requires
            old(self).times_keys() ==> old(self).das.tick_fits(dt),
        ensures
            !old(self).times_keys() ==> actions@.len() == 0 && final(self).das == old(self).das,
            old(self).times_keys() ==> actions@ == repeated(
                GameAction::MoveLeft,
                old(self).das.left.tick_moves(dt, old(self).das.das_delay, old(self).das.arr_delay),
            ) + repeated(
                GameAction::MoveRight,
                old(self).das.right.tick_moves(
                    dt,
                    old(self).das.das_delay,
                    old(self).das.arr_delay,
                ),
            ) && final(self).das == old(self).das.after_tick(dt),
            final(self).keybinds == old(self).keybinds,
            final(self).in_game == old(self).in_game,
            final(self).has_key_release == old(self).has_key_release,
    {
        if !self.in_game || !self.has_key_release {
            return Vec::new();
        }
        let (left, right, _sd) = self.das.tick(dt);
        let mut actions: Vec<GameAction> = Vec::new();
        let mut i: u32 = 0;
        while i < left
            invariant
                i <= left,
                actions@ == repeated(GameAction::MoveLeft, i as int),
            decreases left - i,
        {
            actions.push(GameAction::MoveLeft);
            assert(actions@ =~= repeated(GameAction::MoveLeft, i + 1));
            i += 1;
        }
        let mut j: u32 = 0;
        while j < right
            invariant
                j <= right,
                actions@ == repeated(GameAction::MoveLeft, left as int) + repeated(
                    GameAction::MoveRight,
                    j as int,
                ),
            decreases right - j,
        {
            actions.push(GameAction::MoveRight);
            assert(actions@ =~= repeated(GameAction::MoveLeft, left as int) + repeated(
                GameAction::MoveRight,
                j + 1,
            ));
            j += 1;
        }
        actions
    }

    /// Lets go of every held key.
    pub fn reset_das(&mut self)
        ensures
            final(self).das == (DasHandler {
                left: DasState::spec_new(),
                right: DasState::spec_new(),
                soft_drop: DasState::spec_new(),
                ..old(self).das
            }),
            final(self).keybinds == old(self).keybinds,
            final(self).in_game == old(self).in_game,
            final(self).has_key_release == old(self).has_key_release,
    {
        self.das.reset();
    }
}

} // verus!
