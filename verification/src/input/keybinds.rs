//! Keys and the actions bound to them.

use vstd::prelude::*;
use crate::text::string_from_chars;

verus! {

/// A key of the keyboard, as far as the game tells keys apart.
#[derive(Debug, Clone, Copy, PartialEq, Eq, Hash, Structural)]
pub enum Key {
    Char(char),
    Left,
    Right,
    Up,
    Down,
    Enter,
    Esc,
    Tab,
    Backspace,
    /// Any other key.
    Other,
}

/// Everything that a key can be bound to.
#[derive(Debug, Clone, Copy, PartialEq, Eq, Hash, Structural)]
pub enum Action {
    MoveLeft,
    MoveRight,
    SoftDrop,
    HardDrop,
    RotateCW,
    RotateCCW,
    Rotate180,
    Hold,
    Pause,
    Quit,
    Restart,
    MenuUp,
    MenuDown,
    MenuLeft,
    MenuRight,
    MenuSelect,
    MenuBack,
}

/// An action and the keys that trigger it.
#[derive(Debug, Clone)]
pub struct Keybind {
    pub action: Action,
    pub keys: Vec<Key>,
}

impl View for Keybind {
    type V = (Action, Seq<Key>);

    open spec fn view(&self) -> (Action, Seq<Key>) {
        (self.action, self.keys@)
    }
}

/// What a list of bindings stands for.
pub open spec fn binds_view(binds: Seq<Keybind>) -> Seq<(Action, Seq<Key>)> {
    Seq::new(binds.len(), |i: int| binds[i]@)
}

/// Whether an action is taken while a game runs.
pub open spec fn is_game_action(action: Action) -> bool {
    action is MoveLeft || action is MoveRight || action is SoftDrop || action is HardDrop
        || action is RotateCW || action is RotateCCW || action is Rotate180 || action is Hold
        || action is Pause || action is Quit || action is Restart
}

/// Whether an action is taken in a menu.
pub open spec fn is_menu_action(action: Action) -> bool {
    action is MenuUp || action is MenuDown || action is MenuLeft || action is MenuRight
        || action is MenuSelect || action is MenuBack || action is Quit
}

/// Whether an action is taken in the given context.
pub open spec fn in_context(action: Action, in_game: bool) -> bool {
    if in_game {
        is_game_action(action)
    } else {
        is_menu_action(action)
    }
}

/// The action of the first binding, from position `from` on, that lists
/// `key` and whose action belongs to the context.
pub open spec fn resolve_from(
    binds: Seq<(Action, Seq<Key>)>,
    key: Key,
    in_game: bool,
    from: int,
) -> Option<Action>
    decreases binds.len() - from,
{
    if from < 0 || from >= binds.len() {
        None
    } else if binds[from].1.contains(key) && in_context(binds[from].0, in_game) {
        Some(binds[from].0)
    } else {
        resolve_from(binds, key, in_game, from + 1)
    }
}

/// The first key of the first binding, from position `from` on, for `action`
/// that has a key.
pub open spec fn primary_key_from(
    binds: Seq<(Action, Seq<Key>)>,
    action: Action,
    from: int,
) -> Option<Key>
    decreases binds.len() - from,
{
    if from < 0 || from >= binds.len() {
        None
    } else if binds[from].0 == action && binds[from].1.len() > 0 {
        Some(binds[from].1[0])
    } else {
        primary_key_from(binds, action, from + 1)
    }
}

/// The bindings that the game starts with: the home row moves and drops,
/// the row below turns, and the arrows do what they show.
pub open spec fn default_binds() -> Seq<(Action, Seq<Key>)> {
    seq![
        (Action::MoveLeft, seq![Key::Char('h'), Key::Left]),
        (Action::MoveRight, seq![Key::Char('l'), Key::Right]),
        (Action::SoftDrop, seq![Key::Char('j'), Key::Down]),
        (Action::HardDrop, seq![Key::Char('k'), Key::Up, Key::Char(' ')]),
        (Action::RotateCW, seq![Key::Char('f'), Key::Char('x')]),
        (Action::RotateCCW, seq![Key::Char('d'), Key::Char('z')]),
        (Action::Rotate180, seq![Key::Char('s'), Key::Char('a')]),
        (Action::Hold, seq![Key::Char('g'), Key::Char('c')]),
        (Action::Pause, seq![Key::Esc, Key::Char('p')]),
        (Action::Quit, seq![Key::Char('q')]),
        (Action::Restart, seq![Key::Char('r')]),
        (Action::MenuUp, seq![Key::Char('k'), Key::Up]),
        (Action::MenuDown, seq![Key::Char('j'), Key::Down]),
        (Action::MenuLeft, seq![Key::Char('h'), Key::Left]),
        (Action::MenuRight, seq![Key::Char('l'), Key::Right]),
        (Action::MenuSelect, seq![Key::Enter, Key::Char(' ')]),
        (Action::MenuBack, seq![Key::Esc, Key::Char('q')]),
    ]
}

/// What a key is shown as.
pub open spec fn key_text(key: Key) -> Seq<char> {
    match key {
        Key::Char(c) => if c == ' ' {
            "Space"@
        } else {
            seq![c]
        },
        Key::Left => "←"@,
        Key::Right => "→"@,
        Key::Up => "↑"@,
        Key::Down => "↓"@,
        Key::Enter => "Enter"@,
        Key::Esc => "Esc"@,
        Key::Tab => "Tab"@,
        Key::Backspace => "Bksp"@,
        Key::Other => "?"@,
    }
}

/// A binding of an action to one key.
fn bind1(action: Action, a: Key) -> (bind: Keybind)
    ensures
        bind@ == (action, seq![a]),
{
    let mut keys: Vec<Key> = Vec::new();
    keys.push(a);
    assert(keys@ =~= seq![a]);
    Keybind { action, keys }
}

/// A binding of an action to two keys.
fn bind2(action: Action, a: Key, b: Key) -> (bind: Keybind)
    ensures
        bind@ == (action, seq![a, b]),
{
    let mut keys: Vec<Key> = Vec::new();
    keys.push(a);
    keys.push(b);
    assert(keys@ =~= seq![a, b]);
    Keybind { action, keys }
}

/// A binding of an action to three keys.
fn bind3(action: Action, a: Key, b: Key, c: Key) -> (bind: Keybind)
    ensures
        bind@ == (action, seq![a, b, c]),
{
    let mut keys: Vec<Key> = Vec::new();
    keys.push(a);
    keys.push(b);
    keys.push(c);
    assert(keys@ =~= seq![a, b, c]);
    Keybind { action, keys }
}

/// The bindings that the game starts with.
pub fn default_keybinds() -> (binds: Vec<Keybind>)
    ensures
        binds_view(binds@) == default_binds(),
{
    let mut binds: Vec<Keybind> = Vec::new();
    binds.push(bind2(Action::MoveLeft, Key::Char('h'), Key::Left));
    binds.push(bind2(Action::MoveRight, Key::Char('l'), Key::Right));
    binds.push(bind2(Action::SoftDrop, Key::Char('j'), Key::Down));
    binds.push(bind3(Action::HardDrop, Key::Char('k'), Key::Up, Key::Char(' ')));
    binds.push(bind2(Action::RotateCW, Key::Char('f'), Key::Char('x')));
    binds.push(bind2(Action::RotateCCW, Key::Char('d'), Key::Char('z')));
    binds.push(bind2(Action::Rotate180, Key::Char('s'), Key::Char('a')));
    binds.push(bind2(Action::Hold, Key::Char('g'), Key::Char('c')));
    binds.push(bind2(Action::Pause, Key::Esc, Key::Char('p')));
    binds.push(bind1(Action::Quit, Key::Char('q')));
    binds.push(bind1(Action::Restart, Key::Char('r')));
    binds.push(bind2(Action::MenuUp, Key::Char('k'), Key::Up));
    binds.push(bind2(Action::MenuDown, Key::Char('j'), Key::Down));
    binds.push(bind2(Action::MenuLeft, Key::Char('h'), Key::Left));
    binds.push(bind2(Action::MenuRight, Key::Char('l'), Key::Right));
    binds.push(bind2(Action::MenuSelect, Key::Enter, Key::Char(' ')));
    binds.push(bind2(Action::MenuBack, Key::Esc, Key::Char('q')));
    assert(binds_view(binds@) =~= default_binds());
    binds
}

/// The bindings in force.
#[derive(Debug, Clone)]
pub struct KeybindMap {
    binds: Vec<Keybind>,
}

impl View for KeybindMap {
    type V = Seq<(Action, Seq<Key>)>;

    closed spec fn view(&self) -> Seq<(Action, Seq<Key>)> {
        binds_view(self.binds@)
    }
}

impl KeybindMap {
    /// The default bindings.
    pub fn new() -> (map: KeybindMap)
        ensures
            map@ == default_binds(),
    {
        KeybindMap { binds: default_keybinds() }
    }

    /// The action of the first binding that lists `key` and whose action
    /// belongs to the given context.
    fn resolve(&self, key: Key, in_game: bool) -> (action: Option<Action>)
        ensures
            action == resolve_from(self@, key, in_game, 0),
    {
        let mut i: usize = 0;
        while i < self.binds.len()
            invariant
                i <= self.binds@.len(),
                resolve_from(self@, key, in_game, i as int) == resolve_from(self@, key, in_game, 0),
            decreases self.binds@.len() - i,
        {
            let bind = &self.binds[i];
            assert(self@[i as int] == bind@);
            if lists(&bind.keys, key) {
                let fits = if in_game {
                    match bind.action {
                        Action::MoveLeft
                        | Action::MoveRight
                        | Action::SoftDrop
                        | Action::HardDrop
                        | Action::RotateCW
                        | Action::RotateCCW
                        | Action::Rotate180
                        | Action::Hold
                        | Action::Pause
                        | Action::Quit
                        | Action::Restart => true,
                        _ => false,
                    }
                } else {
                    match bind.action {
                        Action::MenuUp
                        | Action::MenuDown
                        | Action::MenuLeft
                        | Action::MenuRight
                        | Action::MenuSelect
                        | Action::MenuBack
                        | Action::Quit => true,
                        _ => false,
                    }
                };
                if fits {
                    return Some(bind.action);
                }
            }
            i += 1;
        }
        None
    }

    /// The action that `key` triggers while a game runs.
    pub fn resolve_game(&self, key: Key) -> (action: Option<Action>)
        ensures
            action == resolve_from(self@, key, true, 0),
    {
        self.resolve(key, true)
    }

    /// The action that `key` triggers in a menu.
    pub fn resolve_menu(&self, key: Key) -> (action: Option<Action>)
        ensures
            action == resolve_from(self@, key, false, 0),
    {
        self.resolve(key, false)
    }

    /// How the first key bound to `action` is shown; a question mark if
    /// there is none.
    pub fn key_display(&self, action: Action) -> (text: String)
        ensures
            text@ == match primary_key_from(self@, action, 0) {
                Some(key) => key_text(key),
                None => "?"@,
            },
    {
        let mut i: usize = 0;
        while i < self.binds.len()
            invariant
                i <= self.binds@.len(),
                primary_key_from(self@, action, i as int) == primary_key_from(self@, action, 0),
            decreases self.binds@.len() - i,
        {
            let bind = &self.binds[i];
            assert(self@[i as int] == bind@);
            if bind.action == action && bind.keys.len() > 0 {
                return format_key(bind.keys[0]);
            }
            i += 1;
        }
        "?".to_owned()
    }
}

/// Whether `keys` lists `key`.
fn lists(keys: &Vec<Key>, key: Key) -> (found: bool)
    ensures
        found == keys@.contains(key),
{
    let mut i: usize = 0;
    while i < keys.len()
        invariant
            i <= keys@.len(),
            forall|k: int| 0 <= k < i ==> keys@[k] != key,
        decreases keys@.len() - i,
    {
        if keys[i] == key {
            return true;
        }
        i += 1;
    }
    false
}

/// How a key is shown.
pub fn format_key(key: Key) -> (text: String)
    ensures
        text@ == key_text(key),
{
    match key {
        Key::Char(c) => {
            if c == ' ' {
                "Space".to_owned()
            } else {
                let mut chars: Vec<char> = Vec::new();
                chars.push(c);
                assert(chars@ =~= seq![c]);
                string_from_chars(chars)
            }
        },
        Key::Left => "←".to_owned(),
        Key::Right => "→".to_owned(),
        Key::Up => "↑".to_owned(),
        Key::Down => "↓".to_owned(),
        Key::Enter => "Enter".to_owned(),
        Key::Esc => "Esc".to_owned(),
        Key::Tab => "Tab".to_owned(),
        Key::Backspace => "Bksp".to_owned(),
        Key::Other => "?".to_owned(),
    }
}

/// With the default bindings, a key does in a game what this says.
pub open spec fn default_game_action(key: Key) -> Option<Action> {
    match key {
        Key::Char(c) => if c == 'h' {
            Some(Action::MoveLeft)
        } else if c == 'l' {
            Some(Action::MoveRight)
        } else if c == 'j' {
            Some(Action::SoftDrop)
        } else if c == 'k' || c == ' ' {
            Some(Action::HardDrop)
        } else if c == 'f' || c == 'x' {
            Some(Action::RotateCW)
        } else if c == 'd' || c == 'z' {
            Some(Action::RotateCCW)
        } else if c == 's' || c == 'a' {
            Some(Action::Rotate180)
        } else if c == 'g' || c == 'c' {
            Some(Action::Hold)
        } else if c == 'p' {
            Some(Action::Pause)
        } else if c == 'q' {
            Some(Action::Quit)
        } else if c == 'r' {
            Some(Action::Restart)
        } else {
            None
        },
        Key::Left => Some(Action::MoveLeft),
        Key::Right => Some(Action::MoveRight),
        Key::Down => Some(Action::SoftDrop),
        Key::Up => Some(Action::HardDrop),
        Key::Esc => Some(Action::Pause),
        _ => None,
    }
}

/// With the default bindings, a key does in a menu what this says. The
/// letter q quits, because the binding to quit comes before the binding to
/// go back.
pub open spec fn default_menu_action(key: Key) -> Option<Action> {
    match key {
        Key::Char(c) => if c == 'k' {
            Some(Action::MenuUp)
        } else if c == 'j' {
            Some(Action::MenuDown)
        } else if c == 'h' {
            Some(Action::MenuLeft)
        } else if c == 'l' {
            Some(Action::MenuRight)
        } else if c == ' ' {
            Some(Action::MenuSelect)
        } else if c == 'q' {
            Some(Action::Quit)
        } else {
            None
        },
        Key::Up => Some(Action::MenuUp),
        Key::Down => Some(Action::MenuDown),
        Key::Left => Some(Action::MenuLeft),
        Key::Right => Some(Action::MenuRight),
        Key::Enter => Some(Action::MenuSelect),
        Key::Esc => Some(Action::MenuBack),
        _ => None,
    }
}

/// The default bindings resolve every key as the two tables above say.
pub proof fn lemma_default_binds(key: Key)
    ensures
        resolve_from(default_binds(), key, true, 0) == default_game_action(key),
        resolve_from(default_binds(), key, false, 0) == default_menu_action(key),
{
    let b = default_binds();
    assert(b.len() == 17);
    lemma_resolve_unfold(b, key, true);
    lemma_resolve_unfold(b, key, false);
    assert forall|i: int, k: Key| 0 <= i < 17 implies (#[trigger] b[i].1.contains(k) <==> (
    b[i].1.len() >= 1 && b[i].1[0] == k) || (b[i].1.len() >= 2 && b[i].1[1] == k) || (b[i].1.len()
        >= 3 && b[i].1[2] == k)) by {
        if (b[i].1.len() >= 1 && b[i].1[0] == k) || (b[i].1.len() >= 2 && b[i].1[1] == k) || (
        b[i].1.len() >= 3 && b[i].1[2] == k) {
        }
    }
}

/// Resolution walks through the seventeen default bindings in order.
proof fn lemma_resolve_unfold(b: Seq<(Action, Seq<Key>)>, key: Key, in_game: bool)
    requires
        b.len() == 17,
    ensures
        resolve_from(b, key, in_game, 17) is None,
        forall|i: int|
            0 <= i < 17 ==> #[trigger] resolve_from(b, key, in_game, i) == if b[i].1.contains(key)
                && in_context(b[i].0, in_game) {
                Some(b[i].0)
            } else {
                resolve_from(b, key, in_game, i + 1)
            },
{
}

} // verus!
