//! The entries of a dropdown menu and the shortcut text shown beside them.

use vstd::prelude::*;
use crate::text::{ascii_lower, eq_ignore_ascii_case, trim_str, trimmed};

verus! {

#[derive(Debug, Clone, Copy)]
pub struct DropdownMenuAction<'a> {
    pub id: usize,
    pub label: &'a str,
    pub shortcut: Option<&'a str>,
    pub icon: Option<&'a str>,
    pub selected: bool,
}

impl<'a> DropdownMenuAction<'a> {
    pub fn new(id: usize, label: &'a str) -> (r: Self)
        ensures
            r == (DropdownMenuAction { id, label, shortcut: None, icon: None, selected: false }),
    {
        DropdownMenuAction { id, label, shortcut: None, icon: None, selected: false }
    }

    pub fn shortcut(self, shortcut: &'a str) -> (r: Self)
        ensures
            r == (DropdownMenuAction { shortcut: Some(shortcut), ..self }),
    {
        DropdownMenuAction { shortcut: Some(shortcut), ..self }
    }

    pub fn icon(self, icon: &'a str) -> (r: Self)
        ensures
            r == (DropdownMenuAction { icon: Some(icon), ..self }),
    {
        DropdownMenuAction { icon: Some(icon), ..self }
    }

    pub fn selected(self, selected: bool) -> (r: Self)
        ensures
            r == (DropdownMenuAction { selected, ..self }),
    {
        DropdownMenuAction { selected, ..self }
    }
}

#[derive(Debug, Clone, Copy)]
pub struct DropdownMenuSubmenu<'a> {
    pub label: &'a str,
    pub entries: &'a [DropdownMenuEntry<'a>],
}

impl<'a> DropdownMenuSubmenu<'a> {
    pub fn new(label: &'a str, entries: &'a [DropdownMenuEntry<'a>]) -> (r: Self)
        ensures
            r == (DropdownMenuSubmenu { label, entries }),
    {
        DropdownMenuSubmenu { label, entries }
    }
}

#[derive(Debug, Clone, Copy)]
pub enum DropdownMenuEntry<'a> {
    Action(DropdownMenuAction<'a>),
    Separator,
    Submenu(DropdownMenuSubmenu<'a>),
}

impl<'a> DropdownMenuEntry<'a> {
    pub fn action(id: usize, label: &'a str) -> (r: Self)
        ensures
            r == DropdownMenuEntry::Action(
                DropdownMenuAction { id, label, shortcut: None, icon: None, selected: false },
            ),
    {
        DropdownMenuEntry::Action(DropdownMenuAction::new(id, label))
    }

    pub fn action_with_shortcut(id: usize, label: &'a str, shortcut: &'a str) -> (r: Self)
        ensures
            r == DropdownMenuEntry::Action(
                DropdownMenuAction { id, label, shortcut: Some(shortcut), icon: None, selected: false },
            ),
    {
        DropdownMenuEntry::Action(DropdownMenuAction::new(id, label).shortcut(shortcut))
    }

    pub fn action_with_icon(id: usize, label: &'a str, icon: &'a str) -> (r: Self)
        ensures
            r == DropdownMenuEntry::Action(
                DropdownMenuAction { id, label, shortcut: None, icon: Some(icon), selected: false },
            ),
    {
        DropdownMenuEntry::Action(DropdownMenuAction::new(id, label).icon(icon))
    }

    pub fn separator() -> (r: Self)
        ensures
            r == DropdownMenuEntry::<'a>::Separator,
    {
        DropdownMenuEntry::Separator
    }

    pub fn submenu(label: &'a str, entries: &'a [DropdownMenuEntry<'a>]) -> (r: Self)
        ensures
            r == DropdownMenuEntry::Submenu(DropdownMenuSubmenu { label, entries }),
    {
        DropdownMenuEntry::Submenu(DropdownMenuSubmenu::new(label, entries))
    }
}

#[derive(Debug, Clone, Copy)]
pub struct DropdownMenuState {
    pub action: Option<usize>,
}

/// The entries of a menu built from plain option labels: one action per
/// label, whose id is the label's position.
pub fn entries_from_options<'a>(options: &[&'a str]) -> (r: Vec<DropdownMenuEntry<'a>>)
    ensures
        r@.len() == options@.len(),
        forall|i: int|
            0 <= i < options@.len() ==> r@[i] == DropdownMenuEntry::Action(
                DropdownMenuAction { id: i as usize, label: options@[i], shortcut: None, icon: None, selected: false },
            ),
{
    let mut r: Vec<DropdownMenuEntry<'a>> = Vec::new();
    let mut i: usize = 0;
    while i < options.len()
        invariant
            i <= options@.len(),
            r@.len() == i,
            forall|k: int|
                0 <= k < i ==> r@[k] == DropdownMenuEntry::Action(
                    DropdownMenuAction { id: k as usize, label: options@[k], shortcut: None, icon: None, selected: false },
                ),
        decreases options@.len() - i,
    {
        r.push(DropdownMenuEntry::action(i, options[i]));
        i += 1;
    }
    r
}

/// The key cap shown for one shortcut key: ⌘, ⌃, ⌥ and ⇧ for the modifier
/// names (ASCII case ignored), the key itself otherwise.
pub open spec fn menu_key_cap(key: Seq<char>) -> Seq<char> {
    if ascii_lower(key) == ascii_lower("cmd"@) || ascii_lower(key) == ascii_lower("command"@) {
        "⌘"@
    } else if ascii_lower(key) == ascii_lower("ctrl"@) || ascii_lower(key) == ascii_lower("control"@) {
        "⌃"@
    } else if ascii_lower(key) == ascii_lower("alt"@) || ascii_lower(key) == ascii_lower("option"@) {
        "⌥"@
    } else if ascii_lower(key) == ascii_lower("shift"@) {
        "⇧"@
    } else {
        key
    }
}

pub fn normalize_shortcut_key<'k>(key: &'k str) -> (r: &'k str)
    ensures
        r@ == menu_key_cap(key@),
{
    if eq_ignore_ascii_case(key, "cmd") || eq_ignore_ascii_case(key, "command") {
        "⌘"
    } else if eq_ignore_ascii_case(key, "ctrl") || eq_ignore_ascii_case(key, "control") {
        "⌃"
    } else if eq_ignore_ascii_case(key, "alt") || eq_ignore_ascii_case(key, "option") {
        "⌥"
    } else if eq_ignore_ascii_case(key, "shift") {
        "⇧"
    } else {
        key
    }
}

/// The key cap of one `+`-separated piece of a shortcut; none for a piece
/// that is only white space.
pub open spec fn menu_piece(piece: Seq<char>) -> Seq<Seq<char>> {
    if trimmed(piece).len() == 0 {
        Seq::empty()
    } else {
        seq![menu_key_cap(trimmed(piece))]
    }
}

/// The key caps of the pieces of `s` (split at each `+`) from the piece that
/// starts at `start`, scanning from position `i`.
pub open spec fn menu_keys_from(s: Seq<char>, start: int, i: int) -> Seq<Seq<char>>
    decreases s.len() - i,
{
    if i >= s.len() {
        menu_piece(s.subrange(start, s.len() as int))
    } else if s[i] == '+' {
        menu_piece(s.subrange(start, i)) + menu_keys_from(s, i + 1, i + 1)
    } else {
        menu_keys_from(s, start, i + 1)
    }
}

pub open spec fn views_of(s: Seq<&str>) -> Seq<Seq<char>> {
    s.map_values(|t: &str| t@)
}

/// The key caps of a shortcut such as `"Shift+Cmd+P"`: the `+`-separated
/// pieces, trimmed, without empty ones, with modifier names as symbols.
pub fn parse_shortcut_keys<'k>(shortcut: &'k str) -> (r: Vec<&'k str>)
    ensures
        views_of(r@) == menu_keys_from(shortcut@, 0, 0),
{
    let n = shortcut.unicode_len();
    let mut keys: Vec<&'k str> = Vec::new();
    let mut start: usize = 0;
    let mut i: usize = 0;
    while i < n
        invariant
            n == shortcut@.len(),
            start <= i <= n,
            views_of(keys@) + menu_keys_from(shortcut@, start as int, i as int) == menu_keys_from(
                shortcut@,
                0,
                0,
            ),
        decreases n - i,
    {
        if shortcut.get_char(i) == '+' {
            let piece = shortcut.substring_char(start, i);
            let key = trim_str(piece);
            let ghost before = views_of(keys@);
            if key.unicode_len() > 0 {
                keys.push(normalize_shortcut_key(key));
            }
            assert(views_of(keys@) =~= before + menu_piece(shortcut@.subrange(start as int, i as int)));
            assert(before + menu_keys_from(shortcut@, start as int, i as int) =~= views_of(keys@)
                + menu_keys_from(shortcut@, i + 1, i + 1));
            start = i + 1;
        }
        i += 1;
    }
    let piece = shortcut.substring_char(start, n);
    let key = trim_str(piece);
    let ghost before = views_of(keys@);
    if key.unicode_len() > 0 {
        keys.push(normalize_shortcut_key(key));
    }
    assert(views_of(keys@) =~= before + menu_piece(shortcut@.subrange(start as int, n as int)));
    keys
}

/// Every spelling of a modifier maps to its key cap, ASCII case aside:
/// "cmd" and "command" to ⌘, "ctrl" and "control" to ⌃, "alt" and "option"
/// to ⌥, "shift" to ⇧; any other key is shown as it is written.
pub proof fn lemma_modifier_key_caps(key: Seq<char>)
    ensures
        ascii_lower(key) == "cmd"@ || ascii_lower(key) == "command"@ ==> menu_key_cap(key) == "⌘"@,
        ascii_lower(key) == "ctrl"@ || ascii_lower(key) == "control"@ ==> menu_key_cap(key) == "⌃"@,
        ascii_lower(key) == "alt"@ || ascii_lower(key) == "option"@ ==> menu_key_cap(key) == "⌥"@,
        ascii_lower(key) == "shift"@ ==> menu_key_cap(key) == "⇧"@,
        ascii_lower(key) != "cmd"@ && ascii_lower(key) != "command"@ && ascii_lower(key) != "ctrl"@
            && ascii_lower(key) != "control"@ && ascii_lower(key) != "alt"@ && ascii_lower(key) != "option"@
            && ascii_lower(key) != "shift"@ ==> menu_key_cap(key) == key,
{
    lemma_lowered_names();
}

/// The modifier names are already lower-case.
pub(crate) proof fn lemma_lowered_names()
    ensures
        ascii_lower("cmd"@) == "cmd"@,
        ascii_lower("command"@) == "command"@,
        ascii_lower("ctrl"@) == "ctrl"@,
        ascii_lower("control"@) == "control"@,
        ascii_lower("alt"@) == "alt"@,
        ascii_lower("option"@) == "option"@,
        ascii_lower("shift"@) == "shift"@,
        "control"@ != "command"@,
        "alt"@ != "cmd"@,
        "ctrl"@ != "cmd"@ && "ctrl"@ != "command"@,
        "control"@ != "cmd"@,
        "alt"@ != "command"@ && "alt"@ != "ctrl"@ && "alt"@ != "control"@,
        "option"@ != "cmd"@ && "option"@ != "command"@ && "option"@ != "ctrl"@ && "option"@ != "control"@,
        "shift"@ != "cmd"@ && "shift"@ != "command"@ && "shift"@ != "ctrl"@ && "shift"@ != "control"@
            && "shift"@ != "alt"@ && "shift"@ != "option"@,
{
    reveal_strlit("cmd");
    reveal_strlit("command");
    reveal_strlit("ctrl");
    reveal_strlit("control");
    reveal_strlit("alt");
    reveal_strlit("option");
    reveal_strlit("shift");
    assert(ascii_lower("cmd"@) =~= "cmd"@);
    assert(ascii_lower("command"@) =~= "command"@);
    assert(ascii_lower("ctrl"@) =~= "ctrl"@);
    assert(ascii_lower("control"@) =~= "control"@);
    assert(ascii_lower("alt"@) =~= "alt"@);
    assert(ascii_lower("option"@) =~= "option"@);
    assert(ascii_lower("shift"@) =~= "shift"@);
    assert("control"@[2] != "command"@[2]);
    assert("alt"@[0] != "cmd"@[0]);
}

} // verus!
