//! The command palette: which commands a query shows, the keys of their
//! shortcuts, and the keyboard-driven highlighted row.

use vstd::prelude::*;
use crate::text::{
    ascii_lower, eq_ignore_ascii_case, is_white_space, char_is_white_space, push_char,
    seq_contains, str_contains, to_ascii_lowercase, trimmed, trim_str,
};

verus! {

#[derive(Debug, Clone, Copy)]
pub struct CommandItem<'a> {
    pub group: &'a str,
    pub label: &'a str,
    pub shortcut: Option<&'a str>,
}

impl<'a> CommandItem<'a> {
    pub fn new(group: &'a str, label: &'a str) -> (r: Self)
        ensures
            r == (CommandItem { group, label, shortcut: None }),
    {
        CommandItem { group, label, shortcut: None }
    }

    pub fn shortcut(self, shortcut: &'a str) -> (r: Self)
        ensures
            r == (CommandItem { shortcut: Some(shortcut), ..self }),
    {
        CommandItem { shortcut: Some(shortcut), ..self }
    }
}

/// Whether a command shows for the (already lower-case) query: every
/// command for an empty query, else those whose group, a space and label,
/// ASCII letters made small, contain the query.
pub open spec fn command_matches(group: Seq<char>, label: Seq<char>, query: Seq<char>) -> bool {
    query.len() == 0 || seq_contains(ascii_lower(group + " "@ + label), query)
}

pub fn command_item_matches(item: CommandItem<'_>, query: &str) -> (r: bool)
    ensures
        r == command_matches(item.group@, item.label@, query@),
{
    if query.unicode_len() == 0 {
        return true;
    }
    let mut searchable = String::new();
    searchable.append(item.group);
    searchable.append(" ");
    searchable.append(item.label);
    let lowered = to_ascii_lowercase(searchable.as_str());
    str_contains(lowered.as_str(), query)
}

/// The commands that show for `query`, in order (the query is made
/// lower-case first).
pub fn visible_command_items<'a>(items: &[CommandItem<'a>], query: &str) -> (r: Vec<CommandItem<'a>>)
    ensures
        r@ == items@.filter(|item: CommandItem<'a>| command_matches(item.group@, item.label@, ascii_lower(query@))),
{
    let query_lower = to_ascii_lowercase(query);
    let mut r: Vec<CommandItem<'a>> = Vec::new();
    let mut i: usize = 0;
    while i < items.len()
        invariant
            i <= items@.len(),
            query_lower@ == ascii_lower(query@),
            r@ == items@.subrange(0, i as int).filter(
                |item: CommandItem<'a>| command_matches(item.group@, item.label@, ascii_lower(query@)),
            ),
        decreases items@.len() - i,
    {
        let item = items[i];
        let keep = command_item_matches(item, query_lower.as_str());
        if keep {
            r.push(item);
        }
        proof {
            reveal(Seq::filter);
            assert(items@.subrange(0, i + 1).drop_last() =~= items@.subrange(0, i as int));
        }
        i += 1;
    }
    assert(items@.subrange(0, items@.len() as int) =~= items@);
    r
}

/// The key name shown for one shortcut key: `Cmd`, `Ctrl`, `Alt` and
/// `Shift` for the modifier names (ASCII case ignored), the key otherwise.
pub open spec fn command_key_name(key: Seq<char>) -> Seq<char> {
    if ascii_lower(key) == ascii_lower("command"@) || ascii_lower(key) == ascii_lower("cmd"@) {
        "Cmd"@
    } else if ascii_lower(key) == ascii_lower("control"@) || ascii_lower(key) == ascii_lower("ctrl"@) {
        "Ctrl"@
    } else if ascii_lower(key) == ascii_lower("option"@) || ascii_lower(key) == ascii_lower("alt"@) {
        "Alt"@
    } else if ascii_lower(key) == ascii_lower("shift"@) {
        "Shift"@
    } else {
        key
    }
}

pub fn normalize_shortcut_key<'k>(key: &'k str) -> (r: &'k str)
    ensures
        r@ == command_key_name(key@),
{
    if eq_ignore_ascii_case(key, "command") || eq_ignore_ascii_case(key, "cmd") {
        "Cmd"
    } else if eq_ignore_ascii_case(key, "control") || eq_ignore_ascii_case(key, "ctrl") {
        "Ctrl"
    } else if eq_ignore_ascii_case(key, "option") || eq_ignore_ascii_case(key, "alt") {
        "Alt"
    } else if eq_ignore_ascii_case(key, "shift") {
        "Shift"
    } else {
        key
    }
}

/// Whether `c` separates the keys of a command shortcut.
pub open spec fn is_key_separator(c: char) -> bool {
    c == '+' || is_white_space(c)
}

pub open spec fn command_token(piece: Seq<char>) -> Seq<Seq<char>> {
    if piece.len() == 0 {
        Seq::empty()
    } else {
        seq![command_key_name(piece)]
    }
}

/// The key names of the runs of `s` between separators, from the run that
/// starts at `start`, scanning from position `i`.
pub open spec fn command_keys_from(s: Seq<char>, start: int, i: int) -> Seq<Seq<char>>
    decreases s.len() - i,
{
    if i >= s.len() {
        command_token(s.subrange(start, s.len() as int))
    } else if is_key_separator(s[i]) {
        command_token(s.subrange(start, i)) + command_keys_from(s, i + 1, i + 1)
    } else {
        command_keys_from(s, start, i + 1)
    }
}

pub open spec fn views_of(s: Seq<&str>) -> Seq<Seq<char>> {
    s.map_values(|t: &str| t@)
}

/// The keys of a shortcut such as `"Cmd + Shift P"`: the runs of characters
/// between `+` and white space, with modifier names spelled out.
pub fn parse_shortcut_keys<'k>(shortcut: &'k str) -> (r: Vec<&'k str>)
    ensures
        views_of(r@) == command_keys_from(shortcut@, 0, 0),
{
    let n = shortcut.unicode_len();
    let mut keys: Vec<&'k str> = Vec::new();
    let mut start: usize = 0;
    let mut i: usize = 0;
    while i < n
        invariant
            n == shortcut@.len(),
            start <= i <= n,
            views_of(keys@) + command_keys_from(shortcut@, start as int, i as int)
                == command_keys_from(shortcut@, 0, 0),
        decreases n - i,
    {
        let c = shortcut.get_char(i);
        if c == '+' || char_is_white_space(c) {
            let ghost before = views_of(keys@);
            if start < i {
                let piece = shortcut.substring_char(start, i);
                keys.push(normalize_shortcut_key(piece));
            }
            assert(views_of(keys@) =~= before + command_token(shortcut@.subrange(start as int, i as int)));
            assert(before + command_keys_from(shortcut@, start as int, i as int) =~= views_of(keys@)
                + command_keys_from(shortcut@, i + 1, i + 1));
            start = i + 1;
        }
        i += 1;
    }
    let ghost before = views_of(keys@);
    if start < n {
        let piece = shortcut.substring_char(start, n);
        keys.push(normalize_shortcut_key(piece));
    }
    assert(views_of(keys@) =~= before + command_token(shortcut@.subrange(start as int, n as int)));
    keys
}

/// Whether the query holds more than white space.
pub fn query_has_text(query: &str) -> (r: bool)
    ensures
        r == (trimmed(query@).len() > 0),
{
    trim_str(query).unicode_len() > 0
}

/// The row highlighted after a frame: none while the query is blank, the
/// input is not focused or nothing shows; else the previous row, clamped to
/// the rows there are, moved one down or up by the arrow keys (the first row
/// where none was highlighted).
pub open spec fn next_selection(
    previous: Option<usize>,
    query_has_text: bool,
    input_focused: bool,
    count: usize,
    move_down: bool,
    move_up: bool,
) -> Option<usize> {
    if !query_has_text || !input_focused || count == 0 {
        None
    } else {
        let current = match previous {
            Some(s) => Some(if s >= count { (count - 1) as usize } else { s }),
            None => None,
        };
        if move_down {
            Some(
                match current {
                    Some(s) => if s + 1 < count { (s + 1) as usize } else { (count - 1) as usize },
                    None => 0,
                },
            )
        } else if move_up {
            Some(
                match current {
                    Some(s) => if s >= 1 { (s - 1) as usize } else { 0 },
                    None => 0,
                },
            )
        } else {
            current
        }
    }
}

pub fn resolve_selected_index(
    previous: Option<usize>,
    query_has_text: bool,
    input_focused: bool,
    visible_item_count: usize,
    move_down: bool,
    move_up: bool,
) -> (r: Option<usize>)
    ensures
        r == next_selection(previous, query_has_text, input_focused, visible_item_count, move_down, move_up),
        r matches Some(s) ==> s < visible_item_count,
{
    if !query_has_text || !input_focused || visible_item_count == 0 {
        return None;
    }
    let mut selected = previous;
    if let Some(s) = selected {
        if s >= visible_item_count {
            selected = Some(visible_item_count - 1);
        }
    }
    if move_down {
        selected = Some(
            match selected {
                Some(s) => if s + 1 < visible_item_count {
                    s + 1
                } else {
                    visible_item_count - 1
                },
                None => 0,
            },
        );
    } else if move_up {
        selected = Some(
            match selected {
                Some(s) => s.saturating_sub(1),
                None => 0,
            },
        );
    }
    selected
}

/// Whether the results show a column of group names: when some shown command
/// has a group.
pub fn command_shows_group_column(visible: &[CommandItem<'_>]) -> (r: bool)
    ensures
        r == exists|i: int| 0 <= i < visible@.len() && visible@[i].group@.len() > 0,
{
    let mut i: usize = 0;
    while i < visible.len()
        invariant
            i <= visible@.len(),
            forall|j: int| 0 <= j < i ==> visible@[j].group@.len() == 0,
        decreases visible@.len() - i,
    {
        if visible[i].group.unicode_len() > 0 {
            return true;
        }
        i += 1;
    }
    false
}

/// How strongly a result row's text is drawn.
#[derive(Debug, Clone, Copy, PartialEq, Eq, Structural)]
pub enum CommandRowTone {
    /// The keyboard-highlighted row, on the accent fill.
    Selected,
    /// A row under the pointer or pressed.
    Emphasized,
    Normal,
}

/// The tone of a result row: highlighted by the keyboard first, then under the
/// pointer or pressed.
pub fn command_row_tone(selected: bool, hovered: bool, pressed: bool) -> (r: CommandRowTone)
    ensures
        r == (if selected {
            CommandRowTone::Selected
        } else if hovered || pressed {
            CommandRowTone::Emphasized
        } else {
            CommandRowTone::Normal
        }),
{
    if selected {
        CommandRowTone::Selected
    } else if hovered || pressed {
        CommandRowTone::Emphasized
    } else {
        CommandRowTone::Normal
    }
}

/// Each arrow key moves the highlight by at most one row, and the highlight
/// always names a row that shows.
pub proof fn lemma_selection_moves_by_one(
    previous: usize,
    query_has_text: bool,
    input_focused: bool,
    count: usize,
    move_down: bool,
    move_up: bool,
)
    requires
        previous < count,
    ensures
        next_selection(Some(previous), query_has_text, input_focused, count, move_down, move_up) matches Some(s)
            ==> s < count && previous - 1 <= s <= previous + 1,
        query_has_text && input_focused && !move_down && !move_up
            ==> next_selection(Some(previous), query_has_text, input_focused, count, move_down, move_up)
            == Some(previous),
{
}

/// Every spelling of a modifier maps to its key name, ASCII case aside:
/// "cmd" and "command" to Cmd, "ctrl" and "control" to Ctrl, "alt" and
/// "option" to Alt, "shift" to Shift; any other key is shown as it is written.
pub proof fn lemma_modifier_key_names(key: Seq<char>)
    ensures
        ascii_lower(key) == "cmd"@ || ascii_lower(key) == "command"@ ==> command_key_name(key) == "Cmd"@,
        ascii_lower(key) == "ctrl"@ || ascii_lower(key) == "control"@ ==> command_key_name(key) == "Ctrl"@,
        ascii_lower(key) == "alt"@ || ascii_lower(key) == "option"@ ==> command_key_name(key) == "Alt"@,
        ascii_lower(key) == "shift"@ ==> command_key_name(key) == "Shift"@,
        ascii_lower(key) != "cmd"@ && ascii_lower(key) != "command"@ && ascii_lower(key) != "ctrl"@
            && ascii_lower(key) != "control"@ && ascii_lower(key) != "alt"@ && ascii_lower(key) != "option"@
            && ascii_lower(key) != "shift"@ ==> command_key_name(key) == key,
{
    crate::dropdown_menu::lemma_lowered_names();
}

} // verus!
