//! The emoji picker: its categories, its emoji table, and which entries a
//! search query and a category tab show.

use vstd::prelude::*;
use crate::text::{ascii_lower, occurs_at, seq_contains, str_contains, str_equal, to_ascii_lowercase, trim_str, trimmed};

verus! {

#[derive(Debug, Clone, Copy, PartialEq, Eq, Structural)]
pub enum EmojiCategory {
    All,
    People,
    Nature,
    Food,
    Activity,
    Travel,
    Objects,
    Symbols,
    Flags,
}

impl Default for EmojiCategory {
    fn default() -> (r: Self)
        ensures
            r == EmojiCategory::All,
    {
        EmojiCategory::All
    }
}

#[derive(Debug, Clone, Copy)]
pub struct EmojiEntry {
    pub emoji: &'static str,
    pub label: &'static str,
    pub aliases: &'static [&'static str],
    pub category: EmojiCategory,
}

/// The emoji the picker offers, in order.
pub open spec fn emoji_table() -> Seq<EmojiEntry> {
    seq![
        EmojiEntry { emoji: "😀", label: "grinning face", aliases: &["smile", "happy"], category: EmojiCategory::People },
        EmojiEntry { emoji: "😃", label: "grinning face with big eyes", aliases: &["joy"], category: EmojiCategory::People },
        EmojiEntry { emoji: "😄", label: "grinning face with smiling eyes", aliases: &["cheerful"], category: EmojiCategory::People },
        EmojiEntry { emoji: "😅", label: "grinning face with sweat", aliases: &["relief"], category: EmojiCategory::People },
        EmojiEntry { emoji: "😂", label: "face with tears of joy", aliases: &["laugh"], category: EmojiCategory::People },
        EmojiEntry { emoji: "🙂", label: "slightly smiling face", aliases: &["smile"], category: EmojiCategory::People },
        EmojiEntry { emoji: "😊", label: "smiling face with smiling eyes", aliases: &["blush"], category: EmojiCategory::People },
        EmojiEntry { emoji: "😉", label: "winking face", aliases: &["wink"], category: EmojiCategory::People },
        EmojiEntry { emoji: "😍", label: "smiling face with heart-eyes", aliases: &["love"], category: EmojiCategory::People },
        EmojiEntry { emoji: "🤔", label: "thinking face", aliases: &["hmm"], category: EmojiCategory::People },
        EmojiEntry { emoji: "😎", label: "smiling face with sunglasses", aliases: &["cool"], category: EmojiCategory::People },
        EmojiEntry { emoji: "😭", label: "loudly crying face", aliases: &["sad", "cry"], category: EmojiCategory::People },
        EmojiEntry { emoji: "🐶", label: "dog face", aliases: &["puppy"], category: EmojiCategory::Nature },
        EmojiEntry { emoji: "🐱", label: "cat face", aliases: &["kitty"], category: EmojiCategory::Nature },
        EmojiEntry { emoji: "🐻", label: "bear", aliases: &[], category: EmojiCategory::Nature },
        EmojiEntry { emoji: "🦊", label: "fox", aliases: &[], category: EmojiCategory::Nature },
        EmojiEntry { emoji: "🐼", label: "panda", aliases: &[], category: EmojiCategory::Nature },
        EmojiEntry { emoji: "🐸", label: "frog", aliases: &[], category: EmojiCategory::Nature },
        EmojiEntry { emoji: "🌸", label: "cherry blossom", aliases: &["flower"], category: EmojiCategory::Nature },
        EmojiEntry { emoji: "🌻", label: "sunflower", aliases: &["flower"], category: EmojiCategory::Nature },
        EmojiEntry { emoji: "🌲", label: "evergreen tree", aliases: &["pine"], category: EmojiCategory::Nature },
        EmojiEntry { emoji: "🌵", label: "cactus", aliases: &["desert"], category: EmojiCategory::Nature },
        EmojiEntry { emoji: "🌈", label: "rainbow", aliases: &["weather"], category: EmojiCategory::Nature },
        EmojiEntry { emoji: "🌙", label: "crescent moon", aliases: &["night"], category: EmojiCategory::Nature },
        EmojiEntry { emoji: "🍎", label: "red apple", aliases: &["apple"], category: EmojiCategory::Food },
        EmojiEntry { emoji: "🍌", label: "banana", aliases: &[], category: EmojiCategory::Food },
        EmojiEntry { emoji: "🍇", label: "grapes", aliases: &[], category: EmojiCategory::Food },
        EmojiEntry { emoji: "🍓", label: "strawberry", aliases: &["berry"], category: EmojiCategory::Food },
        EmojiEntry { emoji: "🍕", label: "pizza", aliases: &["slice"], category: EmojiCategory::Food },
        EmojiEntry { emoji: "🍔", label: "hamburger", aliases: &["burger"], category: EmojiCategory::Food },
        EmojiEntry { emoji: "🍟", label: "french fries", aliases: &["fries"], category: EmojiCategory::Food },
        EmojiEntry { emoji: "🌮", label: "taco", aliases: &[], category: EmojiCategory::Food },
        EmojiEntry { emoji: "🍣", label: "sushi", aliases: &[], category: EmojiCategory::Food },
        EmojiEntry { emoji: "☕", label: "hot beverage", aliases: &["coffee"], category: EmojiCategory::Food },
        EmojiEntry { emoji: "🍰", label: "shortcake", aliases: &["cake"], category: EmojiCategory::Food },
        EmojiEntry { emoji: "🍪", label: "cookie", aliases: &["dessert"], category: EmojiCategory::Food },
        EmojiEntry { emoji: "⚽", label: "soccer ball", aliases: &["football"], category: EmojiCategory::Activity },
        EmojiEntry { emoji: "🏀", label: "basketball", aliases: &[], category: EmojiCategory::Activity },
        EmojiEntry { emoji: "🏈", label: "american football", aliases: &["football"], category: EmojiCategory::Activity },
        EmojiEntry { emoji: "⚾", label: "baseball", aliases: &[], category: EmojiCategory::Activity },
        EmojiEntry { emoji: "🎾", label: "tennis", aliases: &["racket"], category: EmojiCategory::Activity },
        EmojiEntry { emoji: "🎲", label: "game die", aliases: &["dice"], category: EmojiCategory::Activity },
        EmojiEntry { emoji: "🎮", label: "video game", aliases: &["controller"], category: EmojiCategory::Activity },
        EmojiEntry { emoji: "🎯", label: "direct hit", aliases: &["target"], category: EmojiCategory::Activity },
        EmojiEntry { emoji: "🎸", label: "guitar", aliases: &["music"], category: EmojiCategory::Activity },
        EmojiEntry { emoji: "🎨", label: "artist palette", aliases: &["art", "paint"], category: EmojiCategory::Activity },
        EmojiEntry { emoji: "🧩", label: "puzzle piece", aliases: &["puzzle"], category: EmojiCategory::Activity },
        EmojiEntry { emoji: "🏆", label: "trophy", aliases: &["award"], category: EmojiCategory::Activity },
        EmojiEntry { emoji: "🚗", label: "automobile", aliases: &["car"], category: EmojiCategory::Travel },
        EmojiEntry { emoji: "🚕", label: "taxi", aliases: &["cab"], category: EmojiCategory::Travel },
        EmojiEntry { emoji: "🚌", label: "bus", aliases: &[], category: EmojiCategory::Travel },
        EmojiEntry { emoji: "🚲", label: "bicycle", aliases: &["bike"], category: EmojiCategory::Travel },
        EmojiEntry { emoji: "✈️", label: "airplane", aliases: &["plane"], category: EmojiCategory::Travel },
        EmojiEntry { emoji: "🚀", label: "rocket", aliases: &["space"], category: EmojiCategory::Travel },
        EmojiEntry { emoji: "🚂", label: "locomotive", aliases: &["train"], category: EmojiCategory::Travel },
        EmojiEntry { emoji: "🚢", label: "ship", aliases: &["boat"], category: EmojiCategory::Travel },
        EmojiEntry { emoji: "🗺️", label: "world map", aliases: &["map"], category: EmojiCategory::Travel },
        EmojiEntry { emoji: "🏝️", label: "desert island", aliases: &["island"], category: EmojiCategory::Travel },
        EmojiEntry { emoji: "🗽", label: "statue of liberty", aliases: &["new york"], category: EmojiCategory::Travel },
        EmojiEntry { emoji: "🧳", label: "luggage", aliases: &["travel"], category: EmojiCategory::Travel },
        EmojiEntry { emoji: "💡", label: "light bulb", aliases: &["idea"], category: EmojiCategory::Objects },
        EmojiEntry { emoji: "🔒", label: "locked", aliases: &["lock"], category: EmojiCategory::Objects },
        EmojiEntry { emoji: "🔑", label: "key", aliases: &["unlock"], category: EmojiCategory::Objects },
        EmojiEntry { emoji: "📌", label: "pushpin", aliases: &["pin"], category: EmojiCategory::Objects },
        EmojiEntry { emoji: "📎", label: "paperclip", aliases: &["clip"], category: EmojiCategory::Objects },
        EmojiEntry { emoji: "✏️", label: "pencil", aliases: &["write"], category: EmojiCategory::Objects },
        EmojiEntry { emoji: "📷", label: "camera", aliases: &["photo"], category: EmojiCategory::Objects },
        EmojiEntry { emoji: "📱", label: "mobile phone", aliases: &["phone"], category: EmojiCategory::Objects },
        EmojiEntry { emoji: "💻", label: "laptop", aliases: &["computer"], category: EmojiCategory::Objects },
        EmojiEntry { emoji: "⏰", label: "alarm clock", aliases: &["clock"], category: EmojiCategory::Objects },
        EmojiEntry { emoji: "🎁", label: "wrapped gift", aliases: &["gift", "present"], category: EmojiCategory::Objects },
        EmojiEntry { emoji: "🔋", label: "battery", aliases: &["power"], category: EmojiCategory::Objects },
        EmojiEntry { emoji: "❤️", label: "red heart", aliases: &["heart", "love"], category: EmojiCategory::Symbols },
        EmojiEntry { emoji: "⭐", label: "star", aliases: &["favorite"], category: EmojiCategory::Symbols },
        EmojiEntry { emoji: "✅", label: "check mark button", aliases: &["check"], category: EmojiCategory::Symbols },
        EmojiEntry { emoji: "❌", label: "cross mark", aliases: &["x"], category: EmojiCategory::Symbols },
        EmojiEntry { emoji: "⚠️", label: "warning", aliases: &["alert"], category: EmojiCategory::Symbols },
        EmojiEntry { emoji: "❓", label: "question mark", aliases: &["help"], category: EmojiCategory::Symbols },
        EmojiEntry { emoji: "💯", label: "hundred points", aliases: &["100"], category: EmojiCategory::Symbols },
        EmojiEntry { emoji: "🔔", label: "bell", aliases: &["notification"], category: EmojiCategory::Symbols },
        EmojiEntry { emoji: "✨", label: "sparkles", aliases: &["shine"], category: EmojiCategory::Symbols },
        EmojiEntry { emoji: "☮️", label: "peace symbol", aliases: &["peace"], category: EmojiCategory::Symbols },
        EmojiEntry { emoji: "☯️", label: "yin yang", aliases: &["balance"], category: EmojiCategory::Symbols },
        EmojiEntry { emoji: "♻️", label: "recycling symbol", aliases: &["recycle"], category: EmojiCategory::Symbols },
        EmojiEntry { emoji: "🇺🇸", label: "flag: United States", aliases: &["usa", "america"], category: EmojiCategory::Flags },
        EmojiEntry { emoji: "🇨🇦", label: "flag: Canada", aliases: &["canada"], category: EmojiCategory::Flags },
        EmojiEntry { emoji: "🇬🇧", label: "flag: United Kingdom", aliases: &["uk", "britain"], category: EmojiCategory::Flags },
        EmojiEntry { emoji: "🇯🇵", label: "flag: Japan", aliases: &["japan"], category: EmojiCategory::Flags },
        EmojiEntry { emoji: "🇰🇷", label: "flag: South Korea", aliases: &["korea"], category: EmojiCategory::Flags },
        EmojiEntry { emoji: "🇫🇷", label: "flag: France", aliases: &["france"], category: EmojiCategory::Flags },
        EmojiEntry { emoji: "🇩🇪", label: "flag: Germany", aliases: &["germany"], category: EmojiCategory::Flags },
        EmojiEntry { emoji: "🇪🇸", label: "flag: Spain", aliases: &["spain"], category: EmojiCategory::Flags },
        EmojiEntry { emoji: "🇮🇹", label: "flag: Italy", aliases: &["italy"], category: EmojiCategory::Flags },
        EmojiEntry { emoji: "🇧🇷", label: "flag: Brazil", aliases: &["brazil"], category: EmojiCategory::Flags },
    ]
}

/// The emoji the picker offers, in order.
pub fn emoji_entries() -> (r: Vec<EmojiEntry>)
    ensures
        r@ == emoji_table(),
{
    vec![
        EmojiEntry { emoji: "😀", label: "grinning face", aliases: &["smile", "happy"], category: EmojiCategory::People },
        EmojiEntry { emoji: "😃", label: "grinning face with big eyes", aliases: &["joy"], category: EmojiCategory::People },
        EmojiEntry { emoji: "😄", label: "grinning face with smiling eyes", aliases: &["cheerful"], category: EmojiCategory::People },
        EmojiEntry { emoji: "😅", label: "grinning face with sweat", aliases: &["relief"], category: EmojiCategory::People },
        EmojiEntry { emoji: "😂", label: "face with tears of joy", aliases: &["laugh"], category: EmojiCategory::People },
        EmojiEntry { emoji: "🙂", label: "slightly smiling face", aliases: &["smile"], category: EmojiCategory::People },
        EmojiEntry { emoji: "😊", label: "smiling face with smiling eyes", aliases: &["blush"], category: EmojiCategory::People },
        EmojiEntry { emoji: "😉", label: "winking face", aliases: &["wink"], category: EmojiCategory::People },
        EmojiEntry { emoji: "😍", label: "smiling face with heart-eyes", aliases: &["love"], category: EmojiCategory::People },
        EmojiEntry { emoji: "🤔", label: "thinking face", aliases: &["hmm"], category: EmojiCategory::People },
        EmojiEntry { emoji: "😎", label: "smiling face with sunglasses", aliases: &["cool"], category: EmojiCategory::People },
        EmojiEntry { emoji: "😭", label: "loudly crying face", aliases: &["sad", "cry"], category: EmojiCategory::People },
        EmojiEntry { emoji: "🐶", label: "dog face", aliases: &["puppy"], category: EmojiCategory::Nature },
        EmojiEntry { emoji: "🐱", label: "cat face", aliases: &["kitty"], category: EmojiCategory::Nature },
        EmojiEntry { emoji: "🐻", label: "bear", aliases: &[], category: EmojiCategory::Nature },
        EmojiEntry { emoji: "🦊", label: "fox", aliases: &[], category: EmojiCategory::Nature },
        EmojiEntry { emoji: "🐼", label: "panda", aliases: &[], category: EmojiCategory::Nature },
        EmojiEntry { emoji: "🐸", label: "frog", aliases: &[], category: EmojiCategory::Nature },
        EmojiEntry { emoji: "🌸", label: "cherry blossom", aliases: &["flower"], category: EmojiCategory::Nature },
        EmojiEntry { emoji: "🌻", label: "sunflower", aliases: &["flower"], category: EmojiCategory::Nature },
        EmojiEntry { emoji: "🌲", label: "evergreen tree", aliases: &["pine"], category: EmojiCategory::Nature },
        EmojiEntry { emoji: "🌵", label: "cactus", aliases: &["desert"], category: EmojiCategory::Nature },
        EmojiEntry { emoji: "🌈", label: "rainbow", aliases: &["weather"], category: EmojiCategory::Nature },
        EmojiEntry { emoji: "🌙", label: "crescent moon", aliases: &["night"], category: EmojiCategory::Nature },
        EmojiEntry { emoji: "🍎", label: "red apple", aliases: &["apple"], category: EmojiCategory::Food },
        EmojiEntry { emoji: "🍌", label: "banana", aliases: &[], category: EmojiCategory::Food },
        EmojiEntry { emoji: "🍇", label: "grapes", aliases: &[], category: EmojiCategory::Food },
        EmojiEntry { emoji: "🍓", label: "strawberry", aliases: &["berry"], category: EmojiCategory::Food },
        EmojiEntry { emoji: "🍕", label: "pizza", aliases: &["slice"], category: EmojiCategory::Food },
        EmojiEntry { emoji: "🍔", label: "hamburger", aliases: &["burger"], category: EmojiCategory::Food },
        EmojiEntry { emoji: "🍟", label: "french fries", aliases: &["fries"], category: EmojiCategory::Food },
        EmojiEntry { emoji: "🌮", label: "taco", aliases: &[], category: EmojiCategory::Food },
        EmojiEntry { emoji: "🍣", label: "sushi", aliases: &[], category: EmojiCategory::Food },
        EmojiEntry { emoji: "☕", label: "hot beverage", aliases: &["coffee"], category: EmojiCategory::Food },
        EmojiEntry { emoji: "🍰", label: "shortcake", aliases: &["cake"], category: EmojiCategory::Food },
        EmojiEntry { emoji: "🍪", label: "cookie", aliases: &["dessert"], category: EmojiCategory::Food },
        EmojiEntry { emoji: "⚽", label: "soccer ball", aliases: &["football"], category: EmojiCategory::Activity },
        EmojiEntry { emoji: "🏀", label: "basketball", aliases: &[], category: EmojiCategory::Activity },
        EmojiEntry { emoji: "🏈", label: "american football", aliases: &["football"], category: EmojiCategory::Activity },
        EmojiEntry { emoji: "⚾", label: "baseball", aliases: &[], category: EmojiCategory::Activity },
        EmojiEntry { emoji: "🎾", label: "tennis", aliases: &["racket"], category: EmojiCategory::Activity },
        EmojiEntry { emoji: "🎲", label: "game die", aliases: &["dice"], category: EmojiCategory::Activity },
        EmojiEntry { emoji: "🎮", label: "video game", aliases: &["controller"], category: EmojiCategory::Activity },
        EmojiEntry { emoji: "🎯", label: "direct hit", aliases: &["target"], category: EmojiCategory::Activity },
        EmojiEntry { emoji: "🎸", label: "guitar", aliases: &["music"], category: EmojiCategory::Activity },
        EmojiEntry { emoji: "🎨", label: "artist palette", aliases: &["art", "paint"], category: EmojiCategory::Activity },
        EmojiEntry { emoji: "🧩", label: "puzzle piece", aliases: &["puzzle"], category: EmojiCategory::Activity },
        EmojiEntry { emoji: "🏆", label: "trophy", aliases: &["award"], category: EmojiCategory::Activity },
        EmojiEntry { emoji: "🚗", label: "automobile", aliases: &["car"], category: EmojiCategory::Travel },
        EmojiEntry { emoji: "🚕", label: "taxi", aliases: &["cab"], category: EmojiCategory::Travel },
        EmojiEntry { emoji: "🚌", label: "bus", aliases: &[], category: EmojiCategory::Travel },
        EmojiEntry { emoji: "🚲", label: "bicycle", aliases: &["bike"], category: EmojiCategory::Travel },
        EmojiEntry { emoji: "✈️", label: "airplane", aliases: &["plane"], category: EmojiCategory::Travel },
        EmojiEntry { emoji: "🚀", label: "rocket", aliases: &["space"], category: EmojiCategory::Travel },
        EmojiEntry { emoji: "🚂", label: "locomotive", aliases: &["train"], category: EmojiCategory::Travel },
        EmojiEntry { emoji: "🚢", label: "ship", aliases: &["boat"], category: EmojiCategory::Travel },
        EmojiEntry { emoji: "🗺️", label: "world map", aliases: &["map"], category: EmojiCategory::Travel },
        EmojiEntry { emoji: "🏝️", label: "desert island", aliases: &["island"], category: EmojiCategory::Travel },
        EmojiEntry { emoji: "🗽", label: "statue of liberty", aliases: &["new york"], category: EmojiCategory::Travel },
        EmojiEntry { emoji: "🧳", label: "luggage", aliases: &["travel"], category: EmojiCategory::Travel },
        EmojiEntry { emoji: "💡", label: "light bulb", aliases: &["idea"], category: EmojiCategory::Objects },
        EmojiEntry { emoji: "🔒", label: "locked", aliases: &["lock"], category: EmojiCategory::Objects },
        EmojiEntry { emoji: "🔑", label: "key", aliases: &["unlock"], category: EmojiCategory::Objects },
        EmojiEntry { emoji: "📌", label: "pushpin", aliases: &["pin"], category: EmojiCategory::Objects },
        EmojiEntry { emoji: "📎", label: "paperclip", aliases: &["clip"], category: EmojiCategory::Objects },
        EmojiEntry { emoji: "✏️", label: "pencil", aliases: &["write"], category: EmojiCategory::Objects },
        EmojiEntry { emoji: "📷", label: "camera", aliases: &["photo"], category: EmojiCategory::Objects },
        EmojiEntry { emoji: "📱", label: "mobile phone", aliases: &["phone"], category: EmojiCategory::Objects },
        EmojiEntry { emoji: "💻", label: "laptop", aliases: &["computer"], category: EmojiCategory::Objects },
        EmojiEntry { emoji: "⏰", label: "alarm clock", aliases: &["clock"], category: EmojiCategory::Objects },
        EmojiEntry { emoji: "🎁", label: "wrapped gift", aliases: &["gift", "present"], category: EmojiCategory::Objects },
        EmojiEntry { emoji: "🔋", label: "battery", aliases: &["power"], category: EmojiCategory::Objects },
        EmojiEntry { emoji: "❤️", label: "red heart", aliases: &["heart", "love"], category: EmojiCategory::Symbols },
        EmojiEntry { emoji: "⭐", label: "star", aliases: &["favorite"], category: EmojiCategory::Symbols },
        EmojiEntry { emoji: "✅", label: "check mark button", aliases: &["check"], category: EmojiCategory::Symbols },
        EmojiEntry { emoji: "❌", label: "cross mark", aliases: &["x"], category: EmojiCategory::Symbols },
        EmojiEntry { emoji: "⚠️", label: "warning", aliases: &["alert"], category: EmojiCategory::Symbols },
        EmojiEntry { emoji: "❓", label: "question mark", aliases: &["help"], category: EmojiCategory::Symbols },
        EmojiEntry { emoji: "💯", label: "hundred points", aliases: &["100"], category: EmojiCategory::Symbols },
        EmojiEntry { emoji: "🔔", label: "bell", aliases: &["notification"], category: EmojiCategory::Symbols },
        EmojiEntry { emoji: "✨", label: "sparkles", aliases: &["shine"], category: EmojiCategory::Symbols },
        EmojiEntry { emoji: "☮️", label: "peace symbol", aliases: &["peace"], category: EmojiCategory::Symbols },
        EmojiEntry { emoji: "☯️", label: "yin yang", aliases: &["balance"], category: EmojiCategory::Symbols },
        EmojiEntry { emoji: "♻️", label: "recycling symbol", aliases: &["recycle"], category: EmojiCategory::Symbols },
        EmojiEntry { emoji: "🇺🇸", label: "flag: United States", aliases: &["usa", "america"], category: EmojiCategory::Flags },
        EmojiEntry { emoji: "🇨🇦", label: "flag: Canada", aliases: &["canada"], category: EmojiCategory::Flags },
        EmojiEntry { emoji: "🇬🇧", label: "flag: United Kingdom", aliases: &["uk", "britain"], category: EmojiCategory::Flags },
        EmojiEntry { emoji: "🇯🇵", label: "flag: Japan", aliases: &["japan"], category: EmojiCategory::Flags },
        EmojiEntry { emoji: "🇰🇷", label: "flag: South Korea", aliases: &["korea"], category: EmojiCategory::Flags },
        EmojiEntry { emoji: "🇫🇷", label: "flag: France", aliases: &["france"], category: EmojiCategory::Flags },
        EmojiEntry { emoji: "🇩🇪", label: "flag: Germany", aliases: &["germany"], category: EmojiCategory::Flags },
        EmojiEntry { emoji: "🇪🇸", label: "flag: Spain", aliases: &["spain"], category: EmojiCategory::Flags },
        EmojiEntry { emoji: "🇮🇹", label: "flag: Italy", aliases: &["italy"], category: EmojiCategory::Flags },
        EmojiEntry { emoji: "🇧🇷", label: "flag: Brazil", aliases: &["brazil"], category: EmojiCategory::Flags },
    ]
}

/// Whether one of `aliases`, from position `i` on, contains `query` once its
/// ASCII letters are made small.
pub open spec fn alias_matches_from(aliases: Seq<&str>, query: Seq<char>, i: int) -> bool
    decreases aliases.len() - i,
{
    if i < 0 || i >= aliases.len() {
        false
    } else {
        seq_contains(ascii_lower(aliases[i]@), query) || alias_matches_from(aliases, query, i + 1)
    }
}

/// Whether `entry` answers the (lower-case) `query`: the emoji itself, or a
/// label or alias that contains the query, ASCII case ignored.
pub open spec fn entry_matches(entry: EmojiEntry, query: Seq<char>) -> bool {
    entry.emoji@ == query || seq_contains(ascii_lower(entry.label@), query) || alias_matches_from(
        entry.aliases@,
        query,
        0,
    )
}

pub fn emoji_entry_matches(entry: &EmojiEntry, query: &str) -> (r: bool)
    ensures
        r == entry_matches(*entry, query@),
{
    if str_equal(entry.emoji, query) {
        return true;
    }
    let label = to_ascii_lowercase(entry.label);
    if str_contains(label.as_str(), query) {
        return true;
    }
    let mut i: usize = 0;
    while i < entry.aliases.len()
        invariant
            i <= entry.aliases@.len(),
            entry.emoji@ != query@,
            !seq_contains(ascii_lower(entry.label@), query@),
            entry_matches(*entry, query@) == alias_matches_from(entry.aliases@, query@, i as int),
        decreases entry.aliases@.len() - i,
    {
        let alias = to_ascii_lowercase(entry.aliases[i]);
        if str_contains(alias.as_str(), query) {
            return true;
        }
        i += 1;
    }
    false
}

/// Whether `entry` shows for the tab `category` and the search `query`: the
/// tab is "all" or the entry's category, and the query, trimmed and made
/// lower-case, is empty or matches the entry.
pub open spec fn entry_shown(entry: EmojiEntry, query: Seq<char>, category: EmojiCategory) -> bool {
    let q = ascii_lower(trimmed(query));
    (category == EmojiCategory::All || entry.category == category) && (q.len() == 0 || entry_matches(
        entry,
        q,
    ))
}

/// The entries that show for the search `query` under the tab `category`, in order.
pub fn filtered_entries(query: &str, category: EmojiCategory) -> (r: Vec<EmojiEntry>)
    ensures
        r@ == emoji_table().filter(|e: EmojiEntry| entry_shown(e, query@, category)),
{
    let query_lower = to_ascii_lowercase(trim_str(query));
    let query_empty = query_lower.as_str().unicode_len() == 0;
    let all = emoji_entries();
    let mut r: Vec<EmojiEntry> = Vec::new();
    let mut i: usize = 0;
    while i < all.len()
        invariant
            all@ == emoji_table(),
            query_lower@ == ascii_lower(trimmed(query@)),
            query_empty == (query_lower@.len() == 0),
            i <= all@.len(),
            r@ == all@.subrange(0, i as int).filter(|e: EmojiEntry| entry_shown(e, query@, category)),
        decreases all@.len() - i,
    {
        let entry = all[i];
        let in_category = category == EmojiCategory::All || entry.category == category;
        if in_category && (query_empty || emoji_entry_matches(&entry, query_lower.as_str())) {
            r.push(entry);
        }
        proof {
            reveal(Seq::filter);
            assert(all@.subrange(0, i + 1).drop_last() =~= all@.subrange(0, i as int));
        }
        i += 1;
    }
    assert(all@.subrange(0, all@.len() as int) =~= all@);
    r
}

/// A tab of the category bar: the category it selects and its icon.
#[derive(Debug, Clone, Copy)]
pub struct EmojiCategoryTab {
    pub category: EmojiCategory,
    pub icon: &'static str,
}

/// The category bar, left to right.
pub open spec fn category_tab_table() -> Seq<(EmojiCategory, Seq<char>)> {
    seq![
        (EmojiCategory::All, "grid-2x2"@),
        (EmojiCategory::People, "smile"@),
        (EmojiCategory::Nature, "leaf"@),
        (EmojiCategory::Food, "carrot"@),
        (EmojiCategory::Activity, "badge-check"@),
        (EmojiCategory::Travel, "plane"@),
        (EmojiCategory::Objects, "lightbulb"@),
        (EmojiCategory::Symbols, "sparkles"@),
        (EmojiCategory::Flags, "flag"@),
    ]
}

/// The tabs of the category bar, left to right.
pub fn category_tabs() -> (r: Vec<EmojiCategoryTab>)
    ensures
        r@.len() == category_tab_table().len(),
        forall|i: int| 0 <= i < r@.len() ==> (r@[i].category, r@[i].icon@) == #[trigger] category_tab_table()[i],
{
    let r = vec![
        EmojiCategoryTab { category: EmojiCategory::All, icon: "grid-2x2" },
        EmojiCategoryTab { category: EmojiCategory::People, icon: "smile" },
        EmojiCategoryTab { category: EmojiCategory::Nature, icon: "leaf" },
        EmojiCategoryTab { category: EmojiCategory::Food, icon: "carrot" },
        EmojiCategoryTab { category: EmojiCategory::Activity, icon: "badge-check" },
        EmojiCategoryTab { category: EmojiCategory::Travel, icon: "plane" },
        EmojiCategoryTab { category: EmojiCategory::Objects, icon: "lightbulb" },
        EmojiCategoryTab { category: EmojiCategory::Symbols, icon: "sparkles" },
        EmojiCategoryTab { category: EmojiCategory::Flags, icon: "flag" },
    ];
    r
}

/// Every category has exactly one tab in the bar.
pub proof fn lemma_every_category_has_one_tab(category: EmojiCategory)
    ensures
        exists|i: int| 0 <= i < category_tab_table().len() && (#[trigger] category_tab_table()[i]).0 == category,
        forall|i: int, j: int|
            0 <= i < j < category_tab_table().len() ==> (#[trigger] category_tab_table()[i]).0 != (#[trigger] category_tab_table()[j]).0,
{
    let t = category_tab_table();
    match category {
        EmojiCategory::All => assert(t[0].0 == category),
        EmojiCategory::People => assert(t[1].0 == category),
        EmojiCategory::Nature => assert(t[2].0 == category),
        EmojiCategory::Food => assert(t[3].0 == category),
        EmojiCategory::Activity => assert(t[4].0 == category),
        EmojiCategory::Travel => assert(t[5].0 == category),
        EmojiCategory::Objects => assert(t[6].0 == category),
        EmojiCategory::Symbols => assert(t[7].0 == category),
        EmojiCategory::Flags => assert(t[8].0 == category),
    }
}

/// What the picker remembers between frames: whether its panel is open, the
/// search text, and the category tab.
#[derive(Debug, Clone)]
pub struct EmojiSelectorState {
    pub open: bool,
    pub query: String,
    pub category: EmojiCategory,
}

impl Default for EmojiSelectorState {
    fn default() -> (r: Self)
        ensures
            !r.open,
            r.query@ == Seq::<char>::empty(),
            r.category == EmojiCategory::All,
    {
        EmojiSelectorState { open: false, query: String::new(), category: EmojiCategory::All }
    }
}

/// What the trigger shows: the chosen emoji, or the placeholder while none is chosen.
pub fn emoji_trigger_text<'a>(value: &'a str, placeholder: &'a str) -> (r: &'a str)
    ensures
        r@ == (if value@.len() == 0 { placeholder@ } else { value@ }),
{
    if value.unicode_len() == 0 {
        placeholder
    } else {
        value
    }
}

/// Whether a cell shows as the chosen emoji.
pub fn emoji_cell_selected(value: &str, entry: &EmojiEntry) -> (r: bool)
    ensures
        r == (value@ == entry.emoji@),
{
    str_equal(value, entry.emoji)
}

/// Choosing an emoji in the panel: it becomes the value, the search is
/// cleared and the panel closes; the category tab stays.
pub fn choose_emoji(value: &mut String, state: &mut EmojiSelectorState, emoji: &str)
    ensures
        final(value)@ == emoji@,
        !final(state).open,
        final(state).query@ == Seq::<char>::empty(),
        final(state).category == old(state).category,
{
    *value = String::from_str(emoji);
    state.query = String::new();
    state.open = false;
}

/// A click on a category tab selects it.
pub fn select_emoji_category(state: &mut EmojiSelectorState, category: EmojiCategory)
    ensures
        final(state).category == category,
        final(state).open == old(state).open,
        final(state).query@ == old(state).query@,
{
    if state.category != category {
        state.category = category;
    }
}

/// The end of a frame: the panel's new open state is kept, and a panel that
/// has just closed forgets its search.
pub fn settle_emoji_selector(state: &mut EmojiSelectorState, open: bool)
    ensures
        final(state).open == open,
        final(state).category == old(state).category,
        final(state).query@ == (if old(state).open && !open { Seq::<char>::empty() } else { old(state).query@ }),
{
    let was_open = state.open;
    state.open = open;
    if was_open && !open {
        state.query = String::new();
    }
}

proof fn lemma_alias_at_matches(aliases: Seq<&str>, query: Seq<char>, i: int, k: int, at: int)
    requires
        0 <= i <= k < aliases.len(),
        occurs_at(ascii_lower(aliases[k]@), query, at),
    ensures
        alias_matches_from(aliases, query, i),
    decreases k - i,
{
    if i < k {
        lemma_alias_at_matches(aliases, query, i + 1, k, at);
    }
}

/// An entry answers a (lower-case) query whenever the query is the emoji
/// itself, or occurs in its label or in any one of its aliases, each with its
/// ASCII letters made small.
pub proof fn lemma_entry_matches_any_alias(entry: EmojiEntry, query: Seq<char>, k: int, at: int)
    ensures
        entry.emoji@ == query ==> entry_matches(entry, query),
        0 <= at && at + query.len() <= ascii_lower(entry.label@).len()
            && ascii_lower(entry.label@).subrange(at, at + query.len()) == query ==> entry_matches(entry, query),
        0 <= k < entry.aliases@.len() && 0 <= at && at + query.len() <= ascii_lower(entry.aliases@[k]@).len()
            && ascii_lower(entry.aliases@[k]@).subrange(at, at + query.len()) == query ==> entry_matches(entry, query),
{
    if 0 <= at && at + query.len() <= ascii_lower(entry.label@).len()
        && ascii_lower(entry.label@).subrange(at, at + query.len()) == query {
        assert(occurs_at(ascii_lower(entry.label@), query, at));
    }
    if 0 <= k < entry.aliases@.len() && 0 <= at && at + query.len() <= ascii_lower(entry.aliases@[k]@).len()
        && ascii_lower(entry.aliases@[k]@).subrange(at, at + query.len()) == query {
        lemma_alias_at_matches(entry.aliases@, query, 0, k, at);
    }
}

/// Under the tab of its category (or "all"), an entry shows for a search whose
/// trimmed, lower-cased text occurs in one of its aliases, lower-cased.
pub proof fn lemma_alias_search_shows_entry(
    entry: EmojiEntry,
    query: Seq<char>,
    category: EmojiCategory,
    k: int,
    at: int,
)
    requires
        category == EmojiCategory::All || entry.category == category,
        0 <= k < entry.aliases@.len(),
        0 <= at,
        at + ascii_lower(trimmed(query)).len() <= ascii_lower(entry.aliases@[k]@).len(),
        ascii_lower(entry.aliases@[k]@).subrange(at, at + ascii_lower(trimmed(query)).len()) == ascii_lower(
            trimmed(query),
        ),
    ensures
        entry_shown(entry, query, category),
{
    lemma_entry_matches_any_alias(entry, ascii_lower(trimmed(query)), k, at);
}

} // verus!
