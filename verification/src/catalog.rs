//! The catalog of components: their kinds, ids, display labels and groups,
//! and parsing a component id written loosely.

use vstd::prelude::*;
use crate::text::{
    ascii_lower_char, char_is_ascii_alphanumeric, char_to_ascii_lowercase, chars_of, is_ascii_alphanumeric,
    push_char,
};

verus! {

#[derive(Debug, Clone, Copy, PartialEq, Eq, Structural)]
pub enum ComponentKind {
    AudioPlayback,
    CanvaBackgrounds,
    CanvaBrandKit,
    CanvaEditImage,
    Button,
    CanvaPosition,
    Card,
    Checkbox,
    CollabCursor,
    Color,
    Combobox,
    Command,
    ContextMenu,
    Dialogue,
    DragBoard,
    DropdownMenu,
    FileTree,
    Hierarchy,
    Icon,
    Image,
    Input,
    Label,
    MenuBar,
    NumberInput,
    Popover,
    Radio,
    RadioGroup,
    Select,
    Sidebar,
    Slider,
    Switch,
    Tabs,
    Toast,
    Tooltip,
}

#[derive(Debug, Clone, Copy, PartialEq, Eq, Structural)]
pub enum ComponentGroup {
    Primitive,
    Composed,
}

impl ComponentGroup {
    pub fn title(self) -> (r: &'static str)
        ensures
            r@ == (match self {
                ComponentGroup::Primitive => "Primitive"@,
                ComponentGroup::Composed => "Composed"@,
            }),
    {
        match self {
            ComponentGroup::Primitive => "Primitive",
            ComponentGroup::Composed => "Composed",
        }
    }
}

#[derive(Debug, Clone, Copy)]
pub struct ComponentDefinition {
    pub kind: ComponentKind,
    pub id: &'static str,
    pub label: &'static str,
    pub group: ComponentGroup,
}

/// Every component, in catalog order.
pub open spec fn catalog() -> Seq<ComponentDefinition> {
    seq![
        ComponentDefinition { kind: ComponentKind::Label, id: "label", label: "Label", group: ComponentGroup::Primitive },
        ComponentDefinition { kind: ComponentKind::Color, id: "color", label: "Color", group: ComponentGroup::Primitive },
        ComponentDefinition { kind: ComponentKind::Image, id: "image", label: "Image", group: ComponentGroup::Primitive },
        ComponentDefinition { kind: ComponentKind::Icon, id: "icon", label: "Icon", group: ComponentGroup::Primitive },
        ComponentDefinition { kind: ComponentKind::Input, id: "input", label: "Input", group: ComponentGroup::Primitive },
        ComponentDefinition { kind: ComponentKind::Button, id: "button", label: "Button", group: ComponentGroup::Primitive },
        ComponentDefinition { kind: ComponentKind::Checkbox, id: "checkbox", label: "Checkbox", group: ComponentGroup::Primitive },
        ComponentDefinition { kind: ComponentKind::Switch, id: "switch", label: "Switch", group: ComponentGroup::Primitive },
        ComponentDefinition { kind: ComponentKind::Slider, id: "slider", label: "Slider", group: ComponentGroup::Primitive },
        ComponentDefinition { kind: ComponentKind::NumberInput, id: "number-input", label: "Number Input", group: ComponentGroup::Primitive },
        ComponentDefinition { kind: ComponentKind::Select, id: "select", label: "Select", group: ComponentGroup::Primitive },
        ComponentDefinition { kind: ComponentKind::Tabs, id: "tabs", label: "Tabs", group: ComponentGroup::Primitive },
        ComponentDefinition { kind: ComponentKind::Card, id: "card", label: "Card", group: ComponentGroup::Primitive },
        ComponentDefinition { kind: ComponentKind::Radio, id: "radio", label: "Radio", group: ComponentGroup::Primitive },
        ComponentDefinition { kind: ComponentKind::Popover, id: "popover", label: "Popover", group: ComponentGroup::Primitive },
        ComponentDefinition { kind: ComponentKind::Tooltip, id: "tooltip", label: "Tooltip", group: ComponentGroup::Primitive },
        ComponentDefinition { kind: ComponentKind::DropdownMenu, id: "dropdown-menu", label: "Dropdown Menu", group: ComponentGroup::Primitive },
        ComponentDefinition { kind: ComponentKind::CanvaBackgrounds, id: "canva-backgrounds", label: "Backgrounds", group: ComponentGroup::Composed },
        ComponentDefinition { kind: ComponentKind::CanvaBrandKit, id: "canva-brand-kit", label: "Brand Kit", group: ComponentGroup::Composed },
        ComponentDefinition { kind: ComponentKind::CanvaEditImage, id: "canva-edit-image", label: "Edit Image", group: ComponentGroup::Composed },
        ComponentDefinition { kind: ComponentKind::CanvaPosition, id: "canva-position", label: "Position", group: ComponentGroup::Composed },
        ComponentDefinition { kind: ComponentKind::CollabCursor, id: "collab-cursor", label: "Collab Cursor", group: ComponentGroup::Composed },
        ComponentDefinition { kind: ComponentKind::Hierarchy, id: "hierarchy", label: "Hierarchy", group: ComponentGroup::Composed },
        ComponentDefinition { kind: ComponentKind::FileTree, id: "file-tree", label: "FileTree", group: ComponentGroup::Composed },
        ComponentDefinition { kind: ComponentKind::AudioPlayback, id: "audio-playback", label: "Audio Playback", group: ComponentGroup::Composed },
        ComponentDefinition { kind: ComponentKind::Combobox, id: "combobox", label: "Combobox", group: ComponentGroup::Composed },
        ComponentDefinition { kind: ComponentKind::ContextMenu, id: "context-menu", label: "Context Menu", group: ComponentGroup::Composed },
        ComponentDefinition { kind: ComponentKind::RadioGroup, id: "radio-group", label: "Radio Group", group: ComponentGroup::Composed },
        ComponentDefinition { kind: ComponentKind::Command, id: "command", label: "Command", group: ComponentGroup::Composed },
        ComponentDefinition { kind: ComponentKind::Dialogue, id: "dialogue", label: "Dialogue", group: ComponentGroup::Composed },
        ComponentDefinition { kind: ComponentKind::DragBoard, id: "drag-board", label: "Drag Board", group: ComponentGroup::Composed },
        ComponentDefinition { kind: ComponentKind::MenuBar, id: "menu-bar", label: "Menu Bar", group: ComponentGroup::Composed },
        ComponentDefinition { kind: ComponentKind::Sidebar, id: "sidebar", label: "Sidebar", group: ComponentGroup::Composed },
        ComponentDefinition { kind: ComponentKind::Toast, id: "toast", label: "Toast", group: ComponentGroup::Composed },
    ]
}

/// The position in the catalog of the definition of `kind`.
pub open spec fn definition_index(kind: ComponentKind) -> int {
    match kind {
        ComponentKind::AudioPlayback => 24,
        ComponentKind::CanvaBackgrounds => 17,
        ComponentKind::CanvaBrandKit => 18,
        ComponentKind::CanvaEditImage => 19,
        ComponentKind::Button => 5,
        ComponentKind::CanvaPosition => 20,
        ComponentKind::Card => 12,
        ComponentKind::Checkbox => 6,
        ComponentKind::CollabCursor => 21,
        ComponentKind::Color => 1,
        ComponentKind::Combobox => 25,
        ComponentKind::Command => 28,
        ComponentKind::ContextMenu => 26,
        ComponentKind::Dialogue => 29,
        ComponentKind::DragBoard => 30,
        ComponentKind::DropdownMenu => 16,
        ComponentKind::FileTree => 23,
        ComponentKind::Hierarchy => 22,
        ComponentKind::Icon => 3,
        ComponentKind::Image => 2,
        ComponentKind::Input => 4,
        ComponentKind::Label => 0,
        ComponentKind::MenuBar => 31,
        ComponentKind::NumberInput => 9,
        ComponentKind::Popover => 14,
        ComponentKind::Radio => 13,
        ComponentKind::RadioGroup => 27,
        ComponentKind::Select => 10,
        ComponentKind::Sidebar => 32,
        ComponentKind::Slider => 8,
        ComponentKind::Switch => 7,
        ComponentKind::Tabs => 11,
        ComponentKind::Toast => 33,
        ComponentKind::Tooltip => 15,
    }
}

/// Every kind has its definition in the catalog.
pub proof fn lemma_every_kind_defined(kind: ComponentKind)
    ensures
        0 <= definition_index(kind) < catalog().len(),
        catalog()[definition_index(kind)].kind == kind,
{
}

/// Every component, in catalog order.
pub fn component_definitions() -> (r: Vec<ComponentDefinition>)
    ensures
        r@ == catalog(),
{
    vec![
        ComponentDefinition { kind: ComponentKind::Label, id: "label", label: "Label", group: ComponentGroup::Primitive },
        ComponentDefinition { kind: ComponentKind::Color, id: "color", label: "Color", group: ComponentGroup::Primitive },
        ComponentDefinition { kind: ComponentKind::Image, id: "image", label: "Image", group: ComponentGroup::Primitive },
        ComponentDefinition { kind: ComponentKind::Icon, id: "icon", label: "Icon", group: ComponentGroup::Primitive },
        ComponentDefinition { kind: ComponentKind::Input, id: "input", label: "Input", group: ComponentGroup::Primitive },
        ComponentDefinition { kind: ComponentKind::Button, id: "button", label: "Button", group: ComponentGroup::Primitive },
        ComponentDefinition { kind: ComponentKind::Checkbox, id: "checkbox", label: "Checkbox", group: ComponentGroup::Primitive },
        ComponentDefinition { kind: ComponentKind::Switch, id: "switch", label: "Switch", group: ComponentGroup::Primitive },
        ComponentDefinition { kind: ComponentKind::Slider, id: "slider", label: "Slider", group: ComponentGroup::Primitive },
        ComponentDefinition { kind: ComponentKind::NumberInput, id: "number-input", label: "Number Input", group: ComponentGroup::Primitive },
        ComponentDefinition { kind: ComponentKind::Select, id: "select", label: "Select", group: ComponentGroup::Primitive },
        ComponentDefinition { kind: ComponentKind::Tabs, id: "tabs", label: "Tabs", group: ComponentGroup::Primitive },
        ComponentDefinition { kind: ComponentKind::Card, id: "card", label: "Card", group: ComponentGroup::Primitive },
        ComponentDefinition { kind: ComponentKind::Radio, id: "radio", label: "Radio", group: ComponentGroup::Primitive },
        ComponentDefinition { kind: ComponentKind::Popover, id: "popover", label: "Popover", group: ComponentGroup::Primitive },
        ComponentDefinition { kind: ComponentKind::Tooltip, id: "tooltip", label: "Tooltip", group: ComponentGroup::Primitive },
        ComponentDefinition { kind: ComponentKind::DropdownMenu, id: "dropdown-menu", label: "Dropdown Menu", group: ComponentGroup::Primitive },
        ComponentDefinition { kind: ComponentKind::CanvaBackgrounds, id: "canva-backgrounds", label: "Backgrounds", group: ComponentGroup::Composed },
        ComponentDefinition { kind: ComponentKind::CanvaBrandKit, id: "canva-brand-kit", label: "Brand Kit", group: ComponentGroup::Composed },
        ComponentDefinition { kind: ComponentKind::CanvaEditImage, id: "canva-edit-image", label: "Edit Image", group: ComponentGroup::Composed },
        ComponentDefinition { kind: ComponentKind::CanvaPosition, id: "canva-position", label: "Position", group: ComponentGroup::Composed },
        ComponentDefinition { kind: ComponentKind::CollabCursor, id: "collab-cursor", label: "Collab Cursor", group: ComponentGroup::Composed },
        ComponentDefinition { kind: ComponentKind::Hierarchy, id: "hierarchy", label: "Hierarchy", group: ComponentGroup::Composed },
        ComponentDefinition { kind: ComponentKind::FileTree, id: "file-tree", label: "FileTree", group: ComponentGroup::Composed },
        ComponentDefinition { kind: ComponentKind::AudioPlayback, id: "audio-playback", label: "Audio Playback", group: ComponentGroup::Composed },
        ComponentDefinition { kind: ComponentKind::Combobox, id: "combobox", label: "Combobox", group: ComponentGroup::Composed },
        ComponentDefinition { kind: ComponentKind::ContextMenu, id: "context-menu", label: "Context Menu", group: ComponentGroup::Composed },
        ComponentDefinition { kind: ComponentKind::RadioGroup, id: "radio-group", label: "Radio Group", group: ComponentGroup::Composed },
        ComponentDefinition { kind: ComponentKind::Command, id: "command", label: "Command", group: ComponentGroup::Composed },
        ComponentDefinition { kind: ComponentKind::Dialogue, id: "dialogue", label: "Dialogue", group: ComponentGroup::Composed },
        ComponentDefinition { kind: ComponentKind::DragBoard, id: "drag-board", label: "Drag Board", group: ComponentGroup::Composed },
        ComponentDefinition { kind: ComponentKind::MenuBar, id: "menu-bar", label: "Menu Bar", group: ComponentGroup::Composed },
        ComponentDefinition { kind: ComponentKind::Sidebar, id: "sidebar", label: "Sidebar", group: ComponentGroup::Composed },
        ComponentDefinition { kind: ComponentKind::Toast, id: "toast", label: "Toast", group: ComponentGroup::Composed },
    ]
}

/// The definitions of `defs` in `group`, in order.
pub open spec fn in_group(defs: Seq<ComponentDefinition>, group: ComponentGroup) -> Seq<ComponentDefinition> {
    defs.filter(|d: ComponentDefinition| d.group == group)
}

/// Every component belongs to exactly one of the two groups.
pub proof fn lemma_groups_partition(defs: Seq<ComponentDefinition>)
    ensures
        in_group(defs, ComponentGroup::Primitive).len() + in_group(defs, ComponentGroup::Composed).len() == defs.len(),
    decreases defs.len(),
{
    reveal(Seq::filter);
    if defs.len() > 0 {
        lemma_groups_partition(defs.drop_last());
    }
}

/// The components of one group, in catalog order.
pub fn component_definitions_by_group(group: ComponentGroup) -> (r: Vec<ComponentDefinition>)
    ensures
        r@ == in_group(catalog(), group),
{
    let all = component_definitions();
    let mut r: Vec<ComponentDefinition> = Vec::new();
    let mut i: usize = 0;
    while i < all.len()
        invariant
            all@ == catalog(),
            i <= all@.len(),
            r@ == in_group(all@.subrange(0, i as int), group),
        decreases all@.len() - i,
    {
        let d = all[i];
        if d.group == group {
            r.push(d);
        }
        proof {
            reveal(Seq::filter);
            assert(all@.subrange(0, i + 1).drop_last() =~= all@.subrange(0, i as int));
        }
        i += 1;
    }
    assert(all@.subrange(0, all@.len() as int) =~= all@);
    r
}

/// The first definition of `kind` in `defs`, from position `i` on.
pub open spec fn first_with_kind(defs: Seq<ComponentDefinition>, kind: ComponentKind, i: int) -> Option<ComponentDefinition>
    decreases defs.len() - i,
{
    if i < 0 || i >= defs.len() {
        None
    } else if defs[i].kind == kind {
        Some(defs[i])
    } else {
        first_with_kind(defs, kind, i + 1)
    }
}

proof fn lemma_first_with_kind_found(defs: Seq<ComponentDefinition>, kind: ComponentKind, i: int, k: int)
    requires
        0 <= i <= k < defs.len(),
        defs[k].kind == kind,
    ensures
        first_with_kind(defs, kind, i) is Some,
    decreases defs.len() - i,
{
    if defs[i].kind != kind {
        lemma_first_with_kind_found(defs, kind, i + 1, k);
    }
}

/// The definition of `kind`.
pub fn component_definition(kind: ComponentKind) -> (r: ComponentDefinition)
    ensures
        first_with_kind(catalog(), kind, 0) == Some(r),
{
    let defs = component_definitions();
    proof {
        lemma_every_kind_defined(kind);
        lemma_first_with_kind_found(catalog(), kind, 0, definition_index(kind));
    }
    let mut i: usize = 0;
    while i < defs.len()
        invariant
            defs@ == catalog(),
            i <= defs@.len(),
            first_with_kind(catalog(), kind, 0) == first_with_kind(catalog(), kind, i as int),
            first_with_kind(catalog(), kind, 0) is Some,
        decreases defs@.len() - i,
    {
        if defs[i].kind == kind {
            return defs[i];
        }
        i += 1;
    }
    defs[0]
}

impl ComponentKind {
    /// The label under which the catalog shows this kind.
    pub fn display_name(self) -> (r: &'static str)
        ensures
            first_with_kind(catalog(), self, 0) matches Some(d) && r == d.label,
    {
        component_definition(self).label
    }
}

/// `s` with everything but ASCII letters and digits dropped and the letters
/// made small, so that `"Number_Input"` and `"number-input"` read alike.
pub open spec fn normalized_id(s: Seq<char>) -> Seq<char>
    decreases s.len(),
{
    if s.len() == 0 {
        Seq::empty()
    } else if is_ascii_alphanumeric(s.last()) {
        normalized_id(s.drop_last()).push(ascii_lower_char(s.last()))
    } else {
        normalized_id(s.drop_last())
    }
}

/// Normalizing twice changes nothing more than normalizing once, so an id
/// already in normal form reads as itself.
pub proof fn lemma_normalize_idempotent(s: Seq<char>)
    ensures
        normalized_id(normalized_id(s)) == normalized_id(s),
    decreases s.len(),
{
    if s.len() > 0 {
        lemma_normalize_idempotent(s.drop_last());
        let t = normalized_id(s.drop_last());
        if is_ascii_alphanumeric(s.last()) {
            let c = ascii_lower_char(s.last());
            assert(t.push(c).drop_last() =~= t);
            assert(t.push(c).last() == c);
        }
    }
}

pub fn normalize_component_id(value: &str) -> (r: String)
    ensures
        r@ == normalized_id(value@),
{
    let chars = chars_of(value);
    let mut r = String::new();
    let mut i: usize = 0;
    while i < chars.len()
        invariant
            chars@ == value@,
            i <= chars@.len(),
            r@ == normalized_id(value@.subrange(0, i as int)),
        decreases chars@.len() - i,
    {
        let c = chars[i];
        if char_is_ascii_alphanumeric(c) {
            push_char(&mut r, char_to_ascii_lowercase(c));
        }
        assert(value@.subrange(0, i + 1).drop_last() =~= value@.subrange(0, i as int));
        i += 1;
    }
    assert(value@.subrange(0, chars@.len() as int) =~= value@);
    r
}

/// The kind of the first definition whose id reads like `normalized`, from position `i` on.
pub open spec fn kind_for_id_from(defs: Seq<ComponentDefinition>, normalized: Seq<char>, i: int) -> Option<ComponentKind>
    decreases defs.len() - i,
{
    if i < 0 || i >= defs.len() {
        None
    } else if normalized_id(defs[i].id@) == normalized {
        Some(defs[i].kind)
    } else {
        kind_for_id_from(defs, normalized, i + 1)
    }
}

/// The kind whose id reads like `value`, letters' case, dashes, spaces and
/// underscores aside; `None` where no component has such an id.
pub fn parse_component_kind(value: &str) -> (r: Option<ComponentKind>)
    ensures
        r == kind_for_id_from(catalog(), normalized_id(value@), 0),
{
    let normalized = normalize_component_id(value);
    let defs = component_definitions();
    let mut i: usize = 0;
    while i < defs.len()
        invariant
            defs@ == catalog(),
            normalized@ == normalized_id(value@),
            i <= defs@.len(),
            kind_for_id_from(catalog(), normalized_id(value@), 0) == kind_for_id_from(catalog(), normalized_id(value@), i as int),
        decreases defs@.len() - i,
    {
        let candidate = normalize_component_id(defs[i].id);
        if crate::text::str_equal(candidate.as_str(), normalized.as_str()) {
            return Some(defs[i].kind);
        }
        i += 1;
    }
    None
}

/// The ids in `defs` from position `i` on, each followed by `", "` but the last.
pub open spec fn ids_csv_from(defs: Seq<ComponentDefinition>, i: int) -> Seq<char>
    decreases defs.len() - i,
{
    if i < 0 || i >= defs.len() {
        Seq::empty()
    } else if i == defs.len() - 1 {
        defs[i].id@
    } else {
        defs[i].id@ + ", "@ + ids_csv_from(defs, i + 1)
    }
}

/// Every component id, separated by commas.
pub fn supported_component_ids_csv() -> (r: String)
    ensures
        r@ == ids_csv_from(catalog(), 0),
{
    let defs = component_definitions();
    let mut r = String::new();
    let mut i: usize = 0;
    while i < defs.len()
        invariant
            defs@ == catalog(),
            i <= defs@.len(),
            r@ + ids_csv_from(catalog(), i as int) == ids_csv_from(catalog(), 0),
        decreases defs@.len() - i,
    {
        let ghost before = r@;
        r.append(defs[i].id);
        if i + 1 < defs.len() {
            r.append(", ");
        }
        assert(r@ + ids_csv_from(catalog(), i + 1) =~= before + ids_csv_from(catalog(), i as int));
        i += 1;
    }
    r
}


/// A few letters of the normal form of the `i`-th catalog id: its length,
/// its first two letters and its last one. No two ids share them.
pub open spec fn catalog_id_key(i: int) -> (int, char, char, char) {
    if i == 0 {
        (5, 'l', 'a', 'l')
    } else if i == 1 {
        (5, 'c', 'o', 'r')
    } else if i == 2 {
        (5, 'i', 'm', 'e')
    } else if i == 3 {
        (4, 'i', 'c', 'n')
    } else if i == 4 {
        (5, 'i', 'n', 't')
    } else if i == 5 {
        (6, 'b', 'u', 'n')
    } else if i == 6 {
        (8, 'c', 'h', 'x')
    } else if i == 7 {
        (6, 's', 'w', 'h')
    } else if i == 8 {
        (6, 's', 'l', 'r')
    } else if i == 9 {
        (11, 'n', 'u', 't')
    } else if i == 10 {
        (6, 's', 'e', 't')
    } else if i == 11 {
        (4, 't', 'a', 's')
    } else if i == 12 {
        (4, 'c', 'a', 'd')
    } else if i == 13 {
        (5, 'r', 'a', 'o')
    } else if i == 14 {
        (7, 'p', 'o', 'r')
    } else if i == 15 {
        (7, 't', 'o', 'p')
    } else if i == 16 {
        (12, 'd', 'r', 'u')
    } else if i == 17 {
        (16, 'c', 'a', 's')
    } else if i == 18 {
        (13, 'c', 'a', 't')
    } else if i == 19 {
        (14, 'c', 'a', 'e')
    } else if i == 20 {
        (13, 'c', 'a', 'n')
    } else if i == 21 {
        (12, 'c', 'o', 'r')
    } else if i == 22 {
        (9, 'h', 'i', 'y')
    } else if i == 23 {
        (8, 'f', 'i', 'e')
    } else if i == 24 {
        (13, 'a', 'u', 'k')
    } else if i == 25 {
        (8, 'c', 'o', 'x')
    } else if i == 26 {
        (11, 'c', 'o', 'u')
    } else if i == 27 {
        (10, 'r', 'a', 'p')
    } else if i == 28 {
        (7, 'c', 'o', 'd')
    } else if i == 29 {
        (8, 'd', 'i', 'e')
    } else if i == 30 {
        (9, 'd', 'r', 'd')
    } else if i == 31 {
        (7, 'm', 'e', 'r')
    } else if i == 32 {
        (7, 's', 'i', 'r')
    } else {
        (5, 't', 'o', 't')
    }
}

/// The length, the first two letters and the last letter of an id.
pub open spec fn id_key(s: Seq<char>) -> (int, char, char, char) {
    (s.len() as int, s[0], s[1], s[s.len() - 1])
}

#[verifier::spinoff_prover]
#[verifier::rlimit(100)]
proof fn lemma_primitive_id_keys()
    ensures
        forall|i: int| 0 <= i < 17 ==> id_key(normalized_id(#[trigger] catalog()[i].id@)) == catalog_id_key(i),
{
    assert forall|i: int| 0 <= i < 17 implies id_key(normalized_id(#[trigger] catalog()[i].id@)) == catalog_id_key(i) by {
        if i == 0 {
            assert(id_key(normalized_id("label"@)) == catalog_id_key(0)) by {
                reveal_strlit("label");
                reveal_with_fuel(normalized_id, 6);
            }
        } else if i == 1 {
            assert(id_key(normalized_id("color"@)) == catalog_id_key(1)) by {
                reveal_strlit("color");
                reveal_with_fuel(normalized_id, 6);
            }
        } else if i == 2 {
            assert(id_key(normalized_id("image"@)) == catalog_id_key(2)) by {
                reveal_strlit("image");
                reveal_with_fuel(normalized_id, 6);
            }
        } else if i == 3 {
            assert(id_key(normalized_id("icon"@)) == catalog_id_key(3)) by {
                reveal_strlit("icon");
                reveal_with_fuel(normalized_id, 5);
            }
        } else if i == 4 {
            assert(id_key(normalized_id("input"@)) == catalog_id_key(4)) by {
                reveal_strlit("input");
                reveal_with_fuel(normalized_id, 6);
            }
        } else if i == 5 {
            assert(id_key(normalized_id("button"@)) == catalog_id_key(5)) by {
                reveal_strlit("button");
                reveal_with_fuel(normalized_id, 7);
            }
        } else if i == 6 {
            assert(id_key(normalized_id("checkbox"@)) == catalog_id_key(6)) by {
                reveal_strlit("checkbox");
                reveal_with_fuel(normalized_id, 9);
            }
        } else if i == 7 {
            assert(id_key(normalized_id("switch"@)) == catalog_id_key(7)) by {
                reveal_strlit("switch");
                reveal_with_fuel(normalized_id, 7);
            }
        } else if i == 8 {
            assert(id_key(normalized_id("slider"@)) == catalog_id_key(8)) by {
                reveal_strlit("slider");
                reveal_with_fuel(normalized_id, 7);
            }
        } else if i == 9 {
            assert(id_key(normalized_id("number-input"@)) == catalog_id_key(9)) by {
                reveal_strlit("number-input");
                reveal_with_fuel(normalized_id, 13);
            }
        } else if i == 10 {
            assert(id_key(normalized_id("select"@)) == catalog_id_key(10)) by {
                reveal_strlit("select");
                reveal_with_fuel(normalized_id, 7);
            }
        } else if i == 11 {
            assert(id_key(normalized_id("tabs"@)) == catalog_id_key(11)) by {
                reveal_strlit("tabs");
                reveal_with_fuel(normalized_id, 5);
            }
        } else if i == 12 {
            assert(id_key(normalized_id("card"@)) == catalog_id_key(12)) by {
                reveal_strlit("card");
                reveal_with_fuel(normalized_id, 5);
            }
        } else if i == 13 {
            assert(id_key(normalized_id("radio"@)) == catalog_id_key(13)) by {
                reveal_strlit("radio");
                reveal_with_fuel(normalized_id, 6);
            }
        } else if i == 14 {
            assert(id_key(normalized_id("popover"@)) == catalog_id_key(14)) by {
                reveal_strlit("popover");
                reveal_with_fuel(normalized_id, 8);
            }
        } else if i == 15 {
            assert(id_key(normalized_id("tooltip"@)) == catalog_id_key(15)) by {
                reveal_strlit("tooltip");
                reveal_with_fuel(normalized_id, 8);
            }
        } else {
            assert(id_key(normalized_id("dropdown-menu"@)) == catalog_id_key(16)) by {
                reveal_strlit("dropdown-menu");
                reveal_with_fuel(normalized_id, 14);
            }
        }
    }
}

#[verifier::spinoff_prover]
#[verifier::rlimit(100)]
proof fn lemma_composed_id_keys()
    ensures
        forall|i: int| 17 <= i < 34 ==> id_key(normalized_id(#[trigger] catalog()[i].id@)) == catalog_id_key(i),
{
    assert forall|i: int| 17 <= i < 34 implies id_key(normalized_id(#[trigger] catalog()[i].id@)) == catalog_id_key(i) by {
        if i == 17 {
            assert(id_key(normalized_id("canva-backgrounds"@)) == catalog_id_key(17)) by {
                reveal_strlit("canva-backgrounds");
                reveal_with_fuel(normalized_id, 18);
            }
        } else if i == 18 {
            assert(id_key(normalized_id("canva-brand-kit"@)) == catalog_id_key(18)) by {
                reveal_strlit("canva-brand-kit");
                reveal_with_fuel(normalized_id, 16);
            }
        } else if i == 19 {
            assert(id_key(normalized_id("canva-edit-image"@)) == catalog_id_key(19)) by {
                reveal_strlit("canva-edit-image");
                reveal_with_fuel(normalized_id, 17);
            }
        } else if i == 20 {
            assert(id_key(normalized_id("canva-position"@)) == catalog_id_key(20)) by {
                reveal_strlit("canva-position");
                reveal_with_fuel(normalized_id, 15);
            }
        } else if i == 21 {
            assert(id_key(normalized_id("collab-cursor"@)) == catalog_id_key(21)) by {
                reveal_strlit("collab-cursor");
                reveal_with_fuel(normalized_id, 14);
            }
        } else if i == 22 {
            assert(id_key(normalized_id("hierarchy"@)) == catalog_id_key(22)) by {
                reveal_strlit("hierarchy");
                reveal_with_fuel(normalized_id, 10);
            }
        } else if i == 23 {
            assert(id_key(normalized_id("file-tree"@)) == catalog_id_key(23)) by {
                reveal_strlit("file-tree");
                reveal_with_fuel(normalized_id, 10);
            }
        } else if i == 24 {
            assert(id_key(normalized_id("audio-playback"@)) == catalog_id_key(24)) by {
                reveal_strlit("audio-playback");
                reveal_with_fuel(normalized_id, 15);
            }
        } else if i == 25 {
            assert(id_key(normalized_id("combobox"@)) == catalog_id_key(25)) by {
                reveal_strlit("combobox");
                reveal_with_fuel(normalized_id, 9);
            }
        } else if i == 26 {
            assert(id_key(normalized_id("context-menu"@)) == catalog_id_key(26)) by {
                reveal_strlit("context-menu");
                reveal_with_fuel(normalized_id, 13);
            }
        } else if i == 27 {
            assert(id_key(normalized_id("radio-group"@)) == catalog_id_key(27)) by {
                reveal_strlit("radio-group");
                reveal_with_fuel(normalized_id, 12);
            }
        } else if i == 28 {
            assert(id_key(normalized_id("command"@)) == catalog_id_key(28)) by {
                reveal_strlit("command");
                reveal_with_fuel(normalized_id, 8);
            }
        } else if i == 29 {
            assert(id_key(normalized_id("dialogue"@)) == catalog_id_key(29)) by {
                reveal_strlit("dialogue");
                reveal_with_fuel(normalized_id, 9);
            }
        } else if i == 30 {
            assert(id_key(normalized_id("drag-board"@)) == catalog_id_key(30)) by {
                reveal_strlit("drag-board");
                reveal_with_fuel(normalized_id, 11);
            }
        } else if i == 31 {
            assert(id_key(normalized_id("menu-bar"@)) == catalog_id_key(31)) by {
                reveal_strlit("menu-bar");
                reveal_with_fuel(normalized_id, 9);
            }
        } else if i == 32 {
            assert(id_key(normalized_id("sidebar"@)) == catalog_id_key(32)) by {
                reveal_strlit("sidebar");
                reveal_with_fuel(normalized_id, 8);
            }
        } else {
            assert(id_key(normalized_id("toast"@)) == catalog_id_key(33)) by {
                reveal_strlit("toast");
                reveal_with_fuel(normalized_id, 6);
            }
        }
    }
}

proof fn lemma_catalog_id_keys()
    ensures
        forall|i: int| 0 <= i < catalog().len() ==> id_key(normalized_id(#[trigger] catalog()[i].id@)) == catalog_id_key(i),
{
    lemma_primitive_id_keys();
    lemma_composed_id_keys();
}

proof fn lemma_catalog_keys_distinct()
    ensures
        forall|i: int, j: int| 0 <= i < catalog().len() && 0 <= j < catalog().len() && i != j ==> catalog_id_key(i) != catalog_id_key(j),
{
}

proof fn lemma_kind_for_id_skip(defs: Seq<ComponentDefinition>, normalized: Seq<char>, i: int, j: int)
    requires
        0 <= i <= j <= defs.len(),
        forall|k: int| i <= k < j ==> normalized_id((#[trigger] defs[k]).id@) != normalized,
    ensures
        kind_for_id_from(defs, normalized, i) == kind_for_id_from(defs, normalized, j),
    decreases j - i,
{
    if i < j {
        assert(normalized_id(defs[i].id@) != normalized);
        lemma_kind_for_id_skip(defs, normalized, i + 1, j);
    }
}

/// Every component's id parses back to the component's kind: no earlier
/// entry of the catalog has an id that reads the same.
pub proof fn lemma_ids_parse_back(kind: ComponentKind)
    ensures
        kind_for_id_from(catalog(), normalized_id(catalog()[definition_index(kind)].id@), 0) == Some(kind),
{
    lemma_every_kind_defined(kind);
    lemma_catalog_id_keys();
    lemma_catalog_keys_distinct();
    let j = definition_index(kind);
    let n = normalized_id(catalog()[j].id@);
    assert forall|k: int| 0 <= k < j implies normalized_id((#[trigger] catalog()[k]).id@) != n by {
        assert(id_key(normalized_id(catalog()[k].id@)) == catalog_id_key(k));
        assert(id_key(n) == catalog_id_key(j));
    }
    lemma_kind_for_id_skip(catalog(), n, 0, j);
}

} // verus!
