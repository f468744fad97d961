//! The layer tree behind the hierarchy widget: lookup, containment,
//! drag-and-drop moves and the visible selection range.

use vstd::prelude::*;
use crate::common::CornerRadii;

verus! {

#[derive(Debug, Clone, Copy, PartialEq, Eq, Structural)]
pub enum HierarchyItemKind {
    Folder,
    Frame,
    Group,
    Player,
    Weapon,
    Clothing,
    Hitbox,
    Vector,
}

#[derive(Debug, Clone, Copy, PartialEq, Eq, Structural)]
pub enum HierarchyIconStyle {
    Emoji,
    Icons,
}

impl Default for HierarchyIconStyle {
    fn default() -> (r: Self)
        ensures
            r == HierarchyIconStyle::Emoji,
    {
        HierarchyIconStyle::Emoji
    }
}

#[derive(Debug, Clone, Copy, PartialEq, Eq, Structural)]
pub enum HierarchyStyle {
    Normal,
    Component,
}

impl Default for HierarchyStyle {
    fn default() -> (r: Self)
        ensures
            r == HierarchyStyle::Normal,
    {
        HierarchyStyle::Normal
    }
}

/// What a row of the tree shows in front of its label.
#[derive(Debug, Clone, Copy)]
pub enum HierarchyItemIcon {
    Icon(&'static str),
    Twemoji(&'static str),
}

/// The icon that `kind` shows under `style`.
pub open spec fn item_icon(kind: HierarchyItemKind, style: HierarchyIconStyle) -> HierarchyItemIcon {
    match style {
        HierarchyIconStyle::Emoji => match kind {
            HierarchyItemKind::Folder => HierarchyItemIcon::Icon("bootstrap:folder-fill"),
            HierarchyItemKind::Frame => HierarchyItemIcon::Twemoji("🧩"),
            HierarchyItemKind::Group => HierarchyItemIcon::Twemoji("⚙️"),
            HierarchyItemKind::Player => HierarchyItemIcon::Twemoji("🧍"),
            HierarchyItemKind::Weapon => HierarchyItemIcon::Twemoji("⚔️"),
            HierarchyItemKind::Clothing => HierarchyItemIcon::Twemoji("👕"),
            HierarchyItemKind::Hitbox => HierarchyItemIcon::Twemoji("🎯"),
            HierarchyItemKind::Vector => HierarchyItemIcon::Twemoji("🔷"),
        },
        HierarchyIconStyle::Icons => match kind {
            HierarchyItemKind::Folder => HierarchyItemIcon::Icon("bootstrap:folder-fill"),
            HierarchyItemKind::Frame => HierarchyItemIcon::Icon("frame"),
            HierarchyItemKind::Group => HierarchyItemIcon::Icon("group"),
            HierarchyItemKind::Player => HierarchyItemIcon::Icon("person-standing"),
            HierarchyItemKind::Weapon => HierarchyItemIcon::Icon("sword"),
            HierarchyItemKind::Clothing => HierarchyItemIcon::Icon("shirt"),
            HierarchyItemKind::Hitbox => HierarchyItemIcon::Icon("crosshair"),
            HierarchyItemKind::Vector => HierarchyItemIcon::Icon("diamond"),
        },
    }
}

impl HierarchyItemKind {
    pub fn icon(self, icon_style: HierarchyIconStyle) -> (r: HierarchyItemIcon)
        ensures
            r == item_icon(self, icon_style),
    {
        match icon_style {
            HierarchyIconStyle::Emoji => match self {
                HierarchyItemKind::Folder => HierarchyItemIcon::Icon("bootstrap:folder-fill"),
                HierarchyItemKind::Frame => HierarchyItemIcon::Twemoji("🧩"),
                HierarchyItemKind::Group => HierarchyItemIcon::Twemoji("⚙️"),
                HierarchyItemKind::Player => HierarchyItemIcon::Twemoji("🧍"),
                HierarchyItemKind::Weapon => HierarchyItemIcon::Twemoji("⚔️"),
                HierarchyItemKind::Clothing => HierarchyItemIcon::Twemoji("👕"),
                HierarchyItemKind::Hitbox => HierarchyItemIcon::Twemoji("🎯"),
                HierarchyItemKind::Vector => HierarchyItemIcon::Twemoji("🔷"),
            },
            HierarchyIconStyle::Icons => match self {
                HierarchyItemKind::Folder => HierarchyItemIcon::Icon("bootstrap:folder-fill"),
                HierarchyItemKind::Frame => HierarchyItemIcon::Icon("frame"),
                HierarchyItemKind::Group => HierarchyItemIcon::Icon("group"),
                HierarchyItemKind::Player => HierarchyItemIcon::Icon("person-standing"),
                HierarchyItemKind::Weapon => HierarchyItemIcon::Icon("sword"),
                HierarchyItemKind::Clothing => HierarchyItemIcon::Icon("shirt"),
                HierarchyItemKind::Hitbox => HierarchyItemIcon::Icon("crosshair"),
                HierarchyItemKind::Vector => HierarchyItemIcon::Icon("diamond"),
            },
        }
    }
}

/// One row of the tree and, below it, its children.
#[derive(Debug)]
pub struct HierarchyNode<'a> {
    pub id: usize,
    pub label: &'a str,
    pub kind: HierarchyItemKind,
    pub expanded: bool,
    pub locked: bool,
    pub children: Vec<HierarchyNode<'a>>,
}

/// The mathematical value of a node: its fields, its label as characters,
/// and its children as a sequence of such values.
pub struct HierarchyNodeView {
    pub id: usize,
    pub label: Seq<char>,
    pub kind: HierarchyItemKind,
    pub expanded: bool,
    pub locked: bool,
    pub children: Seq<HierarchyNodeView>,
}

/// A placeholder value, used only outside a sequence's bounds.
pub open spec fn empty_node_view() -> HierarchyNodeView {
    HierarchyNodeView {
        id: 0,
        label: Seq::empty(),
        kind: HierarchyItemKind::Folder,
        expanded: false,
        locked: false,
        children: Seq::empty(),
    }
}

impl<'a> HierarchyNode<'a> {
    pub open spec fn node_view(self) -> HierarchyNodeView
        decreases self,
    {
        HierarchyNodeView {
            id: self.id,
            label: self.label@,
            kind: self.kind,
            expanded: self.expanded,
            locked: self.locked,
            children: forest(self.children@),
        }
    }

    pub fn new(id: usize, label: &'a str, kind: HierarchyItemKind) -> (r: Self)
        ensures
            r.node_view() == (HierarchyNodeView {
                id,
                label: label@,
                kind,
                expanded: true,
                locked: false,
                children: Seq::empty(),
            }),
            r.label == label,
    {
        let r = HierarchyNode { id, label, kind, expanded: true, locked: false, children: Vec::new() };
        assert(forest(r.children@) =~= Seq::empty());
        r
    }

    pub fn expanded(self, expanded: bool) -> (r: Self)
        ensures
            r == (HierarchyNode { expanded, ..self }),
    {
        let mut s = self;
        s.expanded = expanded;
        s
    }

    pub fn locked(self, locked: bool) -> (r: Self)
        ensures
            r == (HierarchyNode { locked, ..self }),
    {
        let mut s = self;
        s.locked = locked;
        s
    }

    pub fn children(self, children: Vec<HierarchyNode<'a>>) -> (r: Self)
        ensures
            r == (HierarchyNode { children, ..self }),
    {
        let mut s = self;
        s.children = children;
        s
    }
}

/// The values of a sequence of nodes.
pub open spec fn forest<'a>(ns: Seq<HierarchyNode<'a>>) -> Seq<HierarchyNodeView>
    decreases ns,
{
    Seq::new(
        ns.len(),
        |i: int|
            if 0 <= i < ns.len() {
                ns[i].node_view()
            } else {
                empty_node_view()
            },
    )
}

/// `n` with other children.
pub open spec fn with_children(n: HierarchyNodeView, c: Seq<HierarchyNodeView>) -> HierarchyNodeView {
    HierarchyNodeView { children: c, ..n }
}

/// The first position at or after `i` among `ns` whose id is `id`.
pub open spec fn index_from(ns: Seq<HierarchyNodeView>, id: usize, i: int) -> Option<int>
    decreases ns.len() - i,
{
    if i < 0 || i >= ns.len() {
        None
    } else if ns[i].id == id {
        Some(i)
    } else {
        index_from(ns, id, i + 1)
    }
}

/// The first node with id `id` in a depth-first, parent-before-children
/// walk of `ns` from position `i` on.
pub open spec fn find_from(ns: Seq<HierarchyNodeView>, id: usize, i: int) -> Option<HierarchyNodeView>
    decreases ns, ns.len() - i,
{
    if i < 0 || i >= ns.len() {
        None
    } else if ns[i].id == id {
        Some(ns[i])
    } else {
        match find_from(ns[i].children, id, 0) {
            Some(n) => Some(n),
            None => find_from(ns, id, i + 1),
        }
    }
}

/// Whether `n` or one of its descendants has id `candidate`.
pub open spec fn subtree_contains(n: HierarchyNodeView, candidate: usize) -> bool
    decreases n, 0int,
{
    n.id == candidate || any_subtree_contains(n.children, candidate, 0)
}

/// Whether one of the subtrees of `ns` from position `i` on has a node `candidate`.
pub open spec fn any_subtree_contains(ns: Seq<HierarchyNodeView>, candidate: usize, i: int) -> bool
    decreases ns, ns.len() - i,
{
    if i < 0 || i >= ns.len() {
        false
    } else {
        subtree_contains(ns[i], candidate) || any_subtree_contains(ns, candidate, i + 1)
    }
}

/// Whether the first node `ancestor` of `ns` has `candidate` in its subtree.
pub open spec fn node_contains(ns: Seq<HierarchyNodeView>, ancestor: usize, candidate: usize) -> bool {
    match find_from(ns, ancestor, 0) {
        Some(a) => subtree_contains(a, candidate),
        None => false,
    }
}

/// Taking node `id` out of `ns`: the siblings are searched before the
/// children, and the children of each sibling in order. The result is the
/// remaining forest, the node, the id of its parent and its position there.
pub open spec fn take_from(ns: Seq<HierarchyNodeView>, parent: Option<usize>, id: usize) -> Option<
    (Seq<HierarchyNodeView>, HierarchyNodeView, Option<usize>, int),
>
    decreases ns, ns.len() + 1,
{
    match index_from(ns, id, 0) {
        Some(i) => Some((ns.remove(i), ns[i], parent, i)),
        None => take_below(ns, id, 0),
    }
}

/// Taking node `id` out of the children of `ns[j]`, `ns[j + 1]`, ...
pub open spec fn take_below(ns: Seq<HierarchyNodeView>, id: usize, j: int) -> Option<
    (Seq<HierarchyNodeView>, HierarchyNodeView, Option<usize>, int),
>
    decreases ns, ns.len() - j,
{
    if j < 0 || j >= ns.len() {
        None
    } else {
        match take_from(ns[j].children, Some(ns[j].id), id) {
            Some(t) => Some((ns.update(j, with_children(ns[j], t.0)), t.1, t.2, t.3)),
            None => take_below(ns, id, j + 1),
        }
    }
}

/// Inserting `node` at `index` (or last, where `index` is past the end)
/// among the children of the first node `parent` (depth-first) of `ns`,
/// searched from position `j` on.
pub open spec fn insert_below(
    ns: Seq<HierarchyNodeView>,
    parent: usize,
    index: int,
    node: HierarchyNodeView,
    j: int,
) -> Option<Seq<HierarchyNodeView>>
    decreases ns, ns.len() - j,
{
    if j < 0 || j >= ns.len() {
        None
    } else if ns[j].id == parent {
        let c = ns[j].children;
        Some(ns.update(j, with_children(ns[j], c.insert(clamp_index(index, c.len() as int), node))))
    } else {
        match insert_below(ns[j].children, parent, index, node, 0) {
            Some(c) => Some(ns.update(j, with_children(ns[j], c))),
            None => insert_below(ns, parent, index, node, j + 1),
        }
    }
}

pub open spec fn clamp_index(index: int, len: int) -> int {
    if index < 0 {
        0
    } else if index < len {
        index
    } else {
        len
    }
}

/// Inserting `node` at `index` among the roots (`parent` is `None`) or among
/// the children of node `parent`.
pub open spec fn insert_sibling(
    ns: Seq<HierarchyNodeView>,
    parent: Option<usize>,
    index: int,
    node: HierarchyNodeView,
) -> Option<Seq<HierarchyNodeView>> {
    match parent {
        None => Some(ns.insert(clamp_index(index, ns.len() as int), node)),
        Some(p) => insert_below(ns, p, index, node, 0),
    }
}

/// Marking the first node `id` (depth-first) of `ns`, from position `i` on, expanded.
pub open spec fn expand_from(ns: Seq<HierarchyNodeView>, id: usize, i: int) -> Option<Seq<HierarchyNodeView>>
    decreases ns, ns.len() - i,
{
    if i < 0 || i >= ns.len() {
        None
    } else if ns[i].id == id {
        Some(ns.update(i, HierarchyNodeView { expanded: true, ..ns[i] }))
    } else {
        match expand_from(ns[i].children, id, 0) {
            Some(c) => Some(ns.update(i, with_children(ns[i], c))),
            None => expand_from(ns, id, i + 1),
        }
    }
}

/// The position at which a moved node lands among its new siblings, before
/// clamping: one less where it leaves an earlier slot of the same list.
pub open spec fn adjusted_target_index(
    source_parent: Option<usize>,
    source_index: int,
    target_parent: Option<usize>,
    target_index: int,
) -> int {
    if source_parent == target_parent && source_index < target_index {
        target_index - 1
    } else {
        target_index
    }
}

/// What moving node `node_id` under `target_parent` at `target_index` does
/// to the forest `ns`: whether it reports success, and the forest after it.
pub open spec fn moved(
    ns: Seq<HierarchyNodeView>,
    node_id: usize,
    target_parent: Option<usize>,
    target_index: int,
    expand_target: Option<usize>,
) -> (bool, Seq<HierarchyNodeView>) {
    if target_parent == Some(node_id) {
        (false, ns)
    } else if target_parent is Some && node_contains(ns, node_id, target_parent->0) {
        (false, ns)
    } else if target_parent is Some && find_from(ns, target_parent->0, 0) is None {
        (false, ns)
    } else {
        match take_from(ns, None, node_id) {
            None => (false, ns),
            Some(t) => {
                let index = adjusted_target_index(t.2, t.3, target_parent, target_index);
                match insert_sibling(t.0, target_parent, index, t.1) {
                    None => (false, t.0),
                    Some(inserted) => (
                        true,
                        match expand_target {
                            Some(e) => match expand_from(inserted, e, 0) {
                                Some(x) => x,
                                None => inserted,
                            },
                            None => inserted,
                        },
                    ),
                }
            },
        }
    }
}


fn hierarchy_position(nodes: &Vec<HierarchyNode<'_>>, node_id: usize) -> (r: Option<usize>)
    ensures
        r matches Some(i) ==> index_from(forest(nodes@), node_id, 0) == Some(i as int) && i < nodes@.len(),
        r is None <==> index_from(forest(nodes@), node_id, 0) is None,
{
    let mut i: usize = 0;
    while i < nodes.len()
        invariant
            i <= nodes.len(),
            index_from(forest(nodes@), node_id, 0) == index_from(forest(nodes@), node_id, i as int),
        decreases nodes.len() - i,
    {
        if nodes[i].id == node_id {
            return Some(i);
        }
        i += 1;
    }
    None
}

/// The first node `node_id` in a depth-first walk of `nodes`.
pub fn find_hierarchy_node<'nodes, 'data>(
    nodes: &'nodes [HierarchyNode<'data>],
    node_id: usize,
) -> (r: Option<&'nodes HierarchyNode<'data>>)
    ensures
        match find_from(forest(nodes@), node_id, 0) {
            Some(n) => r is Some && r.unwrap().node_view() == n,
            None => r is None,
        },
    decreases forest(nodes@),
{
    let mut i: usize = 0;
    while i < nodes.len()
        invariant
            i <= nodes.len(),
            find_from(forest(nodes@), node_id, 0) == find_from(forest(nodes@), node_id, i as int),
        decreases nodes.len() - i,
    {
        let node = &nodes[i];
        if node.id == node_id {
            return Some(node);
        }
        assert(decreases_to!(forest(nodes@) => forest(node.children@))) by {
            assert(forest(nodes@)[i as int].children == forest(node.children@));
        }
        match find_hierarchy_node(node.children.as_slice(), node_id) {
            Some(found) => {
                return Some(found);
            },
            None => {},
        }
        i += 1;
    }
    None
}

/// Whether `node` or one of its descendants has id `candidate_id`.
pub fn hierarchy_subtree_contains(node: &HierarchyNode<'_>, candidate_id: usize) -> (r: bool)
    ensures
        r == subtree_contains(node.node_view(), candidate_id),
    decreases node.node_view(),
{
    if node.id == candidate_id {
        return true;
    }
    let ghost v = node.node_view();
    let mut i: usize = 0;
    while i < node.children.len()
        invariant
            i <= node.children.len(),
            v == node.node_view(),
            v.id != candidate_id,
            subtree_contains(v, candidate_id) == any_subtree_contains(v.children, candidate_id, i as int),
        decreases node.children.len() - i,
    {
        let child = &node.children[i];
        assert(decreases_to!(v => child.node_view())) by {
            assert(v.children[i as int] == child.node_view());
        }
        if hierarchy_subtree_contains(child, candidate_id) {
            return true;
        }
        i += 1;
    }
    false
}

/// Whether the first node `ancestor_id` of `nodes` has `candidate_id` in its subtree.
pub fn hierarchy_node_contains(
    nodes: &[HierarchyNode<'_>],
    ancestor_id: usize,
    candidate_id: usize,
) -> (r: bool)
    ensures
        r == node_contains(forest(nodes@), ancestor_id, candidate_id),
{
    match find_hierarchy_node(nodes, ancestor_id) {
        Some(ancestor) => hierarchy_subtree_contains(ancestor, candidate_id),
        None => false,
    }
}

/// Takes node `node_id` out of `nodes`, whose parent is `parent_id`, and
/// returns it with the id of its parent and its position among its siblings.
pub fn take_hierarchy_node<'data>(
    nodes: &mut Vec<HierarchyNode<'data>>,
    parent_id: Option<usize>,
    node_id: usize,
) -> (r: Option<(HierarchyNode<'data>, Option<usize>, usize)>)
    ensures
        match take_from(forest(old(nodes)@), parent_id, node_id) {
            Some(t) => {
                &&& r is Some
                &&& forest(final(nodes)@) == t.0
                &&& r.unwrap().0.node_view() == t.1
                &&& r.unwrap().1 == t.2
                &&& r.unwrap().2 == t.3
            },
            None => r is None && forest(final(nodes)@) == forest(old(nodes)@),
        },
    decreases forest(old(nodes)@),
{
    if let Some(index) = hierarchy_position(nodes, node_id) {
        let node = nodes.remove(index);
        assert(forest(nodes@) =~= forest(old(nodes)@).remove(index as int));
        assert(forest(old(nodes)@)[index as int] == node.node_view());
        return Some((node, parent_id, index));
    }
    let len = nodes.len();
    let mut j: usize = 0;
    while j < len
        invariant
            len == nodes.len(),
            j <= len,
            forest(nodes@) == forest(old(nodes)@),
            index_from(forest(old(nodes)@), node_id, 0) is None,
            take_below(forest(old(nodes)@), node_id, 0) == take_below(forest(old(nodes)@), node_id, j as int),
        decreases len - j,
    {
        let ghost before = forest(nodes@);
        let child_parent = nodes[j].id;
        assert(decreases_to!(forest(old(nodes)@) => forest(nodes@[j as int].children@))) by {
            assert(forest(old(nodes)@)[j as int].children == forest(nodes@[j as int].children@));
        }
        let taken = take_hierarchy_node(&mut nodes[j].children, Some(child_parent), node_id);
        if taken.is_some() {
            assert(forest(nodes@) =~= before.update(
                j as int,
                with_children(before[j as int], forest(nodes@[j as int].children@)),
            ));
            return taken;
        }
        assert(forest(nodes@) =~= before);
        j += 1;
    }
    None
}

fn insert_hierarchy_child<'data>(
    nodes: &mut Vec<HierarchyNode<'data>>,
    parent_id: usize,
    index: usize,
    node: HierarchyNode<'data>,
) -> (r: Option<HierarchyNode<'data>>)
    ensures
        match insert_below(forest(old(nodes)@), parent_id, index as int, node.node_view(), 0) {
            Some(s) => r is None && forest(final(nodes)@) == s,
            None => r == Some(node) && forest(final(nodes)@) == forest(old(nodes)@),
        },
    decreases forest(old(nodes)@),
{
    let ghost nv = node.node_view();
    let mut pending = node;
    let len = nodes.len();
    let mut j: usize = 0;
    while j < len
        invariant
            len == nodes.len(),
            j <= len,
            pending == node,
            nv == node.node_view(),
            forest(nodes@) == forest(old(nodes)@),
            insert_below(forest(old(nodes)@), parent_id, index as int, nv, 0) == insert_below(
                forest(old(nodes)@),
                parent_id,
                index as int,
                nv,
                j as int,
            ),
        decreases len - j,
    {
        let ghost before = forest(nodes@);
        if nodes[j].id == parent_id {
            let at = if index < nodes[j].children.len() {
                index
            } else {
                nodes[j].children.len()
            };
            let ghost old_children = nodes@[j as int].children@;
            assert(before[j as int].children == forest(old_children));
            nodes[j].children.insert(at, pending);
            assert(nodes@[j as int].children@ == old_children.insert(at as int, node));
            assert(forest(nodes@[j as int].children@) =~= forest(old_children).insert(at as int, nv));
            assert(forest(nodes@) =~= before.update(
                j as int,
                with_children(before[j as int], forest(nodes@[j as int].children@)),
            ));
            return None;
        }
        assert(decreases_to!(forest(old(nodes)@) => forest(nodes@[j as int].children@))) by {
            assert(forest(old(nodes)@)[j as int].children == forest(nodes@[j as int].children@));
        }
        match insert_hierarchy_child(&mut nodes[j].children, parent_id, index, pending) {
            None => {
                assert(forest(nodes@) =~= before.update(
                    j as int,
                    with_children(before[j as int], forest(nodes@[j as int].children@)),
                ));
                return None;
            },
            Some(back) => {
                pending = back;
            },
        }
        assert(forest(nodes@) =~= before);
        j += 1;
    }
    Some(pending)
}

/// Inserts `node` at `index` (last, where `index` is past the end) among the
/// roots, where `parent_id` is `None`, or among the children of the first
/// node `parent_id`. Where there is no such node, hands `node` back.
pub fn insert_hierarchy_sibling<'data>(
    nodes: &mut Vec<HierarchyNode<'data>>,
    parent_id: Option<usize>,
    index: usize,
    node: HierarchyNode<'data>,
) -> (r: Option<HierarchyNode<'data>>)
    ensures
        match insert_sibling(forest(old(nodes)@), parent_id, index as int, node.node_view()) {
            Some(s) => r is None && forest(final(nodes)@) == s,
            None => r == Some(node) && forest(final(nodes)@) == forest(old(nodes)@),
        },
{
    match parent_id {
        None => {
            let ghost nv = node.node_view();
            let at = if index < nodes.len() {
                index
            } else {
                nodes.len()
            };
            nodes.insert(at, node);
            assert(forest(nodes@) =~= forest(old(nodes)@).insert(at as int, nv));
            None
        },
        Some(p) => insert_hierarchy_child(nodes, p, index, node),
    }
}

/// Marks the first node `node_id` (depth-first) expanded; whether there was one.
pub fn expand_hierarchy_node(nodes: &mut Vec<HierarchyNode<'_>>, node_id: usize) -> (r: bool)
    ensures
        match expand_from(forest(old(nodes)@), node_id, 0) {
            Some(s) => r && forest(final(nodes)@) == s,
            None => !r && forest(final(nodes)@) == forest(old(nodes)@),
        },
    decreases forest(old(nodes)@),
{
    let len = nodes.len();
    let mut j: usize = 0;
    while j < len
        invariant
            len == nodes.len(),
            j <= len,
            forest(nodes@) == forest(old(nodes)@),
            expand_from(forest(old(nodes)@), node_id, 0) == expand_from(forest(old(nodes)@), node_id, j as int),
        decreases len - j,
    {
        let ghost before = forest(nodes@);
        if nodes[j].id == node_id {
            nodes[j].expanded = true;
            assert(forest(nodes@) =~= before.update(j as int, HierarchyNodeView { expanded: true, ..before[j as int] }));
            return true;
        }
        assert(decreases_to!(forest(old(nodes)@) => forest(nodes@[j as int].children@))) by {
            assert(forest(old(nodes)@)[j as int].children == forest(nodes@[j as int].children@));
        }
        if expand_hierarchy_node(&mut nodes[j].children, node_id) {
            assert(forest(nodes@) =~= before.update(
                j as int,
                with_children(before[j as int], forest(nodes@[j as int].children@)),
            ));
            return true;
        }
        assert(forest(nodes@) =~= before);
        j += 1;
    }
    false
}

/// Moves node `node_id` to position `target_index` among the children of
/// `target_parent_id` (the roots where it is `None`), and marks
/// `expand_target_id` expanded. Refuses to move a node into itself or its own
/// subtree, or under a parent that does not exist.
pub fn move_hierarchy_node<'data>(
    nodes: &mut Vec<HierarchyNode<'data>>,
    node_id: usize,
    target_parent_id: Option<usize>,
    target_index: usize,
    expand_target_id: Option<usize>,
) -> (r: bool)
    ensures
        (r, forest(final(nodes)@)) == moved(
            forest(old(nodes)@),
            node_id,
            target_parent_id,
            target_index as int,
            expand_target_id,
        ),
{
    if let Some(target_parent) = target_parent_id {
        if target_parent == node_id {
            return false;
        }
        if hierarchy_node_contains(nodes.as_slice(), node_id, target_parent) {
            return false;
        }
        if find_hierarchy_node(nodes.as_slice(), target_parent).is_none() {
            return false;
        }
    }
    let (node, source_parent_id, source_index) = match take_hierarchy_node(nodes, None, node_id) {
        Some(taken) => taken,
        None => {
            return false;
        },
    };
    let same_parent = match (source_parent_id, target_parent_id) {
        (None, None) => true,
        (Some(a), Some(b)) => a == b,
        _ => false,
    };
    let adjusted_index = if same_parent && source_index < target_index {
        target_index - 1
    } else {
        target_index
    };
    if insert_hierarchy_sibling(nodes, target_parent_id, adjusted_index, node).is_some() {
        return false;
    }
    if let Some(expand_target) = expand_target_id {
        let _ = expand_hierarchy_node(nodes, expand_target);
    }
    true
}


/// The ids of the rows that `n` shows: its own, then, where it is expanded,
/// those of its children in order.
pub open spec fn visible_ids(n: HierarchyNodeView) -> Seq<usize>
    decreases n, 0int,
{
    seq![n.id] + if n.expanded {
        visible_ids_from(n.children, 0)
    } else {
        Seq::empty()
    }
}

/// The ids of the rows that `ns[i]`, `ns[i + 1]`, ... show.
pub open spec fn visible_ids_from(ns: Seq<HierarchyNodeView>, i: int) -> Seq<usize>
    decreases ns, ns.len() - i,
{
    if i < 0 || i >= ns.len() {
        Seq::empty()
    } else {
        visible_ids(ns[i]) + visible_ids_from(ns, i + 1)
    }
}

/// The rows that a selection of row `selected` covers: those that the first
/// visible node `selected` shows, searched depth-first through expanded nodes.
pub open spec fn range_from(ns: Seq<HierarchyNodeView>, selected: usize, i: int) -> Option<Seq<usize>>
    decreases ns, ns.len() - i,
{
    if i < 0 || i >= ns.len() {
        None
    } else if ns[i].id == selected {
        Some(visible_ids(ns[i]))
    } else if ns[i].expanded && range_from(ns[i].children, selected, 0) is Some {
        range_from(ns[i].children, selected, 0)
    } else {
        range_from(ns, selected, i + 1)
    }
}

/// A found range starts with the selected row.
proof fn lemma_range_starts_at_selected(ns: Seq<HierarchyNodeView>, selected: usize, i: int)
    requires
        range_from(ns, selected, i) is Some,
    ensures
        range_from(ns, selected, i)->0.len() > 0,
        range_from(ns, selected, i)->0[0] == selected,
    decreases ns, ns.len() - i,
{
    if ns[i].id == selected {
    } else if ns[i].expanded && range_from(ns[i].children, selected, 0) is Some {
        lemma_range_starts_at_selected(ns[i].children, selected, 0);
    } else {
        lemma_range_starts_at_selected(ns, selected, i + 1);
    }
}

/// Appends the ids of the rows that `node` shows.
pub fn collect_selection_subtree_ids(node: &HierarchyNode<'_>, ids: &mut Vec<usize>)
    ensures
        final(ids)@ == old(ids)@ + visible_ids(node.node_view()),
    decreases node.node_view(),
{
    let ghost v = node.node_view();
    ids.push(node.id);
    if node.expanded {
        let mut i: usize = 0;
        while i < node.children.len()
            invariant
                i <= node.children.len(),
                v == node.node_view(),
                v.expanded,
                ids@ + visible_ids_from(v.children, i as int) =~= old(ids)@ + visible_ids(v),
            decreases node.children.len() - i,
        {
            let child = &node.children[i];
            assert(decreases_to!(v => child.node_view())) by {
                assert(v.children[i as int] == child.node_view());
            }
            let ghost before = ids@;
            collect_selection_subtree_ids(child, ids);
            assert(ids@ + visible_ids_from(v.children, i + 1) =~= before + visible_ids_from(
                v.children,
                i as int,
            ));
            i += 1;
        }
    } else {
        assert(ids@ =~= old(ids)@ + visible_ids(v));
    }
}

/// Appends the rows that a selection of row `selected_id` covers, if the
/// row is visible; whether it is.
pub fn collect_selection_range(
    nodes: &[HierarchyNode<'_>],
    selected_id: usize,
    ids: &mut Vec<usize>,
) -> (r: bool)
    ensures
        match range_from(forest(nodes@), selected_id, 0) {
            Some(s) => r && final(ids)@ == old(ids)@ + s,
            None => !r && final(ids)@ == old(ids)@,
        },
    decreases forest(nodes@),
{
    let mut i: usize = 0;
    while i < nodes.len()
        invariant
            i <= nodes.len(),
            ids@ == old(ids)@,
            range_from(forest(nodes@), selected_id, 0) == range_from(forest(nodes@), selected_id, i as int),
        decreases nodes.len() - i,
    {
        let node = &nodes[i];
        if node.id == selected_id {
            collect_selection_subtree_ids(node, ids);
            return true;
        }
        if node.expanded {
            assert(decreases_to!(forest(nodes@) => forest(node.children@))) by {
                assert(forest(nodes@)[i as int].children == forest(node.children@));
            }
            if collect_selection_range(node.children.as_slice(), selected_id, ids) {
                return true;
            }
        }
        i += 1;
    }
    false
}

/// The rows covered by the selection, with the first and the last.
#[derive(Debug)]
pub struct SelectionRange {
    pub ids: Vec<usize>,
    pub first_id: usize,
    pub last_id: usize,
}

/// The range that selecting `selected_id` covers: `None` where nothing is
/// selected or the selected row is not visible. The range starts at the
/// selected row.
pub fn selection_range(nodes: &[HierarchyNode<'_>], selected_id: Option<usize>) -> (r: Option<SelectionRange>)
    ensures
        match selected_id {
            None => r is None,
            Some(selected) => match range_from(forest(nodes@), selected, 0) {
                Some(s) => {
                    &&& r is Some
                    &&& r.unwrap().ids@ == s
                    &&& r.unwrap().first_id == s[0]
                    &&& r.unwrap().last_id == s.last()
                    &&& r.unwrap().first_id == selected
                },
                None => r is None,
            },
        },
{
    let selected = match selected_id {
        Some(selected) => selected,
        None => {
            return None;
        },
    };
    let mut ids: Vec<usize> = Vec::new();
    if !collect_selection_range(nodes, selected, &mut ids) {
        return None;
    }
    proof {
        lemma_range_starts_at_selected(forest(nodes@), selected, 0);
    }
    let first_id = ids[0];
    let last_id = ids[ids.len() - 1];
    Some(SelectionRange { ids, first_id, last_id })
}


/// Every id in the subtree of `n`, parent before children.
pub open spec fn node_ids(n: HierarchyNodeView) -> Seq<usize>
    decreases n, 0int,
{
    seq![n.id] + ids_from(n.children, 0)
}

/// Every id in the subtrees of `ns[i]`, `ns[i + 1]`, ...
pub open spec fn ids_from(ns: Seq<HierarchyNodeView>, i: int) -> Seq<usize>
    decreases ns, ns.len() - i,
{
    if i < 0 || i >= ns.len() {
        Seq::empty()
    } else {
        node_ids(ns[i]) + ids_from(ns, i + 1)
    }
}

proof fn lemma_ids_skip_prefix(a: Seq<HierarchyNodeView>, b: Seq<HierarchyNodeView>, k: int)
    requires
        0 <= k <= b.len(),
    ensures
        ids_from(a + b, a.len() + k) == ids_from(b, k),
    decreases b.len() - k,
{
    if k < b.len() {
        lemma_ids_skip_prefix(a, b, k + 1);
        assert((a + b)[a.len() + k] == b[k]);
    }
}

proof fn lemma_ids_concat_from(a: Seq<HierarchyNodeView>, b: Seq<HierarchyNodeView>, i: int)
    requires
        0 <= i <= a.len(),
    ensures
        ids_from(a + b, i) == ids_from(a, i) + ids_from(b, 0),
    decreases a.len() - i,
{
    if i == a.len() {
        lemma_ids_skip_prefix(a, b, 0);
        assert(ids_from(a, i) =~= Seq::empty());
        assert(ids_from(a + b, i) =~= ids_from(a, i) + ids_from(b, 0));
    } else {
        lemma_ids_concat_from(a, b, i + 1);
        assert((a + b)[i] == a[i]);
        assert(ids_from(a + b, i) =~= ids_from(a, i) + ids_from(b, 0));
    }
}

/// The ids of a concatenation are the ids of its parts.
proof fn lemma_ids_concat(a: Seq<HierarchyNodeView>, b: Seq<HierarchyNodeView>)
    ensures
        ids_from(a + b, 0) == ids_from(a, 0) + ids_from(b, 0),
{
    lemma_ids_concat_from(a, b, 0);
}

proof fn lemma_ids_single(x: HierarchyNodeView)
    ensures
        ids_from(seq![x], 0) == node_ids(x),
{
    assert(ids_from(seq![x], 1) =~= Seq::empty());
    assert(ids_from(seq![x], 0) =~= node_ids(x));
}

/// The ids of `ns` split around position `j`.
proof fn lemma_ids_around(ns: Seq<HierarchyNodeView>, j: int)
    requires
        0 <= j < ns.len(),
    ensures
        ids_from(ns, 0) == ids_from(ns.take(j), 0) + node_ids(ns[j]) + ids_from(ns.skip(j + 1), 0),
{
    assert(ns =~= ns.take(j) + seq![ns[j]] + ns.skip(j + 1));
    lemma_ids_concat(ns.take(j) + seq![ns[j]], ns.skip(j + 1));
    lemma_ids_concat(ns.take(j), seq![ns[j]]);
    lemma_ids_single(ns[j]);
}

proof fn lemma_ids_update(ns: Seq<HierarchyNodeView>, j: int, x: HierarchyNodeView)
    requires
        0 <= j < ns.len(),
    ensures
        ids_from(ns.update(j, x), 0) == ids_from(ns.take(j), 0) + node_ids(x) + ids_from(ns.skip(j + 1), 0),
{
    lemma_ids_around(ns.update(j, x), j);
    assert(ns.update(j, x).take(j) =~= ns.take(j));
    assert(ns.update(j, x).skip(j + 1) =~= ns.skip(j + 1));
}

proof fn lemma_ids_remove(ns: Seq<HierarchyNodeView>, j: int)
    requires
        0 <= j < ns.len(),
    ensures
        ids_from(ns.remove(j), 0) == ids_from(ns.take(j), 0) + ids_from(ns.skip(j + 1), 0),
{
    assert(ns.remove(j) =~= ns.take(j) + ns.skip(j + 1));
    lemma_ids_concat(ns.take(j), ns.skip(j + 1));
}

proof fn lemma_ids_insert(ns: Seq<HierarchyNodeView>, k: int, x: HierarchyNodeView)
    requires
        0 <= k <= ns.len(),
    ensures
        ids_from(ns.insert(k, x), 0) == ids_from(ns.take(k), 0) + node_ids(x) + ids_from(ns.skip(k), 0),
        ids_from(ns, 0) == ids_from(ns.take(k), 0) + ids_from(ns.skip(k), 0),
{
    assert(ns.insert(k, x) =~= ns.take(k) + seq![x] + ns.skip(k));
    lemma_ids_concat(ns.take(k) + seq![x], ns.skip(k));
    lemma_ids_concat(ns.take(k), seq![x]);
    lemma_ids_single(x);
    assert(ns =~= ns.take(k) + ns.skip(k));
    lemma_ids_concat(ns.take(k), ns.skip(k));
}

/// Replacing the children of `ns[j]` replaces their ids in the multiset of `ns`.
proof fn lemma_ids_replace_children(ns: Seq<HierarchyNodeView>, j: int, c: Seq<HierarchyNodeView>)
    requires
        0 <= j < ns.len(),
    ensures
        ids_from(ns, 0).to_multiset().add(ids_from(c, 0).to_multiset()) =~= ids_from(
            ns.update(j, with_children(ns[j], c)),
            0,
        ).to_multiset().add(ids_from(ns[j].children, 0).to_multiset()),
{
    broadcast use vstd::seq_lib::lemma_multiset_commutative;

    let a = ids_from(ns.take(j), 0);
    let b = ids_from(ns.skip(j + 1), 0);
    lemma_ids_around(ns, j);
    lemma_ids_update(ns, j, with_children(ns[j], c));
    assert(node_ids(ns[j]) == seq![ns[j].id] + ids_from(ns[j].children, 0));
    assert(node_ids(with_children(ns[j], c)) == seq![ns[j].id] + ids_from(c, 0));
}

/// Where the new children of `ns[j]` hold the ids of the old ones and those
/// of `node`, the new forest holds the ids of the old one and those of `node`.
proof fn lemma_multiset_sum_step(
    ns: Seq<HierarchyNodeView>,
    j: int,
    c: Seq<HierarchyNodeView>,
    node: HierarchyNodeView,
)
    requires
        0 <= j < ns.len(),
        ids_from(c, 0).to_multiset() =~= ids_from(ns[j].children, 0).to_multiset().add(
            node_ids(node).to_multiset(),
        ),
        ids_from(ns, 0).to_multiset().add(ids_from(c, 0).to_multiset()) =~= ids_from(
            ns.update(j, with_children(ns[j], c)),
            0,
        ).to_multiset().add(ids_from(ns[j].children, 0).to_multiset()),
    ensures
        ids_from(ns.update(j, with_children(ns[j], c)), 0).to_multiset() =~= ids_from(
            ns,
            0,
        ).to_multiset().add(node_ids(node).to_multiset()),
{
    let m_ns = ids_from(ns, 0).to_multiset();
    let m_new = ids_from(ns.update(j, with_children(ns[j], c)), 0).to_multiset();
    let m_c = ids_from(c, 0).to_multiset();
    let m_node = node_ids(node).to_multiset();
    let m_children = ids_from(ns[j].children, 0).to_multiset();
    assert forall|x: usize| m_new.count(x) == m_ns.add(m_node).count(x) by {
        assert(m_ns.add(m_c).count(x) == m_new.add(m_children).count(x));
        assert(m_c.count(x) == m_children.add(m_node).count(x));
    }
}

proof fn lemma_take_keeps_ids(ns: Seq<HierarchyNodeView>, parent: Option<usize>, id: usize)
    requires
        take_from(ns, parent, id) is Some,
    ensures
        take_from(ns, parent, id) matches Some(t) ==> ids_from(ns, 0).to_multiset() =~= ids_from(
            t.0,
            0,
        ).to_multiset().add(node_ids(t.1).to_multiset()),
    decreases ns, ns.len() + 1,
{
    broadcast use vstd::seq_lib::lemma_multiset_commutative;

    match index_from(ns, id, 0) {
        Some(i) => {
            lemma_index_in_range(ns, id, 0);
            lemma_ids_around(ns, i);
            lemma_ids_remove(ns, i);
        },
        None => {
            lemma_take_below_keeps_ids(ns, id, 0);
        },
    }
}

proof fn lemma_index_in_range(ns: Seq<HierarchyNodeView>, id: usize, i: int)
    requires
        index_from(ns, id, i) is Some,
    ensures
        0 <= index_from(ns, id, i)->0 < ns.len(),
        ns[index_from(ns, id, i)->0].id == id,
    decreases ns.len() - i,
{
    if ns[i].id != id {
        lemma_index_in_range(ns, id, i + 1);
    }
}

proof fn lemma_take_below_keeps_ids(ns: Seq<HierarchyNodeView>, id: usize, j: int)
    requires
        take_below(ns, id, j) is Some,
    ensures
        take_below(ns, id, j) matches Some(t) ==> ids_from(ns, 0).to_multiset() =~= ids_from(
            t.0,
            0,
        ).to_multiset().add(node_ids(t.1).to_multiset()),
    decreases ns, ns.len() - j,
{
    broadcast use vstd::seq_lib::lemma_multiset_commutative;

    match take_from(ns[j].children, Some(ns[j].id), id) {
        Some(t) => {
            lemma_take_keeps_ids(ns[j].children, Some(ns[j].id), id);
            lemma_ids_replace_children(ns, j, t.0);
            let m_ns = ids_from(ns, 0).to_multiset();
            let m_new = ids_from(ns.update(j, with_children(ns[j], t.0)), 0).to_multiset();
            let m_rest = ids_from(t.0, 0).to_multiset();
            let m_node = node_ids(t.1).to_multiset();
            let m_children = ids_from(ns[j].children, 0).to_multiset();
            assert forall|x: usize| m_ns.count(x) == m_new.add(m_node).count(x) by {
                assert(m_ns.add(m_rest).count(x) == m_new.add(m_children).count(x));
                assert(m_children.count(x) == m_rest.add(m_node).count(x));
            }
            assert(m_ns =~= m_new.add(m_node));
        },
        None => {
            lemma_take_below_keeps_ids(ns, id, j + 1);
        },
    }
}

proof fn lemma_insert_below_adds_ids(
    ns: Seq<HierarchyNodeView>,
    parent: usize,
    index: int,
    node: HierarchyNodeView,
    j: int,
)
    requires
        insert_below(ns, parent, index, node, j) is Some,
    ensures
        ids_from(insert_below(ns, parent, index, node, j)->0, 0).to_multiset() =~= ids_from(
            ns,
            0,
        ).to_multiset().add(node_ids(node).to_multiset()),
    decreases ns, ns.len() - j,
{
    broadcast use vstd::seq_lib::lemma_multiset_commutative;

    if ns[j].id == parent {
        let c = ns[j].children;
        let k = clamp_index(index, c.len() as int);
        lemma_ids_insert(c, k, node);
        lemma_ids_replace_children(ns, j, c.insert(k, node));
        lemma_multiset_sum_step(ns, j, c.insert(k, node), node);
    } else {
        match insert_below(ns[j].children, parent, index, node, 0) {
            Some(c) => {
                lemma_insert_below_adds_ids(ns[j].children, parent, index, node, 0);
                lemma_ids_replace_children(ns, j, c);
                lemma_multiset_sum_step(ns, j, c, node);
            },
            None => {
                lemma_insert_below_adds_ids(ns, parent, index, node, j + 1);
            },
        }
    }
}

proof fn lemma_expand_keeps_ids(ns: Seq<HierarchyNodeView>, id: usize, i: int)
    requires
        expand_from(ns, id, i) is Some,
    ensures
        ids_from(expand_from(ns, id, i)->0, 0) == ids_from(ns, 0),
    decreases ns, ns.len() - i,
{
    if ns[i].id == id {
        let x = HierarchyNodeView { expanded: true, ..ns[i] };
        lemma_ids_around(ns, i);
        lemma_ids_update(ns, i, x);
    } else {
        match expand_from(ns[i].children, id, 0) {
            Some(c) => {
                lemma_expand_keeps_ids(ns[i].children, id, 0);
                lemma_ids_around(ns, i);
                lemma_ids_update(ns, i, with_children(ns[i], c));
            },
            None => {
                lemma_expand_keeps_ids(ns, id, i + 1);
            },
        }
    }
}

/// A move that succeeds neither loses nor duplicates a node: the forest
/// holds the same ids, each as often, before and after it.
pub proof fn lemma_move_keeps_ids(
    ns: Seq<HierarchyNodeView>,
    node_id: usize,
    target_parent: Option<usize>,
    target_index: int,
    expand_target: Option<usize>,
)
    requires
        moved(ns, node_id, target_parent, target_index, expand_target).0,
    ensures
        ids_from(moved(ns, node_id, target_parent, target_index, expand_target).1, 0).to_multiset()
            =~= ids_from(ns, 0).to_multiset(),
{
    broadcast use vstd::seq_lib::lemma_multiset_commutative;

    let t = take_from(ns, None, node_id)->0;
    lemma_take_keeps_ids(ns, None, node_id);
    let index = adjusted_target_index(t.2, t.3, target_parent, target_index);
    let inserted = insert_sibling(t.0, target_parent, index, t.1)->0;
    match target_parent {
        None => {
            let k = clamp_index(index, t.0.len() as int);
            lemma_ids_insert(t.0, k, t.1);
            assert(ids_from(inserted, 0).to_multiset() =~= ids_from(t.0, 0).to_multiset().add(
                node_ids(t.1).to_multiset(),
            ));
        },
        Some(p) => {
            lemma_insert_below_adds_ids(t.0, p, index, t.1, 0);
        },
    }
    match expand_target {
        Some(e) => {
            if expand_from(inserted, e, 0) is Some {
                lemma_expand_keeps_ids(inserted, e, 0);
            }
        },
        None => {},
    }
}


/// `subtree_contains` and `any_subtree_contains` agree with the id lists.
proof fn lemma_subtree_contains_ids(n: HierarchyNodeView, c: usize)
    ensures
        subtree_contains(n, c) == node_ids(n).contains(c),
    decreases n, 0int,
{
    broadcast use vstd::seq_lib::lemma_seq_concat_contains_all_elements;

    lemma_any_subtree_contains_ids(n.children, c, 0);
    assert(seq![n.id].contains(n.id) && (seq![n.id].contains(c) ==> c == n.id)) by {
        assert(seq![n.id][0] == n.id);
    }
}

proof fn lemma_any_subtree_contains_ids(ns: Seq<HierarchyNodeView>, c: usize, i: int)
    requires
        0 <= i,
    ensures
        any_subtree_contains(ns, c, i) == ids_from(ns, i).contains(c),
    decreases ns, ns.len() - i,
{
    broadcast use vstd::seq_lib::lemma_seq_concat_contains_all_elements;

    if i < ns.len() {
        lemma_subtree_contains_ids(ns[i], c);
        lemma_any_subtree_contains_ids(ns, c, i + 1);
    }
}

/// A node that `find_from` finds is among the ids searched.
proof fn lemma_find_in_ids(ns: Seq<HierarchyNodeView>, id: usize, i: int)
    requires
        0 <= i,
    ensures
        find_from(ns, id, i) is Some ==> ids_from(ns, i).contains(id),
    decreases ns, ns.len() - i,
{
    broadcast use vstd::seq_lib::lemma_seq_concat_contains_all_elements;

    if i < ns.len() {
        assert(node_ids(ns[i]) == seq![ns[i].id] + ids_from(ns[i].children, 0));
        assert(seq![ns[i].id][0] == ns[i].id);
        if ns[i].id != id {
            lemma_find_in_ids(ns[i].children, id, 0);
            lemma_find_in_ids(ns, id, i + 1);
        }
    }
}

/// Inserting below a parent that is among the ids succeeds.
proof fn lemma_insert_below_present(ns: Seq<HierarchyNodeView>, parent: usize, index: int, node: HierarchyNodeView, j: int)
    requires
        0 <= j,
        ids_from(ns, j).contains(parent),
    ensures
        insert_below(ns, parent, index, node, j) is Some,
    decreases ns, ns.len() - j,
{
    broadcast use vstd::seq_lib::lemma_seq_concat_contains_all_elements;

    if j >= ns.len() {
        assert(ids_from(ns, j) =~= Seq::<usize>::empty());
    } else if ns[j].id != parent {
        assert(node_ids(ns[j]) == seq![ns[j].id] + ids_from(ns[j].children, 0));
        assert(!seq![ns[j].id].contains(parent)) by {
            if seq![ns[j].id].contains(parent) {
                let w = choose|w: int| 0 <= w < 1 && seq![ns[j].id][w] == parent;
            }
        }
        if ids_from(ns[j].children, 0).contains(parent) {
            lemma_insert_below_present(ns[j].children, parent, index, node, 0);
        } else {
            lemma_insert_below_present(ns, parent, index, node, j + 1);
        }
    }
}

proof fn lemma_index_none(ns: Seq<HierarchyNodeView>, id: usize, i: int, k: int)
    requires
        0 <= i <= k < ns.len(),
        index_from(ns, id, i) is None,
    ensures
        ns[k].id != id,
    decreases k - i,
{
    if i < k {
        lemma_index_none(ns, id, i + 1, k);
    }
}

proof fn lemma_index_first(ns: Seq<HierarchyNodeView>, id: usize, i: int, k: int)
    requires
        0 <= i <= k,
        index_from(ns, id, i) matches Some(f) && k < f,
    ensures
        ns[k].id != id,
    decreases k - i,
{
    if i < k {
        lemma_index_first(ns, id, i + 1, k);
    }
}

/// A node that is among the ids can be taken out.
proof fn lemma_take_present(ns: Seq<HierarchyNodeView>, parent: Option<usize>, id: usize)
    requires
        ids_from(ns, 0).contains(id),
    ensures
        take_from(ns, parent, id) is Some,
    decreases ns, ns.len() + 1,
{
    if index_from(ns, id, 0) is None {
        lemma_take_below_present(ns, id, 0);
    }
}

proof fn lemma_take_below_present(ns: Seq<HierarchyNodeView>, id: usize, j: int)
    requires
        0 <= j,
        ids_from(ns, j).contains(id),
        index_from(ns, id, 0) is None,
    ensures
        take_below(ns, id, j) is Some,
    decreases ns, ns.len() - j,
{
    broadcast use vstd::seq_lib::lemma_seq_concat_contains_all_elements;

    if j >= ns.len() {
        assert(ids_from(ns, j) =~= Seq::<usize>::empty());
    } else {
        lemma_index_none(ns, id, 0, j);
        assert(node_ids(ns[j]) == seq![ns[j].id] + ids_from(ns[j].children, 0));
        assert(!seq![ns[j].id].contains(id)) by {
            if seq![ns[j].id].contains(id) {
                let w = choose|w: int| 0 <= w < 1 && seq![ns[j].id][w] == id;
            }
        }
        if ids_from(ns[j].children, 0).contains(id) {
            lemma_take_present(ns[j].children, Some(ns[j].id), id);
        } else {
            lemma_take_below_present(ns, id, j + 1);
        }
    }
}

/// The subtree of a node counts no id more often than the forest around it.
proof fn lemma_count_node(ns: Seq<HierarchyNodeView>, k: int, x: usize)
    requires
        0 <= k < ns.len(),
    ensures
        node_ids(ns[k]).to_multiset().count(x) <= ids_from(ns, 0).to_multiset().count(x),
        ids_from(ns[k].children, 0).to_multiset().count(x) <= ids_from(ns, 0).to_multiset().count(x),
{
    broadcast use vstd::seq_lib::lemma_multiset_commutative;

    lemma_ids_around(ns, k);
    assert(node_ids(ns[k]) == seq![ns[k].id] + ids_from(ns[k].children, 0));
}

/// Two different subtrees of a forest count their ids apart.
proof fn lemma_count_two_nodes(ns: Seq<HierarchyNodeView>, k: int, i: int, x: usize)
    requires
        0 <= k < i < ns.len(),
    ensures
        node_ids(ns[k]).to_multiset().count(x) + node_ids(ns[i]).to_multiset().count(x)
            <= ids_from(ns, 0).to_multiset().count(x),
{
    broadcast use vstd::seq_lib::lemma_multiset_commutative;

    lemma_ids_around(ns, i);
    assert(ns.take(i)[k] == ns[k]);
    lemma_count_node(ns.take(i), k, x);
}

/// No id occurs twice among `s`.
pub open spec fn at_most_once(s: Seq<usize>) -> bool {
    forall|x: usize| #[trigger] s.to_multiset().count(x) <= 1
}

proof fn lemma_find_skips(ns: Seq<HierarchyNodeView>, id: usize, j: int, i: int)
    requires
        0 <= j <= i <= ns.len(),
        forall|k: int| j <= k < i ==> ns[k].id != id && (#[trigger] find_from(ns[k].children, id, 0)) is None,
    ensures
        find_from(ns, id, j) == find_from(ns, id, i),
    decreases i - j,
{
    if j < i {
        assert(ns[j].id != id && find_from(ns[j].children, id, 0) is None);
        lemma_find_skips(ns, id, j + 1, i);
    }
}

/// Where no id occurs twice, the node that a move takes out is the node
/// that the depth-first lookup finds.
proof fn lemma_take_is_found(ns: Seq<HierarchyNodeView>, parent: Option<usize>, id: usize)
    requires
        at_most_once(ids_from(ns, 0)),
        take_from(ns, parent, id) is Some,
    ensures
        find_from(ns, id, 0) == Some((take_from(ns, parent, id)->0).1),
    decreases ns, ns.len() + 1,
{
    broadcast use vstd::seq_lib::lemma_seq_concat_contains_all_elements;
    broadcast use vstd::seq_lib::lemma_multiset_commutative;
    broadcast use vstd::seq_lib::to_multiset_contains;

    match index_from(ns, id, 0) {
        Some(i) => {
            lemma_index_in_range(ns, id, 0);
            assert forall|k: int| 0 <= k < i implies ns[k].id != id && (#[trigger] find_from(
                ns[k].children,
                id,
                0,
            )) is None by {
                lemma_index_first(ns, id, 0, k);
                lemma_count_two_nodes(ns, k, i, id);
                assert(node_ids(ns[i]) == seq![ns[i].id] + ids_from(ns[i].children, 0));
                assert(seq![ns[i].id][0] == id);
                assert(node_ids(ns[i]).contains(id)) by {
                    assert(node_ids(ns[i])[0] == id);
                }
                assert(node_ids(ns[k]) == seq![ns[k].id] + ids_from(ns[k].children, 0));
                assert(ids_from(ns, 0).to_multiset().count(id) <= 1);
                assert(!node_ids(ns[k]).contains(id));
                lemma_find_in_ids(ns[k].children, id, 0);
            }
            lemma_find_skips(ns, id, 0, i);
        },
        None => {
            lemma_take_below_is_found(ns, id, 0);
        },
    }
}

proof fn lemma_take_below_is_found(ns: Seq<HierarchyNodeView>, id: usize, j: int)
    requires
        0 <= j,
        at_most_once(ids_from(ns, 0)),
        index_from(ns, id, 0) is None,
        take_below(ns, id, j) is Some,
    ensures
        find_from(ns, id, j) == Some((take_below(ns, id, j)->0).1),
    decreases ns, ns.len() - j,
{
    broadcast use vstd::seq_lib::to_multiset_contains;

    lemma_index_none(ns, id, 0, j);
    let c = ns[j].children;
    match take_from(c, Some(ns[j].id), id) {
        Some(t) => {
            assert forall|x: usize| #[trigger] ids_from(c, 0).to_multiset().count(x) <= 1 by {
                lemma_count_node(ns, j, x);
            }
            lemma_take_is_found(c, Some(ns[j].id), id);
        },
        None => {
            if ids_from(c, 0).contains(id) {
                lemma_take_present(c, Some(ns[j].id), id);
            }
            lemma_find_in_ids(c, id, 0);
            lemma_take_below_is_found(ns, id, j + 1);
        },
    }
}

/// A refused move leaves the forest as it was, where no two nodes share an
/// id: a refusal never drops the node it was asked to move.
pub proof fn lemma_refused_move_changes_nothing(
    ns: Seq<HierarchyNodeView>,
    node_id: usize,
    target_parent: Option<usize>,
    target_index: int,
    expand_target: Option<usize>,
)
    requires
        ids_from(ns, 0).no_duplicates(),
        !moved(ns, node_id, target_parent, target_index, expand_target).0,
    ensures
        moved(ns, node_id, target_parent, target_index, expand_target).1 == ns,
{
    broadcast use vstd::seq_lib::to_multiset_contains;

    ids_from(ns, 0).lemma_multiset_has_no_duplicates();
    assert(at_most_once(ids_from(ns, 0)));
    if let Some(p) = target_parent {
        if p != node_id && !node_contains(ns, node_id, p) && find_from(ns, p, 0) is Some {
            if let Some(t) = take_from(ns, None, node_id) {
                lemma_take_is_found(ns, None, node_id);
                lemma_subtree_contains_ids(t.1, p);
                lemma_find_in_ids(ns, p, 0);
                lemma_take_keeps_ids(ns, None, node_id);
                assert(ids_from(ns, 0).to_multiset().count(p) > 0);
                assert(node_ids(t.1).to_multiset().count(p) == 0);
                assert(ids_from(t.0, 0).to_multiset().count(p) > 0);
                let index = adjusted_target_index(t.2, t.3, target_parent, target_index);
                lemma_insert_below_present(t.0, p, index, t.1, 0);
            }
        }
    }
}

/// The ids of the children of `n`, in order.
pub open spec fn child_ids(n: HierarchyNodeView) -> Seq<usize> {
    n.children.map_values(|c: HierarchyNodeView| c.id)
}

/// The ids of the roots of `ns`, in order.
pub open spec fn root_ids(ns: Seq<HierarchyNodeView>) -> Seq<usize> {
    ns.map_values(|c: HierarchyNodeView| c.id)
}

proof fn lemma_take_gives_id(ns: Seq<HierarchyNodeView>, parent: Option<usize>, id: usize)
    requires
        take_from(ns, parent, id) is Some,
    ensures
        (take_from(ns, parent, id)->0).1.id == id,
    decreases ns, ns.len() + 1,
{
    match index_from(ns, id, 0) {
        Some(i) => {
            lemma_index_in_range(ns, id, 0);
        },
        None => {
            lemma_take_below_gives_id(ns, id, 0);
        },
    }
}

proof fn lemma_take_below_gives_id(ns: Seq<HierarchyNodeView>, id: usize, j: int)
    requires
        take_below(ns, id, j) is Some,
    ensures
        (take_below(ns, id, j)->0).1.id == id,
    decreases ns, ns.len() - j,
{
    if take_from(ns[j].children, Some(ns[j].id), id) is Some {
        lemma_take_gives_id(ns[j].children, Some(ns[j].id), id);
    } else {
        lemma_take_below_gives_id(ns, id, j + 1);
    }
}

/// `find_from` from position `i` on reads only the nodes from `i` on.
proof fn lemma_find_reads_suffix(a: Seq<HierarchyNodeView>, b: Seq<HierarchyNodeView>, id: usize, i: int)
    requires
        0 <= i,
        a.len() == b.len(),
        forall|k: int| i <= k < a.len() ==> a[k] == b[k],
    ensures
        find_from(a, id, i) == find_from(b, id, i),
    decreases a.len() - i,
{
    if i < a.len() {
        lemma_find_reads_suffix(a, b, id, i + 1);
    }
}

proof fn lemma_insert_below_keeps_prefix(
    ns: Seq<HierarchyNodeView>,
    parent: usize,
    index: int,
    node: HierarchyNodeView,
    j: int,
)
    requires
        insert_below(ns, parent, index, node, j) is Some,
    ensures
        (insert_below(ns, parent, index, node, j)->0).len() == ns.len(),
        forall|k: int| 0 <= k < j ==> (#[trigger] (insert_below(ns, parent, index, node, j)->0)[k]) == ns[k],
    decreases ns.len() - j,
{
    if ns[j].id != parent && insert_below(ns[j].children, parent, index, node, 0) is None {
        lemma_insert_below_keeps_prefix(ns, parent, index, node, j + 1);
    }
}

/// Where inserting below `parent` fails, no node `parent` is there to find.
proof fn lemma_insert_below_none(ns: Seq<HierarchyNodeView>, parent: usize, index: int, node: HierarchyNodeView, j: int)
    requires
        0 <= j,
        insert_below(ns, parent, index, node, j) is None,
    ensures
        find_from(ns, parent, j) is None,
    decreases ns, ns.len() - j,
{
    if j < ns.len() {
        lemma_insert_below_none(ns[j].children, parent, index, node, 0);
        lemma_insert_below_none(ns, parent, index, node, j + 1);
    }
}

/// After inserting `node` below `parent`, the first node `parent` has a child
/// with the id of `node`.
proof fn lemma_insert_below_places(ns: Seq<HierarchyNodeView>, parent: usize, index: int, node: HierarchyNodeView, j: int)
    requires
        0 <= j,
        insert_below(ns, parent, index, node, j) is Some,
    ensures
        find_from(insert_below(ns, parent, index, node, j)->0, parent, j) matches Some(p) && child_ids(p).contains(node.id),
    decreases ns, ns.len() - j,
{
    let x = insert_below(ns, parent, index, node, j)->0;
    if ns[j].id == parent {
        let c = ns[j].children;
        let k = clamp_index(index, c.len() as int);
        let nc = c.insert(k, node);
        assert(x[j] == with_children(ns[j], nc));
        assert(child_ids(x[j])[k] == node.id);
    } else {
        match insert_below(ns[j].children, parent, index, node, 0) {
            Some(c) => {
                lemma_insert_below_places(ns[j].children, parent, index, node, 0);
                assert(x[j] == with_children(ns[j], c));
            },
            None => {
                lemma_insert_below_keeps_prefix(ns, parent, index, node, j + 1);
                lemma_insert_below_none(ns[j].children, parent, index, node, 0);
                lemma_insert_below_places(ns, parent, index, node, j + 1);
                assert(x[j] == ns[j]);
            },
        }
    }
}

/// Marking a node expanded changes no id: the roots keep their ids and
/// positions, and every node keeps its children's ids.
proof fn lemma_expand_keeps_shape(ns: Seq<HierarchyNodeView>, e: usize, i: int)
    requires
        0 <= i,
        expand_from(ns, e, i) is Some,
    ensures
        (expand_from(ns, e, i)->0).len() == ns.len(),
        forall|k: int| 0 <= k < ns.len() ==> (#[trigger] (expand_from(ns, e, i)->0)[k]).id == ns[k].id,
        forall|k: int| 0 <= k < i ==> (#[trigger] (expand_from(ns, e, i)->0)[k]) == ns[k],
        forall|k: int| 0 <= k < ns.len() ==> child_ids(#[trigger] (expand_from(ns, e, i)->0)[k]) == child_ids(ns[k]),
    decreases ns, ns.len() - i,
{
    let x = expand_from(ns, e, i)->0;
    if ns[i].id == e {
        assert(child_ids(x[i]) =~= child_ids(ns[i]));
    } else {
        match expand_from(ns[i].children, e, 0) {
            Some(c) => {
                lemma_expand_keeps_shape(ns[i].children, e, 0);
                assert(child_ids(x[i]) =~= child_ids(ns[i]));
            },
            None => {
                lemma_expand_keeps_shape(ns, e, i + 1);
            },
        }
    }
}

/// Marking a node expanded leaves every lookup finding a node with the same
/// children's ids.
proof fn lemma_expand_keeps_found_children(ns: Seq<HierarchyNodeView>, e: usize, i: int, id: usize)
    requires
        0 <= i,
        expand_from(ns, e, i) is Some,
    ensures
        find_from(expand_from(ns, e, i)->0, id, i) is Some == find_from(ns, id, i) is Some,
        find_from(ns, id, i) is Some ==> child_ids(find_from(expand_from(ns, e, i)->0, id, i)->0) == child_ids(
            find_from(ns, id, i)->0,
        ),
    decreases ns, ns.len() - i,
{
    let x = expand_from(ns, e, i)->0;
    lemma_expand_keeps_shape(ns, e, i);
    if ns[i].id == e {
        assert forall|k: int| i + 1 <= k < ns.len() implies x[k] == ns[k] by {}
        lemma_find_reads_suffix(x, ns, id, i + 1);
        if ns[i].id != id {
            assert(x[i].children == ns[i].children);
        }
    } else {
        match expand_from(ns[i].children, e, 0) {
            Some(c) => {
                assert forall|k: int| i + 1 <= k < ns.len() implies x[k] == ns[k] by {}
                lemma_find_reads_suffix(x, ns, id, i + 1);
                assert(x[i] == with_children(ns[i], c));
                lemma_expand_keeps_found_children(ns[i].children, e, 0, id);
            },
            None => {
                lemma_expand_keeps_shape(ns, e, i + 1);
                assert(x[i] == ns[i]);
                lemma_expand_keeps_found_children(ns, e, i + 1, id);
            },
        }
    }
}

/// A move that succeeds puts the node where it was asked to go: among the
/// roots where no parent was named, else among the children of the parent.
pub proof fn lemma_move_places_node(
    ns: Seq<HierarchyNodeView>,
    node_id: usize,
    target_parent: Option<usize>,
    target_index: int,
    expand_target: Option<usize>,
)
    requires
        moved(ns, node_id, target_parent, target_index, expand_target).0,
    ensures
        ({
            let after = moved(ns, node_id, target_parent, target_index, expand_target).1;
            match target_parent {
                None => root_ids(after).contains(node_id),
                Some(p) => find_from(after, p, 0) matches Some(parent) && child_ids(parent).contains(node_id),
            }
        }),
{
    let t = take_from(ns, None, node_id)->0;
    lemma_take_gives_id(ns, None, node_id);
    let index = adjusted_target_index(t.2, t.3, target_parent, target_index);
    let inserted = insert_sibling(t.0, target_parent, index, t.1)->0;
    let after = moved(ns, node_id, target_parent, target_index, expand_target).1;
    match target_parent {
        None => {
            let k = clamp_index(index, t.0.len() as int);
            assert(inserted[k].id == node_id);
            match expand_target {
                Some(e) => {
                    if expand_from(inserted, e, 0) is Some {
                        lemma_expand_keeps_shape(inserted, e, 0);
                    }
                },
                None => {},
            }
            assert(root_ids(after)[k] == node_id);
        },
        Some(p) => {
            lemma_insert_below_places(t.0, p, index, t.1, 0);
            match expand_target {
                Some(e) => {
                    if expand_from(inserted, e, 0) is Some {
                        lemma_expand_keeps_found_children(inserted, e, 0, p);
                    }
                },
                None => {},
            }
        },
    }
}

proof fn lemma_index_from_first(ns: Seq<HierarchyNodeView>, id: usize, i: int, s: int)
    requires
        0 <= i <= s < ns.len(),
        ns[s].id == id,
        forall|k: int| i <= k < s ==> (#[trigger] ns[k]).id != id,
    ensures
        index_from(ns, id, i) == Some(s),
    decreases s - i,
{
    if i < s {
        lemma_index_from_first(ns, id, i + 1, s);
    }
}

/// A move among the roots lands the node at the slot asked for, counted among
/// the roots before the move: one slot less where the node leaves an earlier
/// slot, and last where the slot is past the end. The other roots keep their
/// order, and the move succeeds.
pub proof fn lemma_root_move_position(
    ns: Seq<HierarchyNodeView>,
    node_id: usize,
    source: int,
    target_index: int,
    expand_target: Option<usize>,
)
    requires
        0 <= source < ns.len(),
        ns[source].id == node_id,
        forall|k: int| 0 <= k < source ==> (#[trigger] ns[k]).id != node_id,
        0 <= target_index,
    ensures
        ({
            let r = moved(ns, node_id, None, target_index, expand_target);
            let wanted = if source < target_index { target_index - 1 } else { target_index };
            let slot = if wanted < ns.len() - 1 { wanted } else { ns.len() - 1 };
            &&& r.0
            &&& root_ids(r.1) == root_ids(ns).remove(source).insert(slot, node_id)
        }),
{
    lemma_index_from_first(ns, node_id, 0, source);
    let t = take_from(ns, None, node_id)->0;
    assert(t.0 == ns.remove(source) && t.1 == ns[source] && t.3 == source);
    let wanted = if source < target_index { target_index - 1 } else { target_index };
    assert(adjusted_target_index(t.2, t.3, None, target_index) == wanted);
    let slot = if wanted < ns.len() - 1 { wanted } else { ns.len() - 1 };
    let inserted = t.0.insert(slot, ns[source]);
    assert(insert_sibling(t.0, None, wanted, t.1) == Some(inserted));
    assert(root_ids(inserted) =~= root_ids(ns).remove(source).insert(slot, node_id));
    let after = moved(ns, node_id, None, target_index, expand_target).1;
    match expand_target {
        Some(e) => {
            if expand_from(inserted, e, 0) is Some {
                lemma_expand_keeps_shape(inserted, e, 0);
                assert(root_ids(after) =~= root_ids(inserted));
            }
        },
        None => {},
    }
}

proof fn lemma_index_absent(ns: Seq<HierarchyNodeView>, id: usize, i: int)
    requires
        0 <= i,
        forall|k: int| i <= k < ns.len() ==> (#[trigger] ns[k]).id != id,
    ensures
        index_from(ns, id, i) is None,
    decreases ns.len() - i,
{
    if i < ns.len() {
        lemma_index_absent(ns, id, i + 1);
    }
}

/// A node that is not among the ids cannot be taken out.
proof fn lemma_take_absent(ns: Seq<HierarchyNodeView>, parent: Option<usize>, id: usize)
    requires
        !ids_from(ns, 0).contains(id),
    ensures
        take_from(ns, parent, id) is None,
{
    broadcast use vstd::seq_lib::to_multiset_contains;

    if take_from(ns, parent, id) is Some {
        let t = take_from(ns, parent, id)->0;
        lemma_take_keeps_ids(ns, parent, id);
        lemma_take_gives_id(ns, parent, id);
        assert(node_ids(t.1) == seq![t.1.id] + ids_from(t.1.children, 0));
        assert(node_ids(t.1)[0] == id);
        assert(node_ids(t.1).to_multiset().count(id) > 0);
        assert(ids_from(ns, 0).to_multiset().count(id) > 0);
        assert(ids_from(ns, 0).contains(id));
    }
}

proof fn lemma_take_below_skip(ns: Seq<HierarchyNodeView>, id: usize, i: int, j: int)
    requires
        0 <= i <= j <= ns.len(),
        forall|k: int| i <= k < j ==> (#[trigger] take_from(ns[k].children, Some(ns[k].id), id)) is None,
    ensures
        take_below(ns, id, i) == take_below(ns, id, j),
    decreases j - i,
{
    if i < j {
        assert(take_from(ns[i].children, Some(ns[i].id), id) is None);
        lemma_take_below_skip(ns, id, i + 1, j);
    }
}

/// Inserting below a parent that is not among the ids fails.
proof fn lemma_insert_below_absent(ns: Seq<HierarchyNodeView>, parent: usize, index: int, node: HierarchyNodeView, j: int)
    requires
        0 <= j,
        !ids_from(ns, j).contains(parent),
    ensures
        insert_below(ns, parent, index, node, j) is None,
    decreases ns, ns.len() - j,
{
    broadcast use vstd::seq_lib::lemma_seq_concat_contains_all_elements;

    if j < ns.len() {
        assert(node_ids(ns[j]) == seq![ns[j].id] + ids_from(ns[j].children, 0));
        assert(seq![ns[j].id][0] == ns[j].id);
        lemma_insert_below_absent(ns[j].children, parent, index, node, 0);
        lemma_insert_below_absent(ns, parent, index, node, j + 1);
    }
}

proof fn lemma_insert_below_skip(
    ns: Seq<HierarchyNodeView>,
    parent: usize,
    index: int,
    node: HierarchyNodeView,
    i: int,
    j: int,
)
    requires
        0 <= i <= j <= ns.len(),
        forall|k: int|
            i <= k < j ==> (#[trigger] ns[k]).id != parent && insert_below(ns[k].children, parent, index, node, 0) is None,
    ensures
        insert_below(ns, parent, index, node, i) == insert_below(ns, parent, index, node, j),
    decreases j - i,
{
    if i < j {
        assert(ns[i].id != parent);
        lemma_insert_below_skip(ns, parent, index, node, i + 1, j);
    }
}

/// A move among the children of one node lands the node at the slot asked
/// for, counted among those children before the move: one slot less where the
/// node leaves an earlier slot, and last where the slot is past the end. The
/// other children keep their order, and the move succeeds. (The parent is a
/// root, and no two nodes share an id.)
pub proof fn lemma_child_move_position(
    ns: Seq<HierarchyNodeView>,
    parent: int,
    source: int,
    target_index: int,
    expand_target: Option<usize>,
)
    requires
        ids_from(ns, 0).no_duplicates(),
        0 <= parent < ns.len(),
        0 <= source < ns[parent].children.len(),
        0 <= target_index,
    ensures
        ({
            let node_id = ns[parent].children[source].id;
            let n = ns[parent].children.len();
            let r = moved(ns, node_id, Some(ns[parent].id), target_index, expand_target);
            let wanted = if source < target_index { target_index - 1 } else { target_index };
            let slot = if wanted < n - 1 { wanted } else { n - 1 };
            &&& r.0
            &&& r.1.len() == ns.len()
            &&& child_ids(r.1[parent]) == child_ids(ns[parent]).remove(source).insert(slot, node_id)
        }),
{
    broadcast use vstd::seq_lib::to_multiset_contains;
    broadcast use vstd::seq_lib::lemma_multiset_commutative;

    let j = parent;
    let c = ns[j].children;
    let p = ns[j].id;
    let node_id = c[source].id;
    ids_from(ns, 0).lemma_multiset_has_no_duplicates();
    assert(at_most_once(ids_from(ns, 0)));
    let m = ids_from(ns, 0).to_multiset();
    // the parent's subtree holds `p` once, at its top, and `node_id` below it
    assert(node_ids(ns[j]) == seq![p] + ids_from(c, 0));
    assert(seq![p].to_multiset().count(p) == 1) by {
        broadcast use vstd::seq_lib::to_multiset_build;
        broadcast use vstd::multiset::group_multiset_axioms;
        assert(seq![p] =~= Seq::<usize>::empty().push(p));
        assert(Seq::<usize>::empty().to_multiset() =~= vstd::multiset::Multiset::<usize>::empty());
    }
    lemma_count_node(ns, j, p);
    assert(ids_from(c, 0).to_multiset().count(p) == 0);
    lemma_ids_around(c, source);
    assert(node_ids(c[source]) == seq![node_id] + ids_from(c[source].children, 0));
    assert(node_ids(c[source])[0] == node_id);
    assert(ids_from(c, 0).to_multiset().count(node_id) > 0);
    assert(node_id != p);
    assert(node_ids(ns[j]).to_multiset().count(node_id) > 0);
    assert(node_ids(ns[j]).to_multiset().count(p) > 0);
    // no other root holds either id
    assert forall|k: int| 0 <= k < ns.len() && k != j implies node_ids(#[trigger] ns[k]).to_multiset().count(p) == 0
        && node_ids(ns[k]).to_multiset().count(node_id) == 0 by {
        if k < j {
            lemma_count_two_nodes(ns, k, j, p);
            lemma_count_two_nodes(ns, k, j, node_id);
        } else {
            lemma_count_two_nodes(ns, j, k, p);
            lemma_count_two_nodes(ns, j, k, node_id);
        }
    }
    assert forall|k: int| 0 <= k < ns.len() && k != j implies (#[trigger] ns[k]).id != p && ns[k].id != node_id
        && !ids_from(ns[k].children, 0).contains(p) && !ids_from(ns[k].children, 0).contains(node_id) by {
        assert(node_ids(ns[k]) == seq![ns[k].id] + ids_from(ns[k].children, 0));
        assert(node_ids(ns[k])[0] == ns[k].id);
        assert(node_ids(ns[k]).to_multiset().count(ns[k].id) > 0);
    }
    // the children hold no id twice, and `node_id` first at `source`
    assert forall|x: usize| #[trigger] ids_from(c, 0).to_multiset().count(x) <= 1 by {
        lemma_count_node(ns, j, x);
    }
    assert forall|k: int| 0 <= k < source implies (#[trigger] c[k]).id != node_id by {
        lemma_count_two_nodes(c, k, source, node_id);
        assert(node_ids(c[k]) == seq![c[k].id] + ids_from(c[k].children, 0));
        assert(node_ids(c[k])[0] == c[k].id);
        assert(node_ids(c[k]).to_multiset().count(c[k].id) > 0);
    }
    // taking the node out
    assert forall|k: int| 0 <= k < ns.len() implies (#[trigger] ns[k]).id != node_id by {}
    lemma_index_absent(ns, node_id, 0);
    assert forall|k: int| 0 <= k < j implies (#[trigger] take_from(ns[k].children, Some(ns[k].id), node_id)) is None by {
        lemma_take_absent(ns[k].children, Some(ns[k].id), node_id);
    }
    lemma_take_below_skip(ns, node_id, 0, j);
    lemma_index_from_first(c, node_id, 0, source);
    let rest = c.remove(source);
    let t0 = ns.update(j, with_children(ns[j], rest));
    assert(take_from(c, Some(p), node_id) == Some((rest, c[source], Some(p), source)));
    assert(take_below(ns, node_id, j) == Some((t0, c[source], Some(p), source)));
    assert(take_from(ns, None, node_id) == take_below(ns, node_id, 0));
    assert(take_from(ns, None, node_id) == Some((t0, c[source], Some(p), source)));
    // the move is allowed
    lemma_take_is_found(ns, None, node_id);
    lemma_subtree_contains_ids(c[source], p);
    lemma_count_node(c, source, p);
    assert(!node_contains(ns, node_id, p));
    assert forall|k: int| 0 <= k < j implies (#[trigger] ns[k]).id != p && find_from(ns[k].children, p, 0) is None by {
        lemma_find_in_ids(ns[k].children, p, 0);
    }
    lemma_find_skips(ns, p, 0, j);
    assert(find_from(ns, p, 0) is Some);
    // inserting it back below the parent
    let wanted = if source < target_index { target_index - 1 } else { target_index };
    assert(adjusted_target_index(Some(p), source, Some(p), target_index) == wanted);
    assert forall|k: int| 0 <= k < j implies (#[trigger] t0[k]).id != p && insert_below(
        t0[k].children,
        p,
        wanted,
        c[source],
        0,
    ) is None by {
        assert(t0[k] == ns[k]);
        lemma_insert_below_absent(ns[k].children, p, wanted, c[source], 0);
    }
    lemma_insert_below_skip(t0, p, wanted, c[source], 0, j);
    let slot = if wanted < c.len() - 1 { wanted } else { c.len() - 1 };
    assert(clamp_index(wanted, rest.len() as int) == slot);
    let nc = rest.insert(slot, c[source]);
    let inserted = t0.update(j, with_children(t0[j], nc));
    assert(insert_sibling(t0, Some(p), wanted, c[source]) == Some(inserted));
    assert(child_ids(inserted[j]) =~= child_ids(ns[j]).remove(source).insert(slot, node_id));
    let after = moved(ns, node_id, Some(p), target_index, expand_target).1;
    match expand_target {
        Some(e) => {
            if expand_from(inserted, e, 0) is Some {
                lemma_expand_keeps_shape(inserted, e, 0);
            }
        },
        None => {},
    }
}

/// Where, on a row, a dragged node is dropped.
#[derive(Debug, Clone, Copy, PartialEq, Eq, Structural)]
pub enum HierarchyDropPlacement {
    Before,
    Into,
    After,
}

/// A move that a drop asks for.
#[derive(Debug, Clone, Copy, PartialEq, Eq, Structural)]
pub struct PendingMove {
    pub node_id: usize,
    pub target_parent_id: Option<usize>,
    pub target_index: usize,
    pub expand_target_id: Option<usize>,
}

/// The move asked for by dropping node `dragged_id` on the row of `node_id`
/// (at `row_index` among the children of `parent_id`, with `child_count`
/// children): before or after the row, as its sibling, or into it, as its
/// last child. Nothing where a node is dropped on its own row.
pub fn pending_move_for_drop(
    dragged_id: usize,
    parent_id: Option<usize>,
    node_id: usize,
    row_index: usize,
    child_count: usize,
    placement: HierarchyDropPlacement,
) -> (r: Option<PendingMove>)
    requires
        placement == HierarchyDropPlacement::After ==> row_index < usize::MAX,
    ensures
        dragged_id == node_id ==> r is None,
        dragged_id != node_id ==> r == Some(
            match placement {
                HierarchyDropPlacement::Before => PendingMove {
                    node_id: dragged_id,
                    target_parent_id: parent_id,
                    target_index: row_index,
                    expand_target_id: None,
                },
                HierarchyDropPlacement::After => PendingMove {
                    node_id: dragged_id,
                    target_parent_id: parent_id,
                    target_index: (row_index + 1) as usize,
                    expand_target_id: None,
                },
                HierarchyDropPlacement::Into => PendingMove {
                    node_id: dragged_id,
                    target_parent_id: Some(node_id),
                    target_index: child_count,
                    expand_target_id: Some(node_id),
                },
            },
        ),
{
    if dragged_id == node_id {
        return None;
    }
    Some(
        match placement {
            HierarchyDropPlacement::Before => PendingMove {
                node_id: dragged_id,
                target_parent_id: parent_id,
                target_index: row_index,
                expand_target_id: None,
            },
            HierarchyDropPlacement::After => PendingMove {
                node_id: dragged_id,
                target_parent_id: parent_id,
                target_index: row_index + 1,
                expand_target_id: None,
            },
            HierarchyDropPlacement::Into => PendingMove {
                node_id: dragged_id,
                target_parent_id: Some(node_id),
                target_index: child_count,
                expand_target_id: Some(node_id),
            },
        },
    )
}

/// Carries out a requested move; where it succeeds, the moved node becomes
/// the selected one. Whether the tree changed.
pub fn apply_pending_move<'data>(
    nodes: &mut Vec<HierarchyNode<'data>>,
    selected_id: &mut Option<usize>,
    pending: PendingMove,
) -> (r: bool)
    ensures
        (r, forest(final(nodes)@)) == moved(
            forest(old(nodes)@),
            pending.node_id,
            pending.target_parent_id,
            pending.target_index as int,
            pending.expand_target_id,
        ),
        r ==> *final(selected_id) == Some(pending.node_id),
        !r ==> *final(selected_id) == *old(selected_id),
{
    let done = move_hierarchy_node(
        nodes,
        pending.node_id,
        pending.target_parent_id,
        pending.target_index,
        pending.expand_target_id,
    );
    if done {
        *selected_id = Some(pending.node_id);
    }
    done
}

/// The move asked for by dropping node `dragged_id` on the strip below the
/// last of the `sibling_count` children of `parent_id`: it becomes their last
/// sibling.
pub fn pending_move_for_list_end(dragged_id: usize, parent_id: Option<usize>, sibling_count: usize) -> (r: PendingMove)
    ensures
        r == (PendingMove {
            node_id: dragged_id,
            target_parent_id: parent_id,
            target_index: sibling_count,
            expand_target_id: None,
        }),
{
    PendingMove { node_id: dragged_id, target_parent_id: parent_id, target_index: sibling_count, expand_target_id: None }
}

/// How a row is filled: the selected row strongly, the rest of its range
/// softly, a hovered row lightly, and any other row not at all.
#[derive(Debug, Clone, Copy, PartialEq, Eq, Structural)]
pub enum HierarchyRowFill {
    Selected,
    InRange,
    Hovered,
    Clear,
}

/// The corner rounding of a row, `radius` being the theme's small radius: all
/// four corners of a hovered row; of a row in the selection, only the top
/// corners of the first and the bottom corners of the last.
pub fn hierarchy_row_corner_radius(radius: u8, hovered: bool, round_top: bool, round_bottom: bool) -> (r: CornerRadii)
    ensures
        r == (if hovered {
            CornerRadii { nw: radius, ne: radius, sw: radius, se: radius }
        } else {
            CornerRadii {
                nw: if round_top { radius } else { 0u8 },
                ne: if round_top { radius } else { 0u8 },
                sw: if round_bottom { radius } else { 0u8 },
                se: if round_bottom { radius } else { 0u8 },
            }
        }),
{
    if hovered {
        return CornerRadii::same(radius);
    }
    if !(round_top || round_bottom) {
        return CornerRadii::zero();
    }
    CornerRadii {
        nw: if round_top { radius } else { 0 },
        ne: if round_top { radius } else { 0 },
        sw: if round_bottom { radius } else { 0 },
        se: if round_bottom { radius } else { 0 },
    }
}

/// How one row is drawn.
#[derive(Debug, Clone, Copy, PartialEq, Eq, Structural)]
pub struct HierarchyRowLook {
    /// The row is the selected one.
    pub selected: bool,
    /// The row lies in the selected range.
    pub in_range: bool,
    /// The row opens the selected range.
    pub round_top: bool,
    /// The row closes the selected range.
    pub round_bottom: bool,
    pub fill: HierarchyRowFill,
    pub corners: CornerRadii,
}

fn ids_contain(ids: &Vec<usize>, id: usize) -> (r: bool)
    ensures
        r == ids@.contains(id),
{
    let mut i: usize = 0;
    while i < ids.len()
        invariant
            i <= ids.len(),
            forall|j: int| 0 <= j < i ==> ids@[j] != id,
        decreases ids.len() - i,
    {
        if ids[i] == id {
            return true;
        }
        i = i + 1;
    }
    false
}

/// How the row of `node_id` is drawn, given the selection, its range, whether
/// the pointer is over the row, and the theme's small corner radius. The hover
/// rounding is only for rows that open or close no range.
pub fn hierarchy_row_look(
    node_id: usize,
    selected_id: Option<usize>,
    range: Option<&SelectionRange>,
    hovered: bool,
    radius: u8,
) -> (r: HierarchyRowLook)
    ensures
        r.selected == (selected_id == Some(node_id)),
        r.in_range == (range is Some && range.unwrap().ids@.contains(node_id)),
        r.round_top == (range is Some && range.unwrap().first_id == node_id),
        r.round_bottom == (range is Some && range.unwrap().last_id == node_id),
        r.fill == (if r.selected {
            HierarchyRowFill::Selected
        } else if r.in_range {
            HierarchyRowFill::InRange
        } else if hovered {
            HierarchyRowFill::Hovered
        } else {
            HierarchyRowFill::Clear
        }),
        r.corners == (if hovered && !r.round_top && !r.round_bottom {
            CornerRadii { nw: radius, ne: radius, sw: radius, se: radius }
        } else {
            CornerRadii {
                nw: if r.round_top { radius } else { 0u8 },
                ne: if r.round_top { radius } else { 0u8 },
                sw: if r.round_bottom { radius } else { 0u8 },
                se: if r.round_bottom { radius } else { 0u8 },
            }
        }),
{
    let selected = match selected_id {
        Some(s) => s == node_id,
        None => false,
    };
    let (in_range, round_top, round_bottom) = match range {
        Some(rg) => (ids_contain(&rg.ids, node_id), rg.first_id == node_id, rg.last_id == node_id),
        None => (false, false, false),
    };
    let fill = if selected {
        HierarchyRowFill::Selected
    } else if in_range {
        HierarchyRowFill::InRange
    } else if hovered {
        HierarchyRowFill::Hovered
    } else {
        HierarchyRowFill::Clear
    };
    let corners = hierarchy_row_corner_radius(radius, hovered && !round_top && !round_bottom, round_top, round_bottom);
    HierarchyRowLook { selected, in_range, round_top, round_bottom, fill, corners }
}

/// A click on a row: on its disclosure button (which only a row with children
/// has), on its lock (which only a row with a parent has), or on the row
/// itself; the first of these that was clicked counts. The disclosure button
/// folds or unfolds the row, the lock locks or unlocks it, and the row itself
/// becomes the selected one. Whether anything changed.
pub fn apply_hierarchy_row_click(
    node: &mut HierarchyNode<'_>,
    selected_id: &mut Option<usize>,
    disclosure_clicked: bool,
    lock_clicked: bool,
    row_clicked: bool,
) -> (r: bool)
    ensures
        final(node).id == old(node).id,
        final(node).label == old(node).label,
        final(node).kind == old(node).kind,
        final(node).children == old(node).children,
        final(node).expanded == (if disclosure_clicked { !old(node).expanded } else { old(node).expanded }),
        final(node).locked == (if !disclosure_clicked && lock_clicked {
            !old(node).locked
        } else {
            old(node).locked
        }),
        *final(selected_id) == (if !disclosure_clicked && !lock_clicked && row_clicked {
            Some(old(node).id)
        } else {
            *old(selected_id)
        }),
        r == (disclosure_clicked || lock_clicked || (row_clicked && *old(selected_id) != Some(old(node).id))),
{
    if disclosure_clicked {
        node.expanded = !node.expanded;
        true
    } else if lock_clicked {
        node.locked = !node.locked;
        true
    } else if row_clicked {
        if *selected_id != Some(node.id) {
            *selected_id = Some(node.id);
            true
        } else {
            false
        }
    } else {
        false
    }
}

/// A click on the panel's background, away from every row and button,
/// clears the selection. Whether the selection changed.
pub fn clear_selection_on_background_click(
    selected_id: &mut Option<usize>,
    pointer_clicked: bool,
    over_interaction: bool,
    pointer_inside: bool,
) -> (r: bool)
    ensures
        r == (pointer_clicked && !over_interaction && pointer_inside && *old(selected_id) is Some),
        *final(selected_id) == (if pointer_clicked && !over_interaction && pointer_inside {
            None
        } else {
            *old(selected_id)
        }),
{
    if pointer_clicked && !over_interaction && pointer_inside {
        let was_selected = selected_id.is_some();
        *selected_id = None;
        was_selected
    } else {
        false
    }
}

} // verus!
