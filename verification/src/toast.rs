//! The toast stack: notifications queued in order, stamped when first
//! shown, dropped once their time is up or when dismissed, and the newest
//! ones picked for display. Times are whole milliseconds.

use vstd::prelude::*;

verus! {

#[derive(Debug, Clone, Copy, PartialEq, Eq, Structural)]
pub enum ToastIntent {
    Neutral,
    Success,
    Destructive,
}

impl Default for ToastIntent {
    fn default() -> (r: Self)
        ensures
            r == ToastIntent::Neutral,
    {
        ToastIntent::Neutral
    }
}

#[derive(Debug, Clone, Copy, PartialEq, Eq, Structural)]
pub enum ToastPlacement {
    TopLeft,
    TopCenter,
    TopRight,
    CenterLeft,
    Center,
    CenterRight,
    BottomLeft,
    BottomCenter,
    BottomRight,
}

impl Default for ToastPlacement {
    fn default() -> (r: Self)
        ensures
            r == ToastPlacement::BottomRight,
    {
        ToastPlacement::BottomRight
    }
}

/// How long a toast stays by default, in milliseconds.
pub const DEFAULT_TOAST_DURATION_MS: u64 = 4000;

#[derive(Debug)]
pub struct Toast {
    pub title: String,
    pub description: Option<String>,
    pub intent: ToastIntent,
    /// How long the toast stays once shown; 0 keeps it until dismissed.
    pub duration_ms: u64,
}

impl Toast {
    pub fn new(title: &str) -> (r: Self)
        ensures
            r.title@ == title@,
            r.description is None,
            r.intent == ToastIntent::Neutral,
            r.duration_ms == DEFAULT_TOAST_DURATION_MS,
    {
        Toast { title: title.to_owned(), description: None, intent: ToastIntent::Neutral, duration_ms: DEFAULT_TOAST_DURATION_MS }
    }

    pub fn description(self, description: &str) -> (r: Self)
        ensures
            r.title == self.title,
            r.description matches Some(d) && d@ == description@,
            r.intent == self.intent,
            r.duration_ms == self.duration_ms,
    {
        Toast { description: Some(description.to_owned()), ..self }
    }

    pub fn intent(self, intent: ToastIntent) -> (r: Self)
        ensures
            r == (Toast { intent, ..self }),
    {
        Toast { intent, ..self }
    }

    pub fn duration(self, duration_ms: u64) -> (r: Self)
        ensures
            r == (Toast { duration_ms, ..self }),
    {
        Toast { duration_ms, ..self }
    }
}

#[derive(Debug)]
pub struct ToastEntry {
    pub id: u64,
    pub toast: Toast,
    /// When the toast was first shown, if it has been.
    pub shown_at_ms: Option<u64>,
}

/// Whether `entry`'s time is up at `now_ms`: it has a duration, has been
/// shown, and that duration has passed since.
pub open spec fn expired(entry: ToastEntry, now_ms: u64) -> bool {
    &&& entry.toast.duration_ms > 0
    &&& entry.shown_at_ms matches Some(t) && now_ms >= t && now_ms - t >= entry.toast.duration_ms
}

pub fn toast_expired(entry: &ToastEntry, now_ms: u64) -> (r: bool)
    ensures
        r == expired(*entry, now_ms),
{
    entry.toast.duration_ms > 0 && match entry.shown_at_ms {
        Some(t) => now_ms >= t && now_ms - t >= entry.toast.duration_ms,
        None => false,
    }
}

/// `entry` stamped as shown at `now_ms` unless it was shown before.
pub open spec fn stamped(entry: ToastEntry, now_ms: u64) -> ToastEntry {
    if entry.shown_at_ms is None {
        ToastEntry { shown_at_ms: Some(now_ms), ..entry }
    } else {
        entry
    }
}

/// The entries kept after a frame at `now_ms`: each stamped, those whose
/// time is up dropped, order kept.
pub open spec fn ticked(entries: Seq<ToastEntry>, now_ms: u64) -> Seq<ToastEntry>
    decreases entries.len(),
{
    if entries.len() == 0 {
        Seq::empty()
    } else {
        let e = stamped(entries[0], now_ms);
        let rest = ticked(entries.drop_first(), now_ms);
        if expired(e, now_ms) {
            rest
        } else {
            seq![e] + rest
        }
    }
}

/// The entries kept after the toasts `ids` are dismissed, order kept.
pub open spec fn without_ids(entries: Seq<ToastEntry>, ids: Seq<u64>) -> Seq<ToastEntry>
    decreases entries.len(),
{
    if entries.len() == 0 {
        Seq::empty()
    } else {
        let rest = without_ids(entries.drop_first(), ids);
        if ids.contains(entries[0].id) {
            rest
        } else {
            seq![entries[0]] + rest
        }
    }
}

pub open spec fn next_toast_id(id: u64) -> u64 {
    if id == u64::MAX {
        id
    } else {
        (id + 1) as u64
    }
}

pub struct ToastStackView {
    pub next_id: u64,
    pub entries: Seq<ToastEntry>,
}

#[derive(Debug)]
pub struct ToastStack {
    next_id: u64,
    entries: Vec<ToastEntry>,
}

impl View for ToastStack {
    type V = ToastStackView;

    closed spec fn view(&self) -> ToastStackView {
        ToastStackView { next_id: self.next_id, entries: self.entries@ }
    }
}

/// The stack's ids increase from the oldest toast to the newest, and stay
/// below the next id it hands out.
pub open spec fn ids_ordered(v: ToastStackView) -> bool {
    &&& forall|i: int, j: int| 0 <= i < j < v.entries.len() ==> v.entries[i].id < v.entries[j].id
    &&& forall|i: int| 0 <= i < v.entries.len() ==> v.entries[i].id < v.next_id
}

/// When a toast with a duration runs out, counting from `now_ms` for a toast
/// not shown yet, in milliseconds (saturating at `u64::MAX`).
pub open spec fn expiry_ms(entry: ToastEntry, now_ms: u64) -> int {
    let start = match entry.shown_at_ms {
        Some(t) => t as int,
        None => now_ms as int,
    };
    let end = start + entry.toast.duration_ms;
    if end > u64::MAX {
        u64::MAX as int
    } else {
        end
    }
}

/// The earliest time at which one of `entries[i..]` with a duration runs out.
pub open spec fn earliest_expiry(entries: Seq<ToastEntry>, now_ms: u64, i: int) -> Option<int>
    decreases entries.len() - i,
{
    if i < 0 || i >= entries.len() {
        None
    } else {
        let rest = earliest_expiry(entries, now_ms, i + 1);
        if entries[i].toast.duration_ms > 0 {
            let e = expiry_ms(entries[i], now_ms);
            match rest {
                Some(r) => Some(if e <= r { e } else { r }),
                None => Some(e),
            }
        } else {
            rest
        }
    }
}

impl ToastStack {
    pub fn new() -> (r: Self)
        ensures
            r@.next_id == 0,
            r@.entries == Seq::<ToastEntry>::empty(),
    {
        ToastStack { next_id: 0, entries: Vec::new() }
    }

    /// Queues `toast` after the others, under the next id.
    pub fn push(&mut self, toast: Toast)
        ensures
            final(self)@.entries == old(self)@.entries.push(
                ToastEntry { id: old(self)@.next_id, toast, shown_at_ms: None },
            ),
            final(self)@.next_id == next_toast_id(old(self)@.next_id),
    {
        let id = self.next_id;
        self.next_id = self.next_id.saturating_add(1);
        self.entries.push(ToastEntry { id, toast, shown_at_ms: None });
    }

    pub fn neutral(&mut self, title: &str)
        ensures
            final(self)@.next_id == next_toast_id(old(self)@.next_id),
            final(self)@.entries.len() == old(self)@.entries.len() + 1,
            final(self)@.entries.drop_last() == old(self)@.entries,
            final(self)@.entries.last().id == old(self)@.next_id,
            final(self)@.entries.last().toast.title@ == title@,
            final(self)@.entries.last().toast.intent == ToastIntent::Neutral,
    {
        self.push(Toast::new(title));
        assert(self@.entries.drop_last() =~= old(self)@.entries);
    }

    pub fn success(&mut self, title: &str)
        ensures
            final(self)@.next_id == next_toast_id(old(self)@.next_id),
            final(self)@.entries.len() == old(self)@.entries.len() + 1,
            final(self)@.entries.drop_last() == old(self)@.entries,
            final(self)@.entries.last().id == old(self)@.next_id,
            final(self)@.entries.last().toast.title@ == title@,
            final(self)@.entries.last().toast.intent == ToastIntent::Success,
    {
        self.push(Toast::new(title).intent(ToastIntent::Success));
        assert(self@.entries.drop_last() =~= old(self)@.entries);
    }

    pub fn destructive(&mut self, title: &str)
        ensures
            final(self)@.next_id == next_toast_id(old(self)@.next_id),
            final(self)@.entries.len() == old(self)@.entries.len() + 1,
            final(self)@.entries.drop_last() == old(self)@.entries,
            final(self)@.entries.last().id == old(self)@.next_id,
            final(self)@.entries.last().toast.title@ == title@,
            final(self)@.entries.last().toast.intent == ToastIntent::Destructive,
    {
        self.push(Toast::new(title).intent(ToastIntent::Destructive));
        assert(self@.entries.drop_last() =~= old(self)@.entries);
    }

    pub fn clear(&mut self)
        ensures
            final(self)@.entries == Seq::<ToastEntry>::empty(),
            final(self)@.next_id == old(self)@.next_id,
    {
        self.entries.clear();
    }

    pub fn is_empty(&self) -> (r: bool)
        ensures
            r == (self@.entries.len() == 0),
    {
        self.entries.len() == 0
    }

    /// The queued toasts, oldest first.
    pub fn entries(&self) -> (r: &[ToastEntry])
        ensures
            r@ == self@.entries,
    {
        self.entries.as_slice()
    }

    /// A frame at `now_ms`: stamps the toasts shown for the first time and
    /// drops those whose time is up.
    pub fn tick(&mut self, now_ms: u64)
        ensures
            final(self)@.entries == ticked(old(self)@.entries, now_ms),
            final(self)@.next_id == old(self)@.next_id,
    {
        let mut pending: Vec<ToastEntry> = Vec::new();
        std::mem::swap(&mut pending, &mut self.entries);
        let ghost all = pending@;
        let mut kept: Vec<ToastEntry> = Vec::new();
        while pending.len() > 0
            invariant
                self.next_id == old(self).next_id,
                kept@ + ticked(pending@, now_ms) == ticked(all, now_ms),
            decreases pending@.len(),
        {
            let ghost before = pending@;
            let mut entry = pending.remove(0);
            assert(pending@ =~= before.drop_first());
            if entry.shown_at_ms.is_none() {
                entry.shown_at_ms = Some(now_ms);
            }
            let ghost kept_before = kept@;
            if !toast_expired(&entry, now_ms) {
                kept.push(entry);
            }
            assert(kept@ + ticked(pending@, now_ms) =~= kept_before + ticked(before, now_ms));
        }
        assert(kept@ =~= ticked(all, now_ms));
        self.entries = kept;
    }

    /// Drops the toasts whose ids are among `ids`.
    pub fn dismiss(&mut self, ids: &[u64])
        ensures
            final(self)@.entries == without_ids(old(self)@.entries, ids@),
            final(self)@.next_id == old(self)@.next_id,
    {
        let mut pending: Vec<ToastEntry> = Vec::new();
        std::mem::swap(&mut pending, &mut self.entries);
        let ghost all = pending@;
        let mut kept: Vec<ToastEntry> = Vec::new();
        while pending.len() > 0
            invariant
                self.next_id == old(self).next_id,
                kept@ + without_ids(pending@, ids@) == without_ids(all, ids@),
            decreases pending@.len(),
        {
            let ghost before = pending@;
            let entry = pending.remove(0);
            assert(pending@ =~= before.drop_first());
            let mut found = false;
            let mut k: usize = 0;
            while k < ids.len()
                invariant
                    k <= ids@.len(),
                    found == ids@.subrange(0, k as int).contains(entry.id),
                decreases ids@.len() - k,
            {
                if ids[k] == entry.id {
                    found = true;
                }
                proof {
                    let prefix = ids@.subrange(0, k as int);
                    let next = ids@.subrange(0, k + 1);
                    assert(next =~= prefix.push(ids@[k as int]));
                    if prefix.contains(entry.id) {
                        let w = choose|w: int| 0 <= w < prefix.len() && prefix[w] == entry.id;
                        assert(next[w] == entry.id);
                    }
                    if ids@[k as int] == entry.id {
                        assert(next[k as int] == entry.id);
                    }
                    if next.contains(entry.id) && ids@[k as int] != entry.id {
                        let w = choose|w: int| 0 <= w < next.len() && next[w] == entry.id;
                        assert(prefix[w] == entry.id);
                    }
                }
                k += 1;
            }
            assert(ids@.subrange(0, ids@.len() as int) =~= ids@);
            let ghost kept_before = kept@;
            if !found {
                kept.push(entry);
            }
            assert(kept@ + without_ids(pending@, ids@) =~= kept_before + without_ids(before, ids@));
        }
        assert(kept@ =~= without_ids(all, ids@));
        self.entries = kept;
    }

    /// When the next repaint is due for the toasts to run out: the earliest time
    /// at which a toast with a duration runs out (a toast not shown yet counting
    /// from `now_ms`); `None` where no toast has a duration.
    pub fn next_expiry_ms(&self, now_ms: u64) -> (r: Option<u64>)
        ensures
            r matches Some(t) ==> earliest_expiry(self@.entries, now_ms, 0) == Some(t as int),
            r is None ==> earliest_expiry(self@.entries, now_ms, 0) is None,
    {
        let mut best: Option<u64> = None;
        let mut k: usize = self.entries.len();
        while k > 0
            invariant
                k <= self@.entries.len(),
                best matches Some(t) ==> earliest_expiry(self@.entries, now_ms, k as int) == Some(t as int),
                best is None ==> earliest_expiry(self@.entries, now_ms, k as int) is None,
            decreases k,
        {
            k -= 1;
            let entry = &self.entries[k];
            if entry.toast.duration_ms > 0 {
                let start = match entry.shown_at_ms {
                    Some(t) => t,
                    None => now_ms,
                };
                let end = start.saturating_add(entry.toast.duration_ms);
                best = Some(
                    match best {
                        Some(b) => if end <= b {
                            end
                        } else {
                            b
                        },
                        None => end,
                    },
                );
            }
        }
        best
    }

    /// The ids of the toasts to draw: the newest first, at most `max_visible`.
    pub fn visible_ids(&self, max_visible: usize) -> (r: Vec<u64>)
        ensures
            r@.len() == if max_visible < self@.entries.len() {
                max_visible as int
            } else {
                self@.entries.len() as int
            },
            forall|k: int| 0 <= k < r@.len() ==> r@[k] == self@.entries[self@.entries.len() - 1 - k].id,
    {
        let mut r: Vec<u64> = Vec::new();
        let n = self.entries.len();
        let mut k: usize = 0;
        while k < n && k < max_visible
            invariant
                n == self@.entries.len(),
                k <= n,
                k <= max_visible,
                r@.len() == k,
                forall|m: int| 0 <= m < k ==> r@[m] == self@.entries[n - 1 - m].id,
            decreases n - k,
        {
            r.push(self.entries[n - 1 - k].id);
            k += 1;
        }
        r
    }
}

impl Default for ToastStack {
    fn default() -> (r: Self)
        ensures
            r@.next_id == 0,
            r@.entries == Seq::<ToastEntry>::empty(),
    {
        ToastStack::new()
    }
}

/// Pushing keeps the ids of the stack ordered, as long as ids are left to
/// hand out.
pub proof fn lemma_push_keeps_ids_ordered(before: ToastStackView, after: ToastStackView, toast: Toast)
    requires
        ids_ordered(before),
        before.next_id < u64::MAX,
        after.entries == before.entries.push(ToastEntry { id: before.next_id, toast, shown_at_ms: None }),
        after.next_id == next_toast_id(before.next_id),
    ensures
        ids_ordered(after),
{
}

/// The ids of `entries` increase from first to last.
pub open spec fn ids_increasing(entries: Seq<ToastEntry>) -> bool {
    forall|i: int, j: int| 0 <= i < j < entries.len() ==> entries[i].id < entries[j].id
}

/// Every id of `entries` lies strictly between `lo` and `hi`.
pub open spec fn ids_between(entries: Seq<ToastEntry>, lo: int, hi: int) -> bool {
    forall|i: int| 0 <= i < entries.len() ==> lo < #[trigger] entries[i].id && entries[i].id < hi
}

proof fn lemma_ticked_ordered(entries: Seq<ToastEntry>, now_ms: u64, lo: int, hi: int)
    requires
        ids_increasing(entries),
        ids_between(entries, lo, hi),
    ensures
        ids_increasing(ticked(entries, now_ms)),
        ids_between(ticked(entries, now_ms), lo, hi),
    decreases entries.len(),
{
    if entries.len() > 0 {
        let tail = entries.drop_first();
        assert forall|i: int, j: int| 0 <= i < j < tail.len() implies tail[i].id < tail[j].id by {
            assert(tail[i] == entries[i + 1] && tail[j] == entries[j + 1]);
        }
        assert forall|i: int| 0 <= i < tail.len() implies entries[0].id < #[trigger] tail[i].id && tail[i].id < hi by {
            assert(tail[i] == entries[i + 1]);
        }
        lemma_ticked_ordered(tail, now_ms, entries[0].id as int, hi);
        let e = stamped(entries[0], now_ms);
        let rest = ticked(tail, now_ms);
        if !expired(e, now_ms) {
            let t = seq![e] + rest;
            assert forall|i: int, j: int| 0 <= i < j < t.len() implies t[i].id < t[j].id by {
                if i > 0 {
                    assert(t[i] == rest[i - 1] && t[j] == rest[j - 1]);
                } else {
                    assert(t[j] == rest[j - 1]);
                }
            }
            assert forall|i: int| 0 <= i < t.len() implies lo < #[trigger] t[i].id && t[i].id < hi by {
                if i > 0 {
                    assert(t[i] == rest[i - 1]);
                }
            }
        }
    }
}

proof fn lemma_without_ids_ordered(entries: Seq<ToastEntry>, ids: Seq<u64>, lo: int, hi: int)
    requires
        ids_increasing(entries),
        ids_between(entries, lo, hi),
    ensures
        ids_increasing(without_ids(entries, ids)),
        ids_between(without_ids(entries, ids), lo, hi),
    decreases entries.len(),
{
    if entries.len() > 0 {
        let tail = entries.drop_first();
        assert forall|i: int, j: int| 0 <= i < j < tail.len() implies tail[i].id < tail[j].id by {
            assert(tail[i] == entries[i + 1] && tail[j] == entries[j + 1]);
        }
        assert forall|i: int| 0 <= i < tail.len() implies entries[0].id < #[trigger] tail[i].id && tail[i].id < hi by {
            assert(tail[i] == entries[i + 1]);
        }
        lemma_without_ids_ordered(tail, ids, entries[0].id as int, hi);
        let rest = without_ids(tail, ids);
        if !ids.contains(entries[0].id) {
            let t = seq![entries[0]] + rest;
            assert forall|i: int, j: int| 0 <= i < j < t.len() implies t[i].id < t[j].id by {
                if i > 0 {
                    assert(t[i] == rest[i - 1] && t[j] == rest[j - 1]);
                } else {
                    assert(t[j] == rest[j - 1]);
                }
            }
            assert forall|i: int| 0 <= i < t.len() implies lo < #[trigger] t[i].id && t[i].id < hi by {
                if i > 0 {
                    assert(t[i] == rest[i - 1]);
                }
            }
        }
    }
}

/// A frame keeps the ids of the stack ordered.
pub proof fn lemma_tick_keeps_ids_ordered(before: ToastStackView, now_ms: u64)
    requires
        ids_ordered(before),
    ensures
        ids_ordered(ToastStackView { next_id: before.next_id, entries: ticked(before.entries, now_ms) }),
{
    lemma_ticked_ordered(before.entries, now_ms, -1, before.next_id as int);
}

/// Dismissing toasts keeps the ids of the stack ordered.
pub proof fn lemma_dismiss_keeps_ids_ordered(before: ToastStackView, ids: Seq<u64>)
    requires
        ids_ordered(before),
    ensures
        ids_ordered(ToastStackView { next_id: before.next_id, entries: without_ids(before.entries, ids) }),
{
    lemma_without_ids_ordered(before.entries, ids, -1, before.next_id as int);
}

/// Dismissing removes exactly the toasts named: none of them is left, and
/// every other toast stays.
pub proof fn lemma_dismiss_removes_exactly(entries: Seq<ToastEntry>, ids: Seq<u64>)
    ensures
        forall|i: int| 0 <= i < without_ids(entries, ids).len() ==> !ids.contains(#[trigger] without_ids(entries, ids)[i].id),
        forall|i: int| 0 <= i < entries.len() && !ids.contains(#[trigger] entries[i].id) ==> without_ids(entries, ids).contains(entries[i]),
    decreases entries.len(),
{
    if entries.len() > 0 {
        let tail = entries.drop_first();
        lemma_dismiss_removes_exactly(tail, ids);
        let rest = without_ids(tail, ids);
        let t = without_ids(entries, ids);
        assert forall|i: int| 0 <= i < t.len() implies !ids.contains(#[trigger] t[i].id) by {
            if !ids.contains(entries[0].id) && i > 0 {
                assert(t[i] == rest[i - 1]);
            }
        }
        assert forall|i: int| 0 <= i < entries.len() && !ids.contains(#[trigger] entries[i].id) implies t.contains(entries[i]) by {
            if i == 0 {
                assert(t[0] == entries[0]);
            } else {
                assert(entries[i] == tail[i - 1]);
                assert(rest.contains(tail[i - 1]));
                let w = choose|w: int| 0 <= w < rest.len() && rest[w] == tail[i - 1];
                if !ids.contains(entries[0].id) {
                    assert(t[w + 1] == rest[w]);
                }
            }
        }
    }
}

/// A frame never drops a toast that has no duration: such a toast stays, stamped.
pub proof fn lemma_tick_keeps_sticky_toasts(entries: Seq<ToastEntry>, now_ms: u64)
    ensures
        forall|i: int| 0 <= i < entries.len() && #[trigger] entries[i].toast.duration_ms == 0
            ==> ticked(entries, now_ms).contains(stamped(entries[i], now_ms)),
    decreases entries.len(),
{
    if entries.len() > 0 {
        let tail = entries.drop_first();
        lemma_tick_keeps_sticky_toasts(tail, now_ms);
        let rest = ticked(tail, now_ms);
        let t = ticked(entries, now_ms);
        let e = stamped(entries[0], now_ms);
        assert forall|i: int| 0 <= i < entries.len() && #[trigger] entries[i].toast.duration_ms == 0
            implies t.contains(stamped(entries[i], now_ms)) by {
            if i == 0 {
                assert(t[0] == e);
            } else {
                assert(entries[i] == tail[i - 1]);
                assert(tail[i - 1].toast.duration_ms == 0);
                let w = choose|w: int| 0 <= w < rest.len() && rest[w] == stamped(tail[i - 1], now_ms);
                if !expired(e, now_ms) {
                    assert(t[w + 1] == rest[w]);
                }
            }
        }
    }
}

} // verus!
