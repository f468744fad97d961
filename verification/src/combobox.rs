//! The multi-select state behind the combobox widget: the selected option
//! indices are kept strictly increasing, looked up by binary search and
//! toggled in place.

use vstd::prelude::*;
use crate::text::{ascii_lower, decimal, push_decimal, seq_contains, str_contains, to_ascii_lowercase};

verus! {

/// Whether `s` is strictly increasing (sorted, without repeats).
pub open spec fn strictly_increasing(s: Seq<usize>) -> bool {
    forall|i: int, j: int| 0 <= i < j < s.len() ==> s[i] < s[j]
}

/// The result of a binary search for `x` in `s`, as `slice::binary_search`
/// gives it on a sorted slice: `Ok` with a position that holds `x`, or `Err`
/// with the position where `x` would be inserted to keep `s` sorted.
pub open spec fn search_result_ok(s: Seq<usize>, x: usize, r: Result<usize, usize>) -> bool {
    match r {
        Ok(p) => p < s.len() && s[p as int] == x,
        Err(p) => {
            &&& p <= s.len()
            &&& forall|k: int| 0 <= k < p ==> s[k] < x
            &&& forall|k: int| p <= k < s.len() ==> s[k] > x
        },
    }
}

/// Binary search for `x` among `s` (`slice::binary_search`). On a sorted
/// slice the result is exact; on any slice an `Ok` position holds `x`.
pub fn binary_search_index(s: &[usize], x: usize) -> (r: Result<usize, usize>)
    ensures
        r matches Ok(p) ==> p < s@.len() && s@[p as int] == x,
        r matches Err(p) ==> p <= s@.len(),
        (forall|i: int, j: int| 0 <= i <= j < s@.len() ==> s@[i] <= s@[j]) ==> search_result_ok(s@, x, r),
{
    let mut lo: usize = 0;
    let mut hi: usize = s.len();
    while lo < hi
        invariant
            lo <= hi <= s@.len(),
            (forall|i: int, j: int| 0 <= i <= j < s@.len() ==> s@[i] <= s@[j]) ==> {
                &&& forall|k: int| 0 <= k < lo ==> s@[k] < x
                &&& forall|k: int| hi <= k < s@.len() ==> s@[k] > x
            },
        decreases hi - lo,
    {
        let mid = lo + (hi - lo) / 2;
        let v = s[mid];
        if v == x {
            return Ok(mid);
        } else if v < x {
            lo = mid + 1;
        } else {
            hi = mid;
        }
    }
    Err(lo)
}

/// Whether option `index` is selected (a binary search of the selection).
pub fn is_selected(selected_indices: &[usize], index: usize) -> (r: bool)
    ensures
        r ==> selected_indices@.contains(index),
        strictly_increasing(selected_indices@) ==> (r == selected_indices@.contains(index)),
{
    match binary_search_index(selected_indices, index) {
        Ok(_) => true,
        Err(_) => {
            proof {
                if strictly_increasing(selected_indices@) && selected_indices@.contains(index) {
                    let k = choose|k: int| 0 <= k < selected_indices@.len() && selected_indices@[k] == index;
                    assert(selected_indices@[k] == index);
                }
            }
            false
        },
    }
}

/// Selects option `index` where it was not selected, and unselects it where
/// it was, keeping a sorted selection sorted. Always reports a change.
pub fn toggle_selected_index(selected_indices: &mut Vec<usize>, index: usize) -> (r: bool)
    ensures
        r,
        strictly_increasing(old(selected_indices)@) ==> {
            &&& strictly_increasing(final(selected_indices)@)
            &&& forall|x: usize|
                final(selected_indices)@.contains(x) <==> (old(selected_indices)@.contains(x) != (x
                    == index))
        },
{
    match binary_search_index(selected_indices.as_slice(), index) {
        Ok(position) => {
            let ghost s = selected_indices@;
            selected_indices.remove(position);
            proof {
                if strictly_increasing(s) {
                    assert forall|x: usize|
                        selected_indices@.contains(x) <==> (s.contains(x) != (x == index)) by {
                        if s.contains(x) && x != index {
                            let k = choose|k: int| 0 <= k < s.len() && s[k] == x;
                            if k < position {
                                assert(selected_indices@[k] == x);
                            } else {
                                assert(selected_indices@[k - 1] == x);
                            }
                        }
                        if selected_indices@.contains(x) {
                            let k = choose|k: int| 0 <= k < selected_indices@.len() && selected_indices@[k] == x;
                            if k < position {
                                assert(s[k] == x);
                            } else {
                                assert(s[k + 1] == x);
                            }
                        }
                    }
                }
            }
            true
        },
        Err(position) => {
            let ghost s = selected_indices@;
            selected_indices.insert(position, index);
            proof {
                if strictly_increasing(s) {
                    assert forall|x: usize|
                        selected_indices@.contains(x) <==> (s.contains(x) != (x == index)) by {
                        if s.contains(x) {
                            let k = choose|k: int| 0 <= k < s.len() && s[k] == x;
                            if k < position {
                                assert(selected_indices@[k] == x);
                            } else {
                                assert(selected_indices@[k + 1] == x);
                            }
                        }
                        if x == index {
                            assert(selected_indices@[position as int] == x);
                        }
                        if selected_indices@.contains(x) && x != index {
                            let k = choose|k: int| 0 <= k < selected_indices@.len() && selected_indices@[k] == x;
                            if k < position {
                                assert(s[k] == x);
                            } else {
                                assert(k != position);
                                assert(s[k - 1] == x);
                            }
                        }
                    }
                }
            }
            true
        },
    }
}

/// Keeps the selected indices that name an option, sorted and without repeats.
pub fn sanitize_selected_indices(selected_indices: &mut Vec<usize>, option_count: usize)
    ensures
        strictly_increasing(final(selected_indices)@),
        forall|x: usize|
            final(selected_indices)@.contains(x) <==> (old(selected_indices)@.contains(x) && x
                < option_count),
{
    let mut kept: Vec<usize> = Vec::new();
    let mut i: usize = 0;
    while i < selected_indices.len()
        invariant
            i <= selected_indices.len(),
            selected_indices@ == old(selected_indices)@,
            strictly_increasing(kept@),
            forall|x: usize|
                kept@.contains(x) <==> (selected_indices@.subrange(0, i as int).contains(x) && x
                    < option_count),
        decreases selected_indices.len() - i,
    {
        let value = selected_indices[i];
        let ghost before = kept@;
        if value < option_count {
            match binary_search_index(kept.as_slice(), value) {
                Ok(p) => {
                    assert(kept@[p as int] == value);
                },
                Err(position) => {
                    kept.insert(position, value);
                    proof {
                        assert forall|x: usize| kept@.contains(x) <==> (before.contains(x) || x == value) by {
                            if before.contains(x) {
                                let k = choose|k: int| 0 <= k < before.len() && before[k] == x;
                                if k < position {
                                    assert(kept@[k] == x);
                                } else {
                                    assert(kept@[k + 1] == x);
                                }
                            }
                            if x == value {
                                assert(kept@[position as int] == x);
                            }
                            if kept@.contains(x) && x != value {
                                let k = choose|k: int| 0 <= k < kept@.len() && kept@[k] == x;
                                if k < position {
                                    assert(before[k] == x);
                                } else {
                                    assert(k != position);
                                    assert(before[k - 1] == x);
                                }
                            }
                        }
                    }
                },
            }
        }
        assert forall|x: usize| kept@.contains(x) <==> (before.contains(x) || (value < option_count && x == value)) by {};
        proof {
            let prefix = selected_indices@.subrange(0, i as int);
            let next = selected_indices@.subrange(0, i + 1);
            assert(next =~= prefix.push(value));
            assert forall|x: usize| next.contains(x) <==> (prefix.contains(x) || x == value) by {
                if next.contains(x) && x != value {
                    let k = choose|k: int| 0 <= k < next.len() && next[k] == x;
                    assert(prefix[k] == x);
                }
                if prefix.contains(x) {
                    let k = choose|k: int| 0 <= k < prefix.len() && prefix[k] == x;
                    assert(next[k] == x);
                }
                if x == value {
                    assert(next[i as int] == x);
                }
            }
            assert forall|x: usize| kept@.contains(x) <==> (next.contains(x) && x < option_count) by {
                assert(before.contains(x) <==> (prefix.contains(x) && x < option_count));
            }
        }
        i += 1;
    }
    assert(selected_indices@.subrange(0, selected_indices@.len() as int) =~= selected_indices@);
    *selected_indices = kept;
}

/// Two strictly increasing sequences with the same elements are equal.
pub proof fn lemma_strictly_increasing_determined(a: Seq<usize>, b: Seq<usize>)
    requires
        strictly_increasing(a),
        strictly_increasing(b),
        forall|x: usize| a.contains(x) <==> b.contains(x),
    ensures
        a == b,
    decreases a.len(),
{
    if a.len() == 0 {
        if b.len() > 0 {
            assert(b.contains(b[0]));
        }
        assert(a =~= b);
    } else {
        assert(a.contains(a[0]));
        assert(b.len() > 0);
        assert(b.contains(b[0]));
        let ka = choose|k: int| 0 <= k < a.len() && a[k] == b[0];
        let kb = choose|k: int| 0 <= k < b.len() && b[k] == a[0];
        assert(a[0] <= a[ka]);
        assert(b[0] <= b[kb]);
        let a1 = a.drop_first();
        let b1 = b.drop_first();
        assert forall|x: usize| a1.contains(x) <==> b1.contains(x) by {
            if a1.contains(x) {
                let k = choose|k: int| 0 <= k < a1.len() && a1[k] == x;
                assert(a[k + 1] == x);
                assert(b.contains(x));
                let m = choose|m: int| 0 <= m < b.len() && b[m] == x;
                assert(m != 0);
                assert(b1[m - 1] == x);
            }
            if b1.contains(x) {
                let k = choose|k: int| 0 <= k < b1.len() && b1[k] == x;
                assert(b[k + 1] == x);
                assert(a.contains(x));
                let m = choose|m: int| 0 <= m < a.len() && a[m] == x;
                assert(m != 0);
                assert(a1[m - 1] == x);
            }
        }
        lemma_strictly_increasing_determined(a1, b1);
        assert(a =~= seq![a[0]] + a1);
        assert(b =~= seq![b[0]] + b1);
    }
}

/// The selection after two toggles of one option, starting from a sorted
/// selection, is the selection it started from.
pub proof fn lemma_toggle_twice_restores(s: Seq<usize>, once: Seq<usize>, twice: Seq<usize>, index: usize)
    requires
        strictly_increasing(s),
        strictly_increasing(once),
        strictly_increasing(twice),
        forall|x: usize| once.contains(x) <==> (s.contains(x) != (x == index)),
        forall|x: usize| twice.contains(x) <==> (once.contains(x) != (x == index)),
    ensures
        twice == s,
{
    lemma_strictly_increasing_determined(twice, s);
}

/// The text that the closed combobox shows: the placeholder where nothing is
/// selected, the option's label where one is, else the count of options.
pub open spec fn selection_summary_text(
    selected: Seq<usize>,
    options: Seq<Seq<char>>,
    placeholder: Seq<char>,
) -> Seq<char> {
    if selected.len() == 0 {
        placeholder
    } else if selected.len() == 1 {
        if selected[0] < options.len() {
            options[selected[0] as int]
        } else {
            placeholder
        }
    } else {
        decimal(selected.len()) + " selected"@
    }
}

pub open spec fn str_views(s: Seq<&str>) -> Seq<Seq<char>> {
    s.map_values(|t: &str| t@)
}

pub fn selection_summary(selected_indices: &[usize], options: &[&str], placeholder: &str) -> (r: String)
    ensures
        r@ == selection_summary_text(selected_indices@, str_views(options@), placeholder@),
{
    let count = selected_indices.len();
    if count == 0 {
        placeholder.to_owned()
    } else if count == 1 {
        if selected_indices[0] < options.len() {
            options[selected_indices[0]].to_owned()
        } else {
            placeholder.to_owned()
        }
    } else {
        let mut r = String::new();
        push_decimal(&mut r, count);
        r.append(" selected");
        assert(r@ =~= decimal(count as nat) + " selected"@);
        r
    }
}

/// Whether an option shows in the open list for the filter text `query`:
/// always where the list is not searchable or the filter is empty, else
/// where the option contains the filter, ASCII case ignored.
pub open spec fn option_visible(option: Seq<char>, query: Seq<char>, searchable: bool) -> bool {
    !searchable || query.len() == 0 || seq_contains(ascii_lower(option), ascii_lower(query))
}

pub fn combobox_option_visible(option: &str, query: &str, searchable: bool) -> (r: bool)
    ensures
        r == option_visible(option@, query@, searchable),
{
    if !searchable {
        return true;
    }
    let query_lower = to_ascii_lowercase(query);
    if query_lower.as_str().unicode_len() == 0 {
        return true;
    }
    let option_lower = to_ascii_lowercase(option);
    str_contains(option_lower.as_str(), query_lower.as_str())
}

} // verus!
