//! The edits the settings panel makes to a layout: groups and items are
//! added, renamed, switched on or off, moved up or down, and removed. An edit
//! addressed at a position that does not exist leaves the layout unchanged.

use vstd::prelude::*;
use crate::settings_gui::config::{MenuGroup, MenuGroupV, MenuItem, MenuItemV};

verus! {

// ── Specification ─────────────────────────────────────────────────────────────

/// `s` with its elements at `i` and `j` exchanged.
pub open spec fn swapped<A>(s: Seq<A>, i: int, j: int) -> Seq<A> {
    s.update(i, s[j]).update(j, s[i])
}

/// The element at `i` exchanged with the one before it, when there is one.
pub open spec fn moved_up<A>(s: Seq<A>, i: int) -> Seq<A> {
    if 0 < i < s.len() {
        swapped(s, i, i - 1)
    } else {
        s
    }
}

/// The element at `i` exchanged with the one after it, when there is one.
pub open spec fn moved_down<A>(s: Seq<A>, i: int) -> Seq<A> {
    if 0 <= i && i + 1 < s.len() {
        swapped(s, i, i + 1)
    } else {
        s
    }
}

/// The element at `i` removed, when there is one.
pub open spec fn removed<A>(s: Seq<A>, i: int) -> Seq<A> {
    if 0 <= i < s.len() {
        s.remove(i)
    } else {
        s
    }
}

/// Group `g` with its items replaced by `items`.
pub open spec fn with_items(s: Seq<MenuGroupV>, g: int, items: Seq<MenuItemV>) -> Seq<MenuGroupV> {
    s.update(g, MenuGroupV { group: s[g].group, items })
}

// ── Moving elements of a vector ───────────────────────────────────────────────

fn swap_next<T>(v: &mut Vec<T>, i: usize)
    requires
        i + 1 < old(v).len(),
    ensures
        final(v)@ == swapped(old(v)@, i as int, i + 1),
{
    let x = v.remove(i + 1);
    v.insert(i, x);
    assert(v@ =~= swapped(old(v)@, i as int, i + 1));
}

fn move_up_in<T>(v: &mut Vec<T>, i: usize)
    ensures
        final(v)@ == moved_up(old(v)@, i as int),
{
    if i > 0 && i < v.len() {
        swap_next(v, i - 1);
        assert(swapped(old(v)@, i - 1, i as int) =~= swapped(old(v)@, i as int, i - 1));
    }
}

fn move_down_in<T>(v: &mut Vec<T>, i: usize)
    ensures
        final(v)@ == moved_down(old(v)@, i as int),
{
    if i < v.len() && v.len() - i > 1 {
        swap_next(v, i);
    }
}

proof fn lemma_deep_swapped<T: DeepView>(a: Seq<T>, b: Seq<T>, f: spec_fn(T) -> T::V, i: int, j: int)
    requires
        0 <= i < a.len(),
        0 <= j < a.len(),
        b == swapped(a, i, j),
    ensures
        b.map_values(f) == swapped(a.map_values(f), i, j),
{
    assert(b.map_values(f) =~= swapped(a.map_values(f), i, j));
}

// ── Row buttons ───────────────────────────────────────────────────────────────

/// Which of the ↑ and ↓ buttons of row `idx` among `n` rows work: a row moves
/// up unless it is first, and down unless it is last.
pub fn move_buttons(idx: usize, n: usize) -> (r: (bool, bool))
    ensures
        r.0 == (idx > 0),
        r.1 == (idx + 1 < n),
{
    (idx > 0, idx < n && idx + 1 < n)
}

// ── Group edits ───────────────────────────────────────────────────────────────

/// Appends an empty group named `name`.
pub fn add_group(groups: &mut Vec<MenuGroup>, name: String)
    ensures
        final(groups).deep_view() == old(groups).deep_view().push(
            MenuGroupV { group: name@, items: seq![] },
        ),
{
    let g = MenuGroup { group: name, items: Vec::new() };
    assert(g.deep_view().items =~= Seq::<MenuItemV>::empty());
    groups.push(g);
    assert(groups.deep_view() =~= old(groups).deep_view().push(g.deep_view()));
}

/// Moves group `idx` one place up.
pub fn move_group_up(groups: &mut Vec<MenuGroup>, idx: usize)
    ensures
        final(groups).deep_view() == moved_up(old(groups).deep_view(), idx as int),
{
    move_up_in(groups, idx);
    proof {
        if 0 < idx < old(groups).len() {
            lemma_deep_swapped(
                old(groups)@,
                final(groups)@,
                |g: MenuGroup| g.deep_view(),
                idx as int,
                idx - 1,
            );
        }
    }
    assert(groups.deep_view() =~= moved_up(old(groups).deep_view(), idx as int));
}

/// Moves group `idx` one place down.
pub fn move_group_down(groups: &mut Vec<MenuGroup>, idx: usize)
    ensures
        final(groups).deep_view() == moved_down(old(groups).deep_view(), idx as int),
{
    move_down_in(groups, idx);
    proof {
        if idx + 1 < old(groups).len() {
            lemma_deep_swapped(
                old(groups)@,
                final(groups)@,
                |g: MenuGroup| g.deep_view(),
                idx as int,
                idx + 1,
            );
        }
    }
    assert(groups.deep_view() =~= moved_down(old(groups).deep_view(), idx as int));
}

/// Renames group `idx`.
pub fn rename_group(groups: &mut Vec<MenuGroup>, idx: usize, name: String)
    ensures
        idx < old(groups).len() ==> final(groups).deep_view() == old(groups).deep_view().update(
            idx as int,
            MenuGroupV { group: name@, items: old(groups).deep_view()[idx as int].items },
        ),
        idx >= old(groups).len() ==> final(groups).deep_view() == old(groups).deep_view(),
{
    if idx < groups.len() {
        let MenuGroup { group: _, items } = groups.remove(idx);
        groups.insert(idx, MenuGroup { group: name, items });
        assert(groups.deep_view() =~= old(groups).deep_view().update(
            idx as int,
            MenuGroupV { group: name@, items: old(groups).deep_view()[idx as int].items },
        ));
    }
}

/// Removes group `idx`.
pub fn remove_group(groups: &mut Vec<MenuGroup>, idx: usize)
    ensures
        final(groups).deep_view() == removed(old(groups).deep_view(), idx as int),
{
    if idx < groups.len() {
        groups.remove(idx);
        assert(groups.deep_view() =~= old(groups).deep_view().remove(idx as int));
    }
}

// ── Item edits ────────────────────────────────────────────────────────────────

/// Takes group `g` out, applies nothing, and returns it with its index.
fn take_group(groups: &mut Vec<MenuGroup>, g: usize) -> (r: MenuGroup)
    requires
        g < old(groups).len(),
    ensures
        r.deep_view() == old(groups).deep_view()[g as int],
        final(groups)@ == old(groups)@.remove(g as int),
{
    groups.remove(g)
}

fn put_group(groups: &mut Vec<MenuGroup>, g: usize, grp: MenuGroup, Ghost(orig): Ghost<Seq<MenuGroupV>>)
    requires
        g <= old(groups).len(),
        orig.len() == old(groups).len() + 1,
        forall|j: int| 0 <= j < g ==> orig[j] == (#[trigger] old(groups)@[j]).deep_view(),
        forall|j: int| g < j < orig.len() ==> orig[j] == (#[trigger] old(groups)@[j - 1]).deep_view(),
    ensures
        final(groups).deep_view() == orig.update(g as int, grp.deep_view()),
{
    let ghost before = groups@;
    groups.insert(g, grp);
    assert forall|j: int| 0 <= j < orig.len() implies #[trigger] groups.deep_view()[j] == orig.update(
        g as int,
        grp.deep_view(),
    )[j] by {
        if j > g {
            assert(groups@[j] == before[j - 1]);
        } else if j < g {
            assert(groups@[j] == before[j]);
        }
    }
    assert(groups.deep_view() =~= orig.update(g as int, grp.deep_view()));
}

/// Switches item `i` of group `g` on or off.
pub fn set_item_enabled(groups: &mut Vec<MenuGroup>, g: usize, i: usize, state: bool)
    ensures
        (g < old(groups).len() && i < old(groups).deep_view()[g as int].items.len()) ==> final(groups).deep_view() == with_items(
            old(groups).deep_view(),
            g as int,
            old(groups).deep_view()[g as int].items.update(
                i as int,
                MenuItemV { enabled: state, ..old(groups).deep_view()[g as int].items[i as int] },
            ),
        ),
        !(g < old(groups).len() && i < old(groups).deep_view()[g as int].items.len()) ==> final(groups).deep_view() == old(groups).deep_view(),
{
    if g < groups.len() && i < groups[g].items.len() {
        let ghost orig = groups.deep_view();
        let MenuGroup { group, mut items } = take_group(groups, g);
        assert(items.deep_view().len() == items.len());
        let ghost before = items@;
        let MenuItem { id, label, enabled: _ } = items.remove(i);
        let fresh = MenuItem { id, label, enabled: state };
        assert(fresh.deep_view() =~= MenuItemV { enabled: state, ..orig[g as int].items[i as int] });
        items.insert(i, fresh);
        assert(items@ =~= before.update(i as int, fresh));
        let grp = MenuGroup { group, items };
        assert(grp.deep_view().items =~= orig[g as int].items.update(i as int, fresh.deep_view()));
        assert(grp.deep_view() =~= MenuGroupV {
            group: orig[g as int].group,
            items: orig[g as int].items.update(
                i as int,
                MenuItemV { enabled: state, ..orig[g as int].items[i as int] },
            ),
        });
        put_group(groups, g, grp, Ghost(orig));
    }
}

/// Changes the label of item `i` of group `g`.
pub fn rename_item(groups: &mut Vec<MenuGroup>, g: usize, i: usize, label: String)
    ensures
        (g < old(groups).len() && i < old(groups).deep_view()[g as int].items.len()) ==> final(groups).deep_view() == with_items(
            old(groups).deep_view(),
            g as int,
            old(groups).deep_view()[g as int].items.update(
                i as int,
                MenuItemV { label: label@, ..old(groups).deep_view()[g as int].items[i as int] },
            ),
        ),
        !(g < old(groups).len() && i < old(groups).deep_view()[g as int].items.len()) ==> final(groups).deep_view() == old(groups).deep_view(),
{
    if g < groups.len() && i < groups[g].items.len() {
        let ghost orig = groups.deep_view();
        let MenuGroup { group, mut items } = take_group(groups, g);
        assert(items.deep_view().len() == items.len());
        let ghost before = items@;
        let MenuItem { id, label: _, enabled } = items.remove(i);
        let fresh = MenuItem { id, label, enabled };
        assert(fresh.deep_view() =~= MenuItemV { label: label@, ..orig[g as int].items[i as int] });
        items.insert(i, fresh);
        assert(items@ =~= before.update(i as int, fresh));
        let grp = MenuGroup { group, items };
        assert(grp.deep_view().items =~= orig[g as int].items.update(i as int, fresh.deep_view()));
        assert(grp.deep_view() =~= MenuGroupV {
            group: orig[g as int].group,
            items: orig[g as int].items.update(
                i as int,
                MenuItemV { label: label@, ..orig[g as int].items[i as int] },
            ),
        });
        put_group(groups, g, grp, Ghost(orig));
    }
}

/// Moves item `i` of group `g` one place up.
pub fn move_item_up(groups: &mut Vec<MenuGroup>, g: usize, i: usize)
    requires
        g < old(groups).len(),
    ensures
        final(groups).deep_view() == with_items(
            old(groups).deep_view(),
            g as int,
            moved_up(old(groups).deep_view()[g as int].items, i as int),
        ),
{
    let ghost orig = groups.deep_view();
    let MenuGroup { group, mut items } = take_group(groups, g);
    let ghost before = items@;
    move_up_in(&mut items, i);
    proof {
        if 0 < i < before.len() {
            lemma_deep_swapped(before, items@, |it: MenuItem| it.deep_view(), i as int, i - 1);
        }
    }
    let grp = MenuGroup { group, items };
    assert(grp.deep_view().items =~= moved_up(orig[g as int].items, i as int));
    put_group(groups, g, grp, Ghost(orig));
    assert(groups.deep_view() =~= with_items(
        orig,
        g as int,
        moved_up(orig[g as int].items, i as int),
    ));
}

/// Moves item `i` of group `g` one place down.
pub fn move_item_down(groups: &mut Vec<MenuGroup>, g: usize, i: usize)
    requires
        g < old(groups).len(),
    ensures
        final(groups).deep_view() == with_items(
            old(groups).deep_view(),
            g as int,
            moved_down(old(groups).deep_view()[g as int].items, i as int),
        ),
{
    let ghost orig = groups.deep_view();
    let MenuGroup { group, mut items } = take_group(groups, g);
    let ghost before = items@;
    move_down_in(&mut items, i);
    proof {
        if i + 1 < before.len() {
            lemma_deep_swapped(before, items@, |it: MenuItem| it.deep_view(), i as int, i + 1);
        }
    }
    let grp = MenuGroup { group, items };
    assert(grp.deep_view().items =~= moved_down(orig[g as int].items, i as int));
    put_group(groups, g, grp, Ghost(orig));
    assert(groups.deep_view() =~= with_items(
        orig,
        g as int,
        moved_down(orig[g as int].items, i as int),
    ));
}

/// Removes item `i` of group `g`.
pub fn remove_item(groups: &mut Vec<MenuGroup>, g: usize, i: usize)
    requires
        g < old(groups).len(),
    ensures
        final(groups).deep_view() == with_items(
            old(groups).deep_view(),
            g as int,
            removed(old(groups).deep_view()[g as int].items, i as int),
        ),
{
    let ghost orig = groups.deep_view();
    let MenuGroup { group, mut items } = take_group(groups, g);
    if i < items.len() {
        items.remove(i);
    }
    let grp = MenuGroup { group, items };
    assert(grp.deep_view().items =~= removed(orig[g as int].items, i as int));
    put_group(groups, g, grp, Ghost(orig));
    assert(groups.deep_view() =~= with_items(
        orig,
        g as int,
        removed(orig[g as int].items, i as int),
    ));
}

/// Appends the action `id` (shown as `label`, enabled) to group `g`.
pub fn add_item(groups: &mut Vec<MenuGroup>, g: usize, id: String, label: String)
    requires
        g < old(groups).len(),
    ensures
        final(groups).deep_view() == with_items(
            old(groups).deep_view(),
            g as int,
            old(groups).deep_view()[g as int].items.push(
                MenuItemV { id: id@, label: label@, enabled: true },
            ),
        ),
{
    let ghost orig = groups.deep_view();
    let MenuGroup { group, mut items } = take_group(groups, g);
    items.push(MenuItem { id, label, enabled: true });
    let grp = MenuGroup { group, items };
    assert(grp.deep_view().items =~= orig[g as int].items.push(
        MenuItemV { id: id@, label: label@, enabled: true },
    ));
    put_group(groups, g, grp, Ghost(orig));
    assert(groups.deep_view() =~= with_items(
        orig,
        g as int,
        orig[g as int].items.push(MenuItemV { id: id@, label: label@, enabled: true }),
    ));
}

// ── Laws ──────────────────────────────────────────────────────────────────────

/// Moving an element down and then moving it back up restores the order.
pub proof fn lemma_move_down_then_up<A>(s: Seq<A>, i: int)
    requires
        0 <= i,
        i + 1 < s.len(),
    ensures
        moved_up(moved_down(s, i), i + 1) == s,
{
    assert(moved_up(moved_down(s, i), i + 1) =~= s);
}

/// Moving an element up and then moving it back down restores the order.
pub proof fn lemma_move_up_then_down<A>(s: Seq<A>, i: int)
    requires
        0 < i < s.len(),
    ensures
        moved_down(moved_up(s, i), i - 1) == s,
{
    assert(moved_down(moved_up(s, i), i - 1) =~= s);
}

/// Moving never adds, loses or duplicates an element: the result is a
/// rearrangement of the same elements.
pub proof fn lemma_moves_keep_elements<A>(s: Seq<A>, i: int)
    ensures
        moved_up(s, i).to_multiset() == s.to_multiset(),
        moved_down(s, i).to_multiset() == s.to_multiset(),
{
    broadcast use vstd::seq_lib::group_to_multiset_ensures;
    if 0 < i < s.len() {
        lemma_swap_multiset(s, i, i - 1);
    }
    if 0 <= i && i + 1 < s.len() {
        lemma_swap_multiset(s, i, i + 1);
    }
}

proof fn lemma_swap_multiset<A>(s: Seq<A>, i: int, j: int)
    requires
        0 <= i < s.len(),
        0 <= j < s.len(),
    ensures
        swapped(s, i, j).to_multiset() == s.to_multiset(),
{
    broadcast use vstd::seq_lib::group_to_multiset_ensures;
    let t = s.update(i, s[j]);
    vstd::seq_lib::to_multiset_update(s, i, s[j]);
    vstd::seq_lib::to_multiset_update(t, j, s[i]);
    assert(t[j] == s[j]);
    if i != j {
        assert(s.to_multiset().insert(s[j]).remove(s[i]).insert(s[i]).remove(s[j]) =~= s.to_multiset());
    }
}

} // verus!
