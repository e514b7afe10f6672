//! The context-menu layout kept in `menu.json`: its data model, the catalogue
//! of actions, the default layout, the clean-up applied when a layout is
//! loaded, and the edits the settings panel makes.

use vstd::prelude::*;
use crate::actions::join_path;
use crate::actions::join;
use crate::text::{chars_eq, chars_of};

verus! {

broadcast use vstd::string::group_string_axioms;

// ── Data model ────────────────────────────────────────────────────────────────

/// One entry of a context-menu group.
#[derive(Debug, Clone)]
pub struct MenuItem {
    /// The action script name, e.g. `02_Install`.
    pub id: String,
    /// The text shown in the menu.
    pub label: String,
    pub enabled: bool,
}

/// A named submenu.
#[derive(Debug, Clone)]
pub struct MenuGroup {
    pub group: String,
    pub items: Vec<MenuItem>,
}

/// A loaded layout, with the ids that were dropped because no action has them.
#[derive(Debug)]
pub struct LoadResult {
    pub groups: Vec<MenuGroup>,
    /// Ids present in menu.json that are not in `all_actions()`, in file order.
    pub unknown_ids: Vec<String>,
}

#[verifier::ext_equal]
pub ghost struct MenuItemV {
    pub id: Seq<char>,
    pub label: Seq<char>,
    pub enabled: bool,
}

#[verifier::ext_equal]
pub ghost struct MenuGroupV {
    pub group: Seq<char>,
    pub items: Seq<MenuItemV>,
}

impl DeepView for MenuItem {
    type V = MenuItemV;

    open spec fn deep_view(&self) -> MenuItemV {
        MenuItemV { id: self.id@, label: self.label@, enabled: self.enabled }
    }
}

impl DeepView for MenuGroup {
    type V = MenuGroupV;

    open spec fn deep_view(&self) -> MenuGroupV {
        MenuGroupV { group: self.group@, items: self.items.deep_view() }
    }
}

// ── The catalogue of actions ─────────────────────────────────────────────────

/// Every action: its id and the message id of its label (the English label).
pub open spec fn action_table() -> Seq<(Seq<char>, Seq<char>)> {
    seq![
        ("00_Full Workflow"@, "Full Workflow"@),
        ("01_Build"@, "Build"@),
        ("02b_Build and Clean"@, "Build and Clean"@),
        ("08_Build Force"@, "Build Force"@),
        ("09_Build NoCheck"@, "Build NoCheck"@),
        ("10_Build NoGPG"@, "Build NoGPG"@),
        ("11_Fetch Sources"@, "Fetch Sources"@),
        ("02_Install"@, "Install"@),
        ("12_Install Force"@, "Install Force"@),
        ("13_Install RmDeps"@, "Install RmDeps"@),
        ("14_Install NoCheck"@, "Install NoCheck"@),
        ("15_Install NoGPG"@, "Install NoGPG"@),
        ("03_Update Checksums"@, "Update Checksums"@),
        ("04_Update .SRCINFO"@, "Update .SRCINFO"@),
        ("16_Gen Checksums"@, "Gen Checksums"@),
        ("05_Namcap"@, "Namcap"@),
        ("05b_ShellCheck"@, "ShellCheck"@),
        ("06_Push AUR"@, "Push AUR"@),
        ("17_Push AUR Tag"@, "Push AUR Tag"@),
        ("07_Clean srcdir"@, "Clean srcdir"@),
        ("07b_Clean Everything"@, "Clean Everything"@),
    ]
}

/// The ids of all actions, in catalogue order.
pub open spec fn action_ids() -> Seq<Seq<char>> {
    action_table().map_values(|p: (Seq<char>, Seq<char>)| p.0)
}

pub open spec fn is_known_action(id: Seq<char>) -> bool {
    action_ids().contains(id)
}

/// The label message id of the first catalogue entry with this id.
pub open spec fn msgid_from(t: Seq<(Seq<char>, Seq<char>)>, id: Seq<char>) -> Option<Seq<char>>
    decreases t.len(),
{
    if t.len() == 0 {
        None
    } else if t[0].0 == id {
        Some(t[0].1)
    } else {
        msgid_from(t.drop_first(), id)
    }
}

pub open spec fn action_msgid(id: Seq<char>) -> Option<Seq<char>> {
    msgid_from(action_table(), id)
}

fn table() -> (t: [(&'static str, &'static str); 21])
    ensures
        forall|k: int|
            0 <= k < 21 ==> (#[trigger] t@[k]).0@ == action_table()[k].0 && t@[k].1@
                == action_table()[k].1,
{
    let t = [
        ("00_Full Workflow", "Full Workflow"),
        ("01_Build", "Build"),
        ("02b_Build and Clean", "Build and Clean"),
        ("08_Build Force", "Build Force"),
        ("09_Build NoCheck", "Build NoCheck"),
        ("10_Build NoGPG", "Build NoGPG"),
        ("11_Fetch Sources", "Fetch Sources"),
        ("02_Install", "Install"),
        ("12_Install Force", "Install Force"),
        ("13_Install RmDeps", "Install RmDeps"),
        ("14_Install NoCheck", "Install NoCheck"),
        ("15_Install NoGPG", "Install NoGPG"),
        ("03_Update Checksums", "Update Checksums"),
        ("04_Update .SRCINFO", "Update .SRCINFO"),
        ("16_Gen Checksums", "Gen Checksums"),
        ("05_Namcap", "Namcap"),
        ("05b_ShellCheck", "ShellCheck"),
        ("06_Push AUR", "Push AUR"),
        ("17_Push AUR Tag", "Push AUR Tag"),
        ("07_Clean srcdir", "Clean srcdir"),
        ("07b_Clean Everything", "Clean Everything"),
    ];
    t
}

proof fn lemma_msgid_known(t: Seq<(Seq<char>, Seq<char>)>, id: Seq<char>)
    ensures
        msgid_from(t, id) is Some <==> t.map_values(|p: (Seq<char>, Seq<char>)| p.0).contains(id),
        msgid_from(t, id) matches Some(m) ==> exists|k: int| 0 <= k < t.len() && t[k].1 == m,
    decreases t.len(),
{
    let ids = t.map_values(|p: (Seq<char>, Seq<char>)| p.0);
    if t.len() > 0 {
        lemma_msgid_known(t.drop_first(), id);
        let rest = t.drop_first().map_values(|p: (Seq<char>, Seq<char>)| p.0);
        assert(ids =~= seq![t[0].0] + rest);
        if t[0].0 != id {
            if ids.contains(id) {
                let k = choose|k: int| 0 <= k < ids.len() && ids[k] == id;
                assert(rest[k - 1] == id);
            }
            if rest.contains(id) {
                let k = choose|k: int| 0 <= k < rest.len() && rest[k] == id;
                assert(ids[k + 1] == id);
            }
            if let Some(m) = msgid_from(t, id) {
                let k = choose|k: int| 0 <= k < t.drop_first().len() && t.drop_first()[k].1 == m;
                assert(t[k + 1].1 == m);
            }
        } else {
            assert(ids[0] == id);
        }
    }
}

/// The label message id of action `id`, when it is in the catalogue.
pub fn find_msgid(id: &str) -> (r: Option<&'static str>)
    ensures
        r matches Some(m) ==> action_msgid(id@) == Some(m@),
        r is None ==> action_msgid(id@) is None,
        action_msgid(id@) is Some <==> is_known_action(id@),
{
    proof {
        lemma_msgid_known(action_table(), id@);
    }
    let t = table();
    let idv = chars_of(id);
    let mut k: usize = 0;
    assert(action_table().skip(0) =~= action_table());
    while k < 21
        invariant
            k <= 21,
            idv@ == id@,
            forall|j: int|
                0 <= j < 21 ==> (#[trigger] t@[j]).0@ == action_table()[j].0 && t@[j].1@
                    == action_table()[j].1,
            action_msgid(id@) == msgid_from(action_table().skip(k as int), id@),
            action_msgid(id@) is Some <==> is_known_action(id@),
        decreases 21 - k,
    {
        let (kid, msg) = t[k];
        assert(action_table().skip(k as int).drop_first() =~= action_table().skip(k + 1));
        if chars_eq(&chars_of(kid), &idv) {
            return Some(msg);
        }
        k += 1;
    }
    assert(action_table().skip(21) =~= Seq::<(Seq<char>, Seq<char>)>::empty());
    None
}

/// Is `id` the id of an action of the catalogue?
pub fn is_known(id: &str) -> (b: bool)
    ensures
        b == is_known_action(id@),
{
    find_msgid(id).is_some()
}

// ── Translations ──────────────────────────────────────────────────────────────

/// A message catalogue as pairs `(message id, translation)`.
pub open spec fn catalogue_view(cat: Seq<(String, String)>) -> Seq<(Seq<char>, Seq<char>)> {
    cat.map_values(|p: (String, String)| (p.0@, p.1@))
}

/// The translation of `m` in `cat` (its first entry), or `m` itself when the
/// catalogue has none, as `gettext` falls back to the message id.
pub open spec fn translate(cat: Seq<(Seq<char>, Seq<char>)>, m: Seq<char>) -> Seq<char> {
    match msgid_from(cat, m) {
        Some(t) => t,
        None => m,
    }
}

/// The label of action `id`: the translation of its message id, or the id
/// itself for an id outside the catalogue.
pub open spec fn label_of(cat: Seq<(Seq<char>, Seq<char>)>, id: Seq<char>) -> Seq<char> {
    match action_msgid(id) {
        Some(m) => translate(cat, m),
        None => id,
    }
}

/// Every message id the menu model shows: the action labels, then the names
/// of the default groups. The program translates each one and hands the
/// pairs back as the catalogue.
pub open spec fn menu_msgids() -> Seq<Seq<char>> {
    action_table().map_values(|p: (Seq<char>, Seq<char>)| p.1) + default_group_msgids()
}

/// The message ids to translate, in `menu_msgids` order.
pub fn catalogue_msgids() -> (r: Vec<&'static str>)
    ensures
        r@.map_values(|m: &'static str| m@) == menu_msgids(),
{
    let t = table();
    let mut r: Vec<&'static str> = Vec::new();
    let mut k: usize = 0;
    let ghost labels = action_table().map_values(|p: (Seq<char>, Seq<char>)| p.1);
    while k < 21
        invariant
            k <= 21,
            forall|j: int|
                0 <= j < 21 ==> (#[trigger] t@[j]).0@ == action_table()[j].0 && t@[j].1@
                    == action_table()[j].1,
            labels == action_table().map_values(|p: (Seq<char>, Seq<char>)| p.1),
            r@.map_values(|m: &'static str| m@) == labels.take(k as int),
        decreases 21 - k,
    {
        let ghost before = r@;
        let m = t[k].1;
        assert(m@ == labels[k as int]);
        r.push(m);
        assert(r@.map_values(|m: &'static str| m@) =~= before.map_values(|m: &'static str| m@).push(m@));
        assert(labels.take(k + 1) =~= labels.take(k as int).push(labels[k as int]));
        assert(r@.map_values(|m: &'static str| m@) =~= labels.take(k + 1));
        k += 1;
    }
    assert(labels.take(21) =~= labels);
    let ghost mid = r@;
    r.push("Actions");
    r.push("Metadata");
    r.push("Audit");
    r.push("Git / AUR");
    r.push("Clean");
    assert(r@.map_values(|m: &'static str| m@) =~= menu_msgids());
    r
}

/// The translation of `m` in the catalogue `cat`.
pub fn translated(cat: &Vec<(String, String)>, m: &str) -> (r: String)
    ensures
        r@ == translate(catalogue_view(cat@), m@),
{
    let ghost cv = catalogue_view(cat@);
    let mut k: usize = 0;
    assert(cv.skip(0) =~= cv);
    while k < cat.len()
        invariant
            k <= cat.len(),
            cv == catalogue_view(cat@),
            msgid_from(cv, m@) == msgid_from(cv.skip(k as int), m@),
        decreases cat.len() - k,
    {
        assert(cv.skip(k as int).drop_first() =~= cv.skip(k + 1));
        assert(cv.skip(k as int)[0] == (cat@[k as int].0@, cat@[k as int].1@));
        if chars_eq(&chars_of(cat[k].0.as_str()), &chars_of(m)) {
            return cat[k].1.clone();
        }
        k += 1;
    }
    assert(cv.skip(k as int) =~= Seq::<(Seq<char>, Seq<char>)>::empty());
    m.to_string()
}

/// The menu label of action `id` with the catalogue `cat`: the translation of
/// its label message id, or `id` itself for an id outside the catalogue.
pub fn action_label(id: &str, cat: &Vec<(String, String)>) -> (r: String)
    ensures
        r@ == label_of(catalogue_view(cat@), id@),
{
    match find_msgid(id) {
        Some(m) => translated(cat, m),
        None => id.to_string(),
    }
}

/// Every action, as `(id, translated label)`, in catalogue order.
pub fn all_actions(cat: &Vec<(String, String)>) -> (r: Vec<(String, String)>)
    ensures
        r.len() == 21,
        forall|k: int|
            0 <= k < 21 ==> (#[trigger] r[k]).0@ == action_ids()[k] && r[k].1@ == translate(
                catalogue_view(cat@),
                action_table()[k].1,
            ),
{
    let t = table();
    let mut r: Vec<(String, String)> = Vec::new();
    let mut k: usize = 0;
    while k < 21
        invariant
            k <= 21,
            r.len() == k,
            forall|j: int|
                0 <= j < 21 ==> (#[trigger] t@[j]).0@ == action_table()[j].0 && t@[j].1@
                    == action_table()[j].1,
            forall|j: int|
                0 <= j < k ==> (#[trigger] r[j]).0@ == action_ids()[j] && r[j].1@ == translate(
                    catalogue_view(cat@),
                    action_table()[j].1,
                ),
        decreases 21 - k,
    {
        let (id, msg) = t[k];
        r.push((id.to_string(), translated(cat, msg)));
        k += 1;
    }
    r
}

// ── Default layout ────────────────────────────────────────────────────────────

/// The default layout: five groups and the ids of their items.
pub open spec fn default_layout() -> Seq<Seq<Seq<char>>> {
    seq![
        seq!["00_Full Workflow"@, "02_Install"@, "01_Build"@, "02b_Build and Clean"@],
        seq!["03_Update Checksums"@, "04_Update .SRCINFO"@],
        seq!["05_Namcap"@, "05b_ShellCheck"@],
        seq!["06_Push AUR"@],
        seq!["07_Clean srcdir"@, "07b_Clean Everything"@],
    ]
}

/// The group names (message ids) of the default layout.
pub open spec fn default_group_msgids() -> Seq<Seq<char>> {
    seq!["Actions"@, "Metadata"@, "Audit"@, "Git / AUR"@, "Clean"@]
}

/// The layout `groups` has the given item ids, every item enabled.
pub open spec fn has_layout(groups: Seq<MenuGroupV>, layout: Seq<Seq<Seq<char>>>) -> bool {
    &&& groups.len() == layout.len()
    &&& forall|g: int| 0 <= g < groups.len() ==> (#[trigger] groups[g]).items.len() == layout[g].len()
    &&& forall|g: int, i: int|
        0 <= g < groups.len() && 0 <= i < groups[g].items.len() ==> (#[trigger] groups[g].items[i]).id
            == layout[g][i] && groups[g].items[i].enabled
}

/// The default layout as shown with the catalogue `cat`: its item ids, all
/// enabled and labelled by `label_of`, under the translated group names.
pub open spec fn is_default_menu(groups: Seq<MenuGroupV>, cat: Seq<(Seq<char>, Seq<char>)>) -> bool {
    &&& has_layout(groups, default_layout())
    &&& forall|g: int|
        0 <= g < groups.len() ==> (#[trigger] groups[g]).group == translate(
            cat,
            default_group_msgids()[g],
        )
    &&& forall|g: int, i: int|
        0 <= g < groups.len() && 0 <= i < groups[g].items.len() ==> (
        #[trigger] groups[g].items[i]).label == label_of(cat, default_layout()[g][i])
}

fn default_item(id: &str, cat: &Vec<(String, String)>) -> (it: MenuItem)
    ensures
        it.deep_view().id == id@,
        it.deep_view().label == label_of(catalogue_view(cat@), id@),
        it.deep_view().enabled,
{
    MenuItem { id: id.to_string(), label: action_label(id, cat), enabled: true }
}

fn translated_group(msgid: &str, items: Vec<MenuItem>, cat: &Vec<(String, String)>) -> (g: MenuGroup)
    ensures
        g.deep_view().group == translate(catalogue_view(cat@), msgid@),
        g.deep_view().items == items.deep_view(),
{
    MenuGroup { group: translated(cat, msgid), items }
}

/// The built-in layout: Actions, Metadata, Audit, Git / AUR, Clean, with every
/// item enabled and labelled by `action_label`, names and labels translated
/// with `cat`.
pub fn default_menu(cat: &Vec<(String, String)>) -> (r: Vec<MenuGroup>)
    ensures
        is_default_menu(r.deep_view(), catalogue_view(cat@)),
{
    let g0 = vec![
        default_item("00_Full Workflow", cat),
        default_item("02_Install", cat),
        default_item("01_Build", cat),
        default_item("02b_Build and Clean", cat),
    ];
    let g1 = vec![default_item("03_Update Checksums", cat), default_item("04_Update .SRCINFO", cat)];
    let g2 = vec![default_item("05_Namcap", cat), default_item("05b_ShellCheck", cat)];
    let g3 = vec![default_item("06_Push AUR", cat)];
    let g4 = vec![default_item("07_Clean srcdir", cat), default_item("07b_Clean Everything", cat)];
    let r = vec![
        translated_group("Actions", g0, cat),
        translated_group("Metadata", g1, cat),
        translated_group("Audit", g2, cat),
        translated_group("Git / AUR", g3, cat),
        translated_group("Clean", g4, cat),
    ];
    assert(is_default_menu(r.deep_view(), catalogue_view(cat@)));
    r
}

// ── Loading ───────────────────────────────────────────────────────────────────

/// The items whose id is in the catalogue, in order.
pub open spec fn kept_items(items: Seq<MenuItemV>) -> Seq<MenuItemV>
    decreases items.len(),
{
    if items.len() == 0 {
        seq![]
    } else if is_known_action(items.last().id) {
        kept_items(items.drop_last()).push(items.last())
    } else {
        kept_items(items.drop_last())
    }
}

/// The ids outside the catalogue, in order.
pub open spec fn unknown_ids_in(items: Seq<MenuItemV>) -> Seq<Seq<char>>
    decreases items.len(),
{
    if items.len() == 0 {
        seq![]
    } else if is_known_action(items.last().id) {
        unknown_ids_in(items.drop_last())
    } else {
        unknown_ids_in(items.drop_last()).push(items.last().id)
    }
}

/// The unknown ids of all groups, group after group.
pub open spec fn unknown_ids_of(groups: Seq<MenuGroupV>) -> Seq<Seq<char>>
    decreases groups.len(),
{
    if groups.len() == 0 {
        seq![]
    } else {
        unknown_ids_of(groups.drop_last()) + unknown_ids_in(groups.last().items)
    }
}

/// `new` is `old` after loading: same id and switch; a label that differs
/// from the id is kept (a label equal to the id, left by older releases, is
/// replaced by the translated label).
pub open spec fn relabeled(old: MenuItemV, new: MenuItemV, cat: Seq<(Seq<char>, Seq<char>)>) -> bool {
    &&& new.id == old.id
    &&& new.enabled == old.enabled
    &&& new.label == (if old.label == old.id {
        label_of(cat, old.id)
    } else {
        old.label
    })
}

/// `new` is group `old` after loading: same name, the unknown items dropped,
/// the others relabeled, in order.
pub open spec fn sanitized_group(old: MenuGroupV, new: MenuGroupV, cat: Seq<(Seq<char>, Seq<char>)>) -> bool {
    &&& new.group == old.group
    &&& new.items.len() == kept_items(old.items).len()
    &&& forall|i: int|
        0 <= i < new.items.len() ==> relabeled(kept_items(old.items)[i], #[trigger] new.items[i], cat)
}

fn sanitize_group(g: MenuGroup, unknown: &mut Vec<String>, cat: &Vec<(String, String)>) -> (r: MenuGroup)
    ensures
        sanitized_group(g.deep_view(), r.deep_view(), catalogue_view(cat@)),
        final(unknown).deep_view() == old(unknown).deep_view() + unknown_ids_in(
            g.deep_view().items,
        ),
{
    let ghost old_items = g.items.deep_view();
    let ghost start = unknown.deep_view();
    let mut kept: Vec<MenuItem> = Vec::new();
    let MenuGroup { group, items } = g;
    let ghost items0 = items@;
    assert(old_items =~= items0.map_values(|it: MenuItem| it.deep_view()));
    for item in it: items
        invariant
            it.seq() == items0,
            old_items == items0.map_values(|it: MenuItem| it.deep_view()),
            kept.len() == kept_items(old_items.take(it.index() as int)).len(),
            forall|i: int|
                0 <= i < kept.len() ==> relabeled(
                    kept_items(old_items.take(it.index() as int))[i],
                    #[trigger] kept.deep_view()[i],
                    catalogue_view(cat@),
                ),
            unknown.deep_view() == start + unknown_ids_in(old_items.take(it.index() as int)),
    {
        let ghost k = it.index() as int;
        let ghost dv = item.deep_view();
        assert(old_items.take(k + 1).drop_last() =~= old_items.take(k));
        assert(old_items.take(k + 1).last() == dv);
        let ghost before = kept.deep_view();
        let ghost unknown_before = unknown.deep_view();
        if is_known(item.id.as_str()) {
            let MenuItem { id, label, enabled } = item;
            let label = if label == id {
                action_label(id.as_str(), cat)
            } else {
                label
            };
            let fresh = MenuItem { id, label, enabled };
            assert(relabeled(dv, fresh.deep_view(), catalogue_view(cat@)));
            kept.push(fresh);
            assert(kept.deep_view() =~= before.push(fresh.deep_view()));
            assert(kept_items(old_items.take(k + 1)) == kept_items(old_items.take(k)).push(dv));
        } else {
            let id = item.id;
            unknown.push(id);
            assert(unknown.deep_view() =~= unknown_before.push(dv.id));
            assert(unknown_ids_in(old_items.take(k + 1)) == unknown_ids_in(old_items.take(k)).push(
                dv.id,
            ));
            assert(unknown.deep_view() =~= start + unknown_ids_in(old_items.take(k + 1)));
        }
    }
    assert(old_items.take(items0.len() as int) =~= old_items);
    MenuGroup { group, items: kept }
}

/// Cleans up a layout read from `menu.json` (`None` when the file is missing
/// or is not a valid layout): without a layout, the default one; otherwise the
/// layout with every item whose id no action has removed (those ids are
/// reported, in file order) and the labels of older releases, equal to the
/// id, replaced by the translated label.
pub fn load_with_diagnostics(parsed: Option<Vec<MenuGroup>>, cat: &Vec<(String, String)>) -> (r: LoadResult)
    ensures
        parsed is None ==> is_default_menu(r.groups.deep_view(), catalogue_view(cat@))
            && r.unknown_ids.len() == 0,
        parsed matches Some(gs) ==> {
            &&& r.groups.len() == gs.len()
            &&& forall|g: int|
                0 <= g < gs.len() ==> sanitized_group(
                    gs.deep_view()[g],
                    #[trigger] r.groups.deep_view()[g],
                    catalogue_view(cat@),
                )
            &&& r.unknown_ids.deep_view() == unknown_ids_of(gs.deep_view())
        },
{
    match parsed {
        None => LoadResult { groups: default_menu(cat), unknown_ids: Vec::new() },
        Some(gs) => {
            let ghost gv = gs.deep_view();
            let ghost gs0 = gs@;
            assert(gv =~= gs0.map_values(|g: MenuGroup| g.deep_view()));
            let mut unknown: Vec<String> = Vec::new();
            let mut groups: Vec<MenuGroup> = Vec::new();
            assert(unknown.deep_view() =~= unknown_ids_of(gv.take(0)));
            for g in it: gs
                invariant
                    it.seq() == gs0,
                    gv == gs0.map_values(|g: MenuGroup| g.deep_view()),
                    groups.len() == it.index(),
                    forall|j: int|
                        0 <= j < groups.len() ==> sanitized_group(
                            gv[j],
                            #[trigger] groups.deep_view()[j],
                            catalogue_view(cat@),
                        ),
                    unknown.deep_view() == unknown_ids_of(gv.take(it.index() as int)),
            {
                let ghost k = it.index() as int;
                assert(gv.take(k + 1).drop_last() =~= gv.take(k));
                assert(gv.take(k + 1).last() == g.deep_view());
                let ghost before = groups.deep_view();
                let s = sanitize_group(g, &mut unknown, cat);
                groups.push(s);
                assert(groups.deep_view() =~= before.push(s.deep_view()));
            }
            assert(gv.take(gs0.len() as int) =~= gv);
            LoadResult { groups, unknown_ids: unknown }
        },
    }
}

/// The layout to show: `load_with_diagnostics(parsed, cat).groups`.
pub fn load(parsed: Option<Vec<MenuGroup>>, cat: &Vec<(String, String)>) -> (r: Vec<MenuGroup>)
    ensures
        parsed is None ==> is_default_menu(r.deep_view(), catalogue_view(cat@)),
        parsed matches Some(gs) ==> r.len() == gs.len() && forall|g: int|
            0 <= g < gs.len() ==> sanitized_group(
                gs.deep_view()[g],
                #[trigger] r.deep_view()[g],
                catalogue_view(cat@),
            ),
{
    load_with_diagnostics(parsed, cat).groups
}

// ── Where menu.json lives ─────────────────────────────────────────────────────

/// `$XDG_CONFIG_HOME/pkgbuild-manager`, or `<home>/.config/pkgbuild-manager`
/// (`/tmp` standing for an unknown home).
pub open spec fn config_dir_path(xdg_config_home: Option<Seq<char>>, home: Option<Seq<char>>) -> Seq<
    char,
> {
    let base = match xdg_config_home {
        Some(x) => x,
        None => join_path(
            match home {
                Some(h) => h,
                None => "/tmp"@,
            },
            ".config"@,
        ),
    };
    join_path(base, "pkgbuild-manager"@)
}

/// `dirs::home_dir`: the user's home directory, read back as text.
/// Trusted, with nothing stated of the result: it comes from `$HOME` or the
/// password database. Not stated either: a home directory whose name is not
/// UTF-8 is read lossily.
#[verifier::external_body]
pub(crate) fn home_dir() -> (r: Option<String>) {
    match dirs::home_dir() {
        Some(p) => Some(p.to_string_lossy().into_owned()),
        None => None,
    }
}

/// The configuration directory for the given `$XDG_CONFIG_HOME` and home directory.
pub fn config_dir_for(xdg_config_home: Option<String>, home: Option<String>) -> (r: String)
    ensures
        r@ == config_dir_path(xdg_config_home.deep_view(), home.deep_view()),
{
    let base = match xdg_config_home {
        Some(x) => x,
        None => {
            let h = match home {
                Some(h) => h,
                None => "/tmp".to_string(),
            };
            join(h.as_str(), ".config")
        },
    };
    join(base.as_str(), "pkgbuild-manager")
}

/// The configuration directory: `$XDG_CONFIG_HOME` (passed in, when set and
/// valid Unicode) or the user's home directory, with `pkgbuild-manager` appended.
pub fn config_dir(xdg_config_home: Option<String>) -> (r: String)
    ensures
        exists|home: Option<Seq<char>>| r@ == config_dir_path(xdg_config_home.deep_view(), home),
{
    let home = match xdg_config_home {
        Some(_) => None,
        None => home_dir(),
    };
    config_dir_for(xdg_config_home, home)
}

/// The layout file, `menu.json` in the configuration directory.
pub fn config_file(xdg_config_home: Option<String>) -> (r: String)
    ensures
        exists|home: Option<Seq<char>>|
            r@ == join_path(config_dir_path(xdg_config_home.deep_view(), home), "menu.json"@),
{
    let dir = config_dir(xdg_config_home);
    join(dir.as_str(), "menu.json")
}

} // verus!
