use vstd::prelude::*;

use crate::config::{display_name_of, is_word, DmgConfig, DmgContent};

verus! {

/// One record of the volume's view-state metadata.
#[derive(Clone, Debug, PartialEq, Eq)]
pub enum LayoutEntry {
    /// Where the icon of a named item sits.
    IconPlacement { name: String, x: u32, y: u32 },
    /// The size of the folder window.
    WindowBounds { width: u32, height: u32 },
    /// Icon scale and, when the background could be resolved, its alias record.
    ViewParameters { icon_size_bits: u64, background_alias: Option<Vec<u8>> },
}

/// A layout entry as a mathematical value.
pub enum EntryModel {
    Icon { name: Seq<char>, x: u32, y: u32 },
    Bounds { width: u32, height: u32 },
    ViewParams { icon_size_bits: u64, alias: Option<Seq<u8>> },
}

pub open spec fn alias_view(a: Option<Vec<u8>>) -> Option<Seq<u8>> {
    match a {
        Some(b) => Some(b@),
        None => None,
    }
}

impl View for LayoutEntry {
    type V = EntryModel;

    open spec fn view(&self) -> EntryModel {
        match self {
            LayoutEntry::IconPlacement { name, x, y } => EntryModel::Icon { name: name@, x: *x, y: *y },
            LayoutEntry::WindowBounds { width, height } => EntryModel::Bounds {
                width: *width,
                height: *height,
            },
            LayoutEntry::ViewParameters { icon_size_bits, background_alias } => EntryModel::ViewParams {
                icon_size_bits: *icon_size_bits,
                alias: alias_view(*background_alias),
            },
        }
    }
}

pub open spec fn entries_view(v: Seq<LayoutEntry>) -> Seq<EntryModel> {
    v.map_values(|e: LayoutEntry| e@)
}

/// The display name that is left to the desktop to arrange: the licence.
pub open spec fn reserved_name() -> Seq<char> {
    "license"@
}

/// The icon placement that an item asks for.
pub open spec fn icon_of(c: DmgContent) -> EntryModel {
    EntryModel::Icon { name: display_name_of(c), x: c.x, y: c.y }
}

/// One icon placement per item, in order, skipping items whose display
/// name is the reserved one.
pub open spec fn icon_entries(cs: Seq<DmgContent>) -> Seq<EntryModel>
    decreases cs.len(),
{
    if cs.len() == 0 {
        seq![]
    } else if display_name_of(cs.last()) == reserved_name() {
        icon_entries(cs.drop_last())
    } else {
        icon_entries(cs.drop_last()).push(icon_of(cs.last()))
    }
}

/// The window bounds entry of a declaration.
pub open spec fn bounds_of(config: DmgConfig) -> EntryModel {
    EntryModel::Bounds { width: config.window.size.width, height: config.window.size.height }
}

/// The view-parameters entry of a declaration, with the given alias record.
pub open spec fn view_params_of(config: DmgConfig, alias: Option<Seq<u8>>) -> EntryModel {
    EntryModel::ViewParams { icon_size_bits: config.icon_size_bits, alias }
}

/// All entries written for a declaration: the icon placements, then the
/// window bounds, then the view parameters.
pub open spec fn layout_of(config: DmgConfig, alias: Option<Seq<u8>>) -> Seq<EntryModel> {
    icon_entries(config.contents@) + seq![bounds_of(config), view_params_of(config, alias)]
}

/// Builds the metadata entries of the volume's root folder.
pub fn layout_entries(config: &DmgConfig, background_alias: Option<Vec<u8>>) -> (r: Vec<LayoutEntry>)
    ensures
        entries_view(r@) == layout_of(*config, alias_view(background_alias)),
{
    let ghost cs = config.contents@;
    let mut r: Vec<LayoutEntry> = Vec::new();
    let n = config.contents.len();
    let mut i: usize = 0;
    while i < n
        invariant
            i <= n == cs.len(),
            cs == config.contents@,
            entries_view(r@) == icon_entries(cs.subrange(0, i as int)),
        decreases n - i,
    {
        let item = &config.contents[i];
        let name = item.display_name();
        assert(cs.subrange(0, i + 1).drop_last() =~= cs.subrange(0, i as int));
        assert(cs.subrange(0, i + 1).last() == cs[i as int]);
        if !is_word(name.as_str(), "license") {
            r.push(LayoutEntry::IconPlacement { name, x: item.x, y: item.y });
            assert(entries_view(r@) =~= icon_entries(cs.subrange(0, i + 1)));
        }
        i = i + 1;
    }
    assert(cs.subrange(0, n as int) =~= cs);
    r.push(
        LayoutEntry::WindowBounds { width: config.window.size.width, height: config.window.size.height },
    );
    r.push(LayoutEntry::ViewParameters { icon_size_bits: config.icon_size_bits, background_alias });
    assert(entries_view(r@) =~= layout_of(*config, alias_view(background_alias)));
    r
}

proof fn lemma_icon_entries_all_placed(cs: Seq<DmgContent>)
    requires
        forall|i: int| 0 <= i < cs.len() ==> display_name_of(#[trigger] cs[i]) != reserved_name(),
    ensures
        icon_entries(cs).len() == cs.len(),
        forall|i: int| 0 <= i < cs.len() ==> #[trigger] icon_entries(cs)[i] == icon_of(cs[i]),
    decreases cs.len(),
{
    if cs.len() > 0 {
        let p = cs.drop_last();
        assert forall|i: int| 0 <= i < p.len() implies display_name_of(#[trigger] p[i])
            != reserved_name() by {
            assert(p[i] == cs[i]);
        }
        lemma_icon_entries_all_placed(p);
        assert(display_name_of(cs[cs.len() - 1]) != reserved_name());
    }
}

proof fn lemma_icon_entries_shape(cs: Seq<DmgContent>)
    ensures
        forall|j: int| 0 <= j < icon_entries(cs).len() ==> {
            &&& #[trigger] icon_entries(cs)[j] is Icon
            &&& icon_entries(cs)[j]->Icon_name != reserved_name()
        },
        forall|i: int|
            0 <= i < cs.len() && display_name_of(#[trigger] cs[i]) != reserved_name() ==> exists|
                j: int,
            |
                0 <= j < icon_entries(cs).len() && icon_entries(cs)[j] == icon_of(cs[i]),
    decreases cs.len(),
{
    if cs.len() > 0 {
        let p = cs.drop_last();
        lemma_icon_entries_shape(p);
        let e = icon_entries(p);
        assert forall|i: int|
            0 <= i < cs.len() && display_name_of(#[trigger] cs[i]) != reserved_name() implies exists|
                j: int,
            |
                0 <= j < icon_entries(cs).len() && icon_entries(cs)[j] == icon_of(cs[i]) by {
            if i < p.len() {
                assert(p[i] == cs[i]);
                let j = choose|j: int| 0 <= j < e.len() && e[j] == icon_of(p[i]);
                assert(icon_entries(cs)[j] == e[j]);
            } else {
                assert(icon_entries(cs)[e.len() as int] == icon_of(cs[i]));
            }
        }
    }
}

/// With no item named by the reserved name, a declaration of N items gives
/// exactly N icon placements, followed by exactly one window bounds entry
/// and exactly one view-parameters entry.
pub proof fn lemma_entry_count(config: DmgConfig, alias: Option<Seq<u8>>)
    requires
        forall|i: int|
            0 <= i < config.contents@.len() ==> display_name_of(#[trigger] config.contents@[i])
                != reserved_name(),
    ensures
        ({
            let m = layout_of(config, alias);
            let n = config.contents@.len() as int;
            &&& m.len() == n + 2
            &&& forall|i: int| 0 <= i < n ==> #[trigger] m[i] is Icon
            &&& m[n] is Bounds
            &&& m[n + 1] is ViewParams
        }),
{
    lemma_icon_entries_all_placed(config.contents@);
    let m = layout_of(config, alias);
    let n = config.contents@.len() as int;
    assert forall|i: int| 0 <= i < n implies #[trigger] m[i] is Icon by {
        assert(m[i] == icon_entries(config.contents@)[i]);
    }
}

/// An item without an override is placed under the final component of its
/// source path, and every item has an entry of its own: two items that
/// resolve to the same name each keep their placement.
pub proof fn lemma_items_keep_own_entries(config: DmgConfig, alias: Option<Seq<u8>>)
    requires
        forall|i: int|
            0 <= i < config.contents@.len() ==> display_name_of(#[trigger] config.contents@[i])
                != reserved_name(),
    ensures
        forall|i: int|
            0 <= i < config.contents@.len() ==> #[trigger] layout_of(config, alias)[i] == icon_of(
                config.contents@[i],
            ),
        forall|i: int|
            0 <= i < config.contents@.len() && (#[trigger] config.contents@[i]).name is None
                && crate::paths::final_component(config.contents@[i].path@) is Some
                ==> display_name_of(config.contents@[i]) == crate::paths::final_component(
                config.contents@[i].path@,
            )->Some_0,
{
    lemma_icon_entries_all_placed(config.contents@);
}

/// No icon placement carries the reserved name, every other item keeps its
/// placement, and the window bounds and view parameters are still written.
pub proof fn lemma_reserved_name_skipped(config: DmgConfig, alias: Option<Seq<u8>>)
    ensures
        ({
            let m = layout_of(config, alias);
            let cs = config.contents@;
            &&& m.len() >= 2
            &&& m[m.len() - 2] == bounds_of(config)
            &&& m[m.len() - 1] == view_params_of(config, alias)
            &&& forall|j: int|
                0 <= j < m.len() && (#[trigger] m[j]) is Icon ==> m[j]->Icon_name != reserved_name()
            &&& forall|i: int|
                0 <= i < cs.len() && display_name_of(#[trigger] cs[i]) != reserved_name() ==> exists|
                    j: int,
                |
                    0 <= j < m.len() && m[j] == icon_of(cs[i])
        }),
{
    let cs = config.contents@;
    let e = icon_entries(cs);
    let m = layout_of(config, alias);
    lemma_icon_entries_shape(cs);
    assert forall|j: int| 0 <= j < m.len() && (#[trigger] m[j]) is Icon implies m[j]->Icon_name
        != reserved_name() by {
        if j < e.len() {
            assert(m[j] == e[j]);
        }
    }
    assert forall|i: int|
        0 <= i < cs.len() && display_name_of(#[trigger] cs[i]) != reserved_name() implies exists|
            j: int,
        |
            0 <= j < m.len() && m[j] == icon_of(cs[i]) by {
        let j = choose|j: int| 0 <= j < e.len() && e[j] == icon_of(cs[i]);
        assert(m[j] == e[j]);
    }
}

/// Without a resolvable background the view-parameters entry carries no
/// alias record; the layout is still complete.
pub proof fn lemma_no_background(config: DmgConfig)
    ensures
        layout_of(config, None).last() == view_params_of(config, None),
        view_params_of(config, None)->ViewParams_alias is None,
        layout_of(config, None).len() == icon_entries(config.contents@).len() + 2,
{
}

} // verus!
