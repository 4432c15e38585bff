//! The frame around the plugins: which navigation entries go where, the title, and
//! the properties every plugin is drawn with.
use vstd::prelude::*;

use crate::edge::dto::Role;
use crate::plugin::{APIEndpoint, Category, InsertionPoint, PluginProps};

verus! {

/// Where a navigation entry goes in the frame.
#[derive(Clone, Copy, Debug, PartialEq, Eq, Structural)]
pub enum Slot {
    Normal,
    Settings,
    Status,
}

/// The slot of an entry: navigation entries go to the settings menu when they are
/// settings and to the main navigation otherwise; status entries to the status bar.
pub open spec fn slot_of(point: InsertionPoint, category: Category) -> Slot {
    match point {
        InsertionPoint::Navigation => if category == Category::Settings {
            Slot::Settings
        } else {
            Slot::Normal
        },
        InsertionPoint::Status => Slot::Status,
    }
}

/// The indices, in order, of the entries that go to `slot`.
pub open spec fn indices_in(entries: Seq<(InsertionPoint, Category)>, slot: Slot) -> Seq<int>
    decreases entries.len(),
{
    if entries.len() == 0 {
        Seq::empty()
    } else {
        let rest = indices_in(entries.drop_last(), slot);
        let last = entries.last();
        if slot_of(last.0, last.1) == slot {
            rest.push(entries.len() - 1)
        } else {
            rest
        }
    }
}

pub open spec fn as_ints(v: Seq<usize>) -> Seq<int> {
    v.map_values(|x: usize| x as int)
}

/// The entries of each slot, by index into the navigation list.
pub struct FrameGroups {
    pub normal: Vec<usize>,
    pub settings: Vec<usize>,
    pub status: Vec<usize>,
}

/// Sorts the navigation entries, given by insertion point and category, into the
/// slots of the frame, keeping their order.
pub fn group_navigation(entries: &Vec<(InsertionPoint, Category)>) -> (r: FrameGroups)
    ensures
        as_ints(r.normal@) == indices_in(entries@, Slot::Normal),
        as_ints(r.settings@) == indices_in(entries@, Slot::Settings),
        as_ints(r.status@) == indices_in(entries@, Slot::Status),
{
    let mut normal: Vec<usize> = Vec::new();
    let mut settings: Vec<usize> = Vec::new();
    let mut status: Vec<usize> = Vec::new();
    let mut i: usize = 0;
    while i < entries.len()
        invariant
            i <= entries.len(),
            as_ints(normal@) == indices_in(entries@.take(i as int), Slot::Normal),
            as_ints(settings@) == indices_in(entries@.take(i as int), Slot::Settings),
            as_ints(status@) == indices_in(entries@.take(i as int), Slot::Status),
        decreases entries.len() - i,
    {
        let (point, category) = entries[i];
        let ghost old_normal = normal;
        let ghost old_settings = settings;
        let ghost old_status = status;
        proof {
            assert(entries@.take(i + 1).drop_last() =~= entries@.take(i as int));
            assert(entries@.take(i + 1).last() == entries@[i as int]);
        }
        match point {
            InsertionPoint::Navigation => {
                if category == Category::Settings {
                    settings.push(i);
                    assert(as_ints(settings@) =~= as_ints(old_settings@).push(i as int));
                } else {
                    normal.push(i);
                    assert(as_ints(normal@) =~= as_ints(old_normal@).push(i as int));
                }
            },
            InsertionPoint::Status => {
                status.push(i);
                assert(as_ints(status@) =~= as_ints(old_status@).push(i as int));
            },
        }
        i = i + 1;
    }
    proof {
        assert(entries@.take(entries@.len() as int) =~= entries@);
    }
    FrameGroups { normal, settings, status }
}

/// Every entry goes to exactly one slot: the slot of its insertion point and
/// category holds its index, and no other slot does.
pub proof fn law_slots_partition(entries: Seq<(InsertionPoint, Category)>, i: int)
    requires
        0 <= i < entries.len(),
    ensures
        indices_in(entries, slot_of(entries[i].0, entries[i].1)).contains(i),
        forall|s: Slot| s != slot_of(entries[i].0, entries[i].1) ==> !(#[trigger] indices_in(entries, s)).contains(i),
    decreases entries.len(),
{
    let own = slot_of(entries[i].0, entries[i].1);
    let d = entries.drop_last();
    if i < entries.len() - 1 {
        law_slots_partition(d, i);
        assert(d[i] == entries[i]);
        let k = choose|k: int| 0 <= k < indices_in(d, own).len() && indices_in(d, own)[k] == i;
        assert(indices_in(entries, own)[k] == i);
        assert forall|s: Slot| s != own implies !(#[trigger] indices_in(entries, s)).contains(i) by {
            lemma_indices_below(d, s);
            if indices_in(entries, s).contains(i) {
                let j = choose|j: int| 0 <= j < indices_in(entries, s).len() && indices_in(entries, s)[j] == i;
                if j < indices_in(d, s).len() {
                    assert(indices_in(d, s).contains(i));
                }
            }
        }
    } else {
        assert(indices_in(entries, own).last() == i);
        assert forall|s: Slot| s != own implies !(#[trigger] indices_in(entries, s)).contains(i) by {
            lemma_indices_below(d, s);
            if indices_in(entries, s).contains(i) {
                let j = choose|j: int| 0 <= j < indices_in(entries, s).len() && indices_in(entries, s)[j] == i;
                assert(indices_in(d, s)[j] < d.len());
            }
        }
    }
}

proof fn lemma_indices_below(entries: Seq<(InsertionPoint, Category)>, s: Slot)
    ensures
        forall|k: int| 0 <= k < indices_in(entries, s).len() ==> 0 <= #[trigger] indices_in(entries, s)[k] < entries.len(),
    decreases entries.len(),
{
    if entries.len() > 0 {
        let d = entries.drop_last();
        lemma_indices_below(d, s);
        let rest = indices_in(d, s);
        assert forall|k: int| 0 <= k < indices_in(entries, s).len() implies 0
            <= #[trigger] indices_in(entries, s)[k] < entries.len() by {
            if k < rest.len() {
                assert(indices_in(entries, s)[k] == rest[k]);
            }
        }
    }
}

/// How the frame shows its title: not at all without one, as text without an
/// address, as a link with one.
#[derive(Clone, Copy, Debug, PartialEq, Eq, Structural)]
pub enum TitleKind {
    Hidden,
    Text,
    Link,
}

pub fn title_kind(app_title: &str, app_url: &str) -> (r: TitleKind)
    ensures
        app_title@.len() == 0 ==> r is Hidden,
        app_title@.len() != 0 && app_url@.len() == 0 ==> r is Text,
        app_title@.len() != 0 && app_url@.len() != 0 ==> r is Link,
{
    if app_title.unicode_len() == 0 {
        TitleKind::Hidden
    } else if app_url.unicode_len() == 0 {
        TitleKind::Text
    } else {
        TitleKind::Link
    }
}

/// The frame draws the navigation bar only when there are navigation or settings
/// entries; otherwise just the content.
pub fn shows_navigation(groups: &FrameGroups) -> (r: bool)
    ensures
        r == (groups.normal@.len() > 0 || groups.settings@.len() > 0),
{
    groups.normal.len() > 0 || groups.settings.len() > 0
}

/// The properties every plugin is drawn with: the active route, the frame's role and
/// its endpoint.
pub fn frame_props<R>(route: R, active_role: Role, api_endpoint: Option<APIEndpoint>) -> (r: PluginProps<R>)
    ensures
        r.active_route == route,
        r.active_role == active_role,
        r.api_endpoint == api_endpoint,
{
    PluginProps { active_route: route, active_role, api_endpoint }
}

} // verus!
