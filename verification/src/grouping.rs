//! What it is to group windows by workspace.

use vstd::prelude::*;

verus! {

/// What a `WindowEntry` stands for.
pub struct EntryModel {
    pub window_id: u64,
    pub app_id: Seq<char>,
    pub workspace_id: u64,
}

/// What a `WorkspaceSection` stands for.
pub struct SectionModel {
    pub workspace_id: u64,
    pub windows: Seq<EntryModel>,
}

/// A section that holds one window only.
pub open spec fn single(entry: EntryModel) -> SectionModel {
    SectionModel { workspace_id: entry.workspace_id, windows: seq![entry] }
}

/// The section `section` with `entry` as its last window.
pub open spec fn extended(section: SectionModel, entry: EntryModel) -> SectionModel {
    SectionModel { workspace_id: section.workspace_id, windows: section.windows.push(entry) }
}

/// `sections` after `entry` has taken its place: at the end of the section of
/// its workspace, or in a new section before the first one of a higher
/// workspace.
pub open spec fn placed(sections: Seq<SectionModel>, entry: EntryModel) -> Seq<SectionModel>
    decreases sections.len(),
{
    if sections.len() == 0 || entry.workspace_id < sections[0].workspace_id {
        seq![single(entry)] + sections
    } else if sections[0].workspace_id == entry.workspace_id {
        seq![extended(sections[0], entry)] + sections.skip(1)
    } else {
        seq![sections[0]] + placed(sections.skip(1), entry)
    }
}

/// The sections that `entries` fall into, each entry placed in turn.
pub open spec fn grouped(entries: Seq<EntryModel>) -> Seq<SectionModel>
    decreases entries.len(),
{
    if entries.len() == 0 {
        Seq::empty()
    } else {
        placed(grouped(entries.drop_last()), entries.last())
    }
}

/// The entries of `entries` that are on workspace `workspace_id`, in their
/// order.
pub open spec fn windows_on(entries: Seq<EntryModel>, workspace_id: u64) -> Seq<EntryModel>
    decreases entries.len(),
{
    if entries.len() == 0 {
        Seq::empty()
    } else {
        let before = windows_on(entries.drop_last(), workspace_id);
        if entries.last().workspace_id == workspace_id {
            before.push(entries.last())
        } else {
            before
        }
    }
}

/// Whether `sections` stand by strictly ascending workspace.
pub open spec fn ascending(sections: Seq<SectionModel>) -> bool {
    forall|i: int, j: int|
        0 <= i < j < sections.len() ==> (#[trigger] sections[i]).workspace_id < (
        #[trigger] sections[j]).workspace_id
}

/// Whether one of `sections` is the section of workspace `workspace_id`.
pub open spec fn has_section(sections: Seq<SectionModel>, workspace_id: u64) -> bool {
    exists|i: int| 0 <= i < sections.len() && (#[trigger] sections[i]).workspace_id == workspace_id
}

/// Whether `sections` is `entries` grouped by workspace: the sections stand
/// by strictly ascending workspace, each holds exactly the entries of its
/// workspace in their order and at least one, and no entry is left out.
pub open spec fn is_grouping(entries: Seq<EntryModel>, sections: Seq<SectionModel>) -> bool {
    &&& ascending(sections)
    &&& forall|i: int|
        0 <= i < sections.len() ==> (#[trigger] sections[i]).windows.len() > 0
            && sections[i].windows == windows_on(entries, sections[i].workspace_id)
    &&& forall|k: int|
        0 <= k < entries.len() ==> has_section(sections, (#[trigger] entries[k]).workspace_id)
}

/// How many of `sections`, from the first on, are of a workspace below
/// `workspace_id`.
spec fn slot(sections: Seq<SectionModel>, workspace_id: u64) -> int
    decreases sections.len(),
{
    if sections.len() == 0 || workspace_id <= sections[0].workspace_id {
        0
    } else {
        1 + slot(sections.skip(1), workspace_id)
    }
}

/// The slot of a workspace lies behind all sections of a lower workspace and
/// at or before the first one of a workspace that is not lower.
proof fn lemma_slot(sections: Seq<SectionModel>, workspace_id: u64)
    ensures
        0 <= slot(sections, workspace_id) <= sections.len(),
        forall|i: int|
            0 <= i < slot(sections, workspace_id) ==> (#[trigger] sections[i]).workspace_id
                < workspace_id,
        slot(sections, workspace_id) < sections.len() ==> workspace_id <= sections[slot(
            sections,
            workspace_id,
        )].workspace_id,
    decreases sections.len(),
{
    if !(sections.len() == 0 || workspace_id <= sections[0].workspace_id) {
        let rest = sections.skip(1);
        lemma_slot(rest, workspace_id);
        assert forall|i: int| 0 <= i < slot(sections, workspace_id) implies (
        #[trigger] sections[i]).workspace_id < workspace_id by {
            if i > 0 {
                assert(sections[i] == rest[i - 1]);
            }
        }
        if slot(sections, workspace_id) < sections.len() {
            assert(sections[slot(sections, workspace_id)] == rest[slot(rest, workspace_id)]);
        }
    }
}

/// A workspace that no entry is on has no windows.
pub proof fn lemma_windows_on_none(entries: Seq<EntryModel>, workspace_id: u64)
    requires
        forall|k: int|
            0 <= k < entries.len() ==> (#[trigger] entries[k]).workspace_id != workspace_id,
    ensures
        windows_on(entries, workspace_id) == Seq::<EntryModel>::empty(),
    decreases entries.len(),
{
    if entries.len() > 0 {
        let shorter = entries.drop_last();
        assert forall|k: int| 0 <= k < shorter.len() implies (#[trigger] shorter[k]).workspace_id
            != workspace_id by {
            assert(shorter[k] == entries[k]);
        }
        lemma_windows_on_none(shorter, workspace_id);
    }
}

/// Placing one more entry keeps a grouping a grouping.
proof fn lemma_placed_keeps_grouping(
    entries: Seq<EntryModel>,
    sections: Seq<SectionModel>,
    entry: EntryModel,
)
    requires
        is_grouping(entries, sections),
    ensures
        is_grouping(entries.push(entry), placed(sections, entry)),
{
    let more = entries.push(entry);
    let after = placed(sections, entry);
    let at = slot(sections, entry.workspace_id);
    lemma_slot(sections, entry.workspace_id);
    lemma_placed_at(sections, entry, at);
    assert(more.drop_last() =~= entries);
    assert(more.last() == entry);
    if at < sections.len() && sections[at].workspace_id == entry.workspace_id {
        assert(after == sections.update(at, extended(sections[at], entry)));
        assert forall|i: int| 0 <= i < after.len() implies (#[trigger] after[i]).windows.len() > 0
            && after[i].windows == windows_on(more, after[i].workspace_id) by {
            if i != at {
                assert(after[i] == sections[i]);
                if i < at {
                    assert(sections[i].workspace_id < sections[at].workspace_id);
                } else {
                    assert(sections[at].workspace_id < sections[i].workspace_id);
                }
            } else {
                assert(sections[at].windows == windows_on(entries, entry.workspace_id));
            }
        }
        assert forall|k: int| 0 <= k < more.len() implies has_section(
            after,
            (#[trigger] more[k]).workspace_id,
        ) by {
            if k < entries.len() {
                assert(more[k] == entries[k]);
                assert(has_section(sections, entries[k].workspace_id));
                let i = choose|i: int|
                    0 <= i < sections.len() && (#[trigger] sections[i]).workspace_id
                        == entries[k].workspace_id;
                assert(after[i].workspace_id == entries[k].workspace_id);
            } else {
                assert(after[at].workspace_id == entry.workspace_id);
            }
        }
        assert forall|i: int, j: int| 0 <= i < j < after.len() implies (
        #[trigger] after[i]).workspace_id < (#[trigger] after[j]).workspace_id by {
            assert(after[i].workspace_id == sections[i].workspace_id);
            assert(after[j].workspace_id == sections[j].workspace_id);
        }
    } else {
        assert(after == sections.insert(at, single(entry)));
        assert forall|k: int| 0 <= k < entries.len() implies (#[trigger] entries[k]).workspace_id
            != entry.workspace_id by {
            if entries[k].workspace_id == entry.workspace_id {
                assert(has_section(sections, entries[k].workspace_id));
                let i = choose|i: int|
                    0 <= i < sections.len() && (#[trigger] sections[i]).workspace_id
                        == entries[k].workspace_id;
                if i < at {
                    assert(sections[i].workspace_id < entry.workspace_id);
                } else if i > at {
                    assert(sections[at].workspace_id < sections[i].workspace_id);
                }
            }
        }
        lemma_windows_on_none(entries, entry.workspace_id);
        assert forall|i: int| 0 <= i < after.len() implies (#[trigger] after[i]).windows.len() > 0
            && after[i].windows == windows_on(more, after[i].workspace_id) by {
            if i < at {
                assert(after[i] == sections[i]);
                assert(sections[i].workspace_id < entry.workspace_id);
            } else if i > at {
                assert(after[i] == sections[i - 1]);
                if i - 1 > at {
                    assert(sections[at].workspace_id < sections[i - 1].workspace_id);
                }
            } else {
                assert(after[i] == single(entry));
                assert(windows_on(more, entry.workspace_id) =~= seq![entry]);
            }
        }
        assert forall|k: int| 0 <= k < more.len() implies has_section(
            after,
            (#[trigger] more[k]).workspace_id,
        ) by {
            if k < entries.len() {
                assert(more[k] == entries[k]);
                assert(has_section(sections, entries[k].workspace_id));
                let i = choose|i: int|
                    0 <= i < sections.len() && (#[trigger] sections[i]).workspace_id
                        == entries[k].workspace_id;
                if i < at {
                    assert(after[i].workspace_id == entries[k].workspace_id);
                } else {
                    assert(after[i + 1] == sections[i]);
                    assert(after[i + 1].workspace_id == entries[k].workspace_id);
                }
            } else {
                assert(after[at].workspace_id == entry.workspace_id);
            }
        }
        assert forall|i: int, j: int| 0 <= i < j < after.len() implies (
        #[trigger] after[i]).workspace_id < (#[trigger] after[j]).workspace_id by {
            let a = if i < at { i } else { i - 1 };
            let b = if j < at { j } else { j - 1 };
            if i != at {
                assert(after[i] == sections[a]);
            }
            if j != at {
                assert(after[j] == sections[b]);
            }
            if i < at && j > at {
                assert(sections[a].workspace_id < entry.workspace_id);
                if b > at {
                    assert(sections[at].workspace_id < sections[b].workspace_id);
                }
            } else if i == at {
                if b > at {
                    assert(sections[at].workspace_id < sections[b].workspace_id);
                }
            } else if j == at {
                assert(sections[a].workspace_id < entry.workspace_id);
            } else {
                assert(sections[a].workspace_id < sections[b].workspace_id);
            }
        }
    }
}

/// What grouping gives is the grouping by workspace: sections by strictly
/// ascending workspace, in each exactly the windows of its workspace in the
/// order in which they were listed, no section empty, no window left out.
pub proof fn lemma_grouped_is_grouping(entries: Seq<EntryModel>)
    ensures
        is_grouping(entries, grouped(entries)),
    decreases entries.len(),
{
    if entries.len() > 0 {
        lemma_grouped_is_grouping(entries.drop_last());
        lemma_placed_keeps_grouping(entries.drop_last(), grouped(entries.drop_last()), entries.last());
        assert(entries.drop_last().push(entries.last()) =~= entries);
    }
}

/// Two ascending lists of sections that are of the same workspaces are of the
/// same workspaces in the same places.
proof fn lemma_same_workspaces(first: Seq<SectionModel>, second: Seq<SectionModel>)
    requires
        ascending(first),
        ascending(second),
        forall|i: int|
            0 <= i < first.len() ==> has_section(second, (#[trigger] first[i]).workspace_id),
        forall|j: int|
            0 <= j < second.len() ==> has_section(first, (#[trigger] second[j]).workspace_id),
    ensures
        first.len() == second.len(),
        forall|i: int|
            0 <= i < first.len() ==> (#[trigger] first[i]).workspace_id == second[i].workspace_id,
    decreases first.len(),
{
    if first.len() == 0 {
        if second.len() > 0 {
            assert(has_section(first, second[0].workspace_id));
        }
    } else {
        let top = first.last();
        assert(first[first.len() - 1] == top);
        assert(has_section(second, top.workspace_id));
        let at = choose|j: int|
            0 <= j < second.len() && (#[trigger] second[j]).workspace_id == top.workspace_id;
        let other = second.last();
        assert(second[second.len() - 1] == other);
        assert(has_section(first, other.workspace_id));
        let back = choose|i: int|
            0 <= i < first.len() && (#[trigger] first[i]).workspace_id == other.workspace_id;
        assert(top.workspace_id == other.workspace_id) by {
            if at < second.len() - 1 {
                assert(second[at].workspace_id < second[second.len() - 1].workspace_id);
            }
            if back < first.len() - 1 {
                assert(first[back].workspace_id < first[first.len() - 1].workspace_id);
            }
        }
        let head = first.drop_last();
        let rest = second.drop_last();
        assert forall|i: int| 0 <= i < head.len() implies has_section(
            rest,
            (#[trigger] head[i]).workspace_id,
        ) by {
            assert(head[i] == first[i]);
            assert(first[i].workspace_id < first[first.len() - 1].workspace_id);
            assert(has_section(second, first[i].workspace_id));
            let j = choose|j: int|
                0 <= j < second.len() && (#[trigger] second[j]).workspace_id
                    == first[i].workspace_id;
            assert(j < second.len() - 1);
            assert(rest[j] == second[j]);
        }
        assert forall|j: int| 0 <= j < rest.len() implies has_section(
            head,
            (#[trigger] rest[j]).workspace_id,
        ) by {
            assert(rest[j] == second[j]);
            assert(second[j].workspace_id < second[second.len() - 1].workspace_id);
            assert(has_section(first, second[j].workspace_id));
            let i = choose|i: int|
                0 <= i < first.len() && (#[trigger] first[i]).workspace_id
                    == second[j].workspace_id;
            assert(i < first.len() - 1);
            assert(head[i] == first[i]);
        }
        assert(ascending(head)) by {
            assert forall|i: int, j: int| 0 <= i < j < head.len() implies (
            #[trigger] head[i]).workspace_id < (#[trigger] head[j]).workspace_id by {
                assert(head[i] == first[i] && head[j] == first[j]);
            }
        }
        assert(ascending(rest)) by {
            assert forall|i: int, j: int| 0 <= i < j < rest.len() implies (
            #[trigger] rest[i]).workspace_id < (#[trigger] rest[j]).workspace_id by {
                assert(rest[i] == second[i] && rest[j] == second[j]);
            }
        }
        lemma_same_workspaces(head, rest);
        assert forall|i: int| 0 <= i < first.len() implies (#[trigger] first[i]).workspace_id
            == second[i].workspace_id by {
            if i < head.len() {
                assert(head[i] == first[i]);
                assert(rest[i] == second[i]);
            }
        }
    }
}

/// A section that is not empty holds an entry of its workspace.
proof fn lemma_windows_on_some(entries: Seq<EntryModel>, workspace_id: u64)
    requires
        windows_on(entries, workspace_id).len() > 0,
    ensures
        exists|k: int| 0 <= k < entries.len() && (#[trigger] entries[k]).workspace_id == workspace_id,
{
    if !exists|k: int| 0 <= k < entries.len() && (#[trigger] entries[k]).workspace_id == workspace_id {
        lemma_windows_on_none(entries, workspace_id);
    }
}

/// The entries decide their grouping: there is one way only to group them by
/// workspace.
pub proof fn lemma_grouping_unique(
    entries: Seq<EntryModel>,
    first: Seq<SectionModel>,
    second: Seq<SectionModel>,
)
    requires
        is_grouping(entries, first),
        is_grouping(entries, second),
    ensures
        first == second,
{
    assert forall|i: int| 0 <= i < first.len() implies has_section(
        second,
        (#[trigger] first[i]).workspace_id,
    ) by {
        lemma_windows_on_some(entries, first[i].workspace_id);
        let k = choose|k: int|
            0 <= k < entries.len() && (#[trigger] entries[k]).workspace_id
                == first[i].workspace_id;
        assert(has_section(second, entries[k].workspace_id));
    }
    assert forall|j: int| 0 <= j < second.len() implies has_section(
        first,
        (#[trigger] second[j]).workspace_id,
    ) by {
        lemma_windows_on_some(entries, second[j].workspace_id);
        let k = choose|k: int|
            0 <= k < entries.len() && (#[trigger] entries[k]).workspace_id
                == second[j].workspace_id;
        assert(has_section(first, entries[k].workspace_id));
    }
    lemma_same_workspaces(first, second);
    assert forall|i: int| 0 <= i < first.len() implies first[i] == second[i] by {
        assert(first[i].workspace_id == second[i].workspace_id);
        assert(first[i].windows == windows_on(entries, first[i].workspace_id));
        assert(second[i].windows == windows_on(entries, second[i].workspace_id));
    }
    assert(first =~= second);
}

/// Where `placed` puts an entry, given the index `at` of the first section
/// whose workspace is not below the entry's.
proof fn lemma_placed_at(sections: Seq<SectionModel>, entry: EntryModel, at: int)
    requires
        0 <= at <= sections.len(),
        forall|i: int| 0 <= i < at ==> (#[trigger] sections[i]).workspace_id < entry.workspace_id,
        at < sections.len() ==> entry.workspace_id <= sections[at].workspace_id,
    ensures
        at < sections.len() && sections[at].workspace_id == entry.workspace_id ==> placed(
            sections,
            entry,
        ) == sections.update(at, extended(sections[at], entry)),
        !(at < sections.len() && sections[at].workspace_id == entry.workspace_id) ==> placed(
            sections,
            entry,
        ) == sections.insert(at, single(entry)),
    decreases at,
{
    if at == 0 {
        if at < sections.len() && sections[at].workspace_id == entry.workspace_id {
            assert(seq![extended(sections[0], entry)] + sections.skip(1) =~= sections.update(
                0,
                extended(sections[0], entry),
            ));
        } else {
            assert(seq![single(entry)] + sections =~= sections.insert(0, single(entry)));
        }
    } else {
        let rest = sections.skip(1);
        assert(sections[0].workspace_id < entry.workspace_id);
        assert forall|i: int| 0 <= i < at - 1 implies (#[trigger] rest[i]).workspace_id
            < entry.workspace_id by {
            assert(rest[i] == sections[i + 1]);
        }
        lemma_placed_at(rest, entry, at - 1);
        if at < sections.len() && sections[at].workspace_id == entry.workspace_id {
            assert(seq![sections[0]] + rest.update(at - 1, extended(rest[at - 1], entry))
                =~= sections.update(at, extended(sections[at], entry)));
        } else {
            assert(seq![sections[0]] + rest.insert(at - 1, single(entry)) =~= sections.insert(
                at,
                single(entry),
            ));
        }
    }
}

} // verus!
