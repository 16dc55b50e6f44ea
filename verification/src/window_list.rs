//! The window manager's window list, grouped into workspace sections.

use crate::grouping::{
    grouped, has_section, is_grouping, lemma_grouped_is_grouping, lemma_grouping_unique,
    lemma_windows_on_none, windows_on, EntryModel, SectionModel,
};
use crate::ordered::keys_in_order;
use crate::sources::Request;
use crate::text::{decimal_text, render_decimal};
use std::collections::BTreeMap;
use vstd::prelude::*;

verus! {

/// One window as the window manager lists it.
#[derive(Debug, Clone)]
pub struct Window {
    pub id: u64,
    pub app_id: Option<String>,
    pub workspace_id: Option<u64>,
}

/// One window as the bar shows it: every field has a value.
#[derive(Debug, Clone)]
pub struct WindowEntry {
    pub window_id: u64,
    pub app_id: String,
    pub workspace_id: u64,
}

impl View for WindowEntry {
    type V = EntryModel;

    open spec fn view(&self) -> EntryModel {
        EntryModel {
            window_id: self.window_id,
            app_id: self.app_id@,
            workspace_id: self.workspace_id,
        }
    }
}

impl WindowEntry {
    /// A second entry for the same window.
    pub fn duplicate(&self) -> (entry: WindowEntry)
        ensures
            entry@ == self@,
    {
        WindowEntry {
            window_id: self.window_id,
            app_id: self.app_id.clone(),
            workspace_id: self.workspace_id,
        }
    }
}

/// The windows of one workspace, in the order in which they were listed.
#[derive(Debug, Clone)]
pub struct WorkspaceSection {
    pub workspace_id: u64,
    pub windows: Vec<WindowEntry>,
}

/// What a list of entries stands for.
pub open spec fn entries_view(entries: Seq<WindowEntry>) -> Seq<EntryModel> {
    Seq::new(entries.len(), |i: int| entries[i]@)
}

impl View for WorkspaceSection {
    type V = SectionModel;

    open spec fn view(&self) -> SectionModel {
        SectionModel { workspace_id: self.workspace_id, windows: entries_view(self.windows@) }
    }
}

/// What a list of sections stands for.
pub open spec fn sections_view(sections: Seq<WorkspaceSection>) -> Seq<SectionModel> {
    Seq::new(sections.len(), |i: int| sections[i]@)
}

/// How a question to the window manager ended.
#[derive(Debug, Clone)]
pub enum WindowQuery {
    /// The socket could not be reached, or the exchange broke off.
    Unreachable,
    /// The window manager answered with something other than a window list.
    Unexpected,
    /// The window list.
    Windows(Vec<Window>),
}

/// Why no window list was had.
#[derive(Debug, Clone, Copy, PartialEq, Eq, Structural)]
pub enum IpcError {
    SourceUnavailable,
    ProtocolMismatch,
}

/// The icon hint of a window that names no application.
pub open spec fn fallback_icon() -> Seq<char> {
    "dialog-question-symbolic"@
}

/// The entry for a listed window: a window on no workspace counts as being on
/// workspace 0, one without an application gets the fallback icon.
pub open spec fn normalized(window: Window) -> EntryModel {
    EntryModel {
        window_id: window.id,
        app_id: match window.app_id {
            Some(app_id) => app_id@,
            None => fallback_icon(),
        },
        workspace_id: match window.workspace_id {
            Some(workspace_id) => workspace_id,
            None => 0,
        },
    }
}

/// The entries that a question to the window manager gives, or why it gives
/// none.
pub open spec fn listed(query: WindowQuery) -> Result<Seq<EntryModel>, IpcError> {
    match query {
        WindowQuery::Unreachable => Err(IpcError::SourceUnavailable),
        WindowQuery::Unexpected => Err(IpcError::ProtocolMismatch),
        WindowQuery::Windows(windows) => Ok(
            Seq::new(windows@.len(), |i: int| normalized(windows@[i])),
        ),
    }
}

/// Fills in what a listed window leaves open.
pub fn normalize(window: &Window) -> (entry: WindowEntry)
    ensures
        entry@ == normalized(*window),
{
    let app_id = match &window.app_id {
        Some(app_id) => app_id.clone(),
        None => String::from_str("dialog-question-symbolic"),
    };
    let workspace_id = match window.workspace_id {
        Some(workspace_id) => workspace_id,
        None => 0,
    };
    WindowEntry { window_id: window.id, app_id, workspace_id }
}

/// The entries of the windows that the window manager listed; an error where
/// it listed none.
pub fn list_windows(query: &WindowQuery) -> (entries: Result<Vec<WindowEntry>, IpcError>)
    ensures
        match entries {
            Ok(found) => listed(*query) == Ok::<Seq<EntryModel>, IpcError>(entries_view(found@)),
            Err(error) => listed(*query) == Err::<Seq<EntryModel>, IpcError>(error),
        },
{
    match query {
        WindowQuery::Unreachable => Err(IpcError::SourceUnavailable),
        WindowQuery::Unexpected => Err(IpcError::ProtocolMismatch),
        WindowQuery::Windows(windows) => {
            let mut found: Vec<WindowEntry> = Vec::new();
            let mut i: usize = 0;
            while i < windows.len()
                invariant
                    i <= windows.len(),
                    found@.len() == i,
                    forall|k: int| 0 <= k < i ==> (#[trigger] found@[k])@ == normalized(windows@[k]),
                decreases windows.len() - i,
            {
                found.push(normalize(&windows[i]));
                i += 1;
            }
            assert(entries_view(found@) =~= Seq::new(
                windows@.len(),
                |i: int| normalized(windows@[i]),
            ));
            Ok(found)
        },
    }
}

/// Whether `workspaces` holds `entries` by workspace: under each key the
/// entries of that workspace in their order and at least one, and a key for
/// the workspace of every entry.
pub open spec fn holds_by_workspace(
    entries: Seq<EntryModel>,
    workspaces: Map<u64, Vec<WindowEntry>>,
) -> bool {
    &&& forall|key: u64| #[trigger]
        workspaces.contains_key(key) ==> workspaces[key]@.len() > 0 && entries_view(
            workspaces[key]@,
        ) == windows_on(entries, key)
    &&& forall|k: int|
        0 <= k < entries.len() ==> workspaces.contains_key((#[trigger] entries[k]).workspace_id)
}

/// Puts `entry` at the end of the windows that `workspaces` holds for its
/// workspace.
fn file(workspaces: &mut BTreeMap<u64, Vec<WindowEntry>>, entry: WindowEntry, Ghost(entries): Ghost<
    Seq<EntryModel>,
>)
    requires
        holds_by_workspace(entries, old(workspaces)@),
    ensures
        holds_by_workspace(entries.push(entry@), final(workspaces)@),
{
    let ghost before = workspaces@;
    let ghost filed = entry@;
    let workspace_id = entry.workspace_id;
    let mut windows = match workspaces.remove(&workspace_id) {
        Some(windows) => windows,
        None => Vec::new(),
    };
    let ghost held = windows@;
    windows.push(entry);
    proof {
        let more = entries.push(filed);
        assert(more.drop_last() =~= entries);
        assert(more.last() == filed);
        if !before.contains_key(workspace_id) {
            assert forall|k: int| 0 <= k < entries.len() implies (
            #[trigger] entries[k]).workspace_id != workspace_id by {}
            lemma_windows_on_none(entries, workspace_id);
        }
        assert(entries_view(windows@) =~= entries_view(held).push(filed));
        assert(entries_view(windows@) == windows_on(more, workspace_id));
        assert forall|key: u64| key != workspace_id implies windows_on(more, key) == windows_on(
            entries,
            key,
        ) by {}
    }
    workspaces.insert(workspace_id, windows);
    proof {
        let more = entries.push(filed);
        assert forall|k: int| 0 <= k < more.len() implies workspaces@.contains_key(
            (#[trigger] more[k]).workspace_id,
        ) by {
            if k < entries.len() {
                assert(more[k] == entries[k]);
            }
        }
    }
}

/// Groups `entries` by workspace: one section for each workspace that holds a
/// window, the sections by ascending workspace, the windows of each in the
/// order in which `entries` lists them.
pub fn group_windows(entries: &Vec<WindowEntry>) -> (sections: Vec<WorkspaceSection>)
    ensures
        sections_view(sections@) == grouped(entries_view(entries@)),
        is_grouping(entries_view(entries@), sections_view(sections@)),
{
    let ghost all = entries_view(entries@);
    let mut workspaces: BTreeMap<u64, Vec<WindowEntry>> = BTreeMap::new();
    let mut i: usize = 0;
    assert(all.take(0) =~= Seq::<EntryModel>::empty());
    while i < entries.len()
        invariant
            i <= entries.len(),
            all == entries_view(entries@),
            holds_by_workspace(all.take(i as int), workspaces@),
        decreases entries.len() - i,
    {
        let entry = entries[i].duplicate();
        assert(all.take(i as int).push(entry@) =~= all.take(i + 1));
        file(&mut workspaces, entry, Ghost(all.take(i as int)));
        i += 1;
    }
    assert(all.take(i as int) =~= all);

    let keys = keys_in_order(&workspaces);
    let ghost filled = workspaces@;
    let mut sections: Vec<WorkspaceSection> = Vec::new();
    let mut at: usize = 0;
    while at < keys.len()
        invariant
            at <= keys.len(),
            sections@.len() == at,
            forall|a: int, b: int| 0 <= a < b < keys@.len() ==> keys@[a] < keys@[b],
            forall|j: int|
                at <= j < keys@.len() ==> workspaces@.contains_key(#[trigger] keys@[j])
                    && workspaces@[keys@[j]] == filled[keys@[j]],
            forall|j: int|
                0 <= j < at ==> (#[trigger] sections@[j]).workspace_id == keys@[j]
                    && sections@[j].windows == filled[keys@[j]],
        decreases keys.len() - at,
    {
        let workspace_id = keys[at];
        let ghost before = workspaces@;
        assert(before.contains_key(keys@[at as int]));
        match workspaces.remove(&workspace_id) {
            Some(windows) => {
                sections.push(WorkspaceSection { workspace_id, windows });
            },
            None => {},
        }
        assert forall|j: int| at < j < keys@.len() implies workspaces@.contains_key(
            #[trigger] keys@[j],
        ) && workspaces@[keys@[j]] == filled[keys@[j]] by {
            assert(keys@[at as int] < keys@[j]);
            assert(before.contains_key(keys@[j]));
        }
        at += 1;
    }
    proof {
        let shown = sections_view(sections@);
        assert forall|a: int, b: int| 0 <= a < b < shown.len() implies (
        #[trigger] shown[a]).workspace_id < (#[trigger] shown[b]).workspace_id by {
            assert(sections@[a].workspace_id == keys@[a]);
            assert(sections@[b].workspace_id == keys@[b]);
        }
        assert forall|j: int| 0 <= j < shown.len() implies (#[trigger] shown[j]).windows.len() > 0
            && shown[j].windows == windows_on(all, shown[j].workspace_id) by {
            assert(sections@[j].workspace_id == keys@[j]);
            assert(filled.contains_key(keys@[j]));
        }
        assert forall|k: int| 0 <= k < all.len() implies has_section(
            shown,
            (#[trigger] all[k]).workspace_id,
        ) by {
            assert(filled.contains_key(all[k].workspace_id));
            assert(keys@.contains(all[k].workspace_id));
            let j = choose|j: int| 0 <= j < keys@.len() && keys@[j] == all[k].workspace_id;
            assert(sections@[j].workspace_id == keys@[j]);
            assert(shown[j].workspace_id == all[k].workspace_id);
        }
        assert(is_grouping(all, shown));
        lemma_grouped_is_grouping(all);
        lemma_grouping_unique(all, shown, grouped(all));
    }
    sections
}

/// Rebuilds the workspace sections from a fresh answer of the window manager:
/// all that was shown goes, and the sections of the listed windows take its
/// place. Where the question failed, the sections stay as they were and the
/// error is handed back.
pub fn update_window_list(sections: &mut Vec<WorkspaceSection>, query: &WindowQuery) -> (outcome:
    Result<(), IpcError>)
    ensures
        match listed(*query) {
            Ok(entries) => outcome is Ok && sections_view(final(sections)@) == grouped(entries)
                && is_grouping(entries, sections_view(final(sections)@)),
            Err(error) => outcome == Err::<(), IpcError>(error) && *final(sections) == *old(
                sections,
            ),
        },
{
    match list_windows(query) {
        Ok(entries) => {
            *sections = group_windows(&entries);
            Ok(())
        },
        Err(error) => Err(error),
    }
}

/// What the bar draws for one window: an icon, and what a press on it asks
/// for.
#[derive(Debug, Clone)]
pub struct WindowButton {
    pub icon_name: String,
    pub on_click: Request,
}

/// What the bar draws for one workspace: its number, and a button for each of
/// its windows.
#[derive(Debug, Clone)]
pub struct SectionBox {
    pub label: String,
    pub buttons: Vec<WindowButton>,
}

/// The button of a window: it shows the application's icon, and a press on it
/// asks the window manager to focus that window.
pub fn create_window_button(app_id: &str, window_id: u64) -> (button: WindowButton)
    ensures
        button.icon_name@ == app_id@,
        button.on_click == Request::FocusWindow(window_id),
{
    WindowButton { icon_name: String::from_str(app_id), on_click: Request::FocusWindow(window_id) }
}

/// The box of a workspace: labelled with the workspace's number in decimal,
/// with the buttons of `windows` in their order.
pub fn create_workspace_section(workspace_id: u64, windows: &Vec<WindowEntry>) -> (section:
    SectionBox)
    ensures
        section.label@ == decimal_text(workspace_id as nat),
        section.buttons@.len() == windows@.len(),
        forall|i: int|
            0 <= i < windows@.len() ==> (#[trigger] section.buttons@[i]).icon_name@
                == windows@[i].app_id@ && section.buttons@[i].on_click == Request::FocusWindow(
                windows@[i].window_id,
            ),
{
    let mut buttons: Vec<WindowButton> = Vec::new();
    let mut i: usize = 0;
    while i < windows.len()
        invariant
            i <= windows.len(),
            buttons@.len() == i,
            forall|k: int|
                0 <= k < i ==> (#[trigger] buttons@[k]).icon_name@ == windows@[k].app_id@
                    && buttons@[k].on_click == Request::FocusWindow(windows@[k].window_id),
        decreases windows.len() - i,
    {
        buttons.push(create_window_button(windows[i].app_id.as_str(), windows[i].window_id));
        i += 1;
    }
    SectionBox { label: render_decimal(workspace_id), buttons }
}

} // verus!
