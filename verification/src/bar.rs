//! What a bar keeps of the compositor's state: the workspaces, the one that
//! is shown, the windows, and the title of the one that is active.

use std::collections::BTreeMap;

use vstd::prelude::*;

use crate::commands::{Client, Workspace};
use crate::dispatch::{Dispatcher, WorkspaceSpec};
use crate::events::HyprlandEvent;
use crate::{WindowAddress, WorkspaceId};

verus! {

/// What a bar has to show.
pub struct Bar {
    /// The workspaces, by the number of their id.
    pub workspaces: BTreeMap<i32, Workspace>,
    /// The workspace that is shown, once it is known.
    pub active_workspace: Option<WorkspaceId>,
    /// The title of the active window, if one is active and known.
    pub active_window_title: Option<String>,
    /// The windows, as the compositor last listed them.
    pub clients: Vec<Client>,
}

/// What a bar is told.
#[derive(Clone, Debug)]
pub enum Message {
    /// The user chose a workspace.
    SwitchWorkspace(WorkspaceId),
    /// The compositor announced an event.
    HyprlandEvent(HyprlandEvent),
    /// The compositor listed its workspaces.
    UpdateWorkspaces(Vec<Workspace>),
    /// The compositor listed its windows.
    UpdateClients(Vec<Client>),
}

/// What is to be asked of the compositor after a message.
pub enum Request {
    /// Nothing.
    Nothing,
    /// An action.
    Dispatch(Dispatcher),
    /// The list of workspaces.
    Workspaces,
    /// The list of windows.
    Clients,
}

/// What is to be asked of the compositor after `message`: the switch that
/// the user chose, the workspaces when one was created, destroyed, moved or
/// renamed, the windows when one was opened, closed, moved or retitled.
pub open spec fn request_after(message: Message) -> Request {
    match message {
        Message::SwitchWorkspace(id) => Request::Dispatch(
            Dispatcher::ChangeWorkspace(WorkspaceSpec::Id(id)),
        ),
        Message::HyprlandEvent(HyprlandEvent::CreateWorkspace { .. })
        | Message::HyprlandEvent(HyprlandEvent::DestroyWorkspace { .. })
        | Message::HyprlandEvent(HyprlandEvent::MoveWorkspace { .. })
        | Message::HyprlandEvent(HyprlandEvent::RenameWorkspace { .. }) => Request::Workspaces,
        Message::HyprlandEvent(HyprlandEvent::MoveWindow { .. })
        | Message::HyprlandEvent(HyprlandEvent::OpenWindow { .. })
        | Message::HyprlandEvent(HyprlandEvent::CloseWindow { .. })
        | Message::HyprlandEvent(HyprlandEvent::WindowTitle { .. }) => Request::Clients,
        _ => Request::Nothing,
    }
}

/// The workspaces of a list by the number of their id. Of two with the same
/// id the later one stays.
pub open spec fn by_id(list: Seq<Workspace>) -> Map<i32, Workspace>
    decreases list.len(),
{
    if list.len() == 0 {
        Map::empty()
    } else {
        by_id(list.drop_last()).insert(list.last().id.0, list.last())
    }
}

/// The title of the first window at `address`.
pub open spec fn title_at(clients: Seq<Client>, address: WindowAddress) -> Option<Seq<char>>
    decreases clients.len(),
{
    if clients.len() == 0 {
        None
    } else if clients[0].address == address {
        Some(clients[0].title@)
    } else {
        title_at(clients.skip(1), address)
    }
}

/// A title as a sequence of characters.
pub open spec fn title_view(title: Option<String>) -> Option<Seq<char>> {
    match title {
        Some(title) => Some(title@),
        None => None,
    }
}

/// The workspaces that a bar keeps after `message`.
pub open spec fn workspaces_after(workspaces: Map<i32, Workspace>, message: Message) -> Map<
    i32,
    Workspace,
> {
    match message {
        Message::UpdateWorkspaces(list) => by_id(list@),
        _ => workspaces,
    }
}

/// The workspace that a bar holds to be shown after `message`.
pub open spec fn active_workspace_after(active: Option<WorkspaceId>, message: Message) -> Option<
    WorkspaceId,
> {
    match message {
        Message::HyprlandEvent(HyprlandEvent::WorkspaceChanged { id, .. }) => Some(id),
        _ => active,
    }
}

/// The title that a bar shows after `message`: that of the window that
/// became active, looked up among the windows that the bar knows.
pub open spec fn title_after(
    title: Option<Seq<char>>,
    clients: Seq<Client>,
    message: Message,
) -> Option<Seq<char>> {
    match message {
        Message::HyprlandEvent(HyprlandEvent::ActiveWindow { address: Some(address) }) => title_at(
            clients,
            address,
        ),
        Message::HyprlandEvent(HyprlandEvent::ActiveWindow { address: None }) => None,
        _ => title,
    }
}

/// The windows that a bar keeps after `message`.
pub open spec fn clients_after(clients: Seq<Client>, message: Message) -> Seq<Client> {
    match message {
        Message::UpdateClients(list) => list@,
        _ => clients,
    }
}

/// What `title_at` finds is the title of the first window at the address.
pub proof fn lemma_title_at(clients: Seq<Client>, address: WindowAddress, i: int)
    requires
        0 <= i <= clients.len(),
        forall|k: int| 0 <= k < i ==> (#[trigger] clients[k]).address != address,
        i < clients.len() ==> clients[i].address == address,
    ensures
        title_at(clients, address) == if i < clients.len() {
            Some(clients[i].title@)
        } else {
            None
        },
    decreases clients.len(),
{
    if i > 0 {
        let rest = clients.skip(1);
        lemma_title_at(rest, address, i - 1);
    }
}

/// Looks up the title of the first window at `address`.
fn find_title(clients: &Vec<Client>, address: WindowAddress) -> (title: Option<String>)
    ensures
        title_view(title) == title_at(clients@, address),
{
    let mut i: usize = 0;
    while i < clients.len()
        invariant
            i <= clients.len(),
            forall|k: int| 0 <= k < i ==> (#[trigger] clients@[k]).address != address,
        decreases clients.len() - i,
    {
        if clients[i].address.0 == address.0 {
            proof {
                lemma_title_at(clients@, address, i as int);
            }
            return Some(clients[i].title.clone());
        }
        i = i + 1;
    }
    proof {
        lemma_title_at(clients@, address, i as int);
    }
    None
}

/// Puts the workspaces of a list under the numbers of their ids.
fn index(list: Vec<Workspace>) -> (workspaces: BTreeMap<i32, Workspace>)
    ensures
        workspaces@ == by_id(list@),
{
    let ghost all = list@;
    let mut workspaces: BTreeMap<i32, Workspace> = BTreeMap::new();
    for workspace in it: list.into_iter()
        invariant
            it.seq() == all,
            workspaces@ == by_id(all.take(it.index())),
    {
        let ghost seen = all.take(it.index() + 1);
        assert(seen.drop_last() =~= all.take(it.index()));
        workspaces.insert(workspace.id.0, workspace);
    }
    assert(all.take(all.len() as int) =~= all);
    workspaces
}

impl Bar {
    /// A bar that knows nothing yet.
    pub fn new() -> (bar: Bar)
        ensures
            bar.workspaces@ == Map::<i32, Workspace>::empty(),
            bar.active_workspace is None,
            bar.active_window_title is None,
            bar.clients@ == Seq::<Client>::empty(),
    {
        Bar {
            workspaces: BTreeMap::new(),
            active_workspace: None,
            active_window_title: None,
            clients: Vec::new(),
        }
    }

    /// Takes a message in, and says what is to be asked of the compositor.
    pub fn update(&mut self, message: Message) -> (request: Request)
        ensures
            request == request_after(message),
            final(self).workspaces@ == workspaces_after(old(self).workspaces@, message),
            final(self).active_workspace == active_workspace_after(
                old(self).active_workspace,
                message,
            ),
            title_view(final(self).active_window_title) == title_after(
                title_view(old(self).active_window_title),
                old(self).clients@,
                message,
            ),
            final(self).clients@ == clients_after(old(self).clients@, message),
    {
        match message {
            Message::SwitchWorkspace(id) => Request::Dispatch(
                Dispatcher::ChangeWorkspace(WorkspaceSpec::Id(id)),
            ),
            Message::HyprlandEvent(HyprlandEvent::WorkspaceChanged { id, .. }) => {
                self.active_workspace = Some(id);
                Request::Nothing
            },
            Message::HyprlandEvent(HyprlandEvent::CreateWorkspace { .. })
            | Message::HyprlandEvent(HyprlandEvent::DestroyWorkspace { .. })
            | Message::HyprlandEvent(HyprlandEvent::MoveWorkspace { .. })
            | Message::HyprlandEvent(HyprlandEvent::RenameWorkspace { .. }) => Request::Workspaces,
            Message::HyprlandEvent(HyprlandEvent::MoveWindow { .. })
            | Message::HyprlandEvent(HyprlandEvent::OpenWindow { .. })
            | Message::HyprlandEvent(HyprlandEvent::CloseWindow { .. })
            | Message::HyprlandEvent(HyprlandEvent::WindowTitle { .. }) => Request::Clients,
            Message::HyprlandEvent(HyprlandEvent::ActiveWindow { address: Some(address) }) => {
                self.active_window_title = find_title(&self.clients, address);
                Request::Nothing
            },
            Message::HyprlandEvent(HyprlandEvent::ActiveWindow { address: None }) => {
                self.active_window_title = None;
                Request::Nothing
            },
            Message::HyprlandEvent(_) => Request::Nothing,
            Message::UpdateWorkspaces(list) => {
                self.workspaces = index(list);
                Request::Nothing
            },
            Message::UpdateClients(list) => {
                self.clients = list;
                Request::Nothing
            },
        }
    }
}

} // verus!
