//! The command channel: what is asked of the compositor, and what its
//! replies hold.

use vstd::prelude::*;
use vstd::string::StringExecFns;

use crate::dispatch::Dispatcher;
use crate::error::{DecodeError, DecodeErrorView, Error, ErrorView};
use crate::json::{lemma_array_view, lemma_object_view, parse, parsed, Json, JsonView};
use crate::text::prefixed_hex_u64;
use crate::{deserialize, WindowAddress, WorkspaceId};

verus! {

/// A workspace, as the compositor describes it.
#[derive(Clone, Debug, PartialEq, Eq)]
pub struct Workspace {
    pub id: WorkspaceId,
    pub name: String,
    pub monitor: String,
    pub monitor_id: i32,
    pub windows: i32,
    pub has_fullscreen: bool,
    pub last_window: WindowAddress,
    pub last_window_title: String,
}

/// A window, as the compositor describes it.
#[derive(Clone, Debug, PartialEq, Eq)]
pub struct Client {
    pub address: WindowAddress,
    pub title: String,
    pub monitor: i32,
    pub workspace: ClientWorkspace,
}

/// The workspace that a window is on.
#[derive(Clone, Debug, PartialEq, Eq)]
pub struct ClientWorkspace {
    pub id: WorkspaceId,
    pub name: String,
}

/// A workspace as a value of mathematics.
pub struct WorkspaceView {
    pub id: WorkspaceId,
    pub name: Seq<char>,
    pub monitor: Seq<char>,
    pub monitor_id: i32,
    pub windows: i32,
    pub has_fullscreen: bool,
    pub last_window: WindowAddress,
    pub last_window_title: Seq<char>,
}

/// A window as a value of mathematics.
pub struct ClientView {
    pub address: WindowAddress,
    pub title: Seq<char>,
    pub monitor: i32,
    pub workspace: ClientWorkspaceView,
}

/// A window's workspace as a value of mathematics.
pub struct ClientWorkspaceView {
    pub id: WorkspaceId,
    pub name: Seq<char>,
}

impl View for Workspace {
    type V = WorkspaceView;

    open spec fn view(&self) -> WorkspaceView {
        WorkspaceView {
            id: self.id,
            name: self.name@,
            monitor: self.monitor@,
            monitor_id: self.monitor_id,
            windows: self.windows,
            has_fullscreen: self.has_fullscreen,
            last_window: self.last_window,
            last_window_title: self.last_window_title@,
        }
    }
}

impl View for ClientWorkspace {
    type V = ClientWorkspaceView;

    open spec fn view(&self) -> ClientWorkspaceView {
        ClientWorkspaceView { id: self.id, name: self.name@ }
    }
}

impl View for Client {
    type V = ClientView;

    open spec fn view(&self) -> ClientView {
        ClientView {
            address: self.address,
            title: self.title@,
            monitor: self.monitor,
            workspace: self.workspace@,
        }
    }
}

/// The member of the name `key`: the first, should there be several.
pub open spec fn member(members: Seq<(Seq<char>, JsonView)>, key: Seq<char>) -> Option<JsonView>
    decreases members.len(),
{
    if members.len() == 0 {
        None
    } else if members[0].0 == key {
        Some(members[0].1)
    } else {
        member(members.skip(1), key)
    }
}

/// The field `key` of a record. A record is an object, and it has each of
/// its fields.
pub open spec fn field(record: JsonView, key: Seq<char>) -> Result<JsonView, DecodeError> {
    match record {
        JsonView::Object(members) => match member(members, key) {
            Some(value) => Ok(value),
            None => Err(DecodeError::MissingField),
        },
        _ => Err(DecodeError::InvalidType),
    }
}

/// A value as a whole number of 32 bits, signed.
pub open spec fn as_i32(value: JsonView) -> Result<i32, DecodeError> {
    match value {
        JsonView::Number(Some(n)) => if i32::MIN <= n <= i32::MAX {
            Ok(n as i32)
        } else {
            Err(DecodeError::InvalidInteger)
        },
        JsonView::Number(None) => Err(DecodeError::InvalidInteger),
        _ => Err(DecodeError::InvalidType),
    }
}

/// A value as a string.
pub open spec fn as_text(value: JsonView) -> Result<Seq<char>, DecodeError> {
    match value {
        JsonView::Text(text) => Ok(text),
        _ => Err(DecodeError::InvalidType),
    }
}

/// A value as `true` or `false`.
pub open spec fn as_flag(value: JsonView) -> Result<bool, DecodeError> {
    match value {
        JsonView::Bool(flag) => Ok(flag),
        _ => Err(DecodeError::InvalidType),
    }
}

/// An address as a reply writes it: hexadecimal, with or without `0x` in
/// front.
pub open spec fn address_of(text: Seq<char>) -> Result<WindowAddress, DecodeError> {
    match prefixed_hex_u64(text) {
        Some(address) => Ok(WindowAddress(address as u64)),
        None => Err(DecodeError::InvalidInteger),
    }
}

/// A value as a window address: a string that holds one.
pub open spec fn as_address(value: JsonView) -> Result<WindowAddress, DecodeError> {
    match value {
        JsonView::Text(text) => address_of(text),
        _ => Err(DecodeError::InvalidType),
    }
}

/// The field `key` of a record, as a whole number.
pub open spec fn i32_field(record: JsonView, key: Seq<char>) -> Result<i32, DecodeError> {
    match field(record, key) {
        Ok(value) => as_i32(value),
        Err(e) => Err(e),
    }
}

/// The field `key` of a record, as a string.
pub open spec fn text_field(record: JsonView, key: Seq<char>) -> Result<Seq<char>, DecodeError> {
    match field(record, key) {
        Ok(value) => as_text(value),
        Err(e) => Err(e),
    }
}

/// The field `key` of a record, as `true` or `false`.
pub open spec fn flag_field(record: JsonView, key: Seq<char>) -> Result<bool, DecodeError> {
    match field(record, key) {
        Ok(value) => as_flag(value),
        Err(e) => Err(e),
    }
}

/// The field `key` of a record, as a window address.
pub open spec fn address_field(record: JsonView, key: Seq<char>) -> Result<
    WindowAddress,
    DecodeError,
> {
    match field(record, key) {
        Ok(value) => as_address(value),
        Err(e) => Err(e),
    }
}

/// The workspace that a record describes. Its fields are read in the order
/// in which they stand here, and the first that cannot be read decides the
/// failure. Fields of other names are passed over.
pub open spec fn workspace_of(record: JsonView) -> Result<WorkspaceView, DecodeError> {
    match (
        i32_field(record, "id"@),
        text_field(record, "name"@),
        text_field(record, "monitor"@),
        i32_field(record, "monitorID"@),
        i32_field(record, "windows"@),
        flag_field(record, "hasfullscreen"@),
        address_field(record, "lastwindow"@),
        text_field(record, "lastwindowtitle"@),
    ) {
        (
            Ok(id),
            Ok(name),
            Ok(monitor),
            Ok(monitor_id),
            Ok(windows),
            Ok(has_fullscreen),
            Ok(last_window),
            Ok(last_window_title),
        ) => Ok(
            WorkspaceView {
                id: WorkspaceId(id),
                name,
                monitor,
                monitor_id,
                windows,
                has_fullscreen,
                last_window,
                last_window_title,
            },
        ),
        (Err(e), _, _, _, _, _, _, _)
        | (_, Err(e), _, _, _, _, _, _)
        | (_, _, Err(e), _, _, _, _, _)
        | (_, _, _, Err(e), _, _, _, _)
        | (_, _, _, _, Err(e), _, _, _)
        | (_, _, _, _, _, Err(e), _, _)
        | (_, _, _, _, _, _, Err(e), _)
        | (_, _, _, _, _, _, _, Err(e)) => Err(e),
    }
}

/// The workspace of a window, as the record of the window describes it.
pub open spec fn client_workspace_of(record: JsonView) -> Result<ClientWorkspaceView, DecodeError> {
    match (i32_field(record, "id"@), text_field(record, "name"@)) {
        (Ok(id), Ok(name)) => Ok(ClientWorkspaceView { id: WorkspaceId(id), name }),
        (Err(e), _) | (_, Err(e)) => Err(e),
    }
}

/// The field `workspace` of a window's record.
pub open spec fn client_workspace_field(record: JsonView) -> Result<
    ClientWorkspaceView,
    DecodeError,
> {
    match field(record, "workspace"@) {
        Ok(value) => client_workspace_of(value),
        Err(e) => Err(e),
    }
}

/// The window that a record describes, read as a workspace is.
pub open spec fn client_of(record: JsonView) -> Result<ClientView, DecodeError> {
    match (
        address_field(record, "address"@),
        text_field(record, "title"@),
        i32_field(record, "monitor"@),
        client_workspace_field(record),
    ) {
        (Ok(address), Ok(title), Ok(monitor), Ok(workspace)) => Ok(
            ClientView { address, title, monitor, workspace },
        ),
        (Err(e), _, _, _) | (_, Err(e), _, _) | (_, _, Err(e), _) | (_, _, _, Err(e)) => Err(e),
    }
}

/// All of `items` decoded by `decode`, or the failure of the first that
/// fails.
pub open spec fn collect<T>(
    items: Seq<JsonView>,
    decode: spec_fn(JsonView) -> Result<T, DecodeError>,
) -> Result<Seq<T>, DecodeError>
    decreases items.len(),
{
    if items.len() == 0 {
        Ok(Seq::empty())
    } else {
        match collect(items.drop_last(), decode) {
            Ok(front) => match decode(items.last()) {
                Ok(item) => Ok(front.push(item)),
                Err(e) => Err(e),
            },
            Err(e) => Err(e),
        }
    }
}

/// The workspaces that a document lists: it is an array of their records.
pub open spec fn workspaces_in(document: JsonView) -> Result<Seq<WorkspaceView>, DecodeError> {
    match document {
        JsonView::Array(items) => collect(items, |record: JsonView| workspace_of(record)),
        _ => Err(DecodeError::InvalidType),
    }
}

/// The windows that a document lists: it is an array of their records.
pub open spec fn clients_in(document: JsonView) -> Result<Seq<ClientView>, DecodeError> {
    match document {
        JsonView::Array(items) => collect(items, |record: JsonView| client_of(record)),
        _ => Err(DecodeError::InvalidType),
    }
}

/// Where the items in front fail, the whole fails in the same way.
pub proof fn lemma_collect_fails_early<T>(
    items: Seq<JsonView>,
    decode: spec_fn(JsonView) -> Result<T, DecodeError>,
    k: int,
)
    requires
        0 <= k <= items.len(),
        collect(items.take(k), decode) is Err,
    ensures
        collect(items, decode) == collect(items.take(k), decode),
    decreases items.len(),
{
    if k == items.len() {
        assert(items.take(k) =~= items);
    } else {
        let front = items.drop_last();
        assert(front.take(k) =~= items.take(k));
        lemma_collect_fails_early(front, decode, k);
    }
}

/// What `member` finds is the first member of that name.
pub proof fn lemma_member(members: Seq<(Seq<char>, JsonView)>, key: Seq<char>, i: int)
    requires
        0 <= i <= members.len(),
        forall|k: int| 0 <= k < i ==> (#[trigger] members[k]).0 != key,
        i < members.len() ==> members[i].0 == key,
    ensures
        member(members, key) == if i < members.len() {
            Some(members[i].1)
        } else {
            None
        },
    decreases members.len(),
{
    if i > 0 {
        let rest = members.skip(1);
        lemma_member(rest, key, i - 1);
    }
}

/// Looks up the field `key` of a record.
fn find<'a>(record: &'a Json, key: &str) -> (r: Result<&'a Json, DecodeError>)
    ensures
        match r {
            Ok(value) => field(record@, key@) == Ok::<JsonView, DecodeError>(value@),
            Err(e) => field(record@, key@) == Err::<JsonView, DecodeError>(e),
        },
{
    match record {
        Json::Object(members) => {
            let ghost view = record@->Object_0;
            proof {
                lemma_object_view(*record);
            }
            let wanted = String::from_str(key);
            let mut i: usize = 0;
            while i < members.len()
                invariant
                    i <= members.len(),
                    wanted@ == key@,
                    record@ == JsonView::Object(view),
                    view.len() == members.len(),
                    forall|k: int|
                        0 <= k < members.len() ==> #[trigger] view[k] == (
                            members[k].0@,
                            members[k].1@,
                        ),
                    forall|k: int| 0 <= k < i ==> (#[trigger] view[k]).0 != key@,
                decreases members.len() - i,
            {
                if members[i].0 == wanted {
                    proof {
                        lemma_member(view, key@, i as int);
                    }
                    return Ok(&members[i].1);
                }
                i = i + 1;
            }
            proof {
                lemma_member(view, key@, i as int);
            }
            Err(DecodeError::MissingField)
        },
        _ => Err(DecodeError::InvalidType),
    }
}

/// Reads the field `key` of a record as a whole number.
fn read_i32_field(record: &Json, key: &str) -> (r: Result<i32, DecodeError>)
    ensures
        r == i32_field(record@, key@),
{
    match find(record, key)? {
        Json::Number(Some(n)) => {
            if -0x8000_0000 <= *n && *n <= 0x7fff_ffff {
                Ok(*n as i32)
            } else {
                Err(DecodeError::InvalidInteger)
            }
        },
        Json::Number(None) => Err(DecodeError::InvalidInteger),
        _ => Err(DecodeError::InvalidType),
    }
}

/// Reads the field `key` of a record as a string.
fn read_text_field(record: &Json, key: &str) -> (r: Result<String, DecodeError>)
    ensures
        match r {
            Ok(text) => text_field(record@, key@) == Ok::<Seq<char>, DecodeError>(text@),
            Err(e) => text_field(record@, key@) == Err::<Seq<char>, DecodeError>(e),
        },
{
    match find(record, key)? {
        Json::Text(text) => Ok(text.clone()),
        _ => Err(DecodeError::InvalidType),
    }
}

/// Reads the field `key` of a record as `true` or `false`.
fn read_flag_field(record: &Json, key: &str) -> (r: Result<bool, DecodeError>)
    ensures
        r == flag_field(record@, key@),
{
    match find(record, key)? {
        Json::Bool(flag) => Ok(*flag),
        _ => Err(DecodeError::InvalidType),
    }
}

/// Reads the field `key` of a record as a window address.
fn read_address_field(record: &Json, key: &str) -> (r: Result<WindowAddress, DecodeError>)
    ensures
        r == address_field(record@, key@),
{
    match find(record, key)? {
        Json::Text(text) => match deserialize(text.as_str()) {
            Ok(address) => Ok(WindowAddress(address)),
            Err(e) => Err(e),
        },
        _ => Err(DecodeError::InvalidType),
    }
}

/// Reads the workspace that a record describes.
pub fn workspace_from_json(record: &Json) -> (r: Result<Workspace, DecodeError>)
    ensures
        match r {
            Ok(workspace) => workspace_of(record@) == Ok::<WorkspaceView, DecodeError>(workspace@),
            Err(e) => workspace_of(record@) == Err::<WorkspaceView, DecodeError>(e),
        },
{
    let id = read_i32_field(record, "id")?;
    let name = read_text_field(record, "name")?;
    let monitor = read_text_field(record, "monitor")?;
    let monitor_id = read_i32_field(record, "monitorID")?;
    let windows = read_i32_field(record, "windows")?;
    let has_fullscreen = read_flag_field(record, "hasfullscreen")?;
    let last_window = read_address_field(record, "lastwindow")?;
    let last_window_title = read_text_field(record, "lastwindowtitle")?;
    Ok(
        Workspace {
            id: WorkspaceId(id),
            name,
            monitor,
            monitor_id,
            windows,
            has_fullscreen,
            last_window,
            last_window_title,
        },
    )
}

/// Reads the workspace of a window from the field of that name.
fn read_client_workspace(record: &Json) -> (r: Result<ClientWorkspace, DecodeError>)
    ensures
        match r {
            Ok(workspace) => client_workspace_field(record@) == Ok::<
                ClientWorkspaceView,
                DecodeError,
            >(workspace@),
            Err(e) => client_workspace_field(record@) == Err::<ClientWorkspaceView, DecodeError>(e),
        },
{
    let inner = find(record, "workspace")?;
    let id = read_i32_field(inner, "id")?;
    let name = read_text_field(inner, "name")?;
    Ok(ClientWorkspace { id: WorkspaceId(id), name })
}

/// Reads the window that a record describes.
pub fn client_from_json(record: &Json) -> (r: Result<Client, DecodeError>)
    ensures
        match r {
            Ok(client) => client_of(record@) == Ok::<ClientView, DecodeError>(client@),
            Err(e) => client_of(record@) == Err::<ClientView, DecodeError>(e),
        },
{
    let address = read_address_field(record, "address")?;
    let title = read_text_field(record, "title")?;
    let monitor = read_i32_field(record, "monitor")?;
    let workspace = read_client_workspace(record)?;
    Ok(Client { address, title, monitor, workspace })
}

/// The workspaces of a list, as values of mathematics.
pub open spec fn workspace_views(list: Seq<Workspace>) -> Seq<WorkspaceView> {
    list.map_values(|workspace: Workspace| workspace@)
}

/// The windows of a list, as values of mathematics.
pub open spec fn client_views(list: Seq<Client>) -> Seq<ClientView> {
    list.map_values(|client: Client| client@)
}

/// Reads the workspaces that a document lists.
pub fn workspaces_from_json(document: &Json) -> (r: Result<Vec<Workspace>, DecodeError>)
    ensures
        match r {
            Ok(list) => workspaces_in(document@) == Ok::<Seq<WorkspaceView>, DecodeError>(
                workspace_views(list@),
            ),
            Err(e) => workspaces_in(document@) == Err::<Seq<WorkspaceView>, DecodeError>(e),
        },
{
    match document {
        Json::Array(items) => {
            let ghost records = document@->Array_0;
            proof {
                lemma_array_view(*document);
            }
            let ghost decode = |record: JsonView| workspace_of(record);
            let mut list: Vec<Workspace> = Vec::new();
            let mut i: usize = 0;
            assert(workspace_views(list@) =~= Seq::<WorkspaceView>::empty());
            while i < items.len()
                invariant
                    i <= items.len(),
                    document@ == JsonView::Array(records),
                    records.len() == items.len(),
                    forall|k: int| 0 <= k < items.len() ==> #[trigger] records[k] == items[k]@,
                    decode == |record: JsonView| workspace_of(record),
                    collect(records.take(i as int), decode) == Ok::<
                        Seq<WorkspaceView>,
                        DecodeError,
                    >(workspace_views(list@)),
                decreases items.len() - i,
            {
                let ghost seen = records.take(i + 1);
                assert(seen.drop_last() =~= records.take(i as int));
                match workspace_from_json(&items[i]) {
                    Ok(workspace) => {
                        let ghost before = workspace_views(list@);
                        list.push(workspace);
                        assert(workspace_views(list@) =~= before.push(workspace@));
                    },
                    Err(e) => {
                        proof {
                            lemma_collect_fails_early(records, decode, i + 1);
                        }
                        return Err(e);
                    },
                }
                i = i + 1;
            }
            assert(records.take(i as int) =~= records);
            Ok(list)
        },
        _ => Err(DecodeError::InvalidType),
    }
}

/// Reads the windows that a document lists.
pub fn clients_from_json(document: &Json) -> (r: Result<Vec<Client>, DecodeError>)
    ensures
        match r {
            Ok(list) => clients_in(document@) == Ok::<Seq<ClientView>, DecodeError>(
                client_views(list@),
            ),
            Err(e) => clients_in(document@) == Err::<Seq<ClientView>, DecodeError>(e),
        },
{
    match document {
        Json::Array(items) => {
            let ghost records = document@->Array_0;
            proof {
                lemma_array_view(*document);
            }
            let ghost decode = |record: JsonView| client_of(record);
            let mut list: Vec<Client> = Vec::new();
            let mut i: usize = 0;
            assert(client_views(list@) =~= Seq::<ClientView>::empty());
            while i < items.len()
                invariant
                    i <= items.len(),
                    document@ == JsonView::Array(records),
                    records.len() == items.len(),
                    forall|k: int| 0 <= k < items.len() ==> #[trigger] records[k] == items[k]@,
                    decode == |record: JsonView| client_of(record),
                    collect(records.take(i as int), decode) == Ok::<Seq<ClientView>, DecodeError>(
                        client_views(list@),
                    ),
                decreases items.len() - i,
            {
                let ghost seen = records.take(i + 1);
                assert(seen.drop_last() =~= records.take(i as int));
                match client_from_json(&items[i]) {
                    Ok(client) => {
                        let ghost before = client_views(list@);
                        list.push(client);
                        assert(client_views(list@) =~= before.push(client@));
                    },
                    Err(e) => {
                        proof {
                            lemma_collect_fails_early(records, decode, i + 1);
                        }
                        return Err(e);
                    },
                }
                i = i + 1;
            }
            assert(records.take(i as int) =~= records);
            Ok(list)
        },
        _ => Err(DecodeError::InvalidType),
    }
}

/// The workspaces that a reply lists, the reply being a JSON text.
pub open spec fn workspaces_of_text(text: Seq<u8>) -> Result<Seq<WorkspaceView>, DecodeErrorView> {
    match parsed(text) {
        Ok(document) => match workspaces_in(document) {
            Ok(list) => Ok(list),
            Err(e) => Err(e@),
        },
        Err(e) => Err(e),
    }
}

/// The windows that a reply lists, the reply being a JSON text.
pub open spec fn clients_of_text(text: Seq<u8>) -> Result<Seq<ClientView>, DecodeErrorView> {
    match parsed(text) {
        Ok(document) => match clients_in(document) {
            Ok(list) => Ok(list),
            Err(e) => Err(e@),
        },
        Err(e) => Err(e),
    }
}

/// Decodes the reply to `j/workspaces`.
pub fn decode_workspaces(text: &[u8]) -> (r: Result<Vec<Workspace>, DecodeError>)
    ensures
        match r {
            Ok(list) => workspaces_of_text(text@) == Ok::<Seq<WorkspaceView>, DecodeErrorView>(
                workspace_views(list@),
            ),
            Err(e) => workspaces_of_text(text@) == Err::<Seq<WorkspaceView>, DecodeErrorView>(e@),
        },
{
    let document = parse(text)?;
    workspaces_from_json(&document)
}

/// Decodes the reply to `j/clients`.
pub fn decode_clients(text: &[u8]) -> (r: Result<Vec<Client>, DecodeError>)
    ensures
        match r {
            Ok(list) => clients_of_text(text@) == Ok::<Seq<ClientView>, DecodeErrorView>(
                client_views(list@),
            ),
            Err(e) => clients_of_text(text@) == Err::<Seq<ClientView>, DecodeErrorView>(e@),
        },
{
    let document = parse(text)?;
    clients_from_json(&document)
}

/// A call on the command channel.
pub enum Command {
    /// Ask for the workspaces.
    Workspaces,
    /// Ask for the windows.
    Clients,
    /// Ask for an action.
    Dispatch(Dispatcher),
}

impl Command {
    /// The text of the call, as it is written to the socket.
    pub open spec fn text(&self) -> Seq<char> {
        match self {
            Command::Workspaces => "j/workspaces"@,
            Command::Clients => "j/clients"@,
            Command::Dispatch(dispatcher) => "j/dispatch "@ + dispatcher.encoding(),
        }
    }

    /// Writes the call as the compositor reads it.
    pub fn request(&self) -> (s: String)
        ensures
            s@ == self.text(),
    {
        match self {
            Command::Workspaces => String::from_str("j/workspaces"),
            Command::Clients => String::from_str("j/clients"),
            Command::Dispatch(dispatcher) => {
                let mut out = String::from_str("j/dispatch ");
                let text = dispatcher.to_string();
                out.append(text.as_str());
                out
            },
        }
    }
}

/// What came of one call: each call has a connection of its own, which the
/// compositor closes when it has answered.
#[derive(Clone, Debug, PartialEq, Eq)]
pub enum Reply {
    /// The socket could not be opened, for this reason.
    Refused(String),
    /// Writing the call or reading the answer failed, for this reason.
    Broken(String),
    /// The compositor answered with this and closed the connection.
    Closed(Vec<u8>),
}

/// A reply as a value of mathematics.
pub enum ReplyView {
    Refused(Seq<char>),
    Broken(Seq<char>),
    Closed(Seq<u8>),
}

impl View for Reply {
    type V = ReplyView;

    open spec fn view(&self) -> ReplyView {
        match self {
            Reply::Refused(reason) => ReplyView::Refused(reason@),
            Reply::Broken(reason) => ReplyView::Broken(reason@),
            Reply::Closed(text) => ReplyView::Closed(text@),
        }
    }
}

/// The answer that a reply holds, or why there is none: a connection that
/// was refused, or one that broke.
pub open spec fn answer(reply: ReplyView) -> Result<Seq<u8>, ErrorView> {
    match reply {
        ReplyView::Refused(reason) => Err(ErrorView::Connection(reason)),
        ReplyView::Broken(reason) => Err(ErrorView::Io(reason)),
        ReplyView::Closed(text) => Ok(text),
    }
}

/// What a call for the workspaces comes to.
pub open spec fn workspaces_of_reply(reply: ReplyView) -> Result<Seq<WorkspaceView>, ErrorView> {
    match answer(reply) {
        Ok(text) => match workspaces_of_text(text) {
            Ok(list) => Ok(list),
            Err(e) => Err(ErrorView::Decode(e)),
        },
        Err(e) => Err(e),
    }
}

/// What a call for the windows comes to.
pub open spec fn clients_of_reply(reply: ReplyView) -> Result<Seq<ClientView>, ErrorView> {
    match answer(reply) {
        Ok(text) => match clients_of_text(text) {
            Ok(list) => Ok(list),
            Err(e) => Err(ErrorView::Decode(e)),
        },
        Err(e) => Err(e),
    }
}

impl Command {
    /// The answer of the compositor, whatever it holds.
    pub fn exec(reply: Reply) -> (r: Result<Vec<u8>, Error>)
        ensures
            match r {
                Ok(text) => answer(reply@) == Ok::<Seq<u8>, ErrorView>(text@),
                Err(e) => answer(reply@) == Err::<Seq<u8>, ErrorView>(e@),
            },
    {
        match reply {
            Reply::Refused(reason) => Err(Error::Connection(reason)),
            Reply::Broken(reason) => Err(Error::Io(reason)),
            Reply::Closed(text) => Ok(text),
        }
    }

    /// The workspaces that the compositor answered with.
    pub fn workspaces(reply: Reply) -> (r: Result<Vec<Workspace>, Error>)
        ensures
            match r {
                Ok(list) => workspaces_of_reply(reply@) == Ok::<Seq<WorkspaceView>, ErrorView>(
                    workspace_views(list@),
                ),
                Err(e) => workspaces_of_reply(reply@) == Err::<Seq<WorkspaceView>, ErrorView>(e@),
            },
    {
        let text = Command::exec(reply)?;
        match decode_workspaces(text.as_slice()) {
            Ok(list) => Ok(list),
            Err(e) => Err(Error::Decode(e)),
        }
    }

    /// The windows that the compositor answered with.
    pub fn clients(reply: Reply) -> (r: Result<Vec<Client>, Error>)
        ensures
            match r {
                Ok(list) => clients_of_reply(reply@) == Ok::<Seq<ClientView>, ErrorView>(
                    client_views(list@),
                ),
                Err(e) => clients_of_reply(reply@) == Err::<Seq<ClientView>, ErrorView>(e@),
            },
    {
        let text = Command::exec(reply)?;
        match decode_clients(text.as_slice()) {
            Ok(list) => Ok(list),
            Err(e) => Err(Error::Decode(e)),
        }
    }

    /// Whether an action was asked for: it was when the compositor answered,
    /// whatever the answer holds.
    pub fn dispatch(reply: Reply) -> (r: Result<(), Error>)
        ensures
            match r {
                Ok(_) => answer(reply@) is Ok,
                Err(e) => answer(reply@) == Err::<Seq<u8>, ErrorView>(e@),
            },
    {
        let _ = Command::exec(reply)?;
        Ok(())
    }
}

} // verus!
