//! The event channel: records, their fields, and the events they announce.

use vstd::prelude::*;

use crate::error::{DecodeError, Error, ErrorView};
use crate::text::{
    decimal_u64, hex_i32, hex_u64, parse_bool, read_bool, read_i32, read_u64, to_chars, to_string,
};
use crate::{WindowAddress, WorkspaceId};

verus! {

/// Where the first `,` of `s` stands, or the length of `s` if it has none.
pub open spec fn first_comma(s: Seq<char>) -> int
    decreases s.len(),
{
    if s.len() == 0 || s[0] == ',' {
        0
    } else {
        1 + first_comma(s.skip(1))
    }
}

/// The fields of a record: what stands between its commas. A record
/// without a comma is one field, and so is an empty record.
pub open spec fn split_fields(s: Seq<char>) -> Seq<Seq<char>>
    decreases s.len(),
{
    let i = first_comma(s);
    if 0 <= i < s.len() {
        seq![s.take(i)] + split_fields(s.skip(i + 1))
    } else {
        seq![s]
    }
}

/// `first_comma` is the place before which no comma stands and at which
/// one does, unless it is the end.
pub proof fn lemma_first_comma(s: Seq<char>, i: int)
    requires
        0 <= i <= s.len(),
        forall|k: int| 0 <= k < i ==> s[k] != ',',
        i < s.len() ==> s[i] == ',',
    ensures
        first_comma(s) == i,
    decreases s.len(),
{
    if i > 0 {
        let rest = s.skip(1);
        lemma_first_comma(rest, i - 1);
    }
}

/// What `first_comma` gives: a place in `s` or its end, with no comma
/// before it and one at it, unless it is the end.
pub proof fn lemma_first_comma_is_first(s: Seq<char>)
    ensures
        0 <= first_comma(s) <= s.len(),
        forall|k: int| 0 <= k < first_comma(s) ==> s[k] != ',',
        first_comma(s) < s.len() ==> s[first_comma(s)] == ',',
    decreases s.len(),
{
    if s.len() > 0 && s[0] != ',' {
        let rest = s.skip(1);
        lemma_first_comma_is_first(rest);
        assert forall|k: int| 0 <= k < first_comma(s) implies s[k] != ',' by {
            if k > 0 {
                assert(s[k] == rest[k - 1]);
            }
        }
    }
}

/// `fields` written one after the other, with a comma between each two.
pub open spec fn join_fields(fields: Seq<Seq<char>>) -> Seq<char>
    decreases fields.len(),
{
    if fields.len() == 0 {
        Seq::empty()
    } else if fields.len() == 1 {
        fields[0]
    } else {
        fields[0] + seq![','] + join_fields(fields.skip(1))
    }
}

/// The fields of a record are what the record is made of: there is at
/// least one, none holds a comma, and with commas between them they are
/// the record again.
pub proof fn lemma_split_fields(s: Seq<char>)
    ensures
        split_fields(s).len() >= 1,
        forall|i: int, j: int|
            0 <= i < split_fields(s).len() && 0 <= j < split_fields(s)[i].len() ==> split_fields(
                s,
            )[i][j] != ',',
        join_fields(split_fields(s)) == s,
    decreases s.len(),
{
    lemma_first_comma_is_first(s);
    let i = first_comma(s);
    let fields = split_fields(s);
    if i < s.len() {
        let tail = s.skip(i + 1);
        let others = split_fields(tail);
        lemma_split_fields(tail);
        assert(fields.skip(1) =~= others);
    }
}

/// The fields of one record, handed out one by one from the first.
pub struct DataParser {
    chars: Vec<char>,
    pos: usize,
    done: bool,
}

impl View for DataParser {
    type V = Seq<Seq<char>>;

    /// The fields that are still to be read.
    closed spec fn view(&self) -> Seq<Seq<char>> {
        if self.done {
            Seq::empty()
        } else {
            split_fields(self.chars@.subrange(self.pos as int, self.chars.len() as int))
        }
    }
}

impl DataParser {
    #[verifier::type_invariant]
    spec fn inv(self) -> bool {
        self.pos <= self.chars.len()
    }

    /// Splits `data` at its commas.
    pub fn new(data: &str) -> (parser: DataParser)
        ensures
            parser@ == split_fields(data@),
    {
        let chars = to_chars(data);
        assert(chars@.subrange(0, chars.len() as int) =~= chars@);
        DataParser { chars, pos: 0, done: false }
    }

    /// Splits what `chars` holds from `pos` on.
    fn from_chars(chars: Vec<char>, pos: usize) -> (parser: DataParser)
        requires
            pos <= chars.len(),
        ensures
            parser@ == split_fields(chars@.skip(pos as int)),
    {
        DataParser { chars, pos, done: false }
    }

    /// Takes the next field and says where it lies.
    fn next_span(&mut self) -> (r: Option<(usize, usize)>)
        ensures
            final(self).chars == old(self).chars,
            match r {
                Some((from, to)) => {
                    &&& old(self)@.len() > 0
                    &&& final(self)@ == old(self)@.skip(1)
                    &&& from <= to <= final(self).chars.len()
                    &&& final(self).chars@.subrange(from as int, to as int) == old(self)@[0]
                },
                None => old(self)@.len() == 0 && final(self)@ == old(self)@,
            },
    {
        proof {
            use_type_invariant(&*self);
        }
        if self.done {
            return None;
        }
        let from = self.pos;
        let len = self.chars.len();
        let ghost rest = self.chars@.subrange(from as int, len as int);
        let mut to = from;
        while to < len && self.chars[to] != ','
            invariant
                from <= to <= len,
                len == self.chars.len(),
                rest == self.chars@.subrange(from as int, len as int),
                forall|k: int| 0 <= k < to - from ==> rest[k] != ',',
            decreases len - to,
        {
            to = to + 1;
        }
        proof {
            lemma_first_comma(rest, to - from);
        }
        if to < len {
            proof {
                assert(rest.skip(to - from + 1) =~= self.chars@.subrange(to + 1, len as int));
                assert((seq![rest.take(to - from)] + split_fields(rest.skip(to - from + 1))).skip(1)
                    =~= split_fields(rest.skip(to - from + 1)));
            }
            self.pos = to + 1;
        } else {
            self.done = true;
        }
        Some((from, to))
    }

    /// The next field, as it stands.
    pub fn next(&mut self) -> (r: Result<String, DecodeError>)
        ensures
            final(self)@ == rest(old(self)@),
            match r {
                Ok(s) => text_at(old(self)@, 0) == Ok::<Seq<char>, DecodeError>(s@),
                Err(e) => text_at(old(self)@, 0) == Err::<Seq<char>, DecodeError>(e),
            },
    {
        match self.next_span() {
            Some((from, to)) => Ok(to_string(&self.chars, from, to)),
            None => Err(DecodeError::UnexpectedEof),
        }
    }

    /// The next field, as a string of its own.
    pub fn next_string(&mut self) -> (r: Result<String, DecodeError>)
        ensures
            final(self)@ == rest(old(self)@),
            match r {
                Ok(s) => text_at(old(self)@, 0) == Ok::<Seq<char>, DecodeError>(s@),
                Err(e) => text_at(old(self)@, 0) == Err::<Seq<char>, DecodeError>(e),
            },
    {
        self.next()
    }

    /// The next field, read as a workspace id: hexadecimal, signed, 32 bits.
    pub fn next_workspace_id(&mut self) -> (r: Result<WorkspaceId, DecodeError>)
        ensures
            final(self)@ == rest(old(self)@),
            r == id_at(old(self)@, 0),
    {
        match self.next_span() {
            Some((from, to)) => match read_i32(&self.chars, from, to, 16) {
                Some(id) => Ok(WorkspaceId(id)),
                None => Err(DecodeError::InvalidInteger),
            },
            None => Err(DecodeError::UnexpectedEof),
        }
    }

    /// The next field, read as a window address: hexadecimal, 64 bits, with
    /// no `0x` in front.
    pub fn next_window_address(&mut self) -> (r: Result<WindowAddress, DecodeError>)
        ensures
            final(self)@ == rest(old(self)@),
            r == address_at(old(self)@, 0),
    {
        match self.next_span() {
            Some((from, to)) => match read_u64(&self.chars, from, to, 16) {
                Some(address) => Ok(WindowAddress(address)),
                None => Err(DecodeError::InvalidInteger),
            },
            None => Err(DecodeError::UnexpectedEof),
        }
    }

    /// The next field, read as a window address, or as none where the field
    /// is empty.
    pub fn next_maybe_window_address(&mut self) -> (r: Result<Option<WindowAddress>, DecodeError>)
        ensures
            final(self)@ == rest(old(self)@),
            r == maybe_address_at(old(self)@, 0),
    {
        match self.next_span() {
            Some((from, to)) => {
                if from == to {
                    return Ok(None);
                }
                match read_u64(&self.chars, from, to, 16) {
                    Some(address) => Ok(Some(WindowAddress(address))),
                    None => Err(DecodeError::InvalidInteger),
                }
            },
            None => Err(DecodeError::UnexpectedEof),
        }
    }

    /// The next field, read as `true` or `false`.
    pub fn next_bool(&mut self) -> (r: Result<bool, DecodeError>)
        ensures
            final(self)@ == rest(old(self)@),
            r == bool_at(old(self)@, 0),
    {
        match self.next_span() {
            Some((from, to)) => match read_bool(&self.chars, from, to) {
                Some(flag) => Ok(flag),
                None => Err(DecodeError::InvalidBoolean),
            },
            None => Err(DecodeError::UnexpectedEof),
        }
    }

    /// All the fields that are left, each read as a window address in
    /// decimal.
    pub fn vec_window_ids(self) -> (r: Result<Vec<WindowAddress>, DecodeError>)
        ensures
            match r {
                Ok(ids) => addresses_from(self@, 0) == Ok::<Seq<WindowAddress>, DecodeError>(ids@),
                Err(e) => addresses_from(self@, 0) == Err::<Seq<WindowAddress>, DecodeError>(e),
            },
    {
        let ghost fields = self@;
        let mut parser = self;
        let mut ids: Vec<WindowAddress> = Vec::new();
        loop
            invariant
                fields == self@,
                ids.len() <= fields.len(),
                parser@ == fields.skip(ids.len() as int),
                forall|j: int|
                    0 <= j < ids.len() ==> decimal_u64(#[trigger] fields[j]) == Some(
                        ids[j].0 as int,
                    ),
            ensures
                ids.len() == fields.len(),
            decreases fields.len() - ids.len(),
        {
            match parser.next_span() {
                Some((from, to)) => match read_u64(&parser.chars, from, to, 10) {
                    Some(address) => {
                        ids.push(WindowAddress(address));
                    },
                    None => {
                        return Err(DecodeError::InvalidInteger);
                    },
                },
                None => {
                    break ;
                },
            }
        }
        proof {
            let expected = addresses_from(fields, 0);
            assert(expected->Ok_0 =~= ids@);
        }
        Ok(ids)
    }
}

/// The fields that are left when the first has been taken.
pub open spec fn rest(fields: Seq<Seq<char>>) -> Seq<Seq<char>> {
    if fields.len() > 0 {
        fields.skip(1)
    } else {
        fields
    }
}

/// Field `i` as it stands.
pub open spec fn text_at(fields: Seq<Seq<char>>, i: int) -> Result<Seq<char>, DecodeError> {
    if 0 <= i < fields.len() {
        Ok(fields[i])
    } else {
        Err(DecodeError::UnexpectedEof)
    }
}

/// Field `i` as a workspace id: hexadecimal, signed, 32 bits.
pub open spec fn id_at(fields: Seq<Seq<char>>, i: int) -> Result<WorkspaceId, DecodeError> {
    if 0 <= i < fields.len() {
        match hex_i32(fields[i]) {
            Some(id) => Ok(WorkspaceId(id as i32)),
            None => Err(DecodeError::InvalidInteger),
        }
    } else {
        Err(DecodeError::UnexpectedEof)
    }
}

/// Field `i` as a window address: hexadecimal, 64 bits.
pub open spec fn address_at(fields: Seq<Seq<char>>, i: int) -> Result<WindowAddress, DecodeError> {
    if 0 <= i < fields.len() {
        match hex_u64(fields[i]) {
            Some(address) => Ok(WindowAddress(address as u64)),
            None => Err(DecodeError::InvalidInteger),
        }
    } else {
        Err(DecodeError::UnexpectedEof)
    }
}

/// Field `i` as a window address, where an empty field stands for none.
pub open spec fn maybe_address_at(fields: Seq<Seq<char>>, i: int) -> Result<
    Option<WindowAddress>,
    DecodeError,
> {
    if 0 <= i < fields.len() {
        if fields[i].len() == 0 {
            Ok(None)
        } else {
            match hex_u64(fields[i]) {
                Some(address) => Ok(Some(WindowAddress(address as u64))),
                None => Err(DecodeError::InvalidInteger),
            }
        }
    } else {
        Err(DecodeError::UnexpectedEof)
    }
}

/// Field `i` as `true` or `false`.
pub open spec fn bool_at(fields: Seq<Seq<char>>, i: int) -> Result<bool, DecodeError> {
    if 0 <= i < fields.len() {
        match parse_bool(fields[i]) {
            Some(flag) => Ok(flag),
            None => Err(DecodeError::InvalidBoolean),
        }
    } else {
        Err(DecodeError::UnexpectedEof)
    }
}

/// The fields from `i` on, each as a window address in decimal. There may be
/// none of them.
pub open spec fn addresses_from(fields: Seq<Seq<char>>, i: int) -> Result<
    Seq<WindowAddress>,
    DecodeError,
> {
    if forall|j: int| i <= j < fields.len() ==> decimal_u64(#[trigger] fields[j]) is Some {
        Ok(
            Seq::new(
                if i <= fields.len() {
                    (fields.len() - i) as nat
                } else {
                    0
                },
                |j: int| WindowAddress(decimal_u64(fields[i + j]).unwrap() as u64),
            ),
        )
    } else {
        Err(DecodeError::InvalidInteger)
    }
}

/// Who is being captured when a screencast starts or stops.
#[derive(Clone, Copy, Debug, PartialEq, Eq, Structural)]
pub enum ScreencastOwner {
    Monitor,
    Window,
}

/// What the compositor announces on the event channel.
#[allow(inconsistent_fields)]
#[derive(Clone, PartialEq, Eq, Debug)]
pub enum HyprlandEvent {
    /// The user changed the workspace.
    WorkspaceChanged { id: WorkspaceId, name: String },
    /// Another monitor has the focus.
    FocusedMonitor { name: String, workspace: String },
    /// Another window is active, or none is.
    ActiveWindow { address: Option<WindowAddress> },
    /// A window entered or left fullscreen.
    Fullscreen { enter: bool },
    /// A monitor was disconnected.
    MonitorRemoved { name: String },
    /// A monitor was connected.
    MonitorAdded { id: WorkspaceId, name: String, description: String },
    /// A workspace was created.
    CreateWorkspace { id: WorkspaceId, name: String },
    /// A workspace was destroyed.
    DestroyWorkspace { id: WorkspaceId, name: String },
    /// A workspace was moved to another monitor.
    MoveWorkspace { id: WorkspaceId, name: String, monitor: String },
    /// A workspace was renamed.
    RenameWorkspace { id: WorkspaceId, new_name: String },
    /// Another special workspace is open on a monitor; an empty name says
    /// that it was closed.
    ActiveSpecial { workspace: String, monitor: String },
    /// A keyboard changed its layout.
    ActiveLayout { keyboard: String, layout: String },
    /// A window was opened.
    OpenWindow { address: WindowAddress, workspace: String, class: String, title: String },
    /// A window was closed.
    CloseWindow { address: WindowAddress },
    /// A window was moved to a workspace.
    MoveWindow { address: WindowAddress, workspace_id: WorkspaceId, workspace: String },
    /// A layer surface was mapped.
    OpenLayer { namespace: String },
    /// A layer surface was unmapped.
    CloseLayer { namespace: String },
    /// Another keybind submap is in force; an empty name says the default.
    SubMap { name: String },
    /// A window began or stopped floating.
    ChangeFloatingMode { address: WindowAddress, floating: bool },
    /// A window asks for attention.
    Urgent { address: WindowAddress },
    /// A screencast started or stopped.
    Screencast { state: bool, owner: ScreencastOwner },
    /// A window has another title.
    WindowTitle { address: WindowAddress, title: String },
    /// A group was made or dissolved.
    ToggleGroup { created: bool, handles: Vec<WindowAddress> },
    /// A window was merged into a group.
    MoveIntoGroup { address: WindowAddress },
    /// A window was taken out of a group.
    MoveOutOfGroup { address: WindowAddress },
    /// `ignoregrouplock` was toggled.
    IgnoreGroupLock { state: bool },
    /// `lockgroups` was toggled.
    LockGroups { state: bool },
    /// The configuration was read again.
    ConfigReloaded,
    /// A window was pinned or unpinned.
    Pin { address: WindowAddress, pinned: bool },
}

/// An event as a value of mathematics: its strings are sequences of
/// characters.
#[allow(inconsistent_fields)]
pub enum EventView {
    WorkspaceChanged { id: WorkspaceId, name: Seq<char> },
    FocusedMonitor { name: Seq<char>, workspace: Seq<char> },
    ActiveWindow { address: Option<WindowAddress> },
    Fullscreen { enter: bool },
    MonitorRemoved { name: Seq<char> },
    MonitorAdded { id: WorkspaceId, name: Seq<char>, description: Seq<char> },
    CreateWorkspace { id: WorkspaceId, name: Seq<char> },
    DestroyWorkspace { id: WorkspaceId, name: Seq<char> },
    MoveWorkspace { id: WorkspaceId, name: Seq<char>, monitor: Seq<char> },
    RenameWorkspace { id: WorkspaceId, new_name: Seq<char> },
    ActiveSpecial { workspace: Seq<char>, monitor: Seq<char> },
    ActiveLayout { keyboard: Seq<char>, layout: Seq<char> },
    OpenWindow { address: WindowAddress, workspace: Seq<char>, class: Seq<char>, title: Seq<char> },
    CloseWindow { address: WindowAddress },
    MoveWindow { address: WindowAddress, workspace_id: WorkspaceId, workspace: Seq<char> },
    OpenLayer { namespace: Seq<char> },
    CloseLayer { namespace: Seq<char> },
    SubMap { name: Seq<char> },
    ChangeFloatingMode { address: WindowAddress, floating: bool },
    Urgent { address: WindowAddress },
    Screencast { state: bool, owner: ScreencastOwner },
    WindowTitle { address: WindowAddress, title: Seq<char> },
    ToggleGroup { created: bool, handles: Seq<WindowAddress> },
    MoveIntoGroup { address: WindowAddress },
    MoveOutOfGroup { address: WindowAddress },
    IgnoreGroupLock { state: bool },
    LockGroups { state: bool },
    ConfigReloaded,
    Pin { address: WindowAddress, pinned: bool },
}

impl View for HyprlandEvent {
    type V = EventView;

    open spec fn view(&self) -> EventView {
        match self {
            HyprlandEvent::WorkspaceChanged { id, name } => EventView::WorkspaceChanged {
                id: *id,
                name: name@,
            },
            HyprlandEvent::FocusedMonitor { name, workspace } => EventView::FocusedMonitor {
                name: name@,
                workspace: workspace@,
            },
            HyprlandEvent::ActiveWindow { address } => EventView::ActiveWindow {
                address: *address,
            },
            HyprlandEvent::Fullscreen { enter } => EventView::Fullscreen { enter: *enter },
            HyprlandEvent::MonitorRemoved { name } => EventView::MonitorRemoved { name: name@ },
            HyprlandEvent::MonitorAdded { id, name, description } => EventView::MonitorAdded {
                id: *id,
                name: name@,
                description: description@,
            },
            HyprlandEvent::CreateWorkspace { id, name } => EventView::CreateWorkspace {
                id: *id,
                name: name@,
            },
            HyprlandEvent::DestroyWorkspace { id, name } => EventView::DestroyWorkspace {
                id: *id,
                name: name@,
            },
            HyprlandEvent::MoveWorkspace { id, name, monitor } => EventView::MoveWorkspace {
                id: *id,
                name: name@,
                monitor: monitor@,
            },
            HyprlandEvent::RenameWorkspace { id, new_name } => EventView::RenameWorkspace {
                id: *id,
                new_name: new_name@,
            },
            HyprlandEvent::ActiveSpecial { workspace, monitor } => EventView::ActiveSpecial {
                workspace: workspace@,
                monitor: monitor@,
            },
            HyprlandEvent::ActiveLayout { keyboard, layout } => EventView::ActiveLayout {
                keyboard: keyboard@,
                layout: layout@,
            },
            HyprlandEvent::OpenWindow { address, workspace, class, title } => {
                EventView::OpenWindow {
                    address: *address,
                    workspace: workspace@,
                    class: class@,
                    title: title@,
                }
            },
            HyprlandEvent::CloseWindow { address } => EventView::CloseWindow { address: *address },
            HyprlandEvent::MoveWindow { address, workspace_id, workspace } => {
                EventView::MoveWindow {
                    address: *address,
                    workspace_id: *workspace_id,
                    workspace: workspace@,
                }
            },
            HyprlandEvent::OpenLayer { namespace } => EventView::OpenLayer {
                namespace: namespace@,
            },
            HyprlandEvent::CloseLayer { namespace } => EventView::CloseLayer {
                namespace: namespace@,
            },
            HyprlandEvent::SubMap { name } => EventView::SubMap { name: name@ },
            HyprlandEvent::ChangeFloatingMode { address, floating } => {
                EventView::ChangeFloatingMode {
                    address: *address,
                    floating: *floating,
                }
            },
            HyprlandEvent::Urgent { address } => EventView::Urgent { address: *address },
            HyprlandEvent::Screencast { state, owner } => EventView::Screencast {
                state: *state,
                owner: *owner,
            },
            HyprlandEvent::WindowTitle { address, title } => EventView::WindowTitle {
                address: *address,
                title: title@,
            },
            HyprlandEvent::ToggleGroup { created, handles } => EventView::ToggleGroup {
                created: *created,
                handles: handles@,
            },
            HyprlandEvent::MoveIntoGroup { address } => EventView::MoveIntoGroup {
                address: *address,
            },
            HyprlandEvent::MoveOutOfGroup { address } => EventView::MoveOutOfGroup {
                address: *address,
            },
            HyprlandEvent::IgnoreGroupLock { state } => EventView::IgnoreGroupLock {
                state: *state,
            },
            HyprlandEvent::LockGroups { state } => EventView::LockGroups { state: *state },
            HyprlandEvent::ConfigReloaded => EventView::ConfigReloaded,
            HyprlandEvent::Pin { address, pinned } => EventView::Pin {
                address: *address,
                pinned: *pinned,
            },
        }
    }
}

/// What decoding one record comes to.
#[derive(Clone, PartialEq, Eq, Debug)]
pub enum Outcome {
    /// The record announces this event.
    Emit(HyprlandEvent),
    /// The record has a tag of an earlier generation, whose successor
    /// announces the same: nothing is to be done with it.
    Skip,
    /// The record could not be decoded.
    Fail(DecodeError),
}

/// An outcome as a value of mathematics.
pub enum OutcomeView {
    Emit(EventView),
    Skip,
    Fail(DecodeError),
}

impl View for Outcome {
    type V = OutcomeView;

    open spec fn view(&self) -> OutcomeView {
        match self {
            Outcome::Emit(event) => OutcomeView::Emit(event@),
            Outcome::Skip => OutcomeView::Skip,
            Outcome::Fail(error) => OutcomeView::Fail(*error),
        }
    }
}

/// The tags of an earlier generation. Each has a successor that is decoded.
pub open spec fn is_legacy_tag(tag: Seq<char>) -> bool {
    ||| tag == "workspace"@
    ||| tag == "activewindow"@
    ||| tag == "monitoradded"@
    ||| tag == "createworkspace"@
    ||| tag == "destroyworkspace"@
    ||| tag == "moveworkspace"@
    ||| tag == "movewindow"@
    ||| tag == "windowtitle"@
}

/// The owner that the second field of a `screencast` record names.
pub open spec fn screencast_owner(window: bool) -> ScreencastOwner {
    if window {
        ScreencastOwner::Window
    } else {
        ScreencastOwner::Monitor
    }
}

/// The kinds of record, one for each tag that announces an event.
#[derive(Clone, Copy, Debug, PartialEq, Eq, Structural)]
pub enum EventTag {
    /// `workspacev2`
    WorkspaceChanged,
    /// `focusedmon`
    FocusedMonitor,
    /// `activewindowv2`
    ActiveWindow,
    /// `fullscreen`
    Fullscreen,
    /// `monitorremoved`
    MonitorRemoved,
    /// `monitoraddedv2`
    MonitorAdded,
    /// `createworkspacev2`
    CreateWorkspace,
    /// `destroyworkspacev2`
    DestroyWorkspace,
    /// `moveworkspacev2`
    MoveWorkspace,
    /// `renameworkspace`
    RenameWorkspace,
    /// `activespecial`
    ActiveSpecial,
    /// `activelayout`
    ActiveLayout,
    /// `openwindow`
    OpenWindow,
    /// `closewindow`
    CloseWindow,
    /// `movewindowv2`
    MoveWindow,
    /// `openlayer`
    OpenLayer,
    /// `closelayer`
    CloseLayer,
    /// `submap`
    SubMap,
    /// `changefloatingmode`
    ChangeFloatingMode,
    /// `urgent`
    Urgent,
    /// `screencast`
    Screencast,
    /// `windowtitlev2`
    WindowTitle,
    /// `togglegroup`
    ToggleGroup,
    /// `moveintogroup`
    MoveIntoGroup,
    /// `moveoutofgroup`
    MoveOutOfGroup,
    /// `ignoregrouplock`
    IgnoreGroupLock,
    /// `lockgroups`
    LockGroups,
    /// `configreloaded`
    ConfigReloaded,
    /// `pin`
    Pin,
    /// A tag of an earlier generation.
    Legacy,
    /// Any other tag.
    Unknown,
}

/// The kind of record that a tag stands for.
pub open spec fn tag_of(tag: Seq<char>) -> EventTag {
    if tag == "workspacev2"@ {
        EventTag::WorkspaceChanged
    } else if tag == "focusedmon"@ {
        EventTag::FocusedMonitor
    } else if tag == "activewindowv2"@ {
        EventTag::ActiveWindow
    } else if tag == "fullscreen"@ {
        EventTag::Fullscreen
    } else if tag == "monitorremoved"@ {
        EventTag::MonitorRemoved
    } else if tag == "monitoraddedv2"@ {
        EventTag::MonitorAdded
    } else if tag == "createworkspacev2"@ {
        EventTag::CreateWorkspace
    } else if tag == "destroyworkspacev2"@ {
        EventTag::DestroyWorkspace
    } else if tag == "moveworkspacev2"@ {
        EventTag::MoveWorkspace
    } else if tag == "renameworkspace"@ {
        EventTag::RenameWorkspace
    } else if tag == "activespecial"@ {
        EventTag::ActiveSpecial
    } else if tag == "activelayout"@ {
        EventTag::ActiveLayout
    } else if tag == "openwindow"@ {
        EventTag::OpenWindow
    } else if tag == "closewindow"@ {
        EventTag::CloseWindow
    } else if tag == "movewindowv2"@ {
        EventTag::MoveWindow
    } else if tag == "openlayer"@ {
        EventTag::OpenLayer
    } else if tag == "closelayer"@ {
        EventTag::CloseLayer
    } else if tag == "submap"@ {
        EventTag::SubMap
    } else if tag == "changefloatingmode"@ {
        EventTag::ChangeFloatingMode
    } else if tag == "urgent"@ {
        EventTag::Urgent
    } else if tag == "screencast"@ {
        EventTag::Screencast
    } else if tag == "windowtitlev2"@ {
        EventTag::WindowTitle
    } else if tag == "togglegroup"@ {
        EventTag::ToggleGroup
    } else if tag == "moveintogroup"@ {
        EventTag::MoveIntoGroup
    } else if tag == "moveoutofgroup"@ {
        EventTag::MoveOutOfGroup
    } else if tag == "ignoregrouplock"@ {
        EventTag::IgnoreGroupLock
    } else if tag == "lockgroups"@ {
        EventTag::LockGroups
    } else if tag == "configreloaded"@ {
        EventTag::ConfigReloaded
    } else if tag == "pin"@ {
        EventTag::Pin
    } else if is_legacy_tag(tag) {
        EventTag::Legacy
    } else {
        EventTag::Unknown
    }
}

/// What a record of the kind `tag` with the fields `f` comes to. The fields
/// are read in their order, and the first that cannot be read decides the
/// failure.
pub open spec fn decode_tagged(tag: EventTag, f: Seq<Seq<char>>) -> OutcomeView {
    match tag {
        EventTag::WorkspaceChanged => match (id_at(f, 0), text_at(f, 1)) {
            (Ok(id), Ok(name)) => OutcomeView::Emit(EventView::WorkspaceChanged { id, name }),
            (Err(e), _) | (_, Err(e)) => OutcomeView::Fail(e),
        },
        EventTag::FocusedMonitor => match (text_at(f, 0), text_at(f, 1)) {
            (Ok(name), Ok(workspace)) => OutcomeView::Emit(
                EventView::FocusedMonitor { name, workspace },
            ),
            (Err(e), _) | (_, Err(e)) => OutcomeView::Fail(e),
        },
        EventTag::ActiveWindow => match maybe_address_at(f, 0) {
            Ok(address) => OutcomeView::Emit(EventView::ActiveWindow { address }),
            Err(e) => OutcomeView::Fail(e),
        },
        EventTag::Fullscreen => match bool_at(f, 0) {
            Ok(enter) => OutcomeView::Emit(EventView::Fullscreen { enter }),
            Err(e) => OutcomeView::Fail(e),
        },
        EventTag::MonitorRemoved => match text_at(f, 0) {
            Ok(name) => OutcomeView::Emit(EventView::MonitorRemoved { name }),
            Err(e) => OutcomeView::Fail(e),
        },
        EventTag::MonitorAdded => match (id_at(f, 0), text_at(f, 1), text_at(f, 2)) {
            (Ok(id), Ok(name), Ok(description)) => OutcomeView::Emit(
                EventView::MonitorAdded { id, name, description },
            ),
            (Err(e), _, _) | (_, Err(e), _) | (_, _, Err(e)) => OutcomeView::Fail(e),
        },
        EventTag::CreateWorkspace => match (id_at(f, 0), text_at(f, 1)) {
            (Ok(id), Ok(name)) => OutcomeView::Emit(EventView::CreateWorkspace { id, name }),
            (Err(e), _) | (_, Err(e)) => OutcomeView::Fail(e),
        },
        EventTag::DestroyWorkspace => match (id_at(f, 0), text_at(f, 1)) {
            (Ok(id), Ok(name)) => OutcomeView::Emit(EventView::DestroyWorkspace { id, name }),
            (Err(e), _) | (_, Err(e)) => OutcomeView::Fail(e),
        },
        EventTag::MoveWorkspace => match (id_at(f, 0), text_at(f, 1), text_at(f, 2)) {
            (Ok(id), Ok(name), Ok(monitor)) => OutcomeView::Emit(
                EventView::MoveWorkspace { id, name, monitor },
            ),
            (Err(e), _, _) | (_, Err(e), _) | (_, _, Err(e)) => OutcomeView::Fail(e),
        },
        EventTag::RenameWorkspace => match (id_at(f, 0), text_at(f, 1)) {
            (Ok(id), Ok(new_name)) => OutcomeView::Emit(
                EventView::RenameWorkspace { id, new_name },
            ),
            (Err(e), _) | (_, Err(e)) => OutcomeView::Fail(e),
        },
        EventTag::ActiveSpecial => match (text_at(f, 0), text_at(f, 1)) {
            (Ok(workspace), Ok(monitor)) => OutcomeView::Emit(
                EventView::ActiveSpecial { workspace, monitor },
            ),
            (Err(e), _) | (_, Err(e)) => OutcomeView::Fail(e),
        },
        EventTag::ActiveLayout => match (text_at(f, 0), text_at(f, 1)) {
            (Ok(keyboard), Ok(layout)) => OutcomeView::Emit(
                EventView::ActiveLayout { keyboard, layout },
            ),
            (Err(e), _) | (_, Err(e)) => OutcomeView::Fail(e),
        },
        EventTag::OpenWindow => match (
            address_at(f, 0),
            text_at(f, 1),
            text_at(f, 2),
            text_at(f, 3),
        ) {
            (Ok(address), Ok(workspace), Ok(class), Ok(title)) => OutcomeView::Emit(
                EventView::OpenWindow { address, workspace, class, title },
            ),
            (Err(e), _, _, _) | (_, Err(e), _, _) | (_, _, Err(e), _) | (_, _, _, Err(e)) =>
                OutcomeView::Fail(e),
        },
        EventTag::CloseWindow => match address_at(f, 0) {
            Ok(address) => OutcomeView::Emit(EventView::CloseWindow { address }),
            Err(e) => OutcomeView::Fail(e),
        },
        EventTag::MoveWindow => match (address_at(f, 0), id_at(f, 1), text_at(f, 2)) {
            (Ok(address), Ok(workspace_id), Ok(workspace)) => OutcomeView::Emit(
                EventView::MoveWindow { address, workspace_id, workspace },
            ),
            (Err(e), _, _) | (_, Err(e), _) | (_, _, Err(e)) => OutcomeView::Fail(e),
        },
        EventTag::OpenLayer => match text_at(f, 0) {
            Ok(namespace) => OutcomeView::Emit(EventView::OpenLayer { namespace }),
            Err(e) => OutcomeView::Fail(e),
        },
        EventTag::CloseLayer => match text_at(f, 0) {
            Ok(namespace) => OutcomeView::Emit(EventView::CloseLayer { namespace }),
            Err(e) => OutcomeView::Fail(e),
        },
        EventTag::SubMap => match text_at(f, 0) {
            Ok(name) => OutcomeView::Emit(EventView::SubMap { name }),
            Err(e) => OutcomeView::Fail(e),
        },
        EventTag::ChangeFloatingMode => match (address_at(f, 0), bool_at(f, 1)) {
            (Ok(address), Ok(floating)) => OutcomeView::Emit(
                EventView::ChangeFloatingMode { address, floating },
            ),
            (Err(e), _) | (_, Err(e)) => OutcomeView::Fail(e),
        },
        EventTag::Urgent => match address_at(f, 0) {
            Ok(address) => OutcomeView::Emit(EventView::Urgent { address }),
            Err(e) => OutcomeView::Fail(e),
        },
        EventTag::Screencast => match (bool_at(f, 0), bool_at(f, 1)) {
            (Ok(state), Ok(window)) => OutcomeView::Emit(
                EventView::Screencast { state, owner: screencast_owner(window) },
            ),
            (Err(e), _) | (_, Err(e)) => OutcomeView::Fail(e),
        },
        EventTag::WindowTitle => match (address_at(f, 0), text_at(f, 1)) {
            (Ok(address), Ok(title)) => OutcomeView::Emit(
                EventView::WindowTitle { address, title },
            ),
            (Err(e), _) | (_, Err(e)) => OutcomeView::Fail(e),
        },
        EventTag::ToggleGroup => match (bool_at(f, 0), addresses_from(f, 1)) {
            (Ok(created), Ok(handles)) => OutcomeView::Emit(
                EventView::ToggleGroup { created, handles },
            ),
            (Err(e), _) | (_, Err(e)) => OutcomeView::Fail(e),
        },
        EventTag::MoveIntoGroup => match address_at(f, 0) {
            Ok(address) => OutcomeView::Emit(EventView::MoveIntoGroup { address }),
            Err(e) => OutcomeView::Fail(e),
        },
        EventTag::MoveOutOfGroup => match address_at(f, 0) {
            Ok(address) => OutcomeView::Emit(EventView::MoveOutOfGroup { address }),
            Err(e) => OutcomeView::Fail(e),
        },
        EventTag::IgnoreGroupLock => match bool_at(f, 0) {
            Ok(state) => OutcomeView::Emit(EventView::IgnoreGroupLock { state }),
            Err(e) => OutcomeView::Fail(e),
        },
        EventTag::LockGroups => match bool_at(f, 0) {
            Ok(state) => OutcomeView::Emit(EventView::LockGroups { state }),
            Err(e) => OutcomeView::Fail(e),
        },
        EventTag::ConfigReloaded => OutcomeView::Emit(EventView::ConfigReloaded),
        EventTag::Pin => match (address_at(f, 0), bool_at(f, 1)) {
            (Ok(address), Ok(pinned)) => OutcomeView::Emit(EventView::Pin { address, pinned }),
            (Err(e), _) | (_, Err(e)) => OutcomeView::Fail(e),
        },
        EventTag::Legacy => OutcomeView::Skip,
        EventTag::Unknown => OutcomeView::Fail(DecodeError::UnknownTag),
    }
}

/// What a record with the tag `tag` and the fields `f` comes to.
pub open spec fn decode_event(tag: Seq<char>, f: Seq<Seq<char>>) -> OutcomeView {
    decode_tagged(tag_of(tag), f)
}

/// A record with a tag of an earlier generation comes to nothing, whatever
/// its fields hold.
pub proof fn lemma_legacy_records_are_skipped(tag: Seq<char>, f: Seq<Seq<char>>)
    requires
        is_legacy_tag(tag),
    ensures
        decode_event(tag, f) == OutcomeView::Skip,
{
    reveal_strlit("workspacev2");
    reveal_strlit("focusedmon");
    reveal_strlit("activewindowv2");
    reveal_strlit("fullscreen");
    reveal_strlit("monitorremoved");
    reveal_strlit("monitoraddedv2");
    reveal_strlit("createworkspacev2");
    reveal_strlit("destroyworkspacev2");
    reveal_strlit("moveworkspacev2");
    reveal_strlit("renameworkspace");
    reveal_strlit("activespecial");
    reveal_strlit("activelayout");
    reveal_strlit("openwindow");
    reveal_strlit("closewindow");
    reveal_strlit("movewindowv2");
    reveal_strlit("openlayer");
    reveal_strlit("closelayer");
    reveal_strlit("submap");
    reveal_strlit("changefloatingmode");
    reveal_strlit("urgent");
    reveal_strlit("screencast");
    reveal_strlit("windowtitlev2");
    reveal_strlit("togglegroup");
    reveal_strlit("moveintogroup");
    reveal_strlit("moveoutofgroup");
    reveal_strlit("ignoregrouplock");
    reveal_strlit("lockgroups");
    reveal_strlit("configreloaded");
    reveal_strlit("pin");
    reveal_strlit("workspace");
    reveal_strlit("activewindow");
    reveal_strlit("monitoradded");
    reveal_strlit("createworkspace");
    reveal_strlit("destroyworkspace");
    reveal_strlit("moveworkspace");
    reveal_strlit("movewindow");
    reveal_strlit("windowtitle");
    // A tag of the earlier generation differs from every tag of its length
    // that is decoded, at the place given here.
    if tag == "workspace"@ {
        assert(tag.len() == 9);
        assert(tag[0] != "openlayer"@[0]);
    } else if tag == "activewindow"@ {
        assert(tag.len() == 12);
        assert(tag[6] != "activelayout"@[6]);
        assert(tag[0] != "movewindowv2"@[0]);
    } else if tag == "monitoradded"@ {
        assert(tag.len() == 12);
        assert(tag[0] != "activelayout"@[0]);
        assert(tag[2] != "movewindowv2"@[2]);
    } else if tag == "createworkspace"@ {
        assert(tag.len() == 15);
        assert(tag[0] != "moveworkspacev2"@[0]);
        assert(tag[0] != "renameworkspace"@[0]);
        assert(tag[0] != "ignoregrouplock"@[0]);
    } else if tag == "destroyworkspace"@ {
        assert(tag.len() == 16);
    } else if tag == "moveworkspace"@ {
        assert(tag.len() == 13);
        assert(tag[0] != "activespecial"@[0]);
        assert(tag[0] != "windowtitlev2"@[0]);
        assert(tag[4] != "moveintogroup"@[4]);
    } else if tag == "movewindow"@ {
        assert(tag.len() == 10);
        assert(tag[0] != "focusedmon"@[0]);
        assert(tag[0] != "fullscreen"@[0]);
        assert(tag[0] != "openwindow"@[0]);
        assert(tag[0] != "closelayer"@[0]);
        assert(tag[0] != "screencast"@[0]);
        assert(tag[0] != "lockgroups"@[0]);
    } else if tag == "windowtitle"@ {
        assert(tag.len() == 11);
        assert(tag[1] != "workspacev2"@[1]);
        assert(tag[0] != "closewindow"@[0]);
        assert(tag[0] != "togglegroup"@[0]);
    }
}

/// The addresses from the second field on are the addresses of the fields
/// that are left when the first has been taken.
proof fn lemma_addresses_after_first(fields: Seq<Seq<char>>)
    requires
        fields.len() > 0,
    ensures
        addresses_from(fields.skip(1), 0) == addresses_from(fields, 1),
{
    let tail = fields.skip(1);
    if forall|j: int| 1 <= j < fields.len() ==> decimal_u64(#[trigger] fields[j]) is Some {
        assert(addresses_from(tail, 0)->Ok_0 =~= addresses_from(fields, 1)->Ok_0);
    } else {
        let j = choose|j: int|
            1 <= j < fields.len() && !(decimal_u64(#[trigger] fields[j]) is Some);
        assert(tail[j - 1] == fields[j]);
    }
}

/// `chars[from..to]` spells `text`.
fn same_text(chars: &Vec<char>, from: usize, to: usize, text: &str) -> (r: bool)
    requires
        from <= to <= chars.len(),
    ensures
        r == (chars@.subrange(from as int, to as int) == text@),
{
    broadcast use vstd::string::group_string_axioms;

    let ghost word = chars@.subrange(from as int, to as int);
    let mut i: usize = from;
    for c in it: text.chars()
        invariant
            it.seq() == text@,
            from <= i <= to <= chars.len(),
            i - from == it.index(),
            word == chars@.subrange(from as int, to as int),
            word.take(i - from) == text@.take(i - from),
    {
        if i >= to || chars[i] != c {
            return false;
        }
        i = i + 1;
    }
    assert(text@.take(i - from) =~= text@);
    if i == to {
        assert(word.take(i - from) =~= word);
        true
    } else {
        false
    }
}

/// A decoded record as an outcome: an event, nothing, or a failure.
pub open spec fn outcome_of(r: Result<Option<HyprlandEvent>, DecodeError>) -> OutcomeView {
    match r {
        Ok(Some(event)) => OutcomeView::Emit(event@),
        Ok(None) => OutcomeView::Skip,
        Err(e) => OutcomeView::Fail(e),
    }
}

/// Tells the kind of record from its tag.
fn classify(chars: &Vec<char>, from: usize, to: usize) -> (r: EventTag)
    requires
        from <= to <= chars.len(),
    ensures
        r == tag_of(chars@.subrange(from as int, to as int)),
{
    if same_text(chars, from, to, "workspacev2") {
        EventTag::WorkspaceChanged
    } else if same_text(chars, from, to, "focusedmon") {
        EventTag::FocusedMonitor
    } else if same_text(chars, from, to, "activewindowv2") {
        EventTag::ActiveWindow
    } else if same_text(chars, from, to, "fullscreen") {
        EventTag::Fullscreen
    } else if same_text(chars, from, to, "monitorremoved") {
        EventTag::MonitorRemoved
    } else if same_text(chars, from, to, "monitoraddedv2") {
        EventTag::MonitorAdded
    } else if same_text(chars, from, to, "createworkspacev2") {
        EventTag::CreateWorkspace
    } else if same_text(chars, from, to, "destroyworkspacev2") {
        EventTag::DestroyWorkspace
    } else if same_text(chars, from, to, "moveworkspacev2") {
        EventTag::MoveWorkspace
    } else if same_text(chars, from, to, "renameworkspace") {
        EventTag::RenameWorkspace
    } else if same_text(chars, from, to, "activespecial") {
        EventTag::ActiveSpecial
    } else if same_text(chars, from, to, "activelayout") {
        EventTag::ActiveLayout
    } else if same_text(chars, from, to, "openwindow") {
        EventTag::OpenWindow
    } else if same_text(chars, from, to, "closewindow") {
        EventTag::CloseWindow
    } else if same_text(chars, from, to, "movewindowv2") {
        EventTag::MoveWindow
    } else if same_text(chars, from, to, "openlayer") {
        EventTag::OpenLayer
    } else if same_text(chars, from, to, "closelayer") {
        EventTag::CloseLayer
    } else if same_text(chars, from, to, "submap") {
        EventTag::SubMap
    } else if same_text(chars, from, to, "changefloatingmode") {
        EventTag::ChangeFloatingMode
    } else if same_text(chars, from, to, "urgent") {
        EventTag::Urgent
    } else if same_text(chars, from, to, "screencast") {
        EventTag::Screencast
    } else if same_text(chars, from, to, "windowtitlev2") {
        EventTag::WindowTitle
    } else if same_text(chars, from, to, "togglegroup") {
        EventTag::ToggleGroup
    } else if same_text(chars, from, to, "moveintogroup") {
        EventTag::MoveIntoGroup
    } else if same_text(chars, from, to, "moveoutofgroup") {
        EventTag::MoveOutOfGroup
    } else if same_text(chars, from, to, "ignoregrouplock") {
        EventTag::IgnoreGroupLock
    } else if same_text(chars, from, to, "lockgroups") {
        EventTag::LockGroups
    } else if same_text(chars, from, to, "configreloaded") {
        EventTag::ConfigReloaded
    } else if same_text(chars, from, to, "pin") {
        EventTag::Pin
    } else if same_text(chars, from, to, "workspace")
        || same_text(chars, from, to, "activewindow")
        || same_text(chars, from, to, "monitoradded")
        || same_text(chars, from, to, "createworkspace")
        || same_text(chars, from, to, "destroyworkspace")
        || same_text(chars, from, to, "moveworkspace")
        || same_text(chars, from, to, "movewindow")
        || same_text(chars, from, to, "windowtitle") {
        EventTag::Legacy
    } else {
        EventTag::Unknown
    }
}

/// Decodes the fields of a record of the kind `tag`.
fn decode_fields(tag: EventTag, data: DataParser) -> (r: Result<Option<HyprlandEvent>, DecodeError>)
    ensures
        outcome_of(r) == decode_tagged(tag, data@),
{
    let mut data = data;
    match tag {
        EventTag::WorkspaceChanged => {
            let id = data.next_workspace_id()?;
            let name = data.next_string()?;
            Ok(Some(HyprlandEvent::WorkspaceChanged { id, name }))
        },
        EventTag::FocusedMonitor => {
            let name = data.next_string()?;
            let workspace = data.next_string()?;
            Ok(Some(HyprlandEvent::FocusedMonitor { name, workspace }))
        },
        EventTag::ActiveWindow => {
            let address = data.next_maybe_window_address()?;
            Ok(Some(HyprlandEvent::ActiveWindow { address }))
        },
        EventTag::Fullscreen => {
            let enter = data.next_bool()?;
            Ok(Some(HyprlandEvent::Fullscreen { enter }))
        },
        EventTag::MonitorRemoved => {
            let name = data.next_string()?;
            Ok(Some(HyprlandEvent::MonitorRemoved { name }))
        },
        EventTag::MonitorAdded => {
            let id = data.next_workspace_id()?;
            let name = data.next_string()?;
            let description = data.next_string()?;
            Ok(Some(HyprlandEvent::MonitorAdded { id, name, description }))
        },
        EventTag::CreateWorkspace => {
            let id = data.next_workspace_id()?;
            let name = data.next_string()?;
            Ok(Some(HyprlandEvent::CreateWorkspace { id, name }))
        },
        EventTag::DestroyWorkspace => {
            let id = data.next_workspace_id()?;
            let name = data.next_string()?;
            Ok(Some(HyprlandEvent::DestroyWorkspace { id, name }))
        },
        EventTag::MoveWorkspace => {
            let id = data.next_workspace_id()?;
            let name = data.next_string()?;
            let monitor = data.next_string()?;
            Ok(Some(HyprlandEvent::MoveWorkspace { id, name, monitor }))
        },
        EventTag::RenameWorkspace => {
            let id = data.next_workspace_id()?;
            let new_name = data.next_string()?;
            Ok(Some(HyprlandEvent::RenameWorkspace { id, new_name }))
        },
        EventTag::ActiveSpecial => {
            let workspace = data.next_string()?;
            let monitor = data.next_string()?;
            Ok(Some(HyprlandEvent::ActiveSpecial { workspace, monitor }))
        },
        EventTag::ActiveLayout => {
            let keyboard = data.next_string()?;
            let layout = data.next_string()?;
            Ok(Some(HyprlandEvent::ActiveLayout { keyboard, layout }))
        },
        EventTag::OpenWindow => {
            let address = data.next_window_address()?;
            let workspace = data.next_string()?;
            let class = data.next_string()?;
            let title = data.next_string()?;
            Ok(Some(HyprlandEvent::OpenWindow { address, workspace, class, title }))
        },
        EventTag::CloseWindow => {
            let address = data.next_window_address()?;
            Ok(Some(HyprlandEvent::CloseWindow { address }))
        },
        EventTag::MoveWindow => {
            let address = data.next_window_address()?;
            let workspace_id = data.next_workspace_id()?;
            let workspace = data.next_string()?;
            Ok(Some(HyprlandEvent::MoveWindow { address, workspace_id, workspace }))
        },
        EventTag::OpenLayer => {
            let namespace = data.next_string()?;
            Ok(Some(HyprlandEvent::OpenLayer { namespace }))
        },
        EventTag::CloseLayer => {
            let namespace = data.next_string()?;
            Ok(Some(HyprlandEvent::CloseLayer { namespace }))
        },
        EventTag::SubMap => {
            let name = data.next_string()?;
            Ok(Some(HyprlandEvent::SubMap { name }))
        },
        EventTag::ChangeFloatingMode => {
            let address = data.next_window_address()?;
            let floating = data.next_bool()?;
            Ok(Some(HyprlandEvent::ChangeFloatingMode { address, floating }))
        },
        EventTag::Urgent => {
            let address = data.next_window_address()?;
            Ok(Some(HyprlandEvent::Urgent { address }))
        },
        EventTag::Screencast => {
            let state = data.next_bool()?;
            let owner = if data.next_bool()? {
                ScreencastOwner::Window
            } else {
                ScreencastOwner::Monitor
            };
            Ok(Some(HyprlandEvent::Screencast { state, owner }))
        },
        EventTag::WindowTitle => {
            let address = data.next_window_address()?;
            let title = data.next_string()?;
            Ok(Some(HyprlandEvent::WindowTitle { address, title }))
        },
        EventTag::ToggleGroup => {
            let ghost fields = data@;
            let created = data.next_bool()?;
            proof {
                lemma_addresses_after_first(fields);
            }
            let handles = data.vec_window_ids()?;
            Ok(Some(HyprlandEvent::ToggleGroup { created, handles }))
        },
        EventTag::MoveIntoGroup => {
            let address = data.next_window_address()?;
            Ok(Some(HyprlandEvent::MoveIntoGroup { address }))
        },
        EventTag::MoveOutOfGroup => {
            let address = data.next_window_address()?;
            Ok(Some(HyprlandEvent::MoveOutOfGroup { address }))
        },
        EventTag::IgnoreGroupLock => {
            let state = data.next_bool()?;
            Ok(Some(HyprlandEvent::IgnoreGroupLock { state }))
        },
        EventTag::LockGroups => {
            let state = data.next_bool()?;
            Ok(Some(HyprlandEvent::LockGroups { state }))
        },
        EventTag::ConfigReloaded => Ok(Some(HyprlandEvent::ConfigReloaded)),
        EventTag::Pin => {
            let address = data.next_window_address()?;
            let pinned = data.next_bool()?;
            Ok(Some(HyprlandEvent::Pin { address, pinned }))
        },
        EventTag::Legacy => Ok(None),
        EventTag::Unknown => Err(DecodeError::UnknownTag),
    }
}

/// The outcome that a decoded record stands for.
fn finish(r: Result<Option<HyprlandEvent>, DecodeError>) -> (outcome: Outcome)
    ensures
        outcome@ == outcome_of(r),
{
    match r {
        Ok(Some(event)) => Outcome::Emit(event),
        Ok(None) => Outcome::Skip,
        Err(e) => Outcome::Fail(e),
    }
}

/// Decodes a record from its tag and its fields.
pub fn decode(tag: &str, data: DataParser) -> (outcome: Outcome)
    ensures
        outcome@ == decode_event(tag@, data@),
{
    let chars = to_chars(tag);
    assert(chars@.subrange(0, chars.len() as int) =~= chars@);
    let kind = classify(&chars, 0, chars.len());
    finish(decode_fields(kind, data))
}

/// A `>>` begins at place `i` of `s`.
pub open spec fn separator_at(s: Seq<char>, i: int) -> bool {
    0 <= i && i + 1 < s.len() && s[i] == '>' && s[i + 1] == '>'
}

/// Where the first `>>` of `s` begins, or the length of `s` if it has none.
pub open spec fn first_separator(s: Seq<char>) -> int
    decreases s.len(),
{
    if s.len() < 2 {
        s.len() as int
    } else if separator_at(s, 0) {
        0
    } else {
        1 + first_separator(s.skip(1))
    }
}

/// `first_separator` is the place before which no `>>` begins and at which
/// one does, unless it is the end.
pub proof fn lemma_first_separator(s: Seq<char>, i: int)
    requires
        0 <= i <= s.len(),
        forall|k: int| 0 <= k < i ==> !separator_at(s, k),
        i < s.len() ==> separator_at(s, i),
    ensures
        first_separator(s) == i,
    decreases s.len(),
{
    if s.len() >= 2 && i > 0 {
        let rest = s.skip(1);
        assert forall|k: int| 0 <= k < i - 1 implies !separator_at(rest, k) by {
            assert(!separator_at(s, k + 1));
        }
        lemma_first_separator(rest, i - 1);
    }
}

/// What a line comes to: its tag stands before the first `>>`, its fields
/// after it, and a line without `>>` is no record.
pub open spec fn line_outcome(line: Seq<char>) -> OutcomeView {
    let i = first_separator(line);
    if 0 <= i < line.len() {
        decode_event(line.take(i), split_fields(line.skip(i + 2)))
    } else {
        OutcomeView::Fail(DecodeError::InvalidFormat)
    }
}

/// What a record comes to as it was read from the socket, its end of line
/// included: the last character is dropped, and the rest is the line.
pub open spec fn record_outcome(record: Seq<char>) -> OutcomeView {
    if record.len() > 0 {
        line_outcome(record.drop_last())
    } else {
        line_outcome(record)
    }
}

/// Decodes the line that `chars` holds.
fn decode_chars(chars: Vec<char>) -> (outcome: Outcome)
    ensures
        outcome@ == line_outcome(chars@),
{
    let len = chars.len();
    let mut i: usize = 0;
    while i < len && !(i + 1 < len && chars[i] == '>' && chars[i + 1] == '>')
        invariant
            i <= len,
            len == chars.len(),
            forall|k: int| 0 <= k < i ==> !separator_at(chars@, k),
        decreases len - i,
    {
        i = i + 1;
    }
    proof {
        lemma_first_separator(chars@, i as int);
    }
    if i >= len {
        return Outcome::Fail(DecodeError::InvalidFormat);
    }
    let kind = classify(&chars, 0, i);
    let data = DataParser::from_chars(chars, i + 2);
    finish(decode_fields(kind, data))
}

/// Decodes one line of the event channel, without its end of line.
pub fn decode_line(line: &str) -> (outcome: Outcome)
    ensures
        outcome@ == line_outcome(line@),
{
    decode_chars(to_chars(line))
}

/// Decodes one record as it was read from the socket, its end of line
/// included.
pub fn decode_record(record: &str) -> (outcome: Outcome)
    ensures
        outcome@ == record_outcome(record@),
{
    let mut chars = to_chars(record);
    chars.pop();
    decode_chars(chars)
}

/// Where a stream of events stands.
#[derive(Clone, Copy, Debug, PartialEq, Eq, Structural)]
pub enum StreamState {
    /// The socket is still to be opened.
    Connecting,
    /// The socket is open and records are read from it.
    Streaming,
    /// Nothing more comes from this stream.
    Terminated,
}

/// What the socket did since the stream was last advanced.
#[derive(Clone, Debug, PartialEq, Eq)]
pub enum StreamInput {
    /// The socket was opened.
    Connected,
    /// The socket could not be looked for: the environment does not name
    /// the compositor's instance.
    NotConfigured,
    /// The socket could not be opened, for this reason.
    ConnectFailed(String),
    /// A record was read, up to its end of line and with it.
    Record(String),
    /// Reading a record failed, for this reason.
    ReadFailed(String),
    /// The consumer no longer listens.
    Cancelled,
}

/// An input as a value of mathematics.
pub enum StreamInputView {
    Connected,
    NotConfigured,
    ConnectFailed(Seq<char>),
    Record(Seq<char>),
    ReadFailed(Seq<char>),
    Cancelled,
}

impl View for StreamInput {
    type V = StreamInputView;

    open spec fn view(&self) -> StreamInputView {
        match self {
            StreamInput::Connected => StreamInputView::Connected,
            StreamInput::NotConfigured => StreamInputView::NotConfigured,
            StreamInput::ConnectFailed(reason) => StreamInputView::ConnectFailed(reason@),
            StreamInput::Record(record) => StreamInputView::Record(record@),
            StreamInput::ReadFailed(reason) => StreamInputView::ReadFailed(reason@),
            StreamInput::Cancelled => StreamInputView::Cancelled,
        }
    }
}

/// What a stream hands to its consumer when it is advanced.
pub enum Produced {
    /// Nothing.
    Nothing,
    /// An event.
    Event(EventView),
    /// A failure.
    Failure(ErrorView),
}

/// What an item of the stream is, as a value of mathematics.
pub open spec fn produced_of(item: Option<Result<HyprlandEvent, Error>>) -> Produced {
    match item {
        None => Produced::Nothing,
        Some(Ok(event)) => Produced::Event(event@),
        Some(Err(error)) => Produced::Failure(error@),
    }
}

/// The state that follows `state` on `input`.
///
/// A stream that connects goes on to read; one that cannot connect is over.
/// While it reads, nothing but the consumer ends it: neither a record that
/// cannot be decoded nor a read that fails. What does not fit the state is
/// passed over.
pub open spec fn next_state(state: StreamState, input: StreamInputView) -> StreamState {
    match (state, input) {
        (StreamState::Terminated, _) => StreamState::Terminated,
        (_, StreamInputView::Cancelled) => StreamState::Terminated,
        (StreamState::Connecting, StreamInputView::Connected) => StreamState::Streaming,
        (StreamState::Connecting, StreamInputView::NotConfigured) => StreamState::Terminated,
        (StreamState::Connecting, StreamInputView::ConnectFailed(_)) => StreamState::Terminated,
        (state, _) => state,
    }
}

/// What a stream in `state` hands to its consumer on `input`.
///
/// A connection that fails gives one failure. A record gives its event, or
/// its failure, or nothing where its tag is of an earlier generation. A
/// read that fails gives its failure.
pub open spec fn produced(state: StreamState, input: StreamInputView) -> Produced {
    match (state, input) {
        (StreamState::Connecting, StreamInputView::NotConfigured) => Produced::Failure(
            ErrorView::Configuration,
        ),
        (StreamState::Connecting, StreamInputView::ConnectFailed(reason)) => Produced::Failure(
            ErrorView::Connection(reason),
        ),
        (StreamState::Streaming, StreamInputView::Record(record)) => match record_outcome(record) {
            OutcomeView::Emit(event) => Produced::Event(event),
            OutcomeView::Skip => Produced::Nothing,
            OutcomeView::Fail(error) => Produced::Failure(ErrorView::Decode(error@)),
        },
        (StreamState::Streaming, StreamInputView::ReadFailed(reason)) => Produced::Failure(
            ErrorView::Io(reason),
        ),
        _ => Produced::Nothing,
    }
}

/// The decisions of a stream of events. Whoever owns the socket opens it,
/// reads from it, and tells the stream what came of it; the stream says what
/// the consumer gets.
pub struct EventStream {
    state: StreamState,
}

impl EventStream {
    /// Where the stream stands.
    pub closed spec fn spec_state(&self) -> StreamState {
        self.state
    }

    /// A stream whose socket is still to be opened.
    pub fn new() -> (stream: EventStream)
        ensures
            stream.spec_state() == StreamState::Connecting,
    {
        EventStream { state: StreamState::Connecting }
    }

    /// Where the stream stands: whether to open the socket, to read from it,
    /// or to stop.
    #[verifier::when_used_as_spec(spec_state)]
    pub fn state(&self) -> (state: StreamState)
        ensures
            state == self.spec_state(),
    {
        self.state
    }

    /// Takes in what the socket did, and gives what the consumer gets of it.
    pub fn advance(&mut self, input: StreamInput) -> (item: Option<Result<HyprlandEvent, Error>>)
        ensures
            final(self).state() == next_state(old(self).state(), input@),
            produced_of(item) == produced(old(self).state(), input@),
    {
        match self.state {
            StreamState::Terminated => None,
            StreamState::Connecting => match input {
                StreamInput::Connected => {
                    self.state = StreamState::Streaming;
                    None
                },
                StreamInput::NotConfigured => {
                    self.state = StreamState::Terminated;
                    Some(Err(Error::Configuration))
                },
                StreamInput::ConnectFailed(reason) => {
                    self.state = StreamState::Terminated;
                    Some(Err(Error::Connection(reason)))
                },
                StreamInput::Cancelled => {
                    self.state = StreamState::Terminated;
                    None
                },
                _ => None,
            },
            StreamState::Streaming => match input {
                StreamInput::Record(record) => match decode_record(record.as_str()) {
                    Outcome::Emit(event) => Some(Ok(event)),
                    Outcome::Skip => None,
                    Outcome::Fail(error) => Some(Err(Error::Decode(error))),
                },
                StreamInput::ReadFailed(reason) => Some(Err(Error::Io(reason))),
                StreamInput::Cancelled => {
                    self.state = StreamState::Terminated;
                    None
                },
                _ => None,
            },
        }
    }
}

/// A stream ends on the consumer's word or where its connection fails, and
/// on nothing else.
pub proof fn lemma_stream_ends_only_on_purpose(state: StreamState, input: StreamInputView)
    requires
        next_state(state, input) == StreamState::Terminated,
    ensures
        state == StreamState::Terminated || input is Cancelled || (state == StreamState::Connecting
            && (input is ConnectFailed || input is NotConfigured)),
{
}

/// A stream that is over stays so, and gives nothing more.
pub proof fn lemma_terminated_stream_is_silent(input: StreamInputView)
    ensures
        next_state(StreamState::Terminated, input) == StreamState::Terminated,
        produced(StreamState::Terminated, input) is Nothing,
{
}

/// A stream that reads hands on every record's event or failure, and stays
/// reading whatever the record holds.
pub proof fn lemma_stream_survives_records(record: Seq<char>)
    ensures
        next_state(StreamState::Streaming, StreamInputView::Record(record))
            == StreamState::Streaming,
        produced(StreamState::Streaming, StreamInputView::Record(record)) is Nothing
            <==> record_outcome(record) is Skip,
{
}

} // verus!
