//! Requests to the compositor's dispatchers, and how they are written.

use vstd::prelude::*;
use vstd::string::StringExecFns;

use crate::text::{
    decimal, decimal_digits, decimal_i32, lemma_decimal_round_trip, push_decimal,
    push_decimal_digits, push_signed_decimal, signed_decimal,
};
use crate::WorkspaceId;

verus! {

/// An action asked of the compositor.
pub enum Dispatcher {
    /// Switch to the workspace that the selector names.
    ChangeWorkspace(WorkspaceSpec),
}

/// A selector of a workspace: the ways to name the one to switch to.
pub enum WorkspaceSpec {
    /// The workspace with this id.
    Id(WorkspaceId),
    /// So many workspaces further, or back.
    RelativeId(i32),
    /// So many workspaces further on the monitor, or back.
    MonitorRelativeId(i32),
    /// The workspace at this place on the monitor.
    MonitorAbsoluteId(u32),
    /// So many workspaces further on the monitor, empty ones counted.
    MonitorIncludingEmptyRelativeId(i32),
    /// The workspace at this place on the monitor, empty ones counted.
    MonitorIncludingEmptyAbsoluteId(u32),
    /// So many open workspaces further, or back.
    OpenRelativeId(i32),
    /// The open workspace at this place.
    OpenAbsoluteId(u32),
    /// The workspace of this name.
    Name(String),
    /// The workspace that was shown before.
    Previous,
    /// The workspace that was shown before on the monitor.
    PreviousPerMonitor,
    /// The first empty workspace: `next` for the one after the current,
    /// `monitor` for one on the monitor.
    Empty { next: bool, monitor: bool },
    /// The special workspace, or the special workspace of this name.
    Special(Option<String>),
}

impl WorkspaceSpec {
    /// The text that selects this workspace in a command.
    pub open spec fn encoding(&self) -> Seq<char> {
        match self {
            WorkspaceSpec::Id(id) => decimal(id.0 as int),
            WorkspaceSpec::RelativeId(n) => signed_decimal(*n as int),
            WorkspaceSpec::MonitorRelativeId(n) => "m"@ + signed_decimal(*n as int),
            WorkspaceSpec::MonitorAbsoluteId(n) => "m~"@ + decimal_digits(*n as nat),
            WorkspaceSpec::MonitorIncludingEmptyRelativeId(n) => "r"@ + signed_decimal(*n as int),
            WorkspaceSpec::MonitorIncludingEmptyAbsoluteId(n) => "r~"@ + decimal_digits(*n as nat),
            WorkspaceSpec::OpenRelativeId(n) => "e"@ + signed_decimal(*n as int),
            WorkspaceSpec::OpenAbsoluteId(n) => "e~"@ + decimal_digits(*n as nat),
            WorkspaceSpec::Name(name) => "name:"@ + name@,
            WorkspaceSpec::Previous => "previous"@,
            WorkspaceSpec::PreviousPerMonitor => "previous_per_monitor"@,
            WorkspaceSpec::Empty { next, monitor } => "empty"@ + (if *monitor {
                "m"@
            } else {
                Seq::<char>::empty()
            }) + (if *next {
                "n"@
            } else {
                Seq::<char>::empty()
            }),
            WorkspaceSpec::Special(None) => "special"@,
            WorkspaceSpec::Special(Some(name)) => "special:"@ + name@,
        }
    }

    /// Writes the selector as the compositor reads it.
    pub fn to_string(&self) -> (s: String)
        ensures
            s@ == self.encoding(),
    {
        match self {
            WorkspaceSpec::Id(id) => {
                let mut out = String::new();
                push_decimal(&mut out, id.0 as i64);
                out
            },
            WorkspaceSpec::RelativeId(n) => {
                let mut out = String::new();
                push_signed_decimal(&mut out, *n as i64);
                out
            },
            WorkspaceSpec::MonitorRelativeId(n) => {
                let mut out = String::from_str("m");
                push_signed_decimal(&mut out, *n as i64);
                out
            },
            WorkspaceSpec::MonitorAbsoluteId(n) => {
                let mut out = String::from_str("m~");
                push_decimal_digits(&mut out, *n as u64);
                out
            },
            WorkspaceSpec::MonitorIncludingEmptyRelativeId(n) => {
                let mut out = String::from_str("r");
                push_signed_decimal(&mut out, *n as i64);
                out
            },
            WorkspaceSpec::MonitorIncludingEmptyAbsoluteId(n) => {
                let mut out = String::from_str("r~");
                push_decimal_digits(&mut out, *n as u64);
                out
            },
            WorkspaceSpec::OpenRelativeId(n) => {
                let mut out = String::from_str("e");
                push_signed_decimal(&mut out, *n as i64);
                out
            },
            WorkspaceSpec::OpenAbsoluteId(n) => {
                let mut out = String::from_str("e~");
                push_decimal_digits(&mut out, *n as u64);
                out
            },
            WorkspaceSpec::Name(name) => {
                let mut out = String::from_str("name:");
                out.append(name.as_str());
                out
            },
            WorkspaceSpec::Previous => String::from_str("previous"),
            WorkspaceSpec::PreviousPerMonitor => String::from_str("previous_per_monitor"),
            WorkspaceSpec::Empty { next, monitor } => {
                let mut out = String::from_str("empty");
                if *monitor {
                    out.append("m");
                }
                if *next {
                    out.append("n");
                }
                out
            },
            WorkspaceSpec::Special(None) => String::from_str("special"),
            WorkspaceSpec::Special(Some(name)) => {
                let mut out = String::from_str("special:");
                out.append(name.as_str());
                out
            },
        }
    }
}

impl From<WorkspaceId> for WorkspaceSpec {
    fn from(id: WorkspaceId) -> (spec: Self) {
        WorkspaceSpec::Id(id)
    }
}

impl vstd::std_specs::convert::FromSpecImpl<WorkspaceId> for WorkspaceSpec {
    open spec fn obeys_from_spec() -> bool {
        true
    }

    open spec fn from_spec(id: WorkspaceId) -> Self {
        WorkspaceSpec::Id(id)
    }
}

impl Dispatcher {
    /// The text of this request in a command.
    pub open spec fn encoding(&self) -> Seq<char> {
        match self {
            Dispatcher::ChangeWorkspace(spec) => "workspace "@ + spec.encoding(),
        }
    }

    /// Writes the request as the compositor reads it.
    pub fn to_string(&self) -> (s: String)
        ensures
            s@ == self.encoding(),
    {
        match self {
            Dispatcher::ChangeWorkspace(spec) => {
                let mut out = String::from_str("workspace ");
                let text = spec.to_string();
                out.append(text.as_str());
                out
            },
        }
    }
}

/// A workspace id that is written into a command and read back as a decimal
/// number is the same id, for every id of 32 bits, the negative ones too.
pub proof fn lemma_id_round_trip(id: WorkspaceId)
    ensures
        decimal_i32(WorkspaceSpec::Id(id).encoding()) == Some(id.0 as int),
{
    lemma_decimal_round_trip(id.0 as int, i32::MIN as int, i32::MAX as int);
}

} // verus!
