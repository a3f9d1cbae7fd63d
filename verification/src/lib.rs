//! A client for the two sockets of the Hyprland compositor, without the
//! sockets: what is written to them, and what the bytes read from them mean.
//!
//! The command socket takes one call for each connection and answers with
//! JSON ([`commands`], [`dispatch`], [`json`]). The event socket announces
//! events, one on a line ([`events`]). What a bar along the edge of the
//! screen keeps of all that is in [`bar`]. Whoever owns the sockets reads
//! and writes; this library decides.

use vstd::prelude::*;
use vstd::string::StringExecFns;

use crate::error::{DecodeError, Error, ErrorView};
use crate::text::{
    decimal_digits, prefixed_hex_u64, push_decimal_digits, read_prefixed_hex_u64, to_chars,
};

pub mod bar;
pub mod commands;
pub mod dispatch;
pub mod error;
pub mod events;
pub mod json;
pub mod text;

verus! {

/// Identity of a workspace.
#[derive(Clone, Copy, Debug, PartialEq, Eq, PartialOrd, Ord, Hash, Structural)]
pub struct WorkspaceId(pub i32);

/// Identity of a window: the address the compositor gave it.
#[derive(Clone, Copy, Debug, PartialEq, Eq, Hash, Structural)]
pub struct WindowAddress(pub u64);

/// Reads a window address as a JSON reply writes it: hexadecimal, with or
/// without `0x` in front.
pub fn deserialize(text: &str) -> (r: Result<u64, DecodeError>)
    ensures
        r == match prefixed_hex_u64(text@) {
            Some(address) => Ok::<u64, DecodeError>(address as u64),
            None => Err::<u64, DecodeError>(DecodeError::InvalidInteger),
        },
{
    let chars = to_chars(text);
    assert(chars@.subrange(0, chars.len() as int) =~= chars@);
    match read_prefixed_hex_u64(&chars, 0, chars.len()) {
        Some(address) => Ok(address),
        None => Err(DecodeError::InvalidInteger),
    }
}

/// Where the compositor's two sockets are.
#[derive(Clone, Debug, PartialEq, Eq)]
pub struct SocketPaths {
    /// The socket that takes commands.
    pub command: String,
    /// The socket that announces events.
    pub event: String,
}

/// The directory of the sockets of the instance `signature`, for the user
/// `uid`.
pub open spec fn rundir(uid: u32, signature: Seq<char>) -> Seq<char> {
    "/run/user/"@ + decimal_digits(uid as nat) + "/hypr/"@ + signature
}

/// The socket that takes commands, in the directory `dir`.
pub open spec fn command_socket(dir: Seq<char>) -> Seq<char> {
    dir + "/.socket.sock"@
}

/// The socket that announces events, in the directory `dir`.
pub open spec fn event_socket(dir: Seq<char>) -> Seq<char> {
    dir + "/.socket2.sock"@
}

/// The directory of the compositor's sockets for the user `uid`. The
/// instance is the one that the environment names under
/// `HYPRLAND_INSTANCE_SIGNATURE`, and without that name there is none.
pub fn hyprland_rundir(uid: u32, signature: Option<&str>) -> (r: Result<String, Error>)
    ensures
        match (signature, r) {
            (Some(signature), Ok(dir)) => dir@ == rundir(uid, signature@),
            (None, Err(e)) => e@ == ErrorView::Configuration,
            _ => false,
        },
{
    match signature {
        Some(signature) => {
            let mut dir = String::from_str("/run/user/");
            push_decimal_digits(&mut dir, uid as u64);
            dir.append("/hypr/");
            dir.append(signature);
            Ok(dir)
        },
        None => Err(Error::Configuration),
    }
}

/// Calls `nix::unistd::Uid::current` and takes the number out of the
/// result. Nothing is claimed of it: it is whatever the system says.
#[verifier::external_body]
fn current_uid() -> u32 {
    nix::unistd::Uid::current().as_raw()
}

/// The two sockets of `uid`'s instance `signature`.
pub fn socket_paths(uid: u32, signature: Option<&str>) -> (r: Result<SocketPaths, Error>)
    ensures
        match (signature, r) {
            (Some(signature), Ok(paths)) => {
                &&& paths.command@ == command_socket(rundir(uid, signature@))
                &&& paths.event@ == event_socket(rundir(uid, signature@))
            },
            (None, Err(e)) => e@ == ErrorView::Configuration,
            _ => false,
        },
{
    let dir = hyprland_rundir(uid, signature)?;
    let mut command = dir.clone();
    command.append("/.socket.sock");
    let mut event = dir;
    event.append("/.socket2.sock");
    Ok(SocketPaths { command, event })
}

/// The two sockets of the instance `signature`, for the user who runs this
/// process.
pub fn resolve(signature: Option<&str>) -> (r: Result<SocketPaths, Error>)
    ensures
        match (signature, r) {
            (Some(signature), Ok(paths)) => exists|uid: u32|
                {
                    &&& paths.command@ == command_socket(#[trigger] rundir(uid, signature@))
                    &&& paths.event@ == event_socket(rundir(uid, signature@))
                },
            (None, Err(e)) => e@ == ErrorView::Configuration,
            _ => false,
        },
{
    let uid = current_uid();
    socket_paths(uid, signature)
}

} // verus!
