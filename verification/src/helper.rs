//! The rules of the root helper and of its client: which requests the helper
//! serves, what it answers, and what the client makes of the answer.

use vstd::prelude::*;
use vstd::string::StringSliceAdditionalSpecFns;
use vstd::utf8::encode_utf8;
use crate::text::{contains_bytes, starts_with_bytes, str_contains, str_starts_with};
use crate::wire::{Msg, MsgType};

verus! {

/// What the helper does with a request it has received.
#[derive(PartialEq, Eq, Clone, Copy, Debug, Structural)]
pub enum HelperAction {
    /// The request names a path outside the device tree: stop serving.
    Refuse,
    /// Open the device, answer with the outcome, and stop serving.
    OpenDevice,
    /// Answer the end of the session and stop serving.
    Finish,
}

/// The helper's rule: an open request is served only when its path contains
/// the device directory; an end request finishes the session.
pub open spec fn helper_action_for(t: MsgType, path: Seq<char>, devpath: Seq<char>) -> HelperAction {
    match t {
        MsgType::Open => if contains_bytes(encode_utf8(path), encode_utf8(devpath)) {
            HelperAction::OpenDevice
        } else {
            HelperAction::Refuse
        },
        MsgType::End => HelperAction::Finish,
    }
}

/// The descriptor that the helper passes back for an open call that left
/// `open_errno` and returned `fd`: only a call that left no error passes one.
pub open spec fn answer_fd(open_errno: i32, fd: i32) -> Option<i32> {
    if open_errno == 0 {
        Some(fd)
    } else {
        None
    }
}

/// What the client makes of an answer that carries `fd`.
pub open spec fn result_of_answer(fd: Option<i32>) -> Result<i32, i32> {
    match fd {
        Some(fd) => Ok(fd),
        None => Err(2),
    }
}

/// Decides what the helper does with `msg`, given the device directory.
pub fn request_action(msg: &Msg, devpath: &str) -> (a: HelperAction)
    ensures
        a == helper_action_for(msg.msg_type, msg.path@, devpath@),
{
    match msg.msg_type {
        MsgType::Open => {
            if str_contains(msg.path.as_str(), devpath) {
                HelperAction::OpenDevice
            } else {
                HelperAction::Refuse
            }
        },
        MsgType::End => HelperAction::Finish,
    }
}

/// The helper's answer to an open request, given the `errno` left by the
/// open call and the descriptor it returned: the descriptor is passed on
/// only when `errno` is zero. The second component says whether the helper
/// must close its own copy of the descriptor afterwards (it is valid).
pub fn open_answer(open_errno: i32, fd: i32) -> (r: (Msg, bool))
    ensures
        r.0.msg_type == MsgType::Open,
        r.0.fd == answer_fd(open_errno, fd),
        r.0.path@ == "Test"@,
        r.1 == (fd >= 0),
{
    let path = String::from_str("Test");
    let reply = if open_errno == 0 {
        Msg { msg_type: MsgType::Open, fd: Some(fd), path }
    } else {
        Msg { msg_type: MsgType::Open, fd: None, path }
    };
    (reply, fd >= 0)
}

/// The helper's answer to the end of the session.
pub fn end_answer() -> (m: Msg)
    ensures
        m.msg_type == MsgType::End,
        m.fd is None,
        m.path@ == Seq::<char>::empty(),
{
    Msg { msg_type: MsgType::End, fd: None, path: String::new() }
}

/// The request that asks the helper to open `path`.
pub fn open_request(path: &str) -> (m: Msg)
    ensures
        m.msg_type == MsgType::Open,
        m.fd is None,
        m.path@ == path@,
{
    Msg { msg_type: MsgType::Open, fd: None, path: String::from_str(path) }
}

/// The request that ends the session.
pub fn end_request() -> (m: Msg)
    ensures
        m.msg_type == MsgType::End,
        m.fd is None,
        m.path@ == Seq::<char>::empty(),
{
    Msg { msg_type: MsgType::End, fd: None, path: String::new() }
}

/// What the client makes of the helper's answer: the descriptor it carries,
/// or the error code `2` when it carries none.
pub fn open_result(reply: &Msg) -> (r: Result<i32, i32>)
    ensures
        r == result_of_answer(reply.fd),
{
    match reply.fd {
        Some(fd) => Ok(fd),
        None => Err(2),
    }
}

/// The descriptor that the older helper passes for an open call that left
/// `open_errno` and returned `fd`: `-1` when the call failed.
pub open spec fn devmgr_sent_fd(open_errno: i32, fd: i32) -> i32 {
    if open_errno != 0 {
        -1i32
    } else {
        fd
    }
}

/// What the client of the older helper makes of the descriptor `fd` and
/// the code `err` it received.
pub open spec fn devmgr_client_result(fd: i32, err: i32) -> Result<i32, i32> {
    if err != 0 {
        Err((-err) as i32)
    } else {
        Ok(fd)
    }
}

/// The older helper's rule: an open request is served only when its path
/// begins with the device directory.
pub fn devmgr_request_allowed(path: &str, devpath: &str) -> (r: bool)
    ensures
        r == starts_with_bytes(path.spec_bytes(), devpath.spec_bytes()),
{
    str_starts_with(path, devpath)
}

/// The older helper's answer to an open request, given the `errno` left by
/// the open call and its descriptor: the descriptor to pass (`-1` when the
/// call failed), the code sent as payload, and whether to close the
/// descriptor afterwards.
pub fn devmgr_answer(open_errno: i32, fd: i32) -> (r: (i32, i32, bool))
    ensures
        r.0 == devmgr_sent_fd(open_errno, fd),
        r.1 == open_errno,
        r.2 == (fd >= 0),
{
    (if open_errno != 0 { -1 } else { fd }, open_errno, fd >= 0)
}

/// What the client of the older helper makes of its answer: the negated
/// code when it is not zero, else the descriptor.
pub fn devmgr_open_result(fd: i32, err: i32) -> (r: Result<i32, i32>)
    requires
        err != i32::MIN,
    ensures
        r == devmgr_client_result(fd, err),
{
    if err != 0 {
        Err(-err)
    } else {
        Ok(fd)
    }
}

/// The helper opens a device only for an open request whose path contains
/// the device directory: every other request is refused or ends the
/// session.
pub proof fn lemma_helper_opens_only_inside_devpath(t: MsgType, path: Seq<char>, devpath: Seq<char>)
    ensures
        helper_action_for(t, path, devpath) == HelperAction::OpenDevice <==> (t == MsgType::Open
            && contains_bytes(encode_utf8(path), encode_utf8(devpath))),
        t == MsgType::End ==> helper_action_for(t, path, devpath) == HelperAction::Finish,
{
}

/// An open that succeeded on the helper's side reaches the client as its
/// descriptor; one that failed reaches it as the error code `2`.
pub proof fn lemma_open_answer_reaches_client(open_errno: i32, fd: i32)
    ensures
        result_of_answer(answer_fd(open_errno, fd)) == (if open_errno == 0 {
            Ok::<i32, i32>(fd)
        } else {
            Err::<i32, i32>(2)
        }),
{
}

/// The older helper's answer reaches its client as the descriptor when the
/// open left no error, and as the negated error code otherwise.
pub proof fn lemma_devmgr_answer_reaches_client(open_errno: i32, fd: i32)
    requires
        open_errno != i32::MIN,
    ensures
        devmgr_client_result(devmgr_sent_fd(open_errno, fd), open_errno) == (if open_errno == 0 {
            Ok::<i32, i32>(fd)
        } else {
            Err::<i32, i32>((-open_errno) as i32)
        }),
{
}

} // verus!
