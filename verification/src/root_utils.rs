//! Credential rules: reading the ids that `sudo` leaves behind, telling
//! whether the process is root through `sudo`, and the order in which root
//! privileges are given up.

use vstd::prelude::*;
use vstd::string::StringSliceAdditionalSpecFns;
use crate::text::{is_u32_numeral, numeral_value, parse_u32};

verus! {

/// The value of an id variable (`SUDO_UID` or `SUDO_GID`) can be read: it
/// is unset, or it is the text of a `u32`.
pub open spec fn id_var_readable(var: Option<&str>) -> bool {
    match var {
        Some(s) => is_u32_numeral(s.spec_bytes()),
        None => true,
    }
}

/// The id that an id variable holds, if it is set.
pub open spec fn id_var_value(var: Option<&str>) -> Option<u32> {
    match var {
        Some(s) => Some(numeral_value(s.spec_bytes()) as u32),
        None => None,
    }
}

/// Whether an id variable's value can be read (see `id_var_readable`).
pub fn id_var_ok(var: Option<&str>) -> (r: bool)
    ensures
        r == id_var_readable(var),
{
    match var {
        Some(s) => parse_u32(s).is_some(),
        None => true,
    }
}

fn read_id_var(var: Option<&str>) -> (r: Result<u32, ()>)
    requires
        id_var_readable(var),
    ensures
        r == (match id_var_value(var) {
            Some(v) => Ok::<u32, ()>(v),
            None => Err::<u32, ()>(()),
        }),
{
    match var {
        Some(s) => match parse_u32(s) {
            Some(v) => Ok(v),
            None => {
                assert(false);
                Err(())
            },
        },
        None => Err(()),
    }
}

/// The user id that `sudo` recorded, from the value of `SUDO_UID`: `Err`
/// when the variable is unset. A set value must be the text of a `u32`.
pub fn get_sudo_uid(sudo_uid_var: Option<&str>) -> (r: Result<u32, ()>)
    requires
        id_var_readable(sudo_uid_var),
    ensures
        r == (match id_var_value(sudo_uid_var) {
            Some(v) => Ok::<u32, ()>(v),
            None => Err::<u32, ()>(()),
        }),
{
    read_id_var(sudo_uid_var)
}

/// The group id that `sudo` recorded, from the value of `SUDO_GID`: `Err`
/// when the variable is unset. A set value must be the text of a `u32`.
pub fn get_sudo_gid(sudo_gid_var: Option<&str>) -> (r: Result<u32, ()>)
    requires
        id_var_readable(sudo_gid_var),
    ensures
        r == (match id_var_value(sudo_gid_var) {
            Some(v) => Ok::<u32, ()>(v),
            None => Err::<u32, ()>(()),
        }),
{
    read_id_var(sudo_gid_var)
}

/// Whether a process with user id `uid` runs as root through `sudo`: it is
/// root and `SUDO_UID` is set. The variable is only read for root.
pub fn is_sudo_root(uid: u32, sudo_uid_var: Option<&str>) -> (r: bool)
    requires
        uid == 0 ==> id_var_readable(sudo_uid_var),
    ensures
        r == (uid == 0 && sudo_uid_var is Some),
{
    if uid != 0 {
        return false;
    }
    match get_sudo_uid(sudo_uid_var) {
        Ok(_) => true,
        Err(_) => false,
    }
}

/// One change of credentials.
#[derive(PartialEq, Eq, Clone, Copy, Debug, Structural)]
pub enum CredStep {
    /// `setgid` to the given group.
    SetGid(u32),
    /// `setuid` to the given user.
    SetUid(u32),
    /// `setuid(0)`, the probe of whether root can still be regained.
    TryRegainRoot,
}

/// The changes that give up root, in order, for a process with user id
/// `uid` and group id `gid`: nothing unless root; when the group is not
/// root's, take that group, set the user id to the current one and probe
/// for root; then take the group and the user that `sudo` recorded, each
/// when it is known.
pub open spec fn drop_root_steps(uid: u32, gid: u32, sudo_gid: Option<u32>, sudo_uid: Option<u32>) -> Seq<CredStep> {
    if uid != 0 {
        Seq::empty()
    } else {
        (if gid != 0 {
            seq![CredStep::SetGid(gid), CredStep::SetUid(uid), CredStep::TryRegainRoot]
        } else {
            Seq::empty()
        }) + (match sudo_gid {
            Some(g) => seq![CredStep::SetGid(g)],
            None => Seq::empty(),
        }) + (match sudo_uid {
            Some(u) => seq![CredStep::SetUid(u)],
            None => Seq::empty(),
        })
    }
}

/// The changes of credentials that give up root, given the current ids and
/// the values of `SUDO_GID` and `SUDO_UID` (read only for root).
pub fn drop_root_plan(uid: u32, gid: u32, sudo_gid_var: Option<&str>, sudo_uid_var: Option<&str>) -> (r: Vec<CredStep>)
    requires
        uid == 0 ==> id_var_readable(sudo_gid_var) && id_var_readable(sudo_uid_var),
    ensures
        r@ == drop_root_steps(uid, gid, id_var_value(sudo_gid_var), id_var_value(sudo_uid_var)),
{
    let mut steps: Vec<CredStep> = Vec::new();
    if uid != 0 {
        assert(steps@ =~= drop_root_steps(uid, gid, id_var_value(sudo_gid_var), id_var_value(sudo_uid_var)));
        return steps;
    }
    if gid != 0 {
        steps.push(CredStep::SetGid(gid));
        steps.push(CredStep::SetUid(uid));
        steps.push(CredStep::TryRegainRoot);
    }
    match get_sudo_gid(sudo_gid_var) {
        Ok(g) => steps.push(CredStep::SetGid(g)),
        Err(_) => {},
    }
    match get_sudo_uid(sudo_uid_var) {
        Ok(u) => steps.push(CredStep::SetUid(u)),
        Err(_) => {},
    }
    assert(steps@ =~= drop_root_steps(uid, gid, id_var_value(sudo_gid_var), id_var_value(sudo_uid_var)));
    steps
}

/// The user id to switch to when giving up root for a chosen user: the
/// chosen one for root, and no change for anyone else.
pub fn drop_root_to_plan(uid: u32, target: u32) -> (r: Option<u32>)
    ensures
        r == (if uid == 0 { Some(target) } else { None::<u32> }),
{
    if uid != 0 {
        None
    } else {
        Some(target)
    }
}

/// Giving up root always ends with the user id that `sudo` recorded, when
/// the process is root and `SUDO_UID` is known: nothing can undo it later in
/// the plan.
pub proof fn lemma_drop_root_ends_with_sudo_user(uid: u32, gid: u32, sudo_gid: Option<u32>, sudo_uid: u32)
    requires
        uid == 0,
    ensures
        drop_root_steps(uid, gid, sudo_gid, Some(sudo_uid)).last() == CredStep::SetUid(sudo_uid),
{
}

/// A root process takes the group that `sudo` recorded whenever it is known,
/// whatever `SUDO_UID` holds: the group step comes last when no user is
/// recorded, and just before the final switch to the recorded user
/// otherwise. Nothing is changed for a process that is not root.
pub proof fn lemma_drop_root_sets_sudo_group(gid: u32, g: u32, sudo_uid: Option<u32>)
    ensures
        ({
            let p = drop_root_steps(0, gid, Some(g), sudo_uid);
            &&& sudo_uid is None ==> p.len() >= 1 && p.last() == CredStep::SetGid(g)
            &&& sudo_uid matches Some(u) ==> p.len() >= 2 && p[p.len() - 2] == CredStep::SetGid(g)
                && p.last() == CredStep::SetUid(u)
        }),
{
}

/// The whole plan for a root process: when its group is not root's, it
/// first takes that group, sets its user id to root's and probes for root;
/// then one step for each recorded id. A process that is not root changes
/// nothing.
pub proof fn lemma_drop_root_plan_shape(uid: u32, gid: u32, sudo_gid: Option<u32>, sudo_uid: Option<u32>)
    ensures
        uid != 0 ==> drop_root_steps(uid, gid, sudo_gid, sudo_uid).len() == 0,
        uid == 0 ==> drop_root_steps(uid, gid, sudo_gid, sudo_uid).len() == (if gid != 0 { 3int } else { 0 })
            + (if sudo_gid is Some { 1int } else { 0 }) + (if sudo_uid is Some { 1int } else { 0 }),
        uid == 0 && gid != 0 ==> drop_root_steps(uid, gid, sudo_gid, sudo_uid)[0] == CredStep::SetGid(gid)
            && drop_root_steps(uid, gid, sudo_gid, sudo_uid)[1] == CredStep::SetUid(0)
            && drop_root_steps(uid, gid, sudo_gid, sudo_uid)[2] == CredStep::TryRegainRoot,
{
}

} // verus!
