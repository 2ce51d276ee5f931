//! Process-scan trigger policy: a best-effort heuristic that reads a
//! snapshot of the process table and reports whether any entry looks like a
//! running game. Helper, launcher and overlay processes are excluded by
//! name first; after that a process counts as a game when a
//! Windows-compatibility-layer indicator appears together with a `.exe`
//! target, when its command line runs something out of a
//! `steamapps/common` path, or when its name is itself a direct `.exe`
//! invocation that does not look like a helper or launcher.

use vstd::prelude::*;
use vstd::string::StringSliceAdditionalSpecFns;
use crate::bytes::{contains_seq, contains_sub, ends_with, ends_with_seq, lower_seq, ascii_lower};

verus! {

/// One process-table entry, as plain bytes.
#[derive(Clone, PartialEq, Eq, Debug)]
pub struct ProcessInfo {
    pub name: Vec<u8>,
    pub cmdline: Vec<u8>,
}

/// Names of helper, launcher and overlay processes that never count as
/// games, matched as exact (case-sensitive) substrings of the process name.
pub open spec fn spec_excluded_name(name: Seq<u8>) -> bool {
    ||| contains_seq(name, "steamwebhelper".spec_bytes())
    ||| contains_seq(name, "steam.exe".spec_bytes())
    ||| contains_seq(name, "steamcmd".spec_bytes())
    ||| contains_seq(name, "SteamChildMonitor".spec_bytes())
    ||| contains_seq(name, "GameOverlayUI".spec_bytes())
}

/// A Windows-compatibility-layer or game-launcher indicator in the
/// lowercased name or command line.
pub open spec fn spec_compat_indicator(lname: Seq<u8>, lcmd: Seq<u8>) -> bool {
    ||| contains_seq(lname, "wine".spec_bytes())
    ||| contains_seq(lname, "proton".spec_bytes())
    ||| contains_seq(lcmd, "wine".spec_bytes())
    ||| contains_seq(lcmd, "proton".spec_bytes())
}

/// Whether a process with this name and command line counts as a game.
pub open spec fn spec_is_game(name: Seq<u8>, cmdline: Seq<u8>) -> bool {
    &&& !spec_excluded_name(name)
    &&& ({
        let lname = lower_seq(name);
        let lcmd = lower_seq(cmdline);
        ||| (spec_compat_indicator(lname, lcmd) && contains_seq(lcmd, ".exe".spec_bytes()))
        ||| contains_seq(lcmd, "steamapps/common".spec_bytes())
        ||| (ends_with_seq(lname, ".exe".spec_bytes()) && !contains_seq(
            lname,
            "steam".spec_bytes(),
        ) && !contains_seq(lname, "helper".spec_bytes()) && !contains_seq(
            lname,
            "launcher".spec_bytes(),
        ))
    })
}

/// Some entry of the snapshot counts as a game.
pub open spec fn spec_any_game(procs: Seq<ProcessInfo>) -> bool {
    exists|i: int| 0 <= i < procs.len() && spec_is_game(procs[i].name@, procs[i].cmdline@)
}

/// The exclusion law: a process whose name carries one of the excluded
/// helper, launcher or overlay markers never counts as a game, whatever its
/// command line says.
pub proof fn lemma_excluded_never_game(name: Seq<u8>, cmdline: Seq<u8>)
    requires
        spec_excluded_name(name),
    ensures
        !spec_is_game(name, cmdline),
{
}

/// Whether one process counts as a game.
pub fn process_is_game(name: &[u8], cmdline: &[u8]) -> (r: bool)
    ensures
        r == spec_is_game(name@, cmdline@),
{
    if contains_sub(name, "steamwebhelper".as_bytes()) || contains_sub(
        name,
        "steam.exe".as_bytes(),
    ) || contains_sub(name, "steamcmd".as_bytes()) || contains_sub(
        name,
        "SteamChildMonitor".as_bytes(),
    ) || contains_sub(name, "GameOverlayUI".as_bytes()) {
        return false;
    }
    let lname = ascii_lower(name);
    let lcmd = ascii_lower(cmdline);
    let ln = lname.as_slice();
    let lc = lcmd.as_slice();
    let compat = contains_sub(ln, "wine".as_bytes()) || contains_sub(ln, "proton".as_bytes())
        || contains_sub(lc, "wine".as_bytes()) || contains_sub(lc, "proton".as_bytes());
    if compat && contains_sub(lc, ".exe".as_bytes()) {
        return true;
    }
    if contains_sub(lc, "steamapps/common".as_bytes()) {
        return true;
    }
    ends_with(ln, ".exe".as_bytes()) && !contains_sub(ln, "steam".as_bytes()) && !contains_sub(
        ln,
        "helper".as_bytes(),
    ) && !contains_sub(ln, "launcher".as_bytes())
}

/// Whether any entry of a process-table snapshot counts as a game.
#[verifier::loop_isolation(false)]
pub fn any_game_process(procs: &Vec<ProcessInfo>) -> (r: bool)
    ensures
        r == spec_any_game(procs@),
{
    let mut i: usize = 0;
    while i < procs.len()
        invariant
            i <= procs@.len(),
            forall|k: int| 0 <= k < i ==> !spec_is_game(procs@[k].name@, procs@[k].cmdline@),
        decreases procs@.len() - i,
    {
        let p = &procs[i];
        if process_is_game(p.name.as_slice(), p.cmdline.as_slice()) {
            return true;
        }
        i += 1;
    }
    false
}

} // verus!
