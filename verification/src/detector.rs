//! Which applications are running, decided from a snapshot of the system's
//! processes. Zombie processes (state `Z`) are not counted.

use vstd::prelude::*;
use crate::text::{contains_text, has_substring, join_strings, join_with, views};

verus! {

/// What Kaze keeps of one running process.
pub struct ProcInfo {
    pub pid: i32,
    /// The path of the executable, when it could be read.
    pub exe: Option<String>,
    /// The command line, its arguments separated by single spaces.
    pub cmdline: String,
    pub state: char,
}

/// The process's executable path or its command line mentions `name`.
pub open spec fn mentions(p: ProcInfo, name: Seq<char>) -> bool {
    ||| (p.exe matches Some(exe) && has_substring(exe@, name))
    ||| has_substring(p.cmdline@, name)
}

/// Some process of the snapshot mentions `name`.
pub open spec fn running(procs: Seq<ProcInfo>, name: Seq<char>) -> bool {
    exists|i: int| 0 <= i < procs.len() && mentions(#[trigger] procs[i], name)
}

/// Whether a binary is running: some process's executable path or command
/// line contains `binary_name`.
pub fn is_binary_running(procs: &Vec<ProcInfo>, binary_name: &str) -> (r: bool)
    ensures
        r == running(procs@, binary_name@),
{
    let n = procs.len();
    let mut i: usize = 0;
    while i < n
        invariant
            n == procs@.len(),
            i <= n,
            forall|j: int| 0 <= j < i ==> !mentions(#[trigger] procs@[j], binary_name@),
        decreases n - i,
    {
        let p = &procs[i];
        let in_exe = match &p.exe {
            Some(exe) => contains_text(exe.as_str(), binary_name),
            None => false,
        };
        if in_exe || contains_text(p.cmdline.as_str(), binary_name) {
            proof {
                assert(mentions(procs@[i as int], binary_name@));
            }
            return true;
        }
        i = i + 1;
    }
    false
}

/// The record of a process from what could be read of it: none for a
/// process whose state could not be read or that is a zombie; otherwise its
/// executable path as read and its arguments joined by spaces (empty when
/// they could not be read).
pub open spec fn describe_spec(
    pid: i32,
    state: Option<char>,
    exe: Option<Seq<char>>,
    args: Option<Seq<Seq<char>>>,
) -> Option<(i32, Option<Seq<char>>, Seq<char>, char)> {
    match state {
        None => None,
        Some(s) => if s == 'Z' {
            None
        } else {
            Some(
                (
                    pid,
                    exe,
                    match args {
                        Some(a) => join_with(a, seq![' ']),
                        None => seq![],
                    },
                    s,
                ),
            )
        },
    }
}

/// The view of a process record.
pub open spec fn proc_view(p: ProcInfo) -> (i32, Option<Seq<char>>, Seq<char>, char) {
    (
        p.pid,
        match p.exe {
            Some(e) => Some(e@),
            None => None,
        },
        p.cmdline@,
        p.state,
    )
}

/// Builds the record of a process from what could be read of it.
pub fn describe_process(
    pid: i32,
    state: Option<char>,
    exe: Option<String>,
    args: Option<Vec<String>>,
) -> (r: Option<ProcInfo>)
    ensures
        describe_spec(
            pid,
            state,
            match exe {
                Some(e) => Some(e@),
                None => None,
            },
            match args {
                Some(a) => Some(views(a@)),
                None => None,
            },
        ) == match r {
            Some(p) => Some(proc_view(p)),
            None => None,
        },
{
    match state {
        None => None,
        Some(s) => {
            if s == 'Z' {
                return None;
            }
            let cmdline = match &args {
                Some(a) => join_strings(a, " "),
                None => String::new(),
            };
            proof {
                reveal_strlit(" ");
                assert(" "@ =~= seq![' ']);
            }
            Some(ProcInfo { pid, exe, cmdline, state: s })
        },
    }
}

/// The file whose presence means that pacman holds its database lock.
pub fn pacman_lock_path() -> (r: &'static str)
    ensures
        r@ == "/var/lib/pacman/db.lck"@,
{
    "/var/lib/pacman/db.lck"
}

} // verus!
