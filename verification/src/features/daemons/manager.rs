//! The daemon manager's own logic: the name a daemon's process runs under,
//! the process ids that `pgrep` lists, how a start command splits into
//! program and arguments, and the texts of its errors.

use vstd::prelude::*;
use vstd::string::*;
use crate::text::{
    str_eq, to_string, join2, join3, trim, trim_str, parse_decimal, parse_unsigned, dec_text,
    decimal_text,
};
use crate::base::event_bus::{strings_view, opt_string_view};

verus! {

/// The index of the last `/` before index `j` of `p`, or -1.
pub open spec fn last_slash(p: Seq<char>, j: int) -> int
    decreases j,
{
    if j <= 0 {
        -1
    } else if p[j - 1] == '/' {
        j - 1
    } else {
        last_slash(p, j - 1)
    }
}

pub proof fn lemma_last_slash_bounds(p: Seq<char>, j: int)
    ensures
        -1 <= last_slash(p, j) < if j > 0 { j } else { 0 },
        last_slash(p, j) >= 0 ==> p[last_slash(p, j)] == '/',
    decreases j,
{
    if j > 0 && p[j - 1] != '/' {
        lemma_last_slash_bounds(p, j - 1);
    }
}

/// The final component of a path, as `Path::file_name` finds it: trailing
/// `/` and `.` components do not count, and a path that ends in `..`, or
/// that has no normal component, has none.
pub open spec fn file_name_of(p: Seq<char>) -> Option<Seq<char>>
    decreases p.len(),
{
    if p.len() == 0 {
        None
    } else if p.last() == '/' {
        file_name_of(p.drop_last())
    } else {
        let k = last_slash(p, p.len() as int);
        let seg = p.subrange(k + 1, p.len() as int);
        if seg == "."@ {
            if k < 0 {
                None
            } else {
                proof {
                    lemma_last_slash_bounds(p, p.len() as int);
                }
                file_name_of(p.subrange(0, k))
            }
        } else if seg == ".."@ {
            None
        } else {
            Some(seg)
        }
    }
}

/// The final component of the path `p`.
pub fn path_file_name(p: &str) -> (r: Option<String>)
    ensures
        opt_string_view(r) == file_name_of(p@),
    decreases p@.len(),
{
    let n = p.unicode_len();
    if n == 0 {
        return None;
    }
    if p.get_char(n - 1) == '/' {
        let q = p.substring_char(0, n - 1);
        assert(q@ =~= p@.drop_last());
        return path_file_name(q);
    }
    let mut k: usize = n;
    while k > 0 && p.get_char(k - 1) != '/'
        invariant
            n == p@.len(),
            k <= n,
            last_slash(p@, n as int) == last_slash(p@, k as int),
        decreases k,
    {
        k = k - 1;
    }
    assert(last_slash(p@, n as int) == k - 1);
    let seg = p.substring_char(k, n);
    proof {
        reveal_strlit(".");
        reveal_strlit("..");
    }
    if str_eq(seg, ".") {
        if k == 0 {
            None
        } else {
            let q = p.substring_char(0, k - 1);
            path_file_name(q)
        }
    } else if str_eq(seg, "..") {
        None
    } else {
        Some(to_string(seg))
    }
}

/// The process id that one line of `pgrep` output stands for, if any: the
/// line, trimmed, read as a `u32`.
pub open spec fn line_pid(line: Seq<char>) -> Seq<u32> {
    match parse_unsigned(trim(line), u32::MAX as int) {
        Ok(v) => seq![v as u32],
        Err(_) => Seq::empty(),
    }
}

/// The process ids of the lines of `s` from index `i` on, where `cur`
/// holds the part of the current line before `i`.
pub open spec fn pids_scan(s: Seq<char>, i: int, cur: Seq<char>) -> Seq<u32>
    decreases s.len() - i,
{
    if i < 0 || i >= s.len() {
        line_pid(cur)
    } else if s[i] == '\n' {
        line_pid(cur) + pids_scan(s, i + 1, Seq::empty())
    } else {
        pids_scan(s, i + 1, cur.push(s[i]))
    }
}

/// The process ids in `pgrep` output: each line, trimmed, that reads as a
/// `u32`, in order; other lines are skipped. (Splitting at `\n` and
/// trimming each piece gives the pieces of `str::lines` up to an empty
/// last one and the `\r` of `\r\n`, which trimming removes or skipping
/// drops anyway.)
pub open spec fn spec_pids(s: Seq<char>) -> Seq<u32> {
    pids_scan(s, 0, Seq::empty())
}

/// The error of an empty start command.
pub open spec fn empty_command_msg() -> Seq<char> {
    "Пустая команда запуска"@
}

/// The daemon manager.
pub struct DaemonManager;

impl DaemonManager {
    pub fn new() -> (r: Self) {
        DaemonManager
    }

    /// The process ids that `pgrep` printed.
    pub fn parse_pids(stdout: &str) -> (r: Vec<u32>)
        ensures
            r@ == spec_pids(stdout@),
    {
        let ghost s = stdout@;
        let n = stdout.unicode_len();
        let mut out: Vec<u32> = Vec::new();
        let mut start: usize = 0;
        let mut i: usize = 0;
        assert(s.subrange(0, 0) =~= Seq::<char>::empty());
        while i < n
            invariant
                s == stdout@,
                n == s.len(),
                start <= i <= n,
                spec_pids(s) == out@ + pids_scan(s, i as int, s.subrange(start as int, i as int)),
            decreases n - i,
        {
            if stdout.get_char(i) == '\n' {
                let line = trim_str(stdout.substring_char(start, i));
                let ghost before = out@;
                match parse_decimal(line.as_str(), 4294967295) {
                    Ok(v) => {
                        out.push(v as u32);
                    },
                    Err(_) => {},
                }
                assert(out@ =~= before + line_pid(s.subrange(start as int, i as int)));
                assert(s.subrange(i + 1, i + 1) =~= Seq::<char>::empty());
                start = i + 1;
            } else {
                assert(s.subrange(start as int, i as int).push(s[i as int]) =~= s.subrange(
                    start as int,
                    i + 1,
                ));
            }
            i = i + 1;
        }
        let line = trim_str(stdout.substring_char(start, n));
        let ghost before = out@;
        match parse_decimal(line.as_str(), 4294967295) {
            Ok(v) => {
                out.push(v as u32);
            },
            Err(_) => {},
        }
        assert(out@ =~= before + line_pid(s.subrange(start as int, n as int)));
        out
    }

    /// The program and the arguments of a start command; an error where
    /// the command is empty.
    pub fn start_command(cmd_parts: &Vec<String>) -> (r: Result<(String, Vec<String>), String>)
        ensures
            cmd_parts@.len() == 0 <==> r is Err,
            match r {
                Ok((prog, args)) => prog@ == cmd_parts@[0]@ && strings_view(args@) == strings_view(
                    cmd_parts@,
                ).drop_first(),
                Err(e) => e@ == empty_command_msg(),
            },
    {
        if cmd_parts.len() == 0 {
            return Err(to_string("Пустая команда запуска"));
        }
        let prog = cmd_parts[0].clone();
        let mut args: Vec<String> = Vec::new();
        let mut i: usize = 1;
        while i < cmd_parts.len()
            invariant
                1 <= i <= cmd_parts@.len(),
                strings_view(args@) == strings_view(cmd_parts@).subrange(1, i as int),
            decreases cmd_parts@.len() - i,
        {
            let ghost before = strings_view(args@);
            args.push(cmd_parts[i].clone());
            assert(strings_view(args@) =~= before.push(cmd_parts@[i as int]@));
            assert(strings_view(args@) =~= strings_view(cmd_parts@).subrange(1, i + 1));
            i = i + 1;
        }
        assert(strings_view(cmd_parts@).subrange(1, cmd_parts@.len() as int) =~= strings_view(
            cmd_parts@,
        ).drop_first());
        Ok((prog, args))
    }

    /// The error of a start command that could not be spawned.
    pub fn spawn_error_message(cmd: &str, err: &str) -> (r: String)
        ensures
            r@ == "Не удалось запустить процесс '"@ + cmd@ + "': "@ + err@,
    {
        let mut r = join3("Не удалось запустить процесс '", cmd, "': ");
        r.append(err);
        r
    }

    /// The error of a `kill` that could not be run for a process id.
    pub fn kill_error_message(pid: u32, err: &str) -> (r: String)
        ensures
            r@ == "Не удалось выполнить kill для PID "@ + dec_text(pid as nat) + ": "@ + err@,
    {
        let num = decimal_text(pid as u64);
        let mut r = join3("Не удалось выполнить kill для PID ", num.as_str(), ": ");
        r.append(err);
        r
    }
}

} // verus!
