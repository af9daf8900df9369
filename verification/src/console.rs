//! The live console of a server: who may open it, what a message from the
//! browser sends to the server, and the recent log lines read from disk.
use vstd::prelude::*;

use crate::error::AppError;
use crate::names::strings_view;
use crate::text::{owned, parse_unsigned, parse_unsigned_exec, push_char, chars_of};

verus! {

/// The token a console connection carries in its query: `Unauthorized`
/// without one.
pub fn console_token(token: Option<String>) -> (r: Result<String, AppError>)
    ensures
        token is None <==> r is Err,
        r matches Ok(t) ==> token == Some(t),
        r matches Err(e) ==> (e matches AppError::Unauthorized(m) && m@ == "Missing token"@),
{
    match token {
        Some(t) => Ok(t),
        None => Err(AppError::Unauthorized(owned("Missing token"))),
    }
}

/// The error when the server of a console does not run.
pub fn server_offline() -> (r: AppError)
    ensures
        r matches AppError::NotFound(m) && m@ == "Server not found or offline"@,
{
    AppError::NotFound(owned("Server not found or offline"))
}

/// A count given in a query: its value when it reads as a `usize`, else
/// 200.
pub open spec fn line_count(raw: Option<Seq<char>>) -> nat {
    match raw {
        Some(s) => match parse_unsigned(s, usize::MAX as nat) {
            Some(v) => v,
            None => 200,
        },
        None => 200,
    }
}

/// How many recent lines are asked for (`history` or `limit`), 200 by
/// default.
pub fn requested_lines(raw: Option<&str>) -> (r: usize)
    ensures
        r == line_count(
            match raw {
                Some(s) => Some(s@),
                None => None,
            },
        ),
{
    match raw {
        Some(s) => match parse_unsigned_exec(s, usize::MAX as u64) {
            Some(v) => v as usize,
            None => 200,
        },
        None => 200,
    }
}

/// What a text message from the browser sends to the server: when it is
/// JSON (`json_command` is `Some`, holding its `command` string if it has
/// one), that command; otherwise the text itself unless it is empty.
pub fn console_input(text: &str, json_command: Option<Option<String>>) -> (r: Option<String>)
    ensures
        json_command matches Some(c) ==> r == c,
        json_command is None ==> (text@.len() == 0 <==> r is None),
        json_command is None ==> (r matches Some(t) ==> t@ == text@),
{
    match json_command {
        Some(c) => c,
        None => {
            if text.unicode_len() == 0 {
                None
            } else {
                Some(owned(text))
            }
        },
    }
}

// ───────────────────────── log files ─────────────────────────

/// `s` split at each `\n`: one more piece than newlines.
pub open spec fn split_newlines(s: Seq<char>) -> Seq<Seq<char>>
    decreases s.len(),
{
    if s.len() == 0 {
        seq![Seq::empty()]
    } else {
        let p = split_newlines(s.drop_last());
        if s.last() == '\n' {
            p.push(Seq::empty())
        } else {
            p.update(p.len() - 1, p.last().push(s.last()))
        }
    }
}

/// A line ended by `\n` without the `\r` before it, if any.
pub open spec fn strip_cr(line: Seq<char>) -> Seq<char> {
    if line.len() > 0 && line.last() == '\r' {
        line.drop_last()
    } else {
        line
    }
}

/// The lines of a text (`str::lines`): split at `\n`, each without a `\r`
/// before its `\n`; the text after the last `\n` is a line when it is not
/// empty.
pub open spec fn text_lines(s: Seq<char>) -> Seq<Seq<char>> {
    let p = split_newlines(s);
    let ended = p.drop_last().map_values(|l: Seq<char>| strip_cr(l));
    if p.last().len() > 0 {
        ended.push(p.last())
    } else {
        ended
    }
}

proof fn lemma_split_newlines_nonempty(s: Seq<char>)
    ensures
        split_newlines(s).len() >= 1,
    decreases s.len(),
{
    if s.len() > 0 {
        lemma_split_newlines_nonempty(s.drop_last());
    }
}

fn strip_cr_exec(line: String) -> (r: String)
    ensures
        r@ == strip_cr(line@),
{
    let v = chars_of(line.as_str());
    if v.len() > 0 && v[v.len() - 1] == '\r' {
        let mut out = String::new();
        let mut i: usize = 0;
        while i < v.len() - 1
            invariant
                i <= v@.len() - 1,
                v@.len() > 0,
                out@ == v@.take(i as int),
            decreases v@.len() - 1 - i,
        {
            push_char(&mut out, v[i]);
            assert(v@.take(i + 1) =~= v@.take(i as int).push(v@[i as int]));
            i = i + 1;
        }
        assert(v@.take(v@.len() - 1) =~= v@.drop_last());
        out
    } else {
        line
    }
}

/// The lines of a text.
pub fn lines_of(content: &str) -> (r: Vec<String>)
    ensures
        strings_view(r@) == text_lines(content@),
{
    let v = chars_of(content);
    let mut out: Vec<String> = Vec::new();
    let mut cur = String::new();
    let mut i: usize = 0;
    assert(v@.take(0) =~= Seq::<char>::empty());
    assert(split_newlines(v@.take(0)).drop_last().map_values(|l: Seq<char>| strip_cr(l)) =~= strings_view(out@));
    while i < v.len()
        invariant
            i <= v@.len(),
            strings_view(out@) == split_newlines(v@.take(i as int)).drop_last().map_values(|l: Seq<char>| strip_cr(l)),
            cur@ == split_newlines(v@.take(i as int)).last(),
        decreases v@.len() - i,
    {
        let c = v[i];
        let ghost sp = split_newlines(v@.take(i as int));
        proof {
            lemma_split_newlines_nonempty(v@.take(i as int));
        }
        assert(v@.take(i + 1).drop_last() =~= v@.take(i as int));
        assert(v@.take(i + 1).last() == c);
        if c == '\n' {
            let ghost before = strings_view(out@);
            let done = strip_cr_exec(cur);
            out.push(done);
            cur = String::new();
            assert(strings_view(out@) =~= before.push(strip_cr(sp.last())));
            assert(sp.push(Seq::empty()).drop_last() =~= sp);
            assert(sp.map_values(|l: Seq<char>| strip_cr(l)) =~= sp.drop_last().map_values(|l: Seq<char>| strip_cr(l)).push(
                strip_cr(sp.last()),
            ));
        } else {
            push_char(&mut cur, c);
            let ghost nsp = sp.update(sp.len() - 1, sp.last().push(c));
            assert(nsp.drop_last() =~= sp.drop_last());
        }
        i = i + 1;
    }
    assert(v@.take(v@.len() as int) =~= v@);
    if cur.unicode_len() > 0 {
        let ghost before = strings_view(out@);
        out.push(cur);
        assert(strings_view(out@) =~= before.push(split_newlines(content@).last()));
    }
    out
}

/// The last `max(limit, 1)` of `lines` (all of them when there are fewer):
/// each new line pushes out the oldest once `limit` are held, so a limit of
/// 0 keeps only the last line.
pub open spec fn tail_window(lines: Seq<Seq<char>>, limit: nat) -> Seq<Seq<char>> {
    let keep: nat = if limit == 0 { 1 } else { limit };
    if lines.len() <= keep {
        lines
    } else {
        lines.skip(lines.len() - keep)
    }
}

/// All the lines of the texts, in order.
pub open spec fn all_lines(contents: Seq<Seq<char>>) -> Seq<Seq<char>>
    decreases contents.len(),
{
    if contents.len() == 0 {
        Seq::empty()
    } else {
        all_lines(contents.drop_last()) + text_lines(contents.last())
    }
}

/// The recent lines of a server's log files read in turn: the last
/// `limit` lines of them all (the last one when `limit` is 0).
pub fn tail_lines(contents: &Vec<String>, limit: usize) -> (r: Vec<String>)
    ensures
        strings_view(r@) == tail_window(all_lines(strings_view(contents@)), limit as nat),
{
    let mut every: Vec<String> = Vec::new();
    let mut i: usize = 0;
    while i < contents.len()
        invariant
            i <= contents@.len(),
            strings_view(every@) == all_lines(strings_view(contents@).take(i as int)),
        decreases contents@.len() - i,
    {
        let ghost sv = strings_view(contents@);
        assert(sv.take(i + 1).drop_last() =~= sv.take(i as int));
        assert(sv.take(i + 1).last() == contents@[i as int]@);
        let lines = lines_of(contents[i].as_str());
        let ghost before = strings_view(every@);
        let mut k: usize = 0;
        while k < lines.len()
            invariant
                k <= lines@.len(),
                strings_view(every@) == before + strings_view(lines@).take(k as int),
            decreases lines@.len() - k,
        {
            let ghost b2 = strings_view(every@);
            every.push(lines[k].clone());
            assert(strings_view(every@) =~= b2.push(lines@[k as int]@));
            assert(strings_view(lines@).take(k + 1) =~= strings_view(lines@).take(k as int).push(lines@[k as int]@));
            k = k + 1;
        }
        assert(strings_view(lines@).take(lines@.len() as int) =~= strings_view(lines@));
        i = i + 1;
    }
    assert(strings_view(contents@).take(contents@.len() as int) =~= strings_view(contents@));
    let keep: usize = if limit == 0 {
        1
    } else {
        limit
    };
    let n = every.len();
    if n <= keep {
        return every;
    }
    let mut out: Vec<String> = Vec::new();
    let mut j: usize = n - keep;
    while j < n
        invariant
            n - keep <= j <= n,
            keep < n,
            n == every@.len(),
            strings_view(out@) == strings_view(every@).subrange(n - keep, j as int),
        decreases n - j,
    {
        let ghost b = strings_view(out@);
        assert(strings_view(every@).len() == n);
        assert(strings_view(every@)[j as int] == every@[j as int]@);
        out.push(every[j].clone());
        assert(strings_view(out@) =~= b.push(every@[j as int]@));
        assert(strings_view(every@).subrange(n - keep, j + 1) =~= strings_view(every@).subrange(n - keep, j as int).push(
            every@[j as int]@,
        ));
        j = j + 1;
    }
    assert(strings_view(every@).subrange(n - keep, n as int) =~= strings_view(every@).skip(n - keep));
    out
}

/// A log file and when it was last modified (nanoseconds since the epoch),
/// when that could be read.
#[derive(Debug, Clone)]
pub struct LogFile {
    pub path: String,
    pub modified: Option<u64>,
}

/// Newest first: a later time before an earlier one, and any time before
/// none.
pub open spec fn newer_or_same(a: Option<u64>, b: Option<u64>) -> bool {
    match (a, b) {
        (Some(x), Some(y)) => x >= y,
        (Some(_), None) => true,
        (None, Some(_)) => false,
        (None, None) => true,
    }
}

pub open spec fn logs_newest_first(s: Seq<LogFile>) -> bool {
    forall|i: int, j: int| 0 <= i < j < s.len() ==> newer_or_same(#[trigger] s[i].modified, #[trigger] s[j].modified)
}

/// The log files in the order they are read: the same files, newest first,
/// those without a time last.
pub fn sort_logs_newest_first(files: Vec<LogFile>) -> (r: Vec<LogFile>)
    ensures
        r@.to_multiset() == files@.to_multiset(),
        logs_newest_first(r@),
{
    broadcast use vstd::seq_lib::group_to_multiset_ensures;
    broadcast use vstd::multiset::group_multiset_axioms;

    let ghost orig = files@;
    let mut rest = files;
    let mut out: Vec<LogFile> = Vec::new();
    while rest.len() > 0
        invariant
            out@.to_multiset().add(rest@.to_multiset()) == orig.to_multiset(),
            logs_newest_first(out@),
        decreases rest@.len(),
    {
        let ghost rest_before = rest@;
        let x = rest.remove(0);
        proof {
            vstd::seq_lib::to_multiset_remove(rest_before, 0);
            vstd::seq_lib::to_multiset_contains(rest_before, x);
            assert(rest_before[0] == x);
            assert(rest_before.contains(x));
        }
        let mut k: usize = 0;
        while k < out.len() && !newer_first_exec(x.modified, out[k].modified)
            invariant
                k <= out@.len(),
                forall|m: int| 0 <= m < k ==> !newer_or_same(x.modified, #[trigger] out@[m].modified),
            decreases out@.len() - k,
        {
            k = k + 1;
        }
        let ghost before = out@;
        out.insert(k, x);
        proof {
            assert(out@ == before.insert(k as int, x));
            assert forall|a: int, b: int| 0 <= a < b < out@.len() implies newer_or_same(
                #[trigger] out@[a].modified,
                #[trigger] out@[b].modified,
            ) by {
                if b < k {
                    assert(out@[a] == before[a] && out@[b] == before[b]);
                } else if b == k {
                    assert(out@[a] == before[a]);
                } else if a == k {
                    assert(out@[b] == before[b - 1]);
                    if b - 1 > k {
                        assert(newer_or_same(before[k as int].modified, before[b - 1].modified));
                    }
                } else if a < k {
                    assert(out@[a] == before[a] && out@[b] == before[b - 1]);
                } else {
                    assert(out@[a] == before[a - 1] && out@[b] == before[b - 1]);
                }
            }
            vstd::seq_lib::to_multiset_insert(before, k as int, x);
            assert(out@.to_multiset() == before.to_multiset().insert(x));
            assert(rest@.to_multiset() == rest_before.to_multiset().remove(x));
            assert(rest_before.to_multiset().count(x) > 0);
            assert(out@.to_multiset().add(rest@.to_multiset()) =~= before.to_multiset().add(rest_before.to_multiset()));
        }
    }
    assert(rest@.to_multiset() =~= vstd::multiset::Multiset::empty());
    assert(out@.to_multiset().add(vstd::multiset::Multiset::empty()) =~= out@.to_multiset());
    out
}

fn newer_first_exec(a: Option<u64>, b: Option<u64>) -> (r: bool)
    ensures
        r == newer_or_same(a, b),
{
    match (a, b) {
        (Some(x), Some(y)) => x >= y,
        (Some(_), None) => true,
        (None, Some(_)) => false,
        (None, None) => true,
    }
}

} // verus!
