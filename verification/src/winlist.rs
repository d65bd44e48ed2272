//! Parsing the window enumerator's line-oriented output.
//!
//! Each line carries four whitespace-separated fields: window id, desktop
//! number, host name, and the window title (which may itself contain
//! spaces — everything after the third field belongs to it). A malformed
//! line with fewer than four fields yields an empty placeholder record, not
//! a failure: listing is best-effort and degrades rather than aborts.

use vstd::prelude::*;
use crate::errors::DispatchError;
use crate::outcome::LaunchOutcome;

verus! {

/// One parsed window: id, desktop and title as the enumerator printed
/// them. A placeholder record has all three fields empty.
#[derive(Debug)]
pub struct WindowRecord {
    pub id: String,
    pub desktop: String,
    pub title: String,
}

/// The mathematical content of a record: its three fields.
pub open spec fn record_model(w: WindowRecord) -> (Seq<char>, Seq<char>, Seq<char>) {
    (w.id@, w.desktop@, w.title@)
}

/// The first position at or after `i` that is not a space, or the end.
pub open spec fn skip_sp(s: Seq<char>, i: int) -> int
    decreases s.len() - i,
{
    if i < 0 || i >= s.len() {
        s.len() as int
    } else if s[i] == ' ' {
        skip_sp(s, i + 1)
    } else {
        i
    }
}

/// The first position at or after `i` that is a space, or the end.
pub open spec fn end_tok(s: Seq<char>, i: int) -> int
    decreases s.len() - i,
{
    if i < 0 || i >= s.len() {
        s.len() as int
    } else if s[i] == ' ' {
        i
    } else {
        end_tok(s, i + 1)
    }
}

/// The first position at or after `i` holding a newline, or the end.
pub open spec fn end_line(s: Seq<char>, i: int) -> int
    decreases s.len() - i,
{
    if i < 0 || i >= s.len() {
        s.len() as int
    } else if s[i] == '\n' {
        i
    } else {
        end_line(s, i + 1)
    }
}

/// A newline scan never moves backward nor past the end.
pub proof fn lemma_end_line_bounds(s: Seq<char>, i: int)
    requires
        0 <= i <= s.len(),
    ensures
        i <= end_line(s, i) <= s.len(),
    decreases s.len() - i,
{
    if i < s.len() && s[i] != '\n' {
        lemma_end_line_bounds(s, i + 1);
    }
}

/// The three fields one line parses to: the first, second and fourth
/// whitespace-separated fields, the fourth running to the end of the line;
/// or three empty fields when the line has fewer than four.
pub open spec fn spec_window_line(s: Seq<char>) -> (Seq<char>, Seq<char>, Seq<char>) {
    let a0 = skip_sp(s, 0);
    let b0 = end_tok(s, a0);
    let a1 = skip_sp(s, b0);
    let b1 = end_tok(s, a1);
    let a2 = skip_sp(s, b1);
    let b2 = end_tok(s, a2);
    let a3 = skip_sp(s, b2);
    if a3 < s.len() {
        (s.subrange(a0, b0), s.subrange(a1, b1), s.subrange(a3, s.len() as int))
    } else {
        (Seq::empty(), Seq::empty(), Seq::empty())
    }
}

/// The records of every line of `s` from position `i` on, each line taken
/// up to the next newline, in order.
pub open spec fn spec_records_from(s: Seq<char>, i: int) -> Seq<(Seq<char>, Seq<char>, Seq<char>)>
    decreases s.len() - i,
    via spec_records_from_decreases
{
    if i < 0 || i >= s.len() {
        Seq::empty()
    } else {
        let j = end_line(s, i);
        if j >= s.len() {
            seq![spec_window_line(s.subrange(i, s.len() as int))]
        } else {
            seq![spec_window_line(s.subrange(i, j))] + spec_records_from(s, j + 1)
        }
    }
}

#[via_fn]
proof fn spec_records_from_decreases(s: Seq<char>, i: int) {
    if 0 <= i < s.len() {
        lemma_end_line_bounds(s, i);
    }
}

/// Scans to the first non-space position at or after `start`.
fn skip_spaces(line: &str, start: usize) -> (r: usize)
    requires
        start <= line@.len(),
    ensures
        r == skip_sp(line@, start as int),
        start <= r <= line@.len(),
{
    let n = line.unicode_len();
    let mut i = start;
    while i < n
        invariant
            start <= i <= n,
            n == line@.len(),
            skip_sp(line@, start as int) == skip_sp(line@, i as int),
        decreases n - i,
    {
        if line.get_char(i) != ' ' {
            return i;
        }
        i += 1;
    }
    i
}

/// Scans to the first space at or after `start`, or the end of the line.
fn end_token(line: &str, start: usize) -> (r: usize)
    requires
        start <= line@.len(),
    ensures
        r == end_tok(line@, start as int),
        start <= r <= line@.len(),
{
    let n = line.unicode_len();
    let mut i = start;
    while i < n
        invariant
            start <= i <= n,
            n == line@.len(),
            end_tok(line@, start as int) == end_tok(line@, i as int),
        decreases n - i,
    {
        if line.get_char(i) == ' ' {
            return i;
        }
        i += 1;
    }
    i
}

/// Scans to the first newline at or after `start`, or the end.
fn line_end(s: &str, start: usize) -> (r: usize)
    requires
        start <= s@.len(),
    ensures
        r == end_line(s@, start as int),
        start <= r <= s@.len(),
{
    let n = s.unicode_len();
    let mut i = start;
    while i < n
        invariant
            start <= i <= n,
            n == s@.len(),
            end_line(s@, start as int) == end_line(s@, i as int),
        decreases n - i,
    {
        if s.get_char(i) == '\n' {
            return i;
        }
        i += 1;
    }
    i
}

/// Parses one enumerator line into a record: id, desktop, and the title
/// running from the fourth field to the end. A line with fewer than four
/// fields parses to the empty placeholder record.
pub fn parse_window_line(line: &str) -> (r: WindowRecord)
    ensures
        record_model(r) == spec_window_line(line@),
{
    let n = line.unicode_len();
    let a0 = skip_spaces(line, 0);
    let b0 = end_token(line, a0);
    let a1 = skip_spaces(line, b0);
    let b1 = end_token(line, a1);
    let a2 = skip_spaces(line, b1);
    let b2 = end_token(line, a2);
    let a3 = skip_spaces(line, b2);
    if a3 < n {
        let id = String::from_str(line.substring_char(a0, b0));
        let desktop = String::from_str(line.substring_char(a1, b1));
        let title = String::from_str(line.substring_char(a3, n));
        WindowRecord { id, desktop, title }
    } else {
        WindowRecord {
            id: String::new(),
            desktop: String::new(),
            title: String::new(),
        }
    }
}

/// Parses the enumerator's whole output: one record per line, in order,
/// malformed lines included as placeholders.
pub fn parse_window_list(output: &str) -> (r: Vec<WindowRecord>)
    ensures
        r@.map_values(|w: WindowRecord| record_model(w)) == spec_records_from(output@, 0),
{
    let n = output.unicode_len();
    let mut out: Vec<WindowRecord> = Vec::new();
    let mut i: usize = 0;
    while i < n
        invariant
            i <= n,
            n == output@.len(),
            out@.map_values(|w: WindowRecord| record_model(w)) + spec_records_from(
                output@,
                i as int,
            ) =~= spec_records_from(output@, 0),
        decreases n - i,
    {
        let ghost prev = out@.map_values(|w: WindowRecord| record_model(w));
        let j = line_end(output, i);
        let seg = output.substring_char(i, j);
        let rec = parse_window_line(seg);
        out.push(rec);
        proof {
            assert(out@.map_values(|w: WindowRecord| record_model(w)) =~= prev + seq![
                record_model(rec),
            ]);
        }
        if j >= n {
            i = n;
        } else {
            i = j + 1;
        }
        proof {
            assert(prev + seq![record_model(rec)] + spec_records_from(output@, i as int)
                =~= spec_records_from(output@, 0));
        }
    }
    proof {
        assert(out@.map_values(|w: WindowRecord| record_model(w)) =~= spec_records_from(
            output@,
            0,
        ));
    }
    out
}

/// Whether a character counts as trimmable whitespace around a process
/// name: the ASCII blanks the enumerator can emit.
pub open spec fn is_blank(c: char) -> bool {
    c == ' ' || c == '\t' || c == '\n' || c == '\r'
}

/// The first position at or after `i` that is not blank, or the end.
pub open spec fn skip_blank(s: Seq<char>, i: int) -> int
    decreases s.len() - i,
{
    if i < 0 || i >= s.len() {
        s.len() as int
    } else if is_blank(s[i]) {
        skip_blank(s, i + 1)
    } else {
        i
    }
}

/// The position just after the last non-blank character at or before `j`,
/// scanning backward; zero when everything up to `j` is blank.
pub open spec fn blank_rend(s: Seq<char>, j: int) -> int
    decreases j,
{
    if j <= 0 {
        0
    } else if is_blank(s[j - 1]) {
        blank_rend(s, j - 1)
    } else {
        j
    }
}

/// `s` with leading and trailing blanks removed.
pub open spec fn spec_trim(s: Seq<char>) -> Seq<char> {
    let a = skip_blank(s, 0);
    let b = blank_rend(s, s.len() as int);
    if a < b {
        s.subrange(a, b)
    } else {
        Seq::empty()
    }
}

/// The first position at or after `i` where the name separator — a comma
/// followed by a space — begins, or the end.
pub open spec fn end_seg(s: Seq<char>, i: int) -> int
    decreases s.len() - i,
{
    if i < 0 || i >= s.len() {
        s.len() as int
    } else if s[i] == ',' && i + 1 < s.len() && s[i + 1] == ' ' {
        i
    } else {
        end_seg(s, i + 1)
    }
}

/// A separator scan never moves backward nor past the end, and a found
/// separator leaves room for its two characters.
pub proof fn lemma_end_seg_bounds(s: Seq<char>, i: int)
    requires
        0 <= i <= s.len(),
    ensures
        i <= end_seg(s, i) <= s.len(),
        end_seg(s, i) < s.len() ==> end_seg(s, i) + 1 < s.len(),
    decreases s.len() - i,
{
    if i < s.len() && !(s[i] == ',' && i + 1 < s.len() && s[i + 1] == ' ') {
        lemma_end_seg_bounds(s, i + 1);
    }
}

/// The trimmed names between the comma-space separators of `s`, in order,
/// from position `i` on. Empty segments stay, as the separator-splitting
/// convention has it.
pub open spec fn spec_names_from(s: Seq<char>, i: int) -> Seq<Seq<char>>
    decreases s.len() - i,
    via spec_names_from_decreases
{
    if i < 0 || i > s.len() {
        Seq::empty()
    } else {
        let j = end_seg(s, i);
        if j >= s.len() {
            seq![spec_trim(s.subrange(i, s.len() as int))]
        } else {
            seq![spec_trim(s.subrange(i, j))] + spec_names_from(s, j + 2)
        }
    }
}

#[via_fn]
proof fn spec_names_from_decreases(s: Seq<char>, i: int) {
    if 0 <= i <= s.len() {
        lemma_end_seg_bounds(s, i);
    }
}

/// Scans to the start of the next comma-space separator at or after
/// `start`, or to the end.
fn find_separator(s: &str, start: usize) -> (r: usize)
    requires
        start <= s@.len(),
    ensures
        r == end_seg(s@, start as int),
        start <= r <= s@.len(),
        r < s@.len() ==> r + 1 < s@.len(),
{
    let n = s.unicode_len();
    let mut i = start;
    while i < n
        invariant
            start <= i <= n,
            n == s@.len(),
            end_seg(s@, start as int) == end_seg(s@, i as int),
        decreases n - i,
    {
        if s.get_char(i) == ',' && i + 1 < n && s.get_char(i + 1) == ' ' {
            return i;
        }
        i += 1;
    }
    i
}

/// Copies `piece` with leading and trailing blanks removed.
fn trim_blanks(piece: &str) -> (r: String)
    ensures
        r@ == spec_trim(piece@),
{
    let n = piece.unicode_len();
    let mut a: usize = 0;
    while a < n
        invariant
            a <= n,
            n == piece@.len(),
            skip_blank(piece@, 0) == skip_blank(piece@, a as int),
        ensures
            a <= n,
            n == piece@.len(),
            a == skip_blank(piece@, 0),
        decreases n - a,
    {
        let c = piece.get_char(a);
        if !(c == ' ' || c == '\t' || c == '\n' || c == '\r') {
            proof {
                assert(skip_blank(piece@, a as int) == a as int);
            }
            break;
        }
        a += 1;
    }
    let mut b: usize = n;
    while b > 0
        invariant
            b <= n,
            n == piece@.len(),
            blank_rend(piece@, n as int) == blank_rend(piece@, b as int),
        ensures
            b <= n,
            n == piece@.len(),
            b == blank_rend(piece@, n as int),
        decreases b,
    {
        let c = piece.get_char(b - 1);
        if !(c == ' ' || c == '\t' || c == '\n' || c == '\r') {
            proof {
                assert(blank_rend(piece@, b as int) == b as int);
            }
            break;
        }
        b -= 1;
    }
    if a < b {
        String::from_str(piece.substring_char(a, b))
    } else {
        String::new()
    }
}

/// Parses the process enumerator's comma-separated name list: one trimmed
/// name per segment, in order.
pub fn parse_process_names(output: &str) -> (r: Vec<String>)
    ensures
        r@.map_values(|name: String| name@) == spec_names_from(output@, 0),
{
    let n = output.unicode_len();
    let mut out: Vec<String> = Vec::new();
    let mut i: usize = 0;
    let mut done = false;
    while !done
        invariant
            i <= n,
            n == output@.len(),
            !done ==> out@.map_values(|name: String| name@) + spec_names_from(output@, i as int)
                =~= spec_names_from(output@, 0),
            done ==> out@.map_values(|name: String| name@) =~= spec_names_from(output@, 0),
        decreases n - i + 1, (if done { 0int } else { 1int }),
    {
        let ghost prev = out@.map_values(|name: String| name@);
        let j = find_separator(output, i);
        let seg = output.substring_char(i, j);
        let name = trim_blanks(seg);
        out.push(name);
        proof {
            assert(out@.map_values(|n2: String| n2@) =~= prev + seq![name@]);
        }
        if j >= n {
            done = true;
        } else {
            i = j + 2;
            proof {
                assert(prev + seq![name@] + spec_names_from(output@, i as int)
                    =~= spec_names_from(output@, 0));
            }
        }
    }
    out
}

/// Settles a window-listing invocation from what the launcher reported: a
/// clean exit parses the enumerator's output into records, any other
/// outcome is the corresponding error, verbatim.
pub fn settle_window_list(outcome: LaunchOutcome) -> (r: Result<Vec<WindowRecord>, DispatchError>)
    ensures
        r is Ok <==> (outcome matches LaunchOutcome::Exited { success, .. } && success),
        outcome matches LaunchOutcome::Exited { success, stdout, .. } ==> (success ==> (r matches
            Ok(v) && v@.map_values(|w: WindowRecord| record_model(w)) == spec_records_from(
            stdout@,
            0,
        ))),
        outcome matches LaunchOutcome::SpawnFailed(m) ==> (r matches Err(
            DispatchError::LauncherSpawnFailed(m2),
        ) && m2@ == m@),
        outcome matches LaunchOutcome::Exited { success, stderr, .. } ==> (!success ==> (r matches
            Err(DispatchError::NonZeroExit(e)) && e@ == stderr@)),
{
    match outcome {
        LaunchOutcome::SpawnFailed(m) => Err(DispatchError::LauncherSpawnFailed(m)),
        LaunchOutcome::Exited { success, stdout, stderr } => {
            if success {
                Ok(parse_window_list(stdout.as_str()))
            } else {
                Err(DispatchError::NonZeroExit(stderr))
            }
        },
    }
}

} // verus!
