//! The source location column of a log line.
use vstd::prelude::*;
use vstd::string::*;

use crate::config::runtime::LogRotation;
use crate::text::{
    find_last_char, first_index_of, last_index_of, lemma_first_index_of, lemma_last_index_of,
    push_char, push_decimal, spec_decimal,
};

verus! {

/// Width of the source location column, in characters.
pub const PATH_COLUMN_WIDTH: usize = 28;

/// `s` with every backslash turned into a slash.
pub open spec fn spec_slashes(s: Seq<char>) -> Seq<char> {
    s.map_values(|c: char| if c == '\\' { '/' } else { c })
}

/// The index of the first occurrence of `pat` in `s` at or after `i`.
pub open spec fn first_match(s: Seq<char>, pat: Seq<char>, i: nat) -> Option<nat>
    decreases s.len() + 1 - i,
{
    if i + pat.len() > s.len() {
        None
    } else if s.subrange(i as int, (i + pat.len()) as int) == pat {
        Some(i)
    } else {
        first_match(s, pat, i + 1)
    }
}

/// `n` spaces.
pub open spec fn spaces(n: nat) -> Seq<char> {
    Seq::new(n, |i: int| ' ')
}

/// `path:line`.
pub open spec fn spec_located(path: Seq<char>, line: u32) -> Seq<char> {
    path + seq![':'] + spec_decimal(line as nat)
}

/// `path:line` fitted into `max_width` characters: right-aligned where it
/// fits; else the file name with as much of its directory as fits, cut at a
/// slash; else its last characters after an ellipsis.
pub open spec fn spec_smart_truncate(path: Seq<char>, line: u32, max_width: nat) -> Seq<char> {
    let full = spec_located(path, line);
    if full.len() <= max_width {
        spaces((max_width - full.len()) as nat) + full
    } else {
        match last_index_of(path, '/', path.len()) {
            Some(k) if spec_located(path.skip((k + 1) as int), line).len() + 2 <= max_width => {
                let file_part = spec_located(path.skip((k + 1) as int), line);
                let dir = path.take(k as int);
                let remaining = max_width - file_part.len() - 1;
                let start = if dir.len() > remaining {
                    dir.len() - remaining
                } else {
                    0
                };
                let tail = dir.skip(start);
                let clean = match first_index_of(tail, '/', 0) {
                    Some(i) => tail.skip((i + 1) as int),
                    None => tail,
                };
                clean + seq!['/'] + file_part
            },
            _ => {
                let keep = (max_width - 1) as nat;
                let start = if full.len() > keep {
                    full.len() - keep
                } else {
                    0
                };
                seq!['…'] + full.skip(start)
            },
        }
    }
}

/// Fitting `path:line` into `max_width` characters never gives more than
/// `max_width` characters: padded on the left where it fits; else a
/// suffix of it, or an ellipsis followed by one.
pub proof fn lemma_smart_truncate_fits(path: Seq<char>, line: u32, max_width: nat)
    requires
        max_width >= 1,
    ensures
        spec_smart_truncate(path, line, max_width).len() <= max_width,
        spec_located(path, line).len() <= max_width ==> spec_smart_truncate(path, line, max_width)
            == spaces((max_width - spec_located(path, line).len()) as nat) + spec_located(path, line),
        spec_located(path, line).len() > max_width ==> ({
            let r = spec_smart_truncate(path, line, max_width);
            let full = spec_located(path, line);
            ||| r.len() <= full.len() && r == full.skip(full.len() - r.len())
            ||| r.len() == max_width && r[0] == '…' && r.skip(1) == full.skip(
                full.len() - (max_width - 1),
            )
        }),
{
    let full = spec_located(path, line);
    let r = spec_smart_truncate(path, line, max_width);
    if full.len() > max_width {
        lemma_last_index_of(path, '/', path.len());
        match last_index_of(path, '/', path.len()) {
            Some(k) if spec_located(path.skip((k + 1) as int), line).len() + 2 <= max_width => {
                let file_part = spec_located(path.skip((k + 1) as int), line);
                let dir = path.take(k as int);
                let remaining = max_width - file_part.len() - 1;
                let start: nat = if dir.len() > remaining {
                    (dir.len() - remaining) as nat
                } else {
                    0
                };
                let tail = dir.skip(start as int);
                lemma_first_index_of(tail, '/', 0);
                let s2: nat = match first_index_of(tail, '/', 0) {
                    Some(i) => start + i + 1,
                    None => start,
                };
                let clean = match first_index_of(tail, '/', 0) {
                    Some(i) => tail.skip((i + 1) as int),
                    None => tail,
                };
                assert(clean =~= dir.skip(s2 as int));
                assert(path =~= dir + seq!['/'] + path.skip((k + 1) as int));
                assert(r =~= clean + seq!['/'] + file_part);
                assert(r =~= full.skip(s2 as int));
            },
            _ => {
                assert(r.skip(1) =~= full.skip(full.len() - (max_width - 1)));
            },
        }
    } else {
    }
}

/// `s` without the `c` characters it starts with.
pub open spec fn spec_trim_start(s: Seq<char>, c: char) -> Seq<char>
    decreases s.len(),
{
    if s.len() > 0 && s[0] == c {
        spec_trim_start(s.skip(1), c)
    } else {
        s
    }
}

/// `t` is how `full` ends.
pub open spec fn is_suffix(t: Seq<char>, full: Seq<char>) -> bool {
    t.len() <= full.len() && full.skip(full.len() - t.len()) == t
}

proof fn lemma_trim_keeps_suffix(t: Seq<char>, full: Seq<char>, c: char)
    requires
        is_suffix(t, full),
    ensures
        is_suffix(spec_trim_start(t, c), full),
    decreases t.len(),
{
    if t.len() > 0 && t[0] == c {
        assert(full.skip(full.len() - (t.len() - 1)) =~= t.skip(1));
        lemma_trim_keeps_suffix(t.skip(1), full, c);
    }
}

proof fn lemma_trim_spaces(k: nat, x: Seq<char>)
    ensures
        spec_trim_start(spaces(k) + x, ' ') == spec_trim_start(x, ' '),
    decreases k,
{
    if k > 0 {
        assert((spaces(k) + x).skip(1) =~= spaces((k - 1) as nat) + x);
        lemma_trim_spaces((k - 1) as nat, x);
    } else {
        assert(spaces(k) + x =~= x);
    }
}

/// What fitting `path:line` into its column leaves, with the padding spaces
/// and the ellipsis trimmed off its start, is how `path:line` ends.
pub proof fn lemma_smart_truncate_suffix(path: Seq<char>, line: u32, max_width: nat)
    requires
        max_width >= 1,
    ensures
        is_suffix(
            spec_trim_start(spec_trim_start(spec_smart_truncate(path, line, max_width), ' '), '…'),
            spec_located(path, line),
        ),
{
    let full = spec_located(path, line);
    let r = spec_smart_truncate(path, line, max_width);
    lemma_smart_truncate_fits(path, line, max_width);
    assert(is_suffix(full, full)) by {
        assert(full.skip(0) =~= full);
    }
    if full.len() <= max_width {
        lemma_trim_spaces((max_width - full.len()) as nat, full);
        lemma_trim_keeps_suffix(full, full, ' ');
        lemma_trim_keeps_suffix(spec_trim_start(full, ' '), full, '…');
    } else if r.len() <= full.len() && r == full.skip(full.len() - r.len()) {
        lemma_trim_keeps_suffix(r, full, ' ');
        lemma_trim_keeps_suffix(spec_trim_start(r, ' '), full, '…');
    } else {
        let suf = r.skip(1);
        assert(r.len() > 0 && r[0] == '…');
        assert(spec_trim_start(r, ' ') == r);
        assert(is_suffix(suf, full));
        lemma_trim_keeps_suffix(suf, full, '…');
    }
}

/// The source location of `file` and `line` as the log column shows it:
/// slashes for backslashes, the path taken after its first `src/`, fitted
/// into `PATH_COLUMN_WIDTH` characters.
pub open spec fn spec_format_path(file: Seq<char>, line: u32) -> Seq<char> {
    let normalized = spec_slashes(file);
    let stripped = match first_match(normalized, "src/"@, 0) {
        Some(i) => normalized.skip((i + 4) as int),
        None => normalized,
    };
    spec_smart_truncate(stripped, line, PATH_COLUMN_WIDTH as nat)
}

/// Formats log lines: time, level badge, source location and message.
pub struct AnsiFormatter;

fn located(path: &str, line: u32) -> (s: String)
    ensures
        s@ == spec_located(path@, line),
{
    let mut s = String::from_str(path);
    push_char(&mut s, ':');
    push_decimal(&mut s, line as u64);
    assert(s@ =~= spec_located(path@, line));
    s
}

/// Where the first `src/` in `text` starts.
fn find_src(text: &str) -> (res: Option<usize>)
    ensures
        match first_match(text@, "src/"@, 0) {
            Some(k) => res == Some(k as usize) && k + 4 <= text@.len(),
            None => res is None,
        },
{
    let n = text.unicode_len();
    proof {
        reveal_strlit("src/");
    }
    let mut j: usize = 0;
    while n >= 4 && j <= n - 4
        invariant
            n == text@.len(),
            "src/"@ == seq!['s', 'r', 'c', '/'],
            first_match(text@, "src/"@, 0) == first_match(text@, "src/"@, j as nat),
        decreases n + 1 - j,
    {
        if text.get_char(j) == 's' && text.get_char(j + 1) == 'r' && text.get_char(j + 2) == 'c'
            && text.get_char(j + 3) == '/' {
            assert(text@.subrange(j as int, j + 4) =~= "src/"@);
            return Some(j);
        }
        assert(text@.subrange(j as int, j + 4) != "src/"@) by {
            if text@.subrange(j as int, j + 4) == "src/"@ {
                assert(text@.subrange(j as int, j + 4)[0] == 's');
                assert(text@.subrange(j as int, j + 4)[1] == 'r');
                assert(text@.subrange(j as int, j + 4)[2] == 'c');
                assert(text@.subrange(j as int, j + 4)[3] == '/');
            }
        }
        j = j + 1;
    }
    None
}

impl AnsiFormatter {
    pub fn new() -> (f: Self) {
        AnsiFormatter
    }

    /// The source location column for `file` and `line`; see
    /// `spec_format_path`.
    pub fn format_path(file: &str, line: u32) -> (s: String)
        ensures
            s@ == spec_format_path(file@, line),
    {
        let n = file.unicode_len();
        let mut normalized = String::new();
        let mut i: usize = 0;
        while i < n
            invariant
                i <= n,
                n == file@.len(),
                normalized@ == spec_slashes(file@).take(i as int),
            decreases n - i,
        {
            let c = file.get_char(i);
            push_char(&mut normalized, if c == '\\' { '/' } else { c });
            assert(normalized@ =~= spec_slashes(file@).take(i + 1));
            i = i + 1;
        }
        assert(normalized@ =~= spec_slashes(file@));
        let text = normalized.as_str();
        let stripped = match find_src(text) {
            Some(k) => text.substring_char(k + 4, n),
            None => text,
        };
        assert(stripped@ == match first_match(text@, "src/"@, 0) {
            Some(k) => text@.skip((k + 4) as int),
            None => text@,
        });
        Self::smart_truncate(stripped, line, PATH_COLUMN_WIDTH)
    }

    /// `path:line` fitted into `max_width` characters; see
    /// `spec_smart_truncate`.
    pub fn smart_truncate(path: &str, line: u32, max_width: usize) -> (s: String)
        requires
            max_width >= 1,
        ensures
            s@ == spec_smart_truncate(path@, line, max_width as nat),
    {
        let full = located(path, line);
        let full_len = full.as_str().unicode_len();
        if full_len <= max_width {
            let mut out = String::new();
            let mut k: usize = 0;
            while k < max_width - full_len
                invariant
                    k <= max_width - full_len,
                    out@ == spaces(k as nat),
                decreases max_width - full_len - k,
            {
                push_char(&mut out, ' ');
                assert(out@ =~= spaces((k + 1) as nat));
                k = k + 1;
            }
            out.append(full.as_str());
            return out;
        }
        let n = path.unicode_len();
        if let Some(k) = find_last_char(path, '/') {
            proof {
                lemma_last_index_of(path@, '/', path@.len());
            }
            let file_name = path.substring_char(k + 1, n);
            assert(file_name@ =~= path@.skip(k + 1));
            let file_part = located(file_name, line);
            let file_len = file_part.as_str().unicode_len();
            if max_width >= 2 && file_len <= max_width - 2 {
                let dir = path.substring_char(0, k);
                assert(dir@ =~= path@.take(k as int));
                let remaining = max_width - file_len - 1;
                let start = if k > remaining {
                    k - remaining
                } else {
                    0
                };
                let tail = dir.substring_char(start, k);
                assert(tail@ =~= dir@.skip(start as int));
                let tail_len = k - start;
                let clean = match crate::text::find_char(tail, '/') {
                    Some(i) => {
                        proof {
                            lemma_first_index_of(tail@, '/', 0);
                        }
                        let c = tail.substring_char(i + 1, tail_len);
                        assert(c@ =~= tail@.skip(i + 1));
                        c
                    },
                    None => tail,
                };
                let mut out = String::from_str(clean);
                push_char(&mut out, '/');
                out.append(file_part.as_str());
                return out;
            }
        }
        let keep = max_width - 1;
        let start = if full_len > keep {
            full_len - keep
        } else {
            0
        };
        let mut out = String::new();
        push_char(&mut out, '…');
        out.append(full.as_str().substring_char(start, full_len));
        assert(out@ =~= seq!['…'] + full@.skip(start as int));
        out
    }
}

/// What becomes of the log file the previous run left: kept, or renamed,
/// or compressed into a file, with the new extension given.
#[derive(Debug)]
pub enum RotationStep {
    Keep,
    Rename { extension: String },
    Compress { extension: String },
}

/// How the log file left by the previous run is rotated at `timestamp`
/// (the local time as `%Y-%m-%d_%H-%M-%S`): its extension becomes
/// `<timestamp>.log`, or `<timestamp>.log.gz` for the compressed copy.
pub fn rotation_step(mode: LogRotation, timestamp: &str) -> (step: RotationStep)
    ensures
        match mode {
            LogRotation::Keep => step is Keep,
            LogRotation::Rename => step matches RotationStep::Rename { extension } && extension@
                == timestamp@ + ".log"@,
            LogRotation::Compress => step matches RotationStep::Compress { extension } && extension@
                == timestamp@ + ".log.gz"@,
        },
{
    match mode {
        LogRotation::Keep => RotationStep::Keep,
        LogRotation::Rename => {
            let mut extension = timestamp.to_string();
            extension.append(".log");
            RotationStep::Rename { extension }
        },
        LogRotation::Compress => {
            let mut extension = timestamp.to_string();
            extension.append(".log.gz");
            RotationStep::Compress { extension }
        },
    }
}

} // verus!
