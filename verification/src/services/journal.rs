use vstd::prelude::*;

use crate::text::{
    contains, contains_text, decimal, lines_of, lit, lowercase, split_lines, str_eq, texts, to_lowercase,
    cat,
};

verus! {

/// Reads Xray's log from the systemd journal.
pub struct JournalService;

/// The arguments of `journalctl` for the last `lines` entries of the `xray`
/// unit, at or above `level` unless it is empty or `all`.
pub open spec fn journal_args_spec(lines: u32, level: Option<Seq<char>>) -> Seq<Seq<char>> {
    let base = seq![
        "-u"@,
        "xray"@,
        "-n"@,
        decimal(lines as nat),
        "--no-pager"@,
        "-o"@,
        "short-iso"@,
    ];
    match level {
        Some(l) => if l.len() > 0 && l != "all"@ {
            base + seq!["-p"@, l + "..emerg"@]
        } else {
            base
        },
        None => base,
    }
}

/// The lines that contain `filter`, ignoring case.
pub open spec fn keep_matching(lines: Seq<Seq<char>>, filter: Seq<char>) -> Seq<Seq<char>>
    decreases lines.len(),
{
    if lines.len() == 0 {
        Seq::empty()
    } else {
        let before = keep_matching(lines.drop_last(), filter);
        if contains_text(lowercase(lines.last()), lowercase(filter)) {
            before.push(lines.last())
        } else {
            before
        }
    }
}

/// The log lines of the journal output, kept only where they contain a
/// non-empty filter, ignoring case.
pub open spec fn filtered_log(output: Seq<char>, filter: Option<Seq<char>>) -> Seq<Seq<char>> {
    match filter {
        Some(f) => if f.len() > 0 {
            keep_matching(lines_of(output), f)
        } else {
            lines_of(output)
        },
        None => lines_of(output),
    }
}

impl JournalService {
    /// The arguments with which `journalctl` is run.
    pub fn journal_args(lines: u32, level: Option<&str>) -> (r: Vec<String>)
        ensures
            texts(r@) == journal_args_spec(
                lines,
                match level {
                    Some(l) => Some(l@),
                    None => None,
                },
            ),
    {
        let mut v: Vec<String> = Vec::new();
        v.push(lit("-u"));
        v.push(lit("xray"));
        v.push(lit("-n"));
        v.push(crate::text::u64_to_decimal(lines as u64));
        v.push(lit("--no-pager"));
        v.push(lit("-o"));
        v.push(lit("short-iso"));
        let ghost base = texts(v@);
        if let Some(lvl) = level {
            if !lvl.is_empty() && !str_eq(lvl, "all") {
                v.push(lit("-p"));
                v.push(cat(lvl, "..emerg"));
                assert(texts(v@) =~= base + seq!["-p"@, lvl@ + "..emerg"@]);
            }
        }
        assert(base =~= seq!["-u"@, "xray"@, "-n"@, decimal(lines as nat), "--no-pager"@, "-o"@, "short-iso"@]);
        v
    }

    /// The lines of the journal output that contain the filter (see
    /// `filtered_log`).
    pub fn filter_log_lines(output: &str, filter: Option<&str>) -> (r: Vec<String>)
        ensures
            texts(r@) == filtered_log(
                output@,
                match filter {
                    Some(f) => Some(f@),
                    None => None,
                },
            ),
    {
        let lines = split_lines(output);
        match filter {
            Some(f) => {
                if f.is_empty() {
                    return lines;
                }
                let needle = to_lowercase(f);
                let mut kept: Vec<String> = Vec::new();
                let mut i: usize = 0;
                while i < lines.len()
                    invariant
                        i <= lines@.len(),
                        texts(lines@) == lines_of(output@),
                        needle@ == lowercase(f@),
                        texts(kept@) == keep_matching(texts(lines@).take(i as int), f@),
                    decreases lines@.len() - i,
                {
                    let ghost upto = texts(lines@).take(i + 1);
                    assert(upto.drop_last() =~= texts(lines@).take(i as int));
                    assert(upto.last() == lines@[i as int]@);
                    let low = to_lowercase(lines[i].as_str());
                    if contains(low.as_str(), needle.as_str()) {
                        let ghost prev = texts(kept@);
                        kept.push(lines[i].clone());
                        assert(texts(kept@) =~= prev.push(lines@[i as int]@));
                    }
                    i += 1;
                }
                assert(texts(lines@).take(lines@.len() as int) =~= texts(lines@));
                kept
            },
            None => lines,
        }
    }
}

} // verus!
