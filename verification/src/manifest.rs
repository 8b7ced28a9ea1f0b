//! The line-oriented entry source.  Each line names one entry as
//! `owner/repo` or `owner/repo:name`; blank lines and lines opening with `#`
//! are skipped; every field is trimmed of surrounding whitespace, which also
//! copes with CRLF line endings.  A malformed line — no `/`, or an owner or
//! repository that trims to nothing — is fatal to the whole run and is
//! reported with its 1-based line number.

use vstd::prelude::*;

use crate::error::SourceParseError;
use crate::text::find_char;
use crate::text::find_char_in;
use crate::text::trim_ws;
use crate::text::trimmed;

verus! {

/// One entry of the line-oriented source: a repository and, optionally, the
/// name to list it under.
pub struct ManifestEntry {
    pub owner: String,
    pub repo: String,
    pub name: Option<String>,
}

/// The mathematical value of a [`ManifestEntry`].
pub struct ManifestEntryV {
    pub owner: Seq<char>,
    pub repo: Seq<char>,
    pub name: Option<Seq<char>>,
}

impl View for ManifestEntry {
    type V = ManifestEntryV;

    open spec fn view(&self) -> ManifestEntryV {
        ManifestEntryV {
            owner: self.owner@,
            repo: self.repo@,
            name: match self.name {
                Some(ref n) => Some(n@),
                None => None,
            },
        }
    }
}

/// The view of an entry list.
pub open spec fn manifest_view(es: Seq<ManifestEntry>) -> Seq<ManifestEntryV> {
    es.map_values(|e: ManifestEntry| e@)
}

/// The lines of a source text, split at `\n`.  A final line without a
/// terminator counts as a line; a terminator at the very end opens no empty
/// extra line.
pub open spec fn lines_spec(s: Seq<char>) -> Seq<Seq<char>>
    decreases s.len(),
{
    if s.len() == 0 {
        Seq::empty()
    } else {
        let f = find_char(s, '\n');
        if 0 <= f < s.len() {
            seq![s.subrange(0, f)] + lines_spec(s.subrange(f + 1, s.len() as int))
        } else {
            seq![s]
        }
    }
}

/// What one line means: nothing, one entry, or a malformed record.
pub enum LineParse {
    Skip,
    Entry(ManifestEntryV),
    Bad,
}

/// Parse one line.  A line that trims to nothing, or opens with `#`, is
/// skipped.  Otherwise the first `/` splits owner from the rest; a `:` in
/// the rest splits repository from name; all three parts are trimmed.  A
/// line with no `/`, or whose owner or repository trims to nothing, is
/// malformed.
pub open spec fn parse_line_spec(l: Seq<char>) -> LineParse {
    if trimmed(l).len() == 0 || (l.len() > 0 && l[0] == '#') {
        LineParse::Skip
    } else {
        let f = find_char(l, '/');
        if f < 0 {
            LineParse::Bad
        } else {
            let owner = trimmed(l.subrange(0, f));
            let rest = l.subrange(f + 1, l.len() as int);
            let g = find_char(rest, ':');
            let repo = if g < 0 {
                trimmed(rest)
            } else {
                trimmed(rest.subrange(0, g))
            };
            let name = if g < 0 {
                None
            } else {
                Some(trimmed(rest.subrange(g + 1, rest.len() as int)))
            };
            if owner.len() == 0 || repo.len() == 0 {
                LineParse::Bad
            } else {
                LineParse::Entry(ManifestEntryV { owner, repo, name })
            }
        }
    }
}

/// Parse a list of lines: the entries of the parsed lines in order, or the
/// 0-based index of the first malformed line.
pub open spec fn parse_lines_spec(ls: Seq<Seq<char>>) -> Result<Seq<ManifestEntryV>, int>
    decreases ls.len(),
{
    if ls.len() == 0 {
        Ok(Seq::empty())
    } else {
        match parse_lines_spec(ls.drop_last()) {
            Err(e) => Err(e),
            Ok(es) => match parse_line_spec(ls.last()) {
                LineParse::Skip => Ok(es),
                LineParse::Entry(e) => Ok(es.push(e)),
                LineParse::Bad => Err(ls.len() - 1),
            },
        }
    }
}

/// What a whole source text parses to.
pub open spec fn parse_manifest_spec(s: Seq<char>) -> Result<Seq<ManifestEntryV>, int> {
    parse_lines_spec(lines_spec(s))
}

/// Once a clean prefix hits a malformed line, the whole parse reports that
/// line, whatever follows it.
proof fn lemma_error_propagates(ls: Seq<Seq<char>>, k: int)
    requires
        0 <= k < ls.len(),
        parse_lines_spec(ls.subrange(0, k)) is Ok,
        parse_line_spec(ls[k]) is Bad,
    ensures
        parse_lines_spec(ls) == Err::<Seq<ManifestEntryV>, int>(k),
    decreases ls.len(),
{
    if ls.len() == k + 1 {
        assert(ls.drop_last() =~= ls.subrange(0, k));
    } else {
        assert(ls.drop_last().subrange(0, k) =~= ls.subrange(0, k));
        lemma_error_propagates(ls.drop_last(), k);
    }
}

/// The exec twin of [`LineParse`].
pub enum LineOutcome {
    Skip,
    Entry(ManifestEntry),
    Bad,
}

impl View for LineOutcome {
    type V = LineParse;

    open spec fn view(&self) -> LineParse {
        match self {
            LineOutcome::Skip => LineParse::Skip,
            LineOutcome::Entry(e) => LineParse::Entry(e@),
            LineOutcome::Bad => LineParse::Bad,
        }
    }
}

/// Parse one line of the source, as [`parse_line_spec`] reads it.
pub fn parse_line(line: &str) -> (r: LineOutcome)
    ensures
        r@ == parse_line_spec(line@),
{
    let t = trim_ws(line);
    let n = line.unicode_len();
    if t.as_str().is_empty() {
        return LineOutcome::Skip;
    }
    if n > 0 && line.get_char(0) == '#' {
        return LineOutcome::Skip;
    }
    match find_char_in(line, '/') {
        None => LineOutcome::Bad,
        Some(f) => {
            let owner = trim_ws(line.substring_char(0, f));
            let rest = line.substring_char(f + 1, n);
            let rn = rest.unicode_len();
            let (repo, name) = match find_char_in(rest, ':') {
                None => (trim_ws(rest), None::<String>),
                Some(g) => (
                    trim_ws(rest.substring_char(0, g)),
                    Some(trim_ws(rest.substring_char(g + 1, rn))),
                ),
            };
            if owner.as_str().is_empty() || repo.as_str().is_empty() {
                LineOutcome::Bad
            } else {
                LineOutcome::Entry(ManifestEntry { owner, repo, name })
            }
        },
    }
}

/// Parse a whole line-oriented source into its entry list.  On the first
/// malformed line the run fails with that line's 1-based number; each line
/// is judged on its own, whatever follows it.
pub fn parse_manifest(text: &str) -> (r: Result<Vec<ManifestEntry>, SourceParseError>)
    ensures
        match r {
            Ok(es) => parse_manifest_spec(text@) == Ok::<Seq<ManifestEntryV>, int>(
                manifest_view(es@),
            ),
            Err(e) => parse_manifest_spec(text@) matches Err(i) && e.line == i + 1,
        },
{
    let ghost all = lines_spec(text@);
    let ghost total = all.len() as int;
    let n_total = text.unicode_len();
    let mut rest: &str = text;
    let mut lineno: usize = 0;
    let mut out: Vec<ManifestEntry> = Vec::new();
    proof {
        assert(all.subrange(0, total) =~= all);
        assert(all.subrange(0, 0) =~= Seq::<Seq<char>>::empty());
        assert(manifest_view(out@) =~= Seq::<ManifestEntryV>::empty());
    }
    while rest.unicode_len() > 0
        invariant
            text@.len() == n_total as nat,
            lineno as int <= total,
            lineno + rest@.len() <= text@.len(),
            total == all.len() as int,
            all == lines_spec(text@),
            lines_spec(rest@) == all.subrange(lineno as int, total),
            parse_lines_spec(all.subrange(0, lineno as int)) == Ok::<Seq<ManifestEntryV>, int>(
                manifest_view(out@),
            ),
        decreases rest@.len(),
    {
        let ghost rv = rest@;
        let rn = rest.unicode_len();
        let (endl, skip) = match find_char_in(rest, '\n') {
            Some(f) => (f, true),
            None => (rn, false),
        };
        let line = rest.substring_char(0, endl);
        let new_rest = if skip {
            rest.substring_char(endl + 1, rn)
        } else {
            rest.substring_char(rn, rn)
        };
        proof {
            if skip {
                assert(lines_spec(rv) == seq![rv.subrange(0, endl as int)] + lines_spec(
                    rv.subrange(endl as int + 1, rv.len() as int),
                ));
            } else {
                assert(lines_spec(rv) == seq![rv]);
                assert(line@ =~= rv);
                assert(new_rest@.len() == 0);
                assert(lines_spec(rv) =~= seq![line@] + lines_spec(new_rest@));
            }
            assert(lines_spec(rv) == seq![line@] + lines_spec(new_rest@));
            assert((seq![line@] + lines_spec(new_rest@))[0] == line@);
            assert((lineno as int) < total);
            assert(all.subrange(lineno as int, total)[0] == all[lineno as int]);
            assert(all[lineno as int] == line@);
            assert forall|j: int| 0 <= j < lines_spec(new_rest@).len() implies lines_spec(
                new_rest@,
            )[j] == all.subrange(lineno as int + 1, total)[j] by {
                assert(lines_spec(new_rest@)[j] == (seq![line@] + lines_spec(new_rest@))[j + 1]);
                assert(all.subrange(lineno as int, total)[j + 1] == all[lineno as int + 1 + j]);
            }
            assert(lines_spec(new_rest@) =~= all.subrange(lineno as int + 1, total));
        }
        let parsed = parse_line(line);
        proof {
            let pre = all.subrange(0, lineno as int);
            let ext = all.subrange(0, lineno as int + 1);
            assert(ext.drop_last() =~= pre);
            assert(ext.last() == line@);
        }
        match parsed {
            LineOutcome::Skip => {},
            LineOutcome::Entry(e) => {
                let ghost pre_out = out@;
                let ghost eview = e@;
                out.push(e);
                proof {
                    assert forall|j: int| 0 <= j < out@.len() implies manifest_view(out@)[j]
                        == manifest_view(pre_out).push(eview)[j] by {
                        if j < pre_out.len() {
                            assert(out@[j] == pre_out[j]);
                        }
                    }
                    assert(manifest_view(out@) =~= manifest_view(pre_out).push(eview));
                }
            },
            LineOutcome::Bad => {
                proof {
                    lemma_error_propagates(all, lineno as int);
                }
                return Err(SourceParseError { line: lineno + 1 });
            },
        }
        rest = new_rest;
        lineno = lineno + 1;
    }
    proof {
        assert(all.subrange(lineno as int, total).len() == 0);
        assert(lineno as int == total);
        assert(all.subrange(0, lineno as int) =~= all);
    }
    Ok(out)
}

} // verus!
