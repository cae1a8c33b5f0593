//! The line classifier and continuation merger.
//!
//! A raw file is a sequence of lines.  Blank lines and lines starting with
//! `#` are dropped; a trimmed line equal to a recognized header becomes a
//! header event; a line whose raw text ends with `\` opens a continuation
//! group that is space-joined into one logical attribute line; every other
//! line is an attribute line as it stands.  An attribute event carries the
//! 1-based number of its first physical line.  Scanning always resumes after
//! a group, so a single group can never swallow the rest of the file.

use vstd::prelude::*;
use vstd::string::StrSliceExecFns;
use vstd::string::StringExecFns;
use crate::text::{
    blank_line, ends_backslash, ends_with_backslash, is_blank, trim_str, trimmed,
};
use crate::tables::{segment_of_header, spec_segment_of_header};
use crate::unit::{Segment, UnitType};

verus! {

/// One logical event of the scan: a recognized section header, or an
/// attribute line (merged, when it was a continuation group) together with
/// the 1-based number of its first physical line.
pub enum LineEvent {
    Header(Segment),
    Attr(String, usize),
}

pub ghost enum LineEventView {
    Header(Segment),
    Attr(Seq<char>, int),
}

impl View for LineEvent {
    type V = LineEventView;

    open spec fn view(&self) -> LineEventView {
        match self {
            LineEvent::Header(seg) => LineEventView::Header(*seg),
            LineEvent::Attr(s, ln) => LineEventView::Attr(s@, *ln as int),
        }
    }
}

impl DeepView for LineEvent {
    type V = LineEventView;

    open spec fn deep_view(&self) -> LineEventView {
        self.view()
    }
}

/// The index of the first line at or after `i` that does not end in `\`,
/// or `lines.len()` when the file ends inside the group.
pub open spec fn group_end(lines: Seq<Seq<char>>, i: int) -> int
    decreases lines.len() - i when 0 <= i
{
    if i >= lines.len() {
        lines.len() as int
    } else if !ends_backslash(lines[i]) {
        i
    } else {
        group_end(lines, i + 1)
    }
}

/// A group's end never lies before its start nor past the file's end.
pub proof fn lemma_group_end_bounds(lines: Seq<Seq<char>>, i: int)
    requires
        0 <= i <= lines.len(),
    ensures
        i <= group_end(lines, i) <= lines.len(),
    decreases lines.len() - i,
{
    if i < lines.len() && ends_backslash(lines[i]) {
        lemma_group_end_bounds(lines, i + 1);
    }
}

/// A continued line with its trailing backslash removed.
pub open spec fn strip_backslash(l: Seq<char>) -> Seq<char> {
    l.take(l.len() - 1)
}

/// The logical text of the continuation group starting at `i`: each
/// backslash-terminated line is stripped of the backslash and space-joined
/// with what follows, up to and including the first line that does not end
/// in `\`.
pub open spec fn group_text(lines: Seq<Seq<char>>, i: int) -> Seq<char>
    decreases lines.len() - i when 0 <= i
{
    if i >= lines.len() {
        Seq::empty()
    } else if !ends_backslash(lines[i]) {
        lines[i]
    } else {
        strip_backslash(lines[i]) + seq![' '] + group_text(lines, i + 1)
    }
}

/// The events of the scan from line index `i` on (0-based; the event's line
/// stamp is the 1-based `i + 1`).
pub open spec fn spec_events(lines: Seq<Seq<char>>, unit_type: UnitType, i: int) -> Seq<
    LineEventView,
>
    decreases lines.len() - i + 1 when 0 <= i via spec_events_decreases
{
    if i >= lines.len() {
        Seq::empty()
    } else {
        let l = lines[i];
        if is_blank(l) || l[0] == '#' {
            spec_events(lines, unit_type, i + 1)
        } else {
            match spec_segment_of_header(trimmed(l), unit_type) {
                Some(seg) => seq![LineEventView::Header(seg)] + spec_events(
                    lines,
                    unit_type,
                    i + 1,
                ),
                None => if ends_backslash(l) {
                    seq![LineEventView::Attr(group_text(lines, i), i + 1)] + spec_events(
                        lines,
                        unit_type,
                        group_end(lines, i) + 1,
                    )
                } else {
                    seq![LineEventView::Attr(l, i + 1)] + spec_events(lines, unit_type, i + 1)
                },
            }
        }
    }
}

#[via_fn]
proof fn spec_events_decreases(lines: Seq<Seq<char>>, unit_type: UnitType, i: int) {
    if 0 <= i < lines.len() {
        lemma_group_end_bounds(lines, i);
    }
}

/// Scans the raw lines into the sequence of logical events.
pub fn scan_events(lines: &Vec<String>, unit_type: UnitType) -> (evs: Vec<LineEvent>)
    ensures
        evs.deep_view() == spec_events(lines.deep_view(), unit_type, 0),
{
    let ghost gl = lines.deep_view();
    let n = lines.len();
    let mut evs: Vec<LineEvent> = Vec::new();
    let mut i: usize = 0;
    proof {
        assert(evs.deep_view() =~= Seq::<LineEventView>::empty());
    }
    while i < n
        invariant
            i <= n,
            n == lines.len(),
            gl == lines.deep_view(),
            gl.len() == n,
            spec_events(gl, unit_type, 0) =~= evs.deep_view() + spec_events(
                gl,
                unit_type,
                i as int,
            ),
        decreases n - i,
    {
        let line: &String = &lines[i];
        proof {
            assert(gl[i as int] == line@);
        }
        if blank_line(line.as_str()) {
            i += 1;
        } else {
            proof {
                if line@.len() == 0 {
                    assert(is_blank(line@));
                }
            }
            if line.as_str().get_char(0) == '#' {
                i += 1;
            } else {
                let t = trim_str(line.as_str());
                match segment_of_header(t, unit_type) {
                    Some(seg) => {
                        let ghost prev = evs.deep_view();
                        evs.push(LineEvent::Header(seg));
                        proof {
                            assert(evs.deep_view() =~= prev.push(LineEventView::Header(seg)));
                            assert(prev.push(LineEventView::Header(seg)) + spec_events(
                                gl,
                                unit_type,
                                i + 1,
                            ) =~= prev + (seq![LineEventView::Header(seg)] + spec_events(
                                gl,
                                unit_type,
                                i + 1,
                            )));
                        }
                        i += 1;
                    },
                    None => {
                        if ends_with_backslash(line.as_str()) {
                            let ghost prev = evs.deep_view();
                            let r = scan_group(lines, unit_type, &mut evs, i);
                            proof {
                                lemma_group_end_bounds(gl, i as int);
                                let attr = LineEventView::Attr(group_text(gl, i as int), i + 1);
                                assert(spec_events(gl, unit_type, i as int) == seq![attr]
                                    + spec_events(gl, unit_type, group_end(gl, i as int) + 1));
                                assert(prev.push(attr) =~= prev + seq![attr]);
                                assert(prev + (seq![attr] + spec_events(
                                    gl,
                                    unit_type,
                                    group_end(gl, i as int) + 1,
                                )) =~= (prev + seq![attr]) + spec_events(
                                    gl,
                                    unit_type,
                                    group_end(gl, i as int) + 1,
                                ));
                            }
                            i = r;
                        } else {
                            let ghost prev = evs.deep_view();
                            let ev = LineEvent::Attr(line.clone(), i + 1);
                            evs.push(ev);
                            proof {
                                assert(evs.deep_view() =~= prev.push(
                                    LineEventView::Attr(line@, i + 1),
                                ));
                                assert(prev.push(LineEventView::Attr(line@, i + 1)) + spec_events(
                                    gl,
                                    unit_type,
                                    i + 1,
                                ) =~= prev + (seq![LineEventView::Attr(line@, i + 1)]
                                    + spec_events(gl, unit_type, i + 1)));
                            }
                            i += 1;
                        }
                    },
                }
            }
        }
    }
    proof {
        assert(spec_events(gl, unit_type, n as int) =~= Seq::<LineEventView>::empty());
        assert(evs.deep_view() + Seq::<LineEventView>::empty() =~= evs.deep_view());
    }
    evs
}

/// Consumes the continuation group starting at line `i`, pushes its merged
/// attribute event, and returns the index scanning resumes at.
fn scan_group(lines: &Vec<String>, unit_type: UnitType, evs: &mut Vec<LineEvent>, i: usize) -> (r:
    usize)
    requires
        i < lines@.len(),
        ends_backslash(lines.deep_view()[i as int]),
        !is_blank(lines.deep_view()[i as int]),
        lines.deep_view()[i as int][0] != '#',
        spec_segment_of_header(trimmed(lines.deep_view()[i as int]), unit_type) is None,
    ensures
        i < r <= lines@.len(),
        final(evs).deep_view() == old(evs).deep_view() + seq![
            LineEventView::Attr(group_text(lines.deep_view(), i as int), i + 1),
        ],
        spec_events(lines.deep_view(), unit_type, r as int) == spec_events(
            lines.deep_view(),
            unit_type,
            group_end(lines.deep_view(), i as int) + 1,
        ),
{
    let ghost gl = lines.deep_view();
    let n = lines.len();
    let mut acc = String::new();
    let mut j: usize = i;
    proof {
        assert(group_text(gl, i as int) =~= acc@ + group_text(gl, i as int));
    }
    while j < n && ends_with_backslash(lines[j].as_str())
        invariant
            i <= j <= n,
            n == lines.len(),
            gl == lines.deep_view(),
            gl.len() == n,
            group_text(gl, i as int) =~= acc@ + group_text(gl, j as int),
            group_end(gl, i as int) == group_end(gl, j as int),
        decreases n - j,
    {
        let l: &String = &lines[j];
        proof {
            assert(gl[j as int] == l@);
        }
        let len = l.as_str().unicode_len();
        let piece = l.as_str().substring_char(0, len - 1);
        acc.append(piece);
        acc.append(" ");
        proof {
            reveal_strlit(" ");
            assert(piece@ =~= strip_backslash(gl[j as int]));
            assert(" "@ =~= seq![' ']);
            assert(acc@ + group_text(gl, j as int + 1) =~= (acc@ + group_text(gl, j as int + 1)));
            assert(group_text(gl, j as int) == strip_backslash(gl[j as int]) + seq![' ']
                + group_text(gl, j as int + 1));
            assert(group_text(gl, i as int) =~= acc@ + group_text(gl, j as int + 1));
        }
        j += 1;
    }
    let r: usize;
    if j < n {
        acc.append(lines[j].as_str());
        proof {
            assert(gl[j as int] == lines@[j as int]@);
            assert(group_text(gl, j as int) == gl[j as int]);
            assert(group_text(gl, i as int) =~= acc@);
            assert(group_end(gl, j as int) == j as int);
        }
        r = j + 1;
    } else {
        proof {
            assert(group_text(gl, j as int) =~= Seq::<char>::empty());
            assert(group_text(gl, i as int) =~= acc@);
            assert(group_end(gl, j as int) == n as int);
            assert(spec_events(gl, unit_type, n as int) =~= Seq::<LineEventView>::empty());
            assert(spec_events(gl, unit_type, n as int + 1) =~= Seq::<LineEventView>::empty());
        }
        r = n;
    }
    let ghost prev = evs.deep_view();
    evs.push(LineEvent::Attr(acc, i + 1));
    proof {
        assert(evs.deep_view() =~= prev + seq![
            LineEventView::Attr(group_text(gl, i as int), i + 1),
        ]);
    }
    r
}

} // verus!
