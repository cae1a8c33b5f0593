//! The library's global laws, proved once and for all inputs from the spec
//! functions the public contracts use.

use vstd::prelude::*;
use crate::scan::{
    group_end, group_text, lemma_group_end_bounds, spec_events, LineEventView,
};
use crate::tables::{spec_base_attr_of, spec_segment_of_header, BaseUnitAttr};
use crate::text::{ends_backslash, first_eq_at, is_blank, trimmed};
use crate::parse::{
    spec_apply_events, spec_apply_base, spec_dispatch_kv, spec_dispatch_line, spec_ext_ok,
    spec_parse,
};
use crate::unit::{
    ParseErrorType, ParseErrorView, Segment, UnitRecordView, UnitType,
};

verus! {

/// Setting any key of the base-unit table inside `[Unit]` succeeds, and the
/// new record is the old one with exactly that attribute assigned from the
/// value; nothing else changes.
pub proof fn lemma_base_key_in_unit_segment(
    m: UnitRecordView,
    key: Seq<char>,
    val: Seq<char>,
    attr: BaseUnitAttr,
)
    requires
        spec_base_attr_of(key) == Some(attr),
    ensures
        spec_dispatch_kv(m, Segment::Unit, key, val) == Ok::<UnitRecordView, ParseErrorType>(
            UnitRecordView { base: spec_apply_base(m.base, attr, val), ..m },
        ),
{
}

/// Setting any key of the base-unit table inside a segment other than
/// `[Unit]` fails with `EINVAL` and leaves no other outcome open.
pub proof fn lemma_base_key_wrong_segment(
    m: UnitRecordView,
    seg: Segment,
    key: Seq<char>,
    val: Seq<char>,
)
    requires
        spec_base_attr_of(key) is Some,
        seg != Segment::Unit,
    ensures
        spec_dispatch_kv(m, seg, key, val) == Err::<UnitRecordView, ParseErrorType>(
            ParseErrorType::EINVAL,
        ),
{
}

/// An attribute line reached before any header fails with `ESyntaxError`,
/// stamped with that line's 1-based number.
pub proof fn lemma_attr_before_header(
    evs: Seq<LineEventView>,
    path: Seq<char>,
    m: UnitRecordView,
    text: Seq<char>,
    ln: int,
)
    requires
        evs.len() > 0,
        evs.first() == LineEventView::Attr(text, ln),
    ensures
        spec_apply_events(evs, path, Segment::Unset, m) == Err::<UnitRecordView, ParseErrorView>(
            ParseErrorView { error_type: ParseErrorType::ESyntaxError, file: path, linenum: ln },
        ),
{
}

/// A continuation group merges into a single attribute event, stamped with
/// its first line's number, and the scan resumes right after the group: the
/// events of the rest of the file follow unchanged.
pub proof fn lemma_continuation_resumes(lines: Seq<Seq<char>>, unit_type: UnitType, i: int)
    requires
        0 <= i < lines.len(),
        !is_blank(lines[i]),
        lines[i][0] != '#',
        spec_segment_of_header(trimmed(lines[i]), unit_type) is None,
        ends_backslash(lines[i]),
    ensures
        i <= group_end(lines, i) <= lines.len(),
        spec_events(lines, unit_type, i) == seq![
            LineEventView::Attr(group_text(lines, i), i + 1),
        ] + spec_events(lines, unit_type, group_end(lines, i) + 1),
{
    lemma_group_end_bounds(lines, i);
}

/// The first `=` of a line whose text up to index `k` holds none and whose
/// character at `k` is `=` stands exactly at `k`.
proof fn lemma_first_eq_prefix(s: Seq<char>, i: int, k: int)
    requires
        0 <= i <= k < s.len(),
        s[k] == '=',
        forall|j: int| i <= j < k ==> s[j] != '=',
    ensures
        first_eq_at(s, i) == k,
    decreases k - i,
{
    if i < k {
        lemma_first_eq_prefix(s, i + 1, k);
    }
}

/// An attribute line splits at its first `=`: for any key text without an
/// `=`, the line `key=value` dispatches as the trimmed key against the
/// trimmed value, however many further `=` the value holds.
pub proof fn lemma_split_on_first_eq(
    m: UnitRecordView,
    seg: Segment,
    key: Seq<char>,
    val: Seq<char>,
)
    requires
        forall|j: int| 0 <= j < key.len() ==> key[j] != '=',
    ensures
        spec_dispatch_line(m, seg, key + seq!['='] + val) == spec_dispatch_kv(
            m,
            seg,
            trimmed(key),
            trimmed(val),
        ),
{
    let text = key + seq!['='] + val;
    lemma_first_eq_prefix(text, 0, key.len() as int);
    assert(text.subrange(0, key.len() as int) =~= key);
    assert(text.subrange(key.len() as int + 1, text.len() as int) =~= val);
}

/// A line without any `=` fails to dispatch with `ESyntaxError`, whatever
/// the active segment and record.
pub proof fn lemma_line_without_eq(m: UnitRecordView, seg: Segment, text: Seq<char>)
    requires
        forall|j: int| 0 <= j < text.len() ==> text[j] != '=',
    ensures
        spec_dispatch_line(m, seg, text) == Err::<UnitRecordView, ParseErrorType>(
            ParseErrorType::ESyntaxError,
        ),
{
    lemma_no_eq_scan(text, 0);
}

/// Scanning for `=` over text that has none reaches the end.
proof fn lemma_no_eq_scan(s: Seq<char>, i: int)
    requires
        0 <= i <= s.len(),
        forall|j: int| 0 <= j < s.len() ==> s[j] != '=',
    ensures
        first_eq_at(s, i) == s.len(),
    decreases s.len() - i,
{
    if i < s.len() {
        lemma_no_eq_scan(s, i + 1);
    }
}

/// The event fold never reports `EFILE`: its failures are `ESyntaxError`
/// and `EINVAL` alone.
proof fn lemma_fold_never_efile(
    evs: Seq<LineEventView>,
    path: Seq<char>,
    seg: Segment,
    m: UnitRecordView,
)
    ensures
        spec_apply_events(evs, path, seg, m) matches Err(e) ==> e.error_type
            != ParseErrorType::EFILE,
    decreases evs.len(),
{
    if evs.len() > 0 {
        match evs.first() {
            LineEventView::Header(seg2) => {
                lemma_fold_never_efile(evs.drop_first(), path, seg2, m);
            },
            LineEventView::Attr(text, ln) => {
                if seg != Segment::Unset {
                    match spec_dispatch_line(m, seg, text) {
                        Ok(m2) => {
                            lemma_fold_never_efile(evs.drop_first(), path, seg, m2);
                        },
                        Err(k) => {
                            assert(k != ParseErrorType::EFILE);
                        },
                    }
                }
            },
        }
    }
}

/// `EFILE` comes from the extension check and from nothing else: a parse
/// fails with `EFILE` exactly when the path's extension does not name the
/// requested unit kind.
pub proof fn lemma_efile_iff_bad_extension(
    path: Seq<char>,
    unit_type: UnitType,
    lines: Seq<Seq<char>>,
)
    ensures
        (spec_parse(path, unit_type, lines) matches Err(e) && e.error_type
            == ParseErrorType::EFILE) <==> !spec_ext_ok(path, unit_type),
{
    if spec_ext_ok(path, unit_type) {
        lemma_fold_never_efile(
            spec_events(lines, unit_type, 0),
            path,
            Segment::Unset,
            crate::unit::init_record(unit_type),
        );
    }
}

/// Parsing is pure: it has no state besides its inputs, so two parses of
/// the same path, kind and lines yield the same outcome — the record fields
/// of two successful parses of one file are identical.
pub proof fn lemma_parse_idempotent(
    path: Seq<char>,
    unit_type: UnitType,
    lines: Seq<Seq<char>>,
    r1: Result<UnitRecordView, ParseErrorView>,
    r2: Result<UnitRecordView, ParseErrorView>,
)
    requires
        r1 == spec_parse(path, unit_type, lines),
        r2 == spec_parse(path, unit_type, lines),
    ensures
        r1 == r2,
{
}

} // verus!
