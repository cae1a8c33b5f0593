//! The parsing engine: attribute dispatch over the scanned events, the
//! segment state machine, extension validation, and the public parsers.
//!
//! `spec_parse` is the complete mathematical model of a parse; the public
//! `UnitParser::parse` is proved to return exactly what the model says, for
//! every input.  Errors are stamped with the file path and the 1-based line
//! number exactly once, at the dispatch point.

use vstd::prelude::*;
use vstd::string::StrSliceExecFns;
use std::rc::Rc;
use crate::text::{
    find_eq_sign, find_last_dot, first_eq_at, last_dot, split_tokens, split_ws, trim_str, trimmed,
};
use crate::tables::{
    base_attr_of, install_attr_of, service_attr_of, spec_base_attr_of, spec_install_attr_of,
    spec_service_attr_of, spec_unit_type_of_ext, unit_type_of_ext, BaseUnitAttr, InstallUnitAttr,
    ServiceUnitAttr,
};
use crate::quantity::{resolve_quantity, spec_quantity, QuantityTable};
use crate::scan::{scan_events, spec_events, LineEvent, LineEventView};
use crate::unit::{
    init_record, BaseUnit, BaseUnitView, ParseError, ParseErrorType, ParseErrorView, Segment,
    ServicePart, ServicePartView, TypeSpecificRecord, TypeSpecificView, UnitRecord,
    UnitRecordView, UnitType,
};

verus! {

/// The base record after a base attribute is assigned: a repeated attribute
/// replaces the earlier value; list attributes hold the value's
/// whitespace-separated names.
pub open spec fn spec_apply_base(b: BaseUnitView, attr: BaseUnitAttr, val: Seq<char>)
    -> BaseUnitView {
    match attr {
        BaseUnitAttr::Description => BaseUnitView { description: val, ..b },
        BaseUnitAttr::Documentation => BaseUnitView { documentation: split_ws(val), ..b },
        BaseUnitAttr::Requires => BaseUnitView { requires_units: split_ws(val), ..b },
        BaseUnitAttr::Wants => BaseUnitView { wants: split_ws(val), ..b },
        BaseUnitAttr::After => BaseUnitView { after: split_ws(val), ..b },
        BaseUnitAttr::Before => BaseUnitView { before: split_ws(val), ..b },
        BaseUnitAttr::BindsTo => BaseUnitView { binds_to: split_ws(val), ..b },
        BaseUnitAttr::PartOf => BaseUnitView { part_of: split_ws(val), ..b },
        BaseUnitAttr::OnFailure => BaseUnitView { on_failure: split_ws(val), ..b },
        BaseUnitAttr::Conflicts => BaseUnitView { conflicts: split_ws(val), ..b },
    }
}

/// The base record after an install attribute is assigned.
pub open spec fn spec_apply_install(b: BaseUnitView, attr: InstallUnitAttr, val: Seq<char>)
    -> BaseUnitView {
    match attr {
        InstallUnitAttr::WantedBy => BaseUnitView { wanted_by: split_ws(val), ..b },
        InstallUnitAttr::RequiredBy => BaseUnitView { required_by: split_ws(val), ..b },
        InstallUnitAttr::Also => BaseUnitView { also: split_ws(val), ..b },
        InstallUnitAttr::Alias => BaseUnitView { alias: split_ws(val), ..b },
    }
}

/// The service section after one of its attributes is assigned.  The three
/// `..Sec` delays go through the duration table; a value that does not
/// resolve is `EINVAL`.
pub open spec fn spec_apply_service(sp: ServicePartView, attr: ServiceUnitAttr, val: Seq<char>)
    -> Result<ServicePartView, ParseErrorType> {
    match attr {
        ServiceUnitAttr::Type => Ok(ServicePartView { service_type: val, ..sp }),
        ServiceUnitAttr::RemainAfterExit => Ok(ServicePartView { remain_after_exit: val, ..sp }),
        ServiceUnitAttr::ExecStart => Ok(ServicePartView { exec_start: val, ..sp }),
        ServiceUnitAttr::ExecStartPre => Ok(ServicePartView { exec_start_pre: val, ..sp }),
        ServiceUnitAttr::ExecStartPost => Ok(ServicePartView { exec_start_post: val, ..sp }),
        ServiceUnitAttr::ExecStop => Ok(ServicePartView { exec_stop: val, ..sp }),
        ServiceUnitAttr::ExecStopPost => Ok(ServicePartView { exec_stop_post: val, ..sp }),
        ServiceUnitAttr::Restart => Ok(ServicePartView { restart: val, ..sp }),
        ServiceUnitAttr::RestartSec => match spec_quantity(QuantityTable::DurationNs, val) {
            Some(ns) => Ok(ServicePartView { restart_sec: ns, ..sp }),
            None => Err(ParseErrorType::EINVAL),
        },
        ServiceUnitAttr::TimeoutStartSec => match spec_quantity(QuantityTable::DurationNs, val) {
            Some(ns) => Ok(ServicePartView { timeout_start_sec: ns, ..sp }),
            None => Err(ParseErrorType::EINVAL),
        },
        ServiceUnitAttr::TimeoutStopSec => match spec_quantity(QuantityTable::DurationNs, val) {
            Some(ns) => Ok(ServicePartView { timeout_stop_sec: ns, ..sp }),
            None => Err(ParseErrorType::EINVAL),
        },
        ServiceUnitAttr::Environment => Ok(ServicePartView { environment: split_ws(val), ..sp }),
        ServiceUnitAttr::EnvironmentFile => Ok(
            ServicePartView { environment_file: val, ..sp },
        ),
        ServiceUnitAttr::Nice => Ok(ServicePartView { nice: val, ..sp }),
        ServiceUnitAttr::WorkingDirectory => Ok(
            ServicePartView { working_directory: val, ..sp },
        ),
        ServiceUnitAttr::RootDirectory => Ok(ServicePartView { root_directory: val, ..sp }),
        ServiceUnitAttr::User => Ok(ServicePartView { user: val, ..sp }),
        ServiceUnitAttr::Group => Ok(ServicePartView { group: val, ..sp }),
        ServiceUnitAttr::MountFlags => Ok(ServicePartView { mount_flags: val, ..sp }),
    }
}

/// Delegation of a key neither base nor install: the service handler accepts
/// its own keys inside its own segment; every other kind has no handler, so
/// every delegated key is unknown (`EINVAL`).
pub open spec fn spec_dispatch_type(m: UnitRecordView, seg: Segment, key: Seq<char>,
    val: Seq<char>) -> Result<UnitRecordView, ParseErrorType> {
    match m.type_part {
        TypeSpecificView::Service(sp) => {
            if seg != Segment::TypeSpecific {
                Err(ParseErrorType::EINVAL)
            } else {
                match spec_service_attr_of(key) {
                    Some(attr) => match spec_apply_service(sp, attr, val) {
                        Ok(sp2) => Ok(
                            UnitRecordView { type_part: TypeSpecificView::Service(sp2), ..m },
                        ),
                        Err(k) => Err(k),
                    },
                    None => Err(ParseErrorType::EINVAL),
                }
            }
        },
        _ => Err(ParseErrorType::EINVAL),
    }
}

/// Attribute dispatch for a trimmed `(key, value)` pair: base keys must
/// stand inside `[Unit]`, install keys inside `[Install]`, anything else is
/// delegated to the kind's own handler.
pub open spec fn spec_dispatch_kv(m: UnitRecordView, seg: Segment, key: Seq<char>,
    val: Seq<char>) -> Result<UnitRecordView, ParseErrorType> {
    match spec_base_attr_of(key) {
        Some(attr) => {
            if seg != Segment::Unit {
                Err(ParseErrorType::EINVAL)
            } else {
                Ok(UnitRecordView { base: spec_apply_base(m.base, attr, val), ..m })
            }
        },
        None => match spec_install_attr_of(key) {
            Some(attr) => {
                if seg != Segment::Install {
                    Err(ParseErrorType::EINVAL)
                } else {
                    Ok(UnitRecordView { base: spec_apply_install(m.base, attr, val), ..m })
                }
            },
            None => spec_dispatch_type(m, seg, key, val),
        },
    }
}

/// Dispatch of a whole logical attribute line: split at the first `=`
/// (none is `ESyntaxError`), trim key and value, then dispatch the pair.
pub open spec fn spec_dispatch_line(m: UnitRecordView, seg: Segment, text: Seq<char>) -> Result<
    UnitRecordView,
    ParseErrorType,
> {
    let k = first_eq_at(text, 0);
    if k == text.len() {
        Err(ParseErrorType::ESyntaxError)
    } else {
        spec_dispatch_kv(
            m,
            seg,
            trimmed(text.subrange(0, k)),
            trimmed(text.subrange(k + 1, text.len() as int)),
        )
    }
}

/// The fold of the scanned events: headers switch the segment; an attribute
/// before any header is `ESyntaxError`; a failed dispatch is stamped with
/// the file and the event's line number and ends the parse.
pub open spec fn spec_apply_events(evs: Seq<LineEventView>, path: Seq<char>, seg: Segment,
    m: UnitRecordView) -> Result<UnitRecordView, ParseErrorView>
    decreases evs.len(),
{
    if evs.len() == 0 {
        Ok(m)
    } else {
        match evs.first() {
            LineEventView::Header(seg2) => spec_apply_events(evs.drop_first(), path, seg2, m),
            LineEventView::Attr(text, ln) => {
                if seg == Segment::Unset {
                    Err(
                        ParseErrorView {
                            error_type: ParseErrorType::ESyntaxError,
                            file: path,
                            linenum: ln,
                        },
                    )
                } else {
                    match spec_dispatch_line(m, seg, text) {
                        Ok(m2) => spec_apply_events(evs.drop_first(), path, seg, m2),
                        Err(k) => Err(
                            ParseErrorView { error_type: k, file: path, linenum: ln },
                        ),
                    }
                }
            },
        }
    }
}

/// Whether the path's extension (after the last `.`) names exactly
/// `unit_type` in the extension table.
pub open spec fn spec_ext_ok(path: Seq<char>, unit_type: UnitType) -> bool {
    let d = last_dot(path);
    d >= 0 && spec_unit_type_of_ext(path.subrange(d + 1, path.len() as int)) == Some(unit_type)
}

/// The complete model of a parse: extension validation, then the fold of
/// the scanned events over a fresh record, starting outside any segment.
pub open spec fn spec_parse(path: Seq<char>, unit_type: UnitType, lines: Seq<Seq<char>>)
    -> Result<UnitRecordView, ParseErrorView> {
    if !spec_ext_ok(path, unit_type) {
        Err(ParseErrorView { error_type: ParseErrorType::EFILE, file: path, linenum: 0 })
    } else {
        spec_apply_events(
            spec_events(lines, unit_type, 0),
            path,
            Segment::Unset,
            init_record(unit_type),
        )
    }
}

/// Assigns one base attribute.
fn apply_base(b: BaseUnit, attr: BaseUnitAttr, val: &str) -> (r: BaseUnit)
    ensures
        r@ == spec_apply_base(b@, attr, val@),
{
    match attr {
        BaseUnitAttr::Description => BaseUnit { description: val.to_owned(), ..b },
        BaseUnitAttr::Documentation => BaseUnit { documentation: split_tokens(val), ..b },
        BaseUnitAttr::Requires => BaseUnit { requires_units: split_tokens(val), ..b },
        BaseUnitAttr::Wants => BaseUnit { wants: split_tokens(val), ..b },
        BaseUnitAttr::After => BaseUnit { after: split_tokens(val), ..b },
        BaseUnitAttr::Before => BaseUnit { before: split_tokens(val), ..b },
        BaseUnitAttr::BindsTo => BaseUnit { binds_to: split_tokens(val), ..b },
        BaseUnitAttr::PartOf => BaseUnit { part_of: split_tokens(val), ..b },
        BaseUnitAttr::OnFailure => BaseUnit { on_failure: split_tokens(val), ..b },
        BaseUnitAttr::Conflicts => BaseUnit { conflicts: split_tokens(val), ..b },
    }
}

/// Assigns one install attribute.
fn apply_install(b: BaseUnit, attr: InstallUnitAttr, val: &str) -> (r: BaseUnit)
    ensures
        r@ == spec_apply_install(b@, attr, val@),
{
    match attr {
        InstallUnitAttr::WantedBy => BaseUnit { wanted_by: split_tokens(val), ..b },
        InstallUnitAttr::RequiredBy => BaseUnit { required_by: split_tokens(val), ..b },
        InstallUnitAttr::Also => BaseUnit { also: split_tokens(val), ..b },
        InstallUnitAttr::Alias => BaseUnit { alias: split_tokens(val), ..b },
    }
}

/// Assigns one service attribute; duration values go through the duration
/// suffix table.
fn apply_service(sp: ServicePart, attr: ServiceUnitAttr, val: &str) -> (r: Result<
    ServicePart,
    ParseErrorType,
>)
    ensures
        match r {
            Ok(sp2) => spec_apply_service(sp@, attr, val@) == Ok::<ServicePartView,
                ParseErrorType,
            >(sp2@),
            Err(k) => spec_apply_service(sp@, attr, val@) == Err::<ServicePartView,
                ParseErrorType,
            >(k),
        },
{
    match attr {
        ServiceUnitAttr::Type => Ok(ServicePart { service_type: val.to_owned(), ..sp }),
        ServiceUnitAttr::RemainAfterExit => Ok(
            ServicePart { remain_after_exit: val.to_owned(), ..sp },
        ),
        ServiceUnitAttr::ExecStart => Ok(ServicePart { exec_start: val.to_owned(), ..sp }),
        ServiceUnitAttr::ExecStartPre => Ok(ServicePart { exec_start_pre: val.to_owned(), ..sp }),
        ServiceUnitAttr::ExecStartPost => Ok(
            ServicePart { exec_start_post: val.to_owned(), ..sp },
        ),
        ServiceUnitAttr::ExecStop => Ok(ServicePart { exec_stop: val.to_owned(), ..sp }),
        ServiceUnitAttr::ExecStopPost => Ok(ServicePart { exec_stop_post: val.to_owned(), ..sp }),
        ServiceUnitAttr::Restart => Ok(ServicePart { restart: val.to_owned(), ..sp }),
        ServiceUnitAttr::RestartSec => match resolve_quantity(QuantityTable::DurationNs, val) {
            Some(ns) => Ok(ServicePart { restart_sec: ns, ..sp }),
            None => Err(ParseErrorType::EINVAL),
        },
        ServiceUnitAttr::TimeoutStartSec => match resolve_quantity(
            QuantityTable::DurationNs,
            val,
        ) {
            Some(ns) => Ok(ServicePart { timeout_start_sec: ns, ..sp }),
            None => Err(ParseErrorType::EINVAL),
        },
        ServiceUnitAttr::TimeoutStopSec => match resolve_quantity(QuantityTable::DurationNs, val) {
            Some(ns) => Ok(ServicePart { timeout_stop_sec: ns, ..sp }),
            None => Err(ParseErrorType::EINVAL),
        },
        ServiceUnitAttr::Environment => Ok(ServicePart { environment: split_tokens(val), ..sp }),
        ServiceUnitAttr::EnvironmentFile => Ok(
            ServicePart { environment_file: val.to_owned(), ..sp },
        ),
        ServiceUnitAttr::Nice => Ok(ServicePart { nice: val.to_owned(), ..sp }),
        ServiceUnitAttr::WorkingDirectory => Ok(
            ServicePart { working_directory: val.to_owned(), ..sp },
        ),
        ServiceUnitAttr::RootDirectory => Ok(
            ServicePart { root_directory: val.to_owned(), ..sp },
        ),
        ServiceUnitAttr::User => Ok(ServicePart { user: val.to_owned(), ..sp }),
        ServiceUnitAttr::Group => Ok(ServicePart { group: val.to_owned(), ..sp }),
        ServiceUnitAttr::MountFlags => Ok(ServicePart { mount_flags: val.to_owned(), ..sp }),
    }
}

/// Dispatches a trimmed `(key, value)` pair against the current segment.
fn dispatch_kv(rec: UnitRecord, seg: Segment, key: &str, val: &str) -> (r: Result<
    UnitRecord,
    ParseErrorType,
>)
    ensures
        match r {
            Ok(rec2) => spec_dispatch_kv(rec@, seg, key@, val@) == Ok::<UnitRecordView,
                ParseErrorType,
            >(rec2@),
            Err(k) => spec_dispatch_kv(rec@, seg, key@, val@) == Err::<UnitRecordView,
                ParseErrorType,
            >(k),
        },
{
    match base_attr_of(key) {
        Some(attr) => {
            if seg != Segment::Unit {
                Err(ParseErrorType::EINVAL)
            } else {
                Ok(UnitRecord { base: apply_base(rec.base, attr, val), ..rec })
            }
        },
        None => match install_attr_of(key) {
            Some(attr) => {
                if seg != Segment::Install {
                    Err(ParseErrorType::EINVAL)
                } else {
                    Ok(UnitRecord { base: apply_install(rec.base, attr, val), ..rec })
                }
            },
            None => {
                let UnitRecord { base, type_part } = rec;
                match type_part {
                    TypeSpecificRecord::Service(sp) => {
                        if seg != Segment::TypeSpecific {
                            Err(ParseErrorType::EINVAL)
                        } else {
                            match service_attr_of(key) {
                                Some(attr) => match apply_service(sp, attr, val) {
                                    Ok(sp2) => Ok(
                                        UnitRecord {
                                            base,
                                            type_part: TypeSpecificRecord::Service(sp2),
                                        },
                                    ),
                                    Err(k) => Err(k),
                                },
                                None => Err(ParseErrorType::EINVAL),
                            }
                        }
                    },
                    _ => Err(ParseErrorType::EINVAL),
                }
            },
        },
    }
}

/// Dispatches one logical attribute line: split at the first `=`, trim both
/// halves, dispatch the pair.
fn dispatch_line(rec: UnitRecord, seg: Segment, text: &str) -> (r: Result<
    UnitRecord,
    ParseErrorType,
>)
    ensures
        match r {
            Ok(rec2) => spec_dispatch_line(rec@, seg, text@) == Ok::<UnitRecordView,
                ParseErrorType,
            >(rec2@),
            Err(k) => spec_dispatch_line(rec@, seg, text@) == Err::<UnitRecordView,
                ParseErrorType,
            >(k),
        },
{
    let n = text.unicode_len();
    match find_eq_sign(text) {
        None => Err(ParseErrorType::ESyntaxError),
        Some(k) => {
            let key = trim_str(text.substring_char(0, k));
            let val = trim_str(text.substring_char(k + 1, n));
            proof {
                assert(text@.subrange(0, k as int) =~= text@.subrange(0, first_eq_at(text@, 0)));
            }
            dispatch_kv(rec, seg, key, val)
        },
    }
}

/// The generic engine: parses the lines of a unit file of the given kind.
pub struct UnitParser;

impl UnitParser {
    /// Parses `lines`, the raw lines of the file at `path`, as a unit of
    /// kind `unit_type`.  Returns exactly what the model `spec_parse` says:
    /// the frozen record behind a shared read-only handle, or the first
    /// error, stamped with `path` and its 1-based line number.
    pub fn parse(path: &str, unit_type: UnitType, lines: &Vec<String>) -> (r: Result<
        Rc<UnitRecord>,
        ParseError,
    >)
        ensures
            match r {
                Ok(rec) => spec_parse(path@, unit_type, lines.deep_view()) == Ok::<
                    UnitRecordView,
                    ParseErrorView,
                >(rec@),
                Err(e) => spec_parse(path@, unit_type, lines.deep_view()) == Err::<
                    UnitRecordView,
                    ParseErrorView,
                >(e@),
            },
    {
        let n = path.unicode_len();
        let dot = match find_last_dot(path) {
            Some(d) => d,
            None => {
                return Err(ParseError::new(ParseErrorType::EFILE, path.to_owned(), 0));
            },
        };
        let ext = path.substring_char(dot + 1, n);
        match unit_type_of_ext(ext) {
            Some(t) => {
                if t != unit_type {
                    return Err(ParseError::new(ParseErrorType::EFILE, path.to_owned(), 0));
                }
            },
            None => {
                return Err(ParseError::new(ParseErrorType::EFILE, path.to_owned(), 0));
            },
        }
        let ghost pv = path@;
        let ghost gl = lines.deep_view();
        let evs = scan_events(lines, unit_type);
        let ghost evm = evs.deep_view();
        let mut rec = UnitRecord::new(unit_type);
        let mut seg = Segment::Unset;
        let mut idx: usize = 0;
        let m = evs.len();
        proof {
            assert(evm.skip(0) =~= evm);
        }
        while idx < m
            invariant
                idx <= m,
                m == evs.len(),
                evm == evs.deep_view(),
                pv == path@,
                gl == lines.deep_view(),
                evm == spec_events(gl, unit_type, 0),
                spec_ext_ok(pv, unit_type),
                spec_apply_events(evm, pv, Segment::Unset, init_record(unit_type))
                    == spec_apply_events(evm.skip(idx as int), pv, seg, rec@),
            decreases m - idx,
        {
            proof {
                assert(evm.skip(idx as int).first() == evm[idx as int]);
                assert(evm.skip(idx as int).drop_first() =~= evm.skip(idx as int + 1));
                assert(evm[idx as int] == evs[idx as int].deep_view());
            }
            match &evs[idx] {
                LineEvent::Header(seg2) => {
                    seg = *seg2;
                },
                LineEvent::Attr(text, ln) => {
                    proof {
                        assert(evm[idx as int] == LineEventView::Attr(text@, *ln as int));
                    }
                    if seg == Segment::Unset {
                        proof {
                            assert(spec_apply_events(evm.skip(idx as int), pv, seg, rec@)
                                == Err::<UnitRecordView, ParseErrorView>(
                                ParseErrorView {
                                    error_type: ParseErrorType::ESyntaxError,
                                    file: pv,
                                    linenum: *ln as int,
                                },
                            ));
                        }
                        return Err(
                            ParseError::new(ParseErrorType::ESyntaxError, path.to_owned(), *ln),
                        );
                    }
                    let ghost rec0 = rec@;
                    rec = match dispatch_line(rec, seg, text.as_str()) {
                        Ok(rec2) => rec2,
                        Err(kind) => {
                            proof {
                                assert(spec_apply_events(evm.skip(idx as int), pv, seg, rec0)
                                    == Err::<UnitRecordView, ParseErrorView>(
                                    ParseErrorView {
                                        error_type: kind,
                                        file: pv,
                                        linenum: *ln as int,
                                    },
                                ));
                            }
                            return Err(ParseError::new(kind, path.to_owned(), *ln));
                        },
                    };
                },
            }
            idx += 1;
        }
        proof {
            assert(evm.skip(m as int) =~= Seq::<LineEventView>::empty());
        }
        Ok(Rc::new(rec))
    }
}

/// The service-unit front end: a `.service` file parsed with the generic
/// engine under the `Service` kind.
pub struct ServiceParser;

impl ServiceParser {
    /// Parses `lines`, the raw lines of the service unit file at `path`.
    pub fn parse(path: &str, lines: &Vec<String>) -> (r: Result<Rc<UnitRecord>, ParseError>)
        ensures
            match r {
                Ok(rec) => spec_parse(path@, UnitType::Service, lines.deep_view()) == Ok::<
                    UnitRecordView,
                    ParseErrorView,
                >(rec@),
                Err(e) => spec_parse(path@, UnitType::Service, lines.deep_view()) == Err::<
                    UnitRecordView,
                    ParseErrorView,
                >(e@),
            },
    {
        UnitParser::parse(path, UnitType::Service, lines)
    }
}

} // verus!
