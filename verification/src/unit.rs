//! The data model: unit kinds, segments, error values, and the records a
//! successful parse produces.
//!
//! Each executable record has a ghost view (`...View`) over `Seq<char>` and
//! `Seq<Seq<char>>`; the parser's contracts are stated over these views.

use vstd::prelude::*;

verus! {

/// The closed set of unit kinds; a file's extension selects one.
#[derive(PartialEq, Eq, Structural, Clone, Copy, Debug)]
pub enum UnitType {
    Automount,
    Device,
    Mount,
    Path,
    Scope,
    Service,
    Slice,
    Socket,
    Swap,
    Target,
    Timer,
}

/// The section of the file the scanner is currently inside.  `Unset` is the
/// initial state before any header; `TypeSpecific` is the unit kind's own
/// section (for a service, `[Service]`).
#[derive(PartialEq, Eq, Structural, Clone, Copy, Debug)]
pub enum Segment {
    Unset,
    Unit,
    Install,
    TypeSpecific,
}

/// The kinds of failure the parser reports.
#[derive(PartialEq, Eq, Structural, Clone, Copy, Debug)]
pub enum ParseErrorType {
    /// Bad or missing extension, extension/kind mismatch, unreadable file.
    EFILE,
    /// An attribute line with no `=`, or an attribute before any header.
    ESyntaxError,
    /// A recognized key in the wrong segment, an unknown delegated key, or a
    /// malformed quantity value.
    EINVAL,
}

/// A parse failure, stamped with the file's path and a 1-based line number
/// (0 when no line is involved, as for a bad extension).
#[derive(PartialEq, Eq, Clone, Debug)]
pub struct ParseError {
    pub error_type: ParseErrorType,
    pub file: String,
    pub linenum: usize,
}

pub ghost struct ParseErrorView {
    pub error_type: ParseErrorType,
    pub file: Seq<char>,
    pub linenum: int,
}

impl View for ParseError {
    type V = ParseErrorView;

    open spec fn view(&self) -> ParseErrorView {
        ParseErrorView {
            error_type: self.error_type,
            file: self.file@,
            linenum: self.linenum as int,
        }
    }
}

impl ParseError {
    /// Builds a fully stamped error; no partially filled error ever escapes.
    pub fn new(error_type: ParseErrorType, file: String, linenum: usize) -> (r: ParseError)
        ensures
            r@ == (ParseErrorView { error_type, file: file@, linenum: linenum as int }),
    {
        ParseError { error_type, file, linenum }
    }
}

/// The attributes every unit kind shares, together with the install section's
/// wiring lists.  List-valued attributes hold whitespace-separated names in
/// order of appearance; a repeated attribute replaces the earlier value.
#[derive(PartialEq, Eq, Clone, Debug)]
pub struct BaseUnit {
    pub unit_type: UnitType,
    pub description: String,
    pub documentation: Vec<String>,
    /// The units this one requires (the `Requires` key).
    pub requires_units: Vec<String>,
    pub wants: Vec<String>,
    pub after: Vec<String>,
    pub before: Vec<String>,
    pub binds_to: Vec<String>,
    pub part_of: Vec<String>,
    pub on_failure: Vec<String>,
    pub conflicts: Vec<String>,
    pub wanted_by: Vec<String>,
    pub required_by: Vec<String>,
    pub also: Vec<String>,
    pub alias: Vec<String>,
}

pub ghost struct BaseUnitView {
    pub unit_type: UnitType,
    pub description: Seq<char>,
    pub documentation: Seq<Seq<char>>,
    pub requires_units: Seq<Seq<char>>,
    pub wants: Seq<Seq<char>>,
    pub after: Seq<Seq<char>>,
    pub before: Seq<Seq<char>>,
    pub binds_to: Seq<Seq<char>>,
    pub part_of: Seq<Seq<char>>,
    pub on_failure: Seq<Seq<char>>,
    pub conflicts: Seq<Seq<char>>,
    pub wanted_by: Seq<Seq<char>>,
    pub required_by: Seq<Seq<char>>,
    pub also: Seq<Seq<char>>,
    pub alias: Seq<Seq<char>>,
}

impl View for BaseUnit {
    type V = BaseUnitView;

    open spec fn view(&self) -> BaseUnitView {
        BaseUnitView {
            unit_type: self.unit_type,
            description: self.description@,
            documentation: self.documentation.deep_view(),
            requires_units: self.requires_units.deep_view(),
            wants: self.wants.deep_view(),
            after: self.after.deep_view(),
            before: self.before.deep_view(),
            binds_to: self.binds_to.deep_view(),
            part_of: self.part_of.deep_view(),
            on_failure: self.on_failure.deep_view(),
            conflicts: self.conflicts.deep_view(),
            wanted_by: self.wanted_by.deep_view(),
            required_by: self.required_by.deep_view(),
            also: self.also.deep_view(),
            alias: self.alias.deep_view(),
        }
    }
}

/// The all-default base record stamped with a unit kind.
pub open spec fn init_base(unit_type: UnitType) -> BaseUnitView {
    BaseUnitView {
        unit_type,
        description: Seq::empty(),
        documentation: Seq::empty(),
        requires_units: Seq::empty(),
        wants: Seq::empty(),
        after: Seq::empty(),
        before: Seq::empty(),
        binds_to: Seq::empty(),
        part_of: Seq::empty(),
        on_failure: Seq::empty(),
        conflicts: Seq::empty(),
        wanted_by: Seq::empty(),
        required_by: Seq::empty(),
        also: Seq::empty(),
        alias: Seq::empty(),
    }
}

impl BaseUnit {
    /// A fresh base record tagged with `unit_type` and every field empty.
    pub fn new(unit_type: UnitType) -> (r: BaseUnit)
        ensures
            r@ == init_base(unit_type),
    {
        let r = BaseUnit {
            unit_type,
            description: String::new(),
            documentation: Vec::new(),
            requires_units: Vec::new(),
            wants: Vec::new(),
            after: Vec::new(),
            before: Vec::new(),
            binds_to: Vec::new(),
            part_of: Vec::new(),
            on_failure: Vec::new(),
            conflicts: Vec::new(),
            wanted_by: Vec::new(),
            required_by: Vec::new(),
            also: Vec::new(),
            alias: Vec::new(),
        };
        proof {
            assert(r.documentation.deep_view() =~= Seq::<Seq<char>>::empty());
            assert(r@ =~= init_base(unit_type));
        }
        r
    }
}

/// The service section's own attributes.  The three `..Sec` delays hold
/// nanoseconds, already scaled by the duration suffix table; the remaining
/// fields keep the trimmed value text.
#[derive(PartialEq, Eq, Clone, Debug)]
pub struct ServicePart {
    pub service_type: String,
    pub remain_after_exit: String,
    pub exec_start: String,
    pub exec_start_pre: String,
    pub exec_start_post: String,
    pub exec_stop: String,
    pub exec_stop_post: String,
    pub restart: String,
    pub restart_sec: u64,
    pub timeout_start_sec: u64,
    pub timeout_stop_sec: u64,
    pub environment: Vec<String>,
    pub environment_file: String,
    pub nice: String,
    pub working_directory: String,
    pub root_directory: String,
    pub user: String,
    pub group: String,
    pub mount_flags: String,
}

pub ghost struct ServicePartView {
    pub service_type: Seq<char>,
    pub remain_after_exit: Seq<char>,
    pub exec_start: Seq<char>,
    pub exec_start_pre: Seq<char>,
    pub exec_start_post: Seq<char>,
    pub exec_stop: Seq<char>,
    pub exec_stop_post: Seq<char>,
    pub restart: Seq<char>,
    pub restart_sec: u64,
    pub timeout_start_sec: u64,
    pub timeout_stop_sec: u64,
    pub environment: Seq<Seq<char>>,
    pub environment_file: Seq<char>,
    pub nice: Seq<char>,
    pub working_directory: Seq<char>,
    pub root_directory: Seq<char>,
    pub user: Seq<char>,
    pub group: Seq<char>,
    pub mount_flags: Seq<char>,
}

impl View for ServicePart {
    type V = ServicePartView;

    open spec fn view(&self) -> ServicePartView {
        ServicePartView {
            service_type: self.service_type@,
            remain_after_exit: self.remain_after_exit@,
            exec_start: self.exec_start@,
            exec_start_pre: self.exec_start_pre@,
            exec_start_post: self.exec_start_post@,
            exec_stop: self.exec_stop@,
            exec_stop_post: self.exec_stop_post@,
            restart: self.restart@,
            restart_sec: self.restart_sec,
            timeout_start_sec: self.timeout_start_sec,
            timeout_stop_sec: self.timeout_stop_sec,
            environment: self.environment.deep_view(),
            environment_file: self.environment_file@,
            nice: self.nice@,
            working_directory: self.working_directory@,
            root_directory: self.root_directory@,
            user: self.user@,
            group: self.group@,
            mount_flags: self.mount_flags@,
        }
    }
}

/// The all-default service section.
pub open spec fn init_service_part() -> ServicePartView {
    ServicePartView {
        service_type: Seq::empty(),
        remain_after_exit: Seq::empty(),
        exec_start: Seq::empty(),
        exec_start_pre: Seq::empty(),
        exec_start_post: Seq::empty(),
        exec_stop: Seq::empty(),
        exec_stop_post: Seq::empty(),
        restart: Seq::empty(),
        restart_sec: 0,
        timeout_start_sec: 0,
        timeout_stop_sec: 0,
        environment: Seq::empty(),
        environment_file: Seq::empty(),
        nice: Seq::empty(),
        working_directory: Seq::empty(),
        root_directory: Seq::empty(),
        user: Seq::empty(),
        group: Seq::empty(),
        mount_flags: Seq::empty(),
    }
}

impl ServicePart {
    /// A fresh service section with every field empty or zero.
    pub fn new() -> (r: ServicePart)
        ensures
            r@ == init_service_part(),
    {
        let r = ServicePart {
            service_type: String::new(),
            remain_after_exit: String::new(),
            exec_start: String::new(),
            exec_start_pre: String::new(),
            exec_start_post: String::new(),
            exec_stop: String::new(),
            exec_stop_post: String::new(),
            restart: String::new(),
            restart_sec: 0,
            timeout_start_sec: 0,
            timeout_stop_sec: 0,
            environment: Vec::new(),
            environment_file: String::new(),
            nice: String::new(),
            working_directory: String::new(),
            root_directory: String::new(),
            user: String::new(),
            group: String::new(),
            mount_flags: String::new(),
        };
        proof {
            assert(r.environment.deep_view() =~= Seq::<Seq<char>>::empty());
            assert(r@ =~= init_service_part());
        }
        r
    }
}

/// The kind-specific half of a record: one variant per unit kind.  Only the
/// service handler is specified, so only the `Service` variant carries data;
/// for every other kind all delegated keys are unknown.
#[derive(PartialEq, Eq, Clone, Debug)]
pub enum TypeSpecificRecord {
    Automount,
    Device,
    Mount,
    Path,
    Scope,
    Service(ServicePart),
    Slice,
    Socket,
    Swap,
    Target,
    Timer,
}

pub ghost enum TypeSpecificView {
    Automount,
    Device,
    Mount,
    Path,
    Scope,
    Service(ServicePartView),
    Slice,
    Socket,
    Swap,
    Target,
    Timer,
}

impl View for TypeSpecificRecord {
    type V = TypeSpecificView;

    open spec fn view(&self) -> TypeSpecificView {
        match self {
            TypeSpecificRecord::Automount => TypeSpecificView::Automount,
            TypeSpecificRecord::Device => TypeSpecificView::Device,
            TypeSpecificRecord::Mount => TypeSpecificView::Mount,
            TypeSpecificRecord::Path => TypeSpecificView::Path,
            TypeSpecificRecord::Scope => TypeSpecificView::Scope,
            TypeSpecificRecord::Service(s) => TypeSpecificView::Service(s@),
            TypeSpecificRecord::Slice => TypeSpecificView::Slice,
            TypeSpecificRecord::Socket => TypeSpecificView::Socket,
            TypeSpecificRecord::Swap => TypeSpecificView::Swap,
            TypeSpecificRecord::Target => TypeSpecificView::Target,
            TypeSpecificRecord::Timer => TypeSpecificView::Timer,
        }
    }
}

/// The kind-specific half a fresh record starts from.
pub open spec fn init_type_part(unit_type: UnitType) -> TypeSpecificView {
    match unit_type {
        UnitType::Automount => TypeSpecificView::Automount,
        UnitType::Device => TypeSpecificView::Device,
        UnitType::Mount => TypeSpecificView::Mount,
        UnitType::Path => TypeSpecificView::Path,
        UnitType::Scope => TypeSpecificView::Scope,
        UnitType::Service => TypeSpecificView::Service(init_service_part()),
        UnitType::Slice => TypeSpecificView::Slice,
        UnitType::Socket => TypeSpecificView::Socket,
        UnitType::Swap => TypeSpecificView::Swap,
        UnitType::Target => TypeSpecificView::Target,
        UnitType::Timer => TypeSpecificView::Timer,
    }
}

impl TypeSpecificRecord {
    /// The kind-specific record a parse of `unit_type` starts from.
    pub fn new_for(unit_type: UnitType) -> (r: TypeSpecificRecord)
        ensures
            r@ == init_type_part(unit_type),
    {
        match unit_type {
            UnitType::Automount => TypeSpecificRecord::Automount,
            UnitType::Device => TypeSpecificRecord::Device,
            UnitType::Mount => TypeSpecificRecord::Mount,
            UnitType::Path => TypeSpecificRecord::Path,
            UnitType::Scope => TypeSpecificRecord::Scope,
            UnitType::Service => TypeSpecificRecord::Service(ServicePart::new()),
            UnitType::Slice => TypeSpecificRecord::Slice,
            UnitType::Socket => TypeSpecificRecord::Socket,
            UnitType::Swap => TypeSpecificRecord::Swap,
            UnitType::Target => TypeSpecificRecord::Target,
            UnitType::Timer => TypeSpecificRecord::Timer,
        }
    }
}

/// The record a successful parse returns: the shared base attributes and the
/// kind-specific section.  It is handed out read-only and never mutated after
/// `parse` returns.
#[derive(PartialEq, Eq, Clone, Debug)]
pub struct UnitRecord {
    pub base: BaseUnit,
    pub type_part: TypeSpecificRecord,
}

pub ghost struct UnitRecordView {
    pub base: BaseUnitView,
    pub type_part: TypeSpecificView,
}

impl View for UnitRecord {
    type V = UnitRecordView;

    open spec fn view(&self) -> UnitRecordView {
        UnitRecordView { base: self.base@, type_part: self.type_part@ }
    }
}

/// The record a parse of `unit_type` starts from.
pub open spec fn init_record(unit_type: UnitType) -> UnitRecordView {
    UnitRecordView { base: init_base(unit_type), type_part: init_type_part(unit_type) }
}

impl UnitRecord {
    /// A fresh record for `unit_type` with all-default fields.
    pub fn new(unit_type: UnitType) -> (r: UnitRecord)
        ensures
            r@ == init_record(unit_type),
    {
        UnitRecord { base: BaseUnit::new(unit_type), type_part: TypeSpecificRecord::new_for(unit_type) }
    }
}

} // verus!
