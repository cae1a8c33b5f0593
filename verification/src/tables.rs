//! The fixed lookup tables: file extension to unit kind, segment header to
//! segment, attribute key to attribute tag, and suffix to magnitude
//! multiplier (binary, decimal, and duration flavors).
//!
//! Every lookup is an exact, case-sensitive string match.  Each table exists
//! twice: a spec function over `Seq<char>` that the contracts use, and an
//! executable function proved equal to it.

use vstd::prelude::*;
use crate::text::str_eq;
use crate::unit::{Segment, UnitType};

verus! {

/// The attributes shared by every unit kind, legal only inside `[Unit]`.
#[derive(PartialEq, Eq, Structural, Clone, Copy, Debug)]
pub enum BaseUnitAttr {
    Description,
    Documentation,
    Requires,
    Wants,
    After,
    Before,
    BindsTo,
    PartOf,
    OnFailure,
    Conflicts,
}

/// The install-wiring attributes, legal only inside `[Install]`.
#[derive(PartialEq, Eq, Structural, Clone, Copy, Debug)]
pub enum InstallUnitAttr {
    WantedBy,
    RequiredBy,
    Also,
    Alias,
}

/// The service section's attributes, legal only inside `[Service]`.
#[derive(PartialEq, Eq, Structural, Clone, Copy, Debug)]
pub enum ServiceUnitAttr {
    Type,
    RemainAfterExit,
    ExecStart,
    ExecStartPre,
    ExecStartPost,
    ExecStop,
    ExecStopPost,
    Restart,
    RestartSec,
    TimeoutStartSec,
    TimeoutStopSec,
    Environment,
    EnvironmentFile,
    Nice,
    WorkingDirectory,
    RootDirectory,
    User,
    Group,
    MountFlags,
}

/// The unit kind a file extension names, or `None` for a foreign extension.
pub open spec fn spec_unit_type_of_ext(ext: Seq<char>) -> Option<UnitType> {
    if ext == "automount"@ {
        Some(UnitType::Automount)
    } else if ext == "device"@ {
        Some(UnitType::Device)
    } else if ext == "mount"@ {
        Some(UnitType::Mount)
    } else if ext == "path"@ {
        Some(UnitType::Path)
    } else if ext == "scope"@ {
        Some(UnitType::Scope)
    } else if ext == "service"@ {
        Some(UnitType::Service)
    } else if ext == "slice"@ {
        Some(UnitType::Slice)
    } else if ext == "socket"@ {
        Some(UnitType::Socket)
    } else if ext == "swap"@ {
        Some(UnitType::Swap)
    } else if ext == "target"@ {
        Some(UnitType::Target)
    } else if ext == "timer"@ {
        Some(UnitType::Timer)
    } else {
        None
    }
}

/// Looks a file extension up in the extension table.
pub fn unit_type_of_ext(ext: &str) -> (r: Option<UnitType>)
    ensures
        r == spec_unit_type_of_ext(ext@),
{
    if str_eq(ext, "automount") {
        Some(UnitType::Automount)
    } else if str_eq(ext, "device") {
        Some(UnitType::Device)
    } else if str_eq(ext, "mount") {
        Some(UnitType::Mount)
    } else if str_eq(ext, "path") {
        Some(UnitType::Path)
    } else if str_eq(ext, "scope") {
        Some(UnitType::Scope)
    } else if str_eq(ext, "service") {
        Some(UnitType::Service)
    } else if str_eq(ext, "slice") {
        Some(UnitType::Slice)
    } else if str_eq(ext, "socket") {
        Some(UnitType::Socket)
    } else if str_eq(ext, "swap") {
        Some(UnitType::Swap)
    } else if str_eq(ext, "target") {
        Some(UnitType::Target)
    } else if str_eq(ext, "timer") {
        Some(UnitType::Timer)
    } else {
        None
    }
}

/// The bracketed header text of a unit kind's own section.
pub open spec fn spec_type_header(unit_type: UnitType) -> Seq<char> {
    match unit_type {
        UnitType::Automount => "[Automount]"@,
        UnitType::Device => "[Device]"@,
        UnitType::Mount => "[Mount]"@,
        UnitType::Path => "[Path]"@,
        UnitType::Scope => "[Scope]"@,
        UnitType::Service => "[Service]"@,
        UnitType::Slice => "[Slice]"@,
        UnitType::Socket => "[Socket]"@,
        UnitType::Swap => "[Swap]"@,
        UnitType::Target => "[Target]"@,
        UnitType::Timer => "[Timer]"@,
    }
}

/// The header text of `unit_type`'s own section.
pub fn type_header(unit_type: UnitType) -> (r: &'static str)
    ensures
        r@ == spec_type_header(unit_type),
{
    match unit_type {
        UnitType::Automount => "[Automount]",
        UnitType::Device => "[Device]",
        UnitType::Mount => "[Mount]",
        UnitType::Path => "[Path]",
        UnitType::Scope => "[Scope]",
        UnitType::Service => "[Service]",
        UnitType::Slice => "[Slice]",
        UnitType::Socket => "[Socket]",
        UnitType::Swap => "[Swap]",
        UnitType::Target => "[Target]",
        UnitType::Timer => "[Timer]",
    }
}

/// The segment a trimmed line names as a header, given the file's unit kind;
/// `None` when the line is no recognized header.
pub open spec fn spec_segment_of_header(line: Seq<char>, unit_type: UnitType) -> Option<Segment> {
    if line == "[Unit]"@ {
        Some(Segment::Unit)
    } else if line == "[Install]"@ {
        Some(Segment::Install)
    } else if line == spec_type_header(unit_type) {
        Some(Segment::TypeSpecific)
    } else {
        None
    }
}

/// Recognizes `[Unit]`, `[Install]`, and the unit kind's own header.
pub fn segment_of_header(line: &str, unit_type: UnitType) -> (r: Option<Segment>)
    ensures
        r == spec_segment_of_header(line@, unit_type),
{
    if str_eq(line, "[Unit]") {
        Some(Segment::Unit)
    } else if str_eq(line, "[Install]") {
        Some(Segment::Install)
    } else if str_eq(line, type_header(unit_type)) {
        Some(Segment::TypeSpecific)
    } else {
        None
    }
}

/// The base-unit attribute a key names, or `None` when the key is no base
/// attribute.
pub open spec fn spec_base_attr_of(key: Seq<char>) -> Option<BaseUnitAttr> {
    if key == "Description"@ {
        Some(BaseUnitAttr::Description)
    } else if key == "Documentation"@ {
        Some(BaseUnitAttr::Documentation)
    } else if key == "Requires"@ {
        Some(BaseUnitAttr::Requires)
    } else if key == "Wants"@ {
        Some(BaseUnitAttr::Wants)
    } else if key == "After"@ {
        Some(BaseUnitAttr::After)
    } else if key == "Before"@ {
        Some(BaseUnitAttr::Before)
    } else if key == "BindsTo"@ {
        Some(BaseUnitAttr::BindsTo)
    } else if key == "PartOf"@ {
        Some(BaseUnitAttr::PartOf)
    } else if key == "OnFailure"@ {
        Some(BaseUnitAttr::OnFailure)
    } else if key == "Conflicts"@ {
        Some(BaseUnitAttr::Conflicts)
    } else {
        None
    }
}

/// Looks a key up in the base-unit attribute table.
pub fn base_attr_of(key: &str) -> (r: Option<BaseUnitAttr>)
    ensures
        r == spec_base_attr_of(key@),
{
    if str_eq(key, "Description") {
        Some(BaseUnitAttr::Description)
    } else if str_eq(key, "Documentation") {
        Some(BaseUnitAttr::Documentation)
    } else if str_eq(key, "Requires") {
        Some(BaseUnitAttr::Requires)
    } else if str_eq(key, "Wants") {
        Some(BaseUnitAttr::Wants)
    } else if str_eq(key, "After") {
        Some(BaseUnitAttr::After)
    } else if str_eq(key, "Before") {
        Some(BaseUnitAttr::Before)
    } else if str_eq(key, "BindsTo") {
        Some(BaseUnitAttr::BindsTo)
    } else if str_eq(key, "PartOf") {
        Some(BaseUnitAttr::PartOf)
    } else if str_eq(key, "OnFailure") {
        Some(BaseUnitAttr::OnFailure)
    } else if str_eq(key, "Conflicts") {
        Some(BaseUnitAttr::Conflicts)
    } else {
        None
    }
}

/// The install attribute a key names, or `None`.
pub open spec fn spec_install_attr_of(key: Seq<char>) -> Option<InstallUnitAttr> {
    if key == "WantedBy"@ {
        Some(InstallUnitAttr::WantedBy)
    } else if key == "RequiredBy"@ {
        Some(InstallUnitAttr::RequiredBy)
    } else if key == "Also"@ {
        Some(InstallUnitAttr::Also)
    } else if key == "Alias"@ {
        Some(InstallUnitAttr::Alias)
    } else {
        None
    }
}

/// Looks a key up in the install attribute table.
pub fn install_attr_of(key: &str) -> (r: Option<InstallUnitAttr>)
    ensures
        r == spec_install_attr_of(key@),
{
    if str_eq(key, "WantedBy") {
        Some(InstallUnitAttr::WantedBy)
    } else if str_eq(key, "RequiredBy") {
        Some(InstallUnitAttr::RequiredBy)
    } else if str_eq(key, "Also") {
        Some(InstallUnitAttr::Also)
    } else if str_eq(key, "Alias") {
        Some(InstallUnitAttr::Alias)
    } else {
        None
    }
}

/// The service attribute a key names, or `None`.
pub open spec fn spec_service_attr_of(key: Seq<char>) -> Option<ServiceUnitAttr> {
    if key == "Type"@ {
        Some(ServiceUnitAttr::Type)
    } else if key == "RemainAfterExit"@ {
        Some(ServiceUnitAttr::RemainAfterExit)
    } else if key == "ExecStart"@ {
        Some(ServiceUnitAttr::ExecStart)
    } else if key == "ExecStartPre"@ {
        Some(ServiceUnitAttr::ExecStartPre)
    } else if key == "ExecStartPost"@ {
        Some(ServiceUnitAttr::ExecStartPost)
    } else if key == "ExecStop"@ {
        Some(ServiceUnitAttr::ExecStop)
    } else if key == "ExecStopPost"@ {
        Some(ServiceUnitAttr::ExecStopPost)
    } else if key == "Restart"@ {
        Some(ServiceUnitAttr::Restart)
    } else if key == "RestartSec"@ {
        Some(ServiceUnitAttr::RestartSec)
    } else if key == "TimeoutStartSec"@ {
        Some(ServiceUnitAttr::TimeoutStartSec)
    } else if key == "TimeoutStopSec"@ {
        Some(ServiceUnitAttr::TimeoutStopSec)
    } else if key == "Environment"@ {
        Some(ServiceUnitAttr::Environment)
    } else if key == "EnvironmentFile"@ {
        Some(ServiceUnitAttr::EnvironmentFile)
    } else if key == "Nice"@ {
        Some(ServiceUnitAttr::Nice)
    } else if key == "WorkingDirectory"@ {
        Some(ServiceUnitAttr::WorkingDirectory)
    } else if key == "RootDirectory"@ {
        Some(ServiceUnitAttr::RootDirectory)
    } else if key == "User"@ {
        Some(ServiceUnitAttr::User)
    } else if key == "Group"@ {
        Some(ServiceUnitAttr::Group)
    } else if key == "MountFlags"@ {
        Some(ServiceUnitAttr::MountFlags)
    } else {
        None
    }
}

/// Looks a key up in the service attribute table.
pub fn service_attr_of(key: &str) -> (r: Option<ServiceUnitAttr>)
    ensures
        r == spec_service_attr_of(key@),
{
    if str_eq(key, "Type") {
        Some(ServiceUnitAttr::Type)
    } else if str_eq(key, "RemainAfterExit") {
        Some(ServiceUnitAttr::RemainAfterExit)
    } else if str_eq(key, "ExecStart") {
        Some(ServiceUnitAttr::ExecStart)
    } else if str_eq(key, "ExecStartPre") {
        Some(ServiceUnitAttr::ExecStartPre)
    } else if str_eq(key, "ExecStartPost") {
        Some(ServiceUnitAttr::ExecStartPost)
    } else if str_eq(key, "ExecStop") {
        Some(ServiceUnitAttr::ExecStop)
    } else if str_eq(key, "ExecStopPost") {
        Some(ServiceUnitAttr::ExecStopPost)
    } else if str_eq(key, "Restart") {
        Some(ServiceUnitAttr::Restart)
    } else if str_eq(key, "RestartSec") {
        Some(ServiceUnitAttr::RestartSec)
    } else if str_eq(key, "TimeoutStartSec") {
        Some(ServiceUnitAttr::TimeoutStartSec)
    } else if str_eq(key, "TimeoutStopSec") {
        Some(ServiceUnitAttr::TimeoutStopSec)
    } else if str_eq(key, "Environment") {
        Some(ServiceUnitAttr::Environment)
    } else if str_eq(key, "EnvironmentFile") {
        Some(ServiceUnitAttr::EnvironmentFile)
    } else if str_eq(key, "Nice") {
        Some(ServiceUnitAttr::Nice)
    } else if str_eq(key, "WorkingDirectory") {
        Some(ServiceUnitAttr::WorkingDirectory)
    } else if str_eq(key, "RootDirectory") {
        Some(ServiceUnitAttr::RootDirectory)
    } else if str_eq(key, "User") {
        Some(ServiceUnitAttr::User)
    } else if str_eq(key, "Group") {
        Some(ServiceUnitAttr::Group)
    } else if str_eq(key, "MountFlags") {
        Some(ServiceUnitAttr::MountFlags)
    } else {
        None
    }
}

/// The binary (IEC) byte multiplier of a suffix: `K` is 1024, `M` is 1024²,
/// and so on; the empty suffix and `B` are plain bytes.
pub open spec fn spec_iec_multiplier(suffix: Seq<char>) -> Option<u64> {
    if suffix.len() == 0 || suffix == "B"@ {
        Some(1u64)
    } else if suffix == "K"@ {
        Some(1024u64)
    } else if suffix == "M"@ {
        Some(1048576u64)
    } else if suffix == "G"@ {
        Some(1073741824u64)
    } else if suffix == "T"@ {
        Some(1099511627776u64)
    } else if suffix == "P"@ {
        Some(1125899906842624u64)
    } else if suffix == "E"@ {
        Some(1152921504606846976u64)
    } else {
        None
    }
}

/// Looks a suffix up in the binary byte table.
pub fn iec_multiplier(suffix: &str) -> (r: Option<u64>)
    ensures
        r == spec_iec_multiplier(suffix@),
{
    if suffix.is_empty() || str_eq(suffix, "B") {
        Some(1u64)
    } else if str_eq(suffix, "K") {
        Some(1024u64)
    } else if str_eq(suffix, "M") {
        Some(1048576u64)
    } else if str_eq(suffix, "G") {
        Some(1073741824u64)
    } else if str_eq(suffix, "T") {
        Some(1099511627776u64)
    } else if str_eq(suffix, "P") {
        Some(1125899906842624u64)
    } else if str_eq(suffix, "E") {
        Some(1152921504606846976u64)
    } else {
        None
    }
}

/// The decimal (SI) byte multiplier of a suffix: `K` is 1000, `M` is 1000²,
/// and so on; the empty suffix and `B` are plain bytes.
pub open spec fn spec_si_multiplier(suffix: Seq<char>) -> Option<u64> {
    if suffix.len() == 0 || suffix == "B"@ {
        Some(1u64)
    } else if suffix == "K"@ {
        Some(1000u64)
    } else if suffix == "M"@ {
        Some(1000000u64)
    } else if suffix == "G"@ {
        Some(1000000000u64)
    } else if suffix == "T"@ {
        Some(1000000000000u64)
    } else if suffix == "P"@ {
        Some(1000000000000000u64)
    } else if suffix == "E"@ {
        Some(1000000000000000000u64)
    } else {
        None
    }
}

/// Looks a suffix up in the decimal byte table.
pub fn si_multiplier(suffix: &str) -> (r: Option<u64>)
    ensures
        r == spec_si_multiplier(suffix@),
{
    if suffix.is_empty() || str_eq(suffix, "B") {
        Some(1u64)
    } else if str_eq(suffix, "K") {
        Some(1000u64)
    } else if str_eq(suffix, "M") {
        Some(1000000u64)
    } else if str_eq(suffix, "G") {
        Some(1000000000u64)
    } else if str_eq(suffix, "T") {
        Some(1000000000000u64)
    } else if str_eq(suffix, "P") {
        Some(1000000000000000u64)
    } else if str_eq(suffix, "E") {
        Some(1000000000000000000u64)
    } else {
        None
    }
}

/// The duration multiplier of a suffix, in nanoseconds per unit; the empty
/// suffix means seconds.  Exact matching makes `min` unambiguous against `m`.
pub open spec fn spec_duration_multiplier(suffix: Seq<char>) -> Option<u64> {
    if suffix.len() == 0 || suffix == "s"@ {
        Some(1000000000u64)
    } else if suffix == "ns"@ {
        Some(1u64)
    } else if suffix == "us"@ {
        Some(1000u64)
    } else if suffix == "ms"@ {
        Some(1000000u64)
    } else if suffix == "m"@ || suffix == "min"@ {
        Some(60000000000u64)
    } else if suffix == "h"@ {
        Some(3600000000000u64)
    } else {
        None
    }
}

/// Looks a suffix up in the duration table.
pub fn duration_multiplier(suffix: &str) -> (r: Option<u64>)
    ensures
        r == spec_duration_multiplier(suffix@),
{
    if suffix.is_empty() || str_eq(suffix, "s") {
        Some(1000000000u64)
    } else if str_eq(suffix, "ns") {
        Some(1u64)
    } else if str_eq(suffix, "us") {
        Some(1000u64)
    } else if str_eq(suffix, "ms") {
        Some(1000000u64)
    } else if str_eq(suffix, "m") || str_eq(suffix, "min") {
        Some(60000000000u64)
    } else if str_eq(suffix, "h") {
        Some(3600000000000u64)
    } else {
        None
    }
}

} // verus!
