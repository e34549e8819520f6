//! The host platform's triple, computed from the platform facts that the
//! build environment supplies: plain identifier strings for the target
//! architecture, vendor, operating system and ABI environment. The
//! lookup is pure and total; a fact no vocabulary recognizes leaves the
//! field at its `Unknown` sentinel.

use vstd::prelude::*;

use crate::strutil::str_eq;
use crate::targets::Architecture;
use crate::targets::BinaryFormat;
use crate::targets::Environment;
use crate::targets::OperatingSystem;
use crate::targets::Vendor;
use crate::triple::Triple;

verus! {

/// The architecture named by a platform fact. Build environments call
/// the 32-bit x86 family "x86", which stands for its i686 member here.
pub open spec fn spec_host_architecture(s: Seq<char>) -> Architecture {
    if s == "x86"@ {
        Architecture::I686
    } else {
        match Architecture::spec_from_str(s) {
            Some(a) => a,
            None => Architecture::Unknown,
        }
    }
}

/// The vendor named by a platform fact.
pub open spec fn spec_host_vendor(s: Seq<char>) -> Vendor {
    match Vendor::spec_from_str(s) {
        Some(v) => v,
        None => Vendor::Unknown,
    }
}

/// The operating system named by a platform fact. Build environments
/// call the Darwin-based desktop system "macos".
pub open spec fn spec_host_operating_system(s: Seq<char>) -> OperatingSystem {
    if s == "macos"@ {
        OperatingSystem::Darwin
    } else {
        match OperatingSystem::spec_from_str(s) {
            Some(os) => os,
            None => OperatingSystem::Unknown,
        }
    }
}

/// The environment named by a platform fact.
pub open spec fn spec_host_environment(s: Seq<char>) -> Environment {
    match Environment::spec_from_str(s) {
        Some(e) => e,
        None => Environment::Unknown,
    }
}

/// Build the triple of the platform described by the given facts: each
/// fact is looked up in its vocabulary, unrecognized facts become
/// `Unknown`, and the binary format is left unspecified.
pub fn host_from_facts(arch: &str, vendor: &str, os: &str, env: &str) -> (t: Triple)
    ensures
        t.architecture == spec_host_architecture(arch@),
        t.vendor == spec_host_vendor(vendor@),
        t.operating_system == spec_host_operating_system(os@),
        t.environment == spec_host_environment(env@),
        t.binary_format == BinaryFormat::Unknown,
{
    let architecture = if str_eq(arch, "x86") {
        Architecture::I686
    } else {
        match Architecture::from_str(arch) {
            Some(a) => a,
            None => Architecture::Unknown,
        }
    };
    let vendor = match Vendor::from_str(vendor) {
        Some(v) => v,
        None => Vendor::Unknown,
    };
    let operating_system = if str_eq(os, "macos") {
        OperatingSystem::Darwin
    } else {
        match OperatingSystem::from_str(os) {
            Some(o) => o,
            None => OperatingSystem::Unknown,
        }
    };
    let environment = match Environment::from_str(env) {
        Some(e) => e,
        None => Environment::Unknown,
    };
    Triple {
        architecture,
        vendor,
        operating_system,
        environment,
        binary_format: BinaryFormat::Unknown,
    }
}

} // verus!
