//! The C data model tables, and the host-triple lookup.

use target_lexicon::Architecture;
use target_lexicon::BinaryFormat;
use target_lexicon::CDataModel;
use target_lexicon::DefaultToHost;
use target_lexicon::Environment;
use target_lexicon::OperatingSystem;
use target_lexicon::Triple;
use target_lexicon::Vendor;
use target_lexicon::host_from_facts;

#[test]
fn lp64_sizes() {
    assert_eq!(CDataModel::LP64.pointer_width().bits(), 64);
    assert_eq!(CDataModel::LP64.short_size().bits(), 16);
    assert_eq!(CDataModel::LP64.int_size().bits(), 32);
    assert_eq!(CDataModel::LP64.long_size().bits(), 64);
    assert_eq!(CDataModel::LP64.long_long_size().bits(), 64);
    assert_eq!(CDataModel::LP64.float_size().bits(), 32);
    assert_eq!(CDataModel::LP64.double_size().bits(), 64);
    assert_eq!(CDataModel::LP64.int_size().bytes(), 4);
}

#[test]
fn data_model_tables() {
    assert_eq!(CDataModel::LP32.pointer_width().bits(), 32);
    assert_eq!(CDataModel::LP32.int_size().bits(), 16);
    assert_eq!(CDataModel::LP32.long_size().bits(), 32);
    assert_eq!(CDataModel::ILP32.pointer_width().bits(), 32);
    assert_eq!(CDataModel::ILP32.int_size().bits(), 32);
    assert_eq!(CDataModel::ILP32.long_size().bits(), 32);
    assert_eq!(CDataModel::LLP64.pointer_width().bits(), 64);
    assert_eq!(CDataModel::LLP64.long_size().bits(), 32);
    assert_eq!(CDataModel::ILP64.int_size().bits(), 32);
    assert_eq!(CDataModel::ILP64.long_size().bits(), 32);
    assert_eq!(CDataModel::ILP64.long_long_size().bits(), 64);
}

#[test]
fn size_bytes_are_exact() {
    assert_eq!(CDataModel::LP64.short_size().bytes(), 2);
    assert_eq!(CDataModel::LP64.pointer_width().bytes(), 8);
    assert_eq!(CDataModel::LP32.int_size().bytes(), 2);
    assert_eq!(CDataModel::ILP32.float_size().bytes(), 4);
    assert_eq!(CDataModel::ILP32.double_size().bytes(), 8);
}

#[test]
fn host_lookup_linux() {
    let t = host_from_facts("x86_64", "unknown", "linux", "gnu");
    assert_eq!(t.architecture, Architecture::X86_64);
    assert_eq!(t.vendor, Vendor::Unknown);
    assert_eq!(t.operating_system, OperatingSystem::Linux);
    assert_eq!(t.environment, Environment::Gnu);
    assert_eq!(t.binary_format, BinaryFormat::Unknown);
    assert_eq!(t.to_string(), "x86_64-unknown-linux-gnu");
}

#[test]
fn host_lookup_aliases() {
    let t = host_from_facts("x86", "apple", "macos", "");
    assert_eq!(t.architecture, Architecture::I686);
    assert_eq!(t.vendor, Vendor::Apple);
    assert_eq!(t.operating_system, OperatingSystem::Darwin);
    assert_eq!(t.environment, Environment::Unknown);
}

#[test]
fn host_lookup_unrecognized_facts() {
    let t = host_from_facts("quantum", "someone", "templeos", "exotic");
    assert_eq!(t.architecture, Architecture::Unknown);
    assert_eq!(t.vendor, Vendor::Unknown);
    assert_eq!(t.operating_system, OperatingSystem::Unknown);
    assert_eq!(t.environment, Environment::Unknown);
}

#[test]
fn default_to_host_wraps_triple() {
    let t = Triple::from_str("x86_64-unknown-linux-gnu").unwrap();
    let d = DefaultToHost::new(t);
    assert_eq!(d.0, t);
}
