//! Parsing and formatting of whole triples.

use target_lexicon::Architecture;
use target_lexicon::BinaryFormat;
use target_lexicon::Category;
use target_lexicon::Endianness;
use target_lexicon::Environment;
use target_lexicon::OperatingSystem;
use target_lexicon::ParseError;
use target_lexicon::Triple;
use target_lexicon::Vendor;
use target_lexicon::default_binary_format;

#[test]
fn rust_targets() {
    // At the time of writing this, these are all the targets emitted by
    // "rustup target list" and "rustc --print target-list".
    let targets = [
        "aarch64-apple-ios",
        "aarch64-fuchsia",
        "aarch64-linux-android",
        "aarch64-pc-windows-msvc",
        "aarch64-unknown-cloudabi",
        "aarch64-unknown-freebsd",
        "aarch64-unknown-hermit",
        "aarch64-unknown-linux-gnu",
        "aarch64-unknown-linux-musl",
        "aarch64-unknown-netbsd",
        "aarch64-unknown-none",
        "aarch64-unknown-openbsd",
        "armebv7r-none-eabi",
        "armebv7r-none-eabihf",
        "arm-linux-androideabi",
        "arm-unknown-linux-gnueabi",
        "arm-unknown-linux-gnueabihf",
        "arm-unknown-linux-musleabi",
        "arm-unknown-linux-musleabihf",
        "armv4t-unknown-linux-gnueabi",
        "armv5te-unknown-linux-gnueabi",
        "armv5te-unknown-linux-musleabi",
        "armv6-unknown-netbsd-eabihf",
        "armv7-apple-ios",
        "armv7-linux-androideabi",
        "armv7r-none-eabi",
        "armv7r-none-eabihf",
        "armv7s-apple-ios",
        "armv7-unknown-cloudabi-eabihf",
        "armv7-unknown-linux-gnueabihf",
        "armv7-unknown-linux-musleabihf",
        "armv7-unknown-netbsd-eabihf",
        "asmjs-unknown-emscripten",
        "i386-apple-ios",
        "i586-pc-windows-msvc",
        "i586-unknown-linux-gnu",
        "i586-unknown-linux-musl",
        "i686-apple-darwin",
        "i686-linux-android",
        "i686-pc-windows-gnu",
        "i686-pc-windows-msvc",
        "i686-unknown-cloudabi",
        "i686-unknown-dragonfly",
        "i686-unknown-freebsd",
        "i686-unknown-haiku",
        "i686-unknown-linux-gnu",
        "i686-unknown-linux-musl",
        "i686-unknown-netbsd",
        "i686-unknown-openbsd",
        "mips64el-unknown-linux-gnuabi64",
        "mips64-unknown-linux-gnuabi64",
        "mipsel-unknown-linux-gnu",
        "mipsel-unknown-linux-musl",
        "mipsel-unknown-linux-uclibc",
        "mips-unknown-linux-gnu",
        "mips-unknown-linux-musl",
        "mips-unknown-linux-uclibc",
        "msp430-none-elf",
        "powerpc64le-unknown-linux-gnu",
        "powerpc64le-unknown-linux-musl",
        "powerpc64-unknown-linux-gnu",
        "powerpc64-unknown-linux-musl",
        "powerpc-unknown-linux-gnu",
        "powerpc-unknown-linux-gnuspe",
        "powerpc-unknown-linux-musl",
        "powerpc-unknown-netbsd",
        "riscv32imac-unknown-none-elf",
        "riscv32imc-unknown-none-elf",
        "s390x-unknown-linux-gnu",
        "sparc64-unknown-linux-gnu",
        "sparc64-unknown-netbsd",
        "sparc-unknown-linux-gnu",
        "sparcv9-sun-solaris",
        "thumbv6m-none-eabi",
        "thumbv7a-pc-windows-msvc",
        "thumbv7em-none-eabi",
        "thumbv7em-none-eabihf",
        "thumbv7m-none-eabi",
        "thumbv7neon-linux-androideabi",
        "thumbv7neon-unknown-linux-gnueabihf",
        "thumbv8m.base-none-eabi",
        "thumbv8m.main-none-eabi",
        "thumbv8m.main-none-eabihf",
        "wasm32-experimental-emscripten",
        "wasm32-unknown-emscripten",
        "wasm32-unknown-unknown",
        "x86_64-apple-darwin",
        "x86_64-apple-ios",
        "x86_64-fortanix-unknown-sgx",
        "x86_64-fuchsia",
        "x86_64-linux-android",
        "x86_64-pc-windows-gnu",
        "x86_64-pc-windows-msvc",
        "x86_64-rumprun-netbsd",
        "x86_64-sun-solaris",
        "x86_64-unknown-bitrig",
        "x86_64-unknown-cloudabi",
        "x86_64-unknown-dragonfly",
        "x86_64-unknown-freebsd",
        "x86_64-unknown-haiku",
        "x86_64-unknown-hermit",
        "x86_64-unknown-l4re-uclibc",
        "x86_64-unknown-linux-gnu",
        "x86_64-unknown-linux-gnux32",
        "x86_64-unknown-linux-musl",
        "x86_64-unknown-netbsd",
        "x86_64-unknown-openbsd",
        "x86_64-unknown-redox",
        "x86_64-unknown-uefi",
    ];

    for target in targets.iter() {
        let t = Triple::from_str(target).expect("can't parse target");
        assert_ne!(t.architecture, Architecture::Unknown);
        assert_eq!(t.to_string(), *target);
    }
}

#[test]
fn parse_linux_gnu() {
    let t = Triple::from_str("x86_64-unknown-linux-gnu").unwrap();
    assert_eq!(t.architecture, Architecture::X86_64);
    assert_eq!(t.vendor, Vendor::Unknown);
    assert_eq!(t.operating_system, OperatingSystem::Linux);
    assert_eq!(t.environment, Environment::Gnu);
    assert_eq!(t.binary_format, BinaryFormat::Unknown);
    assert_eq!(t.endianness(), Ok(Endianness::Little));
    assert_eq!(t.pointer_width().unwrap().bits(), 64);
}

#[test]
fn parse_armv7_gnueabihf() {
    let t = Triple::from_str("armv7-unknown-linux-gnueabihf").unwrap();
    assert!(matches!(t.architecture, Architecture::Arm(_)));
    assert_eq!(t.vendor, Vendor::Unknown);
    assert_eq!(t.operating_system, OperatingSystem::Linux);
    assert_eq!(t.environment, Environment::Gnueabihf);
    assert_eq!(t.pointer_width().unwrap().bits(), 32);
}

#[test]
fn parse_riscv32_bare() {
    let t = Triple::from_str("riscv32-unknown-unknown").unwrap();
    assert_eq!(t.architecture, Architecture::Riscv32);
    assert_eq!(t.vendor, Vendor::Unknown);
    assert_eq!(t.operating_system, OperatingSystem::Unknown);
    assert_eq!(t.environment, Environment::Unknown);
    assert_eq!(t.endianness(), Ok(Endianness::Little));
}

#[test]
fn wasm_default_binary_format() {
    let t = Triple::from_str("wasm32-unknown-unknown").unwrap();
    assert_eq!(t.binary_format, BinaryFormat::Unknown);
    assert_eq!(default_binary_format(&t), BinaryFormat::Wasm);
    assert_eq!(t.default_binary_format(), BinaryFormat::Wasm);
}

#[test]
fn default_binary_format_table() {
    let cases = [
        ("x86_64-apple-darwin", BinaryFormat::Macho),
        ("armv7-apple-ios", BinaryFormat::Macho),
        ("i686-pc-windows-msvc", BinaryFormat::Coff),
        ("aarch64-unknown-none", BinaryFormat::Unknown),
        ("x86_64-unknown-linux-gnu", BinaryFormat::Elf),
        ("wasm32-unknown-emscripten", BinaryFormat::Wasm),
        ("x86_64-unknown-unknown", BinaryFormat::Unknown),
        ("x86_64-unknown-freebsd", BinaryFormat::Elf),
    ];
    for (s, expected) in cases.iter() {
        let t = Triple::from_str(s).unwrap();
        assert_eq!(default_binary_format(&t), *expected, "{}", s);
    }
}

#[test]
fn unrecognized_architecture() {
    let e = Triple::from_str("not-a-real-target").unwrap_err();
    assert_eq!(e, ParseError::UnrecognizedArchitecture("not".to_string()));
}

#[test]
fn malformed_triple() {
    assert_eq!(Triple::from_str("x86_64").unwrap_err(), ParseError::MalformedTriple);
    assert_eq!(Triple::from_str("").unwrap_err(), ParseError::MalformedTriple);
}

#[test]
fn unrecognized_component() {
    let e = Triple::from_str("x86_64-pc-linux-nonsense").unwrap_err();
    assert_eq!(
        e,
        ParseError::UnrecognizedComponent("nonsense".to_string(), Category::Environment)
    );
    let e = Triple::from_str("x86_64-bogus-linux-gnu").unwrap_err();
    assert_eq!(
        e,
        ParseError::UnrecognizedComponent("bogus".to_string(), Category::Vendor)
    );
}

#[test]
fn empty_segment_is_rejected() {
    let e = Triple::from_str("x86_64--linux-gnu").unwrap_err();
    assert_eq!(
        e,
        ParseError::UnrecognizedComponent("".to_string(), Category::Vendor)
    );
}

#[test]
fn positional_precedence_of_unknown() {
    // Both middle segments read "unknown": the first is taken as the
    // vendor and the second as the operating system, so a following
    // segment can still be an environment.
    let t = Triple::from_str("x86_64-unknown-unknown-gnu").unwrap();
    assert_eq!(t.vendor, Vendor::Unknown);
    assert_eq!(t.operating_system, OperatingSystem::Unknown);
    assert_eq!(t.environment, Environment::Gnu);
}

#[test]
fn alias_canonicalization_is_idempotent() {
    // "arm64" is an alias: formatting canonicalizes it, and the
    // canonical form reparses to the same fields.
    let t = Triple::from_str("arm64-apple-ios").unwrap();
    let canonical = t.to_string();
    assert_eq!(canonical, "aarch64-apple-ios");
    let t2 = Triple::from_str(&canonical).unwrap();
    assert_eq!(t, t2);
    assert_eq!(t2.to_string(), canonical);
}

#[test]
fn round_trip_keeps_fields() {
    let inputs = [
        "x86_64-elf",
        "unknown-unknown-unknown",
        "msp430-none",
        "arm-linux-android",
        "x86_64-fuchsia-gnu",
        "i686-unknown-unknown-coff",
        "wasm32-unknown-unknown-wasm",
    ];
    for s in inputs.iter() {
        let t = Triple::from_str(s).unwrap();
        let canonical = t.to_string();
        let t2 = Triple::from_str(&canonical)
            .expect("canonical form must reparse");
        assert_eq!(t, t2, "{}", s);
        assert_eq!(t2.to_string(), canonical, "{}", s);
    }
}

#[test]
fn explicit_binary_format_is_kept() {
    let t = Triple::from_str("riscv32imac-unknown-none-elf").unwrap();
    assert_eq!(t.binary_format, BinaryFormat::Elf);
    assert_eq!(t.to_string(), "riscv32imac-unknown-none-elf");
}
