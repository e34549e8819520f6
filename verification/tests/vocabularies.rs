//! The field vocabularies: string round trips and the derived
//! per-architecture tables.

use target_lexicon::Aarch64Architecture;
use target_lexicon::Architecture;
use target_lexicon::ArmArchitecture;
use target_lexicon::BinaryFormat;
use target_lexicon::Endianness;
use target_lexicon::Environment;
use target_lexicon::OperatingSystem;
use target_lexicon::PointerWidth;
use target_lexicon::Vendor;

fn all_arm() -> Vec<ArmArchitecture> {
    vec![
        ArmArchitecture::Arm,
        ArmArchitecture::Armeb,
        ArmArchitecture::Armv4,
        ArmArchitecture::Armv4t,
        ArmArchitecture::Armv5t,
        ArmArchitecture::Armv5te,
        ArmArchitecture::Armv5tej,
        ArmArchitecture::Armv6,
        ArmArchitecture::Armv6j,
        ArmArchitecture::Armv6k,
        ArmArchitecture::Armv6z,
        ArmArchitecture::Armv6kz,
        ArmArchitecture::Armv6t2,
        ArmArchitecture::Armv6m,
        ArmArchitecture::Armv7,
        ArmArchitecture::Armv7a,
        ArmArchitecture::Armv7ve,
        ArmArchitecture::Armv7m,
        ArmArchitecture::Armv7r,
        ArmArchitecture::Armv7s,
        ArmArchitecture::Armv8,
        ArmArchitecture::Armv8a,
        ArmArchitecture::Armv8_1a,
        ArmArchitecture::Armv8_2a,
        ArmArchitecture::Armv8_3a,
        ArmArchitecture::Armv8_4a,
        ArmArchitecture::Armv8_5a,
        ArmArchitecture::Armv8mBase,
        ArmArchitecture::Armv8mMain,
        ArmArchitecture::Armv8r,
        ArmArchitecture::Armebv7r,
        ArmArchitecture::Thumbeb,
        ArmArchitecture::Thumbv6m,
        ArmArchitecture::Thumbv7a,
        ArmArchitecture::Thumbv7em,
        ArmArchitecture::Thumbv7m,
        ArmArchitecture::Thumbv7neon,
        ArmArchitecture::Thumbv8mBase,
        ArmArchitecture::Thumbv8mMain,
    ]
}

fn all_architectures() -> Vec<Architecture> {
    let mut v = vec![
        Architecture::Unknown,
        Architecture::Aarch64(Aarch64Architecture::Aarch64),
        Architecture::Aarch64(Aarch64Architecture::Aarch64be),
        Architecture::Asmjs,
        Architecture::I386,
        Architecture::I586,
        Architecture::I686,
        Architecture::Mips,
        Architecture::Mips64,
        Architecture::Mips64el,
        Architecture::Mipsel,
        Architecture::Msp430,
        Architecture::Powerpc,
        Architecture::Powerpc64,
        Architecture::Powerpc64le,
        Architecture::Riscv32,
        Architecture::Riscv32imac,
        Architecture::Riscv32imc,
        Architecture::Riscv64,
        Architecture::S390x,
        Architecture::Sparc,
        Architecture::Sparc64,
        Architecture::Sparcv9,
        Architecture::Wasm32,
        Architecture::X86_64,
    ];
    for arm in all_arm() {
        v.push(Architecture::Arm(arm));
    }
    v
}

#[test]
fn architecture_string_round_trip() {
    for a in all_architectures() {
        assert_eq!(Architecture::from_str(a.as_str()), Some(a), "{}", a.as_str());
    }
}

#[test]
fn vendor_string_round_trip() {
    let all = [
        Vendor::Unknown,
        Vendor::Apple,
        Vendor::Experimental,
        Vendor::Fortanix,
        Vendor::Pc,
        Vendor::Rumprun,
        Vendor::Sun,
    ];
    for v in all.iter() {
        assert_eq!(Vendor::from_str(v.as_str()), Some(*v), "{}", v.as_str());
    }
}

#[test]
fn operating_system_string_round_trip() {
    let all = [
        OperatingSystem::Unknown,
        OperatingSystem::Bitrig,
        OperatingSystem::Cloudabi,
        OperatingSystem::Darwin,
        OperatingSystem::Dragonfly,
        OperatingSystem::Emscripten,
        OperatingSystem::Freebsd,
        OperatingSystem::Fuchsia,
        OperatingSystem::Haiku,
        OperatingSystem::Hermit,
        OperatingSystem::Ios,
        OperatingSystem::L4re,
        OperatingSystem::Linux,
        OperatingSystem::Nebulet,
        OperatingSystem::Netbsd,
        OperatingSystem::None_,
        OperatingSystem::Openbsd,
        OperatingSystem::Redox,
        OperatingSystem::Solaris,
        OperatingSystem::Uefi,
        OperatingSystem::Windows,
    ];
    for os in all.iter() {
        assert_eq!(OperatingSystem::from_str(os.as_str()), Some(*os), "{}", os.as_str());
    }
}

#[test]
fn environment_string_round_trip() {
    let all = [
        Environment::Unknown,
        Environment::Android,
        Environment::Androideabi,
        Environment::Eabi,
        Environment::Eabihf,
        Environment::Gnu,
        Environment::Gnuabi64,
        Environment::Gnueabi,
        Environment::Gnueabihf,
        Environment::Gnuspe,
        Environment::Gnux32,
        Environment::Musl,
        Environment::Musleabi,
        Environment::Musleabihf,
        Environment::Msvc,
        Environment::Uclibc,
        Environment::Sgx,
    ];
    for e in all.iter() {
        assert_eq!(Environment::from_str(e.as_str()), Some(*e), "{}", e.as_str());
    }
}

#[test]
fn binary_format_string_round_trip() {
    let all = [
        BinaryFormat::Unknown,
        BinaryFormat::Elf,
        BinaryFormat::Coff,
        BinaryFormat::Macho,
        BinaryFormat::Wasm,
    ];
    for b in all.iter() {
        assert_eq!(BinaryFormat::from_str(b.as_str()), Some(*b), "{}", b.as_str());
    }
}

#[test]
fn aarch64_alias() {
    assert_eq!(
        Aarch64Architecture::from_str("arm64"),
        Some(Aarch64Architecture::Aarch64)
    );
    assert_eq!(Aarch64Architecture::Aarch64.as_str(), "aarch64");
}

#[test]
fn unrecognized_names() {
    assert_eq!(Architecture::from_str("armv9999"), None);
    assert_eq!(Vendor::from_str("Apple"), None);
    assert_eq!(OperatingSystem::from_str("Linux"), None);
    assert_eq!(Environment::from_str(""), None);
    assert_eq!(BinaryFormat::from_str("mach-o"), None);
}

#[test]
fn endianness_and_pointer_width_cover_everything_but_unknown() {
    for a in all_architectures() {
        if a == Architecture::Unknown {
            assert_eq!(a.endianness(), Err(()));
            assert_eq!(a.pointer_width(), Err(()));
        } else {
            assert!(a.endianness().is_ok(), "{}", a.as_str());
            assert!(a.pointer_width().is_ok(), "{}", a.as_str());
        }
    }
}

#[test]
fn endianness_table() {
    assert_eq!(Architecture::X86_64.endianness(), Ok(Endianness::Little));
    assert_eq!(Architecture::Sparc64.endianness(), Ok(Endianness::Big));
    assert_eq!(Architecture::Mips.endianness(), Ok(Endianness::Big));
    assert_eq!(Architecture::Mipsel.endianness(), Ok(Endianness::Little));
    assert_eq!(ArmArchitecture::Arm.endianness(), Ok(Endianness::Little));
    assert_eq!(ArmArchitecture::Armeb.endianness(), Ok(Endianness::Big));
    assert_eq!(ArmArchitecture::Thumbeb.endianness(), Ok(Endianness::Big));
    assert_eq!(ArmArchitecture::Armebv7r.endianness(), Ok(Endianness::Big));
    assert_eq!(
        Aarch64Architecture::Aarch64.endianness(),
        Ok(Endianness::Little)
    );
    assert_eq!(
        Aarch64Architecture::Aarch64be.endianness(),
        Ok(Endianness::Big)
    );
}

#[test]
fn pointer_width_table() {
    assert_eq!(Architecture::Msp430.pointer_width(), Ok(PointerWidth::U16));
    assert_eq!(Architecture::Riscv32.pointer_width(), Ok(PointerWidth::U32));
    assert_eq!(Architecture::X86_64.pointer_width(), Ok(PointerWidth::U64));
    assert_eq!(
        ArmArchitecture::Thumbv7em.pointer_width(),
        Ok(PointerWidth::U32)
    );
    assert_eq!(
        Aarch64Architecture::Aarch64.pointer_width(),
        Ok(PointerWidth::U64)
    );
    assert_eq!(PointerWidth::U16.bits(), 16);
    assert_eq!(PointerWidth::U32.bytes(), 4);
    assert_eq!(PointerWidth::U64.bits(), 64);
}

#[test]
fn thumbs() {
    for arm in all_arm() {
        let name = arm.as_str();
        assert_eq!(arm.is_thumb(), Ok(name.starts_with("thumb")), "{}", name);
    }
    assert_eq!(Aarch64Architecture::Aarch64.is_thumb(), Ok(false));
    assert_eq!(Aarch64Architecture::Aarch64be.is_thumb(), Ok(false));
}
