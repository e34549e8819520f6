//! The closed vocabularies a target triple draws its fields from, and the
//! queries derived from them. Every enumeration maps to and from its
//! canonical lowercase string; a value's view (`@`) is that string.

use vstd::prelude::*;

use crate::strutil::str_eq;
use crate::triple::Endianness;
use crate::triple::PointerWidth;
use crate::triple::Triple;

verus! {

/// The "architecture" field, which in some cases also specifies a specific
/// subarchitecture.
#[derive(Copy, Clone, Debug, PartialEq, Eq, Hash, Structural)]
pub enum Architecture {
    Unknown,
    Arm(ArmArchitecture),
    Aarch64(Aarch64Architecture),
    Asmjs,
    I386,
    I586,
    I686,
    Mips,
    Mips64,
    Mips64el,
    Mipsel,
    Msp430,
    Powerpc,
    Powerpc64,
    Powerpc64le,
    Riscv32,
    Riscv32imac,
    Riscv32imc,
    Riscv64,
    S390x,
    Sparc,
    Sparc64,
    Sparcv9,
    Wasm32,
    X86_64,
}

/// The Arm subarchitecture family, including the Thumb variants.
#[derive(Copy, Clone, Debug, PartialEq, Eq, Hash, Structural)]
pub enum ArmArchitecture {
    Arm,
    Armeb,
    Armv4,
    Armv4t,
    Armv5t,
    Armv5te,
    Armv5tej,
    Armv6,
    Armv6j,
    Armv6k,
    Armv6z,
    Armv6kz,
    Armv6t2,
    Armv6m,
    Armv7,
    Armv7a,
    Armv7ve,
    Armv7m,
    Armv7r,
    Armv7s,
    Armv8,
    Armv8a,
    Armv8_1a,
    Armv8_2a,
    Armv8_3a,
    Armv8_4a,
    Armv8_5a,
    Armv8mBase,
    Armv8mMain,
    Armv8r,
    Armebv7r,
    Thumbeb,
    Thumbv6m,
    Thumbv7a,
    Thumbv7em,
    Thumbv7m,
    Thumbv7neon,
    Thumbv8mBase,
    Thumbv8mMain,
}

/// The AArch64 subarchitecture family.
#[derive(Copy, Clone, Debug, PartialEq, Eq, Hash, Structural)]
pub enum Aarch64Architecture {
    Aarch64,
    Aarch64be,
}

/// The "vendor" field, which in practice is little more than an arbitrary
/// modifier.
#[derive(Copy, Clone, Debug, PartialEq, Eq, Hash, Structural)]
pub enum Vendor {
    Unknown,
    Apple,
    Experimental,
    Fortanix,
    Pc,
    Rumprun,
    Sun,
}

/// The "operating system" field, which sometimes implies an environment,
/// and sometimes isn't an actual operating system.
#[derive(Copy, Clone, Debug, PartialEq, Eq, Hash, Structural)]
pub enum OperatingSystem {
    Unknown,
    Bitrig,
    Cloudabi,
    Darwin,
    Dragonfly,
    Emscripten,
    Freebsd,
    Fuchsia,
    Haiku,
    Hermit,
    Ios,
    L4re,
    Linux,
    Nebulet,
    Netbsd,
    None_,
    Openbsd,
    Redox,
    Solaris,
    Uefi,
    Windows,
}

/// The "environment" field, which specifies an ABI environment on top of
/// the operating system. In many configurations, this field is omitted,
/// and the environment is implied by the operating system.
#[derive(Copy, Clone, Debug, PartialEq, Eq, Hash, Structural)]
pub enum Environment {
    Unknown,
    Android,
    Androideabi,
    Eabi,
    Eabihf,
    Gnu,
    Gnuabi64,
    Gnueabi,
    Gnueabihf,
    Gnuspe,
    Gnux32,
    Musl,
    Musleabi,
    Musleabihf,
    Msvc,
    Uclibc,
    Sgx,
}

/// The "binary format" field, which is usually omitted, and the binary
/// format is implied by the other fields.
#[derive(Copy, Clone, Debug, PartialEq, Eq, Hash, Structural)]
pub enum BinaryFormat {
    Unknown,
    Elf,
    Coff,
    Macho,
    Wasm,
}

impl View for ArmArchitecture {
    type V = Seq<char>;

    /// The canonical spelling of this subarchitecture.
    open spec fn view(&self) -> Seq<char> {
        match *self {
            ArmArchitecture::Arm => "arm"@,
            ArmArchitecture::Armeb => "armeb"@,
            ArmArchitecture::Armv4 => "armv4"@,
            ArmArchitecture::Armv4t => "armv4t"@,
            ArmArchitecture::Armv5t => "armv5t"@,
            ArmArchitecture::Armv5te => "armv5te"@,
            ArmArchitecture::Armv5tej => "armv5tej"@,
            ArmArchitecture::Armv6 => "armv6"@,
            ArmArchitecture::Armv6j => "armv6j"@,
            ArmArchitecture::Armv6k => "armv6k"@,
            ArmArchitecture::Armv6z => "armv6z"@,
            ArmArchitecture::Armv6kz => "armv6kz"@,
            ArmArchitecture::Armv6t2 => "armv6t2"@,
            ArmArchitecture::Armv6m => "armv6m"@,
            ArmArchitecture::Armv7 => "armv7"@,
            ArmArchitecture::Armv7a => "armv7a"@,
            ArmArchitecture::Armv7ve => "armv7ve"@,
            ArmArchitecture::Armv7m => "armv7m"@,
            ArmArchitecture::Armv7r => "armv7r"@,
            ArmArchitecture::Armv7s => "armv7s"@,
            ArmArchitecture::Armv8 => "armv8"@,
            ArmArchitecture::Armv8a => "armv8a"@,
            ArmArchitecture::Armv8_1a => "armv8.1a"@,
            ArmArchitecture::Armv8_2a => "armv8.2a"@,
            ArmArchitecture::Armv8_3a => "armv8.3a"@,
            ArmArchitecture::Armv8_4a => "armv8.4a"@,
            ArmArchitecture::Armv8_5a => "armv8.5a"@,
            ArmArchitecture::Armv8mBase => "armv8m.base"@,
            ArmArchitecture::Armv8mMain => "armv8m.main"@,
            ArmArchitecture::Armv8r => "armv8r"@,
            ArmArchitecture::Armebv7r => "armebv7r"@,
            ArmArchitecture::Thumbeb => "thumbeb"@,
            ArmArchitecture::Thumbv6m => "thumbv6m"@,
            ArmArchitecture::Thumbv7a => "thumbv7a"@,
            ArmArchitecture::Thumbv7em => "thumbv7em"@,
            ArmArchitecture::Thumbv7m => "thumbv7m"@,
            ArmArchitecture::Thumbv7neon => "thumbv7neon"@,
            ArmArchitecture::Thumbv8mBase => "thumbv8m.base"@,
            ArmArchitecture::Thumbv8mMain => "thumbv8m.main"@,
        }
    }
}

impl View for Aarch64Architecture {
    type V = Seq<char>;

    /// The canonical spelling of this subarchitecture.
    open spec fn view(&self) -> Seq<char> {
        match *self {
            Aarch64Architecture::Aarch64 => "aarch64"@,
            Aarch64Architecture::Aarch64be => "aarch64be"@,
        }
    }
}

impl View for Architecture {
    type V = Seq<char>;

    /// The canonical spelling of this architecture.
    open spec fn view(&self) -> Seq<char> {
        match *self {
            Architecture::Unknown => "unknown"@,
            Architecture::Arm(arm) => arm@,
            Architecture::Aarch64(aarch) => aarch@,
            Architecture::Asmjs => "asmjs"@,
            Architecture::I386 => "i386"@,
            Architecture::I586 => "i586"@,
            Architecture::I686 => "i686"@,
            Architecture::Mips => "mips"@,
            Architecture::Mips64 => "mips64"@,
            Architecture::Mips64el => "mips64el"@,
            Architecture::Mipsel => "mipsel"@,
            Architecture::Msp430 => "msp430"@,
            Architecture::Powerpc => "powerpc"@,
            Architecture::Powerpc64 => "powerpc64"@,
            Architecture::Powerpc64le => "powerpc64le"@,
            Architecture::Riscv32 => "riscv32"@,
            Architecture::Riscv32imac => "riscv32imac"@,
            Architecture::Riscv32imc => "riscv32imc"@,
            Architecture::Riscv64 => "riscv64"@,
            Architecture::S390x => "s390x"@,
            Architecture::Sparc => "sparc"@,
            Architecture::Sparc64 => "sparc64"@,
            Architecture::Sparcv9 => "sparcv9"@,
            Architecture::Wasm32 => "wasm32"@,
            Architecture::X86_64 => "x86_64"@,
        }
    }
}

impl View for Vendor {
    type V = Seq<char>;

    /// The canonical spelling of this vendor.
    open spec fn view(&self) -> Seq<char> {
        match *self {
            Vendor::Unknown => "unknown"@,
            Vendor::Apple => "apple"@,
            Vendor::Experimental => "experimental"@,
            Vendor::Fortanix => "fortanix"@,
            Vendor::Pc => "pc"@,
            Vendor::Rumprun => "rumprun"@,
            Vendor::Sun => "sun"@,
        }
    }
}

impl View for OperatingSystem {
    type V = Seq<char>;

    /// The canonical spelling of this operating system.
    open spec fn view(&self) -> Seq<char> {
        match *self {
            OperatingSystem::Unknown => "unknown"@,
            OperatingSystem::Bitrig => "bitrig"@,
            OperatingSystem::Cloudabi => "cloudabi"@,
            OperatingSystem::Darwin => "darwin"@,
            OperatingSystem::Dragonfly => "dragonfly"@,
            OperatingSystem::Emscripten => "emscripten"@,
            OperatingSystem::Freebsd => "freebsd"@,
            OperatingSystem::Fuchsia => "fuchsia"@,
            OperatingSystem::Haiku => "haiku"@,
            OperatingSystem::Hermit => "hermit"@,
            OperatingSystem::Ios => "ios"@,
            OperatingSystem::L4re => "l4re"@,
            OperatingSystem::Linux => "linux"@,
            OperatingSystem::Nebulet => "nebulet"@,
            OperatingSystem::Netbsd => "netbsd"@,
            OperatingSystem::None_ => "none"@,
            OperatingSystem::Openbsd => "openbsd"@,
            OperatingSystem::Redox => "redox"@,
            OperatingSystem::Solaris => "solaris"@,
            OperatingSystem::Uefi => "uefi"@,
            OperatingSystem::Windows => "windows"@,
        }
    }
}

impl View for Environment {
    type V = Seq<char>;

    /// The canonical spelling of this environment.
    open spec fn view(&self) -> Seq<char> {
        match *self {
            Environment::Unknown => "unknown"@,
            Environment::Android => "android"@,
            Environment::Androideabi => "androideabi"@,
            Environment::Eabi => "eabi"@,
            Environment::Eabihf => "eabihf"@,
            Environment::Gnu => "gnu"@,
            Environment::Gnuabi64 => "gnuabi64"@,
            Environment::Gnueabi => "gnueabi"@,
            Environment::Gnueabihf => "gnueabihf"@,
            Environment::Gnuspe => "gnuspe"@,
            Environment::Gnux32 => "gnux32"@,
            Environment::Musl => "musl"@,
            Environment::Musleabi => "musleabi"@,
            Environment::Musleabihf => "musleabihf"@,
            Environment::Msvc => "msvc"@,
            Environment::Uclibc => "uclibc"@,
            Environment::Sgx => "sgx"@,
        }
    }
}

impl View for BinaryFormat {
    type V = Seq<char>;

    /// The canonical spelling of this binary format.
    open spec fn view(&self) -> Seq<char> {
        match *self {
            BinaryFormat::Unknown => "unknown"@,
            BinaryFormat::Elf => "elf"@,
            BinaryFormat::Coff => "coff"@,
            BinaryFormat::Macho => "macho"@,
            BinaryFormat::Wasm => "wasm"@,
        }
    }
}

impl ArmArchitecture {
    /// The spelling accepted for each subarchitecture: exactly the
    /// canonical one.
    pub open spec fn spec_from_str(s: Seq<char>) -> Option<ArmArchitecture> {
        if s == "arm"@ {
            Some(ArmArchitecture::Arm)
        } else if s == "armeb"@ {
            Some(ArmArchitecture::Armeb)
        } else if s == "armv4"@ {
            Some(ArmArchitecture::Armv4)
        } else if s == "armv4t"@ {
            Some(ArmArchitecture::Armv4t)
        } else if s == "armv5t"@ {
            Some(ArmArchitecture::Armv5t)
        } else if s == "armv5te"@ {
            Some(ArmArchitecture::Armv5te)
        } else if s == "armv5tej"@ {
            Some(ArmArchitecture::Armv5tej)
        } else if s == "armv6"@ {
            Some(ArmArchitecture::Armv6)
        } else if s == "armv6j"@ {
            Some(ArmArchitecture::Armv6j)
        } else if s == "armv6k"@ {
            Some(ArmArchitecture::Armv6k)
        } else if s == "armv6z"@ {
            Some(ArmArchitecture::Armv6z)
        } else if s == "armv6kz"@ {
            Some(ArmArchitecture::Armv6kz)
        } else if s == "armv6t2"@ {
            Some(ArmArchitecture::Armv6t2)
        } else if s == "armv6m"@ {
            Some(ArmArchitecture::Armv6m)
        } else if s == "armv7"@ {
            Some(ArmArchitecture::Armv7)
        } else if s == "armv7a"@ {
            Some(ArmArchitecture::Armv7a)
        } else if s == "armv7ve"@ {
            Some(ArmArchitecture::Armv7ve)
        } else if s == "armv7m"@ {
            Some(ArmArchitecture::Armv7m)
        } else if s == "armv7r"@ {
            Some(ArmArchitecture::Armv7r)
        } else if s == "armv7s"@ {
            Some(ArmArchitecture::Armv7s)
        } else if s == "armv8"@ {
            Some(ArmArchitecture::Armv8)
        } else if s == "armv8a"@ {
            Some(ArmArchitecture::Armv8a)
        } else if s == "armv8.1a"@ {
            Some(ArmArchitecture::Armv8_1a)
        } else if s == "armv8.2a"@ {
            Some(ArmArchitecture::Armv8_2a)
        } else if s == "armv8.3a"@ {
            Some(ArmArchitecture::Armv8_3a)
        } else if s == "armv8.4a"@ {
            Some(ArmArchitecture::Armv8_4a)
        } else if s == "armv8.5a"@ {
            Some(ArmArchitecture::Armv8_5a)
        } else if s == "armv8m.base"@ {
            Some(ArmArchitecture::Armv8mBase)
        } else if s == "armv8m.main"@ {
            Some(ArmArchitecture::Armv8mMain)
        } else if s == "armv8r"@ {
            Some(ArmArchitecture::Armv8r)
        } else if s == "thumbeb"@ {
            Some(ArmArchitecture::Thumbeb)
        } else if s == "thumbv6m"@ {
            Some(ArmArchitecture::Thumbv6m)
        } else if s == "thumbv7a"@ {
            Some(ArmArchitecture::Thumbv7a)
        } else if s == "thumbv7em"@ {
            Some(ArmArchitecture::Thumbv7em)
        } else if s == "thumbv7m"@ {
            Some(ArmArchitecture::Thumbv7m)
        } else if s == "thumbv7neon"@ {
            Some(ArmArchitecture::Thumbv7neon)
        } else if s == "thumbv8m.base"@ {
            Some(ArmArchitecture::Thumbv8mBase)
        } else if s == "thumbv8m.main"@ {
            Some(ArmArchitecture::Thumbv8mMain)
        } else if s == "armebv7r"@ {
            Some(ArmArchitecture::Armebv7r)
        } else {
            None
        }
    }

    /// Recognize an Arm subarchitecture name.
    pub fn from_str(s: &str) -> (r: Option<ArmArchitecture>)
        ensures
            r == ArmArchitecture::spec_from_str(s@),
    {
        if str_eq(s, "arm") {
            Some(ArmArchitecture::Arm)
        } else if str_eq(s, "armeb") {
            Some(ArmArchitecture::Armeb)
        } else if str_eq(s, "armv4") {
            Some(ArmArchitecture::Armv4)
        } else if str_eq(s, "armv4t") {
            Some(ArmArchitecture::Armv4t)
        } else if str_eq(s, "armv5t") {
            Some(ArmArchitecture::Armv5t)
        } else if str_eq(s, "armv5te") {
            Some(ArmArchitecture::Armv5te)
        } else if str_eq(s, "armv5tej") {
            Some(ArmArchitecture::Armv5tej)
        } else if str_eq(s, "armv6") {
            Some(ArmArchitecture::Armv6)
        } else if str_eq(s, "armv6j") {
            Some(ArmArchitecture::Armv6j)
        } else if str_eq(s, "armv6k") {
            Some(ArmArchitecture::Armv6k)
        } else if str_eq(s, "armv6z") {
            Some(ArmArchitecture::Armv6z)
        } else if str_eq(s, "armv6kz") {
            Some(ArmArchitecture::Armv6kz)
        } else if str_eq(s, "armv6t2") {
            Some(ArmArchitecture::Armv6t2)
        } else if str_eq(s, "armv6m") {
            Some(ArmArchitecture::Armv6m)
        } else if str_eq(s, "armv7") {
            Some(ArmArchitecture::Armv7)
        } else if str_eq(s, "armv7a") {
            Some(ArmArchitecture::Armv7a)
        } else if str_eq(s, "armv7ve") {
            Some(ArmArchitecture::Armv7ve)
        } else if str_eq(s, "armv7m") {
            Some(ArmArchitecture::Armv7m)
        } else if str_eq(s, "armv7r") {
            Some(ArmArchitecture::Armv7r)
        } else if str_eq(s, "armv7s") {
            Some(ArmArchitecture::Armv7s)
        } else if str_eq(s, "armv8") {
            Some(ArmArchitecture::Armv8)
        } else if str_eq(s, "armv8a") {
            Some(ArmArchitecture::Armv8a)
        } else if str_eq(s, "armv8.1a") {
            Some(ArmArchitecture::Armv8_1a)
        } else if str_eq(s, "armv8.2a") {
            Some(ArmArchitecture::Armv8_2a)
        } else if str_eq(s, "armv8.3a") {
            Some(ArmArchitecture::Armv8_3a)
        } else if str_eq(s, "armv8.4a") {
            Some(ArmArchitecture::Armv8_4a)
        } else if str_eq(s, "armv8.5a") {
            Some(ArmArchitecture::Armv8_5a)
        } else if str_eq(s, "armv8m.base") {
            Some(ArmArchitecture::Armv8mBase)
        } else if str_eq(s, "armv8m.main") {
            Some(ArmArchitecture::Armv8mMain)
        } else if str_eq(s, "armv8r") {
            Some(ArmArchitecture::Armv8r)
        } else if str_eq(s, "thumbeb") {
            Some(ArmArchitecture::Thumbeb)
        } else if str_eq(s, "thumbv6m") {
            Some(ArmArchitecture::Thumbv6m)
        } else if str_eq(s, "thumbv7a") {
            Some(ArmArchitecture::Thumbv7a)
        } else if str_eq(s, "thumbv7em") {
            Some(ArmArchitecture::Thumbv7em)
        } else if str_eq(s, "thumbv7m") {
            Some(ArmArchitecture::Thumbv7m)
        } else if str_eq(s, "thumbv7neon") {
            Some(ArmArchitecture::Thumbv7neon)
        } else if str_eq(s, "thumbv8m.base") {
            Some(ArmArchitecture::Thumbv8mBase)
        } else if str_eq(s, "thumbv8m.main") {
            Some(ArmArchitecture::Thumbv8mMain)
        } else if str_eq(s, "armebv7r") {
            Some(ArmArchitecture::Armebv7r)
        } else {
            None
        }
    }

    /// The canonical name of this subarchitecture.
    pub fn as_str(&self) -> (r: &'static str)
        ensures
            r@ == self@,
    {
        match *self {
            ArmArchitecture::Arm => "arm",
            ArmArchitecture::Armeb => "armeb",
            ArmArchitecture::Armv4 => "armv4",
            ArmArchitecture::Armv4t => "armv4t",
            ArmArchitecture::Armv5t => "armv5t",
            ArmArchitecture::Armv5te => "armv5te",
            ArmArchitecture::Armv5tej => "armv5tej",
            ArmArchitecture::Armv6 => "armv6",
            ArmArchitecture::Armv6j => "armv6j",
            ArmArchitecture::Armv6k => "armv6k",
            ArmArchitecture::Armv6z => "armv6z",
            ArmArchitecture::Armv6kz => "armv6kz",
            ArmArchitecture::Armv6t2 => "armv6t2",
            ArmArchitecture::Armv6m => "armv6m",
            ArmArchitecture::Armv7 => "armv7",
            ArmArchitecture::Armv7a => "armv7a",
            ArmArchitecture::Armv7ve => "armv7ve",
            ArmArchitecture::Armv7m => "armv7m",
            ArmArchitecture::Armv7r => "armv7r",
            ArmArchitecture::Armv7s => "armv7s",
            ArmArchitecture::Armv8 => "armv8",
            ArmArchitecture::Armv8a => "armv8a",
            ArmArchitecture::Armv8_1a => "armv8.1a",
            ArmArchitecture::Armv8_2a => "armv8.2a",
            ArmArchitecture::Armv8_3a => "armv8.3a",
            ArmArchitecture::Armv8_4a => "armv8.4a",
            ArmArchitecture::Armv8_5a => "armv8.5a",
            ArmArchitecture::Armv8mBase => "armv8m.base",
            ArmArchitecture::Armv8mMain => "armv8m.main",
            ArmArchitecture::Armv8r => "armv8r",
            ArmArchitecture::Armebv7r => "armebv7r",
            ArmArchitecture::Thumbeb => "thumbeb",
            ArmArchitecture::Thumbv6m => "thumbv6m",
            ArmArchitecture::Thumbv7a => "thumbv7a",
            ArmArchitecture::Thumbv7em => "thumbv7em",
            ArmArchitecture::Thumbv7m => "thumbv7m",
            ArmArchitecture::Thumbv7neon => "thumbv7neon",
            ArmArchitecture::Thumbv8mBase => "thumbv8m.base",
            ArmArchitecture::Thumbv8mMain => "thumbv8m.main",
        }
    }

    /// Whether this subarchitecture executes the Thumb instruction set.
    pub open spec fn spec_is_thumb(self) -> bool {
        self == ArmArchitecture::Thumbeb || self == ArmArchitecture::Thumbv6m || self
            == ArmArchitecture::Thumbv7a || self == ArmArchitecture::Thumbv7em || self
            == ArmArchitecture::Thumbv7m || self == ArmArchitecture::Thumbv7neon || self
            == ArmArchitecture::Thumbv8mBase || self == ArmArchitecture::Thumbv8mMain
    }

    /// The endianness of this subarchitecture: little except for the
    /// explicit big-endian ("eb") variants.
    pub open spec fn spec_endianness(self) -> Endianness {
        if self == ArmArchitecture::Armeb || self == ArmArchitecture::Armebv7r || self
            == ArmArchitecture::Thumbeb {
            Endianness::Big
        } else {
            Endianness::Little
        }
    }

    /// Return whether this subarchitecture is in Thumb mode. Total over
    /// the Arm family.
    pub fn is_thumb(self) -> (r: Result<bool, ()>)
        ensures
            r == Ok::<bool, ()>(self.spec_is_thumb()),
    {
        match self {
            ArmArchitecture::Arm
            | ArmArchitecture::Armeb
            | ArmArchitecture::Armv4
            | ArmArchitecture::Armv4t
            | ArmArchitecture::Armv5t
            | ArmArchitecture::Armv5te
            | ArmArchitecture::Armv5tej
            | ArmArchitecture::Armv6
            | ArmArchitecture::Armv6j
            | ArmArchitecture::Armv6k
            | ArmArchitecture::Armv6z
            | ArmArchitecture::Armv6kz
            | ArmArchitecture::Armv6t2
            | ArmArchitecture::Armv6m
            | ArmArchitecture::Armv7
            | ArmArchitecture::Armv7a
            | ArmArchitecture::Armv7ve
            | ArmArchitecture::Armv7m
            | ArmArchitecture::Armv7r
            | ArmArchitecture::Armv7s
            | ArmArchitecture::Armv8
            | ArmArchitecture::Armv8a
            | ArmArchitecture::Armv8_1a
            | ArmArchitecture::Armv8_2a
            | ArmArchitecture::Armv8_3a
            | ArmArchitecture::Armv8_4a
            | ArmArchitecture::Armv8_5a
            | ArmArchitecture::Armv8mBase
            | ArmArchitecture::Armv8mMain
            | ArmArchitecture::Armv8r
            | ArmArchitecture::Armebv7r => Ok(false),
            ArmArchitecture::Thumbeb
            | ArmArchitecture::Thumbv6m
            | ArmArchitecture::Thumbv7a
            | ArmArchitecture::Thumbv7em
            | ArmArchitecture::Thumbv7m
            | ArmArchitecture::Thumbv7neon
            | ArmArchitecture::Thumbv8mBase
            | ArmArchitecture::Thumbv8mMain => Ok(true),
        }
    }

    /// Return the pointer width of this subarchitecture: the whole Arm
    /// family is 32-bit.
    pub fn pointer_width(self) -> (r: Result<PointerWidth, ()>)
        ensures
            r == Ok::<PointerWidth, ()>(PointerWidth::U32),
    {
        Ok(PointerWidth::U32)
    }

    /// Return the endianness of this subarchitecture. Total over the Arm
    /// family.
    pub fn endianness(self) -> (r: Result<Endianness, ()>)
        ensures
            r == Ok::<Endianness, ()>(self.spec_endianness()),
    {
        match self {
            ArmArchitecture::Armeb | ArmArchitecture::Armebv7r | ArmArchitecture::Thumbeb => Ok(
                Endianness::Big,
            ),
            _ => Ok(Endianness::Little),
        }
    }
}

impl Aarch64Architecture {
    /// The spellings accepted for each subarchitecture: the canonical
    /// one, plus the "arm64" alias.
    pub open spec fn spec_from_str(s: Seq<char>) -> Option<Aarch64Architecture> {
        if s == "aarch64"@ {
            Some(Aarch64Architecture::Aarch64)
        } else if s == "arm64"@ {
            Some(Aarch64Architecture::Aarch64)
        } else if s == "aarch64be"@ {
            Some(Aarch64Architecture::Aarch64be)
        } else {
            None
        }
    }

    /// Recognize an AArch64 subarchitecture name.
    pub fn from_str(s: &str) -> (r: Option<Aarch64Architecture>)
        ensures
            r == Aarch64Architecture::spec_from_str(s@),
    {
        if str_eq(s, "aarch64") {
            Some(Aarch64Architecture::Aarch64)
        } else if str_eq(s, "arm64") {
            Some(Aarch64Architecture::Aarch64)
        } else if str_eq(s, "aarch64be") {
            Some(Aarch64Architecture::Aarch64be)
        } else {
            None
        }
    }

    /// The canonical name of this subarchitecture.
    pub fn as_str(&self) -> (r: &'static str)
        ensures
            r@ == self@,
    {
        match *self {
            Aarch64Architecture::Aarch64 => "aarch64",
            Aarch64Architecture::Aarch64be => "aarch64be",
        }
    }

    /// The endianness of this subarchitecture: little except for the
    /// explicit big-endian variant.
    pub open spec fn spec_endianness(self) -> Endianness {
        if self == Aarch64Architecture::Aarch64be {
            Endianness::Big
        } else {
            Endianness::Little
        }
    }

    /// Return whether this subarchitecture is in Thumb mode: the AArch64
    /// family never is.
    pub fn is_thumb(self) -> (r: Result<bool, ()>)
        ensures
            r == Ok::<bool, ()>(false),
    {
        Ok(false)
    }

    /// Return the pointer width of this subarchitecture: the whole
    /// AArch64 family is 64-bit.
    pub fn pointer_width(self) -> (r: Result<PointerWidth, ()>)
        ensures
            r == Ok::<PointerWidth, ()>(PointerWidth::U64),
    {
        Ok(PointerWidth::U64)
    }

    /// Return the endianness of this subarchitecture. Total over the
    /// AArch64 family.
    pub fn endianness(self) -> (r: Result<Endianness, ()>)
        ensures
            r == Ok::<Endianness, ()>(self.spec_endianness()),
    {
        match self {
            Aarch64Architecture::Aarch64 => Ok(Endianness::Little),
            Aarch64Architecture::Aarch64be => Ok(Endianness::Big),
        }
    }
}

impl Architecture {
    /// The flat architecture table, tried before the Arm and AArch64
    /// subfamilies.
    pub open spec fn spec_from_str_flat(s: Seq<char>) -> Option<Architecture> {
        if s == "unknown"@ {
            Some(Architecture::Unknown)
        } else if s == "asmjs"@ {
            Some(Architecture::Asmjs)
        } else if s == "i386"@ {
            Some(Architecture::I386)
        } else if s == "i586"@ {
            Some(Architecture::I586)
        } else if s == "i686"@ {
            Some(Architecture::I686)
        } else if s == "mips"@ {
            Some(Architecture::Mips)
        } else if s == "mips64"@ {
            Some(Architecture::Mips64)
        } else if s == "mips64el"@ {
            Some(Architecture::Mips64el)
        } else if s == "mipsel"@ {
            Some(Architecture::Mipsel)
        } else if s == "msp430"@ {
            Some(Architecture::Msp430)
        } else if s == "powerpc"@ {
            Some(Architecture::Powerpc)
        } else if s == "powerpc64"@ {
            Some(Architecture::Powerpc64)
        } else if s == "powerpc64le"@ {
            Some(Architecture::Powerpc64le)
        } else if s == "riscv32"@ {
            Some(Architecture::Riscv32)
        } else if s == "riscv32imac"@ {
            Some(Architecture::Riscv32imac)
        } else if s == "riscv32imc"@ {
            Some(Architecture::Riscv32imc)
        } else if s == "riscv64"@ {
            Some(Architecture::Riscv64)
        } else if s == "s390x"@ {
            Some(Architecture::S390x)
        } else if s == "sparc"@ {
            Some(Architecture::Sparc)
        } else if s == "sparc64"@ {
            Some(Architecture::Sparc64)
        } else if s == "sparcv9"@ {
            Some(Architecture::Sparcv9)
        } else if s == "wasm32"@ {
            Some(Architecture::Wasm32)
        } else if s == "x86_64"@ {
            Some(Architecture::X86_64)
        } else {
            None
        }
    }

    /// The spellings accepted for each architecture: the flat table
    /// first, then the Arm subfamily, then the AArch64 subfamily.
    pub open spec fn spec_from_str(s: Seq<char>) -> Option<Architecture> {
        match Architecture::spec_from_str_flat(s) {
            Some(a) => Some(a),
            None => match ArmArchitecture::spec_from_str(s) {
                Some(arm) => Some(Architecture::Arm(arm)),
                None => match Aarch64Architecture::spec_from_str(s) {
                    Some(aarch) => Some(Architecture::Aarch64(aarch)),
                    None => None,
                },
            },
        }
    }

    /// Recognize an architecture name.
    pub fn from_str(s: &str) -> (r: Option<Architecture>)
        ensures
            r == Architecture::spec_from_str(s@),
    {
        if str_eq(s, "unknown") {
            Some(Architecture::Unknown)
        } else if str_eq(s, "asmjs") {
            Some(Architecture::Asmjs)
        } else if str_eq(s, "i386") {
            Some(Architecture::I386)
        } else if str_eq(s, "i586") {
            Some(Architecture::I586)
        } else if str_eq(s, "i686") {
            Some(Architecture::I686)
        } else if str_eq(s, "mips") {
            Some(Architecture::Mips)
        } else if str_eq(s, "mips64") {
            Some(Architecture::Mips64)
        } else if str_eq(s, "mips64el") {
            Some(Architecture::Mips64el)
        } else if str_eq(s, "mipsel") {
            Some(Architecture::Mipsel)
        } else if str_eq(s, "msp430") {
            Some(Architecture::Msp430)
        } else if str_eq(s, "powerpc") {
            Some(Architecture::Powerpc)
        } else if str_eq(s, "powerpc64") {
            Some(Architecture::Powerpc64)
        } else if str_eq(s, "powerpc64le") {
            Some(Architecture::Powerpc64le)
        } else if str_eq(s, "riscv32") {
            Some(Architecture::Riscv32)
        } else if str_eq(s, "riscv32imac") {
            Some(Architecture::Riscv32imac)
        } else if str_eq(s, "riscv32imc") {
            Some(Architecture::Riscv32imc)
        } else if str_eq(s, "riscv64") {
            Some(Architecture::Riscv64)
        } else if str_eq(s, "s390x") {
            Some(Architecture::S390x)
        } else if str_eq(s, "sparc") {
            Some(Architecture::Sparc)
        } else if str_eq(s, "sparc64") {
            Some(Architecture::Sparc64)
        } else if str_eq(s, "sparcv9") {
            Some(Architecture::Sparcv9)
        } else if str_eq(s, "wasm32") {
            Some(Architecture::Wasm32)
        } else if str_eq(s, "x86_64") {
            Some(Architecture::X86_64)
        } else if let Some(arm) = ArmArchitecture::from_str(s) {
            Some(Architecture::Arm(arm))
        } else if let Some(aarch64) = Aarch64Architecture::from_str(s) {
            Some(Architecture::Aarch64(aarch64))
        } else {
            None
        }
    }

    /// The canonical name of this architecture.
    pub fn as_str(&self) -> (r: &'static str)
        ensures
            r@ == self@,
    {
        match *self {
            Architecture::Arm(arm) => arm.as_str(),
            Architecture::Aarch64(aarch) => aarch.as_str(),
            Architecture::Unknown => "unknown",
            Architecture::Asmjs => "asmjs",
            Architecture::I386 => "i386",
            Architecture::I586 => "i586",
            Architecture::I686 => "i686",
            Architecture::Mips => "mips",
            Architecture::Mips64 => "mips64",
            Architecture::Mips64el => "mips64el",
            Architecture::Mipsel => "mipsel",
            Architecture::Msp430 => "msp430",
            Architecture::Powerpc => "powerpc",
            Architecture::Powerpc64 => "powerpc64",
            Architecture::Powerpc64le => "powerpc64le",
            Architecture::Riscv32 => "riscv32",
            Architecture::Riscv32imac => "riscv32imac",
            Architecture::Riscv32imc => "riscv32imc",
            Architecture::Riscv64 => "riscv64",
            Architecture::S390x => "s390x",
            Architecture::Sparc => "sparc",
            Architecture::Sparc64 => "sparc64",
            Architecture::Sparcv9 => "sparcv9",
            Architecture::Wasm32 => "wasm32",
            Architecture::X86_64 => "x86_64",
        }
    }

    /// The per-architecture endianness table; `Unknown` has no endianness.
    pub open spec fn spec_endianness(self) -> Result<Endianness, ()> {
        match self {
            Architecture::Unknown => Err(()),
            Architecture::Arm(arm) => Ok(arm.spec_endianness()),
            Architecture::Aarch64(aarch) => Ok(aarch.spec_endianness()),
            Architecture::Mips
            | Architecture::Mips64
            | Architecture::Powerpc
            | Architecture::Powerpc64
            | Architecture::S390x
            | Architecture::Sparc
            | Architecture::Sparc64
            | Architecture::Sparcv9 => Ok(Endianness::Big),
            _ => Ok(Endianness::Little),
        }
    }

    /// The per-architecture pointer width table; `Unknown` has no width.
    pub open spec fn spec_pointer_width(self) -> Result<PointerWidth, ()> {
        match self {
            Architecture::Unknown => Err(()),
            Architecture::Msp430 => Ok(PointerWidth::U16),
            Architecture::Arm(_) => Ok(PointerWidth::U32),
            Architecture::Aarch64(_) => Ok(PointerWidth::U64),
            Architecture::Asmjs
            | Architecture::I386
            | Architecture::I586
            | Architecture::I686
            | Architecture::Mipsel
            | Architecture::Riscv32
            | Architecture::Riscv32imac
            | Architecture::Riscv32imc
            | Architecture::Sparc
            | Architecture::Wasm32
            | Architecture::Mips
            | Architecture::Powerpc => Ok(PointerWidth::U32),
            _ => Ok(PointerWidth::U64),
        }
    }

    /// Return the endianness of this architecture; fails only for
    /// `Unknown`.
    pub fn endianness(self) -> (r: Result<Endianness, ()>)
        ensures
            r == self.spec_endianness(),
            r is Ok <==> self != Architecture::Unknown,
    {
        match self {
            Architecture::Unknown => Err(()),
            Architecture::Arm(arm) => arm.endianness(),
            Architecture::Aarch64(aarch) => aarch.endianness(),
            Architecture::Asmjs
            | Architecture::I386
            | Architecture::I586
            | Architecture::I686
            | Architecture::Mips64el
            | Architecture::Mipsel
            | Architecture::Msp430
            | Architecture::Powerpc64le
            | Architecture::Riscv32
            | Architecture::Riscv32imac
            | Architecture::Riscv32imc
            | Architecture::Riscv64
            | Architecture::Wasm32
            | Architecture::X86_64 => Ok(Endianness::Little),
            Architecture::Mips
            | Architecture::Mips64
            | Architecture::Powerpc
            | Architecture::Powerpc64
            | Architecture::S390x
            | Architecture::Sparc
            | Architecture::Sparc64
            | Architecture::Sparcv9 => Ok(Endianness::Big),
        }
    }

    /// Return the pointer bit width of this target's architecture; fails
    /// only for `Unknown`.
    pub fn pointer_width(self) -> (r: Result<PointerWidth, ()>)
        ensures
            r == self.spec_pointer_width(),
            r is Ok <==> self != Architecture::Unknown,
    {
        match self {
            Architecture::Unknown => Err(()),
            Architecture::Msp430 => Ok(PointerWidth::U16),
            Architecture::Arm(arm) => arm.pointer_width(),
            Architecture::Aarch64(aarch) => aarch.pointer_width(),
            Architecture::Asmjs
            | Architecture::I386
            | Architecture::I586
            | Architecture::I686
            | Architecture::Mipsel
            | Architecture::Riscv32
            | Architecture::Riscv32imac
            | Architecture::Riscv32imc
            | Architecture::Sparc
            | Architecture::Wasm32
            | Architecture::Mips
            | Architecture::Powerpc => Ok(PointerWidth::U32),
            Architecture::Mips64el
            | Architecture::Powerpc64le
            | Architecture::Riscv64
            | Architecture::X86_64
            | Architecture::Mips64
            | Architecture::Powerpc64
            | Architecture::S390x
            | Architecture::Sparc64
            | Architecture::Sparcv9 => Ok(PointerWidth::U64),
        }
    }
}

impl Vendor {
    /// The spelling accepted for each vendor: exactly the canonical one.
    pub open spec fn spec_from_str(s: Seq<char>) -> Option<Vendor> {
        if s == "unknown"@ {
            Some(Vendor::Unknown)
        } else if s == "apple"@ {
            Some(Vendor::Apple)
        } else if s == "experimental"@ {
            Some(Vendor::Experimental)
        } else if s == "fortanix"@ {
            Some(Vendor::Fortanix)
        } else if s == "pc"@ {
            Some(Vendor::Pc)
        } else if s == "rumprun"@ {
            Some(Vendor::Rumprun)
        } else if s == "sun"@ {
            Some(Vendor::Sun)
        } else {
            None
        }
    }

    /// Recognize a vendor name.
    pub fn from_str(s: &str) -> (r: Option<Vendor>)
        ensures
            r == Vendor::spec_from_str(s@),
    {
        if str_eq(s, "unknown") {
            Some(Vendor::Unknown)
        } else if str_eq(s, "apple") {
            Some(Vendor::Apple)
        } else if str_eq(s, "experimental") {
            Some(Vendor::Experimental)
        } else if str_eq(s, "fortanix") {
            Some(Vendor::Fortanix)
        } else if str_eq(s, "pc") {
            Some(Vendor::Pc)
        } else if str_eq(s, "rumprun") {
            Some(Vendor::Rumprun)
        } else if str_eq(s, "sun") {
            Some(Vendor::Sun)
        } else {
            None
        }
    }

    /// The canonical name of this vendor.
    pub fn as_str(&self) -> (r: &'static str)
        ensures
            r@ == self@,
    {
        match *self {
            Vendor::Unknown => "unknown",
            Vendor::Apple => "apple",
            Vendor::Experimental => "experimental",
            Vendor::Fortanix => "fortanix",
            Vendor::Pc => "pc",
            Vendor::Rumprun => "rumprun",
            Vendor::Sun => "sun",
        }
    }
}

impl OperatingSystem {
    /// The spelling accepted for each operating system: exactly the
    /// canonical one.
    pub open spec fn spec_from_str(s: Seq<char>) -> Option<OperatingSystem> {
        if s == "unknown"@ {
            Some(OperatingSystem::Unknown)
        } else if s == "bitrig"@ {
            Some(OperatingSystem::Bitrig)
        } else if s == "cloudabi"@ {
            Some(OperatingSystem::Cloudabi)
        } else if s == "darwin"@ {
            Some(OperatingSystem::Darwin)
        } else if s == "dragonfly"@ {
            Some(OperatingSystem::Dragonfly)
        } else if s == "emscripten"@ {
            Some(OperatingSystem::Emscripten)
        } else if s == "freebsd"@ {
            Some(OperatingSystem::Freebsd)
        } else if s == "fuchsia"@ {
            Some(OperatingSystem::Fuchsia)
        } else if s == "haiku"@ {
            Some(OperatingSystem::Haiku)
        } else if s == "hermit"@ {
            Some(OperatingSystem::Hermit)
        } else if s == "ios"@ {
            Some(OperatingSystem::Ios)
        } else if s == "l4re"@ {
            Some(OperatingSystem::L4re)
        } else if s == "linux"@ {
            Some(OperatingSystem::Linux)
        } else if s == "nebulet"@ {
            Some(OperatingSystem::Nebulet)
        } else if s == "netbsd"@ {
            Some(OperatingSystem::Netbsd)
        } else if s == "none"@ {
            Some(OperatingSystem::None_)
        } else if s == "openbsd"@ {
            Some(OperatingSystem::Openbsd)
        } else if s == "redox"@ {
            Some(OperatingSystem::Redox)
        } else if s == "solaris"@ {
            Some(OperatingSystem::Solaris)
        } else if s == "uefi"@ {
            Some(OperatingSystem::Uefi)
        } else if s == "windows"@ {
            Some(OperatingSystem::Windows)
        } else {
            None
        }
    }

    /// Recognize an operating-system name.
    pub fn from_str(s: &str) -> (r: Option<OperatingSystem>)
        ensures
            r == OperatingSystem::spec_from_str(s@),
    {
        if str_eq(s, "unknown") {
            Some(OperatingSystem::Unknown)
        } else if str_eq(s, "bitrig") {
            Some(OperatingSystem::Bitrig)
        } else if str_eq(s, "cloudabi") {
            Some(OperatingSystem::Cloudabi)
        } else if str_eq(s, "darwin") {
            Some(OperatingSystem::Darwin)
        } else if str_eq(s, "dragonfly") {
            Some(OperatingSystem::Dragonfly)
        } else if str_eq(s, "emscripten") {
            Some(OperatingSystem::Emscripten)
        } else if str_eq(s, "freebsd") {
            Some(OperatingSystem::Freebsd)
        } else if str_eq(s, "fuchsia") {
            Some(OperatingSystem::Fuchsia)
        } else if str_eq(s, "haiku") {
            Some(OperatingSystem::Haiku)
        } else if str_eq(s, "hermit") {
            Some(OperatingSystem::Hermit)
        } else if str_eq(s, "ios") {
            Some(OperatingSystem::Ios)
        } else if str_eq(s, "l4re") {
            Some(OperatingSystem::L4re)
        } else if str_eq(s, "linux") {
            Some(OperatingSystem::Linux)
        } else if str_eq(s, "nebulet") {
            Some(OperatingSystem::Nebulet)
        } else if str_eq(s, "netbsd") {
            Some(OperatingSystem::Netbsd)
        } else if str_eq(s, "none") {
            Some(OperatingSystem::None_)
        } else if str_eq(s, "openbsd") {
            Some(OperatingSystem::Openbsd)
        } else if str_eq(s, "redox") {
            Some(OperatingSystem::Redox)
        } else if str_eq(s, "solaris") {
            Some(OperatingSystem::Solaris)
        } else if str_eq(s, "uefi") {
            Some(OperatingSystem::Uefi)
        } else if str_eq(s, "windows") {
            Some(OperatingSystem::Windows)
        } else {
            None
        }
    }

    /// The canonical name of this operating system.
    pub fn as_str(&self) -> (r: &'static str)
        ensures
            r@ == self@,
    {
        match *self {
            OperatingSystem::Unknown => "unknown",
            OperatingSystem::Bitrig => "bitrig",
            OperatingSystem::Cloudabi => "cloudabi",
            OperatingSystem::Darwin => "darwin",
            OperatingSystem::Dragonfly => "dragonfly",
            OperatingSystem::Emscripten => "emscripten",
            OperatingSystem::Freebsd => "freebsd",
            OperatingSystem::Fuchsia => "fuchsia",
            OperatingSystem::Haiku => "haiku",
            OperatingSystem::Hermit => "hermit",
            OperatingSystem::Ios => "ios",
            OperatingSystem::L4re => "l4re",
            OperatingSystem::Linux => "linux",
            OperatingSystem::Nebulet => "nebulet",
            OperatingSystem::Netbsd => "netbsd",
            OperatingSystem::None_ => "none",
            OperatingSystem::Openbsd => "openbsd",
            OperatingSystem::Redox => "redox",
            OperatingSystem::Solaris => "solaris",
            OperatingSystem::Uefi => "uefi",
            OperatingSystem::Windows => "windows",
        }
    }
}

impl Environment {
    /// The spelling accepted for each environment: exactly the canonical
    /// one.
    pub open spec fn spec_from_str(s: Seq<char>) -> Option<Environment> {
        if s == "unknown"@ {
            Some(Environment::Unknown)
        } else if s == "android"@ {
            Some(Environment::Android)
        } else if s == "androideabi"@ {
            Some(Environment::Androideabi)
        } else if s == "eabi"@ {
            Some(Environment::Eabi)
        } else if s == "eabihf"@ {
            Some(Environment::Eabihf)
        } else if s == "gnu"@ {
            Some(Environment::Gnu)
        } else if s == "gnuabi64"@ {
            Some(Environment::Gnuabi64)
        } else if s == "gnueabi"@ {
            Some(Environment::Gnueabi)
        } else if s == "gnueabihf"@ {
            Some(Environment::Gnueabihf)
        } else if s == "gnuspe"@ {
            Some(Environment::Gnuspe)
        } else if s == "gnux32"@ {
            Some(Environment::Gnux32)
        } else if s == "musl"@ {
            Some(Environment::Musl)
        } else if s == "musleabi"@ {
            Some(Environment::Musleabi)
        } else if s == "musleabihf"@ {
            Some(Environment::Musleabihf)
        } else if s == "msvc"@ {
            Some(Environment::Msvc)
        } else if s == "uclibc"@ {
            Some(Environment::Uclibc)
        } else if s == "sgx"@ {
            Some(Environment::Sgx)
        } else {
            None
        }
    }

    /// Recognize an environment name.
    pub fn from_str(s: &str) -> (r: Option<Environment>)
        ensures
            r == Environment::spec_from_str(s@),
    {
        if str_eq(s, "unknown") {
            Some(Environment::Unknown)
        } else if str_eq(s, "android") {
            Some(Environment::Android)
        } else if str_eq(s, "androideabi") {
            Some(Environment::Androideabi)
        } else if str_eq(s, "eabi") {
            Some(Environment::Eabi)
        } else if str_eq(s, "eabihf") {
            Some(Environment::Eabihf)
        } else if str_eq(s, "gnu") {
            Some(Environment::Gnu)
        } else if str_eq(s, "gnuabi64") {
            Some(Environment::Gnuabi64)
        } else if str_eq(s, "gnueabi") {
            Some(Environment::Gnueabi)
        } else if str_eq(s, "gnueabihf") {
            Some(Environment::Gnueabihf)
        } else if str_eq(s, "gnuspe") {
            Some(Environment::Gnuspe)
        } else if str_eq(s, "gnux32") {
            Some(Environment::Gnux32)
        } else if str_eq(s, "musl") {
            Some(Environment::Musl)
        } else if str_eq(s, "musleabi") {
            Some(Environment::Musleabi)
        } else if str_eq(s, "musleabihf") {
            Some(Environment::Musleabihf)
        } else if str_eq(s, "msvc") {
            Some(Environment::Msvc)
        } else if str_eq(s, "uclibc") {
            Some(Environment::Uclibc)
        } else if str_eq(s, "sgx") {
            Some(Environment::Sgx)
        } else {
            None
        }
    }

    /// The canonical name of this environment.
    pub fn as_str(&self) -> (r: &'static str)
        ensures
            r@ == self@,
    {
        match *self {
            Environment::Unknown => "unknown",
            Environment::Android => "android",
            Environment::Androideabi => "androideabi",
            Environment::Eabi => "eabi",
            Environment::Eabihf => "eabihf",
            Environment::Gnu => "gnu",
            Environment::Gnuabi64 => "gnuabi64",
            Environment::Gnueabi => "gnueabi",
            Environment::Gnueabihf => "gnueabihf",
            Environment::Gnuspe => "gnuspe",
            Environment::Gnux32 => "gnux32",
            Environment::Musl => "musl",
            Environment::Musleabi => "musleabi",
            Environment::Musleabihf => "musleabihf",
            Environment::Msvc => "msvc",
            Environment::Uclibc => "uclibc",
            Environment::Sgx => "sgx",
        }
    }
}

impl BinaryFormat {
    /// The spelling accepted for each binary format: exactly the
    /// canonical one.
    pub open spec fn spec_from_str(s: Seq<char>) -> Option<BinaryFormat> {
        if s == "unknown"@ {
            Some(BinaryFormat::Unknown)
        } else if s == "elf"@ {
            Some(BinaryFormat::Elf)
        } else if s == "coff"@ {
            Some(BinaryFormat::Coff)
        } else if s == "macho"@ {
            Some(BinaryFormat::Macho)
        } else if s == "wasm"@ {
            Some(BinaryFormat::Wasm)
        } else {
            None
        }
    }

    /// Recognize a binary-format name.
    pub fn from_str(s: &str) -> (r: Option<BinaryFormat>)
        ensures
            r == BinaryFormat::spec_from_str(s@),
    {
        if str_eq(s, "unknown") {
            Some(BinaryFormat::Unknown)
        } else if str_eq(s, "elf") {
            Some(BinaryFormat::Elf)
        } else if str_eq(s, "coff") {
            Some(BinaryFormat::Coff)
        } else if str_eq(s, "macho") {
            Some(BinaryFormat::Macho)
        } else if str_eq(s, "wasm") {
            Some(BinaryFormat::Wasm)
        } else {
            None
        }
    }

    /// The canonical name of this binary format.
    pub fn as_str(&self) -> (r: &'static str)
        ensures
            r@ == self@,
    {
        match *self {
            BinaryFormat::Unknown => "unknown",
            BinaryFormat::Elf => "elf",
            BinaryFormat::Coff => "coff",
            BinaryFormat::Macho => "macho",
            BinaryFormat::Wasm => "wasm",
        }
    }
}

/// The length and characters of each Arm subarchitecture name,
/// spelled out so that the lemmas below can tell any two names apart.
proof fn arm_strlit_facts()
    ensures
        "arm"@.len() == 3,
        "arm"@[0] == 'a',
        "arm"@[1] == 'r',
        "arm"@[2] == 'm',
        "armeb"@.len() == 5,
        "armeb"@[0] == 'a',
        "armeb"@[1] == 'r',
        "armeb"@[2] == 'm',
        "armeb"@[3] == 'e',
        "armeb"@[4] == 'b',
        "armv4"@.len() == 5,
        "armv4"@[0] == 'a',
        "armv4"@[1] == 'r',
        "armv4"@[2] == 'm',
        "armv4"@[3] == 'v',
        "armv4"@[4] == '4',
        "armv4t"@.len() == 6,
        "armv4t"@[0] == 'a',
        "armv4t"@[1] == 'r',
        "armv4t"@[2] == 'm',
        "armv4t"@[3] == 'v',
        "armv4t"@[4] == '4',
        "armv4t"@[5] == 't',
        "armv5t"@.len() == 6,
        "armv5t"@[0] == 'a',
        "armv5t"@[1] == 'r',
        "armv5t"@[2] == 'm',
        "armv5t"@[3] == 'v',
        "armv5t"@[4] == '5',
        "armv5t"@[5] == 't',
        "armv5te"@.len() == 7,
        "armv5te"@[0] == 'a',
        "armv5te"@[1] == 'r',
        "armv5te"@[2] == 'm',
        "armv5te"@[3] == 'v',
        "armv5te"@[4] == '5',
        "armv5te"@[5] == 't',
        "armv5te"@[6] == 'e',
        "armv5tej"@.len() == 8,
        "armv5tej"@[0] == 'a',
        "armv5tej"@[1] == 'r',
        "armv5tej"@[2] == 'm',
        "armv5tej"@[3] == 'v',
        "armv5tej"@[4] == '5',
        "armv5tej"@[5] == 't',
        "armv5tej"@[6] == 'e',
        "armv5tej"@[7] == 'j',
        "armv6"@.len() == 5,
        "armv6"@[0] == 'a',
        "armv6"@[1] == 'r',
        "armv6"@[2] == 'm',
        "armv6"@[3] == 'v',
        "armv6"@[4] == '6',
        "armv6j"@.len() == 6,
        "armv6j"@[0] == 'a',
        "armv6j"@[1] == 'r',
        "armv6j"@[2] == 'm',
        "armv6j"@[3] == 'v',
        "armv6j"@[4] == '6',
        "armv6j"@[5] == 'j',
        "armv6k"@.len() == 6,
        "armv6k"@[0] == 'a',
        "armv6k"@[1] == 'r',
        "armv6k"@[2] == 'm',
        "armv6k"@[3] == 'v',
        "armv6k"@[4] == '6',
        "armv6k"@[5] == 'k',
        "armv6z"@.len() == 6,
        "armv6z"@[0] == 'a',
        "armv6z"@[1] == 'r',
        "armv6z"@[2] == 'm',
        "armv6z"@[3] == 'v',
        "armv6z"@[4] == '6',
        "armv6z"@[5] == 'z',
        "armv6kz"@.len() == 7,
        "armv6kz"@[0] == 'a',
        "armv6kz"@[1] == 'r',
        "armv6kz"@[2] == 'm',
        "armv6kz"@[3] == 'v',
        "armv6kz"@[4] == '6',
        "armv6kz"@[5] == 'k',
        "armv6kz"@[6] == 'z',
        "armv6t2"@.len() == 7,
        "armv6t2"@[0] == 'a',
        "armv6t2"@[1] == 'r',
        "armv6t2"@[2] == 'm',
        "armv6t2"@[3] == 'v',
        "armv6t2"@[4] == '6',
        "armv6t2"@[5] == 't',
        "armv6t2"@[6] == '2',
        "armv6m"@.len() == 6,
        "armv6m"@[0] == 'a',
        "armv6m"@[1] == 'r',
        "armv6m"@[2] == 'm',
        "armv6m"@[3] == 'v',
        "armv6m"@[4] == '6',
        "armv6m"@[5] == 'm',
        "armv7"@.len() == 5,
        "armv7"@[0] == 'a',
        "armv7"@[1] == 'r',
        "armv7"@[2] == 'm',
        "armv7"@[3] == 'v',
        "armv7"@[4] == '7',
        "armv7a"@.len() == 6,
        "armv7a"@[0] == 'a',
        "armv7a"@[1] == 'r',
        "armv7a"@[2] == 'm',
        "armv7a"@[3] == 'v',
        "armv7a"@[4] == '7',
        "armv7a"@[5] == 'a',
        "armv7ve"@.len() == 7,
        "armv7ve"@[0] == 'a',
        "armv7ve"@[1] == 'r',
        "armv7ve"@[2] == 'm',
        "armv7ve"@[3] == 'v',
        "armv7ve"@[4] == '7',
        "armv7ve"@[5] == 'v',
        "armv7ve"@[6] == 'e',
        "armv7m"@.len() == 6,
        "armv7m"@[0] == 'a',
        "armv7m"@[1] == 'r',
        "armv7m"@[2] == 'm',
        "armv7m"@[3] == 'v',
        "armv7m"@[4] == '7',
        "armv7m"@[5] == 'm',
        "armv7r"@.len() == 6,
        "armv7r"@[0] == 'a',
        "armv7r"@[1] == 'r',
        "armv7r"@[2] == 'm',
        "armv7r"@[3] == 'v',
        "armv7r"@[4] == '7',
        "armv7r"@[5] == 'r',
        "armv7s"@.len() == 6,
        "armv7s"@[0] == 'a',
        "armv7s"@[1] == 'r',
        "armv7s"@[2] == 'm',
        "armv7s"@[3] == 'v',
        "armv7s"@[4] == '7',
        "armv7s"@[5] == 's',
        "armv8"@.len() == 5,
        "armv8"@[0] == 'a',
        "armv8"@[1] == 'r',
        "armv8"@[2] == 'm',
        "armv8"@[3] == 'v',
        "armv8"@[4] == '8',
        "armv8a"@.len() == 6,
        "armv8a"@[0] == 'a',
        "armv8a"@[1] == 'r',
        "armv8a"@[2] == 'm',
        "armv8a"@[3] == 'v',
        "armv8a"@[4] == '8',
        "armv8a"@[5] == 'a',
        "armv8.1a"@.len() == 8,
        "armv8.1a"@[0] == 'a',
        "armv8.1a"@[1] == 'r',
        "armv8.1a"@[2] == 'm',
        "armv8.1a"@[3] == 'v',
        "armv8.1a"@[4] == '8',
        "armv8.1a"@[5] == '.',
        "armv8.1a"@[6] == '1',
        "armv8.1a"@[7] == 'a',
        "armv8.2a"@.len() == 8,
        "armv8.2a"@[0] == 'a',
        "armv8.2a"@[1] == 'r',
        "armv8.2a"@[2] == 'm',
        "armv8.2a"@[3] == 'v',
        "armv8.2a"@[4] == '8',
        "armv8.2a"@[5] == '.',
        "armv8.2a"@[6] == '2',
        "armv8.2a"@[7] == 'a',
        "armv8.3a"@.len() == 8,
        "armv8.3a"@[0] == 'a',
        "armv8.3a"@[1] == 'r',
        "armv8.3a"@[2] == 'm',
        "armv8.3a"@[3] == 'v',
        "armv8.3a"@[4] == '8',
        "armv8.3a"@[5] == '.',
        "armv8.3a"@[6] == '3',
        "armv8.3a"@[7] == 'a',
        "armv8.4a"@.len() == 8,
        "armv8.4a"@[0] == 'a',
        "armv8.4a"@[1] == 'r',
        "armv8.4a"@[2] == 'm',
        "armv8.4a"@[3] == 'v',
        "armv8.4a"@[4] == '8',
        "armv8.4a"@[5] == '.',
        "armv8.4a"@[6] == '4',
        "armv8.4a"@[7] == 'a',
        "armv8.5a"@.len() == 8,
        "armv8.5a"@[0] == 'a',
        "armv8.5a"@[1] == 'r',
        "armv8.5a"@[2] == 'm',
        "armv8.5a"@[3] == 'v',
        "armv8.5a"@[4] == '8',
        "armv8.5a"@[5] == '.',
        "armv8.5a"@[6] == '5',
        "armv8.5a"@[7] == 'a',
        "armv8m.base"@.len() == 11,
        "armv8m.base"@[0] == 'a',
        "armv8m.base"@[1] == 'r',
        "armv8m.base"@[2] == 'm',
        "armv8m.base"@[3] == 'v',
        "armv8m.base"@[4] == '8',
        "armv8m.base"@[5] == 'm',
        "armv8m.base"@[6] == '.',
        "armv8m.base"@[7] == 'b',
        "armv8m.base"@[8] == 'a',
        "armv8m.base"@[9] == 's',
        "armv8m.base"@[10] == 'e',
        "armv8m.main"@.len() == 11,
        "armv8m.main"@[0] == 'a',
        "armv8m.main"@[1] == 'r',
        "armv8m.main"@[2] == 'm',
        "armv8m.main"@[3] == 'v',
        "armv8m.main"@[4] == '8',
        "armv8m.main"@[5] == 'm',
        "armv8m.main"@[6] == '.',
        "armv8m.main"@[7] == 'm',
        "armv8m.main"@[8] == 'a',
        "armv8m.main"@[9] == 'i',
        "armv8m.main"@[10] == 'n',
        "armv8r"@.len() == 6,
        "armv8r"@[0] == 'a',
        "armv8r"@[1] == 'r',
        "armv8r"@[2] == 'm',
        "armv8r"@[3] == 'v',
        "armv8r"@[4] == '8',
        "armv8r"@[5] == 'r',
        "armebv7r"@.len() == 8,
        "armebv7r"@[0] == 'a',
        "armebv7r"@[1] == 'r',
        "armebv7r"@[2] == 'm',
        "armebv7r"@[3] == 'e',
        "armebv7r"@[4] == 'b',
        "armebv7r"@[5] == 'v',
        "armebv7r"@[6] == '7',
        "armebv7r"@[7] == 'r',
        "thumbeb"@.len() == 7,
        "thumbeb"@[0] == 't',
        "thumbeb"@[1] == 'h',
        "thumbeb"@[2] == 'u',
        "thumbeb"@[3] == 'm',
        "thumbeb"@[4] == 'b',
        "thumbeb"@[5] == 'e',
        "thumbeb"@[6] == 'b',
        "thumbv6m"@.len() == 8,
        "thumbv6m"@[0] == 't',
        "thumbv6m"@[1] == 'h',
        "thumbv6m"@[2] == 'u',
        "thumbv6m"@[3] == 'm',
        "thumbv6m"@[4] == 'b',
        "thumbv6m"@[5] == 'v',
        "thumbv6m"@[6] == '6',
        "thumbv6m"@[7] == 'm',
        "thumbv7a"@.len() == 8,
        "thumbv7a"@[0] == 't',
        "thumbv7a"@[1] == 'h',
        "thumbv7a"@[2] == 'u',
        "thumbv7a"@[3] == 'm',
        "thumbv7a"@[4] == 'b',
        "thumbv7a"@[5] == 'v',
        "thumbv7a"@[6] == '7',
        "thumbv7a"@[7] == 'a',
        "thumbv7em"@.len() == 9,
        "thumbv7em"@[0] == 't',
        "thumbv7em"@[1] == 'h',
        "thumbv7em"@[2] == 'u',
        "thumbv7em"@[3] == 'm',
        "thumbv7em"@[4] == 'b',
        "thumbv7em"@[5] == 'v',
        "thumbv7em"@[6] == '7',
        "thumbv7em"@[7] == 'e',
        "thumbv7em"@[8] == 'm',
        "thumbv7m"@.len() == 8,
        "thumbv7m"@[0] == 't',
        "thumbv7m"@[1] == 'h',
        "thumbv7m"@[2] == 'u',
        "thumbv7m"@[3] == 'm',
        "thumbv7m"@[4] == 'b',
        "thumbv7m"@[5] == 'v',
        "thumbv7m"@[6] == '7',
        "thumbv7m"@[7] == 'm',
        "thumbv7neon"@.len() == 11,
        "thumbv7neon"@[0] == 't',
        "thumbv7neon"@[1] == 'h',
        "thumbv7neon"@[2] == 'u',
        "thumbv7neon"@[3] == 'm',
        "thumbv7neon"@[4] == 'b',
        "thumbv7neon"@[5] == 'v',
        "thumbv7neon"@[6] == '7',
        "thumbv7neon"@[7] == 'n',
        "thumbv7neon"@[8] == 'e',
        "thumbv7neon"@[9] == 'o',
        "thumbv7neon"@[10] == 'n',
        "thumbv8m.base"@.len() == 13,
        "thumbv8m.base"@[0] == 't',
        "thumbv8m.base"@[1] == 'h',
        "thumbv8m.base"@[2] == 'u',
        "thumbv8m.base"@[3] == 'm',
        "thumbv8m.base"@[4] == 'b',
        "thumbv8m.base"@[5] == 'v',
        "thumbv8m.base"@[6] == '8',
        "thumbv8m.base"@[7] == 'm',
        "thumbv8m.base"@[8] == '.',
        "thumbv8m.base"@[9] == 'b',
        "thumbv8m.base"@[10] == 'a',
        "thumbv8m.base"@[11] == 's',
        "thumbv8m.base"@[12] == 'e',
        "thumbv8m.main"@.len() == 13,
        "thumbv8m.main"@[0] == 't',
        "thumbv8m.main"@[1] == 'h',
        "thumbv8m.main"@[2] == 'u',
        "thumbv8m.main"@[3] == 'm',
        "thumbv8m.main"@[4] == 'b',
        "thumbv8m.main"@[5] == 'v',
        "thumbv8m.main"@[6] == '8',
        "thumbv8m.main"@[7] == 'm',
        "thumbv8m.main"@[8] == '.',
        "thumbv8m.main"@[9] == 'm',
        "thumbv8m.main"@[10] == 'a',
        "thumbv8m.main"@[11] == 'i',
        "thumbv8m.main"@[12] == 'n',
{
    reveal_strlit("arm");
    reveal_strlit("armeb");
    reveal_strlit("armv4");
    reveal_strlit("armv4t");
    reveal_strlit("armv5t");
    reveal_strlit("armv5te");
    reveal_strlit("armv5tej");
    reveal_strlit("armv6");
    reveal_strlit("armv6j");
    reveal_strlit("armv6k");
    reveal_strlit("armv6z");
    reveal_strlit("armv6kz");
    reveal_strlit("armv6t2");
    reveal_strlit("armv6m");
    reveal_strlit("armv7");
    reveal_strlit("armv7a");
    reveal_strlit("armv7ve");
    reveal_strlit("armv7m");
    reveal_strlit("armv7r");
    reveal_strlit("armv7s");
    reveal_strlit("armv8");
    reveal_strlit("armv8a");
    reveal_strlit("armv8.1a");
    reveal_strlit("armv8.2a");
    reveal_strlit("armv8.3a");
    reveal_strlit("armv8.4a");
    reveal_strlit("armv8.5a");
    reveal_strlit("armv8m.base");
    reveal_strlit("armv8m.main");
    reveal_strlit("armv8r");
    reveal_strlit("armebv7r");
    reveal_strlit("thumbeb");
    reveal_strlit("thumbv6m");
    reveal_strlit("thumbv7a");
    reveal_strlit("thumbv7em");
    reveal_strlit("thumbv7m");
    reveal_strlit("thumbv7neon");
    reveal_strlit("thumbv8m.base");
    reveal_strlit("thumbv8m.main");
}

/// The length and characters of each AArch64 subarchitecture name,
/// spelled out so that the lemmas below can tell any two names apart.
proof fn aarch64_strlit_facts()
    ensures
        "aarch64"@.len() == 7,
        "aarch64"@[0] == 'a',
        "aarch64"@[1] == 'a',
        "aarch64"@[2] == 'r',
        "aarch64"@[3] == 'c',
        "aarch64"@[4] == 'h',
        "aarch64"@[5] == '6',
        "aarch64"@[6] == '4',
        "arm64"@.len() == 5,
        "arm64"@[0] == 'a',
        "arm64"@[1] == 'r',
        "arm64"@[2] == 'm',
        "arm64"@[3] == '6',
        "arm64"@[4] == '4',
        "aarch64be"@.len() == 9,
        "aarch64be"@[0] == 'a',
        "aarch64be"@[1] == 'a',
        "aarch64be"@[2] == 'r',
        "aarch64be"@[3] == 'c',
        "aarch64be"@[4] == 'h',
        "aarch64be"@[5] == '6',
        "aarch64be"@[6] == '4',
        "aarch64be"@[7] == 'b',
        "aarch64be"@[8] == 'e',
{
    reveal_strlit("aarch64");
    reveal_strlit("arm64");
    reveal_strlit("aarch64be");
}

/// The length and characters of each name in the flat architecture
/// table, spelled out so that the lemmas below can tell any two names
/// apart.
proof fn arch_flat_strlit_facts()
    ensures
        "unknown"@.len() == 7,
        "unknown"@[0] == 'u',
        "unknown"@[1] == 'n',
        "unknown"@[2] == 'k',
        "unknown"@[3] == 'n',
        "unknown"@[4] == 'o',
        "unknown"@[5] == 'w',
        "unknown"@[6] == 'n',
        "asmjs"@.len() == 5,
        "asmjs"@[0] == 'a',
        "asmjs"@[1] == 's',
        "asmjs"@[2] == 'm',
        "asmjs"@[3] == 'j',
        "asmjs"@[4] == 's',
        "i386"@.len() == 4,
        "i386"@[0] == 'i',
        "i386"@[1] == '3',
        "i386"@[2] == '8',
        "i386"@[3] == '6',
        "i586"@.len() == 4,
        "i586"@[0] == 'i',
        "i586"@[1] == '5',
        "i586"@[2] == '8',
        "i586"@[3] == '6',
        "i686"@.len() == 4,
        "i686"@[0] == 'i',
        "i686"@[1] == '6',
        "i686"@[2] == '8',
        "i686"@[3] == '6',
        "mips"@.len() == 4,
        "mips"@[0] == 'm',
        "mips"@[1] == 'i',
        "mips"@[2] == 'p',
        "mips"@[3] == 's',
        "mips64"@.len() == 6,
        "mips64"@[0] == 'm',
        "mips64"@[1] == 'i',
        "mips64"@[2] == 'p',
        "mips64"@[3] == 's',
        "mips64"@[4] == '6',
        "mips64"@[5] == '4',
        "mips64el"@.len() == 8,
        "mips64el"@[0] == 'm',
        "mips64el"@[1] == 'i',
        "mips64el"@[2] == 'p',
        "mips64el"@[3] == 's',
        "mips64el"@[4] == '6',
        "mips64el"@[5] == '4',
        "mips64el"@[6] == 'e',
        "mips64el"@[7] == 'l',
        "mipsel"@.len() == 6,
        "mipsel"@[0] == 'm',
        "mipsel"@[1] == 'i',
        "mipsel"@[2] == 'p',
        "mipsel"@[3] == 's',
        "mipsel"@[4] == 'e',
        "mipsel"@[5] == 'l',
        "msp430"@.len() == 6,
        "msp430"@[0] == 'm',
        "msp430"@[1] == 's',
        "msp430"@[2] == 'p',
        "msp430"@[3] == '4',
        "msp430"@[4] == '3',
        "msp430"@[5] == '0',
        "powerpc"@.len() == 7,
        "powerpc"@[0] == 'p',
        "powerpc"@[1] == 'o',
        "powerpc"@[2] == 'w',
        "powerpc"@[3] == 'e',
        "powerpc"@[4] == 'r',
        "powerpc"@[5] == 'p',
        "powerpc"@[6] == 'c',
        "powerpc64"@.len() == 9,
        "powerpc64"@[0] == 'p',
        "powerpc64"@[1] == 'o',
        "powerpc64"@[2] == 'w',
        "powerpc64"@[3] == 'e',
        "powerpc64"@[4] == 'r',
        "powerpc64"@[5] == 'p',
        "powerpc64"@[6] == 'c',
        "powerpc64"@[7] == '6',
        "powerpc64"@[8] == '4',
        "powerpc64le"@.len() == 11,
        "powerpc64le"@[0] == 'p',
        "powerpc64le"@[1] == 'o',
        "powerpc64le"@[2] == 'w',
        "powerpc64le"@[3] == 'e',
        "powerpc64le"@[4] == 'r',
        "powerpc64le"@[5] == 'p',
        "powerpc64le"@[6] == 'c',
        "powerpc64le"@[7] == '6',
        "powerpc64le"@[8] == '4',
        "powerpc64le"@[9] == 'l',
        "powerpc64le"@[10] == 'e',
        "riscv32"@.len() == 7,
        "riscv32"@[0] == 'r',
        "riscv32"@[1] == 'i',
        "riscv32"@[2] == 's',
        "riscv32"@[3] == 'c',
        "riscv32"@[4] == 'v',
        "riscv32"@[5] == '3',
        "riscv32"@[6] == '2',
        "riscv32imac"@.len() == 11,
        "riscv32imac"@[0] == 'r',
        "riscv32imac"@[1] == 'i',
        "riscv32imac"@[2] == 's',
        "riscv32imac"@[3] == 'c',
        "riscv32imac"@[4] == 'v',
        "riscv32imac"@[5] == '3',
        "riscv32imac"@[6] == '2',
        "riscv32imac"@[7] == 'i',
        "riscv32imac"@[8] == 'm',
        "riscv32imac"@[9] == 'a',
        "riscv32imac"@[10] == 'c',
        "riscv32imc"@.len() == 10,
        "riscv32imc"@[0] == 'r',
        "riscv32imc"@[1] == 'i',
        "riscv32imc"@[2] == 's',
        "riscv32imc"@[3] == 'c',
        "riscv32imc"@[4] == 'v',
        "riscv32imc"@[5] == '3',
        "riscv32imc"@[6] == '2',
        "riscv32imc"@[7] == 'i',
        "riscv32imc"@[8] == 'm',
        "riscv32imc"@[9] == 'c',
        "riscv64"@.len() == 7,
        "riscv64"@[0] == 'r',
        "riscv64"@[1] == 'i',
        "riscv64"@[2] == 's',
        "riscv64"@[3] == 'c',
        "riscv64"@[4] == 'v',
        "riscv64"@[5] == '6',
        "riscv64"@[6] == '4',
        "s390x"@.len() == 5,
        "s390x"@[0] == 's',
        "s390x"@[1] == '3',
        "s390x"@[2] == '9',
        "s390x"@[3] == '0',
        "s390x"@[4] == 'x',
        "sparc"@.len() == 5,
        "sparc"@[0] == 's',
        "sparc"@[1] == 'p',
        "sparc"@[2] == 'a',
        "sparc"@[3] == 'r',
        "sparc"@[4] == 'c',
        "sparc64"@.len() == 7,
        "sparc64"@[0] == 's',
        "sparc64"@[1] == 'p',
        "sparc64"@[2] == 'a',
        "sparc64"@[3] == 'r',
        "sparc64"@[4] == 'c',
        "sparc64"@[5] == '6',
        "sparc64"@[6] == '4',
        "sparcv9"@.len() == 7,
        "sparcv9"@[0] == 's',
        "sparcv9"@[1] == 'p',
        "sparcv9"@[2] == 'a',
        "sparcv9"@[3] == 'r',
        "sparcv9"@[4] == 'c',
        "sparcv9"@[5] == 'v',
        "sparcv9"@[6] == '9',
        "wasm32"@.len() == 6,
        "wasm32"@[0] == 'w',
        "wasm32"@[1] == 'a',
        "wasm32"@[2] == 's',
        "wasm32"@[3] == 'm',
        "wasm32"@[4] == '3',
        "wasm32"@[5] == '2',
        "x86_64"@.len() == 6,
        "x86_64"@[0] == 'x',
        "x86_64"@[1] == '8',
        "x86_64"@[2] == '6',
        "x86_64"@[3] == '_',
        "x86_64"@[4] == '6',
        "x86_64"@[5] == '4',
{
    reveal_strlit("unknown");
    reveal_strlit("asmjs");
    reveal_strlit("i386");
    reveal_strlit("i586");
    reveal_strlit("i686");
    reveal_strlit("mips");
    reveal_strlit("mips64");
    reveal_strlit("mips64el");
    reveal_strlit("mipsel");
    reveal_strlit("msp430");
    reveal_strlit("powerpc");
    reveal_strlit("powerpc64");
    reveal_strlit("powerpc64le");
    reveal_strlit("riscv32");
    reveal_strlit("riscv32imac");
    reveal_strlit("riscv32imc");
    reveal_strlit("riscv64");
    reveal_strlit("s390x");
    reveal_strlit("sparc");
    reveal_strlit("sparc64");
    reveal_strlit("sparcv9");
    reveal_strlit("wasm32");
    reveal_strlit("x86_64");
}

/// The length and characters of each vendor name, spelled out so that
/// the lemmas below can tell any two names apart.
proof fn vendor_strlit_facts()
    ensures
        "unknown"@.len() == 7,
        "unknown"@[0] == 'u',
        "unknown"@[1] == 'n',
        "unknown"@[2] == 'k',
        "unknown"@[3] == 'n',
        "unknown"@[4] == 'o',
        "unknown"@[5] == 'w',
        "unknown"@[6] == 'n',
        "apple"@.len() == 5,
        "apple"@[0] == 'a',
        "apple"@[1] == 'p',
        "apple"@[2] == 'p',
        "apple"@[3] == 'l',
        "apple"@[4] == 'e',
        "experimental"@.len() == 12,
        "experimental"@[0] == 'e',
        "experimental"@[1] == 'x',
        "experimental"@[2] == 'p',
        "experimental"@[3] == 'e',
        "experimental"@[4] == 'r',
        "experimental"@[5] == 'i',
        "experimental"@[6] == 'm',
        "experimental"@[7] == 'e',
        "experimental"@[8] == 'n',
        "experimental"@[9] == 't',
        "experimental"@[10] == 'a',
        "experimental"@[11] == 'l',
        "fortanix"@.len() == 8,
        "fortanix"@[0] == 'f',
        "fortanix"@[1] == 'o',
        "fortanix"@[2] == 'r',
        "fortanix"@[3] == 't',
        "fortanix"@[4] == 'a',
        "fortanix"@[5] == 'n',
        "fortanix"@[6] == 'i',
        "fortanix"@[7] == 'x',
        "pc"@.len() == 2,
        "pc"@[0] == 'p',
        "pc"@[1] == 'c',
        "rumprun"@.len() == 7,
        "rumprun"@[0] == 'r',
        "rumprun"@[1] == 'u',
        "rumprun"@[2] == 'm',
        "rumprun"@[3] == 'p',
        "rumprun"@[4] == 'r',
        "rumprun"@[5] == 'u',
        "rumprun"@[6] == 'n',
        "sun"@.len() == 3,
        "sun"@[0] == 's',
        "sun"@[1] == 'u',
        "sun"@[2] == 'n',
{
    reveal_strlit("unknown");
    reveal_strlit("apple");
    reveal_strlit("experimental");
    reveal_strlit("fortanix");
    reveal_strlit("pc");
    reveal_strlit("rumprun");
    reveal_strlit("sun");
}

/// The length and characters of each operating-system name, spelled
/// out so that the lemmas below can tell any two names apart.
proof fn os_strlit_facts()
    ensures
        "unknown"@.len() == 7,
        "unknown"@[0] == 'u',
        "unknown"@[1] == 'n',
        "unknown"@[2] == 'k',
        "unknown"@[3] == 'n',
        "unknown"@[4] == 'o',
        "unknown"@[5] == 'w',
        "unknown"@[6] == 'n',
        "bitrig"@.len() == 6,
        "bitrig"@[0] == 'b',
        "bitrig"@[1] == 'i',
        "bitrig"@[2] == 't',
        "bitrig"@[3] == 'r',
        "bitrig"@[4] == 'i',
        "bitrig"@[5] == 'g',
        "cloudabi"@.len() == 8,
        "cloudabi"@[0] == 'c',
        "cloudabi"@[1] == 'l',
        "cloudabi"@[2] == 'o',
        "cloudabi"@[3] == 'u',
        "cloudabi"@[4] == 'd',
        "cloudabi"@[5] == 'a',
        "cloudabi"@[6] == 'b',
        "cloudabi"@[7] == 'i',
        "darwin"@.len() == 6,
        "darwin"@[0] == 'd',
        "darwin"@[1] == 'a',
        "darwin"@[2] == 'r',
        "darwin"@[3] == 'w',
        "darwin"@[4] == 'i',
        "darwin"@[5] == 'n',
        "dragonfly"@.len() == 9,
        "dragonfly"@[0] == 'd',
        "dragonfly"@[1] == 'r',
        "dragonfly"@[2] == 'a',
        "dragonfly"@[3] == 'g',
        "dragonfly"@[4] == 'o',
        "dragonfly"@[5] == 'n',
        "dragonfly"@[6] == 'f',
        "dragonfly"@[7] == 'l',
        "dragonfly"@[8] == 'y',
        "emscripten"@.len() == 10,
        "emscripten"@[0] == 'e',
        "emscripten"@[1] == 'm',
        "emscripten"@[2] == 's',
        "emscripten"@[3] == 'c',
        "emscripten"@[4] == 'r',
        "emscripten"@[5] == 'i',
        "emscripten"@[6] == 'p',
        "emscripten"@[7] == 't',
        "emscripten"@[8] == 'e',
        "emscripten"@[9] == 'n',
        "freebsd"@.len() == 7,
        "freebsd"@[0] == 'f',
        "freebsd"@[1] == 'r',
        "freebsd"@[2] == 'e',
        "freebsd"@[3] == 'e',
        "freebsd"@[4] == 'b',
        "freebsd"@[5] == 's',
        "freebsd"@[6] == 'd',
        "fuchsia"@.len() == 7,
        "fuchsia"@[0] == 'f',
        "fuchsia"@[1] == 'u',
        "fuchsia"@[2] == 'c',
        "fuchsia"@[3] == 'h',
        "fuchsia"@[4] == 's',
        "fuchsia"@[5] == 'i',
        "fuchsia"@[6] == 'a',
        "haiku"@.len() == 5,
        "haiku"@[0] == 'h',
        "haiku"@[1] == 'a',
        "haiku"@[2] == 'i',
        "haiku"@[3] == 'k',
        "haiku"@[4] == 'u',
        "hermit"@.len() == 6,
        "hermit"@[0] == 'h',
        "hermit"@[1] == 'e',
        "hermit"@[2] == 'r',
        "hermit"@[3] == 'm',
        "hermit"@[4] == 'i',
        "hermit"@[5] == 't',
        "ios"@.len() == 3,
        "ios"@[0] == 'i',
        "ios"@[1] == 'o',
        "ios"@[2] == 's',
        "l4re"@.len() == 4,
        "l4re"@[0] == 'l',
        "l4re"@[1] == '4',
        "l4re"@[2] == 'r',
        "l4re"@[3] == 'e',
        "linux"@.len() == 5,
        "linux"@[0] == 'l',
        "linux"@[1] == 'i',
        "linux"@[2] == 'n',
        "linux"@[3] == 'u',
        "linux"@[4] == 'x',
        "nebulet"@.len() == 7,
        "nebulet"@[0] == 'n',
        "nebulet"@[1] == 'e',
        "nebulet"@[2] == 'b',
        "nebulet"@[3] == 'u',
        "nebulet"@[4] == 'l',
        "nebulet"@[5] == 'e',
        "nebulet"@[6] == 't',
        "netbsd"@.len() == 6,
        "netbsd"@[0] == 'n',
        "netbsd"@[1] == 'e',
        "netbsd"@[2] == 't',
        "netbsd"@[3] == 'b',
        "netbsd"@[4] == 's',
        "netbsd"@[5] == 'd',
        "none"@.len() == 4,
        "none"@[0] == 'n',
        "none"@[1] == 'o',
        "none"@[2] == 'n',
        "none"@[3] == 'e',
        "openbsd"@.len() == 7,
        "openbsd"@[0] == 'o',
        "openbsd"@[1] == 'p',
        "openbsd"@[2] == 'e',
        "openbsd"@[3] == 'n',
        "openbsd"@[4] == 'b',
        "openbsd"@[5] == 's',
        "openbsd"@[6] == 'd',
        "redox"@.len() == 5,
        "redox"@[0] == 'r',
        "redox"@[1] == 'e',
        "redox"@[2] == 'd',
        "redox"@[3] == 'o',
        "redox"@[4] == 'x',
        "solaris"@.len() == 7,
        "solaris"@[0] == 's',
        "solaris"@[1] == 'o',
        "solaris"@[2] == 'l',
        "solaris"@[3] == 'a',
        "solaris"@[4] == 'r',
        "solaris"@[5] == 'i',
        "solaris"@[6] == 's',
        "uefi"@.len() == 4,
        "uefi"@[0] == 'u',
        "uefi"@[1] == 'e',
        "uefi"@[2] == 'f',
        "uefi"@[3] == 'i',
        "windows"@.len() == 7,
        "windows"@[0] == 'w',
        "windows"@[1] == 'i',
        "windows"@[2] == 'n',
        "windows"@[3] == 'd',
        "windows"@[4] == 'o',
        "windows"@[5] == 'w',
        "windows"@[6] == 's',
{
    reveal_strlit("unknown");
    reveal_strlit("bitrig");
    reveal_strlit("cloudabi");
    reveal_strlit("darwin");
    reveal_strlit("dragonfly");
    reveal_strlit("emscripten");
    reveal_strlit("freebsd");
    reveal_strlit("fuchsia");
    reveal_strlit("haiku");
    reveal_strlit("hermit");
    reveal_strlit("ios");
    reveal_strlit("l4re");
    reveal_strlit("linux");
    reveal_strlit("nebulet");
    reveal_strlit("netbsd");
    reveal_strlit("none");
    reveal_strlit("openbsd");
    reveal_strlit("redox");
    reveal_strlit("solaris");
    reveal_strlit("uefi");
    reveal_strlit("windows");
}

/// The length and characters of each environment name, spelled out so
/// that the lemmas below can tell any two names apart.
proof fn environment_strlit_facts()
    ensures
        "unknown"@.len() == 7,
        "unknown"@[0] == 'u',
        "unknown"@[1] == 'n',
        "unknown"@[2] == 'k',
        "unknown"@[3] == 'n',
        "unknown"@[4] == 'o',
        "unknown"@[5] == 'w',
        "unknown"@[6] == 'n',
        "android"@.len() == 7,
        "android"@[0] == 'a',
        "android"@[1] == 'n',
        "android"@[2] == 'd',
        "android"@[3] == 'r',
        "android"@[4] == 'o',
        "android"@[5] == 'i',
        "android"@[6] == 'd',
        "androideabi"@.len() == 11,
        "androideabi"@[0] == 'a',
        "androideabi"@[1] == 'n',
        "androideabi"@[2] == 'd',
        "androideabi"@[3] == 'r',
        "androideabi"@[4] == 'o',
        "androideabi"@[5] == 'i',
        "androideabi"@[6] == 'd',
        "androideabi"@[7] == 'e',
        "androideabi"@[8] == 'a',
        "androideabi"@[9] == 'b',
        "androideabi"@[10] == 'i',
        "eabi"@.len() == 4,
        "eabi"@[0] == 'e',
        "eabi"@[1] == 'a',
        "eabi"@[2] == 'b',
        "eabi"@[3] == 'i',
        "eabihf"@.len() == 6,
        "eabihf"@[0] == 'e',
        "eabihf"@[1] == 'a',
        "eabihf"@[2] == 'b',
        "eabihf"@[3] == 'i',
        "eabihf"@[4] == 'h',
        "eabihf"@[5] == 'f',
        "gnu"@.len() == 3,
        "gnu"@[0] == 'g',
        "gnu"@[1] == 'n',
        "gnu"@[2] == 'u',
        "gnuabi64"@.len() == 8,
        "gnuabi64"@[0] == 'g',
        "gnuabi64"@[1] == 'n',
        "gnuabi64"@[2] == 'u',
        "gnuabi64"@[3] == 'a',
        "gnuabi64"@[4] == 'b',
        "gnuabi64"@[5] == 'i',
        "gnuabi64"@[6] == '6',
        "gnuabi64"@[7] == '4',
        "gnueabi"@.len() == 7,
        "gnueabi"@[0] == 'g',
        "gnueabi"@[1] == 'n',
        "gnueabi"@[2] == 'u',
        "gnueabi"@[3] == 'e',
        "gnueabi"@[4] == 'a',
        "gnueabi"@[5] == 'b',
        "gnueabi"@[6] == 'i',
        "gnueabihf"@.len() == 9,
        "gnueabihf"@[0] == 'g',
        "gnueabihf"@[1] == 'n',
        "gnueabihf"@[2] == 'u',
        "gnueabihf"@[3] == 'e',
        "gnueabihf"@[4] == 'a',
        "gnueabihf"@[5] == 'b',
        "gnueabihf"@[6] == 'i',
        "gnueabihf"@[7] == 'h',
        "gnueabihf"@[8] == 'f',
        "gnuspe"@.len() == 6,
        "gnuspe"@[0] == 'g',
        "gnuspe"@[1] == 'n',
        "gnuspe"@[2] == 'u',
        "gnuspe"@[3] == 's',
        "gnuspe"@[4] == 'p',
        "gnuspe"@[5] == 'e',
        "gnux32"@.len() == 6,
        "gnux32"@[0] == 'g',
        "gnux32"@[1] == 'n',
        "gnux32"@[2] == 'u',
        "gnux32"@[3] == 'x',
        "gnux32"@[4] == '3',
        "gnux32"@[5] == '2',
        "musl"@.len() == 4,
        "musl"@[0] == 'm',
        "musl"@[1] == 'u',
        "musl"@[2] == 's',
        "musl"@[3] == 'l',
        "musleabi"@.len() == 8,
        "musleabi"@[0] == 'm',
        "musleabi"@[1] == 'u',
        "musleabi"@[2] == 's',
        "musleabi"@[3] == 'l',
        "musleabi"@[4] == 'e',
        "musleabi"@[5] == 'a',
        "musleabi"@[6] == 'b',
        "musleabi"@[7] == 'i',
        "musleabihf"@.len() == 10,
        "musleabihf"@[0] == 'm',
        "musleabihf"@[1] == 'u',
        "musleabihf"@[2] == 's',
        "musleabihf"@[3] == 'l',
        "musleabihf"@[4] == 'e',
        "musleabihf"@[5] == 'a',
        "musleabihf"@[6] == 'b',
        "musleabihf"@[7] == 'i',
        "musleabihf"@[8] == 'h',
        "musleabihf"@[9] == 'f',
        "msvc"@.len() == 4,
        "msvc"@[0] == 'm',
        "msvc"@[1] == 's',
        "msvc"@[2] == 'v',
        "msvc"@[3] == 'c',
        "uclibc"@.len() == 6,
        "uclibc"@[0] == 'u',
        "uclibc"@[1] == 'c',
        "uclibc"@[2] == 'l',
        "uclibc"@[3] == 'i',
        "uclibc"@[4] == 'b',
        "uclibc"@[5] == 'c',
        "sgx"@.len() == 3,
        "sgx"@[0] == 's',
        "sgx"@[1] == 'g',
        "sgx"@[2] == 'x',
{
    reveal_strlit("unknown");
    reveal_strlit("android");
    reveal_strlit("androideabi");
    reveal_strlit("eabi");
    reveal_strlit("eabihf");
    reveal_strlit("gnu");
    reveal_strlit("gnuabi64");
    reveal_strlit("gnueabi");
    reveal_strlit("gnueabihf");
    reveal_strlit("gnuspe");
    reveal_strlit("gnux32");
    reveal_strlit("musl");
    reveal_strlit("musleabi");
    reveal_strlit("musleabihf");
    reveal_strlit("msvc");
    reveal_strlit("uclibc");
    reveal_strlit("sgx");
}

/// The length and characters of each binary-format name, spelled out
/// so that the lemmas below can tell any two names apart.
proof fn binary_format_strlit_facts()
    ensures
        "unknown"@.len() == 7,
        "unknown"@[0] == 'u',
        "unknown"@[1] == 'n',
        "unknown"@[2] == 'k',
        "unknown"@[3] == 'n',
        "unknown"@[4] == 'o',
        "unknown"@[5] == 'w',
        "unknown"@[6] == 'n',
        "elf"@.len() == 3,
        "elf"@[0] == 'e',
        "elf"@[1] == 'l',
        "elf"@[2] == 'f',
        "coff"@.len() == 4,
        "coff"@[0] == 'c',
        "coff"@[1] == 'o',
        "coff"@[2] == 'f',
        "coff"@[3] == 'f',
        "macho"@.len() == 5,
        "macho"@[0] == 'm',
        "macho"@[1] == 'a',
        "macho"@[2] == 'c',
        "macho"@[3] == 'h',
        "macho"@[4] == 'o',
        "wasm"@.len() == 4,
        "wasm"@[0] == 'w',
        "wasm"@[1] == 'a',
        "wasm"@[2] == 's',
        "wasm"@[3] == 'm',
{
    reveal_strlit("unknown");
    reveal_strlit("elf");
    reveal_strlit("coff");
    reveal_strlit("macho");
    reveal_strlit("wasm");
}

/// Recognizing the canonical name of an Arm subarchitecture gives back
/// exactly that value, and the name is a well-formed segment: non-empty
/// and free of `'-'`.
pub proof fn lemma_arm_round_trip(a: ArmArchitecture)
    ensures
        ArmArchitecture::spec_from_str(a@) == Some(a),
        a@.len() > 0,
        forall|j: int| 0 <= j < a@.len() ==> a@[j] != '-',
{
    arm_strlit_facts();
}

/// Recognizing the canonical name of an AArch64 subarchitecture gives
/// back exactly that value, and the name is a well-formed segment.
pub proof fn lemma_aarch64_round_trip(a: Aarch64Architecture)
    ensures
        Aarch64Architecture::spec_from_str(a@) == Some(a),
        a@.len() > 0,
        forall|j: int| 0 <= j < a@.len() ==> a@[j] != '-',
{
    aarch64_strlit_facts();
}

/// No Arm or AArch64 subarchitecture name collides with the flat
/// architecture table, and no AArch64 name is an Arm name.
proof fn lemma_sub_families_not_flat(a: ArmArchitecture, b: Aarch64Architecture)
    ensures
        Architecture::spec_from_str_flat(a@) == None::<Architecture>,
        Architecture::spec_from_str_flat(b@) == None::<Architecture>,
        ArmArchitecture::spec_from_str(b@) == None::<ArmArchitecture>,
{
    arm_strlit_facts();
    aarch64_strlit_facts();
    arch_flat_strlit_facts();
}

/// Recognizing the canonical name of an architecture gives back exactly
/// that value, and the name is a well-formed segment.
pub proof fn lemma_architecture_round_trip(a: Architecture)
    ensures
        Architecture::spec_from_str(a@) == Some(a),
        a@.len() > 0,
        forall|j: int| 0 <= j < a@.len() ==> a@[j] != '-',
{
    match a {
        Architecture::Arm(arm) => {
            lemma_sub_families_not_flat(arm, Aarch64Architecture::Aarch64);
            lemma_arm_round_trip(arm);
        },
        Architecture::Aarch64(aarch) => {
            lemma_sub_families_not_flat(ArmArchitecture::Arm, aarch);
            lemma_aarch64_round_trip(aarch);
        },
        _ => {
            arch_flat_strlit_facts();
        },
    }
}

/// Recognizing the canonical name of a vendor gives back exactly that
/// value, and the name is a well-formed segment.
pub proof fn lemma_vendor_round_trip(v: Vendor)
    ensures
        Vendor::spec_from_str(v@) == Some(v),
        v@.len() > 0,
        forall|j: int| 0 <= j < v@.len() ==> v@[j] != '-',
{
    vendor_strlit_facts();
}

/// Recognizing the canonical name of an operating system gives back
/// exactly that value, and the name is a well-formed segment.
pub proof fn lemma_os_round_trip(os: OperatingSystem)
    ensures
        OperatingSystem::spec_from_str(os@) == Some(os),
        os@.len() > 0,
        forall|j: int| 0 <= j < os@.len() ==> os@[j] != '-',
{
    os_strlit_facts();
}

/// Recognizing the canonical name of an environment gives back exactly
/// that value, and the name is a well-formed segment.
pub proof fn lemma_environment_round_trip(e: Environment)
    ensures
        Environment::spec_from_str(e@) == Some(e),
        e@.len() > 0,
        forall|j: int| 0 <= j < e@.len() ==> e@[j] != '-',
{
    environment_strlit_facts();
}

/// Recognizing the canonical name of a binary format gives back exactly
/// that value, and the name is a well-formed segment.
pub proof fn lemma_binary_format_round_trip(b: BinaryFormat)
    ensures
        BinaryFormat::spec_from_str(b@) == Some(b),
        b@.len() > 0,
        forall|j: int| 0 <= j < b@.len() ==> b@[j] != '-',
{
    binary_format_strlit_facts();
}

/// The operating systems whose names the formatter may print directly
/// after the architecture are not vendor names, so a reparse cannot
/// mistake them for a vendor.
pub proof fn lemma_vendor_rejects_os(os: OperatingSystem)
    requires
        os == OperatingSystem::Linux || os == OperatingSystem::Fuchsia || os
            == OperatingSystem::None_,
    ensures
        Vendor::spec_from_str(os@) == None::<Vendor>,
{
    vendor_strlit_facts();
    os_strlit_facts();
}

/// No explicit binary-format name is an environment name, so a reparse
/// cannot mistake a printed binary format for an environment.
pub proof fn lemma_environment_rejects_binary_format(b: BinaryFormat)
    requires
        b != BinaryFormat::Unknown,
    ensures
        Environment::spec_from_str(b@) == None::<Environment>,
{
    environment_strlit_facts();
    binary_format_strlit_facts();
}

/// The binary format implied by a triple's operating system (and, when no
/// real operating system is present, its architecture).
pub open spec fn spec_default_binary_format(triple: Triple) -> BinaryFormat {
    match triple.operating_system {
        OperatingSystem::None_ => BinaryFormat::Unknown,
        OperatingSystem::Darwin | OperatingSystem::Ios => BinaryFormat::Macho,
        OperatingSystem::Windows => BinaryFormat::Coff,
        OperatingSystem::Nebulet | OperatingSystem::Emscripten | OperatingSystem::Unknown => {
            if triple.architecture == Architecture::Wasm32 {
                BinaryFormat::Wasm
            } else {
                BinaryFormat::Unknown
            }
        },
        _ => BinaryFormat::Elf,
    }
}

/// Return the binary format implied by this target triple, ignoring its
/// `binary_format` field.
pub fn default_binary_format(triple: &Triple) -> (r: BinaryFormat)
    ensures
        r == spec_default_binary_format(*triple),
{
    match triple.operating_system {
        OperatingSystem::None_ => BinaryFormat::Unknown,
        OperatingSystem::Darwin | OperatingSystem::Ios => BinaryFormat::Macho,
        OperatingSystem::Windows => BinaryFormat::Coff,
        OperatingSystem::Nebulet | OperatingSystem::Emscripten | OperatingSystem::Unknown => match triple.architecture {
            Architecture::Wasm32 => BinaryFormat::Wasm,
            _ => BinaryFormat::Unknown,
        },
        _ => BinaryFormat::Elf,
    }
}

} // verus!
