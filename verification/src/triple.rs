//! The `Triple` record itself, its derived queries, and the conversions
//! between a triple and its canonical string.

use vstd::prelude::*;

use crate::strutil::join_dash;
use crate::strutil::spec_join;
use crate::strutil::spec_split;
use crate::strutil::split_dash;
use crate::targets::Architecture;
use crate::targets::ArmArchitecture;
use crate::targets::BinaryFormat;
use crate::targets::Environment;
use crate::targets::OperatingSystem;
use crate::targets::Vendor;

verus! {

/// The categories a triple segment after the architecture can be
/// classified into, in positional order.
#[derive(Copy, Clone, Debug, PartialEq, Eq, Structural)]
pub enum Category {
    Vendor,
    OperatingSystem,
    Environment,
    BinaryFormat,
}

/// Why a string failed to parse as a triple.
#[derive(Clone, Debug, PartialEq, Eq)]
pub enum ParseError {
    /// The string has fewer than two segments.
    MalformedTriple,
    /// The first segment matches no architecture name.
    UnrecognizedArchitecture(String),
    /// A later segment matches none of the categories that were still
    /// open at its position; carries the segment and the first such
    /// category.
    UnrecognizedComponent(String, Category),
}

/// The mathematical shape of a `ParseError`, with segments as character
/// sequences.
pub enum ParseErrorView {
    MalformedTriple,
    UnrecognizedArchitecture(Seq<char>),
    UnrecognizedComponent(Seq<char>, Category),
}

impl View for ParseError {
    type V = ParseErrorView;

    open spec fn view(&self) -> ParseErrorView {
        match self {
            ParseError::MalformedTriple => ParseErrorView::MalformedTriple,
            ParseError::UnrecognizedArchitecture(s) => ParseErrorView::UnrecognizedArchitecture(
                s@,
            ),
            ParseError::UnrecognizedComponent(s, c) => ParseErrorView::UnrecognizedComponent(
                s@,
                *c,
            ),
        }
    }
}

/// The endianness of a target's architecture.
#[derive(Copy, Clone, Debug, PartialEq, Eq, Hash, Structural)]
pub enum Endianness {
    Little,
    Big,
}

/// The width of a pointer on a target's architecture.
#[derive(Copy, Clone, Debug, PartialEq, Eq, Hash, Structural)]
pub enum PointerWidth {
    U16,
    U32,
    U64,
}

impl PointerWidth {
    /// The width of a pointer, in bits.
    pub open spec fn spec_bits(self) -> u8 {
        match self {
            PointerWidth::U16 => 16,
            PointerWidth::U32 => 32,
            PointerWidth::U64 => 64,
        }
    }

    /// Return the number of bits in a pointer.
    pub fn bits(self) -> (r: u8)
        ensures
            r == self.spec_bits(),
    {
        match self {
            PointerWidth::U16 => 16,
            PointerWidth::U32 => 32,
            PointerWidth::U64 => 64,
        }
    }

    /// Return the number of bytes in a pointer.
    pub fn bytes(self) -> (r: u8)
        ensures
            r as int * 8 == self.spec_bits() as int,
    {
        match self {
            PointerWidth::U16 => 2,
            PointerWidth::U32 => 4,
            PointerWidth::U64 => 8,
        }
    }
}

/// A target "triple": the architecture, vendor, operating system, ABI
/// environment and binary format of a compilation target. Fields that a
/// triple string leaves out hold their `Unknown` sentinel, which is
/// distinct from a parse failure.
#[derive(Copy, Clone, Debug, PartialEq, Eq, Hash, Structural)]
pub struct Triple {
    /// The "architecture" (and sometimes the subarchitecture).
    pub architecture: Architecture,
    /// The "vendor" (whatever's after the hardware).
    pub vendor: Vendor,
    /// The "operating system" (sometimes also the environment).
    pub operating_system: OperatingSystem,
    /// The "environment" on top of the operating system.
    pub environment: Environment,
    /// The "binary format" (rarely used).
    pub binary_format: BinaryFormat,
}

/// The first category still open at cursor position `cur`.
pub open spec fn spec_category_of(cur: int) -> Category {
    if cur <= 0 {
        Category::Vendor
    } else if cur == 1 {
        Category::OperatingSystem
    } else if cur == 2 {
        Category::Environment
    } else {
        Category::BinaryFormat
    }
}

/// Classify the segments after the architecture, left to right. `cur` is
/// the first category still open: a segment is tried against each open
/// category in positional order (the final segment also against the
/// binary format), the first match wins, and matching a category closes
/// it and every earlier one.
pub open spec fn spec_parse_rest(
    segs: Seq<Seq<char>>,
    i: int,
    cur: int,
    architecture: Architecture,
    vendor: Vendor,
    operating_system: OperatingSystem,
    environment: Environment,
    binary_format: BinaryFormat,
) -> Result<Triple, ParseErrorView>
    decreases segs.len() - i,
{
    if i < 0 || i >= segs.len() {
        Ok(
            Triple {
                architecture: architecture,
                vendor: vendor,
                operating_system: operating_system,
                environment: environment,
                binary_format: binary_format,
            },
        )
    } else {
        let seg = segs[i];
        let last = i == segs.len() - 1;
        if cur <= 0 && Vendor::spec_from_str(seg) is Some {
            spec_parse_rest(
                segs,
                i + 1,
                1,
                architecture,
                Vendor::spec_from_str(seg)->Some_0,
                operating_system,
                environment,
                binary_format,
            )
        } else if cur <= 1 && OperatingSystem::spec_from_str(seg) is Some {
            spec_parse_rest(
                segs,
                i + 1,
                2,
                architecture,
                vendor,
                OperatingSystem::spec_from_str(seg)->Some_0,
                environment,
                binary_format,
            )
        } else if cur <= 2 && Environment::spec_from_str(seg) is Some {
            spec_parse_rest(
                segs,
                i + 1,
                3,
                architecture,
                vendor,
                operating_system,
                Environment::spec_from_str(seg)->Some_0,
                binary_format,
            )
        } else if last && cur <= 3 && BinaryFormat::spec_from_str(seg) is Some {
            spec_parse_rest(
                segs,
                i + 1,
                4,
                architecture,
                vendor,
                operating_system,
                environment,
                BinaryFormat::spec_from_str(seg)->Some_0,
            )
        } else {
            Err(ParseErrorView::UnrecognizedComponent(seg, spec_category_of(cur)))
        }
    }
}

/// Parse a segmented triple: at least two segments, the first an
/// architecture, the rest classified positionally; fields with no
/// segment keep their `Unknown` sentinel.
pub open spec fn spec_parse(segs: Seq<Seq<char>>) -> Result<Triple, ParseErrorView> {
    if segs.len() < 2 {
        Err(ParseErrorView::MalformedTriple)
    } else {
        match Architecture::spec_from_str(segs[0]) {
            Some(architecture) => spec_parse_rest(
                segs,
                1,
                0,
                architecture,
                Vendor::Unknown,
                OperatingSystem::Unknown,
                Environment::Unknown,
                BinaryFormat::Unknown,
            ),
            None => Err(ParseErrorView::UnrecognizedArchitecture(segs[0])),
        }
    }
}

/// The embedded architectures whose bare-metal ("none") triples are
/// conventionally written without a vendor.
pub open spec fn spec_bare_metal_no_vendor(a: Architecture) -> bool {
    a == Architecture::Msp430 || a == Architecture::Arm(ArmArchitecture::Armebv7r) || a
        == Architecture::Arm(ArmArchitecture::Armv7r) || a == Architecture::Arm(
        ArmArchitecture::Thumbv6m,
    ) || a == Architecture::Arm(ArmArchitecture::Thumbv7em) || a == Architecture::Arm(
        ArmArchitecture::Thumbv7m,
    ) || a == Architecture::Arm(ArmArchitecture::Thumbv8mBase) || a == Architecture::Arm(
        ArmArchitecture::Thumbv8mMain,
    )
}

/// Whether the canonical string of `t` leaves the vendor out: an unknown
/// vendor is dropped for Android, Fuchsia and the bare-metal embedded
/// targets, whose conventional spellings never carry one.
pub open spec fn spec_omits_vendor(t: Triple) -> bool {
    t.vendor == Vendor::Unknown && ((t.operating_system == OperatingSystem::Linux && (
    t.environment == Environment::Android || t.environment == Environment::Androideabi))
        || t.operating_system == OperatingSystem::Fuchsia || (t.operating_system
        == OperatingSystem::None_ && spec_bare_metal_no_vendor(t.architecture)))
}

/// The segments of the canonical string of `t`: architecture, the vendor
/// unless it is omitted, the operating system, then the environment and
/// the binary format only when they are not `Unknown`.
pub open spec fn spec_format_segments(t: Triple) -> Seq<Seq<char>> {
    let head = if spec_omits_vendor(t) {
        seq![t.architecture@, t.operating_system@]
    } else {
        seq![t.architecture@, t.vendor@, t.operating_system@]
    };
    let with_env = if t.environment != Environment::Unknown {
        head.push(t.environment@)
    } else {
        head
    };
    if t.binary_format != BinaryFormat::Unknown {
        with_env.push(t.binary_format@)
    } else {
        with_env
    }
}

/// The canonical string of `t`.
pub open spec fn spec_format(t: Triple) -> Seq<char> {
    spec_join(spec_format_segments(t))
}

/// The first open category, as a value.
fn category_of(cur: u8) -> (c: Category)
    requires
        cur <= 3,
    ensures
        c == spec_category_of(cur as int),
{
    if cur == 0 {
        Category::Vendor
    } else if cur == 1 {
        Category::OperatingSystem
    } else if cur == 2 {
        Category::Environment
    } else {
        Category::BinaryFormat
    }
}

impl Triple {
    /// Whether the canonical string of this triple leaves the vendor
    /// out.
    fn omits_vendor(&self) -> (r: bool)
        ensures
            r == spec_omits_vendor(*self),
    {
        self.vendor == Vendor::Unknown && ((self.operating_system == OperatingSystem::Linux && (
        self.environment == Environment::Android || self.environment == Environment::Androideabi))
            || self.operating_system == OperatingSystem::Fuchsia || (self.operating_system
            == OperatingSystem::None_ && (self.architecture == Architecture::Msp430
            || self.architecture == Architecture::Arm(ArmArchitecture::Armebv7r)
            || self.architecture == Architecture::Arm(ArmArchitecture::Armv7r)
            || self.architecture == Architecture::Arm(ArmArchitecture::Thumbv6m)
            || self.architecture == Architecture::Arm(ArmArchitecture::Thumbv7em)
            || self.architecture == Architecture::Arm(ArmArchitecture::Thumbv7m)
            || self.architecture == Architecture::Arm(ArmArchitecture::Thumbv8mBase)
            || self.architecture == Architecture::Arm(ArmArchitecture::Thumbv8mMain))))
    }

    /// Parse a triple string: split on `'-'`, require at least two
    /// segments, read the first as the architecture and classify the
    /// rest positionally; fields with no segment keep `Unknown`.
    pub fn from_str(s: &str) -> (r: Result<Triple, ParseError>)
        ensures
            (match r {
                Ok(t) => spec_parse(spec_split(s@)) == Ok::<Triple, ParseErrorView>(t),
                Err(e) => spec_parse(spec_split(s@)) == Err::<Triple, ParseErrorView>(e@),
            }),
    {
        let ghost model = spec_split(s@);
        let segs = split_dash(s);
        if segs.len() < 2 {
            return Err(ParseError::MalformedTriple);
        }
        let arch_opt = Architecture::from_str(segs[0]);
        if arch_opt.is_none() {
            return Err(ParseError::UnrecognizedArchitecture(segs[0].to_owned()));
        }
        let architecture = arch_opt.unwrap();
        let mut vendor = Vendor::Unknown;
        let mut operating_system = OperatingSystem::Unknown;
        let mut environment = Environment::Unknown;
        let mut binary_format = BinaryFormat::Unknown;
        let mut cur: u8 = 0;
        let mut i: usize = 1;
        while i < segs.len()
            invariant
                model == spec_split(s@),
                segs@.len() == model.len(),
                forall|k: int| 0 <= k < segs@.len() ==> #[trigger] segs@[k]@ == model[k],
                1 <= i <= segs@.len(),
                cur <= 4,
                cur == 4 ==> i == segs@.len(),
                spec_parse(model) == spec_parse_rest(
                    model,
                    i as int,
                    cur as int,
                    architecture,
                    vendor,
                    operating_system,
                    environment,
                    binary_format,
                ),
            decreases segs@.len() - i,
        {
            let seg = segs[i];
            let last = i == segs.len() - 1;
            let vendor_opt = Vendor::from_str(seg);
            let os_opt = OperatingSystem::from_str(seg);
            let env_opt = Environment::from_str(seg);
            let format_opt = BinaryFormat::from_str(seg);
            if cur == 0 && vendor_opt.is_some() {
                vendor = vendor_opt.unwrap();
                cur = 1;
            } else if cur <= 1 && os_opt.is_some() {
                operating_system = os_opt.unwrap();
                cur = 2;
            } else if cur <= 2 && env_opt.is_some() {
                environment = env_opt.unwrap();
                cur = 3;
            } else if last && format_opt.is_some() {
                binary_format = format_opt.unwrap();
                cur = 4;
            } else {
                return Err(ParseError::UnrecognizedComponent(seg.to_owned(), category_of(cur)));
            }
            i = i + 1;
        }
        Ok(
            Triple {
                architecture,
                vendor,
                operating_system,
                environment,
                binary_format,
            },
        )
    }

    /// Render this triple as its canonical string.
    pub fn to_string(&self) -> (r: String)
        ensures
            r@ == spec_format(*self),
    {
        let mut segs: Vec<&str> = Vec::new();
        segs.push(self.architecture.as_str());
        if !self.omits_vendor() {
            segs.push(self.vendor.as_str());
        }
        segs.push(self.operating_system.as_str());
        if self.environment != Environment::Unknown {
            segs.push(self.environment.as_str());
        }
        if self.binary_format != BinaryFormat::Unknown {
            segs.push(self.binary_format.as_str());
        }
        proof {
            assert(segs@.map_values(|t: &str| t@) =~= spec_format_segments(*self));
        }
        join_dash(&segs)
    }

    /// Return the binary format implied by this triple's operating
    /// system and architecture, ignoring its `binary_format` field.
    pub fn default_binary_format(&self) -> (r: BinaryFormat)
        ensures
            r == crate::targets::spec_default_binary_format(*self),
    {
        crate::targets::default_binary_format(self)
    }

    /// Return the endianness of this target's architecture.
    pub fn endianness(&self) -> (r: Result<Endianness, ()>)
        ensures
            r == self.architecture.spec_endianness(),
            r is Ok <==> self.architecture != Architecture::Unknown,
    {
        self.architecture.endianness()
    }

    /// Return the pointer width of this target's architecture.
    pub fn pointer_width(&self) -> (r: Result<PointerWidth, ()>)
        ensures
            r == self.architecture.spec_pointer_width(),
            r is Ok <==> self.architecture != Architecture::Unknown,
    {
        self.architecture.pointer_width()
    }
}

/// Every segment of a canonical triple string is a vocabulary name, so
/// it is non-empty and contains no `'-'`.
proof fn lemma_format_segments_wf(t: Triple)
    ensures
        spec_format_segments(t).len() >= 2,
        forall|k: int|
            0 <= k < spec_format_segments(t).len() ==> #[trigger] spec_format_segments(t)[k].len()
                > 0,
        forall|k: int, j: int|
            0 <= k < spec_format_segments(t).len() && 0 <= j < spec_format_segments(t)[k].len()
                ==> #[trigger] spec_format_segments(t)[k][j] != '-',
{
    crate::targets::lemma_architecture_round_trip(t.architecture);
    crate::targets::lemma_vendor_round_trip(t.vendor);
    crate::targets::lemma_os_round_trip(t.operating_system);
    crate::targets::lemma_environment_round_trip(t.environment);
    crate::targets::lemma_binary_format_round_trip(t.binary_format);
    let segs = spec_format_segments(t);
    assert forall|k: int| 0 <= k < segs.len() implies #[trigger] segs[k].len() > 0 by {
        assert(segs[k] == t.architecture@ || segs[k] == t.vendor@ || segs[k]
            == t.operating_system@ || segs[k] == t.environment@ || segs[k] == t.binary_format@);
    }
    assert forall|k: int, j: int|
        0 <= k < segs.len() && 0 <= j < segs[k].len() implies #[trigger] segs[k][j] != '-' by {
        assert(segs[k] == t.architecture@ || segs[k] == t.vendor@ || segs[k]
            == t.operating_system@ || segs[k] == t.environment@ || segs[k] == t.binary_format@);
    }
}

/// Reparsing the canonical string of any triple gives back exactly that
/// triple: formatting loses nothing, and what it prints is always
/// accepted. Together with the parser's contract this makes
/// canonicalization idempotent: any accepted string, reformatted and
/// reparsed, reproduces the same five fields.
pub proof fn lemma_parse_format_round_trip(t: Triple)
    ensures
        spec_parse(spec_split(spec_format(t))) == Ok::<Triple, ParseErrorView>(t),
{
    let segs = spec_format_segments(t);
    let a = t.architecture@;
    let v = t.vendor@;
    let o = t.operating_system@;
    let e = t.environment@;
    let b = t.binary_format@;
    crate::targets::lemma_architecture_round_trip(t.architecture);
    crate::targets::lemma_vendor_round_trip(t.vendor);
    crate::targets::lemma_os_round_trip(t.operating_system);
    crate::targets::lemma_environment_round_trip(t.environment);
    crate::targets::lemma_binary_format_round_trip(t.binary_format);
    lemma_format_segments_wf(t);
    crate::strutil::lemma_split_join(segs);
    assert(spec_split(spec_format(t)) == segs);
    reveal_with_fuel(spec_parse_rest, 6);
    if spec_omits_vendor(t) {
        crate::targets::lemma_vendor_rejects_os(t.operating_system);
        if t.environment != Environment::Unknown {
            if t.binary_format != BinaryFormat::Unknown {
                assert(segs =~= seq![a, o, e, b]);
                assert(spec_parse(segs) == Ok::<Triple, ParseErrorView>(t));
            } else {
                assert(segs =~= seq![a, o, e]);
                assert(spec_parse(segs) == Ok::<Triple, ParseErrorView>(t));
            }
        } else {
            if t.binary_format != BinaryFormat::Unknown {
                crate::targets::lemma_environment_rejects_binary_format(t.binary_format);
                assert(segs =~= seq![a, o, b]);
                assert(spec_parse(segs) == Ok::<Triple, ParseErrorView>(t));
            } else {
                assert(segs =~= seq![a, o]);
                assert(spec_parse(segs) == Ok::<Triple, ParseErrorView>(t));
            }
        }
    } else {
        if t.environment != Environment::Unknown {
            if t.binary_format != BinaryFormat::Unknown {
                assert(segs =~= seq![a, v, o, e, b]);
                assert(spec_parse(segs) == Ok::<Triple, ParseErrorView>(t));
            } else {
                assert(segs =~= seq![a, v, o, e]);
                assert(spec_parse(segs) == Ok::<Triple, ParseErrorView>(t));
            }
        } else {
            if t.binary_format != BinaryFormat::Unknown {
                crate::targets::lemma_environment_rejects_binary_format(t.binary_format);
                assert(segs =~= seq![a, v, o, b]);
                assert(spec_parse(segs) == Ok::<Triple, ParseErrorView>(t));
            } else {
                assert(segs =~= seq![a, v, o]);
                assert(spec_parse(segs) == Ok::<Triple, ParseErrorView>(t));
            }
        }
    }
}

/// Round trip for accepted strings: if `s` parses to `t`, then the
/// canonical string of `t` is itself accepted, parses back to the same
/// five fields, and reformatting reproduces the canonical string
/// exactly — canonicalization is idempotent.
pub proof fn lemma_canonicalization_idempotent(s: Seq<char>, t: Triple)
    requires
        spec_parse(spec_split(s)) == Ok::<Triple, ParseErrorView>(t),
    ensures
        spec_parse(spec_split(spec_format(t))) == Ok::<Triple, ParseErrorView>(t),
        spec_format(spec_parse(spec_split(spec_format(t)))->Ok_0) == spec_format(t),
{
    lemma_parse_format_round_trip(t);
}

/// Positional precedence: in a three-segment triple whose middle and
/// final segments are both "unknown", the first "unknown" is taken as
/// the vendor and the second as the operating system — neither reaches
/// the environment, which stays unset.
pub proof fn lemma_positional_precedence(segs: Seq<Seq<char>>, architecture: Architecture)
    requires
        segs.len() == 3,
        segs[1] == "unknown"@,
        segs[2] == "unknown"@,
        Architecture::spec_from_str(segs[0]) == Some(architecture),
    ensures
        spec_parse(segs) == Ok::<Triple, ParseErrorView>(
            Triple {
                architecture: architecture,
                vendor: Vendor::Unknown,
                operating_system: OperatingSystem::Unknown,
                environment: Environment::Unknown,
                binary_format: BinaryFormat::Unknown,
            },
        ),
{
    reveal_with_fuel(spec_parse_rest, 4);
    crate::targets::lemma_vendor_round_trip(Vendor::Unknown);
    crate::targets::lemma_os_round_trip(OperatingSystem::Unknown);
    assert(Vendor::spec_from_str(segs[1]) == Some(Vendor::Unknown));
    assert(OperatingSystem::spec_from_str(segs[2]) == Some(OperatingSystem::Unknown));
}

} // verus!
