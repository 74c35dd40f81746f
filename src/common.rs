//! Target description, register identities and alignment helpers shared by
//! code-generation backends.
use vstd::prelude::*;
use vstd::arithmetic::power2::{lemma_pow2_pos, lemma_pow2_unfold, pow2};
use vstd::string::StringSliceAdditionalSpecFns;

verus! {

/// A processor architecture that code may be generated for.
#[derive(Debug, Clone, Copy, PartialEq, Eq, Structural)]
pub enum Architecture {
    X86_64,
    AArch64,
    RiscV64,
    Other,
}

/// A calling convention family.
#[derive(Debug, Clone, Copy, PartialEq, Eq, Structural)]
pub enum Abi {
    SystemV,
    Windows,
}

/// The class of a machine register.
#[derive(Debug, Clone, Copy, PartialEq, Eq, Hash, Structural)]
pub enum RegClass {
    General,
    Float,
    Vector,
    Flags,
}

/// A register before allocation, identified by a number.
#[derive(Debug, Clone, Copy, PartialEq, Eq, Hash, Structural)]
pub struct VirtualReg(u32);

/// A machine register: its hardware ID and its class.
#[derive(Debug, Clone, Copy, PartialEq, Eq, Hash, Structural)]
pub struct PhysicalReg {
    pub id: u8,
    pub class: RegClass,
}

/// Byte order of multi-byte values in memory.
#[derive(Debug, Clone, Copy, PartialEq, Eq, Structural)]
pub enum Endianness {
    Little,
    Big,
}

/// A compilation target: architecture, ABI and pointer width in bits.
#[derive(Debug, Clone, Copy, PartialEq, Eq, Structural)]
pub struct Target {
    pub arch: Architecture,
    pub abi: Abi,
    /// Pointer width, in bits.
    pub pointer_width: u8,
}

pub const WORD_SIZE_X86_64: usize = 8;

pub const WORD_SIZE_AARCH64: usize = 8;

pub const WORD_SIZE_RISCV64: usize = 8;

/// The architecture named by a target-architecture string such as
/// `"x86_64"` or `"aarch64"`; any other name is `Other`.
pub open spec fn arch_of_name(name: Seq<u8>) -> Architecture {
    if name == "x86_64".spec_bytes() {
        Architecture::X86_64
    } else if name == "aarch64".spec_bytes() {
        Architecture::AArch64
    } else {
        Architecture::Other
    }
}

/// The ABI of an operating-system name: `"windows"` is the Windows ABI,
/// everything else System V.
pub open spec fn abi_of_os_name(name: Seq<u8>) -> Abi {
    if name == "windows".spec_bytes() {
        Abi::Windows
    } else {
        Abi::SystemV
    }
}

/// Byte-wise equality of two strings.
fn same_text(a: &str, b: &str) -> (r: bool)
    ensures
        r == (a.spec_bytes() == b.spec_bytes()),
{
    let x = a.as_bytes();
    let y = b.as_bytes();
    if x.len() != y.len() {
        return false;
    }
    let mut i: usize = 0;
    while i < x.len()
        invariant
            x@ == a.spec_bytes(),
            y@ == b.spec_bytes(),
            x@.len() == y@.len(),
            i <= x@.len(),
            x@.subrange(0, i as int) == y@.subrange(0, i as int),
        decreases x@.len() - i,
    {
        if x[i] != y[i] {
            assert(x@[i as int] != y@[i as int]);
            return false;
        }
        assert(x@.subrange(0, i + 1) == x@.subrange(0, i as int).push(x@[i as int]));
        assert(y@.subrange(0, i + 1) == y@.subrange(0, i as int).push(y@[i as int]));
        i = i + 1;
    }
    assert(x@ == x@.subrange(0, i as int));
    assert(y@ == y@.subrange(0, i as int));
    true
}

impl Target {
    /// Builds the target for an architecture and ABI; every supported
    /// architecture has 64-bit pointers.
    pub fn from_arch(arch: Architecture, abi: Abi) -> (r: Self)
        ensures
            r == (Target { arch, abi, pointer_width: 64 }),
    {
        let pointer_width: u8 = match arch {
            Architecture::X86_64 | Architecture::AArch64 | Architecture::RiscV64 => 64,
            Architecture::Other => 64,
        };
        Target { arch, abi, pointer_width }
    }

    /// Byte order of the target: little-endian for every architecture.
    pub fn endianness(&self) -> (r: Endianness)
        ensures
            r == Endianness::Little,
    {
        match self.arch {
            Architecture::X86_64 | Architecture::AArch64 | Architecture::RiscV64 => {
                Endianness::Little
            },
            Architecture::Other => Endianness::Little,
        }
    }

    /// The target of a host, given the host's architecture name (as in
    /// `std::env::consts::ARCH`) and operating-system name (as in
    /// `std::env::consts::OS`).
    pub fn host(arch_name: &str, os_name: &str) -> (r: Self)
        ensures
            r == (Target {
                arch: arch_of_name(arch_name.spec_bytes()),
                abi: abi_of_os_name(os_name.spec_bytes()),
                pointer_width: 64,
            }),
    {
        let arch = if same_text(arch_name, "x86_64") {
            Architecture::X86_64
        } else if same_text(arch_name, "aarch64") {
            Architecture::AArch64
        } else {
            Architecture::Other
        };
        let abi = if same_text(os_name, "windows") {
            Abi::Windows
        } else {
            Abi::SystemV
        };
        Self::from_arch(arch, abi)
    }
}

/// Whether `n` is a power of two, `2^k` for some `k >= 0`.
pub open spec fn is_pow2(n: nat) -> bool {
    exists|k: nat| pow2(k) == n
}

/// For an even `n > 1`: `n` is a power of two exactly when `n / 2` is.
proof fn lemma_pow2_halve(n: nat)
    requires
        n > 1,
        n % 2 == 0,
    ensures
        is_pow2(n) == is_pow2(n / 2),
{
    if is_pow2(n) {
        let k = choose|k: nat| pow2(k) == n;
        if k == 0 {
            assert(pow2(0) == 1) by {
                vstd::arithmetic::power2::lemma2_to64();
            }
        } else {
            lemma_pow2_unfold(k);
            assert(pow2((k - 1) as nat) == n / 2);
        }
    }
    if is_pow2(n / 2) {
        let j = choose|j: nat| pow2(j) == n / 2;
        lemma_pow2_unfold(j + 1);
        assert(pow2(j + 1) == n);
    }
}

/// An odd `n > 1` is not a power of two.
proof fn lemma_odd_not_pow2(n: nat)
    requires
        n > 1,
        n % 2 == 1,
    ensures
        !is_pow2(n),
{
    if is_pow2(n) {
        let k = choose|k: nat| pow2(k) == n;
        vstd::arithmetic::power2::lemma2_to64();
        if k > 0 {
            lemma_pow2_unfold(k);
        }
    }
}

/// Returns true when `value` is a power of two (zero is not).
pub fn is_power_of_two(value: usize) -> (r: bool)
    ensures
        r == is_pow2(value as nat),
{
    if value == 0 {
        assert(!is_pow2(0)) by {
            if is_pow2(0) {
                let k = choose|k: nat| pow2(k) == 0;
                lemma_pow2_pos(k);
            }
        }
        return false;
    }
    let mut v: usize = value;
    while v > 1 && v % 2 == 0
        invariant
            v >= 1,
            is_pow2(value as nat) == is_pow2(v as nat),
        decreases v,
    {
        proof {
            lemma_pow2_halve(v as nat);
        }
        v = v / 2;
    }
    if v == 1 {
        assert(pow2(0) == 1) by {
            vstd::arithmetic::power2::lemma2_to64();
        }
        true
    } else {
        proof {
            lemma_odd_not_pow2(v as nat);
        }
        false
    }
}

/// Rounds `value` up to the nearest multiple of `alignment`.
pub fn align_to(value: usize, alignment: usize) -> (r: usize)
    requires
        alignment > 0,
        value + alignment - 1 <= usize::MAX,
    ensures
        r % alignment == 0,
        value <= r < value + alignment,
{
    let rem = value % alignment;
    if rem == 0 {
        value
    } else {
        let r = value + (alignment - rem);
        assert(r % alignment == 0) by {
            vstd::arithmetic::div_mod::lemma_fundamental_div_mod(value as int, alignment as int);
            vstd::arithmetic::div_mod::lemma_mod_multiples_basic(
                (value / alignment + 1) as int,
                alignment as int,
            );
            assert(r == (value / alignment + 1) * alignment) by (nonlinear_arith)
                requires
                    value == alignment * (value / alignment) + rem,
                    r == value + (alignment - rem),
            ;
        }
        r
    }
}

/// Declares std's I/O error so that `RaskError` can carry one.
#[verifier::external_type_specification]
#[verifier::external_body]
pub struct ExIoError(std::io::Error);

/// The error shared by code-generation stages.
#[derive(Debug)]
pub enum RaskError {
    InvalidInstruction,
    UnsupportedAbi,
    Io(std::io::Error),
    Other(String),
}

pub type RaskResult<T> = Result<T, RaskError>;

impl From<std::io::Error> for RaskError {
    fn from(value: std::io::Error) -> Self {
        RaskError::Io(value)
    }
}

impl vstd::std_specs::convert::FromSpecImpl<std::io::Error> for RaskError {
    open spec fn obeys_from_spec() -> bool {
        true
    }

    open spec fn from_spec(v: std::io::Error) -> Self {
        RaskError::Io(v)
    }
}

} // verus!
