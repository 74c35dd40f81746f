//! x86-64 instruction encoder.
//!
//! Each encoding routine appends the bytes of one instruction to the
//! encoder's buffer. The bytes each routine appends are stated as spec
//! functions over registers and operands, so the layout of every form
//! (REX prefix, opcode, ModR/M byte, displacement, immediate) can be read
//! off its contract.
use vstd::prelude::*;

use crate::operand::{MemOperand, Operand};
use crate::registers::{hw_id, is_extended, Reg64};

verus! {

/// Opcode of `MOV r/m64, r64` (register-to-register move and store).
pub const OPCODE_MOV_STORE: u8 = 0x89;

/// Opcode of `MOV r64, r/m64` (load from memory).
pub const OPCODE_MOV_LOAD: u8 = 0x8B;

/// Base opcode of `MOV r64, imm64`; the low three bits carry the register.
pub const OPCODE_MOV_IMM64: u8 = 0xB8;

/// Opcode of `ADD r/m64, r64`.
pub const OPCODE_ADD: u8 = 0x01;

/// Opcode of `SUB r/m64, r64`.
pub const OPCODE_SUB: u8 = 0x29;

/// Opcode of a near `RET`.
pub const OPCODE_RET: u8 = 0xC3;

/// `256^n`: the number of values that `n` bytes can hold.
pub open spec fn byte_radix(n: nat) -> nat
    decreases n,
{
    if n == 0 {
        1
    } else {
        256 * byte_radix((n - 1) as nat)
    }
}

/// The `n`-byte little-endian encoding of `v` (of `v` modulo `256^n`):
/// least significant byte first.
pub open spec fn le_bytes(v: nat, n: nat) -> Seq<u8>
    decreases n,
{
    if n == 0 {
        Seq::empty()
    } else {
        seq![(v % 256) as u8] + le_bytes(v / 256, (n - 1) as nat)
    }
}

/// The unsigned number that a little-endian byte sequence encodes.
pub open spec fn le_value(s: Seq<u8>) -> nat
    decreases s.len(),
{
    if s.len() == 0 {
        0
    } else {
        s[0] as nat + 256 * le_value(s.drop_first())
    }
}

/// The signed number that a little-endian two's-complement byte sequence
/// encodes.
pub open spec fn le_signed_value(s: Seq<u8>) -> int {
    if 2 * le_value(s) >= byte_radix(s.len()) {
        le_value(s) - byte_radix(s.len())
    } else {
        le_value(s) as int
    }
}

/// The `n`-byte two's-complement representation of `v`, read as an
/// unsigned number.
pub open spec fn twos_complement(v: int, n: nat) -> nat {
    if v >= 0 {
        v as nat
    } else {
        (v + byte_radix(n)) as nat
    }
}

/// The REX prefix `0100WRXB` with W = 1, X = 0, and R and B as given.
pub open spec fn rex_w(r_ext: bool, b_ext: bool) -> u8 {
    (0x48 + (if r_ext {
        4int
    } else {
        0int
    }) + (if b_ext {
        1int
    } else {
        0int
    })) as u8
}

/// The ModR/M byte `mod(2) | reg(3) | rm(3)`, keeping the low three bits of
/// each register ID.
pub open spec fn modrm(md: u8, reg: u8, rm: u8) -> u8 {
    (md * 64 + (reg % 8) * 8 + rm % 8) as u8
}

/// The ModR/M `mod` field chosen for a memory operand: `00` for a zero
/// displacement (except with base RBP, where `mod=00, rm=101` means
/// RIP-relative), `01` for a displacement that fits in a signed byte, `10`
/// otherwise.
pub open spec fn mem_mod(m: MemOperand) -> u8 {
    if m.disp == 0 && m.base != Reg64::RBP {
        0
    } else if -128 <= m.disp <= 127 {
        1
    } else {
        2
    }
}

/// The displacement bytes that follow the ModR/M byte of a memory operand:
/// none, one byte, or four little-endian bytes, as `mem_mod` selects.
pub open spec fn disp_bytes(m: MemOperand) -> Seq<u8> {
    if mem_mod(m) == 0 {
        Seq::empty()
    } else if mem_mod(m) == 1 {
        le_bytes(twos_complement(m.disp as int, 1), 1)
    } else {
        le_bytes(twos_complement(m.disp as int, 4), 4)
    }
}

/// `REX.W + B8+rd imm64`: load a 64-bit immediate into a register.
pub open spec fn mov_imm64_bytes(dst: Reg64, value: u64) -> Seq<u8> {
    seq![rex_w(false, is_extended(dst)), (OPCODE_MOV_IMM64 + hw_id(dst) % 8) as u8] + le_bytes(
        value as nat,
        8,
    )
}

/// `REX.W + opcode /r` with both operands registers: `src` in the reg field,
/// `dst` in the rm field, `mod = 11`.
pub open spec fn reg_reg_bytes(opcode: u8, dst: Reg64, src: Reg64) -> Seq<u8> {
    seq![
        rex_w(is_extended(src), is_extended(dst)),
        opcode,
        modrm(3, hw_id(src), hw_id(dst)),
    ]
}

/// `REX.W + opcode /r` with a register in the reg field and a memory operand
/// in the rm field, followed by the displacement bytes.
pub open spec fn reg_mem_bytes(opcode: u8, reg: Reg64, mem: MemOperand) -> Seq<u8> {
    seq![
        rex_w(is_extended(reg), is_extended(mem.base)),
        opcode,
        modrm(mem_mod(mem), hw_id(reg), hw_id(mem.base)),
    ] + disp_bytes(mem)
}

/// An operand shape that no x86-64 `MOV` has: a caller error.
#[derive(Debug, Clone, Copy, PartialEq, Eq, Structural)]
pub enum InvalidShape {
    /// Both operands are memory.
    MemoryToMemory,
    /// The destination is an immediate.
    ImmediateDestination,
}

/// A valid `MOV` form that this encoder does not support yet.
#[derive(Debug, Clone, Copy, PartialEq, Eq, Structural)]
pub enum UnsupportedForm {
    /// `MOV [mem], imm`.
    StoreImmediate,
}

/// Why an instruction was not encoded. The two kinds are disjoint: an
/// invalid shape is a contract violation by the caller, an unsupported form
/// a gap in this encoder.
#[derive(Debug, Clone, Copy, PartialEq, Eq, Structural)]
pub enum EncodeError {
    InvalidShape(InvalidShape),
    Unsupported(UnsupportedForm),
}

/// The bytes of `mov dst, src`, or why the pair of operands is rejected.
pub open spec fn mov_encoding(dst: Operand, src: Operand) -> Result<Seq<u8>, EncodeError> {
    match (dst, src) {
        (Operand::Reg(d), Operand::Reg(s)) => Ok(reg_reg_bytes(OPCODE_MOV_STORE, d, s)),
        (Operand::Reg(d), Operand::Imm(imm)) => Ok(
            mov_imm64_bytes(d, twos_complement(imm as int, 8) as u64),
        ),
        (Operand::Mem(m), Operand::Reg(r)) => Ok(reg_mem_bytes(OPCODE_MOV_STORE, r, m)),
        (Operand::Reg(r), Operand::Mem(m)) => Ok(reg_mem_bytes(OPCODE_MOV_LOAD, r, m)),
        (Operand::Mem(_), Operand::Mem(_)) => Err(
            EncodeError::InvalidShape(InvalidShape::MemoryToMemory),
        ),
        (Operand::Imm(_), _) => Err(EncodeError::InvalidShape(InvalidShape::ImmediateDestination)),
        (Operand::Mem(_), Operand::Imm(_)) => Err(
            EncodeError::Unsupported(UnsupportedForm::StoreImmediate),
        ),
    }
}

/// The values of `byte_radix` for the widths the encoder uses.
pub proof fn lemma_byte_radix_values()
    ensures
        byte_radix(1) == 0x100,
        byte_radix(4) == 0x1_0000_0000,
        byte_radix(8) == 0x1_0000_0000_0000_0000,
{
    reveal_with_fuel(byte_radix, 9);
}

/// Builds a REX prefix with W = 1 and the given R and B bits.
fn rex_prefix(r_ext: bool, b_ext: bool) -> (r: u8)
    ensures
        r == rex_w(r_ext, b_ext),
{
    assert(0x48u8 | 0x04u8 == 0x4Cu8) by (bit_vector);
    assert(0x48u8 | 0x01u8 == 0x49u8) by (bit_vector);
    assert(0x4Cu8 | 0x01u8 == 0x4Du8) by (bit_vector);
    let mut rex: u8 = 0x48;
    if r_ext {
        rex = rex | 0x04;
    }
    if b_ext {
        rex = rex | 0x01;
    }
    rex
}

/// Packs a ModR/M byte from a 2-bit mode and two register IDs.
fn modrm_byte(md: u8, reg: u8, rm: u8) -> (r: u8)
    requires
        md < 4,
    ensures
        r == modrm(md, reg, rm),
{
    assert(((md << 6u8) | ((reg & 7u8) << 3u8) | (rm & 7u8)) == (md * 64 + (reg % 8) * 8 + rm
        % 8) as u8) by (bit_vector)
        requires
            md < 4,
    ;
    (md << 6u8) | ((reg & 7u8) << 3u8) | (rm & 7u8)
}

/// The ModR/M `mod` field for a memory operand.
fn displacement_mode(mem: &MemOperand) -> (r: u8)
    ensures
        r == mem_mod(*mem),
{
    if mem.disp == 0 && mem.base != Reg64::RBP {
        0
    } else if mem.disp >= -128 && mem.disp <= 127 {
        1
    } else {
        2
    }
}

/// The byte emitter for x86-64 machine code: an append-only buffer that
/// every encoding routine extends at its tail.
pub struct Encoder {
    /// Output buffer holding raw machine-code bytes.
    pub buffer: Vec<u8>,
}

impl Encoder {
    /// Constructs an empty encoder.
    pub fn new() -> (r: Self)
        ensures
            r.buffer@ == Seq::<u8>::empty(),
    {
        Encoder { buffer: Vec::new() }
    }

    /// Returns a read-only view of the encoded bytes.
    pub fn bytes(&self) -> (r: &[u8])
        ensures
            r@ == self.buffer@,
    {
        self.buffer.as_slice()
    }

    /// Appends a single byte to the buffer.
    fn emit(&mut self, byte: u8)
        ensures
            final(self).buffer@ == old(self).buffer@.push(byte),
    {
        self.buffer.push(byte);
    }

    /// Appends a full slice of bytes to the buffer.
    pub fn emit_all(&mut self, bytes: &[u8])
        ensures
            final(self).buffer@ == old(self).buffer@ + bytes@,
    {
        self.buffer.extend_from_slice(bytes);
        assert(self.buffer@ =~= old(self).buffer@ + bytes@);
    }

    /// Appends the `width` low bytes of `value`, least significant first.
    fn emit_le(&mut self, value: u64, width: usize)
        requires
            width <= 8,
        ensures
            final(self).buffer@ == old(self).buffer@ + le_bytes(value as nat, width as nat),
    {
        let mut v: u64 = value;
        let mut i: usize = 0;
        while i < width
            invariant
                i <= width,
                self.buffer@ + le_bytes(v as nat, (width - i) as nat) == old(self).buffer@
                    + le_bytes(value as nat, width as nat),
            decreases width - i,
        {
            let ghost before = self.buffer@;
            let ghost rest = le_bytes(v as nat, (width - i) as nat);
            assert(rest == seq![(v % 256) as u8] + le_bytes((v / 256) as nat, (width - i - 1) as nat));
            self.emit((v % 256) as u8);
            v = v / 256;
            i = i + 1;
            assert(self.buffer@ + le_bytes(v as nat, (width - i) as nat) =~= before + rest);
        }
    }

    /// Encodes `MOV r64, imm64`: `REX.W + B8+rd` followed by the immediate
    /// as eight little-endian bytes. REX.B extends the register number.
    fn mov_reg_imm64(&mut self, dst: Reg64, value: u64)
        ensures
            final(self).buffer@ == old(self).buffer@ + mov_imm64_bytes(dst, value),
    {
        let rex = rex_prefix(false, dst.needs_rex());
        let id = dst.id();
        assert(id & 7u8 == id % 8) by (bit_vector);
        self.emit(rex);
        self.emit(OPCODE_MOV_IMM64 + (id & 0x07));
        self.emit_le(value, 8);
        assert(self.buffer@ =~= old(self).buffer@ + mov_imm64_bytes(dst, value));
    }

    /// Encodes a register-direct form `REX.W + opcode /r`: the source in the
    /// ModR/M reg field (extended by REX.R), the destination in rm (extended
    /// by REX.B).
    fn reg_reg(&mut self, opcode: u8, dst: Reg64, src: Reg64)
        ensures
            final(self).buffer@ == old(self).buffer@ + reg_reg_bytes(opcode, dst, src),
    {
        let rex = rex_prefix(src.needs_rex(), dst.needs_rex());
        let modrm = modrm_byte(0b11, src.id(), dst.id());
        self.emit(rex);
        self.emit(opcode);
        self.emit(modrm);
        assert(self.buffer@ =~= old(self).buffer@ + reg_reg_bytes(opcode, dst, src));
    }

    /// Appends the displacement of a memory operand for the given mode.
    fn emit_displacement(&mut self, mem: &MemOperand, mode: u8)
        requires
            mode == mem_mod(*mem),
        ensures
            final(self).buffer@ == old(self).buffer@ + disp_bytes(*mem),
    {
        proof {
            lemma_byte_radix_values();
        }
        let d = mem.disp;
        if mode == 1 {
            let b: u8 = if d >= 0 {
                d as u8
            } else {
                (d + 256) as u8
            };
            self.emit_le(b as u64, 1);
        } else if mode == 2 {
            let u: u32 = if d >= 0 {
                d as u32
            } else {
                (d as i64 + 0x1_0000_0000i64) as u32
            };
            self.emit_le(u as u64, 4);
        } else {
            assert(self.buffer@ =~= old(self).buffer@ + disp_bytes(*mem));
        }
    }

    /// Encodes a form `REX.W + opcode /r` with a register in the ModR/M reg
    /// field (extended by REX.R) and a memory operand in rm (its base
    /// extended by REX.B), then the displacement.
    fn reg_mem(&mut self, opcode: u8, reg: Reg64, mem: &MemOperand)
        ensures
            final(self).buffer@ == old(self).buffer@ + reg_mem_bytes(opcode, reg, *mem),
    {
        let rex = rex_prefix(reg.needs_rex(), mem.base.needs_rex());
        let mode = displacement_mode(mem);
        let modrm = modrm_byte(mode, reg.id(), mem.base.id());
        self.emit(rex);
        self.emit(opcode);
        self.emit(modrm);
        self.emit_displacement(mem, mode);
        assert(self.buffer@ =~= old(self).buffer@ + reg_mem_bytes(opcode, reg, *mem));
    }

    /// Encodes `MOV r64, r64` as `REX.W + 89 /r`: source in reg, destination
    /// in rm.
    fn mov_reg_reg(&mut self, dst: Reg64, src: Reg64)
        ensures
            final(self).buffer@ == old(self).buffer@ + reg_reg_bytes(OPCODE_MOV_STORE, dst, src),
    {
        self.reg_reg(OPCODE_MOV_STORE, dst, src);
    }

    /// Encodes `MOV r64, [mem]` (load) as `REX.W + 8B /r`: destination in
    /// reg, memory in rm.
    fn mov_reg_mem(&mut self, dst: Reg64, src: &MemOperand)
        ensures
            final(self).buffer@ == old(self).buffer@ + reg_mem_bytes(OPCODE_MOV_LOAD, dst, *src),
    {
        self.reg_mem(OPCODE_MOV_LOAD, dst, src);
    }

    /// Encodes `MOV [mem], r64` (store) as `REX.W + 89 /r`: source in reg,
    /// memory in rm.
    fn mov_mem_reg(&mut self, dst: &MemOperand, src: Reg64)
        ensures
            final(self).buffer@ == old(self).buffer@ + reg_mem_bytes(OPCODE_MOV_STORE, src, *dst),
    {
        self.reg_mem(OPCODE_MOV_STORE, src, dst);
    }

    /// Encodes `ADD r64, r64` as `REX.W + 01 /r`: `dst += src`.
    pub fn add(&mut self, dst: Reg64, src: Reg64)
        ensures
            final(self).buffer@ == old(self).buffer@ + reg_reg_bytes(OPCODE_ADD, dst, src),
    {
        self.reg_reg(OPCODE_ADD, dst, src);
    }

    /// Encodes `SUB r64, r64` as `REX.W + 29 /r`: `dst -= src`.
    pub fn sub(&mut self, dst: Reg64, src: Reg64)
        ensures
            final(self).buffer@ == old(self).buffer@ + reg_reg_bytes(OPCODE_SUB, dst, src),
    {
        self.reg_reg(OPCODE_SUB, dst, src);
    }

    /// Encodes `mov dst, src`, choosing the form from the pair of operand
    /// kinds. A rejected pair appends nothing: memory-to-memory and an
    /// immediate destination are invalid shapes, a store of an immediate is
    /// not supported yet.
    pub fn mov(&mut self, dst: Operand, src: Operand) -> (r: Result<(), EncodeError>)
        ensures
            match mov_encoding(dst, src) {
                Ok(bytes) => r is Ok && final(self).buffer@ == old(self).buffer@ + bytes,
                Err(e) => r == Err::<(), EncodeError>(e) && final(self).buffer@ == old(
                    self,
                ).buffer@,
            },
    {
        match (dst, src) {
            (Operand::Reg(d), Operand::Reg(s)) => {
                self.mov_reg_reg(d, s);
                Ok(())
            },
            (Operand::Reg(d), Operand::Imm(imm)) => {
                self.mov_reg_imm64(d, imm_bits(imm));
                Ok(())
            },
            (Operand::Mem(m), Operand::Reg(r)) => {
                self.mov_mem_reg(&m, r);
                Ok(())
            },
            (Operand::Reg(r), Operand::Mem(m)) => {
                self.mov_reg_mem(r, &m);
                Ok(())
            },
            (Operand::Mem(_), Operand::Mem(_)) => Err(
                EncodeError::InvalidShape(InvalidShape::MemoryToMemory),
            ),
            (Operand::Imm(_), _) => Err(EncodeError::InvalidShape(InvalidShape::ImmediateDestination)),
            (Operand::Mem(_), Operand::Imm(_)) => Err(
                EncodeError::Unsupported(UnsupportedForm::StoreImmediate),
            ),
        }
    }

    /// Encodes a near `RET` (`C3`): no prefix, no ModR/M, no operands.
    pub fn ret(&mut self)
        ensures
            final(self).buffer@ == old(self).buffer@.push(OPCODE_RET),
    {
        self.emit(OPCODE_RET);
    }
}

/// The 64-bit two's-complement bit pattern of a signed immediate.
fn imm_bits(v: i64) -> (r: u64)
    ensures
        r == twos_complement(v as int, 8),
{
    proof {
        lemma_byte_radix_values();
    }
    if v >= 0 {
        v as u64
    } else {
        (v + 0x7FFF_FFFF_FFFF_FFFFi64 + 1) as u64 + 0x8000_0000_0000_0000u64
    }
}

/// Whether every bit of `mask` is set in `b`.
pub open spec fn bits_set(b: u8, mask: u8) -> bool {
    b & mask == mask
}

/// The `mod` field (bits 6–7) of a ModR/M byte.
pub open spec fn modrm_mod(b: u8) -> u8 {
    b >> 6u8
}

/// The `reg` field (bits 3–5) of a ModR/M byte.
pub open spec fn modrm_reg(b: u8) -> u8 {
    (b >> 3u8) & 7u8
}

/// The `rm` field (bits 0–2) of a ModR/M byte.
pub open spec fn modrm_rm(b: u8) -> u8 {
    b & 7u8
}

/// An encoding of `n` bytes has length `n`.
pub proof fn lemma_le_bytes_len(v: nat, n: nat)
    ensures
        le_bytes(v, n).len() == n,
    decreases n,
{
    if n > 0 {
        lemma_le_bytes_len(v / 256, (n - 1) as nat);
    }
}

/// Reading back the `n`-byte little-endian encoding of `v` gives `v`
/// modulo `256^n`.
pub proof fn lemma_le_round_trip(v: nat, n: nat)
    ensures
        le_value(le_bytes(v, n)) == v % byte_radix(n),
    decreases n,
{
    if n > 0 {
        let m = (n - 1) as nat;
        let s = le_bytes(v, n);
        lemma_le_round_trip(v / 256, m);
        lemma_le_bytes_len(v / 256, m);
        assert(s.drop_first() =~= le_bytes(v / 256, m));
        assert(byte_radix(m) > 0) by {
            lemma_byte_radix_positive(m);
        }
        vstd::arithmetic::div_mod::lemma_mod_breakdown(v as int, 256, byte_radix(m) as int);
    }
}

/// `256^n` is positive.
pub proof fn lemma_byte_radix_positive(n: nat)
    ensures
        byte_radix(n) > 0,
    decreases n,
{
    if n > 0 {
        lemma_byte_radix_positive((n - 1) as nat);
    }
}

/// A signed value that fits in `n` bytes reads back from its
/// two's-complement little-endian encoding unchanged.
pub proof fn lemma_le_signed_round_trip(x: int, n: nat)
    requires
        n > 0,
        -(byte_radix(n) as int) <= 2 * x < byte_radix(n),
    ensures
        le_signed_value(le_bytes(twos_complement(x, n), n)) == x,
{
    let v = twos_complement(x, n);
    lemma_le_round_trip(v, n);
    lemma_le_bytes_len(v, n);
    vstd::arithmetic::div_mod::lemma_small_mod(v, byte_radix(n));
}

/// The REX prefix of this encoder: high nibble `0100`, W set, X clear, and
/// R and B set exactly as asked.
pub proof fn lemma_rex_bits(r_ext: bool, b_ext: bool)
    ensures
        rex_w(r_ext, b_ext) >> 4u8 == 4,
        bits_set(rex_w(r_ext, b_ext), 0x08),
        !bits_set(rex_w(r_ext, b_ext), 0x02),
        bits_set(rex_w(r_ext, b_ext), 0x04) == r_ext,
        bits_set(rex_w(r_ext, b_ext), 0x01) == b_ext,
{
    assert(0x48u8 >> 4u8 == 4 && 0x48u8 & 8u8 == 8 && 0x48u8 & 2u8 != 2 && 0x48u8 & 4u8 != 4
        && 0x48u8 & 1u8 != 1) by (bit_vector);
    assert(0x49u8 >> 4u8 == 4 && 0x49u8 & 8u8 == 8 && 0x49u8 & 2u8 != 2 && 0x49u8 & 4u8 != 4
        && 0x49u8 & 1u8 == 1) by (bit_vector);
    assert(0x4Cu8 >> 4u8 == 4 && 0x4Cu8 & 8u8 == 8 && 0x4Cu8 & 2u8 != 2 && 0x4Cu8 & 4u8 == 4
        && 0x4Cu8 & 1u8 != 1) by (bit_vector);
    assert(0x4Du8 >> 4u8 == 4 && 0x4Du8 & 8u8 == 8 && 0x4Du8 & 2u8 != 2 && 0x4Du8 & 4u8 == 4
        && 0x4Du8 & 1u8 == 1) by (bit_vector);
}

/// A packed ModR/M byte unpacks into its mode and the low three bits of each
/// register ID.
pub proof fn lemma_modrm_fields(md: u8, reg: u8, rm: u8)
    requires
        md < 4,
    ensures
        modrm_mod(modrm(md, reg, rm)) == md,
        modrm_reg(modrm(md, reg, rm)) == reg & 7u8,
        modrm_rm(modrm(md, reg, rm)) == rm & 7u8,
{
    let b = modrm(md, reg, rm);
    assert(b == (md * 64 + (reg % 8) * 8 + rm % 8) as u8);
    assert(((md * 64 + (reg % 8) * 8 + rm % 8) as u8) >> 6u8 == md) by (bit_vector)
        requires
            md < 4,
    ;
    assert((((md * 64 + (reg % 8) * 8 + rm % 8) as u8) >> 3u8) & 7u8 == reg & 7u8)
        by (bit_vector);
    assert(((md * 64 + (reg % 8) * 8 + rm % 8) as u8) & 7u8 == rm & 7u8) by (bit_vector);
}

/// Loading any 64-bit immediate into any register gives ten bytes: a REX
/// prefix (B set for R8–R15), an opcode `B8+rd` whose low three bits are
/// those of the register's ID, and eight little-endian bytes that read back
/// as the immediate.
pub proof fn lemma_mov_imm64_layout(dst: Reg64, imm: i64)
    ensures
        mov_encoding(Operand::Reg(dst), Operand::Imm(imm)) is Ok,
        ({
            let b = mov_encoding(Operand::Reg(dst), Operand::Imm(imm))->Ok_0;
            &&& b.len() == 10
            &&& b[0] == rex_w(false, is_extended(dst))
            &&& b[1] & 7u8 == hw_id(dst) & 7u8
            &&& b[1] & 0xF8u8 == OPCODE_MOV_IMM64
            &&& le_signed_value(b.subrange(2, 10)) == imm
        }),
{
    lemma_byte_radix_values();
    let v = twos_complement(imm as int, 8);
    let b = mov_encoding(Operand::Reg(dst), Operand::Imm(imm))->Ok_0;
    lemma_le_bytes_len(v as u64 as nat, 8);
    assert(b.subrange(2, 10) =~= le_bytes(v, 8));
    lemma_le_signed_round_trip(imm as int, 8);
    let id = hw_id(dst);
    assert(id < 16);
    assert(((0xB8u8 + id % 8) as u8) & 7u8 == id & 7u8) by (bit_vector)
        requires
            id < 16,
    ;
    assert(((0xB8u8 + id % 8) as u8) & 0xF8u8 == 0xB8u8) by (bit_vector)
        requires
            id < 16,
    ;
}

/// A zero displacement takes no bytes and `mod = 00`, except with base RBP,
/// where it takes `mod = 01` and one zero byte (`mod = 00` with rm `101`
/// means RIP-relative addressing).
pub proof fn lemma_zero_displacement(opcode: u8, reg: Reg64, mem: MemOperand)
    requires
        mem.disp == 0,
    ensures
        mem.base != Reg64::RBP ==> ({
            let b = reg_mem_bytes(opcode, reg, mem);
            b.len() == 3 && modrm_mod(b[2]) == 0 && disp_bytes(mem).len() == 0
        }),
        mem.base == Reg64::RBP ==> ({
            let b = reg_mem_bytes(opcode, reg, mem);
            b.len() == 4 && modrm_mod(b[2]) == 1 && disp_bytes(mem) == seq![0u8] && b[3] == 0
        }),
{
    lemma_byte_radix_values();
    lemma_modrm_fields(mem_mod(mem), hw_id(reg), hw_id(mem.base));
    if mem.base == Reg64::RBP {
        reveal_with_fuel(le_bytes, 2);
        assert(disp_bytes(mem) =~= seq![0u8]);
    }
}

/// A displacement that needs bytes takes exactly one when it fits in a
/// signed byte (that byte being its two's-complement value) and exactly four
/// little-endian bytes of the full 32-bit value otherwise; either way the
/// bytes read back as the displacement.
pub proof fn lemma_displacement_width(mem: MemOperand)
    requires
        !(mem.disp == 0 && mem.base != Reg64::RBP),
    ensures
        -128 <= mem.disp <= 127 ==> mem_mod(mem) == 1 && disp_bytes(mem) == seq![mem.disp as u8],
        !(-128 <= mem.disp <= 127) ==> mem_mod(mem) == 2 && disp_bytes(mem).len() == 4
            && le_value(disp_bytes(mem)) == mem.disp as u32,
        le_signed_value(disp_bytes(mem)) == mem.disp,
{
    lemma_byte_radix_values();
    let d = mem.disp;
    if -128 <= d <= 127 {
        reveal_with_fuel(le_bytes, 2);
        lemma_le_signed_round_trip(d as int, 1);
        assert(d < 0 ==> (d + 256) as u8 == d as u8) by (bit_vector);
        assert(d >= 0 ==> (d as u8) as int == d as int);
        assert(disp_bytes(mem) =~= seq![d as u8]);
    } else {
        lemma_le_signed_round_trip(d as int, 4);
        lemma_le_bytes_len(twos_complement(d as int, 4), 4);
        lemma_le_round_trip(twos_complement(d as int, 4), 4);
        vstd::arithmetic::div_mod::lemma_small_mod(twos_complement(d as int, 4), 0x1_0000_0000);
        assert(d < 0 ==> (d as i64 + 0x1_0000_0000i64) as u32 == d as u32) by (bit_vector);
        assert(d >= 0 ==> (d as u32) as int == d as int);
    }
}

/// REX.R follows the operand in the ModR/M reg field and REX.B the one in
/// rm, each on its own: in a load the destination register is in reg and the
/// base in rm, in a store the source register is in reg and the base in rm,
/// in a register move the source is in reg and the destination in rm.
pub proof fn lemma_rex_follows_roles(reg: Reg64, mem: MemOperand, dst: Reg64, src: Reg64)
    ensures
        ({
            let b = mov_encoding(Operand::Reg(reg), Operand::Mem(mem))->Ok_0;
            &&& bits_set(b[0], 0x04) == is_extended(reg)
            &&& bits_set(b[0], 0x01) == is_extended(mem.base)
            &&& b[1] == OPCODE_MOV_LOAD
            &&& modrm_reg(b[2]) == hw_id(reg) & 7u8
            &&& modrm_rm(b[2]) == hw_id(mem.base) & 7u8
        }),
        ({
            let b = mov_encoding(Operand::Mem(mem), Operand::Reg(reg))->Ok_0;
            &&& bits_set(b[0], 0x04) == is_extended(reg)
            &&& bits_set(b[0], 0x01) == is_extended(mem.base)
            &&& b[1] == OPCODE_MOV_STORE
            &&& modrm_reg(b[2]) == hw_id(reg) & 7u8
            &&& modrm_rm(b[2]) == hw_id(mem.base) & 7u8
        }),
        ({
            let b = mov_encoding(Operand::Reg(dst), Operand::Reg(src))->Ok_0;
            &&& bits_set(b[0], 0x04) == is_extended(src)
            &&& bits_set(b[0], 0x01) == is_extended(dst)
            &&& modrm_mod(b[2]) == 3
            &&& modrm_reg(b[2]) == hw_id(src) & 7u8
            &&& modrm_rm(b[2]) == hw_id(dst) & 7u8
        }),
{
    lemma_rex_bits(is_extended(reg), is_extended(mem.base));
    lemma_rex_bits(is_extended(src), is_extended(dst));
    lemma_modrm_fields(mem_mod(mem), hw_id(reg), hw_id(mem.base));
    lemma_modrm_fields(3, hw_id(src), hw_id(dst));
}

/// `mov` rejects memory-to-memory and an immediate destination as invalid
/// shapes, each with its own reason, and a store of an immediate as an
/// unsupported form, never as an invalid shape.
pub proof fn lemma_mov_rejections(a: MemOperand, b: MemOperand, imm: i64, src: Operand)
    ensures
        mov_encoding(Operand::Mem(a), Operand::Mem(b)) == Err::<Seq<u8>, EncodeError>(
            EncodeError::InvalidShape(InvalidShape::MemoryToMemory),
        ),
        mov_encoding(Operand::Imm(imm), src) == Err::<Seq<u8>, EncodeError>(
            EncodeError::InvalidShape(InvalidShape::ImmediateDestination),
        ),
        mov_encoding(Operand::Mem(a), Operand::Imm(imm)) == Err::<Seq<u8>, EncodeError>(
            EncodeError::Unsupported(UnsupportedForm::StoreImmediate),
        ),
{
}

} // verus!
