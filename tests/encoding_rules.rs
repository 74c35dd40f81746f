use rask_x86_64::common::RegClass;
use rask_x86_64::encoder::{EncodeError, Encoder, InvalidShape, UnsupportedForm};
use rask_x86_64::operand::{MemOperand, Operand};
use rask_x86_64::registers::Reg64;

const ALL: [Reg64; 16] = [
    Reg64::RAX,
    Reg64::RCX,
    Reg64::RDX,
    Reg64::RBX,
    Reg64::RSP,
    Reg64::RBP,
    Reg64::RSI,
    Reg64::RDI,
    Reg64::R8,
    Reg64::R9,
    Reg64::R10,
    Reg64::R11,
    Reg64::R12,
    Reg64::R13,
    Reg64::R14,
    Reg64::R15,
];

fn mov_bytes(dst: Operand, src: Operand) -> Vec<u8> {
    let mut e = Encoder::new();
    e.mov(dst, src).unwrap();
    e.bytes().to_vec()
}

fn mem(base: Reg64, disp: i32) -> Operand {
    Operand::Mem(MemOperand { base, disp })
}

#[test]
fn register_ids_and_extension_bit() {
    for (i, r) in ALL.iter().enumerate() {
        assert_eq!(r.id() as usize, i);
        assert_eq!(r.needs_rex(), r.id() >= 8);
        assert_eq!(r.class(), RegClass::General);
    }
    assert!(!Reg64::RDI.needs_rex());
    assert!(Reg64::R8.needs_rex());
}

#[test]
fn mov_imm64_is_ten_bytes_for_every_register() {
    for r in ALL {
        let b = mov_bytes(Operand::Reg(r), Operand::Imm(-2));
        assert_eq!(b.len(), 10);
        assert_eq!(b[0], if r.id() >= 8 { 0x49 } else { 0x48 });
        assert_eq!(b[1] & 0x07, r.id() & 0x07);
        assert_eq!(b[1] & 0xF8, 0xB8);
        assert_eq!(&b[2..], &[0xFE, 0xFF, 0xFF, 0xFF, 0xFF, 0xFF, 0xFF, 0xFF]);
    }
}

#[test]
fn mov_imm64_extreme_values() {
    assert_eq!(
        mov_bytes(Operand::Reg(Reg64::R15), Operand::Imm(i64::MIN)),
        vec![0x49, 0xBF, 0, 0, 0, 0, 0, 0, 0, 0x80]
    );
    assert_eq!(
        mov_bytes(Operand::Reg(Reg64::RDI), Operand::Imm(i64::MAX)),
        vec![0x48, 0xBF, 0xFF, 0xFF, 0xFF, 0xFF, 0xFF, 0xFF, 0xFF, 0x7F]
    );
    assert_eq!(
        mov_bytes(Operand::Reg(Reg64::RCX), Operand::Imm(0x0102030405060708)),
        vec![0x48, 0xB9, 0x08, 0x07, 0x06, 0x05, 0x04, 0x03, 0x02, 0x01]
    );
}

#[test]
fn zero_displacement_and_rbp_base() {
    // mov rax, [rcx]: mod=00, no displacement
    assert_eq!(mov_bytes(Operand::Reg(Reg64::RAX), mem(Reg64::RCX, 0)), vec![0x48, 0x8B, 0x01]);
    // mov rax, [rbp]: mod=01 with one zero byte
    assert_eq!(
        mov_bytes(Operand::Reg(Reg64::RAX), mem(Reg64::RBP, 0)),
        vec![0x48, 0x8B, 0x45, 0x00]
    );
    // mov [rbp], rdx
    assert_eq!(
        mov_bytes(mem(Reg64::RBP, 0), Operand::Reg(Reg64::RDX)),
        vec![0x48, 0x89, 0x55, 0x00]
    );
}

#[test]
fn displacement_width_boundaries() {
    let load = |disp: i32| mov_bytes(Operand::Reg(Reg64::RAX), mem(Reg64::RBX, disp));
    assert_eq!(load(-128), vec![0x48, 0x8B, 0x43, 0x80]);
    assert_eq!(load(127), vec![0x48, 0x8B, 0x43, 0x7F]);
    assert_eq!(load(-1), vec![0x48, 0x8B, 0x43, 0xFF]);
    assert_eq!(load(128), vec![0x48, 0x8B, 0x83, 0x80, 0x00, 0x00, 0x00]);
    assert_eq!(load(-129), vec![0x48, 0x8B, 0x83, 0x7F, 0xFF, 0xFF, 0xFF]);
    assert_eq!(load(i32::MIN), vec![0x48, 0x8B, 0x83, 0x00, 0x00, 0x00, 0x80]);
    assert_eq!(load(i32::MAX), vec![0x48, 0x8B, 0x83, 0xFF, 0xFF, 0xFF, 0x7F]);
}

#[test]
fn rex_bits_follow_operand_roles() {
    // load: destination in reg (REX.R), base in rm (REX.B)
    assert_eq!(mov_bytes(Operand::Reg(Reg64::R9), mem(Reg64::RAX, 0)), vec![0x4C, 0x8B, 0x08]);
    assert_eq!(mov_bytes(Operand::Reg(Reg64::RAX), mem(Reg64::R9, 0)), vec![0x49, 0x8B, 0x01]);
    // store: source in reg (REX.R), base in rm (REX.B)
    assert_eq!(mov_bytes(mem(Reg64::R9, 0), Operand::Reg(Reg64::RAX)), vec![0x49, 0x89, 0x01]);
    assert_eq!(mov_bytes(mem(Reg64::RAX, 0), Operand::Reg(Reg64::R9)), vec![0x4C, 0x89, 0x08]);
    assert_eq!(mov_bytes(mem(Reg64::R14, 8), Operand::Reg(Reg64::R12)), vec![0x4D, 0x89, 0x66, 0x08]);
    // register move: source in reg, destination in rm
    assert_eq!(mov_bytes(Operand::Reg(Reg64::RBX), Operand::Reg(Reg64::R12)), vec![0x4C, 0x89, 0xE3]);
    assert_eq!(mov_bytes(Operand::Reg(Reg64::R12), Operand::Reg(Reg64::RBX)), vec![0x49, 0x89, 0xDC]);
}

#[test]
fn canonical_table() {
    let mut e = Encoder::new();
    e.add(Reg64::RAX, Reg64::RBX);
    e.sub(Reg64::R8, Reg64::R9);
    e.mov(Operand::Reg(Reg64::RAX), mem(Reg64::RBX, 1000)).unwrap();
    e.mov(mem(Reg64::RBX, 0), Operand::Reg(Reg64::RAX)).unwrap();
    e.ret();
    assert_eq!(
        e.bytes(),
        &[
            0x48, 0x01, 0xD8, 0x4D, 0x29, 0xC8, 0x48, 0x8B, 0x83, 0xE8, 0x03, 0x00, 0x00, 0x48,
            0x89, 0x03, 0xC3
        ]
    );
    let mut f = Encoder::new();
    f.add(Reg64::R10, Reg64::R9);
    assert_eq!(f.bytes(), &[0x4D, 0x01, 0xCA]);
}

#[test]
fn rejected_shapes_are_distinct_and_append_nothing() {
    let mut e = Encoder::new();
    e.ret();
    let a = MemOperand { base: Reg64::RAX, disp: 0 };
    assert_eq!(
        e.mov(Operand::Mem(a), Operand::Mem(a)),
        Err(EncodeError::InvalidShape(InvalidShape::MemoryToMemory))
    );
    assert_eq!(
        e.mov(Operand::Imm(1), Operand::Reg(Reg64::RAX)),
        Err(EncodeError::InvalidShape(InvalidShape::ImmediateDestination))
    );
    assert_eq!(
        e.mov(Operand::Imm(1), Operand::Imm(2)),
        Err(EncodeError::InvalidShape(InvalidShape::ImmediateDestination))
    );
    assert_eq!(
        e.mov(Operand::Mem(a), Operand::Imm(5)),
        Err(EncodeError::Unsupported(UnsupportedForm::StoreImmediate))
    );
    assert_eq!(e.bytes(), &[0xC3]);
}

#[test]
fn emit_all_appends_in_order() {
    let mut e = Encoder::new();
    assert!(e.bytes().is_empty());
    e.emit_all(&[1, 2, 3]);
    e.ret();
    e.emit_all(&[]);
    e.emit_all(&[9]);
    assert_eq!(e.bytes(), &[1, 2, 3, 0xC3, 9]);
    assert_eq!(e.buffer, vec![1, 2, 3, 0xC3, 9]);
}
