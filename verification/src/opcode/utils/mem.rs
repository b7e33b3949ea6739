//! The addressing modes: from the bytes that follow an opcode and the index
//! registers to an effective address or an operand value.

use crate::cpu::{Memory, RegisterState, Registers};
use vstd::prelude::*;

verus! {

/// The byte at `addr`, taken modulo the size of the address space.
pub open spec fn byte_at(mem: Seq<u8>, addr: int) -> u8 {
    mem[addr % 0x10000]
}

/// The `n`-th byte after the opcode that the program counter points at.
pub open spec fn operand(mem: Seq<u8>, r: RegisterState, n: int) -> u8 {
    byte_at(mem, r.pc + n)
}

/// The address with high byte `addr_high` and low byte `addr_low`.
pub open spec fn spec_compose_addr(addr_high: u8, addr_low: u8) -> u16 {
    (addr_high * 0x100 + addr_low) as u16
}

/// The address `index` bytes after the one composed of `addr_high` and
/// `addr_low`, wrapping around the address space, and whether the low byte
/// carried into the high byte: the page was crossed.
pub open spec fn spec_compose_indexed_addr(addr_high: u8, addr_low: u8, index: u8) -> (u16, bool) {
    (((addr_high * 0x100 + addr_low + index) % 0x10000) as u16, addr_low + index > 0xFF)
}

/// Immediate: the address of the operand byte itself.
pub open spec fn spec_get_imm_addr(r: RegisterState) -> u16 {
    ((r.pc + 1) % 0x10000) as u16
}

/// Immediate: the operand byte.
pub open spec fn spec_read_imm(mem: Seq<u8>, r: RegisterState) -> u8 {
    operand(mem, r, 1)
}

/// Zero page: the operand byte is the address.
pub open spec fn spec_get_zero_page_addr(mem: Seq<u8>, r: RegisterState) -> u16 {
    operand(mem, r, 1) as u16
}

/// Zero page: the byte at the operand's address.
pub open spec fn spec_read_zero_page(mem: Seq<u8>, r: RegisterState) -> u8 {
    mem[spec_get_zero_page_addr(mem, r) as int]
}

/// Zero page indexed: operand plus index, wrapping within page zero.
pub open spec fn spec_zero_page_indexed(mem: Seq<u8>, r: RegisterState, index: u8) -> u16 {
    ((operand(mem, r, 1) + index) % 0x100) as u16
}

/// Zero page,X: the effective address.
pub open spec fn spec_get_zero_page_x_addr(mem: Seq<u8>, r: RegisterState) -> u16 {
    spec_zero_page_indexed(mem, r, r.x)
}

/// Zero page,X: the byte at the effective address.
pub open spec fn spec_read_zero_page_x(mem: Seq<u8>, r: RegisterState) -> u8 {
    mem[spec_get_zero_page_x_addr(mem, r) as int]
}

/// Zero page,Y: the effective address.
pub open spec fn spec_get_zero_page_y_addr(mem: Seq<u8>, r: RegisterState) -> u16 {
    spec_zero_page_indexed(mem, r, r.y)
}

/// Zero page,Y: the byte at the effective address.
pub open spec fn spec_read_zero_page_y(mem: Seq<u8>, r: RegisterState) -> u8 {
    mem[spec_get_zero_page_y_addr(mem, r) as int]
}

/// Relative: the displacement byte.
pub open spec fn spec_read_rel(mem: Seq<u8>, r: RegisterState) -> u8 {
    operand(mem, r, 1)
}

/// Absolute: the little-endian address in the two operand bytes.
pub open spec fn spec_get_abs_addr(mem: Seq<u8>, r: RegisterState) -> u16 {
    spec_compose_addr(operand(mem, r, 2), operand(mem, r, 1))
}

/// Absolute: the byte at the operand's address.
pub open spec fn spec_read_abs(mem: Seq<u8>, r: RegisterState) -> u8 {
    mem[spec_get_abs_addr(mem, r) as int]
}

/// Absolute,X: the effective address and whether a page was crossed.
pub open spec fn spec_get_abs_x_addr(mem: Seq<u8>, r: RegisterState) -> (u16, bool) {
    spec_compose_indexed_addr(operand(mem, r, 2), operand(mem, r, 1), r.x)
}

/// Absolute,X: the byte at the effective address and whether a page was
/// crossed.
pub open spec fn spec_read_abs_x(mem: Seq<u8>, r: RegisterState) -> (u8, bool) {
    (mem[spec_get_abs_x_addr(mem, r).0 as int], spec_get_abs_x_addr(mem, r).1)
}

/// Absolute,Y: the effective address and whether a page was crossed.
pub open spec fn spec_get_abs_y_addr(mem: Seq<u8>, r: RegisterState) -> (u16, bool) {
    spec_compose_indexed_addr(operand(mem, r, 2), operand(mem, r, 1), r.y)
}

/// Absolute,Y: the byte at the effective address and whether a page was
/// crossed.
pub open spec fn spec_read_abs_y(mem: Seq<u8>, r: RegisterState) -> (u8, bool) {
    (mem[spec_get_abs_y_addr(mem, r).0 as int], spec_get_abs_y_addr(mem, r).1)
}

/// Indirect,X: the zero-page pointer, operand plus X wrapping within page
/// zero.
pub open spec fn spec_indirect_x_pointer(mem: Seq<u8>, r: RegisterState) -> int {
    (operand(mem, r, 1) + r.x) % 0x100
}

/// Indirect,X: the little-endian address stored at the pointer. The pointer
/// to its high byte wraps within page zero too.
pub open spec fn spec_get_indirect_x_addr(mem: Seq<u8>, r: RegisterState) -> u16 {
    let pointer = spec_indirect_x_pointer(mem, r);
    spec_compose_addr(mem[(pointer + 1) % 0x100], mem[pointer])
}

/// Indirect,X: the byte at the effective address.
pub open spec fn spec_read_indirect_x(mem: Seq<u8>, r: RegisterState) -> u8 {
    mem[spec_get_indirect_x_addr(mem, r) as int]
}

/// Indirect,Y: the little-endian base address stored at the zero-page
/// pointer given by the operand, plus Y, and whether a page was crossed.
/// The high byte of the base is read from the address after the pointer,
/// which is `0x0100` for the pointer `0xFF`.
pub open spec fn spec_get_indirect_y_addr(mem: Seq<u8>, r: RegisterState) -> (u16, bool) {
    let pointer = operand(mem, r, 1) as int;
    spec_compose_indexed_addr(mem[pointer + 1], mem[pointer], r.y)
}

/// Indirect,Y: the byte at the effective address and whether a page was
/// crossed.
pub open spec fn spec_read_indirect_y(mem: Seq<u8>, r: RegisterState) -> (u8, bool) {
    (mem[spec_get_indirect_y_addr(mem, r).0 as int], spec_get_indirect_y_addr(mem, r).1)
}

/// Indexing an address crosses a page exactly when the high byte of the
/// result differs from the high byte of the base, and the result is the
/// base plus the index modulo the size of the address space.
pub proof fn lemma_page_crossed_iff_high_byte_changes(addr_high: u8, addr_low: u8, index: u8)
    ensures
        spec_compose_indexed_addr(addr_high, addr_low, index).1 == (spec_compose_indexed_addr(
            addr_high,
            addr_low,
            index,
        ).0 / 0x100 != addr_high),
        spec_compose_indexed_addr(addr_high, addr_low, index).0 == (spec_compose_addr(
            addr_high,
            addr_low,
        ) + index) % 0x10000,
{
}

/// Zero page indexing wraps within page zero: the effective address is the
/// operand plus the index modulo 256, and so never leaves the page.
pub proof fn lemma_zero_page_index_wraps(mem: Seq<u8>, r: RegisterState)
    ensures
        spec_get_zero_page_x_addr(mem, r) == (operand(mem, r, 1) + r.x) % 0x100,
        spec_get_zero_page_x_addr(mem, r) < 0x100,
        spec_get_zero_page_y_addr(mem, r) == (operand(mem, r, 1) + r.y) % 0x100,
        spec_get_zero_page_y_addr(mem, r) < 0x100,
{
}

/// Joins a high and a low byte to an address.
#[inline]
fn compose_addr(addr_high: u8, addr_low: u8) -> (addr: u16)
    ensures
        addr == spec_compose_addr(addr_high, addr_low),
{
    assert(((addr_high as u16) << 8) == addr_high as u16 * 0x100) by (bit_vector);
    ((addr_high as u16) << 8) + addr_low as u16
}

/// Adds `index` to the address of the two bytes: the low byte first, and
/// its carry into the high byte, which wraps. The carry is the page
/// crossing.
#[inline]
fn compose_indexed_addr(addr_high: u8, addr_low: u8, index: u8) -> (r: (u16, bool))
    ensures
        r == spec_compose_indexed_addr(addr_high, addr_low, index),
{
    match addr_low.checked_add(index) {
        None => {
            let addr_low: u8 = addr_low.wrapping_add(index);
            let addr_high: u8 = addr_high.wrapping_add(1);
            (compose_addr(addr_high, addr_low), true)
        },
        Some(addr_low) => (compose_addr(addr_high, addr_low), false),
    }
}

/// Immediate: the address of the operand byte, the one after the opcode.
#[inline]
pub fn get_imm_addr(_mem: &Memory, registers: &Registers) -> (addr: u16)
    ensures
        addr == spec_get_imm_addr(registers@),
{
    let pc: u16 = registers.pc;
    pc.wrapping_add(1)
}

/// Immediate: the operand byte.
#[inline]
pub fn read_imm(mem: &Memory, registers: &Registers) -> (val: u8)
    ensures
        val == spec_read_imm(mem@, registers@),
{
    mem.read(get_imm_addr(mem, registers))
}

/// Zero page: the address in page zero that the operand byte names.
#[inline]
pub fn get_zero_page_addr(mem: &Memory, registers: &Registers) -> (addr: u16)
    ensures
        addr == spec_get_zero_page_addr(mem@, registers@),
{
    let pc: u16 = registers.pc;
    let addr: u16 = mem.read(pc.wrapping_add(1)) as u16;
    addr
}

/// Zero page: the byte at that address.
#[inline]
pub fn read_zero_page(mem: &Memory, registers: &Registers) -> (val: u8)
    ensures
        val == spec_read_zero_page(mem@, registers@),
{
    mem.read(get_zero_page_addr(mem, registers))
}

/// Zero page,X: the operand byte plus X, wrapping within page zero.
#[inline]
pub fn get_zero_page_x_addr(mem: &Memory, registers: &Registers) -> (addr: u16)
    ensures
        addr == spec_get_zero_page_x_addr(mem@, registers@),
{
    let pc: u16 = registers.pc;
    let x: u8 = registers.x;
    let base_addr: u8 = mem.read(pc.wrapping_add(1));
    let indexed_addr: u16 = base_addr.wrapping_add(x) as u16;
    indexed_addr
}

/// Zero page,X: the byte at that address.
#[inline]
pub fn read_zero_page_x(mem: &Memory, registers: &Registers) -> (val: u8)
    ensures
        val == spec_read_zero_page_x(mem@, registers@),
{
    mem.read(get_zero_page_x_addr(mem, registers))
}

/// Zero page,Y: the operand byte plus Y, wrapping within page zero.
#[inline]
pub fn get_zero_page_y_addr(mem: &Memory, registers: &Registers) -> (addr: u16)
    ensures
        addr == spec_get_zero_page_y_addr(mem@, registers@),
{
    let pc: u16 = registers.pc;
    let y: u8 = registers.y;
    let base_addr: u8 = mem.read(pc.wrapping_add(1));
    let indexed_addr: u16 = base_addr.wrapping_add(y) as u16;
    indexed_addr
}

/// Zero page,Y: the byte at that address.
#[inline]
pub fn read_zero_page_y(mem: &Memory, registers: &Registers) -> (val: u8)
    ensures
        val == spec_read_zero_page_y(mem@, registers@),
{
    mem.read(get_zero_page_y_addr(mem, registers))
}

/// Relative: the displacement byte.
#[inline]
pub fn read_rel(mem: &Memory, registers: &Registers) -> (val: u8)
    ensures
        val == spec_read_rel(mem@, registers@),
{
    let pc: u16 = registers.pc;
    mem.read(pc.wrapping_add(1))
}

/// Absolute: the little-endian address in the two operand bytes.
#[inline]
pub fn get_abs_addr(mem: &Memory, registers: &Registers) -> (addr: u16)
    ensures
        addr == spec_get_abs_addr(mem@, registers@),
{
    let pc: u16 = registers.pc;
    let addr_low: u8 = mem.read(pc.wrapping_add(1));
    let addr_high: u8 = mem.read(pc.wrapping_add(2));
    let addr: u16 = compose_addr(addr_high, addr_low);
    addr
}

/// Absolute: the byte at that address.
#[inline]
pub fn read_abs(mem: &Memory, registers: &Registers) -> (val: u8)
    ensures
        val == spec_read_abs(mem@, registers@),
{
    mem.read(get_abs_addr(mem, registers))
}

/// Absolute,X: the operand address plus X, and whether the index crossed
/// a page.
#[inline]
pub fn get_abs_x_addr(mem: &Memory, registers: &Registers) -> (r: (u16, bool))
    ensures
        r == spec_get_abs_x_addr(mem@, registers@),
{
    let pc: u16 = registers.pc;
    let x: u8 = registers.x;
    let addr_low: u8 = mem.read(pc.wrapping_add(1));
    let addr_high: u8 = mem.read(pc.wrapping_add(2));
    compose_indexed_addr(addr_high, addr_low, x)
}

/// Absolute,X: the byte at that address, and whether the index crossed a
/// page.
#[inline]
pub fn read_abs_x(mem: &Memory, registers: &Registers) -> (r: (u8, bool))
    ensures
        r == spec_read_abs_x(mem@, registers@),
{
    let (addr, page_crossed): (u16, bool) = get_abs_x_addr(mem, registers);
    (mem.read(addr), page_crossed)
}

/// Absolute,Y: the operand address plus Y, and whether the index crossed
/// a page.
#[inline]
pub fn get_abs_y_addr(mem: &Memory, registers: &Registers) -> (r: (u16, bool))
    ensures
        r == spec_get_abs_y_addr(mem@, registers@),
{
    let pc: u16 = registers.pc;
    let y: u8 = registers.y;
    let addr_low: u8 = mem.read(pc.wrapping_add(1));
    let addr_high: u8 = mem.read(pc.wrapping_add(2));
    compose_indexed_addr(addr_high, addr_low, y)
}

/// Absolute,Y: the byte at that address, and whether the index crossed a
/// page.
#[inline]
pub fn read_abs_y(mem: &Memory, registers: &Registers) -> (r: (u8, bool))
    ensures
        r == spec_read_abs_y(mem@, registers@),
{
    let (addr, page_crossed): (u16, bool) = get_abs_y_addr(mem, registers);
    (mem.read(addr), page_crossed)
}

/// Indirect,X: the address stored in page zero at the operand byte plus
/// X. Pointer and pointer plus one both wrap within page zero.
#[inline]
pub fn get_indirect_x_addr(mem: &Memory, registers: &Registers) -> (addr: u16)
    ensures
        addr == spec_get_indirect_x_addr(mem@, registers@),
{
    let pc: u16 = registers.pc;
    let x: u8 = registers.x;
    let indirect_addr: u8 = mem.read(pc.wrapping_add(1)).wrapping_add(x);
    let addr_low: u8 = mem.read(indirect_addr as u16);
    let addr_high: u8 = mem.read(indirect_addr.wrapping_add(1) as u16);
    let addr: u16 = compose_addr(addr_high, addr_low);
    addr
}

/// Indirect,X: the byte at that address.
#[inline]
pub fn read_indirect_x(mem: &Memory, registers: &Registers) -> (val: u8)
    ensures
        val == spec_read_indirect_x(mem@, registers@),
{
    mem.read(get_indirect_x_addr(mem, registers))
}

/// Indirect,Y: the address stored in page zero at the operand byte, plus
/// Y, and whether the index crossed a page.
#[inline]
pub fn get_indirect_y_addr(mem: &Memory, registers: &Registers) -> (r: (u16, bool))
    ensures
        r == spec_get_indirect_y_addr(mem@, registers@),
{
    let pc: u16 = registers.pc;
    let y: u8 = registers.y;
    let indirect_addr: u16 = mem.read(pc.wrapping_add(1)) as u16;
    let addr_low: u8 = mem.read(indirect_addr);
    let addr_high: u8 = mem.read(indirect_addr + 1);
    compose_indexed_addr(addr_high, addr_low, y)
}

/// Indirect,Y: the byte at that address, and whether the index crossed a
/// page.
#[inline]
pub fn read_indirect_y(mem: &Memory, registers: &Registers) -> (r: (u8, bool))
    ensures
        r == spec_read_indirect_y(mem@, registers@),
{
    let (addr, page_crossed): (u16, bool) = get_indirect_y_addr(mem, registers);
    (mem.read(addr), page_crossed)
}

} // verus!
