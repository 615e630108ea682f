//! Register cells, readers and writers shared by every peripheral model.
//!
//! A peripheral is modelled as a block of 32-bit register cells that hold plain
//! values. Reading a cell yields an [`R`], a snapshot of its bits; a [`W`] is a
//! value under construction that is stored back with [`Reg::write`]. Fields
//! inside a register are described by a bit offset and a width.
use core::marker::PhantomData;
use vstd::prelude::*;

verus! {

/// The bit `n` of `bits`, counted from the least significant one.
pub open spec fn bit_of(bits: u32, n: u32) -> bool {
    (bits >> n) & 1 == 1
}

/// The `width` low bits set, for a width of 1 to 32.
pub open spec fn mask_of(width: u32) -> u32 {
    0xffff_ffffu32 >> ((32u32 - width) as u32)
}

/// The field of `width` bits that starts at bit `offset`.
pub open spec fn field_of(bits: u32, offset: u32, width: u32) -> u32 {
    (bits >> offset) & mask_of(width)
}

/// `bits` with the field of `width` bits at `offset` replaced by the low bits of `value`.
pub open spec fn with_field(bits: u32, offset: u32, width: u32, value: u32) -> u32 {
    (bits & !(mask_of(width) << offset)) | ((value & mask_of(width)) << offset)
}

/// `bits` with bit `n` replaced by `value`.
pub open spec fn with_bit(bits: u32, n: u32, value: bool) -> u32 {
    if value {
        bits | (1u32 << n)
    } else {
        bits & !(1u32 << n)
    }
}

/// A field that was just written reads back as the value written, cut to the
/// field's width.
pub proof fn lemma_field_reads_back(bits: u32, offset: u32, width: u32, value: u32)
    by (bit_vector)
    requires
        1 <= width,
        offset + width <= 32,
    ensures
        field_of(with_field(bits, offset, width, value), offset, width) == value & mask_of(width),
{
}

/// Writing a field leaves every bit outside it as it was.
pub proof fn lemma_field_write_is_local(bits: u32, offset: u32, width: u32, value: u32, n: u32)
    by (bit_vector)
    requires
        1 <= width,
        offset + width <= 32,
        n < 32,
        n < offset || n >= offset + width,
    ensures
        bit_of(with_field(bits, offset, width, value), n) == bit_of(bits, n),
{
}

/// A bit that was just written reads back as written, and no other bit moves.
pub proof fn lemma_bit_reads_back(bits: u32, n: u32, value: bool, m: u32)
    by (bit_vector)
    requires
        n < 32,
        m < 32,
    ensures
        bit_of(with_bit(bits, n, value), m) == if m == n { value } else { bit_of(bits, m) },
{
}

/// Testing a bit by mask agrees with testing it by shift.
pub proof fn lemma_bit_by_mask(bits: u32, n: u32)
    by (bit_vector)
    requires
        n < 32,
    ensures
        (bits & (1u32 << n) != 0) == bit_of(bits, n),
        ((bits >> n) & 1 != 0) == bit_of(bits, n),
{
}

/// A field never exceeds what its width can hold.
pub proof fn lemma_field_bound(bits: u32, offset: u32, width: u32)
    by (bit_vector)
    requires
        1 <= width,
        offset + width <= 32,
    ensures
        field_of(bits, offset, width) <= mask_of(width),
        width == 8 ==> mask_of(width) == 0xff,
        width == 16 ==> mask_of(width) == 0xffff,
        width < 32 ==> mask_of(width) == ((1u32 << width) - 1) as u32,
{
}

/// Reads bit `n` of `bits`.
pub fn get_bit(bits: u32, n: u32) -> (r: bool)
    requires
        n < 32,
    ensures
        r == bit_of(bits, n),
{
    (bits >> n) & 1 == 1
}

/// Reads the field of `width` bits at `offset`.
pub fn get_field(bits: u32, offset: u32, width: u32) -> (r: u32)
    requires
        1 <= width,
        offset + width <= 32,
    ensures
        r == field_of(bits, offset, width),
        r <= mask_of(width),
{
    proof {
        lemma_field_bound(bits, offset, width);
    }
    (bits >> offset) & (0xffff_ffffu32 >> (32 - width))
}

/// Reads a field of at most 8 bits as a byte.
pub fn get_field_u8(bits: u32, offset: u32, width: u32) -> (r: u8)
    requires
        1 <= width <= 8,
        offset + width <= 32,
    ensures
        r == field_of(bits, offset, width),
{
    let f = get_field(bits, offset, width);
    assert(mask_of(width) <= 0xff) by (bit_vector)
        requires
            1 <= width <= 8,
    ;
    f as u8
}

/// Reads a field of at most 16 bits as a half word.
pub fn get_field_u16(bits: u32, offset: u32, width: u32) -> (r: u16)
    requires
        1 <= width <= 16,
        offset + width <= 32,
    ensures
        r == field_of(bits, offset, width),
{
    let f = get_field(bits, offset, width);
    assert(mask_of(width) <= 0xffff) by (bit_vector)
        requires
            1 <= width <= 16,
    ;
    f as u16
}

/// Replaces the field of `width` bits at `offset` by the low bits of `value`.
pub fn set_field(bits: u32, offset: u32, width: u32, value: u32) -> (r: u32)
    requires
        1 <= width,
        offset + width <= 32,
    ensures
        r == with_field(bits, offset, width, value),
{
    let mask = 0xffff_ffffu32 >> (32 - width);
    (bits & !(mask << offset)) | ((value & mask) << offset)
}

/// Replaces bit `n` by `value`.
pub fn set_bit(bits: u32, n: u32, value: bool) -> (r: u32)
    requires
        n < 32,
    ensures
        r == with_bit(bits, n, value),
{
    if value {
        bits | (1u32 << n)
    } else {
        bits & !(1u32 << n)
    }
}

/// The low 16 bits of `x`.
pub fn low16(x: u32) -> (r: u16)
    ensures
        r == x & 0xffff,
{
    assert(x & 0xffff <= 0xffff) by (bit_vector);
    (x & 0xffff) as u16
}

/// A value that fits 16 bits, as a half word.
pub fn narrow16(x: u64) -> (r: u16)
    requires
        x <= 0xffff,
    ensures
        r == x,
{
    x as u16
}

/// A value that fits 8 bits, as a byte.
pub fn narrow8(x: u32) -> (r: u8)
    requires
        x <= 0xff,
    ensures
        r == x,
{
    x as u8
}

/// Marks a type that names one register.
pub trait RegisterSpec {

}

/// Marks a register that software can read.
pub trait Readable: RegisterSpec {

}

/// Marks a register that software can write.
pub trait Writable: RegisterSpec {

}

/// Marks a register whose value after reset is zero.
pub trait Resettable: RegisterSpec {

}

/// One 32-bit register cell.
pub struct Reg<REG> {
    value: u32,
    _marker: PhantomData<REG>,
}

impl<REG> View for Reg<REG> {
    type V = u32;

    closed spec fn view(&self) -> u32 {
        self.value
    }
}

impl<REG> Reg<REG> {
    /// A cell that holds `bits`, as the hardware side would leave it.
    pub fn new(bits: u32) -> (r: Self)
        ensures
            r@ == bits,
    {
        Reg { value: bits, _marker: PhantomData }
    }

    /// Overwrites the cell as the hardware side would.
    pub fn set(&mut self, bits: u32)
        ensures
            final(self)@ == bits,
    {
        self.value = bits;
    }
}

impl<REG: Resettable> Reg<REG> {
    /// Puts the cell back to its value after reset.
    pub fn reset(&mut self)
        ensures
            final(self)@ == 0,
    {
        self.value = 0;
    }
}

impl<REG: Readable> Reg<REG> {
    /// A snapshot of the cell.
    pub fn read(&self) -> (r: R<REG>)
        ensures
            r@ == self@,
    {
        R { bits: self.value, _reg: PhantomData }
    }
}

impl<REG: Writable> Reg<REG> {
    /// A writer that starts from zero, for a write that sets every field.
    pub fn writer(&self) -> (w: W<REG>)
        ensures
            w@ == 0,
    {
        W { bits: 0, _reg: PhantomData }
    }

    /// Stores what the writer holds.
    pub fn write(&mut self, w: W<REG>)
        ensures
            final(self)@ == w@,
    {
        self.value = w.bits;
    }
}

impl<REG: Readable + Writable> Reg<REG> {
    /// A writer that starts from the cell's current bits, for a read-modify-write.
    pub fn modifier(&self) -> (w: W<REG>)
        ensures
            w@ == self@,
    {
        W { bits: self.value, _reg: PhantomData }
    }
}

/// What was read from a register.
pub struct R<REG> {
    bits: u32,
    _reg: PhantomData<REG>,
}

impl<REG> View for R<REG> {
    type V = u32;

    closed spec fn view(&self) -> u32 {
        self.bits
    }
}

impl<REG> R<REG> {
    /// The raw bits.
    pub fn bits(&self) -> (r: u32)
        ensures
            r == self@,
    {
        self.bits
    }
}

/// What will be written to a register.
pub struct W<REG> {
    bits: u32,
    _reg: PhantomData<REG>,
}

impl<REG> View for W<REG> {
    type V = u32;

    closed spec fn view(&self) -> u32 {
        self.bits
    }
}

impl<REG> W<REG> {
    /// Replaces all 32 bits.
    pub fn bits(&mut self, bits: u32) -> (w: &mut Self)
        ensures
            w@ == bits,
            *final(self) == *final(w),
    {
        self.bits = bits;
        self
    }

    /// Replaces the field of `width` bits at `offset`.
    pub fn put_field(&mut self, offset: u32, width: u32, value: u32)
        requires
            1 <= width,
            offset + width <= 32,
        ensures
            final(self)@ == with_field(old(self)@, offset, width, value),
    {
        self.bits = set_field(self.bits, offset, width, value);
    }

    /// Replaces bit `n`.
    pub fn put_bit(&mut self, n: u32, value: bool)
        requires
            n < 32,
        ensures
            final(self)@ == with_bit(old(self)@, n, value),
    {
        self.bits = set_bit(self.bits, n, value);
    }
}

/// The value of a field of several bits.
pub struct FieldReader<FI = u8> {
    bits: FI,
}

impl<FI> View for FieldReader<FI> {
    type V = FI;

    closed spec fn view(&self) -> FI {
        self.bits
    }
}

impl<FI: Copy> FieldReader<FI> {
    /// A reader of the field value `bits`.
    pub fn new(bits: FI) -> (r: Self)
        ensures
            r@ == bits,
    {
        FieldReader { bits }
    }

    /// The field's value.
    pub fn bits(&self) -> (r: FI)
        ensures
            r == self@,
    {
        self.bits
    }
}

/// The value of a field of one bit.
pub struct BitReader {
    bits: bool,
}

impl View for BitReader {
    type V = bool;

    closed spec fn view(&self) -> bool {
        self.bits
    }
}

impl BitReader {
    /// A reader of the bit `bits`.
    pub fn new(bits: bool) -> (r: Self)
        ensures
            r@ == bits,
    {
        BitReader { bits }
    }

    /// The bit's value.
    pub fn bit(&self) -> (r: bool)
        ensures
            r == self@,
    {
        self.bits
    }

    /// True where the bit is 0.
    pub fn bit_is_clear(&self) -> (r: bool)
        ensures
            r == !self@,
    {
        !self.bits
    }

    /// True where the bit is 1.
    pub fn bit_is_set(&self) -> (r: bool)
        ensures
            r == self@,
    {
        self.bits
    }
}

/// Write access to a field of `WI` bits, at bit `o` of the writer `w`.
pub struct FieldWriter<'a, REG, const WI: u8, FI = u8> {
    pub w: &'a mut W<REG>,
    pub o: u8,
    pub _field: PhantomData<FI>,
}

impl<'a, REG, const WI: u8> FieldWriter<'a, REG, WI, u8> {
    /// Writes the low `WI` bits of `value` into the field and hands the writer back.
    pub fn bits(self, value: u8) -> (w: &'a mut W<REG>)
        requires
            1 <= WI,
            self.o + WI <= 32,
        ensures
            w@ == with_field(old(self.w)@, self.o as u32, WI as u32, value as u32),
            *final(w) == *final(self.w),
    {
        let o = self.o;
        let w = self.w;
        w.put_field(o as u32, WI as u32, value as u32);
        w
    }
}

impl<'a, REG, const WI: u8> FieldWriter<'a, REG, WI, u16> {
    /// Writes the low `WI` bits of `value` into the field and hands the writer back.
    pub fn bits(self, value: u16) -> (w: &'a mut W<REG>)
        requires
            1 <= WI,
            self.o + WI <= 32,
        ensures
            w@ == with_field(old(self.w)@, self.o as u32, WI as u32, value as u32),
            *final(w) == *final(self.w),
    {
        let o = self.o;
        let w = self.w;
        w.put_field(o as u32, WI as u32, value as u32);
        w
    }
}

impl<'a, REG, const WI: u8> FieldWriter<'a, REG, WI, u32> {
    /// Writes the low `WI` bits of `value` into the field and hands the writer back.
    pub fn bits(self, value: u32) -> (w: &'a mut W<REG>)
        requires
            1 <= WI,
            self.o + WI <= 32,
        ensures
            w@ == with_field(old(self.w)@, self.o as u32, WI as u32, value),
            *final(w) == *final(self.w),
    {
        let o = self.o;
        let w = self.w;
        w.put_field(o as u32, WI as u32, value);
        w
    }
}

/// Write access to the single bit `o` of the writer `w`.
pub struct BitWriter<'a, REG> {
    pub w: &'a mut W<REG>,
    pub o: u8,
}

impl<'a, REG> BitWriter<'a, REG> {
    /// Writes `value` into the bit and hands the writer back.
    pub fn bit(self, value: bool) -> (w: &'a mut W<REG>)
        requires
            self.o < 32,
        ensures
            w@ == with_bit(old(self.w)@, self.o as u32, value),
            *final(w) == *final(self.w),
    {
        let o = self.o;
        let w = self.w;
        w.put_bit(o as u32, value);
        w
    }

    /// Sets the bit.
    pub fn set_bit(self) -> (w: &'a mut W<REG>)
        requires
            self.o < 32,
        ensures
            w@ == with_bit(old(self.w)@, self.o as u32, true),
            *final(w) == *final(self.w),
    {
        self.bit(true)
    }

    /// Clears the bit.
    pub fn clear_bit(self) -> (w: &'a mut W<REG>)
        requires
            self.o < 32,
        ensures
            w@ == with_bit(old(self.w)@, self.o as u32, false),
            *final(w) == *final(self.w),
    {
        self.bit(false)
    }
}

} // verus!
