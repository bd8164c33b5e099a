//! Driver for the general-purpose I/O block: eight pins, one bit per pin in
//! each of its registers.

use vstd::prelude::*;
use crate::apb::{Peripheral, Peripherals};
use crate::common::{
    check_mask, lemma_clear_bits, lemma_selector_bits_disjoint, lemma_set_bits, lemma_single_bit,
    lemma_with_field, spec_with_field, with_field, Fault, RegisterWrite, U8_MAX,
};

verus! {

/// Base address of the GPIO block.
pub const GPIO: u32 = 0x8000_0000;
/// Pin levels.
pub const GPIO_DATA: u32 = GPIO + 0x04;
/// Pin directions: a set bit makes the pin an output.
pub const GPIO_DATA_DIRECTION: u32 = GPIO + 0x08;
/// Pins whose interrupt is armed.
pub const GPIO_INTERRUPT_ENABLE: u32 = GPIO + 0x0C;
/// Pins that interrupt on a rising edge.
pub const GPIO_POSITIVE_EDGE: u32 = GPIO + 0x10;
/// Pins that interrupt on a falling edge.
pub const GPIO_NEGATIVE_EDGE: u32 = GPIO + 0x14;
/// Writing a set bit acknowledges that pin's interrupt.
pub const GPIO_INTERRUPT_CLEAR: u32 = GPIO + 0x18;
/// Pins with a pending interrupt.
pub const GPIO_INTERRUPT_STATUS: u32 = GPIO + 0x1C;
/// Mask that selects every pin the block has.
pub const GPIOALL_AFTX06: u32 = 0xFF;
/// Mask that selects every bit of a register.
pub const GPIOALL: u32 = 0xFFFFFFFF;

/// One of the eight pins.
#[derive(Clone, Copy, Debug, PartialEq, Eq, Structural)]
pub enum Pin {
    PIN0,
    PIN1,
    PIN2,
    PIN3,
    PIN4,
    PIN5,
    PIN6,
    PIN7,
}

impl Pin {
    /// Position of the pin's bit in every GPIO register.
    pub open spec fn spec_index(self) -> u32 {
        match self {
            Pin::PIN0 => 0,
            Pin::PIN1 => 1,
            Pin::PIN2 => 2,
            Pin::PIN3 => 3,
            Pin::PIN4 => 4,
            Pin::PIN5 => 5,
            Pin::PIN6 => 6,
            Pin::PIN7 => 7,
        }
    }

    /// Position of the pin's bit in every GPIO register.
    #[verifier::when_used_as_spec(spec_index)]
    pub fn index(self) -> (index: u32)
        ensures
            index == self.spec_index(),
    {
        match self {
            Pin::PIN0 => 0,
            Pin::PIN1 => 1,
            Pin::PIN2 => 2,
            Pin::PIN3 => 3,
            Pin::PIN4 => 4,
            Pin::PIN5 => 5,
            Pin::PIN6 => 6,
            Pin::PIN7 => 7,
        }
    }

    /// The mask with only the pin's bit set.
    pub open spec fn spec_mask(self) -> u32 {
        1u32 << self.spec_index()
    }

    /// The mask with only the pin's bit set.
    #[verifier::when_used_as_spec(spec_mask)]
    pub fn mask(self) -> (mask: u32)
        ensures
            mask == self.spec_mask(),
    {
        1u32 << self.index()
    }
}

/// Level driven on an output pin.
#[derive(Clone, Copy, Debug, PartialEq, Eq, Structural)]
pub enum Out {
    Lo,
    Hi,
}

/// The registers of the block, in the order of their addresses.
#[derive(Clone, Copy, Debug, PartialEq, Eq, Structural)]
pub enum Register {
    Data,
    DataDirection,
    InterruptEnable,
    PositiveEdge,
    NegativeEdge,
    InterruptClear,
    InterruptStatus,
}

impl Register {
    /// Distance in bytes of the register from the base of the block.
    pub open spec fn spec_offset(self) -> u32 {
        match self {
            Register::Data => 0x04,
            Register::DataDirection => 0x08,
            Register::InterruptEnable => 0x0C,
            Register::PositiveEdge => 0x10,
            Register::NegativeEdge => 0x14,
            Register::InterruptClear => 0x18,
            Register::InterruptStatus => 0x1C,
        }
    }

    /// Distance in bytes of the register from the base of the block.
    #[verifier::when_used_as_spec(spec_offset)]
    pub fn offset(self) -> (offset: u32)
        ensures
            offset == self.spec_offset(),
    {
        match self {
            Register::Data => 0x04,
            Register::DataDirection => 0x08,
            Register::InterruptEnable => 0x0C,
            Register::PositiveEdge => 0x10,
            Register::NegativeEdge => 0x14,
            Register::InterruptClear => 0x18,
            Register::InterruptStatus => 0x1C,
        }
    }

    /// Physical address of the register.
    pub open spec fn spec_address(self) -> u32 {
        match self {
            Register::Data => GPIO_DATA,
            Register::DataDirection => GPIO_DATA_DIRECTION,
            Register::InterruptEnable => GPIO_INTERRUPT_ENABLE,
            Register::PositiveEdge => GPIO_POSITIVE_EDGE,
            Register::NegativeEdge => GPIO_NEGATIVE_EDGE,
            Register::InterruptClear => GPIO_INTERRUPT_CLEAR,
            Register::InterruptStatus => GPIO_INTERRUPT_STATUS,
        }
    }

    /// Physical address of the register: the base of the block plus the
    /// register's offset.
    #[verifier::when_used_as_spec(spec_address)]
    pub fn address(self) -> (address: u32)
        ensures
            address == self.spec_address(),
            address == GPIO + self.spec_offset(),
    {
        GPIO + self.offset()
    }
}

/// Contents of the seven registers of the block.
#[derive(Clone, Copy, Debug, PartialEq, Eq, Structural)]
pub struct GPIORegisterBlock {
    pub data: u32,
    pub data_dir: u32,
    pub intr_en: u32,
    pub pos_edge: u32,
    pub neg_edge: u32,
    pub intr_clr: u32,
    pub intr_sts: u32,
}

impl GPIORegisterBlock {
    /// Content of `register`.
    pub open spec fn spec_read(&self, register: Register) -> u32 {
        match register {
            Register::Data => self.data,
            Register::DataDirection => self.data_dir,
            Register::InterruptEnable => self.intr_en,
            Register::PositiveEdge => self.pos_edge,
            Register::NegativeEdge => self.neg_edge,
            Register::InterruptClear => self.intr_clr,
            Register::InterruptStatus => self.intr_sts,
        }
    }

    /// The block with `value` in `register` and every other register as it is.
    pub open spec fn spec_write(self, register: Register, value: u32) -> GPIORegisterBlock {
        match register {
            Register::Data => GPIORegisterBlock { data: value, ..self },
            Register::DataDirection => GPIORegisterBlock { data_dir: value, ..self },
            Register::InterruptEnable => GPIORegisterBlock { intr_en: value, ..self },
            Register::PositiveEdge => GPIORegisterBlock { pos_edge: value, ..self },
            Register::NegativeEdge => GPIORegisterBlock { neg_edge: value, ..self },
            Register::InterruptClear => GPIORegisterBlock { intr_clr: value, ..self },
            Register::InterruptStatus => GPIORegisterBlock { intr_sts: value, ..self },
        }
    }

    /// A block with every register at zero.
    pub fn new() -> (block: GPIORegisterBlock)
        ensures
            block == (GPIORegisterBlock {
                data: 0,
                data_dir: 0,
                intr_en: 0,
                pos_edge: 0,
                neg_edge: 0,
                intr_clr: 0,
                intr_sts: 0,
            }),
    {
        GPIORegisterBlock {
            data: 0,
            data_dir: 0,
            intr_en: 0,
            pos_edge: 0,
            neg_edge: 0,
            intr_clr: 0,
            intr_sts: 0,
        }
    }

    /// Reads `register`.
    #[verifier::when_used_as_spec(spec_read)]
    pub fn read(&self, register: Register) -> (value: u32)
        ensures
            value == self.spec_read(register),
    {
        match register {
            Register::Data => self.data,
            Register::DataDirection => self.data_dir,
            Register::InterruptEnable => self.intr_en,
            Register::PositiveEdge => self.pos_edge,
            Register::NegativeEdge => self.neg_edge,
            Register::InterruptClear => self.intr_clr,
            Register::InterruptStatus => self.intr_sts,
        }
    }

    /// Stores `value` in `register` and leaves the other registers alone.
    pub fn write(&mut self, register: Register, value: u32)
        ensures
            *final(self) == old(self).spec_write(register, value),
    {
        match register {
            Register::Data => self.data = value,
            Register::DataDirection => self.data_dir = value,
            Register::InterruptEnable => self.intr_en = value,
            Register::PositiveEdge => self.pos_edge = value,
            Register::NegativeEdge => self.neg_edge = value,
            Register::InterruptClear => self.intr_clr = value,
            Register::InterruptStatus => self.intr_sts = value,
        }
    }
}

/// What a GPIO handle stands for: the contents of the registers, and the
/// writes issued to them that have not been collected yet, oldest first.
#[verifier::ext_equal]
pub struct GPIOView {
    pub registers: GPIORegisterBlock,
    pub writes: Seq<RegisterWrite>,
}

impl GPIOView {
    /// Effect of writing `value` to `register`: the register holds the value
    /// and the write is appended to the record.
    pub open spec fn write(self, register: Register, value: u32) -> GPIOView {
        GPIOView {
            registers: self.registers.spec_write(register, value),
            writes: self.writes.push(RegisterWrite { address: register.spec_address(), value }),
        }
    }

    /// Effect of [`GPIO::enable_input`].
    pub open spec fn enable_input(self, pin: Pin) -> GPIOView {
        self.enable_inputs(pin.spec_mask())
    }

    /// Effect of [`GPIO::enable_inputs`] on a mask in range: the direction
    /// bits of the pins in `pins` are cleared.
    pub open spec fn enable_inputs(self, pins: u32) -> GPIOView {
        self.write(Register::DataDirection, self.registers.data_dir & !pins)
    }

    /// Effect of [`GPIO::enable_output`].
    pub open spec fn enable_output(self, pin: Pin) -> GPIOView {
        self.enable_outputs(pin.spec_mask())
    }

    /// Effect of [`GPIO::enable_outputs`] on a mask in range: the direction
    /// bits of the pins in `pins` are set.
    pub open spec fn enable_outputs(self, pins: u32) -> GPIOView {
        self.write(Register::DataDirection, self.registers.data_dir | pins)
    }

    /// Effect of [`GPIO::set_output`]: the pin's data bit is set for `Out::Hi`
    /// and cleared for `Out::Lo`.
    pub open spec fn set_output(self, pin: Pin, pin_output: Out) -> GPIOView {
        self.write(
            Register::Data,
            match pin_output {
                Out::Lo => self.registers.data & !pin.spec_mask(),
                Out::Hi => self.registers.data | pin.spec_mask(),
            },
        )
    }

    /// Effect of [`GPIO::set_outputs`] on masks in range: the data bits of
    /// the pins in `pins` take the values they have in `pin_outputs`.
    pub open spec fn set_outputs(self, pins: u32, pin_outputs: u32) -> GPIOView {
        self.write(Register::Data, spec_with_field(self.registers.data, pins, pin_outputs))
    }

    /// Effect of [`GPIO::enable_interrupt_posedge`].
    pub open spec fn enable_interrupt_posedge(self, pin: Pin) -> GPIOView {
        self.enable_interrupts_posedge(pin.spec_mask())
    }

    /// Effect of [`GPIO::enable_interrupts_posedge`] on a mask in range. The
    /// edge is selected first, falling off and rising on, and the interrupt is
    /// enabled last.
    pub open spec fn enable_interrupts_posedge(self, pins: u32) -> GPIOView {
        self.write(Register::NegativeEdge, self.registers.neg_edge & !pins).write(
            Register::PositiveEdge,
            self.registers.pos_edge | pins,
        ).write(Register::InterruptEnable, self.registers.intr_en | pins)
    }

    /// Effect of [`GPIO::disable_interrupt_posedge`].
    pub open spec fn disable_interrupt_posedge(self, pin: Pin) -> GPIOView {
        self.disable_interrupts_posedge(pin.spec_mask())
    }

    /// Effect of [`GPIO::disable_interrupts_posedge`] on a mask in range. The
    /// interrupt is disabled first, the rising edge deselected after it.
    pub open spec fn disable_interrupts_posedge(self, pins: u32) -> GPIOView {
        self.write(Register::InterruptEnable, self.registers.intr_en & !pins).write(
            Register::PositiveEdge,
            self.registers.pos_edge & !pins,
        )
    }

    /// Effect of [`GPIO::clear_interrupt`].
    pub open spec fn clear_interrupt(self, pin: Pin) -> GPIOView {
        self.clear_interrupts(pin.spec_mask())
    }

    /// Effect of [`GPIO::clear_interrupts`] on a mask in range: the bits of
    /// the pins in `pins` are set in the interrupt-clear register.
    pub open spec fn clear_interrupts(self, pins: u32) -> GPIOView {
        self.write(Register::InterruptClear, self.registers.intr_clr | pins)
    }
}

/// Handle on the GPIO block.
pub struct GPIO {
    p: GPIORegisterBlock,
    writes: Vec<RegisterWrite>,
}

impl View for GPIO {
    type V = GPIOView;

    closed spec fn view(&self) -> GPIOView {
        GPIOView { registers: self.p, writes: self.writes@ }
    }
}

impl GPIO {
    /// Constructs the handle on the GPIO block, with `registers` as the
    /// contents of the block at that moment.
    ///
    /// Only the first construction through a given registry succeeds.
    pub fn new(peripherals: &mut Peripherals, registers: GPIORegisterBlock) -> (result: Result<
        GPIO,
        Fault,
    >)
        ensures
            final(peripherals)@ == old(peripherals)@.construct(Peripheral::Gpio),
            old(peripherals)@.constructed(Peripheral::Gpio) ==> result is Err && result->Err_0
                == Fault::DuplicateConstruction,
            !old(peripherals)@.constructed(Peripheral::Gpio) ==> result is Ok && result->Ok_0@
                == (GPIOView { registers, writes: Seq::empty() }),
    {
        if peripherals.claim(Peripheral::Gpio) {
            Ok(GPIO { p: registers, writes: Vec::new() })
        } else {
            Err(Fault::DuplicateConstruction)
        }
    }

    /// The contents of the registers.
    pub fn registers(&self) -> (registers: GPIORegisterBlock)
        ensures
            registers == self@.registers,
    {
        self.p
    }

    /// Replaces the contents of the registers by `registers`, as read from the
    /// device. The record of writes is left as it is.
    pub fn refresh(&mut self, registers: GPIORegisterBlock)
        ensures
            final(self)@ == (GPIOView { registers, writes: old(self)@.writes }),
    {
        self.p = registers;
    }

    /// The writes issued since they were last collected, oldest first.
    pub fn pending_writes(&self) -> (writes: &Vec<RegisterWrite>)
        ensures
            writes@ == self@.writes,
    {
        &self.writes
    }

    /// Hands over the writes issued since they were last collected, oldest
    /// first, and starts a new record.
    pub fn take_writes(&mut self) -> (writes: Vec<RegisterWrite>)
        ensures
            writes@ == old(self)@.writes,
            final(self)@ == (GPIOView { registers: old(self)@.registers, writes: Seq::empty() }),
    {
        let mut writes: Vec<RegisterWrite> = Vec::new();
        std::mem::swap(&mut writes, &mut self.writes);
        writes
    }

    /// Writes `value` to `register` and records the write.
    fn store(&mut self, register: Register, value: u32)
        ensures
            final(self)@ == old(self)@.write(register, value),
    {
        self.p.write(register, value);
        self.writes.push(RegisterWrite { address: register.address(), value });
    }

    /// Makes `pin` an input.
    pub fn enable_input(&mut self, pin: Pin)
        ensures
            final(self)@ == old(self)@.enable_input(pin),
    {
        let curr: u32 = self.p.read(Register::DataDirection) & !pin.mask();
        self.store(Register::DataDirection, curr);
    }

    /// Makes every pin in `pins` an input.
    pub fn enable_inputs(&mut self, pins: u32) -> (result: Result<(), Fault>)
        ensures
            pins > U8_MAX ==> result == Err::<(), Fault>(Fault::MaskOutOfRange) && final(self)@
                == old(self)@,
            pins <= U8_MAX ==> result == Ok::<(), Fault>(()) && final(self)@ == old(self)@.enable_inputs(pins),
    {
        check_mask(pins)?;
        let curr: u32 = self.p.read(Register::DataDirection) & !pins;
        self.store(Register::DataDirection, curr);
        Ok(())
    }

    /// The level of `pin`, in place: the pin's mask if the pin is high, zero
    /// if it is low.
    pub fn read_input(&self, pin: Pin) -> (bits: u32)
        ensures
            bits == self@.registers.data & pin.spec_mask(),
            bits == 0 || bits == pin.spec_mask(),
    {
        proof {
            lemma_single_bit(self.p.data, pin.spec_index());
        }
        self.p.read(Register::Data) & pin.mask()
    }

    /// The levels of the pins in `pins`, each in its own bit.
    pub fn read_inputs(&self, pins: u32) -> (result: Result<u32, Fault>)
        ensures
            pins > U8_MAX ==> result == Err::<u32, Fault>(Fault::MaskOutOfRange),
            pins <= U8_MAX ==> result == Ok::<u32, Fault>(self@.registers.data & pins),
    {
        check_mask(pins)?;
        Ok(self.p.read(Register::Data) & pins)
    }

    /// Makes `pin` an output.
    pub fn enable_output(&mut self, pin: Pin)
        ensures
            final(self)@ == old(self)@.enable_output(pin),
    {
        let curr: u32 = self.p.read(Register::DataDirection) | pin.mask();
        self.store(Register::DataDirection, curr);
    }

    /// Makes every pin in `pins` an output.
    pub fn enable_outputs(&mut self, pins: u32) -> (result: Result<(), Fault>)
        ensures
            pins > U8_MAX ==> result == Err::<(), Fault>(Fault::MaskOutOfRange) && final(self)@
                == old(self)@,
            pins <= U8_MAX ==> result == Ok::<(), Fault>(()) && final(self)@ == old(self)@.enable_outputs(pins),
    {
        check_mask(pins)?;
        let curr: u32 = self.p.read(Register::DataDirection) | pins;
        self.store(Register::DataDirection, curr);
        Ok(())
    }

    /// Drives `pin` to the level `pin_output`.
    pub fn set_output(&mut self, pin: Pin, pin_output: Out)
        ensures
            final(self)@ == old(self)@.set_output(pin, pin_output),
    {
        let index: u32 = pin.index();
        let mask: u32 = pin.mask();
        let level: u32 = match pin_output {
            Out::Lo => 0,
            Out::Hi => 1,
        };
        let curr: u32 = with_field(self.p.read(Register::Data), mask, level << index);
        proof {
            lemma_level_in_place(self.p.data, index, level);
        }
        self.store(Register::Data, curr);
    }

    /// Drives every pin in `pins` to the level its bit has in `pin_outputs`.
    pub fn set_outputs(&mut self, pins: u32, pin_outputs: u32) -> (result: Result<(), Fault>)
        ensures
            pins > U8_MAX || pin_outputs > U8_MAX ==> result == Err::<(), Fault>(
                Fault::MaskOutOfRange,
            ) && final(self)@ == old(self)@,
            pins <= U8_MAX && pin_outputs <= U8_MAX ==> result == Ok::<(), Fault>(()) && final(self)@ == old(self)@.set_outputs(pins, pin_outputs),
    {
        check_mask(pins)?;
        check_mask(pin_outputs)?;
        let curr: u32 = with_field(self.p.read(Register::Data), pins, pin_outputs);
        self.store(Register::Data, curr);
        Ok(())
    }

    /// Arms `pin` to interrupt on a rising edge.
    pub fn enable_interrupt_posedge(&mut self, pin: Pin)
        ensures
            final(self)@ == old(self)@.enable_interrupt_posedge(pin),
    {
        let mask: u32 = pin.mask();
        let mut curr: u32 = self.p.read(Register::NegativeEdge) & !mask;
        self.store(Register::NegativeEdge, curr);
        curr = self.p.read(Register::PositiveEdge) | mask;
        self.store(Register::PositiveEdge, curr);
        curr = self.p.read(Register::InterruptEnable) | mask;
        self.store(Register::InterruptEnable, curr);
    }

    /// Arms every pin in `pins` to interrupt on a rising edge.
    pub fn enable_interrupts_posedge(&mut self, pins: u32) -> (result: Result<(), Fault>)
        ensures
            pins > U8_MAX ==> result == Err::<(), Fault>(Fault::MaskOutOfRange) && final(self)@
                == old(self)@,
            pins <= U8_MAX ==> result == Ok::<(), Fault>(()) && final(self)@ == old(self)@.enable_interrupts_posedge(pins),
    {
        check_mask(pins)?;
        let mut curr: u32 = self.p.read(Register::NegativeEdge) & !pins;
        self.store(Register::NegativeEdge, curr);
        curr = self.p.read(Register::PositiveEdge) | pins;
        self.store(Register::PositiveEdge, curr);
        curr = self.p.read(Register::InterruptEnable) | pins;
        self.store(Register::InterruptEnable, curr);
        Ok(())
    }

    /// Disarms the rising-edge interrupt of `pin`.
    pub fn disable_interrupt_posedge(&mut self, pin: Pin)
        ensures
            final(self)@ == old(self)@.disable_interrupt_posedge(pin),
    {
        let mask: u32 = pin.mask();
        let mut curr: u32 = self.p.read(Register::InterruptEnable) & !mask;
        self.store(Register::InterruptEnable, curr);
        curr = self.p.read(Register::PositiveEdge) & !mask;
        self.store(Register::PositiveEdge, curr);
    }

    /// Disarms the rising-edge interrupt of every pin in `pins`.
    pub fn disable_interrupts_posedge(&mut self, pins: u32) -> (result: Result<(), Fault>)
        ensures
            pins > U8_MAX ==> result == Err::<(), Fault>(Fault::MaskOutOfRange) && final(self)@
                == old(self)@,
            pins <= U8_MAX ==> result == Ok::<(), Fault>(()) && final(self)@ == old(self)@.disable_interrupts_posedge(pins),
    {
        check_mask(pins)?;
        let mut curr: u32 = self.p.read(Register::InterruptEnable) & !pins;
        self.store(Register::InterruptEnable, curr);
        curr = self.p.read(Register::PositiveEdge) & !pins;
        self.store(Register::PositiveEdge, curr);
        Ok(())
    }

    /// Acknowledges the interrupt of `pin`.
    pub fn clear_interrupt(&mut self, pin: Pin)
        ensures
            final(self)@ == old(self)@.clear_interrupt(pin),
    {
        let curr: u32 = self.p.read(Register::InterruptClear) | pin.mask();
        self.store(Register::InterruptClear, curr);
    }

    /// Acknowledges the interrupts of every pin in `pins`.
    pub fn clear_interrupts(&mut self, pins: u32) -> (result: Result<(), Fault>)
        ensures
            pins > U8_MAX ==> result == Err::<(), Fault>(Fault::MaskOutOfRange) && final(self)@
                == old(self)@,
            pins <= U8_MAX ==> result == Ok::<(), Fault>(()) && final(self)@ == old(self)@.clear_interrupts(pins),
    {
        check_mask(pins)?;
        let curr: u32 = self.p.read(Register::InterruptClear) | pins;
        self.store(Register::InterruptClear, curr);
        Ok(())
    }

    /// Whether `pin` has an interrupt pending, in place: the pin's mask if it
    /// has, zero if not.
    pub fn interrupt_status(&self, pin: Pin) -> (bits: u32)
        ensures
            bits == self@.registers.intr_sts & pin.spec_mask(),
            bits == 0 || bits == pin.spec_mask(),
    {
        proof {
            lemma_single_bit(self.p.intr_sts, pin.spec_index());
        }
        self.p.read(Register::InterruptStatus) & pin.mask()
    }

    /// The pins in `pins` that have an interrupt pending.
    pub fn interrupts_status(&self, pins: u32) -> (result: Result<u32, Fault>)
        ensures
            pins > U8_MAX ==> result == Err::<u32, Fault>(Fault::MaskOutOfRange),
            pins <= U8_MAX ==> result == Ok::<u32, Fault>(self@.registers.intr_sts & pins),
    {
        check_mask(pins)?;
        Ok(self.p.read(Register::InterruptStatus) & pins)
    }
}

/// A level shifted to a pin's position and stored in the pin's bit sets the
/// bit when the level is one and clears it when the level is zero.
proof fn lemma_level_in_place(data: u32, index: u32, level: u32)
    by (bit_vector)
    requires
        index < 8,
        level == 0 || level == 1,
    ensures
        level == 0 ==> spec_with_field(data, 1u32 << index, level << index) == data & !(1u32
            << index),
        level == 1 ==> spec_with_field(data, 1u32 << index, level << index) == data | (1u32
            << index),
{
}

/// The registers lie one word apart from `GPIO_DATA` to
/// `GPIO_INTERRUPT_STATUS`, each at the base of the block plus its offset, and
/// no two of them share an address.
pub proof fn lemma_register_map(register: Register, other: Register)
    ensures
        register.spec_address() == GPIO + register.spec_offset(),
        GPIO_DATA <= register.spec_address() <= GPIO_INTERRUPT_STATUS,
        register.spec_offset() % 4 == 0,
        register != other ==> register.spec_address() != other.spec_address(),
{
}

/// A register holds what was last written to it, and a write to one register
/// changes no other.
pub proof fn lemma_read_after_write(
    block: GPIORegisterBlock,
    register: Register,
    value: u32,
    other: Register,
)
    ensures
        block.spec_write(register, value).spec_read(register) == value,
        other != register ==> block.spec_write(register, value).spec_read(other)
            == block.spec_read(other),
{
}

/// Each pin's mask is the bit at the pin's number.
pub proof fn lemma_pin_masks()
    ensures
        Pin::PIN0.spec_mask() == 0x01,
        Pin::PIN1.spec_mask() == 0x02,
        Pin::PIN2.spec_mask() == 0x04,
        Pin::PIN3.spec_mask() == 0x08,
        Pin::PIN4.spec_mask() == 0x10,
        Pin::PIN5.spec_mask() == 0x20,
        Pin::PIN6.spec_mask() == 0x40,
        Pin::PIN7.spec_mask() == 0x80,
{
    assert(1u32 << 0u32 == 0x01 && 1u32 << 1u32 == 0x02 && 1u32 << 2u32 == 0x04 && 1u32 << 3u32
        == 0x08 && 1u32 << 4u32 == 0x10 && 1u32 << 5u32 == 0x20 && 1u32 << 6u32 == 0x40 && 1u32
        << 7u32 == 0x80) by (bit_vector);
}

/// Different pins have different bits.
pub proof fn lemma_pins_disjoint(pin: Pin, other: Pin)
    requires
        pin != other,
    ensures
        pin.spec_mask() & other.spec_mask() == 0,
{
    lemma_selector_bits_disjoint(pin.spec_index(), other.spec_index());
}

/// Making the pins of a mask outputs sets exactly their direction bits, and
/// making them inputs clears exactly their direction bits: the direction of
/// the other pins, and the other registers, stay as they were.
pub proof fn lemma_enable_direction(before: GPIOView, pins: u32)
    ensures
        ({
            let outputs = before.enable_outputs(pins).registers;
            let inputs = before.enable_inputs(pins).registers;
            &&& outputs.data_dir & pins == pins
            &&& inputs.data_dir & pins == 0
            &&& outputs.data_dir & !pins == before.registers.data_dir & !pins
            &&& inputs.data_dir & !pins == before.registers.data_dir & !pins
            &&& outputs == (GPIORegisterBlock { data_dir: outputs.data_dir, ..before.registers })
            &&& inputs == (GPIORegisterBlock { data_dir: inputs.data_dir, ..before.registers })
        }),
{
    lemma_set_bits(before.registers.data_dir, pins);
    lemma_clear_bits(before.registers.data_dir, pins);
}

/// Making one pin an output and then another pin an input leaves the first
/// pin's direction bit set, the second pin's direction bit clear, and the
/// direction of every other pin, like every other register, as it was.
pub proof fn lemma_output_then_input(before: GPIOView, output: Pin, input: Pin)
    requires
        output != input,
    ensures
        ({
            let after = before.enable_output(output).enable_input(input);
            let direction: u32 = after.registers.data_dir;
            let others: u32 = !(output.spec_mask() | input.spec_mask());
            &&& direction & output.spec_mask() == output.spec_mask()
            &&& direction & input.spec_mask() == 0
            &&& direction & others == before.registers.data_dir & others
            &&& after.registers == (GPIORegisterBlock { data_dir: direction, ..before.registers })
        }),
{
    lemma_pins_disjoint(output, input);
    lemma_set_then_clear(before.registers.data_dir, output.spec_mask(), input.spec_mask());
}

/// Making the pins of a mask outputs and then inputs again restores the
/// direction register, provided that they were inputs to begin with.
pub proof fn lemma_outputs_then_inputs(before: GPIOView, pins: u32)
    requires
        pins <= U8_MAX,
        before.registers.data_dir & pins == 0,
    ensures
        before.enable_outputs(pins).enable_inputs(pins).registers == before.registers,
{
    let direction: u32 = before.registers.data_dir;
    assert((direction | pins) & !pins == direction) by (bit_vector)
        requires
            direction & pins == 0,
    ;
}

/// Driving a pin sets exactly its data bit for `Out::Hi` and clears exactly
/// its data bit for `Out::Lo`: the data bits of the other pins, and the other
/// registers, stay as they were.
pub proof fn lemma_set_output(before: GPIOView, pin: Pin, pin_output: Out)
    ensures
        ({
            let after = before.set_output(pin, pin_output);
            let data: u32 = after.registers.data;
            &&& pin_output == Out::Hi ==> data & pin.spec_mask() == pin.spec_mask()
            &&& pin_output == Out::Lo ==> data & pin.spec_mask() == 0
            &&& data & !pin.spec_mask() == before.registers.data & !pin.spec_mask()
            &&& after.registers == (GPIORegisterBlock { data, ..before.registers })
        }),
{
    lemma_set_bits(before.registers.data, pin.spec_mask());
    lemma_clear_bits(before.registers.data, pin.spec_mask());
}

/// Driving the pins of a mask gives each of them the level of its bit in the
/// levels, and leaves the data bits of the other pins as they were.
pub proof fn lemma_set_outputs(before: GPIOView, pins: u32, pin_outputs: u32)
    ensures
        ({
            let after = before.set_outputs(pins, pin_outputs);
            let data: u32 = after.registers.data;
            &&& data & pins == pin_outputs & pins
            &&& data & !pins == before.registers.data & !pins
            &&& after.registers == (GPIORegisterBlock { data, ..before.registers })
        }),
{
    lemma_with_field(before.registers.data, pins, pin_outputs);
}

/// Arming a pin for rising edges leaves its falling-edge bit clear, its
/// rising-edge bit set and its interrupt-enable bit set, leaves the bits of
/// every other pin and every other register as they were, and writes the
/// interrupt enable last.
pub proof fn lemma_enable_interrupt_posedge(before: GPIOView, pin: Pin)
    ensures
        ({
            let after = before.enable_interrupt_posedge(pin);
            let mask: u32 = pin.spec_mask();
            &&& after.registers.neg_edge & mask == 0
            &&& after.registers.pos_edge & mask == mask
            &&& after.registers.intr_en & mask == mask
            &&& after.registers.neg_edge & !mask == before.registers.neg_edge & !mask
            &&& after.registers.pos_edge & !mask == before.registers.pos_edge & !mask
            &&& after.registers.intr_en & !mask == before.registers.intr_en & !mask
            &&& after.registers == (GPIORegisterBlock {
                neg_edge: after.registers.neg_edge,
                pos_edge: after.registers.pos_edge,
                intr_en: after.registers.intr_en,
                ..before.registers
            })
            &&& after.writes == before.writes.push(
                RegisterWrite { address: GPIO_NEGATIVE_EDGE, value: after.registers.neg_edge },
            ).push(
                RegisterWrite { address: GPIO_POSITIVE_EDGE, value: after.registers.pos_edge },
            ).push(
                RegisterWrite { address: GPIO_INTERRUPT_ENABLE, value: after.registers.intr_en },
            )
        }),
{
    let mask: u32 = pin.spec_mask();
    lemma_clear_bits(before.registers.neg_edge, mask);
    lemma_set_bits(before.registers.pos_edge, mask);
    lemma_set_bits(before.registers.intr_en, mask);
}

/// Disarming a pin leaves its interrupt-enable bit and its rising-edge bit
/// clear, leaves the bits of every other pin and every other register as they
/// were, and writes the interrupt enable first.
pub proof fn lemma_disable_interrupt_posedge(before: GPIOView, pin: Pin)
    ensures
        ({
            let after = before.disable_interrupt_posedge(pin);
            let mask: u32 = pin.spec_mask();
            &&& after.registers.intr_en & mask == 0
            &&& after.registers.pos_edge & mask == 0
            &&& after.registers.intr_en & !mask == before.registers.intr_en & !mask
            &&& after.registers.pos_edge & !mask == before.registers.pos_edge & !mask
            &&& after.registers == (GPIORegisterBlock {
                pos_edge: after.registers.pos_edge,
                intr_en: after.registers.intr_en,
                ..before.registers
            })
            &&& after.writes == before.writes.push(
                RegisterWrite { address: GPIO_INTERRUPT_ENABLE, value: after.registers.intr_en },
            ).push(
                RegisterWrite { address: GPIO_POSITIVE_EDGE, value: after.registers.pos_edge },
            )
        }),
{
    let mask: u32 = pin.spec_mask();
    lemma_clear_bits(before.registers.intr_en, mask);
    lemma_clear_bits(before.registers.pos_edge, mask);
}

/// Setting the bits of one mask and then clearing those of a disjoint mask
/// leaves the first set, the second clear, and the rest untouched.
proof fn lemma_set_then_clear(current: u32, set: u32, clear: u32)
    by (bit_vector)
    requires
        set & clear == 0,
    ensures
        ((current | set) & !clear) & set == set,
        ((current | set) & !clear) & clear == 0,
        ((current | set) & !clear) & !(set | clear) == current & !(set | clear),
{
}

} // verus!
