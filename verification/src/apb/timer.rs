//! Driver for the timer/counter block: a free-running counter with eight
//! capture/compare channels.

use vstd::prelude::*;
use crate::apb::{Peripheral, Peripherals};
use crate::common::{
    check_mask, lemma_clear_bits, lemma_field_untouched, lemma_mask_in_range, lemma_selector_bit,
    lemma_selector_bits_disjoint, lemma_set_bits, lemma_with_field, spec_with_field, with_field,
    Fault, RegisterWrite, U8_MAX,
};

verus! {

/// Base address of the timer block.
pub const TIM: u32 = 0x8002_0000;
/// Input/output select.
pub const TIM_IOS: u32 = TIM + 0x00;
/// Capture flags.
pub const TIM_TCF: u32 = TIM + 0x04;
/// Free-running counter.
pub const TIM_TCNT: u32 = TIM + 0x08;
/// Control.
pub const TIM_TSCR: u32 = TIM + 0x0C;
/// Overflow flags, one per channel.
pub const TIM_TOV: u32 = TIM + 0x10;
/// Channel control: two bits per channel in each half-word, the capture
/// edges in the low one and the output actions in the high one.
pub const TIM_TCR: u32 = TIM + 0x14;
/// Interrupt enables, one per channel.
pub const TIM_TIE: u32 = TIM + 0x18;
/// Prescaler and reset control.
pub const TIM_TSCR2: u32 = TIM + 0x1C;
/// Interrupt flags of the channels.
pub const TIM_FLG1: u32 = TIM + 0x20;
/// Interrupt flag of the counter overflow.
pub const TIM_FLG2: u32 = TIM + 0x24;
/// The capture flags that exist.
pub const TIM_TCF_MASK: u32 = 0xFF;
/// Run bit of the control register.
pub const TIM_TSCR_ENABLE: u32 = 1 << 7;
/// Every bit of the control register but the run bit.
pub const TIM_TSCR_DISABLE: u32 = !(1 << 7);
/// The overflow flags that exist.
pub const TIM_TOV_MASK: u32 = 0xFF;
/// Capture edge, for channel 0: none. The four edges are the values of a
/// two-bit field: the low bit selects the falling edge, the high bit the
/// rising edge.
pub const TIM_TCR_EDGE_DISABLE: u32 = 0b00;
/// Capture edge, for channel 0: falling.
pub const TIM_TCR_EDGE_FALLING: u32 = 0b01;
/// Capture edge, for channel 0: rising.
pub const TIM_TCR_EDGE_RISING: u32 = 0b10;
/// Capture edge, for channel 0: both.
pub const TIM_TCR_EDGE_EITHER: u32 = 0b11;
/// Output action, for channel 0: leave the pin alone. The four actions are
/// the same four patterns as the capture edges, in the high half-word.
pub const TIM_TCR_OUTPUT_DISCONNECT: u32 = 0b00 << 16;
/// Output action, for channel 0: toggle the pin.
pub const TIM_TCR_OUTPUT_TOGGLE: u32 = 0b01 << 16;
/// Output action, for channel 0: drive the pin low.
pub const TIM_TCR_OUTPUT_CLEAR: u32 = 0b10 << 16;
/// Output action, for channel 0: drive the pin high.
pub const TIM_TCR_OUTPUT_SET: u32 = 0b11 << 16;
/// Interrupt enable, for channel 0: on.
pub const TIM_TIE_ENABLE: u32 = 1;
/// Interrupt enable, for channel 0: off.
pub const TIM_TIE_DISABLE: u32 = !1;
/// Overflow-interrupt bit of the prescaler register.
pub const TIM_TSCR2_TOI_ENABLE: u32 = 1 << 7;
/// Every bit of the prescaler register but the overflow-interrupt bit.
pub const TIM_TSCR2_TOI_DISABLE: u32 = !(1 << 7);
/// Counter-reset bit of the prescaler register.
pub const TIM_TSCR2_TCRE_ENABLE: u32 = 1 << 6;
/// Every bit of the prescaler register but the counter-reset bit.
pub const TIM_TSCR2_TCRE_DISABLE: u32 = !(1 << 6);
/// The prescaler field of the prescaler register.
pub const TIM_TSCR2_PRE_MASK: u32 = 0x7;
/// Prescaler code: clock divided by 1.
pub const TIM_TSCR2_PRE_DIV1: u32 = 0;
/// Prescaler code: clock divided by 2.
pub const TIM_TSCR2_PRE_DIV2: u32 = 1;
/// Prescaler code: clock divided by 4.
pub const TIM_TSCR2_PRE_DIV4: u32 = 2;
/// Prescaler code: clock divided by 8.
pub const TIM_TSCR2_PRE_DIV8: u32 = 3;
/// Prescaler code: clock divided by 16.
pub const TIM_TSCR2_PRE_DIV16: u32 = 4;
/// Prescaler code: clock divided by 32.
pub const TIM_TSCR2_PRE_DIV32: u32 = 5;
/// Prescaler code: clock divided by 64.
pub const TIM_TSCR2_PRE_DIV64: u32 = 6;
/// Prescaler code: clock divided by 128.
pub const TIM_TSCR2_PRE_DIV128: u32 = 7;
/// The channel interrupt flags that exist.
pub const TIM_FLG1_MASK: u32 = 0xFF;
/// Bit that acknowledges the counter-overflow interrupt.
pub const TIM_FLG2_CLEAR: u32 = 1 << 7;

/// One of the eight capture/compare channels.
#[derive(Clone, Copy, Debug, PartialEq, Eq, Structural)]
pub enum Channel {
    CH0,
    CH1,
    CH2,
    CH3,
    CH4,
    CH5,
    CH6,
    CH7,
}

impl Channel {
    /// Number of the channel.
    pub open spec fn spec_index(self) -> u32 {
        match self {
            Channel::CH0 => 0,
            Channel::CH1 => 1,
            Channel::CH2 => 2,
            Channel::CH3 => 3,
            Channel::CH4 => 4,
            Channel::CH5 => 5,
            Channel::CH6 => 6,
            Channel::CH7 => 7,
        }
    }

    /// Number of the channel.
    #[verifier::when_used_as_spec(spec_index)]
    pub fn index(self) -> (index: u32)
        ensures
            index == self.spec_index(),
    {
        match self {
            Channel::CH0 => 0,
            Channel::CH1 => 1,
            Channel::CH2 => 2,
            Channel::CH3 => 3,
            Channel::CH4 => 4,
            Channel::CH5 => 5,
            Channel::CH6 => 6,
            Channel::CH7 => 7,
        }
    }

    /// The channel's bit in the registers that hold one bit per channel.
    pub open spec fn spec_mask(self) -> u32 {
        1u32 << self.spec_index()
    }

    /// The channel's bit in the registers that hold one bit per channel.
    #[verifier::when_used_as_spec(spec_mask)]
    pub fn mask(self) -> (mask: u32)
        ensures
            mask == self.spec_mask(),
    {
        1u32 << self.index()
    }

    /// Position of the channel's two-bit field within each half-word of the
    /// channel-control register: twice the channel's number.
    pub open spec fn spec_shift(self) -> u32 {
        (2 * self.spec_index()) as u32
    }

    /// Position of the channel's two-bit field within each half-word of the
    /// channel-control register: twice the channel's number.
    #[verifier::when_used_as_spec(spec_shift)]
    pub fn shift(self) -> (shift: u32)
        ensures
            shift == self.spec_shift(),
    {
        2 * self.index()
    }

    /// The channel's capture-edge field in the channel-control register: the
    /// two bits at the channel's position in the low half-word.
    pub open spec fn spec_edge_mask(self) -> u32 {
        TIM_TCR_EDGE_EITHER << self.spec_shift()
    }

    /// The channel's capture-edge field in the channel-control register: the
    /// two bits at the channel's position in the low half-word.
    #[verifier::when_used_as_spec(spec_edge_mask)]
    pub fn edge_mask(self) -> (mask: u32)
        ensures
            mask == self.spec_edge_mask(),
    {
        TIM_TCR_EDGE_EITHER << self.shift()
    }

    /// The channel's output-action field in the channel-control register:
    /// the two bits at the channel's position in the high half-word.
    pub open spec fn spec_output_mask(self) -> u32 {
        TIM_TCR_OUTPUT_SET << self.spec_shift()
    }

    /// The channel's output-action field in the channel-control register:
    /// the two bits at the channel's position in the high half-word.
    #[verifier::when_used_as_spec(spec_output_mask)]
    pub fn output_mask(self) -> (mask: u32)
        ensures
            mask == self.spec_output_mask(),
    {
        TIM_TCR_OUTPUT_SET << self.shift()
    }
}

/// Clock divider of the counter.
#[derive(Clone, Copy, Debug, PartialEq, Eq, Structural)]
pub enum Pre {
    DIV1,
    DIV2,
    DIV4,
    DIV8,
    DIV16,
    DIV32,
    DIV64,
    DIV128,
}

impl Pre {
    /// Code of the divider in the prescaler field.
    pub open spec fn spec_code(self) -> u32 {
        match self {
            Pre::DIV1 => TIM_TSCR2_PRE_DIV1,
            Pre::DIV2 => TIM_TSCR2_PRE_DIV2,
            Pre::DIV4 => TIM_TSCR2_PRE_DIV4,
            Pre::DIV8 => TIM_TSCR2_PRE_DIV8,
            Pre::DIV16 => TIM_TSCR2_PRE_DIV16,
            Pre::DIV32 => TIM_TSCR2_PRE_DIV32,
            Pre::DIV64 => TIM_TSCR2_PRE_DIV64,
            Pre::DIV128 => TIM_TSCR2_PRE_DIV128,
        }
    }

    /// Code of the divider in the prescaler field.
    #[verifier::when_used_as_spec(spec_code)]
    pub fn code(self) -> (code: u32)
        ensures
            code == self.spec_code(),
    {
        match self {
            Pre::DIV1 => TIM_TSCR2_PRE_DIV1,
            Pre::DIV2 => TIM_TSCR2_PRE_DIV2,
            Pre::DIV4 => TIM_TSCR2_PRE_DIV4,
            Pre::DIV8 => TIM_TSCR2_PRE_DIV8,
            Pre::DIV16 => TIM_TSCR2_PRE_DIV16,
            Pre::DIV32 => TIM_TSCR2_PRE_DIV32,
            Pre::DIV64 => TIM_TSCR2_PRE_DIV64,
            Pre::DIV128 => TIM_TSCR2_PRE_DIV128,
        }
    }
}

/// The registers of the block, in the order of their addresses.
#[derive(Clone, Copy, Debug, PartialEq, Eq, Structural)]
pub enum Register {
    /// Input/output select.
    IOS,
    /// Capture flags.
    TCF,
    /// Free-running counter.
    TCNT,
    /// Control.
    TSCR,
    /// Overflow flags.
    TOV,
    /// Channel control.
    TCR,
    /// Interrupt enables.
    TIE,
    /// Prescaler and reset control.
    TSCR2,
    /// Interrupt flags of the channels.
    TFLG1,
    /// Interrupt flag of the counter overflow.
    TFLG2,
    /// Compare/capture value of a channel.
    TC(Channel),
    /// Reload value.
    RLV,
}

impl Register {
    /// Distance in bytes of the register from the base of the block.
    pub open spec fn spec_offset(self) -> u32 {
        match self {
            Register::IOS => 0x00,
            Register::TCF => 0x04,
            Register::TCNT => 0x08,
            Register::TSCR => 0x0C,
            Register::TOV => 0x10,
            Register::TCR => 0x14,
            Register::TIE => 0x18,
            Register::TSCR2 => 0x1C,
            Register::TFLG1 => 0x20,
            Register::TFLG2 => 0x24,
            Register::TC(channel) => (0x28 + 4 * channel.spec_index()) as u32,
            Register::RLV => 0x48,
        }
    }

    /// Distance in bytes of the register from the base of the block.
    #[verifier::when_used_as_spec(spec_offset)]
    pub fn offset(self) -> (offset: u32)
        ensures
            offset == self.spec_offset(),
    {
        match self {
            Register::IOS => 0x00,
            Register::TCF => 0x04,
            Register::TCNT => 0x08,
            Register::TSCR => 0x0C,
            Register::TOV => 0x10,
            Register::TCR => 0x14,
            Register::TIE => 0x18,
            Register::TSCR2 => 0x1C,
            Register::TFLG1 => 0x20,
            Register::TFLG2 => 0x24,
            Register::TC(channel) => 0x28 + 4 * channel.index(),
            Register::RLV => 0x48,
        }
    }

    /// Physical address of the register.
    pub open spec fn spec_address(self) -> u32 {
        (TIM + self.spec_offset()) as u32
    }

    /// Physical address of the register: the base of the block plus the
    /// register's offset.
    #[verifier::when_used_as_spec(spec_address)]
    pub fn address(self) -> (address: u32)
        ensures
            address == self.spec_address(),
            address == TIM + self.spec_offset(),
    {
        TIM + self.offset()
    }
}

/// Contents of the nineteen registers of the block.
#[derive(Clone, Copy, Debug, PartialEq, Eq, Structural)]
pub struct TIMRegisterBlock {
    pub ios: u32,
    pub tcf: u32,
    pub tcnt: u32,
    pub tscr: u32,
    pub tov: u32,
    pub tcr: u32,
    pub tie: u32,
    pub tscr2: u32,
    pub tflg1: u32,
    pub tflg2: u32,
    pub tc0: u32,
    pub tc1: u32,
    pub tc2: u32,
    pub tc3: u32,
    pub tc4: u32,
    pub tc5: u32,
    pub tc6: u32,
    pub tc7: u32,
    pub rlv: u32,
}

impl TIMRegisterBlock {
    /// Compare/capture value of `channel`.
    pub open spec fn spec_tc(&self, channel: Channel) -> u32 {
        match channel {
            Channel::CH0 => self.tc0,
            Channel::CH1 => self.tc1,
            Channel::CH2 => self.tc2,
            Channel::CH3 => self.tc3,
            Channel::CH4 => self.tc4,
            Channel::CH5 => self.tc5,
            Channel::CH6 => self.tc6,
            Channel::CH7 => self.tc7,
        }
    }

    /// The block with `value` as the compare/capture value of `channel`.
    pub open spec fn spec_with_tc(self, channel: Channel, value: u32) -> TIMRegisterBlock {
        match channel {
            Channel::CH0 => TIMRegisterBlock { tc0: value, ..self },
            Channel::CH1 => TIMRegisterBlock { tc1: value, ..self },
            Channel::CH2 => TIMRegisterBlock { tc2: value, ..self },
            Channel::CH3 => TIMRegisterBlock { tc3: value, ..self },
            Channel::CH4 => TIMRegisterBlock { tc4: value, ..self },
            Channel::CH5 => TIMRegisterBlock { tc5: value, ..self },
            Channel::CH6 => TIMRegisterBlock { tc6: value, ..self },
            Channel::CH7 => TIMRegisterBlock { tc7: value, ..self },
        }
    }

    /// Content of `register`.
    pub open spec fn spec_read(&self, register: Register) -> u32 {
        match register {
            Register::IOS => self.ios,
            Register::TCF => self.tcf,
            Register::TCNT => self.tcnt,
            Register::TSCR => self.tscr,
            Register::TOV => self.tov,
            Register::TCR => self.tcr,
            Register::TIE => self.tie,
            Register::TSCR2 => self.tscr2,
            Register::TFLG1 => self.tflg1,
            Register::TFLG2 => self.tflg2,
            Register::TC(channel) => self.spec_tc(channel),
            Register::RLV => self.rlv,
        }
    }

    /// The block with `value` in `register` and every other register as it is.
    pub open spec fn spec_write(self, register: Register, value: u32) -> TIMRegisterBlock {
        match register {
            Register::IOS => TIMRegisterBlock { ios: value, ..self },
            Register::TCF => TIMRegisterBlock { tcf: value, ..self },
            Register::TCNT => TIMRegisterBlock { tcnt: value, ..self },
            Register::TSCR => TIMRegisterBlock { tscr: value, ..self },
            Register::TOV => TIMRegisterBlock { tov: value, ..self },
            Register::TCR => TIMRegisterBlock { tcr: value, ..self },
            Register::TIE => TIMRegisterBlock { tie: value, ..self },
            Register::TSCR2 => TIMRegisterBlock { tscr2: value, ..self },
            Register::TFLG1 => TIMRegisterBlock { tflg1: value, ..self },
            Register::TFLG2 => TIMRegisterBlock { tflg2: value, ..self },
            Register::TC(channel) => self.spec_with_tc(channel, value),
            Register::RLV => TIMRegisterBlock { rlv: value, ..self },
        }
    }

    /// A block with every register at zero.
    pub fn new() -> (block: TIMRegisterBlock)
        ensures
            block == (TIMRegisterBlock {
                ios: 0,
                tcf: 0,
                tcnt: 0,
                tscr: 0,
                tov: 0,
                tcr: 0,
                tie: 0,
                tscr2: 0,
                tflg1: 0,
                tflg2: 0,
                tc0: 0,
                tc1: 0,
                tc2: 0,
                tc3: 0,
                tc4: 0,
                tc5: 0,
                tc6: 0,
                tc7: 0,
                rlv: 0,
            }),
    {
        TIMRegisterBlock {
            ios: 0,
            tcf: 0,
            tcnt: 0,
            tscr: 0,
            tov: 0,
            tcr: 0,
            tie: 0,
            tscr2: 0,
            tflg1: 0,
            tflg2: 0,
            tc0: 0,
            tc1: 0,
            tc2: 0,
            tc3: 0,
            tc4: 0,
            tc5: 0,
            tc6: 0,
            tc7: 0,
            rlv: 0,
        }
    }

    /// Reads `register`.
    #[verifier::when_used_as_spec(spec_read)]
    pub fn read(&self, register: Register) -> (value: u32)
        ensures
            value == self.spec_read(register),
    {
        match register {
            Register::IOS => self.ios,
            Register::TCF => self.tcf,
            Register::TCNT => self.tcnt,
            Register::TSCR => self.tscr,
            Register::TOV => self.tov,
            Register::TCR => self.tcr,
            Register::TIE => self.tie,
            Register::TSCR2 => self.tscr2,
            Register::TFLG1 => self.tflg1,
            Register::TFLG2 => self.tflg2,
            Register::TC(channel) => match channel {
                Channel::CH0 => self.tc0,
                Channel::CH1 => self.tc1,
                Channel::CH2 => self.tc2,
                Channel::CH3 => self.tc3,
                Channel::CH4 => self.tc4,
                Channel::CH5 => self.tc5,
                Channel::CH6 => self.tc6,
                Channel::CH7 => self.tc7,
            },
            Register::RLV => self.rlv,
        }
    }

    /// Stores `value` in `register` and leaves the other registers alone.
    pub fn write(&mut self, register: Register, value: u32)
        ensures
            *final(self) == old(self).spec_write(register, value),
    {
        match register {
            Register::IOS => self.ios = value,
            Register::TCF => self.tcf = value,
            Register::TCNT => self.tcnt = value,
            Register::TSCR => self.tscr = value,
            Register::TOV => self.tov = value,
            Register::TCR => self.tcr = value,
            Register::TIE => self.tie = value,
            Register::TSCR2 => self.tscr2 = value,
            Register::TFLG1 => self.tflg1 = value,
            Register::TFLG2 => self.tflg2 = value,
            Register::TC(channel) => match channel {
                Channel::CH0 => self.tc0 = value,
                Channel::CH1 => self.tc1 = value,
                Channel::CH2 => self.tc2 = value,
                Channel::CH3 => self.tc3 = value,
                Channel::CH4 => self.tc4 = value,
                Channel::CH5 => self.tc5 = value,
                Channel::CH6 => self.tc6 = value,
                Channel::CH7 => self.tc7 = value,
            },
            Register::RLV => self.rlv = value,
        }
    }
}

/// What a timer handle stands for: the contents of the registers, and the
/// writes issued to them that have not been collected yet, oldest first.
#[verifier::ext_equal]
pub struct TIMView {
    pub registers: TIMRegisterBlock,
    pub writes: Seq<RegisterWrite>,
}

impl TIMView {
    /// Effect of writing `value` to `register`: the register holds the value
    /// and the write is appended to the record.
    pub open spec fn write(self, register: Register, value: u32) -> TIMView {
        TIMView {
            registers: self.registers.spec_write(register, value),
            writes: self.writes.push(RegisterWrite { address: register.spec_address(), value }),
        }
    }

    /// Effect of [`TIM::enable`]: the run bit is set.
    pub open spec fn enable(self) -> TIMView {
        self.write(Register::TSCR, self.registers.tscr | TIM_TSCR_ENABLE)
    }

    /// Effect of [`TIM::disable`]: the run bit is cleared.
    pub open spec fn disable(self) -> TIMView {
        self.write(Register::TSCR, self.registers.tscr & TIM_TSCR_DISABLE)
    }

    /// Effect of [`TIM::set_output_action`]: the channel's output-action
    /// field takes `output_action`, moved from channel 0 to the channel.
    pub open spec fn set_output_action(self, channel: Channel, output_action: u32) -> TIMView {
        self.write(
            Register::TCR,
            spec_with_field(
                self.registers.tcr,
                channel.spec_output_mask(),
                output_action << channel.spec_shift(),
            ),
        )
    }

    /// Effect of [`TIM::set_input_capture_edge`]: the channel's capture-edge
    /// field takes `capture_edge`, moved from channel 0 to the channel.
    pub open spec fn set_input_capture_edge(self, channel: Channel, capture_edge: u32) -> TIMView {
        self.write(
            Register::TCR,
            spec_with_field(
                self.registers.tcr,
                channel.spec_edge_mask(),
                capture_edge << channel.spec_shift(),
            ),
        )
    }

    /// Effect of [`TIM::set_prescaler`]: the prescaler field takes the code
    /// of `pre_div`.
    pub open spec fn set_prescaler(self, pre_div: Pre) -> TIMView {
        self.write(
            Register::TSCR2,
            spec_with_field(self.registers.tscr2, TIM_TSCR2_PRE_MASK, pre_div.spec_code()),
        )
    }

    /// Effect of writing the channel's interrupt-enable bit: it takes the
    /// lowest bit of `interrupt_enable`.
    pub open spec fn set_interrupt_enable(self, channel: Channel, interrupt_enable: u32) -> TIMView {
        self.write(
            Register::TIE,
            spec_with_field(
                self.registers.tie,
                channel.spec_mask(),
                interrupt_enable << channel.spec_index(),
            ),
        )
    }

    /// Effect of [`TIM::set_output_compare`]: the output action first, then
    /// the compare value, and the interrupt enable last.
    pub open spec fn set_output_compare(
        self,
        channel: Channel,
        output_action: u32,
        interrupt_enable: u32,
        value: u32,
    ) -> TIMView {
        self.set_output_action(channel, output_action).write(
            Register::TC(channel),
            value,
        ).set_interrupt_enable(channel, interrupt_enable)
    }

    /// Effect of [`TIM::set_input_capture`]: the capture edge first, the
    /// interrupt enable after it.
    pub open spec fn set_input_capture(
        self,
        channel: Channel,
        capture_edge: u32,
        interrupt_enable: u32,
    ) -> TIMView {
        self.set_input_capture_edge(channel, capture_edge).set_interrupt_enable(
            channel,
            interrupt_enable,
        )
    }

    /// Effect of [`TIM::clear_interrupt`].
    pub open spec fn clear_interrupt(self, channel: Channel) -> TIMView {
        self.clear_interrupts(channel.spec_mask())
    }

    /// Effect of [`TIM::clear_interrupts`] on a mask in range: the bits of
    /// the channels in `channels` are set in the first flag register.
    pub open spec fn clear_interrupts(self, channels: u32) -> TIMView {
        self.write(Register::TFLG1, self.registers.tflg1 | channels)
    }

    /// Effect of [`TIM::enable_cf`].
    pub open spec fn enable_cf(self, channel: Channel) -> TIMView {
        self.enable_cfs(channel.spec_mask())
    }

    /// Effect of [`TIM::enable_cfs`] on a mask in range: the capture flags of
    /// the channels in `channels` are set.
    pub open spec fn enable_cfs(self, channels: u32) -> TIMView {
        self.write(Register::TCF, self.registers.tcf | channels)
    }

    /// Effect of [`TIM::enable_tov`].
    pub open spec fn enable_tov(self, channel: Channel) -> TIMView {
        self.enable_tovs(channel.spec_mask())
    }

    /// Effect of [`TIM::enable_tovs`] on a mask in range: the overflow flags
    /// of the channels in `channels` are set.
    pub open spec fn enable_tovs(self, channels: u32) -> TIMView {
        self.write(Register::TOV, self.registers.tov | channels)
    }

    /// Effect of [`TIM::disable_tov`].
    pub open spec fn disable_tov(self, channel: Channel) -> TIMView {
        self.disable_tovs(channel.spec_mask())
    }

    /// Effect of [`TIM::disable_tovs`] on a mask in range: the overflow flags
    /// of the channels in `channels` are cleared.
    pub open spec fn disable_tovs(self, channels: u32) -> TIMView {
        self.write(Register::TOV, self.registers.tov & !channels)
    }
}

/// Handle on the timer block.
pub struct TIM {
    p: TIMRegisterBlock,
    writes: Vec<RegisterWrite>,
}

impl View for TIM {
    type V = TIMView;

    closed spec fn view(&self) -> TIMView {
        TIMView { registers: self.p, writes: self.writes@ }
    }
}

impl TIM {
    /// Constructs the handle on the timer block, with `registers` as the
    /// contents of the block at that moment.
    ///
    /// Only the first construction through a given registry succeeds.
    pub fn new(peripherals: &mut Peripherals, registers: TIMRegisterBlock) -> (result: Result<
        TIM,
        Fault,
    >)
        ensures
            final(peripherals)@ == old(peripherals)@.construct(Peripheral::Tim),
            old(peripherals)@.constructed(Peripheral::Tim) ==> result is Err && result->Err_0
                == Fault::DuplicateConstruction,
            !old(peripherals)@.constructed(Peripheral::Tim) ==> result is Ok && result->Ok_0@
                == (TIMView { registers, writes: Seq::empty() }),
    {
        if peripherals.claim(Peripheral::Tim) {
            Ok(TIM { p: registers, writes: Vec::new() })
        } else {
            Err(Fault::DuplicateConstruction)
        }
    }

    /// The contents of the registers.
    pub fn registers(&self) -> (registers: TIMRegisterBlock)
        ensures
            registers == self@.registers,
    {
        self.p
    }

    /// Replaces the contents of the registers by `registers`, as read from the
    /// device. The record of writes is left as it is.
    pub fn refresh(&mut self, registers: TIMRegisterBlock)
        ensures
            final(self)@ == (TIMView { registers, writes: old(self)@.writes }),
    {
        self.p = registers;
    }

    /// The writes issued since they were last collected, oldest first.
    pub fn pending_writes(&self) -> (writes: &Vec<RegisterWrite>)
        ensures
            writes@ == self@.writes,
    {
        &self.writes
    }

    /// Hands over the writes issued since they were last collected, oldest
    /// first, and starts a new record.
    pub fn take_writes(&mut self) -> (writes: Vec<RegisterWrite>)
        ensures
            writes@ == old(self)@.writes,
            final(self)@ == (TIMView { registers: old(self)@.registers, writes: Seq::empty() }),
    {
        let mut writes: Vec<RegisterWrite> = Vec::new();
        std::mem::swap(&mut writes, &mut self.writes);
        writes
    }

    /// Writes `value` to `register` and records the write.
    fn store(&mut self, register: Register, value: u32)
        ensures
            final(self)@ == old(self)@.write(register, value),
    {
        self.p.write(register, value);
        self.writes.push(RegisterWrite { address: register.address(), value });
    }

    /// Writes the lowest bit of `interrupt_enable` to the interrupt-enable
    /// bit of `channel`.
    fn store_interrupt_enable(&mut self, channel: Channel, interrupt_enable: u32)
        ensures
            final(self)@ == old(self)@.set_interrupt_enable(channel, interrupt_enable),
    {
        let curr: u32 = with_field(
            self.p.read(Register::TIE),
            channel.mask(),
            interrupt_enable << channel.index(),
        );
        self.store(Register::TIE, curr);
    }

    /// Starts the counter.
    pub fn enable(&mut self)
        ensures
            final(self)@ == old(self)@.enable(),
    {
        let curr: u32 = self.p.read(Register::TSCR) | TIM_TSCR_ENABLE;
        self.store(Register::TSCR, curr);
    }

    /// Stops the counter.
    pub fn disable(&mut self)
        ensures
            final(self)@ == old(self)@.disable(),
    {
        let curr: u32 = self.p.read(Register::TSCR) & TIM_TSCR_DISABLE;
        self.store(Register::TSCR, curr);
    }

    /// Selects what a compare match of `channel` does to its pin.
    /// `output_action` is one of the `TIM_TCR_OUTPUT_` codes.
    pub fn set_output_action(&mut self, channel: Channel, output_action: u32)
        ensures
            final(self)@ == old(self)@.set_output_action(channel, output_action),
    {
        let curr: u32 = with_field(
            self.p.read(Register::TCR),
            channel.output_mask(),
            output_action << channel.shift(),
        );
        self.store(Register::TCR, curr);
    }

    /// Selects the edge that `channel` captures. `capture_edge` is one of
    /// the `TIM_TCR_EDGE_` codes.
    pub fn set_input_capture_edge(&mut self, channel: Channel, capture_edge: u32)
        ensures
            final(self)@ == old(self)@.set_input_capture_edge(channel, capture_edge),
    {
        let curr: u32 = with_field(
            self.p.read(Register::TCR),
            channel.edge_mask(),
            capture_edge << channel.shift(),
        );
        self.store(Register::TCR, curr);
    }

    /// Selects the clock divider of the counter.
    pub fn set_prescaler(&mut self, pre_div: Pre)
        ensures
            final(self)@ == old(self)@.set_prescaler(pre_div),
    {
        let curr: u32 = with_field(
            self.p.read(Register::TSCR2),
            TIM_TSCR2_PRE_MASK,
            pre_div.code(),
        );
        self.store(Register::TSCR2, curr);
    }

    /// Configures `channel` as an output compare: the action on a match, the
    /// value to match, and whether a match interrupts. `interrupt_enable` is
    /// `TIM_TIE_ENABLE` or `TIM_TIE_DISABLE`.
    pub fn set_output_compare(
        &mut self,
        channel: Channel,
        output_action: u32,
        interrupt_enable: u32,
        value: u32,
    )
        ensures
            final(self)@ == old(self)@.set_output_compare(
                channel,
                output_action,
                interrupt_enable,
                value,
            ),
    {
        self.set_output_action(channel, output_action);
        self.store(Register::TC(channel), value);
        self.store_interrupt_enable(channel, interrupt_enable);
    }

    /// Configures `channel` as an input capture: the edge to capture, and
    /// whether a capture interrupts. `interrupt_enable` is `TIM_TIE_ENABLE`
    /// or `TIM_TIE_DISABLE`.
    pub fn set_input_capture(&mut self, channel: Channel, capture_edge: u32, interrupt_enable: u32)
        ensures
            final(self)@ == old(self)@.set_input_capture(channel, capture_edge, interrupt_enable),
    {
        self.set_input_capture_edge(channel, capture_edge);
        self.store_interrupt_enable(channel, interrupt_enable);
    }

    /// The compare/capture value of `channel`.
    pub fn read_input_capture(&self, channel: Channel) -> (value: u32)
        ensures
            value == self@.registers.spec_tc(channel),
    {
        self.p.read(Register::TC(channel))
    }

    /// Acknowledges the interrupt of `channel`.
    pub fn clear_interrupt(&mut self, channel: Channel)
        ensures
            final(self)@ == old(self)@.clear_interrupt(channel),
    {
        let mask: u32 = channel.mask();
        proof {
            lemma_selector_bit(channel.spec_index());
            lemma_mask_in_range(mask);
        }
        let curr: u32 = self.p.read(Register::TFLG1) | (TIM_FLG1_MASK & mask);
        self.store(Register::TFLG1, curr);
    }

    /// Acknowledges the interrupts of every channel in `channels`.
    pub fn clear_interrupts(&mut self, channels: u32) -> (result: Result<(), Fault>)
        ensures
            channels > U8_MAX ==> result == Err::<(), Fault>(Fault::MaskOutOfRange) && final(self)@
                == old(self)@,
            channels <= U8_MAX ==> result == Ok::<(), Fault>(()) && final(self)@ == old(self)@.clear_interrupts(channels),
    {
        check_mask(channels)?;
        proof {
            lemma_mask_in_range(channels);
        }
        let curr: u32 = self.p.read(Register::TFLG1) | (TIM_FLG1_MASK & channels);
        self.store(Register::TFLG1, curr);
        Ok(())
    }

    /// Sets the capture flag of `channel`.
    pub fn enable_cf(&mut self, channel: Channel)
        ensures
            final(self)@ == old(self)@.enable_cf(channel),
    {
        let mask: u32 = channel.mask();
        proof {
            lemma_selector_bit(channel.spec_index());
            lemma_mask_in_range(mask);
        }
        let curr: u32 = self.p.read(Register::TCF) | (TIM_TCF_MASK & mask);
        self.store(Register::TCF, curr);
    }

    /// Sets the capture flag of every channel in `channels`.
    pub fn enable_cfs(&mut self, channels: u32) -> (result: Result<(), Fault>)
        ensures
            channels > U8_MAX ==> result == Err::<(), Fault>(Fault::MaskOutOfRange) && final(self)@
                == old(self)@,
            channels <= U8_MAX ==> result == Ok::<(), Fault>(()) && final(self)@ == old(self)@.enable_cfs(channels),
    {
        check_mask(channels)?;
        proof {
            lemma_mask_in_range(channels);
        }
        let curr: u32 = self.p.read(Register::TCF) | (TIM_TCF_MASK & channels);
        self.store(Register::TCF, curr);
        Ok(())
    }

    /// Sets the overflow flag of `channel`.
    pub fn enable_tov(&mut self, channel: Channel)
        ensures
            final(self)@ == old(self)@.enable_tov(channel),
    {
        let mask: u32 = channel.mask();
        proof {
            lemma_selector_bit(channel.spec_index());
            lemma_mask_in_range(mask);
        }
        let curr: u32 = self.p.read(Register::TOV) | (TIM_TOV_MASK & mask);
        self.store(Register::TOV, curr);
    }

    /// Sets the overflow flag of every channel in `channels`.
    pub fn enable_tovs(&mut self, channels: u32) -> (result: Result<(), Fault>)
        ensures
            channels > U8_MAX ==> result == Err::<(), Fault>(Fault::MaskOutOfRange) && final(self)@
                == old(self)@,
            channels <= U8_MAX ==> result == Ok::<(), Fault>(()) && final(self)@ == old(self)@.enable_tovs(channels),
    {
        check_mask(channels)?;
        proof {
            lemma_mask_in_range(channels);
        }
        let curr: u32 = self.p.read(Register::TOV) | (TIM_TOV_MASK & channels);
        self.store(Register::TOV, curr);
        Ok(())
    }

    /// Clears the overflow flag of `channel`.
    pub fn disable_tov(&mut self, channel: Channel)
        ensures
            final(self)@ == old(self)@.disable_tov(channel),
    {
        let mask: u32 = channel.mask();
        proof {
            lemma_selector_bit(channel.spec_index());
            lemma_mask_in_range(mask);
        }
        let curr: u32 = self.p.read(Register::TOV) & (!TIM_TOV_MASK | !mask);
        self.store(Register::TOV, curr);
    }

    /// Clears the overflow flag of every channel in `channels`.
    pub fn disable_tovs(&mut self, channels: u32) -> (result: Result<(), Fault>)
        ensures
            channels > U8_MAX ==> result == Err::<(), Fault>(Fault::MaskOutOfRange) && final(self)@
                == old(self)@,
            channels <= U8_MAX ==> result == Ok::<(), Fault>(()) && final(self)@ == old(self)@.disable_tovs(channels),
    {
        check_mask(channels)?;
        proof {
            lemma_mask_in_range(channels);
        }
        let curr: u32 = self.p.read(Register::TOV) & (!TIM_TOV_MASK | !channels);
        self.store(Register::TOV, curr);
        Ok(())
    }

    /// The value of the free-running counter.
    pub fn read_count(&self) -> (count: u32)
        ensures
            count == self@.registers.tcnt,
    {
        self.p.read(Register::TCNT)
    }
}

/// The registers lie one word apart from `TIM_IOS` to the reload value, each
/// at the base of the block plus its offset, with the compare/capture
/// registers in the order of their channels, and no two of them share an
/// address.
pub proof fn lemma_register_map(register: Register, other: Register)
    ensures
        register.spec_address() == TIM + register.spec_offset(),
        TIM_IOS <= register.spec_address() <= TIM + 0x48,
        register.spec_offset() % 4 == 0,
        register matches Register::TC(channel) ==> register.spec_offset() == 0x28 + 4
            * channel.spec_index(),
        register != other ==> register.spec_address() != other.spec_address(),
{
}

/// A register holds what was last written to it, and a write to one register
/// changes no other.
pub proof fn lemma_read_after_write(
    block: TIMRegisterBlock,
    register: Register,
    value: u32,
    other: Register,
)
    ensures
        block.spec_write(register, value).spec_read(register) == value,
        other != register ==> block.spec_write(register, value).spec_read(other)
            == block.spec_read(other),
{
}

/// Whether `output_action` is one of the four output actions.
pub open spec fn is_output_action(output_action: u32) -> bool {
    ||| output_action == TIM_TCR_OUTPUT_DISCONNECT
    ||| output_action == TIM_TCR_OUTPUT_TOGGLE
    ||| output_action == TIM_TCR_OUTPUT_CLEAR
    ||| output_action == TIM_TCR_OUTPUT_SET
}

/// Whether `capture_edge` is one of the four capture edges.
pub open spec fn is_capture_edge(capture_edge: u32) -> bool {
    ||| capture_edge == TIM_TCR_EDGE_DISABLE
    ||| capture_edge == TIM_TCR_EDGE_FALLING
    ||| capture_edge == TIM_TCR_EDGE_RISING
    ||| capture_edge == TIM_TCR_EDGE_EITHER
}

/// The codes of a channel's field, as they stand for channel 0: none, the
/// first flag alone, the second flag alone as the field's high bit, and both.
/// An output action is the capture edge of the same pattern, moved into the
/// high half-word.
pub proof fn lemma_codes()
    ensures
        TIM_TCR_EDGE_DISABLE == 0,
        TIM_TCR_EDGE_FALLING == 1,
        TIM_TCR_EDGE_RISING == 2,
        TIM_TCR_EDGE_EITHER == 3,
        TIM_TCR_OUTPUT_DISCONNECT == TIM_TCR_EDGE_DISABLE << 16u32 == 0x0000_0000,
        TIM_TCR_OUTPUT_TOGGLE == TIM_TCR_EDGE_FALLING << 16u32 == 0x0001_0000,
        TIM_TCR_OUTPUT_CLEAR == TIM_TCR_EDGE_RISING << 16u32 == 0x0002_0000,
        TIM_TCR_OUTPUT_SET == TIM_TCR_EDGE_EITHER << 16u32 == 0x0003_0000,
{
    assert(0u32 << 16u32 == 0x0000_0000 && 1u32 << 16u32 == 0x0001_0000 && 2u32 << 16u32
        == 0x0002_0000 && 3u32 << 16u32 == 0x0003_0000) by (bit_vector);
}

/// Each channel's bit is the bit at the channel's number.
pub proof fn lemma_channel_masks()
    ensures
        Channel::CH0.spec_mask() == 0x01,
        Channel::CH1.spec_mask() == 0x02,
        Channel::CH2.spec_mask() == 0x04,
        Channel::CH3.spec_mask() == 0x08,
        Channel::CH4.spec_mask() == 0x10,
        Channel::CH5.spec_mask() == 0x20,
        Channel::CH6.spec_mask() == 0x40,
        Channel::CH7.spec_mask() == 0x80,
{
    assert(1u32 << 0u32 == 0x01 && 1u32 << 1u32 == 0x02 && 1u32 << 2u32 == 0x04 && 1u32 << 3u32
        == 0x08 && 1u32 << 4u32 == 0x10 && 1u32 << 5u32 == 0x20 && 1u32 << 6u32 == 0x40 && 1u32
        << 7u32 == 0x80) by (bit_vector);
}

/// The field of a channel is two adjacent bits: its capture edge lies at
/// twice its number in the low half-word of the channel-control register, its
/// output action at the same place in the high half-word.
pub proof fn lemma_channel_fields(channel: Channel)
    ensures
        channel.spec_shift() == 2 * channel.spec_index(),
        channel.spec_edge_mask() == 0b11u32 << channel.spec_shift(),
        channel.spec_output_mask() == 0b11u32 << (16 + channel.spec_shift()) as u32,
        channel.spec_edge_mask() & 0xFFFF_0000 == 0,
        channel.spec_output_mask() & 0x0000_FFFF == 0,
{
    let shift: u32 = channel.spec_shift();
    let high: u32 = (16 + shift) as u32;
    assert(TIM_TCR_EDGE_EITHER << shift == 0b11u32 << shift && TIM_TCR_OUTPUT_SET << shift
        == 0b11u32 << high && (TIM_TCR_EDGE_EITHER << shift) & 0xFFFF_0000 == 0 && (
    TIM_TCR_OUTPUT_SET << shift) & 0x0000_FFFF == 0) by (bit_vector)
        requires
            shift <= 14,
            high == 16 + shift,
    ;
}

/// The fields of the channel-control register do not overlap: no capture-edge
/// field meets an output-action field, and different channels have different
/// fields and different bits.
pub proof fn lemma_channel_fields_disjoint(channel: Channel, other: Channel)
    ensures
        channel.spec_edge_mask() & other.spec_output_mask() == 0,
        channel != other ==> channel.spec_edge_mask() & other.spec_edge_mask() == 0,
        channel != other ==> channel.spec_output_mask() & other.spec_output_mask() == 0,
        channel != other ==> channel.spec_mask() & other.spec_mask() == 0,
{
    let shift: u32 = channel.spec_shift();
    let other_shift: u32 = other.spec_shift();
    assert((TIM_TCR_EDGE_EITHER << shift) & (TIM_TCR_OUTPUT_SET << other_shift) == 0)
        by (bit_vector)
        requires
            shift <= 14,
            other_shift <= 14,
    ;
    if channel != other {
        assert((TIM_TCR_EDGE_EITHER << shift) & (TIM_TCR_EDGE_EITHER << other_shift) == 0 && (
        TIM_TCR_OUTPUT_SET << shift) & (TIM_TCR_OUTPUT_SET << other_shift) == 0) by (bit_vector)
            requires
                shift <= 14,
                other_shift <= 14,
                shift % 2 == 0,
                other_shift % 2 == 0,
                shift != other_shift,
        ;
        lemma_selector_bits_disjoint(channel.spec_index(), other.spec_index());
    }
}

/// Starting the counter sets the run bit and stopping it clears the run bit;
/// both leave the other control bits and the other registers as they were.
pub proof fn lemma_enable_disable(before: TIMView)
    ensures
        before.enable().registers.tscr & TIM_TSCR_ENABLE == TIM_TSCR_ENABLE,
        before.enable().registers.tscr & !TIM_TSCR_ENABLE == before.registers.tscr
            & !TIM_TSCR_ENABLE,
        before.enable().registers == (TIMRegisterBlock {
            tscr: before.enable().registers.tscr,
            ..before.registers
        }),
        before.disable().registers.tscr & TIM_TSCR_ENABLE == 0,
        before.disable().registers.tscr & !TIM_TSCR_ENABLE == before.registers.tscr
            & !TIM_TSCR_ENABLE,
        before.disable().registers == (TIMRegisterBlock {
            tscr: before.disable().registers.tscr,
            ..before.registers
        }),
{
    assert(TIM_TSCR_DISABLE == !TIM_TSCR_ENABLE) by (bit_vector);
    lemma_set_bits(before.registers.tscr, TIM_TSCR_ENABLE);
    lemma_clear_bits(before.registers.tscr, TIM_TSCR_ENABLE);
}

/// Selecting an output action stores the action, moved to the channel, in the
/// channel's output-action field, so that the field moved back reads as the
/// action, and leaves the rest of the channel-control register, the low
/// half-word with every capture edge among it, and the other registers as
/// they were.
pub proof fn lemma_set_output_action(before: TIMView, channel: Channel, output_action: u32)
    requires
        is_output_action(output_action),
    ensures
        ({
            let after = before.set_output_action(channel, output_action);
            let mask: u32 = channel.spec_output_mask();
            &&& after.registers.tcr & mask == output_action << channel.spec_shift()
            &&& (after.registers.tcr & mask) >> channel.spec_shift() == output_action
            &&& after.registers.tcr & !mask == before.registers.tcr & !mask
            &&& after.registers.tcr & 0x0000_FFFF == before.registers.tcr & 0x0000_FFFF
            &&& after.registers == (TIMRegisterBlock {
                tcr: after.registers.tcr,
                ..before.registers
            })
        }),
{
    let shift: u32 = channel.spec_shift();
    let mask: u32 = channel.spec_output_mask();
    let tcr: u32 = before.set_output_action(channel, output_action).registers.tcr;
    lemma_with_field(before.registers.tcr, mask, output_action << shift);
    assert((output_action << shift) & (TIM_TCR_OUTPUT_SET << shift) == output_action << shift
        && (output_action << shift) >> shift == output_action) by (bit_vector)
        requires
            shift <= 14,
            is_output_action(output_action),
    ;
    lemma_channel_fields(channel);
    lemma_and_commutes(0x0000_FFFF, mask);
    lemma_field_untouched(before.registers.tcr, tcr, mask, 0x0000_FFFF);
}

/// Selecting a capture edge stores the edge, moved to the channel, in the
/// channel's capture-edge field, so that the field moved back reads as the
/// edge, and leaves the rest of the channel-control register, the high
/// half-word with every output action among it, and the other registers as
/// they were.
pub proof fn lemma_set_input_capture_edge(before: TIMView, channel: Channel, capture_edge: u32)
    requires
        is_capture_edge(capture_edge),
    ensures
        ({
            let after = before.set_input_capture_edge(channel, capture_edge);
            let mask: u32 = channel.spec_edge_mask();
            &&& after.registers.tcr & mask == capture_edge << channel.spec_shift()
            &&& (after.registers.tcr & mask) >> channel.spec_shift() == capture_edge
            &&& after.registers.tcr & !mask == before.registers.tcr & !mask
            &&& after.registers.tcr & 0xFFFF_0000 == before.registers.tcr & 0xFFFF_0000
            &&& after.registers == (TIMRegisterBlock {
                tcr: after.registers.tcr,
                ..before.registers
            })
        }),
{
    let shift: u32 = channel.spec_shift();
    let mask: u32 = channel.spec_edge_mask();
    let tcr: u32 = before.set_input_capture_edge(channel, capture_edge).registers.tcr;
    lemma_with_field(before.registers.tcr, mask, capture_edge << shift);
    assert((capture_edge << shift) & (TIM_TCR_EDGE_EITHER << shift) == capture_edge << shift
        && (capture_edge << shift) >> shift == capture_edge) by (bit_vector)
        requires
            shift <= 14,
            is_capture_edge(capture_edge),
    ;
    lemma_channel_fields(channel);
    lemma_and_commutes(0xFFFF_0000, mask);
    lemma_field_untouched(before.registers.tcr, tcr, mask, 0xFFFF_0000);
}

/// Whatever is written to the fields of one channel, the fields of every
/// other channel keep their contents: an output action touches no other
/// channel's action and no capture edge at all, and a capture edge touches no
/// other channel's edge and no output action at all.
pub proof fn lemma_channels_independent(
    before: TIMView,
    channel: Channel,
    code: u32,
    other: Channel,
)
    ensures
        before.set_output_action(channel, code).registers.tcr & other.spec_edge_mask()
            == before.registers.tcr & other.spec_edge_mask(),
        before.set_input_capture_edge(channel, code).registers.tcr & other.spec_output_mask()
            == before.registers.tcr & other.spec_output_mask(),
        channel != other ==> before.set_output_action(channel, code).registers.tcr
            & other.spec_output_mask() == before.registers.tcr & other.spec_output_mask(),
        channel != other ==> before.set_input_capture_edge(channel, code).registers.tcr
            & other.spec_edge_mask() == before.registers.tcr & other.spec_edge_mask(),
{
    let tcr: u32 = before.registers.tcr;
    let moved: u32 = code << channel.spec_shift();
    let with_action: u32 = before.set_output_action(channel, code).registers.tcr;
    let with_edge: u32 = before.set_input_capture_edge(channel, code).registers.tcr;
    lemma_channel_fields_disjoint(channel, other);
    lemma_channel_fields_disjoint(other, channel);
    lemma_with_field(tcr, channel.spec_output_mask(), moved);
    lemma_with_field(tcr, channel.spec_edge_mask(), moved);
    assert(other.spec_edge_mask() & channel.spec_output_mask() == 0);
    lemma_field_untouched(tcr, with_action, channel.spec_output_mask(), other.spec_edge_mask());
    assert(other.spec_output_mask() & channel.spec_edge_mask() == 0) by {
        lemma_and_commutes(other.spec_output_mask(), channel.spec_edge_mask());
    }
    lemma_field_untouched(tcr, with_edge, channel.spec_edge_mask(), other.spec_output_mask());
    if channel != other {
        lemma_and_commutes(other.spec_output_mask(), channel.spec_output_mask());
        lemma_and_commutes(other.spec_edge_mask(), channel.spec_edge_mask());
        lemma_field_untouched(
            tcr,
            with_action,
            channel.spec_output_mask(),
            other.spec_output_mask(),
        );
        lemma_field_untouched(tcr, with_edge, channel.spec_edge_mask(), other.spec_edge_mask());
    }
}

/// Selecting a clock divider stores its code in the prescaler field and
/// leaves the other bits of the prescaler register, and the other registers,
/// as they were.
pub proof fn lemma_set_prescaler(before: TIMView, pre_div: Pre)
    ensures
        ({
            let after = before.set_prescaler(pre_div);
            &&& after.registers.tscr2 & TIM_TSCR2_PRE_MASK == pre_div.spec_code()
            &&& after.registers.tscr2 & !TIM_TSCR2_PRE_MASK == before.registers.tscr2
                & !TIM_TSCR2_PRE_MASK
            &&& after.registers == (TIMRegisterBlock {
                tscr2: after.registers.tscr2,
                ..before.registers
            })
        }),
{
    let code: u32 = pre_div.spec_code();
    lemma_with_field(before.registers.tscr2, TIM_TSCR2_PRE_MASK, code);
    assert(code & TIM_TSCR2_PRE_MASK == code) by (bit_vector)
        requires
            code <= 7,
    ;
}

/// Writing a channel's interrupt enable gives the channel's bit the lowest
/// bit of what is written: it sets the bit for `TIM_TIE_ENABLE` and clears it
/// for `TIM_TIE_DISABLE`. The bits of the other channels and the other
/// registers stay as they were.
pub proof fn lemma_set_interrupt_enable(before: TIMView, channel: Channel, interrupt_enable: u32)
    ensures
        ({
            let after = before.set_interrupt_enable(channel, interrupt_enable);
            let mask: u32 = channel.spec_mask();
            &&& interrupt_enable & 1 == 1 ==> after.registers.tie & mask == mask
            &&& interrupt_enable & 1 == 0 ==> after.registers.tie & mask == 0
            &&& interrupt_enable & 1 == 1 || interrupt_enable & 1 == 0
            &&& TIM_TIE_ENABLE & 1 == 1
            &&& TIM_TIE_DISABLE & 1 == 0
            &&& after.registers.tie & !mask == before.registers.tie & !mask
            &&& after.registers == (TIMRegisterBlock {
                tie: after.registers.tie,
                ..before.registers
            })
        }),
{
    let index: u32 = channel.spec_index();
    lemma_with_field(before.registers.tie, channel.spec_mask(), interrupt_enable << index);
    assert((interrupt_enable & 1 == 1 ==> (interrupt_enable << index) & (1u32 << index) == 1u32
        << index) && (interrupt_enable & 1 == 0 ==> (interrupt_enable << index) & (1u32 << index)
        == 0) && (interrupt_enable & 1 == 1 || interrupt_enable & 1 == 0) && TIM_TIE_ENABLE & 1
        == 1 && TIM_TIE_DISABLE & 1 == 0) by (bit_vector)
        requires
            index < 8,
    ;
}

/// Configuring an output compare stores the action in the channel's
/// output-action field, the value in the channel's compare register and the
/// lowest bit of the interrupt enable in the channel's bit, in that order, and
/// leaves everything else as it was: no capture edge, and no other channel's
/// output action, compare register or interrupt enable changes.
pub proof fn lemma_set_output_compare(
    before: TIMView,
    channel: Channel,
    output_action: u32,
    interrupt_enable: u32,
    value: u32,
    other: Channel,
)
    requires
        is_output_action(output_action),
    ensures
        ({
            let after = before.set_output_compare(channel, output_action, interrupt_enable, value);
            let field: u32 = channel.spec_output_mask();
            let bit: u32 = channel.spec_mask();
            let tcr: u32 = after.registers.tcr;
            let tie: u32 = after.registers.tie;
            &&& tcr == before.set_output_action(channel, output_action).registers.tcr
            &&& tcr & field == output_action << channel.spec_shift()
            &&& tcr & !field == before.registers.tcr & !field
            &&& tcr & 0x0000_FFFF == before.registers.tcr & 0x0000_FFFF
            &&& after.registers.spec_tc(channel) == value
            &&& interrupt_enable == TIM_TIE_ENABLE || interrupt_enable & 1 == 1 ==> tie & bit
                == bit
            &&& interrupt_enable == TIM_TIE_DISABLE || interrupt_enable & 1 == 0 ==> tie & bit
                == 0
            &&& tie & !bit == before.registers.tie & !bit
            &&& after.registers == (TIMRegisterBlock { tcr, tie, ..before.registers }).spec_with_tc(
                channel,
                value,
            )
            &&& tcr & other.spec_edge_mask() == before.registers.tcr & other.spec_edge_mask()
            &&& other != channel ==> {
                &&& tcr & other.spec_output_mask() == before.registers.tcr
                    & other.spec_output_mask()
                &&& tie & other.spec_mask() == before.registers.tie & other.spec_mask()
                &&& after.registers.spec_tc(other) == before.registers.spec_tc(other)
            }
            &&& after.writes == before.writes.push(RegisterWrite { address: TIM_TCR, value: tcr })
                .push(RegisterWrite { address: Register::TC(channel).spec_address(), value }).push(
                RegisterWrite { address: TIM_TIE, value: tie },
            )
        }),
{
    lemma_set_output_action(before, channel, output_action);
    let chosen = before.set_output_action(channel, output_action).write(
        Register::TC(channel),
        value,
    );
    lemma_set_interrupt_enable(chosen, channel, interrupt_enable);
    lemma_channels_independent(before, channel, output_action, other);
    if other != channel {
        lemma_channel_fields_disjoint(other, channel);
        lemma_field_untouched(
            before.registers.tie,
            chosen.set_interrupt_enable(channel, interrupt_enable).registers.tie,
            channel.spec_mask(),
            other.spec_mask(),
        );
    }
}

/// Configuring an input capture stores the edge in the channel's
/// capture-edge field and the lowest bit of the interrupt enable in the
/// channel's bit, in that order, and leaves everything else as it was: no
/// output action, no compare register, and no other channel's capture edge or
/// interrupt enable changes.
pub proof fn lemma_set_input_capture(
    before: TIMView,
    channel: Channel,
    capture_edge: u32,
    interrupt_enable: u32,
    other: Channel,
)
    requires
        is_capture_edge(capture_edge),
    ensures
        ({
            let after = before.set_input_capture(channel, capture_edge, interrupt_enable);
            let field: u32 = channel.spec_edge_mask();
            let bit: u32 = channel.spec_mask();
            let tcr: u32 = after.registers.tcr;
            let tie: u32 = after.registers.tie;
            &&& tcr == before.set_input_capture_edge(channel, capture_edge).registers.tcr
            &&& tcr & field == capture_edge << channel.spec_shift()
            &&& tcr & !field == before.registers.tcr & !field
            &&& tcr & 0xFFFF_0000 == before.registers.tcr & 0xFFFF_0000
            &&& interrupt_enable == TIM_TIE_ENABLE || interrupt_enable & 1 == 1 ==> tie & bit
                == bit
            &&& interrupt_enable == TIM_TIE_DISABLE || interrupt_enable & 1 == 0 ==> tie & bit
                == 0
            &&& tie & !bit == before.registers.tie & !bit
            &&& after.registers == (TIMRegisterBlock { tcr, tie, ..before.registers })
            &&& after.registers.spec_tc(other) == before.registers.spec_tc(other)
            &&& tcr & other.spec_output_mask() == before.registers.tcr & other.spec_output_mask()
            &&& other != channel ==> {
                &&& tcr & other.spec_edge_mask() == before.registers.tcr & other.spec_edge_mask()
                &&& tie & other.spec_mask() == before.registers.tie & other.spec_mask()
            }
            &&& after.writes == before.writes.push(RegisterWrite { address: TIM_TCR, value: tcr })
                .push(RegisterWrite { address: TIM_TIE, value: tie })
        }),
{
    lemma_set_input_capture_edge(before, channel, capture_edge);
    lemma_set_interrupt_enable(
        before.set_input_capture_edge(channel, capture_edge),
        channel,
        interrupt_enable,
    );
    lemma_channels_independent(before, channel, capture_edge, other);
    if other != channel {
        lemma_channel_fields_disjoint(other, channel);
        lemma_field_untouched(
            before.registers.tie,
            before.set_input_capture(channel, capture_edge, interrupt_enable).registers.tie,
            channel.spec_mask(),
            other.spec_mask(),
        );
    }
}

/// The order of the operands of `&` does not matter.
proof fn lemma_and_commutes(left: u32, right: u32)
    by (bit_vector)
    ensures
        left & right == right & left,
{
}

} // verus!
