use aftx06::apb::timer::{
    Channel, Pre, Register, TIMRegisterBlock, TIM, TIM_FLG1, TIM_FLG2, TIM_IOS, TIM_TCF, TIM_TCNT,
    TIM_TCR, TIM_TCR_EDGE_DISABLE, TIM_TCR_EDGE_EITHER, TIM_TCR_EDGE_FALLING, TIM_TCR_EDGE_RISING,
    TIM_TCR_OUTPUT_CLEAR, TIM_TCR_OUTPUT_DISCONNECT, TIM_TCR_OUTPUT_SET, TIM_TCR_OUTPUT_TOGGLE,
    TIM_TIE, TIM_TIE_DISABLE, TIM_TIE_ENABLE, TIM_TOV, TIM_TSCR, TIM_TSCR2,
};
use aftx06::apb::Peripherals;
use aftx06::common::{Fault, RegisterWrite};

const CHANNELS: [Channel; 8] = [
    Channel::CH0,
    Channel::CH1,
    Channel::CH2,
    Channel::CH3,
    Channel::CH4,
    Channel::CH5,
    Channel::CH6,
    Channel::CH7,
];

fn tim_with(registers: TIMRegisterBlock) -> TIM {
    let mut peripherals = Peripherals::new();
    TIM::new(&mut peripherals, registers).unwrap()
}

fn ones() -> TIMRegisterBlock {
    let mut block = TIMRegisterBlock::new();
    for offset in 0..19u32 {
        block.write(register_at(offset * 4), 0xFFFF_FFFF);
    }
    block
}

fn register_at(offset: u32) -> Register {
    match offset {
        0x00 => Register::IOS,
        0x04 => Register::TCF,
        0x08 => Register::TCNT,
        0x0C => Register::TSCR,
        0x10 => Register::TOV,
        0x14 => Register::TCR,
        0x18 => Register::TIE,
        0x1C => Register::TSCR2,
        0x20 => Register::TFLG1,
        0x24 => Register::TFLG2,
        0x28..=0x44 => Register::TC(CHANNELS[((offset - 0x28) / 4) as usize]),
        0x48 => Register::RLV,
        _ => unreachable!(),
    }
}

fn write(address: u32, value: u32) -> RegisterWrite {
    RegisterWrite { address, value }
}

#[test]
fn channel_selectors() {
    let bits: [u32; 8] = [0x01, 0x02, 0x04, 0x08, 0x10, 0x20, 0x40, 0x80];
    let edges: [u32; 8] = [0x0003, 0x000C, 0x0030, 0x00C0, 0x0300, 0x0C00, 0x3000, 0xC000];
    for (number, channel) in CHANNELS.iter().enumerate() {
        assert_eq!(channel.index(), number as u32);
        assert_eq!(channel.shift(), 2 * number as u32);
        assert_eq!(channel.mask(), bits[number]);
        assert_eq!(channel.edge_mask(), edges[number]);
        assert_eq!(channel.edge_mask(), 0b11 << (2 * number));
        assert_eq!(channel.output_mask(), edges[number] << 16);
        assert_eq!(channel.output_mask(), 0b11 << (16 + 2 * number));
    }
    assert_eq!(Channel::CH3.output_mask(), 0x00C0_0000);
}

#[test]
fn channel_fields_do_not_overlap() {
    let mut seen: u32 = 0;
    for channel in CHANNELS {
        assert_eq!(seen & channel.edge_mask(), 0);
        seen |= channel.edge_mask();
        assert_eq!(seen & channel.output_mask(), 0);
        seen |= channel.output_mask();
    }
    assert_eq!(seen, 0xFFFF_FFFF);
}

#[test]
fn edge_and_action_codes() {
    assert_eq!(TIM_TCR_EDGE_DISABLE, 0b00);
    assert_eq!(TIM_TCR_EDGE_FALLING, 0b01);
    assert_eq!(TIM_TCR_EDGE_RISING, 0b10);
    assert_eq!(TIM_TCR_EDGE_EITHER, 0b11);
    assert_eq!(TIM_TCR_OUTPUT_DISCONNECT, 0x0000_0000);
    assert_eq!(TIM_TCR_OUTPUT_TOGGLE, 0x0001_0000);
    assert_eq!(TIM_TCR_OUTPUT_CLEAR, 0x0002_0000);
    assert_eq!(TIM_TCR_OUTPUT_SET, 0x0003_0000);
    assert_eq!(TIM_TIE_ENABLE, 1);
    assert_eq!(TIM_TIE_DISABLE, 0xFFFF_FFFE);
}

#[test]
fn prescaler_codes() {
    let dividers = [
        Pre::DIV1,
        Pre::DIV2,
        Pre::DIV4,
        Pre::DIV8,
        Pre::DIV16,
        Pre::DIV32,
        Pre::DIV64,
        Pre::DIV128,
    ];
    for (code, divider) in dividers.iter().enumerate() {
        assert_eq!(divider.code(), code as u32);
    }
}

#[test]
fn timer_register_addresses_follow_the_layout() {
    let named = [
        (Register::IOS, 0x00, TIM_IOS),
        (Register::TCF, 0x04, TIM_TCF),
        (Register::TCNT, 0x08, TIM_TCNT),
        (Register::TSCR, 0x0C, TIM_TSCR),
        (Register::TOV, 0x10, TIM_TOV),
        (Register::TCR, 0x14, TIM_TCR),
        (Register::TIE, 0x18, TIM_TIE),
        (Register::TSCR2, 0x1C, TIM_TSCR2),
        (Register::TFLG1, 0x20, TIM_FLG1),
        (Register::TFLG2, 0x24, TIM_FLG2),
    ];
    for (register, offset, address) in named {
        assert_eq!(register.offset(), offset);
        assert_eq!(register.address(), address);
        assert_eq!(register.address(), 0x8002_0000 + offset);
    }
    for (number, channel) in CHANNELS.iter().enumerate() {
        assert_eq!(Register::TC(*channel).offset(), 0x28 + 4 * number as u32);
        assert_eq!(Register::TC(*channel).address(), 0x8002_0028 + 4 * number as u32);
    }
    assert_eq!(Register::TC(Channel::CH7).offset(), 0x44);
    assert_eq!(Register::RLV.offset(), 0x48);
    assert_eq!(Register::RLV.address(), 0x8002_0048);
}

#[test]
fn timer_block_reads_back_what_was_written() {
    let mut block = TIMRegisterBlock::new();
    for offset in 0..19u32 {
        assert_eq!(block.read(register_at(offset * 4)), 0);
    }
    for offset in 0..19u32 {
        block.write(register_at(offset * 4), 0x100 + offset);
    }
    for offset in 0..19u32 {
        assert_eq!(block.read(register_at(offset * 4)), 0x100 + offset);
    }
    assert_eq!(block.ios, 0x100);
    assert_eq!(block.tscr2, 0x107);
    assert_eq!(block.tc0, 0x10A);
    assert_eq!(block.tc7, 0x111);
    assert_eq!(block.rlv, 0x112);
}

#[test]
fn second_timer_is_refused() {
    let mut peripherals = Peripherals::new();
    let mut first = TIM::new(&mut peripherals, TIMRegisterBlock::new()).unwrap();
    first.enable();
    first.set_prescaler(Pre::DIV8);
    first.enable_cfs(0x03).unwrap();
    let second = TIM::new(&mut peripherals, TIMRegisterBlock::new());
    assert!(matches!(second, Err(Fault::DuplicateConstruction)));
    assert_eq!(first.registers().tscr, 0x80);
}

#[test]
fn enable_sets_the_run_bit() {
    let mut tim = tim_with(TIMRegisterBlock { tscr: 0x0000_7F01, ..TIMRegisterBlock::new() });
    tim.enable();
    assert_eq!(tim.registers(), TIMRegisterBlock { tscr: 0x0000_7F81, ..TIMRegisterBlock::new() });
    assert_eq!(tim.pending_writes(), &vec![write(0x8002_000C, 0x0000_7F81)]);
}

#[test]
fn disable_clears_the_run_bit() {
    let mut tim = tim_with(ones());
    tim.disable();
    assert_eq!(tim.registers(), TIMRegisterBlock { tscr: 0xFFFF_FF7F, ..ones() });
    assert_eq!(tim.pending_writes(), &vec![write(TIM_TSCR, 0xFFFF_FF7F)]);
    tim.enable();
    assert_eq!(tim.registers(), ones());
}

#[test]
fn set_output_action_writes_the_channel_field() {
    let mut tim = tim_with(TIMRegisterBlock::new());
    tim.set_output_action(Channel::CH3, TIM_TCR_OUTPUT_TOGGLE);
    assert_eq!(tim.registers().tcr, 0x0040_0000);
    tim.set_output_action(Channel::CH7, TIM_TCR_OUTPUT_SET);
    assert_eq!(tim.registers().tcr, 0xC040_0000);
    tim.set_output_action(Channel::CH3, TIM_TCR_OUTPUT_CLEAR);
    assert_eq!(tim.registers().tcr, 0xC080_0000);
    tim.set_output_action(Channel::CH7, TIM_TCR_OUTPUT_DISCONNECT);
    assert_eq!(tim.registers().tcr, 0x0080_0000);
    assert_eq!(tim.pending_writes(), &vec![
        write(TIM_TCR, 0x0040_0000),
        write(TIM_TCR, 0xC040_0000),
        write(TIM_TCR, 0xC080_0000),
        write(TIM_TCR, 0x0080_0000),
    ]);
}

#[test]
fn set_output_action_keeps_the_other_fields() {
    let mut tim = tim_with(ones());
    tim.set_output_action(Channel::CH0, TIM_TCR_OUTPUT_DISCONNECT);
    assert_eq!(tim.registers(), TIMRegisterBlock { tcr: 0xFFFC_FFFF, ..ones() });
    tim.set_output_action(Channel::CH3, TIM_TCR_OUTPUT_TOGGLE);
    assert_eq!(tim.registers().tcr, 0xFF7C_FFFF);
    for channel in CHANNELS {
        let mut tim = tim_with(TIMRegisterBlock { tcr: 0x5A5A_A5A5, ..TIMRegisterBlock::new() });
        tim.set_output_action(channel, TIM_TCR_OUTPUT_SET);
        let tcr = tim.registers().tcr;
        assert_eq!(tcr & channel.output_mask(), TIM_TCR_OUTPUT_SET << channel.shift());
        assert_eq!(tcr & !channel.output_mask(), 0x5A5A_A5A5 & !channel.output_mask());
        assert_eq!(tcr & 0x0000_FFFF, 0x0000_A5A5);
        for action in [
            TIM_TCR_OUTPUT_DISCONNECT,
            TIM_TCR_OUTPUT_TOGGLE,
            TIM_TCR_OUTPUT_CLEAR,
            TIM_TCR_OUTPUT_SET,
        ] {
            let mut tim = tim_with(ones());
            tim.set_output_action(channel, action);
            let tcr = tim.registers().tcr;
            assert_eq!((tcr & channel.output_mask()) >> channel.shift(), action);
            for other in CHANNELS {
                assert_eq!(tcr & other.edge_mask(), other.edge_mask());
                if other != channel {
                    assert_eq!(tcr & other.output_mask(), other.output_mask());
                }
            }
        }
    }
}

#[test]
fn set_output_action_takes_only_the_bits_of_the_field() {
    let mut tim = tim_with(TIMRegisterBlock::new());
    tim.set_output_action(Channel::CH0, 0xFFFF_FFFF);
    assert_eq!(tim.registers().tcr, 0x0003_0000);
    tim.set_output_action(Channel::CH1, TIM_TCR_EDGE_EITHER);
    assert_eq!(tim.registers().tcr, 0x0003_0000);
}

#[test]
fn set_input_capture_edge_writes_the_channel_field() {
    let mut tim = tim_with(TIMRegisterBlock::new());
    tim.set_input_capture_edge(Channel::CH2, TIM_TCR_EDGE_RISING);
    assert_eq!(tim.registers().tcr, 0x0000_0020);
    tim.set_input_capture_edge(Channel::CH7, TIM_TCR_EDGE_EITHER);
    assert_eq!(tim.registers().tcr, 0x0000_C020);
    tim.set_input_capture_edge(Channel::CH2, TIM_TCR_EDGE_FALLING);
    assert_eq!(tim.registers().tcr, 0x0000_C010);
    tim.set_input_capture_edge(Channel::CH7, TIM_TCR_EDGE_DISABLE);
    assert_eq!(tim.registers().tcr, 0x0000_0010);
    assert_eq!(tim.pending_writes().len(), 4);
    let mut tim = tim_with(TIMRegisterBlock::new());
    tim.set_input_capture_edge(Channel::CH3, TIM_TCR_EDGE_FALLING);
    assert_eq!(tim.registers().tcr, 0x0000_0040);
}

#[test]
fn set_input_capture_edge_keeps_the_other_fields() {
    let mut tim = tim_with(ones());
    tim.set_input_capture_edge(Channel::CH2, TIM_TCR_EDGE_RISING);
    assert_eq!(tim.registers(), TIMRegisterBlock { tcr: 0xFFFF_FFEF, ..ones() });
    tim.set_input_capture_edge(Channel::CH2, TIM_TCR_EDGE_FALLING);
    assert_eq!(tim.registers().tcr, 0xFFFF_FFDF);
    for channel in CHANNELS {
        let mut tim = tim_with(TIMRegisterBlock { tcr: 0x5A5A_A5A5, ..TIMRegisterBlock::new() });
        tim.set_input_capture_edge(channel, TIM_TCR_EDGE_RISING);
        let tcr = tim.registers().tcr;
        assert_eq!(tcr & channel.edge_mask(), TIM_TCR_EDGE_RISING << channel.shift());
        assert_eq!(tcr & !channel.edge_mask(), 0x5A5A_A5A5 & !channel.edge_mask());
        assert_eq!(tcr & 0xFFFF_0000, 0x5A5A_0000);
        for edge in [
            TIM_TCR_EDGE_DISABLE,
            TIM_TCR_EDGE_FALLING,
            TIM_TCR_EDGE_RISING,
            TIM_TCR_EDGE_EITHER,
        ] {
            let mut tim = tim_with(ones());
            tim.set_input_capture_edge(channel, edge);
            let tcr = tim.registers().tcr;
            assert_eq!((tcr & channel.edge_mask()) >> channel.shift(), edge);
            for other in CHANNELS {
                assert_eq!(tcr & other.output_mask(), other.output_mask());
                if other != channel {
                    assert_eq!(tcr & other.edge_mask(), other.edge_mask());
                }
            }
        }
    }
}

#[test]
fn set_prescaler_div64_writes_six() {
    let mut tim = tim_with(TIMRegisterBlock::new());
    tim.set_prescaler(Pre::DIV64);
    assert_eq!(tim.registers(), TIMRegisterBlock { tscr2: 6, ..TIMRegisterBlock::new() });
    assert_eq!(tim.pending_writes(), &vec![write(0x8002_001C, 6)]);
}

#[test]
fn set_prescaler_keeps_the_bits_outside_the_field() {
    for prior in [0x0000_0000u32, 0xFFFF_FFFF, 0x0000_00A5, 0x1234_5678, 0x0000_0007] {
        let mut tim = tim_with(TIMRegisterBlock { tscr2: prior, ..ones() });
        tim.set_prescaler(Pre::DIV64);
        let tscr2 = tim.registers().tscr2;
        assert_eq!(tscr2 & 0x7, 6);
        assert_eq!(tscr2 & !0x7, prior & !0x7);
        assert_eq!(tim.registers(), TIMRegisterBlock { tscr2, ..ones() });
    }
    let mut tim = tim_with(TIMRegisterBlock { tscr2: 0xFFFF_FFFF, ..TIMRegisterBlock::new() });
    tim.set_prescaler(Pre::DIV64);
    assert_eq!(tim.registers().tscr2, 0xFFFF_FFFE);
    tim.set_prescaler(Pre::DIV1);
    assert_eq!(tim.registers().tscr2, 0xFFFF_FFF8);
    tim.set_prescaler(Pre::DIV128);
    assert_eq!(tim.registers().tscr2, 0xFFFF_FFFF);
    tim.set_prescaler(Pre::DIV16);
    assert_eq!(tim.registers().tscr2, 0xFFFF_FFFC);
}

#[test]
fn set_output_compare_on_a_zeroed_block() {
    let mut tim = tim_with(TIMRegisterBlock::new());
    tim.set_output_compare(Channel::CH3, TIM_TCR_OUTPUT_TOGGLE, TIM_TIE_ENABLE, 0x1234);
    assert_eq!(tim.registers(), TIMRegisterBlock {
        tcr: 0x0040_0000,
        tc3: 0x1234,
        tie: 0x08,
        ..TIMRegisterBlock::new()
    });
    assert_eq!(tim.registers().tcr & Channel::CH3.output_mask(), TIM_TCR_OUTPUT_TOGGLE << 6);
    assert_eq!((tim.registers().tcr >> 22) & 0b11, 0b01);
    assert_eq!(tim.read_input_capture(Channel::CH3), 0x1234);
    assert_eq!(tim.pending_writes(), &vec![
        write(0x8002_0014, 0x0040_0000),
        write(0x8002_0034, 0x1234),
        write(0x8002_0018, 0x08),
    ]);
}

#[test]
fn set_output_compare_keeps_the_other_channels() {
    for channel in CHANNELS {
        let mut tim = tim_with(ones());
        tim.set_output_compare(channel, TIM_TCR_OUTPUT_CLEAR, TIM_TIE_DISABLE, 0xCAFE);
        let mut expected = TIMRegisterBlock {
            tcr: 0xFFFF_FFFF & !(0x0001_0000 << (2 * channel.index())),
            tie: 0xFFFF_FFFF & !channel.mask(),
            ..ones()
        };
        expected.write(Register::TC(channel), 0xCAFE);
        assert_eq!(tim.registers(), expected);
        assert_eq!(tim.pending_writes(), &vec![
            write(TIM_TCR, expected.tcr),
            write(Register::TC(channel).address(), 0xCAFE),
            write(TIM_TIE, expected.tie),
        ]);
    }
}

#[test]
fn set_input_capture_writes_edge_then_interrupt_enable() {
    let mut tim = tim_with(TIMRegisterBlock::new());
    tim.set_input_capture(Channel::CH5, TIM_TCR_EDGE_FALLING, TIM_TIE_ENABLE);
    assert_eq!(tim.registers(), TIMRegisterBlock {
        tcr: 0x0000_0400,
        tie: 0x20,
        ..TIMRegisterBlock::new()
    });
    assert_eq!(tim.pending_writes(), &vec![write(TIM_TCR, 0x0000_0400), write(TIM_TIE, 0x20)]);
    tim.set_input_capture(Channel::CH5, TIM_TCR_EDGE_EITHER, TIM_TIE_DISABLE);
    assert_eq!(tim.registers(), TIMRegisterBlock { tcr: 0x0000_0C00, ..TIMRegisterBlock::new() });
    tim.set_input_capture(Channel::CH0, TIM_TCR_EDGE_RISING, TIM_TIE_ENABLE);
    assert_eq!(tim.registers(), TIMRegisterBlock {
        tcr: 0x0000_0C02,
        tie: 0x01,
        ..TIMRegisterBlock::new()
    });
    let mut tim = tim_with(ones());
    tim.set_input_capture(Channel::CH3, TIM_TCR_EDGE_FALLING, TIM_TIE_DISABLE);
    assert_eq!(tim.registers(), TIMRegisterBlock { tcr: 0xFFFF_FF7F, tie: 0xFFFF_FFF7, ..ones() });
    assert_eq!(tim.pending_writes(), &vec![write(TIM_TCR, 0xFFFF_FF7F), write(TIM_TIE, 0xFFFF_FFF7)]);
}

#[test]
fn interrupt_enable_takes_the_lowest_bit() {
    let mut tim = tim_with(TIMRegisterBlock { tie: 0xF0, ..TIMRegisterBlock::new() });
    tim.set_input_capture(Channel::CH1, TIM_TCR_EDGE_DISABLE, 3);
    assert_eq!(tim.registers().tie, 0xF2);
    tim.set_input_capture(Channel::CH4, TIM_TCR_EDGE_DISABLE, 2);
    assert_eq!(tim.registers().tie, 0xE2);
}

#[test]
fn read_input_capture_reads_the_channel_register() {
    let mut block = TIMRegisterBlock::new();
    for (number, channel) in CHANNELS.iter().enumerate() {
        block.write(Register::TC(*channel), 0x1000 + number as u32);
    }
    let tim = tim_with(block);
    for (number, channel) in CHANNELS.iter().enumerate() {
        assert_eq!(tim.read_input_capture(*channel), 0x1000 + number as u32);
    }
    assert!(tim.pending_writes().is_empty());
}

#[test]
fn read_count_reads_the_counter() {
    let tim = tim_with(TIMRegisterBlock { tcnt: 0xDEAD_BEEF, ..TIMRegisterBlock::new() });
    assert_eq!(tim.read_count(), 0xDEAD_BEEF);
    assert!(tim.pending_writes().is_empty());
    assert_eq!(tim.registers(), TIMRegisterBlock { tcnt: 0xDEAD_BEEF, ..TIMRegisterBlock::new() });
}

#[test]
fn timer_clear_interrupt_sets_the_channel_flag() {
    let mut tim = tim_with(TIMRegisterBlock { tflg1: 0x01, ..TIMRegisterBlock::new() });
    tim.clear_interrupt(Channel::CH4);
    assert_eq!(tim.registers(), TIMRegisterBlock { tflg1: 0x11, ..TIMRegisterBlock::new() });
    assert_eq!(tim.pending_writes(), &vec![write(0x8002_0020, 0x11)]);
    assert_eq!(tim.clear_interrupts(0xC0), Ok(()));
    assert_eq!(tim.registers().tflg1, 0xD1);
}

#[test]
fn enable_cf_sets_the_capture_flag() {
    for channel in CHANNELS {
        let mut tim = tim_with(TIMRegisterBlock { tcf: 0xFF00, ..TIMRegisterBlock::new() });
        tim.enable_cf(channel);
        assert_eq!(tim.registers(), TIMRegisterBlock {
            tcf: 0xFF00 | channel.mask(),
            ..TIMRegisterBlock::new()
        });
        assert_eq!(tim.pending_writes(), &vec![write(TIM_TCF, 0xFF00 | channel.mask())]);
    }
    let mut tim = tim_with(TIMRegisterBlock::new());
    assert_eq!(tim.enable_cfs(0x0F), Ok(()));
    assert_eq!(tim.registers().tcf, 0x0F);
    assert_eq!(tim.enable_cfs(0x81), Ok(()));
    assert_eq!(tim.registers().tcf, 0x8F);
}

#[test]
fn enable_tov_sets_the_overflow_flag() {
    let mut tim = tim_with(TIMRegisterBlock::new());
    tim.enable_tov(Channel::CH6);
    assert_eq!(tim.registers(), TIMRegisterBlock { tov: 0x40, ..TIMRegisterBlock::new() });
    assert_eq!(tim.enable_tovs(0x03), Ok(()));
    assert_eq!(tim.registers().tov, 0x43);
    assert_eq!(tim.pending_writes(), &vec![write(TIM_TOV, 0x40), write(0x8002_0010, 0x43)]);
}

#[test]
fn disable_tov_clears_the_overflow_flag() {
    let mut tim = tim_with(ones());
    tim.disable_tov(Channel::CH6);
    assert_eq!(tim.registers(), TIMRegisterBlock { tov: 0xFFFF_FFBF, ..ones() });
    assert_eq!(tim.disable_tovs(0x0F), Ok(()));
    assert_eq!(tim.registers().tov, 0xFFFF_FFB0);
    assert_eq!(tim.disable_tovs(0x00), Ok(()));
    assert_eq!(tim.registers().tov, 0xFFFF_FFB0);
    tim.enable_tov(Channel::CH6);
    assert_eq!(tim.registers().tov, 0xFFFF_FFF0);
}

#[test]
fn widest_channel_mask_is_accepted() {
    let mut tim = tim_with(TIMRegisterBlock::new());
    assert_eq!(tim.clear_interrupts(0xFF), Ok(()));
    assert_eq!(tim.enable_cfs(0xFF), Ok(()));
    assert_eq!(tim.enable_tovs(0xFF), Ok(()));
    assert_eq!(tim.registers(), TIMRegisterBlock {
        tflg1: 0xFF,
        tcf: 0xFF,
        tov: 0xFF,
        ..TIMRegisterBlock::new()
    });
    assert_eq!(tim.disable_tovs(0xFF), Ok(()));
    assert_eq!(tim.registers().tov, 0x00);
}

#[test]
fn channel_masks_out_of_range_are_refused_without_a_write() {
    let before = TIMRegisterBlock { tflg1: 0x12, tcf: 0x34, tov: 0x56, ..TIMRegisterBlock::new() };
    for mask in [0x100u32, 0x1FF, 0x0001_0000, 0x8000_0001, u32::MAX] {
        let mut tim = tim_with(before);
        assert_eq!(tim.clear_interrupts(mask), Err(Fault::MaskOutOfRange));
        assert_eq!(tim.enable_cfs(mask), Err(Fault::MaskOutOfRange));
        assert_eq!(tim.enable_tovs(mask), Err(Fault::MaskOutOfRange));
        assert_eq!(tim.disable_tovs(mask), Err(Fault::MaskOutOfRange));
        assert_eq!(tim.registers(), before);
        assert!(tim.pending_writes().is_empty());
    }
}

#[test]
fn timer_refresh_and_take_writes() {
    let mut tim = tim_with(TIMRegisterBlock::new());
    tim.enable();
    assert_eq!(tim.take_writes(), vec![write(TIM_TSCR, 0x80)]);
    assert!(tim.pending_writes().is_empty());
    tim.refresh(TIMRegisterBlock { tcnt: 77, tscr: 0x81, ..TIMRegisterBlock::new() });
    assert_eq!(tim.read_count(), 77);
    tim.disable();
    assert_eq!(tim.registers().tscr, 0x01);
    assert_eq!(tim.take_writes(), vec![write(TIM_TSCR, 0x01)]);
    assert!(tim.take_writes().is_empty());
}
