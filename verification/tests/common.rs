use aftx06::apb::gpio::{GPIORegisterBlock, GPIO};
use aftx06::apb::timer::{TIMRegisterBlock, TIM};
use aftx06::apb::{Peripheral, Peripherals};
use aftx06::common::{check_mask, with_field, Fault, U8_MAX};

#[test]
fn mask_width_is_eight_bits() {
    assert_eq!(U8_MAX, 0xFF);
}

#[test]
fn check_mask_accepts_up_to_eight_bits() {
    assert_eq!(check_mask(0), Ok(()));
    assert_eq!(check_mask(0x80), Ok(()));
    assert_eq!(check_mask(0xFF), Ok(()));
    assert_eq!(check_mask(0x100), Err(Fault::MaskOutOfRange));
    assert_eq!(check_mask(0xFFFF_FF00), Err(Fault::MaskOutOfRange));
    assert_eq!(check_mask(u32::MAX), Err(Fault::MaskOutOfRange));
}

#[test]
fn with_field_replaces_the_masked_bits() {
    assert_eq!(with_field(0xFFFF_0000, 0x0000_0FF0, 0x0000_1234), 0xFFFF_0230);
    assert_eq!(with_field(0xFFFF_FFFF, 0x0000_00F0, 0x0000_0000), 0xFFFF_FF0F);
    assert_eq!(with_field(0x0000_0000, 0x0000_00F0, 0xFFFF_FFFF), 0x0000_00F0);
    assert_eq!(with_field(0x1234_5678, 0x0000_0000, 0xFFFF_FFFF), 0x1234_5678);
    assert_eq!(with_field(0x1234_5678, 0xFFFF_FFFF, 0x9ABC_DEF0), 0x9ABC_DEF0);
}

#[test]
fn fresh_registry_has_no_handle_out() {
    let peripherals = Peripherals::new();
    assert!(!peripherals.constructed(Peripheral::Gpio));
    assert!(!peripherals.constructed(Peripheral::Tim));
}

#[test]
fn each_peripheral_is_granted_once() {
    let mut peripherals = Peripherals::new();
    assert!(GPIO::new(&mut peripherals, GPIORegisterBlock::new()).is_ok());
    assert!(peripherals.constructed(Peripheral::Gpio));
    assert!(!peripherals.constructed(Peripheral::Tim));
    assert!(matches!(
        GPIO::new(&mut peripherals, GPIORegisterBlock::new()),
        Err(Fault::DuplicateConstruction)
    ));
    assert!(!peripherals.constructed(Peripheral::Tim));
    assert!(TIM::new(&mut peripherals, TIMRegisterBlock::new()).is_ok());
    assert!(peripherals.constructed(Peripheral::Gpio));
    assert!(peripherals.constructed(Peripheral::Tim));
    for _ in 0..3 {
        assert!(matches!(
            TIM::new(&mut peripherals, TIMRegisterBlock::new()),
            Err(Fault::DuplicateConstruction)
        ));
        assert!(matches!(
            GPIO::new(&mut peripherals, GPIORegisterBlock::new()),
            Err(Fault::DuplicateConstruction)
        ));
    }
}

#[test]
fn registries_are_independent() {
    let mut first = Peripherals::new();
    let mut second = Peripherals::new();
    assert!(TIM::new(&mut first, TIMRegisterBlock::new()).is_ok());
    assert!(TIM::new(&mut second, TIMRegisterBlock::new()).is_ok());
    assert!(TIM::new(&mut first, TIMRegisterBlock::new()).is_err());
}
