//! The peripherals on the APB bus, and the registry that hands out their
//! handles.

use vstd::prelude::*;

pub mod gpio;
pub mod timer;

verus! {

/// The peripherals that have a driver.
#[derive(Clone, Copy, Debug, PartialEq, Eq, Structural)]
pub enum Peripheral {
    Gpio,
    Tim,
}

/// Records which peripherals already have a handle.
///
/// A peripheral's registers are updated by read-modify-write sequences, so two
/// independent owners would corrupt each other's bits. A handle can therefore
/// only be constructed through a registry, and a registry grants each
/// peripheral once: nothing ever clears a mark.
pub struct Peripherals {
    gpio_constructed: bool,
    tim_constructed: bool,
}

/// What a registry stands for: one mark per peripheral, set once the
/// peripheral's handle has been asked for.
pub struct PeripheralsView {
    pub gpio_constructed: bool,
    pub tim_constructed: bool,
}

impl PeripheralsView {
    /// Whether the handle of `peripheral` has been asked for.
    pub open spec fn constructed(self, peripheral: Peripheral) -> bool {
        match peripheral {
            Peripheral::Gpio => self.gpio_constructed,
            Peripheral::Tim => self.tim_constructed,
        }
    }

    /// The marks after the handle of `peripheral` has been asked for.
    pub open spec fn construct(self, peripheral: Peripheral) -> PeripheralsView {
        match peripheral {
            Peripheral::Gpio => PeripheralsView { gpio_constructed: true, ..self },
            Peripheral::Tim => PeripheralsView { tim_constructed: true, ..self },
        }
    }

    /// The marks after the handles of `peripherals` have been asked for, one
    /// after the other.
    pub open spec fn construct_all(self, peripherals: Seq<Peripheral>) -> PeripheralsView
        decreases peripherals.len(),
    {
        if peripherals.len() == 0 {
            self
        } else {
            self.construct_all(peripherals.drop_last()).construct(peripherals.last())
        }
    }
}

impl View for Peripherals {
    type V = PeripheralsView;

    closed spec fn view(&self) -> PeripheralsView {
        PeripheralsView {
            gpio_constructed: self.gpio_constructed,
            tim_constructed: self.tim_constructed,
        }
    }
}

impl Peripherals {
    /// A registry from which no handle has been taken yet.
    pub fn new() -> (peripherals: Peripherals)
        ensures
            !peripherals@.gpio_constructed,
            !peripherals@.tim_constructed,
    {
        Peripherals { gpio_constructed: false, tim_constructed: false }
    }

    /// Whether the handle of `peripheral` has been asked for.
    pub fn constructed(&self, peripheral: Peripheral) -> (constructed: bool)
        ensures
            constructed == self@.constructed(peripheral),
    {
        match peripheral {
            Peripheral::Gpio => self.gpio_constructed,
            Peripheral::Tim => self.tim_constructed,
        }
    }

    /// Marks `peripheral` as constructed, and says whether it was free.
    pub(crate) fn claim(&mut self, peripheral: Peripheral) -> (granted: bool)
        ensures
            granted == !old(self)@.constructed(peripheral),
            final(self)@ == old(self)@.construct(peripheral),
    {
        match peripheral {
            Peripheral::Gpio => {
                let granted = !self.gpio_constructed;
                self.gpio_constructed = true;
                granted
            },
            Peripheral::Tim => {
                let granted = !self.tim_constructed;
                self.tim_constructed = true;
                granted
            },
        }
    }
}

/// A peripheral stays constructed: once its handle has been asked for,
/// whatever handles are asked for afterwards, in whatever order, its mark is
/// still set, so that asking for its handle again fails.
pub proof fn lemma_constructed_for_good(
    marks: PeripheralsView,
    peripheral: Peripheral,
    later: Seq<Peripheral>,
)
    ensures
        marks.construct(peripheral).construct_all(later).constructed(peripheral),
    decreases later.len(),
{
    if later.len() > 0 {
        lemma_constructed_for_good(marks, peripheral, later.drop_last());
    }
}

/// Asking for a handle marks its peripheral and no other.
pub proof fn lemma_construct_marks_one(marks: PeripheralsView, peripheral: Peripheral)
    ensures
        marks.construct(peripheral).constructed(peripheral),
        forall|other: Peripheral|
            other != peripheral ==> marks.construct(peripheral).constructed(other)
                == marks.constructed(other),
{
}

} // verus!
