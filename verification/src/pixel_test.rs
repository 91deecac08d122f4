//! Dead-pixel test cycle: Space advances Off → Red → Green → Blue → White → Black → Off.
use vstd::prelude::*;

use crate::color::Rgb;

verus! {

/// One step of the dead-pixel test cycle, including the "off" (not running) state.
#[derive(Debug, Clone, Copy, PartialEq, Eq, Structural)]
pub enum PixelTestStep {
    /// Not running: the normal cleaning screen is shown (the default).
    Off,
    /// Step 1/5.
    Red,
    /// Step 2/5.
    Green,
    /// Step 3/5.
    Blue,
    /// Step 4/5.
    White,
    /// Step 5/5.
    Black,
}

/// The solid color of a running step (pure red, green, blue, white, black).
pub open spec fn pixel_test_color(s: PixelTestStep) -> Rgb {
    match s {
        PixelTestStep::Red => Rgb { r: 255, g: 0, b: 0 },
        PixelTestStep::Green => Rgb { r: 0, g: 255, b: 0 },
        PixelTestStep::Blue => Rgb { r: 0, g: 0, b: 255 },
        PixelTestStep::White => Rgb { r: 255, g: 255, b: 255 },
        _ => Rgb { r: 0, g: 0, b: 0 },
    }
}

impl PixelTestStep {
    /// Position in the cycle: 0 for off, 1 to 5 for the colored steps.
    pub open spec fn index(self) -> int {
        match self {
            PixelTestStep::Off => 0,
            PixelTestStep::Red => 1,
            PixelTestStep::Green => 2,
            PixelTestStep::Blue => 3,
            PixelTestStep::White => 4,
            PixelTestStep::Black => 5,
        }
    }

    /// The solid color shown for this step, `None` when off.
    pub fn color(self) -> (c: Option<Rgb>)
        ensures
            c == (if self == PixelTestStep::Off { None } else { Some(pixel_test_color(self)) }),
    {
        match self {
            PixelTestStep::Off => None,
            PixelTestStep::Red => Some(Rgb::new(255, 0, 0)),
            PixelTestStep::Green => Some(Rgb::new(0, 255, 0)),
            PixelTestStep::Blue => Some(Rgb::new(0, 0, 255)),
            PixelTestStep::White => Some(Rgb::new(255, 255, 255)),
            PixelTestStep::Black => Some(Rgb::new(0, 0, 0)),
        }
    }

    /// The `(step, total)` pair shown as "n/5", `None` when off.
    pub fn step_indicator(self) -> (p: Option<(u8, u8)>)
        ensures
            p == (if self == PixelTestStep::Off {
                None
            } else {
                Some((self.index() as u8, 5u8))
            }),
    {
        let step: u8 = match self {
            PixelTestStep::Off => return None,
            PixelTestStep::Red => 1,
            PixelTestStep::Green => 2,
            PixelTestStep::Blue => 3,
            PixelTestStep::White => 4,
            PixelTestStep::Black => 5,
        };
        Some((step, 5))
    }

    /// The next step in the cycle: the one after it, wrapping from Black back to Off.
    pub fn next(self) -> (n: PixelTestStep)
        ensures
            n.index() == (self.index() + 1) % 6,
    {
        match self {
            PixelTestStep::Off => PixelTestStep::Red,
            PixelTestStep::Red => PixelTestStep::Green,
            PixelTestStep::Green => PixelTestStep::Blue,
            PixelTestStep::Blue => PixelTestStep::White,
            PixelTestStep::White => PixelTestStep::Black,
            PixelTestStep::Black => PixelTestStep::Off,
        }
    }

    /// Whether the test is running (anything but off).
    pub fn is_running(self) -> (b: bool)
        ensures
            b == (self != PixelTestStep::Off),
    {
        !matches!(self, PixelTestStep::Off)
    }
}

impl Default for PixelTestStep {
    fn default() -> (s: PixelTestStep)
        ensures
            s == PixelTestStep::Off,
    {
        PixelTestStep::Off
    }
}

/// Each step is determined by its position in the cycle.
pub proof fn lemma_index_determines_step(a: PixelTestStep, b: PixelTestStep)
    requires
        a.index() == b.index(),
    ensures
        a == b,
{
}

/// Six presses of Space bring the test back to where it started.
pub proof fn lemma_six_steps_are_a_full_cycle(s: PixelTestStep, n1: PixelTestStep, n2: PixelTestStep,
    n3: PixelTestStep, n4: PixelTestStep, n5: PixelTestStep, n6: PixelTestStep)
    requires
        n1.index() == (s.index() + 1) % 6,
        n2.index() == (n1.index() + 1) % 6,
        n3.index() == (n2.index() + 1) % 6,
        n4.index() == (n3.index() + 1) % 6,
        n5.index() == (n4.index() + 1) % 6,
        n6.index() == (n5.index() + 1) % 6,
    ensures
        n6 == s,
{
}

/// Drives the dead-pixel test cycle (advanced when Space is pressed).
#[derive(Debug, Clone, Copy)]
pub struct PixelTest {
    step: PixelTestStep,
}

impl View for PixelTest {
    type V = PixelTestStep;

    closed spec fn view(&self) -> PixelTestStep {
        self.step
    }
}

impl PixelTest {
    /// A new, inactive pixel test.
    pub fn new() -> (t: PixelTest)
        ensures
            t@ == PixelTestStep::Off,
    {
        PixelTest { step: PixelTestStep::Off }
    }

    /// The current step.
    pub fn step(self) -> (s: PixelTestStep)
        ensures
            s == self@,
    {
        self.step
    }

    /// Advances to the next step.
    pub fn advance(&mut self)
        ensures
            final(self)@.index() == (old(self)@.index() + 1) % 6,
    {
        self.step = self.step.next();
    }

    /// Resets the test to off.
    pub fn reset(&mut self)
        ensures
            final(self)@ == PixelTestStep::Off,
    {
        self.step = PixelTestStep::Off;
    }
}

impl Default for PixelTest {
    fn default() -> (t: PixelTest)
        ensures
            t@ == PixelTestStep::Off,
    {
        PixelTest::new()
    }
}

} // verus!
