//! Indicator bank: four independently addressable brightness outputs, each a
//! duty value in 0–255. This type owns the most recent duty value of each
//! output; applying a duty to a physical PWM pin is the surrounding
//! program's concern.

use vstd::prelude::*;

verus! {

/// The four indicator duty values. `set` addresses them 1-based; an index
/// outside 1..=4 is a no-op.
pub struct FourLedDisplay {
    led1: u8,
    led2: u8,
    led3: u8,
    led4: u8,
}

impl FourLedDisplay {
    /// The four duty values, in output order.
    pub closed spec fn duties(&self) -> Seq<u8> {
        seq![self.led1, self.led2, self.led3, self.led4]
    }

    /// A fresh bank with every output dark.
    pub fn new() -> (r: Self)
        ensures
            r.duties() == seq![0u8, 0u8, 0u8, 0u8],
    {
        let r = FourLedDisplay { led1: 0, led2: 0, led3: 0, led4: 0 };
        proof {
            assert(r.duties() =~= seq![0u8, 0u8, 0u8, 0u8]);
        }
        r
    }

    /// Set one output (1-based). Indices outside 1..=4 leave every output
    /// unchanged.
    pub fn set(&mut self, index: u8, value: u8)
        ensures
            1 <= index <= 4 ==> final(self).duties() == old(self).duties().update(
                index - 1,
                value,
            ),
            !(1 <= index <= 4) ==> final(self).duties() == old(self).duties(),
    {
        match index {
            1 => self.led1 = value,
            2 => self.led2 = value,
            3 => self.led3 = value,
            4 => self.led4 = value,
            _ => {},
        }
        proof {
            if 1 <= index <= 4 {
                assert(self.duties() =~= old(self).duties().update(index - 1, value));
            } else {
                assert(self.duties() =~= old(self).duties());
            }
        }
    }

    /// Set all four outputs to one duty value.
    pub fn set_all(&mut self, value: u8)
        ensures
            final(self).duties() == seq![value, value, value, value],
    {
        self.led1 = value;
        self.led2 = value;
        self.led3 = value;
        self.led4 = value;
        proof {
            assert(self.duties() =~= seq![value, value, value, value]);
        }
    }

    /// Set the four outputs at once, first to fourth.
    pub fn set_many(&mut self, first: u8, second: u8, third: u8, fourth: u8)
        ensures
            final(self).duties() == seq![first, second, third, fourth],
    {
        self.led1 = first;
        self.led2 = second;
        self.led3 = third;
        self.led4 = fourth;
        proof {
            assert(self.duties() =~= seq![first, second, third, fourth]);
        }
    }

    /// Read one output back (1-based).
    pub fn duty(&self, index: u8) -> (r: u8)
        requires
            1 <= index <= 4,
        ensures
            r == self.duties()[index - 1],
    {
        match index {
            1 => self.led1,
            2 => self.led2,
            3 => self.led3,
            _ => self.led4,
        }
    }
}

} // verus!
