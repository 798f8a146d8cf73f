//! Lazy sequence conversion toward the RGB hub.
//!
//! A `RgbConversionIter` holds a sequence of source color values and hands
//! out their RGB conversions one at a time, in order.  It keeps no buffer
//! beyond the source itself, converts nothing ahead of demand, and can be
//! restarted to the beginning at any time.

use vstd::prelude::*;

use crate::DigitalRGBColor;
use crate::RGBConvertible;

verus! {

/// A lazy, finite, restartable converter from a sequence of color values to
/// their `DigitalRGBColor` conversions.
pub struct RgbConversionIter<T> {
    items: Vec<T>,
    pos: usize,
}

impl<T> RgbConversionIter<T> {
    /// The source sequence that the converter walks.
    pub closed spec fn source(self) -> Seq<T> {
        self.items@
    }

    /// How many values have been handed out since the start or the last
    /// restart.
    pub closed spec fn position(self) -> int {
        self.pos as int
    }

    /// Wrap a vector of source values into a converter positioned at the
    /// beginning.
    pub fn new(items: Vec<T>) -> (it: Self)
        ensures
            it.source() == items@,
            it.position() == 0,
    {
        RgbConversionIter { items, pos: 0 }
    }

    /// Rewind the converter to the beginning of its source sequence.
    pub fn restart(&mut self)
        ensures
            final(self).source() == old(self).source(),
            final(self).position() == 0,
    {
        self.pos = 0;
    }
}

impl<T: RGBConvertible> RgbConversionIter<T> {
    /// Convert and yield the next source value, or `None` when the source
    /// is exhausted.  The source sequence itself never changes.
    pub fn next(&mut self) -> (r: Option<DigitalRGBColor>)
        ensures
            final(self).source() == old(self).source(),
            old(self).position() < old(self).source().len() ==> {
                &&& r == Some(old(self).source()[old(self).position()].to_rgb_spec())
                &&& final(self).position() == old(self).position() + 1
            },
            old(self).position() >= old(self).source().len() ==> {
                &&& r is None
                &&& final(self).position() == old(self).position()
            },
    {
        if self.pos < self.items.len() {
            let c = self.items[self.pos].to_rgb();
            self.pos = self.pos + 1;
            Some(c)
        } else {
            None
        }
    }
}

} // verus!
