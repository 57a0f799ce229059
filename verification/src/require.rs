//! What a kernel asks of each kind of driver.
use crate::config::{Pixel, Rect};
use crate::{GraphicResult, InterruptResult, IoResult};
use vstd::prelude::*;

verus! {

/// What every driver offers to the interrupt path.
pub trait Driver {
    /// The driver's own state is consistent. A driver that keeps no state of
    /// its own to speak of is always ready.
    open spec fn ready(&self) -> bool {
        true
    }

    /// Handles the device's interrupt: takes what the device completed.
    fn handler(&mut self) -> (r: InterruptResult)
        requires
            old(self).ready(),
        ensures
            final(self).ready(),
    ;

    /// Records that the device's interrupt line fired.
    fn pending(&mut self) -> (r: InterruptResult)
        requires
            old(self).ready(),
        ensures
            final(self).ready(),
    ;
}

/// A block device, read and written synchronously: each call returns when the
/// device is done with the request.
pub trait BlockDriver: Driver {
    fn sync_write(&mut self, offset: usize, len: usize, data: &[u8]) -> IoResult;

    fn sync_read(&mut self, offset: usize, len: usize, data: &mut [u8]) -> IoResult;
}

pub trait GraphicDriver: Driver {
    fn draw_blend(&mut self, rect: Rect, buffer: &[Pixel]) -> GraphicResult;

    fn draw_override(&mut self, rect: Rect, buffer: &[Pixel]) -> GraphicResult;

    fn refresh(&mut self);
}

pub trait NetDriver: Driver {
    fn send(&mut self, data: &[u8]);

    fn mac(&self) -> usize;
}

} // verus!
