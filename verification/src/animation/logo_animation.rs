use vstd::prelude::*;

use crate::animation::{frame_drawn, logo_done, logo_step, LogoFrame, LogoView, LOGO_SHOW};

verus! {

/// The splash screen animation, drawn on a display of any width: the boxes sweep up to
/// the display width, and clear up to 128 pixels.
pub struct LogoAnimation {
    inner: crate::animation::LogoAnimation,
}

impl View for LogoAnimation {
    type V = LogoView;

    closed spec fn view(&self) -> LogoView {
        self.inner@
    }
}

impl LogoAnimation {
    /// Every box empty, at tick 0.
    pub fn new() -> (r: Self)
        ensures
            r@.0 == Seq::new(8, |i: int| (0u8, 0u8)),
            r@.1 is None,
            r@.2 == 0,
    {
        Self { inner: crate::animation::LogoAnimation::new() }
    }

    /// One tick on a display `display_w` pixels wide. Wider displays than 252 pixels
    /// overflow a box width and are left out.
    pub fn tick_frame(&mut self, display_w: u32) -> (r: LogoFrame)
        requires
            display_w <= 252,
            old(self)@.2 < u32::MAX,
            old(self)@.1 matches Some(f) ==> f + LOGO_SHOW + 7 <= u32::MAX,
        ensures
            final(self)@ == logo_step(old(self)@, display_w),
            frame_drawn(old(self)@, final(self)@, r),
    {
        self.inner.advance(display_w)
    }

    /// Whether a tick stays within the counters' range.
    pub fn can_tick(&self) -> (r: bool)
        ensures
            r == (self@.2 < u32::MAX && (self@.1 matches Some(f) ==> f + LOGO_SHOW + 7
                <= u32::MAX)),
    {
        self.inner.can_tick()
    }

    /// Whether the animation is over.
    pub fn is_done(&self) -> (r: bool)
        ensures
            r == logo_done(self@),
    {
        self.inner.is_done()
    }
}

} // verus!
