use vstd::prelude::*;

pub mod logo_animation;

use crate::DISPLAY_WIDTH;

verus! {

/// Height of one swipe box in pixels.
pub const LOGO_SWIPE_BOX_H: u8 = 8;

/// Growth of a swipe box per tick, in pixels.
pub const LOGO_SWIPE_BOX_SPEED: u8 = 12;

/// Delay between the starts of neighbouring swipe boxes, in ticks.
pub const LOGO_SWIPE_BOX_STAGGER: u8 = 1;

/// Ticks the logo stays fully shown before the boxes clear it.
pub const LOGO_SHOW: u32 = 15;

/// Number of swipe boxes: the display height divided by the box height.
pub const SWIPE_BOXES: usize = 8;

/// A swipe box to draw: the rectangle at `(0, row * 8)` of size `width` by 8.
#[derive(Clone, Copy, PartialEq, Eq, Structural, Debug)]
pub struct SwipeRect {
    pub row: u8,
    pub width: u8,
}

/// What one tick of the logo animation draws: the sweep boxes (filled, before the logo)
/// and the clearing boxes (blank, after the logo).
pub struct LogoFrame {
    sweep: [SwipeRect; 8],
    sweep_len: usize,
    clear: [SwipeRect; 8],
    clear_len: usize,
}

impl LogoFrame {
    #[verifier::type_invariant]
    spec fn inv(&self) -> bool {
        self.sweep_len <= 8 && self.clear_len <= 8
    }

    /// The sweep boxes, in drawing order.
    pub closed spec fn sweep_seq(&self) -> Seq<SwipeRect> {
        self.sweep@.take(self.sweep_len as int)
    }

    /// The clearing boxes, in drawing order.
    pub closed spec fn clear_seq(&self) -> Seq<SwipeRect> {
        self.clear@.take(self.clear_len as int)
    }

    /// The sweep boxes to draw filled, before the logo.
    pub fn sweep(&self) -> (r: &[SwipeRect])
        ensures
            r@ == self.sweep_seq(),
    {
        proof {
            use_type_invariant(self);
        }
        let r = &self.sweep[0..self.sweep_len];
        assert(r@ =~= self.sweep_seq());
        r
    }

    /// The clearing boxes to draw blank, after the logo.
    pub fn clear(&self) -> (r: &[SwipeRect])
        ensures
            r@ == self.clear_seq(),
    {
        proof {
            use_type_invariant(self);
        }
        let r = &self.clear[0..self.clear_len];
        assert(r@ =~= self.clear_seq());
        r
    }
}

/// The abstract state of the logo animation: per box the width cleared and the width
/// swept, the tick at which the sweep covered the display, and the tick count.
pub type LogoView = (Seq<(u8, u8)>, Option<u32>, u32);

/// The swept width of a box after a tick in which it may grow.
pub open spec fn swept(w: u8, limit: u32) -> u8 {
    if (w as u32) < limit {
        (w + 12) as u8
    } else {
        w
    }
}

/// The cleared width of a box after a tick: it grows while clearing has started for it
/// and it is narrower than the display.
pub open spec fn cleared(w: u8, started: bool) -> u8 {
    if started && w < 128 {
        (w + 12) as u8
    } else {
        w
    }
}

/// One tick of the animation with boxes swept up to `limit` pixels: while the sweep is
/// on, the boxes that have started (box `i` starts at tick `i`) grow; once the last box
/// covers the display the sweep is over; after that, once the logo has been shown for
/// `LOGO_SHOW` ticks, the boxes clear it, again staggered by one tick per box.
pub open spec fn logo_step(v: LogoView, limit: u32) -> LogoView {
    let (swipe, full, tick) = v;
    let next = Seq::new(
        SWIPE_BOXES as nat,
        |i: int|
            {
                let (c, d) = swipe[i];
                let d2 = if full is None && i <= tick {
                    swept(d, limit)
                } else {
                    d
                };
                let c2 = match full {
                    Some(f) => cleared(c, tick > f + LOGO_SHOW + i),
                    None => c,
                };
                (c2, d2)
            },
    );
    let full2 = if full is None && next[7].1 >= 128 {
        Some(tick)
    } else {
        full
    };
    (next, full2, (tick + 1) as u32)
}

/// What a tick from `old` to `new` draws: while the sweep was on, the started boxes at
/// their new swept widths; once it was over, every box at its new cleared width.
pub open spec fn frame_drawn(old: LogoView, new: LogoView, r: LogoFrame) -> bool {
    &&& r.sweep_seq().len() == (if old.1 is None {
        vstd::math::min(8, old.2 + 1)
    } else {
        0
    })
    &&& forall|k: int|
        0 <= k < r.sweep_seq().len() ==> #[trigger] r.sweep_seq()[k] == (SwipeRect {
            row: k as u8,
            width: new.0[k].1,
        })
    &&& r.clear_seq().len() == (if old.1 is Some {
        8int
    } else {
        0
    })
    &&& forall|k: int|
        0 <= k < r.clear_seq().len() ==> #[trigger] r.clear_seq()[k] == (SwipeRect {
            row: k as u8,
            width: new.0[k].0,
        })
}

/// Whether the animation is over: the last box swept and cleared the whole display.
pub open spec fn logo_done(v: LogoView) -> bool {
    v.0[7].0 >= 128 && v.0[7].1 >= 128
}

/// The splash screen animation: boxes sweep over the display to reveal the logo, then
/// clear it.
pub struct LogoAnimation {
    swipe: [(u8, u8); 8],
    swipe_full_at_tick: Option<u32>,
    tick_n: u32,
}

impl View for LogoAnimation {
    type V = LogoView;

    closed spec fn view(&self) -> LogoView {
        (self.swipe@, self.swipe_full_at_tick, self.tick_n)
    }
}

impl LogoAnimation {
    /// Box widths are whole steps, swept widths stay below 253 pixels and cleared widths
    /// below 133, and the sweep ended at an earlier tick.
    #[verifier::type_invariant]
    spec fn inv(&self) -> bool {
        &&& forall|i: int|
            0 <= i < 8 ==> {
                let (c, d) = #[trigger] self.swipe@[i];
                &&& c % 12 == 0
                &&& c <= 132
                &&& d % 12 == 0
                &&& d <= 252
            }
        &&& self.swipe_full_at_tick matches Some(f) ==> f < self.tick_n
    }

    /// Every box empty, at tick 0.
    pub fn new() -> (r: Self)
        ensures
            r@.0 == Seq::new(8, |i: int| (0u8, 0u8)),
            r@.1 is None,
            r@.2 == 0,
    {
        let r = Self { swipe: [(0u8, 0u8); 8], swipe_full_at_tick: None, tick_n: 0 };
        assert(r.swipe@ =~= Seq::new(8, |i: int| (0u8, 0u8)));
        r
    }

    /// The current tick count.
    pub fn ticks(&self) -> (r: u32)
        ensures
            r == self@.2,
    {
        self.tick_n
    }

    /// Whether a tick stays within the counters' range: the tick count, and the tick at
    /// which clearing reaches the last box.
    pub fn can_tick(&self) -> (r: bool)
        ensures
            r == (self@.2 < u32::MAX && (self@.1 matches Some(f) ==> f + LOGO_SHOW + 7
                <= u32::MAX)),
    {
        self.tick_n < u32::MAX && match self.swipe_full_at_tick {
            Some(f) => f <= u32::MAX - LOGO_SHOW - 7,
            None => true,
        }
    }

    /// One tick with boxes swept up to `draw_limit` pixels: the state moves as
    /// `logo_step` says, and the frame holds, while the sweep was on, the started boxes
    /// at their new widths, and, once it was over, every box at its new cleared width.
    pub fn advance(&mut self, draw_limit: u32) -> (r: LogoFrame)
        requires
            draw_limit <= 252,
            old(self)@.2 < u32::MAX,
            old(self)@.1 matches Some(f) ==> f + LOGO_SHOW + 7 <= u32::MAX,
        ensures
            final(self)@ == logo_step(old(self)@, draw_limit),
            frame_drawn(old(self)@, final(self)@, r),
    {
        proof {
            use_type_invariant(&*self);
        }
        let ghost old_v = self@;
        let ghost target = logo_step(old_v, draw_limit);
        let mut sweep: [SwipeRect; 8] = [SwipeRect { row: 0, width: 0 }; 8];
        let mut sweep_len: usize = 0;
        let mut clear: [SwipeRect; 8] = [SwipeRect { row: 0, width: 0 }; 8];
        let mut clear_len: usize = 0;
        let mut swipe = self.swipe;
        let tick = self.tick_n;
        let full = self.swipe_full_at_tick;
        // Draw sweep
        if full.is_none() {
            let mut i: usize = 0;
            while i < SWIPE_BOXES && tick >= (i as u32) * (LOGO_SWIPE_BOX_STAGGER as u32)
                invariant
                    i <= SWIPE_BOXES,
                    full is None,
                    old_v == (self.swipe@, full, tick),
                    draw_limit <= 252,
                    swipe@.len() == 8,
                    i <= tick + 1,
                    forall|k: int|
                        0 <= k < 8 ==> {
                            let (c, d) = #[trigger] self.swipe@[k];
                            &&& c % 12 == 0
                            &&& c <= 132
                            &&& d % 12 == 0
                            &&& d <= 252
                        },
                    forall|k: int|
                        0 <= k < i ==> #[trigger] swipe@[k] == (self.swipe@[k].0, swept(
                            self.swipe@[k].1,
                            draw_limit,
                        )),
                    forall|k: int| i <= k < 8 ==> #[trigger] swipe@[k] == self.swipe@[k],
                    sweep@.len() == 8,
                    forall|k: int|
                        0 <= k < i ==> #[trigger] sweep@[k] == (SwipeRect {
                            row: k as u8,
                            width: swipe@[k].1,
                        }),
                decreases SWIPE_BOXES - i,
            {
                let (c, w) = swipe[i];
                let w2 = if (w as u32) < draw_limit {
                    w + LOGO_SWIPE_BOX_SPEED
                } else {
                    w
                };
                swipe[i] = (c, w2);
                sweep[i] = SwipeRect { row: i as u8, width: w2 };
                i += 1;
            }
            assert(i == vstd::math::min(8, tick + 1));
            sweep_len = i;
        }
        // Sweep clear (only after the sweep is over)
        match full {
            Some(full_at) => {
                let mut i: usize = 0;
                while i < SWIPE_BOXES
                    invariant
                        i <= SWIPE_BOXES,
                        full == Some(full_at),
                        full_at + LOGO_SHOW + 7 <= u32::MAX,
                        old_v == (self.swipe@, full, tick),
                        swipe@.len() == 8,
                        forall|k: int|
                            0 <= k < 8 ==> {
                                let (c, d) = #[trigger] self.swipe@[k];
                                &&& c % 12 == 0
                                &&& c <= 132
                            },
                        forall|k: int|
                            0 <= k < i ==> #[trigger] swipe@[k] == (cleared(
                                self.swipe@[k].0,
                                tick > full_at + LOGO_SHOW + k,
                            ), self.swipe@[k].1),
                        forall|k: int| i <= k < 8 ==> #[trigger] swipe@[k] == self.swipe@[k],
                        clear@.len() == 8,
                        forall|k: int|
                            0 <= k < i ==> #[trigger] clear@[k] == (SwipeRect {
                                row: k as u8,
                                width: swipe@[k].0,
                            }),
                    decreases SWIPE_BOXES - i,
                {
                    let stagger = i as u32 * LOGO_SWIPE_BOX_STAGGER as u32;
                    assert(stagger == i);
                    let (c, w) = swipe[i];
                    let mut c2 = c;
                    if tick > full_at + LOGO_SHOW + stagger {
                        if c < 128 {
                            c2 = c + LOGO_SWIPE_BOX_SPEED;
                        }
                    }
                    swipe[i] = (c2, w);
                    clear[i] = SwipeRect { row: i as u8, width: c2 };
                    i += 1;
                }
                clear_len = i;
            },
            None => {},
        }
        let mut new_full = full;
        if full.is_none() {
            let (_, width) = swipe[SWIPE_BOXES - 1];
            if width >= 128 {
                new_full = Some(tick);
            }
        }
        assert(swipe@ =~= target.0);
        *self = LogoAnimation { swipe, swipe_full_at_tick: new_full, tick_n: tick + 1 };
        let r = LogoFrame { sweep, sweep_len, clear, clear_len };
        assert(r.sweep_seq().len() == sweep_len);
        assert(r.clear_seq().len() == clear_len);
        r
    }

    /// One tick of the splash screen: boxes are swept up to the display width.
    pub fn tick_frame(&mut self) -> (r: LogoFrame)
        requires
            old(self)@.2 < u32::MAX,
            old(self)@.1 matches Some(f) ==> f + LOGO_SHOW + 7 <= u32::MAX,
        ensures
            final(self)@ == logo_step(old(self)@, DISPLAY_WIDTH as u32),
            frame_drawn(old(self)@, final(self)@, r),
    {
        self.advance(DISPLAY_WIDTH as u32)
    }

    /// Whether the animation is over.
    pub fn is_done(&self) -> (r: bool)
        ensures
            r == logo_done(self@),
    {
        let (clear_w, draw_w) = self.swipe[SWIPE_BOXES - 1];
        clear_w >= 128 && draw_w >= 128
    }
}

/// A tick never shrinks a box, so a finished animation stays finished.
pub proof fn lemma_logo_step_monotone(v: LogoView, limit: u32)
    requires
        v.0.len() == 8,
        limit <= 252,
        forall|i: int|
            0 <= i < 8 ==> (#[trigger] v.0[i]).0 % 12 == 0 && v.0[i].0 <= 132 && v.0[i].1 % 12
                == 0 && v.0[i].1 <= 252,
    ensures
        forall|i: int|
            0 <= i < 8 ==> (#[trigger] logo_step(v, limit).0[i]).0 >= v.0[i].0 && logo_step(
                v,
                limit,
            ).0[i].1 >= v.0[i].1,
        logo_done(v) ==> logo_done(logo_step(v, limit)),
{
    assert forall|i: int| 0 <= i < 8 implies (#[trigger] logo_step(v, limit).0[i]).0 >= v.0[
        i].0 && logo_step(v, limit).0[i].1 >= v.0[i].1 by {
        let (c, d) = v.0[i];
        assert(c % 12 == 0 && c <= 132);
        assert(d % 12 == 0 && d <= 252);
    }
    let _ = logo_step(v, limit).0[7];
}

/// The state of a fresh animation.
pub open spec fn logo_initial() -> LogoView {
    (Seq::new(8, |i: int| (0u8, 0u8)), None, 0)
}

/// The state after `n` ticks from `v`.
pub open spec fn logo_run(v: LogoView, limit: u32, n: nat) -> LogoView
    decreases n,
{
    if n == 0 {
        v
    } else {
        logo_step(logo_run(v, limit, (n - 1) as nat), limit)
    }
}

/// The width of a box that has grown `k` times (never past 132 pixels).
spec fn grown(k: int) -> u8 {
    if k <= 0 {
        0
    } else if k >= 11 {
        132
    } else {
        (12 * k) as u8
    }
}

/// The state of a fresh animation on a 128-pixel display after `n` ticks.
spec fn logo_after(n: nat) -> LogoView {
    (
        Seq::new(8, |i: int| (grown(n - 33 - i), grown(n - i))),
        if n <= 17 {
            None
        } else {
            Some(17u32)
        },
        n as u32,
    )
}

proof fn lemma_logo_after(n: nat)
    requires
        n <= u32::MAX,
    ensures
        logo_run(logo_initial(), 128, n) == logo_after(n),
    decreases n,
{
    if n == 0 {
        assert(logo_initial().0 =~= logo_after(0).0);
    } else {
        let m = (n - 1) as nat;
        lemma_logo_after(m);
        let v = logo_after(m);
        let next = logo_step(v, 128);
        assert forall|i: int| 0 <= i < 8 implies #[trigger] next.0[i] == logo_after(n).0[i] by {
            let k = m - i;
            let c = m - 33 - i;
            assert(v.0[i] == (grown(c), grown(k)));
        }
        assert(next.0 =~= logo_after(n).0);
        assert(next.0[7] == logo_after(n).0[7]);
    }
}

/// Started afresh on a 128-pixel display, the splash screen is over after exactly 51
/// ticks.
pub proof fn lemma_logo_finishes(n: nat)
    requires
        n <= 51,
    ensures
        logo_done(logo_run(logo_initial(), 128, n)) <==> n == 51,
{
    lemma_logo_after(n);
    assert(logo_after(n).0[7] == (grown(n - 40), grown(n - 7)));
}

proof fn lemma_grown_monotone(a: int, b: int)
    requires
        a <= b,
    ensures
        grown(a) <= grown(b) <= 132,
{
}

/// Every state that a fresh animation on a 128-pixel display reaches, tick by tick (at
/// most `u32::MAX` ticks, as the tick counter allows): the tick count is the number of
/// ticks; no box is swept or cleared past 132 pixels (so no width overflows); a lower
/// box is never wider than the one above it, swept or cleared; and the sweep is
/// recorded as complete at tick 17 and from then on.
pub proof fn lemma_logo_reachable(n: nat)
    requires
        n <= u32::MAX,
    ensures
        ({
            let v = logo_run(logo_initial(), 128, n);
            &&& v.0.len() == 8
            &&& v.2 == n
            &&& forall|i: int| 0 <= i < 8 ==> (#[trigger] v.0[i]).0 <= 132 && v.0[i].1 <= 132
            &&& forall|i: int, j: int|
                0 <= i <= j < 8 ==> (#[trigger] v.0[j]).0 <= (#[trigger] v.0[i]).0 && v.0[j].1
                    <= v.0[i].1
            &&& v.1 == (if n <= 17 {
                None
            } else {
                Some(17u32)
            })
        }),
{
    lemma_logo_after(n);
    let v = logo_after(n);
    assert forall|i: int| 0 <= i < 8 implies (#[trigger] v.0[i]).0 <= 132 && v.0[i].1 <= 132 by {
        lemma_grown_monotone(n - 33 - i, n - 33 - i);
        lemma_grown_monotone(n - i, n - i);
    }
    assert forall|i: int, j: int| 0 <= i <= j < 8 implies (#[trigger] v.0[j]).0 <= (
    #[trigger] v.0[i]).0 && v.0[j].1 <= v.0[i].1 by {
        lemma_grown_monotone(n - 33 - j, n - 33 - i);
        lemma_grown_monotone(n - j, n - i);
    }
}

/// Once the sweep is recorded as complete, the recorded tick never changes on later
/// ticks.
pub proof fn lemma_logo_full_tick_fixed(m: nat, n: nat)
    requires
        m <= n <= u32::MAX,
        logo_run(logo_initial(), 128, m).1 is Some,
    ensures
        logo_run(logo_initial(), 128, n).1 == logo_run(logo_initial(), 128, m).1,
{
    lemma_logo_reachable(m);
    lemma_logo_reachable(n);
}

} // verus!
