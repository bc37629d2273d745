//! Colour providers: sources of the next colour to draw with. The
//! rainbow provider walks each channel up and down between its bounds,
//! one channel at a time.

use vstd::prelude::*;

use crate::data::Rgb8;
use crate::render::Renderable;

verus! {

/// A source of colours, one per call.
pub trait Provider {
    /// The next colour to draw with.
    fn provide_next(&mut self) -> Rgb8;
}

/// Which way a channel is currently counting.
#[derive(Clone, Copy, Debug, PartialEq, Eq, Structural)]
pub enum CountMode {
    Up,
    Down,
}

impl CountMode {
    /// Turn around.
    pub fn reverse(&mut self)
        ensures
            *final(self) == (match *old(self) {
                CountMode::Up => CountMode::Down,
                CountMode::Down => CountMode::Up,
            }),
    {
        match self {
            CountMode::Up => {
                *self = CountMode::Down;
            },
            CountMode::Down => {
                *self = CountMode::Up;
            },
        }
    }
}

/// One colour channel walking between a lower and an upper bound.
#[derive(Clone, Copy, Debug, PartialEq, Eq, Structural)]
pub struct RgbSetting {
    pub min: u8,
    pub max: u8,
    pub current: u8,
    pub increment: u8,
    pub count_mode: CountMode,
}

/// One step of a channel: move by the increment in the current
/// direction, clamped to the bounds, turning around at either bound.
pub open spec fn advanced(s: RgbSetting) -> RgbSetting {
    let stepped: u8 = match s.count_mode {
        CountMode::Up => if s.current + s.increment >= s.max {
            s.max
        } else {
            (s.current + s.increment) as u8
        },
        CountMode::Down => if s.current <= s.min + s.increment {
            s.min
        } else {
            (s.current - s.increment) as u8
        },
    };
    let mode = if stepped == s.max || stepped == s.min {
        match s.count_mode {
            CountMode::Up => CountMode::Down,
            CountMode::Down => CountMode::Up,
        }
    } else {
        s.count_mode
    };
    RgbSetting { current: stepped, count_mode: mode, ..s }
}

impl RgbSetting {
    /// A channel starting at its lower bound, counting up.
    pub fn new(min: u8, max: u8, increment: u8) -> (r: RgbSetting)
        ensures
            r == (RgbSetting { min, max, current: min, increment, count_mode: CountMode::Up }),
    {
        RgbSetting { max, min, current: min, increment, count_mode: CountMode::Up }
    }

    /// Whether the channel sits at its upper bound.
    pub fn is_at_max(&self) -> (r: bool)
        ensures
            r == (self.current == self.max),
    {
        self.current == self.max
    }

    /// Whether the channel sits at its lower bound.
    pub fn is_at_min(&self) -> (r: bool)
        ensures
            r == (self.current == self.min),
    {
        self.current == self.min
    }

    /// Take one step.
    pub fn advance(&mut self)
        ensures
            *final(self) == advanced(*old(self)),
    {
        match self.count_mode {
            CountMode::Up => {
                let stepped = self.current.saturating_add(self.increment);
                if stepped >= self.max {
                    self.current = self.max;
                } else {
                    self.current = stepped;
                }
            },
            CountMode::Down => {
                let stepped = self.current.saturating_sub(self.increment);
                if stepped <= self.min {
                    self.current = self.min;
                } else {
                    self.current = stepped;
                }
            },
        }
        if self.current == self.max || self.current == self.min {
            self.count_mode.reverse();
        }
    }
}

/// Walks the three channels through their ranges, one at a time: the
/// masked channel advances until it hits a bound, then the mask moves on
/// to the next channel.
#[derive(Clone, Copy, Debug, PartialEq, Eq, Structural)]
pub struct Rainbow {
    pub r: RgbSetting,
    pub g: RgbSetting,
    pub b: RgbSetting,
    pub mask_r: bool,
    pub mask_g: bool,
    pub mask_b: bool,
    pub color: Rgb8,
}

/// One step of the rainbow: advance the first masked channel; once it
/// reaches a bound, rotate the mask to the next channel.
pub open spec fn rainbow_stepped(rb: Rainbow) -> Rainbow {
    if rb.mask_r {
        let s = advanced(rb.r);
        if s.current == s.max || s.current == s.min {
            Rainbow { r: s, mask_r: rb.mask_b, mask_g: rb.mask_r, mask_b: rb.mask_g, ..rb }
        } else {
            Rainbow { r: s, ..rb }
        }
    } else if rb.mask_g {
        let s = advanced(rb.g);
        if s.current == s.max || s.current == s.min {
            Rainbow { g: s, mask_r: rb.mask_b, mask_g: rb.mask_r, mask_b: rb.mask_g, ..rb }
        } else {
            Rainbow { g: s, ..rb }
        }
    } else if rb.mask_b {
        let s = advanced(rb.b);
        if s.current == s.max || s.current == s.min {
            Rainbow { b: s, mask_r: rb.mask_b, mask_g: rb.mask_r, mask_b: rb.mask_g, ..rb }
        } else {
            Rainbow { b: s, ..rb }
        }
    } else {
        rb
    }
}

impl Rainbow {
    /// A rainbow over the given channel ranges, starting on the red
    /// channel.
    pub fn new(min: (u8, u8, u8), max: (u8, u8, u8), increment: u8) -> (r: Rainbow)
        ensures
            r.r == (RgbSetting {
                min: min.0,
                max: max.0,
                current: min.0,
                increment,
                count_mode: CountMode::Up,
            }),
            r.g == (RgbSetting {
                min: min.1,
                max: max.1,
                current: min.1,
                increment,
                count_mode: CountMode::Up,
            }),
            r.b == (RgbSetting {
                min: min.2,
                max: max.2,
                current: min.2,
                increment,
                count_mode: CountMode::Up,
            }),
            r.mask_r && !r.mask_g && !r.mask_b,
            r.color == (Rgb8 { r: 0, g: 0, b: 0 }),
    {
        Rainbow {
            r: RgbSetting::new(min.0, max.0, increment),
            g: RgbSetting::new(min.1, max.1, increment),
            b: RgbSetting::new(min.2, max.2, increment),
            mask_r: true,
            mask_g: false,
            mask_b: false,
            color: Rgb8 { r: 0, g: 0, b: 0 },
        }
    }

    /// Advance the masked channel, moving the mask on when the channel
    /// reaches a bound.
    pub fn compute_next_setting(&mut self)
        ensures
            *final(self) == rainbow_stepped(*old(self)),
    {
        if self.mask_r {
            self.r.advance();
            if self.r.current == self.r.max || self.r.current == self.r.min {
                self.advance_mask();
            }
        } else if self.mask_g {
            self.g.advance();
            if self.g.current == self.g.max || self.g.current == self.g.min {
                self.advance_mask();
            }
        } else if self.mask_b {
            self.b.advance();
            if self.b.current == self.b.max || self.b.current == self.b.min {
                self.advance_mask();
            }
        }
    }

    /// Rotate the mask to the next channel.
    fn advance_mask(&mut self)
        ensures
            final(self).mask_r == old(self).mask_b,
            final(self).mask_g == old(self).mask_r,
            final(self).mask_b == old(self).mask_g,
            final(self).r == old(self).r,
            final(self).g == old(self).g,
            final(self).b == old(self).b,
            final(self).color == old(self).color,
    {
        let r = self.mask_r;
        let g = self.mask_g;
        let b = self.mask_b;
        self.mask_r = b;
        self.mask_g = r;
        self.mask_b = g;
    }

    /// The next rainbow colour: one step, then the three channel values.
    pub fn next_color(&mut self) -> (c: Rgb8)
        ensures
            *final(self) == (Rainbow {
                color: c,
                ..rainbow_stepped(*old(self))
            }),
            c == (Rgb8 {
                r: rainbow_stepped(*old(self)).r.current,
                g: rainbow_stepped(*old(self)).g.current,
                b: rainbow_stepped(*old(self)).b.current,
            }),
    {
        self.compute_next_setting();
        let c = Rgb8 { r: self.r.current, g: self.g.current, b: self.b.current };
        self.color = c;
        c
    }
}

impl Provider for Rainbow {
    fn provide_next(&mut self) -> Rgb8 {
        self.next_color()
    }
}

/// Always the same colour.
pub struct ConstColor {
    color: Rgb8,
}

impl ConstColor {
    /// A provider of exactly `color`.
    pub fn new(color: Rgb8) -> (r: ConstColor)
        ensures
            r.spec_color() == color,
    {
        ConstColor { color }
    }

    /// The colour provided.
    pub closed spec fn spec_color(&self) -> Rgb8 {
        self.color
    }
}

impl Provider for ConstColor {
    fn provide_next(&mut self) -> Rgb8 {
        self.color
    }
}

/// Cycles through a fixed palette of `N` colours.
pub struct ConstNColor<const N: usize> {
    color: Vec<Rgb8>,
    idx: usize,
}

impl<const N: usize> ConstNColor<N> {
    /// The palette held.
    pub closed spec fn palette(&self) -> Seq<Rgb8> {
        self.color@
    }

    /// The palette always holds `N` colours and the cursor stays inside
    /// it.
    pub closed spec fn wf(&self) -> bool {
        self.color@.len() == N && self.idx < N
    }

    /// A palette from the first `N` colours of a slice.
    pub fn from_slice(color: &[Rgb8]) -> (r: ConstNColor<N>)
        requires
            color@.len() == N,
            N >= 1,
        ensures
            r.palette() == color@,
            r.wf(),
    {
        let mut v: Vec<Rgb8> = Vec::new();
        let mut k: usize = 0;
        while k < color.len()
            invariant
                k <= color@.len(),
                v@ == color@.subrange(0, k as int),
            decreases color@.len() - k,
        {
            v.push(color[k]);
            k = k + 1;
            assert(v@ =~= color@.subrange(0, k as int));
        }
        assert(v@ =~= color@);
        ConstNColor { color: v, idx: 0 }
    }

    /// A palette filled with the next `N` colours of a provider.
    pub fn from_provider<CP: Provider>(provider: CP) -> (r: ConstNColor<N>)
        requires
            N >= 1,
        ensures
            r.wf(),
    {
        let mut provider = provider;
        let mut v: Vec<Rgb8> = Vec::new();
        let mut k: usize = 0;
        while k < N
            invariant
                k <= N,
                v@.len() == k,
            decreases N - k,
        {
            let c = provider.provide_next();
            v.push(c);
            k = k + 1;
        }
        ConstNColor { color: v, idx: 0 }
    }

    /// The next palette colour, wrapping at the end.
    pub fn next_color(&mut self) -> (c: Rgb8)
        requires
            old(self).wf(),
        ensures
            final(self).wf(),
            final(self).palette() == old(self).palette(),
            c == old(self).palette()[old(self).spec_idx() as int],
            final(self).spec_idx() == (if old(self).spec_idx() + 1 == N {
                0int
            } else {
                old(self).spec_idx() + 1
            }),
    {
        let current = self.color[self.idx];
        self.idx = self.idx + 1;
        if self.idx == N {
            self.idx = 0;
        }
        current
    }

    /// Where the cursor stands.
    pub closed spec fn spec_idx(&self) -> usize {
        self.idx
    }
}

impl<const N: usize> Provider for ConstNColor<N> {
    fn provide_next(&mut self) -> Rgb8 {
        if self.color.len() == 0 {
            return Rgb8 { r: 0, g: 0, b: 0 };
        }
        if self.idx >= self.color.len() {
            self.idx = 0;
        }
        let current = self.color[self.idx];
        self.idx = self.idx + 1;
        if self.idx >= self.color.len() {
            self.idx = 0;
        }
        current
    }
}

/// Cycles one channel at a time from full red around the colour wheel:
/// raise the channel after the current one, then lower the current one,
/// then move on.
#[derive(Clone, Copy, Debug, PartialEq, Eq, Structural)]
pub struct ColorIter {
    /// The three channel values, red, green, blue.
    pub c0: u8,
    pub c1: u8,
    pub c2: u8,
    /// Which channel is being raised.
    pub idx: u8,
    /// The value a raised channel climbs to.
    pub max_intensity: u8,
    /// How long one colour is shown.
    pub duration: u64,
    /// When the colour last changed.
    pub last_cycle_time: u64,
}

/// The channel of `c` selected by `idx`.
pub open spec fn channel(c: ColorIter, idx: int) -> u8 {
    if idx == 0 {
        c.c0
    } else if idx == 1 {
        c.c1
    } else {
        c.c2
    }
}

/// `c` with the channel selected by `idx` set to `v`.
pub open spec fn with_channel(c: ColorIter, idx: int, v: u8) -> ColorIter {
    if idx == 0 {
        ColorIter { c0: v, ..c }
    } else if idx == 1 {
        ColorIter { c1: v, ..c }
    } else {
        ColorIter { c2: v, ..c }
    }
}

/// One step of the cycle at instant `now`: raise the selected channel
/// until it is at full intensity, then drain the channel before it, then
/// select the next channel.
pub open spec fn color_iter_stepped(c: ColorIter, now: u64) -> ColorIter {
    let timed = ColorIter { last_cycle_time: now, ..c };
    if channel(c, c.idx as int) != c.max_intensity {
        with_channel(timed, c.idx as int, (channel(c, c.idx as int) + 1) as u8)
    } else {
        let prev: int = if c.idx == 0 {
            2
        } else {
            c.idx - 1
        };
        if channel(c, prev) != 0 {
            with_channel(timed, prev, (channel(c, prev) - 1) as u8)
        } else {
            ColorIter {
                idx: if c.idx + 1 == 3 {
                    0
                } else {
                    (c.idx + 1) as u8
                },
                ..timed
            }
        }
    }
}

impl ColorIter {
    /// Channels never exceed the intensity bound, and the selection
    /// stays on one of the three channels.
    pub open spec fn wf(&self) -> bool {
        &&& self.idx < 3
        &&& self.c0 <= self.max_intensity
        &&& self.c1 <= self.max_intensity
        &&& self.c2 <= self.max_intensity
    }

    /// A cycle starting at full red, about to raise green.
    pub fn new(max_intensity: u8, duration: u64, now: u64) -> (r: ColorIter)
        ensures
            r.wf(),
            r == (ColorIter {
                c0: max_intensity,
                c1: 0,
                c2: 0,
                idx: 1,
                max_intensity,
                duration,
                last_cycle_time: now,
            }),
    {
        ColorIter {
            c0: max_intensity,
            c1: 0,
            c2: 0,
            idx: 1,
            max_intensity,
            duration,
            last_cycle_time: now,
        }
    }

    /// The next colour of the cycle, stepping once at instant `now`.
    pub fn next_color(&mut self, now: u64) -> (c: Rgb8)
        requires
            old(self).wf(),
        ensures
            *final(self) == color_iter_stepped(*old(self), now),
            final(self).wf(),
            c == (Rgb8 { r: final(self).c0, g: final(self).c1, b: final(self).c2 }),
    {
        self.last_cycle_time = now;
        let cur = self.get_channel(self.idx);
        if cur != self.max_intensity {
            self.set_channel(self.idx, cur + 1);
        } else {
            let prev: u8 = if self.idx == 0 {
                2
            } else {
                self.idx - 1
            };
            let pv = self.get_channel(prev);
            if pv != 0 {
                self.set_channel(prev, pv - 1);
            } else {
                self.idx = if self.idx + 1 == 3 {
                    0
                } else {
                    self.idx + 1
                };
            }
        }
        Rgb8 { r: self.c0, g: self.c1, b: self.c2 }
    }

    /// Read the channel selected by `idx`.
    fn get_channel(&self, idx: u8) -> (v: u8)
        ensures
            v == channel(*self, idx as int),
    {
        if idx == 0 {
            self.c0
        } else if idx == 1 {
            self.c1
        } else {
            self.c2
        }
    }

    /// Write the channel selected by `idx`.
    fn set_channel(&mut self, idx: u8, v: u8)
        ensures
            *final(self) == with_channel(*old(self), idx as int, v),
    {
        if idx == 0 {
            self.c0 = v;
        } else if idx == 1 {
            self.c1 = v;
        } else {
            self.c2 = v;
        }
    }
}

impl Renderable for ColorIter {
    open spec fn spec_deadline(&self) -> int {
        self.last_cycle_time + self.duration
    }

    open spec fn cycle_due(&self, now: u64) -> bool {
        now >= self.spec_deadline()
    }

    fn get_next_cycle_time(&self) -> (r: u64) {
        if self.last_cycle_time <= u64::MAX - self.duration {
            self.last_cycle_time + self.duration
        } else {
            u64::MAX
        }
    }

    fn needs_cycle(&self, now: u64) -> (r: bool) {
        now >= self.last_cycle_time && now - self.last_cycle_time >= self.duration
    }
}

/// A colour override shown for a fixed time.
#[derive(Clone, Copy, Debug, PartialEq, Eq, Structural)]
pub struct SetColor {
    pub set_time: u64,
    pub color: Rgb8,
    pub duration: u64,
}

/// The cycling colour source of the display: normally the colour wheel,
/// temporarily overridden by a colour the operator set.
pub struct ColorProvider {
    pub iter: ColorIter,
    pub set_color: Option<SetColor>,
    pub last_cycle_time: u64,
}

impl ColorProvider {
    /// A provider cycling with `iter`, with no override.
    pub fn new(iter: ColorIter, now: u64) -> (r: ColorProvider)
        ensures
            r.iter == iter,
            r.set_color is None,
            r.last_cycle_time == now,
    {
        ColorProvider { iter, set_color: None, last_cycle_time: now }
    }

    /// Show `color` instead of the cycle for `duration` from `now` on.
    pub fn set_color_for(&mut self, color: Rgb8, duration: u64, now: u64)
        ensures
            final(self).set_color == Some(SetColor { set_time: now, color, duration }),
            final(self).iter == old(self).iter,
            final(self).last_cycle_time == old(self).last_cycle_time,
    {
        self.set_color = Some(SetColor { set_time: now, color, duration });
    }

    /// The next colour at instant `now`: the override while it lasts,
    /// the colour wheel otherwise. An expired override is dropped.
    pub fn next_color(&mut self, now: u64) -> (c: Rgb8)
        requires
            old(self).iter.wf(),
        ensures
            final(self).last_cycle_time == now,
            final(self).iter.wf(),
            match old(self).set_color {
                Some(sc) => if now > sc.set_time + sc.duration {
                    final(self).set_color is None && final(self).iter == color_iter_stepped(
                        old(self).iter,
                        now,
                    ) && c == (Rgb8 {
                        r: final(self).iter.c0,
                        g: final(self).iter.c1,
                        b: final(self).iter.c2,
                    })
                } else {
                    c == sc.color && final(self).set_color == old(self).set_color
                        && final(self).iter == old(self).iter
                },
                None => final(self).set_color is None && final(self).iter == color_iter_stepped(
                    old(self).iter,
                    now,
                ) && c == (Rgb8 {
                    r: final(self).iter.c0,
                    g: final(self).iter.c1,
                    b: final(self).iter.c2,
                }),
            },
    {
        self.last_cycle_time = now;

        let expired = match &self.set_color {
            Some(sc) => now > sc.set_time && now - sc.set_time > sc.duration,
            None => false,
        };
        if expired {
            self.set_color = None;
        }

        match &self.set_color {
            Some(sc) => sc.color,
            None => self.iter.next_color(now),
        }
    }
}

impl Provider for ColorProvider {
    fn provide_next(&mut self) -> Rgb8 {
        if !(self.iter.idx < 3 && self.iter.c0 <= self.iter.max_intensity && self.iter.c1
            <= self.iter.max_intensity && self.iter.c2 <= self.iter.max_intensity) {
            self.iter = ColorIter::new(
                self.iter.max_intensity,
                self.iter.duration,
                self.iter.last_cycle_time,
            );
        }
        let now = self.last_cycle_time;
        self.next_color(now)
    }
}

} // verus!
