use vstd::prelude::*;

verus! {

/// Per-mille progress gained per elapsed millisecond: an animation runs for 125 ms.
pub const PROGRESS_PER_MS: u64 = 8;

/// Progress (per-mille, at most 1000) of an animation started at `start`, at `now`.
pub open spec fn progress(start: u64, now: u64) -> int {
    if now <= start {
        0
    } else {
        let e = (now - start) * PROGRESS_PER_MS;
        if e > 1000 {
            1000
        } else {
            e
        }
    }
}

/// Quadratic ease-out on per-mille values: 0 stays 0 and 1000 stays 1000.
pub open spec fn ease_out(raw: int) -> int {
    1000 - ((raw - 1000) * (raw - 1000)) / 1000
}

/// An eased transition between two per-mille values, driven by a boolean state:
/// `active` is the state last seen, and the animation runs from `from` toward `to`
/// (1000 when active, 0 when not) since the millisecond `start`.
#[derive(Clone, Copy, Debug, PartialEq, Eq, Structural)]
pub struct UIHoverAnimation {
    pub active: bool,
    pub from: i64,
    pub to: i64,
    pub start: u64,
}

impl UIHoverAnimation {
    pub open spec fn wf(self) -> bool {
        0 <= self.from <= 1000 && 0 <= self.to <= 1000
    }

    /// The interpolated value before easing.
    pub open spec fn raw_at(self, now: u64) -> int {
        self.from + ((self.to - self.from) * progress(self.start, now)) / 1000
    }

    /// The value shown at `now`.
    pub open spec fn value_at(self, now: u64) -> int {
        ease_out(self.raw_at(now))
    }

    /// The animation after the state `active` is seen at `now`: unchanged while the
    /// state is, restarted from the value shown at `now` when it flips.
    pub open spec fn next(self, active: bool, now: u64) -> UIHoverAnimation {
        if active == self.active {
            self
        } else {
            UIHoverAnimation {
                active,
                from: self.value_at(now) as i64,
                to: if active {
                    1000
                } else {
                    0
                },
                start: now,
            }
        }
    }

    /// At rest, inactive, with nothing shown.
    pub fn new(now: u64) -> (r: UIHoverAnimation)
        ensures
            r == (UIHoverAnimation { active: false, from: 0, to: 0, start: now }),
            r.wf(),
    {
        UIHoverAnimation { active: false, from: 0, to: 0, start: now }
    }

    pub fn value(&self, now: u64) -> (r: i64)
        requires
            self.wf(),
        ensures
            r == self.value_at(now),
            0 <= r <= 1000,
    {
        let t: i64 = if now <= self.start {
            0
        } else {
            let e = now - self.start;
            if e > 125 {
                1000
            } else {
                (e * PROGRESS_PER_MS) as i64
            }
        };
        assert(t == progress(self.start, now));
        let d = self.to - self.from;
        assert(-1000 * 1000 <= d * t <= 1000 * 1000) by (nonlinear_arith)
            requires
                -1000 <= d <= 1000,
                0 <= t <= 1000,
        ;
        let prod = d * t;
        let q: i64 = if prod >= 0 {
            prod / 1000
        } else {
            -((-prod + 999) / 1000)
        };
        assert(q == prod / 1000) by {
            if prod < 0 {
                let n: int = -prod + 999;
                vstd::arithmetic::div_mod::lemma_fundamental_div_mod(n, 1000);
                vstd::arithmetic::div_mod::lemma_fundamental_div_mod_converse(
                    prod as int,
                    1000,
                    -(n / 1000),
                    1000 * (n / 1000) - 1000 * (n / 1000) + (999 - n % 1000),
                );
            }
        }
        let raw = self.from + q;
        assert(0 <= raw <= 1000) by (nonlinear_arith)
            requires
                raw == self.from + q,
                q == (d * t) / 1000,
                d == self.to - self.from,
                0 <= self.from <= 1000,
                0 <= self.to <= 1000,
                0 <= t <= 1000,
        ;
        assert(0 <= (raw - 1000) * (raw - 1000) <= 1000 * 1000) by (nonlinear_arith)
            requires
                0 <= raw <= 1000,
        ;
        let sq = (raw - 1000) * (raw - 1000);
        1000 - sq / 1000
    }

    pub fn update(&mut self, active: bool, now: u64)
        requires
            old(self).wf(),
        ensures
            *final(self) == old(self).next(active, now),
            final(self).wf(),
    {
        if active != self.active {
            let v = self.value(now);
            *self = UIHoverAnimation {
                active,
                from: v,
                to: if active {
                    1000
                } else {
                    0
                },
                start: now,
            };
        }
    }
}

/// An unchanged state never restarts the clock. A flipped state restarts it at that
/// instant, heading for the new target, and seeds `from` with the value shown at
/// that instant; where that value was settled (0 or 1000), the value shown right
/// after the flip equals it.
pub proof fn lemma_flip_seeds_live_value(a: UIHoverAnimation, active: bool, now: u64)
    requires
        a.wf(),
    ensures
        a.next(a.active, now) == a,
        active != a.active ==> {
            let b = a.next(active, now);
            &&& b.from == a.value_at(now)
            &&& b.to == (if active {
                1000int
            } else {
                0int
            })
            &&& b.start == now
            &&& b.wf()
            &&& (a.value_at(now) == 0 || a.value_at(now) == 1000) ==> b.value_at(now) == a.value_at(
                now,
            )
        },
{
    if active != a.active {
        lemma_value_in_range(a, now);
        let b = a.next(active, now);
        assert(progress(now, now) == 0);
        assert((b.to - b.from) * 0 == 0);
        assert(b.raw_at(now) == b.from);
        assert(ease_out(0) == 0);
        assert(ease_out(1000) == 1000);
    }
}

/// The value shown lies in `[0, 1000]`.
pub proof fn lemma_value_in_range(a: UIHoverAnimation, now: u64)
    requires
        a.wf(),
    ensures
        0 <= a.value_at(now) <= 1000,
{
    let t = progress(a.start, now);
    let d = a.to - a.from;
    let raw = a.raw_at(now);
    assert(0 <= raw <= 1000) by (nonlinear_arith)
        requires
            raw == a.from + (d * t) / 1000,
            d == a.to - a.from,
            0 <= a.from <= 1000,
            0 <= a.to <= 1000,
            0 <= t <= 1000,
    ;
    assert(0 <= (raw - 1000) * (raw - 1000) <= 1000 * 1000) by (nonlinear_arith)
        requires
            0 <= raw <= 1000,
    ;
}

} // verus!
