use vstd::prelude::*;
use crate::geometry::{fits_i64, fits_rect, floor_div, mul_frac, rect, to_i64, UILayout, UIPoint, UISize};

verus! {

/// Writes `c` into every slot.
fn fill(children: &mut [UILayout], c: UILayout)
    ensures
        final(children)@ == Seq::new(old(children)@.len(), |i: int| c),
{
    let n = children.len();
    let mut i: usize = 0;
    while i < n
        invariant
            n == children@.len(),
            n == old(children)@.len(),
            0 <= i <= n,
            forall|j: int| 0 <= j < i ==> children@[j] == c,
        decreases n - i,
    {
        children[i] = c;
        i = i + 1;
    }
    assert(children@ =~= Seq::new(n as nat, |i: int| c));
}

// ============ Absolute =========================================================

/// Every child gets `size`, placed at `pos` from the parent's origin.
#[derive(Clone, Copy, Debug, PartialEq, Eq, Structural)]
pub struct UIAbsoluteLayout {
    pub size: UISize,
    pub pos: UIPoint,
}

impl UIAbsoluteLayout {
    pub open spec fn child_fits(self, layout: UILayout) -> bool {
        fits_rect(layout.left + self.pos.left, layout.top + self.pos.top, self.size.width as int, self.size.height as int)
    }

    pub open spec fn child(self, layout: UILayout) -> UILayout {
        rect(layout.left + self.pos.left, layout.top + self.pos.top, self.size.width as int, self.size.height as int)
    }

    /// The slots after a layout into `slots`.
    pub open spec fn apply(self, layout: UILayout, slots: Seq<UILayout>) -> Seq<UILayout> {
        Seq::new(slots.len(), |i: int| self.child(layout))
    }

    pub fn layout(&self, layout: UILayout, children: &mut [UILayout])
        requires
            self.child_fits(layout),
        ensures
            final(children)@ == self.apply(layout, old(children)@),
    {
        let c = UILayout {
            left: to_i64(layout.left as i128 + self.pos.left as i128),
            top: to_i64(layout.top as i128 + self.pos.top as i128),
            width: self.size.width,
            height: self.size.height,
        };
        fill(children, c);
    }
}

// ============ Relative =========================================================

/// Every child gets `pos` and `size` as per-mille fractions of the parent's extent.
#[derive(Clone, Copy, Debug, PartialEq, Eq, Structural)]
pub struct UIRelativeLayout {
    pub size: UISize,
    pub pos: UIPoint,
}

impl UIRelativeLayout {
    pub open spec fn child_left(self, layout: UILayout) -> int {
        layout.left + (layout.width * self.pos.left) / 1000
    }

    pub open spec fn child_top(self, layout: UILayout) -> int {
        layout.top + (layout.height * self.pos.top) / 1000
    }

    pub open spec fn child_width(self, layout: UILayout) -> int {
        (layout.width * self.size.width) / 1000
    }

    pub open spec fn child_height(self, layout: UILayout) -> int {
        (layout.height * self.size.height) / 1000
    }

    pub open spec fn child_fits(self, layout: UILayout) -> bool {
        fits_rect(self.child_left(layout), self.child_top(layout), self.child_width(layout), self.child_height(layout))
    }

    pub open spec fn child(self, layout: UILayout) -> UILayout {
        rect(self.child_left(layout), self.child_top(layout), self.child_width(layout), self.child_height(layout))
    }

    pub open spec fn apply(self, layout: UILayout, slots: Seq<UILayout>) -> Seq<UILayout> {
        Seq::new(slots.len(), |i: int| self.child(layout))
    }

    pub fn layout(&self, layout: UILayout, children: &mut [UILayout])
        requires
            self.child_fits(layout),
        ensures
            final(children)@ == self.apply(layout, old(children)@),
    {
        let dl = mul_frac(layout.width as i128, self.pos.left);
        let dt = mul_frac(layout.height as i128, self.pos.top);
        let c = UILayout {
            left: to_i64(layout.left as i128 + dl),
            top: to_i64(layout.top as i128 + dt),
            width: to_i64(mul_frac(layout.width as i128, self.size.width)),
            height: to_i64(mul_frac(layout.height as i128, self.size.height)),
        };
        fill(children, c);
    }
}

// ============ Scale =========================================================

/// Scales the parent rectangle by the per-mille factors `scale` about the point at
/// the per-mille fractions `anchor` of it; every child gets the result.
#[derive(Clone, Copy, Debug, PartialEq, Eq, Structural)]
pub struct UIScaleLayout {
    pub scale: UISize,
    pub anchor: UIPoint,
}

impl UIScaleLayout {
    pub open spec fn origin_left(self, layout: UILayout) -> int {
        layout.left + (self.anchor.left * layout.width) / 1000
    }

    pub open spec fn origin_top(self, layout: UILayout) -> int {
        layout.top + (self.anchor.top * layout.height) / 1000
    }

    pub open spec fn child_left(self, layout: UILayout) -> int {
        self.origin_left(layout) + ((layout.left - self.origin_left(layout)) * self.scale.width) / 1000
    }

    pub open spec fn child_top(self, layout: UILayout) -> int {
        self.origin_top(layout) + ((layout.top - self.origin_top(layout)) * self.scale.height) / 1000
    }

    pub open spec fn child_width(self, layout: UILayout) -> int {
        (layout.width * self.scale.width) / 1000
    }

    pub open spec fn child_height(self, layout: UILayout) -> int {
        (layout.height * self.scale.height) / 1000
    }

    /// The anchor point and the child fit in `i64`.
    pub open spec fn child_fits(self, layout: UILayout) -> bool {
        fits_i64(self.origin_left(layout)) && fits_i64(self.origin_top(layout)) && fits_rect(
            self.child_left(layout),
            self.child_top(layout),
            self.child_width(layout),
            self.child_height(layout),
        )
    }

    pub open spec fn child(self, layout: UILayout) -> UILayout {
        rect(self.child_left(layout), self.child_top(layout), self.child_width(layout), self.child_height(layout))
    }

    pub open spec fn apply(self, layout: UILayout, slots: Seq<UILayout>) -> Seq<UILayout> {
        Seq::new(slots.len(), |i: int| self.child(layout))
    }

    pub fn layout(&self, layout: UILayout, children: &mut [UILayout])
        requires
            self.child_fits(layout),
        ensures
            final(children)@ == self.apply(layout, old(children)@),
    {
        assert(layout.width * self.anchor.left == self.anchor.left * layout.width) by (nonlinear_arith);
        assert(layout.height * self.anchor.top == self.anchor.top * layout.height) by (nonlinear_arith);
        let ol = layout.left as i128 + mul_frac(layout.width as i128, self.anchor.left);
        let ot = layout.top as i128 + mul_frac(layout.height as i128, self.anchor.top);
        let c = UILayout {
            left: to_i64(ol + mul_frac(layout.left as i128 - ol, self.scale.width)),
            top: to_i64(ot + mul_frac(layout.top as i128 - ot, self.scale.height)),
            width: to_i64(mul_frac(layout.width as i128, self.scale.width)),
            height: to_i64(mul_frac(layout.height as i128, self.scale.height)),
        };
        fill(children, c);
    }
}

/// A strategy was handed a number of child slots that it cannot lay out.
#[derive(Clone, Copy, Debug, PartialEq, Eq, Structural)]
pub enum UILayoutError {
    InvalidChildCount { expected: usize, found: usize },
}

/// `x` raised to `lo`, then lowered to `hi`.
pub open spec fn max_then_min(x: int, lo: int, hi: int) -> int {
    let y = if x < lo { lo } else { x };
    if y > hi { hi } else { y }
}

/// `x` lowered to `hi`, then raised to `lo`.
pub open spec fn min_then_max(x: int, lo: int, hi: int) -> int {
    let y = if x > hi { hi } else { x };
    if y < lo { lo } else { y }
}

fn max_then_min_exec(x: i128, lo: i64, hi: i64) -> (r: i64)
    ensures
        r == max_then_min(x as int, lo as int, hi as int),
{
    let y = if x < lo as i128 { lo as i128 } else { x };
    if y > hi as i128 { hi } else { y as i64 }
}

fn min_then_max_exec(x: i128, lo: i64, hi: i64) -> (r: i64)
    ensures
        r == min_then_max(x as int, lo as int, hi as int),
{
    let y = if x > hi as i128 { hi as i128 } else { x };
    if y < lo as i128 { lo } else { y as i64 }
}

// ============ Main =========================================================

/// Three children: a left drawer, a center panel and a right drawer. The drawers are
/// `ratio` (per-mille) of the parent's width, kept within `[min_width, max_width]`,
/// and padded on all sides; the center panel takes the width between them.
#[derive(Clone, Copy, Debug, PartialEq, Eq, Structural)]
pub struct UIMainLayout {
    pub min_width: i64,
    pub max_width: i64,
    pub ratio: i64,
    pub padding: i64,
}

impl UIMainLayout {
    pub open spec fn drawer_width(self, layout: UILayout) -> int {
        max_then_min((layout.width * self.ratio) / 1000, self.min_width as int, self.max_width as int)
    }

    pub open spec fn children_fit(self, layout: UILayout) -> bool {
        let d = self.drawer_width(layout);
        let p = self.padding as int;
        fits_i64(d - 2 * p) && fits_i64(layout.height - 2 * p) && fits_i64(layout.width - 2 * d)
            && fits_i64(layout.width - d + p)
    }

    /// The three slots after a successful layout.
    pub open spec fn children(self, layout: UILayout) -> Seq<UILayout> {
        let d = self.drawer_width(layout);
        let p = self.padding as int;
        let h = layout.height - 2 * p;
        seq![
            rect(p, p, d - 2 * p, h),
            rect(d, p, layout.width - 2 * d, h),
            rect(layout.width - d + p, p, d - 2 * p, h),
        ]
    }

    pub fn layout(&self, layout: UILayout, children: &mut [UILayout]) -> (r: Result<(), UILayoutError>)
        requires
            old(children)@.len() == 3 ==> self.children_fit(layout),
        ensures
            r is Ok <==> old(children)@.len() == 3,
            r is Ok ==> final(children)@ == self.children(layout),
            r is Err ==> final(children)@ == old(children)@ && r == Err::<(), UILayoutError>(
                UILayoutError::InvalidChildCount { expected: 3, found: old(children)@.len() as usize },
            ),
    {
        if children.len() != 3 {
            return Err(UILayoutError::InvalidChildCount { expected: 3, found: children.len() });
        }
        let d = max_then_min_exec(mul_frac(layout.width as i128, self.ratio), self.min_width, self.max_width);
        let p = self.padding;
        let h = to_i64(layout.height as i128 - 2 * p as i128);
        let dw = to_i64(d as i128 - 2 * p as i128);
        children[0] = UILayout { left: p, top: p, width: dw, height: h };
        children[1] = UILayout { left: d, top: p, width: to_i64(layout.width as i128 - 2 * d as i128), height: h };
        children[2] = UILayout { left: to_i64(layout.width as i128 - d as i128 + p as i128), top: p, width: dw, height: h };
        assert(children@ =~= self.children(layout));
        Ok(())
    }
}

// ============ VBox =========================================================

/// Stacks the children bottom to top, index 0 lowest, with `vpadding` between them
/// and at both ends. A cell's height is the parent's height less the gaps, shared
/// evenly, lowered to `max_height` and then raised to `min_height`.
#[derive(Clone, Copy, Debug, PartialEq, Eq, Structural)]
pub struct UIVBoxLayout {
    pub hpadding: i64,
    pub vpadding: i64,
    pub min_height: i64,
    pub max_height: i64,
}

impl UIVBoxLayout {
    /// The height that `n` cells share evenly, before clamping.
    pub open spec fn free_height(self, layout: UILayout, n: int) -> int {
        (layout.height - (n + 1) * self.vpadding) / n
    }

    pub open spec fn cell_height(self, layout: UILayout, n: int) -> int {
        min_then_max(self.free_height(layout, n), self.min_height as int, self.max_height as int)
    }

    pub open spec fn child_top(self, layout: UILayout, n: int, i: int) -> int {
        layout.top + layout.height - (i + 1) * (self.vpadding + self.cell_height(layout, n))
    }

    pub open spec fn child(self, layout: UILayout, n: int, i: int) -> UILayout {
        rect(
            layout.left + self.hpadding,
            self.child_top(layout, n, i),
            layout.width - 2 * self.hpadding,
            self.cell_height(layout, n),
        )
    }

    pub open spec fn children_fit(self, layout: UILayout, n: int) -> bool {
        &&& fits_i64(layout.height - (n + 1) * self.vpadding)
        &&& fits_i64(layout.left + self.hpadding)
        &&& fits_i64(layout.width - 2 * self.hpadding)
        &&& forall|i: int| 0 <= i < n ==> #[trigger] fits_i64(self.child_top(layout, n, i))
    }

    pub open spec fn apply(self, layout: UILayout, slots: Seq<UILayout>) -> Seq<UILayout> {
        Seq::new(slots.len(), |i: int| self.child(layout, slots.len() as int, i))
    }

    pub fn layout(&self, layout: UILayout, children: &mut [UILayout])
        requires
            self.children_fit(layout, old(children)@.len() as int),
        ensures
            final(children)@ == self.apply(layout, old(children)@),
    {
        let n = children.len();
        if n == 0 {
            assert(children@ =~= self.apply(layout, old(children)@));
            return;
        }
        let free = layout.height as i128 - (n as i128 + 1) * self.vpadding as i128;
        let h = min_then_max_exec(floor_div(free, n as i128), self.min_height, self.max_height);
        let left = to_i64(layout.left as i128 + self.hpadding as i128);
        let width = to_i64(layout.width as i128 - 2 * self.hpadding as i128);
        let mut i: usize = 0;
        while i < n
            invariant
                n == children@.len(),
                n == old(children)@.len(),
                n > 0,
                0 <= i <= n,
                self.children_fit(layout, n as int),
                h == self.cell_height(layout, n as int),
                left == layout.left + self.hpadding,
                width == layout.width - 2 * self.hpadding,
                forall|j: int| 0 <= j < i ==> children@[j] == self.child(layout, n as int, j),
            decreases n - i,
        {
            assert(fits_i64(self.child_top(layout, n as int, i as int)));
            let step = (i as i128 + 1) * (self.vpadding as i128 + h as i128);
            let top = to_i64(layout.top as i128 + layout.height as i128 - step);
            children[i] = UILayout { left, top, width, height: h };
            i = i + 1;
        }
        assert(children@ =~= self.apply(layout, old(children)@));
    }
}

// ============ HBox =========================================================

/// Places the children left to right, index 0 leftmost, with `hpadding` between
/// them and at both ends. A cell's width is the parent's width less the gaps,
/// shared evenly, lowered to `max_width` and then raised to `min_width`.
#[derive(Clone, Copy, Debug, PartialEq, Eq, Structural)]
pub struct UIHBoxLayout {
    pub hpadding: i64,
    pub vpadding: i64,
    pub min_width: i64,
    pub max_width: i64,
}

impl UIHBoxLayout {
    /// The width that `n` cells share evenly, before clamping.
    pub open spec fn free_width(self, layout: UILayout, n: int) -> int {
        (layout.width - (n + 1) * self.hpadding) / n
    }

    pub open spec fn cell_width(self, layout: UILayout, n: int) -> int {
        min_then_max(self.free_width(layout, n), self.min_width as int, self.max_width as int)
    }

    pub open spec fn child_left(self, layout: UILayout, n: int, i: int) -> int {
        layout.left + self.hpadding + i * (self.hpadding + self.cell_width(layout, n))
    }

    pub open spec fn child(self, layout: UILayout, n: int, i: int) -> UILayout {
        rect(
            self.child_left(layout, n, i),
            layout.top + self.vpadding,
            self.cell_width(layout, n),
            layout.height - 2 * self.vpadding,
        )
    }

    pub open spec fn children_fit(self, layout: UILayout, n: int) -> bool {
        &&& fits_i64(layout.width - (n + 1) * self.hpadding)
        &&& fits_i64(layout.left + self.hpadding)
        &&& fits_i64(layout.top + self.vpadding)
        &&& fits_i64(layout.height - 2 * self.vpadding)
        &&& forall|i: int| 0 <= i < n ==> #[trigger] fits_i64(self.child_left(layout, n, i))
    }

    pub open spec fn apply(self, layout: UILayout, slots: Seq<UILayout>) -> Seq<UILayout> {
        Seq::new(slots.len(), |i: int| self.child(layout, slots.len() as int, i))
    }

    pub fn layout(&self, layout: UILayout, children: &mut [UILayout])
        requires
            self.children_fit(layout, old(children)@.len() as int),
        ensures
            final(children)@ == self.apply(layout, old(children)@),
    {
        let n = children.len();
        if n == 0 {
            assert(children@ =~= self.apply(layout, old(children)@));
            return;
        }
        let free = layout.width as i128 - (n as i128 + 1) * self.hpadding as i128;
        let w = min_then_max_exec(floor_div(free, n as i128), self.min_width, self.max_width);
        let start = layout.left as i128 + self.hpadding as i128;
        let top = to_i64(layout.top as i128 + self.vpadding as i128);
        let height = to_i64(layout.height as i128 - 2 * self.vpadding as i128);
        let mut i: usize = 0;
        while i < n
            invariant
                n == children@.len(),
                n == old(children)@.len(),
                n > 0,
                0 <= i <= n,
                self.children_fit(layout, n as int),
                w == self.cell_width(layout, n as int),
                start == layout.left + self.hpadding,
                top == layout.top + self.vpadding,
                height == layout.height - 2 * self.vpadding,
                forall|j: int| 0 <= j < i ==> children@[j] == self.child(layout, n as int, j),
            decreases n - i,
        {
            assert(fits_i64(self.child_left(layout, n as int, i as int)));
            let offset = i as i128 * (self.hpadding as i128 + w as i128);
            let left = to_i64(start + offset);
            children[i] = UILayout { left, top, width: w, height };
            i = i + 1;
        }
        assert(children@ =~= self.apply(layout, old(children)@));
    }
}

// ============ Slider pair =========================================================

/// Two children: the parent rectangle itself, and the parent rectangle moved up by
/// `label_offset`.
#[derive(Clone, Copy, Debug, PartialEq, Eq, Structural)]
pub struct UISliderLayout {
    pub label_offset: i64,
}

impl UISliderLayout {
    pub open spec fn children(self, layout: UILayout) -> Seq<UILayout> {
        seq![layout, UILayout { top: (layout.top - self.label_offset) as i64, ..layout }]
    }

    pub fn layout(&self, layout: UILayout, children: &mut [UILayout]) -> (r: Result<(), UILayoutError>)
        requires
            old(children)@.len() == 2 ==> fits_i64(layout.top - self.label_offset),
        ensures
            r is Ok <==> old(children)@.len() == 2,
            r is Ok ==> final(children)@ == self.children(layout),
            r is Err ==> final(children)@ == old(children)@ && r == Err::<(), UILayoutError>(
                UILayoutError::InvalidChildCount { expected: 2, found: old(children)@.len() as usize },
            ),
    {
        if children.len() != 2 {
            return Err(UILayoutError::InvalidChildCount { expected: 2, found: children.len() });
        }
        children[0] = layout;
        children[1] = UILayout { top: to_i64(layout.top as i128 - self.label_offset as i128), ..layout };
        assert(children@ =~= self.children(layout));
        Ok(())
    }
}

// ============ Laws =========================================================

/// The absolute, relative and scale strategies are pure: what they write depends on
/// the parent rectangle, the configuration and the number of slots alone, never on
/// what the slots held before, and every slot gets the same rectangle.
pub proof fn lemma_simple_layouts_pure(
    a: UIAbsoluteLayout,
    r: UIRelativeLayout,
    s: UIScaleLayout,
    layout: UILayout,
    x: Seq<UILayout>,
    y: Seq<UILayout>,
)
    requires
        x.len() == y.len(),
    ensures
        a.apply(layout, x) == a.apply(layout, y),
        r.apply(layout, x) == r.apply(layout, y),
        s.apply(layout, x) == s.apply(layout, y),
        forall|i: int|
            0 <= i < x.len() ==> a.apply(layout, x)[i] == a.child(layout) && r.apply(layout, x)[i]
                == r.child(layout) && s.apply(layout, x)[i] == s.child(layout),
{
    assert(a.apply(layout, x) =~= a.apply(layout, y));
    assert(r.apply(layout, x) =~= r.apply(layout, y));
    assert(s.apply(layout, x) =~= s.apply(layout, y));
}

/// When `n` cells share the parent's height evenly and exactly, within the height
/// bounds, the cells and the `n + 1` gaps make up the parent's height: the topmost
/// cell begins `vpadding` below the parent's top, and each cell begins `vpadding`
/// below the end of the one above it.
pub proof fn lemma_vbox_fills_height(b: UIVBoxLayout, layout: UILayout, n: int)
    requires
        n >= 1,
        b.min_height <= b.free_height(layout, n) <= b.max_height,
        (layout.height - (n + 1) * b.vpadding) % n == 0,
    ensures
        n * b.cell_height(layout, n) + (n + 1) * b.vpadding == layout.height,
        b.child_top(layout, n, n - 1) == layout.top + b.vpadding,
        forall|i: int|
            0 <= i < n - 1 ==> #[trigger] b.child_top(layout, n, i) == b.child_top(layout, n, i + 1)
                + b.cell_height(layout, n) + b.vpadding,
{
    let h = b.cell_height(layout, n);
    let vp = b.vpadding as int;
    let free = layout.height - (n + 1) * vp;
    vstd::arithmetic::div_mod::lemma_fundamental_div_mod(free, n);
    assert(h == free / n);
    assert(n * h == free);
    assert(((n - 1) + 1) * (vp + h) == n * vp + n * h) by (nonlinear_arith);
    assert(b.child_top(layout, n, n - 1) == layout.top + layout.height - ((n - 1) + 1) * (vp + h));
    assert((n + 1) * vp == n * vp + vp) by (nonlinear_arith);
    assert forall|i: int| 0 <= i < n - 1 implies #[trigger] b.child_top(layout, n, i) == b.child_top(
        layout,
        n,
        i + 1,
    ) + h + vp by {
        assert((i + 2) * (vp + h) == (i + 1) * (vp + h) + (vp + h)) by (nonlinear_arith);
    }
}

/// When `n` cells share the parent's width evenly and exactly, within the width
/// bounds, the cells and the `n + 1` gaps make up the parent's width: the leftmost
/// cell begins `hpadding` right of the parent's left edge, each next cell `hpadding`
/// after the end of the one before, and the last ends `hpadding` before the
/// parent's right edge.
pub proof fn lemma_hbox_fills_width(b: UIHBoxLayout, layout: UILayout, n: int)
    requires
        n >= 1,
        b.min_width <= b.free_width(layout, n) <= b.max_width,
        (layout.width - (n + 1) * b.hpadding) % n == 0,
    ensures
        n * b.cell_width(layout, n) + (n + 1) * b.hpadding == layout.width,
        b.child_left(layout, n, 0) == layout.left + b.hpadding,
        b.child_left(layout, n, n - 1) + b.cell_width(layout, n) + b.hpadding == layout.left
            + layout.width,
        forall|i: int|
            0 <= i < n - 1 ==> #[trigger] b.child_left(layout, n, i + 1) == b.child_left(layout, n, i)
                + b.cell_width(layout, n) + b.hpadding,
{
    let w = b.cell_width(layout, n);
    let hp = b.hpadding as int;
    let free = layout.width - (n + 1) * hp;
    vstd::arithmetic::div_mod::lemma_fundamental_div_mod(free, n);
    assert(w == free / n);
    assert(n * w == free);
    assert((n - 1) * (hp + w) == n * hp + n * w - hp - w) by (nonlinear_arith);
    assert((n + 1) * hp == n * hp + hp) by (nonlinear_arith);
    assert(b.child_left(layout, n, n - 1) == layout.left + hp + (n - 1) * (hp + w));
    assert(b.child_left(layout, n, 0) == layout.left + hp + 0 * (hp + w));
    assert forall|i: int| 0 <= i < n - 1 implies #[trigger] b.child_left(layout, n, i + 1)
        == b.child_left(layout, n, i) + w + hp by {
        assert((i + 1) * (hp + w) == i * (hp + w) + (hp + w)) by (nonlinear_arith);
    }
}

} // verus!
