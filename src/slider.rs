use vstd::prelude::*;
use crate::animation::UIHoverAnimation;
use crate::geometry::{floor_div, to_i64, UIFrameInput, UILayout, UIPoint, UISize, COORD_LIMIT};
use crate::layout::{UIAbsoluteLayout, UIScaleLayout};

verus! {

/// Largest magnitude of a slider bound or step.
pub const VALUE_LIMIT: i64 = 0x1000_0000;

/// Track positions are carried in sub-units: this many to a coordinate unit, so that
/// every value on the grid has a position of its own, however narrow the track.
pub const POS_SCALE: i64 = 0x4000_0000;

/// A colour; each channel is per-mille.
#[derive(Clone, Copy, Debug, PartialEq, Eq, Structural)]
pub struct UIColor {
    pub red: i64,
    pub green: i64,
    pub blue: i64,
}

/// A colour with opacity; each channel is per-mille.
#[derive(Clone, Copy, Debug, PartialEq, Eq, Structural)]
pub struct UIColorAlpha {
    pub red: i64,
    pub green: i64,
    pub blue: i64,
    pub alpha: i64,
}

/// Style of a rounded block, as the slider computes it for the renderer. The block is
/// painted `left_color` up to `left_offset` and `right_color` from `right_offset`;
/// `alpha` and `sharpness` are per-mille.
#[derive(Clone, Copy, Debug, PartialEq, Eq, Structural)]
pub struct UIBlockStyle {
    pub alpha: i64,
    pub sharpness: i64,
    pub radius: i64,
    pub left_offset: i64,
    pub left_color: UIColor,
    pub right_offset: i64,
    pub right_color: UIColor,
    pub inner_shadow: i64,
    pub shade_color: UIColor,
}

impl UIBlockStyle {
    /// The slider's track.
    pub fn slider_track() -> (r: UIBlockStyle)
        ensures
            r == (UIBlockStyle {
                alpha: 950,
                sharpness: 1000,
                radius: 4,
                left_offset: 0,
                left_color: UIColor { red: 16, green: 404, blue: 557 },
                right_offset: 0,
                right_color: UIColor { red: 50, green: 50, blue: 50 },
                inner_shadow: 2,
                shade_color: UIColor { red: 20, green: 20, blue: 20 },
            }),
    {
        UIBlockStyle {
            alpha: 950,
            sharpness: 1000,
            radius: 4,
            left_offset: 0,
            left_color: UIColor { red: 16, green: 404, blue: 557 },
            right_offset: 0,
            right_color: UIColor { red: 50, green: 50, blue: 50 },
            inner_shadow: 2,
            shade_color: UIColor { red: 20, green: 20, blue: 20 },
        }
    }

    /// The slider's draggable indicator.
    pub fn slider_dot() -> (r: UIBlockStyle)
        ensures
            r == (UIBlockStyle {
                alpha: 950,
                sharpness: 1000,
                radius: 8,
                left_offset: -10i64,
                left_color: UIColor { red: 16, green: 404, blue: 557 },
                right_offset: 20,
                right_color: UIColor { red: 600, green: 100, blue: 900 },
                inner_shadow: 20,
                shade_color: UIColor { red: 0, green: 0, blue: 0 },
            }),
    {
        UIBlockStyle {
            alpha: 950,
            sharpness: 1000,
            radius: 8,
            left_offset: -10,
            left_color: UIColor { red: 16, green: 404, blue: 557 },
            right_offset: 20,
            right_color: UIColor { red: 600, green: 100, blue: 900 },
            inner_shadow: 20,
            shade_color: UIColor { red: 0, green: 0, blue: 0 },
        }
    }
}

/// How a label's text lies in its rectangle.
#[derive(Clone, Copy, Debug, PartialEq, Eq, Structural)]
pub enum UILabelAlignment {
    Left,
    Center,
    Right,
}

/// Style of a text label; `opacity` is per-mille.
#[derive(Clone, Copy, Debug, PartialEq, Eq, Structural)]
pub struct UILabelStyle {
    pub size: i64,
    pub align: UILabelAlignment,
    pub color: UIColorAlpha,
    pub shadow_color: UIColorAlpha,
    pub opacity: i64,
}

impl UILabelStyle {
    /// The slider's value label, hidden until hovered.
    pub fn slider_value() -> (r: UILabelStyle)
        ensures
            r == (UILabelStyle {
                size: 15,
                align: UILabelAlignment::Center,
                color: UIColorAlpha { red: 700, green: 700, blue: 700, alpha: 1000 },
                shadow_color: UIColorAlpha { red: 0, green: 0, blue: 0, alpha: 1000 },
                opacity: 0,
            }),
    {
        UILabelStyle {
            size: 15,
            align: UILabelAlignment::Center,
            color: UIColorAlpha { red: 700, green: 700, blue: 700, alpha: 1000 },
            shadow_color: UIColorAlpha { red: 0, green: 0, blue: 0, alpha: 1000 },
            opacity: 0,
        }
    }
}

/// What sliders share: the styles of their track, indicator and label.
#[derive(Clone, Copy, Debug, PartialEq, Eq, Structural)]
pub struct UISliderContext {
    pub track_style: UIBlockStyle,
    pub dot_style: UIBlockStyle,
    pub label_style: UILabelStyle,
}

impl UISliderContext {
    pub fn new(track_style: UIBlockStyle, dot_style: UIBlockStyle, label_style: UILabelStyle) -> (r: Self)
        ensures
            r == (UISliderContext { track_style, dot_style, label_style }),
    {
        UISliderContext { track_style, dot_style, label_style }
    }
}

/// What a frame of input can make a slider report.
#[derive(Clone, Copy, Debug, PartialEq, Eq, Structural)]
pub enum UISliderEvent {
    /// The value being dragged changed.
    ValueChanged(i64),
    /// The drag ended on this value, now committed.
    ValueFinished(i64),
}

/// A rectangle that the slider can lay out: every field within `COORD_LIMIT`.
pub open spec fn layout_ok(l: UILayout) -> bool {
    &&& -COORD_LIMIT <= l.left <= COORD_LIMIT
    &&& -COORD_LIMIT <= l.top <= COORD_LIMIT
    &&& -COORD_LIMIT <= l.width <= COORD_LIMIT
    &&& -COORD_LIMIT <= l.height <= COORD_LIMIT
}

/// Bounds and step that a slider accepts.
pub open spec fn config_ok(min_value: int, max_value: int, step_value: int) -> bool {
    -VALUE_LIMIT <= min_value < max_value <= VALUE_LIMIT && 0 < step_value <= VALUE_LIMIT
}

pub open spec fn clamp(x: int, lo: int, hi: int) -> int {
    if x < lo {
        lo
    } else if x > hi {
        hi
    } else {
        x
    }
}

/// A horizontal slider over the integers from `min_value` to `max_value` on a grid
/// of `step_value`, dragged by its indicator. `drag_value` holds the value being
/// dragged, not yet committed; `label_value` is the value its label shows. Values
/// count units of `10^-precision`: `precision` is the number of decimals the label
/// writes. Animation clocks are in milliseconds, as the host hands them in.
#[derive(Clone, Copy, Debug, PartialEq, Eq, Structural)]
pub struct UISlider {
    pub track_style: UIBlockStyle,
    pub dot_style: UIBlockStyle,
    pub label_style: UILabelStyle,
    pub pressed: bool,
    pub hover: UIHoverAnimation,
    pub slider_hover: UIHoverAnimation,
    pub min_value: i64,
    pub max_value: i64,
    pub step_value: i64,
    pub value: i64,
    pub precision: usize,
    pub drag_value: Option<i64>,
    pub label_value: i64,
}

impl UISlider {
    /// Values that the slider can hold: from the minimum to one step past the maximum,
    /// where rounding to the grid can take a drag.
    pub open spec fn in_span(self, v: int) -> bool {
        self.min_value <= v <= self.max_value + self.step_value
    }

    /// Values that the slider accepts as its own: within `VALUE_LIMIT` below zero and
    /// twice it above, which covers every bound, the initial value and a drag's result.
    pub open spec fn value_ok(v: int) -> bool {
        -VALUE_LIMIT <= v <= 2 * VALUE_LIMIT
    }

    pub open spec fn wf(self) -> bool {
        &&& config_ok(self.min_value as int, self.max_value as int, self.step_value as int)
        &&& Self::value_ok(self.value as int)
        &&& (self.drag_value matches Some(d) ==> Self::value_ok(d as int))
        &&& self.hover.wf()
        &&& self.slider_hover.wf()
        &&& 0 <= self.track_style.radius <= COORD_LIMIT
        &&& 0 <= self.dot_style.radius <= COORD_LIMIT
    }

    /// The value the indicator stands at: the one being dragged, else the committed one.
    pub open spec fn shown_value(self) -> int {
        match self.drag_value {
            Some(d) => d as int,
            None => self.value as int,
        }
    }

    /// The value under the horizontal position `pos`, in sub-units (`POS_SCALE` to a
    /// coordinate unit): its offset into the track, kept within the track, taken as a
    /// share of the range, rounded half up to the grid that starts at the minimum. A
    /// track without width gives the minimum.
    pub open spec fn value_from_pos_spec(self, pos: int, layout: UILayout) -> int {
        if layout.width <= 0 {
            self.min_value as int
        } else {
            let w = layout.width * POS_SCALE;
            let s = self.step_value as int;
            let r = self.max_value - self.min_value;
            let d = clamp(pos - layout.left * POS_SCALE, 0, w);
            self.min_value + s * ((2 * d * r + w * s) / (2 * w * s))
        }
    }

    /// `v` rounded half up to a multiple of the step.
    pub open spec fn snap(self, v: int) -> int {
        let s = self.step_value as int;
        s * ((2 * v + s) / (2 * s))
    }

    /// The offset into the track, in sub-units, at which `v` stands: `v` snapped to the
    /// grid, taken as a share of the range, of the track's width, rounded half up.
    pub open spec fn value_to_pos_spec(self, v: int, layout: UILayout) -> int {
        let r = self.max_value - self.min_value;
        let w = layout.width * POS_SCALE;
        ((self.snap(v) - self.min_value) * 2 * w + r) / (2 * r)
    }

    /// The indicator's offset into the track in coordinate units, rounded half up.
    pub open spec fn dot_offset(self, layout: UILayout) -> int {
        (self.value_to_pos_spec(self.shown_value(), layout) + POS_SCALE / 2) / (POS_SCALE as int)
    }

    /// Where the track lies: the full width, twice its radius high, centred vertically.
    pub open spec fn track_placement(self, layout: UILayout) -> UIAbsoluteLayout {
        let bh = 2 * self.track_style.radius;
        UIAbsoluteLayout {
            size: UISize { width: layout.width, height: bh as i64 },
            pos: UIPoint { left: 0, top: ((layout.height - bh) / 2) as i64 },
        }
    }

    pub open spec fn track_rect(self, layout: UILayout) -> UILayout {
        self.track_placement(layout).child(layout)
    }

    /// Where the indicator lies before its hover zoom: a square twice its radius wide,
    /// centred on the shown value's position and vertically.
    pub open spec fn dot_placement(self, layout: UILayout) -> UIAbsoluteLayout {
        let ds = 2 * self.dot_style.radius;
        let p = self.dot_offset(layout);
        UIAbsoluteLayout {
            size: UISize { width: ds as i64, height: ds as i64 },
            pos: UIPoint { left: (p - ds / 2) as i64, top: ((layout.height - ds) / 2) as i64 },
        }
    }

    /// The indicator's zoom (per-mille): up to 1300 as the hover animation completes.
    pub open spec fn dot_zoom(self, now: u64) -> int {
        1000 + (3 * self.hover.value_at(now)) / 10
    }

    pub open spec fn dot_scale(self, now: u64) -> UIScaleLayout {
        let f = self.dot_zoom(now);
        UIScaleLayout {
            scale: UISize { width: f as i64, height: f as i64 },
            anchor: UIPoint { left: 500, top: 500 },
        }
    }

    pub open spec fn dot_rect(self, layout: UILayout, now: u64) -> UILayout {
        self.dot_scale(now).child(self.dot_placement(layout).child(layout))
    }

    /// Whether the pointer is over the indicator.
    pub open spec fn hovered(self, layout: UILayout, input: UIFrameInput, now: u64) -> bool {
        self.dot_rect(layout, now).contains(input.mouse_pos)
    }

    /// Whether the pointer is over the track grown by the indicator's radius, or over
    /// the indicator.
    pub open spec fn track_hovered(self, layout: UILayout, input: UIFrameInput, now: u64) -> bool {
        self.track_rect(layout).extended(self.dot_style.radius as int).contains(input.mouse_pos)
            || self.hovered(layout, input, now)
    }

    /// The drag in progress once a press is seen: a press that begins over the track,
    /// with no drag under way, starts one at the committed value.
    pub open spec fn drag_at_start(self, layout: UILayout, input: UIFrameInput, now: u64) -> Option<i64> {
        if !self.pressed && input.left_mouse_button_pressed && self.track_hovered(layout, input, now)
            && self.drag_value is None {
            Some(self.value)
        } else {
            self.drag_value
        }
    }

    /// The slider after a frame with `input` at `now`.
    pub open spec fn next(self, layout: UILayout, input: UIFrameInput, now: u64) -> UISlider {
        let pressed = input.left_mouse_button_pressed;
        let cand = self.value_from_pos_spec(input.mouse_pos.left * POS_SCALE, layout) as i64;
        let base = UISlider {
            pressed,
            hover: self.hover.next(self.hovered(layout, input, now), now),
            slider_hover: self.slider_hover.next(self.track_hovered(layout, input, now), now),
            ..self
        };
        match self.drag_at_start(layout, input, now) {
            None => base,
            Some(old) => if !pressed {
                UISlider { value: cand, label_value: cand, drag_value: None, ..base }
            } else if old != cand {
                UISlider { label_value: cand, drag_value: Some(cand), ..base }
            } else {
                UISlider { drag_value: Some(cand), ..base }
            },
        }
    }

    /// What a frame with `input` at `now` reports: the end of a drag when the button is
    /// up, a change when the value under the pointer differs from the one dragged.
    pub open spec fn events(self, layout: UILayout, input: UIFrameInput, now: u64) -> Seq<UISliderEvent> {
        let cand = self.value_from_pos_spec(input.mouse_pos.left * POS_SCALE, layout) as i64;
        match self.drag_at_start(layout, input, now) {
            None => seq![],
            Some(old) => if !input.left_mouse_button_pressed {
                seq![UISliderEvent::ValueFinished(cand)]
            } else if old != cand {
                seq![UISliderEvent::ValueChanged(cand)]
            } else {
                seq![]
            },
        }
    }

    pub fn new(
        context: &UISliderContext,
        min_value: i64,
        max_value: i64,
        step_value: i64,
        value: i64,
        precision: usize,
        now: u64,
    ) -> (r: Self)
        requires
            config_ok(min_value as int, max_value as int, step_value as int),
            -VALUE_LIMIT <= value <= VALUE_LIMIT,
            0 <= context.track_style.radius <= COORD_LIMIT,
            0 <= context.dot_style.radius <= COORD_LIMIT,
        ensures
            r.wf(),
            r == (UISlider {
                track_style: context.track_style,
                dot_style: context.dot_style,
                label_style: context.label_style,
                pressed: false,
                hover: UIHoverAnimation { active: false, from: 0, to: 0, start: now },
                slider_hover: UIHoverAnimation { active: false, from: 0, to: 0, start: now },
                min_value,
                max_value,
                step_value,
                value,
                precision,
                drag_value: None,
                label_value: value,
            }),
    {
        UISlider {
            track_style: context.track_style,
            dot_style: context.dot_style,
            label_style: context.label_style,
            pressed: false,
            hover: UIHoverAnimation::new(now),
            slider_hover: UIHoverAnimation::new(now),
            min_value,
            max_value,
            step_value,
            value,
            precision,
            drag_value: None,
            label_value: value,
        }
    }

    /// The value under the position `pos`, given in sub-units.
    pub fn value_from_pos(&self, pos: i128, layout: UILayout) -> (r: i64)
        requires
            self.wf(),
            layout_ok(layout),
        ensures
            r == self.value_from_pos_spec(pos as int, layout),
            self.in_span(r as int),
    {
        if layout.width <= 0 {
            return self.min_value;
        }
        let w = layout.width as i128 * POS_SCALE as i128;
        let s = self.step_value as i128;
        let r = self.max_value as i128 - self.min_value as i128;
        let lo = layout.left as i128 * POS_SCALE as i128;
        let d: i128 = if pos <= lo {
            0
        } else if pos >= lo + w {
            w
        } else {
            pos - lo
        };
        assert(0 < w <= 0x1000_0000_0000_0000) by (nonlinear_arith)
            requires
                0 < layout.width <= 0x4000_0000,
                w == layout.width * 0x4000_0000,
        ;
        assert(0 <= 2 * d * r <= 2 * w * r <= 0x4000_0000_0000_0000_0000_0000) by (nonlinear_arith)
            requires
                0 <= d <= w <= 0x1000_0000_0000_0000,
                0 < r <= 0x2000_0000,
        ;
        assert(0 < w * s <= 0x4000_0000_0000_0000_0000_0000 && 0 < 2 * w * s
            <= 0x4000_0000_0000_0000_0000_0000) by (nonlinear_arith)
            requires
                0 < w <= 0x1000_0000_0000_0000,
                0 < s <= 0x1000_0000,
        ;
        let num = 2 * d * r + w * s;
        let den = 2 * w * s;
        let k = num / den;
        proof {
            vstd::arithmetic::div_mod::lemma_fundamental_div_mod(num as int, den as int);
            assert(0 <= k) by (nonlinear_arith)
                requires
                    k == num / den,
                    num >= 0,
                    den > 0,
            ;
            assert(den * k <= num);
            assert(2 * s * k <= 2 * r + s) by (nonlinear_arith)
                requires
                    den * k <= num,
                    den == 2 * w * s,
                    num == 2 * d * r + w * s,
                    0 <= d <= w,
                    w > 0,
                    r > 0,
            ;
            assert(0 <= s * k <= r + s) by (nonlinear_arith)
                requires
                    2 * s * k <= 2 * r + s,
                    s > 0,
                    k >= 0,
            ;
        }
        to_i64(self.min_value as i128 + s * k)
    }

    /// The offset into the track, in sub-units, at which `value` stands.
    pub fn value_to_pos(&self, value: i64, layout: UILayout) -> (r: i128)
        requires
            self.wf(),
            layout_ok(layout),
            Self::value_ok(value as int),
        ensures
            r == self.value_to_pos_spec(value as int, layout),
            -0x800_0000_0000_0000_0000_0000 <= r <= 0x800_0000_0000_0000_0000_0000,
    {
        let s = self.step_value as i128;
        let k = floor_div(2 * value as i128 + s, 2 * s);
        let r = self.max_value as i128 - self.min_value as i128;
        proof {
            lemma_snap_near(self.step_value as int, value as int);
        }
        let snapped = s * k;
        let a = snapped - self.min_value as i128;
        let w = layout.width as i128 * POS_SCALE as i128;
        assert(-0x1000_0000_0000_0000 <= w <= 0x1000_0000_0000_0000) by (nonlinear_arith)
            requires
                -0x4000_0000 <= layout.width <= 0x4000_0000,
                w == layout.width * 0x4000_0000,
        ;
        assert(-0x1000_0000_0000_0000_0000_0000 < a * 2 * w + r < 0x1000_0000_0000_0000_0000_0000) by (nonlinear_arith)
            requires
                -0x4000_0000 <= a <= 0x4000_0000,
                -0x1000_0000_0000_0000 <= w <= 0x1000_0000_0000_0000,
                0 < r <= 0x2000_0000,
        ;
        let p = floor_div(a * 2 * w + r, 2 * r);
        assert(-0x800_0000_0000_0000_0000_0000 <= p <= 0x800_0000_0000_0000_0000_0000) by (nonlinear_arith)
            requires
                p == (a * 2 * w + r) / (2 * r),
                -0x1000_0000_0000_0000_0000_0000 < a * 2 * w + r < 0x1000_0000_0000_0000_0000_0000,
                r > 0,
        ;
        p
    }
}

impl UISlider {
    pub fn calc_slider_layout(&self, layout: UILayout) -> (r: UILayout)
        requires
            self.wf(),
            layout_ok(layout),
        ensures
            r == self.track_rect(layout),
            -0x4_0000_0000 <= r.left <= 0x4_0000_0000,
            -0x4_0000_0000 <= r.top <= 0x4_0000_0000,
            -0x4_0000_0000 <= r.width <= 0x4_0000_0000,
            -0x4_0000_0000 <= r.height <= 0x4_0000_0000,
    {
        let bh = self.track_style.radius * 2;
        let top = to_i64(floor_div(layout.height as i128 - bh as i128, 2));
        let placement = UIAbsoluteLayout {
            size: UISize { width: layout.width, height: bh },
            pos: UIPoint { left: 0, top },
        };
        assert(placement == self.track_placement(layout));
        let mut slots = vec![UILayout::zero()];
        placement.layout(layout, slots.as_mut_slice());
        slots[0]
    }

    pub fn calc_dot_layout(&self, layout: UILayout, now: u64) -> (r: UILayout)
        requires
            self.wf(),
            layout_ok(layout),
        ensures
            r == self.dot_rect(layout, now),
            -0x4000_0000_0000_0000 <= r.left <= 0x4000_0000_0000_0000,
            -0x4_0000_0000 <= r.top <= 0x4_0000_0000,
            0 <= r.width <= 0x4_0000_0000,
            0 <= r.height <= 0x4_0000_0000,
    {
        let ds = self.dot_style.radius * 2;
        let v = match self.drag_value {
            Some(d) => d,
            None => self.value,
        };
        let fine = self.value_to_pos(v, layout);
        let p = floor_div(fine + POS_SCALE as i128 / 2, POS_SCALE as i128);
        assert(-0x2000_0000_0000_0001 <= p <= 0x2000_0000_0000_0001) by (nonlinear_arith)
            requires
                p == (fine + 0x2000_0000) / 0x4000_0000,
                -0x800_0000_0000_0000_0000_0000 <= fine <= 0x800_0000_0000_0000_0000_0000,
        ;
        let p = p as i64;
        let top = to_i64(floor_div(layout.height as i128 - ds as i128, 2));
        let placement = UIAbsoluteLayout {
            size: UISize { width: ds, height: ds },
            pos: UIPoint { left: p - ds / 2, top },
        };
        assert(placement == self.dot_placement(layout));
        let mut slots = vec![UILayout::zero()];
        placement.layout(layout, slots.as_mut_slice());
        let base = slots[0];
        let hv = self.hover.value(now);
        let f = 1000 + (3 * hv) / 10;
        let zoom = UIScaleLayout {
            scale: UISize { width: f, height: f },
            anchor: UIPoint { left: 500, top: 500 },
        };
        assert(zoom == self.dot_scale(now));
        proof {
            lemma_zoom_fits(zoom, base);
        }
        zoom.layout(base, slots.as_mut_slice());
        slots[0]
    }
}

impl UISlider {
    /// Takes one frame of pointer input at the millisecond `now`: restarts the hover
    /// animations whose state flipped, starts, follows or ends a drag, and appends what
    /// it reports to `events`.
    pub fn update_input(
        &mut self,
        layout: UILayout,
        frame_input: UIFrameInput,
        now: u64,
        events: &mut Vec<UISliderEvent>,
    )
        requires
            old(self).wf(),
            layout_ok(layout),
        ensures
            *final(self) == old(self).next(layout, frame_input, now),
            final(events)@ == old(events)@ + old(self).events(layout, frame_input, now),
            final(self).wf(),
    {
        let dot_layout = self.calc_dot_layout(layout, now);
        let hover = dot_layout.is_inside(frame_input.mouse_pos);
        let track = self.calc_slider_layout(layout);
        let slider_layout = track.extend(self.dot_style.radius);
        let slider_hover = slider_layout.is_inside(frame_input.mouse_pos) || hover;
        let pressed = frame_input.left_mouse_button_pressed;
        let cand = self.value_from_pos(frame_input.mouse_pos.left as i128 * POS_SCALE as i128, layout);
        let ghost start = *self;
        let ghost old_events = events@;

        self.hover.update(hover, now);
        self.slider_hover.update(slider_hover, now);
        if !self.pressed && pressed && slider_hover && self.drag_value.is_none() {
            self.drag_value = Some(self.value);
        }
        assert(self.drag_value == start.drag_at_start(layout, frame_input, now));
        match self.drag_value {
            Some(old_value) => {
                if !pressed {
                    self.value = cand;
                    self.label_value = cand;
                    self.drag_value = None;
                    events.push(UISliderEvent::ValueFinished(cand));
                } else {
                    if old_value != cand {
                        events.push(UISliderEvent::ValueChanged(cand));
                        self.label_value = cand;
                    }
                    self.drag_value = Some(cand);
                }
            },
            None => {},
        }
        self.pressed = pressed;
        assert(events@ =~= old_events + start.events(layout, frame_input, now));
    }

    /// Geometry and styles of one frame's drawing, with the value the label shows.
    pub open spec fn render_spec(self, layout: UILayout, now: u64) -> UISliderRender {
        let dot = self.dot_rect(layout, now);
        let center = dot.left + dot.width / 2 - layout.left;
        UISliderRender {
            track_layout: self.track_rect(layout),
            track_style: UIBlockStyle {
                left_offset: (center - 2) as i64,
                right_offset: (center + 2) as i64,
                ..self.track_style
            },
            dot_layout: dot,
            dot_style: UIBlockStyle {
                shade_color: if self.drag_value is Some {
                    UIColor { red: 1000, green: 1000, blue: 1000 }
                } else {
                    UIColor { red: 0, green: 0, blue: 0 }
                },
                radius: ((self.dot_style.radius * self.dot_zoom(now)) / 1000) as i64,
                ..self.dot_style
            },
            label_layout: label_placement(dot).child(dot),
            label_style: UILabelStyle {
                opacity: self.slider_hover.value_at(now) as i64,
                ..self.label_style
            },
            label_value: self.label_value,
        }
    }

    /// What to draw this frame: the track split in two tones at the indicator's centre,
    /// the indicator zoomed by hover and shaded while dragged, and the label above the
    /// indicator, faded in while the track is hovered.
    pub fn render(&self, layout: UILayout, now: u64) -> (r: UISliderRender)
        requires
            self.wf(),
            layout_ok(layout),
        ensures
            r == self.render_spec(layout, now),
    {
        let dot_layout = self.calc_dot_layout(layout, now);
        let center = dot_layout.left + dot_layout.width / 2 - layout.left;
        let track_style = UIBlockStyle {
            left_offset: center - 2,
            right_offset: center + 2,
            ..self.track_style
        };
        let track_layout = self.calc_slider_layout(layout);
        let shade: i64 = if self.drag_value.is_some() {
            1000
        } else {
            0
        };
        let shade_color = UIColor { red: shade, green: shade, blue: shade };
        let hv = self.hover.value(now);
        let f = 1000 + (3 * hv) / 10;
        assert(0 <= self.dot_style.radius * f <= 0x400_0000_0000) by (nonlinear_arith)
            requires
                0 <= self.dot_style.radius <= 0x4000_0000,
                1000 <= f <= 1300,
        ;
        let dot_style = UIBlockStyle { shade_color, radius: (self.dot_style.radius * f) / 1000, ..self.dot_style };
        let label = UIAbsoluteLayout {
            pos: UIPoint { left: 0, top: -LABEL_GAP },
            size: UISize { width: dot_layout.width, height: dot_layout.height },
        };
        let mut slots = vec![UILayout::zero()];
        label.layout(dot_layout, slots.as_mut_slice());
        let opacity = self.slider_hover.value(now);
        UISliderRender {
            track_layout,
            track_style,
            dot_layout,
            dot_style,
            label_layout: slots[0],
            label_style: UILabelStyle { opacity, ..self.label_style },
            label_value: self.label_value,
        }
    }
}

/// How far above the indicator's corner its label's corner lies.
pub const LABEL_GAP: i64 = 20;

/// The label's place: the indicator's size, `LABEL_GAP` above the indicator's corner.
pub open spec fn label_placement(dot: UILayout) -> UIAbsoluteLayout {
    UIAbsoluteLayout {
        pos: UIPoint { left: 0, top: (-LABEL_GAP) as i64 },
        size: UISize { width: dot.width, height: dot.height },
    }
}

/// One frame's drawing of a slider, for the renderer.
#[derive(Clone, Copy, Debug, PartialEq, Eq, Structural)]
pub struct UISliderRender {
    pub track_layout: UILayout,
    pub track_style: UIBlockStyle,
    pub dot_layout: UILayout,
    pub dot_style: UIBlockStyle,
    pub label_layout: UILayout,
    pub label_style: UILabelStyle,
    pub label_value: i64,
}

/// The indicator's zoom about its centre keeps it within bounds.
proof fn lemma_zoom_fits(z: UIScaleLayout, b: UILayout)
    requires
        1000 <= z.scale.width <= 1300,
        z.scale.height == z.scale.width,
        z.anchor == (UIPoint { left: 500, top: 500 }),
        -0x2000_0001_0000_0000 <= b.left <= 0x2000_0001_0000_0000,
        -0x2_0000_0000 <= b.top <= 0x2_0000_0000,
        0 <= b.width <= 0x8000_0000,
        b.height == b.width,
    ensures
        z.child_fits(b),
        -0x4000_0000_0000_0000 <= z.child(b).left <= 0x4000_0000_0000_0000,
        -0x4_0000_0000 <= z.child(b).top <= 0x4_0000_0000,
        0 <= z.child(b).width <= 0x4_0000_0000,
        0 <= z.child(b).height <= 0x4_0000_0000,
{
    let f = z.scale.width as int;
    let w = b.width as int;
    let o = (500 * w) / 1000;
    assert(0 <= o <= w) by (nonlinear_arith)
        requires
            o == (500 * w) / 1000,
            0 <= w,
    ;
    assert(-2 * w <= (-o * f) / 1000 <= 0) by (nonlinear_arith)
        requires
            0 <= o <= w,
            1000 <= f <= 1300,
    ;
    assert(0 <= (w * f) / 1000 <= 2 * w) by (nonlinear_arith)
        requires
            0 <= w,
            1000 <= f <= 1300,
    ;
    assert(z.origin_left(b) == b.left + o);
    assert(z.origin_top(b) == b.top + o);
    assert(b.left - z.origin_left(b) == -o);
    assert(b.top - z.origin_top(b) == -o);
}

/// A value on the step grid within the bounds, placed on the track and read back from
/// that place, is the value itself, on any track with some width. The grid starts at
/// the minimum, so the minimum is taken to be a multiple of the step: otherwise no
/// multiple of the step is ever read back.
pub proof fn lemma_value_pos_round_trip(s: UISlider, v: int, layout: UILayout)
    requires
        s.wf(),
        layout_ok(layout),
        layout.width > 0,
        s.min_value <= v <= s.max_value,
        v % (s.step_value as int) == 0,
        (s.min_value as int) % (s.step_value as int) == 0,
    ensures
        s.value_from_pos_spec(layout.left * POS_SCALE + s.value_to_pos_spec(v, layout), layout) == v,
{
    let st = s.step_value as int;
    let w = layout.width * POS_SCALE;
    let r = s.max_value - s.min_value;
    let mn = s.min_value as int;
    assert(r < w * st) by (nonlinear_arith)
        requires
            0 < r <= 0x2000_0000,
            w == layout.width * 0x4000_0000,
            layout.width >= 1,
            st >= 1,
    ;
    vstd::arithmetic::div_mod::lemma_fundamental_div_mod(v, st);
    vstd::arithmetic::div_mod::lemma_fundamental_div_mod(mn, st);
    let j = v / st;
    let kk = j - mn / st;
    assert(2 * v + st == j * (2 * st) + st) by (nonlinear_arith)
        requires
            v == st * j,
    ;
    vstd::arithmetic::div_mod::lemma_fundamental_div_mod_converse(2 * v + st, 2 * st, j, st);
    assert(s.snap(v) == v);
    assert(v - mn == kk * st) by (nonlinear_arith)
        requires
            v == st * j,
            mn == st * (mn / st),
            kk == j - mn / st,
    ;
    let num = (v - mn) * 2 * w + r;
    let p = num / (2 * r);
    assert(s.value_to_pos_spec(v, layout) == p);
    vstd::arithmetic::div_mod::lemma_fundamental_div_mod(num, 2 * r);
    let rem = num % (2 * r);
    assert(0 <= (v - mn) * w <= r * w) by (nonlinear_arith)
        requires
            0 <= v - mn <= r,
            w > 0,
    ;
    assert(0 <= p <= w) by (nonlinear_arith)
        requires
            num == 2 * r * p + rem,
            0 <= rem < 2 * r,
            num == (v - mn) * 2 * w + r,
            0 <= (v - mn) * w <= r * w,
            r > 0,
    ;
    assert(2 * p * r + w * st == kk * (2 * w * st) + (r - rem + w * st)) by (nonlinear_arith)
        requires
            num == 2 * r * p + rem,
            num == (v - mn) * 2 * w + r,
            v - mn == kk * st,
    ;
    assert(2 * w * st == 2 * (w * st)) by (nonlinear_arith);
    vstd::arithmetic::div_mod::lemma_fundamental_div_mod_converse(
        2 * p * r + w * st,
        2 * w * st,
        kk,
        r - rem + w * st,
    );
    assert(clamp(layout.left * POS_SCALE + p - layout.left * POS_SCALE, 0, w) == p);
    assert(st * kk == kk * st) by (nonlinear_arith);
}

/// Seeing the same frame input a second time in a row reports nothing, whatever the
/// time of either frame.
pub proof fn lemma_repeated_input_is_quiet(
    s: UISlider,
    layout: UILayout,
    input: UIFrameInput,
    now: u64,
    later: u64,
)
    requires
        s.wf(),
        layout_ok(layout),
    ensures
        s.next(layout, input, now).events(layout, input, later) == Seq::<UISliderEvent>::empty(),
{
    let t = s.next(layout, input, now);
    assert(t.drag_at_start(layout, input, later) == t.drag_value);
    assert(t.events(layout, input, later) =~= Seq::<UISliderEvent>::empty());
}

/// Snapping to the grid moves a value by at most half a step.
proof fn lemma_snap_near(s: int, v: int)
    requires
        s > 0,
    ensures
        2 * v - s < 2 * (s * ((2 * v + s) / (2 * s))) <= 2 * v + s,
{
    vstd::arithmetic::div_mod::lemma_fundamental_div_mod(2 * v + s, 2 * s);
    let k = (2 * v + s) / (2 * s);
    assert(2 * (s * k) == (2 * s) * k) by (nonlinear_arith);
}

} // verus!
