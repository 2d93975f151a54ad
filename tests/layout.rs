use ui_layout::geometry::{UILayout, UIPoint, UISize};
use ui_layout::layout::{
    UIAbsoluteLayout, UIHBoxLayout, UILayoutError, UIMainLayout, UIRelativeLayout, UIScaleLayout,
    UISliderLayout, UIVBoxLayout,
};

fn r(left: i64, top: i64, width: i64, height: i64) -> UILayout {
    UILayout { left, top, width, height }
}

#[test]
fn absolute_places_every_child_from_parent_origin() {
    let l = UIAbsoluteLayout { size: UISize { width: 30, height: 40 }, pos: UIPoint { left: 5, top: 6 } };
    let mut slots = vec![UILayout::zero(); 3];
    l.layout(r(10, 20, 100, 50), &mut slots);
    assert_eq!(slots, vec![r(15, 26, 30, 40); 3]);
}

#[test]
fn simple_layouts_ignore_previous_slot_contents() {
    let parent = r(10, 20, 200, 100);
    let a = UIAbsoluteLayout { size: UISize { width: 30, height: 40 }, pos: UIPoint { left: 5, top: 6 } };
    let rel = UIRelativeLayout { size: UISize { width: 500, height: 250 }, pos: UIPoint { left: 250, top: 500 } };
    let s = UIScaleLayout { scale: UISize { width: 1300, height: 700 }, anchor: UIPoint { left: 500, top: 0 } };
    let mut x = vec![UILayout::zero(); 2];
    let mut y = vec![r(-7, 99, 3, 1), r(1, 2, 3, 4)];
    a.layout(parent, &mut x);
    a.layout(parent, &mut y);
    assert_eq!(x, y);
    rel.layout(parent, &mut x);
    rel.layout(parent, &mut y);
    assert_eq!(x, y);
    s.layout(parent, &mut x);
    s.layout(parent, &mut y);
    assert_eq!(x, y);
}

#[test]
fn relative_uses_fractions_of_parent() {
    let l = UIRelativeLayout { size: UISize { width: 500, height: 250 }, pos: UIPoint { left: 250, top: 500 } };
    let mut slots = vec![UILayout::zero()];
    l.layout(r(10, 20, 200, 100), &mut slots);
    assert_eq!(slots[0], r(60, 70, 100, 25));
}

#[test]
fn scale_zooms_about_centre() {
    let l = UIScaleLayout { scale: UISize { width: 2000, height: 2000 }, anchor: UIPoint { left: 500, top: 500 } };
    let mut slots = vec![UILayout::zero()];
    l.layout(r(0, 0, 100, 100), &mut slots);
    assert_eq!(slots[0], r(-50, -50, 200, 200));
}

#[test]
fn scale_rounds_down_on_negative_offsets() {
    let l = UIScaleLayout { scale: UISize { width: 1500, height: 1500 }, anchor: UIPoint { left: 500, top: 500 } };
    let mut slots = vec![UILayout::zero()];
    l.layout(r(0, 0, 3, 3), &mut slots);
    assert_eq!(slots[0], r(-1, -1, 4, 4));
}

#[test]
fn scale_from_left_edge_keeps_left() {
    let l = UIScaleLayout { scale: UISize { width: 500, height: 1000 }, anchor: UIPoint { left: 0, top: 0 } };
    let mut slots = vec![UILayout::zero()];
    l.layout(r(10, 10, 100, 40), &mut slots);
    assert_eq!(slots[0], r(10, 10, 50, 40));
}

#[test]
fn main_drawer_within_bounds() {
    let l = UIMainLayout { min_width: 50, max_width: 400, ratio: 300, padding: 10 };
    let mut slots = vec![UILayout::zero(); 3];
    assert_eq!(l.layout(r(0, 0, 1000, 800), &mut slots), Ok(()));
    assert_eq!(slots, vec![r(10, 10, 280, 780), r(300, 10, 400, 780), r(710, 10, 280, 780)]);
}

#[test]
fn main_drawer_clamped_to_max() {
    let l = UIMainLayout { min_width: 50, max_width: 400, ratio: 900, padding: 10 };
    let mut slots = vec![UILayout::zero(); 3];
    assert_eq!(l.layout(r(0, 0, 1000, 800), &mut slots), Ok(()));
    assert_eq!(slots, vec![r(10, 10, 380, 780), r(400, 10, 200, 780), r(610, 10, 380, 780)]);
}

#[test]
fn main_drawer_raised_to_min() {
    let l = UIMainLayout { min_width: 50, max_width: 400, ratio: 10, padding: 0 };
    let mut slots = vec![UILayout::zero(); 3];
    assert_eq!(l.layout(r(0, 0, 1000, 800), &mut slots), Ok(()));
    assert_eq!(slots[0].width, 50);
    assert_eq!(slots[1], r(50, 0, 900, 800));
}

#[test]
fn main_rejects_two_children() {
    let l = UIMainLayout { min_width: 50, max_width: 400, ratio: 300, padding: 10 };
    let before = vec![r(1, 2, 3, 4), r(5, 6, 7, 8)];
    let mut slots = before.clone();
    assert_eq!(
        l.layout(r(0, 0, 1000, 800), &mut slots),
        Err(UILayoutError::InvalidChildCount { expected: 3, found: 2 })
    );
    assert_eq!(slots, before);
}

#[test]
fn slider_pair_rejects_three_children() {
    let l = UISliderLayout { label_offset: 20 };
    let before = vec![r(1, 2, 3, 4); 3];
    let mut slots = before.clone();
    assert_eq!(
        l.layout(r(0, 0, 100, 20), &mut slots),
        Err(UILayoutError::InvalidChildCount { expected: 2, found: 3 })
    );
    assert_eq!(slots, before);
}

#[test]
fn slider_pair_shifts_label_up() {
    let l = UISliderLayout { label_offset: 20 };
    let mut slots = vec![UILayout::zero(); 2];
    assert_eq!(l.layout(r(5, 50, 100, 20), &mut slots), Ok(()));
    assert_eq!(slots, vec![r(5, 50, 100, 20), r(5, 30, 100, 20)]);
}

#[test]
fn vbox_cell_height_clamped_to_max() {
    let l = UIVBoxLayout { hpadding: 5, vpadding: 10, min_height: 0, max_height: 200 };
    let mut slots = vec![UILayout::zero()];
    l.layout(r(0, 0, 300, 1000), &mut slots);
    assert_eq!(slots[0], r(5, 790, 290, 200));
}

#[test]
fn vbox_cell_height_raised_to_min() {
    let l = UIVBoxLayout { hpadding: 0, vpadding: 10, min_height: 50, max_height: 200 };
    let mut slots = vec![UILayout::zero(); 2];
    l.layout(r(0, 0, 100, 100), &mut slots);
    assert_eq!(slots[0].height, 50);
    assert_eq!(slots[1].top, 100 - 2 * 60);
}

#[test]
fn vbox_reconstructs_parent_height() {
    let l = UIVBoxLayout { hpadding: 0, vpadding: 10, min_height: 0, max_height: 1000 };
    for n in [1i64, 2, 5] {
        let height = n * 100 + (n + 1) * 10;
        let mut slots = vec![UILayout::zero(); n as usize];
        l.layout(r(0, 7, 50, height), &mut slots);
        let total: i64 = slots.iter().map(|c| c.height).sum::<i64>() + (n + 1) * 10;
        assert_eq!(total, height);
        assert_eq!(slots[0].top + slots[0].height, 7 + height - 10);
        assert_eq!(slots[n as usize - 1].top, 7 + 10);
        for i in 0..(n as usize - 1) {
            assert_eq!(slots[i].top, slots[i + 1].top + slots[i + 1].height + 10);
        }
    }
}

#[test]
fn hbox_reconstructs_parent_width() {
    let l = UIHBoxLayout { hpadding: 10, vpadding: 4, min_width: 0, max_width: 1000 };
    for n in [1i64, 2, 5] {
        let width = n * 100 + (n + 1) * 10;
        let mut slots = vec![UILayout::zero(); n as usize];
        l.layout(r(3, 0, width, 40), &mut slots);
        let total: i64 = slots.iter().map(|c| c.width).sum::<i64>() + (n + 1) * 10;
        assert_eq!(total, width);
        assert_eq!(slots[0].left, 3 + 10);
        let last = slots[n as usize - 1];
        assert_eq!(last.left + last.width + 10, 3 + width);
        for c in &slots {
            assert_eq!((c.top, c.height), (4, 32));
        }
    }
}

#[test]
fn hbox_cell_width_clamped_to_max() {
    let l = UIHBoxLayout { hpadding: 10, vpadding: 0, min_width: 0, max_width: 200 };
    let mut slots = vec![UILayout::zero(); 2];
    l.layout(r(0, 0, 1000, 40), &mut slots);
    assert_eq!(slots, vec![r(10, 0, 200, 40), r(220, 0, 200, 40)]);
}

#[test]
fn boxes_leave_no_children_alone() {
    let v = UIVBoxLayout { hpadding: 1, vpadding: 1, min_height: 0, max_height: 10 };
    let h = UIHBoxLayout { hpadding: 1, vpadding: 1, min_width: 0, max_width: 10 };
    let mut slots: Vec<UILayout> = vec![];
    v.layout(r(0, 0, 10, 10), &mut slots);
    h.layout(r(0, 0, 10, 10), &mut slots);
    assert!(slots.is_empty());
}

#[test]
fn rectangle_helpers() {
    let a = r(10, 10, 20, 20);
    assert!(a.is_inside(UIPoint { left: 10, top: 30 }));
    assert!(!a.is_inside(UIPoint { left: 31, top: 15 }));
    assert_eq!(a.extend(5), r(5, 5, 30, 30));
    assert_eq!(UILayout::zero(), r(0, 0, 0, 0));
}
