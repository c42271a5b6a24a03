use phosphor::layout::{Constraint, Direction, Layout, Rect};

#[test]
fn test_rect_calculations() {
    let rect = Rect::new(10, 10, 20, 5);
    assert_eq!(rect.area(), 100);
    assert_eq!(rect.left(), 10);
    assert_eq!(rect.right(), 30);
    assert_eq!(rect.top(), 10);
    assert_eq!(rect.bottom(), 15);
}

#[test]
fn test_layout_split_vertical() {
    let layout = Layout::new(
        Direction::Vertical,
        vec![Constraint::Length(2), Constraint::Percentage(50)],
    );
    let rect = Rect::new(0, 0, 10, 10);
    let rects = layout.split(rect);

    assert_eq!(rects.len(), 2);
    assert_eq!(rects[0], Rect::new(0, 0, 10, 2));
    assert_eq!(rects[1], Rect::new(0, 2, 10, 5));
}

#[test]
fn test_layout_split_fill() {
    let layout = Layout::new(
        Direction::Vertical,
        vec![Constraint::Length(2), Constraint::Fill, Constraint::Fill],
    );
    let rect = Rect::new(0, 0, 10, 10);
    let rects = layout.split(rect);

    assert_eq!(rects.len(), 3);
    assert_eq!(rects[0].height, 2);
    assert_eq!(rects[1].height, 4);
    assert_eq!(rects[2].height, 4);
    assert_eq!(rects[2].y, 6);
}

#[test]
fn test_layout_split_to() {
    let layout = Layout::new(
        Direction::Horizontal,
        vec![Constraint::Percentage(50), Constraint::Percentage(50)],
    );
    let rect = Rect::new(0, 0, 100, 10);
    let [left, right] = layout.split_to(rect);

    assert_eq!(left.width, 50);
    assert_eq!(right.width, 50);
    assert_eq!(right.x, 50);
}

#[test]
fn test_layout_split_ratio() {
    let layout = Layout::new(
        Direction::Vertical,
        vec![Constraint::Ratio(1, 4), Constraint::Ratio(3, 4)],
    );
    let rect = Rect::new(0, 0, 100, 100);
    let rects = layout.split(rect);

    assert_eq!(rects[0].height, 25);
    assert_eq!(rects[1].height, 75);
}

#[test]
fn test_layout_split_min_max() {
    let rect = Rect::new(0, 0, 100, 100);

    let layout_min = Layout::new(
        Direction::Vertical,
        vec![Constraint::Fill, Constraint::Min(60)],
    );
    let rects_min = layout_min.split(rect);
    assert_eq!(rects_min[1].height, 60);

    let layout_max = Layout::new(
        Direction::Vertical,
        vec![Constraint::Fill, Constraint::Max(40)],
    );
    let rects_max = layout_max.split(rect);
    assert_eq!(rects_max[1].height, 40);
}

#[test]
fn split_drops_the_remainder_of_the_fill_share() {
    let layout = Layout::new(
        Direction::Horizontal,
        vec![Constraint::Fill, Constraint::Fill, Constraint::Fill],
    );
    let rects = layout.split(Rect::new(3, 7, 10, 4));
    let widths: Vec<u16> = rects.iter().map(|r| r.width).collect();
    assert_eq!(widths, vec![3, 3, 3]);
    let xs: Vec<u16> = rects.iter().map(|r| r.x).collect();
    assert_eq!(xs, vec![3, 6, 9]);
    assert!(rects.iter().all(|r| r.y == 7 && r.height == 4));
}

#[test]
fn split_without_flexible_constraints_keeps_fixed_sizes() {
    let layout = Layout::new(
        Direction::Vertical,
        vec![Constraint::Length(3), Constraint::Ratio(1, 3), Constraint::Percentage(10)],
    );
    let rects = layout.split(Rect::new(0, 1, 5, 30));
    assert_eq!(rects[0], Rect::new(0, 1, 5, 3));
    assert_eq!(rects[1], Rect::new(0, 4, 5, 10));
    assert_eq!(rects[2], Rect::new(0, 14, 5, 3));
}

#[test]
fn fill_share_is_zero_when_fixed_sizes_overflow_the_extent() {
    let layout = Layout::new(
        Direction::Horizontal,
        vec![Constraint::Length(8), Constraint::Fill, Constraint::Length(8)],
    );
    let rects = layout.split(Rect::new(0, 0, 10, 1));
    assert_eq!(rects[1].width, 0);
    assert_eq!(rects[2].x, 8);
}

#[test]
fn large_percentages_do_not_overflow() {
    let layout = Layout::new(
        Direction::Horizontal,
        vec![Constraint::Percentage(50), Constraint::Fill],
    );
    let rects = layout.split(Rect::new(0, 0, 2000, 1));
    assert_eq!(rects[0].width, 1000);
    assert_eq!(rects[1].x, 1000);
    assert_eq!(rects[1].width, 1000);
}

#[test]
fn fits_rejects_zero_denominators_and_overlong_splits() {
    let zero = Layout::new(Direction::Vertical, vec![Constraint::Ratio(1, 0)]);
    assert!(!zero.fits(Rect::new(0, 0, 10, 10)));
    let long = Layout::new(Direction::Horizontal, vec![Constraint::Length(60000)]);
    assert!(long.fits(Rect::new(5000, 0, 10, 10)));
    assert!(!long.fits(Rect::new(6000, 0, 10, 10)));
    let empty = Layout::new(Direction::Horizontal, vec![]);
    assert!(empty.fits(Rect::new(0, 0, 0, 0)));
    assert!(empty.split(Rect::new(0, 0, 0, 0)).is_empty());
}
