use counter_tui::geometry::{center, Rect};
use counter_tui::image_pane::TestImageWidget;
use counter_tui::layout::{compute_layout, split_horizontal, split_vertical};

#[test]
fn horizontal_split_covers_the_canvas_exactly() {
    let area = Rect { x: 3, y: 7, width: 100, height: 40 };
    let parts = split_horizontal(area, &vec![15, 85]);
    assert_eq!(parts.len(), 2);
    assert_eq!(parts[0], Rect { x: 3, y: 7, width: 15, height: 40 });
    assert_eq!(parts[1], Rect { x: 18, y: 7, width: 85, height: 40 });
    let total: u32 = parts.iter().map(|p| p.width as u32).sum();
    assert_eq!(total, area.width as u32);
}

#[test]
fn horizontal_split_rounds_down_and_gives_the_last_the_rest() {
    let area = Rect { x: 0, y: 0, width: 99, height: 10 };
    let parts = split_horizontal(area, &vec![15, 85]);
    // 99 * 15 / 100 rounds down to 14; the last strip takes the other 85.
    assert_eq!(parts[0].width, 14);
    assert_eq!(parts[1].x, 14);
    assert_eq!(parts[1].width, 85);
}

#[test]
fn vertical_split_stacks_without_gaps() {
    let area = Rect { x: 2, y: 5, width: 30, height: 50 };
    let parts = split_vertical(area, &vec![25, 60, 15]);
    assert_eq!(parts.len(), 3);
    assert_eq!(parts[0], Rect { x: 2, y: 5, width: 30, height: 12 });
    assert_eq!(parts[1], Rect { x: 2, y: 17, width: 30, height: 30 });
    assert_eq!(parts[2], Rect { x: 2, y: 47, width: 30, height: 8 });
    let total: u32 = parts.iter().map(|p| p.height as u32).sum();
    assert_eq!(total, area.height as u32);
}

#[test]
fn split_handles_tiny_canvases() {
    let area = Rect { x: 0, y: 0, width: 1, height: 1 };
    let parts = split_horizontal(area, &vec![15, 85]);
    assert_eq!(parts[0].width, 0);
    assert_eq!(parts[1].width, 1);
    let area = Rect { x: 0, y: 0, width: 0, height: 0 };
    let parts = split_vertical(area, &vec![25, 60, 15]);
    assert_eq!(parts[0].height + parts[1].height + parts[2].height, 0);
}

#[test]
fn center_places_a_small_box_in_the_middle() {
    let area = Rect { x: 10, y: 10, width: 20, height: 10 };
    let r = center(area, 6, 4);
    assert_eq!(r, Rect { x: 17, y: 13, width: 6, height: 4 });
}

#[test]
fn center_shrinks_what_does_not_fit() {
    let area = Rect { x: 0, y: 0, width: 5, height: 3 };
    let r = center(area, 100, 100);
    assert_eq!(r, Rect { x: 0, y: 0, width: 5, height: 3 });
}

#[test]
fn layout_partitions_the_whole_canvas() {
    let area = Rect { x: 0, y: 0, width: 120, height: 40 };
    let l = compute_layout(area, 0, TestImageWidget::new(10, 5));
    // The side column and the field partition the canvas horizontally.
    assert_eq!(l.side, Rect { x: 0, y: 0, width: 18, height: 40 });
    assert_eq!(l.field, Rect { x: 18, y: 0, width: 102, height: 40 });
    // The three bands partition the side column vertically.
    assert_eq!(l.image_band, Rect { x: 0, y: 0, width: 18, height: 10 });
    assert_eq!(l.description, Rect { x: 0, y: 10, width: 18, height: 24 });
    assert_eq!(l.properties, Rect { x: 0, y: 34, width: 18, height: 6 });
    // Together the regions cover exactly the canvas area.
    let covered: u32 = [l.side, l.field].iter().map(|r| r.width as u32 * r.height as u32).sum();
    assert_eq!(covered, 120 * 40);
    let side_covered: u32 =
        [l.image_band, l.description, l.properties].iter().map(|r| r.width as u32 * r.height as u32).sum();
    assert_eq!(side_covered, 18 * 40);
    // The image sits centered in its band.
    assert_eq!(l.image, Rect { x: 4, y: 2, width: 10, height: 5 });
}

#[test]
fn rotation_swaps_the_two_halves() {
    let area = Rect { x: 0, y: 0, width: 120, height: 40 };
    let img = TestImageWidget::new(10, 5);
    let plain = compute_layout(area, 0, img);
    let rotated = compute_layout(area, 1, img);
    assert_eq!(rotated.field, Rect { x: 0, y: 0, width: 18, height: 40 });
    assert_eq!(rotated.side, Rect { x: 18, y: 0, width: 102, height: 40 });
    assert_eq!(plain.side.width, rotated.field.width);
    assert_eq!(plain.field.width, rotated.side.width);
}
