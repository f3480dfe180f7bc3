use arspaint::geometry::{Point, Rect, Region};
use arspaint::image_store::ImageStore;
use arspaint::layers::Layer;
use arspaint::mask::Mask;
use arspaint::raster::{Color, PixelBuffer};
use arspaint::state::ToolSettings;
use arspaint::tools::base::ToolInput;
use arspaint::tools::selection::{LassoSelectionTool, RectSelectionTool};
use arspaint::tools::transform::{drop_onto, HandleType, TransformTool};

const WHITE: Color = Color { r: 255, g: 255, b: 255, a: 255 };
const RED: Color = Color { r: 255, g: 0, b: 0, a: 255 };
const CLEAR: Color = Color { r: 0, g: 0, b: 0, a: 0 };

fn press(x: i32, y: i32) -> ToolInput {
    ToolInput { pos: Some(Point::new(x, y)), is_pressed: true, is_released: false }
}

fn release(x: i32, y: i32) -> ToolInput {
    ToolInput { pos: Some(Point::new(x, y)), is_pressed: false, is_released: true }
}

fn idle() -> ToolInput {
    ToolInput { pos: None, is_pressed: false, is_released: false }
}

fn selected(mask: &Mask) -> Vec<(u32, u32)> {
    let mut out = Vec::new();
    for y in 0..mask.height() {
        for x in 0..mask.width() {
            if mask.get_pixel(x, y).unwrap() > 0 {
                out.push((x, y));
            }
        }
    }
    out
}

fn drag_select(image: &mut ImageStore, from: (i32, i32), to: (i32, i32)) {
    let s = ToolSettings::default();
    let mut tool = RectSelectionTool::new();
    assert!(tool.update(image, &s, &press(from.0, from.1), RED).is_none());
    assert!(tool.update(image, &s, &press(to.0, to.1), RED).is_none());
    assert!(tool.update(image, &s, &release(to.0, to.1), RED).is_none());
    assert!(tool.start_pos.is_none() && tool.current_pos.is_none());
}

fn layer_of(image: &ImageStore) -> &PixelBuffer {
    image.layers[image.active_layer].data.buffer().unwrap()
}

fn patterned(size: u32) -> ImageStore {
    let mut image = ImageStore::new(size, size);
    let layer = image.get_active_raster_buffer_mut().unwrap();
    for y in 0..size {
        for x in 0..size {
            layer.put_pixel(x, y, Color::new(x as u8 * 5, y as u8 * 5, (x + y) as u8, 255));
        }
    }
    image.mark_dirty();
    image.composite();
    image
}

#[test]
fn rect_selection_selects_the_block() {
    let mut image = ImageStore::new(10, 10);
    drag_select(&mut image, (2, 3), (5, 7));
    let mask = image.selection.as_ref().unwrap();
    assert_eq!((mask.width(), mask.height()), (10, 10));
    let mut expected = Vec::new();
    for y in 3..7 {
        for x in 2..5 {
            expected.push((x, y));
        }
    }
    assert_eq!(selected(mask), expected);
    assert_eq!(mask.get_pixel(2, 3), Some(255));
    // dragging the other way selects the same
    let mut other = ImageStore::new(10, 10);
    drag_select(&mut other, (5, 7), (2, 3));
    assert_eq!(selected(other.selection.as_ref().unwrap()), expected);
}

#[test]
fn rect_selection_is_cut_off_at_the_canvas() {
    let mut image = ImageStore::new(10, 10);
    drag_select(&mut image, (-3, -3), (2, 2));
    assert_eq!(selected(image.selection.as_ref().unwrap()), vec![(0, 0), (1, 0), (0, 1), (1, 1)]);
    drag_select(&mut image, (8, 9), (20, 20));
    assert_eq!(selected(image.selection.as_ref().unwrap()), vec![(8, 9), (9, 9)]);
    // beyond the canvas altogether: a selection that selects nothing
    drag_select(&mut image, (20, 20), (30, 30));
    assert!(selected(image.selection.as_ref().unwrap()).is_empty());
}

#[test]
fn zero_area_rect_selection_clears_the_selection() {
    let mut image = ImageStore::new(10, 10);
    drag_select(&mut image, (2, 3), (5, 7));
    assert!(image.selection.is_some());
    drag_select(&mut image, (4, 1), (4, 8));
    assert!(image.selection.is_none());
    drag_select(&mut image, (2, 3), (5, 7));
    drag_select(&mut image, (1, 6), (9, 6));
    assert!(image.selection.is_none());
    drag_select(&mut image, (2, 3), (5, 7));
    drag_select(&mut image, (3, 3), (3, 3));
    assert!(image.selection.is_none());
    // left of the canvas every column is cut off at zero
    drag_select(&mut image, (2, 3), (5, 7));
    drag_select(&mut image, (-9, 2), (-1, 8));
    assert!(image.selection.is_none());
}

#[test]
fn rect_selection_replaces_the_previous_one() {
    let mut image = ImageStore::new(10, 10);
    drag_select(&mut image, (0, 0), (2, 2));
    drag_select(&mut image, (7, 7), (9, 8));
    assert_eq!(selected(image.selection.as_ref().unwrap()), vec![(7, 7), (8, 7)]);
}

#[test]
fn rect_selection_needs_both_corners() {
    let mut image = ImageStore::new(10, 10);
    drag_select(&mut image, (0, 0), (2, 2));
    let s = ToolSettings::default();
    let mut tool = RectSelectionTool::new();
    assert_eq!(tool.name(), "Rect Selection");
    tool.update(&mut image, &s, &release(5, 5), RED);
    assert_eq!(selected(image.selection.as_ref().unwrap()).len(), 4);
    // the pointer leaves the image before the release: the moving corner is lost
    tool.update(&mut image, &s, &press(1, 1), RED);
    tool.update(&mut image, &s, &ToolInput { pos: None, is_pressed: true, is_released: false }, RED);
    assert_eq!(tool.start_pos, Some(Point::new(1, 1)));
    assert_eq!(tool.current_pos, None);
    tool.update(&mut image, &s, &release(8, 8), RED);
    assert_eq!(selected(image.selection.as_ref().unwrap()).len(), 4);
    assert!(tool.get_temp_layer().is_none());
}

#[test]
fn lasso_selects_the_inside_of_a_triangle() {
    let mut image = ImageStore::new(10, 10);
    let s = ToolSettings::default();
    let mut lasso = LassoSelectionTool::new();
    assert_eq!(lasso.name(), "Lasso Selection");
    for (x, y) in [(1, 1), (7, 1), (1, 7)] {
        assert!(lasso.update(&mut image, &s, &press(x, y), RED).is_none());
    }
    assert_eq!(lasso.points.len(), 3);
    assert!(lasso.is_inside(2, 2));
    assert!(!lasso.is_inside(5, 5));
    assert!(!lasso.is_inside(0, 3));
    assert!(lasso.update(&mut image, &s, &release(1, 7), RED).is_none());
    assert!(lasso.points.is_empty());
    let mut expected = Vec::new();
    for y in 1..7u32 {
        for x in 1..(8 - y) {
            expected.push((x, y));
        }
    }
    assert_eq!(selected(image.selection.as_ref().unwrap()), expected);
}

#[test]
fn lasso_with_two_points_leaves_the_selection() {
    let mut image = ImageStore::new(10, 10);
    drag_select(&mut image, (2, 3), (5, 7));
    let before = selected(image.selection.as_ref().unwrap());
    let s = ToolSettings::default();
    let mut lasso = LassoSelectionTool::new();
    lasso.update(&mut image, &s, &press(0, 0), RED);
    lasso.update(&mut image, &s, &press(9, 9), RED);
    lasso.update(&mut image, &s, &release(9, 9), RED);
    assert!(lasso.points.is_empty());
    assert_eq!(selected(image.selection.as_ref().unwrap()), before);
    // one point, and none at all
    lasso.update(&mut image, &s, &press(4, 4), RED);
    lasso.update(&mut image, &s, &release(4, 4), RED);
    lasso.update(&mut image, &s, &release(4, 4), RED);
    assert_eq!(selected(image.selection.as_ref().unwrap()), before);
    // and without a selection there is still none
    let mut empty = ImageStore::new(10, 10);
    lasso.update(&mut empty, &s, &press(0, 0), RED);
    lasso.update(&mut empty, &s, &press(9, 9), RED);
    lasso.update(&mut empty, &s, &release(9, 9), RED);
    assert!(empty.selection.is_none());
    assert!(lasso.get_temp_layer().is_none());
}

#[test]
fn lasso_replaces_the_selection_and_follows_even_odd() {
    let mut image = ImageStore::new(12, 12);
    drag_select(&mut image, (0, 0), (12, 12));
    let s = ToolSettings::default();
    let mut lasso = LassoSelectionTool::new();
    // a square traced counter-clockwise
    for (x, y) in [(2, 2), (2, 8), (8, 8), (8, 2)] {
        lasso.update(&mut image, &s, &press(x, y), RED);
    }
    lasso.update(&mut image, &s, &release(8, 2), RED);
    let got = selected(image.selection.as_ref().unwrap());
    assert_eq!(got.len(), 36);
    assert!(got.contains(&(2, 2)) && got.contains(&(7, 7)));
    assert!(!got.contains(&(8, 8)) && !got.contains(&(1, 5)) && !got.contains(&(0, 0)));
}

#[test]
fn transform_pick_up_and_drop_in_place_changes_nothing() {
    let mut image = patterned(40);
    let original = layer_of(&image).clone();
    drag_select(&mut image, (10, 10), (30, 30));
    let s = ToolSettings::default();
    let mut tool = TransformTool::new();
    assert_eq!(tool.name(), "Transform");
    assert!(tool.update(&mut image, &s, &idle(), RED).is_none());
    assert!(tool.is_floating());
    assert_eq!(tool.current_rect, Some(Rect { min_x: 10, min_y: 10, max_x: 30, max_y: 30 }));
    assert_eq!(tool.source_rect, tool.current_rect);
    assert!(!layer_of(&image).same_as(&original));
    tool.confirm();
    assert!(tool.committed);
    let cmd = tool.update(&mut image, &s, &idle(), RED).unwrap();
    assert!(layer_of(&image).same_as(&original));
    assert_eq!(cmd.name, "Transform");
    assert_eq!((cmd.layer_index, cmd.x, cmd.y), (0, 0, 0));
    assert!(cmd.old_patch.same_as(&original));
    assert!(cmd.new_patch.same_as(&original));
    assert!(!tool.is_floating());
    assert!(!tool.committed);
    assert!(image.composite_dirty);
    assert!(tool.get_temp_layer().is_none());
}

#[test]
fn transform_pick_up_lifts_the_selected_pixels() {
    let mut image = patterned(20);
    let original = layer_of(&image).clone();
    drag_select(&mut image, (4, 5), (8, 7));
    image.composite();
    let mut tool = TransformTool::new();
    tool.update(&mut image, &ToolSettings::default(), &idle(), RED);
    assert!(image.composite_dirty);
    assert_eq!(tool.layer_index, 0);
    let floating = tool.floating_buffer.as_ref().unwrap();
    assert_eq!((floating.width(), floating.height()), (4, 2));
    assert_eq!(floating.get_pixel(0, 0), original.get_pixel(4, 5));
    assert_eq!(floating.get_pixel(3, 1), original.get_pixel(7, 6));
    assert!(tool.original_layer_snapshot.as_ref().unwrap().same_as(&original));
    let layer = layer_of(&image);
    for y in 0..20 {
        for x in 0..20 {
            let lifted = (4..8).contains(&x) && (5..7).contains(&y);
            let expected = if lifted { Some(CLEAR) } else { original.get_pixel(x, y) };
            assert_eq!(layer.get_pixel(x, y), expected);
        }
    }
}

#[test]
fn transform_lifts_only_what_the_mask_selects() {
    let mut image = patterned(12);
    let original = layer_of(&image).clone();
    let mut mask = Mask::new(12, 12);
    mask.set_value(2, 2, 255);
    mask.set_value(5, 4, 1);
    image.selection = Some(mask);
    let mut tool = TransformTool::new();
    tool.update(&mut image, &ToolSettings::default(), &idle(), RED);
    assert_eq!(tool.current_rect, Some(Rect::from_region(Region { x: 2, y: 2, width: 4, height: 3 })));
    let floating = tool.floating_buffer.as_ref().unwrap();
    assert_eq!(floating.get_pixel(0, 0), original.get_pixel(2, 2));
    assert_eq!(floating.get_pixel(3, 2), original.get_pixel(5, 4));
    assert_eq!(floating.get_pixel(1, 1), Some(CLEAR));
    assert_eq!(layer_of(&image).get_pixel(2, 2), Some(CLEAR));
    assert_eq!(layer_of(&image).get_pixel(3, 3), original.get_pixel(3, 3));
}

#[test]
fn transform_stays_idle_without_anything_to_lift() {
    let s = ToolSettings::default();
    let mut image = patterned(12);
    let original = layer_of(&image).clone();
    let mut tool = TransformTool::new();
    assert!(tool.update(&mut image, &s, &press(5, 5), RED).is_none());
    assert!(!tool.is_floating() && tool.current_rect.is_none() && !tool.is_dragging);
    image.selection = Some(Mask::new(12, 12));
    assert!(tool.update(&mut image, &s, &press(5, 5), RED).is_none());
    assert!(!tool.is_floating());
    tool.confirm();
    assert!(!tool.committed);
    assert!(layer_of(&image).same_as(&original));
    assert!(!image.composite_dirty);
    // a vector layer has no pixels to lift
    drag_select(&mut image, (1, 1), (4, 4));
    image.add_layer(Layer::new_vector("v".to_string()));
    image.composite();
    assert!(tool.update(&mut image, &s, &idle(), RED).is_none());
    assert!(!tool.is_floating());
    assert_eq!(tool.layer_index, 1);
    assert!(!image.composite_dirty);
}

#[test]
fn transform_moves_by_the_centre() {
    let s = ToolSettings::default();
    let mut image = patterned(40);
    let original = layer_of(&image).clone();
    drag_select(&mut image, (10, 10), (30, 30));
    let mut tool = TransformTool::new();
    tool.update(&mut image, &s, &press(20, 20), RED);
    assert_eq!(tool.handle_drag, Some(HandleType::Center));
    assert!(tool.is_dragging);
    assert_eq!(tool.drag_start, Some(Point::new(20, 20)));
    assert_eq!(tool.drag_offset, (10, 10));
    tool.update(&mut image, &s, &press(25, 22), RED);
    assert_eq!(tool.current_rect, Some(Rect { min_x: 15, min_y: 12, max_x: 35, max_y: 32 }));
    assert_eq!(tool.source_rect, Some(Rect { min_x: 10, min_y: 10, max_x: 30, max_y: 30 }));
    // letting go ends the drag and keeps the floating buffer
    tool.update(&mut image, &s, &release(25, 22), RED);
    assert!(!tool.is_dragging && tool.handle_drag.is_none());
    assert!(tool.is_floating());
    tool.confirm();
    let cmd = tool.update(&mut image, &s, &idle(), RED).unwrap();
    let layer = layer_of(&image);
    assert_eq!(layer.get_pixel(15, 12), original.get_pixel(10, 10));
    assert_eq!(layer.get_pixel(34, 31), original.get_pixel(29, 29));
    assert_eq!(layer.get_pixel(12, 11), Some(CLEAR));
    assert_eq!(layer.get_pixel(10, 29), Some(CLEAR));
    assert_eq!(layer.get_pixel(35, 32), original.get_pixel(35, 32));
    assert_eq!(layer.get_pixel(9, 9), original.get_pixel(9, 9));
    // the command spans the whole layer, from before the pick-up
    assert!(cmd.old_patch.same_as(&original));
    assert!(cmd.new_patch.same_as(layer));
    cmd.undo(&mut image);
    assert!(layer_of(&image).same_as(&original));
}

#[test]
fn transform_corner_handles_move_one_corner() {
    let s = ToolSettings::default();
    let grab_and_pull = |grab: (i32, i32), to: (i32, i32)| {
        let mut image = patterned(40);
        drag_select(&mut image, (10, 10), (30, 30));
        let mut tool = TransformTool::new();
        tool.update(&mut image, &s, &press(grab.0, grab.1), RED);
        let handle = tool.handle_drag;
        tool.update(&mut image, &s, &press(to.0, to.1), RED);
        (handle, tool.current_rect.unwrap())
    };
    assert_eq!(
        grab_and_pull((11, 11), (5, 6)),
        (Some(HandleType::TopLeft), Rect { min_x: 5, min_y: 6, max_x: 30, max_y: 30 })
    );
    assert_eq!(
        grab_and_pull((29, 12), (35, 6)),
        (Some(HandleType::TopRight), Rect { min_x: 10, min_y: 6, max_x: 35, max_y: 30 })
    );
    assert_eq!(
        grab_and_pull((10, 38), (5, 36)),
        (Some(HandleType::BottomLeft), Rect { min_x: 5, min_y: 10, max_x: 30, max_y: 36 })
    );
    assert_eq!(
        grab_and_pull((38, 38), (39, 39)),
        (Some(HandleType::BottomRight), Rect { min_x: 10, min_y: 10, max_x: 39, max_y: 39 })
    );
    // within reach of no corner and off the rectangle: nothing is grabbed
    assert_eq!(
        grab_and_pull((39, 39), (0, 0)),
        (None, Rect { min_x: 10, min_y: 10, max_x: 30, max_y: 30 })
    );
    // eight pixels from the top-right corner is within its reach
    assert_eq!(
        grab_and_pull((22, 10), (23, 10)),
        (Some(HandleType::TopRight), Rect { min_x: 10, min_y: 10, max_x: 23, max_y: 30 })
    );
}

#[test]
fn transform_handle_reach_is_twelve_pixels() {
    let s = ToolSettings::default();
    let grab = |at: (i32, i32)| {
        let mut image = patterned(50);
        drag_select(&mut image, (10, 10), (40, 40));
        let mut tool = TransformTool::new();
        tool.update(&mut image, &s, &press(at.0, at.1), RED);
        tool.update(&mut image, &s, &press(at.0 + 1, at.1), RED);
        (tool.handle_drag, tool.current_rect.unwrap())
    };
    // twelve pixels from the corner is out of reach; the edge belongs to the centre
    assert_eq!(
        grab((22, 10)),
        (Some(HandleType::Center), Rect { min_x: 11, min_y: 10, max_x: 41, max_y: 40 })
    );
    assert_eq!(grab((21, 10)).0, Some(HandleType::TopLeft));
    assert_eq!(grab((18, 18)).0, Some(HandleType::TopLeft));
    assert_eq!(grab((19, 18)).0, Some(HandleType::Center));
    // off the rectangle but within reach of a corner
    assert_eq!(grab((2, 2)).0, Some(HandleType::TopLeft));
    assert_eq!(grab((0, 2)).0, None);
}

#[test]
fn transform_resamples_to_the_placement() {
    let s = ToolSettings::default();
    let mut image = ImageStore::new(40, 40);
    {
        let layer = image.get_active_raster_buffer_mut().unwrap();
        for y in 10..30 {
            for x in 10..30 {
                layer.put_pixel(x, y, if x < 20 { RED } else { Color::new(0, 0, 255, 255) });
            }
        }
    }
    drag_select(&mut image, (10, 10), (30, 30));
    let mut tool = TransformTool::new();
    tool.update(&mut image, &s, &press(11, 11), RED);
    tool.update(&mut image, &s, &press(20, 20), RED);
    tool.update(&mut image, &s, &release(20, 20), RED);
    assert_eq!(tool.current_rect, Some(Rect { min_x: 20, min_y: 20, max_x: 30, max_y: 30 }));
    tool.confirm();
    tool.update(&mut image, &s, &idle(), RED).unwrap();
    let layer = layer_of(&image);
    assert_eq!(layer.get_pixel(12, 12), Some(CLEAR));
    assert_eq!(layer.get_pixel(19, 25), Some(CLEAR));
    assert_eq!(layer.get_pixel(20, 20), Some(RED));
    assert_eq!(layer.get_pixel(24, 29), Some(RED));
    assert_eq!(layer.get_pixel(25, 20), Some(Color::new(0, 0, 255, 255)));
    assert_eq!(layer.get_pixel(29, 29), Some(Color::new(0, 0, 255, 255)));
    assert_eq!(layer.get_pixel(30, 30), Some(WHITE));
}

#[test]
fn transform_inverted_placement_drops_a_single_pixel() {
    let s = ToolSettings::default();
    let mut image = ImageStore::new(40, 40);
    image.get_active_raster_buffer_mut().unwrap().fill(RED);
    drag_select(&mut image, (10, 10), (30, 30));
    let mut tool = TransformTool::new();
    tool.update(&mut image, &s, &press(11, 11), RED);
    tool.update(&mut image, &s, &press(35, 36), RED);
    assert_eq!(tool.current_rect, Some(Rect { min_x: 35, min_y: 36, max_x: 30, max_y: 30 }));
    tool.update(&mut image, &s, &release(35, 36), RED);
    image.get_active_raster_buffer_mut().unwrap().fill(WHITE);
    tool.confirm();
    assert!(tool.update(&mut image, &s, &idle(), RED).is_some());
    let layer = layer_of(&image);
    assert_eq!(layer.get_pixel(35, 36), Some(RED));
    assert_eq!(layer.get_pixel(36, 36), Some(WHITE));
    assert_eq!(layer.get_pixel(35, 37), Some(WHITE));
    assert_eq!(layer.get_pixel(34, 36), Some(WHITE));
}

#[test]
fn transform_drop_is_clipped_to_the_canvas() {
    let mut target = PixelBuffer::new(4, 4);
    target.fill(WHITE);
    let mut piece = PixelBuffer::new(3, 3);
    piece.fill(RED);
    piece.put_pixel(1, 1, CLEAR);
    piece.put_pixel(2, 2, Color::new(0, 255, 0, 1));
    drop_onto(&mut target, &piece, -1, 2);
    assert_eq!(target.get_pixel(0, 2), Some(RED));
    assert_eq!(target.get_pixel(1, 2), Some(RED));
    assert_eq!(target.get_pixel(0, 3), Some(WHITE));
    assert_eq!(target.get_pixel(1, 3), Some(RED));
    assert_eq!(target.get_pixel(2, 2), Some(WHITE));
    drop_onto(&mut target, &piece, 2, 1);
    assert_eq!(target.get_pixel(3, 2), Some(WHITE));
    assert_eq!(target.get_pixel(2, 1), Some(RED));
    assert_eq!(target.get_pixel(3, 3), Some(RED));
    let before = target.clone();
    drop_onto(&mut target, &piece, 4, 0);
    drop_onto(&mut target, &piece, 0, -3);
    drop_onto(&mut target, &piece, -1_000_000, 1_000_000);
    assert!(target.same_as(&before));
    drop_onto(&mut target, &piece, 1, 1);
    assert_eq!(target.get_pixel(3, 3), Some(Color::new(0, 255, 0, 1)));
}

#[test]
fn transform_picks_up_again_after_a_drop() {
    let s = ToolSettings::default();
    let mut image = patterned(20);
    drag_select(&mut image, (2, 2), (6, 6));
    let mut tool = TransformTool::new();
    tool.update(&mut image, &s, &idle(), RED);
    tool.confirm();
    assert!(tool.update(&mut image, &s, &idle(), RED).is_some());
    assert!(!tool.is_floating());
    assert!(tool.update(&mut image, &s, &idle(), RED).is_none());
    assert!(tool.is_floating());
    image.selection = None;
    tool.confirm();
    assert!(tool.update(&mut image, &s, &idle(), RED).is_some());
    assert!(tool.update(&mut image, &s, &idle(), RED).is_none());
    assert!(!tool.is_floating());
}
