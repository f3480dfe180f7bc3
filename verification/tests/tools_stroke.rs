use arspaint::geometry::{FinePoint, Point, Region};
use arspaint::image_store::ImageStore;
use arspaint::layers::Layer;
use arspaint::raster::{Color, PixelBuffer};
use arspaint::state::ToolSettings;
use arspaint::tools::base::{BrushTool, EraserTool, LineTool, Tool, ToolInput};
use arspaint::tools::ellipse::EllipseTool;
use arspaint::tools::rect::RectangleTool;
use arspaint::tools::scratch::Scratch;

const WHITE: Color = Color { r: 255, g: 255, b: 255, a: 255 };
const BLACK: Color = Color { r: 0, g: 0, b: 0, a: 255 };
const RED: Color = Color { r: 255, g: 0, b: 0, a: 255 };
const CLEAR: Color = Color { r: 0, g: 0, b: 0, a: 0 };

fn press(x: i32, y: i32) -> ToolInput {
    ToolInput { pos: Some(Point::new(x, y)), is_pressed: true, is_released: false }
}

fn release(x: i32, y: i32) -> ToolInput {
    ToolInput { pos: Some(Point::new(x, y)), is_pressed: false, is_released: true }
}

fn settings(size: u32) -> ToolSettings {
    ToolSettings {
        brush_size: size,
        brush_stabilization: 0,
        brush_spacing: 10,
        eraser_size: size,
        line_width: size,
    }
}

fn layer_of(image: &ImageStore) -> &PixelBuffer {
    image.layers[image.active_layer].data.buffer().unwrap()
}

fn painted(buf: &PixelBuffer) -> Vec<(u32, u32)> {
    let mut out = Vec::new();
    for y in 0..buf.height() {
        for x in 0..buf.width() {
            if buf.get_pixel(x, y).unwrap().a > 0 {
                out.push((x, y));
            }
        }
    }
    out
}

#[test]
fn circle_stamp_is_a_filled_disc() {
    let mut s = Scratch::new(12, 12);
    s.stamp_circle(5, 5, 1, RED);
    assert_eq!(painted(&s.layer), vec![(5, 4), (4, 5), (5, 5), (6, 5), (5, 6)]);
    assert_eq!(s.layer.get_pixel(5, 5), Some(RED));
    assert_eq!(s.dirty_rect, Some(Region { x: 4, y: 4, width: 3, height: 3 }));
    s.stamp_circle(8, 5, 0, BLACK);
    assert_eq!(s.layer.get_pixel(8, 5), Some(BLACK));
    assert_eq!(s.dirty_rect, Some(Region { x: 4, y: 4, width: 5, height: 3 }));
}

#[test]
fn circle_stamp_of_radius_two() {
    let mut s = Scratch::new(9, 9);
    s.stamp_circle(4, 4, 2, RED);
    let got = painted(&s.layer);
    assert_eq!(got.len(), 13);
    assert!(got.contains(&(4, 2)) && got.contains(&(2, 4)) && got.contains(&(6, 4)));
    assert!(got.contains(&(3, 3)) && got.contains(&(5, 5)));
    assert!(!got.contains(&(2, 2)) && !got.contains(&(6, 6)) && !got.contains(&(2, 3)));
}

#[test]
fn stamps_are_clamped_to_the_canvas() {
    let mut s = Scratch::new(10, 10);
    s.stamp_circle(0, 0, 2, RED);
    assert_eq!(s.dirty_rect, Some(Region { x: 0, y: 0, width: 3, height: 3 }));
    s.clear_dirty();
    assert_eq!(s.dirty_rect, None);
    assert!(painted(&s.layer).is_empty());
    s.stamp_circle(9, 9, 3, RED);
    assert_eq!(s.dirty_rect, Some(Region { x: 6, y: 6, width: 4, height: 4 }));
}

#[test]
fn stamps_off_the_canvas_leave_no_dirty_block() {
    let mut s = Scratch::new(10, 10);
    s.stamp_circle(-5, 4, 2, RED);
    s.stamp_circle(4, 30, 2, RED);
    s.stamp_circle(13, 4, 2, RED);
    s.stamp(None, i32::MIN as i64, i32::MAX as i64, 5, RED);
    assert_eq!(s.dirty_rect, None);
    assert!(painted(&s.layer).is_empty());
    s.stamp_circle(-1, 4, 2, RED);
    assert_eq!(s.dirty_rect, Some(Region { x: 0, y: 2, width: 2, height: 5 }));
    assert_eq!(painted(&s.layer), vec![(0, 3), (0, 4), (1, 4), (0, 5)]);
}

#[test]
fn segment_is_stamped_at_every_step() {
    let at = |x: i32, y: i32| FinePoint::from_point(Point::new(x, y));
    let mut s = Scratch::new(12, 4);
    s.stamp_segment(None, at(0, 1), at(8, 1), 400, 0, RED);
    assert_eq!(painted(&s.layer), vec![(0, 1), (4, 1), (8, 1)]);
    assert_eq!(s.dirty_rect, Some(Region { x: 0, y: 1, width: 9, height: 1 }));

    let mut s = Scratch::new(12, 4);
    s.stamp_segment(None, at(2, 0), at(5, 3), 100, 0, RED);
    assert_eq!(painted(&s.layer), vec![(2, 0), (3, 1), (4, 2), (5, 3)]);

    let mut s = Scratch::new(12, 4);
    s.stamp_segment(None, at(7, 2), at(3, 2), 100, 0, RED);
    assert_eq!(painted(&s.layer), vec![(3, 2), (4, 2), (5, 2), (6, 2), (7, 2)]);
}

#[test]
fn texture_stamp_takes_alpha_from_the_texels() {
    let mut tex = PixelBuffer::new(2, 2);
    tex.put_pixel(0, 0, Color::new(9, 9, 9, 255));
    tex.put_pixel(1, 0, Color::new(9, 9, 9, 128));
    tex.put_pixel(0, 1, Color::new(9, 9, 9, 0));
    tex.put_pixel(1, 1, Color::new(9, 9, 9, 64));
    let ink = Color::new(10, 20, 30, 255);
    let mut s = Scratch::new(10, 10);
    s.stamp_texture(&tex, 5, 5, 1, ink);
    assert_eq!(s.dirty_rect, Some(Region { x: 4, y: 4, width: 2, height: 2 }));
    assert_eq!(s.layer.get_pixel(4, 4), Some(Color::new(10, 20, 30, 255)));
    assert_eq!(s.layer.get_pixel(5, 4), Some(Color::new(10, 20, 30, 128)));
    assert_eq!(s.layer.get_pixel(4, 5), Some(CLEAR));
    assert_eq!(s.layer.get_pixel(5, 5), Some(Color::new(10, 20, 30, 64)));
    assert_eq!(painted(&s.layer).len(), 3);

    // stretched over a square of side 4, each texel covers 2 by 2 pixels
    let mut s = Scratch::new(10, 10);
    s.stamp_texture(&tex, 5, 5, 2, Color::new(1, 2, 3, 128));
    assert_eq!(s.dirty_rect, Some(Region { x: 3, y: 3, width: 4, height: 4 }));
    assert_eq!(s.layer.get_pixel(3, 3), Some(Color::new(1, 2, 3, 128)));
    assert_eq!(s.layer.get_pixel(4, 4), Some(Color::new(1, 2, 3, 128)));
    assert_eq!(s.layer.get_pixel(5, 3), Some(Color::new(1, 2, 3, 64)));
    assert_eq!(s.layer.get_pixel(6, 6), Some(Color::new(1, 2, 3, 32)));
    assert_eq!(s.layer.get_pixel(3, 6), Some(CLEAR));
}

#[test]
fn texture_stamps_keep_the_higher_alpha() {
    let mut tex = PixelBuffer::new(1, 1);
    tex.put_pixel(0, 0, Color::new(0, 0, 0, 200));
    let strong = Color::new(255, 0, 0, 255);
    let weak = Color::new(0, 0, 255, 100);
    let mut s = Scratch::new(6, 6);
    s.stamp_texture(&tex, 2, 2, 1, weak);
    assert_eq!(s.layer.get_pixel(1, 1), Some(Color::new(0, 0, 255, 78)));
    s.stamp_texture(&tex, 2, 2, 1, strong);
    assert_eq!(s.layer.get_pixel(1, 1), Some(Color::new(255, 0, 0, 200)));
    s.stamp_texture(&tex, 2, 2, 1, weak);
    assert_eq!(s.layer.get_pixel(1, 1), Some(Color::new(255, 0, 0, 200)));
    // an empty texture draws nothing and still dirties its square
    let mut s = Scratch::new(6, 6);
    s.stamp_texture(&PixelBuffer::new(0, 0), 2, 2, 1, strong);
    assert!(painted(&s.layer).is_empty());
    assert_eq!(s.dirty_rect, Some(Region { x: 1, y: 1, width: 2, height: 2 }));
}

#[test]
fn brush_press_and_release_commit_a_minimal_patch() {
    let mut image = ImageStore::new(20, 20);
    image.composite();
    let mut brush = BrushTool::new(20, 20);
    assert_eq!(brush.name(), "Brush");
    assert!(brush.get_temp_layer().is_none());
    assert!(brush.update(&mut image, &settings(2), &press(5, 5), BLACK).is_none());
    let (preview, ox, oy) = brush.get_temp_layer().unwrap();
    assert_eq!((ox, oy), (0, 0));
    assert_eq!(preview.get_pixel(5, 5), Some(BLACK));
    assert_eq!(layer_of(&image).get_pixel(5, 5), Some(WHITE));
    assert!(!image.composite_dirty);

    let cmd = brush.update(&mut image, &settings(2), &release(5, 5), BLACK).unwrap();
    assert_eq!(cmd.name, "Brush Stroke");
    assert_eq!((cmd.layer_index, cmd.x, cmd.y), (0, 3, 3));
    assert_eq!((cmd.old_patch.width(), cmd.old_patch.height()), (5, 5));
    assert_eq!((cmd.new_patch.width(), cmd.new_patch.height()), (5, 5));
    assert_eq!(cmd.old_patch.get_pixel(2, 2), Some(WHITE));
    assert_eq!(cmd.new_patch.get_pixel(2, 2), Some(BLACK));
    assert_eq!(cmd.new_patch.get_pixel(0, 0), Some(WHITE));
    assert_eq!(layer_of(&image).get_pixel(5, 5), Some(BLACK));
    assert_eq!(layer_of(&image).get_pixel(7, 5), Some(BLACK));
    assert_eq!(layer_of(&image).get_pixel(8, 5), Some(WHITE));
    assert_eq!(layer_of(&image).get_pixel(3, 3), Some(WHITE));
    assert!(image.composite_dirty);
    assert!(brush.get_temp_layer().is_none());
    assert!(painted(&brush.scratch.layer).is_empty());
    assert!(brush.last_pos.is_none() && brush.stabilized_pos.is_none());
}

#[test]
fn brush_strokes_between_samples_and_smooths() {
    let mut image = ImageStore::new(40, 20);
    let mut brush = BrushTool::new(40, 20);
    let mut s = settings(0);
    s.brush_stabilization = 50;
    brush.update(&mut image, &s, &press(10, 10), BLACK);
    assert_eq!(brush.stabilized_pos, Some(FinePoint { x: 2560, y: 2560 }));
    brush.update(&mut image, &s, &press(20, 10), BLACK);
    assert_eq!(brush.stabilized_pos, Some(FinePoint { x: 3840, y: 2560 }));
    assert_eq!(brush.last_pos, brush.stabilized_pos);
    assert_eq!(
        painted(&brush.scratch.layer),
        vec![(10, 10), (11, 10), (12, 10), (13, 10), (14, 10), (15, 10)]
    );
    // pressed off the image: the brush stays where it is
    let off = ToolInput { pos: None, is_pressed: true, is_released: false };
    brush.update(&mut image, &s, &off, BLACK);
    assert_eq!(brush.stabilized_pos, Some(FinePoint { x: 3840, y: 2560 }));
    brush.update(&mut image, &s, &press(20, 10), BLACK);
    // (15 + 20) / 2 = 17.5
    assert_eq!(brush.stabilized_pos, Some(FinePoint { x: 4480, y: 2560 }));
    assert!(painted(&brush.scratch.layer).contains(&(17, 10)));
    assert!(!painted(&brush.scratch.layer).contains(&(18, 10)));
    let cmd = brush.update(&mut image, &s, &release(20, 10), BLACK).unwrap();
    assert_eq!((cmd.x, cmd.y), (10, 10));
    assert_eq!((cmd.old_patch.width(), cmd.old_patch.height()), (8, 1));
}

#[test]
fn brush_spacing_sets_the_distance_between_stamps() {
    let mut image = ImageStore::new(40, 8);
    let mut brush = BrushTool::new(40, 8);
    let mut tex = PixelBuffer::new(1, 1);
    tex.put_pixel(0, 0, Color::new(0, 0, 0, 255));
    brush.texture = Some(tex);
    let mut s = settings(1);
    s.brush_spacing = 600;
    brush.update(&mut image, &s, &press(4, 4), RED);
    brush.update(&mut image, &s, &press(16, 4), RED);
    // step 6 pixels: stamps at x = 4, 10 and 16, each a square from x - 1 to x
    let row: Vec<u32> = painted(&brush.scratch.layer).iter().filter(|p| p.1 == 4).map(|p| p.0).collect();
    assert_eq!(row, vec![3, 4, 9, 10, 15, 16]);
}

#[test]
fn brush_off_the_canvas_makes_no_command() {
    let mut image = ImageStore::new(10, 10);
    image.composite();
    let mut brush = BrushTool::new(10, 10);
    brush.update(&mut image, &settings(2), &press(-50, -50), BLACK);
    assert!(brush.get_temp_layer().is_none());
    assert!(brush.update(&mut image, &settings(2), &release(-50, -50), BLACK).is_none());
    assert!(!image.composite_dirty);
    // a release without any stroke makes none either
    assert!(brush.update(&mut image, &settings(2), &release(5, 5), BLACK).is_none());
}

#[test]
fn brush_on_a_vector_layer_drops_the_stroke() {
    let mut image = ImageStore::new(10, 10);
    image.add_layer(Layer::new_vector("v".to_string()));
    image.composite();
    let mut brush = BrushTool::new(10, 10);
    brush.update(&mut image, &settings(1), &press(5, 5), BLACK);
    assert!(brush.update(&mut image, &settings(1), &release(5, 5), BLACK).is_none());
    assert!(!image.composite_dirty);
    assert!(brush.scratch.dirty_rect.is_none());
    assert!(painted(&brush.scratch.layer).is_empty());
    image.active_layer = 9;
    brush.update(&mut image, &settings(1), &press(5, 5), BLACK);
    assert!(brush.update(&mut image, &settings(1), &release(5, 5), BLACK).is_none());
}

#[test]
fn scratch_follows_the_canvas_size() {
    let mut brush = BrushTool::new(4, 4);
    let mut image = ImageStore::new(10, 10);
    brush.update(&mut image, &settings(1), &press(8, 8), BLACK);
    assert_eq!((brush.scratch.layer.width(), brush.scratch.layer.height()), (10, 10));
    assert_eq!(brush.scratch.layer.get_pixel(8, 8), Some(BLACK));
    // the canvas changes size in mid-stroke: the stroke is lost
    let mut other = ImageStore::new(12, 12);
    other.composite();
    assert!(brush.update(&mut other, &settings(1), &release(8, 8), BLACK).is_none());
    assert_eq!((brush.scratch.layer.width(), brush.scratch.layer.height()), (12, 12));
    assert!(painted(&brush.scratch.layer).is_empty());
    assert!(!other.composite_dirty);
}

#[test]
fn alpha_lock_keeps_every_alpha() {
    let mut image = ImageStore::new(10, 4);
    {
        let layer = image.get_active_raster_buffer_mut().unwrap();
        for y in 0..4 {
            for x in 0..10 {
                let c = if x < 4 {
                    CLEAR
                } else if x < 7 {
                    Color::new(0, 0, 255, 100)
                } else {
                    Color::new(0, 0, 255, 255)
                };
                layer.put_pixel(x, y, c);
            }
        }
    }
    image.layers[0].alpha_locked = true;
    let mut line = LineTool::new(10, 4);
    line.update(&mut image, &settings(0), &press(0, 1), RED);
    line.update(&mut image, &settings(0), &press(9, 1), RED);
    let cmd = line.update(&mut image, &settings(0), &release(9, 1), RED).unwrap();
    assert_eq!((cmd.x, cmd.y, cmd.new_patch.width(), cmd.new_patch.height()), (0, 1, 10, 1));
    let layer = layer_of(&image);
    for x in 0..4 {
        assert_eq!(layer.get_pixel(x, 1), Some(CLEAR));
    }
    for x in 4..7 {
        assert_eq!(layer.get_pixel(x, 1), Some(Color::new(255, 0, 0, 100)));
    }
    for x in 7..10 {
        assert_eq!(layer.get_pixel(x, 1), Some(Color::new(255, 0, 0, 255)));
    }
    assert_eq!(layer.get_pixel(5, 0), Some(Color::new(0, 0, 255, 100)));
    assert!(painted(&line.scratch.layer).is_empty());
}

#[test]
fn without_alpha_lock_the_stroke_is_written_as_it_is() {
    let mut image = ImageStore::new(6, 3);
    image.get_active_raster_buffer_mut().unwrap().fill(CLEAR);
    let ink = Color::new(1, 2, 3, 77);
    let mut brush = BrushTool::new(6, 3);
    brush.update(&mut image, &settings(0), &press(2, 1), ink);
    brush.update(&mut image, &settings(0), &release(2, 1), ink);
    assert_eq!(layer_of(&image).get_pixel(2, 1), Some(ink));
    assert_eq!(painted(layer_of(&image)), vec![(2, 1)]);
}

#[test]
fn eraser_clears_along_its_path_whatever_the_alpha_lock() {
    let mut image = ImageStore::new(10, 5);
    image.layers[0].alpha_locked = true;
    let mut eraser = EraserTool::new(10, 5);
    assert_eq!(eraser.name(), "Eraser");
    eraser.update(&mut image, &settings(0), &press(2, 2), RED);
    assert_eq!(eraser.scratch.layer.get_pixel(2, 2), Some(Color::new(255, 255, 255, 128)));
    eraser.update(&mut image, &settings(0), &press(6, 2), RED);
    assert!(eraser.get_temp_layer().is_some());
    let cmd = eraser.update(&mut image, &settings(0), &release(6, 2), RED).unwrap();
    assert_eq!(cmd.name, "Erase");
    assert_eq!((cmd.x, cmd.y, cmd.old_patch.width(), cmd.old_patch.height()), (2, 2, 5, 1));
    let layer = layer_of(&image);
    for x in 2..7 {
        assert_eq!(layer.get_pixel(x, 2), Some(CLEAR));
    }
    assert_eq!(layer.get_pixel(1, 2), Some(WHITE));
    assert_eq!(layer.get_pixel(7, 2), Some(WHITE));
    assert_eq!(layer.get_pixel(4, 1), Some(WHITE));
    assert!(eraser.last_pos.is_none());
    assert!(eraser.get_temp_layer().is_none());
}

#[test]
fn eraser_stamps_a_disc_of_its_size() {
    let mut image = ImageStore::new(9, 9);
    let mut eraser = EraserTool::new(9, 9);
    eraser.update(&mut image, &settings(1), &press(4, 4), RED);
    eraser.update(&mut image, &settings(1), &release(4, 4), RED);
    let layer = layer_of(&image);
    let erased: Vec<(u32, u32)> = (0..81u32)
        .map(|i| (i % 9, i / 9))
        .filter(|&(x, y)| layer.get_pixel(x, y) == Some(CLEAR))
        .collect();
    assert_eq!(erased, vec![(4, 3), (3, 4), (4, 4), (5, 4), (4, 5)]);
}

#[test]
fn line_is_a_rubber_band_until_release() {
    let mut image = ImageStore::new(10, 10);
    let mut line = LineTool::new(10, 10);
    assert_eq!(line.name(), "Line");
    line.update(&mut image, &settings(0), &press(2, 2), BLACK);
    assert_eq!(painted(&line.scratch.layer), vec![(2, 2)]);
    assert_eq!(line.start_pos, Some(Point::new(2, 2)));
    line.update(&mut image, &settings(0), &press(6, 2), BLACK);
    assert_eq!(painted(&line.scratch.layer), vec![(2, 2), (3, 2), (4, 2), (5, 2), (6, 2)]);
    line.update(&mut image, &settings(0), &press(2, 6), BLACK);
    assert_eq!(painted(&line.scratch.layer), vec![(2, 2), (2, 3), (2, 4), (2, 5), (2, 6)]);
    assert_eq!(line.start_pos, Some(Point::new(2, 2)));
    assert_eq!(line.current_pos, Some(Point::new(2, 6)));
    let cmd = line.update(&mut image, &settings(0), &release(2, 6), BLACK).unwrap();
    assert_eq!(cmd.name, "Line");
    assert_eq!((cmd.x, cmd.y, cmd.new_patch.width(), cmd.new_patch.height()), (2, 2, 1, 5));
    assert_eq!(layer_of(&image).get_pixel(2, 4), Some(BLACK));
    assert_eq!(layer_of(&image).get_pixel(4, 2), Some(WHITE));
    assert!(line.start_pos.is_none() && line.current_pos.is_none());
    assert!(line.get_temp_layer().is_none());
}

#[test]
fn line_width_is_the_stamp_radius() {
    let mut image = ImageStore::new(10, 10);
    let mut line = LineTool::new(10, 10);
    line.update(&mut image, &settings(1), &press(3, 5), BLACK);
    line.update(&mut image, &settings(1), &press(6, 5), BLACK);
    let got = painted(&line.scratch.layer);
    assert!(got.contains(&(2, 5)) && got.contains(&(7, 5)));
    assert!(got.contains(&(4, 4)) && got.contains(&(4, 6)));
    assert!(!got.contains(&(2, 4)) && !got.contains(&(7, 6)));
    assert!(!got.contains(&(4, 3)));
    assert_eq!(line.scratch.dirty_rect, Some(Region { x: 2, y: 4, width: 6, height: 3 }));
}

#[test]
fn line_released_without_a_press_makes_no_command() {
    let mut image = ImageStore::new(10, 10);
    image.composite();
    let mut line = LineTool::new(10, 10);
    assert!(line.update(&mut image, &settings(0), &release(3, 3), BLACK).is_none());
    let off = ToolInput { pos: None, is_pressed: true, is_released: false };
    assert!(line.update(&mut image, &settings(0), &off, BLACK).is_none());
    assert!(line.start_pos.is_none());
    assert!(!image.composite_dirty);
}

#[test]
fn rectangle_draws_its_four_edges() {
    let mut image = ImageStore::new(10, 10);
    let mut tool = RectangleTool::new(10, 10);
    assert_eq!(tool.name(), "Rectangle");
    tool.update(&mut image, &settings(0), &press(6, 5), BLACK);
    tool.update(&mut image, &settings(0), &press(2, 2), BLACK);
    let mut expected = Vec::new();
    for y in 2..=5u32 {
        for x in 2..=6u32 {
            if x == 2 || x == 6 || y == 2 || y == 5 {
                expected.push((x, y));
            }
        }
    }
    assert_eq!(painted(&tool.scratch.layer), expected);
    assert!(tool.get_temp_layer().is_some());
    let cmd = tool.update(&mut image, &settings(0), &release(2, 2), BLACK).unwrap();
    assert_eq!(cmd.name, "Rectangle");
    assert_eq!((cmd.x, cmd.y, cmd.new_patch.width(), cmd.new_patch.height()), (2, 2, 5, 4));
    assert_eq!(layer_of(&image).get_pixel(6, 3), Some(BLACK));
    assert_eq!(layer_of(&image).get_pixel(4, 3), Some(WHITE));
    assert!(tool.start_pos.is_none());
}

#[test]
fn ellipse_stamps_the_outline_it_is_given() {
    let mut image = ImageStore::new(12, 12);
    let mut tool = EllipseTool::new(12, 12);
    assert_eq!(tool.name(), "Ellipse");
    assert_eq!(tool.width, 2);
    tool.width = 0;
    let first = press(3, 3);
    assert_eq!(tool.span(&first), Some((Point::new(3, 3), Point::new(3, 3))));
    tool.set_outline(vec![Point::new(3, 3)]);
    tool.update(&mut image, &settings(5), &first, BLACK);
    let second = press(9, 7);
    assert_eq!(tool.span(&second), Some((Point::new(3, 3), Point::new(9, 7))));
    assert_eq!(tool.span(&release(9, 7)), None);
    tool.set_outline(vec![Point::new(9, 5), Point::new(6, 7), Point::new(3, 5), Point::new(6, 3)]);
    tool.update(&mut image, &settings(5), &second, BLACK);
    assert_eq!(painted(&tool.scratch.layer), vec![(6, 3), (3, 5), (9, 5), (6, 7)]);
    let cmd = tool.update(&mut image, &settings(5), &release(9, 7), BLACK).unwrap();
    assert_eq!(cmd.name, "Ellipse");
    assert_eq!((cmd.x, cmd.y, cmd.new_patch.width(), cmd.new_patch.height()), (3, 3, 7, 5));
    assert_eq!(layer_of(&image).get_pixel(9, 5), Some(BLACK));
    assert_eq!(layer_of(&image).get_pixel(6, 5), Some(WHITE));
}

#[test]
fn ellipse_width_is_its_own() {
    let mut image = ImageStore::new(12, 12);
    let mut tool = EllipseTool::new(12, 12);
    tool.set_outline(vec![Point::new(6, 6)]);
    tool.update(&mut image, &settings(0), &press(6, 6), BLACK);
    assert_eq!(painted(&tool.scratch.layer).len(), 13);
    assert_eq!(tool.scratch.dirty_rect, Some(Region { x: 4, y: 4, width: 5, height: 5 }));
}

#[test]
fn tools_work_through_the_trait() {
    fn stroke<T: Tool>(tool: &mut T, image: &mut ImageStore) -> Option<String> {
        let s = ToolSettings::default();
        tool.update(image, &s, &press(5, 5), BLACK);
        let shown = tool.get_temp_layer().is_some();
        let cmd = tool.update(image, &s, &release(5, 5), BLACK);
        assert!(shown);
        cmd.map(|c| format!("{}: {}", tool.name(), c.name))
    }
    let mut image = ImageStore::new(20, 20);
    assert_eq!(stroke(&mut BrushTool::new(20, 20), &mut image).unwrap(), "Brush: Brush Stroke");
    assert_eq!(stroke(&mut EraserTool::new(20, 20), &mut image).unwrap(), "Eraser: Erase");
    assert_eq!(stroke(&mut LineTool::new(20, 20), &mut image).unwrap(), "Line: Line");
    assert_eq!(stroke(&mut RectangleTool::new(20, 20), &mut image).unwrap(), "Rectangle: Rectangle");
}

#[test]
fn default_settings() {
    let s = ToolSettings::default();
    assert_eq!(
        s,
        ToolSettings {
            brush_size: 5,
            brush_stabilization: 50,
            brush_spacing: 10,
            eraser_size: 10,
            line_width: 2,
        }
    );
}
