use arspaint::commands::{Command, CommandStack, PatchCommand};
use arspaint::image_store::ImageStore;
use arspaint::layers::Layer;
use arspaint::raster::{Color, PixelBuffer};

const WHITE: Color = Color { r: 255, g: 255, b: 255, a: 255 };
const BLACK: Color = Color { r: 0, g: 0, b: 0, a: 255 };

fn block(width: u32, height: u32, c: Color) -> PixelBuffer {
    let mut b = PixelBuffer::new(width, height);
    b.fill(c);
    b
}

fn paint_command(name: &str, layer_index: usize, x: u32, y: u32, c: Color) -> PatchCommand {
    PatchCommand {
        name: name.to_string(),
        layer_index,
        x,
        y,
        old_patch: block(2, 2, WHITE),
        new_patch: block(2, 2, c),
    }
}

#[test]
fn empty_stack_can_do_nothing() {
    let mut stack = CommandStack::new();
    let mut image = ImageStore::new(4, 4);
    assert!(!stack.can_undo());
    assert!(!stack.can_redo());
    assert_eq!(stack.cursor(), 0);
    assert_eq!(stack.len(), 0);
    let before = image.layers[0].data.buffer().unwrap().clone();
    stack.undo(&mut image);
    stack.redo(&mut image);
    assert!(image.layers[0].data.buffer().unwrap().same_as(&before));
    assert!(!image.composite_dirty);
    assert_eq!(stack.cursor(), 0);
}

#[test]
fn patch_redo_and_undo_copy_the_blocks() {
    let mut image = ImageStore::new(4, 4);
    let cmd = paint_command("dab", 0, 1, 2, BLACK);
    assert_eq!(cmd.name(), "dab");
    cmd.redo(&mut image);
    let layer = image.layers[0].data.buffer().unwrap();
    assert_eq!(layer.get_pixel(1, 2), Some(BLACK));
    assert_eq!(layer.get_pixel(2, 3), Some(BLACK));
    assert_eq!(layer.get_pixel(3, 3), Some(WHITE));
    assert_eq!(layer.get_pixel(1, 1), Some(WHITE));
    assert!(!image.composite_dirty);
    cmd.undo(&mut image);
    assert!(image.layers[0].data.buffer().unwrap().same_as(&block(4, 4, WHITE)));
}

#[test]
fn patch_on_a_missing_layer_or_a_vector_layer_does_nothing() {
    let mut image = ImageStore::new(4, 4);
    image.add_layer(Layer::new_vector("v".to_string()));
    let before = image.layers[0].data.buffer().unwrap().clone();
    paint_command("gone", 7, 0, 0, BLACK).redo(&mut image);
    paint_command("gone", 7, 0, 0, BLACK).undo(&mut image);
    paint_command("vector", 1, 0, 0, BLACK).redo(&mut image);
    paint_command("vector", 1, 0, 0, BLACK).undo(&mut image);
    assert!(image.layers[0].data.buffer().unwrap().same_as(&before));
    assert_eq!(image.layers.len(), 2);
}

#[test]
fn patch_that_does_not_fit_does_nothing() {
    let mut image = ImageStore::new(4, 4);
    let before = image.layers[0].data.buffer().unwrap().clone();
    paint_command("over", 0, 3, 0, BLACK).redo(&mut image);
    paint_command("over", 0, 0, 3, BLACK).redo(&mut image);
    assert!(image.layers[0].data.buffer().unwrap().same_as(&before));
}

#[test]
fn command_trait_matches_the_patch() {
    fn run<C: Command>(c: &C, image: &mut ImageStore) -> String {
        c.redo(image);
        c.undo(image);
        c.redo(image);
        c.name().clone()
    }
    let mut image = ImageStore::new(4, 4);
    let cmd = paint_command("via trait", 0, 0, 0, BLACK);
    assert_eq!(run(&cmd, &mut image), "via trait");
    assert_eq!(image.layers[0].data.buffer().unwrap().get_pixel(1, 1), Some(BLACK));
}

#[test]
fn undo_and_redo_move_the_cursor_and_mark_dirty() {
    let mut stack = CommandStack::new();
    let mut image = ImageStore::new(4, 4);
    let a = paint_command("a", 0, 0, 0, BLACK);
    a.redo(&mut image);
    stack.push(a);
    assert!(stack.can_undo());
    assert!(!stack.can_redo());
    assert_eq!((stack.cursor(), stack.len()), (1, 1));

    stack.undo(&mut image);
    assert!(image.composite_dirty);
    assert_eq!(image.layers[0].data.buffer().unwrap().get_pixel(0, 0), Some(WHITE));
    assert!(!stack.can_undo());
    assert!(stack.can_redo());
    assert_eq!((stack.cursor(), stack.len()), (0, 1));

    image.composite();
    stack.redo(&mut image);
    assert!(image.composite_dirty);
    assert_eq!(image.layers[0].data.buffer().unwrap().get_pixel(0, 0), Some(BLACK));
    assert_eq!((stack.cursor(), stack.len()), (1, 1));
    stack.redo(&mut image);
    assert_eq!((stack.cursor(), stack.len()), (1, 1));
}

#[test]
fn push_after_undo_discards_the_future() {
    let mut stack = CommandStack::new();
    let mut image = ImageStore::new(4, 4);
    let red = Color::new(255, 0, 0, 255);
    let blue = Color::new(0, 0, 255, 255);
    for (name, x, c) in [("a", 0, BLACK), ("b", 2, red)] {
        let cmd = paint_command(name, 0, x, 0, c);
        cmd.redo(&mut image);
        stack.push(cmd);
    }
    stack.undo(&mut image);
    assert!(stack.can_redo());
    let c = paint_command("c", 0, 2, 2, blue);
    c.redo(&mut image);
    stack.push(c);
    assert!(!stack.can_redo());
    assert_eq!((stack.cursor(), stack.len()), (2, 2));
    // the undone command is out of reach: redo does nothing, and undoing
    // twice walks back over "c" and "a" only
    stack.redo(&mut image);
    let layer = image.layers[0].data.buffer().unwrap();
    assert_eq!(layer.get_pixel(2, 0), Some(WHITE));
    assert_eq!(layer.get_pixel(2, 2), Some(blue));
    stack.undo(&mut image);
    stack.undo(&mut image);
    assert!(!stack.can_undo());
    assert!(image.layers[0].data.buffer().unwrap().same_as(&block(4, 4, WHITE)));
}

#[test]
fn push_on_two_pending_redos_drops_both() {
    let mut stack = CommandStack::new();
    let mut image = ImageStore::new(4, 4);
    for name in ["a", "b", "c"] {
        stack.push(paint_command(name, 0, 0, 0, BLACK));
    }
    stack.undo(&mut image);
    stack.undo(&mut image);
    assert_eq!((stack.cursor(), stack.len()), (1, 3));
    stack.push(paint_command("d", 0, 0, 0, BLACK));
    assert_eq!((stack.cursor(), stack.len()), (2, 2));
    assert!(!stack.can_redo());
}
