use overlay_text::fix::{Fix, FIX_SCALE};
use overlay_text::queue::{enqueue_offset_text, enqueue_text, CommandQueue, DrawCommand};
use overlay_text::render::{drain_frame, Color, TextStyle};
use overlay_text::transform::{CoordMode, WindowState};

fn fx(v: i32) -> Fix {
    Fix::from_i32(v)
}

fn identity_window() -> WindowState {
    WindowState {
        physical_width: 1920,
        physical_height: 1080,
        logical_width: 1920,
        logical_height: 1080,
    }
}

fn plain_style() -> TextStyle {
    TextStyle { color: Color { r: 255, g: 255, b: 255, a: 255 }, font_size: fx(24) }
}

#[test]
fn pushed_commands_pop_in_order() {
    // Pushing N commands within capacity, then draining from the consumer,
    // yields exactly the N commands in push order.
    let mut q = CommandQueue::new();
    for i in 0..5i32 {
        q.try_push(DrawCommand::SetOffset { dx: fx(i), dy: fx(-i) });
    }
    for i in 0..5i32 {
        let c = q.try_pop().expect("queue should hold a command");
        assert_eq!(c, DrawCommand::SetOffset { dx: fx(i), dy: fx(-i) });
    }
    assert_eq!(q.try_pop(), None);
}

#[test]
fn full_queue_evicts_oldest() {
    let mut q = CommandQueue::new();
    for i in 0..10241i32 {
        q.try_push(DrawCommand::SetOffset { dx: Fix { raw: i as i64 }, dy: fx(0) });
    }
    let first = q.try_pop().expect("queue should be full");
    assert_eq!(first, DrawCommand::SetOffset { dx: Fix { raw: 1 }, dy: fx(0) });
    let mut count = 1usize;
    while q.try_pop().is_some() {
        count += 1;
    }
    assert_eq!(count, 10240);
}

#[test]
fn enqueue_text_decodes_and_queues() {
    let mut q = CommandQueue::new();
    let units: Vec<u16> = vec![0x41, 0];
    enqueue_text(&mut q, &units, fx(1), fx(2), fx(3), CoordMode::Normalized4K);
    let c = q.try_pop().unwrap();
    assert_eq!(
        c,
        DrawCommand::Text {
            content: String::from("A"),
            x: fx(1),
            y: fx(2),
            z: fx(3),
            mode: CoordMode::Normalized4K,
        }
    );
}

#[test]
fn enqueue_offset_text_preserves_program_order() {
    let mut q = CommandQueue::new();
    let units: Vec<u16> = vec![0x42, 0];
    enqueue_offset_text(&mut q, &units, fx(1), fx(2), fx(0), CoordMode::NativeScreenA, fx(7), fx(8));
    assert_eq!(q.try_pop().unwrap(), DrawCommand::SetOffset { dx: fx(7), dy: fx(8) });
    match q.try_pop().unwrap() {
        DrawCommand::Text { content, x, y, mode, .. } => {
            assert_eq!(content, "B");
            assert_eq!(x, fx(1));
            assert_eq!(y, fx(2));
            assert_eq!(mode, CoordMode::NativeScreenA);
        }
        other => panic!("expected a text command, got {:?}", other),
    }
}

#[test]
fn malformed_text_enqueues_placeholder() {
    let mut q = CommandQueue::new();
    let units: Vec<u16> = vec![0xD800, 0];
    enqueue_text(&mut q, &units, fx(0), fx(0), fx(0), CoordMode::NativeScreenA);
    match q.try_pop().unwrap() {
        DrawCommand::Text { content, .. } => assert_eq!(content, "?EncodingError?"),
        other => panic!("expected a text command, got {:?}", other),
    }
}

#[test]
fn offset_applies_to_next_text_only() {
    // SetOffset(5,5), then "A" at the origin, then "B" at the origin: "A"
    // is drawn at base + (5,5), "B" at base + (0,0).
    let mut q = CommandQueue::new();
    let win = identity_window();
    q.try_push(DrawCommand::SetOffset { dx: fx(5), dy: fx(5) });
    q.try_push(DrawCommand::Text {
        content: String::from("A"),
        x: fx(0),
        y: fx(0),
        z: fx(0),
        mode: CoordMode::NativeScreenA,
    });
    q.try_push(DrawCommand::Text {
        content: String::from("B"),
        x: fx(0),
        y: fx(0),
        z: fx(0),
        mode: CoordMode::NativeScreenA,
    });
    let items = drain_frame(&mut q, None, &win, &plain_style());
    assert_eq!(items.len(), 2);
    assert_eq!(items[0].content, "A");
    assert_eq!(items[0].x.raw, 5 * FIX_SCALE);
    assert_eq!(items[0].y.raw, 5 * FIX_SCALE);
    assert_eq!(items[1].content, "B");
    assert_eq!(items[1].x.raw, 0);
    assert_eq!(items[1].y.raw, 0);
    assert_eq!(q.try_pop(), None);
}

#[test]
fn skipped_item_consumes_offset() {
    // An invalid transform skips only that item, but the text still
    // consumes the pending offset: the next drawable text is unshifted.
    let mut q = CommandQueue::new();
    let win = identity_window();
    q.try_push(DrawCommand::SetOffset { dx: fx(3), dy: fx(4) });
    q.try_push(DrawCommand::Text {
        content: String::from("behind"),
        x: fx(0),
        y: fx(0),
        z: fx(-1),
        mode: CoordMode::WorldProjectedA,
    });
    q.try_push(DrawCommand::Text {
        content: String::from("front"),
        x: fx(10),
        y: fx(20),
        z: fx(0),
        mode: CoordMode::NativeScreenA,
    });
    let items = drain_frame(&mut q, None, &win, &plain_style());
    assert_eq!(items.len(), 1);
    assert_eq!(items[0].content, "front");
    assert_eq!(items[0].x.raw, 10 * FIX_SCALE);
    assert_eq!(items[0].y.raw, 20 * FIX_SCALE);
}

#[test]
fn drain_resolves_styles_and_ids() {
    let mut q = CommandQueue::new();
    let win = identity_window();
    let style = TextStyle { color: Color { r: 10, g: 20, b: 30, a: 40 }, font_size: fx(18) };
    q.try_push(DrawCommand::Text {
        content: String::from("hello"),
        x: fx(100),
        y: fx(200),
        z: fx(0),
        mode: CoordMode::NativeScreenB,
    });
    q.try_push(DrawCommand::Text {
        content: String::from("hello"),
        x: fx(100),
        y: fx(200),
        z: fx(0),
        mode: CoordMode::NativeScreenB,
    });
    q.try_push(DrawCommand::Text {
        content: String::from("other"),
        x: fx(100),
        y: fx(200),
        z: fx(0),
        mode: CoordMode::NativeScreenB,
    });
    let items = drain_frame(&mut q, None, &win, &style);
    assert_eq!(items.len(), 3);
    assert_eq!(items[0].color, Color { r: 10, g: 20, b: 30, a: 40 });
    // 18 px wanted over the 24 px base: scale 0.75 exactly.
    assert_eq!(items[0].font_scale.raw, 3 * FIX_SCALE / 4);
    // Identical text and position hash identically; different text does not.
    assert_eq!(items[0].id, items[1].id);
    assert_ne!(items[0].id, items[2].id);
}

#[test]
fn empty_queue_drains_to_nothing() {
    let mut q = CommandQueue::new();
    let win = identity_window();
    let items = drain_frame(&mut q, None, &win, &plain_style());
    assert!(items.is_empty());
}
