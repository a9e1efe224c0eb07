use xmirror::capture;
use xmirror::capture::forward_step;
use xmirror::capture::Step;
use xmirror::event::Event;
use xmirror::event::Key;
use xmirror::event::Mods;
use xmirror::event::MODS_ALT;
use xmirror::event::MODS_CTRL;
use xmirror::event::MODS_SHIFT;
use xmirror::event::MODS_SUPER;
use xmirror::inject;
use xmirror::inject::x11_ops;
use xmirror::inject::X11Op;

#[test]
fn escape_combo_shuts_the_pipeline_down() {
    assert_eq!(forward_step(Event::Mods(Mods::all())), Step::Shutdown);
    assert_eq!(
        forward_step(Event::Mods(Mods::from_bits_truncate(
            MODS_SHIFT | MODS_CTRL | MODS_ALT | MODS_SUPER
        ))),
        Step::Shutdown
    );
}

#[test]
fn three_modifiers_do_not_shut_down() {
    for missing in [MODS_SHIFT, MODS_CTRL, MODS_ALT, MODS_SUPER] {
        let three = Mods::from_bits_truncate(15 & !missing);
        let event = Event::Mods(three);
        match forward_step(event) {
            Step::Send(packet) => assert_eq!(packet, event.encode()),
            Step::Shutdown => panic!("three modifiers must not shut down"),
        }
    }
}

#[test]
fn ordinary_events_are_forwarded_encoded() {
    let events = [
        Event::KeyDown(Key::Q),
        Event::KeyUp(Key::Q),
        Event::Mods(Mods::empty()),
        Event::MouseMove { dx: 4, dy: -4 },
    ];
    for event in events {
        assert_eq!(forward_step(event), Step::Send(event.encode()));
    }
}

#[test]
fn scripted_capturer_preserves_order() {
    let script = vec![
        Event::KeyDown(Key::H),
        Event::KeyUp(Key::H),
        Event::Scroll { dx: 0, dy: 1 },
    ];
    let mut capturer = capture::Dummy::new(script.clone());
    assert_eq!(capturer.remaining(), 3);
    for expected in script {
        assert_eq!(capturer.capture(), expected);
    }
    assert_eq!(capturer.remaining(), 0);
}

#[test]
fn recording_injector_keeps_arrival_order() {
    let mut injector = inject::Dummy::new();
    let events = [Event::KeyDown(Key::A), Event::KeyUp(Key::A)];
    for event in events {
        assert!(injector.emulate(event).is_ok());
    }
    assert_eq!(injector.log().as_slice(), events.as_slice());
}

#[test]
fn end_to_end_key_press_and_release() {
    // capture side: the key with ordinal 0, pressed then released
    let mut capturer = capture::Dummy::new(vec![
        Event::KeyDown(Key::A),
        Event::KeyUp(Key::A),
    ]);
    let mut packets = Vec::new();
    while capturer.remaining() > 0 {
        match forward_step(capturer.capture()) {
            Step::Send(packet) => packets.push(packet),
            Step::Shutdown => panic!("no escape combo in this script"),
        }
    }
    assert_eq!(packets, vec![[1, 0, 0], [2, 0, 0]]);

    // consumer side: decode each packet in order and plan its injection
    let mut ops = Vec::new();
    for packet in &packets {
        let event = Event::decode(packet).unwrap();
        ops.extend(x11_ops(event));
    }
    let code = Key::A.to_x11();
    assert_eq!(code, 38);
    assert_eq!(
        ops,
        vec![
            X11Op::KeyEvent { code, press: true },
            X11Op::KeyEvent { code, press: false },
        ]
    );
}

fn count_clicks(ops: &[X11Op], dir_code: u32) -> (usize, usize) {
    let presses = ops
        .iter()
        .filter(|op| matches!(op, X11Op::ButtonEvent { code, press: true } if *code == dir_code))
        .count();
    let releases = ops
        .iter()
        .filter(|op| matches!(op, X11Op::ButtonEvent { code, press: false } if *code == dir_code))
        .count();
    (presses, releases)
}

#[test]
fn scroll_up_decomposes_into_vertical_clicks_only() {
    let ops = x11_ops(Event::Scroll { dx: 0, dy: 3 });
    assert_eq!(ops.len(), 6);
    let up = xmirror::event::Scroll::Up.to_x11();
    assert_eq!(count_clicks(&ops, up), (3, 3));
    for horizontal in [xmirror::event::Scroll::Left.to_x11(), xmirror::event::Scroll::Right.to_x11()] {
        assert_eq!(count_clicks(&ops, horizontal), (0, 0));
    }
}

#[test]
fn scroll_left_decomposes_into_horizontal_clicks_only() {
    let ops = x11_ops(Event::Scroll { dx: -2, dy: 0 });
    assert_eq!(ops.len(), 4);
    let left = xmirror::event::Scroll::Left.to_x11();
    assert_eq!(count_clicks(&ops, left), (2, 2));
    let up = xmirror::event::Scroll::Up.to_x11();
    let down = xmirror::event::Scroll::Down.to_x11();
    assert_eq!(count_clicks(&ops, up), (0, 0));
    assert_eq!(count_clicks(&ops, down), (0, 0));
}

#[test]
fn scroll_clicks_alternate_press_release_per_axis() {
    let ops = x11_ops(Event::Scroll { dx: 1, dy: -2 });
    let right = xmirror::event::Scroll::Right.to_x11();
    let down = xmirror::event::Scroll::Down.to_x11();
    assert_eq!(
        ops,
        vec![
            X11Op::ButtonEvent { code: right, press: true },
            X11Op::ButtonEvent { code: right, press: false },
            X11Op::ButtonEvent { code: down, press: true },
            X11Op::ButtonEvent { code: down, press: false },
            X11Op::ButtonEvent { code: down, press: true },
            X11Op::ButtonEvent { code: down, press: false },
        ]
    );
}

#[test]
fn extreme_scroll_delta_is_handled() {
    let ops = x11_ops(Event::Scroll { dx: -128, dy: 127 });
    let left = xmirror::event::Scroll::Left.to_x11();
    let up = xmirror::event::Scroll::Up.to_x11();
    assert_eq!(count_clicks(&ops, left), (128, 128));
    assert_eq!(count_clicks(&ops, up), (127, 127));
    assert_eq!(ops.len(), 2 * (128 + 127));
}

#[test]
fn other_events_plan_single_operations() {
    assert_eq!(
        x11_ops(Event::MouseMove { dx: -5, dy: 2 }),
        vec![X11Op::RelativeMotion { dx: -5, dy: 2 }]
    );
    assert_eq!(
        x11_ops(Event::Mods(Mods::from_bits_truncate(MODS_SHIFT | MODS_CTRL))),
        vec![X11Op::LockMods { mask: 1 | 4 }]
    );
    assert_eq!(
        x11_ops(Event::MouseDown(xmirror::event::Mouse::Right)),
        vec![X11Op::ButtonEvent { code: 3, press: true }]
    );
    assert_eq!(
        x11_ops(Event::MouseUp(xmirror::event::Mouse::Right)),
        vec![X11Op::ButtonEvent { code: 3, press: false }]
    );
}
