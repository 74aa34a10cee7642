use touch_gui::button::Button;
use touch_gui::events::{ButtonEvent, PinStateEvent};
use touch_gui::framebuffer::{DisplayBuffer, Rgb888};
use touch_gui::geometry::{Point, Rectangle, Size};
use touch_gui::outputs::{OutputBank, Served};
use touch_gui::panel::{BufferId, DoubleBuffer, Panel, PANEL_HEIGHT, PANEL_WIDTH};
use touch_gui::queue::{ButtonEventQueue, PinStateQueue, TouchQueue};
use touch_gui::sampler::{Reading, Sampler, TouchSample};
use touch_gui::text::draw_text_in;

const ALL: [ButtonEvent; 4] = [ButtonEvent::D0, ButtonEvent::D1, ButtonEvent::D2, ButtonEvent::D3];

fn contact_at(point_x: u16, point_y: u16) -> Reading {
    // The controller's axes are the panel's axes exchanged.
    Reading {
        count: Some(1),
        contact: Some(TouchSample { x: point_y, y: point_x, weight: 0, misc: 0 }),
    }
}

fn quiet() -> Reading {
    Reading { count: Some(0), contact: None }
}

fn small_panel() -> Panel {
    Panel::with_layout(
        120,
        80,
        "T",
        Button::new(Point::new(0, 20), Size::new(60, 30), "A"),
        Button::new(Point::new(60, 20), Size::new(60, 30), "B"),
        Button::new(Point::new(0, 50), Size::new(60, 30), "C"),
        Button::new(Point::new(60, 50), Size::new(60, 30), "D"),
    )
}

#[test]
fn stock_panel_layout() {
    let panel = Panel::new();
    assert_eq!((PANEL_WIDTH, PANEL_HEIGHT), (480, 272));
    let origins = [(100, 60), (300, 60), (100, 130), (300, 130)];
    let names = ["D0", "D1", "D2", "D3"];
    for i in 0..4 {
        let b = panel.get_button(ALL[i]);
        assert_eq!(b.area.top_left, Point::new(origins[i].0, origins[i].1));
        assert_eq!(b.area.size, Size::new(100, 50));
        assert_eq!(b.text, names[i]);
        assert!(!b.is_pressed);
    }
    assert_eq!(panel.buffers().published_id(), None);
    assert_eq!(panel.buffers().get(BufferId::First).width(), 480);
    assert_eq!(panel.buffers().get(BufferId::First).height(), 272);
    assert_eq!(panel.buffers().get(BufferId::Second).width(), 480);
    assert_eq!(panel.buffers().get(BufferId::Second).height(), 272);
}

#[test]
fn hit_test_names_the_button_under_the_point() {
    let panel = Panel::new();
    assert_eq!(panel.hit_test(Point::new(150, 85)), vec![ButtonEvent::D0]);
    assert_eq!(panel.hit_test(Point::new(350, 85)), vec![ButtonEvent::D1]);
    assert_eq!(panel.hit_test(Point::new(150, 150)), vec![ButtonEvent::D2]);
    assert_eq!(panel.hit_test(Point::new(399, 179)), vec![ButtonEvent::D3]);
    assert_eq!(panel.hit_test(Point::new(10, 10)), vec![]);
    assert_eq!(panel.hit_test(Point::new(200, 85)), vec![]);
    assert_eq!(panel.hit_test(Point::new(250, 85)), vec![]);
}

#[test]
fn hit_test_keeps_the_order_of_overlapping_buttons() {
    let whole = Size::new(50, 50);
    let panel = Panel::with_layout(
        50,
        50,
        "",
        Button::new(Point::new(0, 0), whole, "A"),
        Button::new(Point::new(30, 30), whole, "B"),
        Button::new(Point::new(0, 0), whole, "C"),
        Button::new(Point::new(10, 10), whole, "D"),
    );
    assert_eq!(
        panel.hit_test(Point::new(5, 5)),
        vec![ButtonEvent::D0, ButtonEvent::D2]
    );
    assert_eq!(
        panel.hit_test(Point::new(20, 20)),
        vec![ButtonEvent::D0, ButtonEvent::D2, ButtonEvent::D3]
    );
    assert_eq!(panel.hit_test(Point::new(40, 40)), ALL.to_vec());
}

#[test]
fn apply_sets_the_one_button() {
    let mut panel = small_panel();
    panel.apply(PinStateEvent::D2(true));
    for b in ALL {
        assert_eq!(panel.get_button(b).is_pressed, b == ButtonEvent::D2);
    }
    panel.apply(PinStateEvent::D0(true));
    panel.apply(PinStateEvent::D2(false));
    for b in ALL {
        assert_eq!(panel.get_button(b).is_pressed, b == ButtonEvent::D0);
    }
    assert_eq!(panel.get_button(ButtonEvent::D1).text, "B");
}

#[test]
fn double_buffer_alternates() {
    let mut pair = DoubleBuffer::new(8, 4);
    assert_eq!(pair.published_id(), None);
    assert_eq!(pair.target(), BufferId::First);
    assert_eq!(pair.publish(), BufferId::First);
    assert_eq!(pair.published_id(), Some(BufferId::First));
    assert_eq!(pair.target(), BufferId::Second);
    assert_eq!(pair.publish(), BufferId::Second);
    assert_eq!(pair.published_id(), Some(BufferId::Second));
    assert_eq!(pair.target(), BufferId::First);
    assert_eq!(BufferId::First.other(), BufferId::Second);
    assert_eq!(BufferId::Second.other(), BufferId::First);
    assert_eq!(pair.get(BufferId::First).words().len(), 32);
}

#[test]
fn render_never_draws_into_the_published_buffer() {
    let mut panel = small_panel();
    let mut level = false;
    for round in 0..6 {
        let published = panel.buffers().published_id();
        let scanned: Option<Vec<u32>> =
            published.map(|id| panel.buffers().get(id).words().clone());
        let target = panel.buffers().target();
        assert_ne!(Some(target), published);
        level = !level;
        panel.apply(PinStateEvent::new(ALL[round % 4], level));
        let drawn = panel.render();
        assert_eq!(drawn, target);
        assert_eq!(panel.buffers().published_id(), Some(drawn));
        assert_ne!(panel.buffers().target(), drawn);
        if let (Some(id), Some(words)) = (published, scanned) {
            assert_eq!(id, drawn.other());
            assert_eq!(*panel.buffers().get(id).words(), words);
        }
    }
}

#[test]
fn render_draws_title_and_buttons_over_black() {
    let mut panel = small_panel();
    panel.apply(PinStateEvent::D1(true));
    let id = panel.render();
    let mut want = DisplayBuffer::new(120, 80);
    want.clear();
    let whole = Rectangle::new(Point::new(0, 0), Size::new(120, 80));
    assert!(draw_text_in(&mut want, "T", whole, false, Rgb888::blue()));
    for b in ALL {
        panel.get_button(b).draw(&mut want);
    }
    assert_eq!(panel.buffers().get(id).words(), want.words());
    let fb = panel.buffers().get(id);
    assert_eq!(fb.pixel(0, 0), Some(0xFF00_0000));
    assert_eq!(fb.pixel(0, 20), Some(0xFFFF_0000));
    assert_eq!(fb.pixel(60, 20), Some(0xFF00_FF00));
    assert!(fb.words().iter().any(|w| *w == 0xFF00_00FF));
}

#[test]
fn touch_on_d0_toggles_its_output_and_comes_back_as_pressed() {
    let mut sampler = Sampler::new();
    let mut touches = TouchQueue::new();
    let mut events = ButtonEventQueue::new();
    let mut pins = PinStateQueue::new();
    let mut bank = OutputBank::new();
    let mut panel = Panel::new();

    assert_eq!(sampler.tick_into(contact_at(150, 85), &mut touches), None);
    assert_eq!(panel.frame(&mut touches, &mut pins, &mut events), vec![]);
    assert_eq!(events.len(), 1);
    assert!(!panel.get_button(ButtonEvent::D0).is_pressed);

    assert!(!bank.is_set_high(ButtonEvent::D0));
    assert_eq!(
        bank.serve(&mut events, &mut pins),
        Served::Reported(PinStateEvent::D0(true))
    );
    assert!(bank.is_set_high(ButtonEvent::D0));
    assert_eq!(bank.serve(&mut events, &mut pins), Served::Idle);

    assert_eq!(panel.frame(&mut touches, &mut pins, &mut events), vec![]);
    assert!(panel.get_button(ButtonEvent::D0).is_pressed);
    assert_eq!(pins.len(), 0);
    assert_eq!(events.len(), 0);
    let shown = panel.buffers().published_id().unwrap();
    assert_eq!(panel.buffers().get(shown).pixel(100, 60), Some(0xFF00_FF00));
    assert_eq!(panel.buffers().get(shown).pixel(300, 60), Some(0xFFFF_0000));
}

#[test]
fn touch_off_every_button_raises_nothing_and_the_panel_is_redrawn() {
    let mut touches = TouchQueue::new();
    let mut events = ButtonEventQueue::new();
    let mut pins = PinStateQueue::new();
    let mut panel = small_panel();
    assert_eq!(panel.frame(&mut touches, &mut pins, &mut events), vec![]);
    let first = panel.buffers().published_id().unwrap();
    let before: Vec<u32> = panel.buffers().get(first).words().clone();

    assert!(touches.try_send(Point::new(10, 10)));
    assert_eq!(panel.frame(&mut touches, &mut pins, &mut events), vec![]);
    assert_eq!(touches.len(), 0);
    assert_eq!(events.len(), 0);
    let second = panel.buffers().published_id().unwrap();
    assert_ne!(first, second);
    assert_eq!(*panel.buffers().get(second).words(), before);
    for b in ALL {
        assert!(!panel.get_button(b).is_pressed);
    }
}

#[test]
fn second_touch_within_the_window_is_discarded() {
    let mut sampler = Sampler::new();
    let mut touches = TouchQueue::new();
    let mut events = ButtonEventQueue::new();
    let mut pins = PinStateQueue::new();
    let mut bank = OutputBank::new();
    let mut panel = small_panel();
    // Two contacts forty milliseconds apart fall on neighbouring ticks.
    let readings = [contact_at(10, 30), contact_at(10, 30), quiet(), quiet()];
    let mut raised = 0;
    let mut reports = Vec::new();
    for reading in readings {
        assert_eq!(sampler.tick_into(reading, &mut touches), None);
        assert_eq!(panel.frame(&mut touches, &mut pins, &mut events), vec![]);
        raised += events.len();
        match bank.serve(&mut events, &mut pins) {
            Served::Reported(report) => reports.push(report),
            other => assert_eq!(other, Served::Idle),
        }
    }
    assert_eq!(raised, 1);
    assert_eq!(reports, vec![PinStateEvent::D0(true)]);
    assert!(bank.is_set_high(ButtonEvent::D0));
}

#[test]
fn frame_takes_one_touch_and_one_report_in_that_order() {
    let mut touches = TouchQueue::new();
    let mut events = ButtonEventQueue::new();
    let mut pins = PinStateQueue::new();
    let mut panel = small_panel();
    assert!(touches.try_send(Point::new(70, 60)));
    assert!(pins.try_send(PinStateEvent::D3(true)));
    assert!(pins.try_send(PinStateEvent::D0(true)));
    assert_eq!(panel.frame(&mut touches, &mut pins, &mut events), vec![]);
    assert_eq!(events.try_receive(), Some(ButtonEvent::D3));
    assert_eq!(events.try_receive(), None);
    assert!(panel.get_button(ButtonEvent::D3).is_pressed);
    assert!(!panel.get_button(ButtonEvent::D0).is_pressed);
    assert_eq!(pins.len(), 1);
    assert_eq!(panel.frame(&mut touches, &mut pins, &mut events), vec![]);
    assert!(panel.get_button(ButtonEvent::D0).is_pressed);
    assert_eq!(pins.len(), 0);
}

#[test]
fn frame_returns_the_events_that_find_the_queue_full() {
    let whole = Size::new(40, 40);
    let mut panel = Panel::with_layout(
        40,
        40,
        "",
        Button::new(Point::new(0, 0), whole, "A"),
        Button::new(Point::new(0, 0), whole, "B"),
        Button::new(Point::new(0, 0), whole, "C"),
        Button::new(Point::new(0, 0), whole, "D"),
    );
    let mut touches = TouchQueue::new();
    let mut events = ButtonEventQueue::new();
    let mut pins = PinStateQueue::new();
    for _ in 0..30 {
        assert!(events.try_send(ButtonEvent::D3));
    }
    assert!(touches.try_send(Point::new(1, 1)));
    let pending = panel.frame(&mut touches, &mut pins, &mut events);
    assert_eq!(pending, vec![ButtonEvent::D2, ButtonEvent::D3]);
    assert_eq!(events.len(), 32);
    for _ in 0..30 {
        assert_eq!(events.try_receive(), Some(ButtonEvent::D3));
    }
    assert_eq!(events.try_receive(), Some(ButtonEvent::D0));
    assert_eq!(events.try_receive(), Some(ButtonEvent::D1));
    assert_eq!(events.try_receive(), None);
}
