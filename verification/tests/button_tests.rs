use touch_gui::button::Button;
use touch_gui::framebuffer::{DisplayBuffer, Rgb888};
use touch_gui::geometry::{Point, Rectangle, Size};
use touch_gui::text::draw_text_box;

fn d0() -> Button {
    Button::new(Point::new(100, 60), Size::new(100, 50), "D0")
}

#[test]
fn new_button_is_released_green_and_red() {
    let b = d0();
    assert_eq!(b.area, Rectangle::new(Point::new(100, 60), Size::new(100, 50)));
    assert_eq!(b.text, "D0");
    assert!(!b.is_pressed);
    assert_eq!(b.pressed_color, Rgb888::green());
    assert_eq!(b.released_color, Rgb888::red());
}

#[test]
fn touch_inside_d0_hits() {
    assert!(d0().check_touch(Point::new(150, 85)));
}

#[test]
fn check_touch_agrees_with_the_half_open_area() {
    let b = d0();
    for y in 50..120 {
        for x in 90..210 {
            let inside = (100..200).contains(&x) && (60..110).contains(&y);
            assert_eq!(b.check_touch(Point::new(x, y)), inside, "point ({}, {})", x, y);
        }
    }
}

#[test]
fn caption_names_the_state() {
    let mut b = d0();
    assert_eq!(b.caption(), "D0: OFF");
    b.is_pressed = true;
    assert_eq!(b.caption(), "D0: ON");
}

#[test]
fn draw_fills_the_area_and_inks_the_caption() {
    let b = Button::new(Point::new(10, 5), Size::new(100, 50), "D0");
    let mut fb = DisplayBuffer::new(120, 60);
    b.draw(&mut fb);
    // "D0: OFF" is 70 by 20 and begins at 10 + 15 and 5 + 15.
    let mut ink = DisplayBuffer::new(120, 60);
    draw_text_box(&mut ink, "D0: OFF", 25, 20, (70, 20), Rgb888::white());
    let mut inked = 0;
    for y in 0..60 {
        for x in 0..120 {
            let on_button = (10..110).contains(&x) && (5..55).contains(&y);
            let want = if ink.pixel(x, y) != Some(0) {
                inked += 1;
                0xFF00_0000
            } else if on_button {
                0xFFFF_0000
            } else {
                0
            };
            assert_eq!(fb.pixel(x, y), Some(want), "pixel ({}, {})", x, y);
        }
    }
    assert!(inked > 0);
}

#[test]
fn draw_uses_the_colour_of_the_state() {
    let mut b = Button::new(Point::new(0, 0), Size::new(80, 30), "D1");
    let mut fb = DisplayBuffer::new(80, 30);
    b.draw(&mut fb);
    assert_eq!(fb.pixel(0, 0), Some(0xFFFF_0000));
    b.is_pressed = true;
    b.draw(&mut fb);
    assert_eq!(fb.pixel(0, 0), Some(0xFF00_FF00));
    b.pressed_color = Rgb888::new(1, 2, 3);
    b.draw(&mut fb);
    assert_eq!(fb.pixel(0, 0), Some(0xFF01_0203));
    b.is_pressed = false;
    b.released_color = Rgb888::white();
    b.draw(&mut fb);
    assert_eq!(fb.pixel(79, 29), Some(0xFFFF_FFFF));
}

#[test]
fn drawing_twice_leaves_what_drawing_once_left() {
    for pressed in [false, true] {
        let mut b = Button::new(Point::new(-5, 12), Size::new(100, 50), "D2");
        b.is_pressed = pressed;
        let mut fb = DisplayBuffer::new(90, 70);
        fb.set_pixel(3, 3, Rgb888::white());
        b.draw(&mut fb);
        let once: Vec<u32> = fb.words().clone();
        b.draw(&mut fb);
        assert_eq!(*fb.words(), once);
    }
}

#[test]
fn drawing_into_equal_buffers_leaves_equal_buffers() {
    let b = d0();
    let mut first = DisplayBuffer::new(240, 136);
    let mut second = DisplayBuffer::new(240, 136);
    first.clear();
    second.clear();
    b.draw(&mut first);
    b.draw(&mut second);
    assert_eq!(first.words(), second.words());
}

#[test]
fn drawing_leaves_the_rest_of_the_buffer_alone() {
    let b = Button::new(Point::new(40, 40), Size::new(100, 50), "D3");
    let mut fb = DisplayBuffer::new(200, 100);
    fb.clear();
    fb.set_pixel(0, 0, Rgb888::white());
    fb.set_pixel(199, 99, Rgb888::blue());
    b.draw(&mut fb);
    assert_eq!(fb.pixel(0, 0), Some(0xFFFF_FFFF));
    assert_eq!(fb.pixel(199, 99), Some(0xFF00_00FF));
    assert_eq!(fb.pixel(39, 40), Some(0xFF00_0000));
    assert_eq!(fb.pixel(140, 90), Some(0xFF00_0000));
    assert_eq!(fb.pixel(40, 40), Some(0xFFFF_0000));
}
