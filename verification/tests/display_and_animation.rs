use solar_dehydrator::animation::logo_animation::LogoAnimation as SizedLogoAnimation;
use solar_dehydrator::animation::{LogoAnimation, SwipeRect};
use solar_dehydrator::ssd1315::{
    control_byte, init_commands, set_addr_command, SetAddress, WriteType, SSD1315,
};

fn pixel(d: &SSD1315, x: usize, y: usize) -> bool {
    (d.framebuffer()[(y / 8) * 128 + x] >> (y % 8)) & 1 == 1
}

#[test]
fn set_pixel_touches_one_bit() {
    let mut d = SSD1315::new();
    d.set_pixel(5, 10, true);
    assert_eq!(d.framebuffer()[128 + 5], 0b100);
    assert!(pixel(&d, 5, 10));
    assert!(!pixel(&d, 5, 11));
    d.set_pixel(5, 11, true);
    d.set_pixel(5, 10, false);
    assert!(!pixel(&d, 5, 10));
    assert!(pixel(&d, 5, 11));
    assert_eq!(d.framebuffer().iter().filter(|b| **b != 0).count(), 1);
}

#[test]
fn draw_point_ignores_points_off_screen() {
    let mut d = SSD1315::new();
    d.draw_point(-1, 3, true);
    d.draw_point(128, 3, true);
    d.draw_point(3, 64, true);
    assert!(d.framebuffer().iter().all(|b| *b == 0));
    d.draw_point(127, 63, true);
    assert_eq!(d.framebuffer()[1023], 0x80);
}

#[test]
fn clear_fills_every_byte() {
    let mut d = SSD1315::new();
    d.clear(true);
    assert!(d.framebuffer().iter().all(|b| *b == 0xff));
    assert!(pixel(&d, 77, 33));
    d.clear(false);
    assert!(d.framebuffer().iter().all(|b| *b == 0));
    assert_eq!(d.size(), (128, 64));
}

#[test]
fn controller_commands() {
    assert_eq!(control_byte(WriteType::Command), 0x00);
    assert_eq!(control_byte(WriteType::Data), 0x40);
    assert_eq!(set_addr_command(SetAddress::Column { start: 0, end: 127 }), [0x21, 0, 127]);
    assert_eq!(set_addr_command(SetAddress::Page { start: 0, end: 15 }), [0x22, 0, 7]);
    let init = init_commands();
    assert_eq!(init[0], 0xA8);
    assert_eq!(init[18], 0xAF);
}

#[test]
fn logo_animation_runs_51_ticks() {
    let mut a = LogoAnimation::new();
    let first = a.tick_frame();
    assert_eq!(first.sweep(), &[SwipeRect { row: 0, width: 12 }]);
    assert!(first.clear().is_empty());
    let mut ticks = 1;
    while !a.is_done() {
        a.tick_frame();
        ticks += 1;
        assert!(ticks <= 100);
    }
    assert_eq!(ticks, 51);
    assert_eq!(a.ticks(), 51);
    // a finished animation stays finished
    assert!(a.can_tick());
    let f = a.tick_frame();
    assert!(f.clear().iter().all(|r| r.width == 132));
    assert!(a.is_done());
}

#[test]
fn logo_animation_frames() {
    let mut a = LogoAnimation::new();
    for _ in 0..17 {
        a.tick_frame();
    }
    // tick 17: the last box reaches the full width and the sweep ends
    let f = a.tick_frame();
    assert_eq!(f.sweep().len(), 8);
    assert_eq!(f.sweep()[7], SwipeRect { row: 7, width: 132 });
    let f = a.tick_frame();
    assert!(f.sweep().is_empty());
    assert_eq!(f.clear().len(), 8);
    assert!(f.clear().iter().all(|r| r.width == 0));
}

#[test]
fn narrow_display_never_finishes_the_sweep() {
    let mut a = SizedLogoAnimation::new();
    for _ in 0..200 {
        a.tick_frame(64);
    }
    assert!(!a.is_done());
    let mut b = SizedLogoAnimation::new();
    let mut ticks = 0;
    while !b.is_done() {
        b.tick_frame(128);
        ticks += 1;
    }
    assert_eq!(ticks, 51);
}
