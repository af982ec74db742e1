use chip8_vm::display::Display;

#[test]
fn test_pixel_to_bit_offset() {
    let dsp = Display::new();

    let (byte_idx, bit_idx) = dsp.pixel_to_bit_offset(11, 7);
    assert_eq!(byte_idx, 57);
    assert_eq!(bit_idx, 4);
}

#[test]
fn test_set_pixel() {
    let mut dsp = Display::new();

    dsp.set_pixel(0, 0, true);
    assert_eq!(dsp.framebuffer()[0], 0b10000000);

    dsp.set_pixel(5, 10, true);
    assert_eq!(dsp.framebuffer()[80], 0b00000100);

    dsp.set_pixel(33, 10, true);
    assert_eq!(dsp.framebuffer()[84], 0b01000000);
}

#[test]
fn test_get_pixel() {
    let mut dsp = Display::new();
    dsp.set_pixel(0, 0, true);
    dsp.set_pixel(5, 10, true);
    dsp.set_pixel(33, 10, true);
    assert_eq!(dsp.framebuffer()[0], 0b10000000);
    assert_eq!(dsp.framebuffer()[80], 0b00000100);
    assert_eq!(dsp.framebuffer()[84], 0b01000000);

    let pixel = dsp.get_pixel(0, 0);
    assert!(pixel);

    let pixel = dsp.get_pixel(5, 10);
    assert!(pixel);

    let pixel = dsp.get_pixel(33, 10);
    assert!(pixel);
}

#[test]
fn test_toggle_pixel() {
    let mut dsp = Display::new();

    dsp.toggle_pixel(7, 17);
    assert_eq!(dsp.get_pixel(7, 17), true);

    dsp.toggle_pixel(7, 17);
    assert_eq!(dsp.get_pixel(7, 17), false);
}

#[test]
fn test_out_of_bounds_pixels_are_noops() {
    let mut dsp = Display::new();

    dsp.set_pixel(64, 0, true);
    dsp.set_pixel(0, 32, true);
    dsp.toggle_pixel(200, 200);
    for byte in dsp.framebuffer() {
        assert_eq!(*byte, 0);
    }
    assert!(!dsp.get_pixel(64, 0));
    assert!(!dsp.get_pixel(0, 32));
    assert!(!dsp.get_pixel(255, 255));
}

#[test]
fn test_draw_sprite_collision_and_involution() {
    let mut dsp = Display::new();
    let glyph = [0xF0u8, 0x90, 0x90, 0x90, 0xF0];

    let first = dsp.draw_sprite(0, 0, &glyph);
    assert!(!first);
    assert!(dsp.get_pixel(0, 0));
    assert!(dsp.get_pixel(3, 0));
    assert!(!dsp.get_pixel(1, 1));
    assert!(dsp.get_pixel(0, 2));

    let second = dsp.draw_sprite(0, 0, &glyph);
    assert!(second);
    for byte in dsp.framebuffer() {
        assert_eq!(*byte, 0);
    }
}

#[test]
fn test_draw_sprite_clips_at_edges() {
    let mut dsp = Display::new();
    let row = [0xFFu8];

    // anchored on the right edge: only the two leftmost sprite bits land
    let collision = dsp.draw_sprite(62, 0, &row);
    assert!(!collision);
    assert!(dsp.get_pixel(62, 0));
    assert!(dsp.get_pixel(63, 0));
    assert!(!dsp.get_pixel(0, 0));
    assert!(!dsp.get_pixel(0, 1));

    // anchored below the bottom edge: nothing lands
    let mut dsp2 = Display::new();
    let collision2 = dsp2.draw_sprite(0, 32, &row);
    assert!(!collision2);
    for byte in dsp2.framebuffer() {
        assert_eq!(*byte, 0);
    }
}

#[test]
fn test_clear_blanks_everything() {
    let mut dsp = Display::new();
    dsp.set_pixel(12, 21, true);
    dsp.clear();
    for byte in dsp.framebuffer() {
        assert_eq!(*byte, 0);
    }
}
