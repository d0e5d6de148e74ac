use chip8emu::display::{DisplayErr, MachDisplay};

#[test]
fn new_display_is_cleared() {
    let d = MachDisplay::new(64, 32);
    assert_eq!(d.get_width(), 64);
    assert_eq!(d.get_height(), 32);
    for y in 0..32 {
        for x in 0..64 {
            assert_eq!(d.get_pixel(x, y), Ok(false));
        }
    }
}

#[test]
fn pixel_out_of_bounds_is_error() {
    let mut d = MachDisplay::new(64, 32);
    assert_eq!(d.get_pixel(64, 0), Err(DisplayErr));
    assert_eq!(d.get_pixel(0, 32), Err(DisplayErr));
    assert_eq!(d.set_pixel(64, 0, true), Err(DisplayErr));
    assert_eq!(d.set_pixel(5, 6, true), Ok(()));
    assert_eq!(d.get_pixel(5, 6), Ok(true));
}

#[test]
fn clear_screen_unsets_every_pixel() {
    let mut d = MachDisplay::new(64, 32);
    d.set_pixel(3, 4, true).unwrap();
    d.set_pixel(63, 31, true).unwrap();
    d.clear_screen();
    for y in 0..32 {
        for x in 0..64 {
            assert_eq!(d.get_pixel(x, y), Ok(false));
        }
    }
}

#[test]
fn draw_writes_sprite_pattern() {
    let mut d = MachDisplay::new(64, 32);
    let sprite = [0b1010_0001u8, 0b0100_0010u8];
    let collided = d.draw(&sprite, 4, 3);
    assert!(!collided);
    for (row, byte) in sprite.iter().enumerate() {
        for bit in 0..8usize {
            let expected = byte & (0x80 >> bit) != 0;
            assert_eq!(d.get_pixel(4 + bit, 3 + row), Ok(expected));
        }
    }
    // pixels outside the sprite stay cleared
    assert_eq!(d.get_pixel(3, 3), Ok(false));
    assert_eq!(d.get_pixel(12, 3), Ok(false));
    assert_eq!(d.get_pixel(4, 5), Ok(false));
}

#[test]
fn draw_twice_clears_and_collides() {
    let mut d = MachDisplay::new(64, 32);
    let sprite = [0xFFu8, 0x81, 0xFF];
    let first = d.draw(&sprite, 10, 10);
    assert!(!first);
    let second = d.draw(&sprite, 10, 10);
    assert!(second);
    for y in 0..32 {
        for x in 0..64 {
            assert_eq!(d.get_pixel(x, y), Ok(false));
        }
    }
}

#[test]
fn draw_wraps_rightmost_column_to_zero() {
    let mut d = MachDisplay::new(64, 32);
    // Two set bits: bit 0 lands on column 63, bit 1 wraps to column 0.
    let sprite = [0b1100_0000u8];
    let collided = d.draw(&sprite, 63, 5);
    assert!(!collided);
    assert_eq!(d.get_pixel(63, 5), Ok(true));
    assert_eq!(d.get_pixel(0, 5), Ok(true));
    assert_eq!(d.get_pixel(1, 5), Ok(false));
    assert_eq!(d.get_pixel(62, 5), Ok(false));
}

#[test]
fn draw_wraps_start_coordinates() {
    let mut d = MachDisplay::new(64, 32);
    // x = 64 wraps to 0, y = 32 wraps to 0.
    d.draw(&[0x80u8], 64, 32);
    assert_eq!(d.get_pixel(0, 0), Ok(true));
}

#[test]
fn draw_clips_rows_at_bottom_edge() {
    let mut d = MachDisplay::new(64, 32);
    // Starting at the last row, only the first sprite row is drawn.
    let collided = d.draw(&[0x80u8, 0x80, 0x80], 0, 31);
    assert!(!collided);
    assert_eq!(d.get_pixel(0, 31), Ok(true));
    assert_eq!(d.get_pixel(0, 0), Ok(false));
    assert_eq!(d.get_pixel(0, 1), Ok(false));
}

#[test]
fn draw_collision_only_where_overlap() {
    let mut d = MachDisplay::new(64, 32);
    assert!(!d.draw(&[0x80u8], 0, 0));
    // disjoint draw: no collision
    assert!(!d.draw(&[0x80u8], 8, 0));
    // overlapping draw: collision, pixel toggled off
    assert!(d.draw(&[0x80u8], 0, 0));
    assert_eq!(d.get_pixel(0, 0), Ok(false));
    assert_eq!(d.get_pixel(8, 0), Ok(true));
}
