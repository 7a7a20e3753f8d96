use vga_terminal::color::Color;
use vga_terminal::color::ColorCode;

const PALETTE: [Color; 16] = [
    Color::Black,
    Color::Blue,
    Color::Green,
    Color::Cyan,
    Color::Red,
    Color::Magenta,
    Color::Brown,
    Color::LightGray,
    Color::DarkGray,
    Color::LightBlue,
    Color::LightGreen,
    Color::LightCyan,
    Color::LightRed,
    Color::Pink,
    Color::Yellow,
    Color::White,
];

#[test]
fn palette_indices_follow_the_hardware_order() {
    for (position, color) in PALETTE.iter().enumerate() {
        assert_eq!(color.index() as usize, position);
    }
    assert_eq!(Color::Black.index(), 0);
    assert_eq!(Color::LightGray.index(), 7);
    assert_eq!(Color::Yellow.index(), 14);
    assert_eq!(Color::White.index(), 15);
}

#[test]
fn color_code_packs_background_high_and_foreground_low() {
    assert_eq!(ColorCode::new(Color::Yellow, Color::Black).bits(), 0x0e);
    assert_eq!(ColorCode::new(Color::Black, Color::Yellow).bits(), 0xe0);
    assert_eq!(ColorCode::new(Color::White, Color::Blue).bits(), 0x1f);
    assert_eq!(ColorCode::new(Color::Black, Color::Black).bits(), 0x00);
    assert_eq!(ColorCode::new(Color::White, Color::White).bits(), 0xff);
    assert_eq!(ColorCode::new(Color::LightRed, Color::Cyan).bits(), 0x3c);
}

#[test]
fn color_code_is_total_over_all_pairs() {
    for background in PALETTE.iter() {
        for foreground in PALETTE.iter() {
            let code = ColorCode::new(*foreground, *background);
            assert_eq!(code.bits(), (background.index() << 4) | foreground.index());
            assert_eq!(code.bits() % 16, foreground.index());
            assert_eq!(code.bits() / 16, background.index());
        }
    }
}

#[test]
fn color_code_round_trips_through_its_byte() {
    for bits in 0..=255u8 {
        assert_eq!(ColorCode::from_bits(bits).bits(), bits);
    }
    assert_eq!(ColorCode::from_bits(0x0e), ColorCode::new(Color::Yellow, Color::Black));
    assert_ne!(ColorCode::from_bits(0x0e), ColorCode::new(Color::Black, Color::Yellow));
}
