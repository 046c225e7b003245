//! Tests of the color utilities, the barcode generation and the
//! control message schema.

use simulator::barcode::{
    generate_barcode, generate_vertical_barcode, generate_vertical_barcode_gradient,
    interpolate_gradient, preprocess_barcode_text,
};
use simulator::color::{blend_colors, blend_rgba, parse_hex_color, parse_hex_color_rgba, rgb_to_hex};
use simulator::protocol::{ControlCommand, IpcMessage};
use simulator::state::PlayState;

#[test]
fn test_parse_hex_color() {
    assert_eq!(parse_hex_color("#FF0000"), Some((255, 0, 0)));
    assert_eq!(parse_hex_color("00FF00"), Some((0, 255, 0)));
    assert_eq!(parse_hex_color("#0000FF"), Some((0, 0, 255)));
    assert_eq!(parse_hex_color("#000000"), Some((0, 0, 0)));
    assert_eq!(parse_hex_color("#FFFFFF"), Some((255, 255, 255)));
}

#[test]
fn test_parse_hex_color_rejects() {
    assert_eq!(parse_hex_color("#12345"), None);
    assert_eq!(parse_hex_color("#1234567"), None);
    assert_eq!(parse_hex_color("GGGGGG"), None);
    assert_eq!(parse_hex_color(""), None);
    // Lowercase digits are accepted.
    assert_eq!(parse_hex_color("#a0b1c2"), Some((160, 177, 194)));
}

#[test]
fn test_parse_hex_color_rgba() {
    assert_eq!(parse_hex_color_rgba("#FF8000"), Some((255, 128, 0, 255)));
    assert_eq!(parse_hex_color_rgba("oops"), None);
}

#[test]
fn test_rgb_to_hex() {
    assert_eq!(rgb_to_hex(255, 0, 0), "#FF0000");
    assert_eq!(rgb_to_hex(0, 255, 0), "#00FF00");
    assert_eq!(rgb_to_hex(0, 0, 255), "#0000FF");
}

#[test]
fn test_hex_round_trip() {
    let (r, g, b) = parse_hex_color("#1A2B3C").unwrap();
    assert_eq!(rgb_to_hex(r, g, b), "#1A2B3C");
}

#[test]
fn test_blend_colors() {
    // Full opacity foreground
    assert_eq!(blend_colors((0, 0, 0), (255, 255, 255), 255), (255, 255, 255));
    // Full opacity background
    assert_eq!(blend_colors((255, 255, 255), (0, 0, 0), 0), (255, 255, 255));
    // 50% blend
    let result = blend_colors((0, 0, 0), (200, 200, 200), 128);
    assert!(result.0 >= 90 && result.0 <= 110);
}

#[test]
fn test_blend_rgba() {
    // Two fully transparent pixels compose to nothing.
    assert_eq!(blend_rgba((0, 0, 0, 0), (0, 0, 0, 0)), (0, 0, 0, 0));
    // An opaque foreground replaces the background.
    assert_eq!(blend_rgba((9, 9, 9, 255), (10, 20, 30, 255)), (10, 20, 30, 255));
    // A transparent foreground leaves the background.
    assert_eq!(blend_rgba((10, 20, 30, 255), (200, 200, 200, 0)), (10, 20, 30, 255));
}

#[test]
fn test_preprocess_barcode_text() {
    // A character-set selector is always prefixed.
    let p = preprocess_barcode_text("TEST");
    assert_eq!(p, "\u{0181}TEST");
    // Dashes and exotic spaces are normalized, other characters drop.
    let q = preprocess_barcode_text("A\u{2013}B\u{00A0}C\u{4e2d}D");
    assert_eq!(q, "\u{0181}A-B CD");
}

#[test]
fn test_generate_barcode() {
    let img = generate_barcode("TEST", 50).expect("barcode");
    assert_eq!(img.height, 50);
    // The Code128 pattern is far longer than the raw text: start code,
    // four characters, checksum, stop and termination.
    assert!(img.width > 50);
    assert_eq!(img.rows.len(), img.height);
    for row in &img.rows {
        assert_eq!(row.len(), img.width);
        for px in row {
            assert!(*px == (255, 255, 255, 255) || *px == (0, 0, 0, 0));
        }
    }
    // A barcode has both set and clear modules.
    assert!(img.rows[0].contains(&(255, 255, 255, 255)));
    assert!(img.rows[0].contains(&(0, 0, 0, 0)));
}

#[test]
fn test_generate_vertical_barcode() {
    let img = generate_vertical_barcode("TEST", 30).expect("barcode");
    assert_eq!(img.width, 30);
    assert!(img.height > 50);
    // Every row is uniform: a bar module spans the whole width.
    for row in &img.rows {
        assert_eq!(row.len(), 30);
        for px in row {
            assert_eq!(*px, row[0]);
        }
    }
}

#[test]
fn test_generate_vertical_barcode_gradient() {
    let plain = generate_vertical_barcode_gradient("GRADIENT", 10, false).expect("barcode");
    let tinted = generate_vertical_barcode_gradient("GRADIENT", 10, true).expect("barcode");
    assert_eq!(plain.height, tinted.height);
    let mut saw_colored = false;
    for (p_row, t_row) in plain.rows.iter().zip(tinted.rows.iter()) {
        if p_row[0] == (255, 255, 255, 255) {
            // A set module is tinted instead of white.
            assert_eq!(t_row[0].3, 255);
            if t_row[0] != (255, 255, 255, 255) {
                saw_colored = true;
            }
        } else {
            assert_eq!(t_row[0], (0, 0, 0, 0));
        }
    }
    assert!(saw_colored);
}

#[test]
fn test_interpolate_gradient() {
    let colors = vec![(180u8, 100u8, 220u8), (80, 150, 255), (100, 220, 220), (255, 220, 100)];
    // The endpoints are the first and last gradient colors.
    assert_eq!(interpolate_gradient(&colors, 0), (180, 100, 220));
    assert_eq!(interpolate_gradient(&colors, 1_000_000), (255, 220, 100));
    // An empty gradient falls back to white, a single color is itself.
    assert_eq!(interpolate_gradient(&vec![], 500_000), (255, 255, 255));
    assert_eq!(interpolate_gradient(&vec![(1, 2, 3)], 500_000), (1, 2, 3));
}

#[test]
fn test_message_constructors() {
    let msg = IpcMessage::state_update(PlayState::Loop, 17, true);
    match msg {
        IpcMessage::StateUpdate { state, frame, is_playing } => {
            assert_eq!(state, 5);
            assert_eq!(frame, 17);
            assert!(is_playing);
        }
        _ => panic!("wrong message kind"),
    }
    assert!(matches!(IpcMessage::ready(), IpcMessage::Ready));
    match IpcMessage::error(100, String::from("bad line")) {
        IpcMessage::Error { code, message } => {
            assert_eq!(code, 100);
            assert_eq!(message, "bad line");
        }
        _ => panic!("wrong message kind"),
    }
    assert!(matches!(ControlCommand::SeekTo(3), ControlCommand::SeekTo(3)));
}
