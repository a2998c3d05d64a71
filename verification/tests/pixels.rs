use livekit_tui_client::video::{braille_rows, half_block_rows, rgba_to_rgb, BrailleCell, HalfBlockCell, Rgb};

#[test]
fn rgba_drops_alpha() {
    assert_eq!(rgba_to_rgb(&[1, 2, 3, 4, 5, 6, 7, 8]), vec![1, 2, 3, 5, 6, 7]);
    assert_eq!(rgba_to_rgb(&[1, 2, 3, 4, 9, 9, 9]), vec![1, 2, 3, 9, 9, 9]);
    assert!(rgba_to_rgb(&[]).is_empty());
}

fn cell(cp: u32, rgb: [u8; 3]) -> Vec<u8> {
    let mut v = cp.to_le_bytes().to_vec();
    v.extend_from_slice(&rgb);
    v.push(0);
    v
}

#[test]
fn braille_cells_are_decoded() {
    let mut buf = Vec::new();
    buf.extend(cell(0x2847, [1, 2, 3]));
    buf.extend(cell(0, [4, 5, 6]));
    buf.extend(cell(0xD800, [7, 8, 9]));
    buf.extend(cell(0x20, [0, 0, 0]));
    let rows = braille_rows(&buf, 2, 2);
    assert_eq!(rows.len(), 2);
    assert_eq!(
        rows[0],
        vec![
            BrailleCell { glyph: '\u{2847}', r: 1, g: 2, b: 3 },
            BrailleCell { glyph: ' ', r: 4, g: 5, b: 6 },
        ]
    );
    assert_eq!(rows[1][0].glyph, ' ');
    assert_eq!(rows[1][1].glyph, ' ');
    let short = braille_rows(&buf[..20], 2, 2);
    assert_eq!(short[0].len(), 2);
    assert_eq!(short[1].len(), 0);
}

#[test]
fn half_block_cells_are_decoded() {
    let buf: Vec<u8> = (0u8..12).collect();
    let rows = half_block_rows(&buf, 1, 2);
    assert_eq!(
        rows[1],
        vec![HalfBlockCell { fg: Rgb { r: 6, g: 7, b: 8 }, bg: Rgb { r: 9, g: 10, b: 11 } }]
    );
    let cut = half_block_rows(&buf[..11], 2, 1);
    assert_eq!(cut[0].len(), 1);
}
