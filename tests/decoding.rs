use pinmame_tester::display::{decode_frame, decode_pixel, dmd_cells, dmd_height, dmd_width, DisplayLayout, Rgb};
use pinmame_tester::error::HarnessError;
use pinmame_tester::geometry::ScreenRect;
use pinmame_tester::segment::{alphanumeric_rows, is_dot_matrix};

fn layout(width: u32, height: u32, depth: u32) -> DisplayLayout {
    DisplayLayout { display_type: 14, top: 0, left: 0, width, height, depth, length: 0 }
}

fn rgb(r: u8, g: u8, b: u8) -> Rgb {
    Rgb { r, g, b }
}

#[test]
fn depth2_extremes() {
    assert_eq!(decode_pixel(2, 3), Ok(rgb(250, 160, 0)));
    assert_eq!(decode_pixel(2, 0), Ok(rgb(40, 20, 0)));
    assert_eq!(decode_pixel(2, 1), Ok(rgb(120, 80, 0)));
    assert_eq!(decode_pixel(2, 2), Ok(rgb(215, 130, 0)));
    assert_eq!(decode_pixel(2, 4), Err(HarnessError::ProtocolViolation));
    assert_eq!(decode_pixel(2, 255), Err(HarnessError::ProtocolViolation));
}

#[test]
fn depth4_bands() {
    let mut colors = Vec::new();
    for v in 0u8..16 {
        let c = decode_pixel(4, v).unwrap();
        assert_eq!(c, decode_pixel(4, v / 4 * 4).unwrap());
        if !colors.contains(&c) {
            colors.push(c);
        }
    }
    assert_eq!(colors.len(), 4);
    assert_eq!(decode_pixel(4, 0), Ok(rgb(40, 20, 0)));
    assert_eq!(decode_pixel(4, 7), Ok(rgb(255, 140, 0)));
    assert_eq!(decode_pixel(4, 8), Ok(rgb(255, 152, 0)));
    assert_eq!(decode_pixel(4, 15), Ok(rgb(255, 165, 0)));
    assert_eq!(decode_pixel(4, 16), Err(HarnessError::ProtocolViolation));
    assert_eq!(decode_pixel(3, 0), Err(HarnessError::ProtocolViolation));
}

#[test]
fn frame_decodes_pixel_by_pixel() {
    let l = layout(2, 2, 2);
    assert_eq!(
        decode_frame(&l, &[0, 1, 2, 3]),
        Ok(vec![rgb(40, 20, 0), rgb(120, 80, 0), rgb(215, 130, 0), rgb(250, 160, 0)])
    );
    assert_eq!(decode_frame(&l, &[0, 1, 2, 4]), Err(HarnessError::ProtocolViolation));
    assert_eq!(decode_frame(&l, &[0, 1, 2]), Err(HarnessError::ProtocolViolation));
    assert_eq!(
        decode_frame(&l, &[3, 2, 1, 0, 9, 9]),
        Ok(vec![rgb(250, 160, 0), rgb(215, 130, 0), rgb(120, 80, 0), rgb(40, 20, 0)])
    );
}

#[test]
fn dmd_size_in_screen_pixels() {
    let l = layout(128, 32, 2);
    assert_eq!(dmd_width(&l), 512);
    assert_eq!(dmd_height(&l), 128);
}

#[test]
fn dmd_cells_are_spaced_four_pixels() {
    let l = layout(2, 2, 4);
    let cells = dmd_cells(10, 20, &[0, 15, 4, 8], &l).unwrap();
    assert_eq!(cells.len(), 4);
    assert_eq!(cells[0].rect, ScreenRect { x: 10, y: 20, w: 3, h: 3 });
    assert_eq!(cells[1].rect, ScreenRect { x: 14, y: 20, w: 3, h: 3 });
    assert_eq!(cells[2].rect, ScreenRect { x: 10, y: 24, w: 3, h: 3 });
    assert_eq!(cells[3].rect, ScreenRect { x: 14, y: 24, w: 3, h: 3 });
    assert_eq!(cells[1].color, rgb(255, 165, 0));
    assert_eq!(cells[3].color, rgb(255, 152, 0));
    assert_eq!(dmd_cells(0, 0, &[0, 16, 0, 0], &l).err(), Some(HarnessError::ProtocolViolation));
    assert_eq!(dmd_cells(0, 0, &[0, 15, 4, 8, 0], &l).map(|c| c.len()), Ok(4));
    let mut placeholder = vec![0u8; 128 * 32];
    placeholder[0] = 3;
    let small = layout(4, 2, 2);
    assert_eq!(decode_frame(&small, &placeholder).map(|c| c[0]), Ok(rgb(250, 160, 0)));
}

#[test]
fn dot_matrix_type_bits() {
    assert!(is_dot_matrix(14));
    assert!(is_dot_matrix(15));
    assert!(!is_dot_matrix(13));
    assert!(!is_dot_matrix(0));
}

fn text(rows: &[Vec<u8>]) -> Vec<String> {
    rows.iter().map(|r| String::from_utf8(r.clone()).unwrap()).collect()
}

#[test]
fn sixteen_segment_glyph_all_lit() {
    let l = DisplayLayout { display_type: 0, top: 0, left: 0, width: 0, height: 0, depth: 0, length: 1 };
    let rows = text(&alphanumeric_rows(&l, &[0xffff]).unwrap());
    assert_eq!(rows[0], " *****    ");
    assert_eq!(rows[1], "** * **   ");
    assert_eq!(rows[5], "** * ** * ");
    assert_eq!(rows[7], "       *  ");
}

#[test]
fn sixteen_segment_glyph_single_bits() {
    let l = DisplayLayout { display_type: 0, top: 0, left: 0, width: 0, height: 0, depth: 0, length: 2 };
    let rows = text(&alphanumeric_rows(&l, &[1, 1 << 7]).unwrap());
    assert_eq!(rows.len(), 8);
    assert_eq!(rows[0], " *****              ");
    assert_eq!(rows[6], "                  * ");
    assert_eq!(rows[7], "                 *  ");
    assert_eq!(rows[3], "                    ");
}

#[test]
fn split_segment_template() {
    let l = DisplayLayout { display_type: 13, top: 0, left: 0, width: 0, height: 0, depth: 0, length: 1 };
    let rows = text(&alphanumeric_rows(&l, &[0b10]).unwrap());
    assert_eq!(rows[0], "    **    ");
    assert_eq!(rows[7], "          ");
}

#[test]
fn segment_frame_too_short() {
    let l = DisplayLayout { display_type: 0, top: 0, left: 0, width: 0, height: 0, depth: 0, length: 3 };
    assert_eq!(alphanumeric_rows(&l, &[1, 2]).err(), Some(HarnessError::ProtocolViolation));
}
