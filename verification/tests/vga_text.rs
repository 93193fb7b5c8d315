use machine_pc::vga_frame::{render_mode_name, vga_frame_report, VgaFrame, VgaRenderMode};
use machine_pc::cli::{vga_text_dump, VGA_TEXT_COLS, VGA_TEXT_ROWS};

fn blank_screen() -> Vec<u8> {
    vec![b' '; VGA_TEXT_ROWS * VGA_TEXT_COLS]
}

#[test]
fn vga_text_dump_reports_a_blank_screen() {
    let dump = vga_text_dump(&blank_screen(), 0, 0, 0, 80);
    let lines: Vec<&str> = dump.lines().collect();
    assert_eq!(lines.len(), 1 + VGA_TEXT_ROWS);
    assert_eq!(
        lines[0],
        "vga-text: cols=80 rows=25 cursor=(0,0) start=0x0000 pitch=80 nonblank_rows=0"
    );
    assert_eq!(lines[1], format!("00 |{}|", " ".repeat(VGA_TEXT_COLS)));
    assert_eq!(lines[VGA_TEXT_ROWS], format!("24 |{}|", " ".repeat(VGA_TEXT_COLS)));
}

#[test]
fn vga_text_dump_shows_guest_written_text() {
    let mut screen = blank_screen();
    for (index, ch) in b"POST OK".iter().enumerate() {
        screen[index] = *ch;
    }
    screen[7] = 0xB0;
    let dump = vga_text_dump(&screen, 0, 0, 0, 80);
    let lines: Vec<&str> = dump.lines().collect();
    assert!(lines[0].contains("nonblank_rows=1"), "{}", lines[0]);
    assert!(lines[1].starts_with("00 |POST OK."), "{}", lines[1]);
    assert_eq!(lines[1].len(), "00 ||".len() + VGA_TEXT_COLS);
}

#[test]
fn vga_text_dump_follows_the_crtc_start_address() {
    // The viewport at start address 80 shows the second row of cells first.
    let mut screen = blank_screen();
    screen[0] = b'Q';
    let dump = vga_text_dump(&screen, 0, 0, 80, 80);
    let lines: Vec<&str> = dump.lines().collect();
    assert!(lines[0].contains("start=0x0050"), "{}", lines[0]);
    assert!(lines[1].starts_with("00 |Q"), "{}", lines[1]);
}

#[test]
fn vga_text_dump_counts_rows_and_shows_nul_as_dot() {
    let mut screen = blank_screen();
    screen[3 * 80] = 0x00;
    screen[24 * 80 + 79] = b'Z';
    let dump = vga_text_dump(&screen, 12, 40, 0x1234, 80);
    let lines: Vec<&str> = dump.lines().collect();
    assert_eq!(
        lines[0],
        "vga-text: cols=80 rows=25 cursor=(12,40) start=0x1234 pitch=80 nonblank_rows=1"
    );
    assert!(lines[4].starts_with("03 |."), "{}", lines[4]);
    assert!(lines[25].ends_with("Z|"), "{}", lines[25]);
}

/// The reset text programming, as the display renders it: 80x25 cells of
/// 9x16 pixels, no font loaded, the cursor cell lit.
fn reset_text_frame() -> VgaFrame {
    let mut pixels = vec![0u8; 720 * 400];
    for row in 14..16 {
        for col in 0..9 {
            pixels[row * 720 + col] = 7;
        }
    }
    VgaFrame { mode: VgaRenderMode::Text, width: 720, height: 400, pixels, font_installed: Some(false) }
}

#[test]
fn vga_frame_report_describes_the_text_frame() {
    let frame = reset_text_frame();
    let line = vga_frame_report(VgaRenderMode::Text, Some(&frame), 720 * 400 * 4, false);
    assert!(line.contains("mode=text"), "{line}");
    assert!(line.contains("rendered=yes"), "{line}");
    assert!(line.contains("width=720 height=400"), "{line}");
    assert!(line.contains("pixels=288000"), "{line}");
    assert!(line.contains("rgba_bytes=1152000"), "{line}");
    assert!(line.contains("font_installed=no"), "{line}");
}

#[test]
fn vga_frame_report_admits_when_there_is_no_renderer() {
    let line = vga_frame_report(VgaRenderMode::Unsupported, None, 0, false);
    assert!(line.contains("mode=unsupported"), "{line}");
    assert!(line.contains("rendered=no"), "{line}");
    assert!(line.contains("no CGA-compatible modes"), "{line}");
}

#[test]
fn vga_frame_report_full_line() {
    let frame = reset_text_frame();
    assert_eq!(
        vga_frame_report(VgaRenderMode::Text, Some(&frame), 1_152_000, true),
        "vga-frame: mode=text rendered=yes width=720 height=400 pixels=288000 \
         nonzero_indices=18 rgba_bytes=1152000 blink_off_half=1 font_installed=no"
    );
    let planar = VgaFrame {
        mode: VgaRenderMode::Graphics16Planar,
        width: 2,
        height: 1,
        pixels: vec![0, 3],
        font_installed: None,
    };
    assert_eq!(
        vga_frame_report(VgaRenderMode::Graphics16Planar, Some(&planar), 8, false),
        "vga-frame: mode=graphics16-planar rendered=yes width=2 height=1 pixels=2 \
         nonzero_indices=1 rgba_bytes=8 blink_off_half=0 font_installed=n/a"
    );
    assert_eq!(render_mode_name(VgaRenderMode::Graphics256Chain4), "graphics256-chain4");
    assert_eq!(
        vga_frame_report(VgaRenderMode::Graphics256Chain4, None, 0, false),
        "vga-frame: mode=graphics256-chain4 rendered=no \u{2014} the current programming has no \
         display fetch in this model (no CGA-compatible modes, no unchained mode X, no VBE, no \
         host display)"
    );
}
