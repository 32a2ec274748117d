//! Tests for the multiplexed panel driver: select codes, window framing,
//! full pixel-write traces and the failure path.

use lcd_clock::misc::{ColorRGB565, ColorRGB8};
use lcd_clock::ports::{DisplayTrace, PortEvent};
use lcd_clock::st7789vwx6::{Display, Error, ST7789VWx6, CASET, RAMWR, RASET};
use lcd_clock::gl::{Gl, SolidSource};

fn select_events(d: Display) -> Vec<PortEvent> {
    let code = d.into_cs_value();
    vec![
        PortEvent::Cs1(code & 1 != 0),
        PortEvent::Cs2(code & 2 != 0),
        PortEvent::Cs3(code & 4 != 0),
    ]
}

fn deselect_events() -> Vec<PortEvent> {
    vec![PortEvent::Cs1(true), PortEvent::Cs2(true), PortEvent::Cs3(true)]
}

fn command(op: u8) -> Vec<PortEvent> {
    vec![PortEvent::Dc(false), PortEvent::Data(op)]
}

fn payload(data: &[u8]) -> Vec<PortEvent> {
    let mut v = vec![PortEvent::Dc(true)];
    for &b in data {
        v.push(PortEvent::Data(b));
    }
    v
}

#[test]
fn cs_codes_are_the_reversed_table() {
    assert_eq!(Display::D1.into_cs_value(), 5);
    assert_eq!(Display::D2.into_cs_value(), 4);
    assert_eq!(Display::D3.into_cs_value(), 3);
    assert_eq!(Display::D4.into_cs_value(), 2);
    assert_eq!(Display::D5.into_cs_value(), 1);
    assert_eq!(Display::D6.into_cs_value(), 0);
}

#[test]
fn cs_codes_are_a_bijection_onto_zero_to_five() {
    let mut seen = [false; 6];
    for d in Display::all() {
        let code = d.into_cs_value();
        assert!(code < 6);
        assert!(!seen[code], "code {} used twice", code);
        seen[code] = true;
    }
    assert!(seen.iter().all(|&s| s));
}

#[test]
fn region_bytes_are_big_endian_offsets() {
    // Writing a window must emit CASET with (x0+52, x1+52) and RASET with
    // (y0+40, y1+40), big-endian, end-inclusive.
    let mut driver = ST7789VWx6::new(DisplayTrace::new(), 135, 240, 0);
    driver.set_pixels(Display::D1, 3, 7, 300, 500, &[]).unwrap();

    let mut expected = select_events(Display::D1);
    expected.extend(command(CASET));
    expected.extend(payload(&[
        ((3 + 52) as u16 / 256) as u8,
        ((3 + 52) as u16 % 256) as u8,
        ((300 + 52) as u16 / 256) as u8,
        ((300 + 52) as u16 % 256) as u8,
    ]));
    expected.extend(command(RASET));
    expected.extend(payload(&[
        ((7 + 40) as u16 / 256) as u8,
        ((7 + 40) as u16 % 256) as u8,
        ((500 + 40) as u16 / 256) as u8,
        ((500 + 40) as u16 % 256) as u8,
    ]));
    expected.extend(command(RAMWR));
    expected.extend(payload(&[]));
    expected.extend(deselect_events());

    assert_eq!(driver.port().recorded(), &expected);
}

#[test]
fn solid_red_fill_trace_end_to_end() {
    // Panel D3, window (0,0,9,9), 100 red pixels: exactly one CASET, one
    // RASET, one RAMWR, 200 bytes of 0xF8 0x00, select held throughout and
    // released immediately after.
    let red = ColorRGB565::from(ColorRGB8::red());
    assert_eq!(u16::from(red), 0xF800);

    let mut driver = ST7789VWx6::new(DisplayTrace::new(), 135, 240, 0);
    let mut source = SolidSource::new(red, 100);
    driver.set_pixels_iter(Display::D3, 0, 0, 9, 9, &mut source).unwrap();

    let mut expected = select_events(Display::D3);
    assert_eq!(
        &expected[..],
        &[PortEvent::Cs1(true), PortEvent::Cs2(true), PortEvent::Cs3(false)],
    );
    expected.extend(command(CASET));
    expected.extend(payload(&[0, 52, 0, 61]));
    expected.extend(command(RASET));
    expected.extend(payload(&[0, 40, 0, 49]));
    expected.extend(command(RAMWR));
    let mut bytes = Vec::new();
    for _ in 0..100 {
        bytes.push(0xF8u8);
        bytes.push(0x00u8);
    }
    expected.extend(payload(&bytes));
    expected.extend(deselect_events());

    assert_eq!(driver.port().recorded(), &expected);

    let opcodes: Vec<u8> = driver
        .port()
        .recorded()
        .windows(2)
        .filter_map(|w| match (w[0], w[1]) {
            (PortEvent::Dc(false), PortEvent::Data(op)) => Some(op),
            _ => None,
        })
        .collect();
    assert_eq!(opcodes, vec![CASET, RASET, RAMWR]);
}

#[test]
fn streaming_write_matches_plain_write() {
    // The chunked streaming form must leave the same trace as handing the
    // whole payload over at once, including past the 256-byte buffer size.
    let color = ColorRGB565::from(0x1234u16);
    let mut bytes = Vec::new();
    for _ in 0..300 {
        bytes.push(0x12u8);
        bytes.push(0x34u8);
    }

    let mut plain = ST7789VWx6::new(DisplayTrace::new(), 135, 240, 0);
    plain.set_pixels(Display::D2, 10, 20, 24, 39, &bytes).unwrap();

    let mut streamed = ST7789VWx6::new(DisplayTrace::new(), 135, 240, 0);
    let mut source = SolidSource::new(color, 300);
    streamed.set_pixels_iter(Display::D2, 10, 20, 24, 39, &mut source).unwrap();

    assert_eq!(plain.port().recorded(), streamed.port().recorded());
}

#[test]
fn empty_stream_writes_only_the_frame() {
    let mut driver = ST7789VWx6::new(DisplayTrace::new(), 135, 240, 0);
    let mut source = SolidSource::new(ColorRGB565::from(0u16), 0);
    driver.set_pixels_iter(Display::D4, 5, 6, 5, 6, &mut source).unwrap();
    let data_bytes = driver
        .port()
        .recorded()
        .iter()
        .filter(|e| matches!(e, PortEvent::Data(_)))
        .count();
    // Three opcodes and eight window bytes, no pixel payload.
    assert_eq!(data_bytes, 3 + 8);
}

#[test]
fn failed_write_reports_bus_write_and_deselects() {
    // Every SPI write fails: the operation reports BusWrite and the trace
    // still ends with all three select lines driven high.
    let mut driver = ST7789VWx6::new(DisplayTrace::failing_after(0), 135, 240, 0);
    let r = driver.set_pixels(Display::D5, 0, 0, 1, 1, &[1, 2, 3, 4, 5, 6, 7, 8]);
    assert_eq!(r, Err(Error::BusWrite));
    let events = driver.port().recorded();
    let n = events.len();
    assert_eq!(
        &events[n - 3..],
        &[PortEvent::Cs1(true), PortEvent::Cs2(true), PortEvent::Cs3(true)],
    );
}

#[test]
fn set_brightness_only_touches_the_backlight() {
    let mut driver = ST7789VWx6::new(DisplayTrace::new(), 135, 240, 100);
    driver.set_brightness(0x8000);
    assert_eq!(driver.port().recorded(), &vec![PortEvent::Backlight(0x8000)]);
    assert_eq!(driver.width(), 135);
    assert_eq!(driver.height(), 240);
}

#[test]
fn init_configures_all_six_panels() {
    let mut driver = ST7789VWx6::new(DisplayTrace::new(), 135, 240, 777);
    driver.init().unwrap();
    let events = driver.port().recorded();

    // Reset pulse and initial backlight.
    assert_eq!(events[0], PortEvent::Rst(true));
    assert_eq!(events[1], PortEvent::Delay(1250));
    assert_eq!(events[2], PortEvent::Rst(false));
    assert_eq!(events[4], PortEvent::Rst(true));
    assert_eq!(events[6], PortEvent::Backlight(777));

    // Six select/deselect brackets, one per panel, in order.
    let mut selects = Vec::new();
    let mut i = 7;
    while i + 2 < events.len() {
        if let (PortEvent::Cs1(a), PortEvent::Cs2(b), PortEvent::Cs3(c)) =
            (events[i], events[i + 1], events[i + 2])
        {
            if !(a && b && c) {
                selects.push((a as usize) | ((b as usize) << 1) | ((c as usize) << 2));
            }
        }
        i += 1;
    }
    assert_eq!(selects, vec![5, 4, 3, 2, 1, 0]);

    // The sleep-out and display-on opcodes appear once per panel.
    let slpout = events
        .windows(2)
        .filter(|w| w[0] == PortEvent::Dc(false) && w[1] == PortEvent::Data(0x11))
        .count();
    assert_eq!(slpout, 6);
}

#[test]
fn gl_fill_covers_the_whole_panel() {
    let driver = ST7789VWx6::new(DisplayTrace::new(), 4, 5, 0);
    let mut gl = Gl::new(driver);
    gl.fill(Display::D6, ColorRGB565::from(0xF800u16)).unwrap();
    let driver = gl.release();
    let events = driver.port().recorded();
    // 4x5 panel: 20 pixels, 40 data bytes after the RAMWR payload marker.
    let data_bytes = events
        .iter()
        .filter(|e| matches!(e, PortEvent::Data(_)))
        .count();
    // 3 opcodes + 8 window bytes + 40 pixel bytes.
    assert_eq!(data_bytes, 3 + 8 + 40);
}

#[test]
fn draw_bounding_rect_draws_four_edges() {
    let driver = ST7789VWx6::new(DisplayTrace::new(), 135, 240, 0);
    let mut gl = Gl::new(driver);
    gl.draw_bounding_rect(Display::D1, 8, ColorRGB565::from(0x07E0u16)).unwrap();
    let driver = gl.release();
    let events = driver.port().recorded();
    let ramwr = events
        .windows(2)
        .filter(|w| w[0] == PortEvent::Dc(false) && w[1] == PortEvent::Data(RAMWR))
        .count();
    assert_eq!(ramwr, 4);
    // Top edge: 135*8 pixels; left and right: 8*232 each; bottom: 119*8.
    let data_bytes = events
        .iter()
        .filter(|e| matches!(e, PortEvent::Data(_)))
        .count();
    let pixel_bytes = 2 * (135 * 8 + 8 * 232 + 8 * 232 + 119 * 8);
    assert_eq!(data_bytes, 4 * (3 + 8) + pixel_bytes);
}
