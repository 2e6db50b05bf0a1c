use neotron_common_bios::video::{
    Attr, FfiFormat, FfiTextBackgroundColour, FfiTextForegroundColour, Format, Glyph, GlyphAttr,
    Mode, RGBColour, Scaling, TextBackgroundColour, TextForegroundColour, Timing,
};

const TIMINGS: [Timing; 3] = [Timing::T640x480, Timing::T640x400, Timing::T800x600];

const FORMATS: [Format; 8] = [
    Format::Text8x16,
    Format::Text8x8,
    Format::Chunky32,
    Format::Chunky16,
    Format::Chunky8,
    Format::Chunky4,
    Format::Chunky2,
    Format::Chunky1,
];

const SCALINGS: [Scaling; 4] = [
    Scaling::NoScaling,
    Scaling::DoubleWidth,
    Scaling::DoubleHeight,
    Scaling::DoubleWidthAndHeight,
];

const FOREGROUNDS: [TextForegroundColour; 16] = [
    TextForegroundColour::Black,
    TextForegroundColour::Blue,
    TextForegroundColour::Green,
    TextForegroundColour::Cyan,
    TextForegroundColour::Red,
    TextForegroundColour::Magenta,
    TextForegroundColour::Brown,
    TextForegroundColour::LightGray,
    TextForegroundColour::DarkGray,
    TextForegroundColour::LightBlue,
    TextForegroundColour::LightGreen,
    TextForegroundColour::LightCyan,
    TextForegroundColour::LightRed,
    TextForegroundColour::Pink,
    TextForegroundColour::Yellow,
    TextForegroundColour::White,
];

const BACKGROUNDS: [TextBackgroundColour; 8] = [
    TextBackgroundColour::Black,
    TextBackgroundColour::Blue,
    TextBackgroundColour::Green,
    TextBackgroundColour::Cyan,
    TextBackgroundColour::Red,
    TextBackgroundColour::Magenta,
    TextBackgroundColour::Brown,
    TextBackgroundColour::LightGray,
];

#[test]
fn mode_round_trips_every_triple() {
    for timing in TIMINGS {
        for format in FORMATS {
            for scaling in SCALINGS {
                let mode = Mode::new_with_scaling(timing, format, scaling);
                assert_eq!(mode.timing(), timing);
                assert_eq!(mode.format(), format);
                let wide = matches!(scaling, Scaling::DoubleWidth | Scaling::DoubleWidthAndHeight);
                let tall = matches!(scaling, Scaling::DoubleHeight | Scaling::DoubleWidthAndHeight);
                assert_eq!(mode.is_horiz_2x(), wide);
                assert_eq!(mode.is_vert_2x(), tall);
                assert_eq!(Mode::try_from_u8(mode.as_u8()), Some(mode));
            }
        }
    }
}

#[test]
fn mode_triples_have_distinct_bytes() {
    let mut seen = [false; 256];
    for timing in TIMINGS {
        for format in FORMATS {
            for scaling in SCALINGS {
                let byte = Mode::new_with_scaling(timing, format, scaling).as_u8();
                assert!(!seen[byte as usize]);
                seen[byte as usize] = true;
            }
        }
    }
    assert_eq!(seen.iter().filter(|s| **s).count(), 96);
}

#[test]
fn mode_byte_layout() {
    assert_eq!(Mode::new(Timing::T640x400, Format::Text8x16).as_u8(), 0x10);
    assert_eq!(Mode::new(Timing::T800x600, Format::Text8x16).as_u8(), 0x20);
    assert_eq!(Mode::new(Timing::T640x480, Format::Chunky1).as_u8(), 0x07);
    assert_eq!(Mode::new_double_width(Timing::T640x480, Format::Text8x16).as_u8(), 0x08);
    assert_eq!(Mode::new_double_height(Timing::T640x480, Format::Text8x16).as_u8(), 0x80);
    assert_eq!(
        Mode::new_double_height_width(Timing::T800x600, Format::Chunky1).as_u8(),
        0xAF
    );
    assert_eq!(
        Mode::new_with_scaling(Timing::T640x400, Format::Chunky8, Scaling::DoubleWidth).as_u8(),
        0x1C
    );
}

#[test]
fn mode_rejects_unknown_timings() {
    for byte in 0..=255u8 {
        let timing_field = (byte >> 4) & 0b111;
        let decoded = Mode::try_from_u8(byte);
        if timing_field <= 2 {
            let mode = decoded.expect("a known timing must decode");
            assert_eq!(mode.as_u8(), byte);
        } else {
            assert_eq!(decoded, None);
        }
    }
}

#[test]
fn mode_rejects_each_unknown_timing_value() {
    assert_eq!(Mode::try_from_u8(0x30), None);
    assert_eq!(Mode::try_from_u8(0x40), None);
    assert_eq!(Mode::try_from_u8(0x50), None);
    assert_eq!(Mode::try_from_u8(0x60), None);
    assert_eq!(Mode::try_from_u8(0x70), None);
    assert_eq!(Mode::try_from_u8(0xFF), None);
    assert!(Mode::try_from_u8(0x2F).is_some());
    assert!(Mode::try_from_u8(0xAF).is_some());
}

#[test]
fn mode_unchecked_constructor_keeps_the_byte() {
    let mode = Mode::new_double_height(Timing::T640x400, Format::Chunky4);
    let again = Mode::from_u8(mode.as_u8());
    assert_eq!(again, mode);
    assert_eq!(again.timing(), Timing::T640x400);
    assert_eq!(again.format(), Format::Chunky4);
}

#[test]
fn frame_size_fixtures() {
    assert_eq!(
        Mode::new_with_scaling(Timing::T640x480, Format::Text8x16, Scaling::NoScaling)
            .frame_size_bytes(),
        4800
    );
    assert_eq!(
        Mode::new_with_scaling(Timing::T640x480, Format::Chunky8, Scaling::NoScaling)
            .frame_size_bytes(),
        307200
    );
    assert_eq!(
        Mode::new_with_scaling(Timing::T800x600, Format::Chunky1, Scaling::DoubleWidthAndHeight)
            .frame_size_bytes(),
        15000
    );
}

#[test]
fn frame_size_is_lines_times_rows_and_a_multiple_of_four() {
    for timing in TIMINGS {
        for format in FORMATS {
            for scaling in SCALINGS {
                let mode = Mode::new_with_scaling(timing, format, scaling);
                let rows = match mode.text_height() {
                    Some(rows) => rows as usize,
                    None => mode.vertical_lines() as usize,
                };
                assert_eq!(mode.frame_size_bytes(), mode.line_size_bytes() * rows);
                assert_eq!(mode.frame_size_bytes() % 4, 0);
            }
        }
    }
}

#[test]
fn mode_extents() {
    let vga = Mode::new(Timing::T640x480, Format::Chunky8);
    assert_eq!(vga.horizontal_pixels(), 640);
    assert_eq!(vga.vertical_lines(), 480);
    let tall = Mode::new(Timing::T640x400, Format::Chunky8);
    assert_eq!(tall.horizontal_pixels(), 640);
    assert_eq!(tall.vertical_lines(), 400);
    let svga = Mode::new(Timing::T800x600, Format::Chunky8);
    assert_eq!(svga.horizontal_pixels(), 800);
    assert_eq!(svga.vertical_lines(), 600);
    let half = Mode::new_double_height_width(Timing::T800x600, Format::Chunky8);
    assert_eq!(half.horizontal_pixels(), 400);
    assert_eq!(half.vertical_lines(), 300);
    let narrow = Mode::new_double_width(Timing::T640x480, Format::Chunky8);
    assert_eq!(narrow.horizontal_pixels(), 320);
    assert_eq!(narrow.vertical_lines(), 480);
    let short = Mode::new_double_height(Timing::T640x400, Format::Chunky8);
    assert_eq!(short.horizontal_pixels(), 640);
    assert_eq!(short.vertical_lines(), 200);
}

#[test]
fn mode_line_sizes() {
    let t = Timing::T640x480;
    assert_eq!(Mode::new(t, Format::Text8x16).line_size_bytes(), 160);
    assert_eq!(Mode::new(t, Format::Text8x8).line_size_bytes(), 160);
    assert_eq!(Mode::new(t, Format::Chunky32).line_size_bytes(), 2560);
    assert_eq!(Mode::new(t, Format::Chunky16).line_size_bytes(), 1280);
    assert_eq!(Mode::new(t, Format::Chunky8).line_size_bytes(), 640);
    assert_eq!(Mode::new(t, Format::Chunky4).line_size_bytes(), 320);
    assert_eq!(Mode::new(t, Format::Chunky2).line_size_bytes(), 160);
    assert_eq!(Mode::new(t, Format::Chunky1).line_size_bytes(), 80);
    assert_eq!(
        Mode::new_double_width(Timing::T800x600, Format::Chunky1).line_size_bytes(),
        50
    );
}

#[test]
fn mode_text_dimensions() {
    let mode = Mode::new(Timing::T640x480, Format::Text8x16);
    assert!(mode.is_text_mode());
    assert_eq!(mode.text_width(), Some(80));
    assert_eq!(mode.text_height(), Some(30));
    let mode = Mode::new(Timing::T640x480, Format::Text8x8);
    assert_eq!(mode.text_width(), Some(80));
    assert_eq!(mode.text_height(), Some(60));
    let mode = Mode::new(Timing::T800x600, Format::Text8x16);
    assert_eq!(mode.text_width(), Some(100));
    assert_eq!(mode.text_height(), Some(37));
    let mode = Mode::new_double_height_width(Timing::T640x400, Format::Text8x16);
    assert_eq!(mode.text_width(), Some(40));
    assert_eq!(mode.text_height(), Some(12));
    let mode = Mode::new(Timing::T640x480, Format::Chunky4);
    assert!(!mode.is_text_mode());
    assert_eq!(mode.text_width(), None);
    assert_eq!(mode.text_height(), None);
}

#[test]
fn mode_clock_and_frame_rate() {
    let mode = Mode::new(Timing::T640x480, Format::Text8x16);
    assert_eq!(mode.pixel_clock_hz(), 25_175_000);
    assert_eq!(mode.frame_rate_hz(), 60);
    let mode = Mode::new(Timing::T640x400, Format::Text8x16);
    assert_eq!(mode.pixel_clock_hz(), 25_175_000);
    assert_eq!(mode.frame_rate_hz(), 70);
    let mode = Mode::new(Timing::T800x600, Format::Text8x16);
    assert_eq!(mode.pixel_clock_hz(), 40_000_000);
    assert_eq!(mode.frame_rate_hz(), 60);
}

#[test]
fn format_codec_round_trips() {
    for (index, format) in FORMATS.iter().enumerate() {
        assert_eq!(format.as_u8() as usize, index);
        assert_eq!(format.make_ffi_safe(), FfiFormat(index as u8));
        assert_eq!(FfiFormat::new(*format).make_safe().ok(), Some(*format));
    }
}

#[test]
fn format_codec_rejects_unknown_bytes() {
    for byte in 8..=255u8 {
        assert!(FfiFormat(byte).make_safe().is_err());
    }
}

#[test]
fn format_names() {
    assert_eq!(Format::Text8x16.to_string(), "8x16 Text");
    assert_eq!(Format::Text8x8.to_string(), "8x8 Text");
    assert_eq!(Format::Chunky32.to_string(), "32 bpp True Colour");
    assert_eq!(Format::Chunky16.to_string(), "16 bpp High Colour");
    assert_eq!(Format::Chunky8.to_string(), "8 bpp Indexed");
    assert_eq!(Format::Chunky4.to_string(), "4 bpp Indexed");
    assert_eq!(Format::Chunky2.to_string(), "2 bpp Indexed");
    assert_eq!(Format::Chunky1.to_string(), "1 bpp Indexed");
}

#[test]
fn foreground_codec_round_trips() {
    for (index, colour) in FOREGROUNDS.iter().enumerate() {
        assert_eq!(colour.as_u8() as usize, index);
        assert_eq!(colour.make_ffi_safe(), FfiTextForegroundColour(index as u8));
        assert_eq!(
            FfiTextForegroundColour::new(*colour).make_safe().ok(),
            Some(*colour)
        );
    }
    for byte in 16..=255u8 {
        assert!(FfiTextForegroundColour(byte).make_safe().is_err());
    }
}

#[test]
fn background_codec_round_trips() {
    for (index, colour) in BACKGROUNDS.iter().enumerate() {
        assert_eq!(colour.as_u8() as usize, index);
        assert_eq!(colour.make_ffi_safe(), FfiTextBackgroundColour(index as u8));
        assert_eq!(
            FfiTextBackgroundColour::new(*colour).make_safe().ok(),
            Some(*colour)
        );
    }
    for byte in 8..=255u8 {
        assert!(FfiTextBackgroundColour(byte).make_safe().is_err());
    }
}

#[test]
fn colours_change_ground() {
    for colour in BACKGROUNDS {
        assert_eq!(colour.make_foreground().as_u8(), colour.as_u8());
        assert_eq!(colour.make_foreground().make_background(), colour);
    }
    for colour in FOREGROUNDS {
        assert_eq!(colour.make_background().as_u8(), colour.as_u8() % 8);
    }
    assert_eq!(
        TextForegroundColour::Yellow.make_background(),
        TextBackgroundColour::Brown
    );
    assert_eq!(
        TextForegroundColour::DarkGray.make_background(),
        TextBackgroundColour::Black
    );
}

#[test]
fn colours_brighten() {
    assert_eq!(TextForegroundColour::Black.brighten(), TextForegroundColour::DarkGray);
    assert_eq!(TextForegroundColour::Blue.brighten(), TextForegroundColour::LightBlue);
    assert_eq!(TextForegroundColour::Green.brighten(), TextForegroundColour::LightGreen);
    assert_eq!(TextForegroundColour::Cyan.brighten(), TextForegroundColour::LightCyan);
    assert_eq!(TextForegroundColour::Red.brighten(), TextForegroundColour::LightRed);
    assert_eq!(TextForegroundColour::Magenta.brighten(), TextForegroundColour::Pink);
    assert_eq!(TextForegroundColour::Brown.brighten(), TextForegroundColour::Yellow);
    assert_eq!(TextForegroundColour::LightGray.brighten(), TextForegroundColour::White);
    assert_eq!(TextForegroundColour::DarkGray.brighten(), TextForegroundColour::LightGray);
    assert_eq!(TextForegroundColour::LightBlue.brighten(), TextForegroundColour::LightBlue);
    assert_eq!(TextForegroundColour::Yellow.brighten(), TextForegroundColour::Yellow);
    assert_eq!(TextForegroundColour::White.brighten(), TextForegroundColour::White);
}

#[test]
fn attr_packs_and_unpacks() {
    let attr = Attr::new(TextForegroundColour::Yellow, TextBackgroundColour::Blue, true);
    assert_eq!(attr.as_u8(), 0x9E);
    let attr = Attr::new(TextForegroundColour::White, TextBackgroundColour::Black, false);
    assert_eq!(attr.as_u8(), 0x0F);
    for fg in FOREGROUNDS {
        for bg in BACKGROUNDS {
            for blink in [false, true] {
                let attr = Attr::new(fg, bg, blink);
                assert!(attr.fg() == fg);
                assert!(attr.bg() == bg);
                assert_eq!(attr.blink(), blink);
            }
        }
    }
}

#[test]
fn attr_reads_every_byte() {
    for byte in 0..=255u8 {
        let attr = Attr(byte);
        assert_eq!(attr.fg().as_u8(), byte & 0x0F);
        assert_eq!(attr.bg().as_u8(), (byte >> 4) & 0x07);
        assert_eq!(attr.blink(), byte >= 0x80);
        assert_eq!(Attr::new(attr.fg(), attr.bg(), attr.blink()).as_u8(), byte);
    }
}

#[test]
fn attr_setters_change_one_field() {
    let mut attr = Attr::new(TextForegroundColour::Yellow, TextBackgroundColour::Blue, true);
    attr.set_fg(TextForegroundColour::Pink);
    assert_eq!(attr.as_u8(), 0x9D);
    attr.set_bg(TextBackgroundColour::Red);
    assert_eq!(attr.as_u8(), 0xCD);
    attr.set_blink(false);
    assert_eq!(attr.as_u8(), 0x4D);
    assert!(attr.fg() == TextForegroundColour::Pink);
    assert!(attr.bg() == TextBackgroundColour::Red);
    assert!(!attr.blink());
}

#[test]
fn glyph_attr_packs_and_unpacks() {
    let pair = GlyphAttr::new(Glyph(0x41), Attr(0x9E));
    assert_eq!(pair.0, 0x9E41);
    assert_eq!(pair.glyph().0, 0x41);
    assert_eq!(pair.attr().0, 0x9E);
    let pair = GlyphAttr::new(Glyph(0xFF), Attr(0xFF));
    assert_eq!(pair.0, 0xFFFF);
    assert_eq!(GlyphAttr::default().0, 0);
    for word in [0u16, 1, 0x00FF, 0x0100, 0x1234, 0xFFFF] {
        let pair = GlyphAttr(word);
        assert_eq!(pair.glyph().0, (word & 0xFF) as u8);
        assert_eq!(pair.attr().0, (word >> 8) as u8);
        assert_eq!(GlyphAttr::new(pair.glyph(), pair.attr()).0, word);
    }
}

#[test]
fn rgb_packs_and_unpacks() {
    let colour = RGBColour::from_rgb(0x12, 0x34, 0x56);
    assert_eq!(colour.as_packed(), 0x0012_3456);
    assert_eq!(colour.red(), 0x12);
    assert_eq!(colour.green(), 0x34);
    assert_eq!(colour.blue(), 0x56);
    let colour = RGBColour::from_packed(0xAB12_3456);
    assert_eq!(colour.as_packed(), 0xAB12_3456);
    assert_eq!(colour.red(), 0x12);
    assert_eq!(colour.green(), 0x34);
    assert_eq!(colour.blue(), 0x56);
    assert_eq!(RGBColour::from_rgb(0xFF, 0xFF, 0xFF).as_packed(), 0x00FF_FFFF);
    assert_eq!(RGBColour::from_rgb(0, 0, 0).as_packed(), 0);
}

#[test]
fn rgb_named_colours() {
    assert_eq!(RGBColour::RED().as_packed(), 0x00FF_0000);
    assert_eq!(RGBColour::GREEN().as_packed(), 0x0000_FF00);
    assert_eq!(RGBColour::BLUE().as_packed(), 0x0000_00FF);
    assert_eq!(RGBColour::YELLOW().as_packed(), 0x00FF_FF00);
    assert_eq!(RGBColour::WHITE().as_packed(), 0x00FF_FFFF);
    assert_eq!(RGBColour::BLACK().as_packed(), 0x0000_0000);
    assert_eq!(RGBColour::CYAN().as_packed(), 0x0000_FFFF);
    assert_eq!(RGBColour::MAGENTA().as_packed(), 0x00FF_00FF);
}
