//! Video and display related types.
//!
//! A video mode is one byte. From the most significant bit down it holds the
//! vertical-double flag (bit 7), the timing (bits 6 to 4), the
//! horizontal-double flag (bit 3) and the memory format (bits 2 to 0). The
//! size of a line and of a frame, the pixel clock and the frame rate are
//! never stored: each is a function of that byte.

use crate::types::EnumConversionFail;
use vstd::prelude::*;

verus! {

/// Describes the format of the video memory.
#[derive(Copy, Clone, Debug, PartialEq, Eq, PartialOrd, Ord, Structural)]
pub enum Format {
    /// Text mode with an 8x16 font.
    ///
    /// Memory is arranged into `(u8, u8)` units. The first `u8` is the
    /// character, the second `u8` unit is the foreground/background colour.
    ///
    /// The font consists of 8px by 16px glyphs.
    ///
    /// There must be an even number of characters per line.
    Text8x16,
    /// Text mode with an 8x8 font.
    ///
    /// Memory is arranged into `(u8, u8)` units. The first `u8` is the
    /// character, the second `u8` unit is the foreground/background colour.
    ///
    /// The font consists of 8px by 8px glyphs.
    ///
    /// There must be an even number of characters per line.
    Text8x8,
    /// True-colour graphics mode, with 24-bit pixels in 32-bit units.
    ///
    /// Memory is arranged into `u32` units. Each unit is of the format
    /// `0x00RRGGBB`.
    Chunky32,
    /// High-colour graphics mode, with 16-bit pixels.
    ///
    /// Memory is arranged into `u16` units. Each unit is of the format
    /// `0bRRRRR_GGGGGG_BBBBB`.
    ///
    /// There must be an even number of pixels per line.
    Chunky16,
    /// Colour graphics mode, with 8-bit indexed pixels.
    ///
    /// Memory is arranged into `u8` units. Each unit is a lookup into the
    /// palette.
    ///
    /// The number of pixels per line must be a multiple of 8.
    Chunky8,
    /// Colour graphics mode, with 4-bit indexed pixels.
    ///
    /// Memory is arranged into `u8` units. Each unit is two 4-bit pixels,
    /// each a lookup into the palette, or `0bAAAA_BBBB`.
    ///
    /// The number of pixels per line must be a multiple of 8.
    Chunky4,
    /// Colour graphics mode, with 2-bit indexed pixels.
    ///
    /// Memory is arranged into `u8` units. Each unit is four 2-bit pixels,
    /// each a lookup into the palette, or `0bAA_BB_CC_DD`
    ///
    /// The number of pixels per line must be a multiple of 16.
    Chunky2,
    /// Mono graphics mode, with 1-bit per pixel.
    ///
    /// Memory is arranged into `u8` units. Each unit is eight 1-bit pixels,
    /// each a lookup into the palette, or `0bA_B_C_D_E_F_G_H`
    ///
    /// The number of pixels per line must be a multiple of 32.
    Chunky1,
}

/// A [`Format`] as the byte that crosses the boundary.
///
/// Any byte can arrive; only [`FfiFormat::make_safe`] turns one into a
/// [`Format`], and it refuses a byte that stands for none.
#[derive(Copy, Clone, Debug, PartialEq, Eq, PartialOrd, Ord, Structural)]
pub struct FfiFormat(pub u8);

impl Format {
    /// How many formats there are. Their codes are the numbers below it.
    pub open spec fn count() -> int {
        8
    }

    /// The byte that stands for this format.
    pub open spec fn code(self) -> u8 {
        match self {
            Format::Text8x16 => 0,
            Format::Text8x8 => 1,
            Format::Chunky32 => 2,
            Format::Chunky16 => 3,
            Format::Chunky8 => 4,
            Format::Chunky4 => 5,
            Format::Chunky2 => 6,
            Format::Chunky1 => 7,
        }
    }

    /// The format that a byte stands for, if it stands for one.
    pub open spec fn from_code(code: u8) -> Option<Format> {
        match code {
            0 => Some(Format::Text8x16),
            1 => Some(Format::Text8x8),
            2 => Some(Format::Chunky32),
            3 => Some(Format::Chunky16),
            4 => Some(Format::Chunky8),
            5 => Some(Format::Chunky4),
            6 => Some(Format::Chunky2),
            7 => Some(Format::Chunky1),
            _ => None,
        }
    }

    /// Is this one of the two text formats?
    pub open spec fn is_text(self) -> bool {
        self == Format::Text8x16 || self == Format::Text8x8
    }

    /// How many scan-lines one row of this format's units covers: the height
    /// of a glyph for text, one for graphics.
    pub open spec fn cell_height(self) -> int {
        match self {
            Format::Text8x16 => 16,
            Format::Text8x8 => 8,
            _ => 1,
        }
    }

    /// How many bits of video memory one pixel of a graphics format takes.
    /// Text formats have no pixels in memory and give zero.
    pub open spec fn bits_per_pixel(self) -> int {
        match self {
            Format::Text8x16 | Format::Text8x8 => 0,
            Format::Chunky32 => 32,
            Format::Chunky16 => 16,
            Format::Chunky8 => 8,
            Format::Chunky4 => 4,
            Format::Chunky2 => 2,
            Format::Chunky1 => 1,
        }
    }

    /// The name of this format, as shown to a user.
    pub open spec fn spec_name(self) -> Seq<char> {
        match self {
            Format::Text8x16 => "8x16 Text"@,
            Format::Text8x8 => "8x8 Text"@,
            Format::Chunky32 => "32 bpp True Colour"@,
            Format::Chunky16 => "16 bpp High Colour"@,
            Format::Chunky8 => "8 bpp Indexed"@,
            Format::Chunky4 => "4 bpp Indexed"@,
            Format::Chunky2 => "2 bpp Indexed"@,
            Format::Chunky1 => "1 bpp Indexed"@,
        }
    }

    /// The name of this format, as shown to a user.
    pub fn to_string(&self) -> (name: String)
        ensures
            name@ == self.spec_name(),
    {
        match self {
            Format::Text8x16 => "8x16 Text".to_owned(),
            Format::Text8x8 => "8x8 Text".to_owned(),
            Format::Chunky32 => "32 bpp True Colour".to_owned(),
            Format::Chunky16 => "16 bpp High Colour".to_owned(),
            Format::Chunky8 => "8 bpp Indexed".to_owned(),
            Format::Chunky4 => "4 bpp Indexed".to_owned(),
            Format::Chunky2 => "2 bpp Indexed".to_owned(),
            Format::Chunky1 => "1 bpp Indexed".to_owned(),
        }
    }

    /// The byte that stands for this format.
    pub fn as_u8(self) -> (code: u8)
        ensures
            code == self.code(),
            code < Format::count(),
    {
        match self {
            Format::Text8x16 => 0,
            Format::Text8x8 => 1,
            Format::Chunky32 => 2,
            Format::Chunky16 => 3,
            Format::Chunky8 => 4,
            Format::Chunky4 => 5,
            Format::Chunky2 => 6,
            Format::Chunky1 => 7,
        }
    }

    /// Wrap this format for the trip across the boundary.
    pub fn make_ffi_safe(self) -> (ffi: FfiFormat)
        ensures
            ffi.0 == self.code(),
    {
        FfiFormat(self.as_u8())
    }
}

impl FfiFormat {
    /// Wrap a format for the trip across the boundary.
    pub fn new(value: Format) -> (ffi: FfiFormat)
        ensures
            ffi.0 == value.code(),
    {
        FfiFormat(value.as_u8())
    }

    /// Check the byte and give the format it stands for.
    ///
    /// Fails exactly when the byte stands for no format.
    pub fn make_safe(self) -> (checked: Result<Format, EnumConversionFail>)
        ensures
            checked.is_ok() <==> self.0 < Format::count(),
            checked.ok() == Format::from_code(self.0),
    {
        match self.0 {
            0 => Ok(Format::Text8x16),
            1 => Ok(Format::Text8x8),
            2 => Ok(Format::Chunky32),
            3 => Ok(Format::Chunky16),
            4 => Ok(Format::Chunky8),
            5 => Ok(Format::Chunky4),
            6 => Ok(Format::Chunky2),
            7 => Ok(Format::Chunky1),
            _ => Err(EnumConversionFail()),
        }
    }
}

/// Describes the timing of the video signal.
#[derive(Debug, Copy, Clone, PartialEq, Eq, Structural)]
pub enum Timing {
    /// VGA Standard 640x480 @ 60Hz.
    ///
    /// Has a nominal 25.175 MHz pixel clock and a 31.5 kHz horizontal scan
    /// rate - but a specific implementation may differ.
    T640x480,
    /// VGA Standard 640x400 @ 70Hz.
    ///
    /// Has a 25.175 MHz pixel clock and a 31.5 kHz horizontal scan rate - but
    /// a specific implementation may differ.
    T640x400,
    /// VESA Standard 800x600 @ 60Hz.
    ///
    /// Has a 40.000 MHz pixel clock and a 37.9 kHz horizontal scan rate - but
    /// a specific implementation may differ.
    T800x600,
}

/// Describes how a video mode is scaled.
#[derive(Debug, Copy, Clone, PartialEq, Eq, Structural)]
pub enum Scaling {
    /// No video scaling
    NoScaling,
    /// Image is stretched to 2x usual width
    DoubleWidth,
    /// Image is stretched to 2x usual height
    DoubleHeight,
    /// Image is stretched to 2x usual width and 2x usual height
    DoubleWidthAndHeight,
}

impl Timing {
    /// How many timings there are. Their codes are the numbers below it.
    pub open spec fn count() -> int {
        3
    }

    /// The number that stands for this timing in a mode byte.
    pub open spec fn code(self) -> u8 {
        match self {
            Timing::T640x480 => 0,
            Timing::T640x400 => 1,
            Timing::T800x600 => 2,
        }
    }

    /// The timing that a number stands for, if it stands for one.
    pub open spec fn from_code(code: u8) -> Option<Timing> {
        match code {
            0 => Some(Timing::T640x480),
            1 => Some(Timing::T640x400),
            2 => Some(Timing::T800x600),
            _ => None,
        }
    }

    /// Visible pixels per line when the image is not stretched.
    pub open spec fn nominal_width(self) -> int {
        match self {
            Timing::T640x480 => 640,
            Timing::T640x400 => 640,
            Timing::T800x600 => 800,
        }
    }

    /// Visible lines per frame when the image is not stretched.
    pub open spec fn nominal_height(self) -> int {
        match self {
            Timing::T640x480 => 480,
            Timing::T640x400 => 400,
            Timing::T800x600 => 600,
        }
    }

    /// The nominal pixel clock, in Hz.
    pub open spec fn nominal_pixel_clock(self) -> int {
        match self {
            Timing::T640x480 => 25_175_000,
            Timing::T640x400 => 25_175_000,
            Timing::T800x600 => 40_000_000,
        }
    }

    /// The nominal frame rate, in Hz.
    pub open spec fn nominal_frame_rate(self) -> int {
        match self {
            Timing::T640x480 => 60,
            Timing::T640x400 => 70,
            Timing::T800x600 => 60,
        }
    }
}

impl Scaling {
    /// Does this scaling stretch the image to twice its width?
    pub open spec fn doubles_width(self) -> bool {
        self == Scaling::DoubleWidth || self == Scaling::DoubleWidthAndHeight
    }

    /// Does this scaling stretch the image to twice its height?
    pub open spec fn doubles_height(self) -> bool {
        self == Scaling::DoubleHeight || self == Scaling::DoubleWidthAndHeight
    }

    /// The scaling that stretches exactly the given axes.
    pub open spec fn from_flags(width: bool, height: bool) -> Scaling {
        if width && height {
            Scaling::DoubleWidthAndHeight
        } else if width {
            Scaling::DoubleWidth
        } else if height {
            Scaling::DoubleHeight
        } else {
            Scaling::NoScaling
        }
    }
}

/// The byte that packs a timing, a format and a scaling.
pub open spec fn mode_byte(timing: Timing, format: Format, scaling: Scaling) -> int {
    (if scaling.doubles_height() { 128int } else { 0 }) + timing.code() * 16
        + (if scaling.doubles_width() { 8int } else { 0 }) + format.code()
}

/// The timing field of a mode byte: bits 6 to 4.
pub open spec fn timing_field(byte: u8) -> u8 {
    ((byte / 16) % 8) as u8
}

/// The format field of a mode byte: bits 2 to 0.
pub open spec fn format_field(byte: u8) -> u8 {
    byte % 8
}

/// The horizontal-double flag of a mode byte: bit 3.
pub open spec fn horiz_2x_flag(byte: u8) -> bool {
    (byte / 8) % 2 == 1
}

/// The vertical-double flag of a mode byte: bit 7.
pub open spec fn vert_2x_flag(byte: u8) -> bool {
    byte >= 128
}

/// Does this byte describe a mode? Every format field and every pair of
/// flags does; the timing field must stand for a timing.
pub open spec fn is_mode_byte(byte: u8) -> bool {
    timing_field(byte) < Timing::count()
}

/// How the fields of a byte, taken by shifting and masking, relate to the
/// same fields taken by dividing.
proof fn lemma_mode_fields(byte: u8)
    by (bit_vector)
    ensures
        (byte >> 4) & 0b111 == (byte / 16) % 8,
        (byte >> 0) & 0b111 == byte % 8,
        ((byte & (1u8 << 3)) != 0) == ((byte / 8) % 2 == 1),
        ((byte & (1u8 << 7)) != 0) == (byte >= 128),
{
}

/// How a byte put together by shifting and or-ing relates to the sum of its
/// fields.
proof fn lemma_mode_pack(t: u8, f: u8)
    by (bit_vector)
    requires
        t < 3,
        f < 8,
    ensures
        (t << 4) | (f << 0) == t * 16 + f,
        ((t << 4) | (f << 0)) | (1u8 << 3) == t * 16 + f + 8,
        ((t << 4) | (f << 0)) | (1u8 << 7) == t * 16 + f + 128,
        (((t << 4) | (f << 0)) | (1u8 << 3)) | (1u8 << 7) == t * 16 + f + 8 + 128,
{
}

/// Describes a video mode.
///
/// A BIOS may support several video modes. Each is described by a value of
/// this type, which holds one byte whose timing field stands for a timing.
#[derive(Copy, Clone, Debug, PartialEq, Eq, PartialOrd, Ord, Structural)]
pub struct Mode(u8);

/// What a video mode stands for: a timing, a format and a scaling.
pub struct ModeView {
    /// The timing of the video signal.
    pub timing: Timing,
    /// The format of the video memory.
    pub format: Format,
    /// How the image is stretched.
    pub scaling: Scaling,
}

impl ModeView {
    /// Visible pixels per line: the timing's width, halved when the image is
    /// stretched to twice its width.
    pub open spec fn horizontal_pixels(self) -> int {
        if self.scaling.doubles_width() {
            self.timing.nominal_width() / 2
        } else {
            self.timing.nominal_width()
        }
    }

    /// Visible lines per frame: the timing's height, halved when the image is
    /// stretched to twice its height.
    pub open spec fn vertical_lines(self) -> int {
        if self.scaling.doubles_height() {
            self.timing.nominal_height() / 2
        } else {
            self.timing.nominal_height()
        }
    }

    /// Bytes per line. A line of text is one two-byte unit for every eight
    /// pixels; a line of graphics is its pixels at the format's bits per
    /// pixel.
    pub open spec fn line_size_bytes(self) -> int {
        if self.format.is_text() {
            (self.horizontal_pixels() / 8) * 2
        } else {
            self.horizontal_pixels() * self.format.bits_per_pixel() / 8
        }
    }

    /// How many rows of units a frame holds: the whole rows of glyphs that
    /// fit for text, the lines for graphics.
    pub open spec fn rows(self) -> int {
        self.vertical_lines() / self.format.cell_height()
    }

    /// Bytes per frame: the size of a line times the number of rows.
    pub open spec fn frame_size_bytes(self) -> int {
        self.line_size_bytes() * self.rows()
    }
}

impl View for Mode {
    type V = ModeView;

    open spec fn view(&self) -> ModeView {
        ModeView {
            timing: self.spec_timing(),
            format: self.spec_format(),
            scaling: self.spec_scaling(),
        }
    }
}

impl Mode {
    #[verifier::type_invariant]
    spec fn holds_mode_byte(self) -> bool {
        is_mode_byte(self.0)
    }

    /// The byte that this mode is.
    pub closed spec fn byte(self) -> u8 {
        self.0
    }

    /// Every mode that a program holds is well formed: its byte describes a
    /// mode.
    pub open spec fn wf(self) -> bool {
        is_mode_byte(self.byte())
    }

    /// The timing that the byte's timing field stands for.
    pub open spec fn spec_timing(self) -> Timing
        recommends
            self.wf(),
    {
        Timing::from_code(timing_field(self.byte())).unwrap()
    }

    /// The format that the byte's format field stands for.
    pub open spec fn spec_format(self) -> Format {
        Format::from_code(format_field(self.byte())).unwrap()
    }

    /// The scaling that the byte's two flags stand for.
    pub open spec fn spec_scaling(self) -> Scaling {
        Scaling::from_flags(horiz_2x_flag(self.byte()), vert_2x_flag(self.byte()))
    }

    /// Create a new video mode
    #[inline]
    pub fn new(timing: Timing, format: Format) -> (mode: Mode)
        ensures
            mode@ == (ModeView { timing, format, scaling: Scaling::NoScaling }),
            mode.byte() == mode_byte(timing, format, Scaling::NoScaling),
            mode.wf(),
    {
        Self::new_with_scaling(timing, format, Scaling::NoScaling)
    }

    /// Create a new video mode
    #[inline]
    pub fn new_with_scaling(timing: Timing, format: Format, scaling: Scaling) -> (mode: Mode)
        ensures
            mode@ == (ModeView { timing, format, scaling }),
            mode.byte() == mode_byte(timing, format, scaling),
            mode.wf(),
    {
        let t: u8 = match timing {
            Timing::T640x480 => 0,
            Timing::T640x400 => 1,
            Timing::T800x600 => 2,
        };
        let f: u8 = format.as_u8();
        proof {
            lemma_mode_pack(t, f);
        }
        let mode: u8 = (t << 4) | (f << 0);
        let mode: u8 = match scaling {
            Scaling::NoScaling => mode,
            Scaling::DoubleWidth => mode | (1u8 << 3),
            Scaling::DoubleHeight => mode | (1u8 << 7),
            Scaling::DoubleWidthAndHeight => (mode | (1u8 << 3)) | (1u8 << 7),
        };
        Mode(mode)
    }

    /// Create a new double-height video mode.
    ///
    /// This will set the 'Vert 2x' bit.
    #[inline]
    pub fn new_double_height(timing: Timing, format: Format) -> (mode: Mode)
        ensures
            mode@ == (ModeView { timing, format, scaling: Scaling::DoubleHeight }),
            mode.byte() == mode_byte(timing, format, Scaling::DoubleHeight),
            mode.wf(),
    {
        Self::new_with_scaling(timing, format, Scaling::DoubleHeight)
    }

    /// Create a new double-width video mode.
    ///
    /// This will set the 'Horiz 2x' bit.
    #[inline]
    pub fn new_double_width(timing: Timing, format: Format) -> (mode: Mode)
        ensures
            mode@ == (ModeView { timing, format, scaling: Scaling::DoubleWidth }),
            mode.byte() == mode_byte(timing, format, Scaling::DoubleWidth),
            mode.wf(),
    {
        Self::new_with_scaling(timing, format, Scaling::DoubleWidth)
    }

    /// Create a new double-width, double-height video mode.
    ///
    /// This will set the 'Horiz 2x' and the 'Vert 2x' bits.
    #[inline]
    pub fn new_double_height_width(timing: Timing, format: Format) -> (mode: Mode)
        ensures
            mode@ == (ModeView { timing, format, scaling: Scaling::DoubleWidthAndHeight }),
            mode.byte() == mode_byte(timing, format, Scaling::DoubleWidthAndHeight),
            mode.wf(),
    {
        Self::new_with_scaling(timing, format, Scaling::DoubleWidthAndHeight)
    }

    /// If true, this mode is 2x taller than nominal.
    ///
    /// e.g. a 640x480 mode is dropped to 640x240.
    #[inline]
    pub fn is_vert_2x(self) -> (doubled: bool)
        ensures
            doubled == vert_2x_flag(self.byte()),
            doubled == self@.scaling.doubles_height(),
    {
        proof {
            lemma_mode_fields(self.0);
        }
        (self.0 & (1u8 << 7)) != 0
    }

    /// If true, this mode is 2x wider than nominal.
    ///
    /// e.g. a 640x480 mode is dropped to 320x480.
    #[inline]
    pub fn is_horiz_2x(self) -> (doubled: bool)
        ensures
            doubled == horiz_2x_flag(self.byte()),
            doubled == self@.scaling.doubles_width(),
    {
        proof {
            lemma_mode_fields(self.0);
        }
        (self.0 & (1u8 << 3)) != 0
    }

    /// Gets how big a line is in bytes.
    ///
    /// This could be a line of pixels or a line of characters, depending on
    /// the mode.
    #[inline]
    pub fn line_size_bytes(self) -> (size: usize)
        ensures
            size == self@.line_size_bytes(),
    {
        let horizontal_pixels: usize = self.horizontal_pixels() as usize;
        match self.format() {
            Format::Text8x8 | Format::Text8x16 => (horizontal_pixels / 8) * 2,
            Format::Chunky32 => horizontal_pixels * 4,
            Format::Chunky16 => horizontal_pixels * 2,
            Format::Chunky8 => horizontal_pixels,
            Format::Chunky4 => horizontal_pixels / 2,
            Format::Chunky2 => horizontal_pixels / 4,
            Format::Chunky1 => horizontal_pixels / 8,
        }
    }

    /// Gets how big a line is in glyph-attribute pairs.
    #[inline]
    pub fn text_width(self) -> (width: Option<u16>)
        ensures
            width.is_some() <==> self@.format.is_text(),
            width matches Some(w) ==> w == self@.horizontal_pixels() / 8,
    {
        let horizontal_pixels: u16 = self.horizontal_pixels();
        match self.format() {
            Format::Text8x8 | Format::Text8x16 => Some(horizontal_pixels / 8),
            _ => None,
        }
    }

    /// Gets how many rows of text are on screen.
    #[inline]
    pub fn text_height(self) -> (height: Option<u16>)
        ensures
            height.is_some() <==> self@.format.is_text(),
            height matches Some(h) ==> h == self@.rows(),
    {
        match self.format() {
            Format::Text8x8 => Some(self.vertical_lines() / 8),
            Format::Text8x16 => Some(self.vertical_lines() / 16),
            _ => None,
        }
    }

    /// Is this a text mode?
    #[inline]
    pub fn is_text_mode(self) -> (text: bool)
        ensures
            text == self@.format.is_text(),
    {
        matches!(self.format(), Format::Text8x8 | Format::Text8x16)
    }

    /// Gets how big the frame is, in bytes.
    ///
    /// This will always be a multiple of four, because of the constraints
    /// placed on the various formats we support.
    #[inline]
    pub fn frame_size_bytes(self) -> (size: usize)
        ensures
            size == self@.frame_size_bytes(),
            size % 4 == 0,
            0 < size <= 1_920_000,
    {
        let line_size: usize = self.line_size_bytes();
        let cell: usize = match self.format() {
            Format::Text8x8 => 8,
            Format::Text8x16 => 16,
            _ => 1,
        };
        let num_lines: usize = (self.vertical_lines() as usize) / cell;
        proof {
            use_type_invariant(&self);
            lemma_frame_size(self@);
        }
        line_size * num_lines
    }

    /// Get the pixel format for this mode.
    #[inline]
    pub fn format(self) -> (format: Format)
        ensures
            format == self@.format,
            format.code() == format_field(self.byte()),
    {
        proof {
            lemma_mode_fields(self.0);
        }
        match FfiFormat((self.0 >> 0) & 0b111).make_safe() {
            Ok(format) => format,
            Err(_) => vstd::pervasive::unreached(),
        }
    }

    /// Get the timing for this mode.
    #[inline]
    pub fn timing(self) -> (timing: Timing)
        ensures
            timing == self@.timing,
            timing.code() == timing_field(self.byte()),
    {
        proof {
            use_type_invariant(&self);
            lemma_mode_fields(self.0);
        }
        let field: u8 = (self.0 >> 4) & 0b111;
        if field == 0 {
            Timing::T640x480
        } else if field == 1 {
            Timing::T640x400
        } else {
            Timing::T800x600
        }
    }

    /// Get how many horizontal pixels are in the visible image.
    ///
    /// The size of the sync pulse and the blanking period is for the BIOS to
    /// handle internally. The OS only cares about visible pixels.
    #[inline]
    pub fn horizontal_pixels(self) -> (pixels: u16)
        ensures
            pixels == self@.horizontal_pixels(),
    {
        match (self.timing(), self.is_horiz_2x()) {
            (Timing::T640x480, false) => 640,
            (Timing::T640x400, false) => 640,
            (Timing::T800x600, false) => 800,
            (Timing::T640x480, true) => 320,
            (Timing::T640x400, true) => 320,
            (Timing::T800x600, true) => 400,
        }
    }

    /// Get how many vertical lines are in the visible image.
    ///
    /// The size of the sync pulse and the blanking period is for the BIOS to
    /// handle internally. The OS only cares about visible lines.
    #[inline]
    pub fn vertical_lines(self) -> (lines: u16)
        ensures
            lines == self@.vertical_lines(),
    {
        match (self.timing(), self.is_vert_2x()) {
            (Timing::T640x480, false) => 480,
            (Timing::T640x400, false) => 400,
            (Timing::T800x600, false) => 600,
            (Timing::T640x480, true) => 240,
            (Timing::T640x400, true) => 200,
            (Timing::T800x600, true) => 300,
        }
    }

    /// Get the nominal pixel clock.
    ///
    /// Note this is only the nominal value. VESA allows +/- 0.5% tolerance.
    #[inline]
    pub fn pixel_clock_hz(self) -> (hz: u32)
        ensures
            hz == self@.timing.nominal_pixel_clock(),
    {
        match self.timing() {
            Timing::T640x480 => 25175000,
            Timing::T640x400 => 25175000,
            Timing::T800x600 => 40000000,
        }
    }

    /// Get the nominal frame rate.
    ///
    /// Note this is only the nominal value. VESA allows +/- 0.5% tolerance.
    #[inline]
    pub fn frame_rate_hz(self) -> (hz: u32)
        ensures
            hz == self@.timing.nominal_frame_rate(),
    {
        match self.timing() {
            Timing::T640x480 => 60,
            Timing::T640x400 => 70,
            Timing::T800x600 => 60,
        }
    }

    /// Get the mode as an integer.
    #[inline]
    pub fn as_u8(self) -> (byte: u8)
        ensures
            byte == self.byte(),
            byte == mode_byte(self@.timing, self@.format, self@.scaling),
            is_mode_byte(byte),
    {
        proof {
            use_type_invariant(&self);
            lemma_mode_repack(self);
        }
        self.0
    }

    /// Try and make a mode from an integer.
    ///
    /// Every format and every pair of scaling bits is valid, but some
    /// timings are not: a byte whose timing field stands for no timing gives
    /// `None`.
    #[inline]
    pub fn try_from_u8(mode_value: u8) -> (mode: Option<Mode>)
        ensures
            mode.is_some() <==> is_mode_byte(mode_value),
            mode matches Some(m) ==> m.byte() == mode_value && m.wf(),
    {
        proof {
            lemma_mode_fields(mode_value);
        }
        let field: u8 = (mode_value >> 4) & 0b111;
        if field <= 2 {
            Some(Mode(mode_value))
        } else {
            None
        }
    }

    /// Make a mode from an integer without checking it.
    ///
    /// The integer must describe a mode, as one returned from
    /// [`Mode::as_u8`] does. Where that is not known, use
    /// [`Mode::try_from_u8`].
    #[inline]
    pub fn from_u8(mode_value: u8) -> (mode: Mode)
        requires
            is_mode_byte(mode_value),
        ensures
            mode.byte() == mode_value,
            mode.wf(),
    {
        Mode(mode_value)
    }
}

/// Describes an RGB colour-triple, packed into a word as `0x00RRGGBB`.
#[derive(Debug, Copy, Clone, PartialEq, Eq, Structural)]
pub struct RGBColour(u32);

/// The word that packs a red, a green and a blue channel.
pub open spec fn packed_rgb(red: u8, green: u8, blue: u8) -> int {
    red as int * 0x1_0000 + green as int * 0x100 + blue as int
}

/// How the channels of a packed colour, taken by shifting and masking, relate
/// to the same channels taken by dividing.
proof fn lemma_rgb_fields(word: u32)
    by (bit_vector)
    ensures
        (word >> 16) & 0xFF == (word / 0x1_0000) % 0x100,
        (word >> 8) & 0xFF == (word / 0x100) % 0x100,
        word & 0xFF == word % 0x100,
{
}

/// How a word put together by shifting and or-ing relates to the sum of its
/// channels.
proof fn lemma_rgb_pack(red: u32, green: u32, blue: u32)
    by (bit_vector)
    requires
        red < 0x100,
        green < 0x100,
        blue < 0x100,
    ensures
        ((red << 16) | (green << 8)) | blue == red * 0x1_0000 + green * 0x100 + blue,
{
}

impl RGBColour {
    /// The packed word that this colour is.
    pub closed spec fn packed(self) -> u32 {
        self.0
    }

    /// The red channel of the packed word.
    pub open spec fn spec_red(self) -> int {
        (self.packed() as int / 0x1_0000) % 0x100
    }

    /// The green channel of the packed word.
    pub open spec fn spec_green(self) -> int {
        (self.packed() as int / 0x100) % 0x100
    }

    /// The blue channel of the packed word.
    pub open spec fn spec_blue(self) -> int {
        self.packed() as int % 0x100
    }

    /// Create a new RGB colour from a packed 32-bit value
    #[inline]
    pub fn from_packed(packed: u32) -> (colour: RGBColour)
        ensures
            colour.packed() == packed,
    {
        RGBColour(packed)
    }

    /// Get a packed 32-bit value from this RGB Colour
    #[inline]
    pub fn as_packed(self) -> (packed: u32)
        ensures
            packed == self.packed(),
    {
        self.0
    }

    /// Create a new RGB colour
    #[inline]
    pub fn from_rgb(red: u8, green: u8, blue: u8) -> (colour: RGBColour)
        ensures
            colour.packed() == packed_rgb(red, green, blue),
            colour.spec_red() == red,
            colour.spec_green() == green,
            colour.spec_blue() == blue,
    {
        let word: u32 = (((red as u32) << 16) | ((green as u32) << 8)) | (blue as u32);
        let colour = RGBColour(word);
        proof {
            lemma_rgb_pack(red as u32, green as u32, blue as u32);
            lemma_rgb_round_trip(colour, red, green, blue);
        }
        colour
    }

    /// Get the red-channel value
    #[inline]
    pub fn red(self) -> (channel: u8)
        ensures
            channel == self.spec_red(),
    {
        proof {
            lemma_rgb_fields(self.0);
        }
        ((self.0 >> 16) & 0xFF) as u8
    }

    /// Get the green-channel value
    #[inline]
    pub fn green(self) -> (channel: u8)
        ensures
            channel == self.spec_green(),
    {
        proof {
            lemma_rgb_fields(self.0);
        }
        ((self.0 >> 8) & 0xFF) as u8
    }

    /// Get the blue-channel value
    #[inline]
    pub fn blue(self) -> (channel: u8)
        ensures
            channel == self.spec_blue(),
    {
        proof {
            lemma_rgb_fields(self.0);
        }
        (self.0 & 0xFF) as u8
    }

    /// The colour Red
    #[allow(non_snake_case)]
    pub fn RED() -> (colour: RGBColour)
        ensures
            colour.packed() == packed_rgb(0xFF, 0, 0),
    {
        RGBColour::from_rgb(0xFF, 0, 0)
    }

    /// The colour Green
    #[allow(non_snake_case)]
    pub fn GREEN() -> (colour: RGBColour)
        ensures
            colour.packed() == packed_rgb(0, 0xFF, 0),
    {
        RGBColour::from_rgb(0, 0xFF, 0)
    }

    /// The colour Blue
    #[allow(non_snake_case)]
    pub fn BLUE() -> (colour: RGBColour)
        ensures
            colour.packed() == packed_rgb(0, 0, 0xFF),
    {
        RGBColour::from_rgb(0, 0, 0xFF)
    }

    /// The colour Yellow
    #[allow(non_snake_case)]
    pub fn YELLOW() -> (colour: RGBColour)
        ensures
            colour.packed() == packed_rgb(0xFF, 0xFF, 0),
    {
        RGBColour::from_rgb(0xFF, 0xFF, 0)
    }

    /// The colour White
    #[allow(non_snake_case)]
    pub fn WHITE() -> (colour: RGBColour)
        ensures
            colour.packed() == packed_rgb(0xFF, 0xFF, 0xFF),
    {
        RGBColour::from_rgb(0xFF, 0xFF, 0xFF)
    }

    /// The colour Black
    #[allow(non_snake_case)]
    pub fn BLACK() -> (colour: RGBColour)
        ensures
            colour.packed() == packed_rgb(0, 0, 0),
    {
        RGBColour::from_rgb(0, 0, 0)
    }

    /// The colour Cyan
    #[allow(non_snake_case)]
    pub fn CYAN() -> (colour: RGBColour)
        ensures
            colour.packed() == packed_rgb(0, 0xFF, 0xFF),
    {
        RGBColour::from_rgb(0, 0xFF, 0xFF)
    }

    /// The colour Magenta
    #[allow(non_snake_case)]
    pub fn MAGENTA() -> (colour: RGBColour)
        ensures
            colour.packed() == packed_rgb(0xFF, 0, 0xFF),
    {
        RGBColour::from_rgb(0xFF, 0, 0xFF)
    }
}

/// Represents a glyph in the current font.
#[derive(Copy, Clone, PartialEq, Eq, Structural)]
pub struct Glyph(pub u8);

/// Text-mode foreground colour value.
#[derive(Copy, Clone, Debug, PartialEq, Eq, PartialOrd, Ord, Structural)]
pub enum TextForegroundColour {
    /// Black (palette 0)
    Black,
    /// Blue (palette 1)
    Blue,
    /// Green (palette 2)
    Green,
    /// Cyan (palette 3)
    Cyan,
    /// Red (palette 4)
    Red,
    /// Magenta (palette 5)
    Magenta,
    /// Brown (palette 6)
    Brown,
    /// Light Gray (palette 7)
    LightGray,
    /// Dark Gray (palette 8)
    DarkGray,
    /// Light Blue (palette 9)
    LightBlue,
    /// Light Green (palette 10)
    LightGreen,
    /// Light Cyan (palette 11)
    LightCyan,
    /// Light Red (palette 12)
    LightRed,
    /// Pink (palette 13)
    Pink,
    /// Yellow (palette 14)
    Yellow,
    /// White (palette 15)
    White,
}

/// A [`TextForegroundColour`] as the byte that crosses the boundary.
///
/// Any byte can arrive; only [`FfiTextForegroundColour::make_safe`] turns one into a
/// [`TextForegroundColour`], and it refuses a byte that stands for none.
#[derive(Copy, Clone, Debug, PartialEq, Eq, PartialOrd, Ord, Structural)]
pub struct FfiTextForegroundColour(pub u8);

impl TextForegroundColour {
    /// How many foreground colours there are. Their codes are the numbers below it.
    pub open spec fn count() -> int {
        16
    }

    /// The byte that stands for this colour.
    pub open spec fn code(self) -> u8 {
        match self {
            TextForegroundColour::Black => 0,
            TextForegroundColour::Blue => 1,
            TextForegroundColour::Green => 2,
            TextForegroundColour::Cyan => 3,
            TextForegroundColour::Red => 4,
            TextForegroundColour::Magenta => 5,
            TextForegroundColour::Brown => 6,
            TextForegroundColour::LightGray => 7,
            TextForegroundColour::DarkGray => 8,
            TextForegroundColour::LightBlue => 9,
            TextForegroundColour::LightGreen => 10,
            TextForegroundColour::LightCyan => 11,
            TextForegroundColour::LightRed => 12,
            TextForegroundColour::Pink => 13,
            TextForegroundColour::Yellow => 14,
            TextForegroundColour::White => 15,
        }
    }

    /// The colour that a byte stands for, if it stands for one.
    pub open spec fn from_code(code: u8) -> Option<TextForegroundColour> {
        match code {
            0 => Some(TextForegroundColour::Black),
            1 => Some(TextForegroundColour::Blue),
            2 => Some(TextForegroundColour::Green),
            3 => Some(TextForegroundColour::Cyan),
            4 => Some(TextForegroundColour::Red),
            5 => Some(TextForegroundColour::Magenta),
            6 => Some(TextForegroundColour::Brown),
            7 => Some(TextForegroundColour::LightGray),
            8 => Some(TextForegroundColour::DarkGray),
            9 => Some(TextForegroundColour::LightBlue),
            10 => Some(TextForegroundColour::LightGreen),
            11 => Some(TextForegroundColour::LightCyan),
            12 => Some(TextForegroundColour::LightRed),
            13 => Some(TextForegroundColour::Pink),
            14 => Some(TextForegroundColour::Yellow),
            15 => Some(TextForegroundColour::White),
            _ => None,
        }
    }

    /// The byte that stands for this colour.
    pub fn as_u8(self) -> (code: u8)
        ensures
            code == self.code(),
            code < TextForegroundColour::count(),
    {
        match self {
            TextForegroundColour::Black => 0,
            TextForegroundColour::Blue => 1,
            TextForegroundColour::Green => 2,
            TextForegroundColour::Cyan => 3,
            TextForegroundColour::Red => 4,
            TextForegroundColour::Magenta => 5,
            TextForegroundColour::Brown => 6,
            TextForegroundColour::LightGray => 7,
            TextForegroundColour::DarkGray => 8,
            TextForegroundColour::LightBlue => 9,
            TextForegroundColour::LightGreen => 10,
            TextForegroundColour::LightCyan => 11,
            TextForegroundColour::LightRed => 12,
            TextForegroundColour::Pink => 13,
            TextForegroundColour::Yellow => 14,
            TextForegroundColour::White => 15,
        }
    }

    /// Wrap this colour for the trip across the boundary.
    pub fn make_ffi_safe(self) -> (ffi: FfiTextForegroundColour)
        ensures
            ffi.0 == self.code(),
    {
        FfiTextForegroundColour(self.as_u8())
    }
}

impl FfiTextForegroundColour {
    /// Wrap a colour for the trip across the boundary.
    pub fn new(value: TextForegroundColour) -> (ffi: FfiTextForegroundColour)
        ensures
            ffi.0 == value.code(),
    {
        FfiTextForegroundColour(value.as_u8())
    }

    /// Check the byte and give the colour it stands for.
    ///
    /// Fails exactly when the byte stands for no colour.
    pub fn make_safe(self) -> (checked: Result<TextForegroundColour, EnumConversionFail>)
        ensures
            checked.is_ok() <==> self.0 < TextForegroundColour::count(),
            checked.ok() == TextForegroundColour::from_code(self.0),
    {
        match self.0 {
            0 => Ok(TextForegroundColour::Black),
            1 => Ok(TextForegroundColour::Blue),
            2 => Ok(TextForegroundColour::Green),
            3 => Ok(TextForegroundColour::Cyan),
            4 => Ok(TextForegroundColour::Red),
            5 => Ok(TextForegroundColour::Magenta),
            6 => Ok(TextForegroundColour::Brown),
            7 => Ok(TextForegroundColour::LightGray),
            8 => Ok(TextForegroundColour::DarkGray),
            9 => Ok(TextForegroundColour::LightBlue),
            10 => Ok(TextForegroundColour::LightGreen),
            11 => Ok(TextForegroundColour::LightCyan),
            12 => Ok(TextForegroundColour::LightRed),
            13 => Ok(TextForegroundColour::Pink),
            14 => Ok(TextForegroundColour::Yellow),
            15 => Ok(TextForegroundColour::White),
            _ => Err(EnumConversionFail()),
        }
    }
}

/// Text-mode background colour value.
#[derive(Copy, Clone, Debug, PartialEq, Eq, PartialOrd, Ord, Structural)]
pub enum TextBackgroundColour {
    /// Black (palette 0)
    Black,
    /// Blue (palette 1)
    Blue,
    /// Green (palette 2)
    Green,
    /// Cyan (palette 3)
    Cyan,
    /// Red (palette 4)
    Red,
    /// Magenta (palette 5)
    Magenta,
    /// Brown (palette 6)
    Brown,
    /// Light Gray (palette 7)
    LightGray,
}

/// A [`TextBackgroundColour`] as the byte that crosses the boundary.
///
/// Any byte can arrive; only [`FfiTextBackgroundColour::make_safe`] turns one into a
/// [`TextBackgroundColour`], and it refuses a byte that stands for none.
#[derive(Copy, Clone, Debug, PartialEq, Eq, PartialOrd, Ord, Structural)]
pub struct FfiTextBackgroundColour(pub u8);

impl TextBackgroundColour {
    /// How many background colours there are. Their codes are the numbers below it.
    pub open spec fn count() -> int {
        8
    }

    /// The byte that stands for this colour.
    pub open spec fn code(self) -> u8 {
        match self {
            TextBackgroundColour::Black => 0,
            TextBackgroundColour::Blue => 1,
            TextBackgroundColour::Green => 2,
            TextBackgroundColour::Cyan => 3,
            TextBackgroundColour::Red => 4,
            TextBackgroundColour::Magenta => 5,
            TextBackgroundColour::Brown => 6,
            TextBackgroundColour::LightGray => 7,
        }
    }

    /// The colour that a byte stands for, if it stands for one.
    pub open spec fn from_code(code: u8) -> Option<TextBackgroundColour> {
        match code {
            0 => Some(TextBackgroundColour::Black),
            1 => Some(TextBackgroundColour::Blue),
            2 => Some(TextBackgroundColour::Green),
            3 => Some(TextBackgroundColour::Cyan),
            4 => Some(TextBackgroundColour::Red),
            5 => Some(TextBackgroundColour::Magenta),
            6 => Some(TextBackgroundColour::Brown),
            7 => Some(TextBackgroundColour::LightGray),
            _ => None,
        }
    }

    /// The byte that stands for this colour.
    pub fn as_u8(self) -> (code: u8)
        ensures
            code == self.code(),
            code < TextBackgroundColour::count(),
    {
        match self {
            TextBackgroundColour::Black => 0,
            TextBackgroundColour::Blue => 1,
            TextBackgroundColour::Green => 2,
            TextBackgroundColour::Cyan => 3,
            TextBackgroundColour::Red => 4,
            TextBackgroundColour::Magenta => 5,
            TextBackgroundColour::Brown => 6,
            TextBackgroundColour::LightGray => 7,
        }
    }

    /// Wrap this colour for the trip across the boundary.
    pub fn make_ffi_safe(self) -> (ffi: FfiTextBackgroundColour)
        ensures
            ffi.0 == self.code(),
    {
        FfiTextBackgroundColour(self.as_u8())
    }
}

impl FfiTextBackgroundColour {
    /// Wrap a colour for the trip across the boundary.
    pub fn new(value: TextBackgroundColour) -> (ffi: FfiTextBackgroundColour)
        ensures
            ffi.0 == value.code(),
    {
        FfiTextBackgroundColour(value.as_u8())
    }

    /// Check the byte and give the colour it stands for.
    ///
    /// Fails exactly when the byte stands for no colour.
    pub fn make_safe(self) -> (checked: Result<TextBackgroundColour, EnumConversionFail>)
        ensures
            checked.is_ok() <==> self.0 < TextBackgroundColour::count(),
            checked.ok() == TextBackgroundColour::from_code(self.0),
    {
        match self.0 {
            0 => Ok(TextBackgroundColour::Black),
            1 => Ok(TextBackgroundColour::Blue),
            2 => Ok(TextBackgroundColour::Green),
            3 => Ok(TextBackgroundColour::Cyan),
            4 => Ok(TextBackgroundColour::Red),
            5 => Ok(TextBackgroundColour::Magenta),
            6 => Ok(TextBackgroundColour::Brown),
            7 => Ok(TextBackgroundColour::LightGray),
            _ => Err(EnumConversionFail()),
        }
    }
}

impl TextForegroundColour {
    /// The background colour of the same shade: the one whose code is this
    /// colour's code without its brightness bit.
    pub open spec fn spec_make_background(self) -> TextBackgroundColour {
        TextBackgroundColour::from_code((self.code() % 8) as u8).unwrap()
    }

    /// The brighter colour of the same shade. A dim colour gains the
    /// brightness bit; dark gray becomes light gray; every other bright
    /// colour stays as it is.
    pub open spec fn spec_brighten(self) -> TextForegroundColour {
        if self.code() < 8 {
            TextForegroundColour::from_code((self.code() + 8) as u8).unwrap()
        } else if self == TextForegroundColour::DarkGray {
            TextForegroundColour::LightGray
        } else {
            self
        }
    }

    /// Convert a foreground colour into a background colour
    pub fn make_background(self) -> (background: TextBackgroundColour)
        ensures
            background == self.spec_make_background(),
            background.code() == self.code() % 8,
    {
        match self {
            TextForegroundColour::Black => TextBackgroundColour::Black,
            TextForegroundColour::Blue => TextBackgroundColour::Blue,
            TextForegroundColour::Green => TextBackgroundColour::Green,
            TextForegroundColour::Cyan => TextBackgroundColour::Cyan,
            TextForegroundColour::Red => TextBackgroundColour::Red,
            TextForegroundColour::Magenta => TextBackgroundColour::Magenta,
            TextForegroundColour::Brown => TextBackgroundColour::Brown,
            TextForegroundColour::LightGray => TextBackgroundColour::LightGray,
            TextForegroundColour::DarkGray => TextBackgroundColour::Black,
            TextForegroundColour::LightBlue => TextBackgroundColour::Blue,
            TextForegroundColour::LightGreen => TextBackgroundColour::Green,
            TextForegroundColour::LightCyan => TextBackgroundColour::Cyan,
            TextForegroundColour::LightRed => TextBackgroundColour::Red,
            TextForegroundColour::Pink => TextBackgroundColour::Magenta,
            TextForegroundColour::Yellow => TextBackgroundColour::Brown,
            TextForegroundColour::White => TextBackgroundColour::LightGray,
        }
    }

    /// Convert to the brighter version of the same shade
    pub fn brighten(self) -> (brighter: TextForegroundColour)
        ensures
            brighter == self.spec_brighten(),
    {
        match self {
            TextForegroundColour::Black => TextForegroundColour::DarkGray,
            TextForegroundColour::Red => TextForegroundColour::LightRed,
            TextForegroundColour::Green => TextForegroundColour::LightGreen,
            TextForegroundColour::Brown => TextForegroundColour::Yellow,
            TextForegroundColour::Blue => TextForegroundColour::LightBlue,
            TextForegroundColour::Magenta => TextForegroundColour::Pink,
            TextForegroundColour::Cyan => TextForegroundColour::LightCyan,
            TextForegroundColour::LightGray => TextForegroundColour::White,
            TextForegroundColour::DarkGray => TextForegroundColour::LightGray,
            TextForegroundColour::LightBlue => TextForegroundColour::LightBlue,
            TextForegroundColour::LightGreen => TextForegroundColour::LightGreen,
            TextForegroundColour::LightCyan => TextForegroundColour::LightCyan,
            TextForegroundColour::LightRed => TextForegroundColour::LightRed,
            TextForegroundColour::Pink => TextForegroundColour::Pink,
            TextForegroundColour::Yellow => TextForegroundColour::Yellow,
            TextForegroundColour::White => TextForegroundColour::White,
        }
    }
}

impl TextBackgroundColour {
    /// The foreground colour with the same code.
    pub open spec fn spec_make_foreground(self) -> TextForegroundColour {
        TextForegroundColour::from_code(self.code()).unwrap()
    }

    /// Convert a background colour into a foreground colour
    pub fn make_foreground(self) -> (foreground: TextForegroundColour)
        ensures
            foreground == self.spec_make_foreground(),
            foreground.code() == self.code(),
    {
        match self {
            TextBackgroundColour::Black => TextForegroundColour::Black,
            TextBackgroundColour::Blue => TextForegroundColour::Blue,
            TextBackgroundColour::Green => TextForegroundColour::Green,
            TextBackgroundColour::Cyan => TextForegroundColour::Cyan,
            TextBackgroundColour::Red => TextForegroundColour::Red,
            TextBackgroundColour::Magenta => TextForegroundColour::Magenta,
            TextBackgroundColour::Brown => TextForegroundColour::Brown,
            TextBackgroundColour::LightGray => TextForegroundColour::LightGray,
        }
    }
}

/// Represents VGA format foreground/background attributes.
///
/// The byte holds, from the most significant bit down, the blink flag
/// (bit 7), the background colour (bits 6 to 4) and the foreground colour
/// (bits 3 to 0).
#[derive(Copy, Clone, PartialEq, Eq, Structural)]
pub struct Attr(pub u8);

/// Represents a glyph/attribute pair.
///
/// This is what a text console is made out of: the glyph in the low byte,
/// the attribute in the high byte, as on the IBM PC VGA.
#[derive(Copy, Clone, PartialEq, Eq, Structural)]
pub struct GlyphAttr(pub u16);

/// The byte that packs a foreground colour, a background colour and the
/// blink flag.
pub open spec fn attr_byte(fg: TextForegroundColour, bg: TextBackgroundColour, blink: bool) -> int {
    (if blink { 128int } else { 0 }) + bg.code() * 16 + fg.code()
}

/// How the fields of an attribute byte, taken by shifting and masking, relate
/// to the same fields taken by dividing.
proof fn lemma_attr_fields(byte: u8)
    by (bit_vector)
    ensures
        byte & 0x0F == byte % 16,
        (byte >> 4) & 0x07 == (byte / 16) % 8,
        ((byte & 0x80) != 0) == (byte >= 128),
{
}

/// How an attribute byte put together by shifting and or-ing relates to the
/// sum of its fields.
proof fn lemma_attr_pack(fg: u8, bg: u8)
    by (bit_vector)
    requires
        fg < 16,
        bg < 8,
    ensures
        fg & 0b1111 == fg,
        (bg & 0b111) << 4 == bg * 16,
        (0u8 | ((bg & 0b111) << 4)) | (fg & 0b1111) == bg * 16 + fg,
        ((1u8 << 7) | ((bg & 0b111) << 4)) | (fg & 0b1111) == 128 + bg * 16 + fg,
{
}

/// How the halves of a glyph/attribute word, taken by shifting and masking,
/// relate to the same halves taken by dividing.
proof fn lemma_glyph_attr_fields(word: u16)
    by (bit_vector)
    ensures
        word & 0xFF == word % 0x100,
        word >> 8 == word / 0x100,
        word >> 8 < 0x100,
{
}

/// Shifting an attribute byte into the high half of a word multiplies it.
proof fn lemma_glyph_attr_pack(high: u16)
    by (bit_vector)
    requires
        high < 0x100,
    ensures
        high << 8 == high * 0x100,
{
}

impl Attr {
    /// The foreground colour that the low four bits stand for.
    pub open spec fn spec_fg(self) -> TextForegroundColour {
        TextForegroundColour::from_code(self.0 % 16).unwrap()
    }

    /// The background colour that bits 6 to 4 stand for.
    pub open spec fn spec_bg(self) -> TextBackgroundColour {
        TextBackgroundColour::from_code(((self.0 / 16) % 8) as u8).unwrap()
    }

    /// The blink flag: bit 7.
    pub open spec fn spec_blink(self) -> bool {
        self.0 >= 128
    }

    /// Make a new Attribute Value.
    ///
    /// This is packed according to the format for the IBM *Video Graphics Array* (VGA) standard,
    /// with a four-bit (`0..=15`) foreground colour, a three-bit (`0..=7`) background colour
    /// and a single bit for *blink* which makes the text blink on and off roughly once a second.
    ///
    /// ```text
    /// +-------+-----+-----+-----+-----+-----+-----+-----+
    /// + BLINK | BG2 | BG1 | BG0 | FG3 | FG2 | FG1 | FG0 |
    /// +-------+-----+-----+-----+-----+-----+-----+-----+
    /// ```
    #[inline]
    pub fn new(fg: TextForegroundColour, bg: TextBackgroundColour, blink: bool) -> (attr: Attr)
        ensures
            attr.0 == attr_byte(fg, bg, blink),
            attr.spec_fg() == fg,
            attr.spec_bg() == bg,
            attr.spec_blink() == blink,
    {
        let fg_code: u8 = fg.as_u8();
        let bg_code: u8 = bg.as_u8();
        proof {
            lemma_attr_pack(fg_code, bg_code);
        }
        let fg_bits: u8 = fg_code & 0b1111;
        let bg_bits: u8 = (bg_code & 0b111) << 4;
        let blink_bit: u8 = if blink {
            1 << 7
        } else {
            0
        };
        let value: u8 = (blink_bit | bg_bits) | fg_bits;
        Attr(value)
    }

    /// Get the foreground colour
    #[inline]
    pub fn fg(&self) -> (fg: TextForegroundColour)
        ensures
            fg == self.spec_fg(),
            fg.code() == self.0 % 16,
    {
        proof {
            lemma_attr_fields(self.0);
        }
        match FfiTextForegroundColour(self.0 & 0x0F).make_safe() {
            Ok(v) => v,
            Err(_) => vstd::pervasive::unreached(),
        }
    }

    /// Get the background colour
    #[inline]
    pub fn bg(&self) -> (bg: TextBackgroundColour)
        ensures
            bg == self.spec_bg(),
            bg.code() == (self.0 / 16) % 8,
    {
        proof {
            lemma_attr_fields(self.0);
        }
        match FfiTextBackgroundColour((self.0 >> 4) & 0x07).make_safe() {
            Ok(v) => v,
            Err(_) => vstd::pervasive::unreached(),
        }
    }

    /// Is the text blinking?
    #[inline]
    pub fn blink(&self) -> (blink: bool)
        ensures
            blink == self.spec_blink(),
    {
        proof {
            lemma_attr_fields(self.0);
        }
        (self.0 & 0x80) != 0
    }

    /// Make a new attribute with the new foreground colour
    #[inline]
    pub fn set_fg(&mut self, fg: TextForegroundColour)
        ensures
            final(self).0 == attr_byte(fg, old(self).spec_bg(), old(self).spec_blink()),
            final(self).spec_fg() == fg,
            final(self).spec_bg() == old(self).spec_bg(),
            final(self).spec_blink() == old(self).spec_blink(),
    {
        *self = Self::new(fg, self.bg(), self.blink());
    }

    /// Make a new attribute with the new background colour
    #[inline]
    pub fn set_bg(&mut self, bg: TextBackgroundColour)
        ensures
            final(self).0 == attr_byte(old(self).spec_fg(), bg, old(self).spec_blink()),
            final(self).spec_fg() == old(self).spec_fg(),
            final(self).spec_bg() == bg,
            final(self).spec_blink() == old(self).spec_blink(),
    {
        *self = Self::new(self.fg(), bg, self.blink());
    }

    /// Make a new attribute with the new blink state
    #[inline]
    pub fn set_blink(&mut self, blink: bool)
        ensures
            final(self).0 == attr_byte(old(self).spec_fg(), old(self).spec_bg(), blink),
            final(self).spec_fg() == old(self).spec_fg(),
            final(self).spec_bg() == old(self).spec_bg(),
            final(self).spec_blink() == blink,
    {
        *self = Self::new(self.fg(), self.bg(), blink);
    }

    /// Convert this attribute into a raw 8-bit value
    #[inline]
    pub fn as_u8(self) -> (byte: u8)
        ensures
            byte == self.0,
    {
        self.0
    }
}

impl GlyphAttr {
    /// The glyph that the low byte holds.
    pub open spec fn spec_glyph(self) -> Glyph {
        Glyph((self.0 % 0x100) as u8)
    }

    /// The attribute that the high byte holds.
    pub open spec fn spec_attr(self) -> Attr {
        Attr((self.0 / 0x100) as u8)
    }

    /// Make a new glyph/attribute pair.
    #[inline]
    pub fn new(glyph: Glyph, attr: Attr) -> (pair: GlyphAttr)
        ensures
            pair.0 == glyph.0 + attr.0 * 0x100,
            pair.spec_glyph() == glyph,
            pair.spec_attr() == attr,
    {
        proof {
            lemma_glyph_attr_pack(attr.0 as u16);
        }
        let value: u16 = (glyph.0 as u16) + ((attr.0 as u16) << 8);
        GlyphAttr(value)
    }

    /// Get the glyph component of this pair.
    #[inline]
    pub fn glyph(self) -> (glyph: Glyph)
        ensures
            glyph == self.spec_glyph(),
    {
        proof {
            lemma_glyph_attr_fields(self.0);
        }
        Glyph((self.0 & 0xFF) as u8)
    }

    /// Get the attribute component of this pair.
    #[inline]
    pub fn attr(self) -> (attr: Attr)
        ensures
            attr == self.spec_attr(),
    {
        proof {
            lemma_glyph_attr_fields(self.0);
        }
        Attr((self.0 >> 8) as u8)
    }
}

impl Default for GlyphAttr {
    /// The pair whose glyph and attribute are both zero.
    fn default() -> (pair: GlyphAttr)
        ensures
            pair.0 == 0,
    {
        GlyphAttr(0)
    }
}

/// Two modes with the same byte are the same mode.
pub proof fn lemma_mode_same_byte(a: Mode, b: Mode)
    requires
        a.byte() == b.byte(),
    ensures
        a == b,
{
}

/// Packing a timing, a format and a scaling gives one byte, and that byte
/// describes a mode.
pub proof fn lemma_mode_byte_is_valid(timing: Timing, format: Format, scaling: Scaling)
    ensures
        0 <= mode_byte(timing, format, scaling) < 256,
        is_mode_byte(mode_byte(timing, format, scaling) as u8),
{
}

/// The mode whose byte packs a timing, a format and a scaling has that
/// timing, format and scaling.
pub proof fn lemma_mode_round_trip(mode: Mode, timing: Timing, format: Format, scaling: Scaling)
    requires
        mode.byte() == mode_byte(timing, format, scaling),
    ensures
        mode.wf(),
        mode@ == (ModeView { timing, format, scaling }),
{
}

/// The byte of a well-formed mode is the packing of the mode's own timing,
/// format and scaling: no two triples share a byte, and no mode is without one.
pub proof fn lemma_mode_repack(mode: Mode)
    requires
        mode.wf(),
    ensures
        mode.byte() == mode_byte(mode@.timing, mode@.format, mode@.scaling),
{
}

/// Whatever [`Mode::try_from_u8`] returns for the byte of a well-formed mode
/// is that same mode.
pub proof fn lemma_mode_checked_round_trip(mode: Mode, decoded: Option<Mode>)
    requires
        mode.wf(),
        decoded.is_some() <==> is_mode_byte(mode.byte()),
        decoded matches Some(m) ==> m.byte() == mode.byte(),
    ensures
        decoded == Some(mode),
{
}

/// A byte whose timing field stands for no timing describes no mode, whatever
/// its other bits are; every other byte describes one.
pub proof fn lemma_mode_byte_validity(byte: u8)
    ensures
        is_mode_byte(byte) <==> Timing::from_code(timing_field(byte)).is_some(),
        is_mode_byte(byte) <==> byte % 128 < 48,
        timing_field(byte) >= 3 ==> !is_mode_byte(byte),
{
}

/// The size of a frame is a multiple of four, is not zero, and is at most
/// that of the largest true-colour mode.
pub proof fn lemma_frame_size(mode: ModeView)
    ensures
        mode.frame_size_bytes() % 4 == 0,
        0 < mode.frame_size_bytes() <= 1_920_000,
        0 < mode.line_size_bytes() <= 3200,
        0 < mode.rows() <= 600,
{
    let line = mode.line_size_bytes();
    let rows = mode.rows();
    let pixels = mode.horizontal_pixels();
    assert(pixels == 640 || pixels == 320 || pixels == 800 || pixels == 400);
    assert(line % 4 == 0 || (line == 50 && (rows == 600 || rows == 300)));
    if line % 4 == 0 {
        assert((line * rows) % 4 == 0 && 0 < line * rows <= 1_920_000) by (nonlinear_arith)
            requires
                line % 4 == 0,
                0 < line <= 3200,
                0 < rows <= 600,
        ;
    } else {
        assert(line * rows == 30_000 || line * rows == 15_000) by (nonlinear_arith)
            requires
                line == 50,
                rows == 600 || rows == 300,
        ;
    }
}

/// Every timing comes back from its own code, and no two timings share one.
pub proof fn lemma_timing_codec(a: Timing, b: Timing)
    ensures
        a.code() < Timing::count(),
        Timing::from_code(a.code()) == Some(a),
        a.code() == b.code() ==> a == b,
{
}

/// A number stands for a timing exactly when it is below the count, and then
/// that timing's code is the number.
pub proof fn lemma_timing_decode(code: u8)
    ensures
        Timing::from_code(code).is_some() <==> code < Timing::count(),
        Timing::from_code(code) matches Some(v) ==> v.code() == code,
{
}

/// Every format comes back from its own code, and no two formats share one.
pub proof fn lemma_format_codec(a: Format, b: Format)
    ensures
        a.code() < Format::count(),
        Format::from_code(a.code()) == Some(a),
        a.code() == b.code() ==> a == b,
{
}

/// A byte stands for a format exactly when it is below the count, and then
/// that format's code is the byte.
pub proof fn lemma_format_decode(code: u8)
    ensures
        Format::from_code(code).is_some() <==> code < Format::count(),
        Format::from_code(code) matches Some(v) ==> v.code() == code,
{
}

/// Two colours with the same packed word are the same colour.
pub proof fn lemma_rgb_same_word(a: RGBColour, b: RGBColour)
    requires
        a.packed() == b.packed(),
    ensures
        a == b,
{
}

/// A colour whose word packs three channels has those three channels.
pub proof fn lemma_rgb_round_trip(colour: RGBColour, red: u8, green: u8, blue: u8)
    requires
        colour.packed() == packed_rgb(red, green, blue),
    ensures
        colour.spec_red() == red,
        colour.spec_green() == green,
        colour.spec_blue() == blue,
{
}

/// Every colour comes back from its own code, and no two colours share one.
pub proof fn lemma_foreground_codec(a: TextForegroundColour, b: TextForegroundColour)
    ensures
        a.code() < TextForegroundColour::count(),
        TextForegroundColour::from_code(a.code()) == Some(a),
        a.code() == b.code() ==> a == b,
{
}

/// A byte stands for a colour exactly when it is below the count, and then
/// that colour's code is the byte.
pub proof fn lemma_foreground_decode(code: u8)
    ensures
        TextForegroundColour::from_code(code).is_some() <==> code < TextForegroundColour::count(),
        TextForegroundColour::from_code(code) matches Some(v) ==> v.code() == code,
{
}

/// Every colour comes back from its own code, and no two colours share one.
pub proof fn lemma_background_codec(a: TextBackgroundColour, b: TextBackgroundColour)
    ensures
        a.code() < TextBackgroundColour::count(),
        TextBackgroundColour::from_code(a.code()) == Some(a),
        a.code() == b.code() ==> a == b,
{
}

/// A byte stands for a colour exactly when it is below the count, and then
/// that colour's code is the byte.
pub proof fn lemma_background_decode(code: u8)
    ensures
        TextBackgroundColour::from_code(code).is_some() <==> code < TextBackgroundColour::count(),
        TextBackgroundColour::from_code(code) matches Some(v) ==> v.code() == code,
{
}

/// An attribute byte is the packing of the colours and the blink flag that it
/// holds, so every byte is the attribute of exactly one such triple.
pub proof fn lemma_attr_repack(attr: Attr)
    ensures
        attr.0 == attr_byte(attr.spec_fg(), attr.spec_bg(), attr.spec_blink()),
{
}

/// The attribute whose byte packs two colours and a blink flag holds those
/// two colours and that flag.
pub proof fn lemma_attr_round_trip(
    attr: Attr,
    fg: TextForegroundColour,
    bg: TextBackgroundColour,
    blink: bool,
)
    requires
        attr.0 == attr_byte(fg, bg, blink),
    ensures
        attr.spec_fg() == fg,
        attr.spec_bg() == bg,
        attr.spec_blink() == blink,
{
}

/// A background colour made into a foreground colour and back is unchanged.
pub proof fn lemma_background_round_trip(colour: TextBackgroundColour)
    ensures
        colour.spec_make_foreground().spec_make_background() == colour,
{
}

} // verus!
