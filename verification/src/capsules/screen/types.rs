use vstd::prelude::*;

verus! {

/// How the panel's contents are turned.
#[derive(Copy, Clone, Debug, PartialEq, Eq, Structural)]
pub enum ScreenRotation {
    Normal,
    Rotated90,
    Rotated180,
    Rotated270,
}

/// How pixels are laid out in a frame buffer.
#[allow(non_camel_case_types)]
#[derive(Copy, Clone, Debug, PartialEq, Eq, Structural)]
pub enum ScreenPixelFormat {
    Mono,
    RGB_332,
    RGB_565,
    RGB_888,
    BGRA_8888,
    RGB_4BIT,
    Mono_8BitPage,
}

/// The number a rotation is reported to userspace as.
pub open spec fn spec_rotation_number(r: ScreenRotation) -> u32 {
    match r {
        ScreenRotation::Normal => 0,
        ScreenRotation::Rotated90 => 1,
        ScreenRotation::Rotated180 => 2,
        ScreenRotation::Rotated270 => 3,
    }
}

/// The number a pixel format is reported to userspace as.
pub open spec fn spec_format_number(f: ScreenPixelFormat) -> u32 {
    match f {
        ScreenPixelFormat::Mono => 0,
        ScreenPixelFormat::RGB_332 => 1,
        ScreenPixelFormat::RGB_565 => 2,
        ScreenPixelFormat::RGB_888 => 3,
        ScreenPixelFormat::BGRA_8888 => 4,
        ScreenPixelFormat::RGB_4BIT => 5,
        ScreenPixelFormat::Mono_8BitPage => 6,
    }
}

/// Bits each pixel takes in a format.
pub open spec fn spec_bits_per_pixel(f: ScreenPixelFormat) -> usize {
    match f {
        ScreenPixelFormat::Mono => 1,
        ScreenPixelFormat::RGB_332 => 8,
        ScreenPixelFormat::RGB_565 => 16,
        ScreenPixelFormat::RGB_888 => 24,
        ScreenPixelFormat::BGRA_8888 => 32,
        ScreenPixelFormat::RGB_4BIT => 4,
        ScreenPixelFormat::Mono_8BitPage => 1,
    }
}

/// The widths of a format's colour channels, in the order its name gives
/// them; a monochrome format has one one-bit channel, and `RGB_4BIT` one
/// four-bit channel that indexes the colours.
pub open spec fn spec_channel_bits(f: ScreenPixelFormat) -> Seq<int> {
    match f {
        ScreenPixelFormat::Mono => seq![1],
        ScreenPixelFormat::RGB_332 => seq![3, 3, 2],
        ScreenPixelFormat::RGB_565 => seq![5, 6, 5],
        ScreenPixelFormat::RGB_888 => seq![8, 8, 8],
        ScreenPixelFormat::BGRA_8888 => seq![8, 8, 8, 8],
        ScreenPixelFormat::RGB_4BIT => seq![4],
        ScreenPixelFormat::Mono_8BitPage => seq![1],
    }
}

/// The sum of a sequence of widths.
pub open spec fn spec_sum(s: Seq<int>) -> int
    decreases s.len(),
{
    if s.len() == 0 { 0 } else { s.last() + spec_sum(s.drop_last()) }
}

/// A pixel takes exactly the bits of its channels: 24 for `RGB_888`, 16 for
/// `RGB_565`, 8 for `RGB_332`, 32 for `BGRA_8888`, 4 for `RGB_4BIT` and one
/// for the monochrome formats.
pub proof fn law_bits_are_the_channels(f: ScreenPixelFormat)
    ensures
        spec_bits_per_pixel(f) == spec_sum(spec_channel_bits(f)),
{
    reveal_with_fuel(spec_sum, 5);
}

impl ScreenRotation {
    /// The number this rotation is reported as.
    pub fn number(self) -> (n: u32)
        ensures
            n == spec_rotation_number(self),
    {
        match self {
            ScreenRotation::Normal => 0,
            ScreenRotation::Rotated90 => 1,
            ScreenRotation::Rotated180 => 2,
            ScreenRotation::Rotated270 => 3,
        }
    }
}

impl ScreenPixelFormat {
    /// The number this format is reported as.
    pub fn number(self) -> (n: u32)
        ensures
            n == spec_format_number(self),
    {
        match self {
            ScreenPixelFormat::Mono => 0,
            ScreenPixelFormat::RGB_332 => 1,
            ScreenPixelFormat::RGB_565 => 2,
            ScreenPixelFormat::RGB_888 => 3,
            ScreenPixelFormat::BGRA_8888 => 4,
            ScreenPixelFormat::RGB_4BIT => 5,
            ScreenPixelFormat::Mono_8BitPage => 6,
        }
    }

    /// Bits each pixel takes.
    pub fn get_bits_per_pixel(self) -> (b: usize)
        ensures
            b == spec_bits_per_pixel(self),
            1 <= b <= 32,
    {
        match self {
            ScreenPixelFormat::Mono => 1,
            ScreenPixelFormat::RGB_332 => 8,
            ScreenPixelFormat::RGB_565 => 16,
            ScreenPixelFormat::RGB_888 => 24,
            ScreenPixelFormat::BGRA_8888 => 32,
            ScreenPixelFormat::RGB_4BIT => 4,
            ScreenPixelFormat::Mono_8BitPage => 1,
        }
    }
}

/// The rotation a userspace number stands for, if any.
pub open spec fn spec_rotation_from(n: usize) -> Option<ScreenRotation> {
    if n == 0 {
        Some(ScreenRotation::Normal)
    } else if n == 1 {
        Some(ScreenRotation::Rotated90)
    } else if n == 2 {
        Some(ScreenRotation::Rotated180)
    } else if n == 3 {
        Some(ScreenRotation::Rotated270)
    } else {
        None
    }
}

/// The pixel format a userspace number stands for, if any.
pub open spec fn spec_pixel_format_from(n: usize) -> Option<ScreenPixelFormat> {
    if n == 0 {
        Some(ScreenPixelFormat::Mono)
    } else if n == 1 {
        Some(ScreenPixelFormat::RGB_332)
    } else if n == 2 {
        Some(ScreenPixelFormat::RGB_565)
    } else if n == 3 {
        Some(ScreenPixelFormat::RGB_888)
    } else if n == 4 {
        Some(ScreenPixelFormat::BGRA_8888)
    } else if n == 5 {
        Some(ScreenPixelFormat::RGB_4BIT)
    } else if n == 6 {
        Some(ScreenPixelFormat::Mono_8BitPage)
    } else {
        None
    }
}

/// The rotation a userspace number stands for, if any.
pub fn screen_rotation_from(screen_rotation: usize) -> (r: Option<ScreenRotation>)
    ensures
        r == spec_rotation_from(screen_rotation),
{
    match screen_rotation {
        0 => Some(ScreenRotation::Normal),
        1 => Some(ScreenRotation::Rotated90),
        2 => Some(ScreenRotation::Rotated180),
        3 => Some(ScreenRotation::Rotated270),
        _ => None,
    }
}

/// The pixel format a userspace number stands for, if any.
pub fn screen_pixel_format_from(screen_pixel_format: usize) -> (r: Option<ScreenPixelFormat>)
    ensures
        r == spec_pixel_format_from(screen_pixel_format),
{
    match screen_pixel_format {
        0 => Some(ScreenPixelFormat::Mono),
        1 => Some(ScreenPixelFormat::RGB_332),
        2 => Some(ScreenPixelFormat::RGB_565),
        3 => Some(ScreenPixelFormat::RGB_888),
        4 => Some(ScreenPixelFormat::BGRA_8888),
        5 => Some(ScreenPixelFormat::RGB_4BIT),
        6 => Some(ScreenPixelFormat::Mono_8BitPage),
        _ => None,
    }
}

/// The whole bytes `pixels` pixels of `bits_per_pixel` bits take, rounding
/// a partly used last byte up.
pub open spec fn spec_pixels_in_bytes(pixels: usize, bits_per_pixel: usize) -> int {
    let bits = pixels * bits_per_pixel;
    if bits % 8 == 0 { bits / 8 } else { bits / 8 + 1 }
}

/// The whole bytes `pixels` pixels take.
pub fn pixels_in_bytes(pixels: usize, bits_per_pixel: usize) -> (bytes: usize)
    requires
        pixels * bits_per_pixel <= usize::MAX,
    ensures
        bytes == spec_pixels_in_bytes(pixels, bits_per_pixel),
        bytes * 8 >= pixels * bits_per_pixel,
        bytes * 8 < pixels * bits_per_pixel + 8,
{
    let bits = pixels * bits_per_pixel;
    let bytes = bits / 8;
    if bits % 8 != 0 {
        bytes + 1
    } else {
        bytes
    }
}

/// A command a process has asked the screen for.
#[derive(Copy, Clone, Debug, PartialEq, Eq, Structural)]
pub enum ScreenCommand {
    Nop,
    SetBrightness(u16),
    SetPower(bool),
    SetInvert(bool),
    SetRotation(ScreenRotation),
    SetResolution { width: usize, height: usize },
    SetPixelFormat(ScreenPixelFormat),
    SetWriteFrame { x: usize, y: usize, width: usize, height: usize },
    /// Write this many bytes of the shared buffer.
    Write(usize),
    /// Fill the write frame with the first pixel of the shared buffer.
    Fill,
}

/// A process's state in the screen driver.
#[derive(Copy, Clone, Debug, PartialEq, Eq, Structural)]
pub struct App {
    /// A command is queued or in flight.
    pub pending_command: bool,
    /// Bytes of the current write or fill already handed to the panel.
    pub write_position: usize,
    /// Bytes the current write or fill covers.
    pub write_len: usize,
    pub command: ScreenCommand,
    /// The write frame's size, in pixels.
    pub width: usize,
    pub height: usize,
}

/// A process that has done nothing yet.
pub open spec fn spec_default_app() -> App {
    App { pending_command: false, write_position: 0, write_len: 0, command: ScreenCommand::Nop, width: 0, height: 0 }
}

impl core::default::Default for App {
    fn default() -> (a: App)
        ensures
            a == spec_default_app(),
    {
        App { pending_command: false, write_position: 0, write_len: 0, command: ScreenCommand::Nop, width: 0, height: 0 }
    }
}

} // verus!
