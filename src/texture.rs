use vstd::prelude::*;

verus! {

/// Layout of the texels that an image decoder hands back.
#[derive(Clone, Copy, Debug, PartialEq, Eq, Structural)]
pub enum PixelFormat {
    /// Three 8-bit channels: red, green, blue.
    Rgb8,
    /// Four 8-bit channels: red, green, blue, alpha.
    Rgba8,
}

/// The pixel format for a decoded image with `channels` channels per pixel,
/// or `None` where no texture format is supported for that count.
pub open spec fn format_for_channels(channels: int) -> Option<PixelFormat> {
    if channels == 3 {
        Some(PixelFormat::Rgb8)
    } else if channels == 4 {
        Some(PixelFormat::Rgba8)
    } else {
        None
    }
}

/// Chooses the texture storage format for an image with `channels` 8-bit
/// channels per pixel: RGB for three, RGBA for four, none otherwise.
pub fn pixel_format(channels: i32) -> (r: Option<PixelFormat>)
    ensures
        r == format_for_channels(channels as int),
{
    match channels {
        4 => Some(PixelFormat::Rgba8),
        3 => Some(PixelFormat::Rgb8),
        _ => None,
    }
}

impl PixelFormat {
    /// Number of bytes that one pixel takes in this format.
    pub fn bytes_per_pixel(self) -> (r: u32)
        ensures
            r == (match self {
                PixelFormat::Rgb8 => 3u32,
                PixelFormat::Rgba8 => 4u32,
            }),
    {
        match self {
            PixelFormat::Rgb8 => 3,
            PixelFormat::Rgba8 => 4,
        }
    }
}

} // verus!
