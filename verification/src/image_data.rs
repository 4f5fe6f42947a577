//! Image buffers as they cross to and from the engine.

use vstd::prelude::*;

verus! {

/// Samples per pixel of an RGB image.
pub const RGB_CHANNELS: u32 = 3;

/// Number of samples of a tightly packed image.
pub open spec fn sample_count(width: u32, height: u32, channel: u32) -> nat {
    (width as nat) * (height as nat) * (channel as nat)
}

/// The image descriptor exchanged with the engine: dimensions, samples per
/// pixel and the samples themselves, row by row, 8 bits each. `data` is
/// `None` where the engine hands over no buffer.
#[derive(Debug)]
pub struct SDImageData {
    pub width: u32,
    pub height: u32,
    pub channel: u32,
    pub data: Option<Vec<u8>>,
}

/// An image descriptor as a mathematical value.
pub struct ImageView {
    pub width: u32,
    pub height: u32,
    pub channel: u32,
    pub data: Option<Seq<u8>>,
}

impl ImageView {
    /// The buffer is there and holds one sample for each pixel and channel.
    pub open spec fn tight(self) -> bool {
        self.data matches Some(samples) && samples.len() == sample_count(
            self.width,
            self.height,
            self.channel,
        )
    }

    /// The descriptor of an RGB image with the given samples.
    pub open spec fn rgb(width: u32, height: u32, pixels: Seq<u8>) -> ImageView {
        ImageView { width, height, channel: RGB_CHANNELS, data: Some(pixels) }
    }
}

impl View for SDImageData {
    type V = ImageView;

    open spec fn view(&self) -> ImageView {
        ImageView {
            width: self.width,
            height: self.height,
            channel: self.channel,
            data: match self.data {
                Some(samples) => Some(samples@),
                None => None,
            },
        }
    }
}

/// The views of a list of descriptors.
pub open spec fn image_views(images: Seq<SDImageData>) -> Seq<ImageView> {
    images.map_values(|image: SDImageData| image@)
}

/// An image held by this process: RGB, row by row, at least three samples
/// for each pixel.
#[derive(Debug)]
pub struct RgbImage {
    pub width: u32,
    pub height: u32,
    pub pixels: Vec<u8>,
}

/// An owned RGB image as a mathematical value.
pub struct RgbView {
    pub width: u32,
    pub height: u32,
    pub pixels: Seq<u8>,
}

impl View for RgbImage {
    type V = RgbView;

    open spec fn view(&self) -> RgbView {
        RgbView { width: self.width, height: self.height, pixels: self.pixels@ }
    }
}

/// Whether a buffer of `len` samples holds an RGB image of the given size:
/// three samples for each pixel, where the length of one row of one pixel's
/// height can be counted at all.
pub open spec fn rgb_fits(width: u32, height: u32, len: nat) -> bool {
    RGB_CHANNELS * width <= usize::MAX && sample_count(width, height, RGB_CHANNELS) <= len
}

/// What the engine's reply is as an owned image.
pub open spec fn reply_image(reply: ImageView) -> Option<RgbView> {
    match reply.data {
        Some(samples) if rgb_fits(reply.width, reply.height, samples.len()) => Some(
            RgbView { width: reply.width, height: reply.height, pixels: samples },
        ),
        _ => None,
    }
}

/// Number of samples in a tightly packed buffer, or `None` where that number
/// is more than a buffer can hold.
pub fn buffer_len(width: u32, height: u32, channel: u32) -> (len: Option<usize>)
    ensures
        len == (if sample_count(width, height, channel) <= usize::MAX {
            Some(sample_count(width, height, channel) as usize)
        } else {
            None::<usize>
        }),
{
    let area: u64 = {
        assert(width * height <= u64::MAX) by (nonlinear_arith)
            requires
                width <= u32::MAX,
                height <= u32::MAX,
        ;
        (width as u64) * (height as u64)
    };
    assert(area * channel <= u128::MAX) by (nonlinear_arith)
        requires
            area <= u64::MAX,
            channel <= u32::MAX,
    ;
    let samples: u128 = (area as u128) * (channel as u128);
    if samples <= usize::MAX as u128 {
        Some(samples as usize)
    } else {
        None
    }
}

/// `image::ImageBuffer::from_raw` for RGB pixels of 8 bits, with the buffer
/// handed back by `into_raw`. The image crate multiplies 3 by the width and
/// then by the height, and accepts the buffer exactly when neither product
/// overflows and the buffer is at least that long; it keeps the buffer as it
/// is.
#[verifier::external_body]
fn rgb_buffer_from_raw(width: u32, height: u32, data: Vec<u8>) -> (buffer: Option<Vec<u8>>)
    ensures
        buffer is Some <==> rgb_fits(width, height, data@.len()),
        buffer matches Some(kept) ==> kept@ == data@,
{
    match image::ImageBuffer::<image::Rgb<u8>, Vec<u8>>::from_raw(width, height, data) {
        Some(image) => Some(image.into_raw()),
        None => None,
    }
}

impl SDImageData {
    /// The descriptor of a reply that carries no buffer.
    pub fn null(width: u32, height: u32, channel: u32) -> (image: SDImageData)
        ensures
            image@ == (ImageView { width, height, channel, data: None }),
    {
        SDImageData { width, height, channel, data: None }
    }

    /// Whether the descriptor carries no buffer.
    pub fn is_null(&self) -> (null: bool)
        ensures
            null == (self@.data is None),
    {
        self.data.is_none()
    }

    /// Whether the buffer is there and holds exactly one sample for each
    /// pixel and channel.
    pub fn is_tight(&self) -> (tight: bool)
        ensures
            tight == self@.tight(),
    {
        match &self.data {
            None => false,
            Some(samples) => {
                let held = samples.len();
                match buffer_len(self.width, self.height, self.channel) {
                    Some(len) => held == len,
                    None => false,
                }
            },
        }
    }

    /// Describes a loaded RGB image for the engine. The samples are taken as
    /// they are; a buffer that is not three samples for each pixel is
    /// refused.
    pub fn from_rgb(width: u32, height: u32, pixels: Vec<u8>) -> (image: Option<SDImageData>)
        ensures
            image is Some <==> pixels@.len() == sample_count(width, height, RGB_CHANNELS),
            image matches Some(described) ==> described@ == ImageView::rgb(width, height, pixels@),
    {
        let held = pixels.len();
        match buffer_len(width, height, RGB_CHANNELS) {
            Some(len) => {
                if held == len {
                    Some(SDImageData { width, height, channel: RGB_CHANNELS, data: Some(pixels) })
                } else {
                    None
                }
            },
            None => None,
        }
    }

    /// Takes the engine's reply as an owned RGB image: `None` where the reply
    /// carries no buffer or the buffer is too short for the dimensions.
    pub fn into_rgb(self) -> (image: Option<RgbImage>)
        ensures
            match image {
                Some(owned) => reply_image(self@) == Some(owned@),
                None => reply_image(self@) is None,
            },
    {
        match self.data {
            None => None,
            Some(samples) => {
                match rgb_buffer_from_raw(self.width, self.height, samples) {
                    Some(pixels) => Some(
                        RgbImage { width: self.width, height: self.height, pixels },
                    ),
                    None => None,
                }
            },
        }
    }
}

/// A reply whose buffer is tight and has three samples for each pixel is
/// taken as an image with exactly the samples of the reply.
pub proof fn lemma_tight_rgb_reply_is_kept(reply: ImageView)
    requires
        reply.tight(),
        reply.channel == RGB_CHANNELS,
        RGB_CHANNELS * reply.width <= usize::MAX,
    ensures
        reply_image(reply) == Some(
            RgbView { width: reply.width, height: reply.height, pixels: reply.data->0 },
        ),
{
}

} // verus!
