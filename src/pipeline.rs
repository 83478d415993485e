//! From the bytes of an encoded image to the model's input tensor.
//!
//! Decoding and resampling are done by the `image` crate. The resampling
//! filter is Lanczos3: it changes the numbers the model sees, so it is part of
//! the model's calibration and is fixed here.
use vstd::prelude::*;

use crate::layout::{build_input_tensor, element_count, input_shape_spec, input_tensor, INPUT_CHANNELS, INPUT_HEIGHT, INPUT_WIDTH, PLANE_LEN, TABLE_LEN};

verus! {

#[verifier::external_type_specification]
#[verifier::external_body]
pub struct ExImageError(image::ImageError);

/// A decoded image with three 8-bit channels per pixel, row by row.
pub struct RgbPixels {
    pub width: u32,
    pub height: u32,
    pub data: Vec<u8>,
}

/// What decoding the given bytes as an RGB image yields: its width, height
/// and channel bytes, or nothing where the bytes are no image of a supported
/// format.
pub uninterp spec fn decoded_rgb8(bytes: Seq<u8>) -> Option<(u32, u32, Seq<u8>)>;

/// Relies on `image::load_from_memory` to guess the format and decode the
/// bytes, and on `DynamicImage::to_rgb8` to convert the result to 8-bit RGB.
#[verifier::external_body]
fn decode_rgb8(bytes: &[u8]) -> (r: Result<RgbPixels, image::ImageError>)
    ensures
        match r {
            Ok(img) => {
                &&& decoded_rgb8(bytes@) == Some((img.width, img.height, img.data@))
                &&& img.data@.len() == img.width * img.height * INPUT_CHANNELS
            },
            Err(_) => decoded_rgb8(bytes@) is None,
        },
{
    match image::load_from_memory(bytes) {
        Ok(decoded) => {
            let rgb = decoded.to_rgb8();
            Ok(RgbPixels { width: rgb.width(), height: rgb.height(), data: rgb.into_raw() })
        },
        Err(e) => Err(e),
    }
}

/// Relies on `image::imageops::resize` with `FilterType::Lanczos3`, which
/// returns a buffer of exactly the new size. Its values rest on float sines
/// whose precision varies by platform, so nothing is stated of them.
#[verifier::external_body]
fn resize_rgb8(img: &RgbPixels, new_width: u32, new_height: u32) -> (r: Vec<u8>)
    requires
        img.data@.len() == img.width * img.height * INPUT_CHANNELS,
        new_width * new_height * INPUT_CHANNELS <= usize::MAX,
    ensures
        r@.len() == new_width * new_height * INPUT_CHANNELS,
{
    let buffer: image::RgbImage = image::ImageBuffer::from_raw(img.width, img.height, img.data.clone()).unwrap();
    image::imageops::resize(&buffer, new_width, new_height, image::imageops::FilterType::Lanczos3).into_raw()
}

/// Why an image could not be turned into an input tensor, or a tensor into
/// a classification.
#[derive(Clone, Copy, Debug, PartialEq, Eq, Structural)]
pub enum InferError {
    /// The bytes are not an image of a supported format.
    Decode,
    /// The model could not be run on the tensor.
    Execution,
    /// The model returned no score.
    EmptyOutput,
    /// The model returned a NaN score.
    UnorderedOutput,
}

/// Decodes an encoded image, resizes it to the model's input size and lays
/// it out as the model's input tensor through the normalisation table.
/// Every image that decodes is accepted, whatever its size, and becomes a
/// tensor of the model's declared input shape.
pub fn preprocess(bytes: &[u8], table: &Vec<u32>) -> (r: Result<Vec<u32>, InferError>)
    requires
        table@.len() == TABLE_LEN,
    ensures
        r is Ok <==> decoded_rgb8(bytes@) is Some,
        r matches Err(e) ==> e == InferError::Decode,
        r matches Ok(t) ==> exists|px: Seq<u8>|
            #![trigger input_tensor(px, table@)]
            px.len() == PLANE_LEN * INPUT_CHANNELS && t@ == input_tensor(px, table@),
        r matches Ok(t) ==> t@.len() == element_count(input_shape_spec()),
{
    let img = match decode_rgb8(bytes) {
        Ok(img) => img,
        Err(_) => {
            return Err(InferError::Decode);
        },
    };
    let resized = resize_rgb8(&img, INPUT_WIDTH as u32, INPUT_HEIGHT as u32);
    Ok(build_input_tensor(&resized, table))
}

} // verus!
