//! Images, by the size the host reports for them.
//!
//! Fetching and decoding a picture is host work; the library's part is the
//! outcome: a load either yields a whole image with its size, or an error,
//! never a partially constructed image. The host side performs the load
//! and hands what it observed to [`Image::finish_load`].

use vstd::prelude::*;

verus! {

/// This struct represent an image.
/// It is useful when using the sprite type.
#[derive(Clone, Copy, Debug, PartialEq, Eq, Structural)]
pub struct Image {
    /// The width the host reports for the picture, in pixels.
    pub width: u32,
    /// The height the host reports for the picture, in pixels.
    pub height: u32,
}

/// Why an image load failed: the host reported an error for the source.
#[derive(Clone, Copy, Debug, PartialEq, Eq, Structural)]
pub enum ImageLoadError {
    /// The host fired its error notification for the source instead of
    /// loading it.
    SourceFailed,
}

/// What the host reported when asked to load an image: the loaded
/// picture's size, or failure.
#[derive(Clone, Copy, Debug, PartialEq, Eq, Structural)]
pub enum ImageLoadOutcome {
    /// The picture loaded, with this width and height.
    Loaded(u32, u32),
    /// The host reported an error for the source.
    Failed,
}

impl Image {
    /// Finish an image load from what the host reported: a successful load
    /// yields the whole image with exactly the reported size, a failed one
    /// yields the error and no image.
    pub fn finish_load(outcome: ImageLoadOutcome) -> (r: Result<Image, ImageLoadError>)
        ensures
            match outcome {
                ImageLoadOutcome::Loaded(width, height) => r == Ok::<Image, ImageLoadError>(
                    Image { width, height },
                ),
                ImageLoadOutcome::Failed => r == Err::<Image, ImageLoadError>(
                    ImageLoadError::SourceFailed,
                ),
            },
    {
        match outcome {
            ImageLoadOutcome::Loaded(width, height) => Ok(Image { width, height }),
            ImageLoadOutcome::Failed => Err(ImageLoadError::SourceFailed),
        }
    }

    /// Return the width of the image.
    pub fn get_width(&self) -> (r: u32)
        ensures
            r == self.width,
    {
        self.width
    }

    /// Return the height of the image.
    pub fn get_height(&self) -> (r: u32)
        ensures
            r == self.height,
    {
        self.height
    }

    /// Return a tuple containing width and height.
    pub fn get_size(&self) -> (r: (u32, u32))
        ensures
            r == (self.width, self.height),
    {
        (self.width, self.height)
    }
}

} // verus!
