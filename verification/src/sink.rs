//! The hand-off of decoded images from the capture side to the display
//! side: one slot that always holds the latest image not yet taken.
//!
//! The slot itself knows nothing of threads. Whoever shares it between two
//! of them guards it with a lock, held for one `publish` or one `try_take`
//! and never while an image is converted or uploaded.

use vstd::prelude::*;
use egui::TextureOptions;
use crate::frame::RgbImage;

verus! {

/// egui's `TextureOptions`, which say how a texture is filtered and wrapped.
/// The sink passes them on and never looks inside.
#[verifier::external_type_specification]
#[verifier::external_body]
pub struct ExTextureOptions(TextureOptions);

/// An image on its way to the display, with the options to show it under.
#[derive(Debug, PartialEq)]
pub struct Presentation {
    pub image: RgbImage,
    pub options: TextureOptions,
}

/// A mailbox with room for one image.
pub struct FrameSink {
    slot: Option<RgbImage>,
}

impl FrameSink {
    /// The image that waits to be taken, if there is one.
    pub closed spec fn pending(self) -> Option<RgbImage> {
        self.slot
    }

    /// The sink in which `image` waits, whatever waited before.
    pub closed spec fn after_publish(self, image: RgbImage) -> FrameSink {
        FrameSink { slot: Some(image) }
    }

    /// The sink after its image, if any, was taken.
    pub closed spec fn after_take(self) -> FrameSink {
        FrameSink { slot: None }
    }

    /// An empty sink.
    pub fn new() -> (sink: FrameSink)
        ensures
            sink.pending() is None,
    {
        FrameSink { slot: None }
    }

    /// Puts `image` into the slot. An image that was not taken is replaced
    /// and never seen.
    pub fn publish(&mut self, image: RgbImage)
        ensures
            *final(self) == old(self).after_publish(image),
            final(self).pending() == Some(image),
    {
        self.slot = Some(image);
    }

    /// What a take under `options` hands to the display.
    pub open spec fn handed_over(self, options: TextureOptions) -> Option<Presentation> {
        match self.pending() {
            Some(image) => Some(Presentation { image, options }),
            None => None,
        }
    }

    /// Takes the waiting image out, for the caller to hand to the display
    /// under `options`. Returns `None`, and changes nothing, where no image
    /// waits.
    pub fn try_take(&mut self, options: TextureOptions) -> (handed: Option<Presentation>)
        ensures
            handed == old(self).handed_over(options),
            handed is Some <==> old(self).pending() is Some,
            *final(self) == old(self).after_take(),
            final(self).pending() is None,
    {
        match self.slot.take() {
            Some(image) => Some(Presentation { image, options }),
            None => None,
        }
    }

    /// Tells whether an image waits.
    pub fn has_pending(&self) -> (waiting: bool)
        ensures
            waiting == self.pending() is Some,
    {
        self.slot.is_some()
    }
}

/// Of two images published one after the other with no take in between, the
/// second is the one that the next take returns, and the take after that
/// returns nothing: the first image is never seen.
pub proof fn lemma_latest_image_wins(
    sink: FrameSink,
    first: RgbImage,
    second: RgbImage,
    options: TextureOptions,
)
    ensures
        sink.after_publish(first).after_publish(second).handed_over(options) == Some(
            Presentation { image: second, options },
        ),
        sink.after_publish(first).after_publish(second).after_take().handed_over(options) is None,
        sink.after_publish(first).after_publish(second) == sink.after_publish(second),
{
}

/// A take empties the sink, so the same image is never handed out twice.
pub proof fn lemma_take_once(sink: FrameSink, options: TextureOptions)
    ensures
        sink.after_take().handed_over(options) is None,
        sink.after_take().after_take() == sink.after_take(),
{
}

} // verus!
