//! Rendering without a window: the dispatcher is built over the software
//! backend, and a screenshot is taken through that backend only.
use crate::fallback::Fallback;
use crate::fallback::Variant;
use crate::fallback::accepts;
use vstd::prelude::*;

verus! {

/// The software renderer of `iced_tiny_skia`. Nothing is known of what it holds.
#[verifier::external_type_specification]
#[verifier::external_body]
pub struct ExSoftwareRenderer(iced_tiny_skia::Renderer);

/// A font of `iced_core`. Nothing is known of what it holds.
#[verifier::external_type_specification]
#[verifier::external_body]
pub struct ExFont(iced_graphics::core::Font);

/// A length in logical pixels of `iced_core`. Nothing is known of what it holds.
#[verifier::external_type_specification]
#[verifier::external_body]
pub struct ExPixels(iced_graphics::core::Pixels);

/// The software renderer that `iced_tiny_skia::Renderer::new` makes from a
/// default font and a default text size.
pub uninterp spec fn fresh_software_renderer(
    default_font: iced_graphics::core::Font,
    default_text_size: iced_graphics::core::Pixels,
) -> iced_tiny_skia::Renderer;

/// Calls `iced_tiny_skia::Renderer::new`. It returns for every font and every
/// size. The renderer that it gives holds the two arguments, one empty layer
/// and empty caches, and so is told by the two arguments alone: that much is
/// claimed, under the name [`fresh_software_renderer`], and nothing of what
/// the renderer holds.
#[verifier::external_body]
fn software_renderer(
    default_font: iced_graphics::core::Font,
    default_text_size: iced_graphics::core::Pixels,
) -> (renderer: iced_tiny_skia::Renderer)
    ensures
        renderer == fresh_software_renderer(default_font, default_text_size),
{
    iced_tiny_skia::Renderer::new(default_font, default_text_size)
}

/// A backend was asked for a capability that it does not have.
///
/// This is a fault of the calling program, not of its input: the headless
/// path never builds a dispatcher that runs into it.
#[derive(Clone, Copy, Debug, PartialEq, Eq, Structural)]
pub struct Unsupported;

impl<A, B> Fallback<A, B> {
    /// Whether the held backend can take a screenshot. The secondary backend
    /// can, the primary backend cannot.
    pub open spec fn supports_screenshot(&self) -> bool {
        match self {
            Fallback::Primary(_) => false,
            Fallback::Secondary(_) => true,
        }
    }
}

impl<A> Fallback<A, iced_tiny_skia::Renderer> {
    /// Builds the headless dispatcher: a new software renderer with the given
    /// default font and text size, held as the secondary backend. The primary
    /// backend is never chosen here, whatever a build enables.
    pub fn new(
        default_font: iced_graphics::core::Font,
        default_text_size: iced_graphics::core::Pixels,
    ) -> (dispatcher: Self)
        ensures
            dispatcher == Fallback::<A, iced_tiny_skia::Renderer>::Secondary(
                fresh_software_renderer(default_font, default_text_size),
            ),
            dispatcher.active() == Variant::Secondary,
    {
        Fallback::headless(software_renderer(default_font, default_text_size))
    }

    /// Builds the headless dispatcher around a software renderer that exists
    /// already. It holds that renderer as the secondary backend.
    pub fn headless(software: iced_tiny_skia::Renderer) -> (dispatcher: Self)
        ensures
            dispatcher == Fallback::<A, iced_tiny_skia::Renderer>::Secondary(software),
    {
        Fallback::Secondary(software)
    }

    /// Takes a screenshot through the software renderer.
    ///
    /// `capture` is the renderer's own screenshot and `target` what it is
    /// asked for: the size in pixels, the scale factor and the background. It
    /// runs on the held renderer with `target` as it is, and the bytes that it
    /// gives are handed back as they are. A dispatcher that holds the primary
    /// backend must not be asked.
    pub fn screenshot<T, G>(&mut self, target: T, capture: G) -> (pixels: Vec<u8>)
        where G: FnOnce(&mut iced_tiny_skia::Renderer, T) -> Vec<u8>
        requires
            old(self).supports_screenshot(),
            *old(self) matches Fallback::Secondary(before) ==> accepts(capture, before, target),
        ensures
            final(self).active() == old(self).active(),
            *old(self) matches Fallback::Secondary(before) ==> exists|
                backend: &mut iced_tiny_skia::Renderer,
            |
                *backend == before && *final(self) == Fallback::<
                    A,
                    iced_tiny_skia::Renderer,
                >::Secondary(*final(backend)) && capture.ensures((backend, target), pixels),
    {
        match self {
            Fallback::Primary(_) => unreached(),
            Fallback::Secondary(backend) => capture(backend, target),
        }
    }

    /// Takes a screenshot if the held backend can, and says so if it cannot.
    ///
    /// On the secondary backend this is [`Fallback::screenshot`]. On the
    /// primary backend `capture` does not run, the dispatcher stays as it is
    /// and the violation is returned.
    pub fn try_screenshot<T, G>(&mut self, target: T, capture: G) -> (outcome: Result<
        Vec<u8>,
        Unsupported,
    >)
        where G: FnOnce(&mut iced_tiny_skia::Renderer, T) -> Vec<u8>
        requires
            *old(self) matches Fallback::Secondary(before) ==> accepts(capture, before, target),
        ensures
            outcome is Ok <==> old(self).supports_screenshot(),
            !old(self).supports_screenshot() ==> outcome == Err::<Vec<u8>, Unsupported>(Unsupported)
                && *final(self) == *old(self),
            final(self).active() == old(self).active(),
            *old(self) matches Fallback::Secondary(before) ==> exists|
                backend: &mut iced_tiny_skia::Renderer,
            |
                *backend == before && *final(self) == Fallback::<
                    A,
                    iced_tiny_skia::Renderer,
                >::Secondary(*final(backend)) && outcome is Ok && capture.ensures(
                    (backend, target),
                    outcome->Ok_0,
                ),
    {
        match self.variant() {
            Variant::Primary => Err(Unsupported),
            Variant::Secondary => Ok(self.screenshot(target, capture)),
        }
    }
}

/// A dispatcher that holds the secondary variant, as every dispatcher that
/// the headless path builds does, is never refused a screenshot.
pub proof fn headless_supports_screenshot<A, B>(dispatcher: Fallback<A, B>)
    requires
        dispatcher.active() == Variant::Secondary,
    ensures
        dispatcher.supports_screenshot(),
{
}

/// A dispatcher that holds the primary variant is refused every screenshot.
pub proof fn primary_lacks_screenshot<A, B>(dispatcher: Fallback<A, B>)
    requires
        dispatcher.active() == Variant::Primary,
    ensures
        !dispatcher.supports_screenshot(),
{
}

} // verus!
