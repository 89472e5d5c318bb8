//! The choice of the renderer's shape, made once per build from the backends
//! that the build enables.
use vstd::prelude::*;

verus! {

/// The two flags of a build. Each turns one backend on, and neither depends
/// on the other.
#[derive(Clone, Copy, Debug, PartialEq, Eq, Structural)]
pub struct Features {
    /// The flag `wgpu`: the hardware-accelerated backend is enabled.
    pub wgpu: bool,
    /// The flag `tiny-skia`: the software backend is enabled.
    pub tiny_skia: bool,
}

/// What a build is made for.
#[derive(Clone, Copy, Debug, PartialEq, Eq, Structural)]
pub enum Profile {
    /// A build for development, which may go without any renderer.
    Development,
    /// A build for distribution, which needs a renderer.
    Distribution,
}

/// The shape that the renderer and the compositor take in a build.
#[derive(Clone, Copy, Debug, PartialEq, Eq, Structural)]
pub enum Shape {
    /// The dispatcher over both backends.
    Fallback,
    /// The hardware-accelerated backend itself, with no dispatcher around it.
    PrimaryOnly,
    /// The software backend itself, with no dispatcher around it.
    SecondaryOnly,
    /// A stand-in that renders nothing and offers no capability.
    Placeholder,
}

/// Why a build has no shape to take.
#[derive(Clone, Copy, Debug, PartialEq, Eq, Structural)]
pub enum ConfigurationError {
    /// A build for distribution enables neither backend.
    NoBackend,
}

/// The outcome that a pair of flags and a profile select.
pub open spec fn selection(features: Features, profile: Profile) -> Result<
    Shape,
    ConfigurationError,
> {
    match (features.wgpu, features.tiny_skia, profile) {
        (true, true, _) => Ok(Shape::Fallback),
        (true, false, _) => Ok(Shape::PrimaryOnly),
        (false, true, _) => Ok(Shape::SecondaryOnly),
        (false, false, Profile::Development) => Ok(Shape::Placeholder),
        (false, false, Profile::Distribution) => Err(ConfigurationError::NoBackend),
    }
}

/// Selects the shape of a build.
///
/// With both flags on it is the dispatcher, with one flag on the backend of
/// that flag. With neither, a build for development gets the placeholder and
/// a build for distribution is refused.
pub fn select(features: Features, profile: Profile) -> (outcome: Result<
    Shape,
    ConfigurationError,
>)
    ensures
        outcome == selection(features, profile),
{
    if features.wgpu {
        if features.tiny_skia {
            Ok(Shape::Fallback)
        } else {
            Ok(Shape::PrimaryOnly)
        }
    } else if features.tiny_skia {
        Ok(Shape::SecondaryOnly)
    } else {
        match profile {
            Profile::Development => Ok(Shape::Placeholder),
            Profile::Distribution => Err(ConfigurationError::NoBackend),
        }
    }
}

/// Every build selects one of five outcomes, and each outcome belongs to
/// the builds of one kind only: the four shapes and the refusal exclude one
/// another, and together they cover every pair of flags under every profile.
pub proof fn outcomes_partition_builds(features: Features, profile: Profile)
    ensures
        selection(features, profile) == Ok::<Shape, ConfigurationError>(Shape::Fallback) <==> (
        features.wgpu && features.tiny_skia),
        selection(features, profile) == Ok::<Shape, ConfigurationError>(Shape::PrimaryOnly) <==> (
        features.wgpu && !features.tiny_skia),
        selection(features, profile) == Ok::<Shape, ConfigurationError>(Shape::SecondaryOnly)
            <==> (!features.wgpu && features.tiny_skia),
        selection(features, profile) == Ok::<Shape, ConfigurationError>(Shape::Placeholder) <==> (
        !features.wgpu && !features.tiny_skia && profile == Profile::Development),
        selection(features, profile) == Err::<Shape, ConfigurationError>(
            ConfigurationError::NoBackend,
        ) <==> (!features.wgpu && !features.tiny_skia && profile == Profile::Distribution),
{
}

/// Whether `word` stands somewhere in `text`.
pub open spec fn mentions(text: Seq<char>, word: Seq<char>) -> bool {
    exists|at: int|
        0 <= at && at + word.len() <= text.len() && #[trigger] text.subrange(
            at,
            at + word.len(),
        ) == word
}

impl ConfigurationError {
    /// The text that tells a user what is wrong with the build.
    pub open spec fn text(&self) -> Seq<char> {
        "Cannot compile `iced_renderer` in release mode without a renderer feature enabled. Enable either the `wgpu` or `tiny-skia` feature, or both."@
    }

    /// The message for the user: it names both flags and asks for one of
    /// them at least.
    pub fn message(&self) -> (message: String)
        ensures
            message@ == self.text(),
    {
        "Cannot compile `iced_renderer` in release mode without a renderer feature enabled. Enable either the `wgpu` or `tiny-skia` feature, or both.".to_owned()
    }
}

/// The message of a refused build names both flags.
pub proof fn message_names_both_flags(error: ConfigurationError)
    ensures
        mentions(error.text(), "wgpu"@),
        mentions(error.text(), "tiny-skia"@),
{
    reveal_strlit(
        "Cannot compile `iced_renderer` in release mode without a renderer feature enabled. Enable either the `wgpu` or `tiny-skia` feature, or both.",
    );
    reveal_strlit("wgpu");
    reveal_strlit("tiny-skia");
    let text = error.text();
    assert(text.subrange(102int, 102int + "wgpu"@.len()) =~= "wgpu"@);
    assert(text.subrange(112int, 112int + "tiny-skia"@.len()) =~= "tiny-skia"@);
}

} // verus!
