use iced_renderer::fallback::{Fallback, Variant};
use iced_renderer::headless::Unsupported;

type Extent = iced_graphics::core::Size<u32>;
type Paint = iced_graphics::core::Color;
type Target = (Extent, f32, Paint);
type Software = Fallback<Hardware, iced_tiny_skia::Renderer>;

fn software() -> Software {
    Fallback::new(
        iced_graphics::core::Font::DEFAULT,
        iced_graphics::core::Pixels(16.0),
    )
}

fn backend() -> iced_tiny_skia::Renderer {
    iced_tiny_skia::Renderer::new(
        iced_graphics::core::Font::DEFAULT,
        iced_graphics::core::Pixels(16.0),
    )
}

fn screenshot(
    backend: &mut iced_tiny_skia::Renderer,
    size: Extent,
    scale_factor: f32,
    background: Paint,
) -> Vec<u8> {
    iced_graphics::core::renderer::Headless::screenshot(backend, size, scale_factor, background)
}

fn name(backend: &iced_tiny_skia::Renderer) -> String {
    iced_graphics::core::renderer::Headless::name(backend)
}

/// A primary backend that can do nothing, to hold the primary variant with.
struct Hardware;

fn capture(backend: &mut iced_tiny_skia::Renderer, target: Target) -> Vec<u8> {
    let (size, scale_factor, background) = target;
    screenshot(backend, size, scale_factor, background)
}

fn white_square() -> Target {
    (Extent::new(100, 100), 1.0, Paint::WHITE)
}

#[test]
fn headless_construction_yields_the_secondary_variant() {
    let dispatcher = software();
    assert_eq!(dispatcher.variant(), Variant::Secondary);
    assert!(matches!(dispatcher, Fallback::Secondary(_)));
}

#[test]
fn headless_construction_hands_font_and_size_to_the_backend() {
    let dispatcher: Software = Fallback::new(
        iced_graphics::core::Font::MONOSPACE,
        iced_graphics::core::Pixels(21.0),
    );
    let (font, size) = dispatcher.forward(
        (),
        |_: &Hardware, _: ()| (iced_graphics::core::Font::DEFAULT, iced_graphics::core::Pixels(0.0)),
        |backend: &iced_tiny_skia::Renderer, _: ()| {
            (
                iced_graphics::core::text::Renderer::default_font(backend),
                iced_graphics::core::text::Renderer::default_size(backend),
            )
        },
    );
    assert_eq!(font, iced_graphics::core::Font::MONOSPACE);
    assert_eq!(size, iced_graphics::core::Pixels(21.0));
}

#[test]
fn a_built_backend_is_held_as_secondary() {
    let built = iced_tiny_skia::Renderer::new(
        iced_graphics::core::Font::MONOSPACE,
        iced_graphics::core::Pixels(9.0),
    );
    let dispatcher: Software = Fallback::headless(built);
    assert_eq!(dispatcher.variant(), Variant::Secondary);
    match dispatcher {
        Fallback::Secondary(backend) => {
            let size = iced_graphics::core::text::Renderer::default_size(&backend);
            assert_eq!(size, iced_graphics::core::Pixels(9.0));
        }
        Fallback::Primary(_) => panic!("the headless path chose the primary backend"),
    }
}

#[test]
fn a_headless_dispatcher_is_never_refused_a_screenshot() {
    let mut dispatcher = software();
    for _ in 0..3 {
        let outcome = dispatcher.try_screenshot(white_square(), capture);
        assert!(outcome.is_ok());
        assert_eq!(dispatcher.variant(), Variant::Secondary);
    }
}

#[test]
fn a_screenshot_on_the_primary_backend_is_a_violation() {
    let mut ran = false;
    let mut dispatcher: Software = Fallback::Primary(Hardware);
    for _ in 0..3 {
        let outcome = dispatcher.try_screenshot(
            white_square(),
            |backend: &mut iced_tiny_skia::Renderer, target: Target| {
                ran = true;
                capture(backend, target)
            },
        );
        assert_eq!(outcome, Err(Unsupported));
        assert_eq!(dispatcher.variant(), Variant::Primary);
    }
    assert!(!ran);
}

#[test]
fn a_white_square_of_a_hundred_pixels_comes_back_as_the_backend_draws_it() {
    let mut dispatcher = software();
    let through = dispatcher.screenshot(white_square(), capture);

    let mut backend = backend();
    let direct = screenshot(&mut backend, Extent::new(100, 100), 1.0, Paint::WHITE);

    assert_eq!(through.len(), 100 * 100 * 4);
    assert_eq!(through, direct);
    assert!(through.iter().all(|byte| *byte == 255));
}

#[test]
fn try_screenshot_gives_the_bytes_that_screenshot_gives() {
    let mut one = software();
    let mut other = software();
    let target: Target = (Extent::new(3, 2), 2.0, Paint::BLACK);
    let tried = one.try_screenshot(target, capture);
    let taken = other.screenshot(target, capture);
    assert_eq!(tried, Ok(taken.clone()));
    assert_eq!(taken.len(), 3 * 2 * 4);
    assert_eq!(taken, [0, 0, 0, 255].repeat(6));
}

#[test]
fn the_name_of_the_backend_passes_through() {
    let dispatcher = software();
    let backend = backend();
    let through = dispatcher.forward(
        (),
        |_: &Hardware, _: ()| String::from("hardware"),
        |backend: &iced_tiny_skia::Renderer, _: ()| name(backend),
    );
    assert_eq!(through, name(&backend));
    assert_eq!(through, "tiny-skia");
}
