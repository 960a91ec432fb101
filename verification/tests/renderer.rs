//! Renderer state: resize consistency, dispatch extents, surface-error
//! classification, frame-time accounting.

use ray_tracer::gui_app::GuiApp;
use ray_tracer::layout::scene_buffers;
use ray_tracer::renderer::{classify_surface_error, FrameAction, Renderer, SurfaceError};
use ray_tracer::scene::{Material, Rgb, Scene, Texture};
use ray_tracer::sphere::Sphere;

fn rgb(r: f32, g: f32, b: f32) -> Rgb {
    Rgb { r: r.to_bits(), g: g.to_bits(), b: b.to_bits() }
}

fn example_renderer(width: u32, height: u32) -> Renderer {
    let scene = Scene {
        spheres: vec![Sphere::new(0, 0, (-1.0f32).to_bits(), 0.5f32.to_bits(), 0)],
        materials: vec![Material::Emissive { emit: Texture::new_from_color(rgb(50.0, 0.0, 0.0)) }],
    };
    Renderer::new(scene_buffers(&scene).unwrap(), width, height)
}

/// After a resize from extent A to extent B and back to A, the color
/// target reports extent A again and the scene buffers are untouched.
#[test]
fn resize_round_trip_restores_extent_and_keeps_scene() {
    let mut renderer = example_renderer(800, 600);
    let initial_spheres = renderer.scene.spheres.clone();
    let initial_materials = renderer.scene.materials.clone();
    let initial_textures = renderer.scene.textures.clone();
    let initial_lights = renderer.scene.lights.clone();

    renderer.resize(1024, 768);
    assert_eq!((renderer.color_target.width, renderer.color_target.height), (1024, 768));
    renderer.resize(800, 600);
    assert_eq!((renderer.color_target.width, renderer.color_target.height), (800, 600));

    assert_eq!(renderer.scene.spheres, initial_spheres);
    assert_eq!(renderer.scene.materials, initial_materials);
    assert_eq!(renderer.scene.textures, initial_textures);
    assert_eq!(renderer.scene.lights, initial_lights);
}

/// Every size-dependent object tracks the surface extent through a
/// resize, and the dispatch extent is one work unit per output pixel.
#[test]
fn resize_keeps_resource_graph_consistent() {
    let mut renderer = example_renderer(800, 600);
    assert_eq!(renderer.dispatch_extent(), (800, 600, 1));
    renderer.resize(333, 777);
    assert_eq!((renderer.surface_width, renderer.surface_height), (333, 777));
    assert_eq!((renderer.color_target.width, renderer.color_target.height), (333, 777));
    assert_eq!(
        (renderer.ray_tracing_binding.width, renderer.ray_tracing_binding.height),
        (333, 777)
    );
    assert_eq!((renderer.screen_binding.width, renderer.screen_binding.height), (333, 777));
    assert_eq!(renderer.dispatch_extent(), (333, 777, 1));
}

/// Surface-acquisition failures classify per the error taxonomy: lost
/// resources are rebuilt, out-of-memory is fatal, the rest skip a frame.
#[test]
fn surface_errors_classify_per_taxonomy() {
    assert_eq!(classify_surface_error(SurfaceError::Lost), FrameAction::RebuildSurface);
    assert_eq!(classify_surface_error(SurfaceError::OutOfMemory), FrameAction::Terminate);
    assert_eq!(classify_surface_error(SurfaceError::Outdated), FrameAction::SkipFrame);
    assert_eq!(classify_surface_error(SurfaceError::Timeout), FrameAction::SkipFrame);
}

/// Frame updates feed the ring buffer behind the HUD's averages.
#[test]
fn update_records_frame_times() {
    let mut renderer = example_renderer(800, 600);
    let _hud = GuiApp::new();
    renderer.update(8_000_000);
    renderer.update(8_000_000);
    assert_eq!(renderer.fps_counter.len(), 2);
    assert_eq!(renderer.fps_counter.average_fps(), Some((2, 16_000_000)));
    assert_eq!(renderer.fps_counter.average_frame_time(), Some((16_000_000, 2)));
}
