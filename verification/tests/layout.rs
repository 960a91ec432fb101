//! Binary layout of the device-visible buffers.

use ray_tracer::encoder::encode_scene;
use ray_tracer::layout::{
    lights_to_bytes, materials_to_bytes, pool_to_bytes, scene_buffers, spheres_to_bytes,
};
use ray_tracer::scene::{Material, Rgb, Scene, Texture};
use ray_tracer::sphere::Sphere;

fn rgb(r: f32, g: f32, b: f32) -> Rgb {
    Rgb { r: r.to_bits(), g: g.to_bits(), b: b.to_bits() }
}

fn sphere(cx: f32, cy: f32, cz: f32, radius: f32, material_idx: u32) -> Sphere {
    Sphere::new(cx.to_bits(), cy.to_bits(), cz.to_bits(), radius.to_bits(), material_idx)
}

fn example_scene() -> Scene {
    Scene {
        spheres: vec![
            sphere(0.0, 0.0, -1.0, 0.5, 0),
            sphere(0.0, -510.0, -1.0, 500.0, 2),
        ],
        materials: vec![
            Material::Lambertian { albedo: Texture::new_from_color(rgb(0.5, 0.7, 0.8)) },
            Material::Checkerboard {
                even: Texture::new_from_color(rgb(0.9, 0.9, 0.9)),
                odd: Texture::new_from_color(rgb(0.1, 0.1, 0.1)),
            },
            Material::Emissive { emit: Texture::new_from_color(rgb(50.0, 0.0, 0.0)) },
        ],
    }
}

/// One sphere serializes to its exact 32-byte little-endian record: the
/// center as a 4-vector with zero fourth component, radius, material
/// index, two words of padding.
#[test]
fn sphere_record_bytes_are_exact() {
    let s = sphere(0.0, 0.0, -1.0, 0.5, 7);
    let bytes = spheres_to_bytes(&vec![s]);
    let mut expected: Vec<u8> = Vec::new();
    expected.extend_from_slice(&0.0f32.to_bits().to_le_bytes());
    expected.extend_from_slice(&0.0f32.to_bits().to_le_bytes());
    expected.extend_from_slice(&(-1.0f32).to_bits().to_le_bytes());
    expected.extend_from_slice(&0u32.to_le_bytes());
    expected.extend_from_slice(&0.5f32.to_bits().to_le_bytes());
    expected.extend_from_slice(&7u32.to_le_bytes());
    expected.extend_from_slice(&0u32.to_le_bytes());
    expected.extend_from_slice(&0u32.to_le_bytes());
    assert_eq!(bytes, expected);
}

/// A packed dielectric material serializes to its exact 32-byte record:
/// discriminant 2, two sentinel descriptors, the refraction index.
#[test]
fn dielectric_material_bytes_are_exact() {
    let scene = Scene {
        spheres: vec![],
        materials: vec![Material::Dielectric { refraction_index: 1.5f32.to_bits() }],
    };
    let encoded = encode_scene(&scene).unwrap();
    let bytes = materials_to_bytes(&encoded.materials);
    let mut expected: Vec<u8> = Vec::new();
    expected.extend_from_slice(&2u32.to_le_bytes());
    for _ in 0..2 {
        expected.extend_from_slice(&0u32.to_le_bytes());
        expected.extend_from_slice(&0u32.to_le_bytes());
        expected.extend_from_slice(&0xffff_ffffu32.to_le_bytes());
    }
    expected.extend_from_slice(&1.5f32.to_bits().to_le_bytes());
    assert_eq!(bytes, expected);
}

/// Buffer strides: 32 bytes per sphere, 32 per material, 12 per pool
/// texel, 4 per light index.
#[test]
fn buffer_strides_are_fixed() {
    let scene = example_scene();
    let buffers = scene_buffers(&scene).unwrap();
    assert_eq!(buffers.spheres.len(), 32 * 2);
    assert_eq!(buffers.materials.len(), 32 * 3);
    assert_eq!(buffers.textures.len(), 12 * 4);
    assert_eq!(buffers.lights.len(), 4 * 1);
}

/// Pool texels and light indices serialize little-endian, in order.
#[test]
fn pool_and_light_bytes_are_exact() {
    let pool = vec![rgb(0.1, 0.2, 0.3)];
    let mut expected: Vec<u8> = Vec::new();
    expected.extend_from_slice(&0.1f32.to_bits().to_le_bytes());
    expected.extend_from_slice(&0.2f32.to_bits().to_le_bytes());
    expected.extend_from_slice(&0.3f32.to_bits().to_le_bytes());
    assert_eq!(pool_to_bytes(&pool), expected);

    assert_eq!(lights_to_bytes(&vec![1u32, 258u32]), vec![1, 0, 0, 0, 2, 1, 0, 0]);
}

/// Encoding the same scene twice yields byte-identical buffers.
#[test]
fn encoding_is_deterministic() {
    let first = scene_buffers(&example_scene()).unwrap();
    let second = scene_buffers(&example_scene()).unwrap();
    assert_eq!(first.spheres, second.spheres);
    assert_eq!(first.materials, second.materials);
    assert_eq!(first.textures, second.textures);
    assert_eq!(first.lights, second.lights);
}

/// The byte buffers agree with the typed encoding serialized piecewise.
#[test]
fn scene_buffers_match_typed_encoding() {
    let scene = example_scene();
    let buffers = scene_buffers(&scene).unwrap();
    let encoded = encode_scene(&scene).unwrap();
    assert_eq!(buffers.spheres, spheres_to_bytes(&scene.spheres));
    assert_eq!(buffers.materials, materials_to_bytes(&encoded.materials));
    assert_eq!(buffers.textures, pool_to_bytes(&encoded.texture_pool));
    assert_eq!(buffers.lights, lights_to_bytes(&encoded.light_indices));
}
