//! Binary layout of the device-visible buffers: the little-endian byte
//! image of each encoded array, exactly as the compute kernel reads it.
//!
//! Strides are fixed: 32 bytes per sphere record (a multiple of the
//! required 16-byte storage-buffer element stride), 32 bytes per packed
//! material, 12 bytes per pool texel, 4 bytes per light index.

use vstd::prelude::*;
use vstd::bytes::{spec_u32_to_le_bytes, u32_to_le_bytes};
use crate::scene::{Rgb, Scene, TextureDescriptor, GpuMaterial};
use crate::sphere::Sphere;
use crate::encoder::{
    EncodeError, encode_scene, scene_encodable, spec_encode_error, spec_encode_materials,
    spec_light_indices,
};

verus! {

/// The 32-byte record of one sphere: the center as a 4-component vector
/// (fourth component zero), the radius, the material index, and two words
/// of padding.
pub open spec fn spec_sphere_bytes(s: Sphere) -> Seq<u8> {
    spec_u32_to_le_bytes(s.center_x) + spec_u32_to_le_bytes(s.center_y) + spec_u32_to_le_bytes(
        s.center_z,
    ) + spec_u32_to_le_bytes(0u32) + spec_u32_to_le_bytes(s.radius) + spec_u32_to_le_bytes(
        s.material_idx,
    ) + spec_u32_to_le_bytes(0u32) + spec_u32_to_le_bytes(0u32)
}

pub open spec fn spec_spheres_bytes(ss: Seq<Sphere>) -> Seq<u8>
    decreases ss.len(),
{
    if ss.len() == 0 {
        Seq::<u8>::empty()
    } else {
        spec_spheres_bytes(ss.drop_last()) + spec_sphere_bytes(ss.last())
    }
}

/// The 12-byte image of one texture descriptor: width, height, offset.
pub open spec fn spec_descriptor_bytes(d: TextureDescriptor) -> Seq<u8> {
    spec_u32_to_le_bytes(d.width) + spec_u32_to_le_bytes(d.height) + spec_u32_to_le_bytes(d.offset)
}

/// The 32-byte record of one packed material: the discriminant, both
/// descriptors, and the scalar parameter.
pub open spec fn spec_gpu_material_bytes(g: GpuMaterial) -> Seq<u8> {
    spec_u32_to_le_bytes(g.id) + spec_descriptor_bytes(g.desc1) + spec_descriptor_bytes(g.desc2)
        + spec_u32_to_le_bytes(g.x)
}

pub open spec fn spec_materials_bytes(gs: Seq<GpuMaterial>) -> Seq<u8>
    decreases gs.len(),
{
    if gs.len() == 0 {
        Seq::<u8>::empty()
    } else {
        spec_materials_bytes(gs.drop_last()) + spec_gpu_material_bytes(gs.last())
    }
}

/// The 12-byte image of one pool texel.
pub open spec fn spec_rgb_bytes(p: Rgb) -> Seq<u8> {
    spec_u32_to_le_bytes(p.r) + spec_u32_to_le_bytes(p.g) + spec_u32_to_le_bytes(p.b)
}

pub open spec fn spec_pool_bytes(ps: Seq<Rgb>) -> Seq<u8>
    decreases ps.len(),
{
    if ps.len() == 0 {
        Seq::<u8>::empty()
    } else {
        spec_pool_bytes(ps.drop_last()) + spec_rgb_bytes(ps.last())
    }
}

pub open spec fn spec_lights_bytes(ls: Seq<u32>) -> Seq<u8>
    decreases ls.len(),
{
    if ls.len() == 0 {
        Seq::<u8>::empty()
    } else {
        spec_lights_bytes(ls.drop_last()) + spec_u32_to_le_bytes(ls.last())
    }
}

/// Sphere records have a fixed 32-byte stride.
pub proof fn lemma_spheres_bytes_len(ss: Seq<Sphere>)
    ensures
        spec_spheres_bytes(ss).len() == 32 * ss.len(),
    decreases ss.len(),
{
    vstd::bytes::lemma_auto_spec_u32_to_from_le_bytes();
    if ss.len() > 0 {
        lemma_spheres_bytes_len(ss.drop_last());
    }
}

/// Packed material records have a fixed 32-byte stride.
pub proof fn lemma_materials_bytes_len(gs: Seq<GpuMaterial>)
    ensures
        spec_materials_bytes(gs).len() == 32 * gs.len(),
    decreases gs.len(),
{
    vstd::bytes::lemma_auto_spec_u32_to_from_le_bytes();
    if gs.len() > 0 {
        lemma_materials_bytes_len(gs.drop_last());
    }
}

/// Pool texels have a fixed 12-byte stride.
pub proof fn lemma_pool_bytes_len(ps: Seq<Rgb>)
    ensures
        spec_pool_bytes(ps).len() == 12 * ps.len(),
    decreases ps.len(),
{
    vstd::bytes::lemma_auto_spec_u32_to_from_le_bytes();
    if ps.len() > 0 {
        lemma_pool_bytes_len(ps.drop_last());
    }
}

/// Light indices have a fixed 4-byte stride.
pub proof fn lemma_lights_bytes_len(ls: Seq<u32>)
    ensures
        spec_lights_bytes(ls).len() == 4 * ls.len(),
    decreases ls.len(),
{
    vstd::bytes::lemma_auto_spec_u32_to_from_le_bytes();
    if ls.len() > 0 {
        lemma_lights_bytes_len(ls.drop_last());
    }
}

/// Encoding is deterministic: scenes with equal sphere and material lists
/// yield byte-identical sphere, material, texture-pool and light-index
/// buffers.
pub proof fn lemma_encode_deterministic(s1: Scene, s2: Scene)
    requires
        s1.spheres@ == s2.spheres@,
        s1.materials@ == s2.materials@,
    ensures
        spec_spheres_bytes(s1.spheres@) == spec_spheres_bytes(s2.spheres@),
        spec_materials_bytes(spec_encode_materials(s1.materials@).0) == spec_materials_bytes(
            spec_encode_materials(s2.materials@).0,
        ),
        spec_pool_bytes(spec_encode_materials(s1.materials@).1) == spec_pool_bytes(
            spec_encode_materials(s2.materials@).1,
        ),
        spec_lights_bytes(spec_light_indices(s1.spheres@, s1.materials@)) == spec_lights_bytes(
            spec_light_indices(s2.spheres@, s2.materials@),
        ),
{
}

fn push_u32_le(out: &mut Vec<u8>, x: u32)
    ensures
        final(out)@ == old(out)@ + spec_u32_to_le_bytes(x),
{
    let mut b = u32_to_le_bytes(x);
    out.append(&mut b);
}

pub fn spheres_to_bytes(spheres: &Vec<Sphere>) -> (r: Vec<u8>)
    ensures
        r@ == spec_spheres_bytes(spheres@),
{
    let n = spheres.len();
    let mut out: Vec<u8> = Vec::new();
    let mut i: usize = 0;
    proof {
        assert(spheres@.take(0) =~= Seq::<Sphere>::empty());
    }
    while i < n
        invariant
            i <= n,
            n == spheres@.len(),
            out@ == spec_spheres_bytes(spheres@.take(i as int)),
        decreases n - i,
    {
        proof {
            assert(spheres@.take(i + 1).drop_last() =~= spheres@.take(i as int));
            assert(spheres@.take(i + 1).last() == spheres@[i as int]);
        }
        let s = spheres[i];
        push_u32_le(&mut out, s.center_x);
        push_u32_le(&mut out, s.center_y);
        push_u32_le(&mut out, s.center_z);
        push_u32_le(&mut out, 0u32);
        push_u32_le(&mut out, s.radius);
        push_u32_le(&mut out, s.material_idx);
        push_u32_le(&mut out, 0u32);
        push_u32_le(&mut out, 0u32);
        i = i + 1;
    }
    proof {
        assert(spheres@.take(n as int) =~= spheres@);
    }
    out
}

fn push_descriptor(out: &mut Vec<u8>, d: TextureDescriptor)
    ensures
        final(out)@ == old(out)@ + spec_descriptor_bytes(d),
{
    push_u32_le(out, d.width);
    push_u32_le(out, d.height);
    push_u32_le(out, d.offset);
}

pub fn materials_to_bytes(materials: &Vec<GpuMaterial>) -> (r: Vec<u8>)
    ensures
        r@ == spec_materials_bytes(materials@),
{
    let n = materials.len();
    let mut out: Vec<u8> = Vec::new();
    let mut i: usize = 0;
    proof {
        assert(materials@.take(0) =~= Seq::<GpuMaterial>::empty());
    }
    while i < n
        invariant
            i <= n,
            n == materials@.len(),
            out@ == spec_materials_bytes(materials@.take(i as int)),
        decreases n - i,
    {
        proof {
            assert(materials@.take(i + 1).drop_last() =~= materials@.take(i as int));
            assert(materials@.take(i + 1).last() == materials@[i as int]);
        }
        let g = materials[i];
        push_u32_le(&mut out, g.id);
        push_descriptor(&mut out, g.desc1);
        push_descriptor(&mut out, g.desc2);
        push_u32_le(&mut out, g.x);
        i = i + 1;
    }
    proof {
        assert(materials@.take(n as int) =~= materials@);
    }
    out
}

pub fn pool_to_bytes(pool: &Vec<Rgb>) -> (r: Vec<u8>)
    ensures
        r@ == spec_pool_bytes(pool@),
{
    let n = pool.len();
    let mut out: Vec<u8> = Vec::new();
    let mut i: usize = 0;
    proof {
        assert(pool@.take(0) =~= Seq::<Rgb>::empty());
    }
    while i < n
        invariant
            i <= n,
            n == pool@.len(),
            out@ == spec_pool_bytes(pool@.take(i as int)),
        decreases n - i,
    {
        proof {
            assert(pool@.take(i + 1).drop_last() =~= pool@.take(i as int));
            assert(pool@.take(i + 1).last() == pool@[i as int]);
        }
        let p = pool[i];
        push_u32_le(&mut out, p.r);
        push_u32_le(&mut out, p.g);
        push_u32_le(&mut out, p.b);
        i = i + 1;
    }
    proof {
        assert(pool@.take(n as int) =~= pool@);
    }
    out
}

pub fn lights_to_bytes(lights: &Vec<u32>) -> (r: Vec<u8>)
    ensures
        r@ == spec_lights_bytes(lights@),
{
    let n = lights.len();
    let mut out: Vec<u8> = Vec::new();
    let mut i: usize = 0;
    proof {
        assert(lights@.take(0) =~= Seq::<u32>::empty());
    }
    while i < n
        invariant
            i <= n,
            n == lights@.len(),
            out@ == spec_lights_bytes(lights@.take(i as int)),
        decreases n - i,
    {
        proof {
            assert(lights@.take(i + 1).drop_last() =~= lights@.take(i as int));
            assert(lights@.take(i + 1).last() == lights@[i as int]);
        }
        push_u32_le(&mut out, lights[i]);
        i = i + 1;
    }
    proof {
        assert(lights@.take(n as int) =~= lights@);
    }
    out
}

/// The four device-visible byte buffers of an encoded scene, exactly as
/// they are uploaded: sphere array, packed material array, flattened
/// texture pool, light index array.
pub struct SceneBuffers {
    pub spheres: Vec<u8>,
    pub materials: Vec<u8>,
    pub textures: Vec<u8>,
    pub lights: Vec<u8>,
}

/// Encodes a scene and lays the result out as the four byte buffers the
/// device consumes. Created once at startup; resizes never touch them.
pub fn scene_buffers(scene: &Scene) -> (r: Result<SceneBuffers, EncodeError>)
    ensures
        r is Ok <==> scene_encodable(*scene),
        !scene_encodable(*scene) ==> r == Err::<SceneBuffers, _>(spec_encode_error(*scene)),
        r matches Ok(b) ==> {
            &&& b.spheres@ == spec_spheres_bytes(scene.spheres@)
            &&& b.materials@ == spec_materials_bytes(spec_encode_materials(scene.materials@).0)
            &&& b.textures@ == spec_pool_bytes(spec_encode_materials(scene.materials@).1)
            &&& b.lights@ == spec_lights_bytes(
                spec_light_indices(scene.spheres@, scene.materials@),
            )
        },
{
    match encode_scene(scene) {
        Err(e) => Err(e),
        Ok(encoded) => Ok(
            SceneBuffers {
                spheres: spheres_to_bytes(&scene.spheres),
                materials: materials_to_bytes(&encoded.materials),
                textures: pool_to_bytes(&encoded.texture_pool),
                lights: lights_to_bytes(&encoded.light_indices),
            },
        ),
    }
}

} // verus!
