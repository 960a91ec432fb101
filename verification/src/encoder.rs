//! The scene encoder: a pure, deterministic transform from the host-side
//! scene model to the device-visible arrays — the packed material array,
//! the flattened global texture pool, and the derived light index array.
//!
//! Materials are encoded in index order; each texture a material carries
//! is appended to the growing pool and located by a descriptor holding the
//! pool length from just before the append. The light index array keeps,
//! in ascending order, the indices of spheres whose material is emissive.

use vstd::prelude::*;
use crate::scene::{
    Material, Rgb, Scene, TextureDescriptor, GpuMaterial, Texture, material_wf, materials_wf,
    scene_indices_valid, LAMBERTIAN_ID, METAL_ID, DIELECTRIC_ID, CHECKERBOARD_ID, EMISSIVE_ID,
};
use crate::sphere::Sphere;

verus! {

/// Errors of scene encoding. A scene that trips one of these is
/// malformed or exceeds what the device-visible layout can address;
/// encoding fails as a whole rather than truncating or wrapping.
#[derive(Clone, Copy, Debug, PartialEq, Eq, Structural)]
pub enum EncodeError {
    /// Some sphere's material index is not a valid index into the
    /// material list.
    MaterialIndexOutOfRange,
    /// The sphere list is too long for light indices to be stored as
    /// 32-bit values.
    TooManySpheres,
    /// The texture pool outgrew what a 32-bit descriptor offset can
    /// address.
    TexturePoolTooLarge,
}

/// The texels one material contributes to the pool, in the order they are
/// appended.
pub open spec fn material_texels(m: Material) -> Seq<Rgb> {
    match m {
        Material::Lambertian { albedo } => albedo.texels(),
        Material::Metal { albedo, .. } => albedo.texels(),
        Material::Dielectric { .. } => Seq::<Rgb>::empty(),
        Material::Checkerboard { even, odd } => odd.texels() + even.texels(),
        Material::Emissive { emit } => emit.texels(),
    }
}

/// The descriptor of a texture whose pixels start at `offset` in the pool.
pub open spec fn spec_descriptor(t: Texture, offset: int) -> TextureDescriptor {
    TextureDescriptor { width: t.spec_width(), height: t.spec_height(), offset: offset as u32 }
}

/// The packed record for one material, given the pool length at the point
/// it is encoded.
pub open spec fn spec_encode_material(m: Material, pool_len: int) -> GpuMaterial {
    match m {
        Material::Lambertian { albedo } => GpuMaterial {
            id: LAMBERTIAN_ID,
            desc1: spec_descriptor(albedo, pool_len),
            desc2: TextureDescriptor::spec_empty(),
            x: 0u32,
        },
        Material::Metal { albedo, fuzz } => GpuMaterial {
            id: METAL_ID,
            desc1: spec_descriptor(albedo, pool_len),
            desc2: TextureDescriptor::spec_empty(),
            x: fuzz,
        },
        Material::Dielectric { refraction_index } => GpuMaterial {
            id: DIELECTRIC_ID,
            desc1: TextureDescriptor::spec_empty(),
            desc2: TextureDescriptor::spec_empty(),
            x: refraction_index,
        },
        // The odd texture fills the first descriptor slot and enters the
        // pool first; the kernel's checker dispatch expects this order.
        Material::Checkerboard { even, odd } => GpuMaterial {
            id: CHECKERBOARD_ID,
            desc1: spec_descriptor(odd, pool_len),
            desc2: spec_descriptor(even, pool_len + odd.texels().len()),
            x: 0u32,
        },
        Material::Emissive { emit } => GpuMaterial {
            id: EMISSIVE_ID,
            desc1: spec_descriptor(emit, pool_len),
            desc2: TextureDescriptor::spec_empty(),
            x: 0u32,
        },
    }
}

/// Total number of texels the materials contribute to the pool.
pub open spec fn spec_pool_size(ms: Seq<Material>) -> int
    decreases ms.len(),
{
    if ms.len() == 0 {
        0
    } else {
        spec_pool_size(ms.drop_last()) + material_texels(ms.last()).len()
    }
}

/// The packed material array and the texture pool, built by walking the
/// material list in index order.
pub open spec fn spec_encode_materials(ms: Seq<Material>) -> (Seq<GpuMaterial>, Seq<Rgb>)
    decreases ms.len(),
{
    if ms.len() == 0 {
        (Seq::<GpuMaterial>::empty(), Seq::<Rgb>::empty())
    } else {
        let prev = spec_encode_materials(ms.drop_last());
        (
            prev.0.push(spec_encode_material(ms.last(), prev.1.len() as int)),
            prev.1 + material_texels(ms.last()),
        )
    }
}

/// Whether the material a sphere resolves to is emissive. False for an
/// out-of-range index.
pub open spec fn is_emissive(materials: Seq<Material>, idx: u32) -> bool {
    idx < materials.len() && materials[idx as int] is Emissive
}

/// The light index array: the indices of spheres whose material is
/// emissive, in ascending sphere order.
pub open spec fn spec_light_indices(spheres: Seq<Sphere>, materials: Seq<Material>) -> Seq<u32>
    decreases spheres.len(),
{
    if spheres.len() == 0 {
        Seq::<u32>::empty()
    } else {
        let prev = spec_light_indices(spheres.drop_last(), materials);
        if is_emissive(materials, spheres.last().material_idx) {
            prev.push((spheres.len() - 1) as u32)
        } else {
            prev
        }
    }
}

/// A scene can be encoded exactly when every sphere's material index is
/// valid and the derived arrays fit their 32-bit addressing.
pub open spec fn scene_encodable(s: Scene) -> bool {
    &&& scene_indices_valid(s.spheres@, s.materials@)
    &&& s.spheres@.len() <= u32::MAX
    &&& spec_pool_size(s.materials@) <= u32::MAX
}

/// Which error a scene that cannot be encoded trips: an invalid material
/// index is reported first, then an oversized sphere list, then an
/// oversized texture pool.
pub open spec fn spec_encode_error(s: Scene) -> EncodeError {
    if !scene_indices_valid(s.spheres@, s.materials@) {
        EncodeError::MaterialIndexOutOfRange
    } else if s.spheres@.len() > u32::MAX {
        EncodeError::TooManySpheres
    } else {
        EncodeError::TexturePoolTooLarge
    }
}

/// The encoded, device-ready form of a scene: one fixed-size record per
/// material, the flattened texture pool, and the light index array.
pub struct EncodedScene {
    pub materials: Vec<GpuMaterial>,
    pub texture_pool: Vec<Rgb>,
    pub light_indices: Vec<u32>,
}

/// The material array is as long as the material list and the pool as
/// long as the materials' total texel count.
pub proof fn lemma_encode_materials_len(ms: Seq<Material>)
    ensures
        spec_encode_materials(ms).0.len() == ms.len(),
        spec_encode_materials(ms).1.len() == spec_pool_size(ms),
    decreases ms.len(),
{
    if ms.len() > 0 {
        lemma_encode_materials_len(ms.drop_last());
    }
}

/// Unfolds one step of the material encoding at index `i`.
proof fn lemma_encode_materials_step(ms: Seq<Material>, i: int)
    requires
        0 <= i < ms.len(),
    ensures
        spec_encode_materials(ms.take(i + 1)).0 == spec_encode_materials(ms.take(i)).0.push(
            spec_encode_material(ms[i], spec_encode_materials(ms.take(i)).1.len() as int),
        ),
        spec_encode_materials(ms.take(i + 1)).1 == spec_encode_materials(ms.take(i)).1
            + material_texels(ms[i]),
        spec_pool_size(ms.take(i + 1)) == spec_pool_size(ms.take(i)) + material_texels(
            ms[i],
        ).len(),
{
    assert(ms.take(i + 1).drop_last() =~= ms.take(i));
    assert(ms.take(i + 1).last() == ms[i]);
}

/// A prefix of the material list never contributes more texels than the
/// whole list.
proof fn lemma_pool_size_prefix(ms: Seq<Material>, j: int)
    requires
        0 <= j <= ms.len(),
    ensures
        spec_pool_size(ms.take(j)) <= spec_pool_size(ms),
    decreases ms.len() - j,
{
    if j == ms.len() {
        assert(ms.take(j) =~= ms);
    } else {
        lemma_encode_materials_step(ms, j);
        lemma_pool_size_prefix(ms, j + 1);
    }
}

/// Unfolds one step of the light index derivation at index `i`.
proof fn lemma_light_indices_step(spheres: Seq<Sphere>, materials: Seq<Material>, i: int)
    requires
        0 <= i < spheres.len(),
    ensures
        spec_light_indices(spheres.take(i + 1), materials) == if is_emissive(
            materials,
            spheres[i].material_idx,
        ) {
            spec_light_indices(spheres.take(i), materials).push(i as u32)
        } else {
            spec_light_indices(spheres.take(i), materials)
        },
{
    assert(spheres.take(i + 1).drop_last() =~= spheres.take(i));
    assert(spheres.take(i + 1).last() == spheres[i]);
}

/// The descriptors one packed material exposes, first slot before second,
/// sentinels skipped.
pub open spec fn material_descriptors(g: GpuMaterial) -> Seq<TextureDescriptor> {
    (if g.desc1 != TextureDescriptor::spec_empty() {
        seq![g.desc1]
    } else {
        Seq::<TextureDescriptor>::empty()
    }) + (if g.desc2 != TextureDescriptor::spec_empty() {
        seq![g.desc2]
    } else {
        Seq::<TextureDescriptor>::empty()
    })
}

/// All non-sentinel descriptors of a packed material array, in emission
/// order.
pub open spec fn collected_descriptors(gs: Seq<GpuMaterial>) -> Seq<TextureDescriptor>
    decreases gs.len(),
{
    if gs.len() == 0 {
        Seq::<TextureDescriptor>::empty()
    } else {
        collected_descriptors(gs.drop_last()) + material_descriptors(gs.last())
    }
}

proof fn lemma_pool_layout_rec(ms: Seq<Material>)
    requires
        materials_wf(ms),
        spec_pool_size(ms) <= u32::MAX,
    ensures
        ({
            let enc = spec_encode_materials(ms);
            let ds = collected_descriptors(enc.0);
            &&& forall|a: int|
                0 <= a < ds.len() ==> 1 <= (#[trigger] ds[a]).width && 1 <= ds[a].height
            &&& forall|a: int|
                0 <= a < ds.len() ==> (#[trigger] ds[a]).offset + ds[a].width * ds[a].height
                    <= enc.1.len()
            &&& forall|a: int, b: int|
                0 <= a < b < ds.len() ==> (#[trigger] ds[a]).offset + ds[a].width * ds[a].height
                    <= (#[trigger] ds[b]).offset
        }),
    decreases ms.len(),
{
    if ms.len() > 0 {
        let pre = ms.drop_last();
        let m = ms.last();
        assert(material_wf(ms[ms.len() - 1]));
        assert(forall|i: int| 0 <= i < pre.len() ==> pre[i] == ms[i]);
        lemma_pool_layout_rec(pre);

        let enc0 = spec_encode_materials(pre);
        let pool0 = enc0.1.len() as int;
        let g = spec_encode_material(m, pool0);
        let enc = spec_encode_materials(ms);
        lemma_encode_materials_len(pre);
        lemma_encode_materials_len(ms);
        assert(enc.0.drop_last() =~= enc0.0);
        assert(enc.0.last() == g);
        let ds0 = collected_descriptors(enc0.0);
        let nd = material_descriptors(g);
        let ds = collected_descriptors(enc.0);
        assert(ds == ds0 + nd);
        // The new descriptors start at the old pool length and end at the
        // new one, slot one before slot two.
        assert(forall|k: int|
            0 <= k < nd.len() ==> 1 <= (#[trigger] nd[k]).width && 1 <= nd[k].height
                && pool0 <= nd[k].offset && nd[k].offset + nd[k].width * nd[k].height
                <= enc.1.len());
        assert(forall|j: int, k: int|
            0 <= j < k < nd.len() ==> (#[trigger] nd[j]).offset + nd[j].width * nd[j].height <= (
            #[trigger] nd[k]).offset);
        assert forall|a: int, b: int| 0 <= a < b < ds.len() implies (#[trigger] ds[a]).offset
            + ds[a].width * ds[a].height <= (#[trigger] ds[b]).offset by {
            if b < ds0.len() {
                assert(ds[a] == ds0[a] && ds[b] == ds0[b]);
            } else if a < ds0.len() {
                assert(ds[a] == ds0[a] && ds[b] == nd[b - ds0.len()]);
            } else {
                assert(ds[a] == nd[a - ds0.len()] && ds[b] == nd[b - ds0.len()]);
            }
        }
        assert forall|a: int| 0 <= a < ds.len() implies 1 <= (#[trigger] ds[a]).width && 1
            <= ds[a].height && ds[a].offset + ds[a].width * ds[a].height <= enc.1.len() by {
            if a < ds0.len() {
                assert(ds[a] == ds0[a]);
                assert(enc0.1.len() <= enc.1.len());
            } else {
                assert(ds[a] == nd[a - ds0.len()]);
            }
        }
    }
}

/// Texture-pool layout: every non-sentinel descriptor of the packed
/// material array locates a block that lies within the pool's bounds;
/// blocks never overlap; and offsets strictly increase in emission order.
pub proof fn lemma_texture_pool_layout(ms: Seq<Material>)
    requires
        materials_wf(ms),
        spec_pool_size(ms) <= u32::MAX,
    ensures
        ({
            let enc = spec_encode_materials(ms);
            let ds = collected_descriptors(enc.0);
            &&& forall|a: int|
                0 <= a < ds.len() ==> 1 <= (#[trigger] ds[a]).width && 1 <= ds[a].height
            &&& forall|a: int|
                0 <= a < ds.len() ==> (#[trigger] ds[a]).offset + ds[a].width * ds[a].height
                    <= enc.1.len()
            &&& forall|a: int, b: int|
                0 <= a < b < ds.len() ==> (#[trigger] ds[a]).offset + ds[a].width * ds[a].height
                    <= (#[trigger] ds[b]).offset
            &&& forall|a: int, b: int|
                0 <= a < b < ds.len() ==> (#[trigger] ds[a]).offset < (#[trigger] ds[b]).offset
        }),
{
    lemma_pool_layout_rec(ms);
    let enc = spec_encode_materials(ms);
    let ds = collected_descriptors(enc.0);
    assert forall|a: int, b: int| 0 <= a < b < ds.len() implies (#[trigger] ds[a]).offset < (
    #[trigger] ds[b]).offset by {
        assert(1 <= ds[a].width * ds[a].height) by (nonlinear_arith)
            requires
                1 <= ds[a].width,
                1 <= ds[a].height,
        ;
    }
}

/// The light index array holds exactly the indices of the spheres whose
/// resolved material is emissive, in strictly ascending sphere order.
pub proof fn lemma_light_indices_exact(spheres: Seq<Sphere>, materials: Seq<Material>)
    requires
        spheres.len() <= u32::MAX,
    ensures
        ({
            let ls = spec_light_indices(spheres, materials);
            &&& forall|a: int, b: int|
                0 <= a < b < ls.len() ==> (#[trigger] ls[a]) < (#[trigger] ls[b])
            &&& forall|a: int|
                0 <= a < ls.len() ==> (#[trigger] ls[a]) < spheres.len() && is_emissive(
                    materials,
                    spheres[ls[a] as int].material_idx,
                )
            &&& forall|i: int|
                0 <= i < spheres.len() && is_emissive(
                    materials,
                    (#[trigger] spheres[i]).material_idx,
                ) ==> ls.contains(i as u32)
        }),
    decreases spheres.len(),
{
    if spheres.len() > 0 {
        let pre = spheres.drop_last();
        let n = spheres.len() - 1;
        assert(forall|i: int| 0 <= i < n ==> pre[i] == spheres[i]);
        lemma_light_indices_exact(pre, materials);
        let ls0 = spec_light_indices(pre, materials);
        let ls = spec_light_indices(spheres, materials);
        assert(spheres.last() == spheres[n]);
        if is_emissive(materials, spheres[n].material_idx) {
            assert(ls == ls0.push(n as u32));
            assert(ls[ls.len() - 1] == n as u32);
            assert(forall|a: int| 0 <= a < ls0.len() ==> ls[a] == ls0[a]);
            assert forall|i: int|
                0 <= i < spheres.len() && is_emissive(
                    materials,
                    (#[trigger] spheres[i]).material_idx,
                ) implies ls.contains(i as u32) by {
                if i < n {
                    assert(ls0.contains(i as u32));
                    let j = choose|j: int| 0 <= j < ls0.len() && ls0[j] == i as u32;
                    assert(ls[j] == i as u32);
                } else {
                    assert(ls[ls.len() - 1] == i as u32);
                }
            }
        } else {
            assert(ls == ls0);
            assert forall|i: int|
                0 <= i < spheres.len() && is_emissive(
                    materials,
                    (#[trigger] spheres[i]).material_idx,
                ) implies ls.contains(i as u32) by {
                assert(i < n);
                assert(ls0.contains(i as u32));
            }
        }
    }
}

/// Encodes a scene into its device-ready arrays. Pure in the scene: equal
/// scenes yield equal (byte-identical, once serialized) results. Fails
/// loudly — with an error, never by truncation — on a sphere whose
/// material index is out of range, or when an array outgrows its 32-bit
/// addressing.
pub fn encode_scene(scene: &Scene) -> (r: Result<EncodedScene, EncodeError>)
    ensures
        r is Ok <==> scene_encodable(*scene),
        !scene_encodable(*scene) ==> r == Err::<EncodedScene, _>(spec_encode_error(*scene)),
        r matches Ok(e) ==> {
            &&& e.materials@ == spec_encode_materials(scene.materials@).0
            &&& e.texture_pool@ == spec_encode_materials(scene.materials@).1
            &&& e.light_indices@ == spec_light_indices(scene.spheres@, scene.materials@)
        },
{
    let n_spheres = scene.spheres.len();
    let n_materials = scene.materials.len();

    // Every sphere must refer into the material list.
    let mut i: usize = 0;
    while i < n_spheres
        invariant
            i <= n_spheres,
            n_spheres == scene.spheres@.len(),
            n_materials == scene.materials@.len(),
            forall|j: int|
                0 <= j < i ==> (#[trigger] scene.spheres@[j]).material_idx
                    < scene.materials@.len(),
        decreases n_spheres - i,
    {
        if scene.spheres[i].material_idx as usize >= n_materials {
            return Err(EncodeError::MaterialIndexOutOfRange);
        }
        i = i + 1;
    }

    if n_spheres as u64 > u32::MAX as u64 {
        return Err(EncodeError::TooManySpheres);
    }

    // Pack the materials in index order, growing the texture pool.
    let mut gpu_materials: Vec<GpuMaterial> = Vec::new();
    let mut pool: Vec<Rgb> = Vec::new();
    let mut m: usize = 0;
    proof {
        assert(scene.materials@.take(0) =~= Seq::<Material>::empty());
    }
    while m < n_materials
        invariant
            m <= n_materials,
            n_materials == scene.materials@.len(),
            scene_indices_valid(scene.spheres@, scene.materials@),
            scene.spheres@.len() <= u32::MAX,
            gpu_materials@ == spec_encode_materials(scene.materials@.take(m as int)).0,
            pool@ == spec_encode_materials(scene.materials@.take(m as int)).1,
            pool@.len() == spec_pool_size(scene.materials@.take(m as int)),
            pool@.len() <= u32::MAX,
        decreases n_materials - m,
    {
        proof {
            lemma_encode_materials_step(scene.materials@, m as int);
        }
        let gpu_material = match &scene.materials[m] {
            Material::Lambertian { albedo } => {
                if pool.len() as u128 + albedo.as_slice().len() as u128 > u32::MAX as u128 {
                    proof {
                        lemma_pool_size_prefix(scene.materials@, m + 1);
                    }
                    return Err(EncodeError::TexturePoolTooLarge);
                }
                GpuMaterial::lambertian(albedo, &mut pool)
            },
            Material::Metal { albedo, fuzz } => {
                if pool.len() as u128 + albedo.as_slice().len() as u128 > u32::MAX as u128 {
                    proof {
                        lemma_pool_size_prefix(scene.materials@, m + 1);
                    }
                    return Err(EncodeError::TexturePoolTooLarge);
                }
                GpuMaterial::metal(albedo, *fuzz, &mut pool)
            },
            Material::Dielectric { refraction_index } => GpuMaterial::dielectric(
                *refraction_index,
            ),
            Material::Checkerboard { even, odd } => {
                if pool.len() as u128 + even.as_slice().len() as u128 + odd.as_slice().len()
                    as u128 > u32::MAX as u128 {
                    proof {
                        lemma_pool_size_prefix(scene.materials@, m + 1);
                    }
                    return Err(EncodeError::TexturePoolTooLarge);
                }
                GpuMaterial::checkerboard(odd, even, &mut pool)
            },
            Material::Emissive { emit } => {
                if pool.len() as u128 + emit.as_slice().len() as u128 > u32::MAX as u128 {
                    proof {
                        lemma_pool_size_prefix(scene.materials@, m + 1);
                    }
                    return Err(EncodeError::TexturePoolTooLarge);
                }
                GpuMaterial::emissive(emit, &mut pool)
            },
        };
        gpu_materials.push(gpu_material);
        m = m + 1;
    }
    proof {
        assert(scene.materials@.take(n_materials as int) =~= scene.materials@);
    }

    // Derive the light index array: spheres whose material is emissive,
    // in ascending sphere order.
    let mut light_indices: Vec<u32> = Vec::new();
    let mut s: usize = 0;
    proof {
        assert(scene.spheres@.take(0) =~= Seq::<Sphere>::empty());
    }
    while s < n_spheres
        invariant
            s <= n_spheres,
            n_spheres == scene.spheres@.len() <= u32::MAX,
            n_materials == scene.materials@.len(),
            scene_indices_valid(scene.spheres@, scene.materials@),
            light_indices@ == spec_light_indices(scene.spheres@.take(s as int), scene.materials@),
        decreases n_spheres - s,
    {
        proof {
            lemma_light_indices_step(scene.spheres@, scene.materials@, s as int);
        }
        let material_idx = scene.spheres[s].material_idx;
        let emissive = match &scene.materials[material_idx as usize] {
            Material::Emissive { .. } => true,
            _ => false,
        };
        if emissive {
            light_indices.push(s as u32);
        }
        s = s + 1;
    }
    proof {
        assert(scene.spheres@.take(n_spheres as int) =~= scene.spheres@);
    }

    Ok(EncodedScene { materials: gpu_materials, texture_pool: pool, light_indices })
}

} // verus!
