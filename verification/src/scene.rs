//! Host-side scene model — geometry, materials, textures — and the
//! GPU-packed forms derived from it.
//!
//! Color components are linear-space reals held as IEEE-754
//! single-precision bit patterns (`u32`), so that every record the library
//! builds is bit-for-bit the record the compute kernel reads. Decoding an
//! image file into such pixels is I/O and happens outside the library; the
//! constructors here validate and own the result.

use vstd::prelude::*;
use crate::sphere::Sphere;

verus! {

/// One texel: linear-space red, green and blue, each an IEEE-754
/// single-precision bit pattern.
#[derive(Clone, Copy, Debug, PartialEq, Eq, Structural)]
pub struct Rgb {
    pub r: u32,
    pub g: u32,
    pub b: u32,
}

/// Errors of texture construction.
#[derive(Clone, Copy, Debug, PartialEq, Eq, Structural)]
pub enum TextureError {
    /// A dimension was zero; a texture is a non-degenerate grid.
    ZeroDimension,
    /// The pixel data does not hold exactly `width * height` texels.
    DimensionMismatch,
}

/// A 2D grid of texels (width x height, row-major), or a 1x1 grid standing
/// for a constant color. Immutable after construction.
pub struct Texture {
    dimensions: (u32, u32),
    data: Vec<Rgb>,
}

impl Texture {
    pub closed spec fn spec_width(&self) -> u32 {
        self.dimensions.0
    }

    pub closed spec fn spec_height(&self) -> u32 {
        self.dimensions.1
    }

    /// The texel grid, row-major.
    pub closed spec fn texels(&self) -> Seq<Rgb> {
        self.data@
    }

    /// A texture is a non-degenerate grid holding exactly
    /// `width * height` texels.
    #[verifier::type_invariant]
    pub open spec fn wf(self) -> bool {
        &&& 1 <= self.spec_width()
        &&& 1 <= self.spec_height()
        &&& self.texels().len() == self.spec_width() * self.spec_height()
    }

    /// Builds a texture from already-decoded pixel data, checking that the
    /// data agrees with the claimed dimensions.
    pub fn new_from_pixels(width: u32, height: u32, data: Vec<Rgb>) -> (r: Result<
        Self,
        TextureError,
    >)
        ensures
            width == 0 || height == 0 ==> r == Err::<Texture, _>(TextureError::ZeroDimension),
            width >= 1 && height >= 1 && data@.len() != width * height ==> r == Err::<Texture, _>(
                TextureError::DimensionMismatch,
            ),
            width >= 1 && height >= 1 && data@.len() == width * height ==> (r matches Ok(t)
                && t.spec_width() == width && t.spec_height() == height && t.texels() == data@),
    {
        if width == 0 || height == 0 {
            return Err(TextureError::ZeroDimension);
        }
        proof {
            assert((width as u64) * (height as u64) <= u64::MAX) by (nonlinear_arith)
                requires width <= u32::MAX && height <= u32::MAX;
        }
        if data.len() as u64 != (width as u64) * (height as u64) {
            return Err(TextureError::DimensionMismatch);
        }
        Ok(Self { dimensions: (width, height), data })
    }

    /// A 1x1 texture standing for a constant color.
    pub fn new_from_color(color: Rgb) -> (r: Self)
        ensures
            r.spec_width() == 1,
            r.spec_height() == 1,
            r.texels() == seq![color],
    {
        let data = vec![color];
        Self { dimensions: (1u32, 1u32), data }
    }

    pub fn as_slice(&self) -> (r: &[Rgb])
        ensures
            r@ == self.texels(),
    {
        self.data.as_slice()
    }

    pub fn dimensions(&self) -> (r: (u32, u32))
        ensures
            r.0 == self.spec_width(),
            r.1 == self.spec_height(),
    {
        self.dimensions
    }
}

/// A material, referenced by index from spheres. Scalar parameters are
/// IEEE-754 single-precision bit patterns.
pub enum Material {
    Lambertian { albedo: Texture },
    Metal { albedo: Texture, fuzz: u32 },
    Dielectric { refraction_index: u32 },
    Checkerboard { even: Texture, odd: Texture },
    Emissive { emit: Texture },
}

/// Every texture a material carries is well-formed. Construction
/// establishes this for each `Texture`; the pure encoding lemmas take it
/// as their hypothesis.
pub open spec fn material_wf(m: Material) -> bool {
    match m {
        Material::Lambertian { albedo } => albedo.wf(),
        Material::Metal { albedo, .. } => albedo.wf(),
        Material::Dielectric { .. } => true,
        Material::Checkerboard { even, odd } => even.wf() && odd.wf(),
        Material::Emissive { emit } => emit.wf(),
    }
}

pub open spec fn materials_wf(ms: Seq<Material>) -> bool {
    forall|i: int| 0 <= i < ms.len() ==> material_wf(#[trigger] ms[i])
}

/// The scene: an ordered list of spheres and an ordered list of materials.
/// Material indices are assigned by insertion order and are load-bearing;
/// they are never renumbered.
pub struct Scene {
    pub spheres: Vec<Sphere>,
    pub materials: Vec<Material>,
}

/// Every sphere's material index refers into the material list.
pub open spec fn scene_indices_valid(spheres: Seq<Sphere>, materials: Seq<Material>) -> bool {
    forall|i: int| 0 <= i < spheres.len() ==> (#[trigger] spheres[i]).material_idx < materials.len()
}

/// Locates one texture's pixels inside the shared texture pool. The
/// sentinel value (offset all-ones, zero extent) encodes "no texture".
#[derive(Clone, Copy, Debug, PartialEq, Eq, Structural)]
pub struct TextureDescriptor {
    pub width: u32,
    pub height: u32,
    pub offset: u32,
}

impl TextureDescriptor {
    /// The sentinel descriptor for material slots that carry no texture.
    pub open spec fn spec_empty() -> TextureDescriptor {
        TextureDescriptor { width: 0u32, height: 0u32, offset: 0xffff_ffffu32 }
    }

    pub fn empty() -> (r: Self)
        ensures
            r == Self::spec_empty(),
    {
        Self { width: 0u32, height: 0u32, offset: 0xffff_ffffu32 }
    }
}

/// Material-dispatch constants of the compute kernel: the discriminant
/// stored in each packed material record.
pub const LAMBERTIAN_ID: u32 = 0;

pub const METAL_ID: u32 = 1;

pub const DIELECTRIC_ID: u32 = 2;

pub const CHECKERBOARD_ID: u32 = 3;

pub const EMISSIVE_ID: u32 = 4;

/// The fixed-layout, device-visible material record: a discriminant, two
/// texture descriptors and one scalar parameter (an IEEE-754 bit pattern).
/// Slots a variant does not use are zeroed or hold the sentinel
/// descriptor.
#[derive(Clone, Copy, Debug, PartialEq, Eq, Structural)]
pub struct GpuMaterial {
    pub id: u32,
    pub desc1: TextureDescriptor,
    pub desc2: TextureDescriptor,
    pub x: u32,
}

impl GpuMaterial {
    pub fn lambertian(albedo: &Texture, global_texture_data: &mut Vec<Rgb>) -> (r: GpuMaterial)
        requires
            old(global_texture_data)@.len() + albedo.texels().len() <= u32::MAX,
        ensures
            final(global_texture_data)@ == old(global_texture_data)@ + albedo.texels(),
            r == (GpuMaterial {
                id: LAMBERTIAN_ID,
                desc1: TextureDescriptor {
                    width: albedo.spec_width(),
                    height: albedo.spec_height(),
                    offset: old(global_texture_data)@.len() as u32,
                },
                desc2: TextureDescriptor::spec_empty(),
                x: 0u32,
            }),
    {
        GpuMaterial {
            id: LAMBERTIAN_ID,
            desc1: Self::append_to_global_texture_data(albedo, global_texture_data),
            desc2: TextureDescriptor::empty(),
            x: 0u32,
        }
    }

    pub fn metal(albedo: &Texture, fuzz: u32, global_texture_data: &mut Vec<Rgb>) -> (r:
        GpuMaterial)
        requires
            old(global_texture_data)@.len() + albedo.texels().len() <= u32::MAX,
        ensures
            final(global_texture_data)@ == old(global_texture_data)@ + albedo.texels(),
            r == (GpuMaterial {
                id: METAL_ID,
                desc1: TextureDescriptor {
                    width: albedo.spec_width(),
                    height: albedo.spec_height(),
                    offset: old(global_texture_data)@.len() as u32,
                },
                desc2: TextureDescriptor::spec_empty(),
                x: fuzz,
            }),
    {
        GpuMaterial {
            id: METAL_ID,
            desc1: Self::append_to_global_texture_data(albedo, global_texture_data),
            desc2: TextureDescriptor::empty(),
            x: fuzz,
        }
    }

    pub fn dielectric(refraction_index: u32) -> (r: GpuMaterial)
        ensures
            r == (GpuMaterial {
                id: DIELECTRIC_ID,
                desc1: TextureDescriptor::spec_empty(),
                desc2: TextureDescriptor::spec_empty(),
                x: refraction_index,
            }),
    {
        GpuMaterial {
            id: DIELECTRIC_ID,
            desc1: TextureDescriptor::empty(),
            desc2: TextureDescriptor::empty(),
            x: refraction_index,
        }
    }

    /// The first texture handed in fills `desc1`, the second `desc2`, and
    /// their pixels enter the pool in that order.
    pub fn checkerboard(even: &Texture, odd: &Texture, global_texture_data: &mut Vec<Rgb>) -> (r:
        GpuMaterial)
        requires
            old(global_texture_data)@.len() + even.texels().len() + odd.texels().len()
                <= u32::MAX,
        ensures
            final(global_texture_data)@ == old(global_texture_data)@ + even.texels() + odd.texels(),
            r == (GpuMaterial {
                id: CHECKERBOARD_ID,
                desc1: TextureDescriptor {
                    width: even.spec_width(),
                    height: even.spec_height(),
                    offset: old(global_texture_data)@.len() as u32,
                },
                desc2: TextureDescriptor {
                    width: odd.spec_width(),
                    height: odd.spec_height(),
                    offset: (old(global_texture_data)@.len() + even.texels().len()) as u32,
                },
                x: 0u32,
            }),
    {
        GpuMaterial {
            id: CHECKERBOARD_ID,
            desc1: Self::append_to_global_texture_data(even, global_texture_data),
            desc2: Self::append_to_global_texture_data(odd, global_texture_data),
            x: 0u32,
        }
    }

    pub fn emissive(emit: &Texture, global_texture_data: &mut Vec<Rgb>) -> (r: GpuMaterial)
        requires
            old(global_texture_data)@.len() + emit.texels().len() <= u32::MAX,
        ensures
            final(global_texture_data)@ == old(global_texture_data)@ + emit.texels(),
            r == (GpuMaterial {
                id: EMISSIVE_ID,
                desc1: TextureDescriptor {
                    width: emit.spec_width(),
                    height: emit.spec_height(),
                    offset: old(global_texture_data)@.len() as u32,
                },
                desc2: TextureDescriptor::spec_empty(),
                x: 0u32,
            }),
    {
        GpuMaterial {
            id: EMISSIVE_ID,
            desc1: Self::append_to_global_texture_data(emit, global_texture_data),
            desc2: TextureDescriptor::empty(),
            x: 0u32,
        }
    }

    /// Appends one texture's pixels to the shared pool and returns the
    /// descriptor locating them: the extent, and the pool length from
    /// before the append as the offset.
    fn append_to_global_texture_data(texture: &Texture, global_texture_data: &mut Vec<Rgb>) -> (r:
        TextureDescriptor)
        requires
            old(global_texture_data)@.len() + texture.texels().len() <= u32::MAX,
        ensures
            final(global_texture_data)@ == old(global_texture_data)@ + texture.texels(),
            r == (TextureDescriptor {
                width: texture.spec_width(),
                height: texture.spec_height(),
                offset: old(global_texture_data)@.len() as u32,
            }),
    {
        let dimensions = texture.dimensions();
        let offset = global_texture_data.len() as u32;
        let pixels = texture.as_slice();
        let n = pixels.len();
        let mut i: usize = 0;
        while i < n
            invariant
                i <= n,
                n == texture.texels().len(),
                pixels@ == texture.texels(),
                global_texture_data@ == old(global_texture_data)@ + texture.texels().take(i as int),
            decreases n - i,
        {
            global_texture_data.push(pixels[i]);
            i = i + 1;
        }
        proof {
            assert(global_texture_data@ =~= old(global_texture_data)@ + texture.texels());
        }
        TextureDescriptor { width: dimensions.0, height: dimensions.1, offset }
    }
}

} // verus!
