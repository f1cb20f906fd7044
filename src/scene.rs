//! The flat output scene, and its assembly from a parsed document and the
//! bytes of its buffers.
use vstd::prelude::*;

use crate::error::{ImportError, ImportErrorType};
use crate::gltf::{self, Accessor, AccessorType, BufferView, ComponentType, Gltf, MeshPrimitive, TextureInfo};
use crate::math::{Vec2, Vec3, Vec4};
use crate::resolve::{
    index_accessor_ok, index_at, read_indices, read_vec2s, read_vec3s, vec2_accessor_ok,
    stride_ok, vec2_values, vec3_accessor_ok, vec3_values, window, window_ok,
};
use crate::text::{is_data_uri, lower_of, lowercase, percent_decode, percent_decoded, text_is};

verus! {

/// The bits of the single-precision `1`.
pub const ONE_F32_BITS: u32 = 0x3F80_0000;

/// One vertex, its single-precision components held as bit patterns.
#[derive(Debug, Clone, Copy, PartialEq, Eq, Structural)]
pub struct Vertex {
    pub position: Vec3,
    pub tex_coord: Vec2,
    pub color: Vec4,
    pub normal: Vec3,
    pub tangent: Vec3,
}

#[derive(Debug)]
pub struct Mesh {
    pub vertices: Vec<Vertex>,
    pub indices: Option<Vec<u32>>,
    pub material: Option<usize>,
}

impl Mesh {
    /// Every index names a vertex, and every vertex position fits an index.
    pub open spec fn wf(&self) -> bool {
        &&& self.vertices@.len() <= u32::MAX
        &&& self.indices is Some ==> forall|i: int|
            0 <= i < self.indices.unwrap()@.len() ==> #[trigger] self.indices.unwrap()@[i]
                < self.vertices@.len()
    }
}

#[derive(Debug, Clone, Copy, PartialEq, Eq, Structural)]
pub enum ImageDataType {
    Unknown,
    Png,
    Jpg,
    Bmp,
    Dds,
}

#[derive(Debug, Clone, Copy, PartialEq, Eq, Structural)]
pub enum AlphaMode {
    Opaque,
    Cutoff,
    Blend,
}

/// Shading parameters. Scalars and colors are double bit patterns, as the
/// document gives them.
#[derive(Debug, Clone, Copy)]
pub struct Material {
    pub albedo_color: [u64; 4],
    pub albedo_texture: Option<usize>,
    pub normal_texture: Option<usize>,
    pub metallic: u64,
    /// The document's combined metallic-roughness texture.
    pub metallic_texture: Option<usize>,
    pub roughness: u64,
    /// The same texture as `metallic_texture`: the format packs both into
    /// one image.
    pub roughness_texture: Option<usize>,
    pub occlusion_texture: Option<usize>,
    pub emissive_texture: Option<usize>,
    pub alpha_mode: AlphaMode,
    pub alpha_cutoff: u64,
    pub double_sided: bool,
}

/// An image: a path relative to the document's directory, not yet loaded.
#[derive(Debug)]
pub struct Image {
    pub path: Option<String>,
    pub data_type: Option<ImageDataType>,
    pub data: Option<Vec<u8>>,
}

#[derive(Debug)]
pub struct Scene {
    pub meshes: Vec<Mesh>,
    pub materials: Option<Vec<Material>>,
    pub images: Option<Vec<Image>>,
}

impl Mesh {
    /// Whether the mesh is well formed.
    pub fn is_wf(&self) -> (r: bool)
        ensures
            r == self.wf(),
    {
        let n = self.vertices.len();
        if n > u32::MAX as usize {
            return false;
        }
        match &self.indices {
            Some(ix) => {
                let mut k: usize = 0;
                while k < ix.len()
                    invariant
                        0 <= k <= ix@.len(),
                        n == self.vertices@.len(),
                        self.indices == Some(*ix),
                        forall|j: int| 0 <= j < k ==> #[trigger] ix@[j] < n,
                    decreases ix.len() - k,
                {
                    if ix[k] as usize >= n {
                        assert(self.indices.unwrap()@[k as int] >= self.vertices@.len());
                        return false;
                    }
                    k = k + 1;
                }
                true
            },
            None => true,
        }
    }
}

impl Scene {
    pub open spec fn wf(&self) -> bool {
        forall|i: int| 0 <= i < self.meshes@.len() ==> (#[trigger] self.meshes@[i]).wf()
    }

    /// Whether every mesh is well formed.
    pub fn is_wf(&self) -> (r: bool)
        ensures
            r == self.wf(),
    {
        let mut m: usize = 0;
        while m < self.meshes.len()
            invariant
                0 <= m <= self.meshes@.len(),
                forall|j: int| 0 <= j < m ==> (#[trigger] self.meshes@[j]).wf(),
            decreases self.meshes.len() - m,
        {
            if !self.meshes[m].is_wf() {
                return false;
            }
            m = m + 1;
        }
        true
    }
}

/// The items of an optional collection; an absent one is empty.
pub open spec fn items<T>(o: Option<Vec<T>>) -> Seq<T> {
    match o {
        Some(v) => v@,
        None => Seq::empty(),
    }
}

/// The accessor at position `idx` of `g`, with the view that holds it.
pub open spec fn accessor_view(g: Gltf, idx: u64) -> Option<(Accessor, BufferView)> {
    let accs = items(g.accessors);
    let views = items(g.buffer_views);
    if idx < accs.len() && accs[idx as int].buffer_view is Some
        && accs[idx as int].buffer_view.unwrap() < views.len() {
        Some((accs[idx as int], views[accs[idx as int].buffer_view.unwrap() as int]))
    } else {
        None
    }
}

/// The accessor of the first attribute whose case-folded name is `name`.
pub open spec fn find_attr(attrs: Seq<(String, u64)>, name: Seq<char>) -> Option<u64>
    decreases attrs.len(),
{
    if attrs.len() == 0 {
        None
    } else if lower_of(attrs[0].0@) == name {
        Some(attrs[0].1)
    } else {
        find_attr(attrs.drop_first(), name)
    }
}

/// Attribute `name` of `p` is absent, or decodes as single-precision triples.
pub open spec fn attr3_ok(g: Gltf, bufs: Seq<Vec<u8>>, p: MeshPrimitive, name: Seq<char>) -> bool {
    match find_attr(p.attributes@, name) {
        Some(idx) => accessor_view(g, idx) is Some && vec3_accessor_ok(
            bufs,
            accessor_view(g, idx).unwrap().1,
            accessor_view(g, idx).unwrap().0,
        ),
        None => true,
    }
}

/// Attribute `name` of `p` is absent, or decodes as single-precision pairs.
pub open spec fn attr2_ok(g: Gltf, bufs: Seq<Vec<u8>>, p: MeshPrimitive, name: Seq<char>) -> bool {
    match find_attr(p.attributes@, name) {
        Some(idx) => accessor_view(g, idx) is Some && vec2_accessor_ok(
            bufs,
            accessor_view(g, idx).unwrap().1,
            accessor_view(g, idx).unwrap().0,
        ),
        None => true,
    }
}

/// The triples of attribute `name` of `p`; `None` where it is absent.
pub open spec fn attr3(g: Gltf, bufs: Seq<Vec<u8>>, p: MeshPrimitive, name: Seq<char>) -> Option<Seq<Vec3>> {
    match find_attr(p.attributes@, name) {
        Some(idx) => Some(
            vec3_values(bufs, accessor_view(g, idx).unwrap().1, accessor_view(g, idx).unwrap().0),
        ),
        None => None,
    }
}

/// The pairs of attribute `name` of `p`; `None` where it is absent.
pub open spec fn attr2(g: Gltf, bufs: Seq<Vec<u8>>, p: MeshPrimitive, name: Seq<char>) -> Option<Seq<Vec2>> {
    match find_attr(p.attributes@, name) {
        Some(idx) => Some(
            vec2_values(bufs, accessor_view(g, idx).unwrap().1, accessor_view(g, idx).unwrap().0),
        ),
        None => None,
    }
}

/// The index accessor of `p` is absent, or decodes.
pub open spec fn indices_ok(g: Gltf, bufs: Seq<Vec<u8>>, p: MeshPrimitive) -> bool {
    match p.indices {
        Some(idx) => accessor_view(g, idx) is Some && index_accessor_ok(
            bufs,
            accessor_view(g, idx).unwrap().1,
            accessor_view(g, idx).unwrap().0,
        ),
        None => true,
    }
}

/// The decoded indices of `p`; `None` where it has none.
pub open spec fn index_values(g: Gltf, bufs: Seq<Vec<u8>>, p: MeshPrimitive) -> Option<Seq<u32>> {
    match p.indices {
        Some(idx) => {
            let (a, v) = accessor_view(g, idx).unwrap();
            Some(
                Seq::new(
                    a.count as nat,
                    |i: int| index_at(bufs[window(v, a).0]@, window(v, a).1, a.component_type, i).unwrap(),
                ),
            )
        },
        None => None,
    }
}

/// The material of `p`, where it names one of `g`.
pub open spec fn material_of(g: Gltf, p: MeshPrimitive) -> Option<usize> {
    match p.material {
        Some(m) => if m < items(g.materials).len() {
            Some(m as usize)
        } else {
            None
        },
        None => None,
    }
}

/// The vertex at position `i` of a primitive with the given attributes.
pub open spec fn vertex_of(
    pos: Seq<Vec3>,
    tex: Option<Seq<Vec2>>,
    nor: Option<Seq<Vec3>>,
    i: int,
) -> Vertex {
    Vertex {
        position: pos[i],
        tex_coord: match tex {
            Some(t) => t[i],
            None => Vec2 { x: 0, y: 0 },
        },
        color: Vec4 { x: ONE_F32_BITS, y: ONE_F32_BITS, z: ONE_F32_BITS, w: ONE_F32_BITS },
        normal: match nor {
            Some(n) => n[i],
            None => Vec3 { x: 0, y: 0, z: 0 },
        },
        tangent: Vec3 { x: 0, y: 0, z: 0 },
    }
}

/// Primitive `p` assembles: its position attribute decodes, its other
/// attributes decode to as many elements, and its indices decode to
/// positions of vertices.
pub open spec fn primitive_ok(g: Gltf, bufs: Seq<Vec<u8>>, p: MeshPrimitive) -> bool {
    let pos = attr3(g, bufs, p, "position"@);
    let tex = attr2(g, bufs, p, "texcoord_0"@);
    let nor = attr3(g, bufs, p, "normal"@);
    &&& find_attr(p.attributes@, "position"@) is Some
    &&& attr3_ok(g, bufs, p, "position"@)
    &&& attr2_ok(g, bufs, p, "texcoord_0"@)
    &&& attr3_ok(g, bufs, p, "normal"@)
    &&& pos.unwrap().len() <= u32::MAX
    &&& tex is Some ==> tex.unwrap().len() == pos.unwrap().len()
    &&& nor is Some ==> nor.unwrap().len() == pos.unwrap().len()
    &&& indices_ok(g, bufs, p)
    &&& index_values(g, bufs, p) is Some ==> forall|i: int|
        0 <= i < index_values(g, bufs, p).unwrap().len() ==> #[trigger] index_values(
            g,
            bufs,
            p,
        ).unwrap()[i] < pos.unwrap().len()
}

/// The kind of error that reading accessor `idx` of `g` fails with:
/// unsupported for an accessor without a view, a format error otherwise.
pub open spec fn accessor_error(g: Gltf, idx: u64) -> ImportErrorType {
    let accs = items(g.accessors);
    if idx < accs.len() && accs[idx as int].buffer_view is None {
        ImportErrorType::Unsupported
    } else {
        ImportErrorType::Format
    }
}

/// The kind of error that attribute `name` of `p`, read as triples, fails
/// with: unsupported for another layout or an interleaving stride.
pub open spec fn attr3_error(g: Gltf, p: MeshPrimitive, name: Seq<char>) -> ImportErrorType {
    let idx = find_attr(p.attributes@, name).unwrap();
    match accessor_view(g, idx) {
        Some((a, v)) => if a.component_type != ComponentType::Float || a.a_type
            != AccessorType::Vec3 || !stride_ok(v, 12) {
            ImportErrorType::Unsupported
        } else {
            ImportErrorType::Format
        },
        None => accessor_error(g, idx),
    }
}

/// The kind of error that attribute `name` of `p`, read as pairs, fails
/// with.
pub open spec fn attr2_error(g: Gltf, p: MeshPrimitive, name: Seq<char>) -> ImportErrorType {
    let idx = find_attr(p.attributes@, name).unwrap();
    match accessor_view(g, idx) {
        Some((a, v)) => if a.component_type != ComponentType::Float || a.a_type
            != AccessorType::Vec2 || !stride_ok(v, 8) {
            ImportErrorType::Unsupported
        } else {
            ImportErrorType::Format
        },
        None => accessor_error(g, idx),
    }
}

/// The kind of error that the indices of `p` fail with: unsupported for
/// float indices.
pub open spec fn index_error(g: Gltf, bufs: Seq<Vec<u8>>, p: MeshPrimitive) -> ImportErrorType {
    let idx = p.indices.unwrap();
    match accessor_view(g, idx) {
        Some((a, v)) => if window_ok(bufs, v, a) && a.component_type == ComponentType::Float {
            ImportErrorType::Unsupported
        } else {
            ImportErrorType::Format
        },
        None => accessor_error(g, idx),
    }
}

/// The kind of error that a primitive which does not assemble fails with,
/// by its first defect: a missing position is a format error; the
/// attributes, then the vertex count, the attribute counts and the indices
/// follow.
pub open spec fn primitive_error(g: Gltf, bufs: Seq<Vec<u8>>, p: MeshPrimitive) -> ImportErrorType {
    let pos = attr3(g, bufs, p, "position"@);
    let tex = attr2(g, bufs, p, "texcoord_0"@);
    let nor = attr3(g, bufs, p, "normal"@);
    if find_attr(p.attributes@, "position"@) is None {
        ImportErrorType::Format
    } else if !attr3_ok(g, bufs, p, "position"@) {
        attr3_error(g, p, "position"@)
    } else if !attr2_ok(g, bufs, p, "texcoord_0"@) {
        attr2_error(g, p, "texcoord_0"@)
    } else if !attr3_ok(g, bufs, p, "normal"@) {
        attr3_error(g, p, "normal"@)
    } else if pos.unwrap().len() > u32::MAX {
        ImportErrorType::Unsupported
    } else if (tex is Some && tex.unwrap().len() != pos.unwrap().len()) || (nor is Some
        && nor.unwrap().len() != pos.unwrap().len()) {
        ImportErrorType::Format
    } else if !indices_ok(g, bufs, p) {
        index_error(g, bufs, p)
    } else {
        ImportErrorType::Format
    }
}

/// Every buffer of `g` names a file.
pub open spec fn buffers_ok(g: Gltf) -> bool {
    forall|i: int| 0 <= i < items(g.buffers).len() ==> #[trigger] buffer_ok(items(g.buffers)[i])
}

/// The kind of error that assembling `g` fails with: unsupported for a
/// buffer without a file; otherwise that of the first primitive that does
/// not assemble; otherwise unsupported, for an image.
pub open spec fn scene_error(g: Gltf, bufs: Seq<Vec<u8>>, kind: ImportErrorType) -> bool {
    let prims = primitives_of(items(g.meshes));
    if !buffers_ok(g) {
        kind == ImportErrorType::Unsupported
    } else {
        (exists|k: int|
            #![trigger prims[k]]
            0 <= k < prims.len() && (forall|t: int| 0 <= t < k ==> primitive_ok(g, bufs, #[trigger] prims[t]))
                && !primitive_ok(g, bufs, prims[k]) && kind == primitive_error(g, bufs, prims[k]))
            || ((forall|t: int| 0 <= t < prims.len() ==> primitive_ok(g, bufs, #[trigger] prims[t]))
            && kind == ImportErrorType::Unsupported)
    }
}

/// The view of optional indices.
pub open spec fn index_seq(o: Option<Vec<u32>>) -> Option<Seq<u32>> {
    match o {
        Some(v) => Some(v@),
        None => None,
    }
}

/// `m` is the mesh that primitive `p` assembles to.
pub open spec fn primitive_assembled(g: Gltf, bufs: Seq<Vec<u8>>, p: MeshPrimitive, m: Mesh) -> bool {
    let pos = attr3(g, bufs, p, "position"@).unwrap();
    let tex = attr2(g, bufs, p, "texcoord_0"@);
    let nor = attr3(g, bufs, p, "normal"@);
    &&& m.vertices@ == Seq::new(pos.len(), |i: int| vertex_of(pos, tex, nor, i))
    &&& index_seq(m.indices) == index_values(g, bufs, p)
    &&& m.material == material_of(g, p)
}

/// The primitives of `meshes`, in order, mesh after mesh.
pub open spec fn primitives_of(meshes: Seq<gltf::Mesh>) -> Seq<MeshPrimitive> {
    meshes.map_values(|m: gltf::Mesh| m.primitives@).flatten()
}

/// The output material for document material `m`.
pub open spec fn material_assembled(m: gltf::Material, out: Material) -> bool {
    let pbr = m.pbr_metallic_roughness;
    &&& pbr is Some ==> out.albedo_color@ == pbr.unwrap().base_color_factor@
    &&& pbr is None ==> out.albedo_color@ == seq![
        crate::math::ONE_BITS,
        crate::math::ONE_BITS,
        crate::math::ONE_BITS,
        crate::math::ONE_BITS,
    ]
    &&& out.albedo_texture == texture_of(if pbr is Some {
        pbr.unwrap().base_color_texture
    } else {
        None
    })
    &&& out.metallic == if pbr is Some {
        pbr.unwrap().metallic_factor
    } else {
        crate::math::ONE_BITS
    }
    &&& out.roughness == if pbr is Some {
        pbr.unwrap().roughness_factor
    } else {
        crate::math::ONE_BITS
    }
    &&& out.metallic_texture == texture_of(if pbr is Some {
        pbr.unwrap().metallic_roughness_texture
    } else {
        None
    })
    &&& out.roughness_texture == out.metallic_texture
    &&& out.normal_texture == texture_of(m.normal_texture)
    &&& out.occlusion_texture == texture_of(m.occlusion_texture)
    &&& out.emissive_texture == texture_of(m.emissive_texture)
    &&& out.alpha_mode == alpha_of(m.alpha_mode)
    &&& out.alpha_cutoff == m.alpha_cutoff
    &&& out.double_sided == m.double_sided
}

/// The texture position a reference names.
pub open spec fn texture_of(t: Option<TextureInfo>) -> Option<usize> {
    match t {
        Some(t) => Some(t.index as usize),
        None => None,
    }
}

/// The output alpha mode: a mask becomes a cutoff.
pub open spec fn alpha_of(m: gltf::AlphaMode) -> AlphaMode {
    match m {
        gltf::AlphaMode::Opaque => AlphaMode::Opaque,
        gltf::AlphaMode::Mask => AlphaMode::Cutoff,
        gltf::AlphaMode::Blend => AlphaMode::Blend,
    }
}

/// Document image `i` is referenced by a URI that is not a `data:` URI.
pub open spec fn image_ok(i: gltf::Image) -> bool {
    i.uri is Some && !(5 <= i.uri.unwrap()@.len() && i.uri.unwrap()@.subrange(0, 5) == seq![
        'd',
        'a',
        't',
        'a',
        ':',
    ])
}

/// The output image for document image `i`: its decoded path, not loaded.
pub open spec fn image_assembled(i: gltf::Image, out: Image) -> bool {
    &&& out.path is Some
    &&& out.path.unwrap()@ == percent_decoded(i.uri.unwrap()@)
    &&& out.data_type is None
    &&& out.data is None
}

fn texture_index(t: &Option<TextureInfo>) -> (r: Option<usize>)
    ensures
        r == texture_of(*t),
{
    match t {
        Some(t) => Some(t.index as usize),
        None => None,
    }
}

/// Finds the first attribute of `attrs` whose case-folded name is `name`.
pub fn find_attribute(attrs: &Vec<(String, u64)>, name: &str) -> (r: Option<u64>)
    ensures
        r == find_attr(attrs@, name@),
{
    let mut i: usize = 0;
    assert(attrs@.subrange(0, attrs@.len() as int) =~= attrs@);
    while i < attrs.len()
        invariant
            0 <= i <= attrs@.len(),
            find_attr(attrs@, name@) == find_attr(attrs@.subrange(i as int, attrs@.len() as int), name@),
        decreases attrs.len() - i,
    {
        let ghost rest = attrs@.subrange(i as int, attrs@.len() as int);
        assert(rest.drop_first() =~= attrs@.subrange(i + 1, attrs@.len() as int));
        assert(rest[0] == attrs@[i as int]);
        let folded = lowercase(attrs[i].0.as_str());
        if text_is(&folded, name) {
            return Some(attrs[i].1);
        }
        i = i + 1;
    }
    None
}

impl Gltf {
    /// The accessor at position `idx`, with its view. A position outside
    /// the collections is a format error; an accessor without a view is
    /// unsupported.
    pub fn accessor_view(&self, idx: u64) -> (r: Result<(&Accessor, &BufferView), ImportError>)
        ensures
            r is Ok <==> accessor_view(*self, idx) is Some,
            r is Ok ==> (*r->Ok_0.0, *r->Ok_0.1) == accessor_view(*self, idx).unwrap(),
            r is Err ==> r->Err_0.e_type == accessor_error(*self, idx),
    {
        let accs = match &self.accessors {
            Some(a) => a,
            None => return Err(ImportError::format("accessors")),
        };
        if idx >= accs.len() as u64 {
            return Err(ImportError::format("accessors"));
        }
        let a = &accs[idx as usize];
        let bv = match a.buffer_view {
            Some(bv) => bv,
            None => return Err(ImportError::unsupported("accessor without bufferView")),
        };
        let views = match &self.buffer_views {
            Some(v) => v,
            None => return Err(ImportError::format("bufferViews")),
        };
        if bv >= views.len() as u64 {
            return Err(ImportError::format("bufferViews"));
        }
        Ok((a, &views[bv as usize]))
    }

    fn read_attr3(&self, bufs: &Vec<Vec<u8>>, p: &MeshPrimitive, name: &str) -> (r: Result<Option<Vec<Vec3>>, ImportError>)
        ensures
            r is Ok <==> attr3_ok(*self, bufs@, *p, name@),
            r is Ok ==> match r->Ok_0 {
                Some(v) => attr3(*self, bufs@, *p, name@) == Some(v@),
                None => attr3(*self, bufs@, *p, name@) is None,
            },
            r is Err ==> r->Err_0.e_type == attr3_error(*self, *p, name@),
    {
        match find_attribute(&p.attributes, name) {
            Some(idx) => {
                let (a, v) = self.accessor_view(idx)?;
                let values = read_vec3s(bufs, v, a)?;
                Ok(Some(values))
            },
            None => Ok(None),
        }
    }

    fn read_attr2(&self, bufs: &Vec<Vec<u8>>, p: &MeshPrimitive, name: &str) -> (r: Result<Option<Vec<Vec2>>, ImportError>)
        ensures
            r is Ok <==> attr2_ok(*self, bufs@, *p, name@),
            r is Ok ==> match r->Ok_0 {
                Some(v) => attr2(*self, bufs@, *p, name@) == Some(v@),
                None => attr2(*self, bufs@, *p, name@) is None,
            },
            r is Err ==> r->Err_0.e_type == attr2_error(*self, *p, name@),
    {
        match find_attribute(&p.attributes, name) {
            Some(idx) => {
                let (a, v) = self.accessor_view(idx)?;
                let values = read_vec2s(bufs, v, a)?;
                Ok(Some(values))
            },
            None => Ok(None),
        }
    }

    fn read_primitive_indices(&self, bufs: &Vec<Vec<u8>>, p: &MeshPrimitive) -> (r: Result<Option<Vec<u32>>, ImportError>)
        ensures
            r is Ok <==> indices_ok(*self, bufs@, *p),
            r is Ok ==> index_seq(r->Ok_0) == index_values(*self, bufs@, *p),
            r is Err ==> r->Err_0.e_type == index_error(*self, bufs@, *p),
    {
        match p.indices {
            Some(idx) => {
                let (a, v) = self.accessor_view(idx)?;
                let values = read_indices(bufs, v, a)?;
                assert(values@ =~= index_values(*self, bufs@, *p).unwrap());
                Ok(Some(values))
            },
            None => Ok(None),
        }
    }

    /// Assembles one primitive into a mesh: one vertex per position, with
    /// its texture coordinate (zero where there are none) and normal (zero
    /// where there are none), opaque white, and a zero tangent. Attributes
    /// of differing counts, and indices past the last vertex, are format
    /// errors.
    pub fn assemble_primitive(&self, bufs: &Vec<Vec<u8>>, p: &MeshPrimitive) -> (r: Result<Mesh, ImportError>)
        ensures
            r is Ok <==> primitive_ok(*self, bufs@, *p),
            r is Ok ==> primitive_assembled(*self, bufs@, *p, r->Ok_0) && r->Ok_0.wf(),
            r is Err ==> r->Err_0.e_type == primitive_error(*self, bufs@, *p),
    {
        let positions = match self.read_attr3(bufs, p, "position")? {
            Some(v) => v,
            None => return Err(ImportError::format("POSITION")),
        };
        let tex_coords = self.read_attr2(bufs, p, "texcoord_0")?;
        let normals = self.read_attr3(bufs, p, "normal")?;
        let n = positions.len();
        if n > u32::MAX as usize {
            return Err(ImportError::unsupported("vertex count"));
        }
        match &tex_coords {
            Some(t) => {
                if t.len() != n {
                    return Err(ImportError::format("TEXCOORD_0 count"));
                }
            },
            None => {},
        }
        match &normals {
            Some(v) => {
                if v.len() != n {
                    return Err(ImportError::format("NORMAL count"));
                }
            },
            None => {},
        }
        let indices = self.read_primitive_indices(bufs, p)?;
        assert(primitive_error(*self, bufs@, *p) == ImportErrorType::Format);
        match &indices {
            Some(ix) => {
                let mut k: usize = 0;
                while k < ix.len()
                    invariant
                        0 <= k <= ix@.len(),
                        primitive_error(*self, bufs@, *p) == ImportErrorType::Format,
                        Some(ix@) == index_values(*self, bufs@, *p),
                        n == attr3(*self, bufs@, *p, "position"@).unwrap().len(),
                        forall|j: int| 0 <= j < k ==> #[trigger] ix@[j] < n,
                    decreases ix.len() - k,
                {
                    if ix[k] as usize >= n {
                        assert(index_values(*self, bufs@, *p).unwrap()[k as int] >= n);
                        return Err(ImportError::format("index out of range"));
                    }
                    k = k + 1;
                }
            },
            None => {},
        }
        let ghost pos = positions@;
        let ghost tex = match &tex_coords {
            Some(t) => Some(t@),
            None => None::<Seq<Vec2>>,
        };
        let ghost nor = match &normals {
            Some(v) => Some(v@),
            None => None::<Seq<Vec3>>,
        };
        let mut vertices: Vec<Vertex> = Vec::new();
        let mut i: usize = 0;
        while i < n
            invariant
                0 <= i <= n,
                n == pos.len(),
                positions@ == pos,
                tex_coords is Some ==> tex == Some(tex_coords.unwrap()@) && tex.unwrap().len() == n,
                tex_coords is None ==> tex is None,
                normals is Some ==> nor == Some(normals.unwrap()@) && nor.unwrap().len() == n,
                normals is None ==> nor is None,
                vertices@ == Seq::new(i as nat, |j: int| vertex_of(pos, tex, nor, j)),
            decreases n - i,
        {
            let tex_coord = match &tex_coords {
                Some(t) => t[i],
                None => Vec2 { x: 0, y: 0 },
            };
            let normal = match &normals {
                Some(v) => v[i],
                None => Vec3 { x: 0, y: 0, z: 0 },
            };
            let vertex = Vertex {
                position: positions[i],
                tex_coord,
                color: Vec4 { x: ONE_F32_BITS, y: ONE_F32_BITS, z: ONE_F32_BITS, w: ONE_F32_BITS },
                normal,
                tangent: Vec3 { x: 0, y: 0, z: 0 },
            };
            vertices.push(vertex);
            i = i + 1;
            assert(vertices@ =~= Seq::new(i as nat, |j: int| vertex_of(pos, tex, nor, j)));
        }
        let material = match p.material {
            Some(m) => {
                let count = match &self.materials {
                    Some(ms) => ms.len(),
                    None => 0,
                };
                if m < count as u64 {
                    Some(m as usize)
                } else {
                    None
                }
            },
            None => None,
        };
        Ok(Mesh { vertices, indices, material })
    }

    /// Converts document material `m` to an output material. Both texture
    /// slots of the output take the document's one metallic-roughness
    /// texture.
    pub fn assemble_material(m: &gltf::Material) -> (r: Material)
        ensures
            material_assembled(*m, r),
    {
        let pbr = match &m.pbr_metallic_roughness {
            Some(p) => *p,
            None => gltf::PbrMetallicRoughness::default_params(),
        };
        let metallic_roughness_texture = texture_index(&pbr.metallic_roughness_texture);
        let alpha_mode = match m.alpha_mode {
            gltf::AlphaMode::Opaque => AlphaMode::Opaque,
            gltf::AlphaMode::Mask => AlphaMode::Cutoff,
            gltf::AlphaMode::Blend => AlphaMode::Blend,
        };
        Material {
            albedo_color: pbr.base_color_factor,
            albedo_texture: texture_index(&pbr.base_color_texture),
            normal_texture: texture_index(&m.normal_texture),
            metallic: pbr.metallic_factor,
            metallic_texture: metallic_roughness_texture,
            roughness: pbr.roughness_factor,
            roughness_texture: metallic_roughness_texture,
            occlusion_texture: texture_index(&m.occlusion_texture),
            emissive_texture: texture_index(&m.emissive_texture),
            alpha_mode,
            alpha_cutoff: m.alpha_cutoff,
            double_sided: m.double_sided,
        }
    }

    /// Converts document image `i` to an output image holding its decoded
    /// path. An image without a URI, or with a `data:` URI, is unsupported.
    pub fn assemble_image(i: &gltf::Image) -> (r: Result<Image, ImportError>)
        ensures
            r is Ok <==> image_ok(*i),
            r is Ok ==> image_assembled(*i, r->Ok_0),
            r is Err ==> r->Err_0.e_type == ImportErrorType::Unsupported,
    {
        match &i.uri {
            Some(uri) => {
                if is_data_uri(uri.as_str()) {
                    return Err(ImportError::unsupported("data URI image"));
                }
                let path = percent_decode(uri.as_str());
                Ok(Image { path: Some(path), data_type: None, data: None })
            },
            None => Err(ImportError::unsupported("image in bufferView")),
        }
    }

    /// The paths, relative to the document's directory, of the files that
    /// hold the buffers, in order. A buffer without a URI (the binary chunk
    /// of a GLB container) or with a `data:` URI is unsupported.
    pub fn buffer_paths(&self) -> (r: Result<Vec<String>, ImportError>)
        ensures
            r is Ok <==> forall|i: int|
                0 <= i < items(self.buffers).len() ==> #[trigger] buffer_ok(items(self.buffers)[i]),
            r is Ok ==> r->Ok_0@.len() == items(self.buffers).len() && forall|i: int|
                0 <= i < r->Ok_0@.len() ==> (#[trigger] r->Ok_0@[i])@ == percent_decoded(
                    items(self.buffers)[i].uri.unwrap()@,
                ),
            r is Err ==> r->Err_0.e_type == ImportErrorType::Unsupported,
    {
        let mut paths: Vec<String> = Vec::new();
        let bufs = match &self.buffers {
            Some(b) => b,
            None => return Ok(paths),
        };
        let mut i: usize = 0;
        while i < bufs.len()
            invariant
                0 <= i <= bufs@.len(),
                items(self.buffers) == bufs@,
                paths@.len() == i,
                forall|j: int| 0 <= j < i ==> #[trigger] buffer_ok(bufs@[j]),
                forall|j: int|
                    0 <= j < i ==> (#[trigger] paths@[j])@ == percent_decoded(bufs@[j].uri.unwrap()@),
            decreases bufs.len() - i,
        {
            match &bufs[i].uri {
                Some(uri) => {
                    if is_data_uri(uri.as_str()) {
                        assert(!buffer_ok(bufs@[i as int]));
                        return Err(ImportError::unsupported("data URI buffer"));
                    }
                    paths.push(percent_decode(uri.as_str()));
                },
                None => {
                    assert(!buffer_ok(bufs@[i as int]));
                    return Err(ImportError::unsupported("GLB buffer"));
                },
            }
            i = i + 1;
        }
        Ok(paths)
    }

    /// Assembles the output scene from the document and the bytes of its
    /// buffers (`bufs[i]` holds buffer `i`). Every primitive of every mesh,
    /// in order, becomes one output mesh; every material and image is
    /// converted. Nothing is returned in part.
    pub fn to_scene(&self, bufs: &Vec<Vec<u8>>) -> (r: Result<Scene, ImportError>)
        ensures
            r is Ok <==> buffers_ok(*self) && scene_ok(*self, bufs@),
            r is Ok ==> scene_assembled(*self, bufs@, r->Ok_0) && r->Ok_0.wf(),
            !buffers_ok(*self) ==> r is Err,
            r is Ok ==> buffers_ok(*self),
            r is Err ==> scene_error(*self, bufs@, r->Err_0.e_type),
    {
        let _paths = self.buffer_paths()?;
        let ghost ms = items(self.meshes);
        let mut meshes: Vec<Mesh> = Vec::new();
        let empty: Vec<gltf::Mesh> = Vec::new();
        let doc_meshes = match &self.meshes {
            Some(m) => m,
            None => &empty,
        };
        assert(doc_meshes@ == ms);
        let mut mi: usize = 0;
        assert(ms.subrange(0, 0).map_values(|m: gltf::Mesh| m.primitives@) =~= Seq::<
            Seq<MeshPrimitive>,
        >::empty());
        while mi < doc_meshes.len()
            invariant
                0 <= mi <= ms.len(),
                buffers_ok(*self),
                doc_meshes@ == ms,
                ms == items(self.meshes),
                meshes@.len() == primitives_of(ms.subrange(0, mi as int)).len(),
                forall|k: int|
                    0 <= k < meshes@.len() ==> primitive_ok(
                        *self,
                        bufs@,
                        #[trigger] primitives_of(ms.subrange(0, mi as int))[k],
                    ),
                forall|k: int|
                    0 <= k < meshes@.len() ==> primitive_assembled(
                        *self,
                        bufs@,
                        primitives_of(ms.subrange(0, mi as int))[k],
                        #[trigger] meshes@[k],
                    ) && meshes@[k].wf(),
            decreases ms.len() - mi,
        {
            let ghost before = primitives_of(ms.subrange(0, mi as int));
            let prims = &doc_meshes[mi].primitives;
            let mut pi: usize = 0;
            while pi < prims.len()
                invariant
                    0 <= pi <= prims@.len(),
                    mi < ms.len(),
                    buffers_ok(*self),
                    doc_meshes@ == ms,
                    ms == items(self.meshes),
                    before == primitives_of(ms.subrange(0, mi as int)),
                    prims@ == ms[mi as int].primitives@,
                    meshes@.len() == before.len() + pi,
                    forall|k: int|
                        0 <= k < meshes@.len() ==> primitive_ok(
                            *self,
                            bufs@,
                            #[trigger] (before + prims@)[k],
                        ),
                    forall|k: int|
                        0 <= k < meshes@.len() ==> primitive_assembled(
                            *self,
                            bufs@,
                            (before + prims@)[k],
                            #[trigger] meshes@[k],
                        ) && meshes@[k].wf(),
                decreases prims.len() - pi,
            {
                match self.assemble_primitive(bufs, &prims[pi]) {
                    Ok(m) => {
                        meshes.push(m);
                    },
                    Err(e) => {
                        proof {
                            lemma_primitives_step(ms, mi as int);
                            lemma_primitives_prefix(ms, mi as int + 1);
                            let k = before.len() + pi;
                            assert((before + prims@)[k] == prims@[pi as int]);
                            assert(primitives_of(ms.subrange(0, mi as int + 1))[k] == prims@[pi as int]);
                            assert(primitives_of(ms)[k] == prims@[pi as int]);
                            assert(!primitive_ok(*self, bufs@, primitives_of(ms)[k]));
                            assert forall|t: int| 0 <= t < k implies primitive_ok(
                                *self,
                                bufs@,
                                #[trigger] primitives_of(ms)[t],
                            ) by {
                                assert(primitives_of(ms.subrange(0, mi as int + 1))[t] == (before
                                    + prims@)[t]);
                            }
                            assert(buffers_ok(*self));
                        }
                        return Err(e);
                    },
                }
                pi = pi + 1;
            }
            proof {
                lemma_primitives_step(ms, mi as int);
            }
            mi = mi + 1;
        }
        assert(ms.subrange(0, ms.len() as int) =~= ms);
        let materials = match &self.materials {
            Some(doc) => {
                let mut out: Vec<Material> = Vec::new();
                let mut i: usize = 0;
                while i < doc.len()
                    invariant
                        0 <= i <= doc@.len(),
                        out@.len() == i,
                        forall|j: int| 0 <= j < i ==> material_assembled(doc@[j], #[trigger] out@[j]),
                    decreases doc.len() - i,
                {
                    out.push(Gltf::assemble_material(&doc[i]));
                    i = i + 1;
                }
                Some(out)
            },
            None => None,
        };
        let images = match &self.images {
            Some(doc) => {
                let mut out: Vec<Image> = Vec::new();
                let mut i: usize = 0;
                while i < doc.len()
                    invariant
                        0 <= i <= doc@.len(),
                        self.images == Some(*doc),
                        buffers_ok(*self),
                        forall|t: int|
                            0 <= t < primitives_of(items(self.meshes)).len() ==> primitive_ok(
                                *self,
                                bufs@,
                                #[trigger] primitives_of(items(self.meshes))[t],
                            ),
                        out@.len() == i,
                        forall|j: int| 0 <= j < i ==> #[trigger] image_ok(doc@[j]),
                        forall|j: int| 0 <= j < i ==> image_assembled(doc@[j], #[trigger] out@[j]),
                    decreases doc.len() - i,
                {
                    match Gltf::assemble_image(&doc[i]) {
                        Ok(img) => out.push(img),
                        Err(e) => {
                            assert(items(self.images)[i as int] == doc@[i as int]);
                            assert(!image_ok(items(self.images)[i as int]));
                            return Err(e);
                        },
                    }
                    i = i + 1;
                }
                Some(out)
            },
            None => None,
        };
        let scene = Scene { meshes, materials, images };
        assert(scene.wf());
        Ok(scene)
    }
}

/// Document buffer `b` names a file that holds its bytes.
pub open spec fn buffer_ok(b: gltf::Buffer) -> bool {
    b.uri is Some && !(5 <= b.uri.unwrap()@.len() && b.uri.unwrap()@.subrange(0, 5) == seq![
        'd',
        'a',
        't',
        'a',
        ':',
    ])
}

/// Every primitive, material and image of `g` assembles.
pub open spec fn scene_ok(g: Gltf, bufs: Seq<Vec<u8>>) -> bool {
    &&& forall|k: int|
        0 <= k < primitives_of(items(g.meshes)).len() ==> primitive_ok(
            g,
            bufs,
            #[trigger] primitives_of(items(g.meshes))[k],
        )
    &&& forall|j: int| 0 <= j < items(g.images).len() ==> #[trigger] image_ok(items(g.images)[j])
}

/// `s` is the scene that `g` assembles to.
pub open spec fn scene_assembled(g: Gltf, bufs: Seq<Vec<u8>>, s: Scene) -> bool {
    let prims = primitives_of(items(g.meshes));
    &&& s.meshes@.len() == prims.len()
    &&& forall|k: int|
        0 <= k < prims.len() ==> primitive_assembled(g, bufs, prims[k], #[trigger] s.meshes@[k])
    &&& (s.materials is Some <==> g.materials is Some)
    &&& s.materials is Some ==> s.materials.unwrap()@.len() == g.materials.unwrap()@.len() && forall|
        j: int,
    |
        0 <= j < s.materials.unwrap()@.len() ==> material_assembled(
            g.materials.unwrap()@[j],
            #[trigger] s.materials.unwrap()@[j],
        )
    &&& (s.images is Some <==> g.images is Some)
    &&& s.images is Some ==> s.images.unwrap()@.len() == g.images.unwrap()@.len() && forall|j: int|
        0 <= j < s.images.unwrap()@.len() ==> image_assembled(
            g.images.unwrap()@[j],
            #[trigger] s.images.unwrap()@[j],
        )
}

/// The primitives of the first `mi + 1` meshes are those of the first `mi`,
/// then those of mesh `mi`.
pub proof fn lemma_primitives_step(ms: Seq<gltf::Mesh>, mi: int)
    requires
        0 <= mi < ms.len(),
    ensures
        primitives_of(ms.subrange(0, mi + 1)) == primitives_of(ms.subrange(0, mi))
            + ms[mi].primitives@,
{
    let f = |m: gltf::Mesh| m.primitives@;
    assert(ms.subrange(0, mi + 1).map_values(f) =~= ms.subrange(0, mi).map_values(f).push(
        ms[mi].primitives@,
    ));
    ms.subrange(0, mi).map_values(f).lemma_flatten_push(ms[mi].primitives@);
}

/// The primitives of a prefix of `ms` are a prefix of those of `ms`.
pub proof fn lemma_primitives_prefix(ms: Seq<gltf::Mesh>, n: int)
    requires
        0 <= n <= ms.len(),
    ensures
        primitives_of(ms.subrange(0, n)).len() <= primitives_of(ms).len(),
        forall|k: int|
            0 <= k < primitives_of(ms.subrange(0, n)).len() ==> #[trigger] primitives_of(
                ms.subrange(0, n),
            )[k] == primitives_of(ms)[k],
    decreases ms.len() - n,
{
    if n < ms.len() {
        lemma_primitives_step(ms, n);
        lemma_primitives_prefix(ms, n + 1);
        assert forall|k: int| 0 <= k < primitives_of(ms.subrange(0, n)).len() implies #[trigger] primitives_of(
            ms.subrange(0, n),
        )[k] == primitives_of(ms)[k] by {
            assert(primitives_of(ms.subrange(0, n + 1))[k] == primitives_of(ms.subrange(0, n))[k]);
        }
    } else {
        assert(ms.subrange(0, n) =~= ms);
    }
}

} // verus!
