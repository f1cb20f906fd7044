//! Cross-references of a glTF document: every index that names an entity
//! of a sibling collection lies inside that collection.
use vstd::prelude::*;

use crate::error::{ImportError, ImportErrorType};
use crate::fields::{fault, names, opt_u64_list, u64_items, u64_list_ok, Fault};
use crate::json::{
    as_array, as_object, as_u64, get, member, opt_u64, to_array, to_object, to_u64, JsonValue,
};

verus! {

/// The items of the array member `k` of `j`; none where it is absent.
pub open spec fn elems(j: JsonValue, k: Seq<char>) -> Seq<JsonValue> {
    match member(j, k) {
        Some(x) => match as_array(x) {
            Some(a) => a,
            None => Seq::empty(),
        },
        None => Seq::empty(),
    }
}

/// The number of items of the array member `k` of `j`.
pub open spec fn count(j: JsonValue, k: Seq<char>) -> int {
    elems(j, k).len() as int
}

/// Member `f` of `v`, where it is an index, is below `n`.
pub open spec fn ref_ok(v: JsonValue, f: Seq<char>, n: int) -> bool {
    match opt_u64(v, f) {
        Some(x) => x < n,
        None => true,
    }
}

/// Every index in the list member `f` of `v` is below `n`.
pub open spec fn list_refs_ok(v: JsonValue, f: Seq<char>, n: int) -> bool {
    match opt_u64_list(v, f) {
        Some(l) => forall|i: int| 0 <= i < l.len() ==> #[trigger] l[i] < n,
        None => true,
    }
}

/// Member `f` of every item of collection `k` is below `n`.
pub open spec fn all_refs_ok(j: JsonValue, k: Seq<char>, f: Seq<char>, n: int) -> bool {
    forall|i: int| 0 <= i < elems(j, k).len() ==> ref_ok(#[trigger] elems(j, k)[i], f, n)
}

/// The texture reference `f` of `v`, where present, names one of `n`.
pub open spec fn tex_ok(v: JsonValue, f: Seq<char>, n: int) -> bool {
    match member(v, f) {
        Some(t) => ref_ok(t, "index"@, n),
        None => true,
    }
}

/// The texture references of material `m` name one of `n` textures.
pub open spec fn material_refs_ok(m: JsonValue, n: int) -> bool {
    &&& tex_ok(m, "normalTexture"@, n)
    &&& tex_ok(m, "occlusionTexture"@, n)
    &&& tex_ok(m, "emissiveTexture"@, n)
    &&& match member(m, "pbrMetallicRoughness"@) {
        Some(p) => tex_ok(p, "baseColorTexture"@, n) && tex_ok(p, "metallicRoughnessTexture"@, n),
        None => true,
    }
}

/// The attribute accessors of primitive `p` are below `n`.
pub open spec fn attributes_refs_ok(p: JsonValue, n: int) -> bool {
    match member(p, "attributes"@) {
        Some(x) => match as_object(x) {
            Some(es) => forall|i: int|
                0 <= i < es.len() ==> match as_u64(#[trigger] es[i].1) {
                    Some(a) => a < n,
                    None => true,
                },
            None => true,
        },
        None => true,
    }
}

/// Primitive `p` names accessors and a material that exist.
pub open spec fn primitive_refs_ok(p: JsonValue, accessors: int, materials: int) -> bool {
    &&& ref_ok(p, "indices"@, accessors)
    &&& ref_ok(p, "material"@, materials)
    &&& attributes_refs_ok(p, accessors)
}

/// Every primitive of mesh `m` names entities that exist.
pub open spec fn mesh_refs_ok(m: JsonValue, accessors: int, materials: int) -> bool {
    forall|k: int|
        0 <= k < elems(m, "primitives"@).len() ==> primitive_refs_ok(
            #[trigger] elems(m, "primitives"@)[k],
            accessors,
            materials,
        )
}

/// Node `n` of document `j` names entities that exist.
pub open spec fn node_refs_ok(n: JsonValue, j: JsonValue) -> bool {
    &&& ref_ok(n, "camera"@, count(j, "cameras"@))
    &&& ref_ok(n, "skin"@, count(j, "skins"@))
    &&& ref_ok(n, "mesh"@, count(j, "meshes"@))
    &&& list_refs_ok(n, "children"@, count(j, "nodes"@))
}

/// Every cross-reference of document `j` lies inside its collection.
pub open spec fn refs_ok(j: JsonValue) -> bool {
    &&& all_refs_ok(j, "accessors"@, "bufferView"@, count(j, "bufferViews"@))
    &&& all_refs_ok(j, "bufferViews"@, "buffer"@, count(j, "buffers"@))
    &&& all_refs_ok(j, "images"@, "bufferView"@, count(j, "bufferViews"@))
    &&& all_refs_ok(j, "textures"@, "sampler"@, count(j, "samplers"@))
    &&& all_refs_ok(j, "textures"@, "source"@, count(j, "images"@))
    &&& forall|i: int|
        0 <= i < elems(j, "materials"@).len() ==> material_refs_ok(
            #[trigger] elems(j, "materials"@)[i],
            count(j, "textures"@),
        )
    &&& forall|i: int|
        0 <= i < elems(j, "meshes"@).len() ==> mesh_refs_ok(
            #[trigger] elems(j, "meshes"@)[i],
            count(j, "accessors"@),
            count(j, "materials"@),
        )
    &&& forall|i: int| 0 <= i < elems(j, "nodes"@).len() ==> node_refs_ok(#[trigger] elems(j, "nodes"@)[i], j)
    &&& forall|i: int|
        0 <= i < elems(j, "scenes"@).len() ==> list_refs_ok(
            #[trigger] elems(j, "scenes"@)[i],
            "nodes"@,
            count(j, "nodes"@),
        )
    &&& ref_ok(j, "scene"@, count(j, "scenes"@))
}

/// `f` is a format fault naming one of the fields that hold references.
pub open spec fn refs_fault(f: Fault) -> bool {
    &&& f.0 == ImportErrorType::Format
    &&& {
        ||| f.1 == "bufferView"@
        ||| f.1 == "buffer"@
        ||| f.1 == "sampler"@
        ||| f.1 == "source"@
        ||| f.1 == "normalTexture"@
        ||| f.1 == "occlusionTexture"@
        ||| f.1 == "emissiveTexture"@
        ||| f.1 == "baseColorTexture"@
        ||| f.1 == "metallicRoughnessTexture"@
        ||| f.1 == "primitives"@
        ||| f.1 == "camera"@
        ||| f.1 == "skin"@
        ||| f.1 == "mesh"@
        ||| f.1 == "children"@
        ||| f.1 == "nodes"@
        ||| f.1 == "scene"@
    }
}

/// The items of collection `key` of `j`.
fn items_of<'a>(j: &'a JsonValue, key: &str) -> (r: Option<&'a Vec<JsonValue>>)
    ensures
        match r {
            Some(a) => a@ == elems(*j, key@),
            None => elems(*j, key@).len() == 0,
        },
{
    match get(j, key) {
        Some(x) => to_array(x),
        None => None,
    }
}

/// The number of items of collection `key` of `j`.
pub fn count_of(j: &JsonValue, key: &str) -> (r: u64)
    ensures
        r == count(*j, key@),
{
    match items_of(j, key) {
        Some(a) => a.len() as u64,
        None => 0,
    }
}

/// Whether member `field` of `v`, where it is an index, is below `n`.
pub fn check_ref(v: &JsonValue, field: &str, n: u64) -> (r: bool)
    ensures
        r == ref_ok(*v, field@, n as int),
{
    match get(v, field) {
        Some(x) => match to_u64(x) {
            Some(k) => k < n,
            None => true,
        },
        None => true,
    }
}

/// Whether every index in the list member `field` of `v` is below `n`.
pub fn check_list_refs(v: &JsonValue, field: &str, n: u64) -> (r: bool)
    requires
        u64_list_ok(*v, field@),
    ensures
        r == list_refs_ok(*v, field@, n as int),
{
    let x = match get(v, field) {
        Some(x) => x,
        None => return true,
    };
    let a = match to_array(x) {
        Some(a) => a,
        None => return true,
    };
    let ghost l = u64_items(a@);
    let mut i: usize = 0;
    while i < a.len()
        invariant
            0 <= i <= a@.len(),
            member(*v, field@) == Some(*x),
            as_array(*x) == Some(a@),
            u64_list_ok(*v, field@),
            l == u64_items(a@),
            opt_u64_list(*v, field@) == Some(l),
            forall|k: int| 0 <= k < i ==> #[trigger] l[k] < n,
        decreases a.len() - i,
    {
        assert(as_u64(a@[i as int]) is Some);
        match to_u64(&a[i]) {
            Some(k) => {
                if k >= n {
                    assert(l.len() == a@.len());
                    assert(l[i as int] == as_u64(a@[i as int]).unwrap());
                    assert(!(forall|t: int| 0 <= t < l.len() ==> #[trigger] l[t] < n));
                    assert(opt_u64_list(*v, field@).unwrap() == l);
                    assert(!list_refs_ok(*v, field@, n as int));
                    assert(l[i as int] >= n);
                    return false;
                }
            },
            None => {},
        }
        i = i + 1;
    }
    true
}

/// Whether the texture reference `field` of `v`, where present, is below `n`.
pub fn check_tex(v: &JsonValue, field: &str, n: u64) -> (r: bool)
    ensures
        r == tex_ok(*v, field@, n as int),
{
    match get(v, field) {
        Some(t) => check_ref(t, "index", n),
        None => true,
    }
}

/// A format error naming `field`, at position `i` of its collection.
fn ref_error(field: &str, i: usize) -> (r: ImportError)
    ensures
        names(r, field@),
        r.index == Some(i as u64),
{
    let mut e = ImportError::format(field);
    e.index = Some(i as u64);
    e
}

/// Checks member `field` of every item of collection `key` against `n`.
pub fn check_all_refs(j: &JsonValue, key: &str, field: &str, n: u64) -> (r: Result<(), ImportError>)
    ensures
        r is Ok <==> all_refs_ok(*j, key@, field@, n as int),
        r is Err ==> names(r->Err_0, field@) && r->Err_0.index is Some,
{
    let a = match items_of(j, key) {
        Some(a) => a,
        None => return Ok(()),
    };
    let mut i: usize = 0;
    while i < a.len()
        invariant
            0 <= i <= a@.len(),
            a@ == elems(*j, key@),
            forall|k: int| 0 <= k < i ==> ref_ok(#[trigger] a@[k], field@, n as int),
        decreases a.len() - i,
    {
        if !check_ref(&a[i], field, n) {
            return Err(ref_error(field, i));
        }
        i = i + 1;
    }
    Ok(())
}

/// Checks the texture references of every material.
fn check_materials(j: &JsonValue) -> (r: Result<(), ImportError>)
    ensures
        r is Ok <==> forall|i: int|
            0 <= i < elems(*j, "materials"@).len() ==> material_refs_ok(
                #[trigger] elems(*j, "materials"@)[i],
                count(*j, "textures"@),
            ),
        r is Err ==> r->Err_0.e_type == crate::error::ImportErrorType::Format && r->Err_0.index is Some && refs_fault(fault(r->Err_0)),
{
    let n = count_of(j, "textures");
    let a = match items_of(j, "materials") {
        Some(a) => a,
        None => return Ok(()),
    };
    let mut i: usize = 0;
    while i < a.len()
        invariant
            0 <= i <= a@.len(),
            a@ == elems(*j, "materials"@),
            n == count(*j, "textures"@),
            forall|k: int| 0 <= k < i ==> material_refs_ok(#[trigger] a@[k], n as int),
        decreases a.len() - i,
    {
        let m = &a[i];
        if !check_tex(m, "normalTexture", n) {
            return Err(ref_error("normalTexture", i));
        }
        if !check_tex(m, "occlusionTexture", n) {
            return Err(ref_error("occlusionTexture", i));
        }
        if !check_tex(m, "emissiveTexture", n) {
            return Err(ref_error("emissiveTexture", i));
        }
        match get(m, "pbrMetallicRoughness") {
            Some(p) => {
                if !check_tex(p, "baseColorTexture", n) {
                    return Err(ref_error("baseColorTexture", i));
                }
                if !check_tex(p, "metallicRoughnessTexture", n) {
                    return Err(ref_error("metallicRoughnessTexture", i));
                }
            },
            None => {},
        }
        i = i + 1;
    }
    Ok(())
}

/// Checks the accessors and material that primitive `p` names.
fn check_primitive(p: &JsonValue, accessors: u64, materials: u64) -> (r: bool)
    ensures
        r == primitive_refs_ok(*p, accessors as int, materials as int),
{
    if !check_ref(p, "indices", accessors) || !check_ref(p, "material", materials) {
        return false;
    }
    let x = match get(p, "attributes") {
        Some(x) => x,
        None => return true,
    };
    let es = match to_object(x) {
        Some(es) => es,
        None => return true,
    };
    let mut i: usize = 0;
    while i < es.len()
        invariant
            0 <= i <= es@.len(),
            member(*p, "attributes"@) == Some(*x),
            as_object(*x) == Some(es@),
            ref_ok(*p, "indices"@, accessors as int),
            ref_ok(*p, "material"@, materials as int),
            forall|k: int|
                0 <= k < i ==> match as_u64(#[trigger] es@[k].1) {
                    Some(a) => a < accessors,
                    None => true,
                },
        decreases es.len() - i,
    {
        match to_u64(&es[i].1) {
            Some(a) => {
                if a >= accessors {
                    assert(as_u64(es@[i as int].1) == Some(a));
                    return false;
                }
            },
            None => {},
        }
        i = i + 1;
    }
    true
}

/// Checks the primitives of every mesh.
fn check_meshes(j: &JsonValue) -> (r: Result<(), ImportError>)
    ensures
        r is Ok <==> forall|i: int|
            0 <= i < elems(*j, "meshes"@).len() ==> mesh_refs_ok(
                #[trigger] elems(*j, "meshes"@)[i],
                count(*j, "accessors"@),
                count(*j, "materials"@),
            ),
        r is Err ==> names(r->Err_0, "primitives"@) && r->Err_0.index is Some,
{
    let na = count_of(j, "accessors");
    let nm = count_of(j, "materials");
    let a = match items_of(j, "meshes") {
        Some(a) => a,
        None => return Ok(()),
    };
    let mut i: usize = 0;
    while i < a.len()
        invariant
            0 <= i <= a@.len(),
            a@ == elems(*j, "meshes"@),
            na == count(*j, "accessors"@),
            nm == count(*j, "materials"@),
            forall|k: int| 0 <= k < i ==> mesh_refs_ok(#[trigger] a@[k], na as int, nm as int),
        decreases a.len() - i,
    {
        match items_of(&a[i], "primitives") {
            Some(ps) => {
                let mut k: usize = 0;
                while k < ps.len()
                    invariant
                        0 <= k <= ps@.len(),
                        0 <= i < a@.len(),
                        a@ == elems(*j, "meshes"@),
                        na == count(*j, "accessors"@),
                        nm == count(*j, "materials"@),
                        ps@ == elems(a@[i as int], "primitives"@),
                        forall|t: int|
                            0 <= t < k ==> primitive_refs_ok(#[trigger] ps@[t], na as int, nm as int),
                    decreases ps.len() - k,
                {
                    if !check_primitive(&ps[k], na, nm) {
                        assert(!mesh_refs_ok(a@[i as int], na as int, nm as int));
                        return Err(ref_error("primitives", i));
                    }
                    k = k + 1;
                }
            },
            None => {},
        }
        i = i + 1;
    }
    Ok(())
}

/// Checks the references of every node.
fn check_nodes(j: &JsonValue) -> (r: Result<(), ImportError>)
    requires
        forall|i: int|
            0 <= i < elems(*j, "nodes"@).len() ==> u64_list_ok(#[trigger] elems(*j, "nodes"@)[i], "children"@),
    ensures
        r is Ok <==> forall|i: int|
            0 <= i < elems(*j, "nodes"@).len() ==> node_refs_ok(#[trigger] elems(*j, "nodes"@)[i], *j),
        r is Err ==> r->Err_0.e_type == crate::error::ImportErrorType::Format && r->Err_0.index is Some && refs_fault(fault(r->Err_0)),
{
    let cameras = count_of(j, "cameras");
    let skins = count_of(j, "skins");
    let meshes = count_of(j, "meshes");
    let nodes = count_of(j, "nodes");
    let a = match items_of(j, "nodes") {
        Some(a) => a,
        None => return Ok(()),
    };
    let mut i: usize = 0;
    while i < a.len()
        invariant
            0 <= i <= a@.len(),
            a@ == elems(*j, "nodes"@),
            cameras == count(*j, "cameras"@),
            skins == count(*j, "skins"@),
            meshes == count(*j, "meshes"@),
            nodes == count(*j, "nodes"@),
            forall|k: int| 0 <= k < a@.len() ==> u64_list_ok(#[trigger] a@[k], "children"@),
            forall|k: int| 0 <= k < i ==> node_refs_ok(#[trigger] a@[k], *j),
        decreases a.len() - i,
    {
        let n = &a[i];
        if !check_ref(n, "camera", cameras) {
            return Err(ref_error("camera", i));
        }
        if !check_ref(n, "skin", skins) {
            return Err(ref_error("skin", i));
        }
        if !check_ref(n, "mesh", meshes) {
            return Err(ref_error("mesh", i));
        }
        assert(u64_list_ok(a@[i as int], "children"@));
        if !check_list_refs(n, "children", nodes) {
            return Err(ref_error("children", i));
        }
        i = i + 1;
    }
    Ok(())
}

/// Checks the root nodes of every scene.
fn check_scenes(j: &JsonValue) -> (r: Result<(), ImportError>)
    requires
        forall|i: int|
            0 <= i < elems(*j, "scenes"@).len() ==> u64_list_ok(#[trigger] elems(*j, "scenes"@)[i], "nodes"@),
    ensures
        r is Ok <==> forall|i: int|
            0 <= i < elems(*j, "scenes"@).len() ==> list_refs_ok(
                #[trigger] elems(*j, "scenes"@)[i],
                "nodes"@,
                count(*j, "nodes"@),
            ),
        r is Err ==> names(r->Err_0, "nodes"@) && r->Err_0.index is Some,
{
    let nodes = count_of(j, "nodes");
    let a = match items_of(j, "scenes") {
        Some(a) => a,
        None => return Ok(()),
    };
    let mut i: usize = 0;
    while i < a.len()
        invariant
            0 <= i <= a@.len(),
            a@ == elems(*j, "scenes"@),
            nodes == count(*j, "nodes"@),
            forall|k: int| 0 <= k < a@.len() ==> u64_list_ok(#[trigger] a@[k], "nodes"@),
            forall|k: int| 0 <= k < i ==> list_refs_ok(#[trigger] a@[k], "nodes"@, nodes as int),
        decreases a.len() - i,
    {
        assert(u64_list_ok(a@[i as int], "nodes"@));
        if !check_list_refs(&a[i], "nodes", nodes) {
            return Err(ref_error("nodes", i));
        }
        i = i + 1;
    }
    Ok(())
}

/// Checks every cross-reference of document `j`. An index outside its
/// collection is a format error naming the field; where the field belongs
/// to an entity of a collection, the error carries the entity's position.
pub fn check_refs(j: &JsonValue) -> (r: Result<(), ImportError>)
    requires
        forall|i: int|
            0 <= i < elems(*j, "nodes"@).len() ==> u64_list_ok(#[trigger] elems(*j, "nodes"@)[i], "children"@),
        forall|i: int|
            0 <= i < elems(*j, "scenes"@).len() ==> u64_list_ok(#[trigger] elems(*j, "scenes"@)[i], "nodes"@),
    ensures
        r is Ok <==> refs_ok(*j),
        r is Err ==> refs_fault(fault(r->Err_0)),
{
    let views = count_of(j, "bufferViews");
    check_all_refs(j, "accessors", "bufferView", views)?;
    check_all_refs(j, "bufferViews", "buffer", count_of(j, "buffers"))?;
    check_all_refs(j, "images", "bufferView", views)?;
    check_all_refs(j, "textures", "sampler", count_of(j, "samplers"))?;
    check_all_refs(j, "textures", "source", count_of(j, "images"))?;
    check_materials(j)?;
    check_meshes(j)?;
    check_nodes(j)?;
    check_scenes(j)?;
    if !check_ref(j, "scene", count_of(j, "scenes")) {
        return Err(ImportError::format("scene"));
    }
    Ok(())
}

} // verus!
