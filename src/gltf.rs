//! The glTF document model, and its parser from a JSON value tree.
use vstd::prelude::*;

use crate::error::{ImportError, ImportErrorType};
use crate::fields::{
    bad_bits, bad_bits_array, bad_bits_list, bad_bool, bad_req_text, bad_req_u64, bad_text, bad_u64,
    bad_u64_list, fault, is_named, Fault,
    bits_array_ok, bits_list_ok, bits_ok, bits_or, bool_ok, bool_or, field_bits,
    field_bits_array, field_bits_list, field_text, field_u64, field_u64_list, names,
    opt_bits_list, opt_seq, opt_u64_list, require_text, require_u64, text_ok, u64_list_ok, u64_ok,
    u64_or, bits_or_default, bool_or_default, u64_or_default,
};
use crate::math::{identity_entry, Mat4, ONE_BITS, ZERO_BITS};
use crate::refs::{check_refs, elems, refs_fault, refs_ok};
use crate::text::text_is;
use crate::json::{
    as_array, as_object, as_u64, get, member, opt_bits, opt_text, opt_u64, opt_view,
    json_of, parse_json, to_array, to_object, to_u64, JsonValue,
};

verus! {

/// The bits of the double `1/2`.
pub const HALF_BITS: u64 = 0x3FE0_0000_0000_0000;

/// A closed table from numeric codes to the variants of an enumeration.
pub trait EnumConvert: Sized {
    /// The variant with code `value`, if any.
    spec fn from_code(value: u64) -> Option<Self>;

    /// The name of the field that holds such codes.
    spec fn field_name() -> Seq<char>;

    /// Decodes `value`; an unknown code is a format error that names the
    /// field and carries the code.
    fn from_u64(value: u64) -> (r: Result<Self, ImportError>)
        ensures
            r is Ok <==> Self::from_code(value) is Some,
            r is Ok ==> Some(r->Ok_0) == Self::from_code(value),
            r is Err ==> r->Err_0.e_type == ImportErrorType::Format && r->Err_0.message@
                == Self::field_name() && r->Err_0.code == Some(value) && r->Err_0.index is None,
    ;
}

#[derive(Debug, Clone, Copy, PartialEq, Eq, Structural)]
pub enum ComponentType {
    Byte,
    UnsignedByte,
    Short,
    UnsignedShort,
    UnsignedInt,
    Float,
}

impl ComponentType {
    /// The size in bytes of one component.
    pub open spec fn spec_size(self) -> nat {
        match self {
            ComponentType::Byte | ComponentType::UnsignedByte => 1,
            ComponentType::Short | ComponentType::UnsignedShort => 2,
            ComponentType::UnsignedInt | ComponentType::Float => 4,
        }
    }

    pub fn size(&self) -> (r: usize)
        ensures
            r == self.spec_size(),
    {
        match self {
            ComponentType::Byte | ComponentType::UnsignedByte => 1,
            ComponentType::Short | ComponentType::UnsignedShort => 2,
            ComponentType::UnsignedInt | ComponentType::Float => 4,
        }
    }
}

impl EnumConvert for ComponentType {
    open spec fn field_name() -> Seq<char> {
        "componentType"@
    }

    open spec fn from_code(value: u64) -> Option<Self> {
        if value == 5120 {
            Some(ComponentType::Byte)
        } else if value == 5121 {
            Some(ComponentType::UnsignedByte)
        } else if value == 5122 {
            Some(ComponentType::Short)
        } else if value == 5123 {
            Some(ComponentType::UnsignedShort)
        } else if value == 5125 {
            Some(ComponentType::UnsignedInt)
        } else if value == 5126 {
            Some(ComponentType::Float)
        } else {
            None
        }
    }

    fn from_u64(value: u64) -> (r: Result<Self, ImportError>) {
        match value {
            5120 => Ok(ComponentType::Byte),
            5121 => Ok(ComponentType::UnsignedByte),
            5122 => Ok(ComponentType::Short),
            5123 => Ok(ComponentType::UnsignedShort),
            5125 => Ok(ComponentType::UnsignedInt),
            5126 => Ok(ComponentType::Float),
            _ => {
                let mut e = ImportError::format("componentType");
                e.code = Some(value);
                Err(e)
            },
        }
    }
}

#[derive(Debug, Clone, Copy, PartialEq, Eq, Structural)]
pub enum AccessorType {
    Scalar,
    Vec2,
    Vec3,
    Vec4,
    Mat2,
    Mat3,
    Mat4,
}

impl AccessorType {
    /// The type named `s` in the document, if any.
    pub open spec fn from_name(s: Seq<char>) -> Option<AccessorType> {
        if s == "SCALAR"@ {
            Some(AccessorType::Scalar)
        } else if s == "VEC2"@ {
            Some(AccessorType::Vec2)
        } else if s == "VEC3"@ {
            Some(AccessorType::Vec3)
        } else if s == "VEC4"@ {
            Some(AccessorType::Vec4)
        } else if s == "MAT2"@ {
            Some(AccessorType::Mat2)
        } else if s == "MAT3"@ {
            Some(AccessorType::Mat3)
        } else if s == "MAT4"@ {
            Some(AccessorType::Mat4)
        } else {
            None
        }
    }

    /// The number of components of one element.
    pub open spec fn spec_components(self) -> nat {
        match self {
            AccessorType::Scalar => 1,
            AccessorType::Vec2 => 2,
            AccessorType::Vec3 => 3,
            AccessorType::Vec4 => 4,
            AccessorType::Mat2 => 4,
            AccessorType::Mat3 => 9,
            AccessorType::Mat4 => 16,
        }
    }

    pub fn components(&self) -> (r: usize)
        ensures
            r == self.spec_components(),
    {
        match self {
            AccessorType::Scalar => 1,
            AccessorType::Vec2 => 2,
            AccessorType::Vec3 => 3,
            AccessorType::Vec4 => 4,
            AccessorType::Mat2 => 4,
            AccessorType::Mat3 => 9,
            AccessorType::Mat4 => 16,
        }
    }

    pub fn from_name_str(s: &String) -> (r: Option<AccessorType>)
        ensures
            r == AccessorType::from_name(s@),
    {
        if text_is(s, "SCALAR") {
            Some(AccessorType::Scalar)
        } else if text_is(s, "VEC2") {
            Some(AccessorType::Vec2)
        } else if text_is(s, "VEC3") {
            Some(AccessorType::Vec3)
        } else if text_is(s, "VEC4") {
            Some(AccessorType::Vec4)
        } else if text_is(s, "MAT2") {
            Some(AccessorType::Mat2)
        } else if text_is(s, "MAT3") {
            Some(AccessorType::Mat3)
        } else if text_is(s, "MAT4") {
            Some(AccessorType::Mat4)
        } else {
            None
        }
    }
}

#[derive(Debug, Clone, Copy, PartialEq, Eq, Structural)]
pub enum BufferTarget {
    ArrayBuffer,
    ElementArrayBuffer,
}

impl EnumConvert for BufferTarget {
    open spec fn field_name() -> Seq<char> {
        "target"@
    }

    open spec fn from_code(value: u64) -> Option<Self> {
        if value == 34962 {
            Some(BufferTarget::ArrayBuffer)
        } else if value == 34963 {
            Some(BufferTarget::ElementArrayBuffer)
        } else {
            None
        }
    }

    fn from_u64(value: u64) -> (r: Result<Self, ImportError>) {
        match value {
            34962 => Ok(BufferTarget::ArrayBuffer),
            34963 => Ok(BufferTarget::ElementArrayBuffer),
            _ => {
                let mut e = ImportError::format("target");
                e.code = Some(value);
                Err(e)
            },
        }
    }
}

#[derive(Debug, Clone, Copy, PartialEq, Eq, Structural)]
pub enum PrimitiveTopology {
    Points,
    Lines,
    LineLoop,
    LineStrip,
    Triangles,
    TriangleStrip,
    TriangleFan,
}

impl EnumConvert for PrimitiveTopology {
    open spec fn field_name() -> Seq<char> {
        "mode"@
    }

    open spec fn from_code(value: u64) -> Option<Self> {
        if value == 0 {
            Some(PrimitiveTopology::Points)
        } else if value == 1 {
            Some(PrimitiveTopology::Lines)
        } else if value == 2 {
            Some(PrimitiveTopology::LineLoop)
        } else if value == 3 {
            Some(PrimitiveTopology::LineStrip)
        } else if value == 4 {
            Some(PrimitiveTopology::Triangles)
        } else if value == 5 {
            Some(PrimitiveTopology::TriangleStrip)
        } else if value == 6 {
            Some(PrimitiveTopology::TriangleFan)
        } else {
            None
        }
    }

    fn from_u64(value: u64) -> (r: Result<Self, ImportError>) {
        match value {
            0 => Ok(PrimitiveTopology::Points),
            1 => Ok(PrimitiveTopology::Lines),
            2 => Ok(PrimitiveTopology::LineLoop),
            3 => Ok(PrimitiveTopology::LineStrip),
            4 => Ok(PrimitiveTopology::Triangles),
            5 => Ok(PrimitiveTopology::TriangleStrip),
            6 => Ok(PrimitiveTopology::TriangleFan),
            _ => {
                let mut e = ImportError::format("mode");
                e.code = Some(value);
                Err(e)
            },
        }
    }
}

#[derive(Debug, Clone, Copy, PartialEq, Eq, Structural)]
pub enum TextureFilter {
    Nearest,
    Linear,
    NearestMipmapNearest,
    LinearMipmapNearest,
    NearestMipmapLinear,
    LinearMipmapLinear,
}

impl EnumConvert for TextureFilter {
    open spec fn field_name() -> Seq<char> {
        "filter"@
    }

    open spec fn from_code(value: u64) -> Option<Self> {
        if value == 9728 {
            Some(TextureFilter::Nearest)
        } else if value == 9729 {
            Some(TextureFilter::Linear)
        } else if value == 9984 {
            Some(TextureFilter::NearestMipmapNearest)
        } else if value == 9985 {
            Some(TextureFilter::LinearMipmapNearest)
        } else if value == 9986 {
            Some(TextureFilter::NearestMipmapLinear)
        } else if value == 9987 {
            Some(TextureFilter::LinearMipmapLinear)
        } else {
            None
        }
    }

    fn from_u64(value: u64) -> (r: Result<Self, ImportError>) {
        match value {
            9728 => Ok(TextureFilter::Nearest),
            9729 => Ok(TextureFilter::Linear),
            9984 => Ok(TextureFilter::NearestMipmapNearest),
            9985 => Ok(TextureFilter::LinearMipmapNearest),
            9986 => Ok(TextureFilter::NearestMipmapLinear),
            9987 => Ok(TextureFilter::LinearMipmapLinear),
            _ => {
                let mut e = ImportError::format("filter");
                e.code = Some(value);
                Err(e)
            },
        }
    }
}

#[derive(Debug, Clone, Copy, PartialEq, Eq, Structural)]
pub enum TextureWrapMode {
    ClampToEdge,
    MirroredRepeat,
    Repeat,
}

impl EnumConvert for TextureWrapMode {
    open spec fn field_name() -> Seq<char> {
        "wrap"@
    }

    open spec fn from_code(value: u64) -> Option<Self> {
        if value == 33071 {
            Some(TextureWrapMode::ClampToEdge)
        } else if value == 33648 {
            Some(TextureWrapMode::MirroredRepeat)
        } else if value == 10497 {
            Some(TextureWrapMode::Repeat)
        } else {
            None
        }
    }

    fn from_u64(value: u64) -> (r: Result<Self, ImportError>) {
        match value {
            33071 => Ok(TextureWrapMode::ClampToEdge),
            33648 => Ok(TextureWrapMode::MirroredRepeat),
            10497 => Ok(TextureWrapMode::Repeat),
            _ => {
                let mut e = ImportError::format("wrap");
                e.code = Some(value);
                Err(e)
            },
        }
    }
}

/// Member `k` is absent or the code of a variant of `T`.
pub open spec fn enum_ok<T: EnumConvert>(v: JsonValue, k: Seq<char>) -> bool {
    match member(v, k) {
        Some(x) => as_u64(x) is Some && T::from_code(as_u64(x).unwrap()) is Some,
        None => true,
    }
}

/// Member `k` decoded as a variant of `T`, `None` where it is absent.
pub open spec fn opt_enum<T: EnumConvert>(v: JsonValue, k: Seq<char>) -> Option<T> {
    match member(v, k) {
        Some(x) => T::from_code(as_u64(x).unwrap()),
        None => None,
    }
}

/// Member `k` decoded as a variant of `T`, `d` where it is absent.
pub open spec fn enum_or<T: EnumConvert>(v: JsonValue, k: Seq<char>, d: T) -> T {
    match member(v, k) {
        Some(x) => T::from_code(as_u64(x).unwrap()).unwrap(),
        None => d,
    }
}

/// Reads the optional enumerated member `key`.
pub fn to_enum_or_none<T: EnumConvert>(v: &JsonValue, key: &str) -> (r: Result<Option<T>, ImportError>)
    ensures
        r is Ok <==> enum_ok::<T>(*v, key@),
        r is Ok ==> r->Ok_0 == opt_enum::<T>(*v, key@),
        r is Err ==> names(r->Err_0, key@),
        r is Err && opt_u64(*v, key@) is Some ==> r->Err_0.code == opt_u64(*v, key@),
{
    match field_u64(v, key) {
        Ok(Some(code)) => match T::from_u64(code) {
            Ok(t) => Ok(Some(t)),
            Err(_) => {
                let mut e = ImportError::format(key);
                e.code = Some(code);
                Err(e)
            },
        },
        Ok(None) => Ok(None),
        Err(e) => Err(e),
    }
}

/// Reads the enumerated member `key`, `default` where it is absent.
pub fn to_enum_or_default<T: EnumConvert>(v: &JsonValue, key: &str, default: T) -> (r: Result<T, ImportError>)
    ensures
        r is Ok <==> enum_ok::<T>(*v, key@),
        r is Ok ==> r->Ok_0 == enum_or::<T>(*v, key@, default),
        r is Err ==> names(r->Err_0, key@),
        r is Err && opt_u64(*v, key@) is Some ==> r->Err_0.code == opt_u64(*v, key@),
{
    match to_enum_or_none(v, key) {
        Ok(Some(t)) => Ok(t),
        Ok(None) => Ok(default),
        Err(e) => Err(e),
    }
}

/// An entity of the document, read from its JSON object.
pub trait FromJson: Sized {
    /// `v` is a valid description of the entity.
    spec fn parses(v: JsonValue) -> bool;

    /// `e` is the entity that `v` describes.
    spec fn parsed(v: JsonValue, e: Self) -> bool;

    /// `f` names a member of `v` that is wrong, and how.
    spec fn failure(v: JsonValue, f: Fault) -> bool;

    fn from_json(v: &JsonValue) -> (r: Result<Self, ImportError>)
        ensures
            r is Ok <==> Self::parses(*v),
            r is Ok ==> Self::parsed(*v, r->Ok_0),
            r is Err ==> r->Err_0.e_type == ImportErrorType::Format,
            r is Err ==> Self::failure(*v, fault(r->Err_0)),
    ;
}

/// `f` names the enumerated member `k`, which is present and not a known
/// code; where it is an integer, `f` carries it.
pub open spec fn bad_enum<T: EnumConvert>(v: JsonValue, k: Seq<char>, f: Fault) -> bool {
    &&& is_named(f, k)
    &&& !enum_ok::<T>(v, k)
    &&& opt_u64(v, k) is Some ==> f.2 == opt_u64(v, k)
}

/// Member `k` is present, does not describe a `T`, and `f` says why.
pub open spec fn bad_object<T: FromJson>(v: JsonValue, k: Seq<char>, f: Fault) -> bool {
    &&& member(v, k) is Some
    &&& !T::parses(member(v, k).unwrap())
    &&& T::failure(member(v, k).unwrap(), f)
}

/// Member `k` is present and is not an array, or one of its items does
/// not describe a `T`, and `f` says why.
pub open spec fn bad_list<T: FromJson>(v: JsonValue, k: Seq<char>, f: Fault) -> bool {
    &&& member(v, k) is Some
    &&& match as_array(member(v, k).unwrap()) {
        Some(a) => exists|i: int| 0 <= i < a.len() && !T::parses(#[trigger] a[i]) && T::failure(a[i], f),
        None => is_named(f, k),
    }
}

/// Member `k` is absent or an array of valid descriptions of `T`.
pub open spec fn list_ok<T: FromJson>(v: JsonValue, k: Seq<char>) -> bool {
    match member(v, k) {
        Some(x) => as_array(x) is Some && forall|i: int|
            0 <= i < as_array(x).unwrap().len() ==> #[trigger] T::parses(as_array(x).unwrap()[i]),
        None => true,
    }
}

/// `l` holds, in order, the entities that the items of array `a` describe.
pub open spec fn items_parsed<T: FromJson>(a: Seq<JsonValue>, l: Seq<T>) -> bool {
    l.len() == a.len() && forall|i: int| 0 <= i < a.len() ==> #[trigger] T::parsed(a[i], l[i])
}

/// `l` is what member `k` describes: `None` where it is absent.
pub open spec fn list_parsed<T: FromJson>(v: JsonValue, k: Seq<char>, l: Option<Vec<T>>) -> bool {
    match member(v, k) {
        Some(x) => l is Some && items_parsed(as_array(x).unwrap(), l.unwrap()@),
        None => l is None,
    }
}

/// Member `k` is absent or a valid description of `T`.
pub open spec fn object_ok<T: FromJson>(v: JsonValue, k: Seq<char>) -> bool {
    match member(v, k) {
        Some(x) => T::parses(x),
        None => true,
    }
}

/// `o` is what member `k` describes: `None` where it is absent.
pub open spec fn object_parsed<T: FromJson>(v: JsonValue, k: Seq<char>, o: Option<T>) -> bool {
    match member(v, k) {
        Some(x) => o is Some && T::parsed(x, o.unwrap()),
        None => o is None,
    }
}

/// Reads the optional member `key`, an array of entities. An entity that
/// fails carries its position in the error.
pub fn parse_list<T: FromJson>(v: &JsonValue, key: &str) -> (r: Result<Option<Vec<T>>, ImportError>)
    ensures
        r is Ok <==> list_ok::<T>(*v, key@),
        r is Ok ==> list_parsed(*v, key@, r->Ok_0),
        r is Err ==> r->Err_0.e_type == ImportErrorType::Format,
        r is Err ==> bad_list::<T>(*v, key@, fault(r->Err_0)),
        r is Err && as_array(member(*v, key@).unwrap()) is Some ==> r->Err_0.index is Some,
{
    let x = match get(v, key) {
        Some(x) => x,
        None => return Ok(None),
    };
    let a = match to_array(x) {
        Some(a) => a,
        None => return Err(ImportError::format(key)),
    };
    let mut out: Vec<T> = Vec::new();
    let mut i: usize = 0;
    while i < a.len()
        invariant
            0 <= i <= a@.len(),
            member(*v, key@) == Some(*x),
            as_array(*x) == Some(a@),
            out@.len() == i,
            forall|j: int| 0 <= j < i ==> #[trigger] T::parses(a@[j]),
            forall|j: int| 0 <= j < i ==> #[trigger] T::parsed(a@[j], out@[j]),
        decreases a.len() - i,
    {
        match T::from_json(&a[i]) {
            Ok(t) => {
                out.push(t);
            },
            Err(e) => {
                assert(!T::parses(a@[i as int]));
                assert(as_array(*x).unwrap()[i as int] == a@[i as int]);
                assert(!list_ok::<T>(*v, key@));
                let mut e = e;
                if e.index.is_none() {
                    e.index = Some(i as u64);
                }
                return Err(e);
            },
        }
        i = i + 1;
    }
    Ok(Some(out))
}

/// Reads the optional member `key`, one entity.
pub fn parse_object<T: FromJson>(v: &JsonValue, key: &str) -> (r: Result<Option<T>, ImportError>)
    ensures
        r is Ok <==> object_ok::<T>(*v, key@),
        r is Ok ==> object_parsed(*v, key@, r->Ok_0),
        r is Err ==> r->Err_0.e_type == ImportErrorType::Format,
        r is Err ==> bad_object::<T>(*v, key@, fault(r->Err_0)),
{
    match get(v, key) {
        Some(x) => match T::from_json(x) {
            Ok(t) => Ok(Some(t)),
            Err(e) => Err(e),
        },
        None => Ok(None),
    }
}

/// The metadata of the document.
#[derive(Debug)]
pub struct Asset {
    pub version: String,
    pub copyright: Option<String>,
    pub generator: Option<String>,
    pub min_version: Option<String>,
}

impl Asset {
    pub open spec fn parses(v: JsonValue) -> bool {
        &&& opt_text(v, "version"@) is Some
        &&& text_ok(v, "copyright"@)
        &&& text_ok(v, "generator"@)
        &&& text_ok(v, "minVersion"@)
    }

    /// `f` names a member of the asset object `v` that is wrong.
    pub open spec fn failure(v: JsonValue, f: Fault) -> bool {
        ||| bad_req_text(v, "version"@, f)
        ||| bad_text(v, "copyright"@, f)
        ||| bad_text(v, "generator"@, f)
        ||| bad_text(v, "minVersion"@, f)
    }

    pub open spec fn parsed(v: JsonValue, a: Asset) -> bool {
        &&& a.version@ == opt_text(v, "version"@).unwrap()
        &&& opt_view(a.copyright) == opt_text(v, "copyright"@)
        &&& opt_view(a.generator) == opt_text(v, "generator"@)
        &&& opt_view(a.min_version) == opt_text(v, "minVersion"@)
    }

    /// Reads the `asset` object; a missing version is a format error naming
    /// `version`.
    pub fn from_json(v: &JsonValue) -> (r: Result<Asset, ImportError>)
        ensures
            r is Ok <==> Asset::parses(*v),
            r is Ok ==> Asset::parsed(*v, r->Ok_0),
            r is Err ==> r->Err_0.e_type == ImportErrorType::Format,
            opt_text(*v, "version"@) is None ==> r is Err && r->Err_0.message@ == "version"@,
            r is Err ==> Asset::failure(*v, fault(r->Err_0)),
    {
        let version = require_text(v, "version")?;
        let copyright = field_text(v, "copyright")?;
        let generator = field_text(v, "generator")?;
        let min_version = field_text(v, "minVersion")?;
        Ok(Asset { version, copyright, generator, min_version })
    }
}

/// How to read a run of elements out of a buffer view.
#[derive(Debug)]
pub struct Accessor {
    pub buffer_view: Option<u64>,
    pub byte_offset: u64,
    pub component_type: ComponentType,
    pub normalized: bool,
    pub count: u64,
    pub a_type: AccessorType,
    /// Per-component bounds, as double bit patterns.
    pub max: Option<Vec<u64>>,
    pub min: Option<Vec<u64>>,
}

impl FromJson for Accessor {
    open spec fn parses(v: JsonValue) -> bool {
        &&& u64_ok(v, "bufferView"@)
        &&& u64_ok(v, "byteOffset"@)
        &&& opt_u64(v, "componentType"@) is Some
        &&& ComponentType::from_code(opt_u64(v, "componentType"@).unwrap()) is Some
        &&& bool_ok(v, "normalized"@)
        &&& opt_u64(v, "count"@) is Some
        &&& opt_text(v, "type"@) is Some
        &&& AccessorType::from_name(opt_text(v, "type"@).unwrap()) is Some
        &&& bits_list_ok(v, "max"@)
        &&& bits_list_ok(v, "min"@)
    }

    open spec fn parsed(v: JsonValue, a: Accessor) -> bool {
        &&& a.buffer_view == opt_u64(v, "bufferView"@)
        &&& a.byte_offset == u64_or(v, "byteOffset"@, 0)
        &&& Some(a.component_type) == ComponentType::from_code(
            opt_u64(v, "componentType"@).unwrap(),
        )
        &&& a.normalized == bool_or(v, "normalized"@, false)
        &&& a.count == opt_u64(v, "count"@).unwrap()
        &&& Some(a.a_type) == AccessorType::from_name(opt_text(v, "type"@).unwrap())
        &&& opt_seq(a.max) == opt_bits_list(v, "max"@)
        &&& opt_seq(a.min) == opt_bits_list(v, "min"@)
    }

    open spec fn failure(v: JsonValue, f: Fault) -> bool {
        ||| bad_u64(v, "bufferView"@, f)
        ||| bad_u64(v, "byteOffset"@, f)
        ||| (is_named(f, "componentType"@) && (opt_u64(v, "componentType"@) is None || (
            ComponentType::from_code(opt_u64(v, "componentType"@).unwrap()) is None && f.2
                == opt_u64(v, "componentType"@))))
        ||| bad_bool(v, "normalized"@, f)
        ||| bad_req_u64(v, "count"@, f)
        ||| (is_named(f, "type"@) && (opt_text(v, "type"@) is None || AccessorType::from_name(
            opt_text(v, "type"@).unwrap(),
        ) is None))
        ||| bad_bits_list(v, "max"@, f)
        ||| bad_bits_list(v, "min"@, f)
    }

    fn from_json(v: &JsonValue) -> (r: Result<Accessor, ImportError>) {
        let buffer_view = field_u64(v, "bufferView")?;
        let byte_offset = u64_or_default(v, "byteOffset", 0)?;
        let code = require_u64(v, "componentType")?;
        let component_type = match ComponentType::from_u64(code) {
            Ok(c) => c,
            Err(_) => {
                let mut e = ImportError::format("componentType");
                e.code = Some(code);
                return Err(e);
            },
        };
        let normalized = bool_or_default(v, "normalized", false)?;
        let count = require_u64(v, "count")?;
        let name = require_text(v, "type")?;
        let a_type = match AccessorType::from_name_str(&name) {
            Some(t) => t,
            None => return Err(ImportError::format("type")),
        };
        let max = field_bits_list(v, "max")?;
        let min = field_bits_list(v, "min")?;
        Ok(Accessor { buffer_view, byte_offset, component_type, normalized, count, a_type, max, min })
    }
}

/// A source of bytes: an external file named by `uri`, or the embedded
/// binary chunk where `uri` is absent.
#[derive(Debug)]
pub struct Buffer {
    pub uri: Option<String>,
    pub byte_length: u64,
}

impl FromJson for Buffer {
    open spec fn parses(v: JsonValue) -> bool {
        &&& text_ok(v, "uri"@)
        &&& opt_u64(v, "byteLength"@) is Some
    }

    open spec fn parsed(v: JsonValue, b: Buffer) -> bool {
        &&& opt_view(b.uri) == opt_text(v, "uri"@)
        &&& b.byte_length == opt_u64(v, "byteLength"@).unwrap()
    }

    open spec fn failure(v: JsonValue, f: Fault) -> bool {
        ||| bad_text(v, "uri"@, f)
        ||| bad_req_u64(v, "byteLength"@, f)
    }

    fn from_json(v: &JsonValue) -> (r: Result<Buffer, ImportError>) {
        let uri = field_text(v, "uri")?;
        let byte_length = require_u64(v, "byteLength")?;
        Ok(Buffer { uri, byte_length })
    }
}

/// A window into a buffer.
#[derive(Debug, Clone, Copy)]
pub struct BufferView {
    pub buffer: u64,
    pub byte_offset: u64,
    pub byte_length: u64,
    pub byte_stride: Option<u64>,
    pub target: Option<BufferTarget>,
}

impl FromJson for BufferView {
    open spec fn parses(v: JsonValue) -> bool {
        &&& opt_u64(v, "buffer"@) is Some
        &&& u64_ok(v, "byteOffset"@)
        &&& opt_u64(v, "byteLength"@) is Some
        &&& u64_ok(v, "byteStride"@)
        &&& enum_ok::<BufferTarget>(v, "target"@)
    }

    open spec fn parsed(v: JsonValue, b: BufferView) -> bool {
        &&& b.buffer == opt_u64(v, "buffer"@).unwrap()
        &&& b.byte_offset == u64_or(v, "byteOffset"@, 0)
        &&& b.byte_length == opt_u64(v, "byteLength"@).unwrap()
        &&& b.byte_stride == opt_u64(v, "byteStride"@)
        &&& b.target == opt_enum::<BufferTarget>(v, "target"@)
    }

    open spec fn failure(v: JsonValue, f: Fault) -> bool {
        ||| bad_req_u64(v, "buffer"@, f)
        ||| bad_u64(v, "byteOffset"@, f)
        ||| bad_req_u64(v, "byteLength"@, f)
        ||| bad_u64(v, "byteStride"@, f)
        ||| bad_enum::<BufferTarget>(v, "target"@, f)
    }

    fn from_json(v: &JsonValue) -> (r: Result<BufferView, ImportError>) {
        let buffer = require_u64(v, "buffer")?;
        let byte_offset = u64_or_default(v, "byteOffset", 0)?;
        let byte_length = require_u64(v, "byteLength")?;
        let byte_stride = field_u64(v, "byteStride")?;
        let target = to_enum_or_none(v, "target")?;
        Ok(BufferView { buffer, byte_offset, byte_length, byte_stride, target })
    }
}

/// An image, referenced by URI or stored in a buffer view.
#[derive(Debug)]
pub struct Image {
    pub uri: Option<String>,
    /// The officially supported types are `image/jpeg` and `image/png`;
    /// `image/bmp` is read as well.
    pub mime_type: Option<String>,
    pub buffer_view: Option<u64>,
}

impl FromJson for Image {
    open spec fn parses(v: JsonValue) -> bool {
        &&& text_ok(v, "uri"@)
        &&& text_ok(v, "mimeType"@)
        &&& u64_ok(v, "bufferView"@)
    }

    open spec fn parsed(v: JsonValue, i: Image) -> bool {
        &&& opt_view(i.uri) == opt_text(v, "uri"@)
        &&& opt_view(i.mime_type) == opt_text(v, "mimeType"@)
        &&& i.buffer_view == opt_u64(v, "bufferView"@)
    }

    open spec fn failure(v: JsonValue, f: Fault) -> bool {
        ||| bad_text(v, "uri"@, f)
        ||| bad_text(v, "mimeType"@, f)
        ||| bad_u64(v, "bufferView"@, f)
    }

    fn from_json(v: &JsonValue) -> (r: Result<Image, ImportError>) {
        let uri = field_text(v, "uri")?;
        let mime_type = field_text(v, "mimeType")?;
        let buffer_view = field_u64(v, "bufferView")?;
        Ok(Image { uri, mime_type, buffer_view })
    }
}

/// A reference to a texture from a material.
#[derive(Debug, Clone, Copy)]
pub struct TextureInfo {
    pub index: u64,
    pub tex_coord: u64,
    /// `scale` of a normal map or `strength` of an occlusion map, as double
    /// bits: the two share this slot.
    pub scale: Option<u64>,
}

impl FromJson for TextureInfo {
    open spec fn parses(v: JsonValue) -> bool {
        &&& opt_u64(v, "index"@) is Some
        &&& u64_ok(v, "texCoord"@)
        &&& bits_ok(v, "scale"@)
        &&& (member(v, "scale"@) is Some || bits_ok(v, "strength"@))
    }

    open spec fn parsed(v: JsonValue, t: TextureInfo) -> bool {
        &&& t.index == opt_u64(v, "index"@).unwrap()
        &&& t.tex_coord == u64_or(v, "texCoord"@, 0)
        &&& t.scale == if member(v, "scale"@) is Some {
            opt_bits(v, "scale"@)
        } else {
            opt_bits(v, "strength"@)
        }
    }

    open spec fn failure(v: JsonValue, f: Fault) -> bool {
        ||| bad_req_u64(v, "index"@, f)
        ||| bad_u64(v, "texCoord"@, f)
        ||| bad_bits(v, "scale"@, f)
        ||| (member(v, "scale"@) is None && bad_bits(v, "strength"@, f))
    }

    fn from_json(v: &JsonValue) -> (r: Result<TextureInfo, ImportError>) {
        let index = require_u64(v, "index")?;
        let tex_coord = u64_or_default(v, "texCoord", 0)?;
        let scale = match field_bits(v, "scale")? {
            Some(s) => Some(s),
            None => field_bits(v, "strength")?,
        };
        Ok(TextureInfo { index, tex_coord, scale })
    }
}

/// Four numbers as an array.
fn array4(l: &Vec<u64>) -> (r: [u64; 4])
    requires
        l@.len() == 4,
    ensures
        r@ == l@,
{
    let r = [l[0], l[1], l[2], l[3]];
    assert(r@ =~= l@);
    r
}

/// Three numbers as an array.
fn array3(l: &Vec<u64>) -> (r: [u64; 3])
    requires
        l@.len() == 3,
    ensures
        r@ == l@,
{
    let r = [l[0], l[1], l[2]];
    assert(r@ =~= l@);
    r
}

/// Member `k`, an array of `n` numbers, or `d` where it is absent.
pub open spec fn bits_array_or(v: JsonValue, k: Seq<char>, d: Seq<u64>) -> Seq<u64> {
    match opt_bits_list(v, k) {
        Some(l) => l,
        None => d,
    }
}

/// The physically based shading parameters of a material.
#[derive(Debug, Clone, Copy)]
pub struct PbrMetallicRoughness {
    pub base_color_factor: [u64; 4],
    pub base_color_texture: Option<TextureInfo>,
    pub metallic_factor: u64,
    pub roughness_factor: u64,
    pub metallic_roughness_texture: Option<TextureInfo>,
}

impl FromJson for PbrMetallicRoughness {
    open spec fn parses(v: JsonValue) -> bool {
        &&& bits_array_ok(v, "baseColorFactor"@, 4)
        &&& object_ok::<TextureInfo>(v, "baseColorTexture"@)
        &&& bits_ok(v, "metallicFactor"@)
        &&& bits_ok(v, "roughnessFactor"@)
        &&& object_ok::<TextureInfo>(v, "metallicRoughnessTexture"@)
    }

    open spec fn parsed(v: JsonValue, p: PbrMetallicRoughness) -> bool {
        &&& p.base_color_factor@ == bits_array_or(
            v,
            "baseColorFactor"@,
            seq![ONE_BITS, ONE_BITS, ONE_BITS, ONE_BITS],
        )
        &&& object_parsed(v, "baseColorTexture"@, p.base_color_texture)
        &&& p.metallic_factor == bits_or(v, "metallicFactor"@, ONE_BITS)
        &&& p.roughness_factor == bits_or(v, "roughnessFactor"@, ONE_BITS)
        &&& object_parsed(v, "metallicRoughnessTexture"@, p.metallic_roughness_texture)
    }

    open spec fn failure(v: JsonValue, f: Fault) -> bool {
        ||| bad_bits_array(v, "baseColorFactor"@, 4, f)
        ||| bad_object::<TextureInfo>(v, "baseColorTexture"@, f)
        ||| bad_bits(v, "metallicFactor"@, f)
        ||| bad_bits(v, "roughnessFactor"@, f)
        ||| bad_object::<TextureInfo>(v, "metallicRoughnessTexture"@, f)
    }

    fn from_json(v: &JsonValue) -> (r: Result<PbrMetallicRoughness, ImportError>) {
        let base_color_factor = match field_bits_array(v, "baseColorFactor", 4)? {
            Some(l) => array4(&l),
            None => {
                let d = [ONE_BITS, ONE_BITS, ONE_BITS, ONE_BITS];
                assert(d@ =~= seq![ONE_BITS, ONE_BITS, ONE_BITS, ONE_BITS]);
                d
            },
        };
        let base_color_texture = parse_object(v, "baseColorTexture")?;
        let metallic_factor = bits_or_default(v, "metallicFactor", ONE_BITS)?;
        let roughness_factor = bits_or_default(v, "roughnessFactor", ONE_BITS)?;
        let metallic_roughness_texture = parse_object(v, "metallicRoughnessTexture")?;
        Ok(PbrMetallicRoughness {
            base_color_factor,
            base_color_texture,
            metallic_factor,
            roughness_factor,
            metallic_roughness_texture,
        })
    }
}

impl PbrMetallicRoughness {
    /// The parameters of a material that gives none.
    pub fn default_params() -> (r: PbrMetallicRoughness)
        ensures
            r.base_color_factor@ == seq![ONE_BITS, ONE_BITS, ONE_BITS, ONE_BITS],
            r.base_color_texture is None,
            r.metallic_factor == ONE_BITS,
            r.roughness_factor == ONE_BITS,
            r.metallic_roughness_texture is None,
    {
        let d = [ONE_BITS, ONE_BITS, ONE_BITS, ONE_BITS];
        assert(d@ =~= seq![ONE_BITS, ONE_BITS, ONE_BITS, ONE_BITS]);
        PbrMetallicRoughness {
            base_color_factor: d,
            base_color_texture: None,
            metallic_factor: ONE_BITS,
            roughness_factor: ONE_BITS,
            metallic_roughness_texture: None,
        }
    }
}

#[derive(Debug, Clone, Copy, PartialEq, Eq, Structural)]
pub enum AlphaMode {
    Opaque,
    Mask,
    Blend,
}

impl AlphaMode {
    /// The mode named `s` in the document, if any.
    pub open spec fn from_name(s: Seq<char>) -> Option<AlphaMode> {
        if s == "OPAQUE"@ {
            Some(AlphaMode::Opaque)
        } else if s == "MASK"@ {
            Some(AlphaMode::Mask)
        } else if s == "BLEND"@ {
            Some(AlphaMode::Blend)
        } else {
            None
        }
    }

    pub fn from_name_str(s: &String) -> (r: Option<AlphaMode>)
        ensures
            r == AlphaMode::from_name(s@),
    {
        if text_is(s, "OPAQUE") {
            Some(AlphaMode::Opaque)
        } else if text_is(s, "MASK") {
            Some(AlphaMode::Mask)
        } else if text_is(s, "BLEND") {
            Some(AlphaMode::Blend)
        } else {
            None
        }
    }
}

/// Member `alphaMode` is absent or names a mode.
pub open spec fn alpha_ok(v: JsonValue) -> bool {
    member(v, "alphaMode"@) is None || (opt_text(v, "alphaMode"@) is Some && AlphaMode::from_name(
        opt_text(v, "alphaMode"@).unwrap(),
    ) is Some)
}

/// The alpha mode of material `v`; opaque where none is given.
pub open spec fn alpha_of(v: JsonValue) -> AlphaMode {
    if member(v, "alphaMode"@) is None {
        AlphaMode::Opaque
    } else {
        AlphaMode::from_name(opt_text(v, "alphaMode"@).unwrap()).unwrap()
    }
}

#[derive(Debug, Clone, Copy)]
pub struct Material {
    pub pbr_metallic_roughness: Option<PbrMetallicRoughness>,
    pub normal_texture: Option<TextureInfo>,
    pub occlusion_texture: Option<TextureInfo>,
    pub emissive_texture: Option<TextureInfo>,
    pub emissive_factor: [u64; 3],
    pub alpha_mode: AlphaMode,
    pub alpha_cutoff: u64,
    pub double_sided: bool,
}

impl FromJson for Material {
    open spec fn parses(v: JsonValue) -> bool {
        &&& object_ok::<PbrMetallicRoughness>(v, "pbrMetallicRoughness"@)
        &&& object_ok::<TextureInfo>(v, "normalTexture"@)
        &&& object_ok::<TextureInfo>(v, "occlusionTexture"@)
        &&& object_ok::<TextureInfo>(v, "emissiveTexture"@)
        &&& bits_array_ok(v, "emissiveFactor"@, 3)
        &&& alpha_ok(v)
        &&& bits_ok(v, "alphaCutoff"@)
        &&& bool_ok(v, "doubleSided"@)
    }

    open spec fn parsed(v: JsonValue, m: Material) -> bool {
        &&& object_parsed(v, "pbrMetallicRoughness"@, m.pbr_metallic_roughness)
        &&& object_parsed(v, "normalTexture"@, m.normal_texture)
        &&& object_parsed(v, "occlusionTexture"@, m.occlusion_texture)
        &&& object_parsed(v, "emissiveTexture"@, m.emissive_texture)
        &&& m.emissive_factor@ == bits_array_or(
            v,
            "emissiveFactor"@,
            seq![ZERO_BITS, ZERO_BITS, ZERO_BITS],
        )
        &&& m.alpha_mode == alpha_of(v)
        &&& m.alpha_cutoff == bits_or(v, "alphaCutoff"@, HALF_BITS)
        &&& m.double_sided == bool_or(v, "doubleSided"@, false)
    }

    open spec fn failure(v: JsonValue, f: Fault) -> bool {
        ||| bad_object::<PbrMetallicRoughness>(v, "pbrMetallicRoughness"@, f)
        ||| bad_object::<TextureInfo>(v, "normalTexture"@, f)
        ||| bad_object::<TextureInfo>(v, "occlusionTexture"@, f)
        ||| bad_object::<TextureInfo>(v, "emissiveTexture"@, f)
        ||| bad_bits_array(v, "emissiveFactor"@, 3, f)
        ||| (is_named(f, "alphaMode"@) && !alpha_ok(v))
        ||| bad_bits(v, "alphaCutoff"@, f)
        ||| bad_bool(v, "doubleSided"@, f)
    }

    fn from_json(v: &JsonValue) -> (r: Result<Material, ImportError>) {
        let pbr_metallic_roughness = parse_object(v, "pbrMetallicRoughness")?;
        let normal_texture = parse_object(v, "normalTexture")?;
        let occlusion_texture = parse_object(v, "occlusionTexture")?;
        let emissive_texture = parse_object(v, "emissiveTexture")?;
        let emissive_factor = match field_bits_array(v, "emissiveFactor", 3)? {
            Some(l) => array3(&l),
            None => {
                let d = [ZERO_BITS, ZERO_BITS, ZERO_BITS];
                assert(d@ =~= seq![ZERO_BITS, ZERO_BITS, ZERO_BITS]);
                d
            },
        };
        let alpha_mode = match field_text(v, "alphaMode")? {
            Some(name) => match AlphaMode::from_name_str(&name) {
                Some(m) => m,
                None => return Err(ImportError::format("alphaMode")),
            },
            None => AlphaMode::Opaque,
        };
        let alpha_cutoff = bits_or_default(v, "alphaCutoff", HALF_BITS)?;
        let double_sided = bool_or_default(v, "doubleSided", false)?;
        Ok(Material {
            pbr_metallic_roughness,
            normal_texture,
            occlusion_texture,
            emissive_texture,
            emissive_factor,
            alpha_mode,
            alpha_cutoff,
            double_sided,
        })
    }
}

/// The members of object `x` whose values are all accessor indices.
pub open spec fn attribute_values_ok(x: JsonValue) -> bool {
    as_object(x) is Some && forall|i: int|
        0 <= i < as_object(x).unwrap().len() ==> #[trigger] as_u64(as_object(x).unwrap()[i].1) is Some
}

/// Reads an attribute object: each name with the accessor it names.
fn read_attributes(x: &JsonValue) -> (r: Option<Vec<(String, u64)>>)
    ensures
        r is Some <==> attribute_values_ok(*x),
        r is Some ==> r->Some_0@.len() == as_object(*x).unwrap().len() && forall|j: int|
            0 <= j < r->Some_0@.len() ==> (#[trigger] r->Some_0@[j]).0@ == as_object(
                *x,
            ).unwrap()[j].0@ && r->Some_0@[j].1 == as_u64(as_object(*x).unwrap()[j].1).unwrap(),
{
    let es = match to_object(x) {
        Some(es) => es,
        None => return None,
    };
    let mut attributes: Vec<(String, u64)> = Vec::new();
    let mut i: usize = 0;
    while i < es.len()
        invariant
            0 <= i <= es@.len(),
            as_object(*x) == Some(es@),
            attributes@.len() == i,
            forall|j: int| 0 <= j < i ==> #[trigger] as_u64(es@[j].1) is Some,
            forall|j: int|
                0 <= j < i ==> (#[trigger] attributes@[j]).0@ == es@[j].0@ && attributes@[j].1
                    == as_u64(es@[j].1).unwrap(),
        decreases es.len() - i,
    {
        match to_u64(&es[i].1) {
            Some(n) => {
                attributes.push((es[i].0.clone(), n));
            },
            None => {
                assert(as_u64(es@[i as int].1) is None);
                assert(as_u64(as_object(*x).unwrap()[i as int].1) is None);
                return None;
            },
        }
        i = i + 1;
    }
    Some(attributes)
}

/// Member `attributes` is an object whose values are accessor indices.
pub open spec fn attributes_ok(v: JsonValue) -> bool {
    match member(v, "attributes"@) {
        Some(x) => attribute_values_ok(x),
        None => false,
    }
}

/// `l` lists the attribute names and accessor indices of `v`, in order.
pub open spec fn attributes_parsed(v: JsonValue, l: Seq<(String, u64)>) -> bool {
    let es = as_object(member(v, "attributes"@).unwrap()).unwrap();
    &&& l.len() == es.len()
    &&& forall|i: int|
        0 <= i < es.len() ==> (#[trigger] l[i]).0@ == es[i].0@ && l[i].1 == as_u64(es[i].1).unwrap()
}

/// One drawable part of a mesh.
#[derive(Debug)]
pub struct MeshPrimitive {
    /// Attribute names with the accessors that hold them.
    pub attributes: Vec<(String, u64)>,
    pub indices: Option<u64>,
    pub material: Option<u64>,
    pub mode: PrimitiveTopology,
}

impl FromJson for MeshPrimitive {
    open spec fn parses(v: JsonValue) -> bool {
        &&& attributes_ok(v)
        &&& u64_ok(v, "indices"@)
        &&& u64_ok(v, "material"@)
        &&& enum_ok::<PrimitiveTopology>(v, "mode"@)
    }

    open spec fn parsed(v: JsonValue, p: MeshPrimitive) -> bool {
        &&& attributes_parsed(v, p.attributes@)
        &&& p.indices == opt_u64(v, "indices"@)
        &&& p.material == opt_u64(v, "material"@)
        &&& p.mode == enum_or(v, "mode"@, PrimitiveTopology::Triangles)
    }

    open spec fn failure(v: JsonValue, f: Fault) -> bool {
        ||| (is_named(f, "attributes"@) && !attributes_ok(v))
        ||| bad_u64(v, "indices"@, f)
        ||| bad_u64(v, "material"@, f)
        ||| bad_enum::<PrimitiveTopology>(v, "mode"@, f)
    }

    fn from_json(v: &JsonValue) -> (r: Result<MeshPrimitive, ImportError>) {
        let x = match get(v, "attributes") {
            Some(x) => x,
            None => return Err(ImportError::format("attributes")),
        };
        let attributes = match read_attributes(x) {
            Some(l) => l,
            None => return Err(ImportError::format("attributes")),
        };
        let indices = field_u64(v, "indices")?;
        let material = field_u64(v, "material")?;
        let mode = to_enum_or_default(v, "mode", PrimitiveTopology::Triangles)?;
        Ok(MeshPrimitive { attributes, indices, material, mode })
    }
}

#[derive(Debug)]
pub struct Mesh {
    pub primitives: Vec<MeshPrimitive>,
    /// Morph target weights, as double bits.
    pub weights: Option<Vec<u64>>,
}

impl FromJson for Mesh {
    open spec fn parses(v: JsonValue) -> bool {
        &&& member(v, "primitives"@) is Some
        &&& list_ok::<MeshPrimitive>(v, "primitives"@)
        &&& bits_list_ok(v, "weights"@)
    }

    open spec fn parsed(v: JsonValue, m: Mesh) -> bool {
        &&& items_parsed(as_array(member(v, "primitives"@).unwrap()).unwrap(), m.primitives@)
        &&& opt_seq(m.weights) == opt_bits_list(v, "weights"@)
    }

    open spec fn failure(v: JsonValue, f: Fault) -> bool {
        ||| (is_named(f, "primitives"@) && member(v, "primitives"@) is None)
        ||| bad_list::<MeshPrimitive>(v, "primitives"@, f)
        ||| bad_bits_list(v, "weights"@, f)
    }

    fn from_json(v: &JsonValue) -> (r: Result<Mesh, ImportError>) {
        let primitives = match parse_list(v, "primitives")? {
            Some(p) => p,
            None => return Err(ImportError::format("primitives")),
        };
        let weights = field_bits_list(v, "weights")?;
        Ok(Mesh { primitives, weights })
    }
}

/// The transform of node `v` at row `i`, column `j`: its `matrix` read
/// column by column, or the identity.
pub open spec fn node_matrix_entry(v: JsonValue, i: int, j: int) -> u64 {
    match opt_bits_list(v, "matrix"@) {
        Some(m) => m[4 * j + i],
        None => identity_entry(i, j),
    }
}

/// An entity of the scene graph.
#[derive(Debug)]
pub struct Node {
    pub camera: Option<u64>,
    pub children: Option<Vec<u64>>,
    pub skin: Option<u64>,
    pub matrix: Mat4,
    pub mesh: Option<u64>,
    /// A quaternion `(x, y, z, w)`, as double bits.
    pub rotation: [u64; 4],
    pub scale: [u64; 3],
    pub translation: [u64; 3],
    pub weights: Option<Vec<u64>>,
}

impl FromJson for Node {
    open spec fn parses(v: JsonValue) -> bool {
        &&& u64_ok(v, "camera"@)
        &&& u64_list_ok(v, "children"@)
        &&& u64_ok(v, "skin"@)
        &&& bits_array_ok(v, "matrix"@, 16)
        &&& u64_ok(v, "mesh"@)
        &&& bits_array_ok(v, "rotation"@, 4)
        &&& bits_array_ok(v, "scale"@, 3)
        &&& bits_array_ok(v, "translation"@, 3)
        &&& bits_list_ok(v, "weights"@)
    }

    open spec fn parsed(v: JsonValue, n: Node) -> bool {
        &&& n.camera == opt_u64(v, "camera"@)
        &&& opt_seq(n.children) == opt_u64_list(v, "children"@)
        &&& n.skin == opt_u64(v, "skin"@)
        &&& forall|i: int, j: int|
            0 <= i < 4 && 0 <= j < 4 ==> #[trigger] n.matrix.entry(i, j) == node_matrix_entry(v, i, j)
        &&& n.mesh == opt_u64(v, "mesh"@)
        &&& n.rotation@ == bits_array_or(
            v,
            "rotation"@,
            seq![ZERO_BITS, ZERO_BITS, ZERO_BITS, ONE_BITS],
        )
        &&& n.scale@ == bits_array_or(v, "scale"@, seq![ONE_BITS, ONE_BITS, ONE_BITS])
        &&& n.translation@ == bits_array_or(v, "translation"@, seq![ZERO_BITS, ZERO_BITS, ZERO_BITS])
        &&& opt_seq(n.weights) == opt_bits_list(v, "weights"@)
    }

    open spec fn failure(v: JsonValue, f: Fault) -> bool {
        ||| bad_u64(v, "camera"@, f)
        ||| bad_u64_list(v, "children"@, f)
        ||| bad_u64(v, "skin"@, f)
        ||| bad_bits_array(v, "matrix"@, 16, f)
        ||| bad_u64(v, "mesh"@, f)
        ||| bad_bits_array(v, "rotation"@, 4, f)
        ||| bad_bits_array(v, "scale"@, 3, f)
        ||| bad_bits_array(v, "translation"@, 3, f)
        ||| bad_bits_list(v, "weights"@, f)
    }

    fn from_json(v: &JsonValue) -> (r: Result<Node, ImportError>) {
        let camera = field_u64(v, "camera")?;
        let children = field_u64_list(v, "children")?;
        let skin = field_u64(v, "skin")?;
        let matrix = match field_bits_array(v, "matrix", 16)? {
            Some(m) => Mat4::from_column_major(&m),
            None => Mat4::identity(),
        };
        let mesh = field_u64(v, "mesh")?;
        let rotation = match field_bits_array(v, "rotation", 4)? {
            Some(l) => array4(&l),
            None => {
                let d = [ZERO_BITS, ZERO_BITS, ZERO_BITS, ONE_BITS];
                assert(d@ =~= seq![ZERO_BITS, ZERO_BITS, ZERO_BITS, ONE_BITS]);
                d
            },
        };
        let scale = match field_bits_array(v, "scale", 3)? {
            Some(l) => array3(&l),
            None => {
                let d = [ONE_BITS, ONE_BITS, ONE_BITS];
                assert(d@ =~= seq![ONE_BITS, ONE_BITS, ONE_BITS]);
                d
            },
        };
        let translation = match field_bits_array(v, "translation", 3)? {
            Some(l) => array3(&l),
            None => {
                let d = [ZERO_BITS, ZERO_BITS, ZERO_BITS];
                assert(d@ =~= seq![ZERO_BITS, ZERO_BITS, ZERO_BITS]);
                d
            },
        };
        let weights = field_bits_list(v, "weights")?;
        Ok(Node { camera, children, skin, matrix, mesh, rotation, scale, translation, weights })
    }
}

#[derive(Debug, Clone, Copy)]
pub struct Sampler {
    pub mag_filter: Option<TextureFilter>,
    pub min_filter: Option<TextureFilter>,
    pub wrap_s: TextureWrapMode,
    pub wrap_t: TextureWrapMode,
}

impl FromJson for Sampler {
    open spec fn parses(v: JsonValue) -> bool {
        &&& enum_ok::<TextureFilter>(v, "magFilter"@)
        &&& enum_ok::<TextureFilter>(v, "minFilter"@)
        &&& enum_ok::<TextureWrapMode>(v, "wrapS"@)
        &&& enum_ok::<TextureWrapMode>(v, "wrapT"@)
    }

    open spec fn parsed(v: JsonValue, s: Sampler) -> bool {
        &&& s.mag_filter == opt_enum::<TextureFilter>(v, "magFilter"@)
        &&& s.min_filter == opt_enum::<TextureFilter>(v, "minFilter"@)
        &&& s.wrap_s == enum_or(v, "wrapS"@, TextureWrapMode::Repeat)
        &&& s.wrap_t == enum_or(v, "wrapT"@, TextureWrapMode::Repeat)
    }

    open spec fn failure(v: JsonValue, f: Fault) -> bool {
        ||| bad_enum::<TextureFilter>(v, "magFilter"@, f)
        ||| bad_enum::<TextureFilter>(v, "minFilter"@, f)
        ||| bad_enum::<TextureWrapMode>(v, "wrapS"@, f)
        ||| bad_enum::<TextureWrapMode>(v, "wrapT"@, f)
    }

    fn from_json(v: &JsonValue) -> (r: Result<Sampler, ImportError>) {
        let mag_filter = to_enum_or_none(v, "magFilter")?;
        let min_filter = to_enum_or_none(v, "minFilter")?;
        let wrap_s = to_enum_or_default(v, "wrapS", TextureWrapMode::Repeat)?;
        let wrap_t = to_enum_or_default(v, "wrapT", TextureWrapMode::Repeat)?;
        Ok(Sampler { mag_filter, min_filter, wrap_s, wrap_t })
    }
}

/// A set of root nodes.
#[derive(Debug)]
pub struct Scene {
    pub nodes: Option<Vec<u64>>,
}

impl FromJson for Scene {
    open spec fn parses(v: JsonValue) -> bool {
        u64_list_ok(v, "nodes"@)
    }

    open spec fn parsed(v: JsonValue, s: Scene) -> bool {
        opt_seq(s.nodes) == opt_u64_list(v, "nodes"@)
    }

    open spec fn failure(v: JsonValue, f: Fault) -> bool {
        ||| bad_u64_list(v, "nodes"@, f)
    }

    fn from_json(v: &JsonValue) -> (r: Result<Scene, ImportError>) {
        let nodes = field_u64_list(v, "nodes")?;
        Ok(Scene { nodes })
    }
}

#[derive(Debug, Clone, Copy)]
pub struct Texture {
    pub sampler: Option<u64>,
    pub source: Option<u64>,
}

impl FromJson for Texture {
    open spec fn parses(v: JsonValue) -> bool {
        u64_ok(v, "sampler"@) && u64_ok(v, "source"@)
    }

    open spec fn parsed(v: JsonValue, t: Texture) -> bool {
        t.sampler == opt_u64(v, "sampler"@) && t.source == opt_u64(v, "source"@)
    }

    open spec fn failure(v: JsonValue, f: Fault) -> bool {
        ||| bad_u64(v, "sampler"@, f)
        ||| bad_u64(v, "source"@, f)
    }

    fn from_json(v: &JsonValue) -> (r: Result<Texture, ImportError>) {
        let sampler = field_u64(v, "sampler")?;
        let source = field_u64(v, "source")?;
        Ok(Texture { sampler, source })
    }
}

/// `b` starts with the magic bytes of a GLB container, `glTF`.
pub open spec fn is_glb(b: Seq<u8>) -> bool {
    b.len() >= 4 && b[0] == 0x67 && b[1] == 0x6C && b[2] == 0x54 && b[3] == 0x46
}

/// A parsed glTF document. Every cross-reference is a position in one of
/// its collections; an absent collection is empty.
#[derive(Debug)]
pub struct Gltf {
    pub accessors: Option<Vec<Accessor>>,
    pub asset: Asset,
    pub buffers: Option<Vec<Buffer>>,
    pub buffer_views: Option<Vec<BufferView>>,
    pub images: Option<Vec<Image>>,
    pub materials: Option<Vec<Material>>,
    pub meshes: Option<Vec<Mesh>>,
    pub nodes: Option<Vec<Node>>,
    pub samplers: Option<Vec<Sampler>>,
    pub scene: Option<u64>,
    pub scenes: Option<Vec<Scene>>,
    pub textures: Option<Vec<Texture>>,
    /// The binary chunk of a GLB container; text documents have none.
    pub glb_data: Option<Vec<u8>>,
}

impl Gltf {
    /// `j` is a valid glTF document.
    pub open spec fn parses(j: JsonValue) -> bool {
        &&& member(j, "asset"@) is Some
        &&& Asset::parses(member(j, "asset"@).unwrap())
        &&& list_ok::<Accessor>(j, "accessors"@)
        &&& list_ok::<Buffer>(j, "buffers"@)
        &&& list_ok::<BufferView>(j, "bufferViews"@)
        &&& list_ok::<Image>(j, "images"@)
        &&& list_ok::<Material>(j, "materials"@)
        &&& list_ok::<Mesh>(j, "meshes"@)
        &&& list_ok::<Node>(j, "nodes"@)
        &&& list_ok::<Sampler>(j, "samplers"@)
        &&& u64_ok(j, "scene"@)
        &&& list_ok::<Scene>(j, "scenes"@)
        &&& list_ok::<Texture>(j, "textures"@)
        &&& refs_ok(j)
    }

    /// `f` names what is wrong with document `j`: a missing asset, a wrong
    /// member of the asset, of an entity or of the document, or a
    /// reference outside its collection.
    pub open spec fn failure(j: JsonValue, f: Fault) -> bool {
        ||| (is_named(f, "asset"@) && member(j, "asset"@) is None)
        ||| (member(j, "asset"@) is Some && Asset::failure(member(j, "asset"@).unwrap(), f))
        ||| bad_list::<Accessor>(j, "accessors"@, f)
        ||| bad_list::<Buffer>(j, "buffers"@, f)
        ||| bad_list::<BufferView>(j, "bufferViews"@, f)
        ||| bad_list::<Image>(j, "images"@, f)
        ||| bad_list::<Material>(j, "materials"@, f)
        ||| bad_list::<Mesh>(j, "meshes"@, f)
        ||| bad_list::<Node>(j, "nodes"@, f)
        ||| bad_list::<Sampler>(j, "samplers"@, f)
        ||| bad_u64(j, "scene"@, f)
        ||| bad_list::<Scene>(j, "scenes"@, f)
        ||| bad_list::<Texture>(j, "textures"@, f)
        ||| (!refs_ok(j) && refs_fault(f))
    }

    /// `g` is the document that `j` describes.
    pub open spec fn parsed(j: JsonValue, g: Gltf) -> bool {
        &&& Asset::parsed(member(j, "asset"@).unwrap(), g.asset)
        &&& list_parsed(j, "accessors"@, g.accessors)
        &&& list_parsed(j, "buffers"@, g.buffers)
        &&& list_parsed(j, "bufferViews"@, g.buffer_views)
        &&& list_parsed(j, "images"@, g.images)
        &&& list_parsed(j, "materials"@, g.materials)
        &&& list_parsed(j, "meshes"@, g.meshes)
        &&& list_parsed(j, "nodes"@, g.nodes)
        &&& list_parsed(j, "samplers"@, g.samplers)
        &&& g.scene == opt_u64(j, "scene"@)
        &&& list_parsed(j, "scenes"@, g.scenes)
        &&& list_parsed(j, "textures"@, g.textures)
        &&& g.glb_data is None
    }

    /// Reads a document from its JSON tree. Nothing is returned in part: any
    /// violation of the format is a format error.
    pub fn from_json(j: &JsonValue) -> (r: Result<Gltf, ImportError>)
        ensures
            r is Ok <==> Gltf::parses(*j),
            r is Ok ==> Gltf::parsed(*j, r->Ok_0),
            r is Err ==> r->Err_0.e_type == ImportErrorType::Format,
            r is Err ==> Gltf::failure(*j, fault(r->Err_0)),
            member(*j, "asset"@) is None ==> r is Err && r->Err_0.message@ == "asset"@,
            member(*j, "asset"@) is Some && opt_text(member(*j, "asset"@).unwrap(), "version"@)
                is None ==> r is Err && r->Err_0.message@ == "version"@,
    {
        let asset = match get(j, "asset") {
            Some(a) => Asset::from_json(a)?,
            None => return Err(ImportError::format("asset")),
        };
        let accessors = parse_list(j, "accessors")?;
        let buffers = parse_list(j, "buffers")?;
        let buffer_views = parse_list(j, "bufferViews")?;
        let images = parse_list(j, "images")?;
        let materials = parse_list(j, "materials")?;
        let meshes = parse_list(j, "meshes")?;
        let nodes = parse_list(j, "nodes")?;
        let samplers = parse_list(j, "samplers")?;
        let scene = field_u64(j, "scene")?;
        let scenes = parse_list(j, "scenes")?;
        let textures = parse_list(j, "textures")?;
        proof {
            assert forall|i: int| 0 <= i < elems(*j, "nodes"@).len() implies u64_list_ok(
                #[trigger] elems(*j, "nodes"@)[i],
                "children"@,
            ) by {
                assert(Node::parses(as_array(member(*j, "nodes"@).unwrap()).unwrap()[i]));
            }
            assert forall|i: int| 0 <= i < elems(*j, "scenes"@).len() implies u64_list_ok(
                #[trigger] elems(*j, "scenes"@)[i],
                "nodes"@,
            ) by {
                assert(Scene::parses(as_array(member(*j, "scenes"@).unwrap()).unwrap()[i]));
            }
        }
        check_refs(j)?;
        Ok(Gltf {
            accessors,
            asset,
            buffers,
            buffer_views,
            images,
            materials,
            meshes,
            nodes,
            samplers,
            scene,
            scenes,
            textures,
            glb_data: None,
        })
    }

    /// Rejects a GLB container, which starts with the bytes `glTF`: the
    /// binary form is not supported.
    pub fn check_container(bytes: &Vec<u8>) -> (r: Result<(), ImportError>)
        ensures
            r is Err <==> is_glb(bytes@),
            r is Err ==> r->Err_0.e_type == ImportErrorType::Unsupported,
    {
        if bytes.len() >= 4 && bytes[0] == 0x67 && bytes[1] == 0x6C && bytes[2] == 0x54 && bytes[3]
            == 0x46 {
            Err(ImportError::unsupported("GLB container"))
        } else {
            Ok(())
        }
    }

    /// Reads a document from its JSON text: text that is not JSON, and a
    /// malformed document, are format errors.
    pub fn from_text(text: &str) -> (r: Result<Gltf, ImportError>)
        ensures
            json_of(text@) is None ==> r is Err,
            json_of(text@) is Some ==> (r is Ok <==> Gltf::parses(json_of(text@).unwrap())),
            json_of(text@) is Some && r is Ok ==> Gltf::parsed(json_of(text@).unwrap(), r->Ok_0),
            json_of(text@) is Some && r is Err ==> Gltf::failure(json_of(text@).unwrap(), fault(r->Err_0)),
            r is Err ==> r->Err_0.e_type == ImportErrorType::Format,
    {
        let j = parse_json(text)?;
        Gltf::from_json(&j)
    }
}

} // verus!
