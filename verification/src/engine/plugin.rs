//! Plugins: native libraries whose exported C functions implement the
//! functions of a component instance. What can be linked is decided by the
//! shape of each function's type.
use vstd::prelude::*;

verus! {

/// The type of a parameter or result, as far as linking tells types apart.
#[derive(Clone, Copy, Debug, PartialEq, Eq, Structural)]
pub enum ValueType {
    Bool,
    S8,
    U8,
    S16,
    U16,
    S32,
    U32,
    S64,
    U64,
    Float32,
    Float64,
    Char,
    Str,
    /// `list<u8>`.
    Bytes,
    /// Any other type.
    Other,
}

/// A type that crosses the C boundary as a single scalar.
#[derive(Clone, Copy, Debug, PartialEq, Eq, Structural)]
pub enum Scalar {
    S8,
    U8,
    S16,
    U16,
    S32,
    U32,
    S64,
    U64,
    Float32,
    Float64,
    Char,
}

/// How a function is linked to its C symbol.
#[derive(Clone, Copy, Debug, PartialEq, Eq, Structural)]
pub enum LinkShape {
    /// No parameters, no results.
    Unit,
    /// Returns a pointer to a byte that is `true` unless zero.
    ReturnBool,
    /// Returns a pointer to the scalar.
    ReturnScalar(Scalar),
    /// Returns a pointer to a `u32` that must be a valid `char`.
    ReturnChar,
    /// Returns a pointer to a pointer and length of UTF-8.
    ReturnStr,
    /// Returns a pointer to a pointer and length of bytes.
    ReturnBytes,
    /// Returns a pointer to results that are lifted by their types.
    ReturnLifted,
    /// Takes a byte, 1 for `true` and 0 for `false`.
    TakeBool,
    /// Takes the scalar.
    TakeScalar(Scalar),
    /// Takes a pointer and length of UTF-8.
    TakeStr,
    /// Takes a pointer and length of bytes.
    TakeBytes,
}

/// The scalar a type crosses the boundary as, if it is one.
pub open spec fn scalar_of(t: ValueType) -> Option<Scalar> {
    match t {
        ValueType::S8 => Some(Scalar::S8),
        ValueType::U8 => Some(Scalar::U8),
        ValueType::S16 => Some(Scalar::S16),
        ValueType::U16 => Some(Scalar::U16),
        ValueType::S32 => Some(Scalar::S32),
        ValueType::U32 => Some(Scalar::U32),
        ValueType::S64 => Some(Scalar::S64),
        ValueType::U64 => Some(Scalar::U64),
        ValueType::Float32 => Some(Scalar::Float32),
        ValueType::Float64 => Some(Scalar::Float64),
        ValueType::Char => Some(Scalar::Char),
        _ => None,
    }
}

fn scalar_of_exec(t: ValueType) -> (r: Option<Scalar>)
    ensures
        r == scalar_of(t),
{
    match t {
        ValueType::S8 => Some(Scalar::S8),
        ValueType::U8 => Some(Scalar::U8),
        ValueType::S16 => Some(Scalar::S16),
        ValueType::U16 => Some(Scalar::U16),
        ValueType::S32 => Some(Scalar::S32),
        ValueType::U32 => Some(Scalar::U32),
        ValueType::S64 => Some(Scalar::S64),
        ValueType::U64 => Some(Scalar::U64),
        ValueType::Float32 => Some(Scalar::Float32),
        ValueType::Float64 => Some(Scalar::Float64),
        ValueType::Char => Some(Scalar::Char),
        _ => None,
    }
}

/// How a function with these parameter and result types is linked; `None`
/// where it would need code generated for it.
pub open spec fn link_shape(params: Seq<ValueType>, results: Seq<ValueType>) -> Option<LinkShape> {
    if params.len() == 0 && results.len() == 0 {
        Some(LinkShape::Unit)
    } else if params.len() == 0 && results.len() == 1 {
        let t = results[0];
        if t == ValueType::Bool {
            Some(LinkShape::ReturnBool)
        } else if t == ValueType::Char {
            Some(LinkShape::ReturnChar)
        } else if t == ValueType::Str {
            Some(LinkShape::ReturnStr)
        } else if t == ValueType::Bytes {
            Some(LinkShape::ReturnBytes)
        } else if scalar_of(t) is Some {
            Some(LinkShape::ReturnScalar(scalar_of(t)->0))
        } else {
            Some(LinkShape::ReturnLifted)
        }
    } else if params.len() == 0 {
        Some(LinkShape::ReturnLifted)
    } else if params.len() == 1 && results.len() == 0 {
        let t = params[0];
        if t == ValueType::Bool {
            Some(LinkShape::TakeBool)
        } else if t == ValueType::Str {
            Some(LinkShape::TakeStr)
        } else if t == ValueType::Bytes {
            Some(LinkShape::TakeBytes)
        } else if scalar_of(t) is Some {
            Some(LinkShape::TakeScalar(scalar_of(t)->0))
        } else {
            None
        }
    } else {
        None
    }
}

/// How a function with these parameter and result types is linked; `None`
/// where it would need code generated for it.
pub fn link_shape_of(params: &Vec<ValueType>, results: &Vec<ValueType>) -> (r: Option<LinkShape>)
    ensures
        r == link_shape(params@, results@),
{
    if params.len() == 0 && results.len() == 0 {
        Some(LinkShape::Unit)
    } else if params.len() == 0 && results.len() == 1 {
        let t = results[0];
        match t {
            ValueType::Bool => Some(LinkShape::ReturnBool),
            ValueType::Char => Some(LinkShape::ReturnChar),
            ValueType::Str => Some(LinkShape::ReturnStr),
            ValueType::Bytes => Some(LinkShape::ReturnBytes),
            _ => match scalar_of_exec(t) {
                Some(s) => Some(LinkShape::ReturnScalar(s)),
                None => Some(LinkShape::ReturnLifted),
            },
        }
    } else if params.len() == 0 {
        Some(LinkShape::ReturnLifted)
    } else if params.len() == 1 && results.len() == 0 {
        let t = params[0];
        match t {
            ValueType::Bool => Some(LinkShape::TakeBool),
            ValueType::Str => Some(LinkShape::TakeStr),
            ValueType::Bytes => Some(LinkShape::TakeBytes),
            _ => match scalar_of_exec(t) {
                Some(s) => Some(LinkShape::TakeScalar(s)),
                None => None,
            },
        }
    } else {
        None
    }
}

/// The value type that a scalar carries across the boundary.
pub open spec fn scalar_type(s: Scalar) -> ValueType {
    match s {
        Scalar::S8 => ValueType::S8,
        Scalar::U8 => ValueType::U8,
        Scalar::S16 => ValueType::S16,
        Scalar::U16 => ValueType::U16,
        Scalar::S32 => ValueType::S32,
        Scalar::U32 => ValueType::U32,
        Scalar::S64 => ValueType::S64,
        Scalar::U64 => ValueType::U64,
        Scalar::Float32 => ValueType::Float32,
        Scalar::Float64 => ValueType::Float64,
        Scalar::Char => ValueType::Char,
    }
}

/// A scalar crosses the boundary as the very type it is, of the same width
/// and signedness: reading it back gives the type it was taken for, every
/// numeric type and `char` is a scalar, and nothing else is.
pub proof fn lemma_scalars_keep_their_type(t: ValueType)
    ensures
        scalar_of(t) matches Some(s) ==> scalar_type(s) == t,
        scalar_of(t) is Some <==> !(t is Bool || t is Str || t is Bytes || t is Other),
        scalar_of(ValueType::S8) == Some(Scalar::S8),
        scalar_of(ValueType::U8) == Some(Scalar::U8),
        scalar_of(ValueType::S16) == Some(Scalar::S16),
        scalar_of(ValueType::U16) == Some(Scalar::U16),
        scalar_of(ValueType::S32) == Some(Scalar::S32),
        scalar_of(ValueType::U32) == Some(Scalar::U32),
        scalar_of(ValueType::S64) == Some(Scalar::S64),
        scalar_of(ValueType::U64) == Some(Scalar::U64),
        scalar_of(ValueType::Float32) == Some(Scalar::Float32),
        scalar_of(ValueType::Float64) == Some(Scalar::Float64),
        scalar_of(ValueType::Char) == Some(Scalar::Char),
{
}

/// A function of one parameter and no result, or no parameter and one
/// result, is linked by that one type: a `bool` as a byte, a string or byte
/// list as a pointer and length, a returned `char` as a checked `u32`, and
/// every other numeric type (and a `char` parameter) as the scalar of that
/// same type, neither widened nor with its signedness changed. A result of
/// any other type is lifted from memory; a parameter of any other type
/// needs generated code.
pub proof fn lemma_single_types_link_as_themselves(t: ValueType)
    ensures
        link_shape(seq![], seq![t]) == Some(
            if t is Bool {
                LinkShape::ReturnBool
            } else if t is Char {
                LinkShape::ReturnChar
            } else if t is Str {
                LinkShape::ReturnStr
            } else if t is Bytes {
                LinkShape::ReturnBytes
            } else if t is Other {
                LinkShape::ReturnLifted
            } else {
                LinkShape::ReturnScalar(scalar_of(t)->0)
            },
        ),
        link_shape(seq![], seq![t]) matches Some(LinkShape::ReturnScalar(s)) ==> scalar_type(s) == t,
        link_shape(seq![t], seq![]) matches Some(LinkShape::TakeScalar(s)) ==> scalar_type(s) == t,
        link_shape(seq![t], seq![]) is None <==> t is Other,
        t is Bool ==> link_shape(seq![t], seq![]) == Some(LinkShape::TakeBool),
        t is Str ==> link_shape(seq![t], seq![]) == Some(LinkShape::TakeStr),
        t is Bytes ==> link_shape(seq![t], seq![]) == Some(LinkShape::TakeBytes),
        link_shape(seq![], seq![ValueType::S16]) == Some(LinkShape::ReturnScalar(Scalar::S16)),
        link_shape(seq![ValueType::S16], seq![]) == Some(LinkShape::TakeScalar(Scalar::S16)),
        link_shape(seq![ValueType::Char], seq![]) == Some(LinkShape::TakeScalar(Scalar::Char)),
        link_shape(seq![], seq![]) == Some(LinkShape::Unit),
{
    lemma_scalars_keep_their_type(t);
}

/// The symbol that implements the function `name` of the instance
/// `instance_name`: the two names joined by `#`.
pub fn symbol_name(instance_name: &str, name: &str) -> (r: String)
    ensures
        r@ == instance_name@ + "#"@ + name@,
{
    instance_name.to_owned().concat("#").concat(name)
}

/// An item that a component instance exports.
#[derive(Clone, Debug)]
pub enum ExportItem {
    /// A function, with its parameter and result types.
    ComponentFunc { params: Vec<ValueType>, results: Vec<ValueType> },
    /// A resource type.
    Resource,
    /// Anything else: core functions, modules, components, instances, types.
    Other,
}

/// Why a plugin cannot provide an instance.
#[derive(Clone, Copy, Debug, PartialEq, Eq, Structural)]
pub enum PluginError {
    /// The instance exports a resource type.
    ResourcesNotSupported,
    /// A function's type would need code generated for it.
    NeedsCodegen,
}

/// What linking does with one export.
#[derive(Clone, Debug)]
pub enum ExportStep {
    /// Link the function to the C symbol, in the given shape.
    Link { symbol: String, shape: LinkShape },
    /// Nothing to link.
    Skip,
}

/// What linking the export `name` of the instance `instance_name` does:
/// functions are linked to their symbol where their shape allows, resource
/// types are refused, and everything else is passed over.
pub fn export_step(instance_name: &str, name: &str, item: &ExportItem) -> (r: Result<
    ExportStep,
    PluginError,
>)
    ensures
        item is Resource ==> r == Err::<ExportStep, _>(PluginError::ResourcesNotSupported),
        item is Other ==> r matches Ok(ExportStep::Skip),
        item matches ExportItem::ComponentFunc { params, results } ==> match link_shape(
            params@,
            results@,
        ) {
            None => r == Err::<ExportStep, _>(PluginError::NeedsCodegen),
            Some(s) => r matches Ok(ExportStep::Link { symbol, shape }) && shape == s && symbol@
                == instance_name@ + "#"@ + name@,
        },
{
    match item {
        ExportItem::ComponentFunc { params, results } => match link_shape_of(params, results) {
            None => Err(PluginError::NeedsCodegen),
            Some(shape) => Ok(ExportStep::Link { symbol: symbol_name(instance_name, name), shape }),
        },
        ExportItem::Resource => Err(PluginError::ResourcesNotSupported),
        ExportItem::Other => Ok(ExportStep::Skip),
    }
}

/// The `char` that a plugin returned as `v`, if `v` is a Unicode scalar
/// value (`char::from_u32`).
#[verifier::external_body]
fn char_from_u32(v: u32) -> (r: Option<char>)
    ensures
        r is Some <==> (v < 0xD800 || (0xE000 <= v && v <= 0x10FFFF)),
        r matches Some(c) ==> c as u32 == v,
{
    char::from_u32(v)
}

/// The `char` that a plugin returned, or the value that is none.
pub fn returned_char(v: u32) -> (r: Result<char, u32>)
    ensures
        (v < 0xD800 || (0xE000 <= v && v <= 0x10FFFF)) ==> (r matches Ok(c) && c as u32 == v),
        !(v < 0xD800 || (0xE000 <= v && v <= 0x10FFFF)) ==> r == Err::<char, u32>(v),
{
    match char_from_u32(v) {
        Some(c) => Ok(c),
        None => Err(v),
    }
}

/// The byte a `bool` is passed to a plugin as.
pub fn bool_to_byte(v: bool) -> (r: u8)
    ensures
        r == (if v {
            1u8
        } else {
            0u8
        }),
{
    if v {
        1
    } else {
        0
    }
}

/// The `bool` that a plugin's byte means.
pub fn byte_to_bool(b: u8) -> (r: bool)
    ensures
        r == (b != 0),
{
    b != 0
}

/// Whether a path has a root, as `std::path::Path::has_root` says.
pub uninterp spec fn path_has_root(p: Seq<char>) -> bool;

/// Whether a path's file name has an extension, as
/// `std::path::Path::extension` says.
pub uninterp spec fn path_has_extension(p: Seq<char>) -> bool;

/// A path's parent, as `std::path::Path::parent` gives it: `None` for a
/// root or the empty path.
pub uninterp spec fn path_parent(p: Seq<char>) -> Option<Seq<char>>;

/// `std::path::Path::has_root`.
#[verifier::external_body]
fn has_root(p: &str) -> (r: bool)
    ensures
        r == path_has_root(p@),
{
    std::path::Path::new(p).has_root()
}

/// Whether `std::path::Path::extension` finds an extension.
#[verifier::external_body]
fn has_extension(p: &str) -> (r: bool)
    ensures
        r == path_has_extension(p@),
{
    std::path::Path::new(p).extension().is_some()
}

/// The parent of the path `p` (`std::path::Path::parent`). A parent of a
/// path made of a `str` is a leading part of it, cut before a separator,
/// so its text converts without loss.
#[verifier::external_body]
fn parent_of(p: &str) -> (r: Option<String>)
    ensures
        r is Some <==> path_parent(p@) is Some,
        r matches Some(q) ==> path_parent(p@) == Some(q@),
{
    match std::path::Path::new(p).parent() {
        Some(q) => Some(q.to_string_lossy().into_owned()),
        None => None,
    }
}

/// Whether a path's parent is the empty path: it names a file with no
/// directory before it.
pub open spec fn parent_is_empty_spec(p: Seq<char>) -> bool {
    path_parent(p) == Some(Seq::<char>::empty())
}

/// Whether the parent of `p` is the empty path.
pub fn parent_is_empty(p: &str) -> (r: bool)
    ensures
        r == parent_is_empty_spec(p@),
{
    match parent_of(p) {
        Some(q) => {
            proof {
                if q@.len() == 0 {
                    assert(q@ =~= Seq::<char>::empty());
                }
            }
            q.as_str().is_empty()
        },
        None => false,
    }
}

/// Whether a plugin's `src` is loaded as the path it is, rather than as the
/// name of a library that the platform's naming turns into a file name: it
/// is where it has a root, an extension, or a directory before it.
pub fn load_as_path(src: &str) -> (r: bool)
    ensures
        r == (path_has_root(src@) || path_has_extension(src@) || !parent_is_empty_spec(src@)),
{
    has_root(src) || has_extension(src) || !parent_is_empty(src)
}

} // verus!
