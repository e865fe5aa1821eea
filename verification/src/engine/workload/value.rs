//! Moving component values between two stores.
//!
//! Plain data is copied as it is. A resource handle cannot be copied: the
//! entry that it names lives in the table of the store it came from. Each
//! handle is therefore looked at on its own, and the move of its entry (from
//! one table to the other, into or out of the host's table) is handed to the
//! caller's `convert`, together with the [`ResourceAction`] that decides it.
use vstd::prelude::*;

use crate::engine::resource_types::{HostResource, ResourceKind};

verus! {

/// A resource handle together with what it refers to.
#[derive(Copy, Clone, Debug)]
pub struct ResourceAny<R> {
    /// The type of the resource, as seen from the store that holds it.
    pub kind: ResourceKind,
    /// Whether the handle owns the resource (rather than borrowing it).
    pub owned: bool,
    /// The handle itself.
    pub handle: R,
}

/// A component value.
///
/// Floating-point numbers are carried by their bit patterns.
#[derive(Debug)]
pub enum Value<R> {
    Bool(bool),
    S8(i8),
    U8(u8),
    S16(i16),
    U16(u16),
    S32(i32),
    U32(u32),
    S64(i64),
    U64(u64),
    Float32(u32),
    Float64(u64),
    Char(char),
    Str(String),
    List(Vec<Value<R>>),
    Record(Vec<(String, Value<R>)>),
    Tuple(Vec<Value<R>>),
    Variant(String, Option<Box<Value<R>>>),
    Enum(String),
    Opt(Option<Box<Value<R>>>),
    ResOk(Option<Box<Value<R>>>),
    ResErr(Option<Box<Value<R>>>),
    Flags(Vec<String>),
    Resource(ResourceAny<R>),
}

/// What must happen to one resource handle when a value moves.
#[derive(Copy, Clone, Debug, PartialEq, Eq, Structural)]
pub enum ResourceAction {
    /// Move an owned host resource from one store's table to the other's.
    Transfer(HostResource),
    /// Look up a borrowed host resource; moving a borrow is not supported.
    Inspect(HostResource),
    /// Take an owned guest resource out of the host's table.
    Unwrap,
    /// Copy the handle of a borrowed guest resource kept in the host's table.
    CloneHeld,
    /// Put a resource into the host's table on the guest's behalf.
    Wrap,
}

/// Why a value could not be moved.
#[derive(Debug)]
pub enum ConvertError<E> {
    /// The value borrows a host resource, which cannot be moved.
    Unsupported,
    /// Moving one of the resources failed.
    Resource(E),
}

/// The host resource types whose entries follow a value to the other store.
pub open spec fn moves_with_value(h: HostResource) -> bool {
    h != HostResource::IoError
}

/// What lowering a value into the other store does with a handle of this
/// kind; `None` leaves the handle as it is.
pub open spec fn lower_action(kind: ResourceKind, owned: bool) -> Option<ResourceAction> {
    match kind {
        ResourceKind::Host(h) => if !moves_with_value(h) {
            None
        } else if owned {
            Some(ResourceAction::Transfer(h))
        } else {
            Some(ResourceAction::Inspect(h))
        },
        ResourceKind::Held => if owned {
            Some(ResourceAction::Unwrap)
        } else {
            Some(ResourceAction::CloneHeld)
        },
        ResourceKind::Guest => None,
    }
}

/// What lifting a value back out of the other store does with a handle of
/// this kind.
pub open spec fn lift_action(kind: ResourceKind, owned: bool) -> ResourceAction {
    match kind {
        ResourceKind::Host(h) => if !moves_with_value(h) {
            ResourceAction::Wrap
        } else if owned {
            ResourceAction::Transfer(h)
        } else {
            ResourceAction::Inspect(h)
        },
        _ => ResourceAction::Wrap,
    }
}

/// Whether some resource handle in `v` satisfies `p`.
pub open spec fn any_resource<R>(v: Value<R>, p: spec_fn(ResourceAny<R>) -> bool) -> bool
    decreases v, 0nat,
{
    match v {
        Value::List(vs) => any_resource_in(vs@, p),
        Value::Tuple(vs) => any_resource_in(vs@, p),
        Value::Record(fs) => any_resource_in_fields(fs@, p),
        Value::Variant(_, Some(b)) => any_resource(*b, p),
        Value::Opt(Some(b)) => any_resource(*b, p),
        Value::ResOk(Some(b)) => any_resource(*b, p),
        Value::ResErr(Some(b)) => any_resource(*b, p),
        Value::Resource(r) => p(r),
        _ => false,
    }
}

/// Whether some resource handle in one of the values `vs` satisfies `p`.
pub open spec fn any_resource_in<R>(vs: Seq<Value<R>>, p: spec_fn(ResourceAny<R>) -> bool) -> bool
    decreases vs, vs.len(),
{
    if vs.len() == 0 {
        false
    } else {
        any_resource_in(vs.drop_last(), p) || any_resource(vs.last(), p)
    }
}

/// Whether some resource handle in one of the fields `fs` satisfies `p`.
pub open spec fn any_resource_in_fields<R>(
    fs: Seq<(String, Value<R>)>,
    p: spec_fn(ResourceAny<R>) -> bool,
) -> bool
    decreases fs, fs.len(),
{
    if fs.len() == 0 {
        false
    } else {
        proof {
            assert(decreases_to!(fs => fs.last()));
        }
        any_resource_in_fields(fs.drop_last(), p) || any_resource(fs.last().1, p)
    }
}

/// Whether `w` is `v` with every resource handle `a` of `v` replaced by a
/// handle `b` for which `leaf(a, b)` holds, and everything else unchanged.
pub open spec fn converted<R>(
    v: Value<R>,
    w: Value<R>,
    leaf: spec_fn(ResourceAny<R>, ResourceAny<R>) -> bool,
) -> bool
    decreases v, 0nat,
{
    match v {
        Value::List(vs) => w matches Value::List(ws) && converted_all(vs@, ws@, leaf),
        Value::Tuple(vs) => w matches Value::Tuple(ws) && converted_all(vs@, ws@, leaf),
        Value::Record(fs) => w matches Value::Record(gs) && converted_fields(fs@, gs@, leaf),
        Value::Variant(k, None) => w == Value::<R>::Variant(k, None),
        Value::Variant(k, Some(b)) => w matches Value::Variant(k2, Some(b2)) && k2 == k
            && converted(*b, *b2, leaf),
        Value::Opt(None) => w == Value::<R>::Opt(None),
        Value::Opt(Some(b)) => w matches Value::Opt(Some(b2)) && converted(*b, *b2, leaf),
        Value::ResOk(None) => w == Value::<R>::ResOk(None),
        Value::ResOk(Some(b)) => w matches Value::ResOk(Some(b2)) && converted(*b, *b2, leaf),
        Value::ResErr(None) => w == Value::<R>::ResErr(None),
        Value::ResErr(Some(b)) => w matches Value::ResErr(Some(b2)) && converted(*b, *b2, leaf),
        Value::Flags(fl) => w matches Value::Flags(fl2) && fl2@ == fl@,
        Value::Resource(r) => w matches Value::Resource(r2) && leaf(r, r2),
        _ => w == v,
    }
}

/// [`converted`], element by element.
pub open spec fn converted_all<R>(
    vs: Seq<Value<R>>,
    ws: Seq<Value<R>>,
    leaf: spec_fn(ResourceAny<R>, ResourceAny<R>) -> bool,
) -> bool
    decreases vs, vs.len(),
{
    if vs.len() == 0 {
        ws.len() == 0
    } else {
        &&& ws.len() > 0
        &&& converted_all(vs.drop_last(), ws.drop_last(), leaf)
        &&& converted(vs.last(), ws.last(), leaf)
    }
}

/// [`converted`], field by field, with the names unchanged.
pub open spec fn converted_fields<R>(
    fs: Seq<(String, Value<R>)>,
    gs: Seq<(String, Value<R>)>,
    leaf: spec_fn(ResourceAny<R>, ResourceAny<R>) -> bool,
) -> bool
    decreases fs, fs.len(),
{
    if fs.len() == 0 {
        gs.len() == 0
    } else {
        proof {
            assert(decreases_to!(fs => fs.last()));
        }
        &&& gs.len() > 0
        &&& converted_fields(fs.drop_last(), gs.drop_last(), leaf)
        &&& gs.last().0 == fs.last().0
        &&& converted(fs.last().1, gs.last().1, leaf)
    }
}

/// The handles that lowering has to act on.
pub open spec fn needs_lowering<R>() -> spec_fn(ResourceAny<R>) -> bool {
    |a: ResourceAny<R>| lower_action(a.kind, a.owned) is Some
}

/// The borrowed host resources, which lowering cannot move.
pub open spec fn borrowed_host_for_lowering<R>() -> spec_fn(ResourceAny<R>) -> bool {
    |a: ResourceAny<R>| lower_action(a.kind, a.owned) matches Some(ResourceAction::Inspect(_))
}

/// The handles for which `convert` failed with `e` when lowering.
pub open spec fn lowering_failed<R, E, F: Fn(ResourceAction, R) -> Result<ResourceAny<R>, E>>(
    convert: F,
    e: E,
) -> spec_fn(ResourceAny<R>) -> bool {
    |a: ResourceAny<R>|
        lower_action(a.kind, a.owned) matches Some(act) && call_ensures(
            convert,
            (act, a.handle),
            Err(e),
        )
}

/// How lowering relates a handle `a` to the handle `b` that replaces it:
/// unchanged where there is nothing to do, else what `convert` gave back.
pub open spec fn lowering<R, E, F: Fn(ResourceAction, R) -> Result<ResourceAny<R>, E>>(
    convert: F,
) -> spec_fn(ResourceAny<R>, ResourceAny<R>) -> bool {
    |a: ResourceAny<R>, b: ResourceAny<R>|
        match lower_action(a.kind, a.owned) {
            None => b == a,
            Some(act) => !(act is Inspect) && call_ensures(convert, (act, a.handle), Ok(b)),
        }
}

fn moves_with_value_exec(h: HostResource) -> (r: bool)
    ensures
        r == moves_with_value(h),
{
    match h {
        HostResource::IoError => false,
        _ => true,
    }
}

/// What lowering does with the handle `r`.
pub fn lower_action_of<R>(r: &ResourceAny<R>) -> (a: Option<ResourceAction>)
    ensures
        a == lower_action(r.kind, r.owned),
{
    match r.kind {
        ResourceKind::Host(h) => if !moves_with_value_exec(h) {
            None
        } else if r.owned {
            Some(ResourceAction::Transfer(h))
        } else {
            Some(ResourceAction::Inspect(h))
        },
        ResourceKind::Held => if r.owned {
            Some(ResourceAction::Unwrap)
        } else {
            Some(ResourceAction::CloneHeld)
        },
        ResourceKind::Guest => None,
    }
}

/// What lifting does with the handle `r`.
pub fn lift_action_of<R>(r: &ResourceAny<R>) -> (a: ResourceAction)
    ensures
        a == lift_action(r.kind, r.owned),
{
    match r.kind {
        ResourceKind::Host(h) => if !moves_with_value_exec(h) {
            ResourceAction::Wrap
        } else if r.owned {
            ResourceAction::Transfer(h)
        } else {
            ResourceAction::Inspect(h)
        },
        _ => ResourceAction::Wrap,
    }
}

fn clone_names(names: &Vec<String>) -> (r: Vec<String>)
    ensures
        r@ == names@,
{
    let mut r: Vec<String> = Vec::new();
    let mut i: usize = 0;
    while i < names.len()
        invariant
            i <= names.len(),
            r@ == names@.subrange(0, i as int),
        decreases names.len() - i,
    {
        r.push(names[i].clone());
        i += 1;
    }
    r
}

proof fn lemma_any_in<R>(vs: Seq<Value<R>>, i: int, p: spec_fn(ResourceAny<R>) -> bool)
    requires
        0 <= i < vs.len(),
        any_resource(vs[i], p),
    ensures
        any_resource_in(vs, p),
    decreases vs.len(),
{
    if i < vs.len() - 1 {
        lemma_any_in(vs.drop_last(), i, p);
    }
}

proof fn lemma_any_in_fields<R>(
    fs: Seq<(String, Value<R>)>,
    i: int,
    p: spec_fn(ResourceAny<R>) -> bool,
)
    requires
        0 <= i < fs.len(),
        any_resource(fs[i].1, p),
    ensures
        any_resource_in_fields(fs, p),
    decreases fs.len(),
{
    if i < fs.len() - 1 {
        lemma_any_in_fields(fs.drop_last(), i, p);
    }
}

proof fn lemma_converted_all_step<R>(
    vs: Seq<Value<R>>,
    ws: Seq<Value<R>>,
    i: int,
    w: Value<R>,
    leaf: spec_fn(ResourceAny<R>, ResourceAny<R>) -> bool,
)
    requires
        0 <= i < vs.len(),
        converted_all(vs.subrange(0, i), ws, leaf),
        converted(vs[i], w, leaf),
    ensures
        converted_all(vs.subrange(0, i + 1), ws.push(w), leaf),
{
    assert(vs.subrange(0, i + 1).drop_last() =~= vs.subrange(0, i));
    assert(ws.push(w).drop_last() =~= ws);
}

proof fn lemma_converted_fields_step<R>(
    fs: Seq<(String, Value<R>)>,
    gs: Seq<(String, Value<R>)>,
    i: int,
    g: (String, Value<R>),
    leaf: spec_fn(ResourceAny<R>, ResourceAny<R>) -> bool,
)
    requires
        0 <= i < fs.len(),
        converted_fields(fs.subrange(0, i), gs, leaf),
        g.0 == fs[i].0,
        converted(fs[i].1, g.1, leaf),
    ensures
        converted_fields(fs.subrange(0, i + 1), gs.push(g), leaf),
{
    assert(fs.subrange(0, i + 1).drop_last() =~= fs.subrange(0, i));
    assert(gs.push(g).drop_last() =~= gs);
}

fn lower_resource<R: Copy, E, F: Fn(ResourceAction, R) -> Result<ResourceAny<R>, E>>(
    convert: &F,
    res: &ResourceAny<R>,
) -> (r: Result<ResourceAny<R>, ConvertError<E>>)
    requires
        forall|a: ResourceAction, h: R| call_requires(*convert, (a, h)),
    ensures
        r matches Ok(b) ==> (lowering(*convert))(*res, b),
        !(needs_lowering())(*res) ==> r is Ok,
        r matches Err(ConvertError::Unsupported) ==> (borrowed_host_for_lowering())(*res),
        r matches Err(ConvertError::Resource(e)) ==> (lowering_failed(*convert, e))(*res),
{
    match lower_action_of(res) {
        None => Ok(*res),
        Some(ResourceAction::Inspect(h)) => match convert(ResourceAction::Inspect(h), res.handle) {
            Ok(_) => Err(ConvertError::Unsupported),
            Err(e) => Err(ConvertError::Resource(e)),
        },
        Some(act) => match convert(act, res.handle) {
            Ok(b) => Ok(b),
            Err(e) => Err(ConvertError::Resource(e)),
        },
    }
}

fn lower_all<R: Copy, E, F: Fn(ResourceAction, R) -> Result<ResourceAny<R>, E>>(
    convert: &F,
    vs: &Vec<Value<R>>,
) -> (r: Result<Vec<Value<R>>, ConvertError<E>>)
    requires
        forall|a: ResourceAction, h: R| call_requires(*convert, (a, h)),
    ensures
        r matches Ok(ws) ==> converted_all(vs@, ws@, lowering(*convert)),
        !any_resource_in(vs@, needs_lowering()) ==> r is Ok,
        r matches Err(ConvertError::Unsupported) ==> any_resource_in(
            vs@,
            borrowed_host_for_lowering(),
        ),
        r matches Err(ConvertError::Resource(e)) ==> any_resource_in(
            vs@,
            lowering_failed(*convert, e),
        ),
    decreases vs,
{
    let mut ws: Vec<Value<R>> = Vec::new();
    let mut i: usize = 0;
    while i < vs.len()
        invariant
            i <= vs.len(),
            converted_all(vs@.subrange(0, i as int), ws@, lowering(*convert)),
            forall|a: ResourceAction, h: R| call_requires(*convert, (a, h)),
        decreases vs.len() - i,
    {
        proof {
            assert(decreases_to!(*vs => vs@));
            assert(decreases_to!(vs@ => vs@[i as int]));
        }
        match lower(convert, &vs[i]) {
            Ok(w) => {
                proof {
                    lemma_converted_all_step(vs@, ws@, i as int, w, lowering(*convert));
                }
                ws.push(w);
            },
            Err(e) => {
                proof {
                    lemma_any_in(vs@, i as int, needs_lowering());
                    if e is Unsupported {
                        lemma_any_in(vs@, i as int, borrowed_host_for_lowering());
                    }
                    if e is Resource {
                        lemma_any_in(vs@, i as int, lowering_failed(*convert, e->Resource_0));
                    }
                }
                return Err(e);
            },
        }
        i += 1;
    }
    proof {
        assert(vs@.subrange(0, vs.len() as int) =~= vs@);
    }
    Ok(ws)
}

fn lower_fields<R: Copy, E, F: Fn(ResourceAction, R) -> Result<ResourceAny<R>, E>>(
    convert: &F,
    fs: &Vec<(String, Value<R>)>,
) -> (r: Result<Vec<(String, Value<R>)>, ConvertError<E>>)
    requires
        forall|a: ResourceAction, h: R| call_requires(*convert, (a, h)),
    ensures
        r matches Ok(gs) ==> converted_fields(fs@, gs@, lowering(*convert)),
        !any_resource_in_fields(fs@, needs_lowering()) ==> r is Ok,
        r matches Err(ConvertError::Unsupported) ==> any_resource_in_fields(
            fs@,
            borrowed_host_for_lowering(),
        ),
        r matches Err(ConvertError::Resource(e)) ==> any_resource_in_fields(
            fs@,
            lowering_failed(*convert, e),
        ),
    decreases fs,
{
    let mut gs: Vec<(String, Value<R>)> = Vec::new();
    let mut i: usize = 0;
    while i < fs.len()
        invariant
            i <= fs.len(),
            converted_fields(fs@.subrange(0, i as int), gs@, lowering(*convert)),
            forall|a: ResourceAction, h: R| call_requires(*convert, (a, h)),
        decreases fs.len() - i,
    {
        proof {
            assert(decreases_to!(*fs => fs@));
            assert(decreases_to!(fs@ => fs@[i as int]));
            assert(decreases_to!(fs@[i as int] => fs@[i as int].1));
        }
        match lower(convert, &fs[i].1) {
            Ok(w) => {
                let g = (fs[i].0.clone(), w);
                proof {
                    lemma_converted_fields_step(fs@, gs@, i as int, g, lowering(*convert));
                }
                gs.push(g);
            },
            Err(e) => {
                proof {
                    lemma_any_in_fields(fs@, i as int, needs_lowering());
                    if e is Unsupported {
                        lemma_any_in_fields(fs@, i as int, borrowed_host_for_lowering());
                    }
                    if e is Resource {
                        lemma_any_in_fields(fs@, i as int, lowering_failed(*convert, e->Resource_0));
                    }
                }
                return Err(e);
            },
        }
        i += 1;
    }
    proof {
        assert(fs@.subrange(0, fs.len() as int) =~= fs@);
    }
    Ok(gs)
}

/// Lowers `v` into another store: plain data is copied, and each resource
/// handle is moved by `convert` as [`lower_action`] decides. The first
/// failure, in the order in which the value is laid out, ends the move.
pub fn lower<R: Copy, E, F: Fn(ResourceAction, R) -> Result<ResourceAny<R>, E>>(
    convert: &F,
    v: &Value<R>,
) -> (r: Result<Value<R>, ConvertError<E>>)
    requires
        forall|a: ResourceAction, h: R| call_requires(*convert, (a, h)),
    ensures
        r matches Ok(w) ==> converted(*v, w, lowering(*convert)),
        !any_resource(*v, needs_lowering()) ==> r is Ok,
        r matches Err(ConvertError::Unsupported) ==> any_resource(*v, borrowed_host_for_lowering()),
        r matches Err(ConvertError::Resource(e)) ==> any_resource(
            *v,
            lowering_failed(*convert, e),
        ),
    decreases v,
{
    match v {
        Value::Bool(x) => Ok(Value::Bool(*x)),
        Value::S8(x) => Ok(Value::S8(*x)),
        Value::U8(x) => Ok(Value::U8(*x)),
        Value::S16(x) => Ok(Value::S16(*x)),
        Value::U16(x) => Ok(Value::U16(*x)),
        Value::S32(x) => Ok(Value::S32(*x)),
        Value::U32(x) => Ok(Value::U32(*x)),
        Value::S64(x) => Ok(Value::S64(*x)),
        Value::U64(x) => Ok(Value::U64(*x)),
        Value::Float32(x) => Ok(Value::Float32(*x)),
        Value::Float64(x) => Ok(Value::Float64(*x)),
        Value::Char(x) => Ok(Value::Char(*x)),
        Value::Str(x) => Ok(Value::Str(x.clone())),
        Value::List(vs) => match lower_all(convert, vs) {
            Ok(ws) => Ok(Value::List(ws)),
            Err(e) => Err(e),
        },
        Value::Record(fs) => match lower_fields(convert, fs) {
            Ok(gs) => Ok(Value::Record(gs)),
            Err(e) => Err(e),
        },
        Value::Tuple(vs) => match lower_all(convert, vs) {
            Ok(ws) => Ok(Value::Tuple(ws)),
            Err(e) => Err(e),
        },
        Value::Variant(k, None) => Ok(Value::Variant(k.clone(), None)),
        Value::Variant(k, Some(b)) => match lower(convert, b) {
            Ok(w) => Ok(Value::Variant(k.clone(), Some(Box::new(w)))),
            Err(e) => Err(e),
        },
        Value::Enum(k) => Ok(Value::Enum(k.clone())),
        Value::Opt(None) => Ok(Value::Opt(None)),
        Value::Opt(Some(b)) => match lower(convert, b) {
            Ok(w) => Ok(Value::Opt(Some(Box::new(w)))),
            Err(e) => Err(e),
        },
        Value::ResOk(None) => Ok(Value::ResOk(None)),
        Value::ResOk(Some(b)) => match lower(convert, b) {
            Ok(w) => Ok(Value::ResOk(Some(Box::new(w)))),
            Err(e) => Err(e),
        },
        Value::ResErr(None) => Ok(Value::ResErr(None)),
        Value::ResErr(Some(b)) => match lower(convert, b) {
            Ok(w) => Ok(Value::ResErr(Some(Box::new(w)))),
            Err(e) => Err(e),
        },
        Value::Flags(fl) => Ok(Value::Flags(clone_names(fl))),
        Value::Resource(res) => match lower_resource(convert, res) {
            Ok(b) => Ok(Value::Resource(b)),
            Err(e) => Err(e),
        },
    }
}


/// Every resource handle.
pub open spec fn every_handle<R>() -> spec_fn(ResourceAny<R>) -> bool {
    |a: ResourceAny<R>| true
}

/// The borrowed host resources, which lifting cannot move.
pub open spec fn borrowed_host_for_lifting<R>() -> spec_fn(ResourceAny<R>) -> bool {
    |a: ResourceAny<R>| lift_action(a.kind, a.owned) is Inspect
}

/// The handles for which `convert` failed with `e` when lifting.
pub open spec fn lifting_failed<R, E, F: Fn(ResourceAction, R) -> Result<ResourceAny<R>, E>>(
    convert: F,
    e: E,
) -> spec_fn(ResourceAny<R>) -> bool {
    |a: ResourceAny<R>| call_ensures(convert, (lift_action(a.kind, a.owned), a.handle), Err(e))
}

/// How lifting relates a handle `a` to the handle `b` that replaces it: what
/// `convert` gave back for the action that [`lift_action`] decides.
pub open spec fn lifting<R, E, F: Fn(ResourceAction, R) -> Result<ResourceAny<R>, E>>(
    convert: F,
) -> spec_fn(ResourceAny<R>, ResourceAny<R>) -> bool {
    |a: ResourceAny<R>, b: ResourceAny<R>|
        !(lift_action(a.kind, a.owned) is Inspect) && call_ensures(
            convert,
            (lift_action(a.kind, a.owned), a.handle),
            Ok(b),
        )
}

fn lift_resource<R: Copy, E, F: Fn(ResourceAction, R) -> Result<ResourceAny<R>, E>>(
    convert: &F,
    res: ResourceAny<R>,
) -> (r: Result<ResourceAny<R>, ConvertError<E>>)
    requires
        forall|a: ResourceAction, h: R| call_requires(*convert, (a, h)),
    ensures
        r matches Ok(b) ==> (lifting(*convert))(res, b),
        r matches Err(ConvertError::Unsupported) ==> (borrowed_host_for_lifting())(res),
        r matches Err(ConvertError::Resource(e)) ==> (lifting_failed(*convert, e))(res),
{
    let act = lift_action_of(&res);
    match act {
        ResourceAction::Inspect(_) => match convert(act, res.handle) {
            Ok(_) => Err(ConvertError::Unsupported),
            Err(e) => Err(ConvertError::Resource(e)),
        },
        _ => match convert(act, res.handle) {
            Ok(b) => Ok(b),
            Err(e) => Err(ConvertError::Resource(e)),
        },
    }
}

/// The elements of `vs` in reverse order.
fn reversed<T>(vs: Vec<T>) -> (r: Vec<T>)
    ensures
        r@ == vs@.reverse(),
{
    let ghost orig = vs@;
    let mut rest = vs;
    let mut r: Vec<T> = Vec::new();
    while rest.len() > 0
        invariant
            rest@ == orig.subrange(0, rest.len() as int),
            r.len() + rest.len() == orig.len(),
            forall|j: int| 0 <= j < r.len() ==> #[trigger] r@[j] == orig[orig.len() - 1 - j],
        decreases rest.len(),
    {
        let x = rest.pop().unwrap();
        r.push(x);
    }
    proof {
        assert(r@ =~= orig.reverse());
    }
    r
}

fn lift_all<R: Copy, E, F: Fn(ResourceAction, R) -> Result<ResourceAny<R>, E>>(
    convert: &F,
    vs: Vec<Value<R>>,
) -> (r: Result<Vec<Value<R>>, ConvertError<E>>)
    requires
        forall|a: ResourceAction, h: R| call_requires(*convert, (a, h)),
    ensures
        r matches Ok(ws) ==> converted_all(vs@, ws@, lifting(*convert)),
        !any_resource_in(vs@, every_handle()) ==> r is Ok,
        r matches Err(ConvertError::Unsupported) ==> any_resource_in(
            vs@,
            borrowed_host_for_lifting(),
        ),
        r matches Err(ConvertError::Resource(e)) ==> any_resource_in(
            vs@,
            lifting_failed(*convert, e),
        ),
    decreases vs,
{
    let ghost orig = vs;
    let n = vs.len();
    let mut pending = reversed(vs);
    let mut ws: Vec<Value<R>> = Vec::new();
    while pending.len() > 0
        invariant
            n == orig.len(),
            orig == vs,
            pending.len() + ws.len() == n,
            forall|j: int| 0 <= j < pending.len() ==> #[trigger] pending@[j] == orig@[n - 1 - j],
            converted_all(orig@.subrange(0, ws.len() as int), ws@, lifting(*convert)),
            forall|a: ResourceAction, h: R| call_requires(*convert, (a, h)),
        decreases pending.len(),
    {
        let ghost i = ws.len() as int;
        let x = pending.pop().unwrap();
        proof {
            assert(x == vs@[i]);
            assert(decreases_to!(vs => vs@));
            assert(decreases_to!(vs@ => vs@[i]));
        }
        match lift(convert, x) {
            Ok(w) => {
                proof {
                    lemma_converted_all_step(orig@, ws@, i, w, lifting(*convert));
                }
                ws.push(w);
            },
            Err(e) => {
                proof {
                    lemma_any_in(orig@, i, every_handle());
                    if e is Unsupported {
                        lemma_any_in(orig@, i, borrowed_host_for_lifting());
                    }
                    if e is Resource {
                        lemma_any_in(orig@, i, lifting_failed(*convert, e->Resource_0));
                    }
                }
                return Err(e);
            },
        }
    }
    proof {
        assert(orig@.subrange(0, n as int) =~= orig@);
    }
    Ok(ws)
}

fn lift_fields<R: Copy, E, F: Fn(ResourceAction, R) -> Result<ResourceAny<R>, E>>(
    convert: &F,
    fs: Vec<(String, Value<R>)>,
) -> (r: Result<Vec<(String, Value<R>)>, ConvertError<E>>)
    requires
        forall|a: ResourceAction, h: R| call_requires(*convert, (a, h)),
    ensures
        r matches Ok(gs) ==> converted_fields(fs@, gs@, lifting(*convert)),
        !any_resource_in_fields(fs@, every_handle()) ==> r is Ok,
        r matches Err(ConvertError::Unsupported) ==> any_resource_in_fields(
            fs@,
            borrowed_host_for_lifting(),
        ),
        r matches Err(ConvertError::Resource(e)) ==> any_resource_in_fields(
            fs@,
            lifting_failed(*convert, e),
        ),
    decreases fs,
{
    let ghost orig = fs;
    let n = fs.len();
    let mut pending = reversed(fs);
    let mut gs: Vec<(String, Value<R>)> = Vec::new();
    while pending.len() > 0
        invariant
            n == orig.len(),
            orig == fs,
            pending.len() + gs.len() == n,
            forall|j: int| 0 <= j < pending.len() ==> #[trigger] pending@[j] == orig@[n - 1 - j],
            converted_fields(orig@.subrange(0, gs.len() as int), gs@, lifting(*convert)),
            forall|a: ResourceAction, h: R| call_requires(*convert, (a, h)),
        decreases pending.len(),
    {
        let ghost i = gs.len() as int;
        let (name, x) = pending.pop().unwrap();
        proof {
            assert(x == fs@[i].1);
            assert(decreases_to!(fs => fs@));
            assert(decreases_to!(fs@ => fs@[i]));
            assert(decreases_to!(fs@[i] => fs@[i].1));
        }
        match lift(convert, x) {
            Ok(w) => {
                let g = (name, w);
                proof {
                    lemma_converted_fields_step(orig@, gs@, i, g, lifting(*convert));
                }
                gs.push(g);
            },
            Err(e) => {
                proof {
                    lemma_any_in_fields(orig@, i, every_handle());
                    if e is Unsupported {
                        lemma_any_in_fields(orig@, i, borrowed_host_for_lifting());
                    }
                    if e is Resource {
                        lemma_any_in_fields(orig@, i, lifting_failed(*convert, e->Resource_0));
                    }
                }
                return Err(e);
            },
        }
    }
    proof {
        assert(orig@.subrange(0, n as int) =~= orig@);
    }
    Ok(gs)
}

/// Lifts `v` back out of another store: plain data is kept, and each
/// resource handle is moved by `convert` as [`lift_action`] decides. The
/// first failure, in the order in which the value is laid out, ends the move.
pub fn lift<R: Copy, E, F: Fn(ResourceAction, R) -> Result<ResourceAny<R>, E>>(
    convert: &F,
    v: Value<R>,
) -> (r: Result<Value<R>, ConvertError<E>>)
    requires
        forall|a: ResourceAction, h: R| call_requires(*convert, (a, h)),
    ensures
        r matches Ok(w) ==> converted(v, w, lifting(*convert)),
        !any_resource(v, every_handle()) ==> r is Ok,
        r matches Err(ConvertError::Unsupported) ==> any_resource(v, borrowed_host_for_lifting()),
        r matches Err(ConvertError::Resource(e)) ==> any_resource(v, lifting_failed(*convert, e)),
    decreases v,
{
    match v {
        Value::List(vs) => match lift_all(convert, vs) {
            Ok(ws) => Ok(Value::List(ws)),
            Err(e) => Err(e),
        },
        Value::Record(fs) => match lift_fields(convert, fs) {
            Ok(gs) => Ok(Value::Record(gs)),
            Err(e) => Err(e),
        },
        Value::Tuple(vs) => match lift_all(convert, vs) {
            Ok(ws) => Ok(Value::Tuple(ws)),
            Err(e) => Err(e),
        },
        Value::Variant(k, Some(b)) => match lift(convert, *b) {
            Ok(w) => Ok(Value::Variant(k, Some(Box::new(w)))),
            Err(e) => Err(e),
        },
        Value::Opt(Some(b)) => match lift(convert, *b) {
            Ok(w) => Ok(Value::Opt(Some(Box::new(w)))),
            Err(e) => Err(e),
        },
        Value::ResOk(Some(b)) => match lift(convert, *b) {
            Ok(w) => Ok(Value::ResOk(Some(Box::new(w)))),
            Err(e) => Err(e),
        },
        Value::ResErr(Some(b)) => match lift(convert, *b) {
            Ok(w) => Ok(Value::ResErr(Some(Box::new(w)))),
            Err(e) => Err(e),
        },
        Value::Resource(res) => match lift_resource(convert, res) {
            Ok(b) => Ok(Value::Resource(b)),
            Err(e) => Err(e),
        },
        other => Ok(other),
    }
}


/// Lowering and lifting treat a handle alike: an owned host resource moves
/// to the other store and back, a borrowed one cannot move either way, and
/// a guest resource that lifting keeps in the host's table on the guest's
/// behalf is taken back out of it by lowering.
pub proof fn lemma_lift_lower_agree(h: HostResource, owned: bool)
    ensures
        moves_with_value(h) ==> lower_action(ResourceKind::Host(h), owned) == Some(
            lift_action(ResourceKind::Host(h), owned),
        ),
        lift_action(ResourceKind::Guest, owned) == ResourceAction::Wrap,
        lower_action(ResourceKind::Held, true) == Some(ResourceAction::Unwrap),
        lower_action(ResourceKind::Guest, owned) is None,
{
}

/// Handles related by being the same handle.
pub open spec fn same_handle<R>() -> spec_fn(ResourceAny<R>, ResourceAny<R>) -> bool {
    |a: ResourceAny<R>, b: ResourceAny<R>| a == b
}

/// Lowering a lifted value gives the value back, where the stores undo each
/// move handle by handle: if `w` is `v` lifted (each handle `a` replaced by
/// a `b` with `up(a, b)`), `u` is `w` lowered (each `b` replaced by a `c`
/// with `down(b, c)`), and lowering what lifting gave always gives back the
/// handle lifted (`up(a, b) && down(b, c)` only for `c == a`: the entry
/// that lifting put into a table is the one that lowering takes out), then
/// `u` is `v`: the same plain values in the same places, and the same
/// handles. With `up` being [`lifting`] of one conversion and `down`
/// [`lowering`] of another, this speaks of [`lift`] followed by [`lower`].
pub proof fn lemma_lower_undoes_lift<R>(
    v: Value<R>,
    w: Value<R>,
    u: Value<R>,
    up: spec_fn(ResourceAny<R>, ResourceAny<R>) -> bool,
    down: spec_fn(ResourceAny<R>, ResourceAny<R>) -> bool,
)
    requires
        converted(v, w, up),
        converted(w, u, down),
        forall|a: ResourceAny<R>, b: ResourceAny<R>, c: ResourceAny<R>|
            #[trigger] up(a, b) && #[trigger] down(b, c) ==> c == a,
    ensures
        converted(v, u, same_handle()),
    decreases v, 0nat,
{
    match v {
        Value::List(vs) => {
            let ws = w->List_0;
            let us = u->List_0;
            lemma_lower_undoes_lift_all(vs@, ws@, us@, up, down);
        },
        Value::Tuple(vs) => {
            let ws = w->Tuple_0;
            let us = u->Tuple_0;
            lemma_lower_undoes_lift_all(vs@, ws@, us@, up, down);
        },
        Value::Record(fs) => {
            let gs = w->Record_0;
            let hs = u->Record_0;
            lemma_lower_undoes_lift_fields(fs@, gs@, hs@, up, down);
        },
        Value::Variant(k, Some(b)) => {
            let b2 = w->Variant_1->0;
            let b3 = u->Variant_1->0;
            lemma_lower_undoes_lift(*b, *b2, *b3, up, down);
        },
        Value::Opt(Some(b)) => {
            lemma_lower_undoes_lift(*b, *(w->Opt_0->0), *(u->Opt_0->0), up, down);
        },
        Value::ResOk(Some(b)) => {
            lemma_lower_undoes_lift(*b, *(w->ResOk_0->0), *(u->ResOk_0->0), up, down);
        },
        Value::ResErr(Some(b)) => {
            lemma_lower_undoes_lift(*b, *(w->ResErr_0->0), *(u->ResErr_0->0), up, down);
        },
        Value::Resource(a) => {
            assert(up(a, w->Resource_0) && down(w->Resource_0, u->Resource_0));
        },
        _ => {},
    }
}

/// [`lemma_lower_undoes_lift`], element by element.
pub proof fn lemma_lower_undoes_lift_all<R>(
    vs: Seq<Value<R>>,
    ws: Seq<Value<R>>,
    us: Seq<Value<R>>,
    up: spec_fn(ResourceAny<R>, ResourceAny<R>) -> bool,
    down: spec_fn(ResourceAny<R>, ResourceAny<R>) -> bool,
)
    requires
        converted_all(vs, ws, up),
        converted_all(ws, us, down),
        forall|a: ResourceAny<R>, b: ResourceAny<R>, c: ResourceAny<R>|
            #[trigger] up(a, b) && #[trigger] down(b, c) ==> c == a,
    ensures
        converted_all(vs, us, same_handle()),
    decreases vs, vs.len(),
{
    if vs.len() > 0 {
        lemma_lower_undoes_lift_all(vs.drop_last(), ws.drop_last(), us.drop_last(), up, down);
        lemma_lower_undoes_lift(vs.last(), ws.last(), us.last(), up, down);
    }
}

/// [`lemma_lower_undoes_lift`], field by field.
pub proof fn lemma_lower_undoes_lift_fields<R>(
    fs: Seq<(String, Value<R>)>,
    gs: Seq<(String, Value<R>)>,
    hs: Seq<(String, Value<R>)>,
    up: spec_fn(ResourceAny<R>, ResourceAny<R>) -> bool,
    down: spec_fn(ResourceAny<R>, ResourceAny<R>) -> bool,
)
    requires
        converted_fields(fs, gs, up),
        converted_fields(gs, hs, down),
        forall|a: ResourceAny<R>, b: ResourceAny<R>, c: ResourceAny<R>|
            #[trigger] up(a, b) && #[trigger] down(b, c) ==> c == a,
    ensures
        converted_fields(fs, hs, same_handle()),
    decreases fs, fs.len(),
{
    if fs.len() > 0 {
        assert(decreases_to!(fs => fs.last()));
        lemma_lower_undoes_lift_fields(fs.drop_last(), gs.drop_last(), hs.drop_last(), up, down);
        lemma_lower_undoes_lift(fs.last().1, gs.last().1, hs.last().1, up, down);
    }
}

/// Every host resource but an I/O error follows the value it is in: an
/// owned input stream, output stream, pollable or TCP socket is transferred
/// to the other store, whether lowered or lifted, and a borrowed one is
/// only looked up (and so cannot move). An I/O error stays where it is when
/// lowered and is wrapped as a guest resource when lifted. A guest resource
/// held by the host is taken out of its table (owned) or has its handle
/// copied (borrowed) when lowered; a guest's own resource is left as it is.
pub proof fn lemma_resources_follow_their_kind(owned: bool)
    ensures
        lower_action(ResourceKind::Host(HostResource::InputStream), true) == Some(
            ResourceAction::Transfer(HostResource::InputStream),
        ),
        lower_action(ResourceKind::Host(HostResource::OutputStream), true) == Some(
            ResourceAction::Transfer(HostResource::OutputStream),
        ),
        lower_action(ResourceKind::Host(HostResource::Pollable), true) == Some(
            ResourceAction::Transfer(HostResource::Pollable),
        ),
        lower_action(ResourceKind::Host(HostResource::TcpSocket), true) == Some(
            ResourceAction::Transfer(HostResource::TcpSocket),
        ),
        lift_action(ResourceKind::Host(HostResource::InputStream), true)
            == ResourceAction::Transfer(HostResource::InputStream),
        lift_action(ResourceKind::Host(HostResource::OutputStream), true)
            == ResourceAction::Transfer(HostResource::OutputStream),
        lift_action(ResourceKind::Host(HostResource::Pollable), true) == ResourceAction::Transfer(
            HostResource::Pollable,
        ),
        lift_action(ResourceKind::Host(HostResource::TcpSocket), true)
            == ResourceAction::Transfer(HostResource::TcpSocket),
        forall|h: HostResource|
            h != HostResource::IoError ==> #[trigger] lower_action(ResourceKind::Host(h), owned)
                == Some(
                if owned {
                    ResourceAction::Transfer(h)
                } else {
                    ResourceAction::Inspect(h)
                },
            ),
        forall|h: HostResource|
            h != HostResource::IoError ==> #[trigger] lift_action(ResourceKind::Host(h), owned) == if owned {
                ResourceAction::Transfer(h)
            } else {
                ResourceAction::Inspect(h)
            },
        lower_action(ResourceKind::Host(HostResource::IoError), owned) is None,
        lift_action(ResourceKind::Host(HostResource::IoError), owned) == ResourceAction::Wrap,
        lower_action(ResourceKind::Held, true) == Some(ResourceAction::Unwrap),
        lower_action(ResourceKind::Held, false) == Some(ResourceAction::CloneHeld),
        lower_action(ResourceKind::Guest, owned) is None,
        lift_action(ResourceKind::Held, owned) == ResourceAction::Wrap,
        lift_action(ResourceKind::Guest, owned) == ResourceAction::Wrap,
{
}

/// What lowering a lone owned host resource gives: for every kind but an
/// I/O error, what `convert` answered to transferring it; an I/O error
/// comes back as it was, with `convert` never asked.
pub proof fn lemma_lowering_a_host_resource<R, E, F: Fn(ResourceAction, R) -> Result<ResourceAny<R>, E>>(
    convert: F,
    a: ResourceAny<R>,
    b: ResourceAny<R>,
)
    requires
        a.owned,
        a.kind matches ResourceKind::Host(h),
        (lowering(convert))(a, b),
    ensures
        a.kind matches ResourceKind::Host(h) && (if h == HostResource::IoError {
            b == a
        } else {
            call_ensures(convert, (ResourceAction::Transfer(h), a.handle), Ok::<ResourceAny<R>, E>(b))
        }),
{
    lemma_resources_follow_their_kind(true);
}

} // verus!
