use std::cell::RefCell;
use wasmx::engine::resource_types::{
    input_stream, io_error, is_host_resource_type, output_stream, pollable, tcp_socket,
    HostResource, ResourceKind,
};
use wasmx::engine::workload::value::{
    lift, lift_action_of, lower, lower_action_of, ConvertError, ResourceAction, ResourceAny, Value,
};

fn res(kind: ResourceKind, owned: bool, handle: u32) -> Value<u32> {
    Value::Resource(ResourceAny { kind, owned, handle })
}

fn handle(v: &Value<u32>) -> (ResourceKind, bool, u32) {
    match v {
        Value::Resource(r) => (r.kind, r.owned, r.handle),
        _ => panic!("not a resource"),
    }
}

#[test]
fn resource_types() {
    assert_eq!(input_stream(), HostResource::InputStream);
    assert_eq!(io_error(), HostResource::IoError);
    assert_eq!(output_stream(), HostResource::OutputStream);
    assert_eq!(pollable(), HostResource::Pollable);
    assert_eq!(tcp_socket(), HostResource::TcpSocket);
    assert!(is_host_resource_type(ResourceKind::Host(HostResource::Pollable)));
    assert!(!is_host_resource_type(ResourceKind::Guest));
}

#[test]
fn actions() {
    let owned_stream = ResourceAny { kind: ResourceKind::Host(HostResource::InputStream), owned: true, handle: 0u32 };
    assert_eq!(lower_action_of(&owned_stream), Some(ResourceAction::Transfer(HostResource::InputStream)));
    assert_eq!(lift_action_of(&owned_stream), ResourceAction::Transfer(HostResource::InputStream));
    let borrowed = ResourceAny { owned: false, ..owned_stream };
    assert_eq!(lower_action_of(&borrowed), Some(ResourceAction::Inspect(HostResource::InputStream)));
    let err = ResourceAny { kind: ResourceKind::Host(HostResource::IoError), owned: true, handle: 0u32 };
    assert_eq!(lower_action_of(&err), None);
    assert_eq!(lift_action_of(&err), ResourceAction::Wrap);
    let held = ResourceAny { kind: ResourceKind::Held, owned: true, handle: 0u32 };
    assert_eq!(lower_action_of(&held), Some(ResourceAction::Unwrap));
    assert_eq!(lower_action_of(&ResourceAny { owned: false, ..held }), Some(ResourceAction::CloneHeld));
    let guest = ResourceAny { kind: ResourceKind::Guest, owned: true, handle: 0u32 };
    assert_eq!(lower_action_of(&guest), None);
    assert_eq!(lift_action_of(&guest), ResourceAction::Wrap);
}

#[test]
fn lower_copies_plain_data() {
    let v: Value<u32> = Value::Record(vec![
        ("a".to_string(), Value::List(vec![Value::U8(1), Value::Str("x".to_string())])),
        ("b".to_string(), Value::Opt(Some(Box::new(Value::Float64(f64::to_bits(1.5)))))),
        ("c".to_string(), Value::Flags(vec!["f".to_string()])),
    ]);
    let convert = |_: ResourceAction, _: u32| -> Result<ResourceAny<u32>, ()> { panic!("no resources") };
    let w = lower(&convert, &v).unwrap();
    match w {
        Value::Record(fs) => {
            assert_eq!(fs.len(), 3);
            assert_eq!(fs[0].0, "a");
            assert!(matches!(&fs[0].1, Value::List(vs) if vs.len() == 2));
            assert!(matches!(&fs[1].1, Value::Opt(Some(b)) if matches!(**b, Value::Float64(x) if f64::from_bits(x) == 1.5)));
            assert!(matches!(&fs[2].1, Value::Flags(f) if f == &vec!["f".to_string()]));
        }
        _ => panic!("not a record"),
    }
}

#[test]
fn lower_moves_resources() {
    let v = Value::Tuple(vec![
        res(ResourceKind::Host(HostResource::Pollable), true, 1),
        res(ResourceKind::Guest, true, 2),
        res(ResourceKind::Held, true, 3),
    ]);
    let convert = |a: ResourceAction, h: u32| -> Result<ResourceAny<u32>, ()> {
        match a {
            ResourceAction::Transfer(t) => Ok(ResourceAny { kind: ResourceKind::Host(t), owned: true, handle: h + 100 }),
            ResourceAction::Unwrap => Ok(ResourceAny { kind: ResourceKind::Guest, owned: true, handle: h + 200 }),
            _ => Err(()),
        }
    };
    match lower(&convert, &v).unwrap() {
        Value::Tuple(vs) => {
            assert_eq!(handle(&vs[0]), (ResourceKind::Host(HostResource::Pollable), true, 101));
            assert_eq!(handle(&vs[1]), (ResourceKind::Guest, true, 2));
            assert_eq!(handle(&vs[2]), (ResourceKind::Guest, true, 203));
        }
        _ => panic!("not a tuple"),
    }
}

#[test]
fn lower_refuses_borrowed_host_resources() {
    let v = Value::List(vec![res(ResourceKind::Host(HostResource::TcpSocket), false, 1)]);
    let ok = |_: ResourceAction, h: u32| -> Result<ResourceAny<u32>, &'static str> {
        Ok(ResourceAny { kind: ResourceKind::Guest, owned: false, handle: h })
    };
    assert!(matches!(lower(&ok, &v), Err(ConvertError::Unsupported)));
    let missing = |_: ResourceAction, _: u32| -> Result<ResourceAny<u32>, &'static str> { Err("missing") };
    assert!(matches!(lower(&missing, &v), Err(ConvertError::Resource("missing"))));
}

#[test]
fn lift_wraps_guest_resources() {
    let v = Value::Variant("k".to_string(), Some(Box::new(res(ResourceKind::Guest, true, 4))));
    let convert = |a: ResourceAction, h: u32| -> Result<ResourceAny<u32>, ()> {
        assert_eq!(a, ResourceAction::Wrap);
        Ok(ResourceAny { kind: ResourceKind::Held, owned: true, handle: h * 10 })
    };
    match lift(&convert, v).unwrap() {
        Value::Variant(k, Some(b)) => {
            assert_eq!(k, "k");
            assert_eq!(handle(&b), (ResourceKind::Held, true, 40));
        }
        _ => panic!("not a variant"),
    }
}

#[test]
fn lift_stops_at_first_failure() {
    let v = Value::List(vec![
        res(ResourceKind::Host(HostResource::OutputStream), true, 1),
        res(ResourceKind::Host(HostResource::OutputStream), true, 2),
    ]);
    let calls = std::cell::Cell::new(0);
    let convert = |_: ResourceAction, h: u32| -> Result<ResourceAny<u32>, u32> {
        calls.set(calls.get() + 1);
        Err(h)
    };
    assert!(matches!(lift(&convert, v), Err(ConvertError::Resource(1))));
    assert_eq!(calls.get(), 1);
    let plain: Value<u32> = Value::ResErr(Some(Box::new(Value::S64(-5))));
    assert!(matches!(lift(&convert, plain), Ok(Value::ResErr(Some(b))) if matches!(*b, Value::S64(-5))));
}

#[test]
fn lowering_a_lifted_value_gives_it_back() {
    // The host's table: lifting puts each guest resource in, lowering takes it out.
    let table: RefCell<Vec<Option<u32>>> = RefCell::new(Vec::new());
    let lift_conv = |act: ResourceAction, h: u32| -> Result<ResourceAny<u32>, ()> {
        assert_eq!(act, ResourceAction::Wrap);
        let mut t = table.borrow_mut();
        t.push(Some(h));
        Ok(ResourceAny { kind: ResourceKind::Held, owned: true, handle: (t.len() - 1) as u32 })
    };
    let lower_conv = |act: ResourceAction, k: u32| -> Result<ResourceAny<u32>, ()> {
        assert_eq!(act, ResourceAction::Unwrap);
        let h = table.borrow_mut()[k as usize].take().unwrap();
        Ok(ResourceAny { kind: ResourceKind::Guest, owned: true, handle: h })
    };
    let make = || Value::Record(vec![
        ("a".to_string(), Value::List(vec![res(ResourceKind::Guest, true, 7), Value::U8(1)])),
        ("b".to_string(), Value::Opt(Some(Box::new(res(ResourceKind::Guest, true, 9))))),
    ]);
    let lifted = lift(&lift_conv, make()).unwrap();
    assert_eq!(table.borrow().len(), 2);
    let back = lower(&lower_conv, &lifted).unwrap();
    assert!(table.borrow().iter().all(|e| e.is_none()));
    match back {
        Value::Record(fs) => {
            assert_eq!(fs[0].0, "a");
            match &fs[0].1 {
                Value::List(vs) => {
                    assert_eq!(handle(&vs[0]), (ResourceKind::Guest, true, 7));
                    assert!(matches!(vs[1], Value::U8(1)));
                }
                _ => panic!("not a list"),
            }
            match &fs[1].1 {
                Value::Opt(Some(b)) => assert_eq!(handle(b), (ResourceKind::Guest, true, 9)),
                _ => panic!("not an option"),
            }
        }
        _ => panic!("not a record"),
    }
}
