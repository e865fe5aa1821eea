use wasmx::engine::plugin::{
    bool_to_byte, byte_to_bool, export_step, link_shape_of, load_as_path, parent_is_empty, returned_char,
    symbol_name, ExportItem, ExportStep, LinkShape, PluginError, Scalar, ValueType,
};

#[test]
fn shapes() {
    assert_eq!(link_shape_of(&vec![], &vec![]), Some(LinkShape::Unit));
    assert_eq!(link_shape_of(&vec![], &vec![ValueType::Bool]), Some(LinkShape::ReturnBool));
    assert_eq!(link_shape_of(&vec![], &vec![ValueType::U32]), Some(LinkShape::ReturnScalar(Scalar::U32)));
    assert_eq!(link_shape_of(&vec![], &vec![ValueType::Float64]), Some(LinkShape::ReturnScalar(Scalar::Float64)));
    assert_eq!(link_shape_of(&vec![], &vec![ValueType::Char]), Some(LinkShape::ReturnChar));
    assert_eq!(link_shape_of(&vec![], &vec![ValueType::Str]), Some(LinkShape::ReturnStr));
    assert_eq!(link_shape_of(&vec![], &vec![ValueType::Bytes]), Some(LinkShape::ReturnBytes));
    assert_eq!(link_shape_of(&vec![], &vec![ValueType::Other]), Some(LinkShape::ReturnLifted));
    assert_eq!(link_shape_of(&vec![], &vec![ValueType::U8, ValueType::U8]), Some(LinkShape::ReturnLifted));
    assert_eq!(link_shape_of(&vec![ValueType::Bool], &vec![]), Some(LinkShape::TakeBool));
    assert_eq!(link_shape_of(&vec![ValueType::S8], &vec![]), Some(LinkShape::TakeScalar(Scalar::S8)));
    assert_eq!(link_shape_of(&vec![ValueType::Char], &vec![]), Some(LinkShape::TakeScalar(Scalar::Char)));
    assert_eq!(link_shape_of(&vec![ValueType::Str], &vec![]), Some(LinkShape::TakeStr));
    assert_eq!(link_shape_of(&vec![ValueType::Bytes], &vec![]), Some(LinkShape::TakeBytes));
    assert_eq!(link_shape_of(&vec![ValueType::Other], &vec![]), None);
    assert_eq!(link_shape_of(&vec![ValueType::U8, ValueType::U8], &vec![]), None);
    assert_eq!(link_shape_of(&vec![ValueType::U8], &vec![ValueType::U8]), None);
}

#[test]
fn exports() {
    assert_eq!(symbol_name("wasi:foo/bar", "baz"), "wasi:foo/bar#baz");
    match export_step("inst", "f", &ExportItem::ComponentFunc { params: vec![], results: vec![] }) {
        Ok(ExportStep::Link { symbol, shape }) => {
            assert_eq!(symbol, "inst#f");
            assert_eq!(shape, LinkShape::Unit);
        }
        _ => panic!("unexpected step"),
    }
    assert!(matches!(export_step("i", "r", &ExportItem::Resource), Err(PluginError::ResourcesNotSupported)));
    assert!(matches!(export_step("i", "t", &ExportItem::Other), Ok(ExportStep::Skip)));
    assert!(matches!(
        export_step("i", "g", &ExportItem::ComponentFunc { params: vec![ValueType::Other], results: vec![] }),
        Err(PluginError::NeedsCodegen)
    ));
}

#[test]
fn boundary_values() {
    assert_eq!(returned_char(0x41), Ok('A'));
    assert_eq!(returned_char(0xD800), Err(0xD800));
    assert_eq!(returned_char(0x110000), Err(0x110000));
    assert_eq!(bool_to_byte(true), 1);
    assert_eq!(bool_to_byte(false), 0);
    assert!(byte_to_bool(2));
    assert!(!byte_to_bool(0));
}

#[test]
fn library_paths() {
    assert!(!load_as_path("foo"));
    assert!(load_as_path("foo.so"));
    assert!(load_as_path("./foo"));
    assert!(load_as_path("/usr/lib/libfoo"));
    assert!(load_as_path("dir/foo"));
}

#[test]
fn parents() {
    assert!(parent_is_empty("foo"));
    assert!(!parent_is_empty("lib/foo"));
    assert!(!parent_is_empty("/"));
    assert!(!parent_is_empty(""));
}
