use std::collections::BTreeMap;

use wasmx::config::component::{Config, Import};
use wasmx::config::env::sockets::{host, none, Network};

#[test]
fn component_sources() {
    let mut imports = BTreeMap::new();
    imports.insert("wasi:keyvalue/store".to_string(), Import::Plugin { target: "kv".to_string() });
    let c = Config { src: "./a.wasm".to_string(), imports };
    let (src, rest) = c.take_src();
    assert_eq!(src, "./a.wasm");
    assert_eq!(rest.imports.len(), 1);
    let c = rest.map_src(|()| vec![0u8, 1]);
    assert_eq!(c.src, vec![0, 1]);
    assert_eq!(c.imports.get("wasi:keyvalue/store"), Some(&Import::Plugin { target: "kv".to_string() }));
}

#[test]
fn socket_defaults() {
    assert_eq!(Network::<u32>::default(), Network::Disconnected { loopback: none::Loopback::Off });
    assert_eq!(host::Loopback::default(), host::Loopback::Off);
    let c: host::Config<u32> = host::Config::default();
    assert_eq!(c.address, None);
    assert_eq!(c.loopback, host::Loopback::Off);
}
