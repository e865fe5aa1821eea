use wasmx::engine::wasi::random::Deterministic;

#[test]
fn deterministic() {
    let mut det = Deterministic::new(vec![1, 2, 3, 4]);
    let mut buf = vec![0; 1024];
    det.try_fill_bytes(&mut buf).expect("get randomness");
    for (ix, b) in buf.iter().enumerate() {
        assert_eq!(*b, (ix % 4) as u8 + 1)
    }
}

#[test]
fn mixed_draws_continue_the_cycle() {
    let run = || {
        let mut d = Deterministic::new(vec![1, 2, 3]);
        let mut a = vec![0u8; 2];
        d.fill_bytes(&mut a);
        let x = d.next_u32();
        let y = d.next_u64();
        let mut b = vec![0u8; 1];
        d.fill_bytes(&mut b);
        (a, x, y, b)
    };
    let (a, x, y, b) = run();
    // Bytes 0..2, 2..6, 6..14, 14: each is bytes[k % 3].
    assert_eq!(a, vec![1, 2]);
    assert_eq!(x, 0x03010203);
    assert_eq!(y, 0x0102030102030102);
    assert_eq!(b, vec![3]);
    assert_eq!(run(), (a, x, y, b));
}
