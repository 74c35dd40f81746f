use rask_x86_64::encoder::Encoder;

#[test]
fn test_ret_instruction() {
    let mut e = Encoder::new();
    e.ret();
    assert_eq!(e.bytes().to_vec(), vec![0xC3]);
}
