use draw::microbench::MicroBench;

#[test]
fn elapsed_cycles() {
    let b = MicroBench::now(1000);
    assert_eq!(b.start, 1000);
    assert_eq!(b.elapsed(1000), 0);
    assert_eq!(b.elapsed(1234), 234);
}
