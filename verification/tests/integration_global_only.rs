use chex::Chex;

#[test]
fn init_chex_global_only() {
    let mut chex = Chex::new();
    chex.init();

    assert_eq!(chex.poll_exit(), false);
    assert!(chex.signal_exit().is_ok());
    assert_eq!(chex.poll_exit(), true);
}
