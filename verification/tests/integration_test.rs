use chex::{Chex, ChexInstance};

#[test]
fn init_chex() {
    let mut chex = Chex::new();
    chex.init();
    let ci: ChexInstance = chex.get_instance();

    assert_eq!(ci.poll_exit(), false);
    assert_eq!(chex.poll_exit(), false);
    assert!(chex.signal_exit().is_ok());
    assert_eq!(ci.poll_exit(), true);
    assert_eq!(chex.poll_exit(), true);
}
