use wasi_host::host_io::{WasiCtx, WasiImpl};

#[test]
fn environment_and_arguments_come_back_as_given() {
    let h = WasiImpl::new(WasiCtx {
        env: vec![("HOME".to_owned(), "/root".to_owned()), ("LANG".to_owned(), "C".to_owned())],
        args: vec!["prog".to_owned(), "--flag".to_owned()],
        insecure_random_seed: 0,
    });
    assert_eq!(
        h.get_environment(),
        vec![("HOME".to_owned(), "/root".to_owned()), ("LANG".to_owned(), "C".to_owned())]
    );
    assert_eq!(h.get_arguments(), vec!["prog".to_owned(), "--flag".to_owned()]);
    assert!(h.initial_cwd().is_none());
}

#[test]
fn insecure_seed_splits_into_low_and_high_halves() {
    let seed: u128 = (0xDEAD_BEEF_u128 << 64) | 0x1234_5678_u128;
    let h = WasiImpl::new(WasiCtx { env: vec![], args: vec![], insecure_random_seed: seed });
    let (lo, hi) = h.insecure_seed();
    assert_eq!(lo, 0x1234_5678);
    assert_eq!(hi, 0xDEAD_BEEF);
    assert_eq!(((hi as u128) << 64) | lo as u128, seed);
}
