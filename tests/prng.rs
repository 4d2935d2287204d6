use lorawan_node::utils::{calc_rand, draw_sequence, init_seed, rand, seed_from_dev_eui};

#[test]
fn lcg_step_values() {
    assert_eq!(calc_rand(0), 1013904223);
    assert_eq!(calc_rand(1), 1015568748);
    assert_eq!(calc_rand(u64::MAX), 1012239698);
}

#[test]
fn same_seed_same_sequence() {
    let eui = [0x00, 0x95, 0x69, 0x06, 0x00, 0x01, 0x28, 0x9C];
    let mut a = init_seed(&eui, 1234);
    let mut b = init_seed(&eui, 1234);
    assert_eq!(a.seed, 2438718627);
    let bounds = [1000u64, 5000, 30000];
    let xs: Vec<u64> = bounds.iter().map(|&v| rand(&mut a, v)).collect();
    let ys: Vec<u64> = bounds.iter().map(|&v| rand(&mut b, v)).collect();
    assert_eq!(xs, ys);
    assert_eq!(xs, vec![622, 3773, 29752]);
}

#[test]
fn different_sample_different_seed() {
    let eui = [0x00, 0x95, 0x69, 0x06, 0x00, 0x01, 0x28, 0x9C];
    assert_ne!(init_seed(&eui, 1234).seed, init_seed(&eui, 1235).seed);
}

#[test]
fn seed_from_textual_dev_eui() {
    let r = seed_from_dev_eui(b"009569060001289C", 1234);
    assert_eq!(r.seed, 2438718627);
    let lower = seed_from_dev_eui(b"009569060001289c", 1234);
    assert_eq!(lower.seed, 2438718627);
}

#[test]
fn invalid_dev_eui_seeds_from_zero_identity() {
    let zero = init_seed(&[0; 8], 1234).seed;
    assert_eq!(zero, 1071646119);
    assert_eq!(seed_from_dev_eui(b"00956906000128XY", 1234).seed, zero);
    assert_eq!(seed_from_dev_eui(b"0095", 1234).seed, zero);
}

#[test]
fn draws_stay_below_bound() {
    let mut r = init_seed(&[1, 2, 3, 4, 5, 6, 7, 8], 99);
    for v in 1..300u64 {
        let x = rand(&mut r, v);
        assert!(x < v);
        assert_eq!(r.seed, x);
    }
}

#[test]
fn draw_sequence_repeats_for_same_seed() {
    let eui = [0x00, 0x95, 0x69, 0x06, 0x00, 0x01, 0x28, 0x9C];
    let bounds = vec![1000u64, 5000, 30000];
    let mut a = init_seed(&eui, 1234);
    let mut b = init_seed(&eui, 1234);
    let xs = draw_sequence(&mut a, &bounds);
    assert_eq!(xs, vec![622, 3773, 29752]);
    assert_eq!(draw_sequence(&mut b, &bounds), xs);
    assert_eq!(a.seed, b.seed);
}
