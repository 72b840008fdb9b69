use wireguard_core::constants::MESSAGE_PADDING_MULTIPLE;
use wireguard_core::padding::padding;

#[test]
fn padding_of_nothing_is_nothing() {
    assert_eq!(padding(0, 1500), 0);
}

#[test]
fn padding_rounds_up_to_the_unit() {
    assert_eq!(MESSAGE_PADDING_MULTIPLE, 16);
    assert_eq!(padding(1, 1500), 16);
    assert_eq!(padding(15, 1500), 16);
    assert_eq!(padding(16, 1500), 16);
    assert_eq!(padding(17, 1500), 32);
    assert_eq!(padding(1472, 1500), 1472);
    assert_eq!(padding(1473, 1500), 1488);
}

#[test]
fn padding_stops_at_the_mtu() {
    assert_eq!(padding(1500, 1500), 1500);
    assert_eq!(padding(1499, 1500), 1500);
    assert_eq!(padding(1489, 1500), 1500);
    assert_eq!(padding(1488, 1500), 1488);
}

#[test]
fn padding_of_more_than_the_mtu_is_the_mtu() {
    assert_eq!(padding(1501, 1500), 1500);
    assert_eq!(padding(5, 3), 3);
    assert_eq!(padding(1, 0), 0);
    assert_eq!(padding(usize::MAX, 1500), 1500);
}

#[test]
fn padding_at_the_end_of_the_word() {
    assert_eq!(padding(usize::MAX, usize::MAX), usize::MAX);
    assert_eq!(padding(usize::MAX - 1, usize::MAX), usize::MAX);
    assert_eq!(padding(usize::MAX - 15, usize::MAX), usize::MAX - 15);
    assert_eq!(padding(usize::MAX - 16, usize::MAX), usize::MAX - 15);
}

#[test]
fn padding_stays_between_size_and_mtu() {
    for mtu in [0usize, 1, 15, 16, 17, 31, 32, 100, 1280, 1420, 1500] {
        for size in 0..=mtu {
            let padded = padding(size, mtu);
            assert!(size <= padded);
            assert!(padded <= mtu);
            assert!(padded == mtu || padded % MESSAGE_PADDING_MULTIPLE == 0);
            assert!(padded - size < MESSAGE_PADDING_MULTIPLE);
        }
    }
}

#[test]
fn padding_is_idempotent() {
    for mtu in [0usize, 1, 16, 17, 100, 1420, 1500] {
        for size in 0..=(mtu + 40) {
            let padded = padding(size, mtu);
            assert_eq!(padding(padded, mtu), padded);
        }
    }
}
