use crater::device::{loop_device_number, LOOP_CTL_GET_FREE, LOOP_MAJOR, LOOP_SET_FD};

#[test]
fn loop_device_numbers() {
    assert_eq!(loop_device_number(0), 7 << 8);
    assert_eq!(loop_device_number(5), (7 << 8) | 5);
    assert_eq!(loop_device_number(300), (256 << 12) | (7 << 8) | 44);
}

#[test]
fn loop_device_number_decodes_back() {
    for n in [0, 1, 255, 256, 300, 70000, i32::MAX] {
        let dev = loop_device_number(n);
        assert_eq!(nix::sys::stat::major(dev), LOOP_MAJOR);
        assert_eq!(nix::sys::stat::minor(dev), n as u64);
    }
}

#[test]
fn loop_requests() {
    assert_eq!(LOOP_SET_FD, 0x4C00);
    assert_eq!(LOOP_CTL_GET_FREE, 0x4C82);
}
