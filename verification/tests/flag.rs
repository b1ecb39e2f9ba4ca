use recorder_tray::flag::RecordingFlag;

#[test]
fn flag_starts_false() {
    assert!(!RecordingFlag::new().read());
}

#[test]
fn write_overwrites() {
    let mut flag = RecordingFlag::new();
    flag.write(true);
    assert!(flag.read());
    flag.write(true);
    assert!(flag.read());
    flag.write(false);
    assert!(!flag.read());
    flag.write(false);
    assert!(!flag.read());
}

#[test]
fn read_does_not_change_the_flag() {
    let mut flag = RecordingFlag::new();
    flag.write(true);
    for _ in 0..4 {
        assert!(flag.read());
    }
}
