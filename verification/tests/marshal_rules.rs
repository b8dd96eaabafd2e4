use wasmer_host::marshal::{guest_length, window_start};

#[test]
fn window_start_accepts_a_window_inside_the_memory() {
    assert_eq!(window_start(1024, 16, 65536), Some(1024));
    assert_eq!(window_start(0, 0, 0), Some(0));
    assert_eq!(window_start(65536, 0, 65536), Some(65536));
    assert_eq!(window_start(65520, 16, 65536), Some(65520));
}

#[test]
fn window_start_refuses_a_window_that_leaves_the_memory() {
    assert_eq!(window_start(65521, 16, 65536), None);
    assert_eq!(window_start(-1, 0, 65536), None);
    assert_eq!(window_start(65537, 0, 65536), None);
    assert_eq!(window_start(0, 65537, 65536), None);
}

#[test]
fn guest_length_is_the_low_word_of_the_length() {
    assert_eq!(guest_length(0), 0);
    assert_eq!(guest_length(18), 18);
    assert_eq!(guest_length(0x7fff_ffff), i32::MAX);
    assert_eq!(guest_length(0x8000_0000), i32::MIN);
    assert_eq!(guest_length(0xffff_ffff), -1);
    assert_eq!(guest_length(0x1_0000_0005), 5);
}
