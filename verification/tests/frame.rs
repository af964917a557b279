use archipelago::display::frame::{force_opaque_alpha, frame_rgba};

#[test]
fn alpha_bytes_forced() {
    let mut v: Vec<u8> = vec![1, 2, 3, 4, 5, 6, 7, 8, 9, 10];
    force_opaque_alpha(&mut v);
    assert_eq!(v, vec![1, 2, 3, 0xFF, 5, 6, 7, 0xFF, 9, 10]);
    let before = v.clone();
    force_opaque_alpha(&mut v);
    assert_eq!(v, before);
}

#[test]
fn alpha_on_short_buffers() {
    let mut v: Vec<u8> = vec![];
    force_opaque_alpha(&mut v);
    assert!(v.is_empty());
    let mut w: Vec<u8> = vec![1, 2, 3];
    force_opaque_alpha(&mut w);
    assert_eq!(w, vec![1, 2, 3]);
}

#[test]
fn frame_bytes_in_memory_order_made_opaque() {
    let words: Vec<u32> = vec![0x1122_3344, 0x0000_0000, 0xABCD_EF01];
    let rgba = frame_rgba(&words);
    let mut expected: Vec<u8> = Vec::new();
    for w in &words {
        expected.extend_from_slice(&w.to_ne_bytes());
    }
    for i in 0..expected.len() {
        if i % 4 == 3 {
            expected[i] = 0xFF;
        }
    }
    assert_eq!(rgba.len(), 12);
    assert_eq!(rgba, expected);
}
