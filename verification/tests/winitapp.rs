use theframework::winitapp::blit_rgba_into_softbuffer;

#[test]
fn blit_scales_each_pixel_to_a_square() {
    let frame = [1u8, 2, 3, 255, 4, 5, 6, 255];
    let mut dest = vec![0u32; 8];
    blit_rgba_into_softbuffer(&frame, 2, 2, 1, &mut dest);
    assert_eq!(
        dest,
        vec![0x010203, 0x010203, 0x040506, 0x040506, 0x010203, 0x010203, 0x040506, 0x040506]
    );
}

#[test]
fn blit_at_scale_one_copies() {
    let frame = [1u8, 2, 3, 255, 4, 5, 6, 255];
    let mut dest = vec![7u32; 2];
    blit_rgba_into_softbuffer(&frame, 1, 2, 1, &mut dest);
    assert_eq!(dest, vec![0x010203, 0x040506]);
}

#[test]
fn blit_at_scale_one_stops_at_the_shorter_buffer() {
    let frame = [9u8, 8, 7, 0];
    let mut dest = vec![7u32; 2];
    blit_rgba_into_softbuffer(&frame, 1, 2, 1, &mut dest);
    assert_eq!(dest, vec![0x090807, 7]);
}

#[test]
fn blit_ignores_alpha() {
    let frame = [0u8, 0, 0, 17];
    let mut dest = vec![5u32; 9];
    blit_rgba_into_softbuffer(&frame, 3, 1, 1, &mut dest);
    assert_eq!(dest, vec![0u32; 9]);
}
