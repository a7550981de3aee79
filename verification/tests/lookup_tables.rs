use light2d::lookup::{
    falloff_lookup_descriptor, radial_lookup_descriptor, texel_count, texel_index, TextureFormat,
};

#[test]
fn falloff_lookup_is_2048_by_128_single_float() {
    let d = falloff_lookup_descriptor();
    assert_eq!((d.width, d.height), (2048, 128));
    assert_eq!(d.format, TextureFormat::RFloat32);
    assert_eq!(texel_count(&d), 2048 * 128);
}

#[test]
fn radial_lookup_is_256_square_four_floats() {
    let d = radial_lookup_descriptor();
    assert_eq!((d.width, d.height), (256, 256));
    assert_eq!(d.format, TextureFormat::RgbaFloat32);
    assert_eq!(texel_count(&d), 256 * 256);
}

#[test]
fn texel_indexing_is_row_major() {
    assert_eq!(texel_index(0, 0, 2048), 0);
    assert_eq!(texel_index(5, 0, 2048), 5);
    assert_eq!(texel_index(0, 1, 2048), 2048);
    assert_eq!(texel_index(255, 255, 256), 256 * 256 - 1);
}
