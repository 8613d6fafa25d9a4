use volume_renderer::{
    check_buffer, decode_u16_samples, encode_f16_texels, Dimensions, Extent, Position, Spacing,
    TextureError, Texture, NANOMETRES_PER_MILLIMETRE,
};

fn mm(x: u32, y: u32, z: u32) -> Spacing {
    Spacing::new(
        x * NANOMETRES_PER_MILLIMETRE,
        y * NANOMETRES_PER_MILLIMETRE,
        z * NANOMETRES_PER_MILLIMETRE,
    )
}

#[test]
fn extent_is_spacing_times_dimensions() {
    let d = Dimensions::new(10, 20, 30);
    let e = Extent::of(d, mm(1, 1, 1));
    assert_eq!(
        e,
        Extent { x: 10_000_000, y: 20_000_000, z: 30_000_000 }
    );
}

#[test]
fn extent_with_fractional_spacing() {
    let d = Dimensions::new(512, 512, 113);
    let s = Spacing::new(488_281, 488_281, 1_500_000);
    let e = Extent::of(d, s);
    assert_eq!(e.x, 512 * 488_281);
    assert_eq!(e.z, 113 * 1_500_000);
    assert!(e.x > 0 && e.y > 0 && e.z > 0);
}

#[test]
fn extent_of_largest_dimensions_does_not_overflow() {
    let d = Dimensions::new(u32::MAX, 1, 1);
    let s = Spacing::new(u32::MAX, 1, 1);
    let e = Extent::of(d, s);
    assert_eq!(e.x, (u32::MAX as u64) * (u32::MAX as u64));
}

#[test]
fn zero_dimension_is_invalid() {
    assert_eq!(check_buffer(0, Dimensions::new(0, 4, 4)), Err(TextureError::InvalidDimensions));
    assert_eq!(check_buffer(32, Dimensions::new(4, 0, 4)), Err(TextureError::InvalidDimensions));
    assert_eq!(check_buffer(32, Dimensions::new(4, 4, 0)), Err(TextureError::InvalidDimensions));
}

#[test]
fn buffer_size_mismatch() {
    let d = Dimensions::new(2, 3, 4);
    assert_eq!(check_buffer(48, d), Ok(()));
    assert_eq!(check_buffer(47, d), Err(TextureError::BufferSizeMismatch));
    assert_eq!(check_buffer(49, d), Err(TextureError::BufferSizeMismatch));
    assert_eq!(check_buffer(24, d), Err(TextureError::BufferSizeMismatch));
    let bytes = vec![0u8; 47];
    assert_eq!(decode_u16_samples(&bytes, d), Err(TextureError::BufferSizeMismatch));
    assert_eq!(
        Texture::from_f16_bytes(bytes, d, mm(1, 1, 1)).err(),
        Some(TextureError::BufferSizeMismatch)
    );
}

#[test]
fn invalid_dimensions_come_before_size() {
    let bytes = vec![0u8; 3];
    assert_eq!(
        decode_u16_samples(&bytes, Dimensions::new(0, 1, 1)),
        Err(TextureError::InvalidDimensions)
    );
}

#[test]
fn huge_dimensions_do_not_overflow_the_size_check() {
    let d = Dimensions::new(u32::MAX, u32::MAX, u32::MAX);
    assert_eq!(check_buffer(usize::MAX, d), Err(TextureError::BufferSizeMismatch));
}

#[test]
fn samples_are_little_endian() {
    let bytes = vec![0x34, 0x12, 0xff, 0xff, 0x00, 0x00, 0x01, 0x00];
    let samples = decode_u16_samples(&bytes, Dimensions::new(2, 2, 1)).unwrap();
    assert_eq!(samples, vec![0x1234, 0xffff, 0x0000, 0x0001]);
}

#[test]
fn texels_are_written_little_endian() {
    let bytes = encode_f16_texels(&[0x3c00, 0x0001, 0xabcd]);
    assert_eq!(bytes, vec![0x00, 0x3c, 0x01, 0x00, 0xcd, 0xab]);
    assert!(encode_f16_texels(&[]).is_empty());
}

#[test]
fn texture_keeps_geometry_and_texels() {
    let d = Dimensions::new(10, 20, 30);
    let bytes = vec![7u8; 10 * 20 * 30 * 2];
    let t = Texture::from_f16_bytes(bytes.clone(), d, mm(1, 1, 1)).unwrap();
    assert_eq!(t.dimensions, d);
    assert_eq!(t.spacing, mm(1, 1, 1));
    assert_eq!(t.extent, Extent { x: 10_000_000, y: 20_000_000, z: 30_000_000 });
    assert_eq!(t.origin, Position { x: 0, y: 0, z: 0 });
    assert_eq!(t.texels, bytes);
}

fn unorm_to_f16_bits(sample: u16) -> u16 {
    half::f16::from_f32(sample as f32 / u16::MAX as f32).to_bits()
}

#[test]
fn normalized_half_round_trip_keeps_three_digits() {
    let mut raw = Vec::new();
    let values: Vec<u16> = (0..=u16::MAX).step_by(97).chain([u16::MAX]).collect();
    for v in &values {
        raw.extend_from_slice(&v.to_le_bytes());
    }
    let d = Dimensions::new(values.len() as u32, 1, 1);
    let samples = decode_u16_samples(&raw, d).unwrap();
    assert_eq!(samples, values);
    let texels: Vec<u16> = samples.iter().map(|s| unorm_to_f16_bits(*s)).collect();
    let bytes = encode_f16_texels(&texels);
    let back = decode_u16_samples(&bytes, d).unwrap();
    for (v, bits) in values.iter().zip(back) {
        let normalized = half::f16::from_bits(bits).to_f32();
        let expected = *v as f32 / u16::MAX as f32;
        assert!((normalized - expected).abs() <= 1e-3, "{v}: {normalized} vs {expected}");
    }
}
