use volume_renderer::{
    aabb, first_hit, Aabb, Dimensions, Extent, Position, RayMarchingRenderer, Spacing,
    Texture, FULL_SCALE, INITIAL_THRESHOLD, NANOMETRES_PER_MILLIMETRE,
};

#[test]
fn bounding_box_is_plus_minus_extent() {
    let mm = NANOMETRES_PER_MILLIMETRE;
    let t = Texture::from_f16_bytes(
        vec![0u8; 10 * 20 * 30 * 2],
        Dimensions::new(10, 20, 30),
        Spacing::new(mm, mm, mm),
    )
    .unwrap();
    let r = RayMarchingRenderer::new(&t);
    let m = mm as i128;
    assert_eq!(
        r.bounding_box(),
        Aabb {
            top: Position { x: 10 * m, y: 20 * m, z: 30 * m },
            bottom: Position { x: -10 * m, y: -20 * m, z: -30 * m },
        }
    );
    assert_eq!(r.threshold, INITIAL_THRESHOLD);
    assert!(r.show_settings_oberlay);
}

#[test]
fn bounding_box_of_largest_extent() {
    let b = aabb(Extent { x: u64::MAX, y: 0, z: 1 });
    assert_eq!(b.top.x, u64::MAX as i128);
    assert_eq!(b.bottom.x, -(u64::MAX as i128));
    assert_eq!(b.bottom.y, 0);
    assert_eq!(b.bottom.z, -1);
}

#[test]
fn initial_threshold_is_five_hundredths() {
    let t = INITIAL_THRESHOLD as f64 / FULL_SCALE as f64;
    assert!((t - 0.05).abs() < 1e-4);
}

#[test]
fn zero_threshold_hits_first_nonzero_sample() {
    assert_eq!(first_hit(&[1, 0, 500], 0), Some(0));
    assert_eq!(first_hit(&[0, 0, 500], 0), Some(2));
}

#[test]
fn full_threshold_misses() {
    assert_eq!(first_hit(&[0, 65535, 65534, 40000], FULL_SCALE), None);
    assert_eq!(first_hit(&[], 0), None);
}

#[test]
fn first_sample_above_threshold_stops_the_ray() {
    assert_eq!(first_hit(&[10, 20, 30, 40, 50], 25), Some(2));
    assert_eq!(first_hit(&[10, 25, 25], 25), None);
}
