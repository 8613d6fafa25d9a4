use volume_renderer::{
    metadata_from_captures, metadata_from_file_name, parse_decimal_digits, parse_millimetres,
    Dimensions, FileMetadata, ImportedVolume, Importer, PickedFile, Spacing, State,
    VolumeDataFileType, DEFAULT_BITS, NANOMETRES_PER_MILLIMETRE, PLACEHOLDER_BYTE,
};

const MM: u32 = NANOMETRES_PER_MILLIMETRE;

fn chars(s: &str) -> Vec<char> {
    s.chars().collect()
}

fn groups(g: &[&str]) -> Option<Vec<Vec<char>>> {
    Some(g.iter().map(|s| chars(s)).collect())
}

#[test]
fn file_type_names_in_any_case() {
    assert_eq!(VolumeDataFileType::from_str("raw"), Ok(VolumeDataFileType::RAW3D));
    assert_eq!(VolumeDataFileType::from_str("RAW"), Ok(VolumeDataFileType::RAW3D));
    assert_eq!(VolumeDataFileType::from_str("Raw3D"), Ok(VolumeDataFileType::RAW3D));
    assert_eq!(VolumeDataFileType::from_str("raw3"), Err(()));
    assert_eq!(VolumeDataFileType::from_str("dcm"), Err(()));
    assert_eq!(VolumeDataFileType::from_str(""), Err(()));
    assert_eq!(VolumeDataFileType::from_lowercase(&chars("RAW")), Err(()));
    assert_eq!(VolumeDataFileType::from_lowercase(&chars("raw3d")), Ok(VolumeDataFileType::RAW3D));
}

#[test]
fn decimal_digits() {
    assert_eq!(parse_decimal_digits(&chars("255"), 255), Some(255));
    assert_eq!(parse_decimal_digits(&chars("256"), 255), None);
    assert_eq!(parse_decimal_digits(&chars("007"), 255), Some(7));
    assert_eq!(parse_decimal_digits(&chars(""), 255), None);
    assert_eq!(parse_decimal_digits(&chars("1a"), 255), None);
    assert_eq!(parse_decimal_digits(&chars("+1"), 255), None);
    assert_eq!(
        parse_decimal_digits(&chars("99999999999999999999999"), u64::MAX),
        None
    );
    assert_eq!(
        parse_decimal_digits(&chars("18446744073709551615"), u64::MAX),
        Some(u64::MAX)
    );
}

#[test]
fn millimetres() {
    assert_eq!(parse_millimetres(&chars("0.5")), Some(500_000));
    assert_eq!(parse_millimetres(&chars("1.0")), Some(1_000_000));
    assert_eq!(parse_millimetres(&chars("0.488281")), Some(488_281));
    assert_eq!(parse_millimetres(&chars("0.48828125")), Some(488_281));
    assert_eq!(parse_millimetres(&chars("4294.967295")), Some(u32::MAX));
    assert_eq!(parse_millimetres(&chars("4294.967296")), None);
    assert_eq!(parse_millimetres(&chars("5000.0")), None);
    assert_eq!(parse_millimetres(&chars("0.0")), None);
    assert_eq!(parse_millimetres(&chars("1.")), None);
    assert_eq!(parse_millimetres(&chars(".5")), None);
    assert_eq!(parse_millimetres(&chars("1.2.3")), None);
}

#[test]
fn metadata_from_a_full_file_name() {
    let m = metadata_from_file_name("head_256x256x113_8bit_0.5x0.5x1.25.raw");
    assert_eq!(m.bits, 8);
    assert_eq!(m.dimensions, Dimensions::new(256, 256, 113));
    assert_eq!(m.spacing, Spacing::new(500_000, 500_000, 1_250_000));
}

#[test]
fn metadata_bits_with_separator_and_case() {
    assert_eq!(metadata_from_file_name("scan_12-BIT.raw").bits, 12);
    assert_eq!(metadata_from_file_name("scan_12.bit.raw").bits, 12);
}

#[test]
fn metadata_defaults_when_the_name_states_nothing() {
    let m = metadata_from_file_name("volume.raw");
    assert_eq!(
        m,
        FileMetadata {
            bits: DEFAULT_BITS,
            dimensions: Dimensions::new(1, 1, 1),
            spacing: Spacing::new(MM, MM, MM),
        }
    );
}

#[test]
fn metadata_defaults_when_numbers_do_not_fit() {
    let m = metadata_from_file_name("v_300bit_99999999999x2x3.raw");
    assert_eq!(m.bits, DEFAULT_BITS);
    assert_eq!(m.dimensions, Dimensions::new(1, 1, 1));
}

#[test]
fn metadata_from_given_matches() {
    let m = metadata_from_captures(
        &groups(&["16bit", "16"]),
        &groups(&["10x20x30", "10", "20", "30"]),
        &groups(&["1.5x2.0x0.25", "1.5", "2.0", "0.25"]),
    );
    assert_eq!(m.bits, 16);
    assert_eq!(m.dimensions, Dimensions::new(10, 20, 30));
    assert_eq!(m.spacing, Spacing::new(1_500_000, 2_000_000, 250_000));
    let partial = metadata_from_captures(&groups(&["bit"]), &None, &groups(&["x", "1.0"]));
    assert_eq!(partial.bits, DEFAULT_BITS);
    assert_eq!(partial.dimensions, Dimensions::new(1, 1, 1));
    assert_eq!(partial.spacing, Spacing::new(MM, MM, MM));
}

#[test]
fn load_dialog_reads_metadata_and_opens() {
    let mut importer = Importer::new();
    importer.load_dialog(
        VolumeDataFileType::RAW3D,
        Some(PickedFile {
            path: "/data/foot_64x32x16_16bit.raw".to_string(),
            file_name: "foot_64x32x16_16bit.raw".to_string(),
            size: Some(65536),
        }),
    );
    assert!(importer.visible);
    assert_eq!(importer.item.file_type, Some(VolumeDataFileType::RAW3D));
    assert_eq!(importer.item.path.as_deref(), Some("/data/foot_64x32x16_16bit.raw"));
    assert_eq!(importer.item.file_size, Some(65536));
    assert_eq!(importer.item.bits, Some(16));
    assert_eq!(importer.item.dimensions, Some(Dimensions::new(64, 32, 16)));
    assert_eq!(importer.item.spacing, Some(Spacing::new(MM, MM, MM)));
}

#[test]
fn cancelled_dialog_keeps_the_importer_closed() {
    let mut importer = Importer::new();
    importer.load_dialog(VolumeDataFileType::RAW3D, None);
    assert!(!importer.visible);
    assert!(importer.item.path.is_none());
    assert_eq!(importer.item.file_type, Some(VolumeDataFileType::RAW3D));
}

#[test]
fn finished_load_hands_out_the_volume_once() {
    let mut importer = Importer::new();
    importer.load_dialog(
        VolumeDataFileType::RAW3D,
        Some(PickedFile {
            path: "a_2x1x1.raw".to_string(),
            file_name: "a_2x1x1.raw".to_string(),
            size: None,
        }),
    );
    assert!(importer.take_volume().is_none());
    importer.finish_load(Some(vec![1, 2, 3, 4]));
    assert!(importer.new_data_available);
    assert!(!importer.visible);
    let v = importer.take_volume().unwrap();
    assert_eq!(v.bytes, vec![1, 2, 3, 4]);
    assert_eq!(v.dimensions, Dimensions::new(2, 1, 1));
    assert!(!importer.new_data_available);
    assert!(importer.item.data.is_none());
    assert!(importer.take_volume().is_none());
}

#[test]
fn placeholder_is_one_grey_voxel() {
    let p = ImportedVolume::placeholder();
    assert_eq!(p.bytes, vec![PLACEHOLDER_BYTE, PLACEHOLDER_BYTE]);
    assert_eq!(p.dimensions, Dimensions::new(1, 1, 1));
    assert_eq!(p.spacing, Spacing::new(MM, MM, MM));
}

#[test]
fn settings_overlays_toggle() {
    let mut s = State::new();
    assert!(!s.hide_settings_oberlay);
    assert!(!s.toggle_settings_overlays());
    assert!(s.hide_settings_oberlay);
    assert!(s.toggle_settings_overlays());
}
