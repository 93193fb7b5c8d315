use machine_pc::el_torito::{
    el_torito_boot_system_id_bytes, iso9660_standard_id_bytes, parse_el_torito, ElToritoError,
    EL_TORITO_BOOTABLE, EL_TORITO_DEFAULT_LOAD_PHYS, EL_TORITO_DEFAULT_LOAD_SEGMENT,
    EL_TORITO_KEY_55, EL_TORITO_KEY_AA, EL_TORITO_MEDIA_NO_EMUL, EL_TORITO_PLATFORM_X86,
    EL_TORITO_SECTOR_BYTES, EL_TORITO_VALIDATION_HEADER_ID, ISO9660_VD_BOOT_RECORD,
    ISO9660_VD_TERMINATOR,
};

fn blank_iso(sectors: usize) -> Vec<u8> {
    vec![0u8; sectors * EL_TORITO_SECTOR_BYTES]
}

fn write_sector(img: &mut [u8], lba: u32, data: &[u8]) {
    let start = lba as usize * EL_TORITO_SECTOR_BYTES;
    img[start..start + data.len()].copy_from_slice(data);
}

fn make_bootable_iso() -> Vec<u8> {
    let cd001 = iso9660_standard_id_bytes();
    let boot_id = el_torito_boot_system_id_bytes();
    let mut img = blank_iso(32);
    let mut pvd = vec![0u8; EL_TORITO_SECTOR_BYTES];
    pvd[0] = 1;
    pvd[1..6].copy_from_slice(&cd001);
    pvd[6] = 1;
    write_sector(&mut img, 16, &pvd);

    let mut br = vec![0u8; EL_TORITO_SECTOR_BYTES];
    br[0] = ISO9660_VD_BOOT_RECORD;
    br[1..6].copy_from_slice(&cd001);
    br[6] = 1;
    br[7..7 + boot_id.len()].copy_from_slice(&boot_id);
    let catalog_lba = 20u32;
    br[0x47..0x4B].copy_from_slice(&catalog_lba.to_le_bytes());
    write_sector(&mut img, 17, &br);

    let mut term = vec![0u8; EL_TORITO_SECTOR_BYTES];
    term[0] = ISO9660_VD_TERMINATOR;
    term[1..6].copy_from_slice(&cd001);
    term[6] = 1;
    write_sector(&mut img, 18, &term);

    let mut cat = vec![0u8; EL_TORITO_SECTOR_BYTES];
    let mut validation = [0u8; 32];
    validation[0] = EL_TORITO_VALIDATION_HEADER_ID;
    validation[1] = EL_TORITO_PLATFORM_X86;
    validation[30] = EL_TORITO_KEY_55;
    validation[31] = EL_TORITO_KEY_AA;
    let mut sum = 0u16;
    for i in (0..32).step_by(2) {
        if i == 28 {
            continue;
        }
        sum = sum.wrapping_add(u16::from_le_bytes([validation[i], validation[i + 1]]));
    }
    let checksum = 0u16.wrapping_sub(sum);
    validation[28..30].copy_from_slice(&checksum.to_le_bytes());
    cat[0..32].copy_from_slice(&validation);
    cat[32] = EL_TORITO_BOOTABLE;
    cat[33] = 0x00;
    cat[38..40].copy_from_slice(&4u16.to_le_bytes());
    cat[40..44].copy_from_slice(&24u32.to_le_bytes());
    write_sector(&mut img, catalog_lba, &cat);
    img
}

#[test]
fn parses_bootable_catalog() {
    let img = make_bootable_iso();
    let info = parse_el_torito(&img).expect("valid El Torito");
    assert_eq!(info.boot_record_lba, 17);
    assert_eq!(info.catalog_lba, 20);
    assert_eq!(info.platform_id, EL_TORITO_PLATFORM_X86);
    assert!(info.bootable);
    assert_eq!(info.media_type, EL_TORITO_MEDIA_NO_EMUL);
    assert_eq!(info.load_segment, 0);
    assert_eq!(info.effective_load_segment(), EL_TORITO_DEFAULT_LOAD_SEGMENT);
    assert_eq!(info.load_phys(), EL_TORITO_DEFAULT_LOAD_PHYS);
    assert_eq!(info.load_rba, 24);
    assert_eq!(info.sector_count, 4);
    assert_eq!(info.load_byte_len(), Some(2048));
}

#[test]
fn rejects_missing_55aa() {
    let mut img = make_bootable_iso();
    let start = 20 * EL_TORITO_SECTOR_BYTES;
    img[start + 30] = 0;
    img[start + 31] = 0;
    assert_eq!(parse_el_torito(&img), Err(ElToritoError::BadValidationKey));
}

#[test]
fn rejects_image_without_boot_record() {
    let cd001 = iso9660_standard_id_bytes();
    let mut img = blank_iso(20);
    let mut pvd = vec![0u8; EL_TORITO_SECTOR_BYTES];
    pvd[0] = 1;
    pvd[1..6].copy_from_slice(&cd001);
    pvd[6] = 1;
    write_sector(&mut img, 16, &pvd);
    let mut term = vec![0u8; EL_TORITO_SECTOR_BYTES];
    term[0] = ISO9660_VD_TERMINATOR;
    term[1..6].copy_from_slice(&cd001);
    term[6] = 1;
    write_sector(&mut img, 17, &term);
    assert_eq!(parse_el_torito(&img), Err(ElToritoError::NoBootRecord));
}

#[test]
fn el_torito_error_cases_are_each_reported() {
    assert_eq!(parse_el_torito(&[0u8; 100]), Err(ElToritoError::Truncated));
    let mut bad_header = make_bootable_iso();
    bad_header[20 * EL_TORITO_SECTOR_BYTES] = 0x02;
    assert_eq!(parse_el_torito(&bad_header), Err(ElToritoError::BadValidationHeader));
    let mut bad_sum = make_bootable_iso();
    bad_sum[20 * EL_TORITO_SECTOR_BYTES + 4] = 1;
    assert_eq!(parse_el_torito(&bad_sum), Err(ElToritoError::BadValidationChecksum));
    let mut far_catalog = make_bootable_iso();
    far_catalog[17 * EL_TORITO_SECTOR_BYTES + 0x47] = 200;
    assert_eq!(parse_el_torito(&far_catalog), Err(ElToritoError::TruncatedCatalog));
    assert_eq!(
        ElToritoError::BadValidationKey.message(),
        "El Torito Validation Entry missing 55AA"
    );
}
