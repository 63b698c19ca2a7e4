//! Blob-level parsing scenarios: hard and soft failures, extension
//! handling and the derived identity strings.

use libdisplay_info::edid::Edid;
use libdisplay_info::edid::ExtensionTag;
use libdisplay_info::info::Info;

fn fix_checksum(block: &mut [u8]) {
    let sum: u32 = block[..127].iter().map(|b| *b as u32).sum();
    block[127] = ((256 - (sum % 256)) % 256) as u8;
}

fn minimal_base() -> Vec<u8> {
    let mut d = vec![0u8; 128];
    d[0] = 0x00;
    for i in 1..7 {
        d[i] = 0xFF;
    }
    d[7] = 0x00;
    fix_checksum(&mut d);
    d
}

fn base_14() -> Vec<u8> {
    let mut d = minimal_base();
    d[18] = 1;
    d[19] = 4;
    // Mark the standard timing slots unused.
    for i in 0..8 {
        d[38 + 2 * i] = 0x01;
        d[39 + 2 * i] = 0x01;
    }
    fix_checksum(&mut d);
    d
}

#[test]
fn minimal_valid_blob() {
    let d = minimal_base();
    let info = Info::parse_edid(&d).expect("minimal blob parses");
    assert!(info.failure_msg().is_none());
    let edid = info.edid().expect("edid present");
    assert!(edid.vendor_product().serial.is_none());
    let et = edid.established_timings();
    assert!(!et.has_720x400_70hz);
    assert!(!et.has_720x400_88hz);
    assert!(!et.has_640x480_60hz);
    assert!(!et.has_640x480_67hz);
    assert!(!et.has_640x480_72hz);
    assert!(!et.has_640x480_75hz);
    assert!(!et.has_800x600_56hz);
    assert!(!et.has_800x600_60hz);
    assert!(!et.has_800x600_72hz);
    assert!(!et.has_800x600_75hz);
    assert!(!et.has_832x624_75hz);
    assert!(!et.has_1024x768_87hz_interlaced);
    assert!(!et.has_1024x768_60hz);
    assert!(!et.has_1024x768_70hz);
    assert!(!et.has_1024x768_75hz);
    assert!(!et.has_1280x1024_75hz);
    assert!(!et.has_1152x870_75hz);
}

#[test]
fn too_short_buffer_fails() {
    assert!(Info::parse_edid(&[]).is_err());
    assert!(Info::parse_edid(&[0u8; 64]).is_err());
    assert!(Info::parse_edid(&vec![0u8; 127]).is_err());
}

#[test]
fn missing_magic_fails() {
    let mut d = minimal_base();
    d[1] = 0x00;
    fix_checksum(&mut d);
    assert!(Info::parse_edid(&d).is_err());
}

#[test]
fn corrupted_checksum_is_soft() {
    let mut d = base_14();
    // Flip one bit outside the header magic.
    d[40] ^= 0x04;
    let info = Info::parse_edid(&d).expect("corrupted blob still parses");
    let msg = info.failure_msg().expect("conformance message present");
    assert!(!msg.is_empty());
}

#[test]
fn extension_count_matches_declared() {
    let mut d = base_14();
    d[126] = 2;
    fix_checksum(&mut d);
    // One unknown-tag extension and one block map, both checksum-clean.
    let mut ext1 = vec![0u8; 128];
    ext1[0] = 0x77;
    fix_checksum(&mut ext1);
    let mut ext2 = vec![0u8; 128];
    ext2[0] = 0xF0;
    fix_checksum(&mut ext2);
    d.extend_from_slice(&ext1);
    d.extend_from_slice(&ext2);
    let info = Info::parse_edid(&d).expect("blob with extensions parses");
    assert!(info.failure_msg().is_none());
    let edid = info.edid().unwrap();
    let exts = edid.extensions();
    assert_eq!(exts.len(), 2);
    assert_eq!(exts[0].tag(), ExtensionTag::Unknown(0x77));
    assert_eq!(exts[1].tag(), ExtensionTag::BlockMap);
}

#[test]
fn extension_checksum_failure_is_soft() {
    let mut d = base_14();
    d[126] = 1;
    fix_checksum(&mut d);
    let mut ext = vec![0u8; 128];
    ext[0] = 0x77;
    ext[127] = 0x55;  // wrong checksum
    d.extend_from_slice(&ext);
    let info = Info::parse_edid(&d).expect("parses despite extension checksum");
    assert!(info.failure_msg().is_some());
    assert_eq!(info.edid().unwrap().extensions().len(), 1);
}

#[test]
fn declared_count_mismatch_is_soft() {
    let mut d = base_14();
    d[126] = 3;  // declares three extensions, buffer has none
    fix_checksum(&mut d);
    let info = Info::parse_edid(&d).expect("parses despite count mismatch");
    assert!(info.failure_msg().is_some());
    assert_eq!(info.edid().unwrap().extensions().len(), 0);
}

#[test]
fn parse_is_idempotent() {
    let mut d = base_14();
    // Give it some content: vendor, serial, gamma, a timing slot.
    d[8] = 0x10;
    d[9] = 0xAC;
    d[10] = 0x34;
    d[11] = 0x12;
    d[12] = 0x78;
    d[13] = 0x56;
    d[14] = 0x34;
    d[15] = 0x12;
    d[23] = 120;
    d[38] = 0x61;
    d[39] = 0x40;
    fix_checksum(&mut d);
    let a = Info::parse_edid(&d).unwrap();
    let b = Info::parse_edid(&d).unwrap();
    assert_eq!(a, b);
    assert_eq!(
        a.edid().unwrap().vendor_product(),
        b.edid().unwrap().vendor_product()
    );
}

#[test]
fn identity_strings() {
    let mut d = base_14();
    // Manufacturer "DEL", product 0x1234, serial number 0x12345678.
    d[8] = 0x10;
    d[9] = 0xAC;
    d[10] = 0x34;
    d[11] = 0x12;
    d[12] = 0x78;
    d[13] = 0x56;
    d[14] = 0x34;
    d[15] = 0x12;
    fix_checksum(&mut d);
    let info = Info::parse_edid(&d).unwrap();
    assert_eq!(info.make().unwrap(), "DEL");
    assert_eq!(info.model().unwrap(), "0x1234");
    assert_eq!(info.serial().unwrap(), "0x12345678");
}

#[test]
fn product_name_descriptor_wins() {
    let mut d = base_14();
    d[10] = 0x34;
    d[11] = 0x12;
    // Product name descriptor in the first slot.
    let off = 54;
    d[off + 3] = 0xFC;
    let name = b"U2720Q\n      ";
    d[off + 5..off + 18].copy_from_slice(name);
    fix_checksum(&mut d);
    let info = Info::parse_edid(&d).unwrap();
    assert_eq!(info.model().unwrap(), "U2720Q");
}

#[test]
fn serial_descriptor_wins() {
    let mut d = base_14();
    d[12] = 0x78;
    d[13] = 0x56;
    d[14] = 0x34;
    d[15] = 0x12;
    let off = 54;
    d[off + 3] = 0xFF;
    let text = b"ABC123\n      ";
    d[off + 5..off + 18].copy_from_slice(text);
    fix_checksum(&mut d);
    let info = Info::parse_edid(&d).unwrap();
    assert_eq!(info.serial().unwrap(), "ABC123");
}

#[test]
fn forward_cursor_walks_a_list() {
    let items = [3u8, 5, 7];
    let mut cursor = libdisplay_info::iter::FFIIter::new(&items);
    assert_eq!(cursor.next(), Some(&3));
    assert_eq!(cursor.next(), Some(&5));
    assert_eq!(cursor.next(), Some(&7));
    assert_eq!(cursor.next(), None);
    assert_eq!(cursor.next(), None);
}

#[test]
fn edid_from_ptr_requires_a_base_block() {
    assert!(Edid::from_ptr(&[0u8; 127]).is_none());
    let mut d = vec![0u8; 128];
    d[18] = 1;
    d[19] = 4;
    let edid = Edid::from_ptr(&d).expect("decodes without magic validation");
    assert_eq!(edid.version(), 1);
    assert_eq!(edid.revision(), 4);
}

#[test]
fn extension_tag_bytes() {
    let mut d = base_14();
    d[126] = 3;
    fix_checksum(&mut d);
    // VTB (0x10), DisplayID (0x70), and the undefined byte 0x01.
    for t in [0x10u8, 0x70, 0x01] {
        let mut ext = vec![0u8; 128];
        ext[0] = t;
        fix_checksum(&mut ext);
        d.extend_from_slice(&ext);
    }
    let info = Info::parse_edid(&d).unwrap();
    let edid = info.edid().unwrap();
    let exts = edid.extensions();
    assert_eq!(exts[0].tag(), ExtensionTag::VTB);
    assert_eq!(exts[1].tag(), ExtensionTag::DisplayId);
    assert_eq!(exts[2].tag(), ExtensionTag::Unknown(0x01));
}
