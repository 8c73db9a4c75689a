use baseview::class::{class_name, format_guid, Guid};
use baseview::geometry::{requested_format, window_style, Rect};
use baseview::options::Parent;

fn std_text(g: &Guid) -> String {
    format!(
        "{:08X}-{:04X}-{:04X}-{:02X}{:02X}-{:02X}{:02X}{:02X}{:02X}{:02X}{:02X}\0",
        g.data1,
        g.data2,
        g.data3,
        g.data4[0],
        g.data4[1],
        g.data4[2],
        g.data4[3],
        g.data4[4],
        g.data4[5],
        g.data4[6],
        g.data4[7]
    )
}

#[test]
fn guid_text_is_padded_upper_case_hex() {
    let guid = Guid {
        data1: 0x1234ABCD,
        data2: 0x00EF,
        data3: 0x1,
        data4: [0, 1, 0x23, 0xFF, 0x10, 0x0A, 0, 0x99],
    };
    assert_eq!(format_guid(&guid), "1234ABCD-00EF-0001-0001-23FF100A0099\0");
}

#[test]
fn guid_text_of_zero_is_all_zeros() {
    let guid = Guid { data1: 0, data2: 0, data3: 0, data4: [0; 8] };
    assert_eq!(format_guid(&guid), "00000000-0000-0000-0000-000000000000\0");
}

#[test]
fn guid_text_of_the_largest_fields() {
    let guid = Guid { data1: u32::MAX, data2: u16::MAX, data3: u16::MAX, data4: [0xFF; 8] };
    assert_eq!(format_guid(&guid), "FFFFFFFF-FFFF-FFFF-FFFF-FFFFFFFFFFFF\0");
}

#[test]
fn guid_text_agrees_with_the_standard_formatter() {
    let mut seed: u64 = 0x9E37_79B9_7F4A_7C15;
    for _ in 0..500 {
        let mut bytes = [0u8; 16];
        for b in bytes.iter_mut() {
            seed = seed.wrapping_mul(6364136223846793005).wrapping_add(1442695040888963407);
            let raw: u8 = (seed >> 56) as u8;
            // Small values now and then, so that short fields occur.
            *b = if seed & 0x300 == 0 { raw & 0x0F } else { raw };
        }
        let guid = Guid {
            data1: u32::from_le_bytes([bytes[0], bytes[1], bytes[2], bytes[3]]),
            data2: u16::from_le_bytes([bytes[4], bytes[5]]),
            data3: u16::from_le_bytes([bytes[6], bytes[7]]),
            data4: [
                bytes[8], bytes[9], bytes[10], bytes[11], bytes[12], bytes[13], bytes[14],
                bytes[15],
            ],
        };
        assert_eq!(format_guid(&guid), std_text(&guid));
    }
}

#[test]
fn class_name_is_prefixed_and_nul_terminated() {
    let guid = Guid { data1: 0xA, data2: 0xB, data3: 0xC, data4: [1, 2, 3, 4, 5, 6, 7, 8] };
    let name = class_name(&guid);
    assert_eq!(name, "Baseview-0000000A-000B-000C-0102-030405060708\0");
    assert_eq!(name.as_bytes()[name.len() - 1], 0);
    assert_eq!(name.matches('\0').count(), 1);
}

#[test]
fn guid_text_has_the_same_length_for_every_identifier() {
    let small = Guid { data1: 0, data2: 1, data3: 0, data4: [0, 0, 0, 0, 0, 0, 0, 1] };
    let large = Guid { data1: u32::MAX, data2: u16::MAX, data3: 0x8000, data4: [0x80; 8] };
    assert_eq!(format_guid(&small).len(), 37);
    assert_eq!(format_guid(&large).len(), 37);
    assert_eq!(format_guid(&small), "00000000-0001-0000-0000-000000000001\0");
}

#[test]
fn distinct_identifiers_have_distinct_texts() {
    let a = Guid { data1: 1, data2: 1, data3: 1, data4: [0x1, 0x23, 0, 0, 0, 0, 0, 0] };
    let b = Guid { data1: 1, data2: 1, data3: 1, data4: [0x12, 0x3, 0, 0, 0, 0, 0, 0] };
    assert_ne!(a, b);
    assert_eq!(class_name(&a), "Baseview-00000001-0001-0001-0123-000000000000\0");
    assert_eq!(class_name(&b), "Baseview-00000001-0001-0001-1203-000000000000\0");
    assert_ne!(format_guid(&a), format_guid(&b));
    assert_ne!(class_name(&a), class_name(&b));
}

#[test]
fn identifiers_that_differ_in_one_field_differ_in_their_names() {
    let base = Guid { data1: 0x10, data2: 0x1, data3: 0x100, data4: [1, 0x10, 0, 0, 0, 0, 0x1, 0] };
    let mut others: Vec<Guid> = Vec::new();
    others.push(Guid { data1: 0x1, ..base });
    others.push(Guid { data2: 0x10, ..base });
    others.push(Guid { data3: 0x10, ..base });
    for i in 0..8usize {
        let mut data4 = base.data4;
        data4[i] = data4[i].wrapping_add(0x0F);
        others.push(Guid { data4, ..base });
    }
    for (i, a) in others.iter().enumerate() {
        assert_ne!(class_name(a), class_name(&base));
        for b in others.iter().skip(i + 1) {
            assert_ne!(class_name(a), class_name(b));
        }
    }
}

#[test]
fn style_masks_have_their_native_values() {
    assert_eq!(window_style(&Parent::NoParent), 0x94CF_0000);
    assert_eq!(window_style(&Parent::WithParent(1)), 0x5000_0000);
    assert_eq!(window_style(&Parent::WithParent(0)), 0x5000_0000);
}

#[test]
fn requested_format_is_double_buffered_rgba() {
    let format = requested_format();
    assert_eq!(format.version, 1);
    assert_eq!(format.flags, 0x25);
    assert_eq!(format.pixel_type, 0);
    assert_eq!(format.color_bits, 32);
    assert_eq!(format.depth_bits, 24);
    assert_eq!(format.stencil_bits, 8);
    assert_eq!(format.layer_type, 0);
}

#[test]
fn rectangle_extents() {
    assert_eq!(Rect::client(800, 600), Rect { left: 0, top: 0, right: 800, bottom: 600 });
    assert_eq!(Rect { left: -8, top: -31, right: 808, bottom: 608 }.extent(), Some((816, 639)));
    assert_eq!(Rect { left: 10, top: 10, right: 0, bottom: 0 }.extent(), Some((-10, -10)));
    assert_eq!(Rect { left: -1, top: 0, right: i32::MAX, bottom: 0 }.extent(), None);
    assert_eq!(Rect { left: 0, top: 1, right: 0, bottom: i32::MIN }.extent(), None);
    assert_eq!(
        Rect { left: 0, top: 0, right: i32::MAX, bottom: i32::MIN }.extent(),
        Some((i32::MAX, i32::MIN))
    );
}
