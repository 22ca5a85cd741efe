use smallvcm::{encode_bmp, BMP_HEADER_LEN};

fn le32(v: u32) -> Vec<u8> {
    v.to_le_bytes().to_vec()
}

#[test]
fn header_fields() {
    let pixels = vec![(1u8, 2u8, 3u8), (4, 5, 6)];
    let bytes = encode_bmp(2, 1, &pixels);
    let mut expected: Vec<u8> = b"BM".to_vec();
    expected.extend(le32(60));
    expected.extend(le32(0));
    expected.extend(le32(54));
    expected.extend(le32(40));
    expected.extend(le32(2));
    expected.extend(le32(1));
    expected.extend(vec![1, 0, 24, 0]);
    expected.extend(le32(0));
    expected.extend(le32(6));
    expected.extend(le32(2953));
    expected.extend(le32(2953));
    expected.extend(le32(0));
    expected.extend(le32(0));
    assert_eq!(expected.len(), BMP_HEADER_LEN);
    expected.extend(vec![3, 2, 1, 6, 5, 4]);
    assert_eq!(bytes, expected);
}

#[test]
fn rows_bottom_up() {
    // top row: red, green; bottom row: blue, white
    let pixels = vec![(255u8, 0u8, 0u8), (0, 255, 0), (0, 0, 255), (255, 255, 255)];
    let bytes = encode_bmp(2, 2, &pixels);
    assert_eq!(bytes.len(), 54 + 12);
    assert_eq!(
        bytes[54..].to_vec(),
        vec![255, 0, 0, 255, 255, 255, 0, 0, 255, 0, 255, 0]
    );
}

#[test]
fn empty_image() {
    let bytes = encode_bmp(0, 0, &vec![]);
    assert_eq!(bytes.len(), 54);
    assert_eq!(bytes[2..6].to_vec(), le32(54));
}
