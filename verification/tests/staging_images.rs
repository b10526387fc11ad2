use mevi::injector::rendezvous_path_bytes;
use mevi::staging::{
    build_control, build_iovec, build_msghdr, build_sockaddr_un, build_uffdio_api, image_words,
    push_le16, push_le32, push_le64, push_zeros, word_at, CMSG_LEN_ONE_FD, CMSG_SPACE_ONE_FD,
    CONTROL_OFFSET, IOVEC_OFFSET, MSGHDR_OFFSET, PAYLOAD_LEN, PAYLOAD_OFFSET, SUN_PATH_MAX,
};

#[test]
fn little_endian_bytes_are_those_of_std() {
    let mut buf: Vec<u8> = vec![0xEE];
    push_le64(&mut buf, 0x0102_0304_0506_0708);
    push_le32(&mut buf, 0xA1B2_C3D4);
    push_le16(&mut buf, 0xBEEF);
    push_zeros(&mut buf, 3);
    let mut expected: Vec<u8> = vec![0xEE];
    expected.extend_from_slice(&0x0102_0304_0506_0708_u64.to_le_bytes());
    expected.extend_from_slice(&0xA1B2_C3D4_u32.to_le_bytes());
    expected.extend_from_slice(&0xBEEF_u16.to_le_bytes());
    expected.extend_from_slice(&[0, 0, 0]);
    assert_eq!(buf, expected);
}

#[test]
fn word_at_reads_little_endian() {
    let bytes: Vec<u8> = vec![0xFF, 1, 2, 3, 4, 5, 6, 7, 8, 0xFF];
    assert_eq!(word_at(&bytes, 1), 0x0807_0605_0403_0201);
    assert_eq!(word_at(&bytes, 0), 0x0706_0504_0302_01FF);
    let top: Vec<u8> = vec![0xFF; 8];
    assert_eq!(word_at(&top, 0), u64::MAX);
}

#[test]
fn image_words_drop_the_incomplete_last_word() {
    let mut image: Vec<u8> = Vec::new();
    push_le64(&mut image, 7);
    push_le64(&mut image, 9);
    push_zeros(&mut image, 6);
    assert_eq!(image_words(&image), vec![7, 9]);
    assert_eq!(image_words(&vec![1, 2, 3]), Vec::<u64>::new());
    assert_eq!(image_words(&Vec::new()), Vec::<u64>::new());
}

#[test]
fn uffdio_api_image_is_three_fields() {
    let image = build_uffdio_api(0xAA, 0x4c, 0);
    assert_eq!(image.len(), 24);
    assert_eq!(image_words(&image), vec![0xAA, 0x4c, 0]);
}

#[test]
fn sockaddr_un_image_of_the_rendezvous_path() {
    let path = rendezvous_path_bytes();
    assert_eq!(path, b"/tmp/mevi.sock\0".to_vec());
    let image = build_sockaddr_un(&path);
    assert_eq!(image.len(), 110);
    assert_eq!(&image[0..2], &[1, 0]);
    assert_eq!(&image[2..17], b"/tmp/mevi.sock\0");
    assert!(image[17..].iter().all(|b| *b == 0));
    let words = image_words(&image);
    assert_eq!(words.len(), 13);
    // family 1, then "/tmp/m", then "evi.sock", then the terminator
    assert_eq!(words[0], u64::from_le_bytes([1, 0, b'/', b't', b'm', b'p', b'/', b'm']));
    assert_eq!(words[1], u64::from_le_bytes(*b"evi.sock"));
    assert_eq!(words[0], 0x6d2f_706d_742f_0001);
    assert_eq!(words[1], 0x6b63_6f73_2e69_7665);
    for word in &words[2..] {
        assert_eq!(*word, 0);
    }
}

#[test]
fn sockaddr_un_image_of_the_longest_and_the_empty_path() {
    let longest: Vec<u8> = vec![b'x'; SUN_PATH_MAX];
    let image = build_sockaddr_un(&longest);
    assert_eq!(image.len(), 110);
    assert_eq!(image[109], b'x');
    let empty = build_sockaddr_un(&Vec::new());
    assert_eq!(empty.len(), 110);
    assert_eq!(image_words(&empty)[0], 1);
}

#[test]
fn iovec_image_is_base_and_length() {
    let image = build_iovec(0x7f00_0000_0100, 4);
    assert_eq!(image_words(&image), vec![0x7f00_0000_0100, 4]);
}

#[test]
fn control_image_carries_the_descriptor() {
    let image = build_control(5);
    assert_eq!(image.len() as u64, CMSG_SPACE_ONE_FD);
    assert_eq!(CMSG_LEN_ONE_FD, 20);
    // length 20; level SOL_SOCKET (1) and type SCM_RIGHTS (1) share a word
    assert_eq!(image_words(&image), vec![20, 0x0000_0001_0000_0001, 5]);
    assert_eq!(&image[16..20], &5_i32.to_le_bytes());
}

#[test]
fn msghdr_image_refers_to_vector_and_control() {
    let base: u64 = 0x7f00_0000_0000;
    let image = build_msghdr(base + IOVEC_OFFSET, 1, base + CONTROL_OFFSET, CMSG_SPACE_ONE_FD);
    assert_eq!(image.len(), 56);
    assert_eq!(
        image_words(&image),
        vec![0, 0, 0x7f00_0000_0200, 1, 0x7f00_0000_0300, 24, 0]
    );
}

#[test]
fn staging_layout_offsets() {
    assert_eq!(MSGHDR_OFFSET, 0x000);
    assert_eq!(PAYLOAD_OFFSET, 0x100);
    assert_eq!(IOVEC_OFFSET, 0x200);
    assert_eq!(CONTROL_OFFSET, 0x300);
    assert_eq!(PAYLOAD_LEN, 4);
}
