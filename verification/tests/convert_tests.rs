use yuxa::convert::{
    host_is_little_endian, pack_quad, packed_from_bytes, packed_from_packed, packed_from_quads,
    shm_bytes_from_bytes, shm_bytes_from_packed, shm_bytes_from_quads,
};

// A known color, channels A=0xFF, R=0x12, G=0x34, B=0x56, on a
// little-endian host must land in the shared memory region as the byte
// sequence 56 34 12 FF when the declared format is ARGB8888 little-endian.
#[test]
fn shm_little_endian_wire_bytes() {
    let quads = [[0xFFu8, 0x12, 0x34, 0x56]];
    let out = shm_bytes_from_quads(&quads, true);
    assert_eq!(out, vec![0x56, 0x34, 0x12, 0xFF]);
}

// On a big-endian host the channel bytes go out as they stand.
#[test]
fn shm_big_endian_wire_bytes() {
    let quads = [[0xFFu8, 0x12, 0x34, 0x56]];
    let out = shm_bytes_from_quads(&quads, false);
    assert_eq!(out, vec![0xFF, 0x12, 0x34, 0x56]);
}

// The three accepted input shapes describing the same logical image give
// byte-identical output for each backend target.
#[test]
fn cross_shape_outputs_identical() {
    let quads = [[0xFFu8, 0x12, 0x34, 0x56], [0x00, 0xAB, 0xCD, 0xEF], [0x7F, 0x01, 0x02, 0x03]];
    let bytes = [0xFFu8, 0x12, 0x34, 0x56, 0x00, 0xAB, 0xCD, 0xEF, 0x7F, 0x01, 0x02, 0x03];
    let packed = [0xFF123456u32, 0x00ABCDEF, 0x7F010203];

    for little_endian in [true, false] {
        let from_quads = shm_bytes_from_quads(&quads, little_endian);
        let from_bytes = shm_bytes_from_bytes(&bytes, little_endian);
        let from_packed = shm_bytes_from_packed(&packed, little_endian);
        assert_eq!(from_quads, from_bytes);
        assert_eq!(from_quads, from_packed);
    }

    let words_from_quads = packed_from_quads(&quads);
    let words_from_bytes = packed_from_bytes(&bytes);
    let words_from_packed = packed_from_packed(&packed);
    assert_eq!(words_from_quads, words_from_bytes);
    assert_eq!(words_from_quads, words_from_packed);
}

// Packing follows A<<24 | R<<16 | G<<8 | B exactly.
#[test]
fn pack_quad_formula() {
    assert_eq!(pack_quad([0xFF, 0x12, 0x34, 0x56]), 0xFF123456);
    assert_eq!(pack_quad([0x00, 0x00, 0x00, 0x00]), 0);
    assert_eq!(pack_quad([0xFF, 0xFF, 0xFF, 0xFF]), 0xFFFFFFFF);
    assert_eq!(pack_quad([0x01, 0x00, 0x00, 0x00]), 0x01000000);
}

// A packed-word buffer is already in the word backends' final form.
#[test]
fn packed_words_pass_through() {
    let packed = [0xDEADBEEFu32, 0, 0xFFFFFFFF, 0x01020304];
    assert_eq!(packed_from_packed(&packed), packed.to_vec());
}

// The shared-memory byte stream of a packed buffer writes each word in the
// host order the backend declared.
#[test]
fn shm_bytes_of_packed_word() {
    let packed = [0xFF123456u32];
    assert_eq!(shm_bytes_from_packed(&packed, true), vec![0x56, 0x34, 0x12, 0xFF]);
    assert_eq!(shm_bytes_from_packed(&packed, false), vec![0xFF, 0x12, 0x34, 0x56]);
}

// Empty buffers convert to empty output for every shape.
#[test]
fn empty_buffers() {
    let no_quads: [[u8; 4]; 0] = [];
    let no_bytes: [u8; 0] = [];
    let no_words: [u32; 0] = [];
    assert!(shm_bytes_from_quads(&no_quads, true).is_empty());
    assert!(shm_bytes_from_bytes(&no_bytes, true).is_empty());
    assert!(shm_bytes_from_packed(&no_words, true).is_empty());
    assert!(packed_from_quads(&no_quads).is_empty());
    assert!(packed_from_bytes(&no_bytes).is_empty());
    assert!(packed_from_packed(&no_words).is_empty());
}

// The probe of the host's byte order matches what the standard library
// reports for the same four bytes.
#[test]
fn host_endianness_probe() {
    assert_eq!(host_is_little_endian(), u32::from_ne_bytes([1, 0, 0, 0]) == 1);
}
