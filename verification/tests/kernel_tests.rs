use magnetar_provider_wgpu::kernels::{buffer_size, WORKGROUP_SIZE};
use magnetar_provider_wgpu::words::byte_order_of_probe;
use magnetar_provider_wgpu::{
    decode_words, encode_words, host_byte_order, plan_add, plan_add_in, workgroup_count,
    ByteOrder, OperandError,
};

#[test]
fn workgroup_count_rounds_up() {
    assert_eq!(workgroup_count(0), 0);
    assert_eq!(workgroup_count(1), 1);
    assert_eq!(workgroup_count(5), 1);
    assert_eq!(workgroup_count(64), 1);
    assert_eq!(workgroup_count(65), 2);
    assert_eq!(workgroup_count(777), 13);
}

#[test]
fn workgroups_cover_a_length_not_a_multiple_of_the_workgroup_size() {
    let count = 5000usize;
    let groups = workgroup_count(count) as usize;
    assert_eq!(groups, 79);
    assert!(groups * WORKGROUP_SIZE >= count);
    assert!((groups - 1) * WORKGROUP_SIZE < count);
}

#[test]
fn workgroup_count_keeps_the_low_32_bits() {
    // 2^38 elements need 2^32 workgroups, which a u32 dispatch size cannot hold.
    let count: u64 = 1u64 << 38;
    if let Ok(count) = usize::try_from(count) {
        assert_eq!(workgroup_count(count), 0);
        assert_eq!(workgroup_count(count + 64), 1);
    }
}

#[test]
fn buffer_size_is_four_bytes_per_element() {
    assert_eq!(buffer_size(0), 0);
    assert_eq!(buffer_size(5), 20);
    assert_eq!(buffer_size(5000), 20000);
}

#[test]
fn plan_refuses_mismatched_lengths() {
    let r = plan_add_in(ByteOrder::Little, &[1, 2, 3], &[1, 2]);
    assert_eq!(r.err(), Some(OperandError::LengthMismatch));
    let r = plan_add_in(ByteOrder::Little, &[], &[7]);
    assert_eq!(r.err(), Some(OperandError::LengthMismatch));
}

#[test]
fn plan_refuses_empty_operands() {
    let r = plan_add_in(ByteOrder::Big, &[], &[]);
    assert_eq!(r.err(), Some(OperandError::Empty));
}

#[test]
fn plan_lays_out_operands_in_the_given_order() {
    let p = plan_add_in(ByteOrder::Little, &[0x0102_0304, 0xaabb_ccdd], &[5, 0xff00_0000]).unwrap();
    assert_eq!(p.element_count, 2);
    assert_eq!(p.byte_size, 8);
    assert_eq!(p.workgroup_count, 1);
    assert_eq!(p.byte_order, ByteOrder::Little);
    assert_eq!(p.a_bytes, vec![4, 3, 2, 1, 0xdd, 0xcc, 0xbb, 0xaa]);
    assert_eq!(p.b_bytes, vec![5, 0, 0, 0, 0, 0, 0, 0xff]);

    let p = plan_add_in(ByteOrder::Big, &[0x0102_0304], &[5]).unwrap();
    assert_eq!(p.a_bytes, vec![1, 2, 3, 4]);
    assert_eq!(p.b_bytes, vec![0, 0, 0, 5]);
}

#[test]
fn plan_add_uses_the_host_layout_of_floats() {
    let a = [1.0f32, 2.0, 3.0, 4.5, -1.5];
    let b = [10.0f32, 20.0, 30.0, 0.5, 1.5];
    let a_bits: Vec<u32> = a.iter().map(|x| x.to_bits()).collect();
    let b_bits: Vec<u32> = b.iter().map(|x| x.to_bits()).collect();
    let p = plan_add(&a_bits, &b_bits).unwrap();
    let a_native: Vec<u8> = a.iter().flat_map(|x| x.to_ne_bytes()).collect();
    let b_native: Vec<u8> = b.iter().flat_map(|x| x.to_ne_bytes()).collect();
    assert_eq!(p.a_bytes, a_native);
    assert_eq!(p.b_bytes, b_native);
    assert_eq!(p.byte_size, 20);
    assert_eq!(p.workgroup_count, 1);
}

#[test]
fn host_byte_order_matches_the_machine() {
    let expected = if 1u32.to_ne_bytes()[0] == 1 { ByteOrder::Little } else { ByteOrder::Big };
    assert_eq!(host_byte_order(), expected);
}

#[test]
fn read_back_returns_what_the_device_wrote() {
    let p = plan_add(&[1, 2, 3], &[4, 5, 6]).unwrap();
    // An output buffer holding the words 5, 7, 9 in the host's layout.
    let output: Vec<u8> = [5u32, 7, 9].iter().flat_map(|x| x.to_ne_bytes()).collect();
    assert_eq!(p.read_back(&output), vec![5, 7, 9]);
    let sums: Vec<f32> = p.read_back(&output).iter().map(|x| f32::from_bits(*x)).collect();
    assert_eq!(sums.len(), p.element_count);
}

#[test]
fn floats_round_trip_through_the_byte_image() {
    let values = [11.0f32, 22.0, 33.0, 5.0, 0.0, -0.0, f32::MAX, f32::MIN_POSITIVE];
    let bits: Vec<u32> = values.iter().map(|x| x.to_bits()).collect();
    for order in [ByteOrder::Little, ByteOrder::Big] {
        let bytes = encode_words(order, &bits);
        assert_eq!(bytes.len(), 4 * bits.len());
        let back = decode_words(order, &bytes);
        let floats: Vec<f32> = back.iter().map(|x| f32::from_bits(*x)).collect();
        assert_eq!(back, bits);
        assert_eq!(floats[..5], values[..5]);
    }
}

#[test]
fn decode_reads_four_bytes_per_word() {
    assert_eq!(decode_words(ByteOrder::Little, &[]), Vec::<u32>::new());
    assert_eq!(decode_words(ByteOrder::Little, &[1, 0, 0, 0, 0, 1, 0, 0]), vec![1, 256]);
    assert_eq!(decode_words(ByteOrder::Big, &[1, 0, 0, 0, 0, 1, 0, 0]), vec![1 << 24, 1 << 16]);
    let bytes = [9u8, 8, 7, 6, 5, 4, 3, 2];
    for order in [ByteOrder::Little, ByteOrder::Big] {
        assert_eq!(encode_words(order, &decode_words(order, &bytes)), bytes.to_vec());
    }
}

#[test]
fn byte_order_of_probe_reads_the_probe() {
    assert_eq!(byte_order_of_probe(1), ByteOrder::Little);
    assert_eq!(byte_order_of_probe(0x0100_0000), ByteOrder::Big);
    assert_eq!(byte_order_of_probe(u32::from_ne_bytes([1, 0, 0, 0])), host_byte_order());
}

#[test]
fn encode_then_decode_gives_the_words_back() {
    let words = [0u32, 1, 0xdead_beef, u32::MAX, 0x7fc0_0001];
    for order in [ByteOrder::Little, ByteOrder::Big] {
        let bytes = encode_words(order, &words);
        assert_eq!(bytes.len(), 4 * words.len());
        assert_eq!(decode_words(order, &bytes), words.to_vec());
    }
}
