use dynamic_amm::params::CustomizableParams;

fn sample(point: Option<u64>) -> CustomizableParams {
    let mut padding = [0u8; 90];
    padding[0] = 0xaa;
    padding[89] = 0x55;
    CustomizableParams {
        trade_fee_numerator: 0x0403_0201,
        activation_point: point,
        has_alpha_vault: true,
        activation_type: 1,
        padding,
    }
}

#[test]
fn encode_without_activation_point() {
    let b = sample(None).encode();
    assert_eq!(b.len(), 97);
    assert_eq!(&b[0..4], &[1, 2, 3, 4]);
    assert_eq!(b[4], 0);
    assert_eq!(b[5], 1);
    assert_eq!(b[6], 1);
    assert_eq!(b[7], 0xaa);
    assert_eq!(b[96], 0x55);
}

#[test]
fn encode_with_activation_point() {
    let b = sample(Some(0x0807_0605_0403_0201)).encode();
    assert_eq!(b.len(), 105);
    assert_eq!(&b[4..13], &[1, 1, 2, 3, 4, 5, 6, 7, 8]);
    assert_eq!(b[13], 1);
    assert_eq!(b[14], 1);
    assert_eq!(b[15], 0xaa);
    assert_eq!(b[104], 0x55);
}

#[test]
fn decode_reverses_encode_and_keeps_padding() {
    for point in [None, Some(0), Some(u64::MAX), Some(1_700_000_000)] {
        let p = sample(point);
        assert_eq!(CustomizableParams::decode(&p.encode()), Some(p));
    }
    let mut q = sample(None);
    q.has_alpha_vault = false;
    q.trade_fee_numerator = u32::MAX;
    q.padding = [7; 90];
    assert_eq!(CustomizableParams::decode(&q.encode()), Some(q));
}

#[test]
fn decode_refuses_malformed_bytes() {
    let good = sample(None).encode();
    let mut bad_tag = good.clone();
    bad_tag[4] = 2;
    assert_eq!(CustomizableParams::decode(&bad_tag), None);
    let mut bad_bool = good.clone();
    bad_bool[5] = 2;
    assert_eq!(CustomizableParams::decode(&bad_bool), None);
    let mut long = good.clone();
    long.push(0);
    assert_eq!(CustomizableParams::decode(&long), None);
    assert_eq!(CustomizableParams::decode(&good[..96].to_vec()), None);
    assert_eq!(CustomizableParams::decode(&Vec::new()), None);
    let mut some_short = sample(Some(5)).encode();
    some_short.pop();
    assert_eq!(CustomizableParams::decode(&some_short), None);
}
