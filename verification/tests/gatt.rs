use quiz_display::gatt::{
    static_random_address, ADV_DATA, AD_FLAGS, AD_NAME, AD_SERVICES, DEVICE_NAME, SCAN_DATA,
    SERVICE_UUID,
};

fn fields(payload: &[u8]) -> Vec<(u8, Vec<u8>)> {
    let mut rest = payload;
    let mut found = Vec::new();
    while !rest.is_empty() {
        let len = rest[0] as usize;
        found.push((rest[1], rest[2..=len].to_vec()));
        rest = &rest[len + 1..];
    }
    found
}

#[test]
fn advertises_flags_and_name() {
    assert_eq!(
        fields(&ADV_DATA),
        vec![(AD_FLAGS, vec![0x06]), (AD_NAME, DEVICE_NAME.as_bytes().to_vec())]
    );
    assert_eq!(DEVICE_NAME, "RustQuiz");
}

#[test]
fn scan_response_names_the_service() {
    assert_eq!(fields(&SCAN_DATA), vec![(AD_SERVICES, SERVICE_UUID.to_le_bytes().to_vec())]);
}

#[test]
fn static_random_addresses_have_their_top_bits_set() {
    assert_eq!(static_random_address([1, 2, 3, 4, 5, 6]), [1, 2, 3, 4, 5, 0xC6]);
    for top in 0..=255u8 {
        let address = static_random_address([9, 8, 7, 6, 5, top]);
        assert_eq!(address[5] >> 6, 0b11);
        assert_eq!(address[5] & 0x3F, top & 0x3F);
    }
}
