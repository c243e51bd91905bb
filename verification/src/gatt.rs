//! The Bluetooth face of the display: its GATT service, control commands and advertising data.
use vstd::prelude::*;

verus! {

/// Name under which the display advertises.
pub const DEVICE_NAME: &'static str = "RustQuiz";

/// The quiz service, 00001000-b0cd-11ec-871f-d45ddf138840.
pub const SERVICE_UUID: u128 = 0x00001000_b0cd_11ec_871f_d45ddf138840;

/// The characteristic that takes vote percentages, one byte for each of A, B, C and D.
pub const VOTES_CHAR: u128 = 0x00001001_b0cd_11ec_871f_d45ddf138840;

/// The characteristic that takes a control command and its parameter.
pub const CONTROL_CHAR: u128 = 0x00001002_b0cd_11ec_871f_d45ddf138840;

/// Control command: clear the display and forget the votes.
pub const CONTROL_CLEAR: u8 = 0x00;

/// Control command: blink the option given by the parameter until told otherwise.
pub const CONTROL_BLINK_START: u8 = 0x01;

/// Control command: stop blinking.
pub const CONTROL_BLINK_STOP: u8 = 0x02;

/// Advertising data: the flags for general discovery without classic Bluetooth, and the name.
pub const ADV_DATA: [u8; 13] = [
    0x02,
    0x01,
    0x06,
    0x09,
    0x09,
    0x52,
    0x75,
    0x73,
    0x74,
    0x51,
    0x75,
    0x69,
    0x7a,
];

/// Scan response: the 128-bit UUID of the quiz service, lowest byte first.
pub const SCAN_DATA: [u8; 18] = [
    0x11,
    0x07,
    0x40,
    0x88,
    0x13,
    0xdf,
    0x5d,
    0xd4,
    0x1f,
    0x87,
    0xec,
    0x11,
    0xcd,
    0xb0,
    0x00,
    0x10,
    0x00,
    0x00,
];

/// Advertising payload type: flags.
pub const AD_FLAGS: u8 = 0x01;

/// Advertising payload type: complete list of 128-bit service UUIDs.
pub const AD_SERVICES: u8 = 0x07;

/// Advertising payload type: complete local name.
pub const AD_NAME: u8 = 0x09;

/// The length-prefixed, typed fields of an advertising payload.
pub open spec fn ad_field(kind: u8, value: Seq<u8>) -> Seq<u8> {
    seq![(value.len() + 1) as u8, kind] + value
}

/// The number that bytes stand for, lowest byte first.
pub open spec fn little_endian(bytes: Seq<u8>) -> nat
    decreases bytes.len(),
{
    if bytes.len() == 0 {
        0
    } else {
        bytes[0] as nat + 256 * little_endian(bytes.skip(1))
    }
}

/// What the display advertises fits a legacy payload and consists of the flags and its name.
pub proof fn law_advertises_name(name: Seq<u8>)
    requires
        name.len() == DEVICE_NAME@.len(),
        forall|i: int| 0 <= i < name.len() ==> #[trigger] name[i] as char == DEVICE_NAME@[i],
    ensures
        ADV_DATA@ == ad_field(AD_FLAGS, seq![0x06]) + ad_field(AD_NAME, name),
        ADV_DATA@.len() <= 31,
{
    reveal_strlit("RustQuiz");
    assert(ADV_DATA@ =~= ad_field(AD_FLAGS, seq![0x06]) + ad_field(AD_NAME, name));
}

/// The scan response fits a legacy payload and names the quiz service and nothing else.
pub proof fn law_scan_response_names_service(uuid: Seq<u8>)
    requires
        uuid.len() == 16,
        little_endian(uuid) == SERVICE_UUID,
    ensures
        SCAN_DATA@ == ad_field(AD_SERVICES, uuid),
        SCAN_DATA@.len() <= 31,
{
    reveal_with_fuel(little_endian, 18);
    let own = SCAN_DATA@.skip(2);
    assert(uuid =~= own);
    assert(SCAN_DATA@ =~= ad_field(AD_SERVICES, uuid));
}

/// Turn six random bytes, lowest first, into a static random device address, which has the two
/// highest bits set.
pub fn static_random_address(random: [u8; 6]) -> (address: [u8; 6])
    ensures
        address == [
            random[0],
            random[1],
            random[2],
            random[3],
            random[4],
            random[5] | 0xC0,
        ],
        address[5] >= 0xC0,
        address[5] % 0x40 == random[5] % 0x40,
        forall|i: int| 0 <= i < 5 ==> address[i] == random[i],
{
    let top: u8 = random[5];
    assert(top | 0xC0 >= 0xC0 && (top | 0xC0) % 0x40 == top % 0x40) by (bit_vector);
    let mut address: [u8; 6] = random;
    address[5] = address[5] | 0xC0;
    assert(address =~= [random[0], random[1], random[2], random[3], random[4], random[5] | 0xC0]);
    address
}

/// The two highest bits of a static random address are set, and its other 46 bits are as random as
/// the bytes it was made from.
pub proof fn law_static_random_bits(top: u8)
    ensures
        (top | 0xC0) >> 6 == 0b11,
        (top | 0xC0) & 0x3F == top & 0x3F,
{
    assert((top | 0xC0) >> 6 == 0b11 && (top | 0xC0) & 0x3F == top & 0x3F) by (bit_vector);
}

} // verus!
