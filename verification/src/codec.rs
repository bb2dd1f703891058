//! The audio-class control request that sets the sidetone level.

use vstd::prelude::*;

verus! {

/// Direction of the data stage of a control transfer.
#[derive(Clone, Copy, Debug, PartialEq, Eq, Structural)]
pub enum Direction {
    /// Device to host.
    In,
    /// Host to device.
    Out,
}

/// Who defines the meaning of a control request.
#[derive(Clone, Copy, Debug, PartialEq, Eq, Structural)]
pub enum RequestClass {
    Standard,
    Class,
    Vendor,
    Reserved,
}

/// The part of the device that a control request addresses.
#[derive(Clone, Copy, Debug, PartialEq, Eq, Structural)]
pub enum Recipient {
    Device,
    Interface,
    Endpoint,
    Other,
}

/// Control selector of the volume control of a feature unit.
pub const CONTROL_SELECTOR: u8 = 0x01;

/// The master channel.
pub const CHANNEL: u8 = 0x00;

/// Identifier of the sidetone feature unit.
pub const FEATURE_UNIT_ID: u8 = 0x06;

/// Index of the audio control interface that holds the feature unit.
pub const SUB_INTERFACE_INDEX: u8 = 0x00;

/// Request code of SET_CUR.
pub const SET_CUR: u8 = 1;

/// Time allowed for the control transfer, in milliseconds.
pub const TRANSFER_TIMEOUT_MILLIS: u64 = 1000;

/// Bit 7 of `bmRequestType`.
pub open spec fn direction_bits(direction: Direction) -> u8 {
    match direction {
        Direction::Out => 0x00,
        Direction::In => 0x80,
    }
}

/// Bits 5 and 6 of `bmRequestType`.
pub open spec fn class_bits(class: RequestClass) -> u8 {
    match class {
        RequestClass::Standard => 0x00,
        RequestClass::Class => 0x20,
        RequestClass::Vendor => 0x40,
        RequestClass::Reserved => 0x60,
    }
}

/// Bits 0 to 4 of `bmRequestType`.
pub open spec fn recipient_bits(recipient: Recipient) -> u8 {
    match recipient {
        Recipient::Device => 0x00,
        Recipient::Interface => 0x01,
        Recipient::Endpoint => 0x02,
        Recipient::Other => 0x03,
    }
}

/// The `bmRequestType` byte made of the three fields.
pub open spec fn request_type_spec(
    direction: Direction,
    class: RequestClass,
    recipient: Recipient,
) -> u8 {
    direction_bits(direction) | class_bits(class) | recipient_bits(recipient)
}

/// Calls `rusb::request_type`, which ors together the direction bit, the
/// request type shifted left by five and the recipient number. The contract
/// states that byte; it is taken from the source of `rusb` and is not proved.
#[verifier::external_body]
fn bm_request_type(direction: Direction, class: RequestClass, recipient: Recipient) -> (byte: u8)
    ensures
        byte == request_type_spec(direction, class, recipient),
{
    let d = match direction { Direction::In => rusb::Direction::In, Direction::Out => rusb::Direction::Out };
    let c = match class {
        RequestClass::Standard => rusb::RequestType::Standard,
        RequestClass::Class => rusb::RequestType::Class,
        RequestClass::Vendor => rusb::RequestType::Vendor,
        RequestClass::Reserved => rusb::RequestType::Reserved,
    };
    let r = match recipient {
        Recipient::Device => rusb::Recipient::Device,
        Recipient::Interface => rusb::Recipient::Interface,
        Recipient::Endpoint => rusb::Recipient::Endpoint,
        Recipient::Other => rusb::Recipient::Other,
    };
    rusb::request_type(d, c, r)
}

/// The word with `high` in its upper byte and `low` in its lower byte.
pub open spec fn pack_spec(high: u8, low: u8) -> u16 {
    (high as u16) << 8 | (low as u16)
}

/// Packs a pair of bytes into one of the 16-bit fields of a control request.
pub fn pack(high: u8, low: u8) -> (word: u16)
    ensures
        word == pack_spec(high, low),
        word == high * 256 + low,
{
    let h: u16 = high as u16;
    let l: u16 = low as u16;
    assert((h << 8 | l) == h * 256 + l) by (bit_vector)
        requires
            h < 256,
            l < 256,
    ;
    (h << 8) | l
}

/// A control transfer, ready to be written to the device.
#[derive(Clone, Copy, Debug, PartialEq, Eq)]
pub struct ControlRequest {
    pub request_type: u8,
    pub request_code: u8,
    pub value: u16,
    pub index: u16,
    pub payload: [u8; 2],
    pub timeout_millis: u64,
}

/// The two bytes that carry the sidetone level, low byte first.
pub open spec fn payload_spec(setting: u16) -> [u8; 2] {
    [(setting % 256) as u8, (setting / 256) as u8]
}

/// The request that sets the sidetone level to `setting`.
pub open spec fn encode_spec(setting: u16) -> ControlRequest {
    ControlRequest {
        request_type: 0x21,
        request_code: 1,
        value: 0x0100,
        index: 0x0600,
        payload: payload_spec(setting),
        timeout_millis: 1000,
    }
}

/// The `bmRequestType` byte of a request with the given direction, class
/// and recipient.
pub fn request_type(direction: Direction, class: RequestClass, recipient: Recipient) -> (byte: u8)
    ensures
        byte == request_type_spec(direction, class, recipient),
        byte == direction_bits(direction) + class_bits(class) + recipient_bits(recipient),
{
    let byte = bm_request_type(direction, class, recipient);
    proof {
        let d = direction_bits(direction);
        let c = class_bits(class);
        let r = recipient_bits(recipient);
        assert(d | c | r == d + c + r) by (bit_vector)
            requires
                d == 0x00 || d == 0x80,
                c == 0x00 || c == 0x20 || c == 0x40 || c == 0x60,
                r < 4,
        ;
    }
    byte
}

/// Encodes the request that sets the sidetone level: a class request to the
/// interface, SET_CUR, the volume control of the master channel in `value`,
/// the feature unit of the control interface in `index`, and the level in
/// two bytes, low byte first.
pub fn encode(setting: u16) -> (request: ControlRequest)
    ensures
        request == encode_spec(setting),
        request.request_type == request_type_spec(
            Direction::Out,
            RequestClass::Class,
            Recipient::Interface,
        ),
        request.request_code == SET_CUR,
        request.value == 0x0100,
        request.value == pack_spec(CONTROL_SELECTOR, CHANNEL),
        request.index == 0x0600,
        request.index == pack_spec(FEATURE_UNIT_ID, SUB_INTERFACE_INDEX),
        request.payload@.len() == 2,
        request.payload[0] + 256 * request.payload[1] == setting,
        request.timeout_millis == TRANSFER_TIMEOUT_MILLIS,
{
    let low: u8 = (setting % 256) as u8;
    let high: u8 = (setting / 256) as u8;
    let request_type = request_type(Direction::Out, RequestClass::Class, Recipient::Interface);
    ControlRequest {
        request_type,
        request_code: SET_CUR,
        value: pack(CONTROL_SELECTOR, CHANNEL),
        index: pack(FEATURE_UNIT_ID, SUB_INTERFACE_INDEX),
        payload: [low, high],
        timeout_millis: TRANSFER_TIMEOUT_MILLIS,
    }
}

} // verus!
