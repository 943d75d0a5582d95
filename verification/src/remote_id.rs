//! Remote Id in Wi-Fi frames: which frames carry the identification that a drone broadcasts.
use ieee80211::elements::{ReadElements, VendorSpecificElement};
use ieee80211::mgmt_frame::body::action::{CategoryCode, RawActionBody};
use ieee80211::mgmt_frame::{BeaconFrame, RawActionFrame};
use ieee80211::scroll::Pread;
use ieee80211::GenericFrame;
use vstd::prelude::*;

verus! {

/// The organizationally unique identifier under which Remote Id is broadcast.
pub const REMOTE_ID_OUI: [u8; 3] = [0xFA, 0x0B, 0xBC];

/// The category of a vendor specific action frame.
pub const VENDOR_SPECIFIC_CATEGORY: u8 = 127;

/// Whether bytes begin with the identifier of Remote Id.
pub open spec fn begins_with_oui(bytes: Seq<u8>) -> bool {
    bytes.len() >= 3 && bytes[0] == 0xFA && bytes[1] == 0x0B && bytes[2] == 0xBC
}

/// The length of the header of a management frame: 24 bytes, and four more where the highest flag
/// says that a field for high throughput control follows.
pub open spec fn management_header_len(frame: Seq<u8>) -> int {
    if frame[1] >= 0x80 {
        28
    } else {
        24
    }
}

/// Whether a frame is a beacon: the upper six bits of its first byte are the subtype 8 and the
/// type 0, and it is long enough for the header, the timestamp, the interval and the capabilities.
pub open spec fn is_beacon(frame: Seq<u8>) -> bool {
    frame.len() >= 24 && frame[0] / 4 == 32 && frame.len() >= management_header_len(frame) + 12
}

/// The elements of a beacon.
pub open spec fn beacon_elements_of(frame: Seq<u8>) -> Seq<u8> {
    frame.skip(management_header_len(frame) + 12)
}

/// Whether a frame is an action frame: the upper six bits of its first byte are the subtype 13 and
/// the type 0, and it is long enough for the header and the category.
pub open spec fn is_action(frame: Seq<u8>) -> bool {
    frame.len() >= 24 && frame[0] / 4 == 52 && frame.len() >= management_header_len(frame) + 1
}

/// The category of an action frame.
pub open spec fn action_category(frame: Seq<u8>) -> u8 {
    frame[management_header_len(frame)]
}

/// What follows the category of an action frame.
pub open spec fn action_payload(frame: Seq<u8>) -> Seq<u8> {
    frame.skip(management_header_len(frame) + 1)
}

/// Whether bytes begin with an element: its number, its length, and that many bytes.
pub open spec fn begins_with_element(bytes: Seq<u8>) -> bool {
    bytes.len() >= 2 && bytes.len() >= 2 + bytes[1]
}

/// The payloads of the vendor specific elements, which have the number 221, up to where the bytes
/// hold no whole element.
pub open spec fn vendor_payloads(bytes: Seq<u8>) -> Seq<Seq<u8>>
    decreases bytes.len(),
{
    if begins_with_element(bytes) {
        (if bytes[0] == 221 {
            seq![bytes.subrange(2, 2 + bytes[1])]
        } else {
            Seq::empty()
        }) + vendor_payloads(bytes.skip(2 + bytes[1]))
    } else {
        Seq::empty()
    }
}

/// Whether every byte belongs to a whole element.
pub open spec fn all_elements_whole(bytes: Seq<u8>) -> bool
    decreases bytes.len(),
{
    bytes.len() == 0 || (begins_with_element(bytes) && all_elements_whole(
        bytes.skip(2 + bytes[1]),
    ))
}

/// Whether one of the payloads begins with the identifier of Remote Id.
pub open spec fn remote_id_among(payloads: Seq<Seq<u8>>) -> bool {
    exists|i: int| 0 <= i < payloads.len() && begins_with_oui(#[trigger] payloads[i])
}

/// Whether a frame carries Remote Id: a beacon in a vendor specific element, an action frame as
/// vendor specific action.
pub open spec fn carries_remote_id(frame: Seq<u8>) -> bool {
    ||| is_beacon(frame) && remote_id_among(vendor_payloads(beacon_elements_of(frame)))
    ||| is_action(frame) && action_category(frame) == VENDOR_SPECIFIC_CATEGORY && begins_with_oui(
        action_payload(frame),
    )
}

/// `ieee80211`'s `GenericFrame::parse_to_typed` for a `BeaconFrame`, on a frame without checksum:
/// gives the elements exactly when the frame is a beacon.
#[verifier::external_body]
fn parse_beacon(frame: &[u8]) -> (elements: Option<&[u8]>)
    ensures
        elements is Some <==> is_beacon(frame@),
        elements matches Some(elements) ==> elements@ == beacon_elements_of(frame@),
{
    let beacon = GenericFrame::new(frame, false).ok()?.parse_to_typed::<BeaconFrame>()?.ok()?;
    Some(beacon.body.elements.bytes)
}

/// `ieee80211`'s `GenericFrame::parse_to_typed` for a `RawActionFrame`, on a frame without
/// checksum: gives the category and what follows it exactly when the frame is an action frame.
#[verifier::external_body]
fn parse_action(frame: &[u8]) -> (action: Option<(u8, &[u8])>)
    ensures
        action is Some <==> is_action(frame@),
        action matches Some(action) ==> action.0 == action_category(frame@) && action.1@
            == action_payload(frame@),
{
    let action = GenericFrame::new(frame, false).ok()?.parse_to_typed::<RawActionFrame>()?.ok()?;
    Some((action.body.category_code.into_bits(), action.body.payload))
}

/// `ieee80211`'s `ReadElements::get_matching_elements` for a `VendorSpecificElement`: gives the
/// payloads of the vendor specific elements in their order.
#[verifier::external_body]
fn vendor_elements(elements: &[u8]) -> (payloads: Vec<&[u8]>)
    ensures
        payloads@.len() == vendor_payloads(elements@).len(),
        forall|i: int|
            0 <= i < payloads@.len() ==> (#[trigger] payloads@[i])@ == vendor_payloads(
                elements@,
            )[i],
{
    let elements = ReadElements { bytes: elements };
    elements.get_matching_elements::<VendorSpecificElement>().map(
        |element| *element.get_payload(),
    ).collect()
}

/// `ieee80211`'s `VendorSpecificElement::get_payload_if_prefix_matches`: whether the payload of an
/// element begins with the prefix.
#[verifier::external_body]
fn payload_has_prefix(payload: &[u8], prefix: &'static [u8; 3]) -> (matches: bool)
    ensures
        matches == (payload@.len() >= 3 && payload@.take(3) == prefix@),
{
    let element: VendorSpecificElement = payload.pread(0).unwrap();
    element.get_payload_if_prefix_matches(prefix).is_some()
}

/// `ieee80211`'s `RawActionBody::is_vendor_and_matches`: whether an action is vendor specific and
/// begins with the identifier.
#[verifier::external_body]
fn is_vendor_and_matches(category: u8, payload: &[u8], oui: [u8; 3]) -> (matches: bool)
    ensures
        matches == (category == VENDOR_SPECIFIC_CATEGORY && payload@.len() >= 3 && payload@.take(3)
            == oui@),
{
    let category_code = CategoryCode::from_bits(category);
    RawActionBody { category_code, payload }.is_vendor_and_matches(oui)
}

proof fn lemma_oui(bytes: Seq<u8>)
    ensures
        (bytes.len() >= 3 && bytes.take(3) == REMOTE_ID_OUI@) == begins_with_oui(bytes),
{
    if begins_with_oui(bytes) {
        assert(bytes.take(3) =~= REMOTE_ID_OUI@);
    } else if bytes.len() >= 3 {
        assert(bytes.take(3)[0] == bytes[0]);
        assert(bytes.take(3)[1] == bytes[1]);
        assert(bytes.take(3)[2] == bytes[2]);
    }
}

/// Whether one of the payloads of vendor specific elements begins with the identifier of Remote Id.
pub fn find_remote_id(payloads: &Vec<&[u8]>) -> (found: bool)
    ensures
        found == exists|i: int|
            0 <= i < payloads@.len() && begins_with_oui((#[trigger] payloads@[i])@),
        found <==> exists|i: int|
            0 <= i < payloads@.len() && (#[trigger] payloads@[i])@.len() >= 3 && payloads@[i]@[0]
                == 0xFA && payloads@[i]@[1] == 0x0B && payloads@[i]@[2] == 0xBC,
{
    let mut i: usize = 0;
    while i < payloads.len()
        invariant
            i <= payloads@.len(),
            forall|j: int| 0 <= j < i ==> !begins_with_oui((#[trigger] payloads@[j])@),
        decreases payloads@.len() - i,
    {
        proof {
            lemma_oui(payloads@[i as int]@);
        }
        if payload_has_prefix(payloads[i], &REMOTE_ID_OUI) {
            return true;
        }
        i += 1;
    }
    false
}

/// Whether a received frame carries Remote Id.
pub fn is_remote_id_frame(frame: &[u8]) -> (found: bool)
    ensures
        found == carries_remote_id(frame@),
{
    match parse_beacon(frame) {
        Some(elements) => {
            let payloads = vendor_elements(elements);
            let found = find_remote_id(&payloads);
            proof {
                let expected = vendor_payloads(elements@);
                if found {
                    let i = choose|i: int|
                        0 <= i < payloads@.len() && begins_with_oui((#[trigger] payloads@[i])@);
                    assert(begins_with_oui(expected[i]));
                } else if remote_id_among(expected) {
                    let i = choose|i: int|
                        0 <= i < expected.len() && begins_with_oui(#[trigger] expected[i]);
                    assert(begins_with_oui(payloads@[i]@));
                }
            }
            found
        },
        None => match parse_action(frame) {
            Some((category, payload)) => {
                proof {
                    lemma_oui(payload@);
                }
                is_vendor_and_matches(category, payload, REMOTE_ID_OUI)
            },
            None => false,
        },
    }
}

/// After whole elements, the vendor specific elements of the rest follow.
proof fn lemma_payloads_follow(bytes: Seq<u8>, tail: Seq<u8>)
    requires
        all_elements_whole(bytes),
    ensures
        vendor_payloads(bytes + tail) == vendor_payloads(bytes) + vendor_payloads(tail),
    decreases bytes.len(),
{
    if bytes.len() == 0 {
        assert(bytes + tail =~= tail);
        assert(vendor_payloads(bytes) + vendor_payloads(tail) =~= vendor_payloads(tail));
    } else {
        let rest = bytes.skip(2 + bytes[1]);
        lemma_payloads_follow(rest, tail);
        assert((bytes + tail).skip(2 + bytes[1]) =~= rest + tail);
        assert((bytes + tail).subrange(2, 2 + bytes[1]) =~= bytes.subrange(2, 2 + bytes[1]));
        assert(vendor_payloads(bytes + tail) =~= vendor_payloads(bytes) + vendor_payloads(tail));
    }
}

/// A beacon with a vendor specific element of Remote Id carries Remote Id, whatever the element
/// holds behind the identifier, whatever whole elements stand before it, and whatever follows.
pub proof fn remote_id_beacon_is_detected(
    header: Seq<u8>,
    before: Seq<u8>,
    message: Seq<u8>,
    after: Seq<u8>,
)
    requires
        is_beacon(header),
        header.len() == management_header_len(header) + 12,
        all_elements_whole(before),
        message.len() <= 252,
    ensures
        carries_remote_id(
            header + (before + (seq![221u8, (message.len() + 3) as u8, 0xFAu8, 0x0Bu8, 0xBCu8]
                + message + after)),
        ),
{
    let element = seq![221u8, (message.len() + 3) as u8, 0xFAu8, 0x0Bu8, 0xBCu8] + message + after;
    let frame = header + (before + element);
    assert(beacon_elements_of(frame) =~= before + element);
    lemma_payloads_follow(before, element);
    assert(element[0] == 221);
    assert(element[1] == message.len() + 3);
    assert(element.len() == message.len() + 5 + after.len());
    assert(begins_with_element(element));
    let payload = element.subrange(2, 2 + element[1]);
    assert(payload[0] == element[2] && payload[1] == element[3] && payload[2] == element[4]);
    assert(vendor_payloads(element)[0] == payload);
    let payloads = vendor_payloads(beacon_elements_of(frame));
    assert(begins_with_oui(payloads[vendor_payloads(before).len() as int]));
}

/// An action frame of the vendor specific category carries Remote Id exactly when the identifier
/// follows the category.
pub proof fn remote_id_action_is_detected(header: Seq<u8>, oui: Seq<u8>, message: Seq<u8>)
    requires
        is_action(header),
        header.len() == management_header_len(header) + 1,
        action_category(header) == VENDOR_SPECIFIC_CATEGORY,
        oui.len() == 3,
    ensures
        carries_remote_id(header + (oui + message)) <==> oui == REMOTE_ID_OUI@,
{
    let frame = header + (oui + message);
    assert(action_payload(frame) =~= oui + message);
    lemma_oui(oui + message);
    assert((oui + message).take(3) =~= oui);
}

/// A frame that is neither a beacon nor an action frame carries no Remote Id.
pub proof fn other_frames_carry_no_remote_id(frame: Seq<u8>)
    requires
        frame.len() > 0,
        frame[0] / 4 != 32,
        frame[0] / 4 != 52,
    ensures
        !carries_remote_id(frame),
{
}

/// An element of a beacon: its number and its payload.
pub struct BeaconElement {
    pub id: u8,
    pub payload: Seq<u8>,
}

impl BeaconElement {
    /// The element as it is sent: the number, the length of the payload, and the payload.
    pub open spec fn encoded(self) -> Seq<u8> {
        seq![self.id, self.payload.len() as u8] + self.payload
    }

    /// Whether the element is a vendor specific one of Remote Id.
    pub open spec fn of_remote_id(self) -> bool {
        &&& self.id == 221
        &&& self.payload.len() >= 3
        &&& self.payload[0] == 0xFA
        &&& self.payload[1] == 0x0B
        &&& self.payload[2] == 0xBC
    }
}

/// Elements as they are sent, one after the other.
pub open spec fn encoded_elements(elements: Seq<BeaconElement>) -> Seq<u8>
    decreases elements.len(),
{
    if elements.len() == 0 {
        Seq::empty()
    } else {
        elements[0].encoded() + encoded_elements(elements.skip(1))
    }
}

/// Whether some bytes are too few for the element that they begin.
pub open spec fn begins_cut_off(bytes: Seq<u8>) -> bool {
    bytes.len() < 2 || bytes.len() < 2 + bytes[1]
}

proof fn lemma_remote_id_step(bytes: Seq<u8>)
    requires
        begins_with_element(bytes),
    ensures
        remote_id_among(vendor_payloads(bytes)) <==> (bytes[0] == 221 && begins_with_oui(
            bytes.subrange(2, 2 + bytes[1]),
        )) || remote_id_among(vendor_payloads(bytes.skip(2 + bytes[1]))),
{
    let rest = vendor_payloads(bytes.skip(2 + bytes[1]));
    let all = vendor_payloads(bytes);
    let shift: int = if bytes[0] == 221 {
        1
    } else {
        0
    };
    let payload = bytes.subrange(2, 2 + bytes[1]);
    if bytes[0] == 221 {
        assert(all == seq![payload] + rest);
        assert(all[0] == payload);
    } else {
        assert(all =~= rest);
    }
    if remote_id_among(rest) {
        let i = choose|i: int| 0 <= i < rest.len() && begins_with_oui(#[trigger] rest[i]);
        assert(begins_with_oui(all[i + shift]));
    }
    if remote_id_among(all) {
        let i = choose|i: int| 0 <= i < all.len() && begins_with_oui(#[trigger] all[i]);
        if i >= shift {
            assert(begins_with_oui(rest[i - shift]));
        }
    }
}

proof fn lemma_remote_id_among_iff(elements: Seq<BeaconElement>, tail: Seq<u8>)
    requires
        forall|i: int| 0 <= i < elements.len() ==> (#[trigger] elements[i]).payload.len() <= 255,
        begins_cut_off(tail),
    ensures
        remote_id_among(vendor_payloads(encoded_elements(elements) + tail)) <==> exists|i: int|
            0 <= i < elements.len() && (#[trigger] elements[i]).of_remote_id(),
    decreases elements.len(),
{
    if elements.len() == 0 {
        assert(encoded_elements(elements) + tail =~= tail);
        assert(vendor_payloads(tail).len() == 0);
    } else {
        let first = elements[0];
        let others = elements.skip(1);
        assert forall|i: int| 0 <= i < others.len() implies (
        #[trigger] others[i]).payload.len() <= 255 by {
            assert(others[i] == elements[i + 1]);
        }
        lemma_remote_id_among_iff(others, tail);
        let rest = encoded_elements(others) + tail;
        let bytes = encoded_elements(elements) + tail;
        assert(bytes =~= first.encoded() + rest);
        assert(bytes[0] == first.id);
        assert(bytes[1] == first.payload.len());
        assert(bytes.skip(2 + bytes[1]) =~= rest);
        assert(bytes.subrange(2, 2 + bytes[1]) =~= first.payload);
        lemma_remote_id_step(bytes);
        if first.of_remote_id() {
            assert(elements[0].of_remote_id());
        }
        if exists|i: int| 0 <= i < others.len() && (#[trigger] others[i]).of_remote_id() {
            let i = choose|i: int| 0 <= i < others.len() && (#[trigger] others[i]).of_remote_id();
            assert(elements[i + 1].of_remote_id());
        }
        if exists|i: int| 0 <= i < elements.len() && (#[trigger] elements[i]).of_remote_id() {
            let i = choose|i: int|
                0 <= i < elements.len() && (#[trigger] elements[i]).of_remote_id();
            if i > 0 {
                assert(others[i - 1].of_remote_id());
            }
        }
    }
}

/// A beacon carries Remote Id exactly when one of its whole elements is a vendor specific one whose
/// payload begins with FA 0B BC. It does not matter which one, how many vendor specific elements
/// there are, and what follows the whole elements.
pub proof fn beacon_carries_iff_of_remote_id(
    header: Seq<u8>,
    elements: Seq<BeaconElement>,
    tail: Seq<u8>,
)
    requires
        header.len() > 1,
        0x80 <= header[0] <= 0x83,
        header.len() == (if header[1] < 0x80 {
            24int
        } else {
            28
        }) + 12,
        forall|i: int| 0 <= i < elements.len() ==> (#[trigger] elements[i]).payload.len() <= 255,
        begins_cut_off(tail),
    ensures
        carries_remote_id(header + (encoded_elements(elements) + tail)) <==> exists|i: int|
            0 <= i < elements.len() && (#[trigger] elements[i]).of_remote_id(),
{
    let bytes = encoded_elements(elements) + tail;
    let frame = header + bytes;
    assert(frame[0] == header[0] && frame[1] == header[1]);
    assert(beacon_elements_of(frame) =~= bytes);
    lemma_remote_id_among_iff(elements, tail);
}

/// All that follows the fixed fields of a beacon consists of whole elements, and of bytes behind
/// them that are too few for one.
pub proof fn elements_split(bytes: Seq<u8>) -> (parts: (Seq<BeaconElement>, Seq<u8>))
    ensures
        forall|i: int| 0 <= i < parts.0.len() ==> (#[trigger] parts.0[i]).payload.len() <= 255,
        begins_cut_off(parts.1),
        bytes == encoded_elements(parts.0) + parts.1,
    decreases bytes.len(),
{
    if begins_cut_off(bytes) {
        let none = Seq::<BeaconElement>::empty();
        assert(bytes =~= encoded_elements(none) + bytes);
        (none, bytes)
    } else {
        let first = BeaconElement { id: bytes[0], payload: bytes.subrange(2, 2 + bytes[1]) };
        let (others, tail) = elements_split(bytes.skip(2 + bytes[1]));
        let elements = seq![first] + others;
        assert(elements.skip(1) =~= others);
        assert forall|i: int| 0 <= i < elements.len() implies (
        #[trigger] elements[i]).payload.len() <= 255 by {
            if i > 0 {
                assert(elements[i] == others[i - 1]);
            }
        }
        assert(bytes =~= first.encoded() + bytes.skip(2 + bytes[1]));
        assert(bytes =~= encoded_elements(elements) + tail);
        (elements, tail)
    }
}

/// An action frame carries Remote Id exactly when its category is the vendor specific one, and FA
/// 0B BC follow it.
pub proof fn action_carries_iff_of_remote_id(header: Seq<u8>, category: u8, payload: Seq<u8>)
    requires
        header.len() > 1,
        0xD0 <= header[0] <= 0xD3,
        header.len() == (if header[1] < 0x80 {
            24int
        } else {
            28
        }),
    ensures
        carries_remote_id(header + (seq![category] + payload)) <==> category == 127
            && payload.len() >= 3 && payload[0] == 0xFA && payload[1] == 0x0B && payload[2] == 0xBC,
{
    let frame = header + (seq![category] + payload);
    assert(frame[0] == header[0] && frame[1] == header[1]);
    assert(frame[header.len() as int] == category);
    assert(action_payload(frame) =~= payload);
}

/// A frame that is too short for its header, and for the fixed fields of a beacon or the category
/// of an action frame, carries no Remote Id.
pub proof fn short_frames_carry_no_remote_id(frame: Seq<u8>)
    requires
        ({
            ||| frame.len() < 25
            ||| frame.len() < 29 && frame[1] >= 0x80
            ||| frame.len() < 36 && frame[0] / 4 == 32
            ||| frame.len() < 40 && frame[1] >= 0x80 && frame[0] / 4 == 32
        }),
    ensures
        !carries_remote_id(frame),
{
}

} // verus!
