use bt_hci::param::LeAdvReports;
use bt_hci::FromHciBytes;
use watch_core::advertising::{
    find_smart_glasses, is_smart_glasses_company, report_has_smart_glasses, AdField, MalformedAd,
    SmartGlassesScanHandler,
};
use watch_core::remote_id::{find_remote_id, is_remote_id_frame};

const META: [u8; 5] = [4, 0xFF, 0xAB, 0x01, 9];
const META_TECHNOLOGIES: [u8; 4] = [3, 0xFF, 0x8E, 0x05];
const LUXOTTICA: [u8; 6] = [5, 0xFF, 0x53, 0x0D, 1, 2];
const APPLE: [u8; 5] = [4, 0xFF, 0x4C, 0x00, 9];
const FLAGS: [u8; 3] = [2, 0x01, 0x06];

#[test]
fn companies_that_make_smart_glasses() {
    assert!(is_smart_glasses_company(0x01AB));
    assert!(is_smart_glasses_company(0x058E));
    assert!(is_smart_glasses_company(0x0D53));
    assert!(!is_smart_glasses_company(0x004C));
    assert!(!is_smart_glasses_company(0xAB01));
}

#[test]
fn structures_before_an_error_count() {
    let meta = Ok(AdField::ManufacturerSpecificData { company_identifier: 0x01AB });
    let other = Ok(AdField::Other);
    assert!(find_smart_glasses(&vec![other, meta]));
    assert!(find_smart_glasses(&vec![meta, Err(MalformedAd)]));
    assert!(!find_smart_glasses(&vec![other, Err(MalformedAd), meta]));
    assert!(!find_smart_glasses(&vec![]));
}

#[test]
fn reports_with_smart_glasses() {
    assert!(report_has_smart_glasses(&META));
    assert!(report_has_smart_glasses(&META_TECHNOLOGIES));
    assert!(report_has_smart_glasses(&LUXOTTICA));
    assert!(report_has_smart_glasses(&[&FLAGS[..], &APPLE[..], &LUXOTTICA[..]].concat()));
}

#[test]
fn reports_without_smart_glasses() {
    assert!(!report_has_smart_glasses(&[]));
    assert!(!report_has_smart_glasses(&FLAGS));
    assert!(!report_has_smart_glasses(&APPLE));
    // Too short for a company, so not manufacturer specific data.
    assert!(!report_has_smart_glasses(&[2, 0xFF, 0xAB]));
    // The identifier in a structure of another type.
    assert!(!report_has_smart_glasses(&[4, 0x09, 0xAB, 0x01, 9]));
    // Cut off.
    assert!(!report_has_smart_glasses(&META[..4]));
}

#[test]
fn structures_that_do_not_decode_hide_what_follows() {
    // A length below two.
    assert!(!report_has_smart_glasses(&[&[0][..], &META[..]].concat()));
    assert!(!report_has_smart_glasses(&[&[1, 0x01][..], &META[..]].concat()));
    // Half a 16-bit identifier, half a 128-bit identifier, service data without identifier.
    assert!(!report_has_smart_glasses(&[&[2, 0x03, 1][..], &META[..]].concat()));
    assert!(!report_has_smart_glasses(&[&[3, 0x07, 1, 2][..], &META[..]].concat()));
    assert!(!report_has_smart_glasses(&[&[2, 0x16, 1][..], &META[..]].concat()));
    // Nothing that came before is hidden.
    assert!(report_has_smart_glasses(&[&META[..], &[0][..]].concat()));
    assert!(report_has_smart_glasses(&[&META[..], &[200, 1][..]].concat()));
}

#[test]
fn structures_that_decode_hide_nothing() {
    assert!(report_has_smart_glasses(&[&[3, 0x03, 1, 2][..], &META[..]].concat()));
    let mut uuid128 = vec![17, 0x07];
    uuid128.extend([0; 16]);
    assert!(report_has_smart_glasses(&[&uuid128[..], &META[..]].concat()));
    assert!(report_has_smart_glasses(&[&[3, 0x16, 1, 2][..], &META[..]].concat()));
    assert!(report_has_smart_glasses(&[&[2, 0x02, 1][..], &META[..]].concat()));
    assert!(report_has_smart_glasses(&[&[2, 0xFF, 0xAB][..], &META[..]].concat()));
}

fn report(data: &[u8]) -> Vec<u8> {
    let mut bytes = vec![0, 0, 1, 2, 3, 4, 5, 6, data.len() as u8];
    bytes.extend(data);
    bytes.push(0xC0);
    bytes
}

fn reports_detect(count: u8, reports: &[u8]) -> bool {
    let bytes = [&[count][..], reports].concat();
    let (reports, _) = LeAdvReports::from_hci_bytes(&bytes).unwrap();
    let handler = SmartGlassesScanHandler {};
    handler.on_adv_reports(reports.iter())
}

#[test]
fn handler_looks_at_every_report() {
    assert!(!reports_detect(0, &[]));
    assert!(reports_detect(1, &report(&META)));
    assert!(!reports_detect(1, &report(&APPLE)));
    assert!(reports_detect(2, &[report(&APPLE), report(&LUXOTTICA)].concat()));
    assert!(reports_detect(2, &[report(&[0]), report(&LUXOTTICA)].concat()));
    // A report beyond the count is not there.
    assert!(!reports_detect(1, &[report(&APPLE), report(&LUXOTTICA)].concat()));
}

#[test]
fn handler_stops_at_a_report_that_does_not_decode() {
    let mut broken = report(&APPLE);
    // There is no such kind of event.
    broken[0] = 9;
    assert!(!reports_detect(2, &[broken.clone(), report(&META)].concat()));
    assert!(reports_detect(2, &[report(&META), broken].concat()));
    // Cut off.
    assert!(!reports_detect(1, &report(&META)[..12]));
}

fn management_frame(first: u8, flags: u8, body: &[u8]) -> Vec<u8> {
    let mut frame = vec![first, flags];
    frame.extend([0; 22]);
    if flags & 0x80 != 0 {
        frame.extend([0; 4]);
    }
    frame.extend(body);
    frame
}

fn beacon(elements: &[u8]) -> Vec<u8> {
    management_frame(0x80, 0, &[&[0; 12][..], elements].concat())
}

const SSID: [u8; 5] = [0, 3, b'f', b'o', b'o'];
const REMOTE_ID: [u8; 7] = [221, 5, 0xFA, 0x0B, 0xBC, 0x0D, 1];

#[test]
fn payloads_with_remote_id() {
    assert!(find_remote_id(&vec![&[0xFA, 0x0B, 0xBC][..]]));
    assert!(find_remote_id(&vec![&[1, 2, 3, 4][..], &[0xFA, 0x0B, 0xBC, 7][..]]));
    assert!(!find_remote_id(&vec![&[0xFA, 0x0B][..], &[][..]]));
    assert!(!find_remote_id(&vec![&[0, 0xFA, 0x0B, 0xBC][..]]));
    assert!(!find_remote_id(&vec![]));
}

#[test]
fn beacons_with_remote_id() {
    assert!(is_remote_id_frame(&beacon(&REMOTE_ID)));
    assert!(is_remote_id_frame(&beacon(&[&SSID[..], &REMOTE_ID[..]].concat())));
    assert!(is_remote_id_frame(&beacon(&[&[221, 0][..], &REMOTE_ID[..], &[7][..]].concat())));
    // Exactly the identifier.
    assert!(is_remote_id_frame(&beacon(&[221, 3, 0xFA, 0x0B, 0xBC])));
    // With the field for high throughput control.
    let body = [&[0; 12][..], &REMOTE_ID[..]].concat();
    assert!(is_remote_id_frame(&management_frame(0x80, 0x80, &body)));
    // Other bits of the frame control do not matter.
    assert!(is_remote_id_frame(&management_frame(0x83, 0x7F, &body)));
}

#[test]
fn beacons_without_remote_id() {
    assert!(!is_remote_id_frame(&beacon(&[])));
    assert!(!is_remote_id_frame(&beacon(&SSID)));
    assert!(!is_remote_id_frame(&beacon(&[221, 4, 0x50, 0x6F, 0x9A, 1])));
    // Not in a vendor specific element.
    assert!(!is_remote_id_frame(&beacon(&[220, 3, 0xFA, 0x0B, 0xBC])));
    // Too short for the identifier.
    assert!(!is_remote_id_frame(&beacon(&[221, 2, 0xFA, 0x0B, 0xBC])));
    // Cut off, and behind an element that is cut off.
    assert!(!is_remote_id_frame(&beacon(&REMOTE_ID[..6])));
    assert!(!is_remote_id_frame(&beacon(&[&[0, 40][..], &REMOTE_ID[..]].concat())));
    // The flag claims four more bytes of header.
    let body = [&[0; 12][..], &REMOTE_ID[..]].concat();
    let mut frame = management_frame(0x80, 0, &body);
    frame[1] = 0x80;
    assert!(!is_remote_id_frame(&frame));
}

#[test]
fn action_frames_with_remote_id() {
    assert!(is_remote_id_frame(&management_frame(0xD0, 0, &[127, 0xFA, 0x0B, 0xBC, 1])));
    assert!(is_remote_id_frame(&management_frame(0xD0, 0, &[127, 0xFA, 0x0B, 0xBC])));
    assert!(is_remote_id_frame(&management_frame(0xD0, 0x80, &[127, 0xFA, 0x0B, 0xBC])));
}

#[test]
fn action_frames_without_remote_id() {
    assert!(!is_remote_id_frame(&management_frame(0xD0, 0, &[])));
    assert!(!is_remote_id_frame(&management_frame(0xD0, 0, &[127])));
    assert!(!is_remote_id_frame(&management_frame(0xD0, 0, &[127, 0xFA, 0x0B])));
    assert!(!is_remote_id_frame(&management_frame(0xD0, 0, &[127, 0x50, 0x6F, 0x9A, 1])));
    assert!(!is_remote_id_frame(&management_frame(0xD0, 0, &[4, 0xFA, 0x0B, 0xBC, 1])));
}

#[test]
fn other_frames_do_not_count() {
    let body = [&[0; 12][..], &REMOTE_ID[..]].concat();
    // A probe response has the same body as a beacon.
    assert!(!is_remote_id_frame(&management_frame(0x50, 0, &body)));
    // An action frame that is not acknowledged.
    assert!(!is_remote_id_frame(&management_frame(0xE0, 0, &[127, 0xFA, 0x0B, 0xBC])));
    // Data.
    assert!(!is_remote_id_frame(&management_frame(0x08, 0, &body)));
    assert!(!is_remote_id_frame(&[]));
    assert!(!is_remote_id_frame(&[0x80; 9]));
    assert!(!is_remote_id_frame(&[0x80, 0, 0, 0, 0, 0, 0, 0, 0, 0]));
}
