//! Smart glasses in Bluetooth advertising: which advertising data names one of their makers.
use trouble_host::prelude::{AdStructure, LeAdvReportsIter};
use vstd::prelude::*;

verus! {

/// The Bluetooth company identifiers of makers of smart glasses: Meta Platforms, Meta Platforms
/// Technologies and Luxottica.
pub const SMART_GLASSES_BLE_COMPANY_IDENTIFIERS: [u16; 3] = [0x01AB, 0x058E, 0x0D53];

/// Whether a company makes smart glasses.
pub open spec fn makes_smart_glasses(company: u16) -> bool {
    company == 0x01AB || company == 0x058E || company == 0x0D53
}

/// What matters of one structure of advertising data.
#[derive(Clone, Copy, PartialEq, Eq, Structural, Debug)]
pub enum AdField {
    /// Data that a company defines for itself.
    ManufacturerSpecificData { company_identifier: u16 },
    /// Any other structure.
    Other,
}

/// Advertising data that does not decode.
#[derive(Clone, Copy, PartialEq, Eq, Structural, Debug)]
pub struct MalformedAd;

/// A report that does not decode.
#[derive(Clone, Copy, PartialEq, Eq, Structural, Debug)]
pub struct MalformedReport;

/// Whether a structure of the given type can hold `len` bytes of data: a list of identifiers holds
/// whole ones, and service data begins with a 16-bit identifier.
pub open spec fn ad_data_fits(ad_type: u8, len: int) -> bool {
    match ad_type {
        0x03 => len % 2 == 0,
        0x07 => len % 16 == 0,
        0x16 => len >= 2,
        _ => true,
    }
}

/// Whether advertising data begins with a structure that decodes: a length of at least two, that
/// many bytes after it, the first of which is the type, and data that fit the type.
pub open spec fn begins_with_structure(data: Seq<u8>) -> bool {
    data.len() > 0 && 2 <= data[0] < data.len() && ad_data_fits(data[1], data[0] - 1)
}

/// The structure that advertising data begin with.
pub open spec fn first_structure(data: Seq<u8>) -> AdField {
    if data[1] == 0xFF && data[0] >= 3 {
        AdField::ManufacturerSpecificData {
            company_identifier: (data[2] + 256 * data[3]) as u16,
        }
    } else {
        AdField::Other
    }
}

/// The structures of advertising data, up to the first one that does not decode.
pub open spec fn leading_structures(data: Seq<u8>) -> Seq<AdField>
    decreases data.len(),
{
    if begins_with_structure(data) {
        seq![first_structure(data)] + leading_structures(data.skip(data[0] + 1))
    } else {
        Seq::empty()
    }
}

/// Whether every byte of advertising data belongs to a structure that decodes.
pub open spec fn all_structures_decode(data: Seq<u8>) -> bool
    decreases data.len(),
{
    data.len() == 0 || (begins_with_structure(data) && all_structures_decode(
        data.skip(data[0] + 1),
    ))
}

/// Whether a structure names a maker of smart glasses.
pub open spec fn names_smart_glasses(field: AdField) -> bool {
    match field {
        AdField::ManufacturerSpecificData { company_identifier } => makes_smart_glasses(
            company_identifier,
        ),
        AdField::Other => false,
    }
}

/// Whether one of the structures names a maker of smart glasses.
pub open spec fn smart_glasses_among(fields: Seq<AdField>) -> bool {
    exists|i: int| 0 <= i < fields.len() && names_smart_glasses(#[trigger] fields[i])
}

/// Whether a report shows smart glasses: one of its structures names a maker of them, and it and
/// all structures before it decode.
pub open spec fn report_shows_smart_glasses(data: Seq<u8>) -> bool {
    smart_glasses_among(leading_structures(data))
}

/// Whether one of the reports shows smart glasses, and it and all reports before it decode.
pub open spec fn reports_show_smart_glasses(reports: Seq<Option<Seq<u8>>>) -> bool {
    exists|i: int|
        0 <= i < reports.len() && (forall|j: int| 0 <= j <= i ==> #[trigger] reports[j] is Some)
            && report_shows_smart_glasses((#[trigger] reports[i])->0)
}

/// The structures before the first error.
pub open spec fn before_error(fields: Seq<Result<AdField, MalformedAd>>) -> Seq<AdField>
    decreases fields.len(),
{
    if fields.len() > 0 && fields[0] is Ok {
        seq![fields[0]->Ok_0] + before_error(fields.skip(1))
    } else {
        Seq::empty()
    }
}

/// `trouble_host`'s `AdStructure::decode`, run to its end: the structures up to the first one that
/// does not decode, then, unless all of the data decode, an error. Of what follows the first error
/// nothing is said.
#[verifier::external_body]
fn decode(data: &[u8]) -> (fields: Vec<Result<AdField, MalformedAd>>)
    ensures
        leading_structures(data@).len() <= fields@.len(),
        forall|i: int|
            0 <= i < leading_structures(data@).len() ==> #[trigger] fields@[i] is Ok
                && fields@[i]->Ok_0 == leading_structures(data@)[i],
        all_structures_decode(data@) ==> fields@.len() == leading_structures(data@).len(),
        !all_structures_decode(data@) ==> fields@.len() > leading_structures(data@).len()
            && fields@[leading_structures(data@).len() as int] is Err,
{
    let decoder = AdStructure::decode(data);
    decoder.map(|structure| match structure {
        Ok(AdStructure::ManufacturerSpecificData { company_identifier, payload: _ }) => Ok(
            AdField::ManufacturerSpecificData { company_identifier },
        ),
        Ok(_) => Ok(AdField::Other),
        Err(_) => Err(MalformedAd),
    }).collect()
}

#[verifier::external_type_specification]
#[verifier::external_body]
pub struct ExLeAdvReportsIter<'a>(LeAdvReportsIter<'a>);

#[verifier::external_type_specification]
#[verifier::external_body]
pub struct ExLeAdvReport<'a>(bt_hci::param::LeAdvReport<'a>);

#[verifier::external_type_specification]
#[verifier::external_body]
pub struct ExFromHciBytesError(bt_hci::FromHciBytesError);

/// The advertising data of the reports that an iterator has still to give, and `None` for a report
/// that does not decode.
pub uninterp spec fn reports_left(reports: LeAdvReportsIter<'_>) -> Seq<Option<Seq<u8>>>;

/// `next` of `trouble_host`'s `LeAdvReportsIter`: gives the first of the reports that are left, of
/// which its data are taken, and leaves the others. Where none is left it gives nothing.
#[verifier::external_body]
fn next_report<'a>(reports: &mut LeAdvReportsIter<'a>) -> (report: Option<
    Result<&'a [u8], MalformedReport>,
>)
    ensures
        report is None <==> reports_left(*old(reports)).len() == 0,
        report is Some ==> reports_left(*final(reports)) == reports_left(*old(reports)).skip(1),
        report matches Some(Ok(data)) ==> reports_left(*old(reports))[0] == Some(data@),
        report matches Some(Err(_)) ==> reports_left(*old(reports))[0] is None,
{
    reports.next().map(
        |report| report.map(|report| report.data).map_err(|_| MalformedReport),
    )
}

/// Whether the company is among the makers of smart glasses.
pub fn is_smart_glasses_company(company: u16) -> (found: bool)
    ensures
        found == makes_smart_glasses(company),
        found <==> company == 0x01AB || company == 0x058E || company == 0x0D53,
{
    let mut i: usize = 0;
    while i < SMART_GLASSES_BLE_COMPANY_IDENTIFIERS.len()
        invariant
            i <= 3,
            forall|j: int| 0 <= j < i ==> SMART_GLASSES_BLE_COMPANY_IDENTIFIERS[j] != company,
        decreases 3 - i,
    {
        if SMART_GLASSES_BLE_COMPANY_IDENTIFIERS[i] == company {
            return true;
        }
        i += 1;
    }
    assert(SMART_GLASSES_BLE_COMPANY_IDENTIFIERS[0] != company);
    assert(SMART_GLASSES_BLE_COMPANY_IDENTIFIERS[1] != company);
    assert(SMART_GLASSES_BLE_COMPANY_IDENTIFIERS[2] != company);
    false
}

/// Every structure before the first error is where it was.
proof fn lemma_before_error(fields: Seq<Result<AdField, MalformedAd>>, n: int)
    requires
        0 <= n <= fields.len(),
        forall|i: int| 0 <= i < n ==> #[trigger] fields[i] is Ok,
        n < fields.len() ==> fields[n] is Err,
    ensures
        before_error(fields).len() == n,
        forall|i: int| 0 <= i < n ==> #[trigger] before_error(fields)[i] == fields[i]->Ok_0,
    decreases n,
{
    if n > 0 {
        let rest = fields.skip(1);
        assert forall|i: int| 0 <= i < n - 1 implies #[trigger] rest[i] is Ok by {
            assert(rest[i] == fields[i + 1]);
        }
        lemma_before_error(rest, n - 1);
        assert forall|i: int| 0 <= i < n implies #[trigger] before_error(fields)[i]
            == fields[i]->Ok_0 by {
            if i > 0 {
                assert(before_error(fields)[i] == before_error(rest)[i - 1]);
                assert(rest[i - 1] == fields[i]);
            }
        }
    }
}

/// Whether one of the structures before the first error names a maker of smart glasses.
pub fn find_smart_glasses(fields: &Vec<Result<AdField, MalformedAd>>) -> (found: bool)
    ensures
        found == smart_glasses_among(before_error(fields@)),
        found <==> exists|i: int|
            0 <= i < fields@.len() && (forall|j: int| 0 <= j <= i ==> #[trigger] fields@[j] is Ok)
                && (#[trigger] fields@[i] matches Ok(
                AdField::ManufacturerSpecificData { company_identifier },
            ) && (company_identifier == 0x01AB || company_identifier == 0x058E
                || company_identifier == 0x0D53)),
{
    let mut found = false;
    let mut i: usize = 0;
    while i < fields.len() && fields[i].is_ok()
        invariant
            i <= fields@.len(),
            forall|j: int| 0 <= j < i ==> #[trigger] fields@[j] is Ok,
            found == exists|j: int|
                0 <= j < i && names_smart_glasses((#[trigger] fields@[j])->Ok_0),
        decreases fields@.len() - i,
    {
        if let Ok(AdField::ManufacturerSpecificData { company_identifier }) = fields[i] {
            if is_smart_glasses_company(company_identifier) {
                found = true;
                assert(names_smart_glasses(fields@[i as int]->Ok_0));
            }
        }
        i += 1;
    }
    proof {
        lemma_before_error(fields@, i as int);
        let leading = before_error(fields@);
        if found {
            let j = choose|j: int|
                0 <= j < i && names_smart_glasses((#[trigger] fields@[j])->Ok_0);
            assert(names_smart_glasses(leading[j]));
        } else if smart_glasses_among(leading) {
            let j = choose|j: int|
                0 <= j < leading.len() && names_smart_glasses(#[trigger] leading[j]);
            assert(names_smart_glasses(fields@[j]->Ok_0));
        }
    }
    found
}

/// Whether a report with the given advertising data shows smart glasses.
pub fn report_has_smart_glasses(data: &[u8]) -> (found: bool)
    ensures
        found == report_shows_smart_glasses(data@),
{
    let fields = decode(data);
    proof {
        lemma_before_error(fields@, leading_structures(data@).len() as int);
        assert(before_error(fields@) =~= leading_structures(data@));
    }
    find_smart_glasses(&fields)
}

/// Looks for smart glasses in the advertising reports of a scan.
pub struct SmartGlassesScanHandler {}

impl SmartGlassesScanHandler {
    /// Whether the reports show smart glasses.
    pub fn on_adv_reports(&self, reports: LeAdvReportsIter<'_>) -> (detected: bool)
        ensures
            detected == reports_show_smart_glasses(reports_left(reports)),
            detected <==> exists|i: int|
                0 <= i < reports_left(reports).len() && (forall|j: int|
                    0 <= j <= i ==> #[trigger] reports_left(reports)[j] is Some)
                    && report_shows_smart_glasses((#[trigger] reports_left(reports)[i])->0),
    {
        let ghost all = reports_left(reports);
        let ghost mut seen: int = 0;
        let mut reports = reports;
        let mut detected = false;
        loop
            invariant_except_break
                reports_left(reports) == all.skip(seen),
            invariant
                0 <= seen <= all.len(),
                forall|j: int| 0 <= j < seen ==> #[trigger] all[j] is Some,
                detected == exists|i: int|
                    0 <= i < seen && report_shows_smart_glasses((#[trigger] all[i])->0),
            ensures
                seen < all.len() ==> all[seen] is None,
            decreases reports_left(reports).len(),
        {
            match next_report(&mut reports) {
                Some(Ok(data)) => {
                    assert(all[seen] == Some(data@));
                    if report_has_smart_glasses(data) {
                        detected = true;
                        assert(report_shows_smart_glasses(all[seen]->0));
                    }
                    proof {
                        assert(all.skip(seen).skip(1) =~= all.skip(seen + 1));
                        seen = seen + 1;
                    }
                },
                _ => {
                    break;
                },
            }
        }
        proof {
            if reports_show_smart_glasses(all) {
                let i = choose|i: int|
                    0 <= i < all.len() && (forall|j: int|
                        0 <= j <= i ==> #[trigger] all[j] is Some) && report_shows_smart_glasses(
                        (#[trigger] all[i])->0,
                    );
                assert(i < seen) by {
                    if i >= seen {
                        assert(all[seen] is Some);
                    }
                }
            }
        }
        detected
    }
}

/// The structures of some data are also the first structures of longer data.
proof fn lemma_structures_stay(data: Seq<u8>, tail: Seq<u8>)
    ensures
        leading_structures(data).len() <= leading_structures(data + tail).len(),
        forall|i: int|
            0 <= i < leading_structures(data).len() ==> #[trigger] leading_structures(data)[i]
                == leading_structures(data + tail)[i],
    decreases data.len(),
{
    if begins_with_structure(data) {
        let rest = data.skip(data[0] + 1);
        lemma_structures_stay(rest, tail);
        assert((data + tail).skip(data[0] + 1) =~= rest + tail);
        assert(leading_structures(data) == seq![first_structure(data)] + leading_structures(rest));
        assert(leading_structures(data + tail) == seq![first_structure(data)] + leading_structures(
            rest + tail,
        ));
    }
}

/// After data that decode, the structures of the rest follow.
proof fn lemma_structures_follow(data: Seq<u8>, tail: Seq<u8>)
    requires
        all_structures_decode(data),
    ensures
        leading_structures(data + tail) == leading_structures(data) + leading_structures(tail),
    decreases data.len(),
{
    if data.len() == 0 {
        assert(data + tail =~= tail);
        assert(leading_structures(data) + leading_structures(tail) =~= leading_structures(tail));
    } else {
        let rest = data.skip(data[0] + 1);
        lemma_structures_follow(rest, tail);
        assert((data + tail).skip(data[0] + 1) =~= rest + tail);
        assert(leading_structures(data + tail) =~= leading_structures(data) + leading_structures(
            tail,
        ));
    }
}

/// Manufacturer specific data of a maker of smart glasses show smart glasses, whatever the maker
/// put into them, wherever they stand behind structures that decode, and whatever follows.
pub proof fn smart_glasses_are_detected(
    before: Seq<u8>,
    company: u16,
    payload: Seq<u8>,
    after: Seq<u8>,
)
    requires
        all_structures_decode(before),
        makes_smart_glasses(company),
        payload.len() <= 252,
    ensures
        report_shows_smart_glasses(
            before + (seq![
                (payload.len() + 3) as u8,
                0xFFu8,
                (company % 256) as u8,
                (company / 256) as u8,
            ] + payload + after),
        ),
{
    let structure = seq![
        (payload.len() + 3) as u8,
        0xFFu8,
        (company % 256) as u8,
        (company / 256) as u8,
    ] + payload + after;
    lemma_structures_follow(before, structure);
    assert(structure[0] == payload.len() + 3);
    assert(structure[1] == 0xFF);
    assert(structure[2] == company % 256);
    assert(structure[3] == company / 256);
    assert(structure.len() == payload.len() + 4 + after.len());
    assert(begins_with_structure(structure));
    assert(leading_structures(structure)[0] == first_structure(structure));
    let all = leading_structures(before + structure);
    assert(names_smart_glasses(all[leading_structures(before).len() as int]));
}

/// What follows in a report never hides smart glasses that it shows already.
pub proof fn later_data_hide_nothing(data: Seq<u8>, tail: Seq<u8>)
    requires
        report_shows_smart_glasses(data),
    ensures
        report_shows_smart_glasses(data + tail),
{
    lemma_structures_stay(data, tail);
    let i = choose|i: int|
        0 <= i < leading_structures(data).len() && names_smart_glasses(
            #[trigger] leading_structures(data)[i],
        );
    assert(names_smart_glasses(leading_structures(data + tail)[i]));
}

/// Later reports never hide smart glasses that earlier ones show.
pub proof fn later_reports_hide_nothing(
    reports: Seq<Option<Seq<u8>>>,
    more: Seq<Option<Seq<u8>>>,
)
    requires
        reports_show_smart_glasses(reports),
    ensures
        reports_show_smart_glasses(reports + more),
{
    let i = choose|i: int|
        0 <= i < reports.len() && (forall|j: int| 0 <= j <= i ==> #[trigger] reports[j] is Some)
            && report_shows_smart_glasses((#[trigger] reports[i])->0);
    let all = reports + more;
    assert forall|j: int| 0 <= j <= i implies #[trigger] all[j] is Some by {
        assert(all[j] == reports[j]);
    }
    assert(report_shows_smart_glasses(all[i]->0));
}

/// A structure of advertising data: its type and its data.
pub struct AdElement {
    pub ad_type: u8,
    pub data: Seq<u8>,
}

impl AdElement {
    /// Whether the structure can be sent: its length fits a byte, a list of identifiers holds whole
    /// ones, and service data begins with an identifier.
    pub open spec fn sendable(self) -> bool {
        &&& 1 <= self.data.len() <= 254
        &&& self.ad_type == 0x03 ==> self.data.len() % 2 == 0
        &&& self.ad_type == 0x07 ==> self.data.len() % 16 == 0
        &&& self.ad_type == 0x16 ==> self.data.len() >= 2
    }

    /// The structure as it is sent: the length of what follows, the type, and the data.
    pub open spec fn encoded(self) -> Seq<u8> {
        seq![(self.data.len() + 1) as u8, self.ad_type] + self.data
    }

    /// Whether the structure is manufacturer specific data of Meta Platforms, Meta Platforms
    /// Technologies or Luxottica: these begin with the identifier of the company, the lower byte
    /// first.
    pub open spec fn from_maker(self) -> bool {
        &&& self.ad_type == 0xFF
        &&& self.data.len() >= 2
        &&& {
            ||| self.data[0] == 0xAB && self.data[1] == 0x01
            ||| self.data[0] == 0x8E && self.data[1] == 0x05
            ||| self.data[0] == 0x53 && self.data[1] == 0x0D
        }
    }
}

/// Structures as they are sent, one after the other.
pub open spec fn encoded_elements(elements: Seq<AdElement>) -> Seq<u8>
    decreases elements.len(),
{
    if elements.len() == 0 {
        Seq::empty()
    } else {
        elements[0].encoded() + encoded_elements(elements.skip(1))
    }
}

/// Whether some data begin with no structure that can be sent: they end, or the length is too small
/// or reaches beyond the end, or the data do not fit the type.
pub open spec fn begins_broken(data: Seq<u8>) -> bool {
    ||| data.len() == 0
    ||| data[0] < 2
    ||| data[0] >= data.len()
    ||| data[1] == 0x03 && data[0] % 2 == 0
    ||| data[1] == 0x07 && data[0] % 16 != 1
    ||| data[1] == 0x16 && data[0] < 3
}

/// A report that begins with a structure shows smart glasses if the structure names a maker, or the
/// rest shows them.
proof fn lemma_report_step(data: Seq<u8>)
    requires
        begins_with_structure(data),
    ensures
        report_shows_smart_glasses(data) <==> names_smart_glasses(first_structure(data))
            || report_shows_smart_glasses(data.skip(data[0] + 1)),
{
    let rest = leading_structures(data.skip(data[0] + 1));
    let all = leading_structures(data);
    assert(all == seq![first_structure(data)] + rest);
    if names_smart_glasses(first_structure(data)) {
        assert(names_smart_glasses(all[0]));
    }
    if smart_glasses_among(rest) {
        let i = choose|i: int| 0 <= i < rest.len() && names_smart_glasses(#[trigger] rest[i]);
        assert(names_smart_glasses(all[i + 1]));
    }
    if smart_glasses_among(all) {
        let i = choose|i: int| 0 <= i < all.len() && names_smart_glasses(#[trigger] all[i]);
        if i > 0 {
            assert(names_smart_glasses(rest[i - 1]));
        }
    }
}

/// A report of structures, behind which come no more that could be sent, shows smart glasses
/// exactly when one of the structures is manufacturer specific data of one of their makers. It does
/// not matter which one, how many there are, of what type the others are, or what follows.
pub proof fn report_shows_iff_from_maker(elements: Seq<AdElement>, tail: Seq<u8>)
    requires
        forall|i: int| 0 <= i < elements.len() ==> (#[trigger] elements[i]).sendable(),
        begins_broken(tail),
    ensures
        report_shows_smart_glasses(encoded_elements(elements) + tail) <==> exists|i: int|
            0 <= i < elements.len() && (#[trigger] elements[i]).from_maker(),
    decreases elements.len(),
{
    if elements.len() == 0 {
        assert(encoded_elements(elements) + tail =~= tail);
        assert(leading_structures(tail).len() == 0);
    } else {
        let first = elements[0];
        let others = elements.skip(1);
        assert forall|i: int| 0 <= i < others.len() implies (#[trigger] others[i]).sendable() by {
            assert(others[i] == elements[i + 1]);
        }
        report_shows_iff_from_maker(others, tail);
        let rest = encoded_elements(others) + tail;
        let data = encoded_elements(elements) + tail;
        assert(data =~= first.encoded() + rest);
        assert(data[0] == first.data.len() + 1);
        assert(data[1] == first.ad_type);
        assert(data.skip(data[0] + 1) =~= rest);
        lemma_report_step(data);
        if first.data.len() >= 2 {
            assert(data[2] == first.data[0]);
            assert(data[3] == first.data[1]);
        }
        assert(names_smart_glasses(first_structure(data)) == first.from_maker());
        if first.from_maker() {
            assert(elements[0].from_maker());
        }
        if exists|i: int| 0 <= i < others.len() && (#[trigger] others[i]).from_maker() {
            let i = choose|i: int| 0 <= i < others.len() && (#[trigger] others[i]).from_maker();
            assert(elements[i + 1].from_maker());
        }
        if exists|i: int| 0 <= i < elements.len() && (#[trigger] elements[i]).from_maker() {
            let i = choose|i: int| 0 <= i < elements.len() && (#[trigger] elements[i]).from_maker();
            if i > 0 {
                assert(others[i - 1].from_maker());
            }
        }
    }
}

/// Every report consists of structures and of data behind which begin with no more that could be
/// sent.
pub proof fn report_splits(data: Seq<u8>) -> (parts: (Seq<AdElement>, Seq<u8>))
    ensures
        forall|i: int| 0 <= i < parts.0.len() ==> (#[trigger] parts.0[i]).sendable(),
        begins_broken(parts.1),
        data == encoded_elements(parts.0) + parts.1,
    decreases data.len(),
{
    if begins_broken(data) {
        let none = Seq::<AdElement>::empty();
        assert(data =~= encoded_elements(none) + data);
        (none, data)
    } else {
        let first = AdElement { ad_type: data[1], data: data.subrange(2, data[0] + 1) };
        let (others, tail) = report_splits(data.skip(data[0] + 1));
        let elements = seq![first] + others;
        assert(elements.skip(1) =~= others);
        assert(first.sendable());
        assert forall|i: int| 0 <= i < elements.len() implies (
        #[trigger] elements[i]).sendable() by {
            if i > 0 {
                assert(elements[i] == others[i - 1]);
            }
        }
        assert(data =~= first.encoded() + data.skip(data[0] + 1));
        assert(data =~= encoded_elements(elements) + tail);
        (elements, tail)
    }
}

/// Reports that decode, and of which none is left or the next one does not decode, show smart
/// glasses exactly when one of them does. It does not matter which one, and what comes after a
/// report that does not decode.
pub proof fn reports_show_iff_one_does(reports: Seq<Seq<u8>>, more: Seq<Option<Seq<u8>>>)
    requires
        more.len() == 0 || more[0] is None,
    ensures
        reports_show_smart_glasses(
            Seq::new(reports.len(), |i: int| Some(reports[i])) + more,
        ) <==> exists|i: int|
            0 <= i < reports.len() && report_shows_smart_glasses(#[trigger] reports[i]),
{
    let all = Seq::new(reports.len(), |i: int| Some(reports[i])) + more;
    if exists|i: int|
        0 <= i < reports.len() && report_shows_smart_glasses(#[trigger] reports[i]) {
        let i = choose|i: int|
            0 <= i < reports.len() && report_shows_smart_glasses(#[trigger] reports[i]);
        assert(all[i] == Some(reports[i]));
        assert forall|j: int| 0 <= j <= i implies #[trigger] all[j] is Some by {
            assert(all[j] == Some(reports[j]));
        }
        assert(report_shows_smart_glasses(all[i]->0));
    }
    if reports_show_smart_glasses(all) {
        let i = choose|i: int|
            0 <= i < all.len() && (forall|j: int| 0 <= j <= i ==> #[trigger] all[j] is Some)
                && report_shows_smart_glasses((#[trigger] all[i])->0);
        if i >= reports.len() {
            assert(all[reports.len() as int] == more[0]);
        }
        assert(all[i] == Some(reports[i]));
    }
}

/// Smart glasses are detected in a report behind any reports that decode, and before any other
/// reports: structures that can be sent, among them manufacturer specific data of a maker, and
/// anything behind them.
pub proof fn smart_glasses_are_detected_in_reports(
    earlier: Seq<Seq<u8>>,
    elements: Seq<AdElement>,
    maker: int,
    tail: Seq<u8>,
    later: Seq<Option<Seq<u8>>>,
)
    requires
        forall|i: int| 0 <= i < elements.len() ==> (#[trigger] elements[i]).sendable(),
        0 <= maker < elements.len(),
        elements[maker].from_maker(),
    ensures
        reports_show_smart_glasses(
            Seq::new(earlier.len(), |i: int| Some(earlier[i])) + (seq![
                Some(encoded_elements(elements) + tail),
            ] + later),
        ),
{
    let data = encoded_elements(elements);
    report_shows_iff_from_maker(elements, Seq::empty());
    assert(data + Seq::<u8>::empty() =~= data);
    later_data_hide_nothing(data, tail);
    let reports = earlier.push(data + tail);
    let none = Seq::<Option<Seq<u8>>>::empty();
    reports_show_iff_one_does(reports, none);
    assert(report_shows_smart_glasses(reports[earlier.len() as int]));
    let shown = Seq::new(reports.len(), |i: int| Some(reports[i])) + none;
    later_reports_hide_nothing(shown, later);
    assert(shown + later =~= Seq::new(earlier.len(), |i: int| Some(earlier[i])) + (seq![
        Some(data + tail),
    ] + later));
}

} // verus!
