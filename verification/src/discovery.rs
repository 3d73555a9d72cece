//! Which HID devices the application takes, and what it tells about the others.

use vstd::prelude::*;
use crate::steam_controller::{PRODUCT_ID_BLUETOOTH, PRODUCT_ID_CABLE, PRODUCT_ID_PUCK, VENDOR_ID};
use crate::text::{contains_text, hex4, join_sep, join_with, occurs_in, push_hex4, str_eq};

verus! {

/// The kinds of devices the application drives.
#[derive(Debug, Clone, Copy, PartialEq, Eq, Structural)]
pub enum DeviceKind {
    SteamController,
}

/// The vendor ids of all supported devices.
pub open spec fn supported_vendor_ids() -> Seq<u16> {
    seq![VENDOR_ID]
}

/// The product ids of all supported devices.
pub open spec fn supported_product_ids() -> Seq<u16> {
    seq![PRODUCT_ID_CABLE, PRODUCT_ID_BLUETOOTH, PRODUCT_ID_PUCK]
}

/// Whether a device with these ids is supported.
pub open spec fn is_supported(vendor_id: u16, product_id: u16) -> bool {
    supported_vendor_ids().contains(vendor_id) && supported_product_ids().contains(product_id)
}

/// The vendor ids of all supported devices.
pub fn vendor_ids() -> (r: Vec<u16>)
    ensures
        r@ == supported_vendor_ids(),
{
    let r = vec![VENDOR_ID];
    assert(r@ =~= supported_vendor_ids());
    r
}

/// The product ids of all supported devices.
pub fn product_ids() -> (r: Vec<u16>)
    ensures
        r@ == supported_product_ids(),
{
    let r = vec![PRODUCT_ID_CABLE, PRODUCT_ID_BLUETOOTH, PRODUCT_ID_PUCK];
    assert(r@ =~= supported_product_ids());
    r
}

/// Whether `ids` holds `id`.
pub fn contains_id(ids: &[u16], id: u16) -> (r: bool)
    ensures
        r == ids@.contains(id),
{
    let mut i: usize = 0;
    while i < ids.len()
        invariant
            i <= ids@.len(),
            forall|k: int| 0 <= k < i ==> ids@[k] != id,
        decreases ids@.len() - i,
    {
        if ids[i] == id {
            return true;
        }
        i = i + 1;
    }
    false
}

/// The kind of device that drives the device with these ids, if any is registered.
pub fn device_kind(vendor_id: u16, product_id: u16) -> (r: Option<DeviceKind>)
    ensures
        r is Some <==> is_supported(vendor_id, product_id),
        r is Some ==> r == Some(DeviceKind::SteamController),
{
    let vendors = vendor_ids();
    let products = product_ids();
    if contains_id(vendors.as_slice(), vendor_id) && contains_id(products.as_slice(), product_id) {
        Some(DeviceKind::SteamController)
    } else {
        None
    }
}

/// The number of supported devices among `(vendor id, product id)` pairs.
pub open spec fn count_supported(devices: Seq<(u16, u16)>) -> nat
    decreases devices.len(),
{
    if devices.len() == 0 {
        0
    } else {
        count_supported(devices.drop_last()) + if is_supported(devices.last().0, devices.last().1) {
            1nat
        } else {
            0nat
        }
    }
}

proof fn lemma_count_supported_bound(devices: Seq<(u16, u16)>)
    ensures
        count_supported(devices) <= devices.len(),
    decreases devices.len(),
{
    if devices.len() > 0 {
        lemma_count_supported_bound(devices.drop_last());
    }
}

/// Counts the interfaces that belong to supported devices, given the
/// `(vendor id, product id)` pairs of all HID interfaces.
pub fn count_compatible_devices_in(devices: &Vec<(u16, u16)>) -> (r: u32)
    requires
        devices@.len() <= u32::MAX,
    ensures
        r == count_supported(devices@),
{
    let vendors = vendor_ids();
    let products = product_ids();
    let mut count: u32 = 0;
    let mut i: usize = 0;
    while i < devices.len()
        invariant
            i <= devices@.len(),
            devices@.len() <= u32::MAX,
            vendors@ == supported_vendor_ids(),
            products@ == supported_product_ids(),
            count == count_supported(devices@.take(i as int)),
        decreases devices@.len() - i,
    {
        assert(devices@.take(i + 1).drop_last() =~= devices@.take(i as int));
        proof {
            lemma_count_supported_bound(devices@.take(i as int));
        }
        let (vendor, product) = devices[i];
        if contains_id(products.as_slice(), product) && contains_id(vendors.as_slice(), vendor) {
            count = count + 1;
        }
        i = i + 1;
    }
    assert(devices@.take(devices@.len() as int) =~= devices@);
    count
}

/// The interfaces among the first `n` that stand for a controller: a controller shows up as
/// three interfaces in a row, so every third interface is taken, if it is supported.
pub open spec fn interfaces_below(devices: Seq<(u16, u16)>, n: int) -> Seq<usize>
    decreases n,
{
    if n <= 0 {
        Seq::empty()
    } else {
        let i = n - 1;
        let rest = interfaces_below(devices, i);
        if i % 3 == 0 && is_supported(devices[i].0, devices[i].1) {
            rest.push(i as usize)
        } else {
            rest
        }
    }
}

/// The positions of the interfaces that stand for a controller, in order; the controller at
/// position `k` of the result gets the controller id `k`. `None` when there is none.
pub fn controller_interfaces(devices: &Vec<(u16, u16)>) -> (r: Option<Vec<usize>>)
    ensures
        match r {
            Some(v) => v@ == interfaces_below(devices@, devices@.len() as int) && v@.len() > 0,
            None => interfaces_below(devices@, devices@.len() as int).len() == 0,
        },
{
    let mut chosen: Vec<usize> = Vec::new();
    let mut i: usize = 0;
    while i < devices.len()
        invariant
            i <= devices@.len(),
            chosen@ == interfaces_below(devices@, i as int),
        decreases devices@.len() - i,
    {
        let (vendor, product) = devices[i];
        if i % 3 == 0 {
            if device_kind(vendor, product).is_some() {
                chosen.push(i);
            }
        }
        i = i + 1;
    }
    if chosen.len() == 0 {
        None
    } else {
        Some(chosen)
    }
}

/// What the discovery does with a HID interface.
#[derive(Debug, Clone, Copy, PartialEq, Eq, Structural)]
pub enum DeviceClass {
    /// Its ids are searched for: it is opened.
    Candidate,
    /// A Steam Controller that is not supported (yet): it is reported.
    UnsupportedSteamController,
    /// Anything else: it is ignored.
    Other,
}

/// The class of an interface with these ids and product name.
pub open spec fn spec_classify(
    product_ids: Seq<u16>,
    vendor_ids: Seq<u16>,
    vendor_id: u16,
    product_id: u16,
    name: Option<Seq<char>>,
) -> DeviceClass {
    if product_ids.contains(product_id) && vendor_ids.contains(vendor_id) {
        DeviceClass::Candidate
    } else {
        match name {
            Some(n) => if occurs_in("Steam Controller"@, n) {
                DeviceClass::UnsupportedSteamController
            } else {
                DeviceClass::Other
            },
            None => DeviceClass::Other,
        }
    }
}

/// Classifies a HID interface against the searched ids.
pub fn classify_device(
    product_ids: &[u16],
    vendor_ids: &[u16],
    vendor_id: u16,
    product_id: u16,
    name: Option<&str>,
) -> (r: DeviceClass)
    ensures
        r == spec_classify(
            product_ids@,
            vendor_ids@,
            vendor_id,
            product_id,
            match name {
                Some(n) => Some(n@),
                None => None,
            },
        ),
{
    if contains_id(product_ids, product_id) && contains_id(vendor_ids, vendor_id) {
        DeviceClass::Candidate
    } else {
        match name {
            Some(n) => {
                if contains_text(n, "Steam Controller") {
                    DeviceClass::UnsupportedSteamController
                } else {
                    DeviceClass::Other
                }
            },
            None => DeviceClass::Other,
        }
    }
}

/// Why the discovery took no device.
#[derive(Debug)]
pub enum DiscoveryFailure<E> {
    /// Opening a candidate failed; the error is that of the last candidate that failed.
    OpenFailed(E),
    /// No candidate was found.
    NoDeviceFound,
}

/// Why no device was taken, given the error of the last candidate that could not be opened:
/// that error when there is one, otherwise that no device was found.
pub fn discovery_failure<E>(last_open_error: Option<E>) -> (r: DiscoveryFailure<E>)
    ensures
        match last_open_error {
            Some(e) => r == DiscoveryFailure::OpenFailed(e),
            None => r == DiscoveryFailure::<E>::NoDeviceFound,
        },
{
    match last_open_error {
        Some(e) => DiscoveryFailure::OpenFailed(e),
        None => DiscoveryFailure::NoDeviceFound,
    }
}

/// The line that names an unsupported Steam Controller.
pub open spec fn unsupported_entry(vendor_id: u16, product_id: u16, name: Option<Seq<char>>) -> Seq<char> {
    "    vendorID: 0x"@ + hex4(vendor_id) + " productID: 0x"@ + hex4(product_id) + " name: "@ + match name {
        Some(n) => n,
        None => "Unknown"@,
    }
}

/// The view of an entry's optional name.
pub open spec fn name_view(name: Option<String>) -> Option<Seq<char>> {
    match name {
        Some(n) => Some(n@),
        None => None,
    }
}

/// An entry as plain values: vendor id, product id and the name's text.
pub open spec fn entry_view(e: (u16, u16, Option<String>)) -> (u16, u16, Option<Seq<char>>) {
    (e.0, e.1, name_view(e.2))
}

/// The entries as plain values.
pub open spec fn entry_views(s: Seq<(u16, u16, Option<String>)>) -> Seq<(u16, u16, Option<Seq<char>>)> {
    s.map_values(|e: (u16, u16, Option<String>)| entry_view(e))
}

/// The entries in order of their first occurrence, each once.
pub open spec fn distinct_views(s: Seq<(u16, u16, Option<Seq<char>>)>) -> Seq<(u16, u16, Option<Seq<char>>)>
    decreases s.len(),
{
    if s.len() == 0 {
        Seq::empty()
    } else {
        let rest = distinct_views(s.drop_last());
        if rest.contains(s.last()) {
            rest
        } else {
            rest.push(s.last())
        }
    }
}

proof fn lemma_distinct_views(s: Seq<(u16, u16, Option<Seq<char>>)>)
    ensures
        forall|x| #[trigger] distinct_views(s).contains(x) <==> s.contains(x),
        forall|i: int, j: int|
            0 <= i < j < distinct_views(s).len() ==> distinct_views(s)[i] != distinct_views(s)[j],
    decreases s.len(),
{
    if s.len() > 0 {
        let init = s.drop_last();
        lemma_distinct_views(init);
        assert forall|x| #[trigger] distinct_views(s).contains(x) implies s.contains(x) by {
            {
                if !distinct_views(init).contains(x) {
                    assert(x == s.last());
                    assert(s[s.len() - 1] == x);
                } else {
                    let k = choose|k: int| 0 <= k < init.len() && init[k] == x;
                    assert(s[k] == x);
                }
            }
        }
        assert forall|x| s.contains(x) implies #[trigger] distinct_views(s).contains(x) by {
            {
                let k = choose|k: int| 0 <= k < s.len() && s[k] == x;
                if k < init.len() {
                    assert(init[k] == x);
                    assert(init.contains(x));
                    let d = distinct_views(init);
                    assert(d.contains(x));
                    let m = choose|m: int| 0 <= m < d.len() && d[m] == x;
                    if !d.contains(s.last()) {
                        assert(distinct_views(s) == d.push(s.last()));
                        assert(distinct_views(s)[m] == x);
                    } else {
                        assert(distinct_views(s) == d);
                    }
                } else {
                    let d = distinct_views(init);
                    assert(x == s.last());
                    if !d.contains(s.last()) {
                        assert(distinct_views(s) == d.push(s.last()));
                        assert(distinct_views(s)[distinct_views(s).len() - 1] == x);
                    } else {
                        assert(distinct_views(s) == d);
                    }
                }
            }
        }
    }
}

/// Whether two entries name the same device the same way.
fn same_entry(a: &(u16, u16, Option<String>), b: &(u16, u16, Option<String>)) -> (r: bool)
    ensures
        r == (entry_view(*a) == entry_view(*b)),
{
    if a.0 != b.0 || a.1 != b.1 {
        return false;
    }
    match &a.2 {
        Some(x) => match &b.2 {
            Some(y) => str_eq(x.as_str(), y.as_str()),
            None => false,
        },
        None => b.2.is_none(),
    }
}

/// The entries without repetitions, in the order in which they first occur: a device that
/// shows up as several interfaces is reported once.
pub fn distinct_entries(entries: &Vec<(u16, u16, Option<String>)>) -> (r: Vec<(u16, u16, Option<String>)>)
    ensures
        entry_views(r@) == distinct_views(
            entry_views(entries@),
        ),
        forall|x| #[trigger] entry_views(r@).contains(x)
            <==> entry_views(entries@).contains(x),
        forall|i: int, j: int| 0 <= i < j < r@.len() ==> entry_view(r@[i]) != entry_view(r@[j]),
{
    let ghost views = entry_views(entries@);
    let mut out: Vec<(u16, u16, Option<String>)> = Vec::new();
    let mut i: usize = 0;
    while i < entries.len()
        invariant
            i <= entries@.len(),
            views == entry_views(entries@),
            entry_views(out@) == distinct_views(
                views.take(i as int),
            ),
        decreases entries@.len() - i,
    {
        let ghost done = entry_views(out@);
        assert(views.take(i + 1).drop_last() =~= views.take(i as int));
        assert(views.take(i + 1).last() == entry_view(entries@[i as int]));
        let entry = &entries[i];
        let mut seen = false;
        let mut j: usize = 0;
        while j < out.len()
            invariant
                j <= out@.len(),
                done == entry_views(out@),
                seen == (exists|k: int| 0 <= k < j && done[k] == entry_view(*entry)),
            decreases out@.len() - j,
        {
            assert(done[j as int] == entry_view(out@[j as int]));
            if same_entry(&out[j], entry) {
                seen = true;
            }
            j = j + 1;
        }
        if !seen {
            let copy = (entry.0, entry.1, match &entry.2 {
                Some(n) => Some(n.clone()),
                None => None,
            });
            assert(entry_view(copy) == entry_view(*entry));
            out.push(copy);
            assert(entry_views(out@) =~= done.push(entry_view(*entry)));
        }
        i = i + 1;
    }
    assert(views.take(entries@.len() as int) =~= views);
    proof {
        lemma_distinct_views(views);
        let rv = entry_views(out@);
        assert forall|a: int, b: int| 0 <= a < b < out@.len() implies entry_view(out@[a]) != entry_view(out@[b]) by {
            assert(rv[a] == entry_view(out@[a]));
            assert(rv[b] == entry_view(out@[b]));
        }
    }
    out
}

/// The message about Steam Controllers that were found but are not supported.
pub open spec fn unsupported_message(entries: Seq<(u16, u16, Option<String>)>) -> Seq<char> {
    let plural = entries.len() > 1;
    "Found the following Steam Controllers "@ + (if plural { "s"@ } else { Seq::empty() }) + ": [\n"@
        + join_sep(
        entries.map_values(|e: (u16, u16, Option<String>)| unsupported_entry(e.0, e.1, name_view(e.2))),
        ",\n"@,
    ) + "\n]\nHowever, either "@ + (if plural { "they are"@ } else { "it is"@ })
        + " not supported or the product ID is not yet known."@
}

/// Builds the line that names an unsupported Steam Controller.
pub fn unsupported_entry_text(vendor_id: u16, product_id: u16, name: &Option<String>) -> (r: String)
    ensures
        r@ == unsupported_entry(vendor_id, product_id, name_view(*name)),
{
    let mut s = String::from_str("    vendorID: 0x");
    push_hex4(&mut s, vendor_id);
    s.append(" productID: 0x");
    push_hex4(&mut s, product_id);
    s.append(" name: ");
    match name {
        Some(n) => s.append(n.as_str()),
        None => s.append("Unknown"),
    }
    s
}

/// Builds the message about Steam Controllers that were found but are not supported.
pub fn unsupported_devices_message(entries: &Vec<(u16, u16, Option<String>)>) -> (r: String)
    ensures
        r@ == unsupported_message(entries@),
{
    let mut names: Vec<String> = Vec::new();
    let mut i: usize = 0;
    while i < entries.len()
        invariant
            i <= entries@.len(),
            names@.map_values(|l: String| l@) == entries@.take(i as int).map_values(
                |e: (u16, u16, Option<String>)| unsupported_entry(e.0, e.1, name_view(e.2)),
            ),
        decreases entries@.len() - i,
    {
        let ghost before = names@;
        let entry = &entries[i];
        let line = unsupported_entry_text(entry.0, entry.1, &entry.2);
        let ghost e = entries@[i as int];
        let ghost lv = line@;
        assert(lv == unsupported_entry(e.0, e.1, name_view(e.2)));
        names.push(line);
        assert(names@.map_values(|l: String| l@) =~= before.map_values(|l: String| l@).push(lv));
        assert(entries@.take(i + 1) =~= entries@.take(i as int).push(e));
        assert(names@.map_values(|l: String| l@) =~= entries@.take(i + 1).map_values(
            |e: (u16, u16, Option<String>)| unsupported_entry(e.0, e.1, name_view(e.2)),
        ));
        i = i + 1;
    }
    assert(entries@.take(entries@.len() as int) =~= entries@);
    let plural = entries.len() > 1;
    let mut s = String::from_str("Found the following Steam Controllers ");
    if plural {
        s.append("s");
    }
    s.append(": [\n");
    let joined = join_with(&names, ",\n");
    s.append(joined.as_str());
    s.append("\n]\nHowever, either ");
    if plural {
        s.append("they are");
    } else {
        s.append("it is");
    }
    s.append(" not supported or the product ID is not yet known.");
    s
}

/// Whether a failed HID write is retried as a feature report: the Windows HID stack answers
/// "Incorrect function" (error 0x1) when a device takes commands as feature reports only.
pub fn should_retry_as_feature_report(message: &str) -> (r: bool)
    ensures
        r == (occurs_in("Incorrect function"@, message@) || occurs_in("(0x00000001)"@, message@)),
{
    contains_text(message, "Incorrect function") || contains_text(message, "(0x00000001)")
}

} // verus!
