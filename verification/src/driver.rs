//! Bluetooth USB dongles and their WinUSB driver packages: package names,
//! hardware ids, reading the device list that PowerShell/WMI reports, and the
//! outcome of the install and restore scripts.

use vstd::prelude::*;
use crate::text::{
    is_hex_digit, occurs_at, ascii_upper, is_ascii_text, ascii_lower, ascii_lower_chars, chars_equal, contains, contains_chars, find_chars, first_occurrence, hex4, hex4_chars, hex_prefix_len,
    hex_prefix_len_from, push_chars, push_str, slice_chars, starts_with, starts_with_chars,
    trim, trim_chars, str_chars, string_from_chars,
};

verus! {

/// A USB device that looks like a Bluetooth dongle.
#[derive(Debug, Clone, PartialEq, Eq)]
pub struct BtUsbDevice {
    /// USB vendor id, lower-case hexadecimal (e.g. "0a12").
    pub vid: String,
    /// USB product id, lower-case hexadecimal (e.g. "0001").
    pub pid: String,
    /// Device description.
    pub description: String,
    /// Driver service in use (e.g. "WinUSB", "BthUsb").
    pub driver: String,
    /// Index among the devices with the same vendor and product id, from 0.
    pub instance: u32,
}

/// The abstract content of a `BtUsbDevice`.
pub struct DeviceRecord {
    pub vid: Seq<char>,
    pub pid: Seq<char>,
    pub description: Seq<char>,
    pub driver: Seq<char>,
    pub instance: nat,
}

impl View for BtUsbDevice {
    type V = DeviceRecord;

    open spec fn view(&self) -> DeviceRecord {
        DeviceRecord {
            vid: self.vid@,
            pid: self.pid@,
            description: self.description@,
            driver: self.driver@,
            instance: self.instance as nat,
        }
    }
}

/// One `Win32_PnPEntity` row as reported by WMI.
#[derive(Debug, Clone, PartialEq, Eq)]
pub struct PnpEntry {
    pub device_id: Option<String>,
    pub description: Option<String>,
    pub service: Option<String>,
    pub pnp_class: Option<String>,
}

/// The abstract content of a `PnpEntry`.
pub struct PnpRecord {
    pub device_id: Option<Seq<char>>,
    pub description: Option<Seq<char>>,
    pub service: Option<Seq<char>>,
}

/// The text of an optional string.
pub open spec fn opt_view(o: Option<String>) -> Option<Seq<char>> {
    match o {
        Some(s) => Some(s@),
        None => None,
    }
}

impl View for PnpEntry {
    type V = PnpRecord;

    open spec fn view(&self) -> PnpRecord {
        PnpRecord {
            device_id: opt_view(self.device_id),
            description: opt_view(self.description),
            service: opt_view(self.service),
        }
    }
}

// ---------------------------------------------------------------------------
// Package names
// ---------------------------------------------------------------------------

/// `btstack_<vid>_<pid><ext>` with lower-case four-digit ids.
pub open spec fn package_file_name(vid: u16, pid: u16, ext: Seq<char>) -> Seq<char> {
    "btstack_"@ + hex4(vid, false) + "_"@ + hex4(pid, false) + ext
}

/// The directory under which the driver packages are written.
pub open spec fn driver_base_dir() -> Seq<char> {
    "C:\\Windows\\Temp\\btstack_drivers"@
}

fn package_file(vid: u16, pid: u16, ext: &str) -> (res: String)
    ensures
        res@ == package_file_name(vid, pid, ext@),
{
    let mut cs: Vec<char> = Vec::new();
    push_str(&mut cs, "btstack_");
    push_chars(&mut cs, &hex4_chars(vid, false));
    push_str(&mut cs, "_");
    push_chars(&mut cs, &hex4_chars(pid, false));
    push_str(&mut cs, ext);
    string_from_chars(cs.as_slice())
}

/// The INF file name of the package for `vid:pid`.
pub fn inf_name(vid: u16, pid: u16) -> (res: String)
    ensures
        res@ == package_file_name(vid, pid, ".inf"@),
{
    package_file(vid, pid, ".inf")
}

/// The catalog file name of the package for `vid:pid`.
pub fn cat_name(vid: u16, pid: u16) -> (res: String)
    ensures
        res@ == package_file_name(vid, pid, ".cat"@),
{
    package_file(vid, pid, ".cat")
}

/// The directory holding the INF and catalog of the package for `vid:pid`.
pub open spec fn driver_package_dir_spec(vid: u16, pid: u16) -> Seq<char> {
    driver_base_dir() + "\\"@ + hex4(vid, false) + "_"@ + hex4(pid, false)
}

/// The directory holding the INF and catalog of the package for `vid:pid`.
pub fn driver_package_dir(vid: u16, pid: u16) -> (res: String)
    ensures
        res@ == driver_package_dir_spec(vid, pid),
{
    let mut cs: Vec<char> = Vec::new();
    push_str(&mut cs, "C:\\Windows\\Temp\\btstack_drivers");
    push_str(&mut cs, "\\");
    push_chars(&mut cs, &hex4_chars(vid, false));
    push_str(&mut cs, "_");
    push_chars(&mut cs, &hex4_chars(pid, false));
    string_from_chars(cs.as_slice())
}

/// The PnP hardware id `USB\VID_<VID>&PID_<PID>` (upper-case digits).
pub open spec fn hardware_id_spec(vid: u16, pid: u16) -> Seq<char> {
    "USB\\VID_"@ + hex4(vid, true) + "&PID_"@ + hex4(pid, true)
}

/// The PnP hardware id of `vid:pid`.
pub fn hardware_id(vid: u16, pid: u16) -> (res: String)
    ensures
        res@ == hardware_id_spec(vid, pid),
{
    let mut cs: Vec<char> = Vec::new();
    push_str(&mut cs, "USB\\VID_");
    push_chars(&mut cs, &hex4_chars(vid, true));
    push_str(&mut cs, "&PID_");
    push_chars(&mut cs, &hex4_chars(pid, true));
    string_from_chars(cs.as_slice())
}

// ---------------------------------------------------------------------------
// Device ids
// ---------------------------------------------------------------------------

/// What `str::to_uppercase` returns for a text (Unicode upper-case mapping).
pub uninterp spec fn str_uppercase(s: Seq<char>) -> Seq<char>;

/// Calls `str::to_uppercase`; the result is named `str_uppercase` of the text.
/// On ASCII text it maps the letters `a`-`z` to `A`-`Z` and keeps every other
/// character.
#[verifier::external_body]
fn to_uppercase(s: &str) -> (res: String)
    ensures
        res@ == str_uppercase(s@),
        is_ascii_text(s@) ==> res@ == ascii_upper(s@),
{
    s.to_uppercase()
}

/// The upper-case form of a text: its ASCII letters made capital when the
/// text is ASCII, what `str::to_uppercase` returns otherwise.
pub open spec fn uppercase(s: Seq<char>) -> Seq<char> {
    if is_ascii_text(s) { ascii_upper(s) } else { str_uppercase(s) }
}

/// The hexadecimal field that follows the first occurrence of `prefix` in `s`
/// (the longest run of hexadecimal digits there), or "0000" when `prefix`
/// does not occur.
pub open spec fn id_field(s: Seq<char>, prefix: Seq<char>) -> Seq<char> {
    match first_occurrence(s, prefix) {
        Some(i) => {
            let rest = s.skip(i + prefix.len());
            rest.take(hex_prefix_len(rest) as int)
        },
        None => "0000"@,
    }
}

/// Law: without `prefix` in `s` the field reads "0000"; otherwise it is the
/// text that directly follows the first occurrence of `prefix`, made of
/// hexadecimal digits only, and running up to the end of `s` or to the first
/// character that is not a hexadecimal digit.
pub proof fn lemma_id_field_is_hex_run(s: Seq<char>, prefix: Seq<char>)
    ensures
        !contains(s, prefix) ==> id_field(s, prefix) == "0000"@,
        first_occurrence(s, prefix) matches Some(i) ==> ({
            let start = i + prefix.len();
            let f = id_field(s, prefix);
            &&& occurs_at(s, prefix, i)
            &&& forall|j: int| 0 <= j < i ==> !occurs_at(s, prefix, j)
            &&& start + f.len() <= s.len()
            &&& f == s.subrange(start, start + f.len())
            &&& forall|j: int| 0 <= j < f.len() ==> is_hex_digit(#[trigger] f[j])
            &&& (start + f.len() == s.len() || !is_hex_digit(s[start + f.len()]))
        }),
{
    crate::text::lemma_first_occurrence_is_first(s, prefix);
    match first_occurrence(s, prefix) {
        Some(i) => {
            let start = i + prefix.len();
            let rest = s.skip(start);
            crate::text::lemma_hex_prefix_len(rest);
            let f = id_field(s, prefix);
            assert(f =~= s.subrange(start, start + f.len()));
            if start + f.len() < s.len() {
                assert(s[start + f.len()] == rest[f.len() as int]);
            }
        },
        None => {},
    }
}

/// The hexadecimal field after `prefix` in `s`, or "0000" without `prefix`.
pub fn extract_id_field(s: &str, prefix: &str) -> (res: String)
    ensures
        res@ == id_field(s@, prefix@),
{
    let cs = str_chars(s);
    let ps = str_chars(prefix);
    match find_chars(&cs, &ps) {
        Some(pos) => {
            let len = cs.len();
            assert(pos + ps@.len() <= cs@.len());
            let start = pos + ps.len();
            let n = hex_prefix_len_from(&cs, start);
            let field = slice_chars(&cs, start, start + n);
            assert(field@ =~= cs@.skip(start as int).take(n as int));
            assert(first_occurrence(s@, prefix@) == Some(pos as int));
            let r = string_from_chars(field.as_slice());
            assert(r@ == id_field(s@, prefix@));
            r
        },
        None => {
            let r = string_from_chars(str_chars("0000").as_slice());
            assert(r@ == id_field(s@, prefix@));
            r
        },
    }
}

/// The vendor and product ids (lower case) read from a device id that has
/// already been upper-cased.
pub open spec fn vid_pid_of_upper(upper: Seq<char>) -> (Seq<char>, Seq<char>) {
    (ascii_lower(id_field(upper, "VID_"@)), ascii_lower(id_field(upper, "PID_"@)))
}

/// Reads the vendor and product ids from an upper-cased device id such as
/// `USB\VID_0A12&PID_0001\...`; a missing field reads "0000".
pub fn vid_pid_of_uppercased(upper: &str) -> (res: (String, String))
    ensures
        (res.0@, res.1@) == vid_pid_of_upper(upper@),
{
    let vid = str_chars(extract_id_field(upper, "VID_").as_str());
    let pid = str_chars(extract_id_field(upper, "PID_").as_str());
    (string_from_chars(ascii_lower_chars(&vid).as_slice()), string_from_chars(ascii_lower_chars(&pid).as_slice()))
}

/// Reads the vendor and product ids (lower case) from a PnP device id such as
/// `USB\VID_0A12&PID_0001\...`, matching the field names in any letter case.
pub fn parse_vid_pid(device_id: &str) -> (res: (String, String))
    ensures
        (res.0@, res.1@) == vid_pid_of_upper(uppercase(device_id@)),
{
    let upper = to_uppercase(device_id);
    vid_pid_of_uppercased(upper.as_str())
}

// ---------------------------------------------------------------------------
// Device list
// ---------------------------------------------------------------------------

/// The text used for a missing description or driver.
pub open spec fn unknown_text() -> Seq<char> {
    "不明"@
}

/// The text `o`, or `default` when there is none.
pub open spec fn text_or(o: Option<Seq<char>>, default: Seq<char>) -> Seq<char> {
    match o {
        Some(t) => t,
        None => default,
    }
}

/// The vendor and product ids of an entry that is listed: a USB device
/// (`USB\` device id) whose ids are not both "0000".
pub open spec fn listed_ids(entry: PnpRecord) -> Option<(Seq<char>, Seq<char>)> {
    let id = text_or(entry.device_id, Seq::empty());
    if !starts_with(id, "USB\\"@) {
        None
    } else {
        let ids = vid_pid_of_upper(uppercase(id));
        if ids.0 == "0000"@ && ids.1 == "0000"@ {
            None
        } else {
            Some(ids)
        }
    }
}

/// How many of `devs` have the ids `vid:pid`.
pub open spec fn same_ids_count(devs: Seq<DeviceRecord>, vid: Seq<char>, pid: Seq<char>) -> nat
    decreases devs.len(),
{
    if devs.len() == 0 {
        0
    } else {
        same_ids_count(devs.drop_last(), vid, pid) + (if devs.last().vid == vid && devs.last().pid == pid { 1nat } else { 0nat })
    }
}

/// The devices listed for the WMI entries, in order; each device's instance is
/// the number of devices with the same ids listed before it.
pub open spec fn devices_of(entries: Seq<PnpRecord>) -> Seq<DeviceRecord>
    decreases entries.len(),
{
    if entries.len() == 0 {
        Seq::empty()
    } else {
        let prev = devices_of(entries.drop_last());
        let e = entries.last();
        match listed_ids(e) {
            None => prev,
            Some(ids) => prev.push(DeviceRecord {
                vid: ids.0,
                pid: ids.1,
                description: text_or(e.description, unknown_text()),
                driver: text_or(e.service, unknown_text()),
                instance: same_ids_count(prev, ids.0, ids.1),
            }),
        }
    }
}

/// The abstract contents of a list of devices.
pub open spec fn device_views(s: Seq<BtUsbDevice>) -> Seq<DeviceRecord> {
    s.map_values(|d: BtUsbDevice| d@)
}

/// The abstract contents of a list of WMI rows.
pub open spec fn entry_views(s: Seq<PnpEntry>) -> Seq<PnpRecord> {
    s.map_values(|e: PnpEntry| e@)
}

proof fn lemma_devices_len(entries: Seq<PnpRecord>)
    ensures
        devices_of(entries).len() <= entries.len(),
    decreases entries.len(),
{
    if entries.len() > 0 {
        lemma_devices_len(entries.drop_last());
    }
}

proof fn lemma_count_bound(devs: Seq<DeviceRecord>, vid: Seq<char>, pid: Seq<char>)
    ensures
        same_ids_count(devs, vid, pid) <= devs.len(),
    decreases devs.len(),
{
    if devs.len() > 0 {
        lemma_count_bound(devs.drop_last(), vid, pid);
    }
}

fn text_or_unknown(o: &Option<String>) -> (res: String)
    ensures
        res@ == text_or(opt_view(*o), unknown_text()),
{
    match o {
        Some(t) => t.clone(),
        None => string_from_chars(str_chars("不明").as_slice()),
    }
}

fn count_same_ids(devs: &Vec<BtUsbDevice>, vid: &String, pid: &String) -> (n: usize)
    ensures
        n == same_ids_count(device_views(devs@), vid@, pid@),
{
    let mut n: usize = 0;
    let mut j: usize = 0;
    while j < devs.len()
        invariant
            j <= devs@.len(),
            n == same_ids_count(device_views(devs@.take(j as int)), vid@, pid@),
            n <= j,
        decreases devs@.len() - j,
    {
        assert(device_views(devs@.take(j + 1)).drop_last() =~= device_views(devs@.take(j as int)));
        if devs[j].vid == *vid && devs[j].pid == *pid {
            n = n + 1;
        }
        j = j + 1;
    }
    assert(devs@.take(devs@.len() as int) =~= devs@);
    n
}

/// The devices listed for the WMI entries: entries whose device id does not
/// start with `USB\`, or whose vendor and product ids both read "0000", are
/// left out; a missing description or driver reads "不明"; devices with the
/// same ids are numbered 0, 1, 2, ... in order.
pub fn devices_from_entries(entries: &Vec<PnpEntry>) -> (res: Vec<BtUsbDevice>)
    requires
        entries@.len() <= u32::MAX,
    ensures
        device_views(res@) == devices_of(entry_views(entries@)),
{
    let mut res: Vec<BtUsbDevice> = Vec::new();
    let mut i: usize = 0;
    let usb = str_chars("USB\\");
    let zeros = str_chars("0000");
    while i < entries.len()
        invariant
            i <= entries@.len(),
            entries@.len() <= u32::MAX,
            usb@ == "USB\\"@,
            zeros@ == "0000"@,
            device_views(res@) == devices_of(entry_views(entries@.take(i as int))),
        decreases entries@.len() - i,
    {
        let ghost before = entry_views(entries@.take(i as int));
        assert(entry_views(entries@.take(i + 1)).drop_last() =~= before);
        assert(entry_views(entries@.take(i + 1)).last() == entries@[i as int]@);
        proof {
            lemma_devices_len(before);
        }
        let entry = &entries[i];
        let device_id: String = match &entry.device_id {
            Some(d) => d.clone(),
            None => String::new(),
        };
        let id_chars = str_chars(device_id.as_str());
        if starts_with_chars(&id_chars, &usb) {
            let (vid, pid) = parse_vid_pid(device_id.as_str());
            let vid_chars = str_chars(vid.as_str());
            let pid_chars = str_chars(pid.as_str());
            if !(chars_equal(&vid_chars, &zeros) && chars_equal(&pid_chars, &zeros)) {
                let n = count_same_ids(&res, &vid, &pid);
                proof {
                    lemma_count_bound(device_views(res@), vid@, pid@);
                }
                let dev = BtUsbDevice {
                    vid,
                    pid,
                    description: text_or_unknown(&entry.description),
                    driver: text_or_unknown(&entry.service),
                    instance: n as u32,
                };
                let ghost old_res = res@;
                res.push(dev);
                assert(device_views(res@) =~= device_views(old_res).push(dev@));
            }
        }
        i = i + 1;
    }
    assert(entries@.take(entries@.len() as int) =~= entries@);
    res
}

proof fn lemma_devices_instance(entries: Seq<PnpRecord>, k: int)
    requires
        0 <= k < devices_of(entries).len(),
    ensures
        devices_of(entries)[k].instance == same_ids_count(
            devices_of(entries).take(k),
            devices_of(entries)[k].vid,
            devices_of(entries)[k].pid,
        ),
    decreases entries.len(),
{
    let d = devices_of(entries);
    let prev = devices_of(entries.drop_last());
    if k < prev.len() {
        lemma_devices_instance(entries.drop_last(), k);
        assert(d[k] == prev[k]);
        assert(d.take(k) =~= prev.take(k));
    } else {
        assert(d.take(k) =~= prev);
    }
}

proof fn lemma_count_prefix(devs: Seq<DeviceRecord>, i: int, j: int, vid: Seq<char>, pid: Seq<char>)
    requires
        0 <= i < j <= devs.len(),
        devs[i].vid == vid,
        devs[i].pid == pid,
    ensures
        same_ids_count(devs.take(i), vid, pid) < same_ids_count(devs.take(j), vid, pid),
    decreases j - i,
{
    if j == i + 1 {
        assert(devs.take(j).drop_last() =~= devs.take(i));
    } else {
        lemma_count_prefix(devs, i, j - 1, vid, pid);
        assert(devs.take(j).drop_last() =~= devs.take(j - 1));
    }
}

/// Law: listed devices with the same vendor and product id have distinct
/// instance numbers, increasing in listing order.
pub proof fn lemma_instances_increase(entries: Seq<PnpRecord>, i: int, j: int)
    requires
        0 <= i < j < devices_of(entries).len(),
        devices_of(entries)[i].vid == devices_of(entries)[j].vid,
        devices_of(entries)[i].pid == devices_of(entries)[j].pid,
    ensures
        devices_of(entries)[i].instance < devices_of(entries)[j].instance,
{
    let d = devices_of(entries);
    lemma_devices_instance(entries, i);
    lemma_devices_instance(entries, j);
    lemma_count_prefix(d, i, j, d[i].vid, d[i].pid);
}

proof fn lemma_count_is_filter(devs: Seq<DeviceRecord>, vid: Seq<char>, pid: Seq<char>)
    ensures
        same_ids_count(devs, vid, pid) == devs.filter(|d: DeviceRecord| d.vid == vid && d.pid == pid).len(),
    decreases devs.len(),
{
    reveal_with_fuel(Seq::filter, 2);
    if devs.len() > 0 {
        lemma_count_is_filter(devs.drop_last(), vid, pid);
    }
}

/// Law: the instance number of every listed device is the number of devices
/// listed before it that have both the same vendor id and the same product id;
/// so the first device listed with a given `vid:pid` pair is instance 0,
/// whatever devices with other pairs come before it.
pub proof fn lemma_instance_counts_same_pair(entries: Seq<PnpRecord>, k: int)
    requires
        0 <= k < devices_of(entries).len(),
    ensures
        devices_of(entries)[k].instance == devices_of(entries).take(k).filter(
            |d: DeviceRecord| d.vid == devices_of(entries)[k].vid && d.pid == devices_of(entries)[k].pid,
        ).len(),
        (forall|j: int| 0 <= j < k ==> !(devices_of(entries)[j].vid == devices_of(entries)[k].vid
            && devices_of(entries)[j].pid == devices_of(entries)[k].pid))
            ==> devices_of(entries)[k].instance == 0,
{
    let d = devices_of(entries);
    lemma_devices_instance(entries, k);
    lemma_count_is_filter(d.take(k), d[k].vid, d[k].pid);
    let f = |x: DeviceRecord| x.vid == d[k].vid && x.pid == d[k].pid;
    if forall|j: int| 0 <= j < k ==> !(d[j].vid == d[k].vid && d[j].pid == d[k].pid) {
        assert forall|j: int| 0 <= j < d.take(k).len() implies !f(#[trigger] d.take(k)[j]) by {
            assert(d.take(k)[j] == d[j]);
        }
        lemma_filter_none(d.take(k), f);
    }
}

proof fn lemma_filter_none<A>(s: Seq<A>, f: spec_fn(A) -> bool)
    requires
        forall|j: int| 0 <= j < s.len() ==> !f(#[trigger] s[j]),
    ensures
        s.filter(f).len() == 0,
    decreases s.len(),
{
    reveal_with_fuel(Seq::filter, 2);
    if s.len() > 0 {
        assert forall|j: int| 0 <= j < s.drop_last().len() implies !f(#[trigger] s.drop_last()[j]) by {
            assert(s.drop_last()[j] == s[j]);
        }
        lemma_filter_none(s.drop_last(), f);
        assert(!f(s[s.len() - 1]));
    }
}

/// Law: an entry is listed exactly when its device id starts with `USB\` and
/// its vendor and product ids do not both read "0000"; the ids listed are the
/// fields after `VID_` and `PID_` in the upper-cased device id, in lower case.
pub proof fn lemma_listed_ids(entry: PnpRecord)
    ensures
        ({
            let id = text_or(entry.device_id, Seq::empty());
            let upper = uppercase(id);
            let vid = ascii_lower(id_field(upper, "VID_"@));
            let pid = ascii_lower(id_field(upper, "PID_"@));
            &&& !starts_with(id, "USB\\"@) ==> listed_ids(entry) is None
            &&& starts_with(id, "USB\\"@) && vid == "0000"@ && pid == "0000"@ ==> listed_ids(entry) is None
            &&& starts_with(id, "USB\\"@) && !(vid == "0000"@ && pid == "0000"@) ==> listed_ids(entry) == Some((vid, pid))
        }),
{
}

/// Law: one device is listed per entry that `listed_ids` keeps, and each
/// listed device comes from such an entry: it has that entry's ids, its
/// description (or "不明") and its driver service (or "不明").
pub proof fn lemma_devices_come_from_entries(entries: Seq<PnpRecord>)
    ensures
        devices_of(entries).len() == entries.filter(|e: PnpRecord| listed_ids(e) is Some).len(),
        forall|k: int| #![trigger devices_of(entries)[k]] 0 <= k < devices_of(entries).len() ==> exists|i: int| 0 <= i < entries.len()
            && #[trigger] listed_ids(entries[i]) == Some((devices_of(entries)[k].vid, devices_of(entries)[k].pid))
            && devices_of(entries)[k].description == text_or(entries[i].description, unknown_text())
            && devices_of(entries)[k].driver == text_or(entries[i].service, unknown_text()),
    decreases entries.len(),
{
    reveal_with_fuel(Seq::filter, 2);
    if entries.len() > 0 {
        let t = entries.drop_last();
        lemma_devices_come_from_entries(t);
        let d = devices_of(entries);
        let prev = devices_of(t);
        assert forall|k: int| #![trigger d[k]] 0 <= k < d.len() implies exists|i: int| 0 <= i < entries.len()
            && #[trigger] listed_ids(entries[i]) == Some((d[k].vid, d[k].pid))
            && d[k].description == text_or(entries[i].description, unknown_text())
            && d[k].driver == text_or(entries[i].service, unknown_text()) by {
            if k < prev.len() {
                assert(d[k] == prev[k]);
                let i = choose|i: int| 0 <= i < t.len()
                    && #[trigger] listed_ids(t[i]) == Some((prev[k].vid, prev[k].pid))
                    && prev[k].description == text_or(t[i].description, unknown_text())
                    && prev[k].driver == text_or(t[i].service, unknown_text());
                assert(t[i] == entries[i]);
            } else {
                let i = entries.len() - 1;
                assert(entries[i] == entries.last());
                assert(listed_ids(entries[i]) == Some((d[k].vid, d[k].pid)));
            }
        }
    }
}

/// What the device listing hands to the JSON reader: `None` when PowerShell
/// printed nothing (or `null`), the trimmed output when it is an array, and
/// the trimmed output wrapped in `[` `]` when it is a single object.
pub open spec fn device_json_text(stdout: Seq<char>) -> Option<Seq<char>> {
    let t = trim(stdout);
    if t.len() == 0 || t == "null"@ {
        None
    } else if t[0] == '[' {
        Some(t)
    } else {
        Some("["@ + t + "]"@)
    }
}

/// Law: the listing has no JSON exactly when the trimmed output is empty or
/// `null`; otherwise the JSON is an array: the trimmed output itself when it
/// already is one, and the trimmed output between `[` and `]` otherwise.
pub proof fn lemma_device_json(stdout: Seq<char>)
    ensures
        device_json_text(stdout) is None <==> (trim(stdout).len() == 0 || trim(stdout) == "null"@),
        device_json_text(stdout) matches Some(j) ==> j[0] == '[' && j.len() > 0,
        device_json_text(stdout) matches Some(j) ==> (if trim(stdout)[0] == '[' { j == trim(stdout) } else {
            j.len() == trim(stdout).len() + 2 && j.subrange(1, j.len() - 1) == trim(stdout)
                && j.last() == ']'
        }),
{
    reveal_strlit("[");
    reveal_strlit("]");
    let t = trim(stdout);
    if device_json_text(stdout) is Some && t[0] != '[' {
        let j = "["@ + t + "]"@;
        assert(j.subrange(1, j.len() - 1) =~= t);
    }
}

/// Normalises the PowerShell output of the device listing into a JSON array.
pub fn normalize_device_json(stdout: &str) -> (res: Option<String>)
    ensures
        opt_view(res) == device_json_text(stdout@),
{
    let t = trim_chars(&str_chars(stdout));
    if t.len() == 0 || chars_equal(&t, &str_chars("null")) {
        return None;
    }
    if t[0] == '[' {
        Some(string_from_chars(t.as_slice()))
    } else {
        let mut cs = str_chars("[");
        push_chars(&mut cs, &t);
        push_str(&mut cs, "]");
        Some(string_from_chars(cs.as_slice()))
    }
}

// ---------------------------------------------------------------------------
// Script outcomes
// ---------------------------------------------------------------------------

/// The detail of a failed script: its trimmed error output, or its trimmed
/// standard output when the error output is blank.
pub open spec fn failure_detail(stdout: Seq<char>, stderr: Seq<char>) -> Seq<char> {
    if trim(stderr).len() > 0 { trim(stderr) } else { trim(stdout) }
}

fn failure_detail_chars(stdout: &str, stderr: &str) -> (res: Vec<char>)
    ensures
        res@ == failure_detail(stdout@, stderr@),
{
    let e = trim_chars(&str_chars(stderr));
    if e.len() > 0 { e } else { trim_chars(&str_chars(stdout)) }
}

/// `(<vid>:<pid>)` with lower-case four-digit ids.
pub open spec fn ids_in_parens(vid: u16, pid: u16) -> Seq<char> {
    "("@ + hex4(vid, false) + ":"@ + hex4(pid, false) + ")"@
}

fn push_ids_in_parens(cs: &mut Vec<char>, vid: u16, pid: u16)
    ensures
        final(cs)@ == old(cs)@ + ids_in_parens(vid, pid),
{
    push_str(cs, "(");
    push_chars(cs, &hex4_chars(vid, false));
    push_str(cs, ":");
    push_chars(cs, &hex4_chars(pid, false));
    push_str(cs, ")");
}

/// The texts of a result whose both sides are strings.
pub open spec fn result_view(r: Result<String, String>) -> Result<Seq<char>, Seq<char>> {
    match r {
        Ok(s) => Ok(s@),
        Err(s) => Err(s@),
    }
}

/// The result of the WinUSB install script: success when the script exited
/// successfully and printed `OK` (mentioning a required reboot when it printed
/// `REBOOT_REQUIRED`), failure with the script's output otherwise.
pub open spec fn install_result(vid: u16, pid: u16, success: bool, stdout: Seq<char>, stderr: Seq<char>)
    -> Result<Seq<char>, Seq<char>>
{
    if success && contains(stdout, "OK"@) {
        let msg = "WinUSB ドライバを導入しました "@ + ids_in_parens(vid, pid);
        if contains(stdout, "REBOOT_REQUIRED"@) {
            Ok(msg + "（再起動が必要です）"@)
        } else {
            Ok(msg)
        }
    } else {
        Err("WinUSB ドライバの導入に失敗しました: "@ + failure_detail(stdout, stderr))
    }
}

/// Reads the outcome of the WinUSB install script for `vid:pid` from its exit
/// status and output.
pub fn install_outcome(vid: u16, pid: u16, success: bool, stdout: &str, stderr: &str) -> (res: Result<String, String>)
    ensures
        result_view(res) == install_result(vid, pid, success, stdout@, stderr@),
{
    let out = str_chars(stdout);
    if success && contains_chars(&out, &str_chars("OK")) {
        let mut cs = str_chars("WinUSB ドライバを導入しました ");
        push_ids_in_parens(&mut cs, vid, pid);
        if contains_chars(&out, &str_chars("REBOOT_REQUIRED")) {
            push_str(&mut cs, "（再起動が必要です）");
        }
        Ok(string_from_chars(cs.as_slice()))
    } else {
        let mut cs = str_chars("WinUSB ドライバの導入に失敗しました: ");
        push_chars(&mut cs, &failure_detail_chars(stdout, stderr));
        Err(string_from_chars(cs.as_slice()))
    }
}

/// The result of the driver restore script: success when the script exited
/// successfully and printed `OK`, failure with the script's output otherwise.
pub open spec fn restore_result(vid: u16, pid: u16, success: bool, stdout: Seq<char>, stderr: Seq<char>)
    -> Result<Seq<char>, Seq<char>>
{
    if success && contains(stdout, "OK"@) {
        Ok("ドライバを復元しました "@ + ids_in_parens(vid, pid))
    } else {
        Err("ドライバの復元に失敗しました: "@ + failure_detail(stdout, stderr))
    }
}

/// Reads the outcome of the driver restore script for `vid:pid` from its exit
/// status and output.
pub fn restore_outcome(vid: u16, pid: u16, success: bool, stdout: &str, stderr: &str) -> (res: Result<String, String>)
    ensures
        result_view(res) == restore_result(vid, pid, success, stdout@, stderr@),
{
    let out = str_chars(stdout);
    if success && contains_chars(&out, &str_chars("OK")) {
        let mut cs = str_chars("ドライバを復元しました ");
        push_ids_in_parens(&mut cs, vid, pid);
        Ok(string_from_chars(cs.as_slice()))
    } else {
        let mut cs = str_chars("ドライバの復元に失敗しました: ");
        push_chars(&mut cs, &failure_detail_chars(stdout, stderr));
        Err(string_from_chars(cs.as_slice()))
    }
}

} // verus!
