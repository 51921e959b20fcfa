//! Which audio devices and applications are offered, in which order, and
//! which application stream is the program's own.

use vstd::prelude::*;
use crate::messages::{AppListItem, DeviceListItem};
use crate::text::{contains_str, decimal, decimal_string, has_substring, lowercase, to_lowercase};

verus! {

broadcast use vstd::string::group_string_axioms;

/// An audio source as the audio system describes it.
pub struct SourceDevice {
    pub name: Option<String>,
    pub description: Option<String>,
    /// The source records what a sink plays.
    pub is_monitor: bool,
}

/// An application stream as the audio system describes it.
pub struct SinkApp {
    pub index: u32,
    pub name: Option<String>,
    /// The stream's properties written out as text; `None` where the audio
    /// system gave none.
    pub proplist: Option<String>,
}

/// The list entry for a device that has both a name and a description.
pub open spec fn device_item(d: SourceDevice, is_monitor: bool) -> DeviceListItem {
    DeviceListItem {
        inner_name: d.name.unwrap(),
        display_name: d.description.unwrap(),
        is_monitor,
    }
}

/// The device is the audio system's default source.
pub open spec fn is_default_source(d: SourceDevice, default_source: Option<String>) -> bool {
    match (d.name, default_source) {
        (Some(n), Some(dn)) => n@ == dn@,
        (None, None) => true,
        _ => false,
    }
}

/// Sorts the devices into three lists: default sources (the later one
/// first), other sources that record no sink, and monitors, each in the order
/// of `devices`. Devices without a name or a description are left out.
pub open spec fn sort_devices(devices: Seq<SourceDevice>, default_source: Option<String>) -> (
    Seq<DeviceListItem>,
    Seq<DeviceListItem>,
    Seq<DeviceListItem>,
)
    decreases devices.len(),
{
    if devices.len() == 0 {
        (Seq::empty(), Seq::empty(), Seq::empty())
    } else {
        let (defaults, plain, monitors) = sort_devices(devices.drop_last(), default_source);
        let d = devices.last();
        if d.name is None || d.description is None {
            (defaults, plain, monitors)
        } else if is_default_source(d, default_source) {
            (seq![device_item(d, d.is_monitor)] + defaults, plain, monitors)
        } else if d.is_monitor {
            (defaults, plain, monitors.push(device_item(d, true)))
        } else {
            (defaults, plain.push(device_item(d, false)), monitors)
        }
    }
}

/// The device list: default source first, then the other sources, then the
/// monitors.
pub open spec fn device_list_spec(devices: Seq<SourceDevice>, default_source: Option<String>) -> Seq<DeviceListItem> {
    let (defaults, plain, monitors) = sort_devices(devices, default_source);
    defaults + plain + monitors
}

/// The entry is the one for the default source `default_source`.
pub open spec fn names_default(e: DeviceListItem, default_source: Option<String>) -> bool {
    default_source matches Some(dn) && e.inner_name@ == dn@
}

/// Some device of `devices` is the one the entry stands for: its name is
/// the entry's inner name, its description the entry's display name, and it
/// is a monitor exactly when the entry says so.
pub open spec fn entry_from_devices(devices: Seq<SourceDevice>, e: DeviceListItem) -> bool {
    exists|j: int|
        0 <= j < devices.len() && (#[trigger] devices[j]).name == Some(e.inner_name)
            && devices[j].description == Some(e.display_name) && devices[j].is_monitor == e.is_monitor
}

/// Some entry of `entries` shows the device `d` by its name and description.
pub open spec fn device_shown(entries: Seq<DeviceListItem>, d: SourceDevice) -> bool {
    exists|k: int|
        0 <= k < entries.len() && Some((#[trigger] entries[k]).inner_name) == d.name
            && Some(entries[k].display_name) == d.description
}

proof fn lemma_entry_from_prefix(devices: Seq<SourceDevice>, e: DeviceListItem)
    requires
        devices.len() > 0,
        entry_from_devices(devices.drop_last(), e),
    ensures
        entry_from_devices(devices, e),
{
    let j = choose|j: int|
        0 <= j < devices.drop_last().len() && (#[trigger] devices.drop_last()[j]).name == Some(e.inner_name)
            && devices.drop_last()[j].description == Some(e.display_name)
            && devices.drop_last()[j].is_monitor == e.is_monitor;
    assert(devices.drop_last()[j] == devices[j]);
}

proof fn lemma_sort_devices_parts(devices: Seq<SourceDevice>, default_source: Option<String>)
    ensures
        ({
            let (defaults, plain, monitors) = sort_devices(devices, default_source);
            &&& forall|k: int| 0 <= k < defaults.len() ==>
                names_default(#[trigger] defaults[k], default_source) && entry_from_devices(devices, defaults[k])
            &&& forall|k: int| 0 <= k < plain.len() ==>
                !names_default(#[trigger] plain[k], default_source) && !plain[k].is_monitor
                    && entry_from_devices(devices, plain[k])
            &&& forall|k: int| 0 <= k < monitors.len() ==>
                !names_default(#[trigger] monitors[k], default_source) && monitors[k].is_monitor
                    && entry_from_devices(devices, monitors[k])
            &&& forall|j: int| 0 <= j < devices.len() && (#[trigger] devices[j]).name is Some
                && devices[j].description is Some ==>
                device_shown(defaults, devices[j]) || device_shown(plain, devices[j])
                    || device_shown(monitors, devices[j])
        }),
    decreases devices.len(),
{
    if devices.len() > 0 {
        let prev = devices.drop_last();
        lemma_sort_devices_parts(prev, default_source);
        let (pd, pp, pm) = sort_devices(prev, default_source);
        let (defaults, plain, monitors) = sort_devices(devices, default_source);
        let d = devices.last();
        let last = devices.len() - 1;
        assert forall|k: int| 0 <= k < pd.len() implies entry_from_devices(devices, #[trigger] pd[k]) by {
            lemma_entry_from_prefix(devices, pd[k]);
        }
        assert forall|k: int| 0 <= k < pp.len() implies entry_from_devices(devices, #[trigger] pp[k]) by {
            lemma_entry_from_prefix(devices, pp[k]);
        }
        assert forall|k: int| 0 <= k < pm.len() implies entry_from_devices(devices, #[trigger] pm[k]) by {
            lemma_entry_from_prefix(devices, pm[k]);
        }
        if d.name is Some && d.description is Some {
            let item = device_item(d, d.is_monitor);
            assert(devices[last] == d);
            assert(entry_from_devices(devices, item));
        }
        assert forall|j: int| 0 <= j < devices.len() && (#[trigger] devices[j]).name is Some
            && devices[j].description is Some implies device_shown(defaults, devices[j])
            || device_shown(plain, devices[j]) || device_shown(monitors, devices[j]) by {
            if j == last {
                if is_default_source(d, default_source) {
                    assert(defaults[0] == device_item(d, d.is_monitor));
                } else if d.is_monitor {
                    assert(monitors[monitors.len() - 1] == device_item(d, true));
                } else {
                    assert(plain[plain.len() - 1] == device_item(d, false));
                }
            } else {
                assert(prev[j] == devices[j]);
                if device_shown(pd, prev[j]) {
                    let k = choose|k: int| 0 <= k < pd.len() && Some((#[trigger] pd[k]).inner_name) == prev[j].name
                        && Some(pd[k].display_name) == prev[j].description;
                    if d.name is Some && d.description is Some && is_default_source(d, default_source) {
                        assert(defaults[k + 1] == pd[k]);
                    } else {
                        assert(defaults[k] == pd[k]);
                    }
                } else if device_shown(pp, prev[j]) {
                    let k = choose|k: int| 0 <= k < pp.len() && Some((#[trigger] pp[k]).inner_name) == prev[j].name
                        && Some(pp[k].display_name) == prev[j].description;
                    assert(plain[k] == pp[k]);
                } else {
                    let k = choose|k: int| 0 <= k < pm.len() && Some((#[trigger] pm[k]).inner_name) == prev[j].name
                        && Some(pm[k].display_name) == prev[j].description;
                    assert(monitors[k] == pm[k]);
                }
            }
        }
    }
}

/// Every entry of the device list stands for a listed device: some device
/// has the entry's inner name as its name, the entry's display name as its
/// description, and is a monitor exactly when the entry says so. Every
/// device that has a name and a description is shown. The default source
/// comes before every other entry, and the other sources before the
/// monitors.
pub proof fn device_list_shows_each_device(devices: Seq<SourceDevice>, default_source: Option<String>)
    ensures
        ({
            let r = device_list_spec(devices, default_source);
            &&& forall|i: int| 0 <= i < r.len() ==> exists|j: int|
                0 <= j < devices.len() && (#[trigger] devices[j]).name == Some((#[trigger] r[i]).inner_name)
                    && devices[j].description == Some(r[i].display_name)
                    && devices[j].is_monitor == r[i].is_monitor
            &&& forall|j: int| 0 <= j < devices.len() && (#[trigger] devices[j]).name is Some
                && devices[j].description is Some ==> exists|i: int|
                0 <= i < r.len() && Some((#[trigger] r[i]).inner_name) == devices[j].name
                    && Some(r[i].display_name) == devices[j].description
            &&& forall|i: int, k: int| 0 <= i < k < r.len() && !(default_source matches Some(dn)
                && (#[trigger] r[i]).inner_name@ == dn@) ==> !(default_source matches Some(dn)
                && (#[trigger] r[k]).inner_name@ == dn@)
            &&& forall|i: int, k: int| 0 <= i < k < r.len() && !(default_source matches Some(dn)
                && (#[trigger] r[i]).inner_name@ == dn@) && r[i].is_monitor ==> (#[trigger] r[k]).is_monitor
        }),
{
    lemma_sort_devices_parts(devices, default_source);
    let (a, b, c) = sort_devices(devices, default_source);
    let r = device_list_spec(devices, default_source);
    assert(r == a + b + c);
    assert forall|i: int| 0 <= i < r.len() implies names_default(#[trigger] r[i], default_source) == (i < a.len())
        && (i >= a.len() ==> r[i].is_monitor == (i >= a.len() + b.len()))
        && entry_from_devices(devices, r[i]) by {
        if i < a.len() {
            assert(r[i] == a[i]);
        } else if i < a.len() + b.len() {
            assert(r[i] == b[i - a.len()]);
        } else {
            assert(r[i] == c[i - a.len() - b.len()]);
        }
    }
    assert forall|j: int| 0 <= j < devices.len() && (#[trigger] devices[j]).name is Some
        && devices[j].description is Some implies device_shown(r, devices[j]) by {
        if device_shown(a, devices[j]) {
            let k = choose|k: int| 0 <= k < a.len() && Some((#[trigger] a[k]).inner_name) == devices[j].name
                && Some(a[k].display_name) == devices[j].description;
            assert(r[k] == a[k]);
        } else if device_shown(b, devices[j]) {
            let k = choose|k: int| 0 <= k < b.len() && Some((#[trigger] b[k]).inner_name) == devices[j].name
                && Some(b[k].display_name) == devices[j].description;
            assert(r[a.len() + k] == b[k]);
        } else {
            let k = choose|k: int| 0 <= k < c.len() && Some((#[trigger] c[k]).inner_name) == devices[j].name
                && Some(c[k].display_name) == devices[j].description;
            assert(r[a.len() + b.len() + k] == c[k]);
        }
    }
}

/// The devices offered for recording. `server_default` is the default
/// source that the audio system reported, or `None` where it could not be
/// asked; `devices` is `None` where the sources could not be listed. Either
/// failure leaves the list empty.
pub fn device_list(server_default: Option<Option<String>>, devices: Option<Vec<SourceDevice>>) -> (r: Vec<DeviceListItem>)
    ensures
        match (server_default, devices) {
            (Some(default_source), Some(ds)) => r@ == device_list_spec(ds@, default_source),
            _ => r@.len() == 0,
        },
        devices matches Some(ds) ==> forall|i: int| 0 <= i < r@.len() ==> exists|j: int|
            0 <= j < ds@.len() && (#[trigger] ds@[j]).name == Some((#[trigger] r@[i]).inner_name)
                && ds@[j].description == Some(r@[i].display_name) && ds@[j].is_monitor == r@[i].is_monitor,
        (server_default, devices) matches (Some(_), Some(ds)) ==> forall|j: int|
            0 <= j < ds@.len() && (#[trigger] ds@[j]).name is Some && ds@[j].description is Some ==> exists|i: int|
                0 <= i < r@.len() && Some((#[trigger] r@[i]).inner_name) == ds@[j].name
                    && Some(r@[i].display_name) == ds@[j].description,
        server_default matches Some(default_source) ==> forall|i: int, k: int|
            0 <= i < k < r@.len() && !(default_source matches Some(dn) && (#[trigger] r@[i]).inner_name@ == dn@)
                ==> !(default_source matches Some(dn) && (#[trigger] r@[k]).inner_name@ == dn@),
        server_default matches Some(default_source) ==> forall|i: int, k: int|
            0 <= i < k < r@.len() && !(default_source matches Some(dn) && (#[trigger] r@[i]).inner_name@ == dn@)
                && r@[i].is_monitor ==> (#[trigger] r@[k]).is_monitor,
{
    let (default_source, devices) = match (server_default, devices) {
        (Some(d), Some(ds)) => (d, ds),
        _ => return Vec::new(),
    };
    let mut defaults: Vec<DeviceListItem> = Vec::new();
    let mut plain: Vec<DeviceListItem> = Vec::new();
    let mut monitors: Vec<DeviceListItem> = Vec::new();
    let mut i: usize = 0;
    while i < devices.len()
        invariant
            i <= devices@.len(),
            (defaults@, plain@, monitors@) == sort_devices(devices@.take(i as int), default_source),
        decreases devices.len() - i,
    {
        let d = &devices[i];
        assert(devices@.take(i + 1).drop_last() =~= devices@.take(i as int));
        assert(devices@.take(i + 1).last() == devices@[i as int]);
        match (&d.name, &d.description) {
            (Some(name), Some(desc)) => {
                let is_default = match &default_source {
                    Some(dn) => *name == *dn,
                    None => false,
                };
                if is_default {
                    defaults.insert(0, DeviceListItem {
                        inner_name: name.clone(),
                        display_name: desc.clone(),
                        is_monitor: d.is_monitor,
                    });
                    assert(defaults@ =~= seq![device_item(devices@[i as int], devices@[i as int].is_monitor)] + sort_devices(devices@.take(i as int), default_source).0);
                } else if d.is_monitor {
                    monitors.push(DeviceListItem {
                        inner_name: name.clone(),
                        display_name: desc.clone(),
                        is_monitor: true,
                    });
                } else {
                    plain.push(DeviceListItem {
                        inner_name: name.clone(),
                        display_name: desc.clone(),
                        is_monitor: false,
                    });
                }
            },
            _ => {},
        }
        i = i + 1;
    }
    assert(devices@.take(devices@.len() as int) =~= devices@);
    defaults.append(&mut plain);
    defaults.append(&mut monitors);
    proof {
        device_list_shows_each_device(devices@, default_source);
    }
    defaults
}

/// The property text by which the program's own streams are recognised.
pub open spec fn own_process_property(pid: u32) -> Seq<char> {
    "process.id = \""@ + decimal(pid as nat) + "\""@
}

fn own_process_property_string(pid: u32) -> (r: String)
    ensures
        r@ == own_process_property(pid),
{
    let mut r = String::from_str("process.id = \"");
    let digits = decimal_string(pid);
    r.append(digits.as_str());
    r.append("\"");
    r
}

/// The lower-case property text of an application stream ("" where there is
/// none).
pub open spec fn app_properties(a: SinkApp) -> Seq<char> {
    match a.proplist {
        Some(p) => lowercase(p@),
        None => lowercase(Seq::empty()),
    }
}

/// The stream is the program's own: its property text names the program or
/// its process.
pub open spec fn is_own_stream(a: SinkApp, pid: u32) -> bool {
    has_substring(app_properties(a), "songrec"@) || has_substring(app_properties(a), own_process_property(pid))
}

/// The display name of an entry: the stream's name, or "Unknown Application".
pub open spec fn app_display_name(a: SinkApp) -> Seq<char> {
    match a.name {
        Some(n) => n@,
        None => "Unknown Application"@,
    }
}

/// The applications offered for capture: every stream but the program's own
/// (`pid` is the program's process id), in order; `None` (the streams could
/// not be listed) gives none.
pub fn app_list(apps: Option<Vec<SinkApp>>, pid: u32) -> (r: Vec<AppListItem>)
    ensures
        match apps {
            None => r@.len() == 0,
            Some(apps) => {
                let kept = apps@.filter(|a: SinkApp| !is_own_stream(a, pid));
                &&& r@.len() == kept.len()
                &&& forall|i: int| 0 <= i < r@.len() ==> (#[trigger] r@[i]).index == kept[i].index
                    && r@[i].display_name@ == app_display_name(kept[i])
            },
        },
{
    let apps = match apps {
        Some(a) => a,
        None => return Vec::new(),
    };
    let ghost keep = |a: SinkApp| !is_own_stream(a, pid);
    let own = own_process_property_string(pid);
    let mut r: Vec<AppListItem> = Vec::new();
    let mut i: usize = 0;
    assert(apps@.take(0).filter(keep) =~= Seq::<SinkApp>::empty()) by {
        reveal_with_fuel(Seq::<_>::filter, 1);
    }
    while i < apps.len()
        invariant
            i <= apps@.len(),
            own@ == own_process_property(pid),
            keep == (|a: SinkApp| !is_own_stream(a, pid)),
            r@.len() == apps@.take(i as int).filter(keep).len(),
            forall|k: int| 0 <= k < r@.len() ==> (#[trigger] r@[k]).index == apps@.take(i as int).filter(keep)[k].index
                && r@[k].display_name@ == app_display_name(apps@.take(i as int).filter(keep)[k]),
        decreases apps.len() - i,
    {
        let a = &apps[i];
        proof {
            reveal_with_fuel(Seq::<_>::filter, 1);
            assert(apps@.take(i + 1).drop_last() =~= apps@.take(i as int));
            assert(apps@.take(i + 1).last() == apps@[i as int]);
        }
        let props = match &a.proplist {
            Some(p) => to_lowercase(p.as_str()),
            None => to_lowercase(""),
        };
        proof {
            assert(""@ =~= Seq::<char>::empty()) by {
                reveal_strlit("");
            }
        }
        let skip = contains_str(props.as_str(), "songrec") || contains_str(props.as_str(), own.as_str());
        if !skip {
            let display_name = match &a.name {
                Some(n) => n.clone(),
                None => String::from_str("Unknown Application"),
            };
            r.push(AppListItem { index: a.index, display_name });
        }
        i = i + 1;
    }
    assert(apps@.take(apps@.len() as int) =~= apps@);
    r
}

/// The first application whose property text contains `criterion`.
pub open spec fn first_app_matching(apps: Seq<SinkApp>, criterion: Seq<char>) -> Option<u32>
    decreases apps.len(),
{
    if apps.len() == 0 {
        None
    } else if has_substring(app_properties(apps[0]), criterion) {
        Some(apps[0].index)
    } else {
        first_app_matching(apps.drop_first(), criterion)
    }
}

/// The criteria by which the program's own stream is looked for, most
/// telling first.
pub open spec fn own_stream_criteria(pid: u32) -> Seq<Seq<char>> {
    seq![own_process_property(pid), "alsa plug-in [songrec]"@, "songrec"@, decimal(pid as nat)]
}

/// The stream found by the first criterion that finds one.
pub open spec fn first_criterion_match(apps: Seq<SinkApp>, criteria: Seq<Seq<char>>) -> Option<u32>
    decreases criteria.len(),
{
    if criteria.len() == 0 {
        None
    } else {
        match first_app_matching(apps, criteria[0]) {
            Some(i) => Some(i),
            None => first_criterion_match(apps, criteria.drop_first()),
        }
    }
}

fn first_app_matching_exec(apps: &Vec<SinkApp>, criterion: &str) -> (r: Option<u32>)
    ensures
        r == first_app_matching(apps@, criterion@),
{
    let mut i: usize = 0;
    assert(apps@.skip(0) =~= apps@);
    while i < apps.len()
        invariant
            i <= apps@.len(),
            first_app_matching(apps@, criterion@) == first_app_matching(apps@.skip(i as int), criterion@),
        decreases apps.len() - i,
    {
        let a = &apps[i];
        assert(apps@.skip(i as int).drop_first() =~= apps@.skip(i + 1));
        assert(apps@.skip(i as int)[0] == apps@[i as int]);
        let props = match &a.proplist {
            Some(p) => to_lowercase(p.as_str()),
            None => to_lowercase(""),
        };
        proof {
            assert(""@ =~= Seq::<char>::empty()) by {
                reveal_strlit("");
            }
        }
        if contains_str(props.as_str(), criterion) {
            return Some(a.index);
        }
        i = i + 1;
    }
    None
}

/// The index of the program's own stream among the application streams
/// (`pid` is the program's process id): the first criterion of
/// `own_stream_criteria` that some stream's property text contains decides,
/// and the first such stream is taken.
pub fn own_stream_index(apps: &Vec<SinkApp>, pid: u32) -> (r: Option<u32>)
    ensures
        r == first_criterion_match(apps@, own_stream_criteria(pid)),
{
    let c0 = own_process_property_string(pid);
    let c3 = decimal_string(pid);
    let ghost crits = own_stream_criteria(pid);
    assert(crits.drop_first() =~= seq!["alsa plug-in [songrec]"@, "songrec"@, decimal(pid as nat)]);
    assert(crits.drop_first().drop_first() =~= seq!["songrec"@, decimal(pid as nat)]);
    assert(crits.drop_first().drop_first().drop_first() =~= seq![decimal(pid as nat)]);
    assert(crits.drop_first().drop_first().drop_first().drop_first() =~= Seq::<Seq<char>>::empty());
    reveal_with_fuel(first_criterion_match, 5);
    if let Some(i) = first_app_matching_exec(apps, c0.as_str()) {
        return Some(i);
    }
    if let Some(i) = first_app_matching_exec(apps, "alsa plug-in [songrec]") {
        return Some(i);
    }
    if let Some(i) = first_app_matching_exec(apps, "songrec") {
        return Some(i);
    }
    first_app_matching_exec(apps, c3.as_str())
}

/// Some listed device has this name.
pub open spec fn has_device_named(devices: Seq<SourceDevice>, name: Seq<char>) -> bool {
    exists|i: int| 0 <= i < devices.len() && ((#[trigger] devices[i]).name matches Some(n) && n@ == name)
}

/// The stream to move to the chosen device: the program's own stream, where
/// it was found and some source has the chosen name.
pub fn stream_to_move(devices: &Vec<SourceDevice>, inner_name: &str, own_stream: Option<u32>) -> (r: Option<u32>)
    ensures
        r == (if has_device_named(devices@, inner_name@) { own_stream } else { None }),
{
    let own = match own_stream {
        Some(i) => i,
        None => return None,
    };
    let mut i: usize = 0;
    while i < devices.len()
        invariant
            i <= devices@.len(),
            own_stream == Some(own),
            forall|k: int| 0 <= k < i ==> !((#[trigger] devices@[k]).name matches Some(n) && n@ == inner_name@),
        decreases devices.len() - i,
    {
        match &devices[i].name {
            Some(n) => {
                if crate::json::string_eq_str(n, inner_name) {
                    assert(devices@[i as int].name matches Some(n) && n@ == inner_name@);
                    return Some(own);
                }
            },
            None => {},
        }
        i = i + 1;
    }
    None
}

} // verus!
