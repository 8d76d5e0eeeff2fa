//! Device lists of the settings panel: grouping the browser's devices by kind and
//! naming those the browser gives no label.

use vstd::prelude::*;
use crate::decimal::{decimal, decimal_string};
use crate::text::str_eq;

verus! {

/// A kind of media device, one per panel tab.
#[derive(Clone, Copy, Debug, PartialEq, Eq)]
pub enum DeviceKind {
    Input,
    Output,
    Camera,
}

impl DeviceKind {
    /// The tab's title.
    pub fn title(self) -> (r: &'static str)
        ensures
            r@ == match self {
                DeviceKind::Input => "Microphone"@,
                DeviceKind::Output => "Speakers"@,
                DeviceKind::Camera => "Camera"@,
            },
    {
        match self {
            DeviceKind::Input => "Microphone",
            DeviceKind::Output => "Speakers",
            DeviceKind::Camera => "Camera",
        }
    }

    /// The tab's navigation label.
    pub fn nav_label(self) -> (r: &'static str)
        ensures
            r@ == match self {
                DeviceKind::Input => "INPUT"@,
                DeviceKind::Output => "OUTPUT"@,
                DeviceKind::Camera => "CAMERA"@,
            },
    {
        match self {
            DeviceKind::Input => "INPUT",
            DeviceKind::Output => "OUTPUT",
            DeviceKind::Camera => "CAMERA",
        }
    }
}

/// A device row: its id for selection and its label for display.
#[derive(Clone, Debug, PartialEq, Eq)]
pub struct DeviceEntry {
    pub id: String,
    pub label: String,
}

/// The device rows of each tab.
#[derive(Clone, Debug, PartialEq, Eq)]
pub struct DeviceCatalog {
    pub inputs: Vec<DeviceEntry>,
    pub outputs: Vec<DeviceEntry>,
    pub cameras: Vec<DeviceEntry>,
}

impl Default for DeviceCatalog {
    /// No devices.
    fn default() -> (r: Self)
        ensures
            r.inputs@.len() == 0 && r.outputs@.len() == 0 && r.cameras@.len() == 0,
    {
        DeviceCatalog { inputs: Vec::new(), outputs: Vec::new(), cameras: Vec::new() }
    }
}

pub const AUDIO_INPUT: &'static str = "audioinput";
pub const AUDIO_OUTPUT: &'static str = "audiooutput";
pub const VIDEO_INPUT: &'static str = "videoinput";

/// The rows as (id, label) texts.
pub open spec fn rows(entries: Seq<DeviceEntry>) -> Seq<(Seq<char>, Seq<char>)> {
    entries.map_values(|e: DeviceEntry| (e.id@, e.label@))
}

/// The number of rows of the tab that devices of `kind` go to; zero for other kinds.
pub open spec fn spec_len_for_kind(
    groups: (Seq<(Seq<char>, Seq<char>)>, Seq<(Seq<char>, Seq<char>)>, Seq<(Seq<char>, Seq<char>)>),
    kind: Seq<char>,
) -> nat {
    if kind == AUDIO_INPUT@ {
        groups.0.len()
    } else if kind == AUDIO_OUTPUT@ {
        groups.1.len()
    } else if kind == VIDEO_INPUT@ {
        groups.2.len()
    } else {
        0
    }
}

/// The number of rows of the tab that devices of `kind` go to.
pub fn catalog_len_for_kind(catalog: &DeviceCatalog, kind: &str) -> (r: usize)
    ensures
        r == spec_len_for_kind((rows(catalog.inputs@), rows(catalog.outputs@), rows(catalog.cameras@)), kind@),
{
    if str_eq(kind, AUDIO_INPUT) {
        catalog.inputs.len()
    } else if str_eq(kind, AUDIO_OUTPUT) {
        catalog.outputs.len()
    } else if str_eq(kind, VIDEO_INPUT) {
        catalog.cameras.len()
    } else {
        0
    }
}

/// The label of the `index`-th unlabelled device of a kind: `Microphone n`,
/// `Speaker n`, `Camera n`, or `Device n` for other kinds.
pub open spec fn spec_default_label(kind: Seq<char>, index: nat) -> Seq<char> {
    (if kind == AUDIO_INPUT@ {
        "Microphone "@
    } else if kind == AUDIO_OUTPUT@ {
        "Speaker "@
    } else if kind == VIDEO_INPUT@ {
        "Camera "@
    } else {
        "Device "@
    }) + decimal(index)
}

/// The label shown for a device the browser gives no label.
pub fn default_label(kind: &str, index: usize) -> (r: String)
    ensures
        r@ == spec_default_label(kind@, index as nat),
{
    let prefix = if str_eq(kind, AUDIO_INPUT) {
        "Microphone "
    } else if str_eq(kind, AUDIO_OUTPUT) {
        "Speaker "
    } else if str_eq(kind, VIDEO_INPUT) {
        "Camera "
    } else {
        "Device "
    };
    String::from_str(prefix).concat(decimal_string(index as u64).as_str())
}

/// The browser's devices as (kind, id, label) texts.
pub open spec fn devices_view(devices: Seq<(String, String, String)>) -> Seq<(Seq<char>, Seq<char>, Seq<char>)> {
    devices.map_values(|d: (String, String, String)| (d.0@, d.1@, d.2@))
}

/// The tabs built from the browser's devices in order: devices without an id are
/// skipped; an unlabelled device is named by its kind and its place in its tab;
/// microphones, speakers and cameras go to their tabs and other kinds nowhere.
pub open spec fn spec_catalog(devices: Seq<(Seq<char>, Seq<char>, Seq<char>)>) -> (
    Seq<(Seq<char>, Seq<char>)>,
    Seq<(Seq<char>, Seq<char>)>,
    Seq<(Seq<char>, Seq<char>)>,
)
    decreases devices.len(),
{
    if devices.len() == 0 {
        (Seq::empty(), Seq::empty(), Seq::empty())
    } else {
        let groups = spec_catalog(devices.drop_last());
        let (kind, id, label) = devices.last();
        if id.len() == 0 {
            groups
        } else {
            let shown = if label.len() == 0 {
                spec_default_label(kind, spec_len_for_kind(groups, kind) + 1)
            } else {
                label
            };
            if kind == AUDIO_INPUT@ {
                (groups.0.push((id, shown)), groups.1, groups.2)
            } else if kind == AUDIO_OUTPUT@ {
                (groups.0, groups.1.push((id, shown)), groups.2)
            } else if kind == VIDEO_INPUT@ {
                (groups.0, groups.1, groups.2.push((id, shown)))
            } else {
                groups
            }
        }
    }
}

/// Groups the browser's devices (kind, id, label) into the panel's tabs.
pub fn catalog_from_devices(devices: &Vec<(String, String, String)>) -> (r: DeviceCatalog)
    ensures
        (rows(r.inputs@), rows(r.outputs@), rows(r.cameras@)) == spec_catalog(devices_view(devices@)),
{
    let ghost dv = devices_view(devices@);
    let mut catalog = DeviceCatalog { inputs: Vec::new(), outputs: Vec::new(), cameras: Vec::new() };
    let mut i: usize = 0;
    proof {
        assert(dv.take(0) =~= Seq::<(Seq<char>, Seq<char>, Seq<char>)>::empty());
        assert(rows(catalog.inputs@) =~= Seq::<(Seq<char>, Seq<char>)>::empty());
        assert(rows(catalog.outputs@) =~= Seq::<(Seq<char>, Seq<char>)>::empty());
        assert(rows(catalog.cameras@) =~= Seq::<(Seq<char>, Seq<char>)>::empty());
    }
    while i < devices.len()
        invariant
            dv == devices_view(devices@),
            i <= devices@.len(),
            (rows(catalog.inputs@), rows(catalog.outputs@), rows(catalog.cameras@)) == spec_catalog(dv.take(i as int)),
            catalog.inputs@.len() <= i && catalog.outputs@.len() <= i && catalog.cameras@.len() <= i,
        decreases devices.len() - i,
    {
        let kind = devices[i].0.as_str();
        let id = devices[i].1.as_str();
        let label = devices[i].2.as_str();
        proof {
            assert(dv.take(i + 1).drop_last() =~= dv.take(i as int));
            assert(dv.take(i + 1).last() == (kind@, id@, label@));
        }
        if id.unicode_len() > 0 {
            let shown = if label.unicode_len() == 0 {
                let n = catalog_len_for_kind(&catalog, kind);
                default_label(kind, n + 1)
            } else {
                String::from_str(label)
            };
            let entry = DeviceEntry { id: String::from_str(id), label: shown };
            let ghost before = (catalog.inputs@, catalog.outputs@, catalog.cameras@);
            if str_eq(kind, AUDIO_INPUT) {
                catalog.inputs.push(entry);
                assert(rows(catalog.inputs@) =~= rows(before.0).push((id@, shown@)));
            } else if str_eq(kind, AUDIO_OUTPUT) {
                catalog.outputs.push(entry);
                assert(rows(catalog.outputs@) =~= rows(before.1).push((id@, shown@)));
            } else if str_eq(kind, VIDEO_INPUT) {
                catalog.cameras.push(entry);
                assert(rows(catalog.cameras@) =~= rows(before.2).push((id@, shown@)));
            }
        }
        i = i + 1;
    }
    proof {
        assert(dv.take(devices@.len() as int) =~= dv);
    }
    catalog
}

} // verus!
