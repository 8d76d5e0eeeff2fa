//! Sample devices of the pre-join panel, until the browser's devices are listed.

use vstd::prelude::*;

verus! {

/// A kind of media device, one per panel tab.
#[derive(Clone, Copy, Debug, PartialEq, Eq)]
pub enum DeviceKind {
    Input,
    Output,
    Camera,
}

impl DeviceKind {
    /// The tab's title.
    pub fn title(self) -> (r: &'static str)
        ensures
            r@ == match self {
                DeviceKind::Input => "Microphone"@,
                DeviceKind::Output => "Speakers"@,
                DeviceKind::Camera => "Camera"@,
            },
    {
        match self {
            DeviceKind::Input => "Microphone",
            DeviceKind::Output => "Speakers",
            DeviceKind::Camera => "Camera",
        }
    }

    /// The tab's navigation label.
    pub fn nav_label(self) -> (r: &'static str)
        ensures
            r@ == match self {
                DeviceKind::Input => "INPUT"@,
                DeviceKind::Output => "OUTPUT"@,
                DeviceKind::Camera => "CAMERA"@,
            },
    {
        match self {
            DeviceKind::Input => "INPUT",
            DeviceKind::Output => "OUTPUT",
            DeviceKind::Camera => "CAMERA",
        }
    }
}

/// A device row: its id for selection and its label for display.
#[derive(Clone, Copy, Debug, PartialEq, Eq)]
pub struct DeviceEntry {
    pub id: &'static str,
    pub label: &'static str,
}

/// The device rows of each tab.
#[derive(Clone, Debug, PartialEq, Eq)]
pub struct DeviceCatalog {
    pub inputs: Vec<DeviceEntry>,
    pub outputs: Vec<DeviceEntry>,
    pub cameras: Vec<DeviceEntry>,
}

/// The rows as (id, label) texts.
pub open spec fn rows(entries: Seq<DeviceEntry>) -> Seq<(Seq<char>, Seq<char>)> {
    entries.map_values(|e: DeviceEntry| (e.id@, e.label@))
}

/// The sample devices: three microphones, three speakers and two cameras, the
/// first of each being the default.
pub fn stub_device_catalog() -> (r: DeviceCatalog)
    ensures
        rows(r.inputs@) == seq![
            ("mic-default"@, "USB Microphone (Default)"@),
            ("mic-realtek"@, "Realtek HD Audio Input"@),
            ("mic-virtual"@, "Virtual Cable"@),
        ],
        rows(r.outputs@) == seq![
            ("spk-default"@, "Headphones (Default)"@),
            ("spk-hd"@, "Speakers (High Definition)"@),
            ("spk-bt"@, "Bluetooth Hands-Free"@),
        ],
        rows(r.cameras@) == seq![
            ("cam-integrated"@, "Integrated Webcam"@),
            ("cam-obs"@, "OBS Virtual Camera"@),
        ],
{
    let inputs = vec![
        DeviceEntry { id: "mic-default", label: "USB Microphone (Default)" },
        DeviceEntry { id: "mic-realtek", label: "Realtek HD Audio Input" },
        DeviceEntry { id: "mic-virtual", label: "Virtual Cable" },
    ];
    let outputs = vec![
        DeviceEntry { id: "spk-default", label: "Headphones (Default)" },
        DeviceEntry { id: "spk-hd", label: "Speakers (High Definition)" },
        DeviceEntry { id: "spk-bt", label: "Bluetooth Hands-Free" },
    ];
    let cameras = vec![
        DeviceEntry { id: "cam-integrated", label: "Integrated Webcam" },
        DeviceEntry { id: "cam-obs", label: "OBS Virtual Camera" },
    ];
    let r = DeviceCatalog { inputs, outputs, cameras };
    assert(rows(r.inputs@) =~= seq![
        ("mic-default"@, "USB Microphone (Default)"@),
        ("mic-realtek"@, "Realtek HD Audio Input"@),
        ("mic-virtual"@, "Virtual Cable"@),
    ]);
    assert(rows(r.outputs@) =~= seq![
        ("spk-default"@, "Headphones (Default)"@),
        ("spk-hd"@, "Speakers (High Definition)"@),
        ("spk-bt"@, "Bluetooth Hands-Free"@),
    ]);
    assert(rows(r.cameras@) =~= seq![("cam-integrated"@, "Integrated Webcam"@), ("cam-obs"@, "OBS Virtual Camera"@)]);
    r
}

} // verus!
