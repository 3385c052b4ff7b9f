//! Recognition of known device families and the channel layouts they advertise.
//!
//! A stream is attributed to a family by looking for the family's name in the stream's
//! source identifier and display name, without regard to case. Families are tried in a
//! fixed order and the first that fits wins. A recognised family contributes its electrode
//! names to the leading channels; all other channels are numbered.

use crate::text::{contains, decimal, decimal_string, lowercase, occurs_in, to_lowercase};
use vstd::prelude::*;

verus! {

/// A family of acquisition devices.
#[derive(Clone, Copy, Debug, PartialEq, Eq, Structural)]
pub enum DeviceFamily {
    /// g.tec Unicorn Hybrid Black.
    Unicorn,
    /// OpenBCI Cyton boards.
    OpenBci,
    /// Emotiv EPOC+.
    Emotiv,
    /// NeuroSky MindWave.
    NeuroSky,
    /// InteraXon Muse.
    Muse,
    /// Any other device.
    Unknown,
}

/// Whether a source identifier or display name mentions `word`.
pub open spec fn mentions(source_id: Seq<char>, name: Seq<char>, word: Seq<char>) -> bool {
    occurs_in(word, source_id) || occurs_in(word, name)
}

/// The family of a stream whose source identifier and display name, both already in
/// lowercase, are the given ones. The families are tried in the order in which they are
/// written here, and the bare display name `123` stands for a Unicorn device.
pub open spec fn spec_family_of(source_id: Seq<char>, name: Seq<char>) -> DeviceFamily {
    if mentions(source_id, name, "unicorn"@) || name == "123"@ {
        DeviceFamily::Unicorn
    } else if mentions(source_id, name, "openbci"@) {
        DeviceFamily::OpenBci
    } else if mentions(source_id, name, "emotiv"@) {
        DeviceFamily::Emotiv
    } else if mentions(source_id, name, "neurosky"@) {
        DeviceFamily::NeuroSky
    } else if mentions(source_id, name, "muse"@) {
        DeviceFamily::Muse
    } else {
        DeviceFamily::Unknown
    }
}

/// The family of a stream with the given source identifier and display name, without
/// regard to case.
pub open spec fn spec_family(source_id: Seq<char>, name: Seq<char>) -> DeviceFamily {
    spec_family_of(lowercase(source_id), lowercase(name))
}

/// Channel names of the Unicorn Hybrid Black: eight electrodes, then the motion, battery
/// and bookkeeping channels.
pub open spec fn unicorn_layout() -> Seq<Seq<char>> {
    seq![
        "Fz"@,
        "C3"@,
        "Cz"@,
        "C4"@,
        "Pz"@,
        "PO7"@,
        "Oz"@,
        "PO8"@,
        "ACC_X"@,
        "ACC_Y"@,
        "ACC_Z"@,
        "GYR_X"@,
        "GYR_Y"@,
        "GYR_Z"@,
        "Battery"@,
        "Counter"@,
        "Validation"@,
    ]
}

/// Electrode names of an OpenBCI board with up to eight channels.
pub open spec fn openbci_small_layout() -> Seq<Seq<char>> {
    seq!["Fp1"@, "Fp2"@, "C3"@, "C4"@, "P7"@, "P8"@, "O1"@, "O2"@]
}

/// Electrode names of an OpenBCI board with more than eight channels.
pub open spec fn openbci_large_layout() -> Seq<Seq<char>> {
    seq![
        "Fp1"@,
        "Fp2"@,
        "F7"@,
        "F3"@,
        "F4"@,
        "F8"@,
        "C3"@,
        "Cz"@,
        "C4"@,
        "T7"@,
        "T8"@,
        "P7"@,
        "P3"@,
        "Pz"@,
        "P4"@,
        "P8"@,
    ]
}

/// Electrode names of the Emotiv EPOC+.
pub open spec fn emotiv_layout() -> Seq<Seq<char>> {
    seq![
        "AF3"@,
        "F7"@,
        "F3"@,
        "FC5"@,
        "T7"@,
        "P7"@,
        "O1"@,
        "O2"@,
        "P8"@,
        "T8"@,
        "FC6"@,
        "F4"@,
        "F8"@,
        "AF4"@,
    ]
}

/// The channel names that `family` contributes to a stream of `channel_count` channels,
/// in channel order. Families without a known layout contribute none.
pub open spec fn layout(family: DeviceFamily, channel_count: nat) -> Seq<Seq<char>> {
    match family {
        DeviceFamily::Unicorn => unicorn_layout(),
        DeviceFamily::OpenBci => if channel_count <= 8 {
            openbci_small_layout()
        } else {
            openbci_large_layout()
        },
        DeviceFamily::Emotiv => emotiv_layout(),
        _ => Seq::empty(),
    }
}

/// The generic name of the channel at `index`: `Ch` followed by the channel's number,
/// counted from one.
pub open spec fn numbered_name(index: nat) -> Seq<char> {
    "Ch"@ + decimal(index + 1)
}

/// The name of the channel at `index` in a stream of `channel_count` channels from a
/// device of `family`.
pub open spec fn spec_channel_name(family: DeviceFamily, channel_count: nat, index: nat) -> Seq<
    char,
> {
    let known = layout(family, channel_count);
    if index < known.len() {
        known[index as int]
    } else {
        numbered_name(index)
    }
}

/// The manufacturer of the devices of `family`.
pub open spec fn spec_manufacturer(family: DeviceFamily) -> Seq<char> {
    match family {
        DeviceFamily::Unicorn => "g.tec medical engineering GmbH"@,
        DeviceFamily::OpenBci => "OpenBCI"@,
        DeviceFamily::Emotiv => "Emotiv Inc."@,
        DeviceFamily::NeuroSky => "NeuroSky"@,
        DeviceFamily::Muse => "InteraXon"@,
        DeviceFamily::Unknown => "Unknown Manufacturer"@,
    }
}

/// The model name of the devices of `family`.
pub open spec fn spec_model(family: DeviceFamily) -> Seq<char> {
    match family {
        DeviceFamily::Unicorn => "Unicorn Hybrid Black"@,
        DeviceFamily::OpenBci => "Cyton Board"@,
        DeviceFamily::Emotiv => "EPOC+"@,
        DeviceFamily::NeuroSky => "MindWave"@,
        DeviceFamily::Muse => "Muse Headband"@,
        DeviceFamily::Unknown => "EEG Device"@,
    }
}

/// Whether a source identifier or display name mentions `word`.
fn mentioned(source_id: &str, name: &str, word: &str) -> (found: bool)
    ensures
        found == mentions(source_id@, name@, word@),
{
    contains(source_id, word) || contains(name, word)
}

/// Attributes a stream to a device family by its source identifier and display name,
/// both already in lowercase.
pub fn family_of(source_id: &str, name: &str) -> (family: DeviceFamily)
    ensures
        family == spec_family_of(source_id@, name@),
{
    if mentioned(source_id, name, "unicorn") || name.to_owned() == "123".to_owned() {
        DeviceFamily::Unicorn
    } else if mentioned(source_id, name, "openbci") {
        DeviceFamily::OpenBci
    } else if mentioned(source_id, name, "emotiv") {
        DeviceFamily::Emotiv
    } else if mentioned(source_id, name, "neurosky") {
        DeviceFamily::NeuroSky
    } else if mentioned(source_id, name, "muse") {
        DeviceFamily::Muse
    } else {
        DeviceFamily::Unknown
    }
}

/// Attributes a stream to a device family by its source identifier and display name,
/// without regard to case.
pub fn detect_family(source_id: &str, name: &str) -> (family: DeviceFamily)
    ensures
        family == spec_family(source_id@, name@),
{
    let source_id = to_lowercase(source_id);
    let name = to_lowercase(name);
    family_of(source_id.as_str(), name.as_str())
}

/// The number of channel names that `family` contributes to a stream of `channel_count`
/// channels.
fn layout_len(family: DeviceFamily, channel_count: usize) -> (len: usize)
    ensures
        len == layout(family, channel_count as nat).len(),
{
    match family {
        DeviceFamily::Unicorn => 17,
        DeviceFamily::OpenBci => if channel_count <= 8 {
            8
        } else {
            16
        },
        DeviceFamily::Emotiv => 14,
        _ => 0,
    }
}

/// The name that `family` gives to the channel at `index`, which lies within the family's
/// layout.
fn layout_name(family: DeviceFamily, channel_count: usize, index: usize) -> (name: &'static str)
    requires
        index < layout(family, channel_count as nat).len(),
    ensures
        name@ == layout(family, channel_count as nat)[index as int],
{
    match family {
        DeviceFamily::Unicorn => {
            let names: [&'static str; 17] = [
                "Fz",
                "C3",
                "Cz",
                "C4",
                "Pz",
                "PO7",
                "Oz",
                "PO8",
                "ACC_X",
                "ACC_Y",
                "ACC_Z",
                "GYR_X",
                "GYR_Y",
                "GYR_Z",
                "Battery",
                "Counter",
                "Validation",
            ];
            names[index]
        },
        DeviceFamily::OpenBci => {
            if channel_count <= 8 {
                let names: [&'static str; 8] = ["Fp1", "Fp2", "C3", "C4", "P7", "P8", "O1", "O2"];
                names[index]
            } else {
                let names: [&'static str; 16] = [
                    "Fp1",
                    "Fp2",
                    "F7",
                    "F3",
                    "F4",
                    "F8",
                    "C3",
                    "Cz",
                    "C4",
                    "T7",
                    "T8",
                    "P7",
                    "P3",
                    "Pz",
                    "P4",
                    "P8",
                ];
                names[index]
            }
        },
        DeviceFamily::Emotiv => {
            let names: [&'static str; 14] = [
                "AF3",
                "F7",
                "F3",
                "FC5",
                "T7",
                "P7",
                "O1",
                "O2",
                "P8",
                "T8",
                "FC6",
                "F4",
                "F8",
                "AF4",
            ];
            names[index]
        },
        DeviceFamily::NeuroSky | DeviceFamily::Muse | DeviceFamily::Unknown => "",
    }
}

/// Names the channels of a stream of `channel_count` channels from a device of `family`:
/// the family's own names as far as they reach, numbered names after them.
pub fn channel_names(family: DeviceFamily, channel_count: usize) -> (names: Vec<String>)
    ensures
        names@.len() == channel_count,
        forall|i: int|
            0 <= i < channel_count ==> (#[trigger] names@[i])@ == spec_channel_name(
                family,
                channel_count as nat,
                i as nat,
            ),
{
    let known: usize = layout_len(family, channel_count);
    let mut names: Vec<String> = Vec::new();
    let mut index: usize = 0;
    while index < channel_count
        invariant
            index <= channel_count,
            known == layout(family, channel_count as nat).len(),
            names@.len() == index,
            forall|i: int|
                0 <= i < index ==> (#[trigger] names@[i])@ == spec_channel_name(
                    family,
                    channel_count as nat,
                    i as nat,
                ),
        decreases channel_count - index,
    {
        if index < known {
            names.push(layout_name(family, channel_count, index).to_owned());
        } else {
            let mut name = "Ch".to_owned();
            let number = decimal_string((index + 1) as u64);
            name.append(number.as_str());
            names.push(name);
        }
        index += 1;
    }
    names
}

/// The manufacturer and the model of the devices of `family`, in this order.
pub fn device_info(family: DeviceFamily) -> (info: (String, String))
    ensures
        info.0@ == spec_manufacturer(family),
        info.1@ == spec_model(family),
{
    match family {
        DeviceFamily::Unicorn => (
            "g.tec medical engineering GmbH".to_owned(),
            "Unicorn Hybrid Black".to_owned(),
        ),
        DeviceFamily::OpenBci => ("OpenBCI".to_owned(), "Cyton Board".to_owned()),
        DeviceFamily::Emotiv => ("Emotiv Inc.".to_owned(), "EPOC+".to_owned()),
        DeviceFamily::NeuroSky => ("NeuroSky".to_owned(), "MindWave".to_owned()),
        DeviceFamily::Muse => ("InteraXon".to_owned(), "Muse Headband".to_owned()),
        DeviceFamily::Unknown => ("Unknown Manufacturer".to_owned(), "EEG Device".to_owned()),
    }
}

} // verus!
