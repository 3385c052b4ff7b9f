//! Matching a requested stream name against the advertised streams, and describing the
//! stream that was chosen.
//!
//! Discovery itself, and opening an inlet, are the caller's business. What is decided here
//! is which of the discovered candidates a name refers to, what the connection is reported
//! as, and what is reported when there is nothing to connect to.

use crate::device::{
    channel_names, detect_family, device_info, spec_channel_name, spec_family, spec_manufacturer,
    spec_model, DeviceFamily,
};
use crate::text::{
    contains, decimal, decimal_string, digit_text, join, joined, lowercase, occurs_in,
    to_lowercase, views,
};
use vstd::prelude::*;

verus! {

/// One advertised stream, as found by discovery.
pub struct Candidate {
    /// The name the stream is displayed under.
    pub name: String,
    /// The category of the stream's content.
    pub stream_type: String,
    /// The identifier of the device or program that provides the stream.
    pub source_id: String,
    /// The number of channels per sample.
    pub channel_count: usize,
    /// The nominal sampling rate, in millihertz.
    pub sample_rate: u64,
}

/// What a connected stream is reported as.
pub struct StreamDescriptor {
    /// The name the stream is displayed under.
    pub name: String,
    /// The number of channels per sample.
    pub channel_count: usize,
    /// The nominal sampling rate, in millihertz.
    pub sample_rate: u64,
    /// Whether the descriptor stands for a live connection.
    pub is_connected: bool,
    /// A one-line summary of the stream for display.
    pub metadata: String,
    /// The category of the stream's content.
    pub stream_type: String,
    /// The identifier of the device or program that provides the stream.
    pub source_id: String,
    /// The name of each channel, in channel order.
    pub channel_names: Vec<String>,
    /// The manufacturer of the device.
    pub manufacturer: String,
    /// The model of the device.
    pub device_model: String,
}

/// What a lookup is made for.
#[derive(Clone, Copy, Debug, PartialEq, Eq, Structural)]
pub enum Lookup {
    /// Choosing the stream to connect to. A request that names a device family also
    /// matches any stream of that family.
    Connect,
    /// Finding the connected stream again in order to pull from it.
    Pull,
}

/// Why a connection could not be made.
pub enum ConnectError {
    /// Discovery failed or found no stream at all.
    Discovery {
        /// What went wrong.
        reason: String,
    },
    /// Streams were found, but none of them matches the requested name.
    NoMatch {
        /// The name that was asked for.
        target: String,
        /// One line for each stream that was found.
        available: Vec<String>,
    },
    /// The matching stream could not be opened.
    Inlet {
        /// The name that was asked for.
        target: String,
        /// What went wrong.
        reason: String,
    },
}

/// The candidate chosen for a connection, and its description.
pub struct Selection {
    /// The position of the chosen candidate among those discovered.
    pub index: usize,
    /// What the connection will be reported as.
    pub descriptor: StreamDescriptor,
}

/// The texts of a stream that a request is matched against, in lowercase.
pub struct LoweredNames {
    /// The stream's display name in lowercase.
    pub name: String,
    /// The stream's source identifier in lowercase.
    pub source_id: String,
}

/// Whether a request matches a stream, all three texts already in lowercase. A request
/// matches when it equals the stream's name, when it occurs in the source identifier or
/// in the name, when it is the bare identifier `123` of a Unicorn device, or, on
/// connecting, when both the request and the stream mention the Unicorn family.
pub open spec fn matches_lowered(
    target: Seq<char>,
    name: Seq<char>,
    source_id: Seq<char>,
    lookup: Lookup,
) -> bool {
    ||| name == target
    ||| occurs_in(target, source_id)
    ||| occurs_in(target, name)
    ||| (target == "123"@ && (name == "123"@ || occurs_in("unicorn"@, source_id)))
    ||| (lookup == Lookup::Connect && occurs_in("unicorn"@, target) && (occurs_in(
        "unicorn"@,
        name,
    ) || occurs_in("unicorn"@, source_id)))
}

/// Whether the request `target` matches `candidate`, without regard to case.
pub open spec fn spec_matches(target: Seq<char>, candidate: Candidate, lookup: Lookup) -> bool {
    matches_lowered(
        lowercase(target),
        lowercase(candidate.name@),
        lowercase(candidate.source_id@),
        lookup,
    )
}

/// Whether `found` is the position of the first of `names` that `target` matches, all
/// texts already in lowercase, or nothing when `target` matches none of them.
pub open spec fn first_among(
    target: Seq<char>,
    names: Seq<LoweredNames>,
    lookup: Lookup,
    found: Option<usize>,
) -> bool {
    match found {
        Some(index) => {
            &&& index < names.len()
            &&& matches_lowered(
                target,
                names[index as int].name@,
                names[index as int].source_id@,
                lookup,
            )
            &&& forall|earlier: int|
                0 <= earlier < index ==> !matches_lowered(
                    target,
                    (#[trigger] names[earlier]).name@,
                    names[earlier].source_id@,
                    lookup,
                )
        },
        None => forall|any: int|
            0 <= any < names.len() ==> !matches_lowered(
                target,
                (#[trigger] names[any]).name@,
                names[any].source_id@,
                lookup,
            ),
    }
}

/// Whether `names` holds, in order, the display name and the source identifier of each
/// of `candidates` in lowercase.
pub open spec fn lowered_from(names: Seq<LoweredNames>, candidates: Seq<Candidate>) -> bool {
    &&& names.len() == candidates.len()
    &&& forall|i: int|
        0 <= i < candidates.len() ==> {
            &&& (#[trigger] names[i]).name@ == lowercase(candidates[i].name@)
            &&& names[i].source_id@ == lowercase(candidates[i].source_id@)
        }
}

/// Whether `found` is the position of the first of `candidates` that `target` matches
/// without regard to case, or nothing when `target` matches none of them.
pub open spec fn first_match(
    target: Seq<char>,
    candidates: Seq<Candidate>,
    lookup: Lookup,
    found: Option<usize>,
) -> bool {
    match found {
        Some(index) => {
            &&& index < candidates.len()
            &&& spec_matches(target, candidates[index as int], lookup)
            &&& forall|earlier: int|
                0 <= earlier < index ==> !spec_matches(
                    target,
                    #[trigger] candidates[earlier],
                    lookup,
                )
        },
        None => forall|any: int|
            0 <= any < candidates.len() ==> !spec_matches(
                target,
                #[trigger] candidates[any],
                lookup,
            ),
    }
}

/// Decides whether a request matches a stream, given the request, the stream's display
/// name and its source identifier, all three already in lowercase.
pub fn request_matches(
    target: &str,
    name: &str,
    source_id: &str,
    lookup: Lookup,
) -> (matched: bool)
    ensures
        matched == matches_lowered(target@, name@, source_id@, lookup),
{
    let wanted = target.to_owned();
    let named = name.to_owned();
    if named == wanted {
        return true;
    }
    if contains(source_id, target) {
        return true;
    }
    if contains(name, target) {
        return true;
    }
    let bare = "123".to_owned();
    if wanted == bare && (named == bare || contains(source_id, "unicorn")) {
        return true;
    }
    match lookup {
        Lookup::Connect => contains(target, "unicorn") && (contains(name, "unicorn") || contains(
            source_id,
            "unicorn",
        )),
        Lookup::Pull => false,
    }
}

/// Finds the first of `names` that `target` matches, all texts already in lowercase.
pub fn find_among(target: &str, names: &Vec<LoweredNames>, lookup: Lookup) -> (found: Option<
    usize,
>)
    ensures
        first_among(target@, names@, lookup, found),
{
    let mut index: usize = 0;
    while index < names.len()
        invariant
            index <= names@.len(),
            forall|earlier: int|
                0 <= earlier < index ==> !matches_lowered(
                    target@,
                    (#[trigger] names@[earlier]).name@,
                    names@[earlier].source_id@,
                    lookup,
                ),
        decreases names@.len() - index,
    {
        if request_matches(
            target,
            names[index].name.as_str(),
            names[index].source_id.as_str(),
            lookup,
        ) {
            return Some(index);
        }
        index += 1;
    }
    None
}

/// The display name and the source identifier of each candidate in lowercase.
fn lowered_names(candidates: &Vec<Candidate>) -> (names: Vec<LoweredNames>)
    ensures
        lowered_from(names@, candidates@),
{
    let mut names: Vec<LoweredNames> = Vec::new();
    let mut index: usize = 0;
    while index < candidates.len()
        invariant
            index <= candidates@.len(),
            names@.len() == index,
            forall|i: int|
                0 <= i < index ==> {
                    &&& (#[trigger] names@[i]).name@ == lowercase(candidates@[i].name@)
                    &&& names@[i].source_id@ == lowercase(candidates@[i].source_id@)
                },
        decreases candidates@.len() - index,
    {
        names.push(
            LoweredNames {
                name: to_lowercase(candidates[index].name.as_str()),
                source_id: to_lowercase(candidates[index].source_id.as_str()),
            },
        );
        index += 1;
    }
    names
}

/// Matching among lowercased names is matching among the candidates they came from.
pub proof fn lemma_first_among_is_first_match(
    target: Seq<char>,
    candidates: Seq<Candidate>,
    names: Seq<LoweredNames>,
    lookup: Lookup,
    found: Option<usize>,
)
    requires
        lowered_from(names, candidates),
        first_among(lowercase(target), names, lookup, found),
    ensures
        first_match(target, candidates, lookup, found),
{
    match found {
        Some(index) => {
            assert(names[index as int].name@ == lowercase(candidates[index as int].name@));
            assert forall|earlier: int| 0 <= earlier < index implies !spec_matches(
                target,
                #[trigger] candidates[earlier],
                lookup,
            ) by {
                assert(names[earlier].name@ == lowercase(candidates[earlier].name@));
            }
        },
        None => {
            assert forall|any: int| 0 <= any < candidates.len() implies !spec_matches(
                target,
                #[trigger] candidates[any],
                lookup,
            ) by {
                assert(names[any].name@ == lowercase(candidates[any].name@));
            }
        },
    }
}

/// Finds the stream that `target` refers to: the first of `candidates`, in the order in
/// which discovery reported them, that the request matches without regard to case.
pub fn find_stream(target: &str, candidates: &Vec<Candidate>, lookup: Lookup) -> (found: Option<
    usize,
>)
    ensures
        first_match(target@, candidates@, lookup, found),
{
    let lowered = to_lowercase(target);
    let names = lowered_names(candidates);
    let found = find_among(lowered.as_str(), &names, lookup);
    proof {
        lemma_first_among_is_first_match(target@, candidates@, names@, lookup, found);
    }
    found
}

/// A rate in millihertz as text in hertz with one decimal, rounded to the nearest tenth
/// with halves rounded up.
pub open spec fn rate_text(rate: nat) -> Seq<char> {
    let tenths = (rate + 50) / 100;
    decimal(tenths / 10) + "."@ + digit_text(tenths % 10)
}

/// The summary line of a stream from a device of `family`.
pub open spec fn spec_metadata(candidate: Candidate, family: DeviceFamily) -> Seq<char> {
    "🔴 REAL LSL DATA - Type: "@ + candidate.stream_type@ + " | Source: "@ + candidate.source_id@
        + " | Channels: "@ + decimal(candidate.channel_count as nat) + " | Rate: "@ + rate_text(
        candidate.sample_rate as nat,
    ) + " Hz | Manufacturer: "@ + spec_manufacturer(family) + " | Model: "@ + spec_model(family)
}

/// Whether `descriptor` is the description of a live connection to `candidate`, a stream
/// from a device of `family`.
pub open spec fn describes_as(
    descriptor: StreamDescriptor,
    candidate: Candidate,
    family: DeviceFamily,
) -> bool {
    &&& descriptor.name@ == candidate.name@
    &&& descriptor.channel_count == candidate.channel_count
    &&& descriptor.sample_rate == candidate.sample_rate
    &&& descriptor.is_connected
    &&& descriptor.metadata@ == spec_metadata(candidate, family)
    &&& descriptor.stream_type@ == candidate.stream_type@
    &&& descriptor.source_id@ == candidate.source_id@
    &&& descriptor.channel_names@.len() == candidate.channel_count
    &&& forall|i: int|
        0 <= i < candidate.channel_count ==> (#[trigger] descriptor.channel_names@[i])@
            == spec_channel_name(family, candidate.channel_count as nat, i as nat)
    &&& descriptor.manufacturer@ == spec_manufacturer(family)
    &&& descriptor.device_model@ == spec_model(family)
}

/// Whether `descriptor` is the description of a live connection to `candidate`, with the
/// device family found from the candidate's source identifier and display name.
pub open spec fn describes(descriptor: StreamDescriptor, candidate: Candidate) -> bool {
    describes_as(descriptor, candidate, spec_family(candidate.source_id@, candidate.name@))
}

/// Writes a rate given in millihertz as hertz with one decimal.
fn rate_string(rate: u64) -> (text: String)
    ensures
        text@ == rate_text(rate as nat),
{
    let carry: u64 = if rate % 100 >= 50 {
        1
    } else {
        0
    };
    let tenths: u64 = rate / 100 + carry;
    let mut text = decimal_string(tenths / 10);
    text.append(".");
    text.append(decimal_string(tenths % 10).as_str());
    text
}

/// Describes a live connection to `candidate`, a stream from a device of `family`: what
/// the stream advertises of itself, the channel names and the device details of the
/// family, and a summary line.
pub fn describe_as(candidate: &Candidate, family: DeviceFamily) -> (descriptor: StreamDescriptor)
    ensures
        describes_as(descriptor, *candidate, family),
{
    let names = channel_names(family, candidate.channel_count);
    let (manufacturer, device_model) = device_info(family);
    let mut metadata = "🔴 REAL LSL DATA - Type: ".to_owned();
    metadata.append(candidate.stream_type.as_str());
    metadata.append(" | Source: ");
    metadata.append(candidate.source_id.as_str());
    metadata.append(" | Channels: ");
    metadata.append(decimal_string(candidate.channel_count as u64).as_str());
    metadata.append(" | Rate: ");
    metadata.append(rate_string(candidate.sample_rate).as_str());
    metadata.append(" Hz | Manufacturer: ");
    metadata.append(manufacturer.as_str());
    metadata.append(" | Model: ");
    metadata.append(device_model.as_str());
    StreamDescriptor {
        name: candidate.name.clone(),
        channel_count: candidate.channel_count,
        sample_rate: candidate.sample_rate,
        is_connected: true,
        metadata,
        stream_type: candidate.stream_type.clone(),
        source_id: candidate.source_id.clone(),
        channel_names: names,
        manufacturer,
        device_model,
    }
}

/// Describes a live connection to `candidate`, with the device family found from the
/// candidate's source identifier and display name.
pub fn describe(candidate: &Candidate) -> (descriptor: StreamDescriptor)
    ensures
        describes(descriptor, *candidate),
{
    let family = detect_family(candidate.source_id.as_str(), candidate.name.as_str());
    describe_as(candidate, family)
}

/// The line that stands for `candidate` in the list of streams that were found.
pub open spec fn spec_listing(candidate: Candidate) -> Seq<char> {
    "'"@ + candidate.name@ + "' (type: "@ + candidate.stream_type@ + ", source: "@
        + candidate.source_id@ + ")"@
}

/// Writes the line that stands for `candidate` in the list of streams that were found.
fn listing(candidate: &Candidate) -> (line: String)
    ensures
        line@ == spec_listing(*candidate),
{
    let mut line = "'".to_owned();
    line.append(candidate.name.as_str());
    line.append("' (type: ");
    line.append(candidate.stream_type.as_str());
    line.append(", source: ");
    line.append(candidate.source_id.as_str());
    line.append(")");
    line
}

/// Writes one line for each of `candidates`, in their order.
fn listings(candidates: &Vec<Candidate>) -> (lines: Vec<String>)
    ensures
        lines@.len() == candidates@.len(),
        forall|i: int|
            0 <= i < candidates@.len() ==> (#[trigger] lines@[i])@ == spec_listing(candidates@[i]),
{
    let mut lines: Vec<String> = Vec::new();
    let mut index: usize = 0;
    while index < candidates.len()
        invariant
            index <= candidates@.len(),
            lines@.len() == index,
            forall|i: int|
                0 <= i < index ==> (#[trigger] lines@[i])@ == spec_listing(candidates@[i]),
        decreases candidates@.len() - index,
    {
        lines.push(listing(&candidates[index]));
        index += 1;
    }
    lines
}

/// Whether `outcome` is the right answer to a request for `target` among `candidates`:
/// a discovery error when nothing was found, the first matching candidate with its
/// description when there is one, and otherwise an error that names the request and lists
/// every candidate.
pub open spec fn selects(
    target: Seq<char>,
    candidates: Seq<Candidate>,
    outcome: Result<Selection, ConnectError>,
) -> bool {
    match outcome {
        Ok(selection) => {
            &&& first_match(target, candidates, Lookup::Connect, Some(selection.index))
            &&& describes(selection.descriptor, candidates[selection.index as int])
        },
        Err(ConnectError::Discovery { reason }) => {
            &&& candidates.len() == 0
            &&& reason@ == "no streams were found"@
        },
        Err(ConnectError::NoMatch { target: asked, available }) => {
            &&& candidates.len() > 0
            &&& first_match(target, candidates, Lookup::Connect, None)
            &&& asked@ == target
            &&& available@.len() == candidates.len()
            &&& forall|i: int|
                0 <= i < candidates.len() ==> (#[trigger] available@[i])@ == spec_listing(
                    candidates[i],
                )
        },
        Err(ConnectError::Inlet { .. }) => false,
    }
}

/// Chooses the stream to connect to among those that discovery found.
pub fn select_stream(target: &str, candidates: &Vec<Candidate>) -> (outcome: Result<
    Selection,
    ConnectError,
>)
    ensures
        selects(target@, candidates@, outcome),
{
    if candidates.len() == 0 {
        return Err(ConnectError::Discovery { reason: "no streams were found".to_owned() });
    }
    match find_stream(target, candidates, Lookup::Connect) {
        Some(index) => Ok(Selection { index, descriptor: describe(&candidates[index]) }),
        None => Err(
            ConnectError::NoMatch { target: target.to_owned(), available: listings(candidates) },
        ),
    }
}

impl ConnectError {
    /// The text of the error.
    pub open spec fn spec_message(&self) -> Seq<char> {
        match self {
            ConnectError::Discovery { reason } => "❌ Failed to resolve LSL streams: "@ + reason@
                + ". Make sure your EEG device is connected and streaming via LSL."@,
            ConnectError::NoMatch { target, available } => "❌ No LSL stream found with name: '"@
                + target@ + "'. Available streams: "@ + joined(views(available@), ", "@),
            ConnectError::Inlet { target, reason } => "❌ Failed to create inlet for LSL stream '"@
                + target@ + "': "@ + reason@,
        }
    }

    /// Writes the error as one line of text for the user.
    pub fn message(&self) -> (text: String)
        ensures
            text@ == self.spec_message(),
    {
        match self {
            ConnectError::Discovery { reason } => {
                let mut text = "❌ Failed to resolve LSL streams: ".to_owned();
                text.append(reason.as_str());
                text.append(". Make sure your EEG device is connected and streaming via LSL.");
                text
            },
            ConnectError::NoMatch { target, available } => {
                let mut text = "❌ No LSL stream found with name: '".to_owned();
                text.append(target.as_str());
                text.append("'. Available streams: ");
                text.append(join(available, ", ").as_str());
                text
            },
            ConnectError::Inlet { target, reason } => {
                let mut text = "❌ Failed to create inlet for LSL stream '".to_owned();
                text.append(target.as_str());
                text.append("': ");
                text.append(reason.as_str());
                text
            },
        }
    }
}

/// A pulled sample fitted to `channel_count` channels: values beyond the channel count
/// are dropped, and channels without a value receive `fill`.
pub open spec fn fitted<T>(values: Seq<T>, channel_count: nat, fill: T) -> Seq<T> {
    Seq::new(
        channel_count,
        |ch: int|
            if ch < values.len() {
                values[ch]
            } else {
                fill
            },
    )
}

/// Fits the values of a pulled sample to the known number of channels.
pub fn fit_channels<T: Copy>(values: &Vec<T>, channel_count: usize, fill: T) -> (channels: Vec<T>)
    ensures
        channels@ == fitted(values@, channel_count as nat, fill),
{
    let mut channels: Vec<T> = Vec::new();
    let mut ch: usize = 0;
    while ch < channel_count
        invariant
            ch <= channel_count,
            channels@.len() == ch,
            forall|i: int|
                0 <= i < ch ==> channels@[i] == (if i < values@.len() {
                    values@[i]
                } else {
                    fill
                }),
        decreases channel_count - ch,
    {
        if ch < values.len() {
            channels.push(values[ch]);
        } else {
            channels.push(fill);
        }
        ch += 1;
    }
    assert(channels@ =~= fitted(values@, channel_count as nat, fill));
    channels
}

} // verus!
