//! Reading what the system says about its GPUs: the names of the DRM cards,
//! the PCI ids, the PCI id database, the bus address and the device nodes.
//! The files are read elsewhere; their contents are read here.

use vstd::prelude::*;
use vstd::slice::slice_subrange;
use vstd::string::*;
use crate::gpu::{vendor_of_pci_id, GPUInfo, GPUInfoView, GPUVendor};
use crate::text::{
    chars_of, contains_text, find_char, find_in, gap, has_prefix, lemma_gap, lowercase,
    occurs_in, parse_hex_u16, parsed_hex_u16, starts_with, strip_prefixes, strip_trailing,
    text_of, texts, to_lowercase, trim_back, trim_end, trim_end_matches, trim_front, trim_start,
    trim_start_matches,
};

verus! {

/// Why the scan of the GPUs was given up.
#[derive(Clone, Copy, Debug, PartialEq, Eq, Structural)]
pub enum GpuScanError {
    /// The pattern for card names is no valid regular expression.
    InvalidPattern,
    /// A card's vendor id is no hexadecimal number of 16 bits.
    InvalidVendorId,
    /// A card's `uevent` names no PCI slot.
    MissingSlotName,
}

/// What matching `text` against the regular expression `pattern` gives:
/// nothing where the pattern is invalid; otherwise whether it matches, and
/// then what its first group took.
pub uninterp spec fn first_capture(pattern: Seq<char>, text: Seq<char>) -> Option<
    Option<Seq<char>>,
>;

/// The plain value of a capture.
pub open spec fn capture_view(res: Option<Option<String>>) -> Option<Option<Seq<char>>> {
    match res {
        None => None,
        Some(None) => Some(None),
        Some(Some(s)) => Some(Some(s@)),
    }
}

/// `regex::Regex::new` and `Regex::captures`, with the first group of the
/// leftmost match copied out. The contract gives the result its name,
/// `first_capture`, and claims nothing else of it.
#[verifier::external_body]
fn regex_first_capture(pattern: &str, text: &str) -> (res: Option<Option<String>>)
    ensures
        capture_view(res) == first_capture(pattern@, text@),
{
    match regex::Regex::new(pattern) {
        Err(_) => None,
        Ok(re) => Some(re.captures(text).and_then(|c| c.get(1)).map(|m| m.as_str().to_owned())),
    }
}

/// The pattern that the names of DRM cards follow: `card` and a number.
pub fn card_pattern() -> (pattern: &'static str)
    ensures
        pattern@ == "^card(\\d+)$"@,
{
    "^card(\\d+)$"
}

/// What the capture of a card's number comes to.
pub fn minor_of_capture(capture: Option<Option<String>>) -> (res: Result<
    Option<String>,
    GpuScanError,
>)
    ensures
        res == match capture {
            None => Err::<Option<String>, GpuScanError>(GpuScanError::InvalidPattern),
            Some(minor) => Ok::<Option<String>, GpuScanError>(minor),
        },
{
    match capture {
        None => Err(GpuScanError::InvalidPattern),
        Some(minor) => Ok(minor),
    }
}

/// The number of a DRM card, where `name` is the name of one.
pub fn card_minor(name: &str) -> (res: Result<Option<String>, GpuScanError>)
    ensures
        match first_capture("^card(\\d+)$"@, name@) {
            None => res == Err::<Option<String>, GpuScanError>(GpuScanError::InvalidPattern),
            Some(None) => res == Ok::<Option<String>, GpuScanError>(None),
            Some(Some(minor)) => match res {
                Ok(Some(text)) => text@ == minor,
                _ => false,
            },
        },
{
    minor_of_capture(regex_first_capture(card_pattern(), name))
}

/// A PCI id as sysfs prints it, without the `0x` in front and the line end
/// behind.
pub open spec fn cleaned_id(text: Seq<char>) -> Seq<char> {
    strip_trailing(strip_prefixes(text, "0x"@), '\n')
}

/// Strips a PCI id as sysfs prints it.
pub fn clean_id(text: &str) -> (id: String)
    ensures
        id@ == cleaned_id(text@),
{
    let chars = chars_of(text);
    let prefix = chars_of("0x");
    let stripped = trim_end_matches(trim_start_matches(chars.as_slice(), prefix.as_slice()), '\n');
    text_of(stripped)
}

/// Reads the vendor id of a card from the contents of its `vendor` file.
pub fn parse_vendor_id(text: &str) -> (res: Result<u16, GpuScanError>)
    ensures
        res == match parsed_hex_u16(cleaned_id(text@)) {
            Some(id) => Ok::<u16, GpuScanError>(id),
            None => Err::<u16, GpuScanError>(GpuScanError::InvalidVendorId),
        },
{
    let id = clean_id(text);
    match parse_hex_u16(id.as_str()) {
        Some(value) => Ok(value),
        None => Err(GpuScanError::InvalidVendorId),
    }
}

/// The line that starts at `from`, without its line end: the characters up
/// to the next line feed, less a carriage return right before it. A last
/// line that no line feed ends is taken whole.
pub open spec fn line_at(data: Seq<char>, from: int) -> Seq<char> {
    let stop = from + gap(data, '\n', from);
    let raw = data.subrange(from, stop);
    if stop < data.len() && raw.len() > 0 && raw.last() == '\r' {
        raw.drop_last()
    } else {
        raw
    }
}

/// Where the line after the one at `from` starts.
pub open spec fn next_line(data: Seq<char>, from: int) -> int {
    from + gap(data, '\n', from) + 1
}

/// A line cut at its first space: what stands before it and what stands
/// after it. A line without a space cannot be cut.
pub open spec fn cut_at_space(line: Seq<char>) -> Option<(Seq<char>, Seq<char>)> {
    let at = find_char(line, ' ', 0);
    if at >= line.len() {
        None
    } else {
        Some((line.subrange(0, at), line.subrange(at + 1, line.len() as int)))
    }
}

/// What a line of the PCI id database does to a lookup.
pub enum PciStep {
    /// The line names the device that is looked for.
    Found(Seq<char>),
    /// The lookup goes on, inside the block of this vendor.
    Go(Seq<char>),
}

/// What `line` does to the lookup of `device` of `vendor`, inside the block
/// of the vendor `current`. Empty lines and comments change nothing. A line
/// that does not start with a tab or a space opens the block of the vendor
/// whose id stands before its first space. An indented line names a device:
/// its id up to the first space, its name after it.
pub open spec fn pci_step(
    line: Seq<char>,
    vendor: Seq<char>,
    device: Seq<char>,
    current: Seq<char>,
) -> PciStep {
    if line.len() == 0 || line[0] == '#' {
        PciStep::Go(current)
    } else if line[0] != '\t' && line[0] != ' ' {
        match cut_at_space(line) {
            Some((id, _)) => PciStep::Go(lowercase(id)),
            None => PciStep::Go(current),
        }
    } else {
        match cut_at_space(trim_front(line)) {
            Some((id, name)) => if lowercase(id) == device && current == vendor {
                PciStep::Found(trim_back(trim_front(name)))
            } else {
                PciStep::Go(current)
            },
            None => PciStep::Go(current),
        }
    }
}

/// The name of a device in the PCI id database, looked up line by line from
/// the line at `from` on, with `current` the vendor whose block that line
/// stands in.
pub open spec fn pci_lookup(
    data: Seq<char>,
    vendor: Seq<char>,
    device: Seq<char>,
    from: int,
    current: Seq<char>,
) -> Option<Seq<char>>
    decreases data.len() - from,
{
    if from < 0 || from >= data.len() {
        None
    } else {
        match pci_step(line_at(data, from), vendor, device, current) {
            PciStep::Found(name) => Some(name),
            PciStep::Go(block) => if next_line(data, from) >= data.len() {
                None
            } else {
                pci_lookup(data, vendor, device, next_line(data, from), block)
            },
        }
    }
}

/// The line that starts at `from` and the place of its line feed.
fn line_from(data: &[char], from: usize) -> (res: (&[char], usize))
    requires
        from < data@.len(),
    ensures
        res.0@ == line_at(data@, from as int),
        res.1 == from + gap(data@, '\n', from as int),
        res.1 <= data@.len(),
{
    let stop = find_in(data, '\n', from);
    proof {
        lemma_gap(data@, '\n', from as int);
    }
    if stop < data.len() && stop > from && data[stop - 1] == '\r' {
        let line = slice_subrange(data, from, stop - 1);
        assert(data@.subrange(from as int, stop as int).drop_last() =~= line@);
        (line, stop)
    } else {
        (slice_subrange(data, from, stop), stop)
    }
}

/// Cuts a line at its first space.
fn cut_line(line: &[char]) -> (res: Option<(&[char], &[char])>)
    ensures
        match res {
            Some((head, tail)) => cut_at_space(line@) == Some((head@, tail@)),
            None => cut_at_space(line@) is None,
        },
{
    let at = find_in(line, ' ', 0);
    if at >= line.len() {
        None
    } else {
        Some((slice_subrange(line, 0, at), slice_subrange(line, at + 1, line.len())))
    }
}

/// Looks up the name of a device in the PCI id database. The ids are
/// compared without regard to case.
pub fn parse_pci_ids(pci_data: &str, vendor_id: &str, device_id: &str) -> (res: Option<String>)
    ensures
        match res {
            Some(name) => pci_lookup(
                pci_data@,
                lowercase(vendor_id@),
                lowercase(device_id@),
                0,
                Seq::<char>::empty(),
            ) == Some(name@),
            None => pci_lookup(
                pci_data@,
                lowercase(vendor_id@),
                lowercase(device_id@),
                0,
                Seq::<char>::empty(),
            ) is None,
        },
{
    let data = chars_of(pci_data);
    let vendor = to_lowercase(vendor_id);
    let device = to_lowercase(device_id);
    let mut current = String::new();
    let mut from: usize = 0;
    while from < data.len()
        invariant
            data@ == pci_data@,
            vendor@ == lowercase(vendor_id@),
            device@ == lowercase(device_id@),
            pci_lookup(data@, vendor@, device@, 0, Seq::<char>::empty()) == pci_lookup(
                data@,
                vendor@,
                device@,
                from as int,
                current@,
            ),
        decreases data@.len() - from,
    {
        let (line, stop) = line_from(data.as_slice(), from);
        if line.len() == 0 || line[0] == '#' {
        } else if line[0] != '\t' && line[0] != ' ' {
            match cut_line(line) {
                Some((id, _)) => {
                    current = to_lowercase(text_of(id).as_str());
                },
                None => {},
            }
        } else {
            match cut_line(trim_start(line)) {
                Some((id, name)) => {
                    let lower = to_lowercase(text_of(id).as_str());
                    if lower == device && current == vendor {
                        return Some(text_of(trim_end(trim_start(name))));
                    }
                },
                None => {},
            }
        }
        if stop >= data.len() {
            return None;
        }
        from = stop + 1;
    }
    None
}

/// The PCI slot that a `uevent` names, looked up from the line at `from`
/// on: what follows `PCI_SLOT_NAME=` on the first line that starts so.
pub open spec fn slot_name_from(data: Seq<char>, from: int) -> Option<Seq<char>>
    decreases data.len() - from,
{
    if from < 0 || from >= data.len() {
        None
    } else {
        let line = line_at(data, from);
        if has_prefix(line, "PCI_SLOT_NAME="@) {
            Some(strip_prefixes(line, "PCI_SLOT_NAME="@))
        } else if next_line(data, from) >= data.len() {
            None
        } else {
            slot_name_from(data, next_line(data, from))
        }
    }
}

/// Reads the PCI slot of a card from the contents of its `uevent` file.
pub fn pci_slot_name(uevent: &str) -> (res: Result<String, GpuScanError>)
    ensures
        match res {
            Ok(name) => slot_name_from(uevent@, 0) == Some(name@),
            Err(e) => e == GpuScanError::MissingSlotName && slot_name_from(uevent@, 0) is None,
        },
{
    let data = chars_of(uevent);
    let key = chars_of("PCI_SLOT_NAME=");
    let mut from: usize = 0;
    while from < data.len()
        invariant
            data@ == uevent@,
            key@ == "PCI_SLOT_NAME="@,
            slot_name_from(data@, 0) == slot_name_from(data@, from as int),
        decreases data@.len() - from,
    {
        let (line, stop) = line_from(data.as_slice(), from);
        if starts_with(line, key.as_slice()) {
            return Ok(text_of(trim_start_matches(line, key.as_slice())));
        }
        if stop >= data.len() {
            return Err(GpuScanError::MissingSlotName);
        }
        from = stop + 1;
    }
    Err(GpuScanError::MissingSlotName)
}

/// The device nodes found so far among the entries of a `drm` directory.
pub struct DriNodes {
    pub card: Option<Seq<char>>,
    pub render: Option<Seq<char>>,
}

/// The device nodes after the listed entries have been looked at in order.
/// An entry named `card..` gives the card node and one named `renderD..`
/// the render node, both under `/dev/dri/`; once both are found the rest is
/// not looked at.
pub open spec fn dri_nodes(names: Seq<Seq<char>>) -> DriNodes
    decreases names.len(),
{
    if names.len() == 0 {
        DriNodes { card: None, render: None }
    } else {
        let before = dri_nodes(names.drop_last());
        let name = names.last();
        if before.card is Some && before.render is Some {
            before
        } else if has_prefix(name, "card"@) {
            DriNodes { card: Some("/dev/dri/"@ + name), render: before.render }
        } else if has_prefix(name, "renderD"@) {
            DriNodes { card: before.card, render: Some("/dev/dri/"@ + name) }
        } else {
            before
        }
    }
}

/// What a PCI device's directory holds for the scan.
#[derive(Clone, Debug, PartialEq, Eq)]
pub struct PciDevice {
    /// The path of the device's directory.
    pub path: String,
    /// The names in its `drm` directory, or `None` where that cannot be
    /// listed.
    pub drm_entries: Option<Vec<String>>,
}

/// The text of a node, or the empty text.
pub open spec fn node_text(node: Option<Seq<char>>) -> Seq<char> {
    match node {
        Some(path) => path,
        None => Seq::<char>::empty(),
    }
}

/// The card and render nodes of the device at the bus address `pci_addr`,
/// looked up from the device at `from` on. Devices whose path does not hold
/// the address are passed over. The first one that does and whose `drm`
/// directory cannot be listed ends the search without a result; the first
/// one with a card node gives the result, with an empty render path where
/// it has no render node.
pub open spec fn dri_paths_from(devices: Seq<PciDevice>, pci_addr: Seq<char>, from: int) -> Option<
    (Seq<char>, Seq<char>),
>
    decreases devices.len() - from,
{
    if from < 0 || from >= devices.len() {
        None
    } else if !occurs_in(pci_addr, devices[from].path@) {
        dri_paths_from(devices, pci_addr, from + 1)
    } else {
        match devices[from].drm_entries {
            None => None,
            Some(names) => {
                let nodes = dri_nodes(texts(names@));
                match nodes.card {
                    Some(card) => Some((card, node_text(nodes.render))),
                    None => dri_paths_from(devices, pci_addr, from + 1),
                }
            },
        }
    }
}

/// Picks the card and render nodes among the entries of a `drm` directory.
fn pick_dri_nodes(names: &Vec<String>) -> (res: (Option<String>, Option<String>))
    ensures
        match res.0 {
            Some(card) => dri_nodes(texts(names@)).card == Some(card@),
            None => dri_nodes(texts(names@)).card is None,
        },
        match res.1 {
            Some(render) => dri_nodes(texts(names@)).render == Some(render@),
            None => dri_nodes(texts(names@)).render is None,
        },
{
    let card_key = chars_of("card");
    let render_key = chars_of("renderD");
    let mut card: Option<String> = None;
    let mut render: Option<String> = None;
    let mut i: usize = 0;
    assert(texts(names@).take(0) =~= Seq::<Seq<char>>::empty());
    while i < names.len()
        invariant
            i <= names@.len(),
            card_key@ == "card"@,
            render_key@ == "renderD"@,
            match card {
                Some(c) => dri_nodes(texts(names@).take(i as int)).card == Some(c@),
                None => dri_nodes(texts(names@).take(i as int)).card is None,
            },
            match render {
                Some(r) => dri_nodes(texts(names@).take(i as int)).render == Some(r@),
                None => dri_nodes(texts(names@).take(i as int)).render is None,
            },
        decreases names@.len() - i,
    {
        let ghost next = texts(names@).take(i + 1);
        assert(next.drop_last() =~= texts(names@).take(i as int));
        assert(next.last() == names@[i as int]@);
        if card.is_none() || render.is_none() {
            let name = chars_of(names[i].as_str());
            if starts_with(name.as_slice(), card_key.as_slice()) {
                let mut path = "/dev/dri/".to_owned();
                path.append(names[i].as_str());
                card = Some(path);
            } else if starts_with(name.as_slice(), render_key.as_slice()) {
                let mut path = "/dev/dri/".to_owned();
                path.append(names[i].as_str());
                render = Some(path);
            }
        }
        i += 1;
    }
    assert(texts(names@).take(names@.len() as int) =~= texts(names@));
    (card, render)
}

/// Finds the card and render nodes of the device at a bus address.
pub fn get_dri_device_path(devices: &Vec<PciDevice>, pci_addr: &str) -> (res: Option<
    (String, String),
>)
    ensures
        match res {
            Some((card, render)) => dri_paths_from(devices@, pci_addr@, 0) == Some(
                (card@, render@),
            ),
            None => dri_paths_from(devices@, pci_addr@, 0) is None,
        },
{
    let mut i: usize = 0;
    while i < devices.len()
        invariant
            i <= devices@.len(),
            dri_paths_from(devices@, pci_addr@, 0) == dri_paths_from(
                devices@,
                pci_addr@,
                i as int,
            ),
        decreases devices@.len() - i,
    {
        if contains_text(devices[i].path.as_str(), pci_addr) {
            match &devices[i].drm_entries {
                None => {
                    return None;
                },
                Some(names) => {
                    let (card, render) = pick_dri_nodes(names);
                    match card {
                        Some(card_path) => {
                            let render_path = match render {
                                Some(r) => r,
                                None => String::new(),
                            };
                            return Some((card_path, render_path));
                        },
                        None => {},
                    }
                },
            }
        }
        i += 1;
    }
    None
}

/// The record of a card, put together from what sysfs says of it: the
/// vendor by its id, the device's name from the PCI id database (empty
/// where there is no database or no entry), the bus address from `uevent`,
/// and the device nodes. A card without a card node gives no record.
pub open spec fn scanned_gpu(
    vendor_text: Seq<char>,
    device_text: Seq<char>,
    pci_ids: Option<Seq<char>>,
    uevent: Seq<char>,
    devices: Seq<PciDevice>,
) -> Result<Option<GPUInfoView>, GpuScanError> {
    match parsed_hex_u16(cleaned_id(vendor_text)) {
        None => Err(GpuScanError::InvalidVendorId),
        Some(vendor) => match slot_name_from(uevent, 0) {
            None => Err(GpuScanError::MissingSlotName),
            Some(bus) => match dri_paths_from(devices, bus, 0) {
                None => Ok(None),
                Some((card, render)) => Ok(
                    Some(
                        GPUInfoView {
                            vendor: vendor_of_pci_id(vendor),
                            card_path: card,
                            render_path: render,
                            device_name: match pci_ids {
                                Some(data) => match pci_lookup(
                                    data,
                                    lowercase(cleaned_id(vendor_text)),
                                    lowercase(cleaned_id(device_text)),
                                    0,
                                    Seq::<char>::empty(),
                                ) {
                                    Some(name) => name,
                                    None => Seq::<char>::empty(),
                                },
                                None => Seq::<char>::empty(),
                            },
                            pci_bus_id: bus,
                        },
                    ),
                ),
            },
        },
    }
}

/// Puts the record of a card together from the contents of its sysfs
/// files.
pub fn scan_gpu(
    vendor_text: &str,
    device_text: &str,
    pci_ids: Option<&str>,
    uevent: &str,
    devices: &Vec<PciDevice>,
) -> (res: Result<Option<GPUInfo>, GpuScanError>)
    ensures
        match res {
            Ok(Some(gpu)) => scanned_gpu(
                vendor_text@,
                device_text@,
                match pci_ids {
                    Some(data) => Some(data@),
                    None => None,
                },
                uevent@,
                devices@,
            ) == Ok::<Option<GPUInfoView>, GpuScanError>(Some(gpu@)),
            Ok(None) => scanned_gpu(
                vendor_text@,
                device_text@,
                match pci_ids {
                    Some(data) => Some(data@),
                    None => None,
                },
                uevent@,
                devices@,
            ) == Ok::<Option<GPUInfoView>, GpuScanError>(None),
            Err(e) => scanned_gpu(
                vendor_text@,
                device_text@,
                match pci_ids {
                    Some(data) => Some(data@),
                    None => None,
                },
                uevent@,
                devices@,
            ) == Err::<Option<GPUInfoView>, GpuScanError>(e),
        },
{
    let vendor = match parse_vendor_id(vendor_text) {
        Ok(v) => v,
        Err(e) => {
            return Err(e);
        },
    };
    let vendor_id = clean_id(vendor_text);
    let device_id = clean_id(device_text);
    let device_name = match pci_ids {
        Some(data) => match parse_pci_ids(data, vendor_id.as_str(), device_id.as_str()) {
            Some(name) => name,
            None => String::new(),
        },
        None => String::new(),
    };
    let bus = match pci_slot_name(uevent) {
        Ok(b) => b,
        Err(e) => {
            return Err(e);
        },
    };
    match get_dri_device_path(devices, bus.as_str()) {
        None => Ok(None),
        Some((card, render)) => Ok(
            Some(GPUInfo::new(GPUVendor::from_pci_id(vendor), card, render, device_name, bus)),
        ),
    }
}

} // verus!
