//! GPU records and the filters that pick the GPU to encode on.

use vstd::prelude::*;
use vstd::string::*;
use crate::args::DeviceArgs;
use crate::text::{
    contains_text, eq_ignore_ascii_case, lowercase, occurs_in, same_ignoring_ascii_case,
    same_text, to_lowercase,
};

verus! {

/// The vendor of a GPU, told by its PCI vendor id.
#[allow(non_camel_case_types)]
#[derive(Clone, Copy, Debug, PartialEq, Eq, Hash, Structural)]
pub enum GPUVendor {
    UNKNOWN,
    INTEL,
    NVIDIA,
    AMD,
}

/// The vendor behind a PCI vendor id.
pub open spec fn vendor_of_pci_id(id: u16) -> GPUVendor {
    if id == 0x8086 {
        GPUVendor::INTEL
    } else if id == 0x10de {
        GPUVendor::NVIDIA
    } else if id == 0x1002 {
        GPUVendor::AMD
    } else {
        GPUVendor::UNKNOWN
    }
}

/// The vendor that a lower-cased name stands for.
pub open spec fn vendor_named(lower: Seq<char>) -> GPUVendor {
    if lower == "intel"@ {
        GPUVendor::INTEL
    } else if lower == "nvidia"@ {
        GPUVendor::NVIDIA
    } else if lower == "amd"@ {
        GPUVendor::AMD
    } else {
        GPUVendor::UNKNOWN
    }
}

/// The display name of a vendor.
pub open spec fn vendor_name(vendor: GPUVendor) -> Seq<char> {
    match vendor {
        GPUVendor::INTEL => "Intel"@,
        GPUVendor::NVIDIA => "NVIDIA"@,
        GPUVendor::AMD => "AMD"@,
        GPUVendor::UNKNOWN => "Unknown"@,
    }
}

impl GPUVendor {
    /// The vendor behind a PCI vendor id; ids of other vendors give
    /// `UNKNOWN`.
    pub fn from_pci_id(value: u16) -> (vendor: GPUVendor)
        ensures
            vendor == vendor_of_pci_id(value),
    {
        if value == 0x8086 {
            GPUVendor::INTEL
        } else if value == 0x10de {
            GPUVendor::NVIDIA
        } else if value == 0x1002 {
            GPUVendor::AMD
        } else {
            GPUVendor::UNKNOWN
        }
    }

    /// The vendor that `lower`, a name already in lower case, stands for;
    /// other names give `UNKNOWN`.
    pub fn from_lowercase_name(lower: &str) -> (vendor: GPUVendor)
        ensures
            vendor == vendor_named(lower@),
    {
        if same_text(lower, "intel") {
            GPUVendor::INTEL
        } else if same_text(lower, "nvidia") {
            GPUVendor::NVIDIA
        } else if same_text(lower, "amd") {
            GPUVendor::AMD
        } else {
            GPUVendor::UNKNOWN
        }
    }

    /// The vendor that a name stands for, whatever its case; other names
    /// give `UNKNOWN`.
    pub fn from_name(value: &str) -> (vendor: GPUVendor)
        ensures
            vendor == vendor_named(lowercase(value@)),
    {
        let lower = to_lowercase(value);
        GPUVendor::from_lowercase_name(lower.as_str())
    }

    /// The PCI vendor id of the vendor, 0 for `UNKNOWN`.
    pub fn pci_id(&self) -> (id: u16)
        ensures
            id == match *self {
                GPUVendor::INTEL => 0x8086u16,
                GPUVendor::NVIDIA => 0x10deu16,
                GPUVendor::AMD => 0x1002u16,
                GPUVendor::UNKNOWN => 0u16,
            },
            *self != GPUVendor::UNKNOWN ==> vendor_of_pci_id(id) == *self,
    {
        match self {
            GPUVendor::INTEL => 0x8086,
            GPUVendor::NVIDIA => 0x10de,
            GPUVendor::AMD => 0x1002,
            GPUVendor::UNKNOWN => 0,
        }
    }

    /// The display name of the vendor.
    pub fn as_str(&self) -> (name: &str)
        ensures
            name@ == vendor_name(*self),
    {
        match self {
            GPUVendor::INTEL => "Intel",
            GPUVendor::NVIDIA => "NVIDIA",
            GPUVendor::AMD => "AMD",
            GPUVendor::UNKNOWN => "Unknown",
        }
    }
}

impl From<u16> for GPUVendor {
    fn from(value: u16) -> (vendor: GPUVendor) {
        GPUVendor::from_pci_id(value)
    }
}

impl vstd::std_specs::convert::FromSpecImpl<u16> for GPUVendor {
    open spec fn obeys_from_spec() -> bool {
        true
    }

    open spec fn from_spec(value: u16) -> GPUVendor {
        vendor_of_pci_id(value)
    }
}

impl From<&str> for GPUVendor {
    fn from(value: &str) -> (vendor: GPUVendor) {
        GPUVendor::from_name(value)
    }
}

impl vstd::std_specs::convert::FromSpecImpl<&str> for GPUVendor {
    open spec fn obeys_from_spec() -> bool {
        true
    }

    open spec fn from_spec(value: &str) -> GPUVendor {
        vendor_named(lowercase(value@))
    }
}

impl From<String> for GPUVendor {
    fn from(value: String) -> (vendor: GPUVendor) {
        GPUVendor::from_name(value.as_str())
    }
}

impl vstd::std_specs::convert::FromSpecImpl<String> for GPUVendor {
    open spec fn obeys_from_spec() -> bool {
        true
    }

    open spec fn from_spec(value: String) -> GPUVendor {
        vendor_named(lowercase(value@))
    }
}

/// What a GPU record says, as plain values.
pub struct GPUInfoView {
    pub vendor: GPUVendor,
    pub card_path: Seq<char>,
    pub render_path: Seq<char>,
    pub device_name: Seq<char>,
    pub pci_bus_id: Seq<char>,
}

/// One GPU of the host.
#[derive(Debug, Eq, PartialEq, Hash)]
pub struct GPUInfo {
    vendor: GPUVendor,
    card_path: String,
    render_path: String,
    device_name: String,
    pci_bus_id: String,
}

impl View for GPUInfo {
    type V = GPUInfoView;

    closed spec fn view(&self) -> GPUInfoView {
        GPUInfoView {
            vendor: self.vendor,
            card_path: self.card_path@,
            render_path: self.render_path@,
            device_name: self.device_name@,
            pci_bus_id: self.pci_bus_id@,
        }
    }
}

impl Clone for GPUInfo {
    fn clone(&self) -> (out: Self)
        ensures
            out@ == self@,
    {
        GPUInfo {
            vendor: self.vendor,
            card_path: self.card_path.clone(),
            render_path: self.render_path.clone(),
            device_name: self.device_name.clone(),
            pci_bus_id: self.pci_bus_id.clone(),
        }
    }
}

/// The one-line description of a GPU.
pub open spec fn describe(gpu: GPUInfoView) -> Seq<char> {
    gpu.device_name + " (Vendor: "@ + vendor_name(gpu.vendor) + ", Card Path: "@ + gpu.card_path
        + ", Render Path: "@ + gpu.render_path + ", PCI Bus ID: "@ + gpu.pci_bus_id + ")"@
}

impl GPUInfo {
    /// A record with the given fields.
    pub fn new(
        vendor: GPUVendor,
        card_path: String,
        render_path: String,
        device_name: String,
        pci_bus_id: String,
    ) -> (gpu: GPUInfo)
        ensures
            gpu@ == (GPUInfoView {
                vendor,
                card_path: card_path@,
                render_path: render_path@,
                device_name: device_name@,
                pci_bus_id: pci_bus_id@,
            }),
    {
        GPUInfo { vendor, card_path, render_path, device_name, pci_bus_id }
    }

    pub fn vendor(&self) -> (vendor: &GPUVendor)
        ensures
            *vendor == self@.vendor,
    {
        &self.vendor
    }

    pub fn card_path(&self) -> (path: &str)
        ensures
            path@ == self@.card_path,
    {
        self.card_path.as_str()
    }

    pub fn render_path(&self) -> (path: &str)
        ensures
            path@ == self@.render_path,
    {
        self.render_path.as_str()
    }

    pub fn device_name(&self) -> (name: &str)
        ensures
            name@ == self@.device_name,
    {
        self.device_name.as_str()
    }

    pub fn pci_bus_id(&self) -> (id: &str)
        ensures
            id@ == self@.pci_bus_id,
    {
        self.pci_bus_id.as_str()
    }

    /// The one-line description of the GPU.
    pub fn as_str(&self) -> (text: String)
        ensures
            text@ == describe(self@),
    {
        let mut text = self.device_name.clone();
        text.append(" (Vendor: ");
        text.append(self.vendor.as_str());
        text.append(", Card Path: ");
        text.append(self.card_path.as_str());
        text.append(", Render Path: ");
        text.append(self.render_path.as_str());
        text.append(", PCI Bus ID: ");
        text.append(self.pci_bus_id.as_str());
        text.append(")");
        text
    }
}

/// The views of a run of records.
pub open spec fn views(gpus: Seq<GPUInfo>) -> Seq<GPUInfoView> {
    gpus.map_values(|g: GPUInfo| g@)
}

/// The entries of `gpus` that `keep` holds of, in their order.
pub open spec fn kept(gpus: Seq<GPUInfoView>, keep: spec_fn(GPUInfoView) -> bool) -> Seq<
    GPUInfoView,
>
    decreases gpus.len(),
{
    if gpus.len() == 0 {
        Seq::<GPUInfoView>::empty()
    } else if keep(gpus.last()) {
        kept(gpus.drop_last(), keep).push(gpus.last())
    } else {
        kept(gpus.drop_last(), keep)
    }
}

/// The GPU is named like `target`, a text already in lower case: its name,
/// lower-cased, holds `target`.
pub open spec fn name_holds(gpu: GPUInfoView, target: Seq<char>) -> bool {
    occurs_in(target, lowercase(gpu.device_name))
}

/// The test for the GPUs of a vendor.
pub open spec fn by_vendor(vendor: GPUVendor) -> spec_fn(GPUInfoView) -> bool {
    |g: GPUInfoView| g.vendor == vendor
}

/// The test for the GPUs whose name holds `target`, a text in lower case.
pub open spec fn by_name(target: Seq<char>) -> spec_fn(GPUInfoView) -> bool {
    |g: GPUInfoView| name_holds(g, target)
}

/// The test for the GPUs of a known vendor.
pub open spec fn of_known_vendor() -> spec_fn(GPUInfoView) -> bool {
    |g: GPUInfoView| g.vendor != GPUVendor::UNKNOWN
}

/// The GPU sits at `path`: its card path or its render path is `path`,
/// ASCII case apart.
pub open spec fn sits_at(gpu: GPUInfoView, path: Seq<char>) -> bool {
    same_ignoring_ascii_case(gpu.card_path, path) || same_ignoring_ascii_case(
        gpu.render_path,
        path,
    )
}

/// The first entry of `gpus` that sits at `path`.
pub open spec fn first_at(gpus: Seq<GPUInfoView>, path: Seq<char>) -> Option<GPUInfoView>
    decreases gpus.len(),
{
    if gpus.len() == 0 {
        None
    } else if sits_at(gpus[0], path) {
        Some(gpus[0])
    } else {
        first_at(gpus.drop_first(), path)
    }
}

/// What `kept` keeps: entries of the input that the test holds of.
pub proof fn lemma_kept(gpus: Seq<GPUInfoView>, keep: spec_fn(GPUInfoView) -> bool)
    ensures
        kept(gpus, keep).len() <= gpus.len(),
        forall|i: int|
            0 <= i < kept(gpus, keep).len() ==> keep(#[trigger] kept(gpus, keep)[i])
                && gpus.contains(kept(gpus, keep)[i]),
        forall|i: int|
            0 <= i < gpus.len() && keep(gpus[i]) ==> kept(gpus, keep).contains(
                #[trigger] gpus[i],
            ),
    decreases gpus.len(),
{
    if gpus.len() > 0 {
        let front = gpus.drop_last();
        lemma_kept(front, keep);
        let all = kept(gpus, keep);
        let before = kept(front, keep);
        assert forall|i: int| 0 <= i < all.len() implies keep(#[trigger] all[i]) && gpus.contains(
            all[i],
        ) by {
            if i < before.len() {
                assert(all[i] == before[i]);
                let j = choose|j: int| 0 <= j < front.len() && front[j] == before[i];
                assert(gpus[j] == before[i]);
            } else {
                assert(all[i] == gpus[gpus.len() - 1]);
            }
        }
        assert forall|i: int| 0 <= i < gpus.len() && keep(gpus[i]) implies all.contains(
            #[trigger] gpus[i],
        ) by {
            if i < front.len() {
                assert(front[i] == gpus[i]);
                let j = choose|j: int| 0 <= j < before.len() && before[j] == front[i];
                assert(all[j] == gpus[i]);
            } else {
                assert(all[all.len() - 1] == gpus[i]);
            }
        }
    }
}

/// The GPUs of the given vendor, in their order.
pub fn get_gpus_by_vendor(gpus: &[GPUInfo], vendor: GPUVendor) -> (out: Vec<GPUInfo>)
    ensures
        views(out@) == kept(views(gpus@), by_vendor(vendor)),
{
    let ghost keep = by_vendor(vendor);
    let mut out: Vec<GPUInfo> = Vec::new();
    let mut i: usize = 0;
    assert(views(out@) =~= kept(views(gpus@).take(0), keep));
    while i < gpus.len()
        invariant
            i <= gpus.len(),
            keep == by_vendor(vendor),
            views(out@) == kept(views(gpus@).take(i as int), keep),
        decreases gpus.len() - i,
    {
        let ghost next = views(gpus@).take(i + 1);
        assert(next.drop_last() =~= views(gpus@).take(i as int));
        assert(next.last() == gpus@[i as int]@);
        if gpus[i].vendor == vendor {
            let copy = gpus[i].clone();
            let ghost before = out@;
            out.push(copy);
            assert(views(out@) =~= views(before).push(copy@));
        }
        i += 1;
    }
    assert(views(gpus@).take(gpus.len() as int) =~= views(gpus@));
    out
}

/// The GPUs whose name holds `substring`, case apart, in their order.
pub fn get_gpus_by_device_name(gpus: &[GPUInfo], substring: &str) -> (out: Vec<GPUInfo>)
    ensures
        views(out@) == kept(views(gpus@), by_name(lowercase(substring@))),
{
    let target = to_lowercase(substring);
    let ghost keep = by_name(lowercase(substring@));
    let mut out: Vec<GPUInfo> = Vec::new();
    let mut i: usize = 0;
    assert(views(out@) =~= kept(views(gpus@).take(0), keep));
    while i < gpus.len()
        invariant
            i <= gpus.len(),
            target@ == lowercase(substring@),
            keep == by_name(lowercase(substring@)),
            views(out@) == kept(views(gpus@).take(i as int), keep),
        decreases gpus.len() - i,
    {
        let ghost next = views(gpus@).take(i + 1);
        assert(next.drop_last() =~= views(gpus@).take(i as int));
        assert(next.last() == gpus@[i as int]@);
        let name = to_lowercase(gpus[i].device_name.as_str());
        if contains_text(name.as_str(), target.as_str()) {
            let copy = gpus[i].clone();
            let ghost before = out@;
            out.push(copy);
            assert(views(out@) =~= views(before).push(copy@));
        }
        i += 1;
    }
    assert(views(gpus@).take(gpus.len() as int) =~= views(gpus@));
    out
}

/// The GPUs of a known vendor, in their order.
pub fn get_gpus_of_known_vendor(gpus: &[GPUInfo]) -> (out: Vec<GPUInfo>)
    ensures
        views(out@) == kept(views(gpus@), of_known_vendor()),
{
    let ghost keep = of_known_vendor();
    let mut out: Vec<GPUInfo> = Vec::new();
    let mut i: usize = 0;
    assert(views(out@) =~= kept(views(gpus@).take(0), keep));
    while i < gpus.len()
        invariant
            i <= gpus.len(),
            keep == of_known_vendor(),
            views(out@) == kept(views(gpus@).take(i as int), keep),
        decreases gpus.len() - i,
    {
        let ghost next = views(gpus@).take(i + 1);
        assert(next.drop_last() =~= views(gpus@).take(i as int));
        assert(next.last() == gpus@[i as int]@);
        if gpus[i].vendor != GPUVendor::UNKNOWN {
            let copy = gpus[i].clone();
            let ghost before = out@;
            out.push(copy);
            assert(views(out@) =~= views(before).push(copy@));
        }
        i += 1;
    }
    assert(views(gpus@).take(gpus.len() as int) =~= views(gpus@));
    out
}

/// The first GPU whose card path or render path is `path`, ASCII case
/// apart.
pub fn get_gpu_by_card_path(gpus: &[GPUInfo], path: &str) -> (res: Option<GPUInfo>)
    ensures
        match res {
            Some(gpu) => first_at(views(gpus@), path@) == Some(gpu@),
            None => first_at(views(gpus@), path@) is None,
        },
{
    let mut i: usize = 0;
    assert(views(gpus@).skip(0) =~= views(gpus@));
    while i < gpus.len()
        invariant
            i <= gpus.len(),
            first_at(views(gpus@), path@) == first_at(views(gpus@).skip(i as int), path@),
        decreases gpus.len() - i,
    {
        let ghost rest = views(gpus@).skip(i as int);
        assert(rest[0] == gpus@[i as int]@);
        assert(rest.drop_first() =~= views(gpus@).skip(i + 1));
        if eq_ignore_ascii_case(gpus[i].card_path.as_str(), path) || eq_ignore_ascii_case(
            gpus[i].render_path.as_str(),
            path,
        ) {
            return Some(gpus[i].clone());
        }
        i += 1;
    }
    None
}

/// Why no GPU could be selected.
#[derive(Clone, Copy, Debug, PartialEq, Eq, Structural)]
pub enum GpuSelectError {
    /// The host has no GPU at all.
    NoGpusFound,
    /// No GPU sits at the card path that was asked for.
    CardPathNotFound,
    /// The index is not below the number of GPUs that the filters leave.
    IndexOutOfBounds { index: u32, available: usize },
    /// The filters leave no GPU of a known vendor.
    NoMatch,
}

/// The GPUs that are left after the vendor filter, where one is given.
pub open spec fn vendor_filtered(gpus: Seq<GPUInfoView>, vendor: Option<String>) -> Seq<
    GPUInfoView,
> {
    match vendor {
        Some(name) => kept(gpus, by_vendor(vendor_named(lowercase(name@)))),
        None => gpus,
    }
}

/// The GPUs that are left after the name filter, where one is given.
pub open spec fn name_filtered(gpus: Seq<GPUInfoView>, name: Option<String>) -> Seq<GPUInfoView> {
    match name {
        Some(part) => kept(gpus, by_name(lowercase(part@))),
        None => gpus,
    }
}

/// The selection among `gpus` that `device` asks for. A card path wins
/// outright. Otherwise the vendor and name filters apply one after the
/// other; then an index picks one GPU of what is left, or, without an
/// index, the GPUs of unknown vendors are dropped.
pub open spec fn selected_gpus(gpus: Seq<GPUInfoView>, device: DeviceArgs) -> Result<
    Seq<GPUInfoView>,
    GpuSelectError,
> {
    if gpus.len() == 0 {
        Err(GpuSelectError::NoGpusFound)
    } else {
        match device.gpu_card_path {
            Some(path) => match first_at(gpus, path@) {
                Some(gpu) => Ok(seq![gpu]),
                None => Err(GpuSelectError::CardPathNotFound),
            },
            None => {
                let left = name_filtered(
                    vendor_filtered(gpus, device.gpu_vendor),
                    device.gpu_name,
                );
                match device.gpu_index {
                    Some(index) => if index >= left.len() {
                        Err(
                            GpuSelectError::IndexOutOfBounds {
                                index,
                                available: left.len() as usize,
                            },
                        )
                    } else {
                        Ok(seq![left[index as int]])
                    },
                    None => if kept(left, of_known_vendor()).len() == 0 {
                        Err(GpuSelectError::NoMatch)
                    } else {
                        Ok(kept(left, of_known_vendor()))
                    },
                }
            },
        }
    }
}

/// Copies a run of records.
fn clone_all(gpus: &[GPUInfo]) -> (out: Vec<GPUInfo>)
    ensures
        views(out@) == views(gpus@),
{
    let mut out: Vec<GPUInfo> = Vec::new();
    let mut i: usize = 0;
    while i < gpus.len()
        invariant
            i <= gpus.len(),
            views(out@) =~= views(gpus@).take(i as int),
        decreases gpus.len() - i,
    {
        let copy = gpus[i].clone();
        let ghost before = out@;
        out.push(copy);
        assert(views(out@) =~= views(before).push(copy@));
        assert(views(gpus@).take(i + 1) =~= views(gpus@).take(i as int).push(gpus@[i as int]@));
        i += 1;
    }
    assert(views(gpus@).take(gpus.len() as int) =~= views(gpus@));
    out
}

/// Selects the GPUs to work with among those of the host.
pub fn handle_gpus(gpus: &[GPUInfo], device: &DeviceArgs) -> (res: Result<
    Vec<GPUInfo>,
    GpuSelectError,
>)
    ensures
        match res {
            Ok(chosen) => selected_gpus(views(gpus@), *device) == Ok::<
                Seq<GPUInfoView>,
                GpuSelectError,
            >(views(chosen@)),
            Err(e) => selected_gpus(views(gpus@), *device) == Err::<
                Seq<GPUInfoView>,
                GpuSelectError,
            >(e),
        },
{
    if gpus.len() == 0 {
        return Err(GpuSelectError::NoGpusFound);
    }
    match &device.gpu_card_path {
        Some(path) => match get_gpu_by_card_path(gpus, path.as_str()) {
            Some(gpu) => {
                let mut chosen: Vec<GPUInfo> = Vec::new();
                chosen.push(gpu);
                assert(views(chosen@) =~= seq![gpu@]);
                Ok(chosen)
            },
            None => Err(GpuSelectError::CardPathNotFound),
        },
        None => {
            let by_vendor = match &device.gpu_vendor {
                Some(name) => get_gpus_by_vendor(gpus, GPUVendor::from_name(name.as_str())),
                None => clone_all(gpus),
            };
            let left = match &device.gpu_name {
                Some(part) => get_gpus_by_device_name(by_vendor.as_slice(), part.as_str()),
                None => by_vendor,
            };
            match device.gpu_index {
                Some(index) => {
                    if index as usize >= left.len() {
                        return Err(
                            GpuSelectError::IndexOutOfBounds { index, available: left.len() },
                        );
                    }
                    let gpu = left[index as usize].clone();
                    let mut chosen: Vec<GPUInfo> = Vec::new();
                    chosen.push(gpu);
                    assert(views(chosen@) =~= seq![views(left@)[index as int]]);
                    Ok(chosen)
                },
                None => {
                    let known = get_gpus_of_known_vendor(left.as_slice());
                    if known.len() == 0 {
                        assert(views(known@).len() == 0);
                        Err(GpuSelectError::NoMatch)
                    } else {
                        assert(views(known@).len() == known@.len());
                        Ok(known)
                    }
                },
            }
        },
    }
}

} // verus!
