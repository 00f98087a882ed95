use nestri_server::args::DeviceArgs;
use nestri_server::gpu::{
    get_gpu_by_card_path, get_gpus_by_device_name, get_gpus_by_vendor, handle_gpus, GPUInfo,
    GPUVendor, GpuSelectError,
};

fn gpu(vendor: GPUVendor, n: u32, name: &str) -> GPUInfo {
    GPUInfo::new(
        vendor,
        format!("/dev/dri/card{}", n),
        format!("/dev/dri/renderD{}", 128 + n),
        name.to_string(),
        format!("0000:0{}:00.0", n),
    )
}

fn host() -> Vec<GPUInfo> {
    vec![
        gpu(GPUVendor::INTEL, 0, "Arc A770"),
        gpu(GPUVendor::NVIDIA, 1, "GeForce RTX 4090"),
        gpu(GPUVendor::UNKNOWN, 2, "Virtual Arc Display"),
        gpu(GPUVendor::AMD, 3, "Radeon RX 7900"),
        gpu(GPUVendor::INTEL, 4, "UHD Graphics 770"),
    ]
}

fn device(
    vendor: Option<&str>,
    name: Option<&str>,
    index: Option<u32>,
    path: Option<&str>,
) -> DeviceArgs {
    DeviceArgs::from_values(
        vendor.map(|s| s.to_string()),
        name.map(|s| s.to_string()),
        index,
        path.map(|s| s.to_string()),
    )
}

#[test]
fn vendor_from_pci_id() {
    assert_eq!(GPUVendor::from_pci_id(0x8086), GPUVendor::INTEL);
    assert_eq!(GPUVendor::from_pci_id(0x10de), GPUVendor::NVIDIA);
    assert_eq!(GPUVendor::from_pci_id(0x1002), GPUVendor::AMD);
    assert_eq!(GPUVendor::from_pci_id(0x1234), GPUVendor::UNKNOWN);
    assert_eq!(GPUVendor::from_pci_id(0), GPUVendor::UNKNOWN);
    for v in [GPUVendor::INTEL, GPUVendor::NVIDIA, GPUVendor::AMD] {
        assert_eq!(GPUVendor::from_pci_id(v.pci_id()), v);
    }
    assert_eq!(GPUVendor::UNKNOWN.pci_id(), 0);
}

#[test]
fn vendor_from_name() {
    assert_eq!(GPUVendor::from_name("intel"), GPUVendor::INTEL);
    assert_eq!(GPUVendor::from_name("NVIDIA"), GPUVendor::NVIDIA);
    assert_eq!(GPUVendor::from_name("Amd"), GPUVendor::AMD);
    assert_eq!(GPUVendor::from_name("matrox"), GPUVendor::UNKNOWN);
}

#[test]
fn vendor_names() {
    assert_eq!(GPUVendor::INTEL.as_str(), "Intel");
    assert_eq!(GPUVendor::NVIDIA.as_str(), "NVIDIA");
    assert_eq!(GPUVendor::AMD.as_str(), "AMD");
    assert_eq!(GPUVendor::UNKNOWN.as_str(), "Unknown");
}

#[test]
fn record_fields_and_description() {
    let g = gpu(GPUVendor::INTEL, 0, "Arc A770");
    assert_eq!(*g.vendor(), GPUVendor::INTEL);
    assert_eq!(g.card_path(), "/dev/dri/card0");
    assert_eq!(g.render_path(), "/dev/dri/renderD128");
    assert_eq!(g.device_name(), "Arc A770");
    assert_eq!(g.pci_bus_id(), "0000:00:00.0");
    assert_eq!(
        g.as_str(),
        "Arc A770 (Vendor: Intel, Card Path: /dev/dri/card0, Render Path: /dev/dri/renderD128, PCI Bus ID: 0000:00:00.0)"
    );
    assert_eq!(g.clone(), g);
}

#[test]
fn filter_by_vendor() {
    let gpus = host();
    let intel = get_gpus_by_vendor(&gpus, GPUVendor::INTEL);
    assert_eq!(intel, vec![gpus[0].clone(), gpus[4].clone()]);
    assert_eq!(get_gpus_by_vendor(&gpus, GPUVendor::AMD), vec![gpus[3].clone()]);
    assert!(get_gpus_by_vendor(&[], GPUVendor::AMD).is_empty());
}

#[test]
fn filter_by_name_ignores_case() {
    let gpus = host();
    assert_eq!(
        get_gpus_by_device_name(&gpus, "ARC"),
        vec![gpus[0].clone(), gpus[2].clone()]
    );
    assert_eq!(get_gpus_by_device_name(&gpus, "rtx 40"), vec![gpus[1].clone()]);
    assert_eq!(get_gpus_by_device_name(&gpus, "").len(), 5);
    assert!(get_gpus_by_device_name(&gpus, "voodoo").is_empty());
}

#[test]
fn find_by_card_or_render_path() {
    let gpus = host();
    assert_eq!(get_gpu_by_card_path(&gpus, "/dev/dri/card1"), Some(gpus[1].clone()));
    assert_eq!(get_gpu_by_card_path(&gpus, "/DEV/DRI/RENDERD131"), Some(gpus[3].clone()));
    assert_eq!(get_gpu_by_card_path(&gpus, "/dev/dri/card9"), None);
    assert_eq!(get_gpu_by_card_path(&gpus, "/dev/dri/card"), None);
}

#[test]
fn card_path_takes_the_first_match() {
    let twins = vec![
        GPUInfo::new(GPUVendor::AMD, "/dev/dri/card0".into(), "/dev/dri/renderD128".into(), "first".into(), "a".into()),
        GPUInfo::new(GPUVendor::AMD, "/dev/dri/card1".into(), "/dev/dri/card0".into(), "second".into(), "b".into()),
    ];
    assert_eq!(get_gpu_by_card_path(&twins, "/dev/dri/card0").unwrap().device_name(), "first");
}

#[test]
fn selection_without_gpus() {
    assert_eq!(handle_gpus(&[], &device(None, None, None, None)), Err(GpuSelectError::NoGpusFound));
}

#[test]
fn selection_by_card_path_wins() {
    let gpus = host();
    let args = device(Some("nvidia"), Some("nothing"), Some(40), Some("/dev/dri/renderD130"));
    assert_eq!(handle_gpus(&gpus, &args), Ok(vec![gpus[2].clone()]));
    let args = device(None, None, None, Some("/dev/dri/card77"));
    assert_eq!(handle_gpus(&gpus, &args), Err(GpuSelectError::CardPathNotFound));
}

#[test]
fn selection_drops_unknown_vendors() {
    let gpus = host();
    assert_eq!(
        handle_gpus(&gpus, &device(None, None, None, None)),
        Ok(vec![gpus[0].clone(), gpus[1].clone(), gpus[3].clone(), gpus[4].clone()])
    );
    assert_eq!(
        handle_gpus(&gpus, &device(None, Some("arc"), None, None)),
        Ok(vec![gpus[0].clone()])
    );
    assert_eq!(
        handle_gpus(&gpus, &device(None, Some("virtual"), None, None)),
        Err(GpuSelectError::NoMatch)
    );
}

#[test]
fn selection_by_index() {
    let gpus = host();
    assert_eq!(
        handle_gpus(&gpus, &device(Some("Intel"), None, Some(1), None)),
        Ok(vec![gpus[4].clone()])
    );
    assert_eq!(
        handle_gpus(&gpus, &device(None, Some("arc"), Some(1), None)),
        Ok(vec![gpus[2].clone()])
    );
    assert_eq!(
        handle_gpus(&gpus, &device(Some("intel"), None, Some(2), None)),
        Err(GpuSelectError::IndexOutOfBounds { index: 2, available: 2 })
    );
    assert_eq!(
        handle_gpus(&gpus, &device(Some("amd"), Some("arc"), Some(0), None)),
        Err(GpuSelectError::IndexOutOfBounds { index: 0, available: 0 })
    );
}

#[test]
fn selection_by_vendor_and_name() {
    let gpus = host();
    assert_eq!(
        handle_gpus(&gpus, &device(Some("intel"), Some("uhd"), None, None)),
        Ok(vec![gpus[4].clone()])
    );
    assert_eq!(
        handle_gpus(&gpus, &device(Some("bogus"), None, None, None)),
        Err(GpuSelectError::NoMatch)
    );
}

#[test]
fn vendor_conversions() {
    assert_eq!(GPUVendor::from(0x10deu16), GPUVendor::NVIDIA);
    assert_eq!(GPUVendor::from(7u16), GPUVendor::UNKNOWN);
    assert_eq!(GPUVendor::from("INTEL"), GPUVendor::INTEL);
    assert_eq!(GPUVendor::from("amd".to_string()), GPUVendor::AMD);
    let v: GPUVendor = "nvidia".into();
    assert_eq!(v, GPUVendor::NVIDIA);
}

#[test]
fn vendor_from_a_lower_case_name() {
    assert_eq!(GPUVendor::from_lowercase_name("intel"), GPUVendor::INTEL);
    assert_eq!(GPUVendor::from_lowercase_name("nvidia"), GPUVendor::NVIDIA);
    assert_eq!(GPUVendor::from_lowercase_name("amd"), GPUVendor::AMD);
    assert_eq!(GPUVendor::from_lowercase_name("Intel"), GPUVendor::UNKNOWN);
}
