use nestri_server::discovery::{
    card_minor, card_pattern, clean_id, get_dri_device_path, minor_of_capture, parse_pci_ids,
    parse_vendor_id, pci_slot_name, scan_gpu, GpuScanError, PciDevice,
};
use nestri_server::gpu::GPUVendor;

const PCI_IDS: &str = "#\n# List of PCI ID's\n#\n\n0e11  Compaq Computer Corporation\n\t0001  PCI to EISA Bridge\n1002  Advanced Micro Devices, Inc. [AMD/ATI]\n\t744c  Navi 31 [Radeon RX 7900 XT/7900 XTX]\n\t\t1002 0e3b  Reference RX 7900 XTX\n10de  NVIDIA Corporation\n\t2684  AD102 [GeForce RTX 4090]  \r\n8086  Intel Corporation\n\t56a0  DG2 [Arc A770]\n\t0001  Something Intel\nffff  Illegal Vendor ID\n";

fn device(path: &str, drm: Option<&[&str]>) -> PciDevice {
    PciDevice {
        path: path.to_string(),
        drm_entries: drm.map(|names| names.iter().map(|s| s.to_string()).collect()),
    }
}

#[test]
fn card_names() {
    assert_eq!(card_minor("card0"), Ok(Some("0".to_string())));
    assert_eq!(card_minor("card12"), Ok(Some("12".to_string())));
    assert_eq!(card_minor("card"), Ok(None));
    assert_eq!(card_minor("card0-DP-1"), Ok(None));
    assert_eq!(card_minor("renderD128"), Ok(None));
    assert_eq!(card_minor("xcard1"), Ok(None));
    assert_eq!(card_minor("version"), Ok(None));
}

#[test]
fn ids_are_cleaned() {
    assert_eq!(clean_id("0x8086\n"), "8086");
    assert_eq!(clean_id("0x0x10de\n\n"), "10de");
    assert_eq!(clean_id("1002"), "1002");
    assert_eq!(clean_id("\n0x12\n"), "\n0x12");
    assert_eq!(clean_id(""), "");
}

#[test]
fn vendor_ids() {
    assert_eq!(parse_vendor_id("0x8086\n"), Ok(0x8086));
    assert_eq!(parse_vendor_id("0x10DE\n"), Ok(0x10de));
    assert_eq!(parse_vendor_id("0xffff"), Ok(0xffff));
    assert_eq!(parse_vendor_id("+1f"), Ok(0x1f));
    assert_eq!(parse_vendor_id("0x10000\n"), Err(GpuScanError::InvalidVendorId));
    assert_eq!(parse_vendor_id("0x\n"), Err(GpuScanError::InvalidVendorId));
    assert_eq!(parse_vendor_id("0x80g6\n"), Err(GpuScanError::InvalidVendorId));
    assert_eq!(parse_vendor_id(" 0x8086\n"), Err(GpuScanError::InvalidVendorId));
}

#[test]
fn pci_id_database() {
    assert_eq!(parse_pci_ids(PCI_IDS, "8086", "56a0"), Some("DG2 [Arc A770]".to_string()));
    assert_eq!(parse_pci_ids(PCI_IDS, "8086", "56A0"), Some("DG2 [Arc A770]".to_string()));
    assert_eq!(
        parse_pci_ids(PCI_IDS, "1002", "744c"),
        Some("Navi 31 [Radeon RX 7900 XT/7900 XTX]".to_string())
    );
    assert_eq!(parse_pci_ids(PCI_IDS, "10DE", "2684"), Some("AD102 [GeForce RTX 4090]".to_string()));
    assert_eq!(parse_pci_ids(PCI_IDS, "0e11", "0001"), Some("PCI to EISA Bridge".to_string()));
    assert_eq!(parse_pci_ids(PCI_IDS, "8086", "0001"), Some("Something Intel".to_string()));
    assert_eq!(parse_pci_ids(PCI_IDS, "8086", "744c"), None);
    assert_eq!(parse_pci_ids(PCI_IDS, "1234", "56a0"), None);
    assert_eq!(parse_pci_ids(PCI_IDS, "ffff", "0000"), None);
    assert_eq!(parse_pci_ids("", "8086", "56a0"), None);
}

#[test]
fn pci_id_database_subsystem_lines_count_as_devices() {
    assert_eq!(parse_pci_ids(PCI_IDS, "1002", "1002"), Some("0e3b  Reference RX 7900 XTX".to_string()));
}

#[test]
fn pci_id_database_without_a_final_line_end() {
    let data = "8086  Intel Corporation\n\t56a0  DG2 [Arc A770]";
    assert_eq!(parse_pci_ids(data, "8086", "56a0"), Some("DG2 [Arc A770]".to_string()));
    let data = "8086 Intel\n 56a0 Arc\n";
    assert_eq!(parse_pci_ids(data, "8086", "56a0"), Some("Arc".to_string()));
    let data = "8086\n\t56a0 Arc\n";
    assert_eq!(parse_pci_ids(data, "8086", "56a0"), None);
    assert_eq!(parse_pci_ids(data, "", "56a0"), Some("Arc".to_string()));
}

#[test]
fn slot_names() {
    let uevent = "DRIVER=i915\nPCI_CLASS=30000\nPCI_ID=8086:56A0\nPCI_SLOT_NAME=0000:03:00.0\nMODALIAS=pci\n";
    assert_eq!(pci_slot_name(uevent), Ok("0000:03:00.0".to_string()));
    assert_eq!(pci_slot_name("PCI_SLOT_NAME=0000:00:02.0"), Ok("0000:00:02.0".to_string()));
    assert_eq!(pci_slot_name("A=1\r\nPCI_SLOT_NAME=x\r\n"), Ok("x".to_string()));
    assert_eq!(pci_slot_name("A=1\r\nPCI_SLOT_NAME=x\r"), Ok("x\r".to_string()));
    assert_eq!(pci_slot_name("A=1\n\rPCI_SLOT_NAME=x\n"), Err(GpuScanError::MissingSlotName));
    assert_eq!(
        pci_slot_name("PCI_SLOT_NAME=PCI_SLOT_NAME=y\nPCI_SLOT_NAME=z\n"),
        Ok("y".to_string())
    );
    assert_eq!(pci_slot_name("DRIVER=i915\n"), Err(GpuScanError::MissingSlotName));
    assert_eq!(pci_slot_name(" PCI_SLOT_NAME=a\n"), Err(GpuScanError::MissingSlotName));
    assert_eq!(pci_slot_name(""), Err(GpuScanError::MissingSlotName));
}

#[test]
fn dri_nodes_of_a_device() {
    let devices = vec![
        device("/sys/bus/pci/devices/0000:00:02.0", Some(&["card0", "renderD128"])),
        device("/sys/bus/pci/devices/0000:03:00.0", Some(&["renderD129", "controlD64", "card1", "card9"])),
        device("/sys/bus/pci/devices/0000:04:00.0", Some(&["card2"])),
        device("/sys/bus/pci/devices/0000:05:00.0", Some(&["renderD130"])),
        device("/sys/bus/pci/devices/0000:06:00.0", None),
        device("/sys/bus/pci/devices/0000:07:00.0", Some(&["card5", "card6", "renderD131"])),
    ];
    assert_eq!(
        get_dri_device_path(&devices, "0000:00:02.0"),
        Some(("/dev/dri/card0".to_string(), "/dev/dri/renderD128".to_string()))
    );
    assert_eq!(
        get_dri_device_path(&devices, "0000:03:00.0"),
        Some(("/dev/dri/card1".to_string(), "/dev/dri/renderD129".to_string()))
    );
    assert_eq!(
        get_dri_device_path(&devices, "0000:04:00.0"),
        Some(("/dev/dri/card2".to_string(), "".to_string()))
    );
    assert_eq!(get_dri_device_path(&devices, "0000:05:00.0"), None);
    assert_eq!(get_dri_device_path(&devices, "0000:06:00.0"), None);
    assert_eq!(
        get_dri_device_path(&devices, "0000:07:00.0"),
        Some(("/dev/dri/card6".to_string(), "/dev/dri/renderD131".to_string()))
    );
    assert_eq!(get_dri_device_path(&devices, "0000:08:00.0"), None);
    assert_eq!(
        get_dri_device_path(&devices, ":00.0"),
        Some(("/dev/dri/card1".to_string(), "/dev/dri/renderD129".to_string()))
    );
}

#[test]
fn a_device_without_a_card_is_passed_over() {
    let devices = vec![
        device("/sys/bus/pci/devices/0000:03:00.0", Some(&["renderD129"])),
        device("/sys/bus/pci/devices/0000:03:00.0x", Some(&["card3"])),
    ];
    assert_eq!(
        get_dri_device_path(&devices, "0000:03:00.0"),
        Some(("/dev/dri/card3".to_string(), "".to_string()))
    );
}

#[test]
fn a_card_is_put_together() {
    let devices = vec![device("/sys/bus/pci/devices/0000:03:00.0", Some(&["card1", "renderD129"]))];
    let uevent = "DRIVER=i915\nPCI_SLOT_NAME=0000:03:00.0\n";
    let gpu = scan_gpu("0x8086\n", "0x56A0\n", Some(PCI_IDS), uevent, &devices).unwrap().unwrap();
    assert_eq!(*gpu.vendor(), GPUVendor::INTEL);
    assert_eq!(gpu.card_path(), "/dev/dri/card1");
    assert_eq!(gpu.render_path(), "/dev/dri/renderD129");
    assert_eq!(gpu.device_name(), "DG2 [Arc A770]");
    assert_eq!(gpu.pci_bus_id(), "0000:03:00.0");

    let gpu = scan_gpu("0x1af4\n", "0x1050\n", None, uevent, &devices).unwrap().unwrap();
    assert_eq!(*gpu.vendor(), GPUVendor::UNKNOWN);
    assert_eq!(gpu.device_name(), "");
    let gpu = scan_gpu("0x10de\n", "0x9999\n", Some(PCI_IDS), uevent, &devices).unwrap().unwrap();
    assert_eq!(*gpu.vendor(), GPUVendor::NVIDIA);
    assert_eq!(gpu.device_name(), "");

    assert_eq!(
        scan_gpu("zz\n", "0x56a0\n", Some(PCI_IDS), uevent, &devices),
        Err(GpuScanError::InvalidVendorId)
    );
    assert_eq!(
        scan_gpu("0x8086\n", "0x56a0\n", Some(PCI_IDS), "DRIVER=i915\n", &devices),
        Err(GpuScanError::MissingSlotName)
    );
    assert_eq!(scan_gpu("0x8086\n", "0x56a0\n", Some(PCI_IDS), uevent, &Vec::new()), Ok(None));
}

#[test]
fn lines_are_cut_as_the_standard_iterator_cuts_them() {
    for text in ["", "\n", "a", "a\n", "a\r\n", "a\r", "\r\n\r\n", "a\n\nb", "a\r\r\nb\r", "x=1\ny=2"] {
        let expected = text
            .lines()
            .find(|l| l.starts_with("PCI_SLOT_NAME="))
            .map(|l| l.trim_start_matches("PCI_SLOT_NAME=").to_string());
        assert_eq!(pci_slot_name(text).ok(), expected);
        let keyed = text.replace('a', "PCI_SLOT_NAME=a").replace('b', "PCI_SLOT_NAME=b");
        let expected = keyed
            .lines()
            .find(|l| l.starts_with("PCI_SLOT_NAME="))
            .map(|l| l.trim_start_matches("PCI_SLOT_NAME=").to_string());
        assert_eq!(pci_slot_name(&keyed).ok(), expected, "{:?}", keyed);
    }
}

#[test]
fn capture_outcomes() {
    assert_eq!(card_pattern(), "^card(\\d+)$");
    assert_eq!(minor_of_capture(None), Err(GpuScanError::InvalidPattern));
    assert_eq!(minor_of_capture(Some(None)), Ok(None));
    assert_eq!(minor_of_capture(Some(Some("3".to_string()))), Ok(Some("3".to_string())));
}
