use nestri_server::args::parse_resolution;
use nestri_server::discovery::{clean_id, get_dri_device_path, parse_pci_ids, PciDevice};

struct Lcg(u64);

impl Lcg {
    fn next(&mut self, bound: usize) -> usize {
        self.0 = self.0.wrapping_mul(6364136223846793005).wrapping_add(1442695040888963407);
        ((self.0 >> 33) as usize) % bound
    }

    fn text(&mut self, alphabet: &[&str], max_len: usize) -> String {
        let len = self.next(max_len + 1);
        (0..len).map(|_| alphabet[self.next(alphabet.len())]).collect()
    }
}

fn lookup_by_the_book(pci_data: &str, vendor_id: &str, device_id: &str) -> Option<String> {
    let mut current_vendor = String::new();
    let vendor_id = vendor_id.to_lowercase();
    let device_id = device_id.to_lowercase();
    for line in pci_data.lines() {
        if line.starts_with('#') || line.is_empty() {
            continue;
        }
        if !line.starts_with(['\t', ' ']) {
            let mut parts = line.splitn(2, ' ');
            if let (Some(vendor), Some(_)) = (parts.next(), parts.next()) {
                current_vendor = vendor.to_lowercase();
            }
            continue;
        }
        let line = line.trim_start();
        let mut parts = line.splitn(2, ' ');
        if let (Some(dev_id), Some(desc)) = (parts.next(), parts.next()) {
            if dev_id.to_lowercase() == device_id && current_vendor == vendor_id {
                return Some(desc.trim().to_owned());
            }
        }
    }
    None
}

fn nodes_by_the_book(devices: &[PciDevice], pci_addr: &str) -> Option<(String, String)> {
    for entry in devices {
        if !entry.path.contains(pci_addr) {
            continue;
        }
        let mut card = String::new();
        let mut render = String::new();
        for name in entry.drm_entries.as_ref()? {
            if name.starts_with("card") {
                card = format!("/dev/dri/{}", name);
            } else if name.starts_with("renderD") {
                render = format!("/dev/dri/{}", name);
            }
            if !card.is_empty() && !render.is_empty() {
                break;
            }
        }
        if !card.is_empty() {
            return Some((card, render));
        }
    }
    None
}

fn resolution_by_the_book(res: &str) -> (u32, u32) {
    let parts: Vec<&str> = res.split('x').collect();
    if parts.len() >= 2 {
        (parts[0].parse::<u32>().unwrap_or(1280), parts[1].parse::<u32>().unwrap_or(720))
    } else {
        (1280, 720)
    }
}

#[test]
fn database_lookup_agrees_on_many_texts() {
    let lines = [
        "8086  Intel", "8086 Intel", "10DE NVIDIA", "10de", "a b", "A", "# 8086 x", "", " ",
        "\t56a0  Arc A770 ", "\t56A0 Arc", " 56a0 Arc ", "\t\t8086 56a0 Sub", "\t1", "\ta \u{a0}b\u{2003}",
        "\u{a0}56a0 nbsp", " \u{2003} 56a0  wide\t", "\t a b", "x", "\r", "\t56a0\tArc", "É é",
    ];
    let ends = ["\n", "\n", "\r\n", "\r", "\n\n", ""];
    let ids = ["a", "A", "1", "8086", "10DE", "56a0", "56A0", "", "x", "É"];
    let mut rng = Lcg(7);
    let mut found = 0;
    for _ in 0..20000 {
        let count = rng.next(6);
        let mut data = String::new();
        for _ in 0..count {
            data.push_str(lines[rng.next(lines.len())]);
            data.push_str(ends[rng.next(ends.len())]);
        }
        let vendor = ids[rng.next(ids.len())];
        let device = ids[rng.next(ids.len())];
        let expected = lookup_by_the_book(&data, vendor, device);
        if expected.is_some() {
            found += 1;
        }
        assert_eq!(
            parse_pci_ids(&data, vendor, device),
            expected,
            "{:?} {:?} {:?}",
            data,
            vendor,
            device
        );
    }
    assert!(found > 100);
}

#[test]
fn ids_are_cleaned_as_the_standard_trims_do() {
    let alphabet = ["0x", "0", "x", "\n", "8", "f", " ", "0X", "\r"];
    let mut rng = Lcg(11);
    for _ in 0..5000 {
        let text = rng.text(&alphabet, 6);
        let expected = text.trim_start_matches("0x").trim_end_matches('\n');
        assert_eq!(clean_id(&text), expected, "{:?}", text);
    }
}

#[test]
fn device_nodes_agree_on_many_listings() {
    let names = ["card0", "card1", "renderD128", "renderD129", "controlD64", "card", "render", "version", ""];
    let paths = ["/sys/bus/pci/devices/0000:00:02.0", "/sys/bus/pci/devices/0000:03:00.0", "/sys/bus/pci/devices/0000:03:00.1"];
    let addrs = ["0000:00:02.0", "0000:03:00.0", "0000:03:00", "0000:04:00.0", ""];
    let mut rng = Lcg(13);
    let mut found = 0;
    for _ in 0..5000 {
        let count = rng.next(4);
        let devices: Vec<PciDevice> = (0..count)
            .map(|_| PciDevice {
                path: paths[rng.next(paths.len())].to_string(),
                drm_entries: if rng.next(5) == 0 {
                    None
                } else {
                    let n = rng.next(5);
                    Some((0..n).map(|_| names[rng.next(names.len())].to_string()).collect())
                },
            })
            .collect();
        let addr = addrs[rng.next(addrs.len())];
        let expected = nodes_by_the_book(&devices, addr);
        if expected.is_some() {
            found += 1;
        }
        assert_eq!(get_dri_device_path(&devices, addr), expected, "{:?} {:?}", devices, addr);
    }
    assert!(found > 100);
}

#[test]
fn resolutions_agree_on_many_texts() {
    let alphabet = ["x", "1", "0", "9", "+", "-", " ", "X", "1280", "4294967295", "4294967296"];
    let mut rng = Lcg(17);
    for _ in 0..5000 {
        let text = rng.text(&alphabet, 6);
        assert_eq!(parse_resolution(&text), resolution_by_the_book(&text), "{:?}", text);
    }
}
