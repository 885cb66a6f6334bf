use bootmenu::bio::BlockDev;
use bootmenu::container::ContainerView;
use bootmenu::container::InvalidObject;
use bootmenu::container::SectionRange;
use bootmenu::extlinux::extlinux_label;
use bootmenu::extlinux::ConfigProbe;
use bootmenu::kernel_boot::assemble_uki;
use bootmenu::kernel_boot::parse_uki;
use bootmenu::kernel_boot::read_report;
use bootmenu::kernel_boot::uki_label;
use bootmenu::kernel_boot::SectionReport;
use bootmenu::kernel_boot::UkiParseError;
use bootmenu::scanner::boot_scan;
use bootmenu::scanner::esp_root;
use bootmenu::scanner::scan_esp;
use bootmenu::scanner::scan_volume;
use bootmenu::scanner::BootOption;
use bootmenu::scanner::DirEntry;
use bootmenu::scanner::Volume;

fn put_u16(out: &mut Vec<u8>, at: usize, value: u16) {
    out[at..at + 2].copy_from_slice(&value.to_le_bytes());
}

fn put_u32(out: &mut Vec<u8>, at: usize, value: u32) {
    out[at..at + 4].copy_from_slice(&value.to_le_bytes());
}

/// A minimal 64-bit PE image with the given sections, each section's bytes
/// stored at a 16-byte boundary behind the headers.
fn build_pe(sections: &[(&str, &[u8])]) -> Vec<u8> {
    let headers = 64 + 4 + 20 + 112 + 40 * sections.len();
    let mut out = vec![0u8; headers];
    out[0] = b'M';
    out[1] = b'Z';
    put_u32(&mut out, 0x3c, 64);
    out[64..68].copy_from_slice(b"PE\0\0");
    put_u16(&mut out, 68, 0xaa64);
    put_u16(&mut out, 70, sections.len() as u16);
    put_u16(&mut out, 84, 112);
    put_u16(&mut out, 86, 0x0022);
    put_u16(&mut out, 88, 0x020b);
    let mut table = 64 + 4 + 20 + 112;
    let mut rva = 0x1000u32;
    for (name, data) in sections {
        while out.len() % 16 != 0 {
            out.push(0);
        }
        let offset = out.len() as u32;
        out.extend_from_slice(data);
        let bytes = name.as_bytes();
        out[table..table + bytes.len()].copy_from_slice(bytes);
        put_u32(&mut out, table + 8, data.len() as u32);
        put_u32(&mut out, table + 12, rva);
        put_u32(&mut out, table + 16, data.len() as u32);
        put_u32(&mut out, table + 20, offset);
        put_u32(&mut out, table + 36, 0x4000_0040);
        table += 40;
        rva += 0x1000 * (1 + data.len() as u32 / 0x1000);
    }
    out
}

fn alpine_image() -> Vec<u8> {
    build_pe(&[
        (".osrel", b"NAME=\"Alpine Linux\"\nPRETTY_NAME=\"Alpine\"\nID=alpine\n"),
        (".cmdline", b"console=ttyMSM0 root=/dev/sda1"),
        (".linux", &[1u8; 100]),
        (".initrd", &[2u8; 40]),
        (".dtb", &[3u8; 24]),
        (".splash", &[4u8; 12]),
    ])
}

fn device(name: &str, label: Option<&str>, is_leaf: bool) -> BlockDev {
    BlockDev {
        name: name.as_bytes().to_vec(),
        size: 1 << 20,
        block_size: 512,
        block_count: 2048,
        label: label.map(|l| l.as_bytes().to_vec()),
        is_leaf,
    }
}

fn file(name: &str, data: Vec<u8>) -> DirEntry {
    DirEntry::File { name: name.as_bytes().to_vec(), data: Some(data) }
}

fn dir(name: &str, entries: Vec<DirEntry>) -> DirEntry {
    DirEntry::Dir { name: name.as_bytes().to_vec(), entries: Some(entries) }
}

fn parsed_label(label: &str) -> ConfigProbe {
    let mut filled = extlinux_label::default();
    filled.label = Some(label.as_bytes().to_vec());
    filled.kernel = Some(b"/boot/vmlinuz".to_vec());
    ConfigProbe::Parsed(filled)
}

fn labels(options: &[BootOption]) -> Vec<Vec<u8>> {
    options.iter().map(|o| o.label().to_vec()).collect()
}

#[test]
fn container_rejects_garbage() {
    assert!(matches!(ContainerView::parse(b"not an image at all"), Err(InvalidObject)));
    assert!(matches!(ContainerView::parse(&[]), Err(InvalidObject)));
}

#[test]
fn container_reports_section_ranges() {
    let image = alpine_image();
    let view = ContainerView::parse(&image).unwrap();
    let linux = view.section(".linux").unwrap();
    assert_eq!(linux.length, 100);
    assert_eq!(linux.start_offset % 16, 0);
    assert!(linux.fits(image.len()));
    assert_eq!(linux.slice(&image), &[1u8; 100][..]);
    let dtb = view.section(".dtb").unwrap();
    assert_eq!(dtb.length, 24);
    assert_eq!(dtb.slice(&image), &[3u8; 24][..]);
    assert!(dtb.start_offset > linux.start_offset);
    assert_eq!(view.bytes(), &image[..]);
}

#[test]
fn container_missing_section_is_none() {
    let image = build_pe(&[(".linux", &[1u8; 8])]);
    let view = ContainerView::parse(&image).unwrap();
    assert_eq!(view.section(".initrd"), None);
    assert_eq!(view.section_bytes(".osrel"), None);
    assert!(view.section(".linux").is_some());
}

#[test]
fn container_section_bytes_are_the_contents() {
    let image = alpine_image();
    let view = ContainerView::parse(&image).unwrap();
    assert_eq!(view.section_bytes(".cmdline").unwrap(), b"console=ttyMSM0 root=/dev/sda1".to_vec());
    assert_eq!(view.section_bytes(".initrd").unwrap(), vec![2u8; 40]);
}

#[test]
fn section_range_fits_only_inside() {
    let range = SectionRange { start_offset: 10, length: 20 };
    assert!(range.fits(30));
    assert!(range.fits(31));
    assert!(!range.fits(29));
    assert!(!range.fits(0));
    let wide = SectionRange { start_offset: u64::MAX, length: u64::MAX };
    assert!(!wide.fits(usize::MAX));
}

#[test]
fn parse_uki_reads_every_part() {
    let image = alpine_image();
    let config = parse_uki(b"wrp0p3", b"/EFI/BOOT/alpine.efi", Some(&image), b"esp").unwrap();
    assert_eq!(config.name, b"Alpine".to_vec());
    assert_eq!(config.volume, b"wrp0p3".to_vec());
    assert_eq!(config.path, b"/EFI/BOOT/alpine.efi".to_vec());
    assert_eq!(config.kernel.length, 100);
    assert_eq!(config.initrd.length, 40);
    assert_eq!(config.dtb.length, 24);
    assert_eq!(config.kernel.slice(&image), &[1u8; 100][..]);
    assert_eq!(config.initrd.slice(&image), &[2u8; 40][..]);
    assert_eq!(config.dtb.slice(&image), &[3u8; 24][..]);
    assert_eq!(config.commandline, Some(b"console=ttyMSM0 root=/dev/sda1".to_vec()));
    let splash = config.splash.unwrap();
    assert_eq!(splash.slice(&image), &[4u8; 12][..]);
}

#[test]
fn parse_uki_file_not_found() {
    assert_eq!(parse_uki(b"v", b"/EFI/x.efi", None, b"esp").unwrap_err(), UkiParseError::FileNotFound);
}

#[test]
fn parse_uki_invalid_object() {
    assert_eq!(
        parse_uki(b"v", b"/EFI/x.efi", Some(b"plain text"), b"esp").unwrap_err(),
        UkiParseError::InvalidObject
    );
}

#[test]
fn parse_uki_kernel_not_found() {
    let image = build_pe(&[(".initrd", &[2u8; 4]), (".dtb", &[3u8; 4])]);
    assert_eq!(
        parse_uki(b"v", b"/EFI/x.efi", Some(&image), b"esp").unwrap_err(),
        UkiParseError::KernelNotFound
    );
}

#[test]
fn parse_uki_initrd_not_found() {
    let image = build_pe(&[(".linux", &[1u8; 4]), (".dtb", &[3u8; 4])]);
    assert_eq!(
        parse_uki(b"v", b"/EFI/x.efi", Some(&image), b"esp").unwrap_err(),
        UkiParseError::InitrdNotFound
    );
}

#[test]
fn parse_uki_dtb_not_found() {
    let image = build_pe(&[(".linux", &[1u8; 4]), (".initrd", &[2u8; 4])]);
    assert_eq!(
        parse_uki(b"v", b"/EFI/x.efi", Some(&image), b"esp").unwrap_err(),
        UkiParseError::DtbNotFound
    );
}

#[test]
fn parse_uki_section_beyond_the_file_is_missing() {
    let mut image = build_pe(&[(".linux", &[1u8; 64]), (".initrd", &[2u8; 4]), (".dtb", &[3u8; 64])]);
    let keep = image.len() - 10;
    image.truncate(keep);
    assert_eq!(
        parse_uki(b"v", b"/EFI/x.efi", Some(&image), b"esp").unwrap_err(),
        UkiParseError::DtbNotFound
    );
}

#[test]
fn parse_uki_without_pretty_name_uses_fallback() {
    let image = build_pe(&[
        (".osrel", b"NAME=\"Alpine Linux\"\nID=alpine\n"),
        (".linux", &[1u8; 16]),
        (".initrd", &[2u8; 16]),
        (".dtb", &[3u8; 16]),
    ]);
    let config = parse_uki(b"sd0p1", b"/EFI/a.efi", Some(&image), b"rescue").unwrap();
    assert_eq!(config.name, b"rescue".to_vec());
    assert_eq!(config.commandline, None);
    assert_eq!(config.splash, None);
}

#[test]
fn parse_uki_without_osrel_uses_fallback() {
    let image = build_pe(&[(".linux", &[1u8; 16]), (".initrd", &[2u8; 16]), (".dtb", &[3u8; 16])]);
    let config = parse_uki(b"sd0p1", b"/EFI/a.efi", Some(&image), b"sd0p1").unwrap();
    assert_eq!(config.name, b"sd0p1".to_vec());
}

#[test]
fn parse_uki_cmdline_with_zero_byte_is_dropped() {
    let image = build_pe(&[
        (".cmdline", b"quiet\0splash"),
        (".linux", &[1u8; 16]),
        (".initrd", &[2u8; 16]),
        (".dtb", &[3u8; 16]),
    ]);
    let config = parse_uki(b"v", b"/EFI/a.efi", Some(&image), b"esp").unwrap();
    assert_eq!(config.commandline, None);
}

#[test]
fn uki_label_reports_missing_os_release() {
    assert_eq!(uki_label(&None).unwrap_err(), UkiParseError::OSRelMissing);
    assert_eq!(uki_label(&Some(b"ID=alpine\n".to_vec())).unwrap_err(), UkiParseError::OSRelMissing);
    assert_eq!(uki_label(&Some(b"PRETTY_NAME=\"Alpine\"\n".to_vec())).unwrap(), b"Alpine".to_vec());
}

#[test]
fn report_lists_what_the_container_holds() {
    let image = alpine_image();
    let view = ContainerView::parse(&image).unwrap();
    let report = read_report(&view);
    assert_eq!(report.linux, view.section(".linux"));
    assert_eq!(report.linux.unwrap().length, 100);
    assert_eq!(report.initrd.unwrap().length, 40);
    assert_eq!(report.dtb.unwrap().length, 24);
    assert_eq!(report.splash.unwrap().length, 12);
    assert_eq!(report.cmdline, Some(b"console=ttyMSM0 root=/dev/sda1".to_vec()));
    assert!(report.osrel.unwrap().starts_with(b"NAME="));
    let bare = build_pe(&[(".linux", &[1u8; 8])]);
    let report = read_report(&ContainerView::parse(&bare).unwrap());
    assert!(report.linux.is_some());
    assert_eq!((report.initrd, report.dtb, report.splash), (None, None, None));
    assert_eq!((report.osrel, report.cmdline), (None, None));
}

fn full_report() -> SectionReport {
    SectionReport {
        linux: Some(SectionRange { start_offset: 0x200, length: 0x1000 }),
        initrd: Some(SectionRange { start_offset: 0x1200, length: 0x800 }),
        dtb: Some(SectionRange { start_offset: 0x1a00, length: 0x100 }),
        splash: Some(SectionRange { start_offset: 0x1b00, length: 0x80 }),
        osrel: Some(b"ID=alpine\nPRETTY_NAME=\"Alpine Linux\"\n".to_vec()),
        cmdline: Some(b"quiet".to_vec()),
    }
}

#[test]
fn assemble_keeps_what_the_report_holds() {
    let config = assemble_uki(b"wrp0p3", b"/EFI/a.efi", 0x1b80, full_report(), b"esp").unwrap();
    assert_eq!(config.volume, b"wrp0p3".to_vec());
    assert_eq!(config.path, b"/EFI/a.efi".to_vec());
    assert_eq!(config.name, b"Alpine Linux".to_vec());
    assert_eq!(config.kernel, SectionRange { start_offset: 0x200, length: 0x1000 });
    assert_eq!(config.initrd, SectionRange { start_offset: 0x1200, length: 0x800 });
    assert_eq!(config.dtb, SectionRange { start_offset: 0x1a00, length: 0x100 });
    assert_eq!(config.splash, Some(SectionRange { start_offset: 0x1b00, length: 0x80 }));
    assert_eq!(config.commandline, Some(b"quiet".to_vec()));
}

#[test]
fn assemble_refuses_missing_parts_in_order() {
    let mut report = full_report();
    report.dtb = None;
    assert_eq!(assemble_uki(b"v", b"p", 0x2000, report.clone(), b"f").unwrap_err(), UkiParseError::DtbNotFound);
    report.initrd = None;
    assert_eq!(assemble_uki(b"v", b"p", 0x2000, report.clone(), b"f").unwrap_err(), UkiParseError::InitrdNotFound);
    report.linux = None;
    assert_eq!(assemble_uki(b"v", b"p", 0x2000, report, b"f").unwrap_err(), UkiParseError::KernelNotFound);
}

#[test]
fn assemble_refuses_parts_outside_the_file() {
    assert_eq!(
        assemble_uki(b"v", b"p", 0x1aff, full_report(), b"f").unwrap_err(),
        UkiParseError::DtbNotFound
    );
    assert_eq!(
        assemble_uki(b"v", b"p", 0x19ff, full_report(), b"f").unwrap_err(),
        UkiParseError::InitrdNotFound
    );
    assert_eq!(
        assemble_uki(b"v", b"p", 0x11ff, full_report(), b"f").unwrap_err(),
        UkiParseError::KernelNotFound
    );
    let mut wide = full_report();
    wide.linux = Some(SectionRange { start_offset: u64::MAX, length: 2 });
    assert_eq!(assemble_uki(b"v", b"p", 0x2000, wide, b"f").unwrap_err(), UkiParseError::KernelNotFound);
}

#[test]
fn assemble_drops_a_splash_outside_the_file() {
    let config = assemble_uki(b"v", b"p", 0x1b7f, full_report(), b"f").unwrap();
    assert_eq!(config.splash, None);
    assert_eq!(config.dtb.length, 0x100);
    let exact = assemble_uki(b"v", b"p", 0x1b80, full_report(), b"f").unwrap();
    assert!(exact.splash.is_some());
}

#[test]
fn assemble_falls_back_when_no_system_is_named() {
    let mut report = full_report();
    report.osrel = Some(b"ID=alpine\n".to_vec());
    report.cmdline = Some(b"a\0b".to_vec());
    let config = assemble_uki(b"v", b"p", 0x2000, report, b"removable disk").unwrap();
    assert_eq!(config.name, b"removable disk".to_vec());
    assert_eq!(config.commandline, None);
    let mut report = full_report();
    report.osrel = None;
    report.cmdline = None;
    let config = assemble_uki(b"v", b"p", 0x2000, report, b"").unwrap();
    assert_eq!(config.name, Vec::<u8>::new());
    assert_eq!(config.commandline, None);
}

#[test]
fn scan_two_volumes_uki_first_then_extlinux() {
    let volume_a = Volume {
        device: device("wrp0p3", Some("esp"), true),
        efi: Some(vec![dir("BOOT", vec![file("A.efi", alpine_image())])]),
        extlinux: ConfigProbe::MountFailed,
    };
    let volume_b = Volume {
        device: device("sd0p1", None, true),
        efi: None,
        extlinux: parsed_label("Debian"),
    };
    let options = boot_scan(vec![volume_a, volume_b]);
    assert_eq!(labels(&options), vec![b"Alpine".to_vec(), b"Debian (SD card)".to_vec()]);
    assert!(matches!(options[0], BootOption::UkiImage(_)));
    assert!(matches!(options[1], BootOption::ExtlinuxEntry(_)));
    match &options[0] {
        BootOption::UkiImage(config) => {
            assert_eq!(config.path, b"/EFI/BOOT/A.efi".to_vec());
            assert_eq!(config.volume, b"wrp0p3".to_vec());
        }
        _ => unreachable!(),
    }
}

#[test]
fn scan_suffix_is_case_sensitive() {
    let volume = Volume {
        device: device("wrp0p3", Some("esp"), true),
        efi: Some(vec![dir("BOOT", vec![file("A.EFI", alpine_image()), file("b.efi", alpine_image())])]),
        extlinux: ConfigProbe::Unreadable,
    };
    let options = boot_scan(vec![volume]);
    assert_eq!(options.len(), 1);
    match &options[0] {
        BootOption::UkiImage(config) => assert_eq!(config.path, b"/EFI/BOOT/b.efi".to_vec()),
        _ => unreachable!(),
    }
}

#[test]
fn scan_one_option_per_valid_image_and_none_for_incomplete() {
    let incomplete = build_pe(&[(".linux", &[1u8; 16]), (".initrd", &[2u8; 16])]);
    let entries = vec![
        file("one.efi", alpine_image()),
        file("broken.efi", incomplete),
        file("notes.txt", b"hello".to_vec()),
        file("junk.efi", b"junk".to_vec()),
        DirEntry::File { name: b"gone.efi".to_vec(), data: None },
        file("two.efi", alpine_image()),
    ];
    let mut options = Vec::new();
    let complete = scan_esp(&device("wrp0p3", Some("esp"), true), &esp_root(), &entries, &mut options);
    assert!(complete);
    assert_eq!(options.len(), 2);
    match (&options[0], &options[1]) {
        (BootOption::UkiImage(first), BootOption::UkiImage(second)) => {
            assert_eq!(first.path, b"/EFI/one.efi".to_vec());
            assert_eq!(second.path, b"/EFI/two.efi".to_vec());
        }
        _ => unreachable!(),
    }
}

#[test]
fn scan_missing_pretty_name_keeps_the_option() {
    let unnamed = build_pe(&[
        (".osrel", b"ID=alpine\n"),
        (".linux", &[1u8; 16]),
        (".initrd", &[2u8; 16]),
        (".dtb", &[3u8; 16]),
    ]);
    let labelled = Volume {
        device: device("wrp0p3", Some("esp"), true),
        efi: Some(vec![file("a.efi", unnamed.clone())]),
        extlinux: ConfigProbe::Unreadable,
    };
    let bare = Volume {
        device: device("sd0p1", None, true),
        efi: Some(vec![file("a.efi", unnamed)]),
        extlinux: ConfigProbe::Unreadable,
    };
    let options = boot_scan(vec![labelled, bare]);
    assert_eq!(labels(&options), vec![b"esp".to_vec(), b"sd0p1".to_vec()]);
}

#[test]
fn scan_is_depth_first_in_directory_order() {
    let entries = vec![
        dir(".", vec![file("self.efi", alpine_image())]),
        dir("..", vec![file("up.efi", alpine_image())]),
        dir("A", vec![file("a1.efi", alpine_image()), dir("DEEP", vec![file("a2.efi", alpine_image())])]),
        file("top.efi", alpine_image()),
        dir("B", vec![file("b1.efi", alpine_image())]),
    ];
    let mut options = Vec::new();
    assert!(scan_esp(&device("wrp0p3", None, true), &esp_root(), &entries, &mut options));
    let paths: Vec<Vec<u8>> = options
        .iter()
        .map(|o| match o {
            BootOption::UkiImage(config) => config.path.clone(),
            _ => unreachable!(),
        })
        .collect();
    assert_eq!(
        paths,
        vec![
            b"/EFI/A/a1.efi".to_vec(),
            b"/EFI/A/DEEP/a2.efi".to_vec(),
            b"/EFI/top.efi".to_vec(),
            b"/EFI/B/b1.efi".to_vec(),
        ]
    );
}

#[test]
fn scan_stops_at_a_directory_that_cannot_be_opened() {
    let entries = vec![
        file("first.efi", alpine_image()),
        DirEntry::Dir { name: b"LOCKED".to_vec(), entries: None },
        file("last.efi", alpine_image()),
    ];
    let mut options = Vec::new();
    let complete = scan_esp(&device("wrp0p3", None, true), &esp_root(), &entries, &mut options);
    assert!(!complete);
    assert_eq!(options.len(), 1);
}

#[test]
fn scan_failed_volume_does_not_stop_the_rest() {
    let broken = Volume {
        device: device("wrp0p1", None, true),
        efi: Some(vec![DirEntry::Dir { name: b"BOOT".to_vec(), entries: None }]),
        extlinux: ConfigProbe::Refused,
    };
    let inner = Volume {
        device: device("wrp0", None, false),
        efi: Some(vec![file("skip.efi", alpine_image())]),
        extlinux: parsed_label("Skipped"),
    };
    let good = Volume {
        device: device("wrp0p2", None, true),
        efi: Some(vec![file("a.efi", alpine_image())]),
        extlinux: parsed_label("Mainline"),
    };
    let options = boot_scan(vec![broken, inner, good]);
    assert_eq!(labels(&options), vec![b"Alpine".to_vec(), b"Mainline (internal)".to_vec()]);
}

#[test]
fn scan_volume_appends_behind_what_is_there() {
    let mut options = Vec::new();
    scan_volume(
        Volume { device: device("sd0", None, true), efi: None, extlinux: parsed_label("One") },
        &mut options,
    );
    scan_volume(
        Volume {
            device: device("sd1", None, true),
            efi: Some(vec![file("a.efi", alpine_image())]),
            extlinux: parsed_label("Two"),
        },
        &mut options,
    );
    assert_eq!(
        labels(&options),
        vec![b"One (SD card)".to_vec(), b"Alpine".to_vec(), b"Two (SD card)".to_vec()]
    );
    assert_eq!(options[1].splash().map(|r| r.length), Some(12));
    assert_eq!(options[0].splash(), None);
}

#[test]
fn boot_scan_of_nothing_is_empty() {
    assert!(boot_scan(Vec::new()).is_empty());
}
