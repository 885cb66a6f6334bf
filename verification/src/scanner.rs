//! From storage volumes to the ordered list of boot options.

use crate::bio::BlockDev;
use crate::container::container_parses;
use crate::container::SectionRange;
use crate::extlinux::probe_outcome;
use crate::extlinux::ConfigProbe;
use crate::extlinux::ExtLinuxBootConfig;
use crate::extlinux::ExtlinuxEntry;
use crate::kernel_boot::parse_uki;
use crate::kernel_boot::uki_outcome;
use crate::kernel_boot::usable_section;
use crate::kernel_boot::UkiBootConfig;
use crate::kernel_boot::UkiLayout;
use crate::text::append;
use crate::text::ends_with;
use crate::text::equal;
use crate::text::has_suffix;
use crate::text::to_vec;
use vstd::prelude::*;

verus! {

/// Something that the operator can choose to boot.
#[derive(Debug, Clone)]
pub enum BootOption {
    /// A unified kernel image on a FAT volume.
    UkiImage(UkiBootConfig),
    /// An entry of an `extlinux.conf` on an ext2 volume.
    ExtlinuxEntry(ExtLinuxBootConfig),
}

/// The mathematical value of a `BootOption`.
pub enum BootChoice {
    UkiImage(UkiLayout),
    ExtlinuxEntry(ExtlinuxEntry),
}

impl View for BootOption {
    type V = BootChoice;

    open spec fn view(&self) -> BootChoice {
        match *self {
            BootOption::UkiImage(config) => BootChoice::UkiImage(config@),
            BootOption::ExtlinuxEntry(config) => BootChoice::ExtlinuxEntry(config@),
        }
    }
}

impl BootChoice {
    /// The label shown to the operator.
    pub open spec fn label(&self) -> Seq<u8> {
        match *self {
            BootChoice::UkiImage(layout) => layout.name,
            BootChoice::ExtlinuxEntry(entry) => entry.name,
        }
    }

    /// Where the option's splash image lies in its file, if it has one.
    pub open spec fn splash(&self) -> Option<SectionRange> {
        match *self {
            BootChoice::UkiImage(layout) => layout.splash,
            BootChoice::ExtlinuxEntry(_) => None,
        }
    }
}

impl BootOption {
    /// The label shown to the operator.
    pub fn label(&self) -> (text: &[u8])
        ensures
            text@ == self@.label(),
    {
        match self {
            BootOption::UkiImage(config) => config.name.as_slice(),
            BootOption::ExtlinuxEntry(config) => config.name.as_slice(),
        }
    }

    /// Where the option's splash image lies in its file, if it has one.
    pub fn splash(&self) -> (range: Option<SectionRange>)
        ensures
            range == self@.splash(),
    {
        match self {
            BootOption::UkiImage(config) => config.splash,
            BootOption::ExtlinuxEntry(_) => None,
        }
    }
}

/// The values of a list of boot options, in order.
pub open spec fn choices(options: Seq<BootOption>) -> Seq<BootChoice> {
    options.map_values(|option: BootOption| option@)
}

/// One entry of a directory on a FAT volume, as it was read.
#[derive(Debug)]
pub enum DirEntry {
    /// A file, with its bytes where it could be opened.
    File { name: Vec<u8>, data: Option<Vec<u8>> },
    /// A directory, with its entries in the order of the filesystem where it
    /// could be opened.
    Dir { name: Vec<u8>, entries: Option<Vec<DirEntry>> },
}

/// The bytes of `.efi`, the suffix of the files that are candidates.
pub open spec fn efi_suffix() -> Seq<u8> {
    seq![0x2eu8, 0x65u8, 0x66u8, 0x69u8]
}

/// The bytes of `/EFI`, the directory in which the scan of a volume starts.
pub open spec fn efi_root() -> Seq<u8> {
    seq![0x2fu8, 0x45u8, 0x46u8, 0x49u8]
}

/// Whether `name` is `.` or `..`, the entries that a scan passes over.
pub open spec fn is_dot_entry(name: Seq<u8>) -> bool {
    name == seq![0x2eu8] || name == seq![0x2eu8, 0x2eu8]
}

/// The path of the entry `name` in the directory `root`.
pub open spec fn join_path(root: Seq<u8>, name: Seq<u8>) -> Seq<u8> {
    root + seq![0x2fu8] + name
}

/// What a scan found, and whether it ran to its end.
pub struct EspScan {
    pub found: Seq<BootChoice>,
    pub complete: bool,
}

/// What one directory entry contributes.
///
/// `.` and `..` contribute nothing. A directory contributes what the scan of
/// its entries finds; one that could not be opened ends the scan. A file whose
/// name ends in `.efi` contributes one option where it parses as a unified
/// kernel image, and nothing where it does not. Any other file contributes
/// nothing.
pub open spec fn scan_entry(volume: Seq<u8>, fallback: Seq<u8>, root: Seq<u8>, entry: DirEntry) -> EspScan
    decreases entry, 0nat,
{
    match entry {
        DirEntry::Dir { name, entries } => if is_dot_entry(name@) {
            EspScan { found: Seq::empty(), complete: true }
        } else {
            match entries {
                Some(inner) => scan_entries(
                    volume,
                    fallback,
                    join_path(root, name@),
                    inner@,
                    inner@.len(),
                ),
                None => EspScan { found: Seq::empty(), complete: false },
            }
        },
        DirEntry::File { name, data } => if is_dot_entry(name@) || !ends_with(name@, efi_suffix()) {
            EspScan { found: Seq::empty(), complete: true }
        } else {
            match uki_outcome(
                volume,
                join_path(root, name@),
                match data {
                    Some(bytes) => Some(bytes@),
                    None => None,
                },
                fallback,
            ) {
                Ok(layout) => EspScan { found: seq![BootChoice::UkiImage(layout)], complete: true },
                Err(_) => EspScan { found: Seq::empty(), complete: true },
            }
        },
    }
}

/// What the first `count` entries of a directory contribute: what each
/// contributes, in the order of the directory and depth first, up to the
/// first entry that ends the scan.
pub open spec fn scan_entries(
    volume: Seq<u8>,
    fallback: Seq<u8>,
    root: Seq<u8>,
    entries: Seq<DirEntry>,
    count: nat,
) -> EspScan
    decreases entries, count,
{
    if count == 0 || count > entries.len() {
        EspScan { found: Seq::empty(), complete: true }
    } else {
        let before = scan_entries(volume, fallback, root, entries, (count - 1) as nat);
        if !before.complete {
            before
        } else {
            let here = scan_entry(volume, fallback, root, entries[count - 1]);
            EspScan { found: before.found + here.found, complete: here.complete }
        }
    }
}

/// Tells whether `name` is `.` or `..`.
pub fn is_dot_name(name: &[u8]) -> (dot: bool)
    ensures
        dot == is_dot_entry(name@),
{
    let one: [u8; 1] = [0x2e];
    let two: [u8; 2] = [0x2e, 0x2e];
    assert(one@ =~= seq![0x2eu8]);
    assert(two@ =~= seq![0x2eu8, 0x2eu8]);
    equal(name, one.as_slice()) || equal(name, two.as_slice())
}

/// Tells whether a file of this name is a candidate: whether the name ends
/// in `.efi`, in lower case.
pub fn is_efi_name(name: &[u8]) -> (candidate: bool)
    ensures
        candidate == ends_with(name@, efi_suffix()),
{
    let suffix: [u8; 4] = [0x2e, 0x65, 0x66, 0x69];
    assert(suffix@ =~= efi_suffix());
    has_suffix(name, suffix.as_slice())
}

/// The path of the entry `name` in the directory `root`.
pub fn join(root: &[u8], name: &[u8]) -> (path: Vec<u8>)
    ensures
        path@ == join_path(root@, name@),
{
    let mut path: Vec<u8> = to_vec(root);
    path.push(0x2f);
    assert(path@ =~= root@ + seq![0x2fu8]);
    append(&mut path, name);
    path
}

/// The path at which the scan of a volume starts: `/EFI`.
pub fn esp_root() -> (path: Vec<u8>)
    ensures
        path@ == efi_root(),
{
    let root: [u8; 4] = [0x2f, 0x45, 0x46, 0x49];
    assert(root@ =~= efi_root());
    to_vec(root.as_slice())
}

/// The values of a list that grew by one option.
pub proof fn choices_push(options: Seq<BootOption>, option: BootOption)
    ensures
        choices(options.push(option)) == choices(options).push(option@),
{
    assert(choices(options.push(option)) =~= choices(options).push(option@));
}

/// Scans the directory `root` of `volume`, whose entries are `entries`, and
/// puts every unified kernel image found behind what `options` holds: depth
/// first, in the order of the filesystem. The answer is whether the scan ran
/// to its end; a directory that could not be opened ends it, and what was
/// found before stays.
pub fn scan_esp(
    volume: &BlockDev,
    root: &[u8],
    entries: &Vec<DirEntry>,
    options: &mut Vec<BootOption>,
) -> (complete: bool)
    ensures
        choices(final(options)@) == choices(old(options)@) + scan_entries(
            volume.name@,
            volume.display_name(),
            root@,
            entries@,
            entries@.len(),
        ).found,
        complete == scan_entries(
            volume.name@,
            volume.display_name(),
            root@,
            entries@,
            entries@.len(),
        ).complete,
    decreases entries,
{
    let fallback: Vec<u8> = volume.fallback_label();
    let mut i: usize = 0;
    assert(choices(options@) =~= choices(old(options)@) + Seq::<BootChoice>::empty());
    while i < entries.len()
        invariant
            0 <= i <= entries@.len(),
            fallback@ == volume.display_name(),
            scan_entries(volume.name@, fallback@, root@, entries@, i as nat).complete,
            choices(options@) == choices(old(options)@) + scan_entries(
                volume.name@,
                fallback@,
                root@,
                entries@,
                i as nat,
            ).found,
        decreases entries@.len() - i,
    {
        let ghost before = scan_entries(volume.name@, fallback@, root@, entries@, i as nat);
        let ghost here = scan_entry(volume.name@, fallback@, root@, entries@[i as int]);
        let ghost held = options@;
        assert(scan_entries(volume.name@, fallback@, root@, entries@, (i + 1) as nat) == (EspScan {
            found: before.found + here.found,
            complete: here.complete,
        }));
        match &entries[i] {
            DirEntry::Dir { name, entries: inner } => {
                if !is_dot_name(name.as_slice()) {
                    match inner {
                        Some(sub) => {
                            let path: Vec<u8> = join(root, name.as_slice());
                            let complete: bool = scan_esp(volume, path.as_slice(), sub, options);
                            assert(choices(options@) =~= choices(old(options)@) + (before.found
                                + here.found));
                            if !complete {
                                proof {
                                    scan_stops(volume.name@, fallback@, root@, entries@, (i + 1) as nat);
                                }
                                return false;
                            }
                        },
                        None => {
                            assert(choices(options@) =~= choices(old(options)@) + (before.found
                                + here.found));
                            proof {
                                scan_stops(volume.name@, fallback@, root@, entries@, (i + 1) as nat);
                            }
                            return false;
                        },
                    }
                } else {
                    assert(choices(options@) =~= choices(old(options)@) + (before.found
                        + here.found));
                }
            },
            DirEntry::File { name, data } => {
                if !is_dot_name(name.as_slice()) && is_efi_name(name.as_slice()) {
                    let path: Vec<u8> = join(root, name.as_slice());
                    let image: Option<&[u8]> = match data {
                        Some(bytes) => Some(bytes.as_slice()),
                        None => None,
                    };
                    match parse_uki(volume.name.as_slice(), path.as_slice(), image, fallback.as_slice()) {
                        Ok(config) => {
                            let option: BootOption = BootOption::UkiImage(config);
                            proof {
                                choices_push(held, option);
                            }
                            options.push(option);
                        },
                        Err(_) => {},
                    }
                }
                assert(choices(options@) =~= choices(old(options)@) + (before.found + here.found));
            },
        }
        i += 1;
    }
    true
}

/// A scan that has stopped stays stopped: later entries add nothing.
pub proof fn scan_stops(
    volume: Seq<u8>,
    fallback: Seq<u8>,
    root: Seq<u8>,
    entries: Seq<DirEntry>,
    count: nat,
)
    requires
        count <= entries.len(),
        !scan_entries(volume, fallback, root, entries, count).complete,
    ensures
        scan_entries(volume, fallback, root, entries, entries.len()) == scan_entries(
            volume,
            fallback,
            root,
            entries,
            count,
        ),
    decreases entries.len() - count,
{
    if count < entries.len() {
        assert(scan_entries(volume, fallback, root, entries, count + 1) == scan_entries(
            volume,
            fallback,
            root,
            entries,
            count,
        ));
        scan_stops(volume, fallback, root, entries, count + 1);
    }
}

/// One storage volume, with what the platform read from it.
#[derive(Debug)]
pub struct Volume {
    /// The volume's entry in the block-device catalog.
    pub device: BlockDev,
    /// The entries of `/EFI`, where the volume mounts as FAT and has that
    /// directory.
    pub efi: Option<Vec<DirEntry>>,
    /// How far the platform got with the volume's `extlinux.conf`.
    pub extlinux: ConfigProbe,
}

/// The options that the FAT side of a volume gives.
pub open spec fn esp_options(volume: Volume) -> Seq<BootChoice> {
    match volume.efi {
        Some(entries) => scan_entries(
            volume.device.name@,
            volume.device.display_name(),
            efi_root(),
            entries@,
            entries@.len(),
        ).found,
        None => Seq::empty(),
    }
}

/// The option that the ext2 side of a volume gives, if any.
pub open spec fn extlinux_options(volume: Volume) -> Seq<BootChoice> {
    match probe_outcome(volume.device.name@, volume.extlinux) {
        Ok(entry) => seq![BootChoice::ExtlinuxEntry(entry)],
        Err(_) => Seq::empty(),
    }
}

/// The options that one volume gives: none where it is no leaf of the
/// catalog, else its unified kernel images and behind them its `extlinux`
/// entry. Whatever fails on the volume only shortens this list.
pub open spec fn volume_options(volume: Volume) -> Seq<BootChoice> {
    if volume.device.is_leaf {
        esp_options(volume) + extlinux_options(volume)
    } else {
        Seq::empty()
    }
}

/// The options that the first `count` volumes give, volume by volume in the
/// order of the catalog.
pub open spec fn scan_result(volumes: Seq<Volume>, count: nat) -> Seq<BootChoice>
    decreases count,
{
    if count == 0 || count > volumes.len() {
        Seq::empty()
    } else {
        scan_result(volumes, (count - 1) as nat) + volume_options(volumes[count - 1])
    }
}

/// Puts the options that `volume` gives behind what `options` holds.
pub fn scan_volume(volume: Volume, options: &mut Vec<BootOption>)
    ensures
        choices(final(options)@) == choices(old(options)@) + volume_options(volume),
{
    let Volume { device, efi, extlinux } = volume;
    if !device.is_leaf {
        assert(choices(options@) =~= choices(old(options)@) + Seq::<BootChoice>::empty());
        return ;
    }
    match &efi {
        Some(entries) => {
            let root: Vec<u8> = esp_root();
            let _ = scan_esp(&device, root.as_slice(), entries, options);
        },
        None => {
            assert(choices(options@) =~= choices(old(options)@) + Seq::<BootChoice>::empty());
        },
    }
    let ghost held = options@;
    match crate::extlinux::scan(device.name.as_slice(), extlinux) {
        Ok(config) => {
            let option: BootOption = BootOption::ExtlinuxEntry(config);
            proof {
                choices_push(held, option);
            }
            options.push(option);
        },
        Err(_) => {},
    }
    assert(choices(options@) =~= choices(old(options)@) + (esp_options(volume)
        + extlinux_options(volume)));
}

/// Builds the list of boot options from the volumes of the catalog. The list
/// keeps the order of the volumes; within a volume the unified kernel images
/// come before the `extlinux` entry.
pub fn boot_scan(volumes: Vec<Volume>) -> (options: Vec<BootOption>)
    ensures
        choices(options@) == scan_result(volumes@, volumes@.len()),
{
    let mut options: Vec<BootOption> = Vec::new();
    let ghost all = volumes@;
    assert(choices(options@) =~= Seq::<BootChoice>::empty());
    for volume in iter: volumes
        invariant
            iter.seq() == all,
            choices(options@) == scan_result(all, iter.index() as nat),
    {
        scan_volume(volume, &mut options);
    }
    options
}

/// Whether a container has the three parts that a boot needs: a kernel, a
/// ramdisk and a device tree, each inside the file.
pub open spec fn has_required_sections(image: Seq<u8>) -> bool {
    &&& usable_section(image, ".linux"@) is Some
    &&& usable_section(image, ".initrd"@) is Some
    &&& usable_section(image, ".dtb"@) is Some
}

/// Each `.efi` file that is a container gives exactly one option where it
/// has a kernel, a ramdisk and a device tree, and none where one of the
/// three is missing.
pub proof fn one_option_per_image(
    volume: Seq<u8>,
    fallback: Seq<u8>,
    root: Seq<u8>,
    name: Vec<u8>,
    data: Vec<u8>,
)
    requires
        ends_with(name@, efi_suffix()),
        container_parses(data@),
    ensures
        has_required_sections(data@) ==> scan_entry(
            volume,
            fallback,
            root,
            DirEntry::File { name, data: Some(data) },
        ).found.len() == 1,
        !has_required_sections(data@) ==> scan_entry(
            volume,
            fallback,
            root,
            DirEntry::File { name, data: Some(data) },
        ).found.len() == 0,
        scan_entry(volume, fallback, root, DirEntry::File { name, data: Some(data) }).complete,
{
    assert(!is_dot_entry(name@)) by {
        if is_dot_entry(name@) {
            assert(seq![0x2eu8].len() == 1);
            assert(seq![0x2eu8, 0x2eu8].len() == 2);
            assert(efi_suffix().len() == 4);
        }
    }
}

} // verus!
