//! Boot entries that an `extlinux.conf` describes.
//!
//! Mounting the volume, reading the file and parsing its grammar are done by
//! the platform. This module names the files to ask for and decides what the
//! answers amount to.

use crate::text::append;
use crate::text::has_prefix;
use crate::text::starts_with;
use crate::text::to_vec;
use vstd::prelude::*;

verus! {

/// One parsed label of an `extlinux.conf`, as the platform's parser filled it.
#[allow(non_camel_case_types)]
#[derive(Debug, Clone)]
pub struct extlinux_label {
    pub label: Option<Vec<u8>>,
    pub kernel: Option<Vec<u8>>,
    pub initramfs: Option<Vec<u8>>,
    pub dtb: Option<Vec<u8>>,
    pub dtbdir: Option<Vec<u8>>,
    pub dtboverlays: Vec<Vec<u8>>,
    pub cmdline: Option<Vec<u8>>,
}

impl Default for extlinux_label {
    /// The label before the parser has touched it: nothing is set.
    fn default() -> (empty: Self)
        ensures
            empty.label is None,
            empty.kernel is None,
            empty.initramfs is None,
            empty.dtb is None,
            empty.dtbdir is None,
            empty.dtboverlays@.len() == 0,
            empty.cmdline is None,
    {
        extlinux_label {
            label: None,
            kernel: None,
            initramfs: None,
            dtb: None,
            dtbdir: None,
            dtboverlays: Vec::new(),
            cmdline: None,
        }
    }
}

/// A boot entry from an `extlinux.conf`.
#[derive(Debug, Clone)]
pub struct ExtLinuxBootConfig {
    pub label: extlinux_label,
    /// The label shown to the operator.
    pub name: Vec<u8>,
}

/// The mathematical value of an `ExtLinuxBootConfig`.
pub struct ExtlinuxEntry {
    pub label: extlinux_label,
    pub name: Seq<u8>,
}

impl View for ExtLinuxBootConfig {
    type V = ExtlinuxEntry;

    open spec fn view(&self) -> ExtlinuxEntry {
        ExtlinuxEntry { label: self.label, name: self.name@ }
    }
}

/// Why a volume gives no `extlinux` entry.
#[derive(Debug, Clone, Copy, PartialEq, Eq, Structural)]
pub enum ScanError {
    /// The volume does not mount as ext2.
    MountFailed,
    /// The volume has no readable `extlinux/extlinux.conf`.
    ConfigMissing,
    /// The configuration was read and the parser refused it.
    ConfigParseFailed,
}

/// How far the platform got with a volume's configuration.
#[derive(Debug, Clone)]
pub enum ConfigProbe {
    /// Mounting the volume failed.
    MountFailed,
    /// The file could not be opened, sized or read.
    Unreadable,
    /// The parser refused the text, or could not expand its paths.
    Refused,
    /// The parser filled this label.
    Parsed(extlinux_label),
}

/// Where a volume comes from, as far as its identifier tells.
#[derive(Debug, Clone, Copy, PartialEq, Eq, Structural)]
pub enum VolumeOrigin {
    Internal,
    Removable,
    Unknown,
}

/// The bytes of `wrp0`, with which the identifiers of internal volumes begin.
pub open spec fn internal_prefix() -> Seq<u8> {
    seq![0x77u8, 0x72u8, 0x70u8, 0x30u8]
}

/// The bytes of ` (internal)`.
pub open spec fn internal_suffix() -> Seq<u8> {
    seq![0x20u8, 0x28u8, 0x69u8, 0x6eu8, 0x74u8, 0x65u8, 0x72u8, 0x6eu8, 0x61u8, 0x6cu8, 0x29u8]
}

/// The bytes of ` (SD card)`.
pub open spec fn removable_suffix() -> Seq<u8> {
    seq![0x20u8, 0x28u8, 0x53u8, 0x44u8, 0x20u8, 0x63u8, 0x61u8, 0x72u8, 0x64u8, 0x29u8]
}

/// The bytes of `/extlinux/extlinux.conf`.
pub open spec fn config_suffix() -> Seq<u8> {
    seq![
        0x2fu8, 0x65u8, 0x78u8, 0x74u8, 0x6cu8, 0x69u8, 0x6eu8, 0x75u8, 0x78u8, 0x2fu8, 0x65u8,
        0x78u8, 0x74u8, 0x6cu8, 0x69u8, 0x6eu8, 0x75u8, 0x78u8, 0x2eu8, 0x63u8, 0x6fu8, 0x6eu8,
        0x66u8,
    ]
}

/// The origin that a volume's identifier tells: internal where it begins
/// with `wrp0`, removable where it is any other name, unknown where the
/// volume has no name.
pub open spec fn origin_of(partition: Seq<u8>) -> VolumeOrigin {
    if starts_with(partition, internal_prefix()) {
        VolumeOrigin::Internal
    } else if partition.len() > 0 {
        VolumeOrigin::Removable
    } else {
        VolumeOrigin::Unknown
    }
}

/// What is put behind an entry's label to tell volumes apart.
pub open spec fn origin_suffix(origin: VolumeOrigin) -> Seq<u8> {
    match origin {
        VolumeOrigin::Internal => internal_suffix(),
        VolumeOrigin::Removable => removable_suffix(),
        VolumeOrigin::Unknown => Seq::<u8>::empty(),
    }
}

/// The name under which an entry is shown: the label that the configuration
/// gave, or nothing, and behind it the mark of the volume's origin.
pub open spec fn entry_name(label: Option<Seq<u8>>, partition: Seq<u8>) -> Seq<u8> {
    let base = match label {
        Some(text) => text,
        None => Seq::<u8>::empty(),
    };
    base + origin_suffix(origin_of(partition))
}

/// Tells where a volume comes from.
pub fn infer_origin(partition: &[u8]) -> (origin: VolumeOrigin)
    ensures
        origin == origin_of(partition@),
{
    let prefix: [u8; 4] = [0x77, 0x72, 0x70, 0x30];
    assert(prefix@ =~= internal_prefix());
    if has_prefix(partition, prefix.as_slice()) {
        VolumeOrigin::Internal
    } else if partition.len() > 0 {
        VolumeOrigin::Removable
    } else {
        VolumeOrigin::Unknown
    }
}

/// Where the volume `partition` is mounted: at `/` and its name.
pub fn mountpoint(partition: &[u8]) -> (path: Vec<u8>)
    ensures
        path@ == seq![0x2fu8] + partition@,
{
    let mut path: Vec<u8> = Vec::new();
    path.push(0x2f);
    assert(path@ =~= seq![0x2fu8]);
    append(&mut path, partition);
    path
}

/// The path of the configuration on a volume mounted at `mountpoint`.
pub fn config_path(mountpoint: &[u8]) -> (path: Vec<u8>)
    ensures
        path@ == mountpoint@ + config_suffix(),
{
    let suffix: [u8; 23] = [
        0x2f, 0x65, 0x78, 0x74, 0x6c, 0x69, 0x6e, 0x75, 0x78, 0x2f, 0x65, 0x78, 0x74, 0x6c, 0x69,
        0x6e, 0x75, 0x78, 0x2e, 0x63, 0x6f, 0x6e, 0x66,
    ];
    assert(suffix@ =~= config_suffix());
    let mut path: Vec<u8> = to_vec(mountpoint);
    append(&mut path, suffix.as_slice());
    path
}

/// Whether the parser's return code reports success.
pub fn parse_accepted(code: i32) -> (ok: bool)
    ensures
        ok == (code >= 0),
{
    code >= 0
}

/// What the probe of the volume `partition` amounts to: one boot entry where
/// the parser filled a label, else the reason why there is none.
pub open spec fn probe_outcome(partition: Seq<u8>, probe: ConfigProbe) -> Result<
    ExtlinuxEntry,
    ScanError,
> {
    match probe {
        ConfigProbe::MountFailed => Err(ScanError::MountFailed),
        ConfigProbe::Unreadable => Err(ScanError::ConfigMissing),
        ConfigProbe::Refused => Err(ScanError::ConfigParseFailed),
        ConfigProbe::Parsed(label) => Ok(
            ExtlinuxEntry {
                label,
                name: entry_name(
                    match label.label {
                        Some(text) => Some(text@),
                        None => None,
                    },
                    partition,
                ),
            },
        ),
    }
}

/// Turns the probe of the volume `partition` into its boot entry, or into
/// the reason why it has none.
pub fn scan(partition: &[u8], probe: ConfigProbe) -> (found: Result<ExtLinuxBootConfig, ScanError>)
    ensures
        match probe_outcome(partition@, probe) {
            Ok(entry) => found is Ok && found->Ok_0@ == entry,
            Err(error) => found == Err::<ExtLinuxBootConfig, ScanError>(error),
        },
{
    match probe {
        ConfigProbe::MountFailed => Err(ScanError::MountFailed),
        ConfigProbe::Unreadable => Err(ScanError::ConfigMissing),
        ConfigProbe::Refused => Err(ScanError::ConfigParseFailed),
        ConfigProbe::Parsed(label) => {
            let mut name: Vec<u8> = match &label.label {
                Some(text) => to_vec(text.as_slice()),
                None => Vec::new(),
            };
            match infer_origin(partition) {
                VolumeOrigin::Internal => {
                    let mark: [u8; 11] = [
                        0x20, 0x28, 0x69, 0x6e, 0x74, 0x65, 0x72, 0x6e, 0x61, 0x6c, 0x29,
                    ];
                    assert(mark@ =~= internal_suffix());
                    append(&mut name, mark.as_slice());
                },
                VolumeOrigin::Removable => {
                    let mark: [u8; 10] = [0x20, 0x28, 0x53, 0x44, 0x20, 0x63, 0x61, 0x72, 0x64, 0x29];
                    assert(mark@ =~= removable_suffix());
                    append(&mut name, mark.as_slice());
                },
                VolumeOrigin::Unknown => {
                    assert(name@ + Seq::<u8>::empty() =~= name@);
                },
            }
            Ok(ExtLinuxBootConfig { label, name })
        },
    }
}

} // verus!
