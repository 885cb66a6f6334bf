//! Unified kernel images: reading their layout and loading them.

use crate::container::container_parses;
use crate::container::container_section_data;
use crate::container::section_of;
use crate::container::ContainerView;
use crate::container::SectionRange;
use crate::endian::le_value;
use crate::endian::le_value_bound;
use crate::endian::read_u32_le;
use crate::endian::read_u64_le;
use crate::memory::overwrite;
use crate::memory::PhysicalRegion;
use crate::osrel::contains_nul;
use crate::osrel::has_nul;
use crate::osrel::label_of;
use crate::osrel::osrel_label;
use crate::placement::dtb_addr_of;
use crate::placement::initrd_addr_of;
use crate::placement::kernel_addr_of;
use crate::placement::MemoryPlacement;
use crate::placement::DTB_REGION;
use crate::text::to_vec;
use vstd::prelude::*;

verus! {

/// Why a file is no boot candidate.
#[derive(Debug, Clone, Copy, PartialEq, Eq, Structural)]
pub enum UkiParseError {
    /// The file could not be opened.
    FileNotFound,
    /// The file is no container.
    InvalidObject,
    /// The container names no operating system.
    OSRelMissing,
    /// The container has no usable `.linux` section.
    KernelNotFound,
    /// The container has no usable `.initrd` section.
    InitrdNotFound,
    /// The container has no usable `.dtb` section.
    DtbNotFound,
}

/// What is known of one unified kernel image: where it lies, what it is
/// called, and where its parts lie in the file.
#[derive(Debug, Clone)]
pub struct UkiBootConfig {
    /// The name of the volume that holds the file.
    pub volume: Vec<u8>,
    /// The path of the file on that volume.
    pub path: Vec<u8>,
    /// The label shown to the operator.
    pub name: Vec<u8>,
    pub kernel: SectionRange,
    pub initrd: SectionRange,
    /// The kernel command line, without a terminator.
    pub commandline: Option<Vec<u8>>,
    pub dtb: SectionRange,
    pub splash: Option<SectionRange>,
}

/// The mathematical value of a `UkiBootConfig`.
pub struct UkiLayout {
    pub volume: Seq<u8>,
    pub path: Seq<u8>,
    pub name: Seq<u8>,
    pub kernel: SectionRange,
    pub initrd: SectionRange,
    pub commandline: Option<Seq<u8>>,
    pub dtb: SectionRange,
    pub splash: Option<SectionRange>,
}

impl View for UkiBootConfig {
    type V = UkiLayout;

    open spec fn view(&self) -> UkiLayout {
        UkiLayout {
            volume: self.volume@,
            path: self.path@,
            name: self.name@,
            kernel: self.kernel,
            initrd: self.initrd,
            commandline: match self.commandline {
                Some(line) => Some(line@),
                None => None,
            },
            dtb: self.dtb,
            splash: self.splash,
        }
    }
}

/// What the container reader found in one image: the file ranges of the
/// sections that are loaded, and the contents of those that are read, each
/// absent where the image has no such section.
#[derive(Debug, Clone)]
pub struct SectionReport {
    pub linux: Option<SectionRange>,
    pub initrd: Option<SectionRange>,
    pub dtb: Option<SectionRange>,
    pub splash: Option<SectionRange>,
    pub osrel: Option<Vec<u8>>,
    pub cmdline: Option<Vec<u8>>,
}

/// The mathematical value of a `SectionReport`.
pub struct SectionFacts {
    pub linux: Option<SectionRange>,
    pub initrd: Option<SectionRange>,
    pub dtb: Option<SectionRange>,
    pub splash: Option<SectionRange>,
    pub osrel: Option<Seq<u8>>,
    pub cmdline: Option<Seq<u8>>,
}

impl View for SectionReport {
    type V = SectionFacts;

    open spec fn view(&self) -> SectionFacts {
        SectionFacts {
            linux: self.linux,
            initrd: self.initrd,
            dtb: self.dtb,
            splash: self.splash,
            osrel: match self.osrel {
                Some(text) => Some(text@),
                None => None,
            },
            cmdline: match self.cmdline {
                Some(line) => Some(line@),
                None => None,
            },
        }
    }
}

/// What the container reader finds in `image`.
pub open spec fn report_of(image: Seq<u8>) -> SectionFacts {
    SectionFacts {
        linux: section_of(image, ".linux"@),
        initrd: section_of(image, ".initrd"@),
        dtb: section_of(image, ".dtb"@),
        splash: section_of(image, ".splash"@),
        osrel: container_section_data(image, ".osrel"@),
        cmdline: container_section_data(image, ".cmdline"@),
    }
}

/// The range where it is there and lies inside a file of `len` bytes.
pub open spec fn usable(range: Option<SectionRange>, len: int) -> Option<SectionRange> {
    match range {
        Some(found) => if found.within(len) {
            Some(found)
        } else {
            None
        },
        None => None,
    }
}

/// The range of the section `name`, where the container has the section and
/// the range lies inside the file.
pub open spec fn usable_section(image: Seq<u8>, name: Seq<char>) -> Option<SectionRange> {
    usable(section_of(image, name), image.len() as int)
}

/// The label that an `.osrel` section gives, if any.
pub open spec fn label_from(osrel: Option<Seq<u8>>) -> Option<Seq<u8>> {
    match osrel {
        Some(text) => label_of(text),
        None => None,
    }
}

/// The command line that a `.cmdline` section gives: its bytes, unless
/// there is a zero byte among them.
pub open spec fn cmdline_from(cmdline: Option<Seq<u8>>) -> Option<Seq<u8>> {
    match cmdline {
        Some(line) => if has_nul(line) {
            None
        } else {
            Some(line)
        },
        None => None,
    }
}

/// The boot configuration that a report comes to, for a file of `len` bytes.
///
/// A file without a kernel, a ramdisk or a device tree inside its bounds is
/// refused, in this order. A splash image outside the bounds is left out.
/// An image that names no operating system is called `fallback`.
pub open spec fn assembled(
    volume: Seq<u8>,
    path: Seq<u8>,
    len: int,
    report: SectionFacts,
    fallback: Seq<u8>,
) -> Result<UkiLayout, UkiParseError> {
    if usable(report.linux, len) is None {
        Err(UkiParseError::KernelNotFound)
    } else if usable(report.initrd, len) is None {
        Err(UkiParseError::InitrdNotFound)
    } else if usable(report.dtb, len) is None {
        Err(UkiParseError::DtbNotFound)
    } else {
        Ok(
            UkiLayout {
                volume,
                path,
                name: match label_from(report.osrel) {
                    Some(label) => label,
                    None => fallback,
                },
                kernel: report.linux->0,
                initrd: report.initrd->0,
                commandline: cmdline_from(report.cmdline),
                dtb: report.dtb->0,
                splash: usable(report.splash, len),
            },
        )
    }
}

/// What parsing a file as a unified kernel image gives: a file that could
/// not be opened or that is no container is refused; any other comes to what
/// the container reader's report of it comes to.
pub open spec fn uki_outcome(
    volume: Seq<u8>,
    path: Seq<u8>,
    image: Option<Seq<u8>>,
    fallback: Seq<u8>,
) -> Result<UkiLayout, UkiParseError> {
    match image {
        None => Err(UkiParseError::FileNotFound),
        Some(image) => if !container_parses(image) {
            Err(UkiParseError::InvalidObject)
        } else {
            assembled(volume, path, image.len() as int, report_of(image), fallback)
        },
    }
}

/// The label that an `.osrel` section gives, or that there is none.
pub fn uki_label(osrel: &Option<Vec<u8>>) -> (label: Result<Vec<u8>, UkiParseError>)
    ensures
        match label_from(
            match *osrel {
                Some(text) => Some(text@),
                None => None,
            },
        ) {
            Some(text) => label is Ok && label->Ok_0@ == text,
            None => label == Err::<Vec<u8>, UkiParseError>(UkiParseError::OSRelMissing),
        },
{
    let text: &Vec<u8> = match osrel {
        Some(text) => text,
        None => { return Err(UkiParseError::OSRelMissing); },
    };
    match osrel_label(text.as_slice()) {
        Some(label) => Ok(label),
        None => Err(UkiParseError::OSRelMissing),
    }
}

/// The range where it is there and lies inside a file of `len` bytes.
fn usable_range(range: Option<SectionRange>, len: usize) -> (kept: Option<SectionRange>)
    ensures
        kept == usable(range, len as int),
{
    match range {
        Some(found) => if found.fits(len) {
            Some(found)
        } else {
            None
        },
        None => None,
    }
}

/// Puts the boot configuration of one image together from what the
/// container reader found in it: `len` is the length of the file, `fallback`
/// the label of an image that names no operating system.
pub fn assemble_uki(
    volume: &[u8],
    path: &[u8],
    len: usize,
    report: SectionReport,
    fallback: &[u8],
) -> (config: Result<UkiBootConfig, UkiParseError>)
    ensures
        match assembled(volume@, path@, len as int, report@, fallback@) {
            Ok(layout) => config is Ok && config->Ok_0@ == layout,
            Err(error) => config == Err::<UkiBootConfig, UkiParseError>(error),
        },
{
    let SectionReport { linux, initrd, dtb, splash, osrel, cmdline } = report;
    let name: Vec<u8> = match uki_label(&osrel) {
        Ok(label) => label,
        Err(_) => to_vec(fallback),
    };
    let kernel: SectionRange = match usable_range(linux, len) {
        Some(range) => range,
        None => { return Err(UkiParseError::KernelNotFound); },
    };
    let initrd: SectionRange = match usable_range(initrd, len) {
        Some(range) => range,
        None => { return Err(UkiParseError::InitrdNotFound); },
    };
    let dtb: SectionRange = match usable_range(dtb, len) {
        Some(range) => range,
        None => { return Err(UkiParseError::DtbNotFound); },
    };
    let commandline: Option<Vec<u8>> = match cmdline {
        Some(line) => if contains_nul(line.as_slice()) {
            None
        } else {
            Some(line)
        },
        None => None,
    };
    Ok(
        UkiBootConfig {
            volume: to_vec(volume),
            path: to_vec(path),
            name,
            kernel,
            initrd,
            commandline,
            dtb,
            splash: usable_range(splash, len),
        },
    )
}

/// Asks the container reader for everything that a boot configuration is
/// made of.
pub fn read_report(view: &ContainerView) -> (report: SectionReport)
    ensures
        report@ == report_of(view.source()),
{
    SectionReport {
        linux: view.section(".linux"),
        initrd: view.section(".initrd"),
        dtb: view.section(".dtb"),
        splash: view.section(".splash"),
        osrel: view.section_bytes(".osrel"),
        cmdline: view.section_bytes(".cmdline"),
    }
}

/// Reads the file at `path` on `volume` as a unified kernel image. `image`
/// holds the file's bytes, or nothing where the file could not be opened;
/// `fallback` is the label of an image that names no operating system.
pub fn parse_uki(volume: &[u8], path: &[u8], image: Option<&[u8]>, fallback: &[u8]) -> (parsed:
    Result<UkiBootConfig, UkiParseError>)
    ensures
        match uki_outcome(
            volume@,
            path@,
            match image {
                Some(bytes) => Some(bytes@),
                None => None,
            },
            fallback@,
        ) {
            Ok(layout) => parsed is Ok && parsed->Ok_0@ == layout,
            Err(error) => parsed == Err::<UkiBootConfig, UkiParseError>(error),
        },
{
    let bytes: &[u8] = match image {
        Some(bytes) => bytes,
        None => { return Err(UkiParseError::FileNotFound); },
    };
    let view: ContainerView = match ContainerView::parse(bytes) {
        Ok(view) => view,
        Err(_) => { return Err(UkiParseError::InvalidObject); },
    };
    let report: SectionReport = read_report(&view);
    assemble_uki(volume, path, bytes.len(), report, fallback)
}

/// Why a boot did not happen.
#[derive(Debug, Clone, Copy, PartialEq, Eq, Structural)]
pub enum BootError {
    /// The image could not be read, or memory could not take it.
    Io,
    /// The kernel header does not carry the magic number.
    InvalidKernel,
    /// The device tree is larger than the 2 MiB set aside for it.
    DtbTooBig,
    /// The kernel was entered and control came back.
    Failed,
}

/// The magic number of a 64-bit kernel image, "ARM\x64" read little-endian.
pub const KERNEL_MAGIC: u32 = 0x644d_5241;

/// Where the text offset stands in the kernel header.
pub const TEXT_OFFSET_AT: u64 = 8;

/// Where the image size stands in the kernel header, right behind the text
/// offset.
pub const IMAGE_SIZE_AT: u64 = 16;

/// Where the magic number stands in the kernel header: 32 bytes behind the
/// end of the image size.
pub const MAGIC_AT: u64 = 56;

/// The length of the part of the kernel header that is read.
pub const HEADER_LEN: u64 = 60;

/// The fields of a kernel header that decide the load.
#[derive(Debug, Clone, Copy, PartialEq, Eq, Structural)]
pub struct KernelHeader {
    pub text_offset: u64,
    pub image_size: u64,
    pub magic: u32,
}

impl KernelHeader {
    /// Whether the header carries the magic number.
    pub open spec fn valid(&self) -> bool {
        self.magic == KERNEL_MAGIC
    }

    /// Tells whether the header carries the magic number.
    pub fn is_valid(&self) -> (ok: bool)
        ensures
            ok == self.valid(),
    {
        self.magic == KERNEL_MAGIC
    }
}

/// Whether the header of a kernel that starts at `start` can be read from
/// `image`.
pub open spec fn header_readable(image: Seq<u8>, start: int) -> bool {
    0 <= start && start + HEADER_LEN <= image.len()
}

/// The header of the kernel that starts at index `start` of `image`: three
/// little-endian numbers at fixed places.
pub open spec fn header_at(image: Seq<u8>, start: int) -> KernelHeader
    recommends
        header_readable(image, start),
{
    KernelHeader {
        text_offset: le_value(image.subrange(start + TEXT_OFFSET_AT, start + TEXT_OFFSET_AT + 8)) as u64,
        image_size: le_value(image.subrange(start + IMAGE_SIZE_AT, start + IMAGE_SIZE_AT + 8)) as u64,
        magic: le_value(image.subrange(start + MAGIC_AT, start + MAGIC_AT + 4)) as u32,
    }
}

/// Reads the header of the kernel that starts at `start`. The read fails
/// where the image ends before the header does.
pub fn read_header(image: &[u8], start: u64) -> (header: Result<KernelHeader, BootError>)
    ensures
        header is Ok <==> header_readable(image@, start as int),
        header is Ok ==> header->Ok_0 == header_at(image@, start as int),
        header is Err ==> header->Err_0 == BootError::Io,
{
    let len: usize = image.len();
    if len < 60 || start > (len - 60) as u64 {
        return Err(BootError::Io);
    }
    let at: usize = start as usize;
    let text_bytes: &[u8] = vstd::slice::slice_subrange(image, at + 8, at + 16);
    let size_bytes: &[u8] = vstd::slice::slice_subrange(image, at + 16, at + 24);
    let magic_bytes: &[u8] = vstd::slice::slice_subrange(image, at + 56, at + 60);
    proof {
        assert(text_bytes@.take(8) =~= text_bytes@);
        assert(size_bytes@.take(8) =~= size_bytes@);
        assert(magic_bytes@.take(4) =~= magic_bytes@);
        le_value_bound(text_bytes@);
        le_value_bound(size_bytes@);
        le_value_bound(magic_bytes@);
    }
    let text_offset: u64 = read_u64_le(text_bytes);
    let image_size: u64 = read_u64_le(size_bytes);
    let magic: u32 = read_u32_le(magic_bytes);
    Ok(KernelHeader { text_offset, image_size, magic })
}

/// Whether the region starting at `base` with `mem_len` bytes has room for
/// `len` bytes at `addr`.
pub open spec fn has_room(base: int, mem_len: int, addr: int, len: int) -> bool {
    base <= addr && addr + len <= base + mem_len
}

/// What loading `config` from `image` into a region of `mem_len` bytes at
/// `base` comes to.
///
/// A device tree of more than 2 MiB is refused first. Then the header is read
/// and its magic number checked. Then everything that a copy could fail on is
/// checked: the three ranges must lie in the image, the addresses must exist,
/// and the region must have room for the three parts.
pub open spec fn boot_plan(image: Seq<u8>, config: UkiLayout, base: int, mem_len: int) -> Result<
    MemoryPlacement,
    BootError,
> {
    let start = config.kernel.start_offset as int;
    let header = header_at(image, start);
    let text_offset = header.text_offset as int;
    let image_size = header.image_size as int;
    if config.dtb.length > DTB_REGION {
        Err(BootError::DtbTooBig)
    } else if !header_readable(image, start) {
        Err(BootError::Io)
    } else if !header.valid() {
        Err(BootError::InvalidKernel)
    } else if !config.kernel.within(image.len() as int) || !config.dtb.within(image.len() as int)
        || !config.initrd.within(image.len() as int) {
        Err(BootError::Io)
    } else if initrd_addr_of(base, text_offset, image_size) > u64::MAX {
        Err(BootError::Io)
    } else if !has_room(
        base,
        mem_len,
        kernel_addr_of(base, text_offset),
        config.kernel.length as int,
    ) || !has_room(
        base,
        mem_len,
        dtb_addr_of(base, text_offset, image_size),
        config.dtb.length as int,
    ) || !has_room(
        base,
        mem_len,
        initrd_addr_of(base, text_offset, image_size),
        config.initrd.length as int,
    ) {
        Err(BootError::Io)
    } else {
        Ok(
            MemoryPlacement {
                kernel_addr: kernel_addr_of(base, text_offset) as u64,
                dtb_addr: dtb_addr_of(base, text_offset, image_size) as u64,
                initrd_addr: initrd_addr_of(base, text_offset, image_size) as u64,
            },
        )
    }
}

/// Memory after a load: the kernel's bytes at its address, then the device
/// tree's, then the ramdisk's, each laid over what was there.
pub open spec fn loaded(
    before: Seq<u8>,
    base: int,
    image: Seq<u8>,
    config: UkiLayout,
    placement: MemoryPlacement,
) -> Seq<u8> {
    let with_kernel = overwrite(before, placement.kernel_addr - base, config.kernel.bytes_of(image));
    let with_dtb = overwrite(with_kernel, placement.dtb_addr - base, config.dtb.bytes_of(image));
    overwrite(with_dtb, placement.initrd_addr - base, config.initrd.bytes_of(image))
}

/// Checks the kernel in `image` and copies kernel, device tree and ramdisk
/// to their places in `memory`, whose base is the DRAM base.
///
/// Every failure is found before the first byte is written: on an error
/// `memory` is as it was. On success the caller holds the three addresses and
/// goes on to enter the kernel.
pub fn boot(image: &[u8], config: &UkiBootConfig, memory: &mut PhysicalRegion) -> (done: Result<
    MemoryPlacement,
    BootError,
>)
    ensures
        final(memory).base_addr() == old(memory).base_addr(),
        done == boot_plan(
            image@,
            config@,
            old(memory).base_addr(),
            old(memory).contents().len() as int,
        ),
        done is Err ==> final(memory).contents() == old(memory).contents(),
        done is Ok ==> final(memory).contents() == loaded(
            old(memory).contents(),
            old(memory).base_addr(),
            image@,
            config@,
            done->Ok_0,
        ),
{
    if config.dtb.length > DTB_REGION {
        return Err(BootError::DtbTooBig);
    }
    let header: KernelHeader = match read_header(image, config.kernel.start_offset) {
        Ok(header) => header,
        Err(error) => { return Err(error); },
    };
    if !header.is_valid() {
        return Err(BootError::InvalidKernel);
    }
    if !config.kernel.fits(image.len()) || !config.dtb.fits(image.len()) || !config.initrd.fits(
        image.len(),
    ) {
        return Err(BootError::Io);
    }
    let base: u64 = memory.base();
    let placement: MemoryPlacement = match MemoryPlacement::compute(
        base,
        header.text_offset,
        header.image_size,
    ) {
        Some(placement) => placement,
        None => { return Err(BootError::Io); },
    };
    if !memory.contains(placement.kernel_addr, config.kernel.length) || !memory.contains(
        placement.dtb_addr,
        config.dtb.length,
    ) || !memory.contains(placement.initrd_addr, config.initrd.length) {
        return Err(BootError::Io);
    }
    let _ = memory.write_slice(placement.kernel_addr, config.kernel.slice(image));
    let _ = memory.write_slice(placement.dtb_addr, config.dtb.slice(image));
    let _ = memory.write_slice(placement.initrd_addr, config.initrd.slice(image));
    Ok(placement)
}

/// What is handed to the platform's kernel entry. An address of 0 stands for
/// a null pointer.
#[derive(Debug, Clone)]
pub struct BootArgs {
    /// Where the kernel was loaded.
    pub kernel: u64,
    /// Where the device tree was loaded, or 0.
    pub tags: u64,
    /// The kernel command line, if there is one.
    pub cmdline: Option<Vec<u8>>,
    /// The platform's machine type.
    pub machtype: u32,
    /// Where the ramdisk was loaded, or 0.
    pub ramdisk: u64,
    /// The length of the ramdisk in bytes.
    pub ramdisk_size: u64,
}

/// What the kernel entry gets after a load: the three addresses of the
/// placement, the command line of the image as it stands in the container,
/// the machine type, and the length of the ramdisk.
pub fn boot_arguments(placement: &MemoryPlacement, config: &UkiBootConfig, machtype: u32) -> (args:
    BootArgs)
    ensures
        args.kernel == placement.kernel_addr,
        args.tags == placement.dtb_addr,
        args.ramdisk == placement.initrd_addr,
        args.ramdisk_size == config.initrd.length,
        args.machtype == machtype,
        args.cmdline is Some <==> config.commandline is Some,
        args.cmdline is Some ==> args.cmdline->0@ == config.commandline->0@,
{
    let cmdline: Option<Vec<u8>> = match &config.commandline {
        Some(line) => Some(to_vec(line.as_slice())),
        None => None,
    };
    BootArgs {
        kernel: placement.kernel_addr,
        tags: placement.dtb_addr,
        cmdline,
        machtype,
        ramdisk: placement.initrd_addr,
        ramdisk_size: config.initrd.length,
    }
}

/// An image with a device tree of more than 2 MiB is refused as too big,
/// whatever else holds of it, and nothing is written.
pub proof fn oversized_dtb_is_refused(image: Seq<u8>, config: UkiLayout, base: int, mem_len: int)
    requires
        config.dtb.length > 0x20_0000,
    ensures
        boot_plan(image, config, base, mem_len) == Err::<MemoryPlacement, BootError>(
            BootError::DtbTooBig,
        ),
{
}

/// A kernel whose header does not carry the magic number is refused as
/// invalid, where the device tree is not too big and the header can be read.
pub proof fn bad_magic_is_refused(image: Seq<u8>, config: UkiLayout, base: int, mem_len: int)
    requires
        config.dtb.length <= 0x20_0000,
        header_readable(image, config.kernel.start_offset as int),
        header_at(image, config.kernel.start_offset as int).magic != 0x644d_5241,
    ensures
        boot_plan(image, config, base, mem_len) == Err::<MemoryPlacement, BootError>(
            BootError::InvalidKernel,
        ),
{
}

/// A load that succeeds has put the three parts where the layout rules say,
/// for the text offset and image size that the kernel header gives.
pub proof fn boot_follows_layout(image: Seq<u8>, config: UkiLayout, base: int, mem_len: int)
    requires
        0 <= base <= u64::MAX,
        boot_plan(image, config, base, mem_len) is Ok,
    ensures
        boot_plan(image, config, base, mem_len)->Ok_0.is_layout_of(
            base,
            header_at(image, config.kernel.start_offset as int).text_offset as int,
            header_at(image, config.kernel.start_offset as int).image_size as int,
        ),
{
    let header = header_at(image, config.kernel.start_offset as int);
    crate::placement::align_up_8_is_least(
        base + header.text_offset + header.image_size + DTB_REGION,
    );
}

/// After a load that succeeds, memory holds the device tree at its address
/// and the ramdisk at its address, byte for byte, and the kernel at its
/// address where the kernel's bytes end before the device tree begins.
pub proof fn loaded_parts_read_back(before: Seq<u8>, base: int, image: Seq<u8>, config: UkiLayout)
    requires
        0 <= base <= u64::MAX,
        boot_plan(image, config, base, before.len() as int) is Ok,
    ensures
        ({
            let placement = boot_plan(image, config, base, before.len() as int)->Ok_0;
            let after = loaded(before, base, image, config, placement);
            &&& after.len() == before.len()
            &&& after.subrange(
                placement.initrd_addr - base,
                placement.initrd_addr - base + config.initrd.length,
            ) == config.initrd.bytes_of(image)
            &&& after.subrange(
                placement.dtb_addr - base,
                placement.dtb_addr - base + config.dtb.length,
            ) == config.dtb.bytes_of(image)
            &&& placement.kernel_addr + config.kernel.length <= placement.dtb_addr
                ==> after.subrange(
                placement.kernel_addr - base,
                placement.kernel_addr - base + config.kernel.length,
            ) == config.kernel.bytes_of(image)
        }),
{
    boot_follows_layout(image, config, base, before.len() as int);
    let placement = boot_plan(image, config, base, before.len() as int)->Ok_0;
    let after = loaded(before, base, image, config, placement);
    let kernel = config.kernel.bytes_of(image);
    let dtb = config.dtb.bytes_of(image);
    let initrd = config.initrd.bytes_of(image);
    assert(after.subrange(
        placement.initrd_addr - base,
        placement.initrd_addr - base + config.initrd.length,
    ) =~= initrd);
    assert(after.subrange(placement.dtb_addr - base, placement.dtb_addr - base + config.dtb.length)
        =~= dtb);
    if placement.kernel_addr + config.kernel.length <= placement.dtb_addr {
        assert(after.subrange(
            placement.kernel_addr - base,
            placement.kernel_addr - base + config.kernel.length,
        ) =~= kernel);
    }
}

} // verus!
