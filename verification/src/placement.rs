//! Where the kernel, the device tree and the ramdisk go in memory.

use vstd::prelude::*;

verus! {

/// The size of the region that is set aside for the device tree: 2 MiB.
pub const DTB_REGION: u64 = 0x20_0000;

/// Whether `addr` lies on a boundary of eight bytes.
pub open spec fn is_aligned_8(addr: int) -> bool {
    addr % 8 == 0
}

/// The least multiple of eight that is not below `addr`.
pub open spec fn align_up_8(addr: int) -> int {
    (addr + 7) / 8 * 8
}

/// The address of the kernel: the header's text offset above the DRAM base.
pub open spec fn kernel_addr_of(dram_base: int, text_offset: int) -> int {
    dram_base + text_offset
}

/// The address of the device tree: at least 2 MiB past the end of the loaded
/// kernel image, on the next boundary of eight bytes.
pub open spec fn dtb_addr_of(dram_base: int, text_offset: int, image_size: int) -> int {
    align_up_8(kernel_addr_of(dram_base, text_offset) + image_size + DTB_REGION)
}

/// The address of the ramdisk: right behind the device tree's 2 MiB.
pub open spec fn initrd_addr_of(dram_base: int, text_offset: int, image_size: int) -> int {
    dtb_addr_of(dram_base, text_offset, image_size) + DTB_REGION
}

/// The three load addresses of one boot.
#[derive(Debug, Clone, Copy, PartialEq, Eq, Structural)]
pub struct MemoryPlacement {
    pub kernel_addr: u64,
    pub dtb_addr: u64,
    pub initrd_addr: u64,
}

impl MemoryPlacement {
    /// Whether the three addresses are those that the layout rules give for
    /// this DRAM base and this kernel header.
    pub open spec fn is_layout_of(&self, dram_base: int, text_offset: int, image_size: int) -> bool {
        &&& self.kernel_addr == kernel_addr_of(dram_base, text_offset)
        &&& self.dtb_addr == dtb_addr_of(dram_base, text_offset, image_size)
        &&& self.initrd_addr == initrd_addr_of(dram_base, text_offset, image_size)
    }

    /// Lays the three regions out. There is no placement where an address
    /// would pass the end of the address space.
    pub fn compute(dram_base: u64, text_offset: u64, image_size: u64) -> (placed: Option<Self>)
        ensures
            placed is Some <==> initrd_addr_of(dram_base as int, text_offset as int, image_size as int)
                <= u64::MAX,
            placed is Some ==> placed->0.is_layout_of(
                dram_base as int,
                text_offset as int,
                image_size as int,
            ),
    {
        proof {
            align_up_8_is_least(dram_base + text_offset + image_size + DTB_REGION);
        }
        let kernel_addr: u64 = match dram_base.checked_add(text_offset) {
            Some(a) => a,
            None => { return None; },
        };
        let kernel_end: u64 = match kernel_addr.checked_add(image_size) {
            Some(a) => a,
            None => { return None; },
        };
        let floor: u64 = match kernel_end.checked_add(DTB_REGION) {
            Some(a) => a,
            None => { return None; },
        };
        let padded: u64 = match floor.checked_add(7) {
            Some(a) => a,
            None => { return None; },
        };
        let dtb_addr: u64 = padded / 8 * 8;
        let initrd_addr: u64 = match dtb_addr.checked_add(DTB_REGION) {
            Some(a) => a,
            None => { return None; },
        };
        Some(MemoryPlacement { kernel_addr, dtb_addr, initrd_addr })
    }
}

/// `align_up_8(addr)` is a multiple of eight, not below `addr`, less than
/// eight above it, and no multiple of eight lies between the two.
pub proof fn align_up_8_is_least(addr: int)
    ensures
        is_aligned_8(align_up_8(addr)),
        addr <= align_up_8(addr) < addr + 8,
        forall|other: int| #[trigger] is_aligned_8(other) && addr <= other ==> align_up_8(addr) <= other,
{
}

/// The layout law: the kernel sits at base plus text offset, the device tree
/// at the least address on a boundary of eight that leaves 2 MiB behind the
/// kernel image, and the ramdisk 2 MiB behind the device tree.
pub proof fn placement_law(dram_base: int, text_offset: int, image_size: int)
    ensures
        kernel_addr_of(dram_base, text_offset) == dram_base + text_offset,
        is_aligned_8(dtb_addr_of(dram_base, text_offset, image_size)),
        dtb_addr_of(dram_base, text_offset, image_size) >= dram_base + text_offset + image_size
            + 0x20_0000,
        forall|other: int|
            #[trigger] is_aligned_8(other) && other >= dram_base + text_offset + image_size
                + 0x20_0000 ==> dtb_addr_of(dram_base, text_offset, image_size) <= other,
        initrd_addr_of(dram_base, text_offset, image_size) == dtb_addr_of(
            dram_base,
            text_offset,
            image_size,
        ) + 0x20_0000,
{
    align_up_8_is_least(dram_base + text_offset + image_size + DTB_REGION);
}

/// No region of a layout runs into another: the kernel image ends at least
/// 2 MiB before the device tree, a device tree of at most 2 MiB ends at or
/// before the ramdisk.
pub proof fn placement_regions_disjoint(
    dram_base: int,
    text_offset: int,
    image_size: int,
    dtb_len: int,
)
    requires
        0 <= image_size,
        0 <= dtb_len <= DTB_REGION,
    ensures
        kernel_addr_of(dram_base, text_offset) + image_size + DTB_REGION <= dtb_addr_of(
            dram_base,
            text_offset,
            image_size,
        ),
        dtb_addr_of(dram_base, text_offset, image_size) + dtb_len <= initrd_addr_of(
            dram_base,
            text_offset,
            image_size,
        ),
        dtb_addr_of(dram_base, text_offset, image_size) < initrd_addr_of(
            dram_base,
            text_offset,
            image_size,
        ),
{
    align_up_8_is_least(dram_base + text_offset + image_size + DTB_REGION);
}

} // verus!
