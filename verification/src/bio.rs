//! Block devices as the platform's catalog lists them.

use crate::lk_list::closed_arena;
use crate::lk_list::collect;
use crate::lk_list::items;
use crate::lk_list::list_node;
use crate::text::is_utf8;
use crate::text::to_vec;
use vstd::prelude::*;
use vstd::utf8::valid_utf8;

verus! {

/// One entry of the block-device catalog.
#[derive(Debug, Clone)]
pub struct BlockDev {
    pub name: Vec<u8>,
    pub size: usize,
    pub block_size: u64,
    pub block_count: u32,
    pub label: Option<Vec<u8>>,
    pub is_leaf: bool,
}

/// The mathematical value of a `BlockDev`.
pub struct BlockDevInfo {
    pub name: Seq<u8>,
    pub size: usize,
    pub block_size: u64,
    pub block_count: u32,
    pub label: Option<Seq<u8>>,
    pub is_leaf: bool,
}

impl View for BlockDev {
    type V = BlockDevInfo;

    open spec fn view(&self) -> BlockDevInfo {
        BlockDevInfo {
            name: self.name@,
            size: self.size,
            block_size: self.block_size,
            block_count: self.block_count,
            label: match self.label {
                Some(label) => Some(label@),
                None => None,
            },
            is_leaf: self.is_leaf,
        }
    }
}

impl BlockDev {
    /// What the volume is called where an image on it names nothing: its
    /// label where it has one, else its device name.
    pub open spec fn display_name(&self) -> Seq<u8> {
        match self.label {
            Some(label) => label@,
            None => self.name@,
        }
    }

    /// The volume's label where it has one, else its device name.
    pub fn fallback_label(&self) -> (text: Vec<u8>)
        ensures
            text@ == self.display_name(),
    {
        match &self.label {
            Some(label) => to_vec(label.as_slice()),
            None => to_vec(self.name.as_slice()),
        }
    }
}

/// One device as the platform's catalog holds it: the name and the label are
/// the bytes of its strings, the label absent where the platform has none.
#[allow(non_camel_case_types)]
#[derive(Debug)]
pub struct bdev_t {
    pub name: Vec<u8>,
    pub size: usize,
    pub block_size: u64,
    pub block_count: u32,
    pub label: Option<Vec<u8>>,
    pub is_leaf: bool,
}

/// The catalog entry that a device gives: none where its name is not UTF-8;
/// a label that is not UTF-8 is left out.
pub open spec fn listed(dev: bdev_t) -> Option<BlockDevInfo> {
    if !valid_utf8(dev.name@) {
        None
    } else {
        Some(
            BlockDevInfo {
                name: dev.name@,
                size: dev.size,
                block_size: dev.block_size,
                block_count: dev.block_count,
                label: match dev.label {
                    Some(label) => if valid_utf8(label@) {
                        Some(label@)
                    } else {
                        None
                    },
                    None => None,
                },
                is_leaf: dev.is_leaf,
            },
        )
    }
}

/// The catalog entries that the first `count` nodes of `order` give, in
/// order. A node stands for the device at its index.
pub open spec fn catalog(devices: Seq<bdev_t>, order: Seq<usize>, count: nat) -> Seq<BlockDevInfo>
    decreases count,
{
    if count == 0 || count > order.len() {
        Seq::empty()
    } else {
        let before = catalog(devices, order, (count - 1) as nat);
        let index = order[count - 1] as int;
        if index < devices.len() && listed(devices[index]) is Some {
            before.push(listed(devices[index])->0)
        } else {
            before
        }
    }
}

/// The values of a list of catalog entries.
pub open spec fn infos(devs: Seq<BlockDev>) -> Seq<BlockDevInfo> {
    devs.map_values(|dev: BlockDev| dev@)
}

/// The catalog entry of one device, where it gives one.
pub fn describe(dev: &bdev_t) -> (entry: Option<BlockDev>)
    ensures
        entry is Some <==> listed(*dev) is Some,
        entry is Some ==> listed(*dev) == Some(entry->0@),
{
    if !is_utf8(dev.name.as_slice()) {
        return None;
    }
    let label: Option<Vec<u8>> = match &dev.label {
        Some(label) => if is_utf8(label.as_slice()) {
            Some(to_vec(label.as_slice()))
        } else {
            None
        },
        None => None,
    };
    Some(
        BlockDev {
            name: to_vec(dev.name.as_slice()),
            size: dev.size,
            block_size: dev.block_size,
            block_count: dev.block_count,
            label,
            is_leaf: dev.is_leaf,
        },
    )
}

/// The block devices of the platform, in the order of its list: `nodes` is
/// the arena of the list's nodes, `list` the head, and the node at an index
/// belongs to the device at that index.
pub fn get_bdevs(nodes: &[list_node], list: usize, devices: &[bdev_t]) -> (devs: Vec<BlockDev>)
    ensures
        infos(devs@) == if closed_arena(nodes@) {
            catalog(devices@, items(nodes@, list as int), items(nodes@, list as int).len())
        } else {
            Seq::empty()
        },
{
    let order: Vec<usize> = collect(nodes, list);
    let mut devs: Vec<BlockDev> = Vec::new();
    let mut i: usize = 0;
    assert(infos(devs@) =~= Seq::<BlockDevInfo>::empty());
    while i < order.len()
        invariant
            0 <= i <= order@.len(),
            infos(devs@) == catalog(devices@, order@, i as nat),
        decreases order@.len() - i,
    {
        let index: usize = order[i];
        let ghost held = devs@;
        if index < devices.len() {
            match describe(&devices[index]) {
                Some(dev) => {
                    assert(infos(held.push(dev)) =~= infos(held).push(dev@));
                    devs.push(dev);
                },
                None => {},
            }
        }
        i += 1;
    }
    assert(catalog(devices@, Seq::<usize>::empty(), 0) =~= Seq::<BlockDevInfo>::empty());
    devs
}

/// Why a device could not be read or written.
#[derive(Debug, Clone, Copy, PartialEq, Eq, Structural)]
pub enum BioError {
    /// The device ended before the read was complete.
    UnexpectedEOF,
    /// A write took no bytes.
    WriteZero,
    /// The platform's read failed with this code.
    ReadError { code: i64 },
}

/// Where a seek is measured from.
#[derive(Debug, Clone, Copy, PartialEq, Eq, Structural)]
pub enum SeekFrom {
    /// From the start of the device.
    Start(u64),
    /// From the end of the device.
    End(i64),
    /// From the position as it is.
    Current(i64),
}

/// The position that a seek leads to, on a device of `size` bytes that
/// stands at `position`.
pub open spec fn seek_target(position: int, size: int, pos: SeekFrom) -> int {
    match pos {
        SeekFrom::Start(offset) => offset as int,
        SeekFrom::End(offset) => size + offset,
        SeekFrom::Current(offset) => position + offset,
    }
}

/// An open block device: its size and the position that the next read
/// starts at.
#[derive(Debug)]
pub struct OpenDevice {
    read_pos: u64,
    size: u64,
}

impl OpenDevice {
    /// The position that the next read starts at.
    pub closed spec fn position(&self) -> int {
        self.read_pos as int
    }

    /// The size of the device in bytes.
    pub closed spec fn device_size(&self) -> int {
        self.size as int
    }

    /// A device of `size` bytes that was just opened: it stands at its start.
    pub fn new(size: u64) -> (device: Self)
        ensures
            device.position() == 0,
            device.device_size() == size,
    {
        OpenDevice { read_pos: 0, size }
    }

    /// The position that the next read starts at.
    pub fn read_pos(&self) -> (position: u64)
        ensures
            position == self.position(),
    {
        self.read_pos
    }

    /// Takes note of what a read returned: a negative value is the
    /// platform's error code, any other the number of bytes read, by which
    /// the position moves on. A read that would move the position past the
    /// last address counts as one past the end of the device.
    pub fn read(&mut self, ret: i64) -> (count: Result<usize, BioError>)
        ensures
            final(self).device_size() == old(self).device_size(),
            count is Ok <==> 0 <= ret <= usize::MAX && old(self).position() + ret <= u64::MAX,
            ret < 0 ==> count == Err::<usize, BioError>(BioError::ReadError { code: ret }),
            ret >= 0 && count is Err ==> count == Err::<usize, BioError>(BioError::UnexpectedEOF),
            count is Err ==> final(self).position() == old(self).position(),
            count is Ok ==> count->Ok_0 == ret && final(self).position() == old(self).position()
                + ret,
    {
        if ret < 0 {
            return Err(BioError::ReadError { code: ret });
        }
        let read: u64 = ret as u64;
        if read > u64::MAX - self.read_pos || read > usize::MAX as u64 {
            return Err(BioError::UnexpectedEOF);
        }
        self.read_pos = self.read_pos + read;
        Ok(read as usize)
    }

    /// Moves the position. The answer is the new position; there is none,
    /// and the position stays, where the seek leads before the start of the
    /// device or past the last address.
    pub fn seek(&mut self, pos: SeekFrom) -> (position: Option<u64>)
        ensures
            final(self).device_size() == old(self).device_size(),
            position is Some <==> 0 <= seek_target(
                old(self).position(),
                old(self).device_size(),
                pos,
            ) <= u64::MAX,
            position is Some ==> position->0 == seek_target(
                old(self).position(),
                old(self).device_size(),
                pos,
            ) && final(self).position() == position->0,
            position is None ==> final(self).position() == old(self).position(),
    {
        let target: Option<u64> = match pos {
            SeekFrom::Start(offset) => Some(offset),
            SeekFrom::End(offset) => move_by(self.size, offset),
            SeekFrom::Current(offset) => move_by(self.read_pos, offset),
        };
        match target {
            Some(to) => {
                self.read_pos = to;
                Some(to)
            },
            None => None,
        }
    }
}

/// The position `offset` bytes from `from`, where that is a position.
fn move_by(from: u64, offset: i64) -> (to: Option<u64>)
    ensures
        to is Some <==> 0 <= from + offset <= u64::MAX,
        to is Some ==> to->0 == from + offset,
{
    if offset >= 0 {
        let up: u64 = offset as u64;
        if up > u64::MAX - from {
            None
        } else {
            Some(from + up)
        }
    } else {
        let down: u64 = if offset == i64::MIN {
            0x8000_0000_0000_0000
        } else {
            (-offset) as u64
        };
        if down > from {
            None
        } else {
            Some(from - down)
        }
    }
}

} // verus!
