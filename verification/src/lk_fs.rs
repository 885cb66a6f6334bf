//! What the platform's filesystem calls answer, and what the answers mean.

use crate::osrel::contains_nul;
use crate::osrel::has_nul;
use crate::text::to_vec;
use vstd::prelude::*;

verus! {

/// The platform's code for a file that does not exist.
pub const ERR_NOT_FOUND: i32 = -2;

/// The platform's code for a mount point that is in use already; a volume
/// that is mounted already counts as mounted.
pub const ERR_ALREADY_MOUNTED: i32 = -19;

/// Why a file could not be opened.
#[derive(Debug, Clone, Copy, PartialEq, Eq, Structural)]
pub enum OpenError {
    /// The path holds a zero byte.
    InvalidPath,
    /// The platform signalled success and gave no handle.
    NoHandle,
    /// There is no such file.
    NotFound,
    /// The platform gave this error code.
    Unknown { code: i32 },
}

/// An open file of the platform: its handle, which is not null.
#[derive(Debug)]
pub struct LkFile {
    handle: usize,
}

/// What opening a file comes to, given the platform's return code and the
/// handle it wrote, 0 for none.
pub open spec fn open_outcome(ret: i32, handle: usize) -> Result<usize, OpenError> {
    if ret == ERR_NOT_FOUND {
        Err(OpenError::NotFound)
    } else if ret < 0 {
        Err(OpenError::Unknown { code: ret })
    } else if handle == 0 {
        Err(OpenError::NoHandle)
    } else {
        Ok(handle)
    }
}

impl LkFile {
    #[verifier::type_invariant]
    spec fn handle_is_set(self) -> bool {
        self.handle != 0
    }

    /// The platform's handle.
    pub closed spec fn raw(&self) -> usize {
        self.handle
    }

    /// The path as the platform takes it: the bytes of `path` and a zero
    /// byte behind them. A path with a zero byte in it is refused.
    pub fn path_for_open(path: &[u8]) -> (raw: Result<Vec<u8>, OpenError>)
        ensures
            raw is Ok <==> !has_nul(path@),
            raw is Ok ==> raw->Ok_0@ == path@.push(0u8),
            raw is Err ==> raw->Err_0 == OpenError::InvalidPath,
    {
        match c_string(path) {
            Some(raw) => Ok(raw),
            None => Err(OpenError::InvalidPath),
        }
    }

    /// The file that the platform opened, or why there is none: `ret` is the
    /// platform's return code, `handle` the handle it wrote, 0 for none.
    pub fn open(ret: i32, handle: usize) -> (file: Result<Self, OpenError>)
        ensures
            file is Ok <==> open_outcome(ret, handle) is Ok,
            file is Ok ==> file->Ok_0.raw() == handle,
            file is Err ==> open_outcome(ret, handle) == Err::<usize, OpenError>(file->Err_0),
    {
        if ret == ERR_NOT_FOUND {
            Err(OpenError::NotFound)
        } else if ret < 0 {
            Err(OpenError::Unknown { code: ret })
        } else if handle == 0 {
            Err(OpenError::NoHandle)
        } else {
            Ok(LkFile { handle })
        }
    }

    /// The platform's handle: never null.
    pub fn handle(&self) -> (raw: usize)
        ensures
            raw == self.raw(),
            raw != 0,
    {
        proof {
            use_type_invariant(self);
        }
        self.handle
    }

    /// The number of bytes that a read delivered, where the platform's
    /// return value reports no error.
    pub fn read(&self, ret: isize) -> (count: Option<usize>)
        ensures
            count is Some <==> ret >= 0,
            count is Some ==> count->0 == ret,
    {
        if ret >= 0 {
            Some(ret as usize)
        } else {
            None
        }
    }

    /// Whether the file is a directory, and its size, where the platform's
    /// return code reports no error and the size is one.
    pub fn stat(&self, ret: i32, is_dir: bool, size: i64) -> (found: Option<(bool, usize)>)
        ensures
            found is Some <==> ret >= 0 && 0 <= size <= usize::MAX,
            found is Some ==> found == Some((is_dir, size as usize)),
    {
        if ret >= 0 && size >= 0 && size as u64 <= usize::MAX as u64 {
            Some((is_dir, size as usize))
        } else {
            None
        }
    }
}

/// The text as the platform takes it: its bytes and a zero byte behind
/// them. There is none for a text with a zero byte in it.
pub fn c_string(text: &[u8]) -> (raw: Option<Vec<u8>>)
    ensures
        raw is Some <==> !has_nul(text@),
        raw is Some ==> raw->0@ == text@.push(0u8),
{
    if contains_nul(text) {
        return None;
    }
    let mut raw: Vec<u8> = to_vec(text);
    raw.push(0);
    Some(raw)
}

/// Whether a mount with this return code left the volume mounted: it did
/// where the code reports no error, or that the volume was mounted before.
pub fn mount(ret: i32) -> (mounted: bool)
    ensures
        mounted == (ret >= 0 || ret == ERR_ALREADY_MOUNTED),
{
    ret >= 0 || ret == ERR_ALREADY_MOUNTED
}

} // verus!
