//! The trusted boundary to the operating system: one small wrapper per
//! filesystem call the store relies on. Every result depends on the shared
//! state of the filesystem, so the wrappers promise only what holds of
//! every outcome; the store's logic is verified against these contracts.

use vstd::prelude::*;

use crate::errors::FsError;

verus! {

/// Relies on nix::unistd::mkdir: creates the directory, reporting an
/// existing target as `AlreadyExists` and any other failure as its errno.
#[verifier::external_body]
pub(crate) fn mkdir_path(path: &Vec<u8>) -> (r: Result<(), FsError>)
{
    match nix::unistd::mkdir(path.as_slice(), nix::sys::stat::Mode::from_bits_truncate(0o777)) {
        Ok(()) => Ok(()),
        Err(nix::errno::Errno::EEXIST) => Err(FsError::AlreadyExists),
        Err(e) => Err(FsError::Os(e as i32)),
    }
}

/// Relies on nix::dir::Dir: opens `path` as a directory and returns the raw
/// bytes of every entry name, dot entries included, in whatever order the
/// filesystem walks them.
#[verifier::external_body]
pub(crate) fn list_dir(path: &Vec<u8>) -> (r: Result<Vec<Vec<u8>>, i32>)
{
    let flags = nix::fcntl::OFlag::O_RDONLY | nix::fcntl::OFlag::O_DIRECTORY;
    let mut dir = match nix::dir::Dir::open(path.as_slice(), flags, nix::sys::stat::Mode::empty()) {
        Ok(d) => d,
        Err(e) => return Err(e as i32),
    };
    let mut names = Vec::new();
    for entry in dir.iter() {
        match entry {
            Ok(en) => names.push(en.file_name().to_bytes().to_vec()),
            Err(e) => return Err(e as i32),
        }
    }
    Ok(names)
}

/// Relies on nix::unistd::mkstemp: creates a uniquely named file from the
/// template (whose final six bytes must be `XXXXXX`, else it fails with
/// EINVAL) and returns the open descriptor and the name actually created,
/// which differs from the template only in those final six bytes — so the
/// file sits in the template's own directory.
#[verifier::external_body]
pub(crate) fn mkstemp_in(template: &Vec<u8>) -> (r: Result<(i32, Vec<u8>), i32>)
    ensures
        r matches Ok(p) ==> p.1@.len() == template@.len() && p.1@.subrange(
            0,
            template@.len() - 6,
        ) == template@.subrange(0, template@.len() - 6),
{
    match nix::unistd::mkstemp(template.as_slice()) {
        Ok((fd, p)) => match p.to_str() {
            Some(s) => Ok((fd, s.as_bytes().to_vec())),
            None => Err(nix::errno::Errno::EINVAL as i32),
        },
        Err(e) => Err(e as i32),
    }
}

/// Relies on nix::unistd::write: writes some prefix of `buf` to the open
/// descriptor and returns how many bytes were taken.
#[verifier::external_body]
pub(crate) fn write_fd(fd: i32, buf: &[u8]) -> (r: Result<usize, i32>)
    ensures
        r matches Ok(n) ==> n <= buf@.len(),
{
    match nix::unistd::write(fd, buf) {
        Ok(n) => Ok(n),
        Err(e) => Err(e as i32),
    }
}

/// Relies on nix::unistd::read: reads the next bytes from the open
/// descriptor; an empty result means end of file.
#[verifier::external_body]
pub(crate) fn read_fd_chunk(fd: i32) -> (r: Result<Vec<u8>, i32>)
{
    let mut buf: Vec<u8> = Vec::new();
    buf.resize(4096, 0);
    match nix::unistd::read(fd, &mut buf) {
        Ok(n) => {
            buf.truncate(n);
            Ok(buf)
        },
        Err(e) => Err(e as i32),
    }
}

/// Relies on nix::unistd::fdatasync: forces the descriptor's written data
/// to durable storage.
#[verifier::external_body]
pub(crate) fn fdatasync_fd(fd: i32) -> (r: Result<(), i32>)
{
    match nix::unistd::fdatasync(fd) {
        Ok(()) => Ok(()),
        Err(e) => Err(e as i32),
    }
}

/// Relies on nix::unistd::linkat without following symlinks: gives the file
/// at `oldpath` the additional name `newpath`, failing with `AlreadyExists`
/// when that name is already taken.
#[verifier::external_body]
pub(crate) fn link_nofollow(oldpath: &Vec<u8>, newpath: &Vec<u8>) -> (r: Result<(), FsError>)
{
    let res = nix::unistd::linkat(
        None,
        oldpath.as_slice(),
        None,
        newpath.as_slice(),
        nix::unistd::LinkatFlags::NoSymlinkFollow,
    );
    match res {
        Ok(()) => Ok(()),
        Err(nix::errno::Errno::EEXIST) => Err(FsError::AlreadyExists),
        Err(e) => Err(FsError::Os(e as i32)),
    }
}

/// Relies on nix::sys::stat::stat: returns how many names link to the file
/// at `path`.
#[verifier::external_body]
pub(crate) fn nlink_of(path: &Vec<u8>) -> (r: Result<u64, i32>)
{
    match nix::sys::stat::stat(path.as_slice()) {
        Ok(st) => Ok(st.st_nlink as u64),
        Err(e) => Err(e as i32),
    }
}

/// Relies on nix::sys::stat::fchmodat: makes the file at `path` readable by
/// everyone.
#[verifier::external_body]
pub(crate) fn set_world_readable(path: &Vec<u8>) -> (r: Result<(), i32>)
{
    let mode = nix::sys::stat::Mode::from_bits_truncate(0o644);
    match nix::sys::stat::fchmodat(None, path.as_slice(), mode, nix::sys::stat::FchmodatFlags::FollowSymlink) {
        Ok(()) => Ok(()),
        Err(e) => Err(e as i32),
    }
}

/// Relies on nix::fcntl::open: opens the file at `path` read-only.
#[verifier::external_body]
pub(crate) fn open_read(path: &Vec<u8>) -> (r: Result<i32, i32>)
{
    match nix::fcntl::open(path.as_slice(), nix::fcntl::OFlag::O_RDONLY, nix::sys::stat::Mode::empty()) {
        Ok(fd) => Ok(fd),
        Err(e) => Err(e as i32),
    }
}

/// Relies on nix::unistd::unlink: removes the name `path`; the file's
/// content survives under any other name still linked to it.
#[verifier::external_body]
pub(crate) fn unlink_path(path: &Vec<u8>) -> (r: Result<(), i32>)
    opens_invariants none
    no_unwind
{
    match nix::unistd::unlink(path.as_slice()) {
        Ok(()) => Ok(()),
        Err(e) => Err(e as i32),
    }
}

/// Relies on nix::unistd::close: releases the open descriptor.
#[verifier::external_body]
pub(crate) fn close_fd(fd: i32) -> (r: Result<(), i32>)
    opens_invariants none
    no_unwind
{
    match nix::unistd::close(fd) {
        Ok(()) => Ok(()),
        Err(e) => Err(e as i32),
    }
}

} // verus!
