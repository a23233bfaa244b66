//! The versioned directory store. A store owns a directory and a filename
//! prefix; each published version is an immutable file `<prefix><n>`, and
//! publishing is a compare-and-swap built on the atomicity of hard-link
//! creation.

use vstd::prelude::*;
use vstd::string::*;

use crate::errors::{CasError, FsError, StoreError};
use crate::names::{
    file_name_of, join_path, latest_version_in, lemma_file_name_meaningful, push_all,
    spec_file_name, spec_join, spec_parse_version, spec_version_path, version_name,
};
use crate::posix;

verus! {

/// An anonymous temporary file inside the store's directory. Its name is
/// unlinked when the handle is dropped, on every path out of scope; content
/// already published under a version name survives, because that name still
/// links to the same file.
pub struct TmpFile {
    fd: i32,
    path: Vec<u8>,
}

impl TmpFile {
    /// The filesystem name this handle owns until it is dropped.
    pub closed spec fn spec_path(&self) -> Seq<u8> {
        self.path@
    }

    /// The unique-name template placed in `directory`: the directory
    /// joined with six placeholder bytes.
    pub open spec fn spec_template(directory: Seq<u8>) -> Seq<u8> {
        spec_join(directory, seq![88u8, 88u8, 88u8, 88u8, 88u8, 88u8])
    }

    /// Creates a uniquely named writable file inside `directory` itself —
    /// the same-directory placement is what lets publishing link the file
    /// to a version name without leaving the filesystem. The created name
    /// is the template with only its final six placeholder bytes replaced,
    /// so it stays directly inside `directory`.
    pub fn create_in(directory: &Vec<u8>) -> (r: Result<TmpFile, StoreError>)
        ensures
            r matches Err(e) ==> e matches StoreError::Io(_),
            r matches Ok(t) ==> ({
                let template = Self::spec_template(directory@);
                &&& t.spec_path().len() == template.len()
                &&& t.spec_path().subrange(0, template.len() - 6) == template.subrange(
                    0,
                    template.len() - 6,
                )
            }),
    {
        let mut pattern: Vec<u8> = Vec::new();
        pattern.push(88);
        pattern.push(88);
        pattern.push(88);
        pattern.push(88);
        pattern.push(88);
        pattern.push(88);
        proof {
            assert(pattern@ =~= seq![88u8, 88u8, 88u8, 88u8, 88u8, 88u8]);
        }
        let template = join_path(directory, &pattern);
        match posix::mkstemp_in(&template) {
            Ok((fd, path)) => Ok(TmpFile { fd, path }),
            Err(e) => Err(StoreError::Io(e)),
        }
    }

    /// Writes all of `data` into the file, retrying partial writes until
    /// every byte is delivered. Writing nothing always succeeds.
    pub fn write_all(&self, data: &Vec<u8>) -> (r: Result<(), StoreError>)
        ensures
            r matches Err(e) ==> (e matches StoreError::Io(_) || e == StoreError::WriteZero),
            data@.len() == 0 ==> r is Ok,
    {
        let mut off: usize = 0;
        while off < data.len()
            invariant
                off <= data@.len(),
            decreases data@.len() - off,
        {
            let chunk = vstd::slice::slice_subrange(data.as_slice(), off, data.len());
            match posix::write_fd(self.fd, chunk) {
                Ok(n) => {
                    if n == 0 {
                        return Err(StoreError::WriteZero);
                    }
                    off = off + n;
                },
                Err(e) => {
                    return Err(StoreError::Io(e));
                },
            }
        }
        Ok(())
    }

    /// Nothing is buffered in user space, so there is nothing to move;
    /// durability is forced by `compare_and_swap` before it publishes.
    pub fn flush(&self) -> (r: Result<(), StoreError>)
        ensures
            r is Ok,
    {
        Ok(())
    }
}

impl Drop for TmpFile {
    /// Best-effort removal of the temporary name and release of the
    /// descriptor, whatever way control left the scope that owned it.
    fn drop(&mut self)
        opens_invariants none
        no_unwind
    {
        let _ = posix::unlink_path(&self.path);
        let _ = posix::close_fd(self.fd);
    }
}

/// A versioned directory store: one logical file whose contents many
/// independent processes can read and atomically update. All durable state
/// lives in the directory; the store value itself is only the identity
/// (directory, prefix).
pub struct AtomicFile {
    directory: Vec<u8>,
    prefix: Vec<u8>,
}

impl AtomicFile {
    /// The directory that holds every published version.
    pub closed spec fn spec_directory(&self) -> Seq<u8> {
        self.directory@
    }

    /// The prefix of every version file's name: the directory's final
    /// segment followed by a separating dot.
    pub closed spec fn spec_prefix(&self) -> Seq<u8> {
        self.prefix@
    }

    /// A store is well formed when its prefix is exactly the final segment
    /// of its directory path plus the separating dot.
    pub closed spec fn wf(&self) -> bool {
        &&& self.prefix@.len() >= 1
        &&& self.prefix@.last() == 46
        &&& spec_file_name(self.directory@) == Some(self.prefix@.drop_last())
    }

    /// A directory listing includes the directory's own dot entries, and a
    /// well-formed store can never mistake them for versions: its prefix
    /// is a real file name followed by a dot, which neither `.` nor `..`
    /// begins with.
    pub proof fn lemma_dot_entries_never_match(&self)
        requires
            self.wf(),
        ensures
            spec_parse_version(seq![46u8], self.spec_prefix()) is None,
            spec_parse_version(seq![46u8, 46u8], self.spec_prefix()) is None,
    {
        lemma_file_name_meaningful(self.directory@);
        let seg = self.prefix@.drop_last();
        assert(self.prefix@.len() >= 2);
        if self.prefix@.len() == 2 {
            assert(seg.len() == 1);
            if self.prefix@ == seq![46u8, 46u8] {
                assert(seg =~= seq![46u8]);
            }
            assert(seq![46u8, 46u8].subrange(0, 2) =~= seq![46u8, 46u8]);
        }
    }

    /// Open or create a store at `path`, creating parent directories as
    /// needed. The final segment of `path` names the store and becomes the
    /// version files' prefix; a path with no final segment is rejected.
    pub fn new(path: &str) -> (r: Result<AtomicFile, StoreError>)
        ensures
            r matches Ok(f) ==> {
                &&& f.wf()
                &&& f.spec_directory() == path.spec_bytes()
                &&& spec_file_name(path.spec_bytes()) == Some(f.spec_prefix().drop_last())
            },
            r matches Err(e) ==> (e == StoreError::InvalidPath || e matches StoreError::Io(_)),
            r == Err::<AtomicFile, StoreError>(StoreError::InvalidPath) ==> spec_file_name(
                path.spec_bytes(),
            ) is None,
    {
        let bytes: Vec<u8> = vstd::slice::slice_to_vec(path.as_bytes());
        match create_dir_all(&bytes) {
            Ok(()) => {},
            Err(e) => {
                return Err(e);
            },
        }
        let name = match file_name_of(&bytes) {
            Some(n) => n,
            None => {
                return Err(StoreError::InvalidPath);
            },
        };
        let ghost base = name@;
        let mut prefix = name;
        prefix.push(46);
        let f = AtomicFile { directory: bytes, prefix };
        proof {
            assert(f.prefix@ == base.push(46u8));
            assert(f.prefix@.drop_last() =~= base);
        }
        Ok(f)
    }

    /// The path under which version `version` of this store is published.
    pub fn path(&self, version: usize) -> (r: Vec<u8>)
        ensures
            r@ == spec_version_path(self.spec_directory(), self.spec_prefix(), version as int),
    {
        let name = version_name(&self.prefix, version);
        join_path(&self.directory, &name)
    }

    /// Load the latest published version: the maximum integer among the
    /// directory entries matching `<prefix><integer>`, or the sentinel 0
    /// when none has ever been published.
    pub fn load(&self) -> (r: Result<ReadOnlyFile, StoreError>)
        ensures
            r matches Ok(s) ==> s.spec_path() == spec_version_path(
                self.spec_directory(),
                self.spec_prefix(),
                s.spec_version() as int,
            ),
            r matches Err(e) ==> e matches StoreError::Io(_),
    {
        let entries = match posix::list_dir(&self.directory) {
            Ok(v) => v,
            Err(e) => {
                return Err(StoreError::Io(e));
            },
        };
        let version = latest_version_in(&entries, &self.prefix);
        let path = self.path(version);
        Ok(ReadOnlyFile { version, path })
    }

    /// Create a new temporary file in the store's own directory, ready to
    /// take the candidate content of the next version. Same-directory
    /// placement is required so that the publishing link stays within one
    /// filesystem.
    pub fn make_temp(&self) -> (r: Result<TmpFile, StoreError>)
        ensures
            r matches Err(e) ==> e matches StoreError::Io(_),
            r matches Ok(t) ==> ({
                let template = TmpFile::spec_template(self.spec_directory());
                &&& t.spec_path().len() == template.len()
                &&& t.spec_path().subrange(0, template.len() - 6) == template.subrange(
                    0,
                    template.len() - 6,
                )
            }),
    {
        TmpFile::create_in(&self.directory)
    }

    /// Publish the content of `new` as version `current.version() + 1`,
    /// provided that version number is still unclaimed.
    ///
    /// The new bytes are forced to durable storage first. The publish
    /// itself is one hard-link creation, which the filesystem makes atomic:
    /// at most one publisher can win each version name. When link creation
    /// reports an existing target, the temporary file's link count
    /// disambiguates: a count of exactly 2 means this handle did get its
    /// second name and the publish succeeded; any other count is a genuine
    /// conflict with another publisher. After success the version file is
    /// made world-readable on a best-effort basis.
    pub fn compare_and_swap(&self, current: &ReadOnlyFile, new: TmpFile) -> (r: Result<
        (),
        CasError,
    >)
        requires
            current.spec_version() < usize::MAX,
        ensures
            r matches Err(CasError::Failure(e)) ==> e matches StoreError::Io(_),
    {
        let target = self.path(current.version + 1);
        match posix::fdatasync_fd(new.fd) {
            Ok(()) => {},
            Err(e) => {
                return Err(CasError::Failure(StoreError::Io(e)));
            },
        }
        match posix::link_nofollow(&new.path, &target) {
            Ok(()) => {},
            Err(link_err) => {
                let count = posix::nlink_of(&new.path);
                match decide_publish(Err(link_err), count) {
                    Ok(()) => {},
                    Err(outcome) => {
                        return Err(outcome);
                    },
                }
            },
        }
        let _ = posix::set_world_readable(&target);
        Ok(())
    }
}

/// The publish decision, from the link attempt's outcome and — when the
/// link call reported failure — the link count of the temporary name.
///
/// A count of exactly 2 means the link actually took effect despite the
/// report: the temporary file now carries both its own name and the
/// version name, so the report was a false negative of a filesystem whose
/// create-if-absent is not fully atomic, and the publish succeeded. Any
/// other count after an `AlreadyExists` report is a genuine conflict; any
/// other count after a different link error is that error; a failed link
/// count lookup is its own error.
fn decide_publish(link: Result<(), FsError>, nlink: Result<u64, i32>) -> (r: Result<(), CasError>)
    ensures
        link is Ok ==> r is Ok,
        (link is Err && nlink == Ok::<u64, i32>(2u64)) ==> r is Ok,
        nlink matches Ok(n) ==> ((n != 2 && link == Err::<(), FsError>(FsError::AlreadyExists))
            ==> r == Err::<(), CasError>(CasError::Conflict)),
        link matches Err(FsError::Os(e)) ==> ((nlink matches Ok(n) && n != 2) ==> r == Err::<
            (),
            CasError,
        >(CasError::Failure(StoreError::Io(e)))),
        nlink matches Err(e) ==> (link is Err ==> r == Err::<(), CasError>(
            CasError::Failure(StoreError::Io(e)),
        )),
{
    match link {
        Ok(()) => Ok(()),
        Err(link_err) => match nlink {
            Ok(n) => {
                if n == 2 {
                    Ok(())
                } else {
                    match link_err {
                        FsError::AlreadyExists => Err(CasError::Conflict),
                        FsError::Os(e) => Err(CasError::Failure(StoreError::Io(e))),
                    }
                }
            },
            Err(e) => Err(CasError::Failure(StoreError::Io(e))),
        },
    }
}

/// Creates the directory at `path` and every parent of it that is missing,
/// as the segments of the path name them.
fn create_dir_all(path: &Vec<u8>) -> (r: Result<(), StoreError>)
    ensures
        r matches Err(e) ==> e matches StoreError::Io(_),
{
    let mut i: usize = 0;
    while i < path.len()
        invariant
            i <= path@.len(),
        decreases path@.len() - i,
    {
        if path[i] == 47 && i > 0 {
            let parent = vstd::slice::slice_to_vec(
                vstd::slice::slice_subrange(path.as_slice(), 0, i),
            );
            match posix::mkdir_path(&parent) {
                Ok(()) => {},
                Err(FsError::AlreadyExists) => {},
                Err(FsError::Os(e)) => {
                    return Err(StoreError::Io(e));
                },
            }
        }
        i += 1;
    }
    if path.len() > 0 {
        match posix::mkdir_path(path) {
            Ok(()) => {},
            Err(FsError::AlreadyExists) => {},
            Err(FsError::Os(e)) => {
                return Err(StoreError::Io(e));
            },
        }
        match posix::list_dir(path) {
            Ok(_) => {},
            Err(e) => {
                return Err(StoreError::Io(e));
            },
        }
    }
    Ok(())
}

/// An immutable reference to one published version: the version number and
/// the path it lives under, captured at `load` time.
pub struct ReadOnlyFile {
    version: usize,
    path: Vec<u8>,
}

impl ReadOnlyFile {
    /// The version this snapshot stands for; 0 is the sentinel meaning no
    /// content has ever been published.
    pub closed spec fn spec_version(&self) -> usize {
        self.version
    }

    /// The path of the version file this snapshot refers to.
    pub closed spec fn spec_path(&self) -> Seq<u8> {
        self.path@
    }

    /// The observed version number.
    pub fn version(&self) -> (v: usize)
        ensures
            v == self.spec_version(),
    {
        self.version
    }

    /// Open the underlying version file for reading. `Ok(None)` means the
    /// store had no published version when this snapshot was taken, which
    /// is a normal state, not an error. Version files are write-once, so
    /// what is read is exactly what `load` observed.
    pub fn open(&self) -> (r: Result<Option<ReadableFile>, StoreError>)
        ensures
            self.spec_version() == 0 ==> r is Ok && r->Ok_0 is None,
            self.spec_version() != 0 ==> (match r {
                Ok(f) => f is Some,
                Err(e) => e matches StoreError::Io(_),
            }),
    {
        if self.version != 0 {
            match posix::open_read(&self.path) {
                Ok(fd) => Ok(Some(ReadableFile { fd })),
                Err(e) => Err(StoreError::Io(e)),
            }
        } else {
            Ok(None)
        }
    }
}

/// An open, read-only handle on one published version's file.
pub struct ReadableFile {
    fd: i32,
}

impl ReadableFile {
    /// Reads the file to its end and returns all of its bytes. Content too
    /// large for one in-memory byte sequence is reported as an OS error
    /// rather than read partially.
    pub fn read_to_end(&self) -> (r: Result<Vec<u8>, StoreError>)
        ensures
            r matches Err(e) ==> e matches StoreError::Io(_),
    {
        let mut out: Vec<u8> = Vec::new();
        let mut total: usize = 0;
        loop
            invariant
                total == out@.len(),
            decreases usize::MAX - total,
        {
            match posix::read_fd_chunk(self.fd) {
                Ok(chunk) => {
                    if chunk.len() == 0 {
                        return Ok(out);
                    }
                    if chunk.len() > usize::MAX - total {
                        return Err(StoreError::Io(crate::errors::EOVERFLOW_ERRNO));
                    }
                    total = total + chunk.len();
                    push_all(&mut out, &chunk);
                },
                Err(e) => {
                    return Err(StoreError::Io(e));
                },
            }
        }
    }
}

impl Drop for ReadableFile {
    /// Releases the descriptor when the handle goes out of scope.
    fn drop(&mut self)
        opens_invariants none
        no_unwind
    {
        let _ = posix::close_fd(self.fd);
    }
}

} // verus!
