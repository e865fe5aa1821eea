use vstd::prelude::*;
use crate::engine::wasi::{link_all, link_outcome, Interface};

verus! {

/// The `wasi:filesystem` error resource.
pub struct Error;

/// The `wasi:filesystem` directory entry stream resource.
pub struct DirectoryEntryStream;

/// `wasi:filesystem/types` `error-code`.
#[derive(Copy, Clone, Debug, PartialEq, Eq, Structural)]
pub enum ErrorCode {
    Access,
    WouldBlock,
    Already,
    BadDescriptor,
    Busy,
    Deadlock,
    Quota,
    Exist,
    FileTooLarge,
    IllegalByteSequence,
    InProgress,
    Interrupted,
    Invalid,
    Io,
    IsDirectory,
    Loop,
    TooManyLinks,
    MessageSize,
    NameTooLong,
    NoDevice,
    NoEntry,
    NoLock,
    InsufficientMemory,
    InsufficientSpace,
    NotDirectory,
    NotEmpty,
    NotRecoverable,
    Unsupported,
    NoTty,
    NoSuchDevice,
    Overflow,
    NotPermitted,
    Pipe,
    ReadOnly,
    InvalidSeek,
    TextFileBusy,
    CrossDevice,
}

/// Permissions that a guest has on the files of a directory.
#[derive(Copy, Clone, Debug, PartialEq, Eq, Structural)]
pub struct FilePerms {
    pub read: bool,
    pub write: bool,
}

/// The mode a file or directory was opened in.
#[derive(Copy, Clone, Debug, PartialEq, Eq, Structural)]
pub struct OpenMode {
    pub read: bool,
    pub write: bool,
}

/// Permissions that a guest has on a directory: reading it (iterating its
/// entries, opening files) and mutating it (creating and removing entries).
#[derive(Copy, Clone, Debug, PartialEq, Eq, Structural)]
pub struct DirPerms {
    pub read: bool,
    pub mutate: bool,
}

/// `wasi:filesystem/types` `descriptor-flags`.
#[derive(Copy, Clone, Debug, PartialEq, Eq, Structural)]
pub struct DescriptorFlags {
    pub read: bool,
    pub write: bool,
    pub file_integrity_sync: bool,
    pub data_integrity_sync: bool,
    pub requested_write_sync: bool,
    pub mutate_directory: bool,
}

/// `wasi:filesystem/types` `open-flags`.
#[derive(Copy, Clone, Debug, PartialEq, Eq, Structural)]
pub struct OpenFlags {
    pub create: bool,
    pub directory: bool,
    pub exclusive: bool,
    pub truncate: bool,
}

/// `wasi:filesystem/types` `path-flags`.
#[derive(Copy, Clone, Debug, PartialEq, Eq, Structural)]
pub struct PathFlags {
    pub symlink_follow: bool,
}

/// The synchronization flags the operating system reports for an open file.
#[derive(Copy, Clone, Debug, PartialEq, Eq, Structural)]
pub struct FdFlags {
    pub dsync: bool,
    pub rsync: bool,
    pub sync: bool,
}

/// `wasi:filesystem/types` `descriptor-type`.
#[derive(Copy, Clone, Debug, PartialEq, Eq, Structural)]
pub enum DescriptorType {
    Unknown,
    BlockDevice,
    CharacterDevice,
    Directory,
    Fifo,
    SymbolicLink,
    RegularFile,
    Socket,
}

/// What the operating system reports of a file's type.
#[derive(Copy, Clone, Debug, PartialEq, Eq, Structural)]
pub struct FileType {
    pub is_dir: bool,
    pub is_symlink: bool,
    pub is_block_device: bool,
    pub is_char_device: bool,
    pub is_file: bool,
}

/// `wasi:filesystem/types` `metadata-hash-value`.
#[derive(Copy, Clone, Debug, PartialEq, Eq, Structural)]
pub struct MetadataHashValue {
    pub lower: u64,
    pub upper: u64,
}

/// The constant that the upper half of a metadata hash is the lower half
/// xor'ed with.
pub const METADATA_HASH_UPPER_XOR: u64 = 4614256656552045848u64;

/// An open file together with the permissions the guest has on it.
pub struct File<F> {
    /// The operating system file this struct mediates access to.
    pub file: F,
    /// Permissions to enforce on access to the file.
    pub perms: FilePerms,
    /// The mode the file was opened in.
    pub open_mode: OpenMode,
    pub allow_blocking_current_thread: bool,
}

/// An open directory together with the permissions the guest has on it and
/// on the files under it.
pub struct Dir<D> {
    /// The operating system directory this struct mediates access to.
    pub dir: D,
    /// Permissions to enforce on access to this directory and directories
    /// opened under it.
    pub perms: DirPerms,
    /// Permissions to enforce on files opened under this directory.
    pub file_perms: FilePerms,
    /// The mode the directory was opened in.
    pub open_mode: OpenMode,
    pub allow_blocking_current_thread: bool,
}

/// An open file or directory.
pub enum Descriptor<F, D> {
    File(File<F>),
    Dir(Dir<D>),
}

/// The options an `open-at` asks the operating system to open with, and the
/// mode that the new descriptor records.
#[derive(Copy, Clone, Debug, PartialEq, Eq, Structural)]
pub struct OpenPlan {
    /// Create the file if it is missing.
    pub create: bool,
    /// Create the file, failing if it exists.
    pub create_new: bool,
    pub truncate: bool,
    pub read: bool,
    pub write: bool,
    /// Follow a symbolic link at the end of the path.
    pub follow_symlinks: bool,
    /// Directories may be opened too.
    pub maybe_dir: bool,
    pub open_mode: OpenMode,
}

/// What the operating system opened for an `open-at`: a directory or a
/// file, by the metadata of what it opened.
pub enum Opened<F, D> {
    Dir(D),
    File(F),
}

/// The error of an `open-at` from a directory with permissions `perms` and
/// file permissions `file_perms`, checked in this order, or `None` when the
/// open may go ahead.
pub open spec fn open_at_error(
    perms: DirPerms,
    file_perms: FilePerms,
    oflags: OpenFlags,
    flags: DescriptorFlags,
) -> Option<ErrorCode> {
    if !perms.read {
        Some(ErrorCode::NotPermitted)
    } else if !perms.mutate && (oflags.create || oflags.truncate || flags.write) {
        Some(ErrorCode::NotPermitted)
    } else if flags.file_integrity_sync || flags.data_integrity_sync || flags.requested_write_sync {
        Some(ErrorCode::Unsupported)
    } else if oflags.directory && (oflags.create || oflags.exclusive || oflags.truncate) {
        Some(ErrorCode::Invalid)
    } else if !file_perms.write && (flags.write || oflags.create) {
        Some(ErrorCode::NotPermitted)
    } else {
        None
    }
}

/// The options an `open-at` that passed its checks opens with.
pub open spec fn open_at_plan(path_flags: PathFlags, oflags: OpenFlags, flags: DescriptorFlags) -> OpenPlan {
    OpenPlan {
        create: oflags.create && !oflags.exclusive,
        create_new: oflags.create && oflags.exclusive,
        truncate: oflags.truncate,
        read: flags.read || !flags.write,
        write: oflags.create || oflags.truncate || flags.write,
        follow_symlinks: path_flags.symlink_follow,
        maybe_dir: true,
        open_mode: OpenMode { read: flags.read || !flags.write, write: oflags.create || flags.write },
    }
}

/// An `open-at` goes ahead exactly when the directory may be read; it may
/// be changed where the open creates, truncates or writes; no synchronized
/// writes are asked for; a directory is not asked to be created, made
/// exclusively or truncated; and files may be written where the open
/// writes or creates. A refusal is `not-permitted` for want of a
/// permission, `unsupported` for synchronized writes, and `invalid` for
/// contradictory flags, and a directory that may not be read refuses
/// everything.
pub proof fn lemma_open_needs_the_permissions(
    perms: DirPerms,
    file_perms: FilePerms,
    oflags: OpenFlags,
    flags: DescriptorFlags,
)
    ensures
        open_at_error(perms, file_perms, oflags, flags) is None <==> {
            &&& perms.read
            &&& (oflags.create || oflags.truncate || flags.write) ==> perms.mutate
            &&& !flags.file_integrity_sync && !flags.data_integrity_sync
                && !flags.requested_write_sync
            &&& !(oflags.directory && (oflags.create || oflags.exclusive || oflags.truncate))
            &&& (flags.write || oflags.create) ==> file_perms.write
        },
        !perms.read ==> open_at_error(perms, file_perms, oflags, flags) == Some(
            ErrorCode::NotPermitted,
        ),
        perms.read && !perms.mutate && (oflags.create || oflags.truncate || flags.write)
            ==> open_at_error(perms, file_perms, oflags, flags) == Some(ErrorCode::NotPermitted),
        open_at_error(perms, file_perms, oflags, flags) matches Some(e) ==> (e
            == ErrorCode::NotPermitted || e == ErrorCode::Unsupported || e == ErrorCode::Invalid),
        open_at_error(perms, file_perms, oflags, flags) == Some(ErrorCode::Unsupported) ==> (
        flags.file_integrity_sync || flags.data_integrity_sync || flags.requested_write_sync),
        open_at_error(perms, file_perms, oflags, flags) == Some(ErrorCode::Invalid)
            ==> oflags.directory,
{
}

/// How the operating system is asked to open a path: it truncates exactly
/// when `truncate` is asked for; it creates the file exactly when `create`
/// is, and then insists on a new one exactly when `exclusive` is too; it
/// opens for writing whenever it creates, truncates or the guest asks to
/// write, and for reading whenever the guest asks to read or does not ask
/// to write (so it always opens for one or the other); it follows a final
/// symbolic link exactly when the path flags say so; and it always lets a
/// directory be opened. The descriptor records writing only where the file
/// is created or the guest asked to write.
pub proof fn lemma_open_plan_follows_the_flags(
    path_flags: PathFlags,
    oflags: OpenFlags,
    flags: DescriptorFlags,
)
    ensures
        ({
            let plan = open_at_plan(path_flags, oflags, flags);
            &&& plan.truncate == oflags.truncate
            &&& plan.truncate ==> plan.write
            &&& plan.create == (oflags.create && !oflags.exclusive)
            &&& plan.create_new == (oflags.create && oflags.exclusive)
            &&& (plan.create || plan.create_new) ==> plan.write && plan.open_mode.write
            &&& plan.write == (oflags.create || oflags.truncate || flags.write)
            &&& plan.read == (flags.read || !flags.write)
            &&& (plan.read || plan.write)
            &&& plan.follow_symlinks == path_flags.symlink_follow
            &&& plan.maybe_dir
            &&& plan.open_mode.write == (oflags.create || flags.write)
            &&& plan.open_mode.read == plan.read
        }),
{
}

impl FilePerms {
    pub fn empty() -> (r: Self)
        ensures
            !r.read && !r.write,
    {
        FilePerms { read: false, write: false }
    }
}

impl OpenMode {
    pub fn empty() -> (r: Self)
        ensures
            !r.read && !r.write,
    {
        OpenMode { read: false, write: false }
    }
}

/// The mode a preopened directory is opened in: reading if the guest may read
/// it, writing if it may mutate it.
pub fn preopen_open_mode(dir_perms: DirPerms) -> (r: OpenMode)
    ensures
        r.read == dir_perms.read,
        r.write == dir_perms.mutate,
{
    let mut open_mode = OpenMode::empty();
    if dir_perms.read {
        open_mode.read = true;
    }
    if dir_perms.mutate {
        open_mode.write = true;
    }
    open_mode
}

/// The descriptor type of a file of the given type; the first test that holds
/// of directory, symbolic link, block device, character device and regular
/// file decides.
pub open spec fn descriptor_type_of(ft: FileType) -> DescriptorType {
    if ft.is_dir {
        DescriptorType::Directory
    } else if ft.is_symlink {
        DescriptorType::SymbolicLink
    } else if ft.is_block_device {
        DescriptorType::BlockDevice
    } else if ft.is_char_device {
        DescriptorType::CharacterDevice
    } else if ft.is_file {
        DescriptorType::RegularFile
    } else {
        DescriptorType::Unknown
    }
}

/// Each kind of file has its own descriptor type: a directory is a
/// directory, a symbolic link (not to be followed) a symbolic link, block
/// and character devices are devices, and only a regular file is a regular
/// file; a file of none of these kinds is of unknown type. Where the
/// operating system reports more than one kind, the first of directory,
/// link, block device, character device and file decides.
pub proof fn lemma_each_kind_has_its_type(ft: FileType)
    ensures
        descriptor_type_of(ft) == DescriptorType::Directory <==> ft.is_dir,
        descriptor_type_of(ft) == DescriptorType::SymbolicLink <==> !ft.is_dir && ft.is_symlink,
        descriptor_type_of(ft) == DescriptorType::BlockDevice <==> !ft.is_dir && !ft.is_symlink
            && ft.is_block_device,
        descriptor_type_of(ft) == DescriptorType::CharacterDevice <==> !ft.is_dir
            && !ft.is_symlink && !ft.is_block_device && ft.is_char_device,
        descriptor_type_of(ft) == DescriptorType::RegularFile <==> !ft.is_dir && !ft.is_symlink
            && !ft.is_block_device && !ft.is_char_device && ft.is_file,
        descriptor_type_of(ft) == DescriptorType::Unknown <==> !ft.is_dir && !ft.is_symlink
            && !ft.is_block_device && !ft.is_char_device && !ft.is_file,
        descriptor_type_of(ft) != DescriptorType::Fifo,
        descriptor_type_of(ft) != DescriptorType::Socket,
{
}

/// The descriptor type of a file of the given type.
pub fn descriptor_type_from(ft: FileType) -> (r: DescriptorType)
    ensures
        r == descriptor_type_of(ft),
        ft.is_dir ==> r == DescriptorType::Directory,
        !ft.is_dir && ft.is_symlink ==> r == DescriptorType::SymbolicLink,
        !ft.is_dir && !ft.is_symlink && ft.is_block_device ==> r == DescriptorType::BlockDevice,
        !ft.is_dir && !ft.is_symlink && !ft.is_block_device && ft.is_char_device ==> r
            == DescriptorType::CharacterDevice,
        !ft.is_dir && !ft.is_symlink && !ft.is_block_device && !ft.is_char_device && ft.is_file
            ==> r == DescriptorType::RegularFile,
        !ft.is_dir && !ft.is_symlink && !ft.is_block_device && !ft.is_char_device && !ft.is_file
            ==> r == DescriptorType::Unknown,
{
    if ft.is_dir {
        DescriptorType::Directory
    } else if ft.is_symlink {
        DescriptorType::SymbolicLink
    } else if ft.is_block_device {
        DescriptorType::BlockDevice
    } else if ft.is_char_device {
        DescriptorType::CharacterDevice
    } else if ft.is_file {
        DescriptorType::RegularFile
    } else {
        DescriptorType::Unknown
    }
}

impl MetadataHashValue {
    /// The 128-bit metadata hash built from a 64-bit hash of a file's device
    /// and inode: the low half is that hash, the high half the hash xor'ed
    /// with a fixed constant.
    pub fn from_lower(lower: u64) -> (r: Self)
        ensures
            r.lower == lower,
            r.upper == lower ^ METADATA_HASH_UPPER_XOR,
    {
        MetadataHashValue { lower, upper: lower ^ METADATA_HASH_UPPER_XOR }
    }
}

/// Whether two files are the same object: the same inode on the same device.
pub fn is_same_object(dev_a: u64, ino_a: u64, dev_b: u64, ino_b: u64) -> (r: bool)
    ensures
        r == (dev_a == dev_b && ino_a == ino_b),
{
    dev_a == dev_b && ino_a == ino_b
}

/// The descriptor flags of a file or directory: the synchronization flags the
/// operating system reports for it, plus what its open mode allows.
fn get_from_fdflags(flags: FdFlags) -> (r: DescriptorFlags)
    ensures
        r.requested_write_sync == flags.dsync,
        r.data_integrity_sync == flags.rsync,
        r.file_integrity_sync == flags.sync,
        !r.read && !r.write && !r.mutate_directory,
{
    DescriptorFlags {
        read: false,
        write: false,
        file_integrity_sync: flags.sync,
        data_integrity_sync: flags.rsync,
        requested_write_sync: flags.dsync,
        mutate_directory: false,
    }
}

impl<F> File<F> {
    pub fn new(file: F, perms: FilePerms, open_mode: OpenMode, allow_blocking_current_thread: bool) -> (r: Self)
        ensures
            r.file == file,
            r.perms == perms,
            r.open_mode == open_mode,
            r.allow_blocking_current_thread == allow_blocking_current_thread,
    {
        File { file, perms, open_mode, allow_blocking_current_thread }
    }

    /// The file, when the current thread may block on it; otherwise the work
    /// goes to a background thread.
    pub fn as_blocking_file(&self) -> (r: Option<&F>)
        ensures
            self.allow_blocking_current_thread ==> r == Some(&self.file),
            !self.allow_blocking_current_thread ==> r is None,
    {
        if self.allow_blocking_current_thread {
            Some(&self.file)
        } else {
            None
        }
    }
}

impl<D> Dir<D> {
    pub fn new(
        dir: D,
        perms: DirPerms,
        file_perms: FilePerms,
        open_mode: OpenMode,
        allow_blocking_current_thread: bool,
    ) -> (r: Self)
        ensures
            r.dir == dir,
            r.perms == perms,
            r.file_perms == file_perms,
            r.open_mode == open_mode,
            r.allow_blocking_current_thread == allow_blocking_current_thread,
    {
        Dir { dir, perms, file_perms, open_mode, allow_blocking_current_thread }
    }
}

/// The state of the `wasi:filesystem` implementation: the preopened
/// directories with their guest names.
pub struct WasiFilesystemCtx<D> {
    pub preopens: Vec<(Dir<D>, String)>,
    pub allow_blocking_current_thread: bool,
}

impl<D> WasiFilesystemCtx<D> {
    /// Makes the opened host directory `dir` available to the guest under
    /// `guest_path`, with `dir_perms` on it and at most `file_perms` on the
    /// files under it.
    pub fn preopened_dir(&mut self, dir: D, guest_path: String, dir_perms: DirPerms, file_perms: FilePerms)
        ensures
            final(self).allow_blocking_current_thread == old(self).allow_blocking_current_thread,
            final(self).preopens@.len() == old(self).preopens@.len() + 1,
            final(self).preopens@.take(old(self).preopens@.len() as int) == old(self).preopens@,
            final(self).preopens@.last().1@ == guest_path@,
            final(self).preopens@.last().0 == (Dir::<D> {
                dir,
                perms: dir_perms,
                file_perms,
                open_mode: (OpenMode { read: dir_perms.read, write: dir_perms.mutate }),
                allow_blocking_current_thread: old(self).allow_blocking_current_thread,
            }),
    {
        let open_mode = preopen_open_mode(dir_perms);
        let d = Dir::new(dir, dir_perms, file_perms, open_mode, self.allow_blocking_current_thread);
        self.preopens.push((d, guest_path));
        assert(self.preopens@.take(old(self).preopens@.len() as int) =~= old(self).preopens@);
    }
}

impl<F, D> Descriptor<F, D> {
    /// The file this descriptor refers to; a directory is a bad descriptor for
    /// file operations.
    pub fn file(&self) -> (r: Result<&File<F>, ErrorCode>)
        ensures
            match *self {
                Descriptor::File(f) => r matches Ok(g) && *g == f,
                Descriptor::Dir(_) => r == Err::<&File<F>, ErrorCode>(ErrorCode::BadDescriptor),
            },
    {
        match self {
            Descriptor::File(f) => Ok(f),
            Descriptor::Dir(_) => Err(ErrorCode::BadDescriptor),
        }
    }

    /// The directory this descriptor refers to.
    pub fn dir(&self) -> (r: Result<&Dir<D>, ErrorCode>)
        ensures
            match *self {
                Descriptor::Dir(d) => r matches Ok(e) && *e == d,
                Descriptor::File(_) => r == Err::<&Dir<D>, ErrorCode>(ErrorCode::NotDirectory),
            },
    {
        match self {
            Descriptor::Dir(d) => Ok(d),
            Descriptor::File(_) => Err(ErrorCode::NotDirectory),
        }
    }

    pub fn is_file(&self) -> (r: bool)
        ensures
            r == (*self is File),
    {
        match self {
            Descriptor::File(_) => true,
            Descriptor::Dir(_) => false,
        }
    }

    pub fn is_dir(&self) -> (r: bool)
        ensures
            r == (*self is Dir),
    {
        match self {
            Descriptor::File(_) => false,
            Descriptor::Dir(_) => true,
        }
    }

    /// The directory this descriptor refers to, if the guest has the
    /// permissions on it that an operation needs.
    fn dir_with(&self, need_read: bool, need_mutate: bool) -> (r: Result<&Dir<D>, ErrorCode>)
        ensures
            match *self {
                Descriptor::File(_) => r == Err::<&Dir<D>, ErrorCode>(ErrorCode::NotDirectory),
                Descriptor::Dir(d) => if (need_read && !d.perms.read) || (need_mutate
                    && !d.perms.mutate) {
                    r == Err::<&Dir<D>, ErrorCode>(ErrorCode::NotPermitted)
                } else {
                    r matches Ok(e) && *e == d
                },
            },
    {
        let d = self.dir()?;
        if need_read && !d.perms.read {
            return Err(ErrorCode::NotPermitted);
        }
        if need_mutate && !d.perms.mutate {
            return Err(ErrorCode::NotPermitted);
        }
        Ok(d)
    }

    /// The descriptor flags reported for this descriptor, given the
    /// synchronization flags the operating system reports for it.
    pub fn get_flags(&self, fd_flags: FdFlags) -> (r: DescriptorFlags)
        ensures
            r.requested_write_sync == fd_flags.dsync,
            r.data_integrity_sync == fd_flags.rsync,
            r.file_integrity_sync == fd_flags.sync,
            match *self {
                Descriptor::File(f) => r.read == f.open_mode.read && r.write == f.open_mode.write
                    && !r.mutate_directory,
                Descriptor::Dir(d) => r.read == d.open_mode.read && !r.write && r.mutate_directory
                    == d.open_mode.write,
            },
    {
        let mut flags = get_from_fdflags(fd_flags);
        match self {
            Descriptor::File(f) => {
                if f.open_mode.read {
                    flags.read = true;
                }
                if f.open_mode.write {
                    flags.write = true;
                }
            },
            Descriptor::Dir(d) => {
                if d.open_mode.read {
                    flags.read = true;
                }
                if d.open_mode.write {
                    flags.mutate_directory = true;
                }
            },
        }
        flags
    }

    /// The type of this descriptor; `file_type` is what the operating system
    /// reports for a file.
    pub fn get_type(&self, file_type: FileType) -> (r: DescriptorType)
        ensures
            *self is Dir ==> r == DescriptorType::Directory,
            *self is File ==> r == descriptor_type_of(file_type),
    {
        match self {
            Descriptor::File(_) => descriptor_type_from(file_type),
            Descriptor::Dir(_) => DescriptorType::Directory,
        }
    }

    /// The file whose size may be set: a file the guest may write.
    pub fn set_size(&self) -> (r: Result<&File<F>, ErrorCode>)
        ensures
            match *self {
                Descriptor::Dir(_) => r == Err::<&File<F>, ErrorCode>(ErrorCode::BadDescriptor),
                Descriptor::File(f) => if f.perms.write {
                    r matches Ok(g) && *g == f
                } else {
                    r == Err::<&File<F>, ErrorCode>(ErrorCode::NotPermitted)
                },
            },
    {
        let f = self.file()?;
        if !f.perms.write {
            return Err(ErrorCode::NotPermitted);
        }
        Ok(f)
    }

    /// Whether the timestamps of this descriptor may be set: a file the guest
    /// may write, or a directory it may mutate.
    pub fn set_times(&self) -> (r: Result<(), ErrorCode>)
        ensures
            match *self {
                Descriptor::File(f) => if f.perms.write {
                    r is Ok
                } else {
                    r == Err::<(), ErrorCode>(ErrorCode::NotPermitted)
                },
                Descriptor::Dir(d) => if d.perms.mutate {
                    r is Ok
                } else {
                    r == Err::<(), ErrorCode>(ErrorCode::NotPermitted)
                },
            },
    {
        match self {
            Descriptor::File(f) => {
                if !f.perms.write {
                    return Err(ErrorCode::NotPermitted);
                }
                Ok(())
            },
            Descriptor::Dir(d) => {
                if !d.perms.mutate {
                    return Err(ErrorCode::NotPermitted);
                }
                Ok(())
            },
        }
    }

    /// The directory in which a directory may be created.
    pub fn create_directory_at(&self) -> (r: Result<&Dir<D>, ErrorCode>)
        ensures
            r == self.dir_with_spec(false, true),
    {
        self.dir_with(false, true)
    }

    /// The directory whose entries may be looked up, and whether the lookup
    /// follows a final symbolic link.
    pub fn stat_at(&self, path_flags: PathFlags) -> (r: Result<(&Dir<D>, bool), ErrorCode>)
        ensures
            match self.dir_with_spec(true, false) {
                Ok(d) => r == Ok::<(&Dir<D>, bool), ErrorCode>((d, path_flags.symlink_follow)),
                Err(e) => r == Err::<(&Dir<D>, bool), ErrorCode>(e),
            },
    {
        let d = self.dir_with(true, false)?;
        Ok((d, path_flags.symlink_follow))
    }

    /// The directory in which timestamps may be set, and whether the path's
    /// final symbolic link is followed.
    pub fn set_times_at(&self, path_flags: PathFlags) -> (r: Result<(&Dir<D>, bool), ErrorCode>)
        ensures
            match self.dir_with_spec(false, true) {
                Ok(d) => r == Ok::<(&Dir<D>, bool), ErrorCode>((d, path_flags.symlink_follow)),
                Err(e) => r == Err::<(&Dir<D>, bool), ErrorCode>(e),
            },
    {
        let d = self.dir_with(false, true)?;
        Ok((d, path_flags.symlink_follow))
    }

    /// The directories between which a hard link may be made; following a
    /// symbolic link at the old path is invalid.
    pub fn link_at<'a>(&'a self, old_path_flags: PathFlags, new_descriptor: &'a Self) -> (r: Result<
        (&'a Dir<D>, &'a Dir<D>),
        ErrorCode,
    >)
        ensures
            match (self.dir_with_spec(false, true), new_descriptor.dir_with_spec(false, true)) {
                (Err(e), _) => r == Err::<(&Dir<D>, &Dir<D>), ErrorCode>(e),
                (Ok(_), Err(e)) => r == Err::<(&Dir<D>, &Dir<D>), ErrorCode>(e),
                (Ok(a), Ok(b)) => if old_path_flags.symlink_follow {
                    r == Err::<(&Dir<D>, &Dir<D>), ErrorCode>(ErrorCode::Invalid)
                } else {
                    r == Ok::<(&Dir<D>, &Dir<D>), ErrorCode>((a, b))
                },
            },
    {
        let old_dir = self.dir_with(false, true)?;
        let new_dir = new_descriptor.dir_with(false, true)?;
        if old_path_flags.symlink_follow {
            return Err(ErrorCode::Invalid);
        }
        Ok((old_dir, new_dir))
    }

    /// Checks an `open-at` and says how the operating system is to open the
    /// path.
    pub fn open_at(&self, path_flags: PathFlags, oflags: OpenFlags, flags: DescriptorFlags) -> (r: Result<
        (&Dir<D>, OpenPlan),
        ErrorCode,
    >)
        ensures
            match *self {
                Descriptor::File(_) => r == Err::<(&Dir<D>, OpenPlan), ErrorCode>(
                    ErrorCode::NotDirectory,
                ),
                Descriptor::Dir(d) => match open_at_error(d.perms, d.file_perms, oflags, flags) {
                    Some(e) => r == Err::<(&Dir<D>, OpenPlan), ErrorCode>(e),
                    None => r matches Ok((e, plan)) && *e == d && plan == open_at_plan(
                        path_flags,
                        oflags,
                        flags,
                    ),
                },
            },
            // A directory the guest may not mutate never opens anything for
            // writing, creating or truncating.
            r matches Ok((d, plan)) ==> (!d.perms.mutate ==> !plan.write && !plan.create
                && !plan.create_new && !plan.truncate),
            // Nothing is opened for writing past the file permissions.
            r matches Ok((d, plan)) ==> (plan.open_mode.write ==> d.file_perms.write),
            // The plan does what the flags ask, and no more.
            r matches Ok((_, plan)) ==> {
                &&& plan.truncate == oflags.truncate
                &&& plan.create_new == (oflags.create && oflags.exclusive)
                &&& plan.create == (oflags.create && !oflags.exclusive)
                &&& plan.write == (oflags.create || oflags.truncate || flags.write)
                &&& plan.read == (flags.read || !flags.write)
                &&& plan.follow_symlinks == path_flags.symlink_follow
                &&& plan.maybe_dir
                &&& plan.open_mode.write == (oflags.create || flags.write)
                &&& plan.open_mode.read == (flags.read || !flags.write)
            },
    {
        let d = self.dir()?;
        if !d.perms.read {
            return Err(ErrorCode::NotPermitted);
        }
        if !d.perms.mutate {
            if oflags.create || oflags.truncate {
                return Err(ErrorCode::NotPermitted);
            }
            if flags.write {
                return Err(ErrorCode::NotPermitted);
            }
        }
        let mut create = false;
        let mut open_mode = OpenMode::empty();
        let mut plan = OpenPlan {
            create: false,
            create_new: false,
            truncate: false,
            read: false,
            write: false,
            follow_symlinks: false,
            maybe_dir: true,
            open_mode: OpenMode::empty(),
        };
        if oflags.create {
            if oflags.exclusive {
                plan.create_new = true;
            } else {
                plan.create = true;
            }
            create = true;
            plan.write = true;
            open_mode.write = true;
        }
        if oflags.truncate {
            plan.truncate = true;
            plan.write = true;
        }
        if flags.read {
            plan.read = true;
            open_mode.read = true;
        }
        if flags.write {
            plan.write = true;
            open_mode.write = true;
        } else {
            plan.read = true;
            open_mode.read = true;
        }
        plan.follow_symlinks = path_flags.symlink_follow;
        if flags.file_integrity_sync || flags.data_integrity_sync || flags.requested_write_sync {
            return Err(ErrorCode::Unsupported);
        }
        if oflags.directory && (oflags.create || oflags.exclusive || oflags.truncate) {
            return Err(ErrorCode::Invalid);
        }
        if !d.perms.mutate && create {
            return Err(ErrorCode::NotPermitted);
        }
        if !d.file_perms.write && open_mode.write {
            return Err(ErrorCode::NotPermitted);
        }
        plan.open_mode = open_mode;
        Ok((d, plan))
    }

    /// The directory whose symbolic links may be read.
    pub fn readlink_at(&self) -> (r: Result<&Dir<D>, ErrorCode>)
        ensures
            r == self.dir_with_spec(true, false),
    {
        self.dir_with(true, false)
    }

    /// The directory from which a directory may be removed.
    pub fn remove_directory_at(&self) -> (r: Result<&Dir<D>, ErrorCode>)
        ensures
            r == self.dir_with_spec(false, true),
    {
        self.dir_with(false, true)
    }

    /// The directories between which an entry may be renamed.
    pub fn rename_at<'a>(&'a self, new_fd: &'a Self) -> (r: Result<(&'a Dir<D>, &'a Dir<D>), ErrorCode>)
        ensures
            match (self.dir_with_spec(false, true), new_fd.dir_with_spec(false, true)) {
                (Err(e), _) => r == Err::<(&Dir<D>, &Dir<D>), ErrorCode>(e),
                (Ok(_), Err(e)) => r == Err::<(&Dir<D>, &Dir<D>), ErrorCode>(e),
                (Ok(a), Ok(b)) => r == Ok::<(&Dir<D>, &Dir<D>), ErrorCode>((a, b)),
            },
    {
        let old_dir = self.dir_with(false, true)?;
        let new_dir = new_fd.dir_with(false, true)?;
        Ok((old_dir, new_dir))
    }

    /// The directory in which a symbolic link may be made.
    pub fn symlink_at(&self) -> (r: Result<&Dir<D>, ErrorCode>)
        ensures
            r == self.dir_with_spec(false, true),
    {
        self.dir_with(false, true)
    }

    /// The directory from which a file or symbolic link may be removed.
    pub fn unlink_file_at(&self) -> (r: Result<&Dir<D>, ErrorCode>)
        ensures
            r == self.dir_with_spec(false, true),
    {
        self.dir_with(false, true)
    }

    /// The directory in which a path's metadata is hashed, and whether a
    /// final symbolic link is followed; metadata needs no permission.
    pub fn metadata_hash_at(&self, path_flags: PathFlags) -> (r: Result<(&Dir<D>, bool), ErrorCode>)
        ensures
            match *self {
                Descriptor::File(_) => r == Err::<(&Dir<D>, bool), ErrorCode>(
                    ErrorCode::NotDirectory,
                ),
                Descriptor::Dir(d) => r matches Ok((e, follow)) && *e == d && follow
                    == path_flags.symlink_follow,
            },
    {
        let d = self.dir()?;
        Ok((d, path_flags.symlink_follow))
    }

    /// The directory this descriptor refers to if the guest has the required
    /// permissions on it, else the error that an operation gets.
    pub open spec fn dir_with_spec(&self, need_read: bool, need_mutate: bool) -> Result<&Dir<D>, ErrorCode> {
        match *self {
            Descriptor::File(_) => Err(ErrorCode::NotDirectory),
            Descriptor::Dir(d) => if (need_read && !d.perms.read) || (need_mutate && !d.perms.mutate) {
                Err(ErrorCode::NotPermitted)
            } else {
                Ok(&d)
            },
        }
    }
}

/// What finishing an `open-at` from directory `parent` with `plan` gives
/// when the operating system opened `opened`.
pub open spec fn open_at_result<F, D>(
    parent: Dir<D>,
    plan: OpenPlan,
    oflags: OpenFlags,
    allow_blocking_current_thread: bool,
    opened: Opened<F, D>,
) -> Result<Descriptor<F, D>, ErrorCode> {
    match opened {
        Opened::Dir(dir) => Ok(
            Descriptor::Dir(
                Dir {
                    dir,
                    perms: parent.perms,
                    file_perms: parent.file_perms,
                    open_mode: plan.open_mode,
                    allow_blocking_current_thread,
                },
            ),
        ),
        Opened::File(file) => if oflags.directory {
            Err(ErrorCode::NotDirectory)
        } else {
            Ok(
                Descriptor::File(
                    File {
                        file,
                        perms: parent.file_perms,
                        open_mode: plan.open_mode,
                        allow_blocking_current_thread,
                    },
                ),
            )
        },
    }
}

/// Finishes an `open-at` from directory `parent`: a directory opened under it
/// inherits its permissions, a file gets its file permissions, both record the
/// plan's open mode and whether they may block the current thread; a file
/// where the guest asked for a directory is `not-directory`.
pub fn open_at_finish<F, D>(
    parent: &Dir<D>,
    plan: OpenPlan,
    oflags: OpenFlags,
    allow_blocking_current_thread: bool,
    opened: Opened<F, D>,
) -> (r: Result<Descriptor<F, D>, ErrorCode>)
    ensures
        r == open_at_result(*parent, plan, oflags, allow_blocking_current_thread, opened),
        oflags.directory ==> (r is Err || r matches Ok(Descriptor::Dir(_))),
{
    match opened {
        Opened::Dir(dir) => Ok(
            Descriptor::Dir(
                Dir::new(
                    dir,
                    parent.perms,
                    parent.file_perms,
                    plan.open_mode,
                    allow_blocking_current_thread,
                ),
            ),
        ),
        Opened::File(file) => if oflags.directory {
            Err(ErrorCode::NotDirectory)
        } else {
            Ok(
                Descriptor::File(
                    File::new(file, parent.file_perms, plan.open_mode, allow_blocking_current_thread),
                ),
            )
        },
    }
}

impl<F, D> Descriptor<F, D> {
    /// `descriptor.open-at`: checks the open, has `open` open the path from
    /// the directory as planned, and makes the new descriptor of what it
    /// opened, with `allow_blocking_current_thread` as given.
    pub fn open_at_with<OP: FnOnce(&D, OpenPlan) -> Result<Opened<F, D>, ErrorCode>>(
        &self,
        path_flags: PathFlags,
        oflags: OpenFlags,
        flags: DescriptorFlags,
        allow_blocking_current_thread: bool,
        open: OP,
    ) -> (r: Result<Descriptor<F, D>, ErrorCode>)
        requires
            forall|d: &D, p: OpenPlan| call_requires(open, (d, p)),
        ensures
            match *self {
                Descriptor::File(_) => r == Err::<Descriptor<F, D>, ErrorCode>(
                    ErrorCode::NotDirectory,
                ),
                Descriptor::Dir(d) => match open_at_error(d.perms, d.file_perms, oflags, flags) {
                    Some(e) => r == Err::<Descriptor<F, D>, ErrorCode>(e),
                    None => exists|o: Result<Opened<F, D>, ErrorCode>|
                        #[trigger] call_ensures(open, (&d.dir, open_at_plan(path_flags, oflags, flags)), o)
                        && match o {
                            Err(e) => r == Err::<Descriptor<F, D>, ErrorCode>(e),
                            Ok(opened) => r == open_at_result(
                                d,
                                open_at_plan(path_flags, oflags, flags),
                                oflags,
                                allow_blocking_current_thread,
                                opened,
                            ),
                        },
                },
            },
            r matches Ok(Descriptor::Dir(e)) ==> (self matches Descriptor::Dir(d) && e.perms
                == d.perms && e.file_perms == d.file_perms && e.allow_blocking_current_thread
                == allow_blocking_current_thread),
            r matches Ok(Descriptor::File(f)) ==> (self matches Descriptor::Dir(d) && f.perms
                == d.file_perms && f.allow_blocking_current_thread == allow_blocking_current_thread
                && !oflags.directory),
            // The new descriptor records the mode the guest asked for.
            r matches Ok(Descriptor::File(f)) ==> f.open_mode.write == (oflags.create
                || flags.write) && f.open_mode.read == (flags.read || !flags.write),
            r matches Ok(Descriptor::Dir(e)) ==> e.open_mode.write == (oflags.create
                || flags.write) && e.open_mode.read == (flags.read || !flags.write),
    {
        let (d, plan) = match self.open_at(path_flags, oflags, flags) {
            Ok(x) => x,
            Err(e) => return Err(e),
        };
        let ghost p = plan;
        let o = open(&d.dir, plan);
        assert(call_ensures(open, (&d.dir, p), o));
        match o {
            Ok(opened) => open_at_finish(d, plan, oflags, allow_blocking_current_thread, opened),
            Err(e) => Err(e),
        }
    }
}


/// The interfaces of `wasi:filesystem`, in the order in which a linker gets them.
pub open spec fn filesystem_interfaces() -> Seq<Interface> {
    seq![Interface::FilesystemTypes, Interface::FilesystemPreopens]
}

/// The interfaces of `wasi:filesystem`, in the order in which a linker gets them.
pub fn interfaces() -> (r: Vec<Interface>)
    ensures
        r@ == filesystem_interfaces(),
{
    let r = vec![Interface::FilesystemTypes, Interface::FilesystemPreopens];
    proof {
        assert(r@ =~= filesystem_interfaces());
    }
    r
}

/// Gives a linker all of `wasi:filesystem`; stops at the first error.
pub fn add_to_linker<E, F: Fn(Interface) -> Result<(), E>>(link: &F) -> (r: Result<(), E>)
    requires
        forall|s: Interface| call_requires(*link, (s,)),
    ensures
        link_outcome(*link, filesystem_interfaces(), r),
{
    link_all(link, interfaces())
}


/// The system error numbers that have a filesystem error code of their own.
#[derive(Clone, Copy, Debug, PartialEq, Eq, Structural)]
pub enum Errno {
    Pipe,
    Perm,
    NoEnt,
    NoMem,
    Io,
    BadF,
    Busy,
    Access,
    NotDir,
    IsDir,
    Inval,
    Exist,
    FBig,
    NoSpc,
    SPipe,
    MLink,
    NameTooLong,
    NotEmpty,
    Loop,
    Overflow,
    IlSeq,
    NotSup,
    Already,
    InProgress,
    Intr,
    OpNotSupp,
    /// Any other error number.
    Other,
}

/// The filesystem error code of a system error number, if it has one.
pub open spec fn errno_code(e: Errno) -> Option<ErrorCode> {
    match e {
        Errno::Pipe => Some(ErrorCode::Pipe),
        Errno::Perm => Some(ErrorCode::NotPermitted),
        Errno::NoEnt => Some(ErrorCode::NoEntry),
        Errno::NoMem => Some(ErrorCode::InsufficientMemory),
        Errno::Io => Some(ErrorCode::Io),
        Errno::BadF => Some(ErrorCode::BadDescriptor),
        Errno::Busy => Some(ErrorCode::Busy),
        Errno::Access => Some(ErrorCode::Access),
        Errno::NotDir => Some(ErrorCode::NotDirectory),
        Errno::IsDir => Some(ErrorCode::IsDirectory),
        Errno::Inval => Some(ErrorCode::Invalid),
        Errno::Exist => Some(ErrorCode::Exist),
        Errno::FBig => Some(ErrorCode::FileTooLarge),
        Errno::NoSpc => Some(ErrorCode::InsufficientSpace),
        Errno::SPipe => Some(ErrorCode::InvalidSeek),
        Errno::MLink => Some(ErrorCode::TooManyLinks),
        Errno::NameTooLong => Some(ErrorCode::NameTooLong),
        Errno::NotEmpty => Some(ErrorCode::NotEmpty),
        Errno::Loop => Some(ErrorCode::Loop),
        Errno::Overflow => Some(ErrorCode::Overflow),
        Errno::IlSeq => Some(ErrorCode::IllegalByteSequence),
        Errno::NotSup => Some(ErrorCode::Unsupported),
        Errno::Already => Some(ErrorCode::Already),
        Errno::InProgress => Some(ErrorCode::InProgress),
        Errno::Intr => Some(ErrorCode::Interrupted),
        Errno::OpNotSupp => Some(ErrorCode::Unsupported),
        Errno::Other => None,
    }
}

/// Every system error number but an unknown one has a filesystem error
/// code, each the code of the same meaning; only `ENOTSUP` and
/// `EOPNOTSUPP`, which mean the same, share one.
pub proof fn lemma_errno_codes_keep_their_meaning(a: Errno, b: Errno)
    ensures
        errno_code(a) is None <==> a == Errno::Other,
        errno_code(a) is Some && errno_code(a) == errno_code(b) ==> (a == b || (a
            == Errno::NotSup && b == Errno::OpNotSupp) || (a == Errno::OpNotSupp && b
            == Errno::NotSup)),
        errno_code(Errno::Pipe) == Some(ErrorCode::Pipe),
        errno_code(Errno::Perm) == Some(ErrorCode::NotPermitted),
        errno_code(Errno::NoEnt) == Some(ErrorCode::NoEntry),
        errno_code(Errno::NoMem) == Some(ErrorCode::InsufficientMemory),
        errno_code(Errno::Io) == Some(ErrorCode::Io),
        errno_code(Errno::BadF) == Some(ErrorCode::BadDescriptor),
        errno_code(Errno::Busy) == Some(ErrorCode::Busy),
        errno_code(Errno::Access) == Some(ErrorCode::Access),
        errno_code(Errno::NotDir) == Some(ErrorCode::NotDirectory),
        errno_code(Errno::IsDir) == Some(ErrorCode::IsDirectory),
        errno_code(Errno::Inval) == Some(ErrorCode::Invalid),
        errno_code(Errno::Exist) == Some(ErrorCode::Exist),
        errno_code(Errno::FBig) == Some(ErrorCode::FileTooLarge),
        errno_code(Errno::NoSpc) == Some(ErrorCode::InsufficientSpace),
        errno_code(Errno::SPipe) == Some(ErrorCode::InvalidSeek),
        errno_code(Errno::MLink) == Some(ErrorCode::TooManyLinks),
        errno_code(Errno::NameTooLong) == Some(ErrorCode::NameTooLong),
        errno_code(Errno::NotEmpty) == Some(ErrorCode::NotEmpty),
        errno_code(Errno::Loop) == Some(ErrorCode::Loop),
        errno_code(Errno::Overflow) == Some(ErrorCode::Overflow),
        errno_code(Errno::IlSeq) == Some(ErrorCode::IllegalByteSequence),
        errno_code(Errno::NotSup) == Some(ErrorCode::Unsupported),
        errno_code(Errno::Already) == Some(ErrorCode::Already),
        errno_code(Errno::InProgress) == Some(ErrorCode::InProgress),
        errno_code(Errno::Intr) == Some(ErrorCode::Interrupted),
        errno_code(Errno::OpNotSupp) == Some(ErrorCode::Unsupported),
{
}

/// The filesystem error code of a system error number, if it has one.
pub fn from_raw_os_error(err: Option<Errno>) -> (r: Option<ErrorCode>)
    ensures
        err is None ==> r is None,
        err matches Some(e) ==> r == errno_code(e),
{
    let e = match err {
        Some(e) => e,
        None => return None,
    };
    match e {
        Errno::Pipe => Some(ErrorCode::Pipe),
        Errno::Perm => Some(ErrorCode::NotPermitted),
        Errno::NoEnt => Some(ErrorCode::NoEntry),
        Errno::NoMem => Some(ErrorCode::InsufficientMemory),
        Errno::Io => Some(ErrorCode::Io),
        Errno::BadF => Some(ErrorCode::BadDescriptor),
        Errno::Busy => Some(ErrorCode::Busy),
        Errno::Access => Some(ErrorCode::Access),
        Errno::NotDir => Some(ErrorCode::NotDirectory),
        Errno::IsDir => Some(ErrorCode::IsDirectory),
        Errno::Inval => Some(ErrorCode::Invalid),
        Errno::Exist => Some(ErrorCode::Exist),
        Errno::FBig => Some(ErrorCode::FileTooLarge),
        Errno::NoSpc => Some(ErrorCode::InsufficientSpace),
        Errno::SPipe => Some(ErrorCode::InvalidSeek),
        Errno::MLink => Some(ErrorCode::TooManyLinks),
        Errno::NameTooLong => Some(ErrorCode::NameTooLong),
        Errno::NotEmpty => Some(ErrorCode::NotEmpty),
        Errno::Loop => Some(ErrorCode::Loop),
        Errno::Overflow => Some(ErrorCode::Overflow),
        Errno::IlSeq => Some(ErrorCode::IllegalByteSequence),
        Errno::NotSup => Some(ErrorCode::Unsupported),
        Errno::Already => Some(ErrorCode::Already),
        Errno::InProgress => Some(ErrorCode::InProgress),
        Errno::Intr => Some(ErrorCode::Interrupted),
        Errno::OpNotSupp => Some(ErrorCode::Unsupported),
        Errno::Other => None,
    }
}

/// The kinds of I/O error that the error code falls back on.
#[derive(Clone, Copy, Debug, PartialEq, Eq, Structural)]
pub enum IoErrorKind {
    NotFound,
    PermissionDenied,
    AlreadyExists,
    InvalidInput,
    Other,
}

/// The filesystem error code of an I/O error: by its system error number
/// where that has one, else by its kind.
pub fn error_code_from_io(errno: Option<Errno>, kind: IoErrorKind) -> (r: ErrorCode)
    ensures
        (errno matches Some(e) && errno_code(e) is Some) ==> Some(r) == errno_code(errno->0),
        !(errno matches Some(e) && errno_code(e) is Some) ==> r == match kind {
            IoErrorKind::NotFound => ErrorCode::NoEntry,
            IoErrorKind::PermissionDenied => ErrorCode::NotPermitted,
            IoErrorKind::AlreadyExists => ErrorCode::Exist,
            IoErrorKind::InvalidInput => ErrorCode::Invalid,
            IoErrorKind::Other => ErrorCode::Io,
        },
{
    match from_raw_os_error(errno) {
        Some(code) => code,
        None => match kind {
            IoErrorKind::NotFound => ErrorCode::NoEntry,
            IoErrorKind::PermissionDenied => ErrorCode::NotPermitted,
            IoErrorKind::AlreadyExists => ErrorCode::Exist,
            IoErrorKind::InvalidInput => ErrorCode::Invalid,
            IoErrorKind::Other => ErrorCode::Io,
        },
    }
}

} // verus!
