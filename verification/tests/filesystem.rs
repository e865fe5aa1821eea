use wasmx::engine::wasi::filesystem::{
    descriptor_type_from, error_code_from_io, from_raw_os_error, is_same_object,
    preopen_open_mode, Descriptor, DescriptorFlags, DescriptorType, Dir, DirPerms, Errno,
    ErrorCode, FdFlags, File, FilePerms, FileType, IoErrorKind, MetadataHashValue, OpenFlags,
    OpenMode, Opened, PathFlags, WasiFilesystemCtx, open_at_finish,
};

fn dir(read: bool, mutate: bool, file_write: bool) -> Descriptor<(), &'static str> {
    Descriptor::Dir(Dir::new(
        "d",
        DirPerms { read, mutate },
        FilePerms { read: true, write: file_write },
        OpenMode { read, write: mutate },
        false,
    ))
}

fn no_flags() -> DescriptorFlags {
    DescriptorFlags {
        read: false,
        write: false,
        file_integrity_sync: false,
        data_integrity_sync: false,
        requested_write_sync: false,
        mutate_directory: false,
    }
}

fn oflags(create: bool, directory: bool, exclusive: bool, truncate: bool) -> OpenFlags {
    OpenFlags { create, directory, exclusive, truncate }
}

#[test]
fn open_at_read_only() {
    let d = dir(true, false, false);
    let (_, plan) = d.open_at(PathFlags { symlink_follow: true }, oflags(false, false, false, false), no_flags()).unwrap();
    assert!(plan.read && !plan.write && !plan.create && plan.follow_symlinks);
    assert_eq!(plan.open_mode, OpenMode { read: true, write: false });
}

#[test]
fn open_at_permissions() {
    let ro = dir(true, false, true);
    assert!(matches!(
        ro.open_at(PathFlags { symlink_follow: false }, oflags(true, false, false, false), no_flags()),
        Err(ErrorCode::NotPermitted)
    ));
    let unreadable = dir(false, true, true);
    assert!(matches!(
        unreadable.open_at(PathFlags { symlink_follow: false }, oflags(false, false, false, false), no_flags()),
        Err(ErrorCode::NotPermitted)
    ));
    let rw = dir(true, true, false);
    let write = DescriptorFlags { write: true, ..no_flags() };
    assert!(matches!(
        rw.open_at(PathFlags { symlink_follow: false }, oflags(false, false, false, false), write),
        Err(ErrorCode::NotPermitted)
    ));
    let sync = DescriptorFlags { file_integrity_sync: true, ..no_flags() };
    assert!(matches!(
        rw.open_at(PathFlags { symlink_follow: false }, oflags(false, false, false, false), sync),
        Err(ErrorCode::Unsupported)
    ));
    let rww = dir(true, true, true);
    assert!(matches!(
        rww.open_at(PathFlags { symlink_follow: false }, oflags(false, true, false, true), no_flags()),
        Err(ErrorCode::Invalid)
    ));
    let (_, plan) = rww
        .open_at(PathFlags { symlink_follow: false }, oflags(true, false, true, false), write)
        .unwrap();
    assert!(plan.create_new && !plan.create && plan.write);
    assert_eq!(plan.open_mode, OpenMode { read: false, write: true });
    let file: Descriptor<(), &str> = Descriptor::File(File::new((), FilePerms { read: true, write: true }, OpenMode { read: true, write: true }, false));
    assert!(matches!(
        file.open_at(PathFlags { symlink_follow: false }, oflags(false, false, false, false), no_flags()),
        Err(ErrorCode::NotDirectory)
    ));
}

#[test]
fn descriptor_queries() {
    let d = dir(true, true, true);
    assert!(d.is_dir() && !d.is_file());
    assert!(d.file().is_err());
    assert!(d.dir().is_ok());
    let ft = FileType { is_dir: false, is_symlink: false, is_block_device: false, is_char_device: false, is_file: true };
    assert_eq!(d.get_type(ft), DescriptorType::Directory);
    assert_eq!(descriptor_type_from(ft), DescriptorType::RegularFile);
    assert_eq!(descriptor_type_from(FileType { is_file: false, ..ft }), DescriptorType::Unknown);
    let flags = d.get_flags(FdFlags { dsync: true, rsync: false, sync: false });
    assert!(flags.requested_write_sync && !flags.file_integrity_sync);
    assert!(flags.read && flags.mutate_directory);
    assert!(is_same_object(1, 2, 1, 2));
    assert!(!is_same_object(1, 2, 1, 3));
    assert_eq!(preopen_open_mode(DirPerms { read: true, mutate: false }), OpenMode { read: true, write: false });
    let h = MetadataHashValue::from_lower(5);
    assert_eq!(h.lower, 5);
}

#[test]
fn preopens_are_kept_in_order() {
    let mut ctx: WasiFilesystemCtx<u8> = WasiFilesystemCtx { preopens: Vec::new(), allow_blocking_current_thread: true };
    ctx.preopened_dir(1, "/a".to_string(), DirPerms { read: true, mutate: false }, FilePerms { read: true, write: false });
    ctx.preopened_dir(2, "/b".to_string(), DirPerms { read: true, mutate: true }, FilePerms { read: true, write: true });
    assert_eq!(ctx.preopens.len(), 2);
    assert_eq!(ctx.preopens[0].1, "/a");
    assert_eq!(ctx.preopens[1].0.dir, 2);
    assert_eq!(ctx.preopens[1].0.open_mode, OpenMode { read: true, write: true });
    assert!(ctx.preopens[1].0.allow_blocking_current_thread);
}

#[test]
fn os_errors() {
    assert_eq!(from_raw_os_error(None), None);
    assert_eq!(from_raw_os_error(Some(Errno::NoEnt)), Some(ErrorCode::NoEntry));
    assert_eq!(from_raw_os_error(Some(Errno::OpNotSupp)), Some(ErrorCode::Unsupported));
    assert_eq!(from_raw_os_error(Some(Errno::Other)), None);
    assert_eq!(error_code_from_io(Some(Errno::Access), IoErrorKind::NotFound), ErrorCode::Access);
    assert_eq!(error_code_from_io(Some(Errno::Other), IoErrorKind::NotFound), ErrorCode::NoEntry);
    assert_eq!(error_code_from_io(None, IoErrorKind::PermissionDenied), ErrorCode::NotPermitted);
    assert_eq!(error_code_from_io(None, IoErrorKind::AlreadyExists), ErrorCode::Exist);
    assert_eq!(error_code_from_io(None, IoErrorKind::InvalidInput), ErrorCode::Invalid);
    assert_eq!(error_code_from_io(None, IoErrorKind::Other), ErrorCode::Io);
}

fn file_dir(read: bool, mutate: bool, file_write: bool) -> Descriptor<u8, &'static str> {
    Descriptor::Dir(Dir::new(
        "d",
        DirPerms { read, mutate },
        FilePerms { read: true, write: file_write },
        OpenMode { read, write: mutate },
        false,
    ))
}

#[test]
fn open_at_makes_the_new_descriptor() {
    let d = file_dir(true, true, true);
    let rd = DescriptorFlags { read: true, ..no_flags() };
    // The new descriptor takes the caller's blocking flag, not the parent's.
    match d.open_at_with(PathFlags { symlink_follow: false }, oflags(false, false, false, false), rd, true, |p, plan| {
        assert_eq!(*p, "d");
        assert!(plan.read && !plan.write);
        Ok(Opened::File(7u8))
    }) {
        Ok(Descriptor::File(f)) => {
            assert!(f.allow_blocking_current_thread);
            assert_eq!(f.perms, FilePerms { read: true, write: true });
            assert_eq!(f.open_mode, OpenMode { read: true, write: false });
        }
        _ => panic!("expected a file"),
    }
    match d.open_at_with(PathFlags { symlink_follow: false }, oflags(false, true, false, false), rd, true, |_, _| Ok(Opened::<u8, &str>::Dir("sub"))) {
        Ok(Descriptor::Dir(e)) => {
            assert_eq!(e.dir, "sub");
            assert!(e.allow_blocking_current_thread);
            assert_eq!(e.perms, DirPerms { read: true, mutate: true });
        }
        _ => panic!("expected a directory"),
    }
    // A file where a directory was asked for.
    assert!(matches!(
        d.open_at_with(PathFlags { symlink_follow: false }, oflags(false, true, false, false), rd, false, |_, _| Ok(Opened::File(1u8))),
        Err(ErrorCode::NotDirectory)
    ));
    assert!(matches!(
        d.open_at_with(PathFlags { symlink_follow: false }, oflags(false, false, false, false), rd, false, |_, _| Err::<Opened<u8, &str>, _>(ErrorCode::NoEntry)),
        Err(ErrorCode::NoEntry)
    ));
    // Refused before anything is opened.
    let ro = file_dir(true, false, false);
    assert!(matches!(
        ro.open_at_with(PathFlags { symlink_follow: false }, oflags(true, false, false, false), rd, false, |_, _| -> Result<Opened<u8, &str>, ErrorCode> { panic!("opened") }),
        Err(ErrorCode::NotPermitted)
    ));
    let parent = match &d { Descriptor::Dir(p) => p, _ => unreachable!() };
    let (_, plan) = d.open_at(PathFlags { symlink_follow: false }, oflags(false, false, false, false), rd).unwrap();
    assert!(matches!(open_at_finish(parent, plan, oflags(false, false, false, false), false, Opened::<u8, &str>::File(3)), Ok(Descriptor::File(ref f)) if !f.allow_blocking_current_thread));
}
