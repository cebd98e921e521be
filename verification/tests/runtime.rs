use jocker::config::Config;
use jocker::container::{Container, ContainerError, ContainerStore, Creation};
use jocker::image::{ExtractedImage, Extraction, Image, ImageError};
use jocker::runtime::{
    archive_member, device, is_archived, lies_within, namespaces, private_root, setup_context,
    setup_failure_report, Mount, Namespaces,
    setup_sequence, ArchiveMember, ChildReport, EntryKind, ExportOutcome, ImageSource, MountFlags,
    OverlayOutcome,
    SetupStep, Walk, DEVICE_MODE, SETUP_FAILURE_STATUS,
};

fn container(name: &str, image: &str) -> Container {
    ContainerStore::from_directory("/s/containers")
        .create_container(name.to_string(), image.to_string(), Creation::Created)
        .unwrap()
}

#[test]
fn exit_codes_map_to_results() {
    let c = container("web", "alpine");
    assert_eq!(c.run_command("exit 0", ChildReport::Exited(0)), Ok(()));
    for n in [1, 2, 5, 100] {
        assert_eq!(
            c.run_command("exit n", ChildReport::Exited(n)),
            Err(ContainerError::CommandExitedWithError(n))
        );
    }
    assert_eq!(
        c.run_command("exit 242", ChildReport::Exited(242)),
        Err(ContainerError::ContainerSetupError)
    );
    assert_eq!(SETUP_FAILURE_STATUS, 242);
    assert_eq!(
        c.run_command("x", ChildReport::Exited(-1)),
        Err(ContainerError::CommandExitedWithError(-1))
    );
}

#[test]
fn abnormal_ends_are_told_apart() {
    let c = container("web", "alpine");
    assert_eq!(
        c.run_command("sleep 1", ChildReport::Other),
        Err(ContainerError::ContainerExitedAbnormally)
    );
    assert_eq!(
        c.run_command("true", ChildReport::Failed("EPERM".to_string())),
        Err(ContainerError::ContainerExecutionError("EPERM".to_string()))
    );
}

#[test]
fn command_with_null_byte_is_invalid() {
    let c = container("web", "alpine");
    assert_eq!(
        Container::shell_arguments("echo \0"),
        Err(ContainerError::InvalidCommand)
    );
    assert_eq!(
        c.run_command("echo \0", ChildReport::Exited(0)),
        Err(ContainerError::InvalidCommand)
    );
    assert_eq!(
        Container::shell_arguments("echo hello > /x"),
        Ok(vec!["/bin/sh".to_string(), "-c".to_string(), "echo hello > /x".to_string()])
    );
    assert_eq!(
        Container::shell_arguments(""),
        Ok(vec!["/bin/sh".to_string(), "-c".to_string(), "".to_string()])
    );
}

#[test]
fn setup_steps_come_in_order() {
    assert_eq!(
        setup_sequence(),
        vec![
            SetupStep::CpuCgroup,
            SetupStep::MemoryCgroup,
            SetupStep::Hostname,
            SetupStep::PrivateRoot,
            SetupStep::Overlay,
            SetupStep::KernelFilesystems,
            SetupStep::Devices,
            SetupStep::PivotRoot,
            SetupStep::DetachOldRoot,
            SetupStep::RemoveOldRoot,
            SetupStep::Exec,
        ]
    );
}

#[test]
fn setup_failures_are_reported_with_context() {
    assert_eq!(setup_context(SetupStep::Hostname), None);
    assert_eq!(setup_context(SetupStep::Exec), None);
    assert_eq!(setup_context(SetupStep::PrivateRoot), Some("cannot mount"));
    assert_eq!(
        setup_failure_report(SetupStep::CpuCgroup, "Permission denied"),
        "error: cannot setup a CPU cgroup: Permission denied"
    );
    assert_eq!(
        setup_failure_report(SetupStep::MemoryCgroup, "x"),
        "error: cannot setup a memory cgroup: x"
    );
    assert_eq!(
        setup_failure_report(SetupStep::Overlay, "x"),
        "error: cannot setup the container's root filesystem: x"
    );
    assert_eq!(
        setup_failure_report(SetupStep::KernelFilesystems, "x"),
        "error: cannot mount kernel-related filesystems: x"
    );
    assert_eq!(
        setup_failure_report(SetupStep::Devices, "x"),
        "error: cannot create devices: x"
    );
    assert_eq!(
        setup_failure_report(SetupStep::PivotRoot, "x"),
        "error: cannot move to new root: x"
    );
    assert_eq!(
        setup_failure_report(SetupStep::DetachOldRoot, "x"),
        "error: cannot unmount the old root: x"
    );
    assert_eq!(
        setup_failure_report(SetupStep::RemoveOldRoot, "x"),
        "error: cannot remove the old root: x"
    );
    assert_eq!(setup_failure_report(SetupStep::Exec, "ENOENT"), "error: ENOENT");
}

#[test]
fn cgroups_are_named_after_the_container() {
    let c = container("web", "alpine");
    let cpu = c.setup_cpu_cgroup();
    assert_eq!(cpu.directory, "/sys/fs/cgroup/cpu/jocker/web");
    assert_eq!(cpu.tasks_file, "/sys/fs/cgroup/cpu/jocker/web/tasks");
    let memory = c.setup_memory_cgroup();
    assert_eq!(memory.directory, "/sys/fs/cgroup/memory/jocker/web");
    assert_eq!(memory.tasks_file, "/sys/fs/cgroup/memory/jocker/web/tasks");
    assert_eq!(c.setup_cgroup("pids").directory, "/sys/fs/cgroup/pids/jocker/web");
}

#[test]
fn overlay_names_its_three_layers() {
    let c = container("web", "alpine");
    let image = ExtractedImage::new("/s/extracted_images/alpine".to_string());
    let overlay = c.setup_overlay(&image);
    assert_eq!(overlay.upper_dir, "/s/containers/web/cow_rw");
    assert_eq!(overlay.work_dir, "/s/containers/web/cow_workdir");
    assert_eq!(overlay.rootfs, "/s/containers/web/rootfs");
    assert_eq!(
        overlay.options,
        "lowerdir=/s/extracted_images/alpine,upperdir=/s/containers/web/cow_rw,workdir=/s/containers/web/cow_workdir"
    );
    assert_eq!(overlay.result(OverlayOutcome::Mounted), Ok(()));
    assert_eq!(
        overlay.result(OverlayOutcome::MountFailed),
        Err(ContainerError::ContainerSetupError)
    );
    assert_eq!(
        overlay.result(OverlayOutcome::DirectoryFailed("denied".to_string())),
        Err(ContainerError::CreationError("denied".to_string()))
    );
}

fn flags() -> MountFlags {
    MountFlags {
        no_atime: false,
        no_suid: false,
        strict_atime: false,
        private: false,
        recursive: false,
        silent: false,
    }
}

#[test]
fn kernel_filesystems_are_mounted_in_order() {
    let c = container("web", "alpine");
    let mounts = c.mount_kernel_filesystems();
    let quiet = MountFlags { no_atime: true, ..flags() };
    let strict = MountFlags { no_suid: true, strict_atime: true, ..flags() };
    let kernel = |target: &str, fstype: &str, flags: MountFlags| Mount {
        source: None,
        target: target.to_string(),
        fstype: Some(fstype.to_string()),
        flags,
        data: None,
    };
    assert_eq!(
        mounts,
        vec![
            kernel("/s/containers/web/rootfs/proc", "proc", quiet),
            kernel("/s/containers/web/rootfs/sys", "sysfs", quiet),
            kernel("/s/containers/web/rootfs/tmp", "tmpfs", strict),
            kernel("/s/containers/web/rootfs/dev/pts", "devpts", quiet),
        ]
    );
}

#[test]
fn root_is_remounted_private_and_recursive() {
    assert_eq!(
        private_root(),
        Mount {
            source: None,
            target: "/".to_string(),
            fstype: None,
            flags: MountFlags { private: true, recursive: true, ..flags() },
            data: None,
        }
    );
}

#[test]
fn overlay_is_mounted_silently_at_the_root() {
    let c = container("web", "alpine");
    let image = ExtractedImage::new("/e/alpine".to_string());
    let overlay = c.setup_overlay(&image);
    assert_eq!(
        overlay.mount(),
        Mount {
            source: Some("overlay".to_string()),
            target: "/s/containers/web/rootfs".to_string(),
            fstype: Some("overlay".to_string()),
            flags: MountFlags { silent: true, ..flags() },
            data: Some(
                "lowerdir=/e/alpine,upperdir=/s/containers/web/cow_rw,workdir=/s/containers/web/cow_workdir"
                    .to_string()
            ),
        }
    );
}

#[test]
fn devices_are_the_four_character_devices() {
    let c = container("web", "alpine");
    let devices = c.create_devices();
    let seen: Vec<(&str, u64, u64, u64)> = devices
        .iter()
        .map(|d| (d.path.as_str(), d.major, d.minor, d.number))
        .collect();
    assert_eq!(
        seen,
        vec![
            ("/s/containers/web/rootfs/dev/null", 1, 3, 259),
            ("/s/containers/web/rootfs/dev/zero", 1, 5, 261),
            ("/s/containers/web/rootfs/dev/random", 1, 8, 264),
            ("/s/containers/web/rootfs/dev/urandom", 1, 9, 265),
        ]
    );
    assert_eq!(DEVICE_MODE, 0o666);
}

#[test]
fn device_numbers_pack_major_and_minor() {
    assert_eq!(device("/dev", "x", 0, 0).number, 0);
    assert_eq!(device("/dev", "x", 8, 1).number, 0x801);
    assert_eq!(device("/dev", "x", 0x1234, 0x56789).number, 0x0000_1000_5672_3489);
    assert_eq!(device("/dev", "x", 1, 256).number, 0x0010_0100);
    assert_eq!(device("/dev", "tty", 5, 0).path, "/dev/tty");
}

#[test]
fn pivot_moves_the_old_root_aside() {
    let c = container("web", "alpine");
    let pivot = c.move_to_new_root();
    assert_eq!(pivot.new_root, "/s/containers/web/rootfs");
    assert_eq!(pivot.put_old, "/s/containers/web/rootfs/old_root");
    assert_eq!(pivot.old_root, "/old_root");
}

#[test]
fn image_comes_from_the_cache_or_the_store() {
    let config = Config::new("/s");
    let c = container("web", "alpine");
    assert_eq!(
        c.extract_image(&config, true, true),
        Ok(ImageSource::Cached(ExtractedImage::new(
            "/s/extracted_images/alpine".to_string()
        )))
    );
    assert_eq!(
        c.extract_image(&config, true, false),
        Ok(ImageSource::Cached(ExtractedImage::new(
            "/s/extracted_images/alpine".to_string()
        )))
    );
    assert_eq!(
        c.extract_image(&config, false, true),
        Ok(ImageSource::Archive {
            image: Image::new("/s/images/alpine".to_string()),
            destination: "/s/extracted_images/alpine".to_string(),
        })
    );
    assert_eq!(
        c.extract_image(&config, false, false),
        Err(ContainerError::InitializationError(ImageError::InvalidImage))
    );
}

#[test]
fn image_is_unpacked_where_it_is_looked_for() {
    let config = Config::new("/b");
    for name in ["v1.0", "alpine.3", ".hidden", "plain"] {
        let c = container("web", name);
        let looked_for = config.extracted_image_store().image_path(name);
        assert_eq!(looked_for, format!("/b/extracted_images/{}", name));
        assert_eq!(
            c.extract_image(&config, false, true),
            Ok(ImageSource::Archive {
                image: Image::new(format!("/b/images/{}", name)),
                destination: looked_for.clone(),
            })
        );
        assert_eq!(
            c.extract_image(&config, true, true),
            Ok(ImageSource::Cached(ExtractedImage::new(looked_for)))
        );
    }
}

#[test]
fn images_with_different_extensions_do_not_share_a_directory() {
    let config = Config::new("/b");
    let third = container("a", "alpine.3").extract_image(&config, false, true);
    let fourth = container("b", "alpine.4").extract_image(&config, false, true);
    match (third, fourth) {
        (
            Ok(ImageSource::Archive { destination: first, .. }),
            Ok(ImageSource::Archive { destination: second, .. }),
        ) => {
            assert_eq!(first, "/b/extracted_images/alpine.3");
            assert_eq!(second, "/b/extracted_images/alpine.4");
        }
        _ => panic!("both images are stored and not extracted"),
    }
}

#[test]
fn container_gets_its_own_process_hostname_and_mount_namespaces() {
    assert_eq!(
        namespaces(),
        Namespaces { pid: true, uts: true, mount: true, network: false, user: false }
    );
}

#[test]
fn initialization_wraps_unpack_failures() {
    let cached = ImageSource::Cached(ExtractedImage::new("/e/a".to_string()));
    assert_eq!(
        Container::initialize(cached, Extraction::Unopenable),
        Ok(ExtractedImage::new("/e/a".to_string()))
    );
    let archive = || ImageSource::Archive {
        image: Image::new("/i/a".to_string()),
        destination: "/e/a".to_string(),
    };
    assert_eq!(
        Container::initialize(archive(), Extraction::Unpacked),
        Ok(ExtractedImage::new("/e/a".to_string()))
    );
    assert_eq!(
        Container::initialize(archive(), Extraction::Unopenable),
        Err(ContainerError::InitializationError(ImageError::InvalidImage))
    );
    assert_eq!(
        Container::initialize(archive(), Extraction::Corrupt("eof".to_string())),
        Err(ContainerError::InitializationError(ImageError::UnpackError(
            "eof".to_string()
        )))
    );
}

#[test]
fn export_maps_each_stage_to_its_error() {
    let config = Config::new("/s");
    let c = container("web", "alpine");
    assert_eq!(Container::temporary_archive_path(), "/tmp/image.tar.gz");
    assert_eq!(
        c.export_as_image(&config, "out".to_string(), ExportOutcome::Completed),
        Ok(Image::new("/s/images/out".to_string()))
    );
    assert_eq!(
        c.export_as_image(
            &config,
            "out".to_string(),
            ExportOutcome::ArchiveFailed("full".to_string())
        ),
        Err(ContainerError::ArchiveError("full".to_string()))
    );
    assert_eq!(
        c.export_as_image(&config, "out".to_string(), ExportOutcome::UnmountFailed),
        Err(ContainerError::ContainerSetupError)
    );
    assert_eq!(
        c.export_as_image(
            &config,
            "out".to_string(),
            ExportOutcome::ImportFailed(ImageError::CannotImportTarball("x".to_string()))
        ),
        Err(ContainerError::ExportError(ImageError::CannotImportTarball(
            "x".to_string()
        )))
    );
    assert_eq!(
        c.export_as_image(
            &config,
            "out".to_string(),
            ExportOutcome::CleanupFailed("busy".to_string())
        ),
        Err(ContainerError::ArchiveError("busy".to_string()))
    );
}

#[test]
fn archive_members_are_named_relative_to_the_root() {
    assert_eq!(
        archive_member("/c/rootfs", "/c/rootfs", EntryKind::Directory),
        ArchiveMember::Root
    );
    assert_eq!(
        archive_member("/c/rootfs", "/c/rootfs/etc", EntryKind::Directory),
        ArchiveMember::Directory("etc".to_string())
    );
    assert_eq!(
        archive_member("/c/rootfs", "/c/rootfs/etc/passwd", EntryKind::File),
        ArchiveMember::File("etc/passwd".to_string())
    );
    assert_eq!(
        archive_member("/c/rootfs", "/c/rootfs/bin/sh", EntryKind::Symlink),
        ArchiveMember::File("bin/sh".to_string())
    );
    assert_eq!(
        archive_member("/c/rootfs", "/c/rootfs/dev/null", EntryKind::Other),
        ArchiveMember::Skipped
    );
    assert_eq!(
        archive_member("/c/rootfs/", "/c/rootfs/x", EntryKind::File),
        ArchiveMember::File("x".to_string())
    );
}

#[test]
fn only_files_directories_and_links_are_archived() {
    assert!(is_archived(EntryKind::File));
    assert!(is_archived(EntryKind::Directory));
    assert!(is_archived(EntryKind::Symlink));
    assert!(!is_archived(EntryKind::Other));
    assert!(lies_within("/c/rootfs", "/c/rootfs"));
    assert!(lies_within("/c/rootfs", "/c/rootfs/a"));
    assert!(lies_within("/c/rootfs/", "/c/rootfs/a"));
    assert!(lies_within("", "a"));
    assert!(!lies_within("/c/rootfs", "/c/rootfs2/a"));
    assert!(!lies_within("/c/rootfs", "/c/rootfs/"));
    assert!(!lies_within("/c/rootfs", "/c"));
    assert!(!lies_within("/c/rootfs", "/d/rootfs/a"));
}

#[test]
fn walk_visits_the_last_found_first() {
    let mut walk = Walk::start("/r");
    assert_eq!(walk.next(), Some(("/r".to_string(), true)));
    assert_eq!(walk.next(), None);
    walk.visit(&vec![
        ("/r/a".to_string(), EntryKind::File),
        ("/r/dev".to_string(), EntryKind::Other),
        ("/r/d".to_string(), EntryKind::Directory),
        ("/r/l".to_string(), EntryKind::Symlink),
    ]);
    assert_eq!(walk.next(), Some(("/r/l".to_string(), false)));
    assert_eq!(walk.next(), Some(("/r/d".to_string(), true)));
    walk.visit(&vec![("/r/d/x".to_string(), EntryKind::File)]);
    assert_eq!(walk.next(), Some(("/r/d/x".to_string(), false)));
    assert_eq!(walk.next(), Some(("/r/a".to_string(), false)));
    assert_eq!(walk.next(), None);
}
