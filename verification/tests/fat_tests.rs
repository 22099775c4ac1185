use std::io::Read;

use bootlet::partition::{
    copy_file, create_fat32_filesystem, create_partition_image, install_bootloader,
    SystemdBootConfig,
};
use bootlet::steps::{create_rootfs, setup_partition, PartitionStepConfig, RootfsStepConfig};
use bootlet::BuildError;

/// Reads one file out of a FAT32 image.
fn read_fat_file(image: &mut Vec<u8>, path: &str) -> Vec<u8> {
    let cursor = std::io::Cursor::new(image.as_mut_slice());
    let fs = fatfs::FileSystem::new(cursor, fatfs::FsOptions::new()).expect("valid FAT volume");
    let mut content = Vec::new();
    {
        let root = fs.root_dir();
        let mut file = root.open_file(path).expect("file exists");
        file.read_to_end(&mut content).expect("file readable");
    }
    content
}

#[test]
fn partition_image_exact_length_and_zeroed() {
    let img = create_partition_image(1).unwrap();
    assert_eq!(img.len(), 1048576);
    assert!(img.iter().all(|b| *b == 0));
    let img = create_partition_image(3).unwrap();
    assert_eq!(img.len(), 3 * 1048576);
}

#[test]
fn recreate_file_truncates_completely() {
    let mut img = create_partition_image(64).unwrap();
    create_fat32_filesystem(&mut img).unwrap();
    let long = vec![0xAAu8; 5000];
    copy_file(&mut img, &long, "data.bin").unwrap();
    copy_file(&mut img, b"xyz", "data.bin").unwrap();
    let content = read_fat_file(&mut img, "data.bin");
    assert_eq!(content, b"xyz", "no stale bytes beyond the new length");
}

#[test]
fn bootloader_copies_identical() {
    let mut img = create_partition_image(64).unwrap();
    create_fat32_filesystem(&mut img).unwrap();
    let binary = vec![0x4Du8, 0x5A, 0x90, 0x00, 0x03];
    let config = SystemdBootConfig {
        systemd_boot_binary: &binary,
        loader_conf: "default bootlet",
        bootlet_conf: "title Linux",
    };
    install_bootloader(&mut img, &config).unwrap();
    let a = read_fat_file(&mut img, "EFI/BOOT/BOOTX64.EFI");
    let b = read_fat_file(&mut img, "EFI/systemd/systemd-bootx64.efi");
    assert_eq!(a, binary);
    assert_eq!(b, binary);
    let l = read_fat_file(&mut img, "loader/loader.conf");
    assert_eq!(l, b"default bootlet");
    let e = read_fat_file(&mut img, "loader/entries/bootlet.conf");
    assert_eq!(e, b"title Linux");
}

#[test]
fn write_over_directory_is_name_collision() {
    let mut img = create_partition_image(64).unwrap();
    create_fat32_filesystem(&mut img).unwrap();
    let config = SystemdBootConfig {
        systemd_boot_binary: b"SDBOOT",
        loader_conf: "timeout 3",
        bootlet_conf: "title Test",
    };
    install_bootloader(&mut img, &config).unwrap();
    let r = copy_file(&mut img, b"data", "EFI");
    assert!(matches!(r, Err(BuildError::NameCollision)));
}

#[test]
fn short_name_alias_resolves_to_same_file() {
    // a trailing dot is dropped by 8.3 short-name generation, so `foo.`
    // is also reachable as `FOO`; the library's contracts therefore only
    // speak of paths without component-final dots
    let mut img = create_partition_image(64).unwrap();
    create_fat32_filesystem(&mut img).unwrap();
    copy_file(&mut img, b"first", "foo.").unwrap();
    copy_file(&mut img, b"second", "FOO").unwrap();
    let content = read_fat_file(&mut img, "foo.");
    assert_eq!(content, b"second", "both names resolve to one file");
}

#[test]
fn too_small_partition_fails_with_capacity_error() {
    // a two-mebibyte kernel cannot fit a one-mebibyte partition
    let kernel = vec![0x4Bu8; 2 * 1048576];
    let config = PartitionStepConfig {
        systemd_boot_binary: b"SDBOOT",
        bz_image_binary: &kernel,
        rootfs_image: b"cpio",
        loader_conf: String::from("timeout 3"),
        bootlet_conf: String::from("title Test"),
        partition_size_mb: 1,
    };
    let r = setup_partition(config);
    assert!(matches!(r, Err(BuildError::Capacity)));
}

#[test]
fn end_to_end_pipeline() {
    let commands = vec![String::from("sh"), String::from("ls")];
    let rootfs_config = RootfsStepConfig {
        busybox_binary: b"BUSYBOX",
        busybox_commands: &commands,
        init_script: String::from("#!/bin/sh\necho hi"),
        extra_bin_files: vec![],
    };
    let rootfs = create_rootfs(rootfs_config).unwrap();

    let partition_config = PartitionStepConfig {
        systemd_boot_binary: b"SDBOOT",
        bz_image_binary: b"KERNEL",
        rootfs_image: &rootfs,
        loader_conf: String::from("timeout 3"),
        bootlet_conf: String::from("title Test"),
        partition_size_mb: 64,
    };
    let mut image = setup_partition(partition_config).unwrap();
    assert_eq!(image.len(), 67108864);

    let kernel = read_fat_file(&mut image, "bzImage");
    assert_eq!(kernel, b"KERNEL");
    let l = read_fat_file(&mut image, "loader/loader.conf");
    assert_eq!(l, b"timeout 3");
    let e = read_fat_file(&mut image, "loader/entries/bootlet.conf");
    assert_eq!(e, b"title Test");
    let a = read_fat_file(&mut image, "EFI/BOOT/BOOTX64.EFI");
    assert_eq!(a, b"SDBOOT");
    let b = read_fat_file(&mut image, "EFI/systemd/systemd-bootx64.efi");
    assert_eq!(b, b"SDBOOT");
    let initrd = read_fat_file(&mut image, "initrd.img");
    assert_eq!(initrd, rootfs);

    // the initramfs on the volume parses as a complete archive
    let mut names = Vec::new();
    let mut cursor = std::io::Cursor::new(initrd.as_slice());
    loop {
        let reader = cpio::NewcReader::new(cursor).expect("valid newc entry");
        if reader.entry().is_trailer() {
            break;
        }
        names.push(reader.entry().name().to_string());
        cursor = reader.skip().expect("advance past entry");
    }
    assert_eq!(
        names,
        vec!["bin", "etc", "proc", "syc", "dev", "tmp", "bin/busybox", "bin/sh", "bin/ls", "/init"]
    );
}
