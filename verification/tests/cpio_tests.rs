use std::io::Read;

use bootlet::rootfs::CpioRootfsState;
use bootlet::steps::{create_rootfs, RootfsStepConfig};

/// One parsed archive entry, as the cpio crate's newc reader reports it.
struct ParsedEntry {
    name: String,
    ino: u32,
    mode: u32,
    uid: u32,
    gid: u32,
    nlink: u32,
    mtime: u32,
    data: Vec<u8>,
}

/// Parses a newc archive with the cpio crate, returning all entries before
/// the trailer, and checking that exactly one trailer record ends the
/// archive.
fn parse_archive(bytes: &[u8]) -> Vec<ParsedEntry> {
    let mut entries = Vec::new();
    let mut cursor = std::io::Cursor::new(bytes);
    loop {
        let mut reader = cpio::NewcReader::new(cursor).expect("valid newc header");
        if reader.entry().is_trailer() {
            let inner = reader.finish().expect("trailer consumed");
            cursor = inner;
            break;
        }
        let entry = reader.entry();
        let mut parsed = ParsedEntry {
            name: entry.name().to_string(),
            ino: entry.ino(),
            mode: entry.mode(),
            uid: entry.uid(),
            gid: entry.gid(),
            nlink: entry.nlink(),
            mtime: entry.mtime(),
            data: Vec::new(),
        };
        let mut data = Vec::new();
        reader.read_to_end(&mut data).expect("entry data");
        parsed.data = data;
        entries.push(parsed);
        cursor = reader.finish().expect("entry consumed");
    }
    // nothing follows the single trailer record
    let mut rest = Vec::new();
    cursor.read_to_end(&mut rest).expect("tail");
    assert!(rest.is_empty(), "bytes after the trailer: {}", rest.len());
    entries
}

#[test]
fn archive_round_trip_order_and_fields() {
    let mut b = CpioRootfsState::new();
    b.new_directory("a").unwrap();
    b.new_directory("b").unwrap();
    b.new_file("a/x", b"hello world").unwrap();
    b.new_symlink("a/l", "busybox").unwrap();
    b.new_file("b/y", b"").unwrap();
    let bytes = b.finish().unwrap();
    let entries = parse_archive(&bytes);
    assert_eq!(entries.len(), 5);

    let names: Vec<&str> = entries.iter().map(|e| e.name.as_str()).collect();
    assert_eq!(names, vec!["a", "b", "a/x", "a/l", "b/y"]);

    for (i, e) in entries.iter().enumerate() {
        assert_eq!(e.ino, (i + 1) as u32, "inode numbers count up from 1");
        assert_eq!(e.uid, 0);
        assert_eq!(e.gid, 0);
        assert_eq!(e.mtime, 0);
    }
    assert_eq!(entries[0].mode, 0o40755);
    assert_eq!(entries[0].nlink, 2);
    assert_eq!(entries[0].data, b"");
    assert_eq!(entries[1].mode, 0o40755);
    assert_eq!(entries[2].mode, 0o100755);
    assert_eq!(entries[2].nlink, 1);
    assert_eq!(entries[2].data, b"hello world");
    assert_eq!(entries[3].mode, 0o120777);
    assert_eq!(entries[3].nlink, 1);
    assert_eq!(entries[3].data, b"busybox");
    assert_eq!(entries[4].mode, 0o100755);
    assert_eq!(entries[4].data, b"");
}

#[test]
fn golden_bytes_single_file() {
    let mut b = CpioRootfsState::new();
    b.new_file("hi", b"AB").unwrap();
    let bytes = b.finish().unwrap();

    let mut expected = Vec::new();
    // header: magic, ino 1, mode 0o100755 = 0x81ed, uid, gid, nlink 1,
    // mtime, filesize 2, devmajor, devminor, rdevmajor, rdevminor,
    // namesize 3, check
    expected.extend_from_slice(b"070701");
    expected.extend_from_slice(b"00000001");
    expected.extend_from_slice(b"000081ed");
    expected.extend_from_slice(b"00000000");
    expected.extend_from_slice(b"00000000");
    expected.extend_from_slice(b"00000001");
    expected.extend_from_slice(b"00000000");
    expected.extend_from_slice(b"00000002");
    expected.extend_from_slice(b"00000000");
    expected.extend_from_slice(b"00000000");
    expected.extend_from_slice(b"00000000");
    expected.extend_from_slice(b"00000000");
    expected.extend_from_slice(b"00000003");
    expected.extend_from_slice(b"00000000");
    expected.extend_from_slice(b"hi\0\0\0\0");  // name, NUL, pad 110+3 to 116
    expected.extend_from_slice(b"AB\0\0");  // data, pad 2 to 4
    // trailer: ino 0, mode 0, nlink 1, namesize 11
    expected.extend_from_slice(b"070701");
    expected.extend_from_slice(b"00000000");
    expected.extend_from_slice(b"00000000");
    expected.extend_from_slice(b"00000000");
    expected.extend_from_slice(b"00000000");
    expected.extend_from_slice(b"00000001");
    expected.extend_from_slice(b"00000000");
    expected.extend_from_slice(b"00000000");
    expected.extend_from_slice(b"00000000");
    expected.extend_from_slice(b"00000000");
    expected.extend_from_slice(b"00000000");
    expected.extend_from_slice(b"00000000");
    expected.extend_from_slice(b"0000000b");
    expected.extend_from_slice(b"00000000");
    expected.extend_from_slice(b"TRAILER!!!\0\0\0\0");  // name, NUL, pad 121 to 124

    assert_eq!(bytes, expected);
}

#[test]
fn symlink_per_command_in_order() {
    let commands = vec![
        String::from("sh"),
        String::from("ls"),
        String::from("cat"),
    ];
    let config = RootfsStepConfig {
        busybox_binary: b"BB",
        busybox_commands: &commands,
        init_script: String::from("#!/bin/sh\n"),
        extra_bin_files: vec![],
    };
    let bytes = create_rootfs(config).unwrap();
    let entries = parse_archive(&bytes);
    let symlinks: Vec<&ParsedEntry> =
        entries.iter().filter(|e| e.mode == 0o120777).collect();
    assert_eq!(symlinks.len(), 3, "exactly one symlink per command");
    assert_eq!(symlinks[0].name, "bin/sh");
    assert_eq!(symlinks[1].name, "bin/ls");
    assert_eq!(symlinks[2].name, "bin/cat");
    for s in symlinks {
        assert_eq!(s.data, b"busybox");
    }
}

#[test]
fn empty_commands_still_valid_archive() {
    let commands: Vec<String> = vec![];
    let config = RootfsStepConfig {
        busybox_binary: b"BUSY",
        busybox_commands: &commands,
        init_script: String::from("#!/bin/sh\nexec sh\n"),
        extra_bin_files: vec![],
    };
    let bytes = create_rootfs(config).unwrap();
    let entries = parse_archive(&bytes);
    let names: Vec<&str> = entries.iter().map(|e| e.name.as_str()).collect();
    assert_eq!(
        names,
        vec!["bin", "etc", "proc", "syc", "dev", "tmp", "bin/busybox", "/init"]
    );
    assert_eq!(entries[6].data, b"BUSY");
    assert_eq!(entries[7].data, b"#!/bin/sh\nexec sh\n");
}

#[test]
fn extra_files_appended_in_order() {
    let commands = vec![String::from("sh")];
    let config = RootfsStepConfig {
        busybox_binary: b"BB",
        busybox_commands: &commands,
        init_script: String::from("x"),
        extra_bin_files: vec![
            (String::from("bin/tool"), vec![1u8, 2, 3]),
            (String::from("etc/conf"), vec![]),
        ],
    };
    let bytes = create_rootfs(config).unwrap();
    let entries = parse_archive(&bytes);
    let names: Vec<&str> = entries.iter().map(|e| e.name.as_str()).collect();
    assert_eq!(
        names,
        vec![
            "bin", "etc", "proc", "syc", "dev", "tmp", "bin/busybox", "bin/sh", "/init",
            "bin/tool", "etc/conf"
        ]
    );
    assert_eq!(entries[9].data, vec![1u8, 2, 3]);
    assert_eq!(entries[10].data, b"");
}
