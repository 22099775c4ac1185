//! The two build steps: assembling the initramfs archive, and assembling
//! the FAT32 boot partition image that carries it.
use crate::fat::{
    fat32_geometry, fat32_volume, fat_dirs, fat_files, fat_formattable, fold_eq, plain_path,
};
use crate::newc::{archive_bytes, file_entry, wf_entry, CpioEntry};
use crate::partition::{
    copy_file, create_fat32_filesystem, create_partition_image, install_bootloader,
    lemma_boot_paths_plain, SystemdBootConfig,
};
use crate::rootfs::{
    base_entries, busybox_entries, can_append_all, create_base_rootfs, finalize_rootfs,
    install_busybox, install_extra_bin_file, install_init_script, lemma_wf_entries,
};
use crate::BuildError;
use vstd::prelude::*;
use vstd::utf8::encode_utf8;

verus! {

/// Everything the initramfs step consumes, already resolved to plain
/// bytes and strings.
pub struct RootfsStepConfig<'a> {
    pub busybox_binary: &'a [u8],
    pub busybox_commands: &'a [String],
    pub init_script: String,
    pub extra_bin_files: Vec<(String, Vec<u8>)>,
}

/// Everything the partition step consumes, already resolved to plain
/// bytes and strings; `rootfs_image` is the finished initramfs archive.
pub struct PartitionStepConfig<'a> {
    pub systemd_boot_binary: &'a [u8],
    pub bz_image_binary: &'a [u8],
    pub rootfs_image: &'a [u8],
    pub loader_conf: String,
    pub bootlet_conf: String,
    pub partition_size_mb: u16,
}

/// One regular-file entry per configured extra file, in list order.
pub open spec fn extra_file_entries(extras: Seq<(Seq<char>, Seq<u8>)>) -> Seq<CpioEntry> {
    Seq::new(extras.len(), |i: int| file_entry(extras[i].0, extras[i].1))
}

/// The full initramfs entry sequence: the base directories, the busybox
/// binary and its command symlinks, the `/init` script, then the extra
/// files, in exactly that order.
pub open spec fn rootfs_entries(
    busybox: Seq<u8>,
    cmds: Seq<Seq<char>>,
    init: Seq<char>,
    extras: Seq<(Seq<char>, Seq<u8>)>,
) -> Seq<CpioEntry> {
    base_entries() + busybox_entries(busybox, cmds) + seq![file_entry("/init"@, encode_utf8(init))]
        + extra_file_entries(extras)
}

/// Builds the complete initramfs archive. On success the returned bytes
/// are exactly the newc encoding of `rootfs_entries` of the inputs,
/// followed by the trailer record; the step succeeds if and only if every
/// entry fits the archive's 32-bit header fields.
pub fn create_rootfs(config: RootfsStepConfig<'_>) -> (r: Result<Vec<u8>, BuildError>)
    ensures
        r matches Ok(b) ==> b@ == archive_bytes(
            rootfs_entries(
                config.busybox_binary@,
                config.busybox_commands.deep_view(),
                config.init_script@,
                config.extra_bin_files.deep_view(),
            ),
        ),
        r is Ok <==> can_append_all(
            Seq::<CpioEntry>::empty(),
            rootfs_entries(
                config.busybox_binary@,
                config.busybox_commands.deep_view(),
                config.init_script@,
                config.extra_bin_files.deep_view(),
            ),
        ),
        r is Err ==> r == Err::<Vec<u8>, BuildError>(BuildError::Encoding),
{
    let ghost bb = busybox_entries(config.busybox_binary@, config.busybox_commands.deep_view());
    let ghost init_e = file_entry("/init"@, encode_utf8(config.init_script@));
    let ghost extras = extra_file_entries(config.extra_bin_files.deep_view());
    let ghost es = rootfs_entries(
        config.busybox_binary@,
        config.busybox_commands.deep_view(),
        config.init_script@,
        config.extra_bin_files.deep_view(),
    );
    let mut state = match create_base_rootfs() {
        Ok(s) => s,
        Err(_) => {
            return Err(BuildError::Encoding);
        },
    };
    if let Err(e) = install_busybox(&mut state, config.busybox_binary, config.busybox_commands) {
        proof {
            if !(forall|j: int| 0 <= j < bb.len() ==> wf_entry(#[trigger] bb[j])) {
                let j = choose|j: int| 0 <= j < bb.len() && !wf_entry(bb[j]);
                assert(es[6 + j] == bb[j]);
                assert(!wf_entry(es[6 + j]));
            }
            assert(!can_append_all(Seq::<CpioEntry>::empty(), es));
        }
        return Err(e);
    }
    if let Err(e) = install_init_script(&mut state, config.init_script.as_str()) {
        proof {
            if wf_entry(init_e) {
                assert(es.len() + 1 > u32::MAX);
            } else {
                assert(es[6 + bb.len() as int] == init_e);
                assert(!wf_entry(es[6 + bb.len() as int]));
            }
            assert(!can_append_all(Seq::<CpioEntry>::empty(), es));
        }
        return Err(e);
    }
    let ghost pre = base_entries() + bb + seq![init_e];
    proof {
        assert(state@ =~= pre);
        assert(es =~= pre + extras);
    }
    let mut i: usize = 0;
    while i < config.extra_bin_files.len()
        invariant
            state.wf(),
            i <= config.extra_bin_files@.len(),
            bb == busybox_entries(config.busybox_binary@, config.busybox_commands.deep_view()),
            init_e == file_entry("/init"@, encode_utf8(config.init_script@)),
            extras == extra_file_entries(config.extra_bin_files.deep_view()),
            extras.len() == config.extra_bin_files@.len(),
            pre == base_entries() + bb + seq![init_e],
            pre.len() == 7 + bb.len(),
            es == rootfs_entries(
                config.busybox_binary@,
                config.busybox_commands.deep_view(),
                config.init_script@,
                config.extra_bin_files.deep_view(),
            ),
            es == pre + extras,
            state@ == pre + extras.take(i as int),
        decreases config.extra_bin_files@.len() - i,
    {
        let pair = &config.extra_bin_files[i];
        proof {
            assert(config.extra_bin_files.deep_view()[i as int] == config.extra_bin_files@[i as int].deep_view());
            assert(pair.1.deep_view() =~= pair.1@);
            assert(extras[i as int] == file_entry(pair.0@, pair.1@));
        }
        if let Err(e) = install_extra_bin_file(&mut state, pair.0.as_str(), pair.1.as_slice()) {
            proof {
                if wf_entry(extras[i as int]) {
                    assert(es.len() + 1 > u32::MAX);
                } else {
                    assert(es[pre.len() + i] == extras[i as int]);
                    assert(!wf_entry(es[pre.len() + i]));
                }
                assert(!can_append_all(Seq::<CpioEntry>::empty(), es));
            }
            return Err(e);
        }
        proof {
            assert(extras.take(i + 1) =~= extras.take(i as int).push(extras[i as int]));
        }
        i = i + 1;
    }
    proof {
        assert(extras.take(extras.len() as int) =~= extras);
        assert(state@ == es);
        lemma_wf_entries(state);
    }
    match finalize_rootfs(state) {
        Ok(b) => Ok(b),
        Err(_) => {
            return Err(BuildError::Encoding);
        },
    }
}

/// Builds the boot partition image: allocates a zero-filled buffer of
/// exactly `partition_size_mb` mebibytes, formats it in place, installs
/// the boot loader layout, and copies the kernel and the initramfs in.
/// Formatting succeeds exactly when the buffer length admits a FAT
/// layout, and the volume carries 32-bit table entries exactly when the
/// length's geometry does; a length no FAT layout fits fails with the
/// capacity error. On success the returned buffer has exactly the
/// requested length and holds the boot layout's directories and files
/// with exactly the given contents.
pub fn setup_partition(config: PartitionStepConfig<'_>) -> (r: Result<Vec<u8>, BuildError>)
    requires
        config.partition_size_mb as int * 1048576 <= usize::MAX as int,
    ensures
        r matches Ok(out) ==> out@.len() == config.partition_size_mb as int * 1048576,
        r is Ok ==> fat_formattable(config.partition_size_mb as int * 1048576),
        !fat_formattable(config.partition_size_mb as int * 1048576) ==> r == Err::<
            Vec<u8>,
            BuildError,
        >(BuildError::Capacity),
        r matches Ok(out) ==> (fat32_volume(out@) <==> fat32_geometry(
            config.partition_size_mb as int * 1048576,
        )),
        r matches Ok(out) ==> fat_dirs(out@).contains("EFI"@) && fat_dirs(out@).contains(
            "EFI/BOOT"@,
        ) && fat_dirs(out@).contains("EFI/systemd"@) && fat_dirs(out@).contains("loader"@)
            && fat_dirs(out@).contains("loader/entries"@),
        r matches Ok(out) ==> fat_files(out@).contains_key("EFI/BOOT/BOOTX64.EFI"@) && fat_files(
            out@,
        )["EFI/BOOT/BOOTX64.EFI"@] == config.systemd_boot_binary@,
        r matches Ok(out) ==> fat_files(out@).contains_key("EFI/systemd/systemd-bootx64.efi"@)
            && fat_files(out@)["EFI/systemd/systemd-bootx64.efi"@] == config.systemd_boot_binary@,
        r matches Ok(out) ==> fat_files(out@).contains_key("loader/loader.conf"@) && fat_files(
            out@,
        )["loader/loader.conf"@] == encode_utf8(config.loader_conf@),
        r matches Ok(out) ==> fat_files(out@).contains_key("loader/entries/bootlet.conf"@)
            && fat_files(out@)["loader/entries/bootlet.conf"@] == encode_utf8(
            config.bootlet_conf@,
        ),
        r matches Ok(out) ==> fat_files(out@).contains_key("bzImage"@) && fat_files(out@)[
            "bzImage"@] == config.bz_image_binary@,
        r matches Ok(out) ==> fat_files(out@).contains_key("initrd.img"@) && fat_files(out@)[
            "initrd.img"@] == config.rootfs_image@,
        r matches Ok(out) ==> forall|q: Seq<char>| #[trigger] fat_files(out@).contains_key(q)
            && plain_path(q) ==> fold_eq("EFI/BOOT/BOOTX64.EFI"@, q) || fold_eq(
            "EFI/systemd/systemd-bootx64.efi"@,
            q,
        ) || fold_eq("loader/loader.conf"@, q) || fold_eq("loader/entries/bootlet.conf"@, q)
            || fold_eq("bzImage"@, q) || fold_eq("initrd.img"@, q),
        r is Err ==> r->Err_0 != BuildError::Encoding,
{
    proof {
        lemma_boot_paths_plain();
    }
    let mut partition_image = match create_partition_image(config.partition_size_mb) {
        Ok(b) => b,
        Err(e) => {
            return Err(e);
        },
    };
    if let Err(e) = create_fat32_filesystem(&mut partition_image) {
        return Err(e);
    }
    let systemd_boot_config = SystemdBootConfig {
        systemd_boot_binary: config.systemd_boot_binary,
        loader_conf: config.loader_conf.as_str(),
        bootlet_conf: config.bootlet_conf.as_str(),
    };
    if let Err(e) = install_bootloader(&mut partition_image, &systemd_boot_config) {
        return Err(e);
    }
    if let Err(e) = copy_file(&mut partition_image, config.bz_image_binary, "bzImage") {
        return Err(e);
    }
    proof {
        assert(!fold_eq("initrd.img"@, "bzImage"@));
        assert(fat_files(partition_image@)["EFI/BOOT/BOOTX64.EFI"@]
            == config.systemd_boot_binary@);
        assert(fat_files(partition_image@)["EFI/systemd/systemd-bootx64.efi"@]
            == config.systemd_boot_binary@);
        assert(fat_files(partition_image@)["loader/loader.conf"@] == encode_utf8(
            config.loader_conf@,
        ));
        assert(fat_files(partition_image@)["loader/entries/bootlet.conf"@] == encode_utf8(
            config.bootlet_conf@,
        ));
    }
    if let Err(e) = copy_file(&mut partition_image, config.rootfs_image, "initrd.img") {
        return Err(e);
    }
    Ok(partition_image)
}

} // verus!
