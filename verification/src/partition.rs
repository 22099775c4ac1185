//! The EFI boot partition: a fixed-size FAT32 image holding the boot
//! loader (twice, per UEFI and systemd-boot conventions), the loader
//! configuration, the kernel, and the initramfs.
use crate::fat::{
    dir_fits, fat32_geometry, fat32_volume, fat_create_dir, fat_dirs, fat_files, fat_format,
    fat_formattable, fat_wf, fat_write_file, fold_eq, no_dirs, no_files, plain_path, write_fits,
};
use crate::newc::zeros;
use crate::BuildError;
use vstd::prelude::*;
use vstd::utf8::encode_utf8;

verus! {

/// What the boot loader installation writes: the loader binary and the two
/// configuration texts.
#[derive(Clone, Copy, Debug)]
pub struct SystemdBootConfig<'a> {
    pub systemd_boot_binary: &'a [u8],
    pub loader_conf: &'a str,
    pub bootlet_conf: &'a str,
}

/// The boot layout's paths are plain (see `plain_path`), and their
/// pairwise distinct lengths keep any two of them apart under case
/// folding.
pub(crate) proof fn lemma_boot_paths_plain()
    ensures
        plain_path("EFI"@) && "EFI"@.len() == 3,
        plain_path("EFI/BOOT"@) && "EFI/BOOT"@.len() == 8,
        plain_path("EFI/systemd"@) && "EFI/systemd"@.len() == 11,
        plain_path("loader"@) && "loader"@.len() == 6,
        plain_path("loader/entries"@) && "loader/entries"@.len() == 14,
        plain_path("EFI/BOOT/BOOTX64.EFI"@) && "EFI/BOOT/BOOTX64.EFI"@.len() == 20,
        plain_path("EFI/systemd/systemd-bootx64.efi"@) && "EFI/systemd/systemd-bootx64.efi"@.len()
            == 31,
        plain_path("loader/loader.conf"@) && "loader/loader.conf"@.len() == 18,
        plain_path("loader/entries/bootlet.conf"@) && "loader/entries/bootlet.conf"@.len() == 27,
        plain_path("bzImage"@) && "bzImage"@.len() == 7,
        plain_path("initrd.img"@) && "initrd.img"@.len() == 10,
{
    reveal_strlit("EFI");
    reveal_strlit("EFI/BOOT");
    reveal_strlit("EFI/systemd");
    reveal_strlit("loader");
    reveal_strlit("loader/entries");
    reveal_strlit("EFI/BOOT/BOOTX64.EFI");
    reveal_strlit("EFI/systemd/systemd-bootx64.efi");
    reveal_strlit("loader/loader.conf");
    reveal_strlit("loader/entries/bootlet.conf");
    reveal_strlit("bzImage");
    reveal_strlit("initrd.img");
}

/// Creates the boot layout on the volume: the `EFI/BOOT`, `EFI/systemd`,
/// `loader` and `loader/entries` directories, the boot loader binary
/// byte-identical under both `EFI/BOOT/BOOTX64.EFI` and
/// `EFI/systemd/systemd-bootx64.efi`, and the two configuration texts
/// under `loader/loader.conf` and `loader/entries/bootlet.conf`.
pub fn install_bootloader(disk: &mut Vec<u8>, config: &SystemdBootConfig<'_>) -> (r: Result<
    (),
    BuildError,
>)
    requires
        fat_wf(old(disk)@),
    ensures
        final(disk)@.len() == old(disk)@.len(),
        r is Ok ==> fat_wf(final(disk)@),
        !dir_fits(old(disk)@, "EFI"@) ==> r is Err,
        r is Err ==> r->Err_0 != BuildError::Encoding,
        r is Ok ==> fat_dirs(final(disk)@).contains("EFI"@) && fat_dirs(final(disk)@).contains(
            "EFI/BOOT"@,
        ) && fat_dirs(final(disk)@).contains("EFI/systemd"@) && fat_dirs(final(disk)@).contains(
            "loader"@,
        ) && fat_dirs(final(disk)@).contains("loader/entries"@),
        r is Ok ==> fat_files(final(disk)@).contains_key("EFI/BOOT/BOOTX64.EFI"@) && fat_files(
            final(disk)@,
        )["EFI/BOOT/BOOTX64.EFI"@] == config.systemd_boot_binary@,
        r is Ok ==> fat_files(final(disk)@).contains_key("EFI/systemd/systemd-bootx64.efi"@)
            && fat_files(final(disk)@)["EFI/systemd/systemd-bootx64.efi"@]
            == config.systemd_boot_binary@,
        r is Ok ==> fat_files(final(disk)@).contains_key("loader/loader.conf"@) && fat_files(
            final(disk)@,
        )["loader/loader.conf"@] == encode_utf8(config.loader_conf@),
        r is Ok ==> fat_files(final(disk)@).contains_key("loader/entries/bootlet.conf"@)
            && fat_files(final(disk)@)["loader/entries/bootlet.conf"@] == encode_utf8(
            config.bootlet_conf@,
        ),
        r is Ok ==> fat32_volume(final(disk)@) == fat32_volume(old(disk)@),
        r is Ok ==> forall|q: Seq<char>| #[trigger] fat_files(final(disk)@).contains_key(q)
            && plain_path(q) ==> fat_files(old(disk)@).contains_key(q) || fold_eq(
            "EFI/BOOT/BOOTX64.EFI"@,
            q,
        ) || fold_eq("EFI/systemd/systemd-bootx64.efi"@, q) || fold_eq("loader/loader.conf"@, q)
            || fold_eq("loader/entries/bootlet.conf"@, q),
{
    proof {
        lemma_boot_paths_plain();
    }
    if let Err(e) = fat_create_dir(disk, "EFI") {
        return Err(e);
    }
    if let Err(e) = fat_create_dir(disk, "EFI/BOOT") {
        return Err(e);
    }
    if let Err(e) = fat_create_dir(disk, "EFI/systemd") {
        return Err(e);
    }
    if let Err(e) = fat_create_dir(disk, "loader") {
        return Err(e);
    }
    if let Err(e) = fat_write_file(disk, "EFI/BOOT/BOOTX64.EFI", config.systemd_boot_binary) {
        return Err(e);
    }
    if let Err(e) = fat_write_file(disk, "EFI/systemd/systemd-bootx64.efi", config.systemd_boot_binary) {
        return Err(e);
    }
    proof {
        assert(!fold_eq("EFI/systemd/systemd-bootx64.efi"@, "EFI/BOOT/BOOTX64.EFI"@));
        assert(fat_files(disk@)["EFI/BOOT/BOOTX64.EFI"@] == config.systemd_boot_binary@);
    }
    if let Err(e) = fat_write_file(disk, "loader/loader.conf", config.loader_conf.as_bytes()) {
        return Err(e);
    }
    proof {
        assert(fat_files(disk@)["EFI/BOOT/BOOTX64.EFI"@] == config.systemd_boot_binary@);
        assert(fat_files(disk@)["EFI/systemd/systemd-bootx64.efi"@]
            == config.systemd_boot_binary@);
    }
    if let Err(e) = fat_create_dir(disk, "loader/entries") {
        return Err(e);
    }
    if let Err(e) = fat_write_file(disk, "loader/entries/bootlet.conf", config.bootlet_conf.as_bytes()) {
        return Err(e);
    }
    proof {
        assert(fat_files(disk@)["EFI/BOOT/BOOTX64.EFI"@] == config.systemd_boot_binary@);
        assert(fat_files(disk@)["EFI/systemd/systemd-bootx64.efi"@]
            == config.systemd_boot_binary@);
        assert(fat_files(disk@)["loader/loader.conf"@] == encode_utf8(config.loader_conf@));
    }
    Ok(())
}

/// Writes `binary` as the content of the file `target_filename` at the
/// volume root. Creating a file at an existing path fully replaces its
/// content: afterwards the path holds exactly `binary`, and every plain
/// path that cannot alias it keeps its content.
pub fn copy_file(disk: &mut Vec<u8>, binary: &[u8], target_filename: &str) -> (r: Result<
    (),
    BuildError,
>)
    requires
        fat_wf(old(disk)@),
    ensures
        final(disk)@.len() == old(disk)@.len(),
        r is Ok <==> write_fits(old(disk)@, target_filename@, binary@),
        r is Ok ==> fat_wf(final(disk)@),
        r is Err ==> r->Err_0 != BuildError::Encoding,
        r is Ok ==> fat_files(final(disk)@).contains_key(target_filename@) && fat_files(
            final(disk)@,
        )[target_filename@] == binary@ && fat_dirs(final(disk)@) == fat_dirs(old(disk)@),
        r is Ok ==> forall|q: Seq<char>| #[trigger]
            fat_files(old(disk)@).contains_key(q) ==> fat_files(final(disk)@).contains_key(q),
        r is Ok ==> forall|q: Seq<char>| #[trigger]
            fat_files(old(disk)@).contains_key(q) && plain_path(target_filename@) && plain_path(q)
                && !fold_eq(target_filename@, q) ==> fat_files(final(disk)@)[q] == fat_files(
                old(disk)@,
            )[q],
        r is Ok ==> forall|q: Seq<char>| plain_path(target_filename@) && plain_path(q) && !fold_eq(
            target_filename@,
            q,
        ) && #[trigger] fat_files(final(disk)@).contains_key(q) ==> fat_files(
            old(disk)@,
        ).contains_key(q),
        r is Ok ==> fat32_volume(final(disk)@) == fat32_volume(old(disk)@),
{
    fat_write_file(disk, target_filename, binary)
}

/// Allocates the zero-filled partition buffer: exactly
/// `partition_size_mb` times 1,048,576 bytes.
pub fn create_partition_image(partition_size_mb: u16) -> (r: Result<Vec<u8>, BuildError>)
    requires
        partition_size_mb as int * 1048576 <= usize::MAX as int,
    ensures
        r matches Ok(b) && b@ == zeros(partition_size_mb as int * 1048576),
        r matches Ok(b) && b@.len() == partition_size_mb as int * 1048576,
{
    let partition_size_bytes: usize = (partition_size_mb as usize) * 1024 * 1024;
    let partition_image = vec![0u8; partition_size_bytes];
    proof {
        assert(partition_image@ =~= zeros(partition_size_mb as int * 1048576));
    }
    Ok(partition_image)
}

/// Formats the buffer in place as an empty FAT volume; succeeds exactly
/// when the buffer length admits a FAT layout, and yields 32-bit table
/// entries exactly when the length's geometry does.
pub fn create_fat32_filesystem(partition_image: &mut Vec<u8>) -> (r: Result<(), BuildError>)
    ensures
        final(partition_image)@.len() == old(partition_image)@.len(),
        r is Ok <==> fat_formattable(old(partition_image)@.len() as int),
        r is Ok ==> fat_wf(final(partition_image)@) && fat_files(final(partition_image)@)
            == no_files() && fat_dirs(final(partition_image)@) == no_dirs(),
        r is Ok ==> (fat32_volume(final(partition_image)@) <==> fat32_geometry(
            old(partition_image)@.len() as int,
        )),
        r is Err ==> r == Err::<(), BuildError>(BuildError::Capacity),
{
    fat_format(partition_image)
}

} // verus!
