//! The build configuration: where each source binary comes from, the
//! partition size, and the optional extras. Parsing and writing the
//! on-disk configuration file is the caller's business; this module holds
//! the values and their defaults.
use vstd::prelude::*;
use vstd::string::StringExecFns;

verus! {

/// Where a source binary comes from: fetched automatically from its
/// well-known location, or read from a local path.
#[derive(Clone, Debug)]
pub enum FileSourceConfig {
    AutoDownload,
    Path { path: String },
}

impl Default for FileSourceConfig {
    /// The default source is automatic download.
    fn default() -> (r: Self)
        ensures
            r is AutoDownload,
    {
        FileSourceConfig::AutoDownload
    }
}

/// One extra file to place into the initramfs: the archive path it goes
/// to, and the local path its content is read from.
#[derive(Clone, Debug)]
pub struct ExtraFile {
    pub target: String,
    pub file: String,
}

/// The whole build configuration.
#[derive(Clone, Debug)]
pub struct Config {
    pub busybox: FileSourceConfig,
    pub linux_kernel: FileSourceConfig,
    pub systemd_boot_binary: FileSourceConfig,
    pub rootfs_size_mb: u16,
    pub extra_kernel_cmdline: Option<String>,
    pub extra_init_script: Option<String>,
    pub extra_bin_files: Vec<ExtraFile>,
}

impl Default for Config {
    /// The default configuration: every binary auto-downloaded, a 512 MiB
    /// partition, the kernel command line `quiet`, and no extras.
    fn default() -> (r: Self)
        ensures
            r.busybox is AutoDownload,
            r.linux_kernel is AutoDownload,
            r.systemd_boot_binary is AutoDownload,
            r.rootfs_size_mb == 512,
            r.extra_kernel_cmdline matches Some(s) && s@ == "quiet"@,
            r.extra_init_script is None,
            r.extra_bin_files@.len() == 0,
    {
        Config {
            busybox: FileSourceConfig::AutoDownload,
            linux_kernel: FileSourceConfig::AutoDownload,
            systemd_boot_binary: FileSourceConfig::AutoDownload,
            rootfs_size_mb: 512,
            extra_kernel_cmdline: Some(String::from_str("quiet")),
            extra_init_script: None,
            extra_bin_files: Vec::new(),
        }
    }
}

} // verus!
