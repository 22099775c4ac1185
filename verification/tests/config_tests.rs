use bootlet::config::{Config, FileSourceConfig};

#[test]
fn default_config_values() {
    let c = Config::default();
    assert!(matches!(c.busybox, FileSourceConfig::AutoDownload));
    assert!(matches!(c.linux_kernel, FileSourceConfig::AutoDownload));
    assert!(matches!(c.systemd_boot_binary, FileSourceConfig::AutoDownload));
    assert_eq!(c.rootfs_size_mb, 512);
    assert_eq!(c.extra_kernel_cmdline.as_deref(), Some("quiet"));
    assert!(c.extra_init_script.is_none());
    assert!(c.extra_bin_files.is_empty());
}

#[test]
fn default_file_source_is_auto_download() {
    assert!(matches!(FileSourceConfig::default(), FileSourceConfig::AutoDownload));
}
