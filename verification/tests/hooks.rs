use gluster_coord::encryption::enable_io_encryption;
use gluster_coord::lifecycle::{check_for_upgrade, config_changed};
use gluster_coord::samba::{render_samba_configuration, samba_config_changed};
use gluster_coord::updatedb::updatedb;

#[test]
fn test_updatedb() {
    let expected_result = r#"PRUNE_BIND_MOUNTS="yes"
# PRUNENAMES=".git .bzr .hg .svn"
PRUNEPATHS="/tmp /var/spool /media /home/.ecryptfs /var/lib/schroot /mnt/xvdb"
PRUNEFS="NFS nfs nfs4 rpc_pipefs afs binfmt_misc proc smbfs autofs"
"#;
    let update_conf = r#"PRUNE_BIND_MOUNTS="yes"
# PRUNENAMES=".git .bzr .hg .svn"
PRUNEPATHS="/tmp /var/spool /media /home/.ecryptfs /var/lib/schroot"
PRUNEFS="NFS nfs nfs4 rpc_pipefs afs binfmt_misc proc smbfs autofs"
"#;
    let new_path = "/mnt/xvdb";
    let result = updatedb(update_conf.to_string(), &new_path.to_string());

    println!("Result: {}", result);
    assert_eq!(result, expected_result);

    // Test that it isn't added again
    let new_path = "/mnt/xvdb";
    let result = updatedb(expected_result.to_string(), &new_path.to_string());
    assert_eq!(result, expected_result);
}

#[test]
fn test_render_samba_configuration() {
    let config = render_samba_configuration("data");
    assert_eq!(
        config,
        "[data]\npath = /mnt/glusterfs\nread only = no\nguest ok = yes\nkernel share modes = no\nkernel oplocks = no\nmap archive = no\nmap hidden = no\nmap read only = no\nmap system = no\nstore dos attributes = yes\n"
    );
}

#[test]
fn test_samba_config_changed() {
    let rendered = render_samba_configuration("data");
    assert!(!samba_config_changed("data", Some(&rendered)));
    assert!(samba_config_changed("other", Some(&rendered)));
    assert!(samba_config_changed("data", None));
}

#[test]
fn test_enable_io_encryption_settings() {
    let settings = enable_io_encryption();
    assert_eq!(
        settings,
        vec![
            ("client.ssl".to_string(), "on".to_string()),
            ("server.ssl".to_string(), "on".to_string()),
        ]
    );
}

#[test]
fn test_check_for_upgrade() {
    // No new source: nothing to do, whatever the versions say.
    assert_eq!(check_for_upgrade(false, "3.7.6", "3.10.1"), Ok(false));
    // A strictly newer candidate allows the rollout.
    assert_eq!(check_for_upgrade(true, "3.7.6", "3.10.1"), Ok(true));
    // A downgrade or re-install is refused without failing the event.
    assert_eq!(check_for_upgrade(true, "3.10.1", "3.7.6"), Ok(false));
    assert_eq!(check_for_upgrade(true, "3.10.1", "3.10.1"), Ok(false));
    // Package revisions and epochs order the debian way.
    assert_eq!(check_for_upgrade(true, "3.10.1-1", "3.10.1-2"), Ok(true));
    assert_eq!(check_for_upgrade(true, "2:1.0", "1:9.9"), Ok(false));
}

#[test]
fn test_check_for_upgrade_refuses_oversized_numbers() {
    // A twenty-digit number would overflow the package-version parser's
    // 64-bit accumulator, so the comparison is refused instead of made.
    let oversized = "18446744073709551616";
    assert_eq!(
        check_for_upgrade(true, "3.7.6", oversized),
        Err("unable to compare package versions".to_string())
    );
    assert_eq!(
        check_for_upgrade(true, oversized, "3.7.6"),
        Err("unable to compare package versions".to_string())
    );
    assert!(check_for_upgrade(true, "1.0-x18446744073709551616y", "1.0").is_err());
    // Nineteen digits still fit and compare fine.
    assert_eq!(check_for_upgrade(true, "1.0", "9223372036854775807.0"), Ok(true));
    // Without a new source the oversized strings are never touched.
    assert_eq!(check_for_upgrade(false, oversized, oversized), Ok(false));
}

#[test]
fn test_config_changed_swallows_reported_failures() {
    assert_eq!(config_changed(Err("disk gone".to_string()), Ok(()), Ok(())), Ok(()));
    assert_eq!(config_changed(Ok(()), Err("sysctl bad".to_string()), Ok(())), Ok(()));
    assert_eq!(
        config_changed(Ok(()), Ok(()), Err("no upgrade path".to_string())),
        Err("no upgrade path".to_string())
    );
}
