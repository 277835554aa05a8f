//! Tests of the disk model, identifier parsing and generation, and the
//! built-in users.

use omicron_core::hardware::{
    resolve_zpool, Disk, DiskError, DiskPaths, Partition, PhysicalDisk, PhysicalDiskKind,
    UnparsedDisk, ZpoolName,
};
use omicron_core::ids::{generate_v4_id, parse_uuid};
use omicron_core::users::{
    user_db_init, user_external_authn, user_internal_api, user_internal_read, user_saga_recovery,
    UserBuiltinConfig,
};

fn paths() -> DiskPaths {
    DiskPaths { devfs_path: "/devices/my-disk".to_string(), dev_path: None }
}

#[test]
fn partition_paths_are_letter_indexed() {
    let p = paths();
    assert_eq!(p.partition_path(0).unwrap(), "/devices/my-disk:a");
    assert_eq!(p.partition_path(1).unwrap(), "/devices/my-disk:b");
    assert_eq!(p.partition_path(5).unwrap(), "/devices/my-disk:f");
    assert!(p.partition_path(6).is_none());
}

#[test]
fn whole_disk_paths() {
    let p = paths();
    assert_eq!(p.whole_disk(false), "/devices/my-disk:wd");
    assert_eq!(p.whole_disk(true), "/devices/my-disk:wd,raw");
}

#[test]
fn partition_device_path_finds_first_match() {
    let p = paths();
    let partitions =
        vec![Partition::BootImage, Partition::Reserved, Partition::ZfsPool, Partition::ZfsPool];
    let path = p.partition_device_path(&partitions, Partition::ZfsPool).unwrap();
    assert_eq!(path, "/devices/my-disk:c");

    let err = p.partition_device_path(&partitions, Partition::DumpDevice).unwrap_err();
    assert!(matches!(
        err,
        DiskError::NotFound { path, partition: Partition::DumpDevice }
            if path == "/devices/my-disk"
    ));
}

#[test]
fn disk_assembly_requires_zpool_partition() {
    let unparsed = UnparsedDisk::new(
        "/devices/my-disk".to_string(),
        Some("/dev/dsk/c1t0d0".to_string()),
        4,
        omicron_core::hardware::DiskVariant::U2,
        "serial-0".to_string(),
    );
    assert_eq!(unparsed.devfs_path(), "/devices/my-disk");

    let with_pool = vec![Partition::BootImage, Partition::ZfsPool];
    let disk =
        Disk::new(unparsed.clone(), with_pool.clone(), ZpoolName { id: 7 }).unwrap();
    assert_eq!(disk.devfs_path(), "/devices/my-disk");
    assert_eq!(disk.zpool_name(), &ZpoolName { id: 7 });
    assert_eq!(disk.partitions, with_pool);

    let without_pool = vec![Partition::BootImage];
    let err = Disk::new(unparsed, without_pool, ZpoolName { id: 7 }).unwrap_err();
    assert!(matches!(err, DiskError::NotFound { partition: Partition::ZfsPool, .. }));
}

#[test]
fn resolve_zpool_keeps_existing_and_names_fresh() {
    let existing = ZpoolName { id: 42 };
    assert_eq!(resolve_zpool(Some(existing)), (existing, false));
    let (fresh, create) = resolve_zpool(None);
    assert!(create);
    assert_eq!((fresh.id >> 76) & 0xf, 4);
    assert_eq!((fresh.id >> 62) & 0x3, 2);
}

#[test]
fn generated_ids_are_version_four() {
    let id = generate_v4_id();
    let u = uuid::Uuid::from_u128(id);
    assert_eq!(u.get_version_num(), 4);
    assert_eq!(u.get_variant(), uuid::Variant::RFC4122);
}

#[test]
fn physical_disk_records_identity() {
    let d = PhysicalDisk::new(
        "CRUCIBLE".to_string(),
        "serial-123".to_string(),
        "model-9".to_string(),
        PhysicalDiskKind::U2,
        0xabc,
        1 << 40,
    );
    assert!(d.time_deleted.is_none());
    assert_eq!(d.rcgen, 1);
    assert_eq!(d.sled_id, 0xabc);
    assert_eq!(d.total_size, 1 << 40);
    assert_eq!(uuid::Uuid::from_u128(d.id).get_version_num(), 4);
}

#[test]
fn parse_uuid_accepts_canonical_form() {
    let parsed = parse_uuid("00112233-4455-6677-8899-aabbccddeeff").unwrap();
    assert_eq!(parsed, 0x00112233_4455_6677_8899_aabbccddeeffu128);
    let parsed = parse_uuid("001de000-1334-4000-8000-000000000000").unwrap();
    assert_eq!(parsed, omicron_core::resource::FLEET_ID);
    let upper = parse_uuid("00112233-4455-6677-8899-AABBCCDDEEFF").unwrap();
    assert_eq!(upper, 0x00112233_4455_6677_8899_aabbccddeeffu128);
}

#[test]
fn parse_uuid_rejects_malformed_text() {
    assert!(parse_uuid("").is_none());
    assert!(parse_uuid("00112233-4455-6677-8899-aabbccddeef").is_none());
    assert!(parse_uuid("00112233-4455-6677-8899-aabbccddeeff0").is_none());
    assert!(parse_uuid("00112233x4455-6677-8899-aabbccddeeff").is_none());
    assert!(parse_uuid("0011223g-4455-6677-8899-aabbccddeeff").is_none());
}

#[test]
fn parse_uuid_agrees_with_reference_parser() {
    for text in [
        "006f29d9-0ff0-e2d2-a022-87e152440122",
        "001de000-05e4-4000-8000-000000000001",
        "ffffffff-ffff-ffff-ffff-ffffffffffff",
        "00000000-0000-0000-0000-000000000000",
    ] {
        let ours = parse_uuid(text).unwrap();
        let reference = uuid::Uuid::parse_str(text).unwrap().as_u128();
        assert_eq!(ours, reference);
    }
}

#[test]
fn test_builtin_user_ids_are_valid() {
    let users = [
        user_db_init(),
        user_internal_api(),
        user_external_authn(),
        user_internal_read(),
        user_saga_recovery(),
    ];
    for user in &users {
        let text = uuid::Uuid::from_u128(user.id).hyphenated().to_string();
        assert_eq!(parse_uuid(&text), Some(user.id));
    }
    assert_eq!(users[0].name, "db-init");
    assert_eq!(users[1].name, "internal-api");
    assert_eq!(users[2].name, "external-authn");
    assert_eq!(users[3].name, "internal-read");
    assert_eq!(users[4].name, "saga-recovery");
}

#[test]
fn new_static_parses_or_refuses() {
    let cfg: UserBuiltinConfig =
        UserBuiltinConfig::new_static("001de000-05e4-4000-8000-000000000001", "db-init", "seed")
            .unwrap();
    assert_eq!(cfg.id, 0x001de000_05e4_4000_8000_000000000001u128);
    assert_eq!(cfg.name, "db-init");
    assert_eq!(cfg.description, "seed");
    assert!(UserBuiltinConfig::new_static("not-a-uuid", "x", "y").is_none());
}
