use cln_extension::db::{
    get_global_database_migrations, lookup_prefix, AcceptedTransactionKey,
    AcceptedTransactionKeyPrefix, ClientConfigDownloadKey, ClientConfigDownloadKeyPrefix,
    ClientConfigSignatureKey, ClientConfigSignatureKeyPrefix, ConsensusUpgradeKey, DatabaseRecord,
    DbKeyPrefix, DropPeerKey, DropPeerKeyPrefix, EpochHistoryKey, EpochHistoryKeyPrefix,
    LastEpochKey, MigrationMap, RecordValue, RejectedTransactionKey, RejectedTransactionKeyPrefix,
    GLOBAL_DATABASE_VERSION, MODULE_GLOBAL_PREFIX,
};

#[test]
fn prefix_bytes() {
    let bytes: Vec<u8> = DbKeyPrefix::iter().iter().map(|prefix| prefix.as_u8()).collect();
    assert_eq!(bytes, vec![0x02, 0x03, 0x04, 0x05, 0x06, 0x07, 0x08, 0x09, MODULE_GLOBAL_PREFIX]);
    assert_eq!(MODULE_GLOBAL_PREFIX, 0xff);
}

#[test]
fn prefix_names() {
    for prefix in DbKeyPrefix::iter() {
        assert_eq!(prefix.to_string(), format!("{prefix:?}"));
    }
    assert_eq!(DbKeyPrefix::DropPeer.to_string(), "DropPeer");
}

#[test]
fn records() {
    fn row<R: DatabaseRecord>() -> (u8, bool, RecordValue) {
        (R::db_prefix().as_u8(), R::notify_on_modify(), R::value())
    }
    assert_eq!(row::<AcceptedTransactionKey>(), (0x02, true, RecordValue::AcceptedTransaction));
    assert_eq!(row::<DropPeerKey>(), (0x03, false, RecordValue::Unit));
    assert_eq!(row::<RejectedTransactionKey>(), (0x04, true, RecordValue::Text));
    assert_eq!(row::<EpochHistoryKey>(), (0x05, false, RecordValue::SignedEpochOutcome));
    assert_eq!(row::<LastEpochKey>(), (0x06, false, RecordValue::EpochHistoryKey));
    assert_eq!(row::<ClientConfigSignatureKey>(), (0x07, false, RecordValue::SerdeSignature));
    assert_eq!(row::<ConsensusUpgradeKey>(), (0x08, false, RecordValue::PeerIds));
    assert_eq!(row::<ClientConfigDownloadKey>(), (0x09, false, RecordValue::Number));
}

#[test]
fn lookups() {
    assert_eq!(lookup_prefix::<AcceptedTransactionKeyPrefix>(), DbKeyPrefix::AcceptedTransaction);
    assert_eq!(lookup_prefix::<RejectedTransactionKeyPrefix>(), DbKeyPrefix::RejectedTransaction);
    assert_eq!(lookup_prefix::<DropPeerKeyPrefix>(), DbKeyPrefix::DropPeer);
    assert_eq!(lookup_prefix::<EpochHistoryKeyPrefix>(), DbKeyPrefix::EpochHistory);
    assert_eq!(lookup_prefix::<ClientConfigSignatureKeyPrefix>(), DbKeyPrefix::ClientConfigSignature);
    assert_eq!(lookup_prefix::<ClientConfigDownloadKeyPrefix>(), DbKeyPrefix::ClientConfigDownload);
}

#[test]
fn no_migrations_at_the_first_version() {
    assert_eq!(GLOBAL_DATABASE_VERSION, 0);
    let migrations: MigrationMap<fn()> = get_global_database_migrations();
    assert!(migrations.is_empty());
}
