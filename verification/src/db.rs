//! The records that the federation server keeps in the global part of its database.
use std::collections::BTreeMap;

use vstd::prelude::*;

verus! {

/// The version of a database layout.
pub type DatabaseVersion = u64;

/// The version of the layout that is described here.
pub const GLOBAL_DATABASE_VERSION: DatabaseVersion = 0;

/// The first byte of all keys that belong to a module.
pub const MODULE_GLOBAL_PREFIX: u8 = 0xff;

/// The steps that bring a database to a newer layout, each under the version that it starts
/// from. `F` is a step.
pub type MigrationMap<F> = BTreeMap<DatabaseVersion, F>;

/// What kind of record a key belongs to. Each kind has a first byte of its own.
#[derive(Clone, Copy, Debug, PartialEq, Eq, Structural)]
pub enum DbKeyPrefix {
    AcceptedTransaction,
    DropPeer,
    RejectedTransaction,
    EpochHistory,
    LastEpoch,
    ClientConfigSignature,
    ConsensusUpgrade,
    ClientConfigDownload,
    Module,
}

impl DbKeyPrefix {
    /// The first byte of the keys of this kind.
    pub open spec fn byte(self) -> u8 {
        match self {
            DbKeyPrefix::AcceptedTransaction => 0x02,
            DbKeyPrefix::DropPeer => 0x03,
            DbKeyPrefix::RejectedTransaction => 0x04,
            DbKeyPrefix::EpochHistory => 0x05,
            DbKeyPrefix::LastEpoch => 0x06,
            DbKeyPrefix::ClientConfigSignature => 0x07,
            DbKeyPrefix::ConsensusUpgrade => 0x08,
            DbKeyPrefix::ClientConfigDownload => 0x09,
            DbKeyPrefix::Module => MODULE_GLOBAL_PREFIX,
        }
    }

    /// The name of this kind.
    pub open spec fn name(self) -> Seq<char> {
        match self {
            DbKeyPrefix::AcceptedTransaction => "AcceptedTransaction"@,
            DbKeyPrefix::DropPeer => "DropPeer"@,
            DbKeyPrefix::RejectedTransaction => "RejectedTransaction"@,
            DbKeyPrefix::EpochHistory => "EpochHistory"@,
            DbKeyPrefix::LastEpoch => "LastEpoch"@,
            DbKeyPrefix::ClientConfigSignature => "ClientConfigSignature"@,
            DbKeyPrefix::ConsensusUpgrade => "ConsensusUpgrade"@,
            DbKeyPrefix::ClientConfigDownload => "ClientConfigDownload"@,
            DbKeyPrefix::Module => "Module"@,
        }
    }

    /// All kinds, in the order of their bytes.
    pub open spec fn all() -> Seq<DbKeyPrefix> {
        seq![
            DbKeyPrefix::AcceptedTransaction,
            DbKeyPrefix::DropPeer,
            DbKeyPrefix::RejectedTransaction,
            DbKeyPrefix::EpochHistory,
            DbKeyPrefix::LastEpoch,
            DbKeyPrefix::ClientConfigSignature,
            DbKeyPrefix::ConsensusUpgrade,
            DbKeyPrefix::ClientConfigDownload,
            DbKeyPrefix::Module,
        ]
    }

    /// The first byte of the keys of this kind.
    pub fn as_u8(&self) -> (r: u8)
        ensures
            r == self.byte(),
    {
        match self {
            DbKeyPrefix::AcceptedTransaction => 0x02,
            DbKeyPrefix::DropPeer => 0x03,
            DbKeyPrefix::RejectedTransaction => 0x04,
            DbKeyPrefix::EpochHistory => 0x05,
            DbKeyPrefix::LastEpoch => 0x06,
            DbKeyPrefix::ClientConfigSignature => 0x07,
            DbKeyPrefix::ConsensusUpgrade => 0x08,
            DbKeyPrefix::ClientConfigDownload => 0x09,
            DbKeyPrefix::Module => MODULE_GLOBAL_PREFIX,
        }
    }

    /// The text that this kind is shown as.
    pub fn to_string(&self) -> (r: String)
        ensures
            r@ == self.name(),
    {
        match self {
            DbKeyPrefix::AcceptedTransaction => "AcceptedTransaction".to_owned(),
            DbKeyPrefix::DropPeer => "DropPeer".to_owned(),
            DbKeyPrefix::RejectedTransaction => "RejectedTransaction".to_owned(),
            DbKeyPrefix::EpochHistory => "EpochHistory".to_owned(),
            DbKeyPrefix::LastEpoch => "LastEpoch".to_owned(),
            DbKeyPrefix::ClientConfigSignature => "ClientConfigSignature".to_owned(),
            DbKeyPrefix::ConsensusUpgrade => "ConsensusUpgrade".to_owned(),
            DbKeyPrefix::ClientConfigDownload => "ClientConfigDownload".to_owned(),
            DbKeyPrefix::Module => "Module".to_owned(),
        }
    }

    /// All kinds, in the order of their bytes.
    pub fn iter() -> (r: Vec<DbKeyPrefix>)
        ensures
            r@ == Self::all(),
    {
        let mut r: Vec<DbKeyPrefix> = Vec::new();
        r.push(DbKeyPrefix::AcceptedTransaction);
        r.push(DbKeyPrefix::DropPeer);
        r.push(DbKeyPrefix::RejectedTransaction);
        r.push(DbKeyPrefix::EpochHistory);
        r.push(DbKeyPrefix::LastEpoch);
        r.push(DbKeyPrefix::ClientConfigSignature);
        r.push(DbKeyPrefix::ConsensusUpgrade);
        r.push(DbKeyPrefix::ClientConfigDownload);
        r.push(DbKeyPrefix::Module);
        assert(r@ =~= Self::all());
        r
    }
}

/// Two kinds of records never share a first byte, so their keys never meet.
pub proof fn law_prefixes_are_distinct(a: DbKeyPrefix, b: DbKeyPrefix)
    ensures
        a.byte() == b.byte() <==> a == b,
{
}

/// Every kind is listed exactly once, and the list is ordered by the bytes.
pub proof fn law_all_prefixes_are_listed(prefix: DbKeyPrefix)
    ensures
        DbKeyPrefix::all().contains(prefix),
        DbKeyPrefix::all().no_duplicates(),
        forall|i: int, j: int|
            0 <= i < j < DbKeyPrefix::all().len() ==> (#[trigger] DbKeyPrefix::all()[i]).byte() < (
            #[trigger] DbKeyPrefix::all()[j]).byte(),
{
    let all = DbKeyPrefix::all();
    let i: int = match prefix {
        DbKeyPrefix::AcceptedTransaction => 0,
        DbKeyPrefix::DropPeer => 1,
        DbKeyPrefix::RejectedTransaction => 2,
        DbKeyPrefix::EpochHistory => 3,
        DbKeyPrefix::LastEpoch => 4,
        DbKeyPrefix::ClientConfigSignature => 5,
        DbKeyPrefix::ConsensusUpgrade => 6,
        DbKeyPrefix::ClientConfigDownload => 7,
        DbKeyPrefix::Module => 8,
    };
    assert(all[i] == prefix);
}

/// What a record holds.
#[derive(Clone, Copy, Debug, PartialEq, Eq, Structural)]
pub enum RecordValue {
    /// A transaction and the epoch that it was accepted in.
    AcceptedTransaction,
    /// A text.
    Text,
    /// Nothing: that the record is there says it all.
    Unit,
    /// The outcome of an epoch, with its signature.
    SignedEpochOutcome,
    /// The key of another record.
    EpochHistoryKey,
    /// A threshold signature.
    SerdeSignature,
    /// A set of peers.
    PeerIds,
    /// A number.
    Number,
}

/// A key of a record.
pub trait DatabaseRecord {
    /// The kind of the record.
    spec fn prefix() -> DbKeyPrefix;

    /// Whether waiting readers are woken up when the record changes.
    spec fn notifies() -> bool;

    /// What the record holds.
    spec fn holds() -> RecordValue;

    /// The kind of the record.
    fn db_prefix() -> (r: DbKeyPrefix)
        ensures
            r == Self::prefix(),
    ;

    /// Whether waiting readers are woken up when the record changes.
    fn notify_on_modify() -> (r: bool)
        ensures
            r == Self::notifies(),
    ;

    /// What the record holds.
    fn value() -> (r: RecordValue)
        ensures
            r == Self::holds(),
    ;
}

/// A query for all records of a kind.
pub trait DatabaseLookup {
    type Record: DatabaseRecord;
}

/// The kind of the records that a query finds.
pub fn lookup_prefix<L: DatabaseLookup>() -> (r: DbKeyPrefix)
    ensures
        r == <L::Record as DatabaseRecord>::prefix(),
{
    <L::Record as DatabaseRecord>::db_prefix()
}

/// The hash that identifies a transaction.
#[derive(Debug)]
pub struct TransactionId(pub [u8; 32]);

/// The number of a federation member.
#[derive(Clone, Copy, Debug, PartialEq, Eq, Structural)]
pub struct PeerId(pub u16);

/// The secret that lets a client download its configuration. Its length is left open.
#[derive(Debug)]
pub struct ClientConfigDownloadToken(pub Vec<u8>);

#[derive(Debug)]
pub struct AcceptedTransactionKey(pub TransactionId);

#[derive(Debug)]
pub struct AcceptedTransactionKeyPrefix;

impl DatabaseRecord for AcceptedTransactionKey {
    open spec fn prefix() -> DbKeyPrefix {
        DbKeyPrefix::AcceptedTransaction
    }

    open spec fn notifies() -> bool {
        true
    }

    open spec fn holds() -> RecordValue {
        RecordValue::AcceptedTransaction
    }

    fn db_prefix() -> (r: DbKeyPrefix) {
        DbKeyPrefix::AcceptedTransaction
    }

    fn notify_on_modify() -> (r: bool) {
        true
    }

    fn value() -> (r: RecordValue) {
        RecordValue::AcceptedTransaction
    }
}

impl DatabaseLookup for AcceptedTransactionKeyPrefix {
    type Record = AcceptedTransactionKey;
}

#[derive(Debug)]
pub struct RejectedTransactionKey(pub TransactionId);

#[derive(Debug)]
pub struct RejectedTransactionKeyPrefix;

impl DatabaseRecord for RejectedTransactionKey {
    open spec fn prefix() -> DbKeyPrefix {
        DbKeyPrefix::RejectedTransaction
    }

    open spec fn notifies() -> bool {
        true
    }

    open spec fn holds() -> RecordValue {
        RecordValue::Text
    }

    fn db_prefix() -> (r: DbKeyPrefix) {
        DbKeyPrefix::RejectedTransaction
    }

    fn notify_on_modify() -> (r: bool) {
        true
    }

    fn value() -> (r: RecordValue) {
        RecordValue::Text
    }
}

impl DatabaseLookup for RejectedTransactionKeyPrefix {
    type Record = RejectedTransactionKey;
}

#[derive(Debug)]
pub struct DropPeerKey(pub PeerId);

#[derive(Debug)]
pub struct DropPeerKeyPrefix;

impl DatabaseRecord for DropPeerKey {
    open spec fn prefix() -> DbKeyPrefix {
        DbKeyPrefix::DropPeer
    }

    open spec fn notifies() -> bool {
        false
    }

    open spec fn holds() -> RecordValue {
        RecordValue::Unit
    }

    fn db_prefix() -> (r: DbKeyPrefix) {
        DbKeyPrefix::DropPeer
    }

    fn notify_on_modify() -> (r: bool) {
        false
    }

    fn value() -> (r: RecordValue) {
        RecordValue::Unit
    }
}

impl DatabaseLookup for DropPeerKeyPrefix {
    type Record = DropPeerKey;
}

#[derive(Debug, Copy, Clone)]
pub struct EpochHistoryKey(pub u64);

#[derive(Debug)]
pub struct EpochHistoryKeyPrefix;

impl DatabaseRecord for EpochHistoryKey {
    open spec fn prefix() -> DbKeyPrefix {
        DbKeyPrefix::EpochHistory
    }

    open spec fn notifies() -> bool {
        false
    }

    open spec fn holds() -> RecordValue {
        RecordValue::SignedEpochOutcome
    }

    fn db_prefix() -> (r: DbKeyPrefix) {
        DbKeyPrefix::EpochHistory
    }

    fn notify_on_modify() -> (r: bool) {
        false
    }

    fn value() -> (r: RecordValue) {
        RecordValue::SignedEpochOutcome
    }
}

impl DatabaseLookup for EpochHistoryKeyPrefix {
    type Record = EpochHistoryKey;
}

#[derive(Debug)]
pub struct LastEpochKey;

impl DatabaseRecord for LastEpochKey {
    open spec fn prefix() -> DbKeyPrefix {
        DbKeyPrefix::LastEpoch
    }

    open spec fn notifies() -> bool {
        false
    }

    open spec fn holds() -> RecordValue {
        RecordValue::EpochHistoryKey
    }

    fn db_prefix() -> (r: DbKeyPrefix) {
        DbKeyPrefix::LastEpoch
    }

    fn notify_on_modify() -> (r: bool) {
        false
    }

    fn value() -> (r: RecordValue) {
        RecordValue::EpochHistoryKey
    }
}

#[derive(Debug)]
pub struct ClientConfigSignatureKey;

#[derive(Debug)]
pub struct ClientConfigSignatureKeyPrefix;

impl DatabaseRecord for ClientConfigSignatureKey {
    open spec fn prefix() -> DbKeyPrefix {
        DbKeyPrefix::ClientConfigSignature
    }

    open spec fn notifies() -> bool {
        false
    }

    open spec fn holds() -> RecordValue {
        RecordValue::SerdeSignature
    }

    fn db_prefix() -> (r: DbKeyPrefix) {
        DbKeyPrefix::ClientConfigSignature
    }

    fn notify_on_modify() -> (r: bool) {
        false
    }

    fn value() -> (r: RecordValue) {
        RecordValue::SerdeSignature
    }
}

impl DatabaseLookup for ClientConfigSignatureKeyPrefix {
    type Record = ClientConfigSignatureKey;
}

#[derive(Debug)]
pub struct ConsensusUpgradeKey;

impl DatabaseRecord for ConsensusUpgradeKey {
    open spec fn prefix() -> DbKeyPrefix {
        DbKeyPrefix::ConsensusUpgrade
    }

    open spec fn notifies() -> bool {
        false
    }

    open spec fn holds() -> RecordValue {
        RecordValue::PeerIds
    }

    fn db_prefix() -> (r: DbKeyPrefix) {
        DbKeyPrefix::ConsensusUpgrade
    }

    fn notify_on_modify() -> (r: bool) {
        false
    }

    fn value() -> (r: RecordValue) {
        RecordValue::PeerIds
    }
}

#[derive(Debug)]
pub struct ClientConfigDownloadKeyPrefix;

#[derive(Debug)]
pub struct ClientConfigDownloadKey(pub ClientConfigDownloadToken);

impl DatabaseRecord for ClientConfigDownloadKey {
    open spec fn prefix() -> DbKeyPrefix {
        DbKeyPrefix::ClientConfigDownload
    }

    open spec fn notifies() -> bool {
        false
    }

    open spec fn holds() -> RecordValue {
        RecordValue::Number
    }

    fn db_prefix() -> (r: DbKeyPrefix) {
        DbKeyPrefix::ClientConfigDownload
    }

    fn notify_on_modify() -> (r: bool) {
        false
    }

    fn value() -> (r: RecordValue) {
        RecordValue::Number
    }
}

impl DatabaseLookup for ClientConfigDownloadKeyPrefix {
    type Record = ClientConfigDownloadKey;
}

/// Every kind but that of the modules has a record.
pub proof fn law_every_kind_has_a_record(kind: DbKeyPrefix)
    ensures
        kind != DbKeyPrefix::Module <==> {
            ||| kind == AcceptedTransactionKey::prefix()
            ||| kind == RejectedTransactionKey::prefix()
            ||| kind == DropPeerKey::prefix()
            ||| kind == EpochHistoryKey::prefix()
            ||| kind == LastEpochKey::prefix()
            ||| kind == ClientConfigSignatureKey::prefix()
            ||| kind == ConsensusUpgradeKey::prefix()
            ||| kind == ClientConfigDownloadKey::prefix()
        },
{
}

/// The steps that bring an older database to this layout: one for each version before it,
/// and there is none.
pub fn get_global_database_migrations<F>() -> (r: MigrationMap<F>)
    ensures
        r@ == Map::<DatabaseVersion, F>::empty(),
        forall|version: DatabaseVersion|
            #[trigger] r@.contains_key(version) <==> version < GLOBAL_DATABASE_VERSION,
{
    MigrationMap::new()
}

} // verus!
