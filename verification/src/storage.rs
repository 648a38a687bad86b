//! The encrypted store, as far as it computes: the key, the sealed record of a
//! flow, and the rows that go into and come out of the two tables. Running the
//! statements against a database is left to the caller.

use vstd::prelude::*;
use vstd::slice::{slice_subrange, slice_to_vec};
use ring::aead::LessSafeKey;
use ring::error::Unspecified;
use crate::alert::Alert;
use crate::flow::FlowEvent;
use crate::time::{
    format_rfc3339, in_common_era, parse_rfc3339, rfc3339_instant, rfc3339_text, Timestamp,
};

verus! {

/// A key of `ring` for sealing and opening with a nonce of the caller's choice.
#[verifier::external_type_specification]
#[verifier::external_body]
pub struct ExLessSafeKey(ring::aead::LessSafeKey);

/// The error of `ring`, which says nothing about its cause.
#[verifier::external_type_specification]
#[verifier::external_body]
pub struct ExUnspecified(ring::error::Unspecified);

/// The bytes that a key of `ring` was made from.
pub uninterp spec fn key_material(key: LessSafeKey) -> Seq<u8>;

/// What AES-256-GCM makes of a plaintext under a key, a nonce and associated
/// data: the ciphertext followed by the tag.
pub uninterp spec fn aes_256_gcm_seal(
    key: Seq<u8>,
    nonce: Seq<u8>,
    aad: Seq<u8>,
    plaintext: Seq<u8>,
) -> Seq<u8>;

/// What AES-256-GCM recovers from a ciphertext with its tag, where the tag
/// holds under the key, the nonce and the associated data.
pub uninterp spec fn aes_256_gcm_open(
    key: Seq<u8>,
    nonce: Seq<u8>,
    aad: Seq<u8>,
    sealed: Seq<u8>,
) -> Option<Seq<u8>>;

/// The length of a key, in bytes.
pub const KEY_LEN: usize = 32;

/// The length of a nonce, in bytes.
pub const NONCE_LEN: usize = 12;

/// The length of a tag, in bytes.
pub const TAG_LEN: usize = 16;

/// The longest plaintext that one sealing takes, in bytes.
pub const MAX_PLAINTEXT_LEN: u64 = 68_719_476_704;

/// `ring::aead::UnboundKey::new` with `AES_256_GCM`, then
/// `ring::aead::LessSafeKey::new`: a key from its bytes. `ring` refuses bytes
/// that are not 32 long and takes every 32 bytes: its key setup fails on key
/// sizes other than 128 and 256 bits and on nothing else. A key that it made
/// holds the bytes it was made from.
#[verifier::external_body]
fn make_key(key_bytes: &[u8]) -> (r: Result<LessSafeKey, Unspecified>)
    ensures
        r is Ok == (key_bytes@.len() == 32),
        r matches Ok(k) ==> key_material(k) == key_bytes@,
{
    ring::aead::UnboundKey::new(&ring::aead::AES_256_GCM, key_bytes).map(
        ring::aead::LessSafeKey::new,
    )
}

/// `ring::aead::LessSafeKey::seal_in_place_append_tag` on a copy of the
/// plaintext: the ciphertext with the 16-byte tag behind it. `ring` refuses a
/// plaintext longer than [`MAX_PLAINTEXT_LEN`] and nothing else. What it
/// sealed, `open_in_place` opens again under the same key, nonce and
/// associated data, to the plaintext that went in.
#[verifier::external_body]
fn seal_bytes(key: &LessSafeKey, nonce: &[u8], aad: &[u8], plaintext: &[u8]) -> (r: Result<Vec<u8>, Unspecified>)
    requires
        nonce@.len() == 12,
        aad@.len() <= 1024,
    ensures
        r matches Ok(v) ==> v@ == aes_256_gcm_seal(key_material(*key), nonce@, aad@, plaintext@)
            && v@.len() == plaintext@.len() + 16,
        r matches Ok(v) ==> aes_256_gcm_open(key_material(*key), nonce@, aad@, v@) == Some(
            plaintext@,
        ),
        plaintext@.len() <= MAX_PLAINTEXT_LEN ==> r is Ok,
{
    let nonce = ring::aead::Nonce::try_assume_unique_for_key(nonce)?;
    let mut buf = plaintext.to_vec();
    key.seal_in_place_append_tag(nonce, ring::aead::Aad::from(aad), &mut buf)?;
    Ok(buf)
}

/// `ring::aead::LessSafeKey::open_in_place` on a copy of the sealed bytes: the
/// plaintext, where the tag at the end holds. Less than a tag cannot be
/// opened, and what opens is 16 bytes shorter than what was sealed.
#[verifier::external_body]
fn open_bytes(key: &LessSafeKey, nonce: &[u8], aad: &[u8], sealed: &[u8]) -> (r: Result<Vec<u8>, Unspecified>)
    requires
        nonce@.len() == 12,
        aad@.len() <= 1024,
    ensures
        r is Ok == aes_256_gcm_open(key_material(*key), nonce@, aad@, sealed@) is Some,
        r matches Ok(v) ==> aes_256_gcm_open(key_material(*key), nonce@, aad@, sealed@) == Some(v@)
            && v@.len() + 16 == sealed@.len(),
        sealed@.len() < 16 ==> r is Err,
{
    let nonce = ring::aead::Nonce::try_assume_unique_for_key(nonce)?;
    let mut buf = sealed.to_vec();
    let n = key.open_in_place(nonce, ring::aead::Aad::from(aad), &mut buf)?.len();
    buf.truncate(n);
    Ok(buf)
}

/// `rand::RngCore::fill_bytes` on `rand::thread_rng()`: `n` bytes from the
/// thread's random number generator. Which bytes is for the generator to say.
#[verifier::external_body]
fn random_bytes(n: usize) -> (r: Vec<u8>)
    ensures
        r@.len() == n,
{
    let mut buf = vec![0u8; n];
    rand::RngCore::fill_bytes(&mut rand::thread_rng(), &mut buf);
    buf
}

/// Why the store refused.
#[derive(Debug, Clone, Copy, PartialEq, Eq, Structural)]
pub enum StorageError {
    /// The key is not 32 bytes long.
    KeyLength,
    /// The nonce is not 12 bytes long.
    NonceLength,
    /// The record could not be sealed.
    Encryption,
    /// The stored bytes are too short to hold a nonce and a tag.
    Truncated,
    /// The stored bytes do not open under this key.
    Authentication,
    /// A timestamp lies outside what the tables can hold.
    TimestampOutOfRange,
    /// A stored timestamp is not in RFC 3339 form.
    MalformedTimestamp,
}

impl StorageError {
    /// The text of the error as shown to an operator.
    pub open spec fn message_text(self) -> Seq<char> {
        match self {
            StorageError::KeyLength => "AES-256-GCM key must be 32 bytes"@,
            StorageError::NonceLength => "nonce must be 12 bytes"@,
            StorageError::Encryption => "failed to encrypt flow"@,
            StorageError::Truncated => "stored record is too short"@,
            StorageError::Authentication => "stored record failed authentication"@,
            StorageError::TimestampOutOfRange => "timestamp out of range"@,
            StorageError::MalformedTimestamp => "stored timestamp is malformed"@,
        }
    }

    /// The text of the error as shown to an operator.
    pub fn message(&self) -> (r: &'static str)
        ensures
            r@ == self.message_text(),
    {
        match self {
            StorageError::KeyLength => "AES-256-GCM key must be 32 bytes",
            StorageError::NonceLength => "nonce must be 12 bytes",
            StorageError::Encryption => "failed to encrypt flow",
            StorageError::Truncated => "stored record is too short",
            StorageError::Authentication => "stored record failed authentication",
            StorageError::TimestampOutOfRange => "timestamp out of range",
            StorageError::MalformedTimestamp => "stored timestamp is malformed",
        }
    }
}

/// The associated data that binds every record to this store: the bytes of
/// `nets-local-monitor`.
pub open spec fn aad_context() -> Seq<u8> {
    seq![
        110u8, 101u8, 116u8, 115u8, 45u8, 108u8, 111u8, 99u8, 97u8, 108u8, 45u8, 109u8, 111u8,
        110u8, 105u8, 116u8, 111u8, 114u8,
    ]
}

/// Executable [`aad_context`].
pub fn aad_bytes() -> (r: Vec<u8>)
    ensures
        r@ == aad_context(),
{
    let mut v: Vec<u8> = Vec::new();
    v.push(110u8);
    v.push(101u8);
    v.push(116u8);
    v.push(115u8);
    v.push(45u8);
    v.push(108u8);
    v.push(111u8);
    v.push(99u8);
    v.push(97u8);
    v.push(108u8);
    v.push(45u8);
    v.push(109u8);
    v.push(111u8);
    v.push(110u8);
    v.push(105u8);
    v.push(116u8);
    v.push(111u8);
    v.push(114u8);
    assert(v@ =~= aad_context());
    v
}

/// The stored form of a record: the nonce, then the ciphertext, then the tag.
pub open spec fn sealed_record(key: Seq<u8>, nonce: Seq<u8>, plaintext: Seq<u8>) -> Seq<u8> {
    nonce + aes_256_gcm_seal(key, nonce, aad_context(), plaintext)
}

/// What a stored record opens to: nothing where it is too short to hold a
/// nonce and a tag, else what AES-256-GCM recovers from the bytes behind the
/// nonce.
pub open spec fn opened_record(key: Seq<u8>, blob: Seq<u8>) -> Result<Seq<u8>, StorageError> {
    if blob.len() < NONCE_LEN + TAG_LEN {
        Err(StorageError::Truncated)
    } else {
        match aes_256_gcm_open(
            key,
            blob.take(NONCE_LEN as int),
            aad_context(),
            blob.skip(NONCE_LEN as int),
        ) {
            Some(p) => Ok(p),
            None => Err(StorageError::Authentication),
        }
    }
}

/// The view of the outcome of opening a record.
pub open spec fn opened_view(r: Result<Vec<u8>, StorageError>) -> Result<Seq<u8>, StorageError> {
    match r {
        Ok(v) => Ok(v@),
        Err(e) => Err(e),
    }
}

/// A row of the `flows` table.
#[derive(Debug)]
pub struct FlowRow {
    pub ts_first: String,
    pub ts_last: String,
    pub proto: String,
    pub src_ip: String,
    pub dst_ip: String,
    pub src_port: u16,
    pub dst_port: u16,
    pub bytes: u64,
    pub ciphertext: Vec<u8>,
}

/// A row of the `alerts` table.
#[derive(Debug)]
pub struct AlertRow {
    pub id: String,
    pub ts: String,
    pub severity: String,
    pub rule_id: String,
    pub summary: String,
    pub rationale: String,
}

/// The index columns of a row of the `flows` table, as they come out of it.
#[derive(Debug)]
pub struct IndexRow {
    pub id: i64,
    pub ts_first: String,
    pub ts_last: String,
    pub proto: String,
    pub src_ip: String,
    pub dst_ip: String,
    pub src_port: u16,
    pub dst_port: u16,
    pub bytes: u64,
}

/// A stored flow as the index shows it; the sealed record is not opened.
#[derive(Debug)]
pub struct StoredFlow {
    pub id: i64,
    pub ts_first: Timestamp,
    pub ts_last: Timestamp,
    pub proto: String,
    pub src_ip: String,
    pub dst_ip: String,
    pub src_port: u16,
    pub dst_port: u16,
    pub bytes: u64,
}

/// Whether both timestamps of a flow can be written into the index.
pub open spec fn timestamps_fit(flow: FlowEvent) -> bool {
    rfc3339_text(flow.ts_first.secs as int, flow.ts_first.nanos as int) is Some && rfc3339_text(
        flow.ts_last.secs as int,
        flow.ts_last.nanos as int,
    ) is Some
}

/// Whether `row` is the row of `flow` with `blob` as its sealed record.
pub open spec fn is_flow_row(row: FlowRow, flow: FlowEvent, blob: Seq<u8>) -> bool {
    &&& Some(row.ts_first@) == rfc3339_text(flow.ts_first.secs as int, flow.ts_first.nanos as int)
    &&& Some(row.ts_last@) == rfc3339_text(flow.ts_last.secs as int, flow.ts_last.nanos as int)
    &&& row.proto@ == flow.proto@
    &&& row.src_ip@ == flow.src_ip@
    &&& row.dst_ip@ == flow.dst_ip@
    &&& row.src_port == flow.src_port
    &&& row.dst_port == flow.dst_port
    &&& row.bytes == flow.bytes
    &&& row.ciphertext@ == blob
}

/// Whether `row` is the row of `alert`.
pub open spec fn is_alert_row(row: AlertRow, alert: Alert) -> bool {
    &&& row.id@ == alert.id@
    &&& Some(row.ts@) == rfc3339_text(alert.ts.secs as int, alert.ts.nanos as int)
    &&& row.severity@ == alert.severity.name()
    &&& row.rule_id@ == alert.rule_id@
    &&& row.summary@ == alert.summary@
    &&& row.rationale@ == alert.rationale@
}

/// Appends the bytes of `more` to `out`.
fn append_bytes(out: &mut Vec<u8>, more: &[u8])
    ensures
        final(out)@ == old(out)@ + more@,
{
    let mut i: usize = 0;
    while i < more.len()
        invariant
            i <= more.len(),
            out@ == old(out)@ + more@.take(i as int),
        decreases more.len() - i,
    {
        out.push(more[i]);
        assert(more@.take(i + 1) == more@.take(i as int).push(more@[i as int]));
        i = i + 1;
    }
    assert(more@.take(more.len() as int) == more@);
}

/// The statements that create the two tables.
pub const SCHEMA_SQL: &'static str =
    "CREATE TABLE IF NOT EXISTS flows (id INTEGER PRIMARY KEY AUTOINCREMENT, ts_first TEXT NOT NULL, ts_last TEXT NOT NULL, proto TEXT NOT NULL, src_ip TEXT NOT NULL, dst_ip TEXT NOT NULL, src_port INTEGER NOT NULL, dst_port INTEGER NOT NULL, bytes INTEGER NOT NULL, ciphertext BLOB); CREATE TABLE IF NOT EXISTS alerts (id TEXT PRIMARY KEY, ts TEXT NOT NULL, severity TEXT NOT NULL, rule_id TEXT NOT NULL, summary TEXT NOT NULL, rationale TEXT NOT NULL);";

/// The statement that appends a [`FlowRow`], its columns in the order of the
/// row's fields.
pub const INSERT_FLOW_SQL: &'static str =
    "INSERT INTO flows (ts_first, ts_last, proto, src_ip, dst_ip, src_port, dst_port, bytes, ciphertext) VALUES (?1, ?2, ?3, ?4, ?5, ?6, ?7, ?8, ?9)";

/// The statement that writes an [`AlertRow`] in place of any row with the same
/// id, its columns in the order of the row's fields.
pub const UPSERT_ALERT_SQL: &'static str =
    "INSERT OR REPLACE INTO alerts (id, ts, severity, rule_id, summary, rationale) VALUES (?1, ?2, ?3, ?4, ?5, ?6)";

/// The statement that reads the latest index rows, newest first, up to the
/// limit given as its one parameter.
pub const SELECT_FLOWS_SQL: &'static str =
    "SELECT id, ts_first, ts_last, proto, src_ip, dst_ip, src_port, dst_port, bytes FROM flows ORDER BY ts_first DESC LIMIT ?1";

/// The computing half of the store: the key, and what is written and read
/// with it.
pub struct Storage {
    key: LessSafeKey,
}

impl Storage {
    /// The bytes of the key.
    pub closed spec fn key(&self) -> Seq<u8> {
        key_material(self.key)
    }

    /// A store that seals with `key_bytes`. Every key of 32 bytes is taken;
    /// a key of any other length is refused as [`StorageError::KeyLength`].
    pub fn open(key_bytes: &[u8]) -> (r: Result<Storage, StorageError>)
        ensures
            r is Ok == (key_bytes@.len() == KEY_LEN),
            r matches Ok(s) ==> s.key() == key_bytes@,
            r matches Err(e) ==> e == StorageError::KeyLength,
    {
        match make_key(key_bytes) {
            Ok(key) => Ok(Storage { key }),
            Err(_) => Err(StorageError::KeyLength),
        }
    }

    /// A fresh key: 32 bytes from the random number generator.
    pub fn generate_key() -> (r: Vec<u8>)
        ensures
            r@.len() == KEY_LEN,
    {
        random_bytes(KEY_LEN)
    }

    /// Seals a record under a fresh random nonce.
    pub fn seal(&self, plaintext: &[u8]) -> (r: Result<Vec<u8>, StorageError>)
        ensures
            plaintext@.len() <= MAX_PLAINTEXT_LEN ==> r is Ok,
            r matches Ok(blob) ==> exists|nonce: Seq<u8>|
                nonce.len() == NONCE_LEN && blob@ == #[trigger] sealed_record(
                    self.key(),
                    nonce,
                    plaintext@,
                ),
            r matches Ok(blob) ==> opened_record(self.key(), blob@) == Ok::<Seq<u8>, StorageError>(
                plaintext@,
            ),
            r matches Err(e) ==> e == StorageError::Encryption,
    {
        let nonce = random_bytes(NONCE_LEN);
        let r = self.seal_with_nonce(nonce.as_slice(), plaintext);
        assert(r matches Ok(blob) ==> blob@ == sealed_record(self.key(), nonce@, plaintext@));
        r
    }

    /// Seals a record under the given nonce: the stored form is the nonce
    /// with the ciphertext and the tag behind it. A nonce that is not 12 bytes
    /// long is refused. What was sealed opens again to the plaintext.
    pub fn seal_with_nonce(&self, nonce: &[u8], plaintext: &[u8]) -> (r: Result<
        Vec<u8>,
        StorageError,
    >)
        ensures
            nonce@.len() != NONCE_LEN ==> r matches Err(StorageError::NonceLength),
            nonce@.len() == NONCE_LEN && plaintext@.len() <= MAX_PLAINTEXT_LEN ==> r is Ok,
            r matches Ok(blob) ==> blob@ == sealed_record(self.key(), nonce@, plaintext@)
                && blob@.len() == NONCE_LEN + plaintext@.len() + TAG_LEN,
            r matches Ok(blob) ==> opened_record(self.key(), blob@) == Ok::<Seq<u8>, StorageError>(
                plaintext@,
            ),
            r matches Err(e) ==> e == (if nonce@.len() != NONCE_LEN {
                StorageError::NonceLength
            } else {
                StorageError::Encryption
            }),
    {
        if nonce.len() != NONCE_LEN {
            return Err(StorageError::NonceLength);
        }
        let aad = aad_bytes();
        match seal_bytes(&self.key, nonce, aad.as_slice(), plaintext) {
            Ok(sealed) => {
                let mut blob = slice_to_vec(nonce);
                append_bytes(&mut blob, sealed.as_slice());
                assert(blob@.take(NONCE_LEN as int) == nonce@);
                assert(blob@.skip(NONCE_LEN as int) == sealed@);
                Ok(blob)
            },
            Err(_) => Err(StorageError::Encryption),
        }
    }

    /// Opens a stored record. A record that is too short to hold a nonce and
    /// a tag is refused as truncated; a record whose tag does not hold under
    /// this key, its nonce and the store's associated data fails
    /// authentication.
    pub fn unseal(&self, blob: &[u8]) -> (r: Result<Vec<u8>, StorageError>)
        ensures
            opened_view(r) == opened_record(self.key(), blob@),
    {
        if blob.len() < NONCE_LEN + TAG_LEN {
            return Err(StorageError::Truncated);
        }
        let nonce = slice_subrange(blob, 0, NONCE_LEN);
        let sealed = slice_subrange(blob, NONCE_LEN, blob.len());
        assert(nonce@ == blob@.take(NONCE_LEN as int));
        assert(sealed@ == blob@.skip(NONCE_LEN as int));
        let aad = aad_bytes();
        match open_bytes(&self.key, nonce, aad.as_slice(), sealed) {
            Ok(v) => Ok(v),
            Err(_) => Err(StorageError::Authentication),
        }
    }

    /// The row that stores a flow, sealed under a fresh random nonce.
    /// `serialized` is the flow in its canonical serial form.
    pub fn put_flow(&self, flow: &FlowEvent, serialized: &[u8]) -> (r: Result<FlowRow, StorageError>)
        ensures
            !timestamps_fit(*flow) ==> r matches Err(StorageError::TimestampOutOfRange),
            timestamps_fit(*flow) && serialized@.len() <= MAX_PLAINTEXT_LEN ==> r is Ok,
            in_common_era(flow.ts_first) && in_common_era(flow.ts_last) && serialized@.len()
                <= MAX_PLAINTEXT_LEN ==> r is Ok,
            r matches Ok(row) ==> exists|nonce: Seq<u8>|
                nonce.len() == NONCE_LEN && is_flow_row(
                    row,
                    *flow,
                    #[trigger] sealed_record(self.key(), nonce, serialized@),
                ),
            r matches Ok(row) ==> opened_record(self.key(), row.ciphertext@) == Ok::<
                Seq<u8>,
                StorageError,
            >(serialized@),
            r matches Err(e) ==> e == StorageError::TimestampOutOfRange || e
                == StorageError::Encryption,
    {
        let nonce = random_bytes(NONCE_LEN);
        let r = self.put_flow_with_nonce(flow, serialized, nonce.as_slice());
        assert(r matches Ok(row) ==> is_flow_row(
            row,
            *flow,
            sealed_record(self.key(), nonce@, serialized@),
        ));
        r
    }

    /// The row that stores a flow, sealed under the given nonce. Timestamps
    /// are looked at first, then the nonce, then the record is sealed.
    pub fn put_flow_with_nonce(&self, flow: &FlowEvent, serialized: &[u8], nonce: &[u8]) -> (r:
        Result<FlowRow, StorageError>)
        ensures
            !timestamps_fit(*flow) ==> r matches Err(StorageError::TimestampOutOfRange),
            timestamps_fit(*flow) && nonce@.len() != NONCE_LEN ==> r matches Err(
                StorageError::NonceLength,
            ),
            timestamps_fit(*flow) && nonce@.len() == NONCE_LEN && serialized@.len()
                <= MAX_PLAINTEXT_LEN ==> r is Ok,
            in_common_era(flow.ts_first) && in_common_era(flow.ts_last) && nonce@.len()
                == NONCE_LEN && serialized@.len() <= MAX_PLAINTEXT_LEN ==> r is Ok,
            r matches Ok(row) ==> is_flow_row(
                row,
                *flow,
                sealed_record(self.key(), nonce@, serialized@),
            ),
            r matches Ok(row) ==> opened_record(self.key(), row.ciphertext@) == Ok::<
                Seq<u8>,
                StorageError,
            >(serialized@),
            r matches Err(e) ==> e == StorageError::TimestampOutOfRange || (e
                == StorageError::NonceLength && nonce@.len() != NONCE_LEN) || e
                == StorageError::Encryption,
    {
        let ts_first = match format_rfc3339(flow.ts_first) {
            Some(t) => t,
            None => {
                return Err(StorageError::TimestampOutOfRange);
            },
        };
        let ts_last = match format_rfc3339(flow.ts_last) {
            Some(t) => t,
            None => {
                return Err(StorageError::TimestampOutOfRange);
            },
        };
        let ciphertext = match self.seal_with_nonce(nonce, serialized) {
            Ok(blob) => blob,
            Err(e) => {
                return Err(e);
            },
        };
        Ok(
            FlowRow {
                ts_first,
                ts_last,
                proto: flow.proto.clone(),
                src_ip: flow.src_ip.clone(),
                dst_ip: flow.dst_ip.clone(),
                src_port: flow.src_port,
                dst_port: flow.dst_port,
                bytes: flow.bytes,
                ciphertext,
            },
        )
    }

    /// The row that stores an alert. Written with [`UPSERT_ALERT_SQL`], it
    /// takes the place of an earlier row of the same alert id.
    pub fn put_alert(&self, alert: &Alert) -> (r: Result<AlertRow, StorageError>)
        ensures
            r is Ok == rfc3339_text(alert.ts.secs as int, alert.ts.nanos as int) is Some,
            in_common_era(alert.ts) ==> r is Ok,
            r matches Ok(row) ==> is_alert_row(row, *alert),
            r matches Err(e) ==> e == StorageError::TimestampOutOfRange,
    {
        let ts = match format_rfc3339(alert.ts) {
            Some(t) => t,
            None => {
                return Err(StorageError::TimestampOutOfRange);
            },
        };
        Ok(
            AlertRow {
                id: alert.id.clone(),
                ts,
                severity: alert.severity.as_str().to_owned(),
                rule_id: alert.rule_id.clone(),
                summary: alert.summary.clone(),
                rationale: alert.rationale.clone(),
            },
        )
    }

    /// The limit to hand to [`SELECT_FLOWS_SQL`] for at most `limit` rows.
    pub fn query_limit(limit: usize) -> (r: i64)
        ensures
            r == (if limit <= i64::MAX {
                limit as int
            } else {
                i64::MAX as int
            }),
    {
        if limit as u128 <= i64::MAX as u128 {
            limit as i64
        } else {
            i64::MAX
        }
    }

    /// The stored flow that an index row shows. A row whose timestamps are
    /// not in RFC 3339 form shows none.
    pub fn read_flow(row: &IndexRow) -> (r: Result<StoredFlow, StorageError>)
        ensures
            r is Ok == readable(*row),
            r matches Err(e) ==> e == StorageError::MalformedTimestamp,
            r matches Ok(f) ==> shows(f, *row),
    {
        let ts_first = match parse_rfc3339(row.ts_first.as_str()) {
            Some(t) => t,
            None => {
                return Err(StorageError::MalformedTimestamp);
            },
        };
        let ts_last = match parse_rfc3339(row.ts_last.as_str()) {
            Some(t) => t,
            None => {
                return Err(StorageError::MalformedTimestamp);
            },
        };
        Ok(
            StoredFlow {
                id: row.id,
                ts_first,
                ts_last,
                proto: row.proto.clone(),
                src_ip: row.src_ip.clone(),
                dst_ip: row.dst_ip.clone(),
                src_port: row.src_port,
                dst_port: row.dst_port,
                bytes: row.bytes,
            },
        )
    }

    /// The stored flows that the rows of a query show, in the order of the
    /// rows. One row with a malformed timestamp fails the whole query.
    pub fn query_flows(rows: &Vec<IndexRow>) -> (r: Result<Vec<StoredFlow>, StorageError>)
        ensures
            r is Ok == (forall|i: int| 0 <= i < rows@.len() ==> readable(#[trigger] rows@[i])),
            r matches Err(e) ==> e == StorageError::MalformedTimestamp,
            r matches Ok(flows) ==> flows@.len() == rows@.len() && forall|i: int|
                0 <= i < rows@.len() ==> shows(#[trigger] flows@[i], rows@[i]),
    {
        let mut flows: Vec<StoredFlow> = Vec::new();
        let mut i: usize = 0;
        while i < rows.len()
            invariant
                i <= rows.len(),
                flows@.len() == i,
                forall|k: int| 0 <= k < i ==> readable(#[trigger] rows@[k]),
                forall|k: int| 0 <= k < i ==> shows(#[trigger] flows@[k], rows@[k]),
            decreases rows.len() - i,
        {
            match Self::read_flow(&rows[i]) {
                Ok(flow) => {
                    flows.push(flow);
                },
                Err(e) => {
                    assert(!readable(rows@[i as int]));
                    return Err(e);
                },
            }
            i = i + 1;
        }
        Ok(flows)
    }
}

/// Whether both timestamps of an index row are in RFC 3339 form.
pub open spec fn readable(row: IndexRow) -> bool {
    rfc3339_instant(row.ts_first@) is Some && rfc3339_instant(row.ts_last@) is Some
}

/// Whether a stored flow is what an index row shows: the instants that the
/// row's timestamps denote, and every other column as it is.
pub open spec fn shows(f: StoredFlow, row: IndexRow) -> bool {
    &&& f.id == row.id
    &&& rfc3339_instant(row.ts_first@) == Some((f.ts_first.secs as int, f.ts_first.nanos as int))
    &&& rfc3339_instant(row.ts_last@) == Some((f.ts_last.secs as int, f.ts_last.nanos as int))
    &&& f.proto@ == row.proto@
    &&& f.src_ip@ == row.src_ip@
    &&& f.dst_ip@ == row.dst_ip@
    &&& f.src_port == row.src_port
    &&& f.dst_port == row.dst_port
    &&& f.bytes == row.bytes
}

} // verus!
