//! The fixed-offset fields of a TA image and the actions that copy them out.

use vstd::arithmetic::power2::{lemma2_to64, pow2};
use vstd::prelude::*;
use vstd::utf8::{decode_utf8, decode_utf8_encode_utf8, encode_utf8, valid_utf8};

use crate::error::TaError;
use crate::image::{magic_ok, read_ta, valid_image, validate_image, TA_SIZE};
use crate::platform::{tama_bootlog_offsets, Platform};

verus! {

/// Size in bytes of one boot log; the TA stores up to ten of these.
pub const BOOTLOG_SIZE: usize = 14309;

/// Offset of the build-id text field.
pub const BUILD_ID_OFFSET: usize = 0x7B4;

/// Size in bytes of the build-id text field.
pub const BUILD_ID_SIZE: usize = 32;

/// Offset of the serial-number text field.
pub const SERIAL_OFFSET: usize = 0x600B4;

/// Size in bytes of the serial-number text field.
pub const SERIAL_SIZE: usize = 10;

/// Base offset of the embedded database region.
pub const DB_OFFSET: usize = 0x20044;

/// Offset, within the database region, of its 2-byte length-exponent field.
pub const DB_LEN_FIELD_OFFSET: usize = 16;

/// Largest length exponent whose region still lies inside the image:
/// `DB_OFFSET + 2^20 <= TA_SIZE`, while `2^21` alone already exceeds it.
pub const MAX_DB_EXPONENT: u16 = 20;

/// The length exponent stored in the image: a little-endian 16-bit value at
/// `DB_OFFSET + DB_LEN_FIELD_OFFSET`; the region size is `2^n` bytes.
pub open spec fn db_exponent(ta: Seq<u8>) -> int {
    ta[DB_OFFSET + DB_LEN_FIELD_OFFSET as int] + 0x100 * ta[DB_OFFSET + DB_LEN_FIELD_OFFSET + 1]
}

/// The embedded database region: `2^n` bytes starting at `DB_OFFSET`.
pub open spec fn db_region(ta: Seq<u8>) -> Seq<u8> {
    ta.subrange(DB_OFFSET as int, DB_OFFSET + pow2(db_exponent(ta) as nat))
}

/// Reads the database length-exponent field as a little-endian 16-bit value.
pub fn db_length_exponent(ta: &[u8]) -> (n: u16)
    requires
        ta@.len() == TA_SIZE,
    ensures
        n == db_exponent(ta@),
{
    let low = ta[DB_OFFSET + DB_LEN_FIELD_OFFSET];
    let high = ta[DB_OFFSET + DB_LEN_FIELD_OFFSET + 1];
    (low as u16) + 0x100 * (high as u16)
}

/// The database region size in bytes for length exponent `n`: `2^n`.
///
/// Exponents above `MAX_DB_EXPONENT` would place the region's end past the
/// image's end, so no such region can exist in a well-formed image.
pub fn db_region_size(n: u16) -> (r: usize)
    requires
        n <= MAX_DB_EXPONENT,
    ensures
        r == pow2(n as nat),
        r <= 0x100000,
{
    proof {
        lemma2_to64();
        lemma_pow2_le(n as nat, MAX_DB_EXPONENT as nat);
    }
    let mut r: usize = 1;
    let mut i: u16 = 0;
    while i < n
        invariant
            i <= n <= MAX_DB_EXPONENT,
            r == pow2(i as nat),
            pow2(n as nat) <= 0x100000,
        decreases n - i,
    {
        proof {
            lemma_pow2_le((i + 1) as nat, n as nat);
        }
        assert(pow2((i + 1) as nat) == 2 * pow2(i as nat)) by {
            vstd::arithmetic::power2::lemma_pow2_unfold((i + 1) as nat);
        }
        r = r * 2;
        i = i + 1;
    }
    r
}

/// Powers of two do not shrink as the exponent grows.
proof fn lemma_pow2_le(a: nat, b: nat)
    requires
        a <= b,
    ensures
        pow2(a) <= pow2(b),
{
    if a < b {
        vstd::arithmetic::power2::lemma_pow2_strictly_increases(a, b);
    }
}

/// The bytes of the `i`-th Tama boot log.
pub open spec fn bootlog_region(ta: Seq<u8>, i: int) -> Seq<u8> {
    ta.subrange(
        tama_bootlog_offsets()[i] as int,
        tama_bootlog_offsets()[i] + BOOTLOG_SIZE,
    )
}

/// The bytes of the build-id text field.
pub open spec fn build_id_bytes(ta: Seq<u8>) -> Seq<u8> {
    ta.subrange(BUILD_ID_OFFSET as int, BUILD_ID_OFFSET + BUILD_ID_SIZE)
}

/// The bytes of the serial-number text field.
pub open spec fn serial_bytes(ta: Seq<u8>) -> Seq<u8> {
    ta.subrange(SERIAL_OFFSET as int, SERIAL_OFFSET + SERIAL_SIZE)
}

/// Every Tama boot-log offset leaves a full boot log inside the image.
proof fn lemma_tama_offsets_in_range()
    ensures
        forall|j: int|
            0 <= j < 10 ==> #[trigger] tama_bootlog_offsets()[j] + BOOTLOG_SIZE <= TA_SIZE,
{
    assert forall|j: int|
        0 <= j < 10 implies #[trigger] tama_bootlog_offsets()[j] + BOOTLOG_SIZE <= TA_SIZE by {
        if j == 0 {
            assert(tama_bootlog_offsets()[0] == 0x2A22E);
        } else if j == 1 {
            assert(tama_bootlog_offsets()[1] == 0x2DA22);
        } else if j == 2 {
            assert(tama_bootlog_offsets()[2] == 0x31CEE);
        } else if j == 3 {
            assert(tama_bootlog_offsets()[3] == 0x3542A);
        } else if j == 4 {
            assert(tama_bootlog_offsets()[4] == 0x38C46);
        } else if j == 5 {
            assert(tama_bootlog_offsets()[5] == 0x3C7A2);
        } else if j == 6 {
            assert(tama_bootlog_offsets()[6] == 0x65412);
        } else if j == 7 {
            assert(tama_bootlog_offsets()[7] == 0x68C2E);
        } else if j == 8 {
            assert(tama_bootlog_offsets()[8] == 0x6C78A);
        } else {
            assert(tama_bootlog_offsets()[9] == 0x70A2E);
        }
    }
}

/// Relies on `String::from_utf8`: it succeeds exactly on the byte sequences
/// that are valid UTF-8, and the resulting string holds the characters those
/// bytes encode.
#[verifier::external_body]
fn string_from_utf8(bytes: Vec<u8>) -> (r: Option<String>)
    ensures
        r is Some <==> valid_utf8(bytes@),
        r matches Some(s) ==> s@ == decode_utf8(bytes@),
{
    String::from_utf8(bytes).ok()
}

/// Copies all ten boot logs of the selected device family out of the image,
/// in storage order. Families with undocumented offsets fail with
/// `NotImplemented` and nothing is extracted for them.
pub fn extract_bootlogs(ta: &[u8], platform: Platform) -> (r: Result<Vec<Vec<u8>>, TaError>)
    requires
        ta@.len() == TA_SIZE,
    ensures
        platform is Tama ==> (r matches Ok(logs) && logs@.len() == 10 && forall|i: int|
            0 <= i < 10 ==> (#[trigger] logs@[i])@ == bootlog_region(ta@, i)),
        !(platform is Tama) ==> r == Err::<Vec<Vec<u8>>, TaError>(
            TaError::NotImplemented(platform),
        ),
{
    let offsets = match platform.bootlog_offset() {
        Ok(o) => o,
        Err(e) => {
            return Err(e);
        },
    };
    proof {
        lemma_tama_offsets_in_range();
    }
    let mut logs: Vec<Vec<u8>> = Vec::new();
    let mut i: usize = 0;
    while i < 10
        invariant
            i <= 10,
            ta@.len() == TA_SIZE,
            offsets@ == tama_bootlog_offsets(),
            logs@.len() == i,
            forall|j: int| 0 <= j < i ==> (#[trigger] logs@[j])@ == bootlog_region(ta@, j),
            forall|j: int|
                0 <= j < 10 ==> #[trigger] tama_bootlog_offsets()[j] + BOOTLOG_SIZE <= TA_SIZE,
        decreases 10 - i,
    {
        let off = offsets[i];
        let log = read_ta(ta, off, BOOTLOG_SIZE);
        logs.push(log);
        i = i + 1;
    }
    Ok(logs)
}

/// Copies the build-id field and decodes it as UTF-8 text.
pub fn extract_build_id(ta: &[u8]) -> (r: Result<String, TaError>)
    requires
        ta@.len() == TA_SIZE,
    ensures
        r is Ok <==> valid_utf8(build_id_bytes(ta@)),
        r matches Ok(s) ==> s@ == decode_utf8(build_id_bytes(ta@)) && encode_utf8(s@)
            == build_id_bytes(ta@),
        r is Err ==> r == Err::<String, TaError>(TaError::DecodeError),
{
    let bytes = read_ta(ta, BUILD_ID_OFFSET, BUILD_ID_SIZE);
    match string_from_utf8(bytes) {
        Some(s) => {
            proof {
                decode_utf8_encode_utf8(build_id_bytes(ta@));
            }
            Ok(s)
        },
        None => Err(TaError::DecodeError),
    }
}

/// Copies the serial-number field and decodes it as UTF-8 text.
pub fn extract_serial(ta: &[u8]) -> (r: Result<String, TaError>)
    requires
        ta@.len() == TA_SIZE,
    ensures
        r is Ok <==> valid_utf8(serial_bytes(ta@)),
        r matches Ok(s) ==> s@ == decode_utf8(serial_bytes(ta@)) && encode_utf8(s@)
            == serial_bytes(ta@),
        r is Err ==> r == Err::<String, TaError>(TaError::DecodeError),
{
    let bytes = read_ta(ta, SERIAL_OFFSET, SERIAL_SIZE);
    match string_from_utf8(bytes) {
        Some(s) => {
            proof {
                decode_utf8_encode_utf8(serial_bytes(ta@));
            }
            Ok(s)
        },
        None => Err(TaError::DecodeError),
    }
}

/// Copies the embedded database region: `2^n` bytes starting at `DB_OFFSET`,
/// where `n` is the image's length-exponent field.
///
/// An exponent above `MAX_DB_EXPONENT` would place the region past the
/// image's end; callers must check the exponent (`db_length_exponent`)
/// before asking for the region.
pub fn extract_db_region(ta: &[u8]) -> (r: Vec<u8>)
    requires
        ta@.len() == TA_SIZE,
        db_exponent(ta@) <= MAX_DB_EXPONENT,
    ensures
        r@ == db_region(ta@),
        r@.len() == pow2(db_exponent(ta@) as nat),
{
    let n = db_length_exponent(ta);
    let size = db_region_size(n);
    read_ta(ta, DB_OFFSET, size)
}

/// Compares the computed size of a written region against its on-disk size;
/// any discrepancy (a partial write) is a `WriteVerificationMismatch`.
pub fn check_db_write(expected_size: usize, on_disk_size: usize) -> (r: Result<(), TaError>)
    ensures
        r is Ok <==> on_disk_size == expected_size,
        r is Err ==> r == Err::<(), TaError>(TaError::WriteVerificationMismatch),
{
    if on_disk_size == expected_size {
        Ok(())
    } else {
        Err(TaError::WriteVerificationMismatch)
    }
}

/// On a well-formed image every extraction yields output of the exact
/// documented byte length: `BOOTLOG_SIZE` per boot log, `BUILD_ID_SIZE` for
/// the build id, `SERIAL_SIZE` for the serial number, and `2^n` for the
/// database region with length-exponent `n`.
pub proof fn lemma_extraction_lengths(ta: Seq<u8>, i: int)
    requires
        ta.len() == TA_SIZE,
        0 <= i < 10,
        db_exponent(ta) <= MAX_DB_EXPONENT,
    ensures
        bootlog_region(ta, i).len() == BOOTLOG_SIZE,
        build_id_bytes(ta).len() == BUILD_ID_SIZE,
        serial_bytes(ta).len() == SERIAL_SIZE,
        db_region(ta).len() == pow2(db_exponent(ta) as nat),
{
    lemma_tama_offsets_in_range();
    lemma2_to64();
    lemma_pow2_le(db_exponent(ta) as nat, MAX_DB_EXPONENT as nat);
}

/// Round trip: the database region handed out for writing has exactly the
/// size computed from the image's length-exponent field, so a write whose
/// on-disk size matches the bytes written passes `check_db_write`.
pub proof fn lemma_db_round_trip(ta: Seq<u8>, on_disk_size: nat)
    requires
        ta.len() == TA_SIZE,
        db_exponent(ta) <= MAX_DB_EXPONENT,
        on_disk_size == db_region(ta).len(),
    ensures
        on_disk_size == pow2(db_exponent(ta) as nat),
{
    lemma2_to64();
    lemma_pow2_le(db_exponent(ta) as nat, MAX_DB_EXPONENT as nat);
}

/// One inspection action, as requested on the command line.
#[derive(Copy, Clone, Debug, PartialEq, Eq, Structural)]
pub enum Action {
    /// Dump boot logs (TA stores up to ten of these).
    DumpBootlogs(Platform),
    /// Dump the internal SQLite database.
    DumpSqlitedb,
    /// Show build number.
    ShowBuildid,
    /// Show serial number.
    ShowSerial,
}

/// What an action extracted; the caller writes or prints it.
#[derive(Debug, PartialEq, Eq)]
pub enum Extracted {
    /// The ten boot logs, in storage order.
    Bootlogs(Vec<Vec<u8>>),
    /// The embedded database region.
    Database(Vec<u8>),
    /// The build-id text field.
    BuildId(String),
    /// The serial-number text field.
    Serial(String),
}

/// Validates the image and performs one action on it.
///
/// A wrong-size input fails with `SizeMismatch` before anything else is
/// looked at; a wrong magic header fails with `MagicMismatch` before any
/// extraction; on a well-formed image the requested field bytes come back
/// exactly.
pub fn run_action(ta: &[u8], action: Action) -> (r: Result<Extracted, TaError>)
    requires
        valid_image(ta@) && action is DumpSqlitedb ==> db_exponent(ta@) <= MAX_DB_EXPONENT,
    ensures
        ta@.len() != TA_SIZE ==> r == Err::<Extracted, TaError>(TaError::SizeMismatch),
        ta@.len() == TA_SIZE && !magic_ok(ta@) ==> r == Err::<Extracted, TaError>(
            TaError::MagicMismatch,
        ),
        valid_image(ta@) ==> match action {
            Action::DumpBootlogs(p) => {
                &&& p is Tama ==> (r matches Ok(out) && out matches Extracted::Bootlogs(logs)
                    && logs@.len() == 10 && forall|i: int|
                    0 <= i < 10 ==> (#[trigger] logs@[i])@ == bootlog_region(ta@, i))
                &&& !(p is Tama) ==> r == Err::<Extracted, TaError>(TaError::NotImplemented(p))
            },
            Action::DumpSqlitedb => r matches Ok(out) && out matches Extracted::Database(d)
                && d@ == db_region(ta@),
            Action::ShowBuildid => {
                &&& valid_utf8(build_id_bytes(ta@)) ==> (r matches Ok(out) && out
                    matches Extracted::BuildId(s) && s@ == decode_utf8(build_id_bytes(ta@)))
                &&& !valid_utf8(build_id_bytes(ta@)) ==> r == Err::<Extracted, TaError>(
                    TaError::DecodeError,
                )
            },
            Action::ShowSerial => {
                &&& valid_utf8(serial_bytes(ta@)) ==> (r matches Ok(out) && out
                    matches Extracted::Serial(s) && s@ == decode_utf8(serial_bytes(ta@)))
                &&& !valid_utf8(serial_bytes(ta@)) ==> r == Err::<Extracted, TaError>(
                    TaError::DecodeError,
                )
            },
        },
{
    match validate_image(ta) {
        Ok(()) => {},
        Err(e) => {
            return Err(e);
        },
    }
    match action {
        Action::DumpBootlogs(p) => match extract_bootlogs(ta, p) {
            Ok(logs) => Ok(Extracted::Bootlogs(logs)),
            Err(e) => Err(e),
        },
        Action::DumpSqlitedb => Ok(Extracted::Database(extract_db_region(ta))),
        Action::ShowBuildid => match extract_build_id(ta) {
            Ok(s) => Ok(Extracted::BuildId(s)),
            Err(e) => Err(e),
        },
        Action::ShowSerial => match extract_serial(ta) {
            Ok(s) => Ok(Extracted::Serial(s)),
            Err(e) => Err(e),
        },
    }
}

} // verus!
