//! Naming of stored stream-key credentials. Keys themselves are stored by
//! the operating system's credential store; this crate only decides the
//! target name each profile's key lives under.

use vstd::prelude::*;

use crate::error::BrailError;
use crate::unicode::{decode_utf16_lossy, lemma_utf16_round_trip, utf16_encode, utf16_lossy, utf16_of};

verus! {

/// Lower-case hexadecimal digit of a value below 16.
pub open spec fn hex_digit(n: int) -> char {
    if n < 10 {
        (48 + n) as char
    } else {
        (87 + n) as char
    }
}

/// Two lower-case hex digits per byte, most significant first.
pub open spec fn hex_of(bytes: Seq<u8>) -> Seq<char>
    decreases bytes.len(),
{
    if bytes.len() == 0 {
        Seq::empty()
    } else {
        hex_of(bytes.drop_last()) + seq![hex_digit(bytes.last() as int / 16), hex_digit(bytes.last() as int % 16)]
    }
}

/// The hyphenated lower-case text of a UUID's 16 bytes:
/// 8-4-4-4-12 hex digits.
pub open spec fn uuid_text(b: Seq<u8>) -> Seq<char> {
    hex_of(b.subrange(0, 4)) + "-"@ + hex_of(b.subrange(4, 6)) + "-"@ + hex_of(b.subrange(6, 8)) + "-"@
        + hex_of(b.subrange(8, 10)) + "-"@ + hex_of(b.subrange(10, 16))
}

/// `uuid::Uuid::to_string` of the UUID with these bytes. The uuid crate's
/// `Display` writes the hyphenated lower-case form; this contract states
/// that form.
#[verifier::external_body]
fn uuid_hyphenated(bytes: &[u8; 16]) -> (s: String)
    ensures
        s@ == uuid_text(bytes@),
{
    uuid::Uuid::from_bytes(*bytes).to_string()
}

/// Prefix of every credential this application writes, so its own
/// entries can be found and nothing else on the system.
pub open spec fn target_prefix() -> Seq<char> {
    "BrailRecorder_StreamKey_"@
}

/// The credential target a stream profile's key is stored under, keyed by
/// the profile's id so renaming a profile never orphans its key.
pub fn credential_target_name(profile_id: &[u8; 16]) -> (s: String)
    ensures
        s@ == target_prefix() + uuid_text(profile_id@),
{
    let mut s = String::from_str("BrailRecorder_StreamKey_");
    let id = uuid_hyphenated(profile_id);
    s.append(id.as_str());
    s
}

/// The little-endian bytes of UTF-16 code units, as a credential blob
/// holds them.
pub open spec fn le_bytes(u: Seq<u16>) -> Seq<u8> {
    Seq::new(2 * u.len(), |i: int| if i % 2 == 0 { (u[i / 2] & 0xff) as u8 } else { (u[i / 2] >> 8) as u8 })
}

/// Code units read back from little-endian byte pairs; an odd trailing
/// byte is ignored.
pub open spec fn units_from_le(b: Seq<u8>) -> Seq<u16> {
    Seq::new(b.len() / 2, |i: int| ((b[2 * i] as u16) | ((b[2 * i + 1] as u16) << 8u16)) as u16)
}

proof fn lemma_unit_bytes(u: u16)
    ensures
        (((u & 0xff) as u8 as u16) | (((u >> 8) as u8 as u16) << 8u16)) == u,
{
    assert((((u & 0xff) as u8 as u16) | (((u >> 8) as u8 as u16) << 8u16)) == u) by (bit_vector);
}

/// Stored stream keys live in the operating system's credential store,
/// under a name derived from the owning profile's id.
pub struct CredentialVault;

impl CredentialVault {
    /// The credential target for a profile's key.
    pub fn target_name(profile_id: &[u8; 16]) -> (s: String)
        ensures
            s@ == target_prefix() + uuid_text(profile_id@),
    {
        credential_target_name(profile_id)
    }

    /// The credential blob a key is stored as: its UTF-16 code units,
    /// little-endian, so the entry reads correctly in the system's own
    /// credential tools.
    pub fn key_blob(stream_key: &str) -> (b: Vec<u8>)
        ensures
            b@ == le_bytes(utf16_encode(stream_key@)),
    {
        let units = utf16_of(stream_key);
        let mut b: Vec<u8> = Vec::new();
        let mut i: usize = 0;
        while i < units.len()
            invariant
                0 <= i <= units@.len(),
                b@ == le_bytes(units@.take(i as int)),
            decreases units@.len() - i,
        {
            let u = units[i];
            b.push((u & 0xff) as u8);
            b.push((u >> 8) as u8);
            assert(b@ == le_bytes(units@.take(i + 1)));
            i += 1;
        }
        assert(units@.take(units@.len() as int) == units@);
        b
    }

    /// A key read back from a credential blob: byte pairs as
    /// little-endian UTF-16, decoded with invalid units replaced.
    pub fn key_from_blob(blob: &[u8]) -> (s: String)
        ensures
            s@ == utf16_lossy(units_from_le(blob@)),
    {
        let mut units: Vec<u16> = Vec::new();
        let len = blob.len();
        let n = len / 2;
        let mut i: usize = 0;
        while i < n
            invariant
                len == blob@.len(),
                0 <= i <= n == blob@.len() / 2,
                units@ == units_from_le(blob@).take(i as int),
            decreases n - i,
        {
            assert(2 * i + 1 < blob@.len());
            let j: usize = 2 * i;
            let u: u16 = (blob[j] as u16) | ((blob[j + 1] as u16) << 8u16);
            units.push(u);
            assert(units@ == units_from_le(blob@).take(i + 1));
            i += 1;
        }
        assert(units@ == units_from_le(blob@));
        decode_utf16_lossy(units.as_slice())
    }

    /// The error reported when a credential-store call fails.
    pub fn storage_error(call: &str, detail: &str) -> (e: BrailError)
        ensures
            e matches BrailError::SecureStorageError(m) && m@ == call@ + " failed: "@ + detail@,
    {
        let mut m = String::from_str(call);
        m.append(" failed: ");
        m.append(detail);
        BrailError::SecureStorageError(m)
    }
}

/// A key stored in the vault reads back unchanged.
pub proof fn law_stored_key_reads_back(stream_key: Seq<char>)
    ensures
        utf16_lossy(units_from_le(le_bytes(utf16_encode(stream_key)))) == stream_key,
{
    let u = utf16_encode(stream_key);
    let b = le_bytes(u);
    assert forall|i: int| 0 <= i < u.len() implies #[trigger] units_from_le(b)[i] == u[i] by {
        lemma_unit_bytes(u[i]);
        assert(b[2 * i] == (u[i] & 0xff) as u8);
        assert(b[2 * i + 1] == (u[i] >> 8) as u8);
    }
    assert(units_from_le(b) == u);
    lemma_utf16_round_trip(stream_key);
}

} // verus!
