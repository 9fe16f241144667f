//! Save files: the message a save's MAC covers, its hex form, and the
//! checks a save must pass before its snapshot is read.
use vstd::prelude::*;

use sha2::Digest;

use crate::strings::str_eq;
use vstd::string::StringSliceAdditionalSpecFns;

verus! {

/// Version of the save format this build writes and reads.
pub const SAVE_VERSION: u32 = 1;

/// Key mixed into every save's MAC.
pub const SAVE_SECRET: &'static str = "abyss-save-secret-v1-rotate-if-format-changes";

/// The lower-case hex digit of `d < 16`.
pub open spec fn hex_digit(d: int) -> char {
    if d < 10 {
        ((48 + d) as u8) as char
    } else {
        ((87 + d) as u8) as char
    }
}

/// Lower-case hex of `bytes`, two digits per byte, high digit first.
pub open spec fn hex_spec(bytes: Seq<u8>) -> Seq<char>
    decreases bytes.len(),
{
    if bytes.len() == 0 {
        Seq::empty()
    } else {
        hex_spec(bytes.drop_last()) + seq![hex_digit(bytes.last() as int / 16), hex_digit(bytes.last() as int % 16)]
    }
}

proof fn lemma_hex_len(bytes: Seq<u8>)
    ensures
        hex_spec(bytes).len() == 2 * bytes.len(),
    decreases bytes.len(),
{
    if bytes.len() > 0 {
        lemma_hex_len(bytes.drop_last());
    }
}

fn hex_char(d: u8) -> (c: char)
    requires
        d < 16,
    ensures
        c == hex_digit(d as int),
{
    if d < 10 {
        (48u8 + d) as char
    } else {
        (87u8 + d) as char
    }
}

/// Lower-case hex of `bytes`.
pub fn to_hex(bytes: &[u8]) -> (s: String)
    ensures
        s@ == hex_spec(bytes@),
        s@.len() == 2 * bytes@.len(),
{
    let mut out: Vec<char> = Vec::new();
    let mut i: usize = 0;
    while i < bytes.len()
        invariant
            i <= bytes@.len(),
            out@ == hex_spec(bytes@.subrange(0, i as int)),
        decreases bytes@.len() - i,
    {
        assert(bytes@.subrange(0, i + 1).drop_last() =~= bytes@.subrange(0, i as int));
        let b = bytes[i];
        out.push(hex_char(b / 16));
        out.push(hex_char(b % 16));
        assert(out@ =~= hex_spec(bytes@.subrange(0, i as int)) + seq![hex_digit(b as int / 16), hex_digit(b as int % 16)]);
        i = i + 1;
    }
    assert(bytes@.subrange(0, bytes@.len() as int) =~= bytes@);
    proof {
        lemma_hex_len(bytes@);
    }
    crate::strings::string_from_chars(&out)
}

/// Little-endian bytes of `v`.
pub open spec fn le_bytes(v: u32) -> Seq<u8> {
    seq![(v % 256) as u8, ((v / 256) % 256) as u8, ((v / 65536) % 256) as u8, (v / 16777216) as u8]
}

/// The message a save's MAC covers: the key, the version in little-endian
/// bytes, then the snapshot's bytes.
pub open spec fn mac_message_spec(version: u32, snapshot: Seq<u8>) -> Seq<u8> {
    SAVE_SECRET.spec_bytes() + le_bytes(version) + snapshot
}

fn push_bytes(out: &mut Vec<u8>, bytes: &[u8])
    ensures
        final(out)@ == old(out)@ + bytes@,
{
    let mut i: usize = 0;
    while i < bytes.len()
        invariant
            i <= bytes@.len(),
            out@ == old(out)@ + bytes@.subrange(0, i as int),
        decreases bytes@.len() - i,
    {
        out.push(bytes[i]);
        assert(old(out)@ + bytes@.subrange(0, i + 1) =~= old(out)@ + bytes@.subrange(0, i as int) + seq![bytes@[i as int]]);
        i = i + 1;
    }
    assert(bytes@.subrange(0, bytes@.len() as int) =~= bytes@);
}

/// The message a save's MAC covers.
pub fn mac_message(version: u32, snapshot_raw: &str) -> (m: Vec<u8>)
    ensures
        m@ == mac_message_spec(version, snapshot_raw.spec_bytes()),
{
    let mut m: Vec<u8> = Vec::new();
    push_bytes(&mut m, SAVE_SECRET.as_bytes());
    m.push((version % 256) as u8);
    m.push(((version / 256) % 256) as u8);
    m.push(((version / 65536) % 256) as u8);
    m.push((version / 16777216) as u8);
    push_bytes(&mut m, snapshot_raw.as_bytes());
    assert(m@ =~= mac_message_spec(version, snapshot_raw.spec_bytes()));
    m
}

/// Names the SHA-256 digest of a message as the `sha2` crate computes it.
pub uninterp spec fn sha256_spec(message: Seq<u8>) -> Seq<u8>;

/// `sha2::Sha256::digest`. Claimed of it: the result is the SHA-256 digest
/// of `message` (named `sha256_spec`, a function of the message alone), and
/// it has 32 bytes, the hasher's fixed output size. Feeding the message in
/// pieces with `update` gives the same digest as feeding it whole.
#[verifier::external_body]
fn sha256_digest(message: &[u8]) -> (d: Vec<u8>)
    ensures
        d@ == sha256_spec(message@),
        d@.len() == 32,
{
    sha2::Sha256::digest(message).to_vec()
}

/// The MAC of a save: the hex of the SHA-256 digest of its message.
pub open spec fn mac_spec(version: u32, snapshot: Seq<u8>) -> Seq<char> {
    hex_spec(sha256_spec(mac_message_spec(version, snapshot)))
}

/// The MAC that a save of `snapshot_raw` at `version` carries.
pub fn compute_mac_from_raw(version: u32, snapshot_raw: &str) -> (mac: String)
    ensures
        mac@ == mac_spec(version, snapshot_raw.spec_bytes()),
        mac@.len() == 64,
{
    let message = mac_message(version, snapshot_raw);
    let digest = sha256_digest(message.as_slice());
    to_hex(digest.as_slice())
}

/// Why a save is refused before its snapshot is read.
#[derive(Clone, Copy, Debug, PartialEq, Eq, Structural)]
pub enum SaveError {
    /// The save was written by another version of the format.
    UnsupportedVersion,
    /// The MAC does not match the snapshot.
    Tampered,
}

impl SaveError {
    /// The message the game shows for this error.
    pub fn message(&self) -> (s: String)
        ensures
            *self == SaveError::UnsupportedVersion ==> s@ == "unsupported save version"@,
            *self == SaveError::Tampered ==> s@ == "save file verification failed (tampered or corrupted)"@,
    {
        match self {
            SaveError::UnsupportedVersion => "unsupported save version".to_owned(),
            SaveError::Tampered => "save file verification failed (tampered or corrupted)".to_owned(),
        }
    }
}

/// The verdict on a save's envelope: its version must be this build's, and
/// its MAC the one its snapshot gives.
pub open spec fn envelope_check_spec(version: u32, snapshot: Seq<u8>, mac: Seq<char>) -> Result<(), SaveError> {
    if version != SAVE_VERSION {
        Err(SaveError::UnsupportedVersion)
    } else if mac != mac_spec(version, snapshot) {
        Err(SaveError::Tampered)
    } else {
        Ok(())
    }
}

/// Checks a save's envelope before its snapshot is read.
pub fn check_save_envelope(version: u32, snapshot_raw: &str, mac: &str) -> (r: Result<(), SaveError>)
    ensures
        r == envelope_check_spec(version, snapshot_raw.spec_bytes(), mac@),
{
    if version != SAVE_VERSION {
        return Err(SaveError::UnsupportedVersion);
    }
    let expected = compute_mac_from_raw(version, snapshot_raw);
    if !str_eq(mac, expected.as_str()) {
        return Err(SaveError::Tampered);
    }
    Ok(())
}

/// Law: a save written by this build passes the envelope check, and a save
/// passes only with this build's version and the MAC of its own snapshot.
pub proof fn lemma_written_save_verifies(snapshot: Seq<u8>, version: u32, mac: Seq<char>)
    ensures
        envelope_check_spec(SAVE_VERSION, snapshot, mac_spec(SAVE_VERSION, snapshot)) is Ok,
        envelope_check_spec(version, snapshot, mac) is Ok ==> version == SAVE_VERSION && mac == mac_spec(
            version,
            snapshot,
        ),
{
}

} // verus!
