//! Change detection: a content fingerprint over the raw bytes of the
//! configuration document.
//!
//! The fingerprint is the lowercase hexadecimal SHA-256 digest of the
//! document bytes, kept as bytes so that what is written to the lock file
//! and what is read back compare bit-exactly. Byte-identical documents
//! always fingerprint alike; a formatting change is, by design, a change.

use vstd::prelude::*;

verus! {

/// The hexadecimal SHA-256 digest of a byte sequence, as the `sha256`
/// crate computes it.
pub uninterp spec fn sha256_hex_of(bytes: Seq<u8>) -> Seq<u8>;

/// Relies on `sha256::digest` (through its `&[u8]` implementation): the
/// result is the lowercase hexadecimal form of the SHA-256 digest of the
/// input — 64 characters, a function of the input bytes alone.
#[verifier::external_body]
fn sha256_hex(bytes: &[u8]) -> (r: Vec<u8>)
    ensures
        r@ == sha256_hex_of(bytes@),
        r@.len() == 64,
{
    sha256::digest(bytes).into_bytes()
}

/// A configuration fingerprint: the fixed-length digest of the document's
/// raw bytes, in the encoding that the lock file holds.
pub struct Fingerprint {
    pub bytes: Vec<u8>,
}

impl View for Fingerprint {
    type V = Seq<u8>;

    open spec fn view(&self) -> Seq<u8> {
        self.bytes@
    }
}

/// Computes the fingerprint of a configuration document's raw bytes.
pub fn fingerprint_of(config_bytes: &[u8]) -> (fp: Fingerprint)
    ensures
        fp@ == sha256_hex_of(config_bytes@),
        fp@.len() == 64,
{
    Fingerprint { bytes: sha256_hex(config_bytes) }
}

/// The view of an optional byte vector, such as the lock file's contents.
pub open spec fn opt_bytes_view(lock: Option<Vec<u8>>) -> Option<Seq<u8>> {
    match lock {
        None => None,
        Some(b) => Some(b@),
    }
}

/// Whether reconciliation is owed: always on a first run (no lock yet, or
/// an unreadable one), otherwise exactly when the current fingerprint
/// differs from the committed one.
pub open spec fn spec_needs_reconciliation(current: Seq<u8>, lock: Option<Seq<u8>>) -> bool {
    match lock {
        None => true,
        Some(committed) => committed != current,
    }
}

fn bytes_equal(a: &Vec<u8>, b: &Vec<u8>) -> (r: bool)
    ensures
        r == (a@ == b@),
{
    if a.len() != b.len() {
        return false;
    }
    let n = a.len();
    let mut i: usize = 0;
    while i < n
        invariant
            n == a@.len() == b@.len(),
            i <= n,
            forall|k: int| 0 <= k < i ==> a@[k] == b@[k],
        decreases n - i,
    {
        if a[i] != b[i] {
            return false;
        }
        i = i + 1;
    }
    proof {
        assert(a@ =~= b@);
    }
    true
}

/// Compares the current fingerprint against the committed lock contents, as
/// `spec_needs_reconciliation` describes.
pub fn needs_reconciliation(current: &Fingerprint, lock: &Option<Vec<u8>>) -> (r: bool)
    ensures
        r == spec_needs_reconciliation(current@, opt_bytes_view(*lock)),
{
    match lock {
        None => true,
        Some(committed) => !bytes_equal(committed, &current.bytes),
    }
}

/// Byte-identical configuration documents always yield identical
/// fingerprints: the digest is a function of the bytes alone.
pub proof fn lemma_fingerprint_deterministic(a: Seq<u8>, b: Seq<u8>)
    requires
        a == b,
    ensures
        sha256_hex_of(a) == sha256_hex_of(b),
{
}

/// A run that finds the lock holding the fingerprint of the very bytes it
/// just read has nothing to reconcile: a second run over an unchanged
/// configuration is a no-op.
pub proof fn lemma_recommit_is_clean(bytes: Seq<u8>)
    ensures
        !spec_needs_reconciliation(sha256_hex_of(bytes), Some(sha256_hex_of(bytes))),
{
}

/// With no lock committed yet, reconciliation is always performed,
/// whatever the configuration's fingerprint.
pub proof fn lemma_first_run_reconciles(current: Seq<u8>)
    ensures
        spec_needs_reconciliation(current, None),
{
}

} // verus!
