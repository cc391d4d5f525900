//! The layout of an encoded key configuration, as far as the client needs
//! it before handing the bytes to the engine: a key identifier, a KEM
//! identifier, the KEM's public key, then a length-prefixed list of
//! four-byte symmetric suites (a KDF identifier and an AEAD identifier).
use vstd::prelude::*;

verus! {

pub const KEM_X25519_SHA256: usize = 0x0020;

pub const KEM_P256_SHA256: usize = 0x0010;

pub const KEM_XWING: usize = 0x647a;

pub const KDF_HKDF_SHA256: usize = 1;

pub const AEAD_AES128_GCM: usize = 1;

pub const AEAD_CHACHA20_POLY1305: usize = 3;

/// The big-endian 16-bit number at `i`.
pub open spec fn be16(b: Seq<u8>, i: int) -> int {
    b[i] as int * 256 + b[i + 1] as int
}

/// The length of the public key of KEM `kem`, or zero for a KEM the engine
/// does not know.
pub open spec fn public_key_len(kem: int) -> int {
    if kem == KEM_X25519_SHA256 {
        32
    } else if kem == KEM_P256_SHA256 {
        65
    } else if kem == KEM_XWING {
        1216
    } else {
        0
    }
}

/// Where the length of the suite list stands.
pub open spec fn suites_at(b: Seq<u8>) -> int {
    3 + public_key_len(be16(b, 1))
}

/// The length in bytes of the suite list.
pub open spec fn suites_len(b: Seq<u8>) -> int {
    be16(b, suites_at(b))
}

/// The bytes are a key configuration with a known KEM and a non-empty list
/// of whole suites that ends the bytes.
pub open spec fn has_config_layout(b: Seq<u8>) -> bool {
    &&& b.len() >= 3
    &&& public_key_len(be16(b, 1)) > 0
    &&& b.len() >= suites_at(b) + 2
    &&& b.len() == suites_at(b) + 2 + suites_len(b)
    &&& suites_len(b) > 0
    &&& suites_len(b) % 4 == 0
}

/// Suite `j` of the list is HKDF-SHA256 with AES-128-GCM or
/// ChaCha20-Poly1305, the combinations the engine supports.
pub open spec fn suite_supported(b: Seq<u8>, j: int) -> bool {
    let o = suites_at(b) + 2 + 4 * j;
    &&& be16(b, o) == KDF_HKDF_SHA256
    &&& (be16(b, o + 2) == AEAD_AES128_GCM || be16(b, o + 2) == AEAD_CHACHA20_POLY1305)
}

/// The bytes are laid out as a key configuration whose suites are all
/// unsupported. The engine would keep no suite of such a configuration.
pub open spec fn lacks_supported_suite(b: Seq<u8>) -> bool {
    &&& has_config_layout(b)
    &&& forall|j: int| 0 <= j < suites_len(b) / 4 ==> !#[trigger] suite_supported(b, j)
}

fn read_be16(b: &[u8], i: usize) -> (r: usize)
    requires
        i + 1 < b@.len(),
    ensures
        r as int == be16(b@, i as int),
{
    (b[i] as usize) * 256 + (b[i + 1] as usize)
}

fn public_key_len_of(kem: usize) -> (r: usize)
    ensures
        r as int == public_key_len(kem as int),
{
    if kem == KEM_X25519_SHA256 {
        32
    } else if kem == KEM_P256_SHA256 {
        65
    } else if kem == KEM_XWING {
        1216
    } else {
        0
    }
}

/// Whether `b` is laid out as a key configuration that lists no supported
/// suite.
pub fn lists_no_supported_suite(b: &[u8]) -> (r: bool)
    ensures
        r == lacks_supported_suite(b@),
{
    let n = b.len();
    if n < 3 {
        return false;
    }
    let pk_len = public_key_len_of(read_be16(b, 1));
    if pk_len == 0 {
        return false;
    }
    let at: usize = 3 + pk_len;
    if n < at + 2 {
        return false;
    }
    let sym_len = read_be16(b, at);
    if n != at + 2 + sym_len || sym_len == 0 || sym_len % 4 != 0 {
        return false;
    }
    let count: usize = sym_len / 4;
    let mut j: usize = 0;
    while j < count
        invariant
            n == b@.len(),
            at as int == suites_at(b@),
            sym_len as int == suites_len(b@),
            has_config_layout(b@),
            count as int == suites_len(b@) / 4,
            j <= count,
            forall|k: int| 0 <= k < j ==> !#[trigger] suite_supported(b@, k),
        decreases count - j,
    {
        assert(4 * j + 4 <= sym_len) by (nonlinear_arith)
            requires
                j < count,
                count == sym_len / 4,
        ;
        let o: usize = at + 2 + 4 * j;
        if read_be16(b, o) == KDF_HKDF_SHA256 && (read_be16(b, o + 2) == AEAD_AES128_GCM
            || read_be16(b, o + 2) == AEAD_CHACHA20_POLY1305) {
            assert(suite_supported(b@, j as int));
            return false;
        }
        j = j + 1;
    }
    true
}

} // verus!
