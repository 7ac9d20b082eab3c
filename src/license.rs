//! License keys: the `CS-PRO-XXXX-XXXX-XXXX-XXXX` format, the checksum in
//! the last segment, and the decisions that turn a key and a cached
//! validation into a tier and a status.
use vstd::prelude::*;

use sha2::Digest;

use crate::render::{hex_char, is_hex_digit, lemma_hex_char};
use crate::text::push_char;
use crate::text::str_eq;

verus! {

#[derive(Debug, Clone, Copy, PartialEq, Eq, Structural)]
pub enum LicenseTier {
    Free,
    Pro,
    Lifetime,
}

#[derive(Debug, Clone, Copy, PartialEq, Eq, Structural)]
pub enum LicenseStatus {
    Valid,
    Expired,
    Invalid,
    GracePeriod,
}

/// What a cached validation of a well-formed key allows.
#[derive(Debug, Clone, Copy, PartialEq, Eq, Structural)]
pub enum CacheVerdict {
    /// Validated recently: valid.
    Fresh,
    /// Validated a while ago but within the offline grace period.
    Grace,
    /// Invalid or too old: fall back to the offline check.
    Recheck,
}

/// Checks license keys.
pub struct LicenseValidator {}

pub const REVALIDATION_SECS: i64 = 86400;

pub const OFFLINE_GRACE_SECS: i64 = 604800;

/// `CS-PRO-` then four groups of four hexadecimal digits joined by `-`.
pub open spec fn is_key_format(k: Seq<char>) -> bool {
    k.len() == 26 && k.subrange(0, 7) == "CS-PRO-"@ && forall|i: int|
        7 <= i < 26 ==> if (i - 7) % 5 == 4 {
            #[trigger] k[i] == '-'
        } else {
            is_hex_digit(k[i])
        }
}

/// What std's `str::trim` leaves of a string.
pub uninterp spec fn trimmed(s: Seq<char>) -> Seq<char>;

/// `t` is a contiguous run of `s`.
pub open spec fn is_slice_of(t: Seq<char>, s: Seq<char>) -> bool {
    exists|i: int, j: int| 0 <= i <= j <= s.len() && t == s.subrange(i, j)
}

/// A printable ASCII character other than the space: never whitespace.
pub open spec fn is_graphic_ascii(c: char) -> bool {
    0x21 <= (c as u32) <= 0x7e
}

/// Relies on `str::trim`: a slice of the string without its leading and
/// trailing (Unicode White_Space) whitespace, which depends on its
/// characters alone; a string that starts and ends with a non-whitespace
/// character comes back whole.
#[verifier::external_body]
fn trim_str(s: &str) -> (r: &str)
    ensures
        r@ == trimmed(s@),
        is_slice_of(r@, s@),
        s@.len() > 0 && is_graphic_ascii(s@[0]) && is_graphic_ascii(s@.last()) ==> r@ == s@,
{
    s.trim()
}

/// The SHA-256 digest of a byte string.
pub uninterp spec fn sha256_of(data: Seq<u8>) -> Seq<u8>;

/// Relies on `sha2::Sha256::digest`: the 32-byte digest of the input.
#[verifier::external_body]
fn sha256(data: &[u8]) -> (r: Vec<u8>)
    ensures
        r@ == sha256_of(data@),
        r@.len() == 32,
{
    sha2::Sha256::digest(data).to_vec()
}

/// Bytes in lowercase hexadecimal, two digits each.
pub open spec fn hex_text(b: Seq<u8>) -> Seq<char>
    decreases b.len(),
{
    if b.len() == 0 {
        Seq::empty()
    } else {
        hex_text(b.drop_last()) + seq![
            hex_char((b.last() / 16) as nat),
            hex_char((b.last() % 16) as nat),
        ]
    }
}

/// Relies on `hex::encode`: two lowercase hexadecimal digits per byte, in order.
#[verifier::external_body]
fn hex_encode(b: &[u8]) -> (r: String)
    ensures
        r@ == hex_text(b@),
{
    hex::encode(b)
}

pub open spec fn ascii_upper(c: char) -> char {
    if 'a' <= c && c <= 'z' {
        (((c as u32) - 32) as u8) as char
    } else {
        c
    }
}

/// The bytes whose digest the last segment checks: the first three groups
/// with their dashes.
pub open spec fn payload_bytes(k: Seq<char>) -> Seq<u8> {
    k.subrange(7, 21).map_values(|c: char| c as u32 as u8)
}

/// The key is well formed and its last group repeats, case aside, the first
/// four hexadecimal digits of `digest`.
pub open spec fn checksum_ok(k: Seq<char>, digest: Seq<u8>) -> bool {
    is_key_format(k) && digest.len() >= 2 && forall|i: int|
        0 <= i < 4 ==> ascii_upper(#[trigger] hex_text(digest)[i]) == ascii_upper(k[22 + i])
}

/// The features a Pro license unlocks.
pub open spec fn pro_feature_names() -> Seq<Seq<char>> {
    seq![
        "cost_tracking"@,
        "burn_rate"@,
        "cost_warnings"@,
        "model_suggestions"@,
        "historical_stats"@,
    ]
}

pub open spec fn cache_verdict_spec(valid: bool, age_secs: int) -> CacheVerdict {
    if valid && age_secs < REVALIDATION_SECS {
        CacheVerdict::Fresh
    } else if valid && age_secs < OFFLINE_GRACE_SECS {
        CacheVerdict::Grace
    } else {
        CacheVerdict::Recheck
    }
}

fn hex_digit_char(c: char) -> (r: bool)
    ensures
        r == is_hex_digit(c),
{
    ('0' <= c && c <= '9') || ('a' <= c && c <= 'f') || ('A' <= c && c <= 'F')
}

fn upper(c: char) -> (r: char)
    ensures
        r == ascii_upper(c),
{
    if 'a' <= c && c <= 'z' {
        (((c as u32) - 32) as u8) as char
    } else {
        c
    }
}

/// The features a Pro license unlocks.
pub fn pro_features() -> (r: Vec<String>)
    ensures
        r@.map_values(|s: String| s@) == pro_feature_names(),
{
    let r = vec![
        String::from_str("cost_tracking"),
        String::from_str("burn_rate"),
        String::from_str("cost_warnings"),
        String::from_str("model_suggestions"),
        String::from_str("historical_stats"),
    ];
    assert(r@.map_values(|s: String| s@) =~= pro_feature_names());
    r
}

/// What a cached validation allows, from its validity and its age.
pub fn cache_verdict(valid: bool, age_secs: i64) -> (r: CacheVerdict)
    ensures
        r == cache_verdict_spec(valid, age_secs as int),
{
    if valid && age_secs < REVALIDATION_SECS {
        CacheVerdict::Fresh
    } else if valid && age_secs < OFFLINE_GRACE_SECS {
        CacheVerdict::Grace
    } else {
        CacheVerdict::Recheck
    }
}

impl LicenseValidator {
    pub fn new() -> Self {
        LicenseValidator {  }
    }

    /// Whether `key`, as given, has the key format.
    pub fn check_format(key: &str) -> (r: bool)
        ensures
            r == is_key_format(key@),
    {
        let n = key.unicode_len();
        if n != 26 {
            return false;
        }
        if !str_eq(key.substring_char(0, 7), "CS-PRO-") {
            return false;
        }
        let mut i: usize = 7;
        while i < 26
            invariant
                n == 26 == key@.len(),
                7 <= i <= 26,
                forall|j: int|
                    7 <= j < i ==> if (j - 7) % 5 == 4 {
                        #[trigger] key@[j] == '-'
                    } else {
                        is_hex_digit(key@[j])
                    },
            decreases 26 - i,
        {
            let c = key.get_char(i);
            if (i - 7) % 5 == 4 {
                if c != '-' {
                    return false;
                }
            } else if !hex_digit_char(c) {
                return false;
            }
            i = i + 1;
        }
        true
    }

    /// Whether `key`, once trimmed of surrounding whitespace, has the key format.
    pub fn validate_format(key: &str) -> (r: bool)
        ensures
            r == is_key_format(trimmed(key@)),
    {
        Self::check_format(trim_str(key))
    }

    /// Whether well-formed `key` carries the checksum of `digest`, the
    /// SHA-256 digest of its payload.
    pub fn checksum_matches(key: &str, digest: &[u8]) -> (r: bool)
        ensures
            r == checksum_ok(key@, digest@),
    {
        if !Self::check_format(key) || digest.len() < 2 {
            return false;
        }
        let hex = hex_encode(digest);
        proof {
            assert(digest@ =~= digest@.subrange(0, 2) + digest@.subrange(2, digest@.len() as int));
            lemma_hex_text_digits(digest@);
        }
        let mut i: usize = 0;
        while i < 4
            invariant
                checksum_ok(key@, digest@) <==> forall|j: int|
                    i <= j < 4 ==> ascii_upper(#[trigger] hex_text(digest@)[j]) == ascii_upper(
                        key@[22 + j],
                    ),
                is_key_format(key@),
                hex@ == hex_text(digest@),
                hex@.len() >= 4,
                i <= 4,
            decreases 4 - i,
        {
            if upper(hex.as_str().get_char(i)) != upper(key.get_char(22 + i)) {
                return false;
            }
            i = i + 1;
        }
        true
    }

    /// Whether the trimmed `key` is well formed and its last group is the
    /// checksum of the first three.
    pub fn verify_checksum(key: &str) -> (r: bool)
        ensures
            r ==> is_key_format(trimmed(key@)),
            is_key_format(trimmed(key@)) ==> r == checksum_ok(
                trimmed(key@),
                sha256_of(payload_bytes(trimmed(key@))),
            ),
    {
        let k = trim_str(key);
        if !Self::check_format(k) {
            return false;
        }
        let payload = char_bytes(k, 7, 21);
        let digest = sha256(payload.as_slice());
        Self::checksum_matches(k, digest.as_slice())
    }

    /// The tier and status a key earns without a server: Pro and valid when
    /// the key is well formed and carries its checksum, else free and invalid.
    pub fn offline_verdict(key: &str) -> (r: (LicenseTier, LicenseStatus))
        ensures
            r == offline_spec(key@),
    {
        if Self::validate_format(key) && Self::verify_checksum(key) {
            (LicenseTier::Pro, LicenseStatus::Valid)
        } else {
            (LicenseTier::Free, LicenseStatus::Invalid)
        }
    }
}

/// Relies on `std::time::SystemTime::now`: nanoseconds since the Unix epoch
/// (zero for a clock set before it). Nothing is promised of the value.
#[verifier::external_body]
fn clock_nanos() -> (r: u128) {
    std::time::SystemTime::now().duration_since(std::time::UNIX_EPOCH).unwrap_or_default().as_nanos()
}

/// Each character of `hex_text(b)` is a hexadecimal digit that uppercasing
/// keeps a hexadecimal digit, and uppercasing it twice changes nothing more.
proof fn lemma_hex_text_digits(b: Seq<u8>)
    ensures
        hex_text(b).len() == 2 * b.len(),
        forall|i: int|
            0 <= i < hex_text(b).len() ==> is_hex_digit(#[trigger] hex_text(b)[i])
                && is_hex_digit(ascii_upper(hex_text(b)[i])) && ascii_upper(
                ascii_upper(hex_text(b)[i]),
            ) == ascii_upper(hex_text(b)[i]),
    decreases b.len(),
{
    if b.len() > 0 {
        lemma_hex_text_digits(b.drop_last());
        lemma_hex_char((b.last() / 16) as nat);
        lemma_hex_char((b.last() % 16) as nat);
    }
}

/// The first `n` digits of `hex_text(d)`, uppercased.
pub open spec fn upper_hex_prefix(d: Seq<u8>, n: int) -> Seq<char> {
    hex_text(d).subrange(0, n).map_values(|c: char| ascii_upper(c))
}

/// `n` bytes of `seed`, least significant first.
pub open spec fn le_bytes(seed: nat, n: nat) -> Seq<u8>
    decreases n,
{
    if n == 0 {
        Seq::empty()
    } else {
        seq![(seed % 256) as u8] + le_bytes(seed / 256, (n - 1) as nat)
    }
}

/// The first three groups of the key made from `seed`: the first twelve
/// uppercase hexadecimal digits of the digest of its sixteen little-endian
/// bytes, in groups of four joined by `-`.
pub open spec fn key_groups(seed: nat) -> Seq<char> {
    let g = upper_hex_prefix(sha256_of(le_bytes(seed, 16)), 12);
    g.subrange(0, 4) + seq!['-'] + g.subrange(4, 8) + seq!['-'] + g.subrange(8, 12)
}

/// The key made from `seed`: `CS-PRO-`, its three groups, then the first
/// four uppercase hexadecimal digits of the digest of those groups.
pub open spec fn key_for_seed(seed: nat) -> Seq<char> {
    let p = key_groups(seed);
    "CS-PRO-"@ + p + seq!['-'] + upper_hex_prefix(
        sha256_of(p.map_values(|c: char| c as u32 as u8)),
        4,
    )
}

/// The bytes of characters `from..to` of `s`, each character cast to a byte.
fn char_bytes(s: &str, from: usize, to: usize) -> (r: Vec<u8>)
    requires
        from <= to <= s@.len(),
    ensures
        r@ == s@.subrange(from as int, to as int).map_values(|c: char| c as u32 as u8),
{
    let mut r: Vec<u8> = Vec::new();
    let mut i: usize = from;
    while i < to
        invariant
            from <= i <= to <= s@.len(),
            r@ == s@.subrange(from as int, i as int).map_values(|c: char| c as u32 as u8),
        decreases to - i,
    {
        let c = s.get_char(i);
        r.push(c as u32 as u8);
        i = i + 1;
        assert(r@ =~= s@.subrange(from as int, i as int).map_values(|c: char| c as u32 as u8));
    }
    r
}

/// The first `n` digits of `hex_text(digest)`, uppercased.
fn upper_hex(digest: &[u8], n: usize) -> (r: Vec<char>)
    requires
        n <= 2 * digest@.len(),
    ensures
        r@ == upper_hex_prefix(digest@, n as int),
{
    let hex = hex_encode(digest);
    proof {
        lemma_hex_text_digits(digest@);
    }
    let mut r: Vec<char> = Vec::new();
    let mut i: usize = 0;
    while i < n
        invariant
            hex@ == hex_text(digest@),
            hex@.len() == 2 * digest@.len(),
            n <= hex@.len(),
            i <= n,
            r@ == upper_hex_prefix(digest@, i as int),
        decreases n - i,
    {
        r.push(upper(hex.as_str().get_char(i)));
        i = i + 1;
        assert(r@ =~= upper_hex_prefix(digest@, i as int));
    }
    r
}

/// The sixteen bytes of `seed`, least significant first.
fn seed_bytes(seed: u128) -> (r: Vec<u8>)
    ensures
        r@ == le_bytes(seed as nat, 16),
{
    let mut rest = seed;
    let mut r: Vec<u8> = Vec::new();
    let mut k: usize = 0;
    while k < 16
        invariant
            k <= 16,
            r@ + le_bytes(rest as nat, (16 - k) as nat) == le_bytes(seed as nat, 16),
        decreases 16 - k,
    {
        let ghost before = r@;
        r.push((rest % 256) as u8);
        assert(r@ + le_bytes((rest / 256) as nat, (16 - k - 1) as nat) =~= before + le_bytes(
            rest as nat,
            (16 - k) as nat,
        ));
        rest = rest / 256;
        k = k + 1;
    }
    assert(r@ + Seq::<u8>::empty() =~= r@);
    r
}

fn push_chars(s: &mut String, v: &Vec<char>, from: usize, to: usize)
    requires
        from <= to <= v@.len(),
    ensures
        final(s)@ == old(s)@ + v@.subrange(from as int, to as int),
{
    let mut i: usize = from;
    while i < to
        invariant
            from <= i <= to <= v@.len(),
            s@ == old(s)@ + v@.subrange(from as int, i as int),
        decreases to - i,
    {
        push_char(s, v[i]);
        i = i + 1;
        assert(s@ =~= old(s)@ + v@.subrange(from as int, i as int));
    }
}

/// A key made from a seed whose digests are long enough has the key format
/// and carries its own checksum.
pub proof fn lemma_key_for_seed(seed: nat)
    requires
        sha256_of(le_bytes(seed, 16)).len() >= 6,
        sha256_of(key_groups(seed).map_values(|c: char| c as u32 as u8)).len() >= 2,
    ensures
        is_key_format(key_for_seed(seed)),
        checksum_ok(key_for_seed(seed), sha256_of(payload_bytes(key_for_seed(seed)))),
{
    let d1 = sha256_of(le_bytes(seed, 16));
    let p = key_groups(seed);
    let d2 = sha256_of(p.map_values(|c: char| c as u32 as u8));
    let k = key_for_seed(seed);
    lemma_hex_text_digits(d1);
    lemma_hex_text_digits(d2);
    reveal_strlit("CS-PRO-");
    let g = upper_hex_prefix(d1, 12);
    let c = upper_hex_prefix(d2, 4);
    assert(p.len() == 14);
    assert(k.len() == 26);
    assert(k.subrange(0, 7) =~= "CS-PRO-"@);
    assert(k.subrange(7, 21) =~= p);
    assert(payload_bytes(k) =~= p.map_values(|c: char| c as u32 as u8));
    assert forall|j: int| 7 <= j < 26 implies if (j - 7) % 5 == 4 {
        #[trigger] k[j] == '-'
    } else {
        is_hex_digit(k[j])
    } by {
        if j < 11 {
            assert(k[j] == g[j - 7]);
        } else if j == 11 || j == 16 || j == 21 {
        } else if j < 16 {
            assert(k[j] == g[j - 8]);
        } else if j < 21 {
            assert(k[j] == g[j - 9]);
        } else {
            assert(k[j] == c[j - 22]);
        }
    }
    assert forall|i: int| 0 <= i < 4 implies ascii_upper(#[trigger] hex_text(d2)[i]) == ascii_upper(
        k[22 + i],
    ) by {
        assert(k[22 + i] == c[i]);
    }
}

/// The key made from `seed`: three groups from the digest of the seed's
/// bytes, then their checksum.
pub fn key_from_seed(seed: u128) -> (r: String)
    ensures
        r@ == key_for_seed(seed as nat),
        is_key_format(r@),
        checksum_ok(r@, sha256_of(payload_bytes(r@))),
{
    let bytes = seed_bytes(seed);
    let first = sha256(bytes.as_slice());
    let g = upper_hex(first.as_slice(), 12);
    proof {
        lemma_hex_text_digits(first@);
    }
    assert(g@.len() == 12);
    let mut payload = String::new();
    push_chars(&mut payload, &g, 0, 4);
    push_char(&mut payload, '-');
    push_chars(&mut payload, &g, 4, 8);
    push_char(&mut payload, '-');
    push_chars(&mut payload, &g, 8, 12);
    assert(payload@ =~= key_groups(seed as nat));
    let pbytes = char_bytes(payload.as_str(), 0, 14);
    assert(payload@.subrange(0, 14) =~= payload@);
    let second = sha256(pbytes.as_slice());
    let check = upper_hex(second.as_slice(), 4);
    proof {
        lemma_hex_text_digits(second@);
    }
    assert(check@.len() == 4);
    let mut key = String::from_str("CS-PRO-");
    key.append(payload.as_str());
    push_char(&mut key, '-');
    push_chars(&mut key, &check, 0, 4);
    assert(key@ =~= key_for_seed(seed as nat));
    proof {
        lemma_key_for_seed(seed as nat);
    }
    key
}

/// A new license key, made from the clock: well formed and carrying its
/// checksum.
pub fn generate_key() -> (r: String)
    ensures
        is_key_format(r@),
        checksum_ok(r@, sha256_of(payload_bytes(r@))),
        exists|seed: nat| r@ == key_for_seed(seed),
{
    key_from_seed(clock_nanos())
}

/// What the server-less check makes of a key: Pro and valid when it is well
/// formed and carries its checksum, else free and invalid.
pub open spec fn offline_spec(key: Seq<char>) -> (LicenseTier, LicenseStatus) {
    if is_key_format(trimmed(key)) && checksum_ok(
        trimmed(key),
        sha256_of(payload_bytes(trimmed(key))),
    ) {
        (LicenseTier::Pro, LicenseStatus::Valid)
    } else {
        (LicenseTier::Free, LicenseStatus::Invalid)
    }
}

/// A cached validation: its outcome, the tier it granted, and its age.
#[derive(Debug, Clone, Copy, PartialEq, Eq, Structural)]
pub struct CachedValidation {
    pub valid: bool,
    pub tier: LicenseTier,
    pub age_secs: i64,
}

/// The tier and status of a key: invalid when malformed; else, with a
/// fresh valid cache, the cached tier and valid; with a valid cache inside
/// the grace period, the cached tier in grace; else the offline check.
pub open spec fn validation_spec(key: Seq<char>, cache: Option<CachedValidation>) -> (
    LicenseTier,
    LicenseStatus,
) {
    if !is_key_format(trimmed(key)) {
        (LicenseTier::Free, LicenseStatus::Invalid)
    } else {
        match cache {
            Some(c) => match cache_verdict_spec(c.valid, c.age_secs as int) {
                CacheVerdict::Fresh => (c.tier, LicenseStatus::Valid),
                CacheVerdict::Grace => (c.tier, LicenseStatus::GracePeriod),
                CacheVerdict::Recheck => offline_spec(key),
            },
            None => offline_spec(key),
        }
    }
}

/// Validates `key` against an optional cached validation, as
/// [`validation_spec`] says.
pub fn validation_verdict(key: &str, cache: Option<CachedValidation>) -> (r: (
    LicenseTier,
    LicenseStatus,
))
    ensures
        r == validation_spec(key@, cache),
{
    if !LicenseValidator::validate_format(key) {
        return (LicenseTier::Free, LicenseStatus::Invalid);
    }
    match cache {
        Some(c) => match cache_verdict(c.valid, c.age_secs) {
            CacheVerdict::Fresh => (c.tier, LicenseStatus::Valid),
            CacheVerdict::Grace => (c.tier, LicenseStatus::GracePeriod),
            CacheVerdict::Recheck => LicenseValidator::offline_verdict(key),
        },
        None => LicenseValidator::offline_verdict(key),
    }
}

} // verus!
