use vstd::prelude::*;

use crate::db::util::decimal;
use crate::error::AppError;

verus! {

/// A password hasher, opaque to the library.
#[verifier::external_type_specification]
#[verifier::external_body]
pub struct ExHasher(libreauth::pass::Hasher);

/// The hash functions libreauth offers.
#[verifier::external_type_specification]
pub struct ExAlgorithm(libreauth::pass::Algorithm);

/// The hash function passwords are hashed with.
pub const PWD_ALGORITHM: libreauth::pass::Algorithm = libreauth::pass::Algorithm::Argon2;

/// The name a PHC hash gives its hash function.
pub open spec fn phc_id(a: libreauth::pass::Algorithm) -> Seq<char> {
    match a {
        libreauth::pass::Algorithm::Argon2 => seq!['a', 'r', 'g', 'o', 'n', '2'],
        libreauth::pass::Algorithm::Pbkdf2 => seq!['p', 'b', 'k', 'd', 'f', '2'],
    }
}

/// The parameter `p` (`key=value`) stands in the PHC text `t`, between
/// separators.
pub open spec fn has_param(t: Seq<char>, p: Seq<char>) -> bool {
    exists|i: int|
        0 < i && i + p.len() <= t.len() && #[trigger] t.subrange(i, i + p.len()) == p && (t[i - 1] == '$'
            || t[i - 1] == ',') && (i + p.len() == t.len() || t[i + p.len()] == ',' || t[i + p.len()]
            == '$')
}

/// What every hash made under `algorithm` and `version` looks like: PHC text
/// naming the hash function, with the parameter `ver` set to `version + 1`
/// (libreauth adds its own internal version).
pub open spec fn phc_hash_shape(t: Seq<char>, algorithm: libreauth::pass::Algorithm, version: nat) -> bool {
    &&& t.len() >= phc_id(algorithm).len() + 2
    &&& t.take(phc_id(algorithm).len() + 2int) == seq!['$'] + phc_id(algorithm) + seq!['$']
    &&& has_param(t, seq!['v', 'e', 'r', '='] + decimal(version + 1))
}

/// The version of the way passwords are hashed; raise it whenever the
/// hasher's settings change, so that stored hashes get renewed.
pub const PWD_SCHEME_VERSION: usize = 1;

pub assume_specification[ libreauth::pass::Hasher::needs_update ](
    hasher: &libreauth::pass::Hasher,
    current_version: Option<usize>,
) -> bool
    requires
        current_version is Some ==> current_version->0 < usize::MAX,
;

/// Relies on libreauth's `HashBuilder` and `Hasher::hash`: a hash of
/// `password` under `algorithm` (default parameters, a fresh random salt)
/// tagged with `version`, in PHC format: `$<id>$` then the parameters, `ver`
/// among them.  A password outside the accepted lengths is an error.
#[verifier::external_body]
fn phc_hash(algorithm: libreauth::pass::Algorithm, version: usize, password: &str) -> (r: Result<String, libreauth::pass::Error>)
    requires
        version < usize::MAX,
    ensures
        r is Ok ==> phc_hash_shape(r->Ok_0@, algorithm, version as nat),
{
    match libreauth::pass::HashBuilder::new().algorithm(algorithm).version(version).finalize() {
        Ok(hasher) => hasher.hash(password),
        Err(e) => Err(e),
    }
}

/// Whether libreauth's `Hasher::is_valid` accepts `password` against the
/// stored hash `stored`: it hashes the password again with the stored salt
/// and parameters, so the answer depends on the two texts alone.
pub uninterp spec fn phc_accepts(stored: Seq<char>, password: Seq<char>) -> bool;

/// Relies on libreauth's `HashBuilder::from_phc` and `Hasher::is_valid`: the
/// hasher described by the stored hash, and whether `password` matches it.
/// Argon2 refuses (and libreauth then panics) when the memory is below 8 KiB
/// per lane: the stored hash must ask for enough memory for its lanes.
#[verifier::external_body]
fn parse_and_check(stored: &str, password: &str) -> (r: Result<(libreauth::pass::Hasher, bool), libreauth::pass::Error>)
    requires
        lanes_fit_memory(stored@),
    ensures
        r is Ok ==> r->Ok_0.1 == phc_accepts(stored@, password@),
{
    match libreauth::pass::HashBuilder::from_phc(stored) {
        Ok(hasher) => {
            let matched = hasher.is_valid(password);
            Ok((hasher, matched))
        },
        Err(e) => Err(e),
    }
}

/// A character that a PHC parameter value may hold.
pub open spec fn is_value_char(c: char) -> bool {
    ('a' <= c && c <= 'z') || ('A' <= c && c <= 'Z') || ('0' <= c && c <= '9') || c == '+' || c == '-'
        || c == '.' || c == '/'
}

/// The text `lanes=` starts at `i`.
pub open spec fn lanes_key_at(t: Seq<char>, i: int) -> bool {
    &&& 0 <= i && i + 6 <= t.len()
    &&& t[i] == 'l' && t[i + 1] == 'a' && t[i + 2] == 'n' && t[i + 3] == 'e' && t[i + 4] == 's'
    &&& t[i + 5] == '='
}

/// The text `mem=` starts at `i`.
pub open spec fn mem_key_at(t: Seq<char>, i: int) -> bool {
    &&& 0 <= i && i + 4 <= t.len()
    &&& t[i] == 'm' && t[i + 1] == 'e' && t[i + 2] == 'm' && t[i + 3] == '='
}

pub open spec fn is_digit(c: char) -> bool {
    '0' <= c && c <= '9'
}

pub open spec fn digit_value(c: char) -> nat {
    (c as int - '0' as int) as nat
}

/// A parameter value may end at `e`: the text ends there or a character
/// that no value holds stands there.
pub open spec fn value_ends(t: Seq<char>, e: int) -> bool {
    e == t.len() || (0 <= e < t.len() && !is_value_char(t[e]))
}

/// The number written at `j` as a whole parameter value of one to three
/// decimal digits, if there is one.
pub open spec fn number_at(t: Seq<char>, j: int) -> Option<nat> {
    if 0 <= j && j + 1 <= t.len() && is_digit(t[j]) && value_ends(t, j + 1) {
        Some(digit_value(t[j]))
    } else if 0 <= j && j + 2 <= t.len() && is_digit(t[j]) && is_digit(t[j + 1]) && value_ends(t, j + 2) {
        Some(10 * digit_value(t[j]) + digit_value(t[j + 1]))
    } else if 0 <= j && j + 3 <= t.len() && is_digit(t[j]) && is_digit(t[j + 1]) && is_digit(t[j + 2])
        && value_ends(t, j + 3) {
        Some(100 * digit_value(t[j]) + 10 * digit_value(t[j + 1]) + digit_value(t[j + 2]))
    } else {
        None
    }
}

pub open spec fn pow2(n: nat) -> nat
    decreases n,
{
    if n == 0 {
        1
    } else {
        2 * pow2((n - 1) as nat)
    }
}

/// Argon2 needs at least 8 KiB of memory per lane; libreauth asks for
/// `2^mem` KiB.
pub open spec fn memory_fits(lanes: nat, mem: nat) -> bool {
    8 * lanes <= pow2(mem)
}

/// libreauth takes the lanes from a `lanes=` parameter (4 when there is
/// none) and the memory from a `mem=` parameter (12 when there is none).
/// This holds when every value either could take is a number and every pair
/// of them fits, so the memory always covers the lanes.
pub open spec fn lanes_fit_memory(t: Seq<char>) -> bool {
    &&& forall|i: int| #[trigger] lanes_key_at(t, i) ==> number_at(t, i + 6) is Some && memory_fits(
        number_at(t, i + 6)->0,
        12,
    )
    &&& forall|j: int| #[trigger] mem_key_at(t, j) ==> number_at(t, j + 4) is Some && memory_fits(
        4,
        number_at(t, j + 4)->0,
    )
    &&& forall|i: int, j: int| #[trigger] lanes_key_at(t, i) && #[trigger] mem_key_at(t, j) ==> memory_fits(
        number_at(t, i + 6)->0,
        number_at(t, j + 4)->0,
    )
}

fn value_char(c: char) -> (r: bool)
    ensures
        r == is_value_char(c),
{
    ('a' <= c && c <= 'z') || ('A' <= c && c <= 'Z') || ('0' <= c && c <= '9') || c == '+' || c == '-'
        || c == '.' || c == '/'
}

fn chars_of(s: &str) -> (r: Vec<char>)
    ensures
        r@ == s@,
{
    let n = s.unicode_len();
    let mut out: Vec<char> = Vec::new();
    let mut i: usize = 0;
    while i < n
        invariant
            0 <= i <= n,
            n == s@.len(),
            out@ == s@.take(i as int),
        decreases n - i,
    {
        out.push(s.get_char(i));
        proof {
            assert(s@.take(i as int + 1) =~= s@.take(i as int).push(s@[i as int]));
        }
        i += 1;
    }
    proof {
        assert(s@.take(n as int) =~= s@);
    }
    out
}

fn digit_at(t: &Vec<char>, j: usize) -> (r: Option<u64>)
    ensures
        r is Some <==> (j < t@.len() && is_digit(t@[j as int])),
        r is Some ==> r->0 == digit_value(t@[j as int]) && r->0 <= 9,
{
    if j < t.len() && '0' <= t[j] && t[j] <= '9' {
        Some((t[j] as u32 - '0' as u32) as u64)
    } else {
        None
    }
}

fn ends_at(t: &Vec<char>, e: usize) -> (r: bool)
    ensures
        r == value_ends(t@, e as int),
{
    e == t.len() || (e < t.len() && !value_char(t[e]))
}

fn number(t: &Vec<char>, j: usize) -> (r: Option<u64>)
    ensures
        r is Some <==> number_at(t@, j as int) is Some,
        r is Some ==> r->0 == number_at(t@, j as int)->0 && r->0 <= 999,
{
    let len = t.len();
    let a = match digit_at(t, j) {
        Some(a) => a,
        None => return None,
    };
    if ends_at(t, j + 1) {
        return Some(a);
    }
    let b = match digit_at(t, j + 1) {
        Some(b) => b,
        None => return None,
    };
    if ends_at(t, j + 2) {
        return Some(10 * a + b);
    }
    let c = match digit_at(t, j + 2) {
        Some(c) => c,
        None => return None,
    };
    if ends_at(t, j + 3) {
        return Some(100 * a + 10 * b + c);
    }
    None
}

proof fn lemma_pow2_grows(a: nat, b: nat)
    requires
        a <= b,
    ensures
        pow2(a) <= pow2(b),
    decreases b,
{
    if a < b {
        lemma_pow2_grows(a, (b - 1) as nat);
    }
}

proof fn lemma_pow2_13()
    ensures
        pow2(13) == 8192,
{
    reveal_with_fuel(pow2, 14);
}

fn fits(lanes: u64, mem: u64) -> (r: bool)
    requires
        lanes <= 999,
    ensures
        r == memory_fits(lanes as nat, mem as nat),
{
    if mem >= 13 {
        proof {
            lemma_pow2_grows(13, mem as nat);
            lemma_pow2_13();
        }
        return true;
    }
    let mut p: u64 = 1;
    let mut k: u64 = 0;
    while k < mem
        invariant
            k <= mem < 13,
            p == pow2(k as nat),
            p <= 8192,
        decreases mem - k,
    {
        proof {
            lemma_pow2_grows(k as nat + 1, 13);
            lemma_pow2_13();
        }
        p = 2 * p;
        k += 1;
    }
    8 * lanes <= p
}

fn lanes_key(t: &Vec<char>, i: usize) -> (r: bool)
    ensures
        r == lanes_key_at(t@, i as int),
{
    i < t.len() && t.len() - i >= 6 && t[i] == 'l' && t[i + 1] == 'a' && t[i + 2] == 'n' && t[i + 3] == 'e'
        && t[i + 4] == 's' && t[i + 5] == '='
}

fn mem_key(t: &Vec<char>, i: usize) -> (r: bool)
    ensures
        r == mem_key_at(t@, i as int),
{
    i < t.len() && t.len() - i >= 4 && t[i] == 'm' && t[i + 1] == 'e' && t[i + 2] == 'm' && t[i + 3] == '='
}

/// Whether the memory a stored hash asks for covers its lanes, so that
/// checking a password against it is safe.
pub fn lanes_fit(stored: &str) -> (r: bool)
    ensures
        r == lanes_fit_memory(stored@),
{
    let t = chars_of(stored);
    let n = t.len();
    let mut i: usize = 0;
    while i < n
        invariant
            0 <= i <= n,
            n == t@.len(),
            t@ == stored@,
            forall|k: int| 0 <= k < i && #[trigger] lanes_key_at(t@, k) ==> number_at(t@, k + 6) is Some
                && memory_fits(number_at(t@, k + 6)->0, 12),
            forall|k: int| 0 <= k < i && #[trigger] mem_key_at(t@, k) ==> number_at(t@, k + 4) is Some
                && memory_fits(4, number_at(t@, k + 4)->0),
            forall|a: int, b: int|
                0 <= a < i && #[trigger] lanes_key_at(t@, a) && #[trigger] mem_key_at(t@, b) ==> memory_fits(
                    number_at(t@, a + 6)->0,
                    number_at(t@, b + 4)->0,
                ),
        decreases n - i,
    {
        if lanes_key(&t, i) {
            let lanes = match number(&t, i + 6) {
                Some(l) => l,
                None => return false,
            };
            if !fits(lanes, 12) {
                return false;
            }
            let mut j: usize = 0;
            while j < n
                invariant
                    0 <= j <= n,
                    n == t@.len(),
                    t@ == stored@,
                    i < n,
                    lanes_key_at(t@, i as int),
                    number_at(t@, i as int + 6) == Some(lanes as nat),
                    lanes <= 999,
                    forall|b: int| 0 <= b < j && #[trigger] mem_key_at(t@, b) ==> memory_fits(
                        lanes as nat,
                        number_at(t@, b + 4)->0,
                    ),
                decreases n - j,
            {
                if mem_key(&t, j) {
                    let mem = match number(&t, j + 4) {
                        Some(m) => m,
                        None => {
                            assert(mem_key_at(stored@, j as int));
                            return false;
                        },
                    };
                    if !fits(lanes, mem) {
                        assert(lanes_key_at(stored@, i as int) && mem_key_at(stored@, j as int));
                        assert(!memory_fits(number_at(stored@, i as int + 6)->0, number_at(stored@, j as int + 4)->0));
                        return false;
                    }
                }
                j += 1;
            }
            proof {
                assert forall|b: int| #[trigger] mem_key_at(t@, b) implies memory_fits(
                    lanes as nat,
                    number_at(t@, b + 4)->0,
                ) by {
                    assert(b < n);
                }
            }
        }
        if mem_key(&t, i) {
            let mem = match number(&t, i + 4) {
                Some(m) => m,
                None => return false,
            };
            if !fits(4, mem) {
                return false;
            }
        }
        i += 1;
    }
    proof {
        assert forall|k: int| #[trigger] lanes_key_at(t@, k) implies number_at(t@, k + 6) is Some
            && memory_fits(number_at(t@, k + 6)->0, 12) by {
            assert(k < n);
        }
        assert forall|k: int| #[trigger] mem_key_at(t@, k) implies number_at(t@, k + 4) is Some
            && memory_fits(4, number_at(t@, k + 4)->0) by {
            assert(k < n);
        }
        assert forall|a: int, b: int| #[trigger] lanes_key_at(t@, a) && #[trigger] mem_key_at(t@, b) implies memory_fits(
            number_at(t@, a + 6)->0,
            number_at(t@, b + 4)->0,
        ) by {
            assert(a < n);
        }
    }
    true
}

/// The outcome of checking a password against its stored hash.
#[derive(Debug)]
pub struct CheckedPass {
    pub is_valid: bool,
    pub needs_update: bool,
}

impl CheckedPass {
    pub fn new(is_valid: bool, needs_update: bool) -> (r: Self)
        ensures
            r.is_valid == is_valid,
            r.needs_update == needs_update,
    {
        CheckedPass { is_valid, needs_update }
    }

    /// The outcome for a password that matched or not, against a hash made
    /// under an outdated scheme or not: only a matching password is ever
    /// rehashed.
    pub fn from_check(matched: bool, outdated: bool) -> (r: Self)
        ensures
            r.is_valid == matched,
            r.needs_update == (matched && outdated),
    {
        CheckedPass::new(matched, matched && outdated)
    }
}

/// Checks `password` against the stored hash `stored` (PHC format).  A
/// stored hash whose memory does not cover its lanes, or whose lanes or
/// memory is not a plain number, is refused.
pub fn check_password(stored: &str, password: &str) -> (r: Result<CheckedPass, AppError>)
    ensures
        !lanes_fit_memory(stored@) ==> r matches Err(AppError::UnsupportedPasswordHash(_)),
        r is Err ==> (r->Err_0 is PasswordError || r->Err_0 is UnsupportedPasswordHash),
        r is Ok ==> r->Ok_0.is_valid == phc_accepts(stored@, password@),
        r is Ok ==> (r->Ok_0.needs_update ==> r->Ok_0.is_valid),
{
    if !lanes_fit(stored) {
        return Err(AppError::UnsupportedPasswordHash(String::from_str("too many lanes")));
    }
    match parse_and_check(stored, password) {
        Ok((hasher, matched)) => {
            let outdated = if matched {
                hasher.needs_update(Some(PWD_SCHEME_VERSION))
            } else {
                false
            };
            Ok(CheckedPass::from_check(matched, outdated))
        },
        Err(source) => Err(AppError::PasswordError { source }),
    }
}

/// Hashes `password` under the current scheme: Argon2 PHC text whose `ver`
/// parameter carries the scheme version.  The salt is random, so two hashes
/// of one password differ.
pub fn hash_password(password: &str) -> (r: Result<String, AppError>)
    ensures
        r is Err ==> r->Err_0 is PasswordError,
        r is Ok ==> phc_hash_shape(r->Ok_0@, PWD_ALGORITHM, PWD_SCHEME_VERSION as nat),
{
    match phc_hash(PWD_ALGORITHM, PWD_SCHEME_VERSION, password) {
        Ok(hash) => Ok(hash),
        Err(source) => Err(AppError::PasswordError { source }),
    }
}

} // verus!
