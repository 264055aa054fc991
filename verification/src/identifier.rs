//! Classification of an incoming identifier string.
//!
//! An opaque string names a person in one of four ways: a bare local
//! username, a numeric local user id, an `account@domain` handle, or an
//! `http(s)://` actor URL. Classification is total and deterministic, with
//! a fixed precedence: numeric first, then the account-handle pattern, then
//! the URL pattern, and a bare username as the fallback.

use vstd::prelude::*;
use vstd::string::StrSliceExecFns;

verus! {

/// The four ways a string can name a person.
/// Username: a local user name, e.g. `seungjin`, `seungjin.kim`.
/// UserId: a local numeric id, e.g. `42`.
/// Account: a handle, e.g. `seungjin@prefer.social`.
/// ActorUrl: a profile URL, e.g. `https://prefer.social/users/seungjin`.
#[derive(Clone, Debug, PartialOrd, PartialEq, Eq, Ord)]
pub enum Identification {
    Username(String),
    UserId(u64),
    Account(String),
    ActorUrl(String),
}

pub open spec fn is_digit(c: char) -> bool {
    '0' <= c && c <= '9'
}

pub open spec fn is_lower(c: char) -> bool {
    'a' <= c && c <= 'z'
}

pub open spec fn is_upper(c: char) -> bool {
    'A' <= c && c <= 'Z'
}

pub open spec fn is_alnum(c: char) -> bool {
    is_digit(c) || is_lower(c) || is_upper(c)
}

/// A string consisting only of decimal digits, at least one.
pub open spec fn is_numeric(s: Seq<char>) -> bool {
    s.len() > 0 && forall|i: int| 0 <= i < s.len() ==> is_digit(#[trigger] s[i])
}

pub open spec fn char_digit(c: char) -> int {
    c as int - '0' as int
}

/// The value of a digit string read in base ten.
pub open spec fn digits_val(s: Seq<char>) -> int
    decreases s.len(),
{
    if s.len() == 0 {
        0
    } else {
        digits_val(s.drop_last()) * 10 + char_digit(s.last())
    }
}

/// A numeric string that denotes a local user id, i.e. whose value fits
/// the id type.
pub open spec fn is_userid_str(s: Seq<char>) -> bool {
    is_numeric(s) && digits_val(s) <= u64::MAX
}

proof fn lemma_digits_val_step(s: Seq<char>, i: int)
    requires
        0 <= i < s.len(),
    ensures
        digits_val(s.subrange(0, i + 1)) == digits_val(s.subrange(0, i)) * 10 + char_digit(s[i]),
{
    let t = s.subrange(0, i + 1);
    assert(t.drop_last() =~= s.subrange(0, i));
    assert(t.last() == s[i]);
}

proof fn lemma_digits_val_nonneg(s: Seq<char>)
    requires
        forall|i: int| 0 <= i < s.len() ==> is_digit(#[trigger] s[i]),
    ensures
        digits_val(s) >= 0,
    decreases s.len(),
{
    if s.len() > 0 {
        assert(forall|i: int|
            0 <= i < s.drop_last().len() ==> is_digit(#[trigger] s.drop_last()[i]));
        lemma_digits_val_nonneg(s.drop_last());
    }
}

proof fn lemma_digits_val_monotone(s: Seq<char>, i: int, j: int)
    requires
        0 <= i <= j <= s.len(),
        forall|k: int| 0 <= k < s.len() ==> is_digit(#[trigger] s[k]),
    ensures
        digits_val(s.subrange(0, j)) >= digits_val(s.subrange(0, i)),
    decreases j - i,
{
    if i < j {
        lemma_digits_val_monotone(s, i, j - 1);
        lemma_digits_val_step(s, j - 1);
        assert(forall|k: int|
            0 <= k < s.subrange(0, j - 1).len() ==> is_digit(#[trigger] s.subrange(0, j - 1)[k]));
        lemma_digits_val_nonneg(s.subrange(0, j - 1));
    }
}

/// Reads a string of decimal digits as a `u64`; `None` when the string is
/// not all digits or its value does not fit.
pub fn parse_u64_digits(s: &str) -> (r: Option<u64>)
    ensures
        match r {
            Some(v) => is_userid_str(s@) && v == digits_val(s@),
            None => !is_userid_str(s@),
        },
{
    let n = s.unicode_len();
    if n == 0 {
        return None;
    }
    let mut val: u64 = 0;
    let mut i: usize = 0;
    proof {
        assert(s@.subrange(0, 0) =~= Seq::<char>::empty());
    }
    while i < n
        invariant
            n == s@.len(),
            0 <= i <= n,
            forall|j: int| 0 <= j < i ==> is_digit(#[trigger] s@[j]),
            val == digits_val(s@.subrange(0, i as int)),
        decreases n - i,
    {
        let c = s.get_char(i);
        if !('0' <= c && c <= '9') {
            return None;
        }
        let d: u64 = (c as u32 - '0' as u32) as u64;
        proof {
            lemma_digits_val_step(s@, i as int);
        }
        let v10 = match val.checked_mul(10) {
            Some(v) => v,
            None => {
                proof {
                    overflow_excludes_userid(s@, i as int, val, d);
                }
                return None;
            },
        };
        let v = match v10.checked_add(d) {
            Some(v) => v,
            None => {
                proof {
                    overflow_excludes_userid(s@, i as int, val, d);
                }
                return None;
            },
        };
        val = v;
        i += 1;
    }
    proof {
        assert(s@.subrange(0, n as int) =~= s@);
    }
    Some(val)
}

proof fn overflow_excludes_userid(s: Seq<char>, i: int, val: u64, d: u64)
    requires
        0 <= i < s.len(),
        forall|j: int| 0 <= j <= i ==> is_digit(#[trigger] s[j]),
        val == digits_val(s.subrange(0, i)),
        d == char_digit(s[i]),
        val * 10 + d > u64::MAX,
    ensures
        !is_userid_str(s),
{
    lemma_digits_val_step(s, i);
    if is_numeric(s) {
        lemma_digits_val_monotone(s, i + 1, s.len() as int);
        assert(s.subrange(0, s.len() as int) =~= s);
    }
}

/// A character allowed at either end of the local part of a handle:
/// lowercase alphanumeric, `_` or `+`.
pub open spec fn is_local_edge(c: char) -> bool {
    is_lower(c) || is_digit(c) || c == '_' || c == '+'
}

/// A character allowed inside the local part; a dot may appear between
/// edge characters.
pub open spec fn is_local_char(c: char) -> bool {
    is_local_edge(c) || c == '.'
}

/// A character allowed inside a domain label.
pub open spec fn is_domain_char(c: char) -> bool {
    is_lower(c) || is_digit(c)
}

/// A separator between domain labels.
pub open spec fn is_label_sep(c: char) -> bool {
    c == '.' || c == '-'
}

/// The local part of a handle: nonempty, drawn from the local alphabet,
/// with no leading or trailing dot.
pub open spec fn valid_localpart(p: Seq<char>) -> bool {
    &&& p.len() >= 1
    &&& is_local_edge(p[0])
    &&& is_local_edge(p[p.len() - 1])
    &&& forall|i: int| 0 <= i < p.len() ==> is_local_char(#[trigger] p[i])
}

/// The part of a domain before its final label: separated labels of
/// lowercase alphanumerics, starting and ending on a label character,
/// with no two adjacent separators.
pub open spec fn valid_domain_body(b: Seq<char>) -> bool {
    &&& b.len() >= 1
    &&& is_domain_char(b[0])
    &&& is_domain_char(b[b.len() - 1])
    &&& forall|i: int| 0 <= i < b.len() ==> is_domain_char(#[trigger] b[i]) || is_label_sep(b[i])
    &&& forall|i: int|
        0 <= i < b.len() - 1 ==> !(is_label_sep(#[trigger] b[i]) && is_label_sep(b[i + 1]))
}

/// The final label of a domain: two to six lowercase letters.
pub open spec fn valid_tld(t: Seq<char>) -> bool {
    2 <= t.len() <= 6 && forall|i: int| 0 <= i < t.len() ==> is_lower(#[trigger] t[i])
}

/// The domain of a handle, split at the dot before its final label.
pub open spec fn domain_split_at(d: Seq<char>, j: int) -> bool {
    &&& 0 <= j < d.len()
    &&& d[j] == '.'
    &&& valid_domain_body(d.subrange(0, j))
    &&& valid_tld(d.subrange(j + 1, d.len() as int))
}

/// A handle domain: dot-separated labels with a final label of two to six
/// letters.
pub open spec fn valid_domain(d: Seq<char>) -> bool {
    exists|j: int| domain_split_at(d, j)
}

/// A whole handle split at an `@`: a valid local part before it and a
/// valid domain after it.
pub open spec fn account_split_at(s: Seq<char>, k: int) -> bool {
    &&& 0 <= k < s.len()
    &&& s[k] == '@'
    &&& valid_localpart(s.subrange(0, k))
    &&& valid_domain(s.subrange(k + 1, s.len() as int))
}

/// The `account@domain` handle pattern.
pub open spec fn is_account_str(s: Seq<char>) -> bool {
    exists|k: int| account_split_at(s, k)
}

fn is_local_edge_exec(c: char) -> (r: bool)
    ensures
        r == is_local_edge(c),
{
    ('a' <= c && c <= 'z') || ('0' <= c && c <= '9') || c == '_' || c == '+'
}

fn is_domain_char_exec(c: char) -> (r: bool)
    ensures
        r == is_domain_char(c),
{
    ('a' <= c && c <= 'z') || ('0' <= c && c <= '9')
}

/// Checks `valid_localpart` on the character range `[0, k)` of `s`.
fn check_localpart(s: &str, k: usize) -> (r: bool)
    requires
        k <= s@.len(),
    ensures
        r == valid_localpart(s@.subrange(0, k as int)),
{
    let ghost p = s@.subrange(0, k as int);
    if k == 0 {
        return false;
    }
    if !is_local_edge_exec(s.get_char(0)) {
        return false;
    }
    if !is_local_edge_exec(s.get_char(k - 1)) {
        return false;
    }
    let mut i: usize = 0;
    while i < k
        invariant
            k <= s@.len(),
            p == s@.subrange(0, k as int),
            0 <= i <= k,
            forall|j: int| 0 <= j < i ==> is_local_char(#[trigger] p[j]),
        decreases k - i,
    {
        let c = s.get_char(i);
        if !(is_local_edge_exec(c) || c == '.') {
            proof {
                assert(p[i as int] == c);
            }
            return false;
        }
        i += 1;
    }
    true
}

/// Checks `valid_domain_body` on the character range `[lo, hi)` of `s`.
fn check_domain_body(s: &str, lo: usize, hi: usize) -> (r: bool)
    requires
        lo <= hi <= s@.len(),
    ensures
        r == valid_domain_body(s@.subrange(lo as int, hi as int)),
{
    let ghost b = s@.subrange(lo as int, hi as int);
    if hi == lo {
        return false;
    }
    if !is_domain_char_exec(s.get_char(lo)) {
        return false;
    }
    if !is_domain_char_exec(s.get_char(hi - 1)) {
        return false;
    }
    let mut i: usize = lo;
    while i < hi
        invariant
            lo <= hi <= s@.len(),
            b == s@.subrange(lo as int, hi as int),
            lo <= i <= hi,
            forall|j: int|
                0 <= j < i - lo ==> is_domain_char(#[trigger] b[j]) || is_label_sep(b[j]),
            forall|j: int|
                0 <= j < i - lo - 1 ==> !(is_label_sep(#[trigger] b[j]) && is_label_sep(b[j + 1])),
        decreases hi - i,
    {
        let c = s.get_char(i);
        let c_sep = c == '.' || c == '-';
        if !(is_domain_char_exec(c) || c_sep) {
            proof {
                assert(b[i - lo] == c);
            }
            return false;
        }
        if i > lo && c_sep {
            let prev = s.get_char(i - 1);
            if prev == '.' || prev == '-' {
                proof {
                    assert(b[i - lo - 1] == prev);
                    assert(b[i - lo] == c);
                }
                return false;
            }
        }
        i += 1;
    }
    true
}

/// Checks `valid_tld` on the character range `[lo, hi)` of `s`.
fn check_tld(s: &str, lo: usize, hi: usize) -> (r: bool)
    requires
        lo <= hi <= s@.len(),
    ensures
        r == valid_tld(s@.subrange(lo as int, hi as int)),
{
    let ghost t = s@.subrange(lo as int, hi as int);
    if hi - lo < 2 || hi - lo > 6 {
        return false;
    }
    let mut i: usize = lo;
    while i < hi
        invariant
            lo <= hi <= s@.len(),
            t == s@.subrange(lo as int, hi as int),
            lo <= i <= hi,
            forall|j: int| 0 <= j < i - lo ==> is_lower(#[trigger] t[j]),
        decreases hi - i,
    {
        let c = s.get_char(i);
        if !('a' <= c && c <= 'z') {
            proof {
                assert(t[i - lo] == c);
            }
            return false;
        }
        i += 1;
    }
    true
}

/// Checks `valid_domain` on the character range `[lo, hi)` of `s`.
fn check_domain(s: &str, lo: usize, hi: usize) -> (r: bool)
    requires
        lo <= hi <= s@.len(),
    ensures
        r == valid_domain(s@.subrange(lo as int, hi as int)),
{
    let ghost d = s@.subrange(lo as int, hi as int);
    // Only the last dot can split the domain: a dot later in the string
    // would land inside the final label, which holds letters only.
    let mut i: usize = hi;
    let mut dot: Option<usize> = None;
    while i > lo && dot.is_none()
        invariant
            lo <= hi <= s@.len(),
            d == s@.subrange(lo as int, hi as int),
            lo <= i <= hi,
            match dot {
                None => forall|j: int| i - lo <= j < hi - lo ==> d[j] != '.',
                Some(p) => lo <= p < hi && d[p - lo] == '.' && (forall|j: int|
                    p - lo < j < hi - lo ==> d[j] != '.'),
            },
        decreases i - lo,
    {
        i = i - 1;
        if s.get_char(i) == '.' {
            dot = Some(i);
        }
    }
    match dot {
        None => {
            proof {
                assert forall|j: int| !domain_split_at(d, j) by {
                    if 0 <= j < d.len() {
                        assert(d[j] != '.');
                    }
                }
            }
            false
        },
        Some(jd) => {
            let ghost j0 = jd - lo;
            proof {
                assert(d[j0] == '.');
                assert(forall|j: int| j0 < j < d.len() ==> d[j] != '.');
            }
            let body_ok = check_domain_body(s, lo, jd);
            let tld_ok = check_tld(s, jd + 1, hi);
            proof {
                assert(s@.subrange(lo as int, jd as int) =~= d.subrange(0, j0));
                assert(s@.subrange(jd + 1, hi as int) =~= d.subrange(j0 + 1, d.len() as int));
            }
            if body_ok && tld_ok {
                proof {
                    assert(domain_split_at(d, j0));
                }
                true
            } else {
                proof {
                    assert forall|j: int| !domain_split_at(d, j) by {
                        if 0 <= j < d.len() && d[j] == '.' {
                            if j == j0 {
                                assert(!domain_split_at(d, j));
                            } else {
                                // An earlier dot leaves the one at `j0`
                                // inside the would-be final label.
                                assert(j < j0);
                                let t = d.subrange(j + 1, d.len() as int);
                                assert(t[j0 - j - 1] == d[j0]);
                                assert(!is_lower('.'));
                                assert(!valid_tld(t));
                            }
                        }
                    }
                }
                false
            }
        },
    }
}

/// Checks the `account@domain` handle pattern.
pub fn check_account(s: &str) -> (r: bool)
    ensures
        r == is_account_str(s@),
{
    let n = s.unicode_len();
    let mut i: usize = 0;
    let mut at: Option<usize> = None;
    while i < n && at.is_none()
        invariant
            n == s@.len(),
            0 <= i <= n,
            match at {
                None => forall|j: int| 0 <= j < i ==> s@[j] != '@',
                Some(k) => 0 <= k < n && s@[k as int] == '@' && (forall|j: int|
                    0 <= j < k ==> s@[j] != '@'),
            },
        decreases n - i, (if at is None {
            1int
        } else {
            0int
        }),
    {
        if s.get_char(i) == '@' {
            at = Some(i);
        } else {
            i += 1;
        }
    }
    match at {
        None => {
            proof {
                assert forall|k: int| !account_split_at(s@, k) by {
                    if 0 <= k < s@.len() {
                        assert(s@[k] != '@');
                    }
                }
            }
            false
        },
        Some(k) => {
            let local_ok = check_localpart(s, k);
            let domain_ok = check_domain(s, k + 1, n);
            if local_ok && domain_ok {
                proof {
                    assert(account_split_at(s@, k as int));
                }
                true
            } else {
                proof {
                    assert forall|kk: int| !account_split_at(s@, kk) by {
                        if 0 <= kk < s@.len() && s@[kk] == '@' {
                            if kk == k {
                                assert(!account_split_at(s@, kk));
                            } else {
                                // A later split leaves the first `@` inside
                                // the local part, whose alphabet excludes it.
                                assert(kk > k);
                                let p = s@.subrange(0, kk);
                                assert(p[k as int] == '@');
                                assert(!is_local_char('@'));
                                assert(!valid_localpart(p));
                            }
                        }
                    }
                }
                false
            }
        },
    }
}

/// A character allowed in the host part of a URL.
pub open spec fn is_host_char(c: char) -> bool {
    ||| is_alnum(c)
    ||| c == '-'
    ||| c == '@'
    ||| c == ':'
    ||| c == '%'
    ||| c == '.'
    ||| c == '_'
    ||| c == '+'
    ||| c == '~'
    ||| c == '#'
    ||| c == '='
}

/// `http://` at the start of the string.
pub open spec fn has_http_scheme(s: Seq<char>) -> bool {
    s.len() >= 7 && s[0] == 'h' && s[1] == 't' && s[2] == 't' && s[3] == 'p' && s[4] == ':'
        && s[5] == '/' && s[6] == '/'
}

/// `https://` at the start of the string.
pub open spec fn has_https_scheme(s: Seq<char>) -> bool {
    s.len() >= 8 && s[0] == 'h' && s[1] == 't' && s[2] == 't' && s[3] == 'p' && s[4] == 's'
        && s[5] == ':' && s[6] == '/' && s[7] == '/'
}

/// The number of characters the scheme occupies.
pub open spec fn scheme_len(s: Seq<char>) -> int {
    if has_https_scheme(s) {
        8
    } else {
        7
    }
}

/// A dot at position `j` that ends the host: at least one host character
/// between the scheme and the dot, and an alphanumeric right after it.
pub open spec fn url_dot_at(s: Seq<char>, m: int, j: int) -> bool {
    &&& m < j
    &&& j + 1 < s.len()
    &&& s[j] == '.'
    &&& is_alnum(s[j + 1])
    &&& forall|i: int| m <= i < j ==> is_host_char(#[trigger] s[i])
}

/// The `http(s)://` URL pattern: a scheme, then a host with a dot in it.
/// A bare domain without a scheme does not match.
pub open spec fn is_url_str(s: Seq<char>) -> bool {
    (has_http_scheme(s) || has_https_scheme(s)) && (exists|j: int|
        url_dot_at(s, scheme_len(s), j))
}

fn is_host_char_exec(c: char) -> (r: bool)
    ensures
        r == is_host_char(c),
{
    ('a' <= c && c <= 'z') || ('A' <= c && c <= 'Z') || ('0' <= c && c <= '9') || c == '-'
        || c == '@' || c == ':' || c == '%' || c == '.' || c == '_' || c == '+' || c == '~'
        || c == '#' || c == '='
}

/// Checks the `http(s)://` URL pattern.
pub fn check_url(s: &str) -> (r: bool)
    ensures
        r == is_url_str(s@),
{
    let n = s.unicode_len();
    if n < 7 {
        return false;
    }
    if !(s.get_char(0) == 'h' && s.get_char(1) == 't' && s.get_char(2) == 't' && s.get_char(3)
        == 'p') {
        return false;
    }
    let m: usize = if s.get_char(4) == ':' && s.get_char(5) == '/' && s.get_char(6) == '/' {
        7
    } else if n >= 8 && s.get_char(4) == 's' && s.get_char(5) == ':' && s.get_char(6) == '/'
        && s.get_char(7) == '/' {
        8
    } else {
        return false;
    };
    proof {
        assert(m == scheme_len(s@));
    }
    let mut i: usize = m;
    while i < n
        invariant
            n == s@.len(),
            m <= i <= n,
            has_http_scheme(s@) || has_https_scheme(s@),
            m == scheme_len(s@),
            forall|j: int| m <= j < i ==> is_host_char(#[trigger] s@[j]),
            forall|j: int| m <= j < i ==> !url_dot_at(s@, m as int, j),
        decreases n - i,
    {
        let c = s.get_char(i);
        if !is_host_char_exec(c) {
            proof {
                assert forall|j: int| !url_dot_at(s@, m as int, j) by {
                    if m <= j < i {
                    } else if j == i {
                        assert(s@[i as int] != '.');
                    } else if i < j && j + 1 < n {
                        assert(!is_host_char(s@[i as int]));
                    }
                }
            }
            return false;
        }
        if c == '.' && i > m && i + 1 < n {
            let next = s.get_char(i + 1);
            if ('a' <= next && next <= 'z') || ('A' <= next && next <= 'Z') || ('0' <= next
                && next <= '9') {
                proof {
                    assert(url_dot_at(s@, m as int, i as int));
                }
                return true;
            }
        }
        proof {
            assert(!url_dot_at(s@, m as int, i as int));
        }
        i += 1;
    }
    proof {
        assert forall|j: int| !url_dot_at(s@, m as int, j) by {
            if m <= j < n {
            } else {
                assert(!(m < j && j + 1 < s@.len()) || j < m);
            }
        }
    }
    false
}

/// The full classification contract: which variant `classify` returns for
/// a given input, following the precedence numeric id, account handle,
/// actor URL, bare username.
pub open spec fn classified(s: Seq<char>, r: Identification) -> bool {
    match r {
        Identification::UserId(n) => is_userid_str(s) && n == digits_val(s),
        Identification::Account(t) => t@ == s && !is_userid_str(s) && is_account_str(s),
        Identification::ActorUrl(t) => t@ == s && !is_userid_str(s) && !is_account_str(s)
            && is_url_str(s),
        Identification::Username(t) => t@ == s && !is_userid_str(s) && !is_account_str(s)
            && !is_url_str(s),
    }
}

impl Identification {
    /// Classifies an identifier string. Total: every input maps to exactly
    /// one variant, and no rule below the first matching one is consulted.
    pub fn get(a: &str) -> (r: Identification)
        ensures
            classified(a@, r),
    {
        if let Some(n) = parse_u64_digits(a) {
            return Identification::UserId(n);
        }
        if check_account(a) {
            return Identification::Account(a.to_owned());
        }
        if check_url(a) {
            return Identification::ActorUrl(a.to_owned());
        }
        Identification::Username(a.to_owned())
    }

    /// Passes a canonical actor URL through unchanged. Resolving the other
    /// variants takes discovery round-trips, which the caller performs.
    pub fn to_actor_url(a: Identification) -> (r: Identification)
        requires
            a is ActorUrl,
        ensures
            r == a,
    {
        a
    }
}

/// Classifies an identifier string; see `Identification::get`.
pub fn classify(input: &str) -> (r: Identification)
    ensures
        classified(input@, r),
{
    Identification::get(input)
}

/// Classification is deterministic: the precedence built into
/// `classified` leaves no input on which two rules could both apply, so
/// any two results for one input are the same variant carrying the same
/// value.
pub proof fn lemma_classify_deterministic(s: Seq<char>, r1: Identification, r2: Identification)
    requires
        classified(s, r1),
        classified(s, r2),
    ensures
        match (r1, r2) {
            (Identification::UserId(a), Identification::UserId(b)) => a == b,
            (Identification::Account(a), Identification::Account(b)) => a@ == b@,
            (Identification::ActorUrl(a), Identification::ActorUrl(b)) => a@ == b@,
            (Identification::Username(a), Identification::Username(b)) => a@ == b@,
            _ => false,
        },
{
}

/// Every numeric string whose value fits the id type classifies as
/// `UserId`, and the value carried is the number it spells. A numeric
/// string beyond the id range falls through to `Username`.
pub proof fn lemma_classify_numeric(s: Seq<char>, r: Identification)
    requires
        is_numeric(s),
        digits_val(s) <= u64::MAX,
        classified(s, r),
    ensures
        r matches Identification::UserId(n) && n == digits_val(s),
{
}

/// Every string matching the account-handle pattern classifies as
/// `Account`, carrying the input unchanged: a handle contains an `@`, so
/// it can never be numeric.
pub proof fn lemma_classify_account(s: Seq<char>, r: Identification)
    requires
        is_account_str(s),
        classified(s, r),
    ensures
        r matches Identification::Account(t) && t@ == s,
{
    let k = choose|k: int| account_split_at(s, k);
    assert(s[k] == '@');
    assert(!is_digit('@'));
}

/// No character of a valid account handle is a colon or a slash: every
/// position is covered by the local part, the `@`, the domain body, the
/// label dot, or the final label, and each alphabet excludes both.
proof fn lemma_account_excludes(s: Seq<char>, c: char)
    requires
        is_account_str(s),
        !is_local_char(c),
        c != '@',
        !is_domain_char(c),
        !is_label_sep(c),
        !is_lower(c),
    ensures
        forall|i: int| 0 <= i < s.len() ==> s[i] != c,
{
    let k = choose|k: int| account_split_at(s, k);
    let d = s.subrange(k + 1, s.len() as int);
    let j = choose|j: int| domain_split_at(d, j);
    assert forall|i: int| 0 <= i < s.len() implies s[i] != c by {
        if i < k {
            assert(s.subrange(0, k)[i] == s[i]);
            assert(is_local_char(s.subrange(0, k)[i]));
        } else if i == k {
        } else {
            let q = i - k - 1;
            assert(d[q] == s[i]);
            if q < j {
                assert(d.subrange(0, j)[q] == d[q]);
                assert(is_domain_char(d.subrange(0, j)[q]) || is_label_sep(d.subrange(0, j)[q]));
            } else if q == j {
                assert(d[j] == '.');
            } else {
                assert(d.subrange(j + 1, d.len() as int)[q - j - 1] == d[q]);
                assert(is_lower(d.subrange(j + 1, d.len() as int)[q - j - 1]));
            }
        }
    }
}

/// Every string matching the URL pattern classifies as `ActorUrl`,
/// carrying the input unchanged: a URL starts with a letter, so it is not
/// numeric, and its scheme colon keeps it out of the account pattern.
pub proof fn lemma_classify_url(s: Seq<char>, r: Identification)
    requires
        is_url_str(s),
        classified(s, r),
    ensures
        r matches Identification::ActorUrl(t) && t@ == s,
{
    assert(s[0] == 'h');
    assert(!is_digit('h'));
    if is_account_str(s) {
        let p: int = if has_https_scheme(s) {
            5
        } else {
            4
        };
        assert(s[p] == ':');
        lemma_account_excludes(s, ':');
    }
}

} // verus!
