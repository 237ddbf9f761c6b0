//! Pure validation rules shared by both stores: the non-blank check on
//! names, the email shape, and the password policy. All are stateless
//! and safe to call from any thread.

use vstd::prelude::*;
use vstd::string::*;
use crate::trusted::{is_whitespace_char, space_char};

verus! {

/// A string is blank when every character is whitespace; the empty
/// string is blank.
pub open spec fn blank(s: Seq<char>) -> bool {
    forall|i: int| 0 <= i < s.len() ==> space_char(s[i])
}

/// True exactly when `s` holds at least one non-whitespace character,
/// that is, when trimming whitespace from both ends leaves something.
pub fn is_not_empty(s: &str) -> (r: bool)
    ensures
        r == !blank(s@),
{
    let n = s.unicode_len();
    let mut i: usize = 0;
    while i < n
        invariant
            n == s@.len(),
            0 <= i <= n,
            forall|k: int| 0 <= k < i ==> space_char(s@[k]),
        decreases n - i,
    {
        if !is_whitespace_char(s.get_char(i)) {
            return true;
        }
        i = i + 1;
    }
    false
}

/// Characters allowed in the part of an address before the `@`.
pub open spec fn local_char(c: char) -> bool {
    ('a' as u32 <= c as u32 && c as u32 <= 'z' as u32) || ('0' as u32 <= c as u32 && c as u32
        <= '9' as u32) || c == '.' || c == '_' || c == '%' || c == '+' || c == '-'
}

/// Characters allowed between the `@` and the final dot.
pub open spec fn domain_char(c: char) -> bool {
    ('a' as u32 <= c as u32 && c as u32 <= 'z' as u32) || ('0' as u32 <= c as u32 && c as u32
        <= '9' as u32) || c == '.' || c == '-'
}

/// Characters allowed after the final dot: lowercase letters only.
pub open spec fn tld_char(c: char) -> bool {
    'a' as u32 <= c as u32 && c as u32 <= 'z' as u32
}

/// `a` and `d` split `s` into a valid address: a non-empty local part,
/// `@` at `a`, a non-empty domain, a dot at `d`, and a final label of
/// two to four lowercase letters reaching the end.
pub open spec fn email_split(s: Seq<char>, a: int, d: int) -> bool {
    &&& 1 <= a
    &&& a + 2 <= d
    &&& d + 3 <= s.len()
    &&& s.len() <= d + 5
    &&& s[a] == '@'
    &&& s[d] == '.'
    &&& forall|i: int| 0 <= i < a ==> local_char(s[i])
    &&& forall|i: int| a < i < d ==> domain_char(s[i])
    &&& forall|i: int| d < i < s.len() ==> tld_char(s[i])
}

/// The email shape both stores accept: some split of the string into
/// local part, domain and final label is valid.
pub open spec fn valid_email(s: Seq<char>) -> bool {
    exists|a: int, d: int| email_split(s, a, d)
}

fn is_local_char(c: char) -> (r: bool)
    ensures
        r == local_char(c),
{
    let u = c as u32;
    ('a' as u32 <= u && u <= 'z' as u32) || ('0' as u32 <= u && u <= '9' as u32) || c == '.' || c
        == '_' || c == '%' || c == '+' || c == '-'
}

fn is_domain_char(c: char) -> (r: bool)
    ensures
        r == domain_char(c),
{
    let u = c as u32;
    ('a' as u32 <= u && u <= 'z' as u32) || ('0' as u32 <= u && u <= '9' as u32) || c == '.' || c
        == '-'
}

fn is_tld_char(c: char) -> (r: bool)
    ensures
        r == tld_char(c),
{
    let u = c as u32;
    'a' as u32 <= u && u <= 'z' as u32
}

/// In any valid split, the `@` must be the first `@` of the string: the
/// local-part and domain classes both exclude `@`.
proof fn lemma_split_fixes_at(s: Seq<char>, a: int, a2: int, d2: int)
    requires
        email_split(s, a2, d2),
        0 <= a < s.len(),
        s[a] == '@',
        forall|k: int| 0 <= k < a ==> s[k] != '@',
    ensures
        a2 == a,
{
    if a2 < a {
        assert(s[a2] == '@');
    } else if a2 > a {
        assert(local_char(s[a]));
    }
}

/// In any valid split, the dot must be the last dot of the string: the
/// final label's class excludes dots.
proof fn lemma_split_fixes_dot(s: Seq<char>, d: int, a2: int, d2: int)
    requires
        email_split(s, a2, d2),
        0 <= d < s.len(),
        s[d] == '.',
        forall|k: int| d < k < s.len() ==> s[k] != '.',
    ensures
        d2 == d,
{
    if d2 < d {
        assert(tld_char(s[d]));
    } else if d2 > d {
        assert(s[d2] == '.');
    }
}

/// A string without `@` has no valid split.
proof fn lemma_no_at(s: Seq<char>)
    requires
        forall|k: int| 0 <= k < s.len() ==> s[k] != '@',
    ensures
        !valid_email(s),
{
    if valid_email(s) {
        let (a, d) = choose|a: int, d: int| email_split(s, a, d);
        assert(s[a] == '@');
    }
}

/// A string without a dot has no valid split.
proof fn lemma_no_dot(s: Seq<char>)
    requires
        forall|k: int| 0 <= k < s.len() ==> s[k] != '.',
    ensures
        !valid_email(s),
{
    if valid_email(s) {
        let (a, d) = choose|a: int, d: int| email_split(s, a, d);
        assert(s[d] == '.');
    }
}

/// Once the first `@` and the last dot are known, they are the only
/// candidate split; if that split is invalid, the string is no address.
proof fn lemma_only_split(s: Seq<char>, a0: int, d0: int)
    requires
        0 <= a0 < s.len(),
        s[a0] == '@',
        forall|k: int| 0 <= k < a0 ==> s[k] != '@',
        0 <= d0 < s.len(),
        s[d0] == '.',
        forall|k: int| d0 < k < s.len() ==> s[k] != '.',
        !email_split(s, a0, d0),
    ensures
        !valid_email(s),
{
    if valid_email(s) {
        let (a, d) = choose|a: int, d: int| email_split(s, a, d);
        lemma_split_fixes_at(s, a0, a, d);
        lemma_split_fixes_dot(s, d0, a, d);
    }
}

/// Whether `s` has the accepted email shape: a non-empty run of
/// `[a-z0-9._%+-]`, then `@`, then a non-empty run of `[a-z0-9.-]`,
/// then a dot and two to four lowercase letters ending the string.
#[verifier::loop_isolation(false)]
pub fn is_email_valid(s: &str) -> (r: bool)
    ensures
        r == valid_email(s@),
{
    let n = s.unicode_len();
    // Find the first '@'.
    let mut i: usize = 0;
    let mut at: usize = 0;
    let mut found_at: bool = false;
    while i < n
        invariant
            0 <= i <= n,
            !found_at ==> forall|k: int| 0 <= k < i ==> s@[k] != '@',
            found_at ==> 0 <= at < i && s@[at as int] == '@' && forall|k: int|
                0 <= k < at ==> s@[k] != '@',
        decreases n - i,
    {
        if !found_at && s.get_char(i) == '@' {
            at = i;
            found_at = true;
        }
        i = i + 1;
    }
    if !found_at {
        proof {
            lemma_no_at(s@);
        }
        return false;
    }
    // Find the last '.'.
    let mut j: usize = 0;
    let mut dot: usize = 0;
    let mut found_dot: bool = false;
    while j < n
        invariant
            0 <= j <= n,
            !found_dot ==> forall|k: int| 0 <= k < j ==> s@[k] != '.',
            found_dot ==> 0 <= dot < j && s@[dot as int] == '.' && forall|k: int|
                dot < k < j ==> s@[k] != '.',
        decreases n - j,
    {
        if s.get_char(j) == '.' {
            dot = j;
            found_dot = true;
        }
        j = j + 1;
    }
    if !found_dot {
        proof {
            lemma_no_dot(s@);
        }
        return false;
    }
    // The only candidate split is (at, dot); check each rule of the shape.
    if at == 0 || at >= dot || dot - at < 2 {
        proof {
            lemma_only_split(s@, at as int, dot as int);
        }
        return false;
    }
    let tail = n - dot - 1;
    if tail < 2 || tail > 4 {
        proof {
            lemma_only_split(s@, at as int, dot as int);
        }
        return false;
    }
    let mut i: usize = 0;
    while i < at
        invariant
            0 <= i <= at,
            forall|k: int| 0 <= k < i ==> local_char(s@[k]),
        decreases at - i,
    {
        if !is_local_char(s.get_char(i)) {
            proof {
                lemma_only_split(s@, at as int, dot as int);
            }
            return false;
        }
        i = i + 1;
    }
    let mut i: usize = at + 1;
    while i < dot
        invariant
            at + 1 <= i <= dot,
            forall|k: int| at < k < i ==> domain_char(s@[k]),
        decreases dot - i,
    {
        if !is_domain_char(s.get_char(i)) {
            proof {
                lemma_only_split(s@, at as int, dot as int);
            }
            return false;
        }
        i = i + 1;
    }
    let mut i: usize = dot + 1;
    while i < n
        invariant
            dot + 1 <= i <= n,
            forall|k: int| dot < k < i ==> tld_char(s@[k]),
        decreases n - i,
    {
        if !is_tld_char(s.get_char(i)) {
            proof {
                lemma_only_split(s@, at as int, dot as int);
            }
            return false;
        }
        i = i + 1;
    }
    proof {
        assert(email_split(s@, at as int, dot as int));
    }
    true
}

/// The registration password policy's length rule: the password's
/// UTF-8 encoding is 6 to 12 bytes long.
pub open spec fn password_len_ok(password: Seq<char>) -> bool {
    6 <= vstd::utf8::encode_utf8(password).len() <= 12
}

/// Checks the password policy, reporting the first violated rule: the
/// length bound, then the confirmation match.
pub fn verify_and_match_password(password: &str, confirm_password: &str) -> (r: Result<
    (),
    String,
>)
    ensures
        r is Ok <==> password_len_ok(password@) && password@ == confirm_password@,
        !password_len_ok(password@) ==> (r matches Err(m) && m@
            == "Password should have characters between 6 to 12"@),
        password_len_ok(password@) && password@ != confirm_password@ ==> (r matches Err(m) && m@
            == "Password don't match"@),
{
    let len = password.as_bytes().len();
    if len < 6 || len > 12 {
        return Err("Password should have characters between 6 to 12".to_owned());
    }
    let p = password.to_owned();
    let c = confirm_password.to_owned();
    if !(p == c) {
        return Err("Password don't match".to_owned());
    }
    Ok(())
}

} // verus!
