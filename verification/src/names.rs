//! Unguessable file names and sibling temp paths.

use vstd::prelude::*;

verus! {

/// Letters, digits, and filename-safe special characters that names draw from.
pub const CHARSET: &'static str = "ABCDEFGHIJKLMNOPQRSTUVWXYZabcdefghijklmnopqrstuvwxyz0123456789!@#$%^&()-_=+[]{}";

/// Number of characters in `CHARSET`.
pub const CHARSET_LEN: usize = 79;

/// The name drawn from fifteen random bytes: the first picks the length,
/// eight to fourteen characters; each following byte picks one character of
/// `CHARSET`.
pub open spec fn spec_random_string(random: Seq<u8>) -> Seq<char> {
    Seq::new(
        (8 + random[0] % 7) as nat,
        |i: int| CHARSET@[(random[i + 1] as int) % (CHARSET_LEN as int)],
    )
}

/// Builds a name of 8 to 14 characters drawn from letters, digits, and
/// filename-safe special characters, from fifteen bytes of a cryptographic
/// random source.
pub fn random_string(random: &[u8]) -> (name: String)
    requires
        random@.len() >= 15,
    ensures
        name@ == spec_random_string(random@),
        8 <= name@.len() <= 14,
{
    proof {
        reveal_strlit("ABCDEFGHIJKLMNOPQRSTUVWXYZabcdefghijklmnopqrstuvwxyz0123456789!@#$%^&()-_=+[]{}");
    }
    let length: usize = 8 + (random[0] % 7) as usize;
    let mut name = String::new();
    let mut i: usize = 0;
    while i < length
        invariant
            i <= length,
            length == 8 + random@[0] % 7,
            random@.len() >= 15,
            CHARSET@.len() == CHARSET_LEN,
            name@ == spec_random_string(random@).subrange(0, i as int),
        decreases length - i,
    {
        let c = CHARSET.get_char((random[i + 1] as usize) % CHARSET_LEN);
        crate::text::push_char(&mut name, c);
        i = i + 1;
        assert(name@ =~= spec_random_string(random@).subrange(0, i as int));
    }
    assert(spec_random_string(random@).subrange(0, length as int) =~= spec_random_string(random@));
    name
}

/// Every character of a generated name comes from `CHARSET`.
pub proof fn law_random_string_charset(random: Seq<u8>)
    requires
        random.len() >= 15,
    ensures
        forall|i: int| 0 <= i < spec_random_string(random).len()
            ==> CHARSET@.contains(#[trigger] spec_random_string(random)[i]),
        8 <= spec_random_string(random).len() <= 14,
        generated_name(spec_random_string(random)),
{
    reveal_strlit("ABCDEFGHIJKLMNOPQRSTUVWXYZabcdefghijklmnopqrstuvwxyz0123456789!@#$%^&()-_=+[]{}");
    assert forall|i: int| 0 <= i < spec_random_string(random).len()
        implies CHARSET@.contains(#[trigger] spec_random_string(random)[i]) by {
        let k = (random[i + 1] as int) % (CHARSET_LEN as int);
        assert(CHARSET@[k] == spec_random_string(random)[i]);
    }
}

/// `s` has the shape of a generated name: 8 to 14 characters, each from
/// `CHARSET`.
pub open spec fn generated_name(s: Seq<char>) -> bool {
    &&& 8 <= s.len() <= 14
    &&& forall|i: int| 0 <= i < s.len() ==> CHARSET@.contains(#[trigger] s[i])
}

/// Whether `c` is one of the characters of `CHARSET`.
fn in_charset(c: char) -> (r: bool)
    ensures
        r == CHARSET@.contains(c),
{
    proof {
        reveal_strlit("ABCDEFGHIJKLMNOPQRSTUVWXYZabcdefghijklmnopqrstuvwxyz0123456789!@#$%^&()-_=+[]{}");
    }
    let mut k: usize = 0;
    while k < CHARSET_LEN
        invariant
            k <= CHARSET_LEN,
            CHARSET@.len() == CHARSET_LEN,
            forall|j: int| 0 <= j < k ==> CHARSET@[j] != c,
        decreases CHARSET_LEN - k,
    {
        if CHARSET.get_char(k) == c {
            assert(CHARSET@[k as int] == c);
            return true;
        }
        k = k + 1;
    }
    false
}

/// Whether `s` has the shape of a generated name.
pub fn is_generated_name(s: &str) -> (r: bool)
    ensures
        r == generated_name(s@),
{
    let n = s.unicode_len();
    if n < 8 || n > 14 {
        return false;
    }
    let mut i: usize = 0;
    while i < n
        invariant
            i <= n,
            n == s@.len(),
            forall|k: int| 0 <= k < i ==> CHARSET@.contains(#[trigger] s@[k]),
        decreases n - i,
    {
        if !in_charset(s.get_char(i)) {
            return false;
        }
        i = i + 1;
    }
    true
}

/// A unique sibling temp path next to `path`, on the same volume: `path`, a
/// dot, the random `stem`, and `.tmp`.
pub fn temp_path(path: &str, stem: &str) -> (p: String)
    ensures
        p@ == path@ + "."@ + stem@ + ".tmp"@,
{
    let mut p = path.to_owned();
    p.append(".");
    p.append(stem);
    p.append(".tmp");
    p
}

} // verus!
