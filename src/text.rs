//! Character-level helpers shared by header handling and URL composition.
use vstd::prelude::*;

verus! {

/// The value used to compare two characters of a header name without regard to ASCII case.
pub open spec fn fold_case(c: char) -> u32 {
    if 'A' <= c && c <= 'Z' {
        (c as u32 + 32) as u32
    } else {
        c as u32
    }
}

/// Two header names are the same name when they agree character by character up to ASCII case.
pub open spec fn names_match(a: Seq<char>, b: Seq<char>) -> bool {
    &&& a.len() == b.len()
    &&& forall|i: int| 0 <= i < a.len() ==> fold_case(#[trigger] a[i]) == fold_case(b[i])
}

/// `needle` occurs in `hay` as a contiguous run of characters.
pub open spec fn contains_seq(hay: Seq<char>, needle: Seq<char>) -> bool {
    exists|i: int|
        0 <= i && i + needle.len() <= hay.len() && #[trigger] hay.subrange(i, i + needle.len())
            == needle
}

/// `prefix` is how `s` begins.
pub open spec fn starts_with_seq(s: Seq<char>, prefix: Seq<char>) -> bool {
    prefix.len() <= s.len() && s.subrange(0, prefix.len() as int) == prefix
}

pub open spec fn digit_char(d: nat) -> char {
    seq!['0', '1', '2', '3', '4', '5', '6', '7', '8', '9'][d as int]
}

/// The decimal representation of `n`, without sign or leading zeros.
pub open spec fn decimal(n: nat) -> Seq<char>
    decreases n,
{
    if n < 10 {
        seq![digit_char(n)]
    } else {
        decimal(n / 10).push(digit_char(n % 10))
    }
}

pub fn fold_char(c: char) -> (r: u32)
    ensures
        r == fold_case(c),
{
    if 'A' <= c && c <= 'Z' {
        c as u32 + 32
    } else {
        c as u32
    }
}

/// Compares two names without regard to ASCII case.
pub fn eq_ignore_ascii_case(a: &str, b: &str) -> (r: bool)
    ensures
        r == names_match(a@, b@),
{
    let n = a.unicode_len();
    if n != b.unicode_len() {
        return false;
    }
    let mut i: usize = 0;
    while i < n
        invariant
            n == a@.len(),
            n == b@.len(),
            0 <= i <= n,
            forall|j: int| 0 <= j < i ==> fold_case(#[trigger] a@[j]) == fold_case(b@[j]),
        decreases n - i,
    {
        if fold_char(a.get_char(i)) != fold_char(b.get_char(i)) {
            return false;
        }
        i = i + 1;
    }
    true
}

/// Whether `needle` occurs in `hay`.
pub fn str_contains(hay: &str, needle: &str) -> (r: bool)
    ensures
        r == contains_seq(hay@, needle@),
{
    let h = hay.unicode_len();
    let m = needle.unicode_len();
    if m > h {
        return false;
    }
    let mut i: usize = 0;
    while i <= h - m
        invariant
            h == hay@.len(),
            m == needle@.len(),
            m <= h,
            0 <= i <= h - m + 1,
            forall|k: int| 0 <= k < i ==> #[trigger] hay@.subrange(k, k + m) != needle@,
        decreases h - m + 1 - i,
    {
        let mut j: usize = 0;
        let mut same = true;
        while j < m
            invariant
                h == hay@.len(),
                m == needle@.len(),
                i + m <= h,
                0 <= j <= m,
                same == (forall|l: int| 0 <= l < j ==> hay@[i + l] == needle@[l]),
            decreases m - j,
        {
            if hay.get_char(i + j) != needle.get_char(j) {
                same = false;
            }
            j = j + 1;
        }
        if same {
            assert(hay@.subrange(i as int, i + m) =~= needle@);
            return true;
        }
        assert(hay@.subrange(i as int, i + m)[0] == hay@[i as int]);
        assert(exists|l: int| 0 <= l < m && hay@[i + l] != needle@[l]);
        let ghost l = choose|l: int| 0 <= l < m && hay@[i + l] != needle@[l];
        assert(hay@.subrange(i as int, i + m)[l] != needle@[l]);
        i = i + 1;
    }
    proof {
        if contains_seq(hay@, needle@) {
            let k = choose|k: int|
                0 <= k && k + needle@.len() <= hay@.len() && #[trigger] hay@.subrange(
                    k,
                    k + needle@.len(),
                ) == needle@;
            assert(hay@.subrange(k, k + m) == needle@);
        }
    }
    false
}

/// A one-character string holding the digit `d`.
fn digit_str(d: usize) -> (r: &'static str)
    requires
        d < 10,
    ensures
        r@ == seq![digit_char(d as nat)],
{
    proof {
        reveal_strlit("0");
        reveal_strlit("1");
        reveal_strlit("2");
        reveal_strlit("3");
        reveal_strlit("4");
        reveal_strlit("5");
        reveal_strlit("6");
        reveal_strlit("7");
        reveal_strlit("8");
        reveal_strlit("9");
    }
    let r = if d == 0 {
        "0"
    } else if d == 1 {
        "1"
    } else if d == 2 {
        "2"
    } else if d == 3 {
        "3"
    } else if d == 4 {
        "4"
    } else if d == 5 {
        "5"
    } else if d == 6 {
        "6"
    } else if d == 7 {
        "7"
    } else if d == 8 {
        "8"
    } else {
        "9"
    };
    assert(r@ =~= seq![digit_char(d as nat)]);
    r
}

/// Writes `n` in decimal.
pub fn decimal_string(n: usize) -> (r: String)
    ensures
        r@ == decimal(n as nat),
    decreases n,
{
    if n < 10 {
        String::from_str(digit_str(n))
    } else {
        let mut s = decimal_string(n / 10);
        s.append(digit_str(n % 10));
        s
    }
}

} // verus!
