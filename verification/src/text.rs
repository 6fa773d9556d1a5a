use vstd::prelude::*;
use vstd::string::StrSliceExecFns;

verus! {

/// The character of a digit, in lower case for 10 to 15.
pub open spec fn digit_char(d: nat) -> char {
    if d < 10 {
        (48 + d) as char
    } else {
        (87 + d) as char
    }
}

/// Decimal digits of `n`, without leading zeros.
pub open spec fn decimal_spec(n: nat) -> Seq<char>
    decreases n,
{
    if n < 10 {
        seq![digit_char(n)]
    } else {
        decimal_spec(n / 10).push(digit_char(n % 10))
    }
}

/// Lower case hexadecimal digits of `n`, without leading zeros.
pub open spec fn hex_spec(n: nat) -> Seq<char>
    decreases n,
{
    if n < 16 {
        seq![digit_char(n)]
    } else {
        hex_spec(n / 16).push(digit_char(n % 16))
    }
}

/// Two lower case hexadecimal digits of a byte.
pub open spec fn hex2_spec(n: u8) -> Seq<char> {
    seq![digit_char((n / 16) as nat), digit_char((n % 16) as nat)]
}

/// Decimal digits of `d` after its sign, `+` or `-`.
pub open spec fn signed_decimal_spec(d: int) -> Seq<char> {
    if d < 0 {
        seq!['-'] + decimal_spec((-d) as nat)
    } else {
        seq!['+'] + decimal_spec(d as nat)
    }
}

/// The digit `d` (below 16) as a one character string.
fn digit_str(d: u32) -> (s: &'static str)
    requires
        d < 16,
    ensures
        s@ == seq![digit_char(d as nat)],
{
    match d {
        0 => {
            proof {
                reveal_strlit("0");
            }
            "0"
        },
        1 => {
            proof {
                reveal_strlit("1");
            }
            "1"
        },
        2 => {
            proof {
                reveal_strlit("2");
            }
            "2"
        },
        3 => {
            proof {
                reveal_strlit("3");
            }
            "3"
        },
        4 => {
            proof {
                reveal_strlit("4");
            }
            "4"
        },
        5 => {
            proof {
                reveal_strlit("5");
            }
            "5"
        },
        6 => {
            proof {
                reveal_strlit("6");
            }
            "6"
        },
        7 => {
            proof {
                reveal_strlit("7");
            }
            "7"
        },
        8 => {
            proof {
                reveal_strlit("8");
            }
            "8"
        },
        9 => {
            proof {
                reveal_strlit("9");
            }
            "9"
        },
        10 => {
            proof {
                reveal_strlit("a");
            }
            "a"
        },
        11 => {
            proof {
                reveal_strlit("b");
            }
            "b"
        },
        12 => {
            proof {
                reveal_strlit("c");
            }
            "c"
        },
        13 => {
            proof {
                reveal_strlit("d");
            }
            "d"
        },
        14 => {
            proof {
                reveal_strlit("e");
            }
            "e"
        },
        _ => {
            proof {
                reveal_strlit("f");
            }
            "f"
        },
    }
}

/// Appends the decimal digits of `n`.
fn append_decimal(s: &mut String, n: u32)
    ensures
        final(s)@ == old(s)@ + decimal_spec(n as nat),
    decreases n,
{
    if n >= 10 {
        append_decimal(s, n / 10);
    }
    let ghost before = s@;
    s.append(digit_str(n % 10));
    proof {
        if n >= 10 {
            assert(decimal_spec(n as nat) == decimal_spec((n / 10) as nat).push(digit_char((n % 10) as nat)));
            assert(old(s)@ + decimal_spec(n as nat) =~= before + seq![digit_char((n % 10) as nat)]);
        } else {
            assert(decimal_spec(n as nat) == seq![digit_char(n as nat)]);
            assert(old(s)@ + decimal_spec(n as nat) =~= before + seq![digit_char((n % 10) as nat)]);
        }
    }
}

/// Appends the lower case hexadecimal digits of `n`.
fn append_hex(s: &mut String, n: u32)
    ensures
        final(s)@ == old(s)@ + hex_spec(n as nat),
    decreases n,
{
    if n >= 16 {
        append_hex(s, n / 16);
    }
    let ghost before = s@;
    s.append(digit_str(n % 16));
    proof {
        if n >= 16 {
            assert(hex_spec(n as nat) == hex_spec((n / 16) as nat).push(digit_char((n % 16) as nat)));
            assert(old(s)@ + hex_spec(n as nat) =~= before + seq![digit_char((n % 16) as nat)]);
        } else {
            assert(hex_spec(n as nat) == seq![digit_char(n as nat)]);
            assert(old(s)@ + hex_spec(n as nat) =~= before + seq![digit_char((n % 16) as nat)]);
        }
    }
}

/// Decimal digits of a byte.
pub(crate) fn decimal_string(v: u8) -> (s: String)
    ensures
        s@ == decimal_spec(v as nat),
{
    let mut s = String::new();
    append_decimal(&mut s, v as u32);
    proof {
        assert(s@ =~= decimal_spec(v as nat));
    }
    s
}

/// A signed byte as its sign, `+` or `-`, and its decimal digits.
pub(crate) fn signed_decimal_string(v: i8) -> (s: String)
    ensures
        s@ == signed_decimal_spec(v as int),
{
    let mut s = String::new();
    if v < 0 {
        s.append("-");
        proof {
            reveal_strlit("-");
        }
        let magnitude: u32 = (0 - (v as i32)) as u32;
        append_decimal(&mut s, magnitude);
    } else {
        s.append("+");
        proof {
            reveal_strlit("+");
        }
        append_decimal(&mut s, v as u32);
    }
    proof {
        assert(s@ =~= signed_decimal_spec(v as int));
    }
    s
}

/// Lower case hexadecimal digits, with no leading zeros.
pub(crate) fn hex_string(v: u32) -> (s: String)
    ensures
        s@ == hex_spec(v as nat),
{
    let mut s = String::new();
    append_hex(&mut s, v);
    proof {
        assert(s@ =~= hex_spec(v as nat));
    }
    s
}

/// Two lower case hexadecimal digits of a byte.
pub(crate) fn hex2_string(v: u8) -> (s: String)
    ensures
        s@ == hex2_spec(v),
{
    let mut s = String::new();
    s.append(digit_str((v / 16) as u32));
    s.append(digit_str((v % 16) as u32));
    proof {
        assert(s@ =~= hex2_spec(v));
    }
    s
}

/// `p` occurs in `s` at position `i`.
pub open spec fn occurs_at(s: Seq<char>, p: Seq<char>, i: int) -> bool {
    0 <= i && i + p.len() <= s.len() && s.subrange(i, i + p.len()) == p
}

/// `p` occurs somewhere in `s`.
pub open spec fn contains_spec(s: Seq<char>, p: Seq<char>) -> bool {
    exists|i: int| occurs_at(s, p, i)
}

/// `s` with every occurrence of the non empty `p` replaced by `r`, scanning
/// from the left as std's `str::replace` does.
pub open spec fn replace_spec(s: Seq<char>, p: Seq<char>, r: Seq<char>) -> Seq<char>
    decreases s.len(),
{
    if p.len() == 0 || s.len() < p.len() {
        s
    } else if s.subrange(0, p.len() as int) == p {
        r + replace_spec(s.subrange(p.len() as int, s.len() as int), p, r)
    } else {
        seq![s[0]] + replace_spec(s.subrange(1, s.len() as int), p, r)
    }
}

/// Position of the first `c` in `s`.
pub open spec fn first_index_spec(s: Seq<char>, c: char) -> Option<int> {
    if exists|i: int| 0 <= i < s.len() && s[i] == c {
        Some(choose|i: int| 0 <= i < s.len() && s[i] == c && forall|j: int| 0 <= j < i ==> s[j] != c)
    } else {
        None
    }
}

/// `t` inserted into `s` before position `i`.
pub open spec fn insert_spec(s: Seq<char>, i: int, t: Seq<char>) -> Seq<char> {
    s.subrange(0, i) + t + s.subrange(i, s.len() as int)
}

/// Whether `p` occurs in `s` at position `i`.
pub fn occurs_at_exec(s: &str, p: &str, i: usize) -> (b: bool)
    ensures
        b == occurs_at(s@, p@, i as int),
{
    let n = s.unicode_len();
    let k = p.unicode_len();
    if k > n || i > n - k {
        return false;
    }
    let mut j: usize = 0;
    while j < k
        invariant
            k == p@.len(),
            n == s@.len(),
            i + k <= n,
            j <= k,
            forall|t: int| 0 <= t < j ==> s@[i + t] == p@[t],
        decreases k - j,
    {
        if s.get_char(i + j) != p.get_char(j) {
            assert(s@.subrange(i as int, i + k)[j as int] != p@[j as int]);
            return false;
        }
        j = j + 1;
    }
    assert(s@.subrange(i as int, i + k) =~= p@);
    true
}

/// Whether `p` occurs in `s`.
pub fn contains(s: &str, p: &str) -> (b: bool)
    ensures
        b == contains_spec(s@, p@),
{
    let n = s.unicode_len();
    if p.unicode_len() == 0 {
        assert(occurs_at(s@, p@, 0)) by {
            assert(s@.subrange(0, 0) =~= p@);
        }
        return true;
    }
    let mut i: usize = 0;
    while i < n
        invariant
            n == s@.len(),
            p@.len() > 0,
            forall|t: int| 0 <= t < i ==> !occurs_at(s@, p@, t),
        decreases n - i,
    {
        if occurs_at_exec(s, p, i) {
            return true;
        }
        i = i + 1;
    }
    false
}

proof fn lemma_replace_step(s: Seq<char>, p: Seq<char>, r: Seq<char>, i: int)
    requires
        p.len() > 0,
        0 <= i,
        i + p.len() <= s.len(),
    ensures
        occurs_at(s, p, i) ==> replace_spec(s.subrange(i, s.len() as int), p, r) == r + replace_spec(
            s.subrange(i + p.len(), s.len() as int),
            p,
            r,
        ),
        !occurs_at(s, p, i) ==> replace_spec(s.subrange(i, s.len() as int), p, r) == seq![s[i]]
            + replace_spec(s.subrange(i + 1, s.len() as int), p, r),
{
    let t = s.subrange(i, s.len() as int);
    assert(t.subrange(0, p.len() as int) =~= s.subrange(i, i + p.len()));
    assert(t.subrange(p.len() as int, t.len() as int) =~= s.subrange(i + p.len(), s.len() as int));
    assert(t.subrange(1, t.len() as int) =~= s.subrange(i + 1, s.len() as int));
}

/// `s` with every occurrence of the non empty `p` replaced by `r`.
pub fn replace(s: &str, p: &str, r: &str) -> (out: String)
    requires
        p@.len() > 0,
    ensures
        out@ == replace_spec(s@, p@, r@),
{
    let n = s.unicode_len();
    let k = p.unicode_len();
    let mut out = String::new();
    let mut i: usize = 0;
    assert(s@.subrange(0, n as int) =~= s@);
    while i < n && k <= n - i
        invariant
            n == s@.len(),
            k == p@.len(),
            k > 0,
            i <= n,
            out@ + replace_spec(s@.subrange(i as int, n as int), p@, r@) == replace_spec(s@, p@, r@),
        decreases n - i,
    {
        proof {
            lemma_replace_step(s@, p@, r@, i as int);
        }
        if occurs_at_exec(s, p, i) {
            out.append(r);
            i = i + k;
        } else {
            out.append(s.substring_char(i, i + 1));
            i = i + 1;
        }
        assert(out@ + replace_spec(s@.subrange(i as int, n as int), p@, r@) == replace_spec(s@, p@, r@)) by {
            assert(seq![s@[i - 1]] =~= s@.subrange(i - 1, i as int));
        }
    }
    assert(replace_spec(s@.subrange(i as int, n as int), p@, r@) == s@.subrange(i as int, n as int));
    out.append(s.substring_char(i, n));
    out
}

/// Position of the first `c` in `s`.
pub fn first_index(s: &str, c: char) -> (r: Option<usize>)
    ensures
        match r {
            Some(i) => first_index_spec(s@, c) == Some(i as int) && i < s@.len(),
            None => first_index_spec(s@, c) is None,
        },
{
    let n = s.unicode_len();
    let mut i: usize = 0;
    while i < n
        invariant
            n == s@.len(),
            i <= n,
            forall|j: int| 0 <= j < i ==> s@[j] != c,
        decreases n - i,
    {
        if s.get_char(i) == c {
            let ghost k = choose|k: int| 0 <= k < s@.len() && s@[k] == c && forall|j: int| 0 <= j < k ==> s@[j] != c;
            assert(0 <= i < s@.len() && s@[i as int] == c && forall|j: int| 0 <= j < i ==> s@[j] != c);
            assert(k == i) by {
                if k < i {
                    assert(s@[k] != c);
                } else if k > i {
                    assert(s@[i as int] != c);
                }
            }
            return Some(i);
        }
        i = i + 1;
    }
    None
}

/// `t` inserted into `s` before position `i`.
pub fn insert(s: &str, i: usize, t: &str) -> (out: String)
    requires
        i <= s@.len(),
    ensures
        out@ == insert_spec(s@, i as int, t@),
{
    let n = s.unicode_len();
    let mut out = String::from_str(s.substring_char(0, i));
    out.append(t);
    out.append(s.substring_char(i, n));
    out
}

} // verus!
