use vstd::prelude::*;

verus! {

pub open spec fn digit_char(d: nat) -> char {
    if d < 10 {
        ((d + 48) as u32) as char
    } else {
        ((d + 87) as u32) as char
    }
}

/// The decimal digits of `n`, most significant first.
pub open spec fn dec(n: nat) -> Seq<char>
    decreases n,
{
    if n < 10 {
        seq![digit_char(n)]
    } else {
        dec(n / 10).push(digit_char(n % 10))
    }
}

/// `n` in decimal, at least two digits wide, padded with a zero.
pub open spec fn dec2(n: nat) -> Seq<char> {
    if n < 10 {
        seq!['0'] + dec(n)
    } else {
        dec(n)
    }
}

/// A byte as two lower-case hexadecimal digits.
pub open spec fn hex2(b: nat) -> Seq<char> {
    seq![digit_char(b / 16), digit_char(b % 16)]
}

fn digit_str(d: u64) -> (r: &'static str)
    requires
        d < 16,
    ensures
        r@ == seq![digit_char(d as nat)],
{
    proof {
        reveal_strlit("0");
        reveal_strlit("1");
        reveal_strlit("2");
        reveal_strlit("3");
        reveal_strlit("4");
        reveal_strlit("5");
        reveal_strlit("6");
        reveal_strlit("7");
        reveal_strlit("8");
        reveal_strlit("9");
        reveal_strlit("a");
        reveal_strlit("b");
        reveal_strlit("c");
        reveal_strlit("d");
        reveal_strlit("e");
        reveal_strlit("f");
    }
    match d {
        0 => "0",
        1 => "1",
        2 => "2",
        3 => "3",
        4 => "4",
        5 => "5",
        6 => "6",
        7 => "7",
        8 => "8",
        9 => "9",
        10 => "a",
        11 => "b",
        12 => "c",
        13 => "d",
        14 => "e",
        _ => "f",
    }
}

/// Appends `n` in decimal.
pub fn push_decimal(s: &mut String, n: u64)
    ensures
        final(s)@ == old(s)@ + dec(n as nat),
    decreases n,
{
    if n >= 10 {
        push_decimal(s, n / 10);
    }
    s.append(digit_str(n % 10));
    assert(s@ =~= old(s)@ + dec(n as nat));
}

/// Appends `n` in decimal, at least two digits wide.
pub fn push_decimal2(s: &mut String, n: u64)
    ensures
        final(s)@ == old(s)@ + dec2(n as nat),
{
    if n < 10 {
        proof {
            reveal_strlit("0");
        }
        s.append("0");
    }
    push_decimal(s, n);
    assert(s@ =~= old(s)@ + dec2(n as nat));
}

/// Appends a byte as two lower-case hexadecimal digits.
pub fn push_hex2(s: &mut String, b: u8)
    ensures
        final(s)@ == old(s)@ + hex2(b as nat),
{
    s.append(digit_str((b / 16) as u64));
    s.append(digit_str((b % 16) as u64));
    assert(s@ =~= old(s)@ + hex2(b as nat));
}

/// The in-game time, given in milliseconds, as `IGT hh:mm:ss.cc`.
pub open spec fn igt_spec(ms: nat) -> Seq<char> {
    let total = ms / 1000;
    "IGT "@ + dec2(total / 3600) + ":"@ + dec2(total / 60 % 60) + ":"@ + dec2(total % 60) + "."@ + dec2(ms % 1000 / 10)
}

pub fn igt_text(ms: u32) -> (r: String)
    ensures
        r@ == igt_spec(ms as nat),
{
    let total = (ms / 1000) as u64;
    let mut s = String::from_str("IGT ");
    push_decimal2(&mut s, total / 3600);
    s.append(":");
    push_decimal2(&mut s, total / 60 % 60);
    s.append(":");
    push_decimal2(&mut s, total % 60);
    s.append(".");
    push_decimal2(&mut s, ((ms % 1000) / 10) as u64);
    s
}

/// A map identifier as `mAA_BB_CC_DD`, one hexadecimal byte per area field,
/// most significant first.
pub open spec fn map_id_spec(m: nat) -> Seq<char> {
    "m"@ + hex2(m / 0x1000000 % 256) + "_"@ + hex2(m / 0x10000 % 256) + "_"@ + hex2(m / 0x100 % 256) + "_"@ + hex2(m % 256)
}

pub fn map_id_text(m: u32) -> (r: String)
    ensures
        r@ == map_id_spec(m as nat),
{
    let mut s = String::from_str("m");
    push_hex2(&mut s, ((m / 0x1000000) % 256) as u8);
    s.append("_");
    push_hex2(&mut s, ((m / 0x10000) % 256) as u8);
    s.append("_");
    push_hex2(&mut s, ((m / 0x100) % 256) as u8);
    s.append("_");
    push_hex2(&mut s, (m % 256) as u8);
    s
}

pub open spec fn framecount_spec(n: nat) -> Seq<char> {
    "Frame count "@ + dec(n)
}

pub fn framecount_text(n: u32) -> (r: String)
    ensures
        r@ == framecount_spec(n as nat),
{
    let mut s = String::from_str("Frame count ");
    push_decimal(&mut s, n as u64);
    s
}

/// The game-version label: major, two-digit minor and patch.
pub open spec fn version_label_spec(major: nat, minor: nat, patch: nat) -> Seq<char> {
    "游戏版本 "@ + dec(major) + "."@ + dec2(minor) + "."@ + dec(patch)
}

pub fn version_label(major: u32, minor: u32, patch: u32) -> (r: String)
    ensures
        r@ == version_label_spec(major as nat, minor as nat, patch as nat),
{
    let mut s = String::from_str("游戏版本 ");
    push_decimal(&mut s, major as u64);
    s.append(".");
    push_decimal2(&mut s, minor as u64);
    s.append(".");
    push_decimal(&mut s, patch as u64);
    s
}

/// The position of the first occurrence of `needle` in `hay`, if any.
pub open spec fn first_occurrence(needle: Seq<char>, hay: Seq<char>) -> Option<int> {
    if exists|i: int| 0 <= i && i + needle.len() <= hay.len() && #[trigger] hay.subrange(i, i + needle.len()) == needle {
        Some(
            choose|i: int|
                0 <= i && i + needle.len() <= hay.len() && #[trigger] hay.subrange(i, i + needle.len()) == needle
                    && forall|j: int| 0 <= j < i ==> #[trigger] hay.subrange(j, j + needle.len()) != needle,
        )
    } else {
        None
    }
}

/// The first position at which `needle` occurs in `hay`.
pub fn find(hay: &str, needle: &str) -> (r: Option<usize>)
    ensures
        match r {
            Some(i) => first_occurrence(needle@, hay@) == Some(i as int) && i + needle@.len() <= hay@.len(),
            None => first_occurrence(needle@, hay@) is None,
        },
{
    let n = needle.unicode_len();
    let h = hay.unicode_len();
    if n > h {
        return None;
    }
    let mut i: usize = 0;
    while i <= h - n
        invariant
            n == needle@.len(),
            h == hay@.len(),
            n <= h,
            i <= h - n + 1,
            forall|k: int| 0 <= k < i ==> #[trigger] hay@.subrange(k, k + n) != needle@,
        decreases h - n + 1 - i,
    {
        let mut j: usize = 0;
        let mut same = true;
        while j < n
            invariant
                n == needle@.len(),
                h == hay@.len(),
                i + n <= h,
                j <= n,
                same == (forall|m: int| 0 <= m < j ==> hay@[i + m] == needle@[m]),
            decreases n - j,
        {
            if hay.get_char(i + j) != needle.get_char(j) {
                same = false;
            }
            j = j + 1;
        }
        if same {
            assert(hay@.subrange(i as int, i + n) =~= needle@);
            proof {
                let c = choose|c: int|
                    0 <= c && c + n <= h && #[trigger] hay@.subrange(c, c + n) == needle@ && forall|j: int|
                        0 <= j < c ==> #[trigger] hay@.subrange(j, j + n) != needle@;
                if c < i {
                } else if c > i {
                    assert(hay@.subrange(i as int, i + n) != needle@);
                }
            }
            return Some(i);
        }
        proof {
            if hay@.subrange(i as int, i + n) == needle@ {
                assert forall|m: int| 0 <= m < n implies hay@[i + m] == needle@[m] by {
                    assert(hay@.subrange(i as int, i + n)[m] == hay@[i + m]);
                }
            }
        }
        i = i + 1;
    }
    None
}

} // verus!
