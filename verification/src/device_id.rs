//! Parsing of the `vendor:product` device argument, both halves given in
//! hexadecimal.

use vstd::prelude::*;

use vstd::string::StrSliceExecFns;

verus! {

/// Whether `c` is an ASCII hexadecimal digit.
pub open spec fn is_hex_digit(c: char) -> bool {
    ||| '0' as u32 <= c as u32 <= '9' as u32
    ||| 'a' as u32 <= c as u32 <= 'f' as u32
    ||| 'A' as u32 <= c as u32 <= 'F' as u32
}

/// The value of one hexadecimal digit.
pub open spec fn hex_digit_value(c: char) -> int
    recommends
        is_hex_digit(c),
{
    if '0' as u32 <= c as u32 <= '9' as u32 {
        c as u32 - '0' as u32
    } else if 'a' as u32 <= c as u32 <= 'f' as u32 {
        c as u32 - 'a' as u32 + 10
    } else {
        c as u32 - 'A' as u32 + 10
    }
}

/// The value of a string of hexadecimal digits, most significant first.
pub open spec fn hex_value(s: Seq<char>) -> int
    decreases s.len(),
{
    if s.len() == 0 {
        0
    } else {
        hex_value(s.drop_last()) * 16 + hex_digit_value(s.last())
    }
}

/// Whether every character of `s` is a hexadecimal digit.
pub open spec fn all_hex_digits(s: Seq<char>) -> bool {
    forall|i: int| 0 <= i < s.len() ==> is_hex_digit(s[i])
}

/// The digits of a number: everything after an optional leading plus sign.
pub open spec fn hex_digits_part(s: Seq<char>) -> Seq<char> {
    if s.len() > 0 && s[0] == '+' {
        s.drop_first()
    } else {
        s
    }
}

/// Whether `s` is a hexadecimal number that fits in sixteen bits: an
/// optional plus sign, then at least one digit, with value at most `0xFFFF`.
pub open spec fn is_hex_u16(s: Seq<char>) -> bool {
    let d = hex_digits_part(s);
    d.len() > 0 && all_hex_digits(d) && hex_value(d) <= 0xFFFF
}

/// The index of the first colon in `s`, or a negative value when `s` holds
/// none.
pub open spec fn first_colon(s: Seq<char>) -> int
    decreases s.len(),
{
    if s.len() == 0 {
        -1
    } else if s[0] == ':' {
        0
    } else {
        let t = first_colon(s.drop_first());
        if t < 0 {
            -1
        } else {
            t + 1
        }
    }
}

proof fn lemma_first_colon_found(s: Seq<char>, i: int)
    requires
        0 <= i < s.len(),
        s[i] == ':',
        forall|j: int| 0 <= j < i ==> s[j] != ':',
    ensures
        first_colon(s) == i,
    decreases i,
{
    if i > 0 {
        assert(s[0] != ':');
        let t = s.drop_first();
        assert(t[i - 1] == s[i]);
        assert(forall|j: int| 0 <= j < i - 1 ==> t[j] == s[j + 1] && t[j] != ':');
        lemma_first_colon_found(t, i - 1);
    }
}

proof fn lemma_first_colon_none(s: Seq<char>)
    requires
        forall|j: int| 0 <= j < s.len() ==> s[j] != ':',
    ensures
        first_colon(s) == -1,
    decreases s.len(),
{
    if s.len() > 0 {
        let t = s.drop_first();
        assert(forall|j: int| 0 <= j < t.len() ==> t[j] == s[j + 1] && t[j] != ':');
        lemma_first_colon_none(t);
    }
}

/// The vendor half of the argument: everything before the first colon.
pub open spec fn vid_part(s: Seq<char>) -> Seq<char>
    recommends
        first_colon(s) >= 0,
{
    s.take(first_colon(s))
}

/// The product half of the argument: everything after the first colon.
pub open spec fn pid_part(s: Seq<char>) -> Seq<char>
    recommends
        first_colon(s) >= 0,
{
    s.skip(first_colon(s) + 1)
}

/// Parses a hexadecimal number that must fit in sixteen bits; `None` exactly
/// when the string is not such a number.
fn parse_hex_u16(s: &str) -> (r: Option<u16>)
    ensures
        is_hex_u16(s@) ==> 0 <= hex_value(hex_digits_part(s@)) <= 0xFFFF,
        is_hex_u16(s@) ==> r == Some(hex_value(hex_digits_part(s@)) as u16),
        !is_hex_u16(s@) ==> r is None,
{
    let n = s.unicode_len();
    if n == 0 {
        return None;
    }
    let mut start: usize = 0;
    if s.get_char(0) == '+' {
        if n == 1 {
            proof {
                assert(hex_digits_part(s@) =~= s@.drop_first());
            }
            return None;
        }
        start = 1;
    }
    proof {
        if start == 1 {
            assert(hex_digits_part(s@) =~= s@.subrange(1, n as int));
        } else {
            assert(hex_digits_part(s@) =~= s@.subrange(0, n as int));
        }
    }
    let ghost digits = hex_digits_part(s@);
    let mut acc: u32 = 0;
    let mut i: usize = start;
    while i < n
        invariant
            start <= i <= n,
            n == s@.len(),
            start <= 1,
            digits == hex_digits_part(s@),
            digits =~= s@.subrange(start as int, n as int),
            forall|j: int| start <= j < i ==> is_hex_digit(s@[j]),
            acc <= 0x10000,
            acc <= 0xFFFF ==> acc == hex_value(s@.subrange(start as int, i as int)),
            acc == 0x10000 ==> hex_value(s@.subrange(start as int, i as int)) > 0xFFFF,
        decreases n - i,
    {
        let c = s.get_char(i);
        let cv = c as u32;
        let d: u32;
        if cv >= 48 && cv <= 57 {
            d = cv - 48;
        } else if cv >= 97 && cv <= 102 {
            d = cv - 87;
        } else if cv >= 65 && cv <= 70 {
            d = cv - 55;
        } else {
            proof {
                assert(!is_hex_digit(s@[i as int]));
                assert(digits[i - start] == s@[i as int]);
                assert(!all_hex_digits(digits));
            }
            return None;
        }
        proof {
            assert(is_hex_digit(s@[i as int]));
            assert(d == hex_digit_value(s@[i as int]));
            let pre = s@.subrange(start as int, i as int);
            let post = s@.subrange(start as int, i + 1);
            assert(post.drop_last() =~= pre);
            assert(post.last() == s@[i as int]);
            assert(hex_value(post) == hex_value(pre) * 16 + d);
        }
        let next: u32 = acc * 16 + d;
        if next > 0xFFFF {
            acc = 0x10000;
        } else {
            acc = next;
        }
        i += 1;
    }
    proof {
        assert(s@.subrange(start as int, n as int) == digits);
    }
    if acc > 0xFFFF {
        None
    } else {
        Some(acc as u16)
    }
}

/// Parses a `vendor:product` device argument, both halves hexadecimal.
///
/// Splits at the first colon and fails with a descriptive message when there
/// is no colon or when either half is not a hexadecimal number that fits in
/// sixteen bits.
pub fn parse_device(input: String) -> (r: Result<(u16, u16), &'static str>)
    ensures
        match r {
            Ok(ids) => {
                &&& first_colon(input@) >= 0
                &&& is_hex_u16(vid_part(input@))
                &&& is_hex_u16(pid_part(input@))
                &&& ids.0 == hex_value(hex_digits_part(vid_part(input@)))
                &&& ids.1 == hex_value(hex_digits_part(pid_part(input@)))
            },
            Err(e) => {
                ||| (first_colon(input@) < 0 && e@ == "Device must be in form of XXXX:YYYY"@)
                ||| (first_colon(input@) >= 0 && !is_hex_u16(vid_part(input@)) && e@
                    == "Not a valid VID"@)
                ||| (first_colon(input@) >= 0 && is_hex_u16(vid_part(input@)) && !is_hex_u16(
                    pid_part(input@),
                ) && e@ == "Not a valid PID"@)
            },
        },
{
    let s = input.as_str();
    let n = s.unicode_len();
    let mut k: usize = 0;
    let mut found: bool = false;
    while !found && k < n
        invariant
            k <= n,
            n == s@.len(),
            !found ==> forall|j: int| 0 <= j < k ==> s@[j] != ':',
            found ==> k < n && s@[k as int] == ':' && forall|j: int| 0 <= j < k ==> s@[j] != ':',
        decreases n - k + (if found { 0int } else { 1int }),
    {
        if s.get_char(k) == ':' {
            found = true;
        } else {
            k += 1;
        }
    }
    if !found {
        proof {
            lemma_first_colon_none(s@);
        }
        return Err("Device must be in form of XXXX:YYYY");
    }
    proof {
        lemma_first_colon_found(s@, k as int);
    }
    let vid_str = s.substring_char(0, k);
    let pid_str = s.substring_char(k + 1, n);
    proof {
        assert(vid_str@ =~= vid_part(input@));
        assert(pid_str@ =~= pid_part(input@));
    }
    match parse_hex_u16(vid_str) {
        None => Err("Not a valid VID"),
        Some(vid) => match parse_hex_u16(pid_str) {
            None => Err("Not a valid PID"),
            Some(pid) => Ok((vid, pid)),
        },
    }
}

} // verus!
