use vstd::prelude::*;

verus! {

/// The decimal digit character for a value below ten.
pub open spec fn spec_digit_char(d: int) -> char {
    if d == 0 {
        '0'
    } else if d == 1 {
        '1'
    } else if d == 2 {
        '2'
    } else if d == 3 {
        '3'
    } else if d == 4 {
        '4'
    } else if d == 5 {
        '5'
    } else if d == 6 {
        '6'
    } else if d == 7 {
        '7'
    } else if d == 8 {
        '8'
    } else {
        '9'
    }
}

/// The decimal text of a nonnegative integer, without sign or leading zeros
/// (a single zero for 0).
pub open spec fn spec_u64_string(n: nat) -> Seq<char>
    decreases n,
{
    if n < 10 {
        seq![spec_digit_char(n as int)]
    } else {
        spec_u64_string(n / 10).push(spec_digit_char((n % 10) as int))
    }
}

fn digit_str(d: u64) -> (r: &'static str)
    requires
        d < 10,
    ensures
        r@ =~= seq![spec_digit_char(d as int)],
{
    proof {
        reveal_strlit("0");
        reveal_strlit("1");
        reveal_strlit("2");
        reveal_strlit("3");
        reveal_strlit("4");
        reveal_strlit("5");
        reveal_strlit("6");
        reveal_strlit("7");
        reveal_strlit("8");
        reveal_strlit("9");
    }
    match d {
        0 => "0",
        1 => "1",
        2 => "2",
        3 => "3",
        4 => "4",
        5 => "5",
        6 => "6",
        7 => "7",
        8 => "8",
        _ => "9",
    }
}

/// Renders an unsigned integer in decimal, exactly as its contracts'
/// `spec_u64_string` describes it.
pub fn u64_to_string(n: u64) -> (r: String)
    ensures
        r@ =~= spec_u64_string(n as nat),
    decreases n,
{
    if n < 10 {
        digit_str(n).to_owned()
    } else {
        let mut r = u64_to_string(n / 10);
        r.append(digit_str(n % 10));
        r
    }
}

/// Character-for-character string equality, so that contracts can compare
/// views without relying on an unspecified std comparison.
pub fn str_eq(a: &str, b: &str) -> (r: bool)
    ensures
        r == (a@ == b@),
{
    let la = a.unicode_len();
    let lb = b.unicode_len();
    if la != lb {
        return false;
    }
    let mut i: usize = 0;
    while i < la
        invariant
            0 <= i <= la,
            la == a@.len(),
            la == b@.len(),
            forall|j: int| 0 <= j < i ==> a@[j] == b@[j],
        decreases la - i,
    {
        if a.get_char(i) != b.get_char(i) {
            return false;
        }
        i += 1;
    }
    proof {
        assert(a@ =~= b@);
    }
    true
}

/// Whether a character is a decimal digit.
pub open spec fn spec_is_digit(c: char) -> bool {
    48 <= c as int <= 57
}

/// The numeric value of a decimal digit character.
pub open spec fn spec_digit_val(c: char) -> int {
    c as int - 48
}

pub open spec fn spec_all_digits(s: Seq<char>) -> bool {
    forall|i: int| 0 <= i < s.len() ==> spec_is_digit(#[trigger] s[i])
}

/// The value of a sequence of decimal digit characters.
pub open spec fn spec_digits_val(s: Seq<char>) -> int
    decreases s.len(),
{
    if s.len() == 0 {
        0
    } else {
        spec_digits_val(s.drop_last()) * 10 + spec_digit_val(s.last())
    }
}

/// The digits of an integer text, after an optional leading sign.
pub open spec fn spec_unsigned_body(s: Seq<char>) -> Seq<char> {
    if s.len() > 0 && (s[0] == '+' || s[0] == '-') {
        s.drop_first()
    } else {
        s
    }
}

pub open spec fn spec_sign(s: Seq<char>) -> int {
    if s.len() > 0 && s[0] == '-' {
        -1
    } else {
        1
    }
}

/// The texts a 32-bit signed integer parse accepts: an optional `+` or `-`
/// sign, then one or more decimal digits, denoting a value in range.
pub open spec fn spec_is_i32_text(s: Seq<char>) -> bool {
    &&& spec_unsigned_body(s).len() > 0
    &&& spec_all_digits(spec_unsigned_body(s))
    &&& i32::MIN <= spec_sign(s) * spec_digits_val(spec_unsigned_body(s)) <= i32::MAX
}

/// The value an accepted integer text denotes.
pub open spec fn spec_i32_of_text(s: Seq<char>) -> int {
    spec_sign(s) * spec_digits_val(spec_unsigned_body(s))
}

proof fn lemma_digits_val_nonneg(s: Seq<char>)
    requires
        spec_all_digits(s),
    ensures
        spec_digits_val(s) >= 0,
    decreases s.len(),
{
    if s.len() > 0 {
        assert(spec_all_digits(s.drop_last()));
        lemma_digits_val_nonneg(s.drop_last());
    }
}

/// Reads a feature identifier: `Some` exactly on the texts
/// `spec_is_i32_text` accepts, with the value they denote.
pub fn parse_i32(s: &str) -> (r: Option<i32>)
    ensures
        r matches Some(v) ==> spec_is_i32_text(s@) && v as int == spec_i32_of_text(s@),
        r is None ==> !spec_is_i32_text(s@),
{
    let len = s.unicode_len();
    if len == 0 {
        return None;
    }
    let c0 = s.get_char(0);
    let neg = c0 == '-';
    let has_sign = neg || c0 == '+';
    let start: usize = if has_sign {
        1
    } else {
        0
    };
    if start == len {
        return None;
    }
    let ghost body = spec_unsigned_body(s@);
    proof {
        assert(body =~= s@.subrange(start as int, len as int));
    }
    let mut i: usize = start;
    let mut acc: u64 = 0;
    let mut too_big = false;
    while i < len
        invariant
            start <= i <= len,
            len == s@.len(),
            len >= 1,
            start == 0 || start == 1,
            neg == (s@[0] == '-'),
            start == 1 <==> (s@[0] == '+' || s@[0] == '-'),
            body == spec_unsigned_body(s@),
            body == s@.subrange(start as int, len as int),
            forall|j: int| start <= j < i ==> spec_is_digit(#[trigger] s@[j]),
            !too_big ==> acc == spec_digits_val(s@.subrange(start as int, i as int)) && acc
                <= 0x8000_0000,
            too_big ==> spec_digits_val(s@.subrange(start as int, i as int)) > 0x8000_0000,
        decreases len - i,
    {
        let c = s.get_char(i);
        let u = c as u32;
        if u < 48 || u > 57 {
            proof {
                assert(body[i - start] == s@[i as int]);
                assert(!spec_is_digit(body[i - start]));
            }
            return None;
        }
        let d = (u - 48) as u64;
        let ghost prefix = s@.subrange(start as int, i as int);
        let ghost extended = s@.subrange(start as int, i + 1 as int);
        proof {
            assert(extended =~= prefix.push(s@[i as int]));
            assert(extended.drop_last() =~= prefix);
            assert(spec_digits_val(extended) == spec_digits_val(prefix) * 10 + d);
        }
        if too_big {
            proof {
                assert(spec_digits_val(prefix) * 10 >= spec_digits_val(prefix)) by (nonlinear_arith)
                    requires
                        spec_digits_val(prefix) > 0x8000_0000,
                ;
                assert(spec_digits_val(extended) > 0x8000_0000);
            }
        } else {
            acc = acc * 10 + d;
            if acc > 0x8000_0000 {
                too_big = true;
            }
        }
        i += 1;
    }
    proof {
        assert(s@.subrange(start as int, len as int) =~= body);
        assert(spec_all_digits(body));
        lemma_digits_val_nonneg(body);
    }
    if too_big {
        return None;
    }
    if neg {
        let v = -(acc as i64);
        Some(v as i32)
    } else {
        if acc > 0x7FFF_FFFF {
            return None;
        }
        Some(acc as i32)
    }
}

} // verus!
