use vstd::prelude::*;
use crate::text::spec_all_digits;
use crate::text::spec_is_digit;
use crate::text::spec_unsigned_body;

verus! {

/// What str::trim leaves of a text: a function of its characters alone.
pub uninterp spec fn trim_of(s: Seq<char>) -> Seq<char>;

/// Relies on str::trim: removes leading and trailing whitespace, so the
/// result depends on the characters alone.
#[verifier::external_body]
fn trim_ws(s: &str) -> (r: &str)
    ensures
        r@ == trim_of(s@),
{
    s.trim()
}

/// A text split on commas: always one more part than there are commas, each
/// part the run of characters between two of them.
pub open spec fn spec_split_commas(s: Seq<char>) -> Seq<Seq<char>>
    decreases s.len(),
{
    if s.len() == 0 {
        seq![Seq::<char>::empty()]
    } else if s[0] == ',' {
        seq![Seq::<char>::empty()] + spec_split_commas(s.drop_first())
    } else {
        let r = spec_split_commas(s.drop_first());
        seq![seq![s[0]] + r[0]] + r.drop_first()
    }
}

proof fn lemma_split_commas_len(s: Seq<char>)
    ensures
        spec_split_commas(s).len() >= 1,
    decreases s.len(),
{
    if s.len() > 0 {
        lemma_split_commas_len(s.drop_first());
    }
}

/// Extending the text by one character extends the split: a comma opens a
/// new empty part, any other character extends the last part.
proof fn lemma_split_commas_push(t: Seq<char>, c: char)
    ensures
        c == ',' ==> spec_split_commas(t.push(c)) == spec_split_commas(t).push(
            Seq::<char>::empty(),
        ),
        c != ',' ==> spec_split_commas(t.push(c)) == spec_split_commas(t).update(
            spec_split_commas(t).len() - 1,
            spec_split_commas(t).last().push(c),
        ),
    decreases t.len(),
{
    lemma_split_commas_len(t);
    if t.len() == 0 {
        assert(spec_split_commas(Seq::<char>::empty()) == seq![Seq::<char>::empty()]);
        if c == ',' {
            assert(t.push(c)[0] == c);
            assert(t.push(c).drop_first() =~= Seq::<char>::empty());
            assert(spec_split_commas(t.push(c)) =~~= spec_split_commas(t).push(
                Seq::<char>::empty(),
            ));
        } else {
            assert(t.push(c)[0] == c);
            assert(t.push(c).drop_first() =~= Seq::<char>::empty());
            assert(spec_split_commas(t.push(c)) =~~= spec_split_commas(t).update(
                0,
                spec_split_commas(t).last().push(c),
            ));
        }
    } else {
        let u = t.drop_first();
        lemma_split_commas_len(u);
        lemma_split_commas_push(u, c);
        assert(t.push(c)[0] == t[0]);
        assert(t.push(c).drop_first() =~= u.push(c));
        if t[0] == ',' {
            if c == ',' {
                assert(spec_split_commas(t.push(c)) =~~= spec_split_commas(t).push(
                    Seq::<char>::empty(),
                ));
            } else {
                assert(spec_split_commas(t.push(c)) =~~= spec_split_commas(t).update(
                    spec_split_commas(t).len() - 1,
                    spec_split_commas(t).last().push(c),
                ));
            }
        } else {
            let r = spec_split_commas(u);
            let r2 = spec_split_commas(u.push(c));
            if c == ',' {
                assert(r2 == r.push(Seq::<char>::empty()));
                assert(r2[0] == r[0]);
                assert(spec_split_commas(t.push(c)) =~~= spec_split_commas(t).push(
                    Seq::<char>::empty(),
                ));
            } else {
                assert(r2 == r.update(r.len() - 1, r.last().push(c)));
                if r.len() == 1 {
                    assert(spec_split_commas(t.push(c)) =~~= spec_split_commas(t).update(
                        spec_split_commas(t).len() - 1,
                        spec_split_commas(t).last().push(c),
                    ));
                } else {
                    assert(r2[0] == r[0]);
                    assert(spec_split_commas(t.push(c)) =~~= spec_split_commas(t).update(
                        spec_split_commas(t).len() - 1,
                        spec_split_commas(t).last().push(c),
                    ));
                }
            }
        }
    }
}

/// Splits a text on commas, exactly as `spec_split_commas` describes it.
pub fn split_commas(s: &str) -> (r: Vec<String>)
    ensures
        r@.len() == spec_split_commas(s@).len(),
        forall|i: int| 0 <= i < r@.len() ==> r@[i]@ == #[trigger] spec_split_commas(s@)[i],
{
    let len = s.unicode_len();
    let mut parts: Vec<String> = Vec::new();
    let mut start: usize = 0;
    let mut i: usize = 0;
    proof {
        assert(s@.take(0) =~= Seq::<char>::empty());
    }
    while i < len
        invariant
            0 <= start <= i <= len,
            len == s@.len(),
            parts@.len() + 1 == spec_split_commas(s@.take(i as int)).len(),
            forall|j: int|
                0 <= j < parts@.len() ==> parts@[j]@ == #[trigger] spec_split_commas(s@.take(i as int))[j],
            spec_split_commas(s@.take(i as int)).last() == s@.subrange(start as int, i as int),
        decreases len - i,
    {
        let c = s.get_char(i);
        proof {
            assert(s@.take(i + 1) =~= s@.take(i as int).push(s@[i as int]));
            lemma_split_commas_push(s@.take(i as int), s@[i as int]);
            lemma_split_commas_len(s@.take(i as int));
        }
        if c == ',' {
            let part = s.substring_char(start, i).to_owned();
            parts.push(part);
            start = i + 1;
            proof {
                assert(s@.subrange(start as int, i + 1) =~= Seq::<char>::empty());
            }
        } else {
            proof {
                assert(s@.subrange(start as int, i + 1) =~= s@.subrange(
                    start as int,
                    i as int,
                ).push(s@[i as int]));
            }
        }
        i += 1;
    }
    proof {
        assert(s@.take(len as int) =~= s@);
    }
    let last = s.substring_char(start, len).to_owned();
    parts.push(last);
    proof {
        lemma_split_commas_len(s@);
        assert(forall|j: int|
            0 <= j < parts@.len() ==> parts@[j]@ == #[trigger] spec_split_commas(s@)[j]);
    }
    parts
}

/// How many decimal digits the text starts with.
pub open spec fn spec_count_digits_prefix(t: Seq<char>) -> int
    decreases t.len(),
{
    if t.len() > 0 && spec_is_digit(t[0]) {
        1 + spec_count_digits_prefix(t.drop_first())
    } else {
        0
    }
}

proof fn lemma_digits_prefix(t: Seq<char>, i: int)
    requires
        0 <= i <= t.len(),
        forall|j: int| 0 <= j < i ==> spec_is_digit(#[trigger] t[j]),
        i == t.len() || !spec_is_digit(t[i]),
    ensures
        spec_count_digits_prefix(t) == i,
    decreases t.len(),
{
    if t.len() > 0 && spec_is_digit(t[0]) {
        assert(i >= 1);
        lemma_digits_prefix(t.drop_first(), i - 1);
    }
}

/// A float exponent suffix: nothing at all, or `e`/`E`, an optional sign,
/// and at least one digit reaching the end of the text.
pub open spec fn spec_is_exp_text(u: Seq<char>) -> bool {
    if u.len() == 0 {
        true
    } else {
        &&& (u[0] == 'e' || u[0] == 'E')
        &&& spec_unsigned_body(u.drop_first()).len() > 0
        &&& spec_all_digits(spec_unsigned_body(u.drop_first()))
    }
}

/// Case-insensitive match of one character against a lowercase letter.
pub open spec fn spec_char_ci_eq(a: char, lower: char) -> bool {
    a == lower || a as int + 32 == lower as int
}

pub open spec fn spec_matches_ci(t: Seq<char>, pat: Seq<char>) -> bool {
    t.len() == pat.len() && (forall|i: int|
        0 <= i < t.len() ==> spec_char_ci_eq(#[trigger] t[i], pat[i]))
}

/// The non-numeric float texts: infinities and the not-a-number value, in
/// any letter case.
pub open spec fn spec_is_special_float(t: Seq<char>) -> bool {
    spec_matches_ci(t, "inf"@) || spec_matches_ci(t, "infinity"@) || spec_matches_ci(t, "nan"@)
}

/// A float text after its optional sign: a special value, or digits with an
/// optional point and an optional exponent — `1`, `1.`, `1.5`, `.5`, each
/// with an exponent allowed, but never a point or sign without any digit.
pub open spec fn spec_is_float_body(t: Seq<char>) -> bool {
    if spec_is_special_float(t) {
        true
    } else {
        let d1 = spec_count_digits_prefix(t);
        if d1 > 0 {
            if t.len() == d1 {
                true
            } else if t[d1] == '.' {
                spec_is_exp_text(t.skip(d1 + 1 + spec_count_digits_prefix(t.skip(d1 + 1))))
            } else {
                spec_is_exp_text(t.skip(d1))
            }
        } else {
            t.len() > 1 && t[0] == '.' && spec_count_digits_prefix(t.skip(1)) > 0
                && spec_is_exp_text(t.skip(1 + spec_count_digits_prefix(t.skip(1))))
        }
    }
}

/// The texts the standard 64-bit float parse accepts: an optional sign, then
/// a number or a special value.
pub open spec fn spec_is_float_text(s: Seq<char>) -> bool {
    spec_is_float_body(spec_unsigned_body(s))
}

fn count_digits_from(s: &str, from: usize) -> (r: usize)
    requires
        from <= s@.len(),
    ensures
        from + r <= s@.len(),
        r == spec_count_digits_prefix(s@.skip(from as int)),
{
    let len = s.unicode_len();
    let mut i: usize = from;
    while i < len
        invariant
            from <= i <= len,
            len == s@.len(),
            forall|j: int| from <= j < i ==> spec_is_digit(#[trigger] s@[j]),
        decreases len - i,
    {
        let c = s.get_char(i);
        let u = c as u32;
        if u < 48 || u > 57 {
            proof {
                let t = s@.skip(from as int);
                assert(forall|j: int| 0 <= j < i - from ==> spec_is_digit(#[trigger] t[j]));
                assert(!spec_is_digit(t[i - from]));
                lemma_digits_prefix(t, i - from);
            }
            return i - from;
        }
        i += 1;
    }
    proof {
        let t = s@.skip(from as int);
        assert(forall|j: int| 0 <= j < len - from ==> spec_is_digit(#[trigger] t[j]));
        lemma_digits_prefix(t, len - from);
    }
    len - from
}

fn is_exp_from(s: &str, from: usize) -> (r: bool)
    requires
        from <= s@.len(),
    ensures
        r == spec_is_exp_text(s@.skip(from as int)),
{
    let len = s.unicode_len();
    let ghost u = s@.skip(from as int);
    if from == len {
        return true;
    }
    let c = s.get_char(from);
    if !(c == 'e' || c == 'E') {
        return false;
    }
    let ghost after_e = u.drop_first();
    proof {
        assert(after_e =~= s@.skip(from + 1));
    }
    let mut p = from + 1;
    if p < len {
        let cs = s.get_char(p);
        if cs == '+' || cs == '-' {
            p = p + 1;
        }
    }
    let ghost body = spec_unsigned_body(after_e);
    proof {
        assert(body =~= s@.skip(p as int));
    }
    if p == len {
        return false;
    }
    let digits = count_digits_from(s, p);
    if p + digits == len {
        proof {
            lemma_digits_prefix_all(s@.skip(p as int));
        }
        true
    } else {
        proof {
            let t = s@.skip(p as int);
            lemma_digits_prefix_stops(t);
            assert(!spec_is_digit(t[digits as int]));
        }
        false
    }
}

proof fn lemma_digits_prefix_all(t: Seq<char>)
    requires
        spec_count_digits_prefix(t) == t.len(),
    ensures
        spec_all_digits(t),
    decreases t.len(),
{
    if t.len() > 0 {
        assert(spec_is_digit(t[0]));
        lemma_digits_prefix_all(t.drop_first());
        assert forall|i: int| 0 <= i < t.len() implies spec_is_digit(#[trigger] t[i]) by {
            if i > 0 {
                assert(spec_is_digit(t.drop_first()[i - 1]));
            }
        }
    }
}

/// A digit scan's defining facts: it counts digits only and stops at the
/// first character that is none.
proof fn lemma_digits_prefix_stops(t: Seq<char>)
    ensures
        0 <= spec_count_digits_prefix(t) <= t.len(),
        spec_count_digits_prefix(t) < t.len() ==> !spec_is_digit(t[spec_count_digits_prefix(t)]),
    decreases t.len(),
{
    if t.len() > 0 && spec_is_digit(t[0]) {
        lemma_digits_prefix_stops(t.drop_first());
    }
}

fn matches_ci_at(s: &str, from: usize, pat: &str) -> (r: bool)
    requires
        from <= s@.len(),
    ensures
        r == spec_matches_ci(s@.skip(from as int), pat@),
{
    let len = s.unicode_len();
    let plen = pat.unicode_len();
    if len - from != plen {
        return false;
    }
    let mut i: usize = 0;
    while i < plen
        invariant
            0 <= i <= plen,
            len == s@.len(),
            plen == pat@.len(),
            from + plen == len,
            forall|j: int|
                0 <= j < i ==> spec_char_ci_eq(#[trigger] s@.skip(from as int)[j], pat@[j]),
        decreases plen - i,
    {
        let a = s.get_char(from + i);
        let p = pat.get_char(i);
        let au = a as u64;
        let pu = p as u64;
        if !(a == p || au + 32 == pu) {
            proof {
                assert(!spec_char_ci_eq(s@.skip(from as int)[i as int], pat@[i as int]));
            }
            return false;
        }
        i += 1;
    }
    true
}

fn is_special_float_at(s: &str, from: usize) -> (r: bool)
    requires
        from <= s@.len(),
    ensures
        r == spec_is_special_float(s@.skip(from as int)),
{
    if matches_ci_at(s, from, "inf") {
        return true;
    }
    if matches_ci_at(s, from, "infinity") {
        return true;
    }
    matches_ci_at(s, from, "nan")
}

/// Whether the standard 64-bit float parse accepts this text.
pub fn is_float_text(s: &str) -> (r: bool)
    ensures
        r == spec_is_float_text(s@),
{
    let len = s.unicode_len();
    let mut pos: usize = 0;
    if len > 0 {
        let c0 = s.get_char(0);
        if c0 == '+' || c0 == '-' {
            pos = 1;
        }
    }
    let ghost t = spec_unsigned_body(s@);
    proof {
        assert(t =~= s@.skip(pos as int));
    }
    if is_special_float_at(s, pos) {
        return true;
    }
    let d1 = count_digits_from(s, pos);
    if d1 > 0 {
        let after = pos + d1;
        if after == len {
            proof {
                assert(t.len() == d1);
            }
            return true;
        }
        if s.get_char(after) == '.' {
            proof {
                assert(t[d1 as int] == s@[after as int]);
                assert(s@.skip(after + 1) =~= t.skip(d1 + 1));
            }
            let d2 = count_digits_from(s, after + 1);
            let r = is_exp_from(s, after + 1 + d2);
            proof {
                assert(s@.skip(after + 1 + d2) =~= t.skip(
                    d1 + 1 + spec_count_digits_prefix(t.skip(d1 + 1)),
                ));
            }
            return r;
        }
        let r = is_exp_from(s, after);
        proof {
            assert(s@.skip(after as int) =~= t.skip(d1 as int));
            assert(t[d1 as int] == s@[after as int]);
        }
        return r;
    }
    if pos < len {
        let c = s.get_char(pos);
        if c == '.' {
            proof {
                assert(s@.skip(pos + 1) =~= t.skip(1));
            }
            let d2 = count_digits_from(s, pos + 1);
            if d2 > 0 {
                let r = is_exp_from(s, pos + 1 + d2);
                proof {
                    assert(s@.skip(pos + 1 + d2) =~= t.skip(
                        1 + spec_count_digits_prefix(t.skip(1)),
                    ));
                }
                return r;
            }
            return false;
        }
        return false;
    }
    false
}

/// Why a bbox text was rejected: one component the float parse refuses (the
/// first such), or an acceptable component list of the wrong length.
#[derive(Clone, Copy, Debug, PartialEq, Eq, Structural)]
pub enum BboxParseError {
    BadComponent(usize),
    WrongCount(usize),
}

/// Parses a comma-separated bbox text into its trimmed components. Every
/// component must be a float text — the first offender is reported — and
/// only then must there be exactly 4 or 6 of them.
pub fn parse_bbox_text(s: &str) -> (r: Result<Vec<String>, BboxParseError>)
    ensures
        match r {
            Ok(parts) => {
                &&& parts@.len() == spec_split_commas(s@).len()
                &&& (parts@.len() == 4 || parts@.len() == 6)
                &&& forall|i: int|
                    0 <= i < parts@.len() ==> #[trigger] parts@[i]@ == trim_of(
                        spec_split_commas(s@)[i],
                    ) && spec_is_float_text(parts@[i]@)
            },
            Err(BboxParseError::BadComponent(i)) => {
                &&& 0 <= i < spec_split_commas(s@).len()
                &&& !spec_is_float_text(trim_of(spec_split_commas(s@)[i as int]))
                &&& forall|j: int|
                    0 <= j < i ==> spec_is_float_text(trim_of(
                        #[trigger] spec_split_commas(s@)[j],
                    ))
            },
            Err(BboxParseError::WrongCount(n)) => {
                &&& n == spec_split_commas(s@).len()
                &&& n != 4
                &&& n != 6
                &&& forall|j: int|
                    0 <= j < n ==> spec_is_float_text(trim_of(#[trigger] spec_split_commas(s@)[j]))
            },
        },
{
    let raw = split_commas(s);
    let n = raw.len();
    let mut parts: Vec<String> = Vec::new();
    let mut i: usize = 0;
    while i < n
        invariant
            0 <= i <= n,
            n == raw@.len(),
            n == spec_split_commas(s@).len(),
            forall|j: int| 0 <= j < n ==> raw@[j]@ == #[trigger] spec_split_commas(s@)[j],
            parts@.len() == i,
            forall|j: int|
                0 <= j < i ==> #[trigger] parts@[j]@ == trim_of(spec_split_commas(s@)[j])
                    && spec_is_float_text(parts@[j]@),
        decreases n - i,
    {
        let trimmed = trim_ws(raw[i].as_str());
        if !is_float_text(trimmed) {
            proof {
                assert(raw@[i as int]@ == spec_split_commas(s@)[i as int]);
                assert forall|j: int|
                    0 <= j < i implies spec_is_float_text(trim_of(
                    #[trigger] spec_split_commas(s@)[j],
                )) by {
                    assert(parts@[j]@ == trim_of(spec_split_commas(s@)[j]));
                    assert(spec_is_float_text(parts@[j]@));
                }
            }
            return Err(BboxParseError::BadComponent(i));
        }
        parts.push(trimmed.to_owned());
        i += 1;
    }
    if n == 4 || n == 6 {
        Ok(parts)
    } else {
        proof {
            assert forall|j: int|
                0 <= j < n implies spec_is_float_text(trim_of(
                #[trigger] spec_split_commas(s@)[j],
            )) by {
                assert(parts@[j]@ == trim_of(spec_split_commas(s@)[j]));
                assert(spec_is_float_text(parts@[j]@));
            }
        }
        Err(BboxParseError::WrongCount(n))
    }
}

} // verus!
