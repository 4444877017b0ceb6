//! Parsing of CSS-style functional color notation, `hsl(...)` /
//! `hsla(...)` and the `hsv` analogues.
//!
//! The input is first brought into a canonical form: ASCII whitespace is
//! ignored wherever it stands and ASCII letters are lowered. The canonical
//! text must then be the family prefix, three (or, for the alpha form,
//! four) comma-separated decimal numerals, and a closing parenthesis.
//! A numeral is an optional sign and decimal digits with at most one
//! point; exponents and the named floating-point values are not part of
//! the grammar. Fraction digits past the third are dropped, so every
//! field value is an exact number of thousandths.
//!
//! Each field is range-checked against its positional channel: the first
//! against the hue range, a fourth against the alpha ratio range, the
//! others against the percent range. An out-of-range field makes the
//! whole parse fail; the parser rejects where numeric construction would
//! clamp.

use vstd::prelude::*;

use crate::error::{make_parse_err, ParseError};
use crate::normalize::{HUE_MAX, PERCENT_MAX, RATIO_MAX};

verus! {

/// ASCII whitespace, ignored anywhere in the input.
pub open spec fn is_ws(c: char) -> bool {
    c == ' ' || c == '\t' || c == '\n' || c == '\r'
}

/// An ASCII decimal digit.
pub open spec fn is_digit(c: char) -> bool {
    48 <= c as int <= 57
}

/// The numeric value of an ASCII decimal digit.
pub open spec fn digit_val(c: char) -> int {
    c as int - 48
}

/// An upper-case ASCII letter mapped to lower case; any other character
/// is kept.
pub open spec fn lower_char(c: char) -> char {
    if 65 <= c as int <= 90 {
        (c as int + 32) as char
    } else {
        c
    }
}

/// The canonical form of the input: ASCII whitespace removed, ASCII
/// letters lowered. Parsing happens on this form.
pub open spec fn canon(s: Seq<char>) -> Seq<char>
    decreases s.len(),
{
    if s.len() == 0 {
        Seq::empty()
    } else {
        let rest = canon(s.drop_last());
        if is_ws(s.last()) {
            rest
        } else {
            rest.push(lower_char(s.last()))
        }
    }
}

#[verifier::loop_isolation(false)]
fn canonicalize(s: &str) -> (v: Vec<char>)
    ensures
        v@ == canon(s@),
{
    let n = s.unicode_len();
    let mut v: Vec<char> = Vec::new();
    let mut i: usize = 0;
    while i < n
        invariant
            n == s@.len(),
            i <= n,
            v@ == canon(s@.take(i as int)),
        decreases n - i,
    {
        let c = s.get_char(i);
        proof {
            assert(s@.take(i + 1).drop_last() =~= s@.take(i as int));
            assert(s@.take(i + 1).last() == s@[i as int]);
        }
        if c == ' ' || c == '\t' || c == '\n' || c == '\r' {
            // whitespace is dropped
        } else if 'A' <= c && c <= 'Z' {
            let u = c as u32;
            proof {
                assert(u as int == c as int);
            }
            v.push(((u + 32) as u8) as char);
        } else {
            v.push(c);
        }
        i = i + 1;
    }
    proof {
        assert(s@.take(n as int) =~= s@);
    }
    v
}

/// The comma-separated fields of a sequence. Splitting the empty
/// sequence yields one empty field, as `str::split` does.
pub open spec fn split_fields(cs: Seq<char>) -> Seq<Seq<char>>
    decreases cs.len(),
{
    if cs.len() == 0 {
        seq![Seq::empty()]
    } else {
        let p = split_fields(cs.drop_last());
        if cs.last() == ',' {
            p.push(Seq::empty())
        } else {
            p.update(p.len() - 1, p.last().push(cs.last()))
        }
    }
}

proof fn lemma_split_fields_len(cs: Seq<char>)
    ensures
        split_fields(cs).len() >= 1,
    decreases cs.len(),
{
    if cs.len() > 0 {
        lemma_split_fields_len(cs.drop_last());
    }
}

#[verifier::loop_isolation(false)]
fn split_fields_exec(v: &Vec<char>, from: usize, to: usize) -> (fields: Vec<Vec<char>>)
    requires
        from <= to <= v@.len(),
    ensures
        fields.deep_view() == split_fields(v@.subrange(from as int, to as int)),
{
    let mut fields: Vec<Vec<char>> = Vec::new();
    let mut cur: Vec<char> = Vec::new();
    let mut i: usize = from;
    while i < to
        invariant
            from <= i <= to <= v@.len(),
            fields.deep_view().push(cur@) == split_fields(v@.subrange(from as int, i as int)),
        decreases to - i,
    {
        proof {
            lemma_split_fields_len(v@.subrange(from as int, i as int));
            let seg = v@.subrange(from as int, i + 1);
            assert(seg.drop_last() =~= v@.subrange(from as int, i as int));
            assert(seg.last() == v@[i as int]);
        }
        let ghost old_fields = fields.deep_view();
        let ghost old_cur = cur@;
        let c = v[i];
        if c == ',' {
            fields.push(cur);
            cur = Vec::new();
            proof {
                assert(fields.deep_view().push(cur@) =~~= old_fields.push(old_cur).push(
                    Seq::empty(),
                ));
            }
        } else {
            cur.push(c);
            proof {
                let p = old_fields.push(old_cur);
                assert(fields.deep_view().push(cur@) =~~= p.update(
                    p.len() - 1,
                    p.last().push(v@[i as int]),
                ));
            }
        }
        i = i + 1;
    }
    proof {
        lemma_split_fields_len(v@.subrange(from as int, to as int));
    }
    let ghost old_fields = fields.deep_view();
    fields.push(cur);
    proof {
        assert(fields.deep_view() =~~= old_fields.push(cur@));
    }
    fields
}

/// Position of the first point in a sequence.
pub open spec fn first_dot(s: Seq<char>) -> Option<int>
    decreases s.len(),
{
    if s.len() == 0 {
        None
    } else if s[0] == '.' {
        Some(0int)
    } else {
        match first_dot(s.subrange(1, s.len() as int)) {
            None => None,
            Some(j) => Some(j + 1),
        }
    }
}

/// Every character is an ASCII digit.
pub open spec fn all_digits(s: Seq<char>) -> bool {
    forall|i: int| 0 <= i < s.len() ==> is_digit(#[trigger] s[i])
}

/// The value of a digit sequence read in base ten.
pub open spec fn digits_val(s: Seq<char>) -> int
    decreases s.len(),
{
    if s.len() == 0 {
        0
    } else {
        digits_val(s.drop_last()) * 10 + digit_val(s.last())
    }
}

proof fn lemma_digits_val_nonneg(s: Seq<char>)
    requires
        all_digits(s),
    ensures
        digits_val(s) >= 0,
    decreases s.len(),
{
    if s.len() > 0 {
        assert(all_digits(s.drop_last()));
        lemma_digits_val_nonneg(s.drop_last());
    }
}

/// The fraction digits of a numeral, dropped after the third, read as
/// thousandths.
pub open spec fn frac_millis(fp: Seq<char>) -> int {
    if fp.len() == 0 {
        0
    } else if fp.len() == 1 {
        digits_val(fp) * 100
    } else if fp.len() == 2 {
        digits_val(fp) * 10
    } else {
        digits_val(fp.take(3))
    }
}

/// Well-formedness of an unsigned decimal numeral: digits around at most
/// one point, with at least one digit.
pub open spec fn num_body_valid(b: Seq<char>) -> bool {
    match first_dot(b) {
        None => b.len() > 0 && all_digits(b),
        Some(j) => b.len() > 1 && all_digits(b.take(j)) && all_digits(b.skip(j + 1)),
    }
}

/// Value of an unsigned decimal numeral, in thousandths.
pub open spec fn num_body_millis(b: Seq<char>) -> int {
    match first_dot(b) {
        None => digits_val(b) * 1000,
        Some(j) => digits_val(b.take(j)) * 1000 + frac_millis(b.skip(j + 1)),
    }
}

/// Well-formedness of a numeric field: an optional sign and a decimal
/// numeral.
pub open spec fn num_valid(f: Seq<char>) -> bool {
    if f.len() > 0 && (f[0] == '-' || f[0] == '+') {
        num_body_valid(f.skip(1))
    } else {
        num_body_valid(f)
    }
}

/// Signed value of a numeric field, in thousandths.
pub open spec fn num_millis(f: Seq<char>) -> int {
    if f.len() > 0 && f[0] == '-' {
        -num_body_millis(f.skip(1))
    } else if f.len() > 0 && f[0] == '+' {
        num_body_millis(f.skip(1))
    } else {
        num_body_millis(f)
    }
}

/// Characterizes what `first_dot` returns: the position it names holds a
/// point and nothing before it does; `None` means there is no point.
proof fn lemma_first_dot_spec(b: Seq<char>)
    ensures
        match first_dot(b) {
            None => forall|i: int| 0 <= i < b.len() ==> b[i] != '.',
            Some(j) => 0 <= j < b.len() && b[j] == '.' && (forall|i: int|
                0 <= i < j ==> b[i] != '.'),
        },
    decreases b.len(),
{
    if b.len() > 0 && b[0] != '.' {
        let t = b.subrange(1, b.len() as int);
        lemma_first_dot_spec(t);
        match first_dot(t) {
            None => {
                assert(forall|i: int| 0 <= i < b.len() ==> b[i] != '.') by {
                    assert(forall|i: int| 1 <= i < b.len() ==> b[i] == t[i - 1]);
                }
            },
            Some(j) => {
                assert(b[j + 1] == t[j]);
                assert(forall|i: int| 1 <= i < j + 1 ==> b[i] == t[i - 1]);
            },
        }
    }
}

/// Pins `first_dot` from a scan: all of `b` before `j` is free of points,
/// and `j` (if inside `b`) holds one.
proof fn lemma_first_dot_at(b: Seq<char>, j: int)
    requires
        0 <= j <= b.len(),
        forall|i: int| 0 <= i < j ==> b[i] != '.',
        j < b.len() ==> b[j] == '.',
    ensures
        first_dot(b) == if j == b.len() {
            None::<int>
        } else {
            Some(j)
        },
    decreases b.len(),
{
    if b.len() == 0 {
    } else if j == 0 {
        if j < b.len() {
        } else {
        }
    } else {
        let t = b.subrange(1, b.len() as int);
        assert(forall|i: int| 0 <= i < j - 1 ==> t[i] == b[i + 1] && b[i + 1] != '.');
        assert(j - 1 < t.len() ==> t[j - 1] == b[j]);
        lemma_first_dot_at(t, j - 1);
    }
}

/// Parses one field against an inclusive upper bound, in thousandths.
/// Returns the value exactly when the field is a well-formed numeral
/// whose value lies in `[0, max]`.
#[verifier::loop_isolation(false)]
#[verifier::rlimit(100)]
#[verifier::spinoff_prover]
fn parse_field(f: &Vec<char>, max: i64) -> (r: Option<i64>)
    requires
        0 <= max <= 1_000_000,
    ensures
        match r {
            Some(val) => num_valid(f@) && 0 <= num_millis(f@) <= max as int && val == num_millis(
                f@,
            ),
            None => !(num_valid(f@) && 0 <= num_millis(f@) <= max as int),
        },
{
    let len = f.len();
    let mut i: usize = 0;
    let mut neg = false;
    if len > 0 && (f[0] == '-' || f[0] == '+') {
        neg = f[0] == '-';
        i = 1;
    }
    let s0 = i;
    let ghost b = f@.skip(s0 as int);
    proof {
        if s0 == 0 {
            assert(b =~= f@);
        }
        assert((s0 == 1) <==> (f@.len() > 0 && (f@[0] == '-' || f@[0] == '+')));
        assert(neg <==> (s0 == 1 && f@[0] == '-'));
        assert(num_valid(f@) == num_body_valid(b));
        assert(num_millis(f@) == if neg {
            -num_body_millis(b)
        } else {
            num_body_millis(b)
        });
    }
    // scan the integer digits, up to the point or the end
    let mut int_val: i64 = 0;
    let mut big = false;
    let mut n_int: usize = 0;
    while i < len && f[i] != '.'
        invariant
            s0 <= i <= len,
            len == f@.len(),
            s0 <= 1,
            b == f@.skip(s0 as int),
            num_valid(f@) == num_body_valid(b),
            num_millis(f@) == if neg {
                -num_body_millis(b)
            } else {
                num_body_millis(b)
            },
            n_int == i - s0,
            forall|m: int| 0 <= m < i - s0 ==> b[m] != '.' && is_digit(#[trigger] b[m]),
            !big ==> 0 <= int_val < 10_000_000 && int_val == digits_val(b.take(i - s0)),
            big ==> digits_val(b.take(i - s0)) >= 10_000_000,
        decreases len - i,
    {
        let c = f[i];
        proof {
            assert(b[i - s0] == f@[i as int]);
            assert(('0' <= c && c <= '9') == is_digit(b[i - s0]));
        }
        if c < '0' || c > '9' {
            // neither a digit nor a point: the field is no numeral
            proof {
                lemma_first_dot_spec(b);
                match first_dot(b) {
                    None => {
                        assert(!all_digits(b));
                    },
                    Some(j) => {
                        assert(j > i - s0);
                        assert(b.take(j)[i - s0] == b[i - s0]);
                        assert(!all_digits(b.take(j)));
                    },
                }
                assert(!num_body_valid(b));
            }
            return None;
        }
        let u = c as u32;
        proof {
            assert(u as int == c as int);
        }
        let d = (u - 48) as i64;
        proof {
            let k = i - s0;
            assert(b.take(k + 1).drop_last() =~= b.take(k));
            assert(b.take(k + 1).last() == b[k]);
            assert(digits_val(b.take(k + 1)) == digits_val(b.take(k)) * 10 + digit_val(b[k]));
            assert(digit_val(b[k]) == d as int);
        }
        if !big {
            let nv = int_val * 10 + d;
            if nv >= 10_000_000 {
                big = true;
            } else {
                int_val = nv;
            }
        } else {
            proof {
                let k = i - s0;
                assert(digits_val(b.take(k + 1)) >= 10_000_000 * 10 + 0);
            }
        }
        n_int = n_int + 1;
        i = i + 1;
    }
    let millis: i64;
    if i == len {
        // no point: the whole body is integer digits
        proof {
            assert(b.take(len - s0) =~= b);
            lemma_first_dot_at(b, b.len() as int);
        }
        if n_int == 0 {
            return None;
        }
        if big {
            proof {
                lemma_digits_val_nonneg(b);
            }
            return None;
        }
        millis = int_val * 1000;
        proof {
            assert(num_body_valid(b));
            assert(num_body_millis(b) == millis as int);
        }
    } else {
        // a point: scan the fraction digits
        let ghost jd = i - s0;
        proof {
            lemma_first_dot_at(b, jd as int);
            assert(first_dot(b) == Some(jd as int));
        }
        i = i + 1;
        let fstart = i;
        let ghost fp = b.skip(jd + 1);
        proof {
            assert(fp =~= f@.skip(fstart as int));
        }
        let mut fv: i64 = 0;
        let mut n_frac: usize = 0;
        while i < len
            invariant
                fstart <= i <= len,
                len == f@.len(),
                s0 + 1 + n_int == fstart,
                num_valid(f@) == num_body_valid(b),
                first_dot(b) == Some(n_int as int),
                fp == b.skip(n_int + 1),
                fp == f@.skip(fstart as int),
                fp.len() == len - fstart,
                n_frac == i - fstart,
                forall|m: int| 0 <= m < i - fstart ==> is_digit(#[trigger] fp[m]),
                n_frac == 0 ==> fv == 0,
                n_frac == 1 ==> fv == digits_val(fp.take(1)) * 100,
                n_frac == 2 ==> fv == digits_val(fp.take(2)) * 10,
                n_frac >= 3 ==> fv == digits_val(fp.take(3)),
                0 <= fv <= 999,
            decreases len - i,
        {
            let c = f[i];
            proof {
                assert(fp[i - fstart] == f@[i as int]);
                assert(('0' <= c && c <= '9') == is_digit(fp[i - fstart]));
            }
            if c < '0' || c > '9' {
                proof {
                    assert(!all_digits(fp));
                    assert(!num_body_valid(b));
                }
                return None;
            }
            let u = c as u32;
            proof {
                assert(u as int == c as int);
            }
            let d = (u - 48) as i64;
            proof {
                let m = i - fstart;
                if m < 3 {
                    assert(fp.take(m + 1).drop_last() =~= fp.take(m));
                    assert(fp.take(m + 1).last() == fp[m]);
                    assert(digits_val(fp.take(m + 1)) == digits_val(fp.take(m)) * 10 + digit_val(
                        fp[m],
                    ));
                    assert(digits_val(fp.take(0)) == 0);
                    assert(digit_val(fp[m]) == d as int);
                }
            }
            if n_frac == 0 {
                fv = d * 100;
            } else if n_frac == 1 {
                fv = fv + d * 10;
            } else if n_frac == 2 {
                fv = fv + d;
            }
            n_frac = n_frac + 1;
            i = i + 1;
        }
        if n_int == 0 && n_frac == 0 {
            proof {
                assert(b.len() == 1);
                assert(!num_body_valid(b));
            }
            return None;
        }
        if big {
            proof {
                assert(all_digits(fp));
                lemma_digits_val_nonneg(fp);
                if fp.len() >= 3 {
                    assert(all_digits(fp.take(3))) by {
                        assert(forall|m: int|
                            0 <= m < 3 ==> #[trigger] fp.take(3)[m] == fp[m]);
                    }
                    lemma_digits_val_nonneg(fp.take(3));
                }
                assert(frac_millis(fp) >= 0);
            }
            return None;
        }
        millis = int_val * 1000 + fv;
        proof {
            assert(all_digits(fp));
            assert(all_digits(b.take(n_int as int))) by {
                assert(forall|m: int|
                    0 <= m < n_int ==> #[trigger] b.take(n_int as int)[m] == b[m]);
            }
            if fp.len() == 0 {
                assert(frac_millis(fp) == fv as int);
            } else if fp.len() == 1 {
                assert(fp.take(1) =~= fp);
                assert(frac_millis(fp) == fv as int);
            } else if fp.len() == 2 {
                assert(fp.take(2) =~= fp);
                assert(frac_millis(fp) == fv as int);
            } else {
                assert(frac_millis(fp) == fv as int);
            }
            assert(num_body_valid(b));
            assert(num_body_millis(b) == millis as int);
        }
    }
    proof {
        assert(num_valid(f@));
        if s0 == 1 {
            assert(f@[0] == '-' || f@[0] == '+');
            assert(neg <==> f@[0] == '-');
        } else {
            assert(f@.len() > 0 ==> !(f@[0] == '-' || f@[0] == '+'));
        }
    }
    if neg {
        if millis > 0 {
            return None;
        }
        proof {
            assert(num_millis(f@) == 0);
        }
        Some(0)
    } else {
        if millis > max {
            return None;
        }
        proof {
            assert(num_millis(f@) == millis as int);
        }
        Some(millis)
    }
}

/// Inclusive upper bound, in thousandths, for the field at position
/// `ind`: the first field is hue-like, a fourth is an alpha ratio, the
/// rest are percentages.
pub open spec fn max_by_ind(ind: int) -> int {
    if ind == 0 {
        HUE_MAX as int
    } else if ind == 3 {
        RATIO_MAX as int
    } else {
        PERCENT_MAX as int
    }
}

fn get_max_by_ind(ind: usize) -> (m: i64)
    ensures
        m == max_by_ind(ind as int),
        0 <= m <= 1_000_000,
{
    if ind == 0 {
        HUE_MAX
    } else if ind == 3 {
        RATIO_MAX
    } else {
        PERCENT_MAX
    }
}

/// The family tag of a color-space name: `"hsl"` and `"hsv"` are the
/// recognized families, named by their distinguishing letter.
pub open spec fn spec_family(name: Seq<char>) -> Option<char> {
    if name == "hsl"@ {
        Some('l')
    } else if name == "hsv"@ {
        Some('v')
    } else {
        None
    }
}

/// The textual forms that belong to a recognized family name: the plain
/// prefix, the alpha prefix, and the description used in parse errors.
pub fn strings_from_name(name: &str) -> (r: Option<(String, String, String)>)
    ensures
        match r {
            Some(t) => {
                &&& spec_family(name@) is Some
                &&& name@ == "hsl"@ ==> t.0@ == "hsl("@ && t.1@ == "hsla("@ && t.2@
                    == "hsl or hsla"@
                &&& name@ == "hsv"@ ==> t.0@ == "hsv("@ && t.1@ == "hsva("@ && t.2@
                    == "hsv or hsva"@
            },
            None => spec_family(name@) is None,
        },
{
    proof {
        reveal_strlit("hsl");
        reveal_strlit("hsv");
    }
    let n = name.unicode_len();
    if n != 3 {
        return None;
    }
    if name.get_char(0) != 'h' || name.get_char(1) != 's' {
        proof {
            assert(name@ != "hsl"@ && name@ != "hsv"@);
        }
        return None;
    }
    let c2 = name.get_char(2);
    if c2 == 'l' {
        proof {
            assert(name@ =~= "hsl"@);
        }
        Some((String::from_str("hsl("), String::from_str("hsla("), String::from_str("hsl or hsla")))
    } else if c2 == 'v' {
        proof {
            assert(name@ =~= "hsv"@);
        }
        Some((String::from_str("hsv("), String::from_str("hsva("), String::from_str("hsv or hsva")))
    } else {
        proof {
            assert(name@ != "hsl"@ && name@ != "hsv"@);
        }
        None
    }
}

/// The prefix of a family's plain or alpha notation.
pub open spec fn family_prefix(fam: char, alpha: bool) -> Seq<char> {
    if alpha {
        seq!['h', 's', fam, 'a', '(']
    } else {
        seq!['h', 's', fam, '(']
    }
}

/// Whether canonical text `cs` is a well-formed notation of the family:
/// the prefix, the right number of comma-separated numeral fields, each
/// in its positional range, and the closing parenthesis.
pub open spec fn accepts(cs: Seq<char>, fam: char, alpha: bool) -> bool {
    let pre = family_prefix(fam, alpha);
    &&& cs.len() > pre.len()
    &&& cs.take(pre.len() as int) == pre
    &&& cs.last() == ')'
    &&& {
        let fields = split_fields(cs.subrange(pre.len() as int, cs.len() - 1));
        &&& fields.len() == if alpha {
            4int
        } else {
            3int
        }
        &&& forall|i: int|
            0 <= i < fields.len() ==> num_valid(#[trigger] fields[i]) && 0 <= num_millis(fields[i])
                <= max_by_ind(i)
    }
}

/// The value, in thousandths, of field `i` of an accepted notation.
pub open spec fn field_millis(cs: Seq<char>, fam: char, alpha: bool, i: int) -> int {
    let pre = family_prefix(fam, alpha);
    num_millis(split_fields(cs.subrange(pre.len() as int, cs.len() - 1))[i])
}

/// Parses `s` as a `hsl(...)`/`hsla(...)` notation (or the `hsv`
/// analogue, by `col_type`). Returns the three field values and, for the
/// alpha form, the fourth, each in thousandths; fails with a
/// [`ParseError`] naming the input and the accepted forms otherwise.
#[verifier::loop_isolation(false)]
pub fn hsl_hsv_from_str(s: &str, col_type: &str) -> (res: Result<
    (crate::ColorTuple, Option<i64>),
    ParseError,
>)
    ensures
        spec_family(col_type@) is None ==> (res matches Err(e) && e.input@ == s@ && e.expected@
            == "undefined"@),
        spec_family(col_type@) matches Some(fam) ==> {
            let cs = canon(s@);
            &&& accepts(cs, fam, false) ==> (res matches Ok(t) && t.0.0 == field_millis(
                cs,
                fam,
                false,
                0,
            ) && t.0.1 == field_millis(cs, fam, false, 1) && t.0.2 == field_millis(cs, fam, false, 2)
                && t.1 is None)
            &&& accepts(cs, fam, true) ==> (res matches Ok(t) && t.0.0 == field_millis(
                cs,
                fam,
                true,
                0,
            ) && t.0.1 == field_millis(cs, fam, true, 1) && t.0.2 == field_millis(cs, fam, true, 2)
                && (t.1 matches Some(a) && a == field_millis(cs, fam, true, 3)))
            &&& !accepts(cs, fam, false) && !accepts(cs, fam, true) ==> (res matches Err(e)
                && e.input@ == s@ && (fam == 'l' ==> e.expected@ == "hsl or hsla"@) && (fam == 'v'
                ==> e.expected@ == "hsv or hsva"@))
        },
{
    let strs = strings_from_name(col_type);
    let (start, _start_a, err_name) = match strs {
        Some(t) => t,
        None => {
            return Err(make_parse_err(s, "undefined"));
        },
    };
    proof {
        reveal_strlit("hsl");
        reveal_strlit("hsv");
        reveal_strlit("hsl(");
        reveal_strlit("hsv(");
    }
    let fam = start.as_str().get_char(2);
    proof {
        assert(spec_family(col_type@) == Some(fam));
    }
    let v = canonicalize(s);
    let ghost cs = canon(s@);
    let n = v.len();
    let is_plain = n >= 5 && v[0] == 'h' && v[1] == 's' && v[2] == fam && v[3] == '(';
    let is_alpha = n >= 6 && v[0] == 'h' && v[1] == 's' && v[2] == fam && v[3] == 'a' && v[4]
        == '(';
    let ends = n >= 1 && v[n - 1] == ')';
    proof {
        if accepts(cs, fam, false) {
            assert(cs.take(4)[0] == 'h' && cs.take(4)[1] == 's' && cs.take(4)[2] == fam && cs.take(
                4,
            )[3] == '(');
            assert(is_plain && ends);
        }
        if accepts(cs, fam, true) {
            assert(cs.take(5)[0] == 'h' && cs.take(5)[1] == 's' && cs.take(5)[2] == fam && cs.take(
                5,
            )[3] == 'a' && cs.take(5)[4] == '(');
            assert(is_alpha && ends);
        }
        assert(!(is_plain && is_alpha));
    }
    if (!is_plain && !is_alpha) || !ends {
        return Err(make_parse_err(s, err_name.as_str()));
    }
    let start_ind: usize = if is_plain {
        4
    } else {
        5
    };
    proof {
        if is_plain {
            assert(cs.take(4) =~= family_prefix(fam, false));
            assert(!accepts(cs, fam, true));
        } else {
            assert(cs.take(5) =~= family_prefix(fam, true));
            assert(!accepts(cs, fam, false));
        }
    }
    let fields = split_fields_exec(&v, start_ind, n - 1);
    let ghost sfields = split_fields(cs.subrange(start_ind as int, cs.len() - 1));
    proof {
        assert(fields.deep_view() == sfields);
    }
    let flen = fields.len();
    if (is_plain && flen != 3) || (is_alpha && flen != 4) {
        proof {
            assert(sfields.len() == flen);
            assert(!accepts(cs, fam, false) && !accepts(cs, fam, true));
        }
        return Err(make_parse_err(s, err_name.as_str()));
    }
    let mut nums: Vec<i64> = Vec::new();
    let mut ind: usize = 0;
    while ind < flen
        invariant
            ind <= flen,
            flen == sfields.len(),
            fields.deep_view() == sfields,
            flen == fields@.len(),
            nums@.len() == ind,
            forall|j: int|
                0 <= j < ind ==> num_valid(#[trigger] sfields[j]) && 0 <= num_millis(sfields[j])
                    <= max_by_ind(j) && nums@[j] == num_millis(sfields[j]),
        decreases flen - ind,
    {
        let max = get_max_by_ind(ind);
        proof {
            assert(fields@[ind as int].deep_view() == sfields[ind as int]);
            assert(fields@[ind as int].deep_view() =~= fields@[ind as int]@);
        }
        match parse_field(&fields[ind], max) {
            Some(val) => {
                nums.push(val);
            },
            None => {
                proof {
                    assert(!(num_valid(sfields[ind as int]) && 0 <= num_millis(
                        sfields[ind as int],
                    ) <= max_by_ind(ind as int)));
                }
                return Err(make_parse_err(s, err_name.as_str()));
            },
        }
        ind = ind + 1;
    }
    proof {
        if is_plain {
            assert(accepts(cs, fam, false));
        } else {
            assert(accepts(cs, fam, true));
        }
    }
    let hsl = (nums[0], nums[1], nums[2]);
    let alpha = if is_alpha {
        Some(nums[3])
    } else {
        None
    };
    Ok((hsl, alpha))
}

} // verus!
