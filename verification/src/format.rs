//! Human-readable formatting helpers.
//!
//! Sizes are rendered with a binary unit chosen by magnitude, rounding
//! half to even as the display formatter does; slugs are lowered and
//! reduced to words separated by single hyphens.

use vstd::prelude::*;
use vstd::string::*;

verus! {

pub const KB: u64 = 1024;

pub const MB: u64 = 1024 * 1024;

pub const GB: u64 = 1024 * 1024 * 1024;

pub const TB: u64 = 1024 * 1024 * 1024 * 1024;

/// The decimal digit `d` as a character.
pub open spec fn digit_char(d: int) -> char {
    if d == 0 {
        '0'
    } else if d == 1 {
        '1'
    } else if d == 2 {
        '2'
    } else if d == 3 {
        '3'
    } else if d == 4 {
        '4'
    } else if d == 5 {
        '5'
    } else if d == 6 {
        '6'
    } else if d == 7 {
        '7'
    } else if d == 8 {
        '8'
    } else {
        '9'
    }
}

/// The decimal rendering of a non-negative integer, without leading
/// zeros.
pub open spec fn dec_str(n: int) -> Seq<char>
    recommends
        n >= 0,
    decreases n,
{
    if n < 10 {
        seq![digit_char(n)]
    } else {
        dec_str(n / 10) + seq![digit_char(n % 10)]
    }
}

/// The quotient of `num` by `den`, rounded to the nearest integer
/// with ties going to the even neighbour.
pub open spec fn round_half_even(num: int, den: int) -> int
    recommends
        den >= 1,
{
    let q = num / den;
    let r = num % den;
    if 2 * r < den {
        q
    } else if 2 * r > den {
        q + 1
    } else if q % 2 == 0 {
        q
    } else {
        q + 1
    }
}

/// The rendering of a byte count: the exact count under a kibibyte,
/// whole kibibytes and mebibytes, and one decimal place for gibibytes
/// and tebibytes.
pub open spec fn spec_format_size(bytes: int) -> Seq<char> {
    if bytes >= TB {
        let t = round_half_even(bytes * 10, TB as int);
        dec_str(t / 10) + "."@ + dec_str(t % 10) + " TB"@
    } else if bytes >= GB {
        let t = round_half_even(bytes * 10, GB as int);
        dec_str(t / 10) + "."@ + dec_str(t % 10) + " GB"@
    } else if bytes >= MB {
        dec_str(round_half_even(bytes, MB as int)) + " MB"@
    } else if bytes >= KB {
        dec_str(round_half_even(bytes, KB as int)) + " KB"@
    } else {
        dec_str(bytes) + " B"@
    }
}

/// One decimal digit as a string slice.
fn digit_str(d: u64) -> (r: &'static str)
    requires
        d < 10,
    ensures
        r@ == seq![digit_char(d as int)],
{
    proof {
        reveal_strlit("0");
        reveal_strlit("1");
        reveal_strlit("2");
        reveal_strlit("3");
        reveal_strlit("4");
        reveal_strlit("5");
        reveal_strlit("6");
        reveal_strlit("7");
        reveal_strlit("8");
        reveal_strlit("9");
    }
    let r = if d == 0 {
        "0"
    } else if d == 1 {
        "1"
    } else if d == 2 {
        "2"
    } else if d == 3 {
        "3"
    } else if d == 4 {
        "4"
    } else if d == 5 {
        "5"
    } else if d == 6 {
        "6"
    } else if d == 7 {
        "7"
    } else if d == 8 {
        "8"
    } else {
        "9"
    };
    proof {
        assert(r@ =~= seq![digit_char(d as int)]);
    }
    r
}

/// Render a non-negative integer in decimal.
pub fn decimal_string(n: u64) -> (s: String)
    ensures
        s@ == dec_str(n as int),
    decreases n,
{
    if n < 10 {
        String::from_str(digit_str(n))
    } else {
        let mut s = decimal_string(n / 10);
        s.append(digit_str(n % 10));
        s
    }
}

/// Divide and round half to even.
fn round_div(num: u128, den: u128) -> (r: u128)
    requires
        2 <= den,
        den <= 0xffff_ffff_ffff_ffffu128,
        num < 0xffff_ffff_ffff_ffff_ffff_ffff_ffff_ffffu128,
    ensures
        r == round_half_even(num as int, den as int),
        r <= num as int / den as int + 1,
{
    proof {
        vstd::arithmetic::div_mod::lemma_div_is_ordered_by_denominator(num as int, 1, den as int);
    }
    let q = num / den;
    let rem = num % den;
    if 2 * rem < den {
        q
    } else if 2 * rem > den {
        q + 1
    } else if q % 2 == 0 {
        q
    } else {
        q + 1
    }
}

/// Format a byte count as a human-readable size: bytes below a
/// kibibyte, whole kibibytes or mebibytes, one decimal place for
/// gibibytes and tebibytes, each with its unit.
pub fn format_size(bytes: u64) -> (s: String)
    ensures
        s@ == spec_format_size(bytes as int),
{
    if bytes >= TB {
        let t128 = round_div((bytes as u128) * 10, TB as u128);
        assert(t128 <= ((bytes as int) * 10) / (TB as int) + 1);
        let t = t128 as u64;
        let mut s = decimal_string(t / 10);
        s.append(".");
        s.append(digit_str(t % 10));
        s.append(" TB");
        proof {
            assert(s@ =~= spec_format_size(bytes as int));
        }
        s
    } else if bytes >= GB {
        let t128 = round_div((bytes as u128) * 10, GB as u128);
        assert(t128 <= ((bytes as int) * 10) / (GB as int) + 1);
        let t = t128 as u64;
        let mut s = decimal_string(t / 10);
        s.append(".");
        s.append(digit_str(t % 10));
        s.append(" GB");
        proof {
            assert(s@ =~= spec_format_size(bytes as int));
        }
        s
    } else if bytes >= MB {
        let v128 = round_div(bytes as u128, MB as u128);
        let v = v128 as u64;
        let mut s = decimal_string(v);
        s.append(" MB");
        proof {
            assert(s@ =~= spec_format_size(bytes as int));
        }
        s
    } else if bytes >= KB {
        let v128 = round_div(bytes as u128, KB as u128);
        let v = v128 as u64;
        let mut s = decimal_string(v);
        s.append(" KB");
        proof {
            assert(s@ =~= spec_format_size(bytes as int));
        }
        s
    } else {
        let mut s = decimal_string(bytes);
        s.append(" B");
        proof {
            assert(s@ =~= spec_format_size(bytes as int));
        }
        s
    }
}

/// The lowercase form of a character sequence. Lowering depends on
/// the characters alone.
pub uninterp spec fn lower_of(s: Seq<char>) -> Seq<char>;

/// Relies on str::to_lowercase: the result is a function of the
/// characters alone, an empty string stays empty, and the result is
/// itself lowercase, so lowering it again returns it unchanged.
#[verifier::external_body]
fn to_lowercase_string(s: &str) -> (r: String)
    ensures
        r@ == lower_of(s@),
        lower_of(r@) == r@,
        s@.len() == 0 ==> r@.len() == 0,
{
    s.to_lowercase()
}

/// Whether a character counts as alphanumeric. The answer depends on
/// the character alone.
pub uninterp spec fn is_alnum(c: char) -> bool;

/// Relies on char::is_alphanumeric: alphabetic or numeric per the
/// character tables, so the ASCII letters and digits are
/// alphanumeric, and ASCII separators and punctuation are not.
#[verifier::external_body]
fn char_is_alphanumeric(c: char) -> (r: bool)
    ensures
        r == is_alnum(c),
        ('a' <= c <= 'z' || 'A' <= c <= 'Z' || '0' <= c <= '9') ==> r,
        (c == '-' || c == '_' || c == ' ' || c == '.') ==> !r,
{
    c.is_alphanumeric()
}

/// The normalized tail of a slug: alphanumeric characters are kept as
/// words, everything else separates words, and words are joined by
/// single hyphens. `started` records whether a word was already
/// emitted, `in_word` whether the previous character extended one.
pub open spec fn slug_rest(s: Seq<char>, started: bool, in_word: bool) -> Seq<char>
    decreases s.len(),
{
    if s.len() == 0 {
        Seq::empty()
    } else if is_alnum(s[0]) {
        if started && !in_word {
            seq!['-', s[0]] + slug_rest(s.drop_first(), true, true)
        } else {
            seq![s[0]] + slug_rest(s.drop_first(), true, true)
        }
    } else {
        slug_rest(s.drop_first(), started, false)
    }
}

/// The normalized form of a slug: lowercased, with every run of
/// non-alphanumeric characters collapsed into a single hyphen and no
/// hyphen at either end.
pub open spec fn normalize_spec(s: Seq<char>) -> Seq<char> {
    slug_rest(lower_of(s), false, false)
}

/// The shape of a normalized slug: every character is one the filter
/// kept, or a hyphen that stands right before a kept character — so
/// hyphens come single, between words, never trailing, and a slug
/// built from nothing kept so far never opens with one.
pub proof fn lemma_slug_shape(s: Seq<char>, started: bool, in_word: bool)
    ensures
        forall|i: int|
            0 <= i < slug_rest(s, started, in_word).len() ==> is_alnum(
                #[trigger] slug_rest(s, started, in_word)[i],
            ) || (slug_rest(s, started, in_word)[i] == '-' && i + 1 < slug_rest(
                s,
                started,
                in_word,
            ).len() && is_alnum(slug_rest(s, started, in_word)[i + 1])),
        !started ==> (slug_rest(s, started, in_word).len() > 0 ==> is_alnum(
            slug_rest(s, started, in_word)[0],
        )),
    decreases s.len(),
{
    if s.len() == 0 {
    } else {
        let r = slug_rest(s, started, in_word);
        if is_alnum(s[0]) {
            let rest = slug_rest(s.drop_first(), true, true);
            lemma_slug_shape(s.drop_first(), true, true);
            if started && !in_word {
                assert(r == seq!['-', s[0]] + rest);
                assert forall|i: int| 0 <= i < r.len() implies is_alnum(#[trigger] r[i]) || (r[i]
                    == '-' && i + 1 < r.len() && is_alnum(r[i + 1])) by {
                    if i == 0 {
                        assert(r[1] == s[0]);
                    } else if i >= 2 {
                        assert(r[i] == rest[i - 2]);
                        if !is_alnum(rest[i - 2]) {
                            assert(rest[i - 2] == '-' && i - 1 < rest.len() && is_alnum(
                                rest[i - 1],
                            ));
                            assert(r[i + 1] == rest[i - 1]);
                        }
                    }
                }
            } else {
                assert(r == seq![s[0]] + rest);
                assert forall|i: int| 0 <= i < r.len() implies is_alnum(#[trigger] r[i]) || (r[i]
                    == '-' && i + 1 < r.len() && is_alnum(r[i + 1])) by {
                    if i >= 1 {
                        assert(r[i] == rest[i - 1]);
                        if !is_alnum(rest[i - 1]) {
                            assert(rest[i - 1] == '-' && i < rest.len() && is_alnum(rest[i]));
                            assert(r[i + 1] == rest[i]);
                        }
                    }
                }
            }
        } else {
            lemma_slug_shape(s.drop_first(), started, false);
            assert(r == slug_rest(s.drop_first(), started, false));
        }
    }
}

/// Normalize a slug: lowercase it, replace every run of
/// non-alphanumeric characters by one hyphen, and drop leading and
/// trailing hyphens.
pub fn normalize_slug(slug: &str) -> (r: String)
    ensures
        r@ == normalize_spec(slug@),
{
    let low = to_lowercase_string(slug);
    let lowstr = low.as_str();
    let len = lowstr.unicode_len();
    let mut out = String::new();
    let mut started = false;
    let mut in_word = false;
    let mut i: usize = 0;
    proof {
        reveal_strlit("-");
        assert(lowstr@.skip(0) =~= lowstr@);
        assert(out@ + slug_rest(lowstr@, false, false) =~= slug_rest(lowstr@, false, false));
    }
    while i < len
        invariant
            len == lowstr@.len(),
            lowstr@ == lower_of(slug@),
            0 <= i <= len,
            "-"@ =~= seq!['-'],
            out@ + slug_rest(lowstr@.skip(i as int), started, in_word) == normalize_spec(slug@),
        decreases len - i,
    {
        let ghost pre = lowstr@.skip(i as int);
        proof {
            assert(pre.drop_first() =~= lowstr@.skip(i + 1));
            assert(pre[0] == lowstr@[i as int]);
        }
        let c = lowstr.get_char(i);
        if char_is_alphanumeric(c) {
            if started && !in_word {
                out.append("-");
            }
            let piece = lowstr.substring_char(i, i + 1);
            proof {
                assert(piece@ =~= seq![c]);
            }
            out.append(piece);
            started = true;
            in_word = true;
        } else {
            in_word = false;
        }
        i += 1;
    }
    proof {
        assert(lowstr@.skip(len as int) =~= Seq::<char>::empty());
        assert(out@ =~= normalize_spec(slug@));
    }
    out
}

} // verus!
