//! Executable string helpers proved against sequence-level specifications:
//! splitting on a separator, prefix and equality tests, locating a character,
//! and zero-padded decimal / hexadecimal digit rendering.

use vstd::prelude::*;
use vstd::string::*;

verus! {

/// The fields obtained by cutting `s` at every occurrence of `sep`, the
/// separators themselves dropped. Splitting never yields an empty sequence:
/// an input without separators is a single field, and the empty input is a
/// single empty field.
pub open spec fn split_chars(s: Seq<char>, sep: char) -> Seq<Seq<char>>
    decreases s.len(),
{
    if s.len() == 0 {
        seq![Seq::<char>::empty()]
    } else if s[0] == sep {
        seq![Seq::<char>::empty()] + split_chars(s.drop_first(), sep)
    } else {
        let rest = split_chars(s.drop_first(), sep);
        rest.update(0, seq![s[0]] + rest[0])
    }
}

pub proof fn lemma_split_chars_nonempty(s: Seq<char>, sep: char)
    ensures
        split_chars(s, sep).len() >= 1,
    decreases s.len(),
{
    if s.len() > 0 && s[0] != sep {
        lemma_split_chars_nonempty(s.drop_first(), sep);
    }
}

/// A string without separators splits into the single field that is the
/// whole string.
pub proof fn lemma_split_chars_no_sep(s: Seq<char>, sep: char)
    requires
        forall|j: int| 0 <= j < s.len() ==> s[j] != sep,
    ensures
        split_chars(s, sep) == seq![s],
    decreases s.len(),
{
    if s.len() == 0 {
        assert(split_chars(s, sep) =~~= seq![s]);
    } else {
        lemma_split_chars_no_sep(s.drop_first(), sep);
        let rest = split_chars(s.drop_first(), sep);
        assert(rest[0] == s.drop_first());
        assert(seq![s[0]] + s.drop_first() =~= s);
        assert(split_chars(s, sep) =~~= seq![s]);
    }
}

/// Splitting a string whose first separator stands at index `i` yields the
/// prefix before it, followed by the split of everything after it.
pub proof fn lemma_split_chars_first_sep(s: Seq<char>, sep: char, i: int)
    requires
        0 <= i < s.len(),
        s[i] == sep,
        forall|j: int| 0 <= j < i ==> s[j] != sep,
    ensures
        split_chars(s, sep) == seq![s.take(i)] + split_chars(s.skip(i + 1), sep),
    decreases i,
{
    if i == 0 {
        assert(s.take(0) =~= Seq::<char>::empty());
        assert(s.skip(1) =~= s.drop_first());
        assert(split_chars(s, sep) =~~= seq![s.take(0)] + split_chars(s.skip(1), sep));
    } else {
        let t = s.drop_first();
        assert(t[i - 1] == sep);
        assert(forall|j: int| 0 <= j < i - 1 ==> t[j] != sep);
        lemma_split_chars_first_sep(t, sep, i - 1);
        lemma_split_chars_nonempty(t.skip(i), sep);
        let rest = split_chars(t, sep);
        assert(rest[0] == t.take(i - 1));
        assert(seq![s[0]] + t.take(i - 1) =~= s.take(i));
        assert(t.skip(i) =~= s.skip(i + 1));
        assert(split_chars(s, sep) =~~= seq![s.take(i)] + split_chars(s.skip(i + 1), sep));
    }
}

/// The views of a sequence of owned strings.
pub open spec fn str_views(v: Seq<String>) -> Seq<Seq<char>> {
    v.map_values(|t: String| t@)
}

/// Splits `s` at every occurrence of `sep`, as `str::split` does.
pub fn split_str(s: &str, sep: char) -> (fields: Vec<String>)
    ensures
        str_views(fields@) == split_chars(s@, sep),
        fields@.len() >= 1,
{
    let n = s.unicode_len();
    let mut fields: Vec<String> = Vec::new();
    let mut start: usize = 0;
    let mut i: usize = 0;
    proof {
        assert(s@.skip(0) =~= s@);
        assert(str_views(fields@) + split_chars(s@, sep) =~= split_chars(s@, sep));
    }
    while i < n
        invariant
            start <= i <= n,
            n == s@.len(),
            forall|j: int| start <= j < i ==> s@[j] != sep,
            split_chars(s@, sep) == str_views(fields@) + split_chars(s@.skip(start as int), sep),
        decreases n - i,
    {
        let c = s.get_char(i);
        if c == sep {
            let piece = s.substring_char(start, i).to_owned();
            proof {
                let tail = s@.skip(start as int);
                assert(tail[i - start] == sep);
                assert(forall|j: int| 0 <= j < i - start ==> tail[j] != sep);
                lemma_split_chars_first_sep(tail, sep, i - start);
                assert(tail.take(i - start) =~= s@.subrange(start as int, i as int));
                assert(tail.skip(i - start + 1) =~= s@.skip(i + 1));
                assert(str_views(fields@.push(piece)) =~= str_views(fields@).push(piece@));
                assert(str_views(fields@.push(piece)) + split_chars(s@.skip(i + 1), sep)
                    =~= str_views(fields@) + (seq![piece@] + split_chars(s@.skip(i + 1), sep)));
            }
            fields.push(piece);
            start = i + 1;
        }
        i += 1;
    }
    let piece = s.substring_char(start, n).to_owned();
    proof {
        let tail = s@.skip(start as int);
        assert(forall|j: int| 0 <= j < tail.len() ==> tail[j] != sep);
        lemma_split_chars_no_sep(tail, sep);
        assert(piece@ =~= tail);
        assert(str_views(fields@.push(piece)) =~= str_views(fields@).push(piece@));
        assert(str_views(fields@).push(piece@) =~= str_views(fields@) + seq![tail]);
    }
    fields.push(piece);
    fields
}

/// Whether `p` is a prefix of `s`.
pub open spec fn chars_prefix(s: Seq<char>, p: Seq<char>) -> bool {
    p.len() <= s.len() && s.subrange(0, p.len() as int) == p
}

/// Whether `s` begins with `prefix`, compared character by character.
pub fn has_prefix(s: &str, prefix: &str) -> (r: bool)
    ensures
        r == chars_prefix(s@, prefix@),
{
    let np = prefix.unicode_len();
    let ns = s.unicode_len();
    if np > ns {
        return false;
    }
    let mut i: usize = 0;
    while i < np
        invariant
            i <= np,
            np <= ns,
            np == prefix@.len(),
            ns == s@.len(),
            forall|j: int| 0 <= j < i ==> s@[j] == prefix@[j],
        decreases np - i,
    {
        if s.get_char(i) != prefix.get_char(i) {
            assert(s@.subrange(0, np as int)[i as int] != prefix@[i as int]);
            return false;
        }
        i += 1;
    }
    proof {
        assert(s@.subrange(0, np as int) =~= prefix@);
    }
    true
}

/// Whether `a` and `b` hold the same characters.
pub fn str_eq(a: &str, b: &str) -> (r: bool)
    ensures
        r == (a@ == b@),
{
    let na = a.unicode_len();
    let nb = b.unicode_len();
    if na != nb {
        return false;
    }
    let mut i: usize = 0;
    while i < na
        invariant
            i <= na,
            na == a@.len(),
            na == b@.len(),
            forall|j: int| 0 <= j < i ==> a@[j] == b@[j],
        decreases na - i,
    {
        if a.get_char(i) != b.get_char(i) {
            return false;
        }
        i += 1;
    }
    proof {
        assert(a@ =~= b@);
    }
    true
}

/// The index of the first occurrence of `c` in `s`, if any.
pub fn find_char(s: &str, c: char) -> (r: Option<usize>)
    ensures
        r matches Some(i) ==> i < s@.len() && s@[i as int] == c && (forall|j: int|
            0 <= j < i ==> s@[j] != c),
        r is None ==> forall|j: int| 0 <= j < s@.len() ==> s@[j] != c,
{
    let n = s.unicode_len();
    let mut i: usize = 0;
    while i < n
        invariant
            i <= n,
            n == s@.len(),
            forall|j: int| 0 <= j < i ==> s@[j] != c,
        decreases n - i,
    {
        if s.get_char(i) == c {
            return Some(i);
        }
        i += 1;
    }
    None
}

/// The characters of `s` standing before its first occurrence of `c`; the
/// whole of `s` when `c` does not occur.
pub open spec fn before_first(s: Seq<char>, c: char) -> Seq<char>
    decreases s.len(),
{
    if s.len() == 0 {
        s
    } else if s[0] == c {
        Seq::<char>::empty()
    } else {
        seq![s[0]] + before_first(s.drop_first(), c)
    }
}

/// The characters of `s` standing after its first occurrence of `c`, or
/// nothing when `c` does not occur.
pub open spec fn after_first(s: Seq<char>, c: char) -> Option<Seq<char>>
    decreases s.len(),
{
    if s.len() == 0 {
        None
    } else if s[0] == c {
        Some(s.drop_first())
    } else {
        after_first(s.drop_first(), c)
    }
}

/// When `c` first occurs at index `i`, the cut falls exactly there.
pub proof fn lemma_first_occurrence_cut(s: Seq<char>, c: char, i: int)
    requires
        0 <= i < s.len(),
        s[i] == c,
        forall|j: int| 0 <= j < i ==> s[j] != c,
    ensures
        before_first(s, c) == s.take(i),
        after_first(s, c) == Some(s.skip(i + 1)),
    decreases i,
{
    if i == 0 {
        assert(before_first(s, c) =~= s.take(0));
        assert(s.drop_first() =~= s.skip(1));
    } else {
        let t = s.drop_first();
        lemma_first_occurrence_cut(t, c, i - 1);
        assert(seq![s[0]] + t.take(i - 1) =~= s.take(i));
        assert(t.skip(i) =~= s.skip(i + 1));
    }
}

/// When `c` does not occur, nothing is cut away.
pub proof fn lemma_no_occurrence_cut(s: Seq<char>, c: char)
    requires
        forall|j: int| 0 <= j < s.len() ==> s[j] != c,
    ensures
        before_first(s, c) == s,
        after_first(s, c) is None,
    decreases s.len(),
{
    if s.len() > 0 {
        lemma_no_occurrence_cut(s.drop_first(), c);
        assert(seq![s[0]] + s.drop_first() =~= s);
    }
}

/// Cuts `s` at the first occurrence of `c`, as `str::split_once` does: the
/// part before it, and the part after it when it occurs at all.
pub fn split_once_str(s: &str, c: char) -> (r: (String, Option<String>))
    ensures
        r.0@ == before_first(s@, c),
        r.1 matches Some(t) ==> after_first(s@, c) == Some(t@),
        r.1 is None <==> after_first(s@, c) is None,
{
    let n = s.unicode_len();
    match find_char(s, c) {
        Some(i) => {
            proof {
                lemma_first_occurrence_cut(s@, c, i as int);
                assert(s@.take(i as int) =~= s@.subrange(0, i as int));
                assert(s@.skip(i + 1) =~= s@.subrange(i + 1, n as int));
            }
            let head = s.substring_char(0, i).to_owned();
            let tail = s.substring_char(i + 1, n).to_owned();
            (head, Some(tail))
        },
        None => {
            proof {
                lemma_no_occurrence_cut(s@, c);
            }
            (s.to_owned(), None)
        },
    }
}

/// The strings of `v` from index `from` on, cloned.
pub fn tail_strings(v: &Vec<String>, from: usize) -> (r: Vec<String>)
    requires
        from <= v@.len(),
    ensures
        str_views(r@) == str_views(v@).skip(from as int),
{
    let mut r: Vec<String> = Vec::new();
    let mut i: usize = from;
    proof {
        assert(str_views(r@) =~= str_views(v@).subrange(from as int, from as int));
    }
    while i < v.len()
        invariant
            from <= i <= v@.len(),
            str_views(r@) == str_views(v@).subrange(from as int, i as int),
        decreases v@.len() - i,
    {
        let piece = v[i].clone();
        proof {
            assert(piece@ == v@[i as int]@);
            assert(str_views(r@.push(piece)) =~= str_views(r@).push(piece@));
            assert(str_views(v@).subrange(from as int, i + 1) =~= str_views(v@).subrange(
                from as int,
                i as int,
            ).push(v@[i as int]@));
        }
        r.push(piece);
        i += 1;
    }
    proof {
        assert(str_views(v@).subrange(from as int, v@.len() as int) =~= str_views(v@).skip(
            from as int,
        ));
    }
    r
}

/// The view of an optional owned string.
pub open spec fn option_view(o: Option<String>) -> Option<Seq<char>> {
    match o {
        Some(s) => Some(s@),
        None => None,
    }
}

/// The character for a single decimal digit; digits ten and above are clamped
/// to `'9'` so that the function is total.
pub open spec fn digit_char(d: u8) -> char {
    if d == 0 {
        '0'
    } else if d == 1 {
        '1'
    } else if d == 2 {
        '2'
    } else if d == 3 {
        '3'
    } else if d == 4 {
        '4'
    } else if d == 5 {
        '5'
    } else if d == 6 {
        '6'
    } else if d == 7 {
        '7'
    } else if d == 8 {
        '8'
    } else {
        '9'
    }
}

/// The decimal rendering of `n` zero-padded to at least two characters, as
/// `{:02}` formatting produces it.
pub open spec fn two_digit_dec(n: u8) -> Seq<char> {
    if n < 10 {
        seq!['0', digit_char(n)]
    } else if n < 100 {
        seq![digit_char(n / 10), digit_char(n % 10)]
    } else {
        seq![digit_char(n / 100), digit_char((n / 10) % 10), digit_char(n % 10)]
    }
}

fn digit_str(d: u8) -> (r: &'static str)
    requires
        d < 10,
    ensures
        r@ == seq![digit_char(d)],
{
    match d {
        0 => {
            proof {
                reveal_strlit("0");
            }
            assert("0"@ =~= seq![digit_char(0u8)]);
            "0"
        },
        1 => {
            proof {
                reveal_strlit("1");
            }
            assert("1"@ =~= seq![digit_char(1u8)]);
            "1"
        },
        2 => {
            proof {
                reveal_strlit("2");
            }
            assert("2"@ =~= seq![digit_char(2u8)]);
            "2"
        },
        3 => {
            proof {
                reveal_strlit("3");
            }
            assert("3"@ =~= seq![digit_char(3u8)]);
            "3"
        },
        4 => {
            proof {
                reveal_strlit("4");
            }
            assert("4"@ =~= seq![digit_char(4u8)]);
            "4"
        },
        5 => {
            proof {
                reveal_strlit("5");
            }
            assert("5"@ =~= seq![digit_char(5u8)]);
            "5"
        },
        6 => {
            proof {
                reveal_strlit("6");
            }
            assert("6"@ =~= seq![digit_char(6u8)]);
            "6"
        },
        7 => {
            proof {
                reveal_strlit("7");
            }
            assert("7"@ =~= seq![digit_char(7u8)]);
            "7"
        },
        8 => {
            proof {
                reveal_strlit("8");
            }
            assert("8"@ =~= seq![digit_char(8u8)]);
            "8"
        },
        _ => {
            proof {
                reveal_strlit("9");
            }
            assert("9"@ =~= seq![digit_char(9u8)]);
            "9"
        },
    }
}

/// Appends the zero-padded decimal rendering of `n` to `out`.
pub fn push_two_digit_dec(out: &mut String, n: u8)
    ensures
        final(out)@ == old(out)@ + two_digit_dec(n),
{
    if n < 10 {
        proof {
            reveal_strlit("0");
        }
        out.append("0");
        out.append(digit_str(n));
        assert(final(out)@ =~= old(out)@ + two_digit_dec(n));
    } else if n < 100 {
        out.append(digit_str(n / 10));
        out.append(digit_str(n % 10));
        assert(final(out)@ =~= old(out)@ + two_digit_dec(n));
    } else {
        out.append(digit_str(n / 100));
        out.append(digit_str((n / 10) % 10));
        out.append(digit_str(n % 10));
        assert(final(out)@ =~= old(out)@ + two_digit_dec(n));
    }
}

/// The character for a single hexadecimal digit in upper case; sixteen and
/// above are clamped to `'F'` so that the function is total.
pub open spec fn hex_char_upper(d: u8) -> char {
    if d < 10 {
        digit_char(d)
    } else if d == 10 {
        'A'
    } else if d == 11 {
        'B'
    } else if d == 12 {
        'C'
    } else if d == 13 {
        'D'
    } else if d == 14 {
        'E'
    } else {
        'F'
    }
}

/// The two-character upper-case hexadecimal rendering of a byte, as `{:02X}`
/// formatting produces it.
pub open spec fn two_digit_hex_upper(b: u8) -> Seq<char> {
    seq![hex_char_upper(b / 16), hex_char_upper(b % 16)]
}

fn hex_digit_str_upper(d: u8) -> (r: &'static str)
    requires
        d < 16,
    ensures
        r@ == seq![hex_char_upper(d)],
{
    if d < 10 {
        digit_str(d)
    } else {
        match d {
            10 => {
                proof {
                    reveal_strlit("A");
                }
                assert("A"@ =~= seq![hex_char_upper(10u8)]);
                "A"
            },
            11 => {
                proof {
                    reveal_strlit("B");
                }
                assert("B"@ =~= seq![hex_char_upper(11u8)]);
                "B"
            },
            12 => {
                proof {
                    reveal_strlit("C");
                }
                assert("C"@ =~= seq![hex_char_upper(12u8)]);
                "C"
            },
            13 => {
                proof {
                    reveal_strlit("D");
                }
                assert("D"@ =~= seq![hex_char_upper(13u8)]);
                "D"
            },
            14 => {
                proof {
                    reveal_strlit("E");
                }
                assert("E"@ =~= seq![hex_char_upper(14u8)]);
                "E"
            },
            _ => {
                proof {
                    reveal_strlit("F");
                }
                assert("F"@ =~= seq![hex_char_upper(15u8)]);
                "F"
            },
        }
    }
}

/// Appends the two-character upper-case hexadecimal rendering of `b` to
/// `out`.
pub fn push_two_digit_hex_upper(out: &mut String, b: u8)
    ensures
        final(out)@ == old(out)@ + two_digit_hex_upper(b),
{
    out.append(hex_digit_str_upper(b / 16));
    out.append(hex_digit_str_upper(b % 16));
    assert(final(out)@ =~= old(out)@ + two_digit_hex_upper(b));
}

} // verus!
