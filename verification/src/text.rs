//! Characters and character sequences: the alphabet the grammars are written over.
//!
//! Every grammar of this crate is stated over `Seq<char>`, the view of a string.
//! The executable functions here turn a `&str` into its characters, compare and
//! cut strings, split and join them at a separator, and read and write decimal
//! numbers.

use vstd::prelude::*;
use vstd::string::*;

verus! {

broadcast use vstd::string::group_string_axioms;

/// An ASCII decimal digit, `0` to `9`.
pub open spec fn is_digit(c: char) -> bool {
    '0' <= c <= '9'
}

/// An ASCII lowercase letter, `a` to `z`.
pub open spec fn is_lower(c: char) -> bool {
    'a' <= c <= 'z'
}

/// An ASCII uppercase letter, `A` to `Z`.
pub open spec fn is_upper(c: char) -> bool {
    'A' <= c <= 'Z'
}

/// Every character of `s` is a decimal digit.
pub open spec fn all_digits(s: Seq<char>) -> bool {
    forall|i: int| 0 <= i < s.len() ==> is_digit(#[trigger] s[i])
}

/// Every character of `s` is an uppercase letter.
pub open spec fn all_upper(s: Seq<char>) -> bool {
    forall|i: int| 0 <= i < s.len() ==> is_upper(#[trigger] s[i])
}

/// Every character of `s` is an ASCII character: none lies above U+007F.
pub open spec fn all_ascii(s: Seq<char>) -> bool {
    forall|i: int| 0 <= i < s.len() ==> #[trigger] s[i] <= '\u{7f}'
}

/// A part of a run of digits is a run of digits.
pub proof fn lemma_all_digits_subrange(s: Seq<char>, from: int, to: int)
    requires
        all_digits(s),
        0 <= from <= to <= s.len(),
    ensures
        all_digits(s.subrange(from, to)),
{
    assert forall|i: int| 0 <= i < to - from implies is_digit(#[trigger] s.subrange(from, to)[i]) by {
        assert(is_digit(s[from + i]));
    }
}

/// The number a decimal digit stands for.
pub open spec fn digit_value(c: char) -> int {
    c as int - '0' as int
}

/// The number that a run of decimal digits denotes, most significant digit
/// first. Leading zeros do not change it; the empty run denotes zero.
pub open spec fn decimal_value(s: Seq<char>) -> int
    decreases s.len(),
{
    if s.len() == 0 {
        0
    } else {
        10 * decimal_value(s.drop_last()) + digit_value(s.last())
    }
}

/// Ten to the power `k`.
pub open spec fn pow10(k: nat) -> int
    decreases k,
{
    if k == 0 {
        1
    } else {
        10 * pow10((k - 1) as nat)
    }
}

/// A run of `k` digits denotes a number from 0 up to, not including, `10^k`.
pub proof fn lemma_decimal_value_bounds(s: Seq<char>)
    requires
        all_digits(s),
    ensures
        0 <= decimal_value(s) < pow10(s.len()),
    decreases s.len(),
{
    if s.len() > 0 {
        lemma_decimal_value_bounds(s.drop_last());
        assert(is_digit(s[s.len() - 1]));
    }
}

/// The pieces of `s` between the occurrences of `sep`, in order. There is
/// always one piece more than there are separators: the empty sequence splits
/// into one empty piece, and a trailing separator is followed by an empty piece.
pub open spec fn split(s: Seq<char>, sep: char) -> Seq<Seq<char>>
    decreases s.len(),
{
    if s.len() == 0 {
        seq![Seq::<char>::empty()]
    } else {
        let before = split(s.drop_last(), sep);
        if s.last() == sep {
            before.push(Seq::<char>::empty())
        } else {
            before.drop_last().push(before.last().push(s.last()))
        }
    }
}

/// The pieces of `parts` written one after the other with `sep` between each
/// two neighbours.
pub open spec fn join(parts: Seq<Seq<char>>, sep: char) -> Seq<char>
    decreases parts.len(),
{
    if parts.len() == 0 {
        Seq::<char>::empty()
    } else if parts.len() == 1 {
        parts[0]
    } else {
        join(parts.drop_last(), sep).push(sep) + parts.last()
    }
}

/// No piece of `parts` holds the character `c`.
pub open spec fn free_of(parts: Seq<Seq<char>>, c: char) -> bool {
    forall|i: int, j: int|
        0 <= i < parts.len() && 0 <= j < parts[i].len() ==> #[trigger] parts[i][j] != c
}

/// A split has at least one piece.
pub proof fn lemma_split_nonempty(s: Seq<char>, sep: char)
    ensures
        split(s, sep).len() >= 1,
    decreases s.len(),
{
    if s.len() > 0 {
        lemma_split_nonempty(s.drop_last(), sep);
    }
}

/// Appending a text without separators to `s` extends the last piece of its split.
pub proof fn lemma_split_append_plain(s: Seq<char>, t: Seq<char>, sep: char)
    requires
        forall|j: int| 0 <= j < t.len() ==> t[j] != sep,
    ensures
        split(s + t, sep) == split(s, sep).drop_last().push(split(s, sep).last() + t),
    decreases t.len(),
{
    lemma_split_nonempty(s, sep);
    if t.len() == 0 {
        assert(s + t =~= s);
        assert(split(s, sep).last() + t =~= split(s, sep).last());
        assert(split(s, sep).drop_last().push(split(s, sep).last()) =~= split(s, sep));
    } else {
        let t0 = t.drop_last();
        lemma_split_append_plain(s, t0, sep);
        assert((s + t).drop_last() =~= s + t0);
        assert((s + t).last() == t.last());
        assert(t[t.len() - 1] != sep);
        let before = split(s + t0, sep);
        assert(before.last().push(t.last()) =~= split(s, sep).last() + t);
        assert(before.drop_last() =~= split(s, sep).drop_last());
    }
}

/// Splitting undoes joining, for at least one piece and pieces that do not
/// themselves hold the separator.
pub proof fn lemma_split_join(parts: Seq<Seq<char>>, sep: char)
    requires
        parts.len() >= 1,
        free_of(parts, sep),
    ensures
        split(join(parts, sep), sep) == parts,
    decreases parts.len(),
{
    let last = parts.last();
    assert forall|j: int| 0 <= j < last.len() implies last[j] != sep by {
        assert(parts[parts.len() - 1][j] != sep);
    }
    if parts.len() == 1 {
        lemma_split_append_plain(Seq::<char>::empty(), last, sep);
        assert(Seq::<char>::empty() + last =~= last);
        assert(split(Seq::<char>::empty(), sep) =~= seq![Seq::<char>::empty()]);
        assert(seq![Seq::<char>::empty()].drop_last().push(Seq::<char>::empty() + last) =~= parts);
    } else {
        let init = parts.drop_last();
        assert forall|i: int, j: int| 0 <= i < init.len() && 0 <= j < init[i].len() implies
            #[trigger] init[i][j] != sep by {
            assert(parts[i][j] != sep);
        }
        lemma_split_join(init, sep);
        let head = join(init, sep).push(sep);
        assert(head.drop_last() =~= join(init, sep));
        assert(split(head, sep) == init.push(Seq::<char>::empty()));
        lemma_split_append_plain(head, last, sep);
        assert(init.push(Seq::<char>::empty()).drop_last() =~= init);
        assert(Seq::<char>::empty() + last =~= last);
        assert(init.push(last) =~= parts);
    }
}

/// Whether `c` is a decimal digit.
pub fn char_is_digit(c: char) -> (yes: bool)
    ensures
        yes == is_digit(c),
{
    '0' <= c && c <= '9'
}

/// Whether `c` is a lowercase letter.
pub fn char_is_lower(c: char) -> (yes: bool)
    ensures
        yes == is_lower(c),
{
    'a' <= c && c <= 'z'
}

/// Whether `c` is an uppercase letter.
pub fn char_is_upper(c: char) -> (yes: bool)
    ensures
        yes == is_upper(c),
{
    'A' <= c && c <= 'Z'
}

/// The characters of `s`, in order.
pub fn chars_of(s: &str) -> (v: Vec<char>)
    ensures
        v@ == s@,
{
    let mut v: Vec<char> = Vec::new();
    for c in it: s.chars()
        invariant
            it.seq() == s@,
            v@ == it.seq().take(it.index()),
    {
        v.push(c);
    }
    v
}

/// Whether every character of `s` is an ASCII character.
pub fn text_is_ascii(s: &str) -> (yes: bool)
    ensures
        yes == all_ascii(s@),
{
    let v = chars_of(s);
    let mut i: usize = 0;
    while i < v.len()
        invariant
            i <= v.len(),
            v@ == s@,
            forall|j: int| 0 <= j < i ==> #[trigger] v@[j] <= '\u{7f}',
        decreases v.len() - i,
    {
        if v[i] > '\u{7f}' {
            return false;
        }
        i += 1;
    }
    true
}

/// Whether two strings hold the same characters.
pub fn str_eq(a: &str, b: &str) -> (same: bool)
    ensures
        same == (a@ == b@),
{
    let x = chars_of(a);
    spells(&x, b)
}

/// Whether the characters `v` are exactly those of `word`.
pub fn spells(v: &Vec<char>, word: &str) -> (same: bool)
    ensures
        same == (v@ == word@),
{
    let w = chars_of(word);
    if v.len() != w.len() {
        return false;
    }
    let mut i: usize = 0;
    while i < v.len()
        invariant
            i <= v.len(),
            v.len() == w.len(),
            w@ == word@,
            forall|j: int| 0 <= j < i ==> v@[j] == w@[j],
        decreases v.len() - i,
    {
        if v[i] != w[i] {
            return false;
        }
        i += 1;
    }
    assert(v@ =~= word@);
    true
}

/// `s` begins with `prefix`.
pub open spec fn has_prefix(s: Seq<char>, prefix: Seq<char>) -> bool {
    prefix.len() <= s.len() && s.subrange(0, prefix.len() as int) == prefix
}

/// Whether the characters `v` begin with those of `word`.
pub fn begins_with(v: &Vec<char>, word: &str) -> (yes: bool)
    ensures
        yes == has_prefix(v@, word@),
{
    let w = chars_of(word);
    if v.len() < w.len() {
        return false;
    }
    let mut i: usize = 0;
    while i < w.len()
        invariant
            i <= w.len() <= v.len(),
            w@ == word@,
            forall|j: int| 0 <= j < i ==> v@[j] == w@[j],
        decreases w.len() - i,
    {
        if v[i] != w[i] {
            proof {
                assert(v@.subrange(0, w.len() as int)[i as int] == v@[i as int]);
            }
            return false;
        }
        i += 1;
    }
    assert(v@.subrange(0, w.len() as int) =~= word@);
    true
}

/// The characters of `s` from position `from` up to, not including, `to`, as
/// a string of their own. Positions count characters, not bytes.
pub fn substring(s: &str, from: usize, to: usize) -> (piece: String)
    requires
        from <= to <= s@.len(),
    ensures
        piece@ == s@.subrange(from as int, to as int),
{
    s.substring_char(from, to).to_owned()
}

/// Splits `s` at every occurrence of `sep`.
pub fn split_on(s: &str, sep: char) -> (pieces: Vec<String>)
    ensures
        pieces.deep_view() == split(s@, sep),
{
    let v = chars_of(s);
    let mut pieces: Vec<String> = Vec::new();
    let mut start: usize = 0;
    let mut i: usize = 0;
    proof {
        assert(v@.take(0) =~= Seq::<char>::empty());
        assert(pieces.deep_view().push(v@.subrange(0, 0)) =~= seq![Seq::<char>::empty()]);
    }
    while i < v.len()
        invariant
            v@ == s@,
            start <= i <= v.len(),
            pieces.deep_view().push(v@.subrange(start as int, i as int)) == split(
                v@.take(i as int),
                sep,
            ),
        decreases v.len() - i,
    {
        proof {
            assert(v@.take(i + 1).drop_last() =~= v@.take(i as int));
            assert(v@.take(i + 1).last() == v@[i as int]);
        }
        let ghost before = pieces.deep_view();
        let ghost current = v@.subrange(start as int, i as int);
        if v[i] == sep {
            let piece = substring(s, start, i);
            pieces.push(piece);
            start = i + 1;
            proof {
                assert(pieces.deep_view() =~= before.push(current));
                assert(v@.subrange(start as int, start as int) =~= Seq::<char>::empty());
            }
        } else {
            proof {
                assert(before.push(current).drop_last() =~= before);
                assert(current.push(v@[i as int]) =~= v@.subrange(start as int, i + 1));
            }
        }
        i += 1;
    }
    let piece = substring(s, start, i);
    pieces.push(piece);
    proof {
        assert(v@.take(i as int) =~= v@);
    }
    pieces
}

/// Writes the strings of `parts` one after the other, with a comma between
/// each two neighbours.
pub fn join_commas(parts: &Vec<String>) -> (s: String)
    ensures
        s@ == join(parts.deep_view(), ','),
{
    let mut s = String::new();
    let mut i: usize = 0;
    proof {
        reveal_strlit(",");
        assert(parts.deep_view().take(0) =~= Seq::<Seq<char>>::empty());
    }
    while i < parts.len()
        invariant
            i <= parts.len(),
            s@ == join(parts.deep_view().take(i as int), ','),
            ","@ == seq![','],
        decreases parts.len() - i,
    {
        proof {
            let now = parts.deep_view().take(i + 1);
            assert(now.drop_last() =~= parts.deep_view().take(i as int));
            assert(now.last() == parts@[i as int]@);
            if i == 0 {
                assert(s@ + parts@[0]@ =~= parts@[0]@);
            } else {
                assert(s@ + ","@ =~= s@.push(','));
            }
        }
        if i > 0 {
            s.append(",");
        }
        s.append(parts[i].as_str());
        i += 1;
    }
    proof {
        assert(parts.deep_view().take(i as int) =~= parts.deep_view());
    }
    s
}

/// Powers of ten grow with the exponent.
pub proof fn lemma_pow10_monotone(a: nat, b: nat)
    requires
        a <= b,
    ensures
        1 <= pow10(a) <= pow10(b),
    decreases b,
{
    if b > 0 {
        if a == b {
            lemma_pow10_monotone((a - 1) as nat, (b - 1) as nat);
        } else {
            lemma_pow10_monotone(a, (b - 1) as nat);
        }
    }
}

/// The number written by the digits of `v` from position `from` up to, not
/// including, `to`. The caller's grammar has already found digits there, and
/// at most nine of them, so the number fits.
pub fn number_at(v: &Vec<char>, from: usize, to: usize) -> (n: u32)
    requires
        from <= to <= v.len(),
        to - from <= 9,
        all_digits(v@.subrange(from as int, to as int)),
    ensures
        n == decimal_value(v@.subrange(from as int, to as int)),
{
    let mut n: u32 = 0;
    let mut i: usize = from;
    while i < to
        invariant
            from <= i <= to <= v.len(),
            to - from <= 9,
            all_digits(v@.subrange(from as int, to as int)),
            n == decimal_value(v@.subrange(from as int, i as int)),
            0 <= n < pow10((i - from) as nat),
        decreases to - i,
    {
        let c = v[i];
        proof {
            let run = v@.subrange(from as int, to as int);
            assert(is_digit(run[i - from]));
            assert(v@.subrange(from as int, i + 1).drop_last() =~= v@.subrange(
                from as int,
                i as int,
            ));
            lemma_pow10_monotone((i - from) as nat, 8);
            assert(pow10(8) == 100_000_000) by {
                reveal_with_fuel(pow10, 9);
            }
        }
        n = n * 10 + (c as u32 - '0' as u32);
        i += 1;
    }
    n
}

/// The character that writes the digit `d`, for `d` from 0 to 9.
pub open spec fn digit_char(d: int) -> char {
    ('0' as int + d) as char
}

/// The decimal digits that write `n`, without leading zeros.
pub open spec fn decimal_digits(n: nat) -> Seq<char>
    decreases n,
{
    if n < 10 {
        seq![digit_char(n as int)]
    } else {
        decimal_digits(n / 10).push(digit_char((n % 10) as int))
    }
}

/// The ten digits, in order.
pub const DIGITS: &'static str = "0123456789";

/// Calls `String::push`. Trusted: it appends the one character to the string.
#[verifier::external_body]
pub(crate) fn push_char(s: &mut String, c: char)
    ensures
        final(s)@ == old(s)@.push(c),
{
    s.push(c)
}

/// The last `width` decimal digits of `n`, with zeros in front where `n` has
/// fewer.
pub open spec fn fixed_digits(n: nat, width: nat) -> Seq<char>
    decreases width,
{
    if width == 0 {
        Seq::<char>::empty()
    } else {
        fixed_digits(n / 10, (width - 1) as nat).push(digit_char((n % 10) as int))
    }
}

/// Writes the last `width` decimal digits of `n` at the end of `s`.
pub fn push_fixed(s: &mut String, n: u32, width: u32)
    ensures
        final(s)@ == old(s)@ + fixed_digits(n as nat, width as nat),
    decreases width,
{
    if width > 0 {
        push_fixed(s, n / 10, width - 1);
        proof {
            reveal_strlit("0123456789");
        }
        let d: usize = (n % 10) as usize;
        let digit = substring(DIGITS, d, d + 1);
        assert(digit@ =~= seq![digit_char(d as int)]);
        s.append(digit.as_str());
        assert(s@ =~= old(s)@ + fixed_digits(n as nat, width as nat));
    } else {
        assert(s@ =~= old(s)@ + fixed_digits(n as nat, width as nat));
    }
}

/// The model of a result: the model of what it holds, on either side.
pub open spec fn result_model<T: DeepView, E: DeepView>(r: Result<T, E>) -> Result<T::V, E::V> {
    match r {
        Ok(t) => Ok(t.deep_view()),
        Err(e) => Err(e.deep_view()),
    }
}

/// Types that have a rendering as one line of text.
pub trait ToText {
    /// The text, in contracts.
    spec fn text(&self) -> Seq<char>;

    /// The text.
    fn to_text(&self) -> (s: String)
        ensures
            s@ == self.text(),
    ;
}

impl ToText for usize {
    open spec fn text(&self) -> Seq<char> {
        decimal_digits(*self as nat)
    }

    fn to_text(&self) -> (s: String)
        decreases *self,
    {
        let n: usize = *self;
        proof {
            reveal_strlit("0123456789");
        }
        if n < 10 {
            let s = substring(DIGITS, n, n + 1);
            assert(s@ =~= seq![digit_char(n as int)]);
            s
        } else {
            let mut s = (n / 10).to_text();
            let d = substring(DIGITS, n % 10, n % 10 + 1);
            assert(d@ =~= seq![digit_char((n % 10) as int)]);
            s.append(d.as_str());
            assert(s@ =~= decimal_digits((n / 10) as nat).push(digit_char((n % 10) as int)));
            s
        }
    }
}

} // verus!
