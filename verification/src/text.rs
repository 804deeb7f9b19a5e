//! Character-level helpers shared by the rest of the library.

use vstd::prelude::*;

verus! {

/// `String::push` appends one character.
pub assume_specification[ String::push ](s: &mut String, ch: char)
    ensures
        final(s)@ == old(s)@.push(ch),
;

/// ASCII lower-casing of one character, as `char::to_ascii_lowercase` does it.
pub open spec fn ascii_lower(c: char) -> char {
    if 'A' <= c && c <= 'Z' {
        ((c as u32) + 32) as char
    } else {
        c
    }
}

/// ASCII lower-casing of a whole string: every other character is kept.
pub open spec fn lowercase(s: Seq<char>) -> Seq<char> {
    s.map_values(|c: char| ascii_lower(c))
}

/// The characters of `s`, in order.
pub fn chars_of(s: &str) -> (v: Vec<char>)
    ensures
        v@ == s@,
{
    let mut v: Vec<char> = Vec::new();
    for c in it: s.chars()
        invariant
            v@ == it.seq().take(it.index() as int),
            it.seq() == s@,
    {
        v.push(c);
    }
    v
}

/// One character, lower-cased if it is an ASCII capital.
pub fn lower_char(c: char) -> (r: char)
    ensures
        r == ascii_lower(c),
{
    if 'A' <= c && c <= 'Z' {
        let b: u8 = c as u8;
        ((b + 32) as char)
    } else {
        c
    }
}

/// `s` with every ASCII capital lower-cased.
pub fn ascii_lowercase(s: &str) -> (r: String)
    ensures
        r@ == lowercase(s@),
{
    let cs = chars_of(s);
    let mut r = String::new();
    for i in 0..cs.len()
        invariant
            cs@ == s@,
            r@ == lowercase(s@.take(i as int)),
    {
        r.push(lower_char(cs[i]));
        assert(lowercase(s@.take(i + 1)) =~= lowercase(s@.take(i as int)).push(ascii_lower(cs@[i as int])));
    }
    assert(s@.take(cs.len() as int) =~= s@);
    r
}


/// Unicode `White_Space`, the set that `char::is_whitespace` and `str::trim` use.
pub open spec fn is_white(c: char) -> bool {
    ||| ('\u{9}' <= c && c <= '\u{d}')
    ||| c == ' '
    ||| c == '\u{85}'
    ||| c == '\u{a0}'
    ||| c == '\u{1680}'
    ||| ('\u{2000}' <= c && c <= '\u{200a}')
    ||| c == '\u{2028}'
    ||| c == '\u{2029}'
    ||| c == '\u{202f}'
    ||| c == '\u{205f}'
    ||| c == '\u{3000}'
}

/// Every character of `s` is white space (so `s.trim()` is empty).
pub open spec fn all_white(s: Seq<char>) -> bool {
    forall|i: int| 0 <= i < s.len() ==> is_white(#[trigger] s[i])
}

/// `s` is `word` with only white space around it, that is `s.trim() == word`,
/// for a `word` that neither starts nor ends with white space.
pub open spec fn trims_to(s: Seq<char>, word: Seq<char>) -> bool {
    exists|lo: int|
        0 <= lo && lo + word.len() <= s.len() && #[trigger] s.subrange(lo, lo + word.len()) == word
            && all_white(s.take(lo)) && all_white(s.skip(lo + word.len()))
}

/// What `s.split('/').next_back()` gives: the part after the last `/`, or all of `s`.
pub open spec fn last_segment(s: Seq<char>) -> Seq<char>
    decreases s.len(),
{
    if s.len() == 0 {
        s
    } else if s.last() == '/' {
        Seq::empty()
    } else {
        last_segment(s.drop_last()).push(s.last())
    }
}

/// The decimal digit for `d < 10`.
pub open spec fn digit(d: nat) -> char {
    ((48 + d) as u32) as char
}

/// The decimal representation of `n`, as `to_string` writes it.
pub open spec fn decimal(n: nat) -> Seq<char>
    decreases n,
{
    if n < 10 {
        seq![digit(n)]
    } else {
        decimal(n / 10).push(digit(n % 10))
    }
}

/// The unicode white-space test of `char::is_whitespace`.
pub fn is_white_char(c: char) -> (r: bool)
    ensures
        r == is_white(c),
{
    ('\u{9}' <= c && c <= '\u{d}') || c == ' ' || c == '\u{85}' || c == '\u{a0}' || c == '\u{1680}'
        || ('\u{2000}' <= c && c <= '\u{200a}') || c == '\u{2028}' || c == '\u{2029}'
        || c == '\u{202f}' || c == '\u{205f}' || c == '\u{3000}'
}

/// Whether `s.trim()` is empty.
pub fn is_blank(s: &str) -> (r: bool)
    ensures
        r == all_white(s@),
{
    let cs = chars_of(s);
    for i in 0..cs.len()
        invariant
            cs@ == s@,
            all_white(s@.take(i as int)),
    {
        if !is_white_char(cs[i]) {
            return false;
        }
        assert(all_white(s@.take(i + 1)));
    }
    assert(s@.take(cs.len() as int) =~= s@);
    true
}

/// An owned copy of `s`.
pub fn owned(s: &str) -> (r: String)
    ensures
        r@ == s@,
{
    s.to_string()
}

/// Appends the decimal representation of `n` to `out`.
pub fn push_decimal(out: &mut String, n: u32)
    ensures
        final(out)@ == old(out)@ + decimal(n as nat),
    decreases n,
{
    if n >= 10 {
        push_decimal(out, n / 10);
    }
    let d: u8 = (n % 10) as u8;
    out.push((48u8 + d) as char);
}

/// The part of `s` after its last `/`, or all of `s` where it has none.
pub fn last_segment_of(s: &str) -> (r: String)
    ensures
        r@ == last_segment(s@),
{
    let cs = chars_of(s);
    let n = cs.len();
    let mut start: usize = n;
    assert(s@.take(n as int) =~= s@);
    assert(s@.subrange(n as int, n as int) =~= Seq::<char>::empty());
    while start > 0 && cs[start - 1] != '/'
        invariant
            cs@ == s@,
            n == cs.len(),
            start <= n,
            last_segment(s@) == last_segment(s@.take(start as int)) + s@.subrange(start as int, n as int),
        decreases start,
    {
        assert(s@.take(start as int).drop_last() =~= s@.take(start - 1));
        assert(s@.subrange(start - 1, n as int) =~= seq![cs@[start - 1]] + s@.subrange(start as int, n as int));
        start = start - 1;
    }
    let mut r = String::new();
    for i in start..n
        invariant
            cs@ == s@,
            n == cs.len(),
            start <= i <= n,
            r@ == s@.subrange(start as int, i as int),
    {
        r.push(cs[i]);
        assert(s@.subrange(start as int, i + 1) =~= s@.subrange(start as int, i as int).push(cs@[i as int]));
    }
    if start > 0 {
        assert(s@.take(start as int).last() == '/');
    }
    assert(last_segment(s@.take(start as int)) =~= Seq::<char>::empty());
    assert(last_segment(s@) =~= s@.subrange(start as int, n as int));
    r
}


/// Whether `s.trim() == word`, for a `word` without white space at either end.
pub fn trims_to_word(s: &str, word: &str) -> (r: bool)
    requires
        word@.len() > 0,
        !is_white(word@[0]),
        !is_white(word@.last()),
    ensures
        r == trims_to(s@, word@),
{
    let cs = chars_of(s);
    let ws = chars_of(word);
    let n = cs.len();
    let mut lo: usize = 0;
    while lo < n && is_white_char(cs[lo])
        invariant
            cs@ == s@,
            n == cs.len(),
            lo <= n,
            all_white(s@.take(lo as int)),
        decreases n - lo,
    {
        assert(s@.take(lo + 1) =~= s@.take(lo as int).push(cs@[lo as int]));
        lo = lo + 1;
    }
    let mut hi: usize = n;
    while hi > lo && is_white_char(cs[hi - 1])
        invariant
            cs@ == s@,
            n == cs.len(),
            lo <= hi <= n,
            all_white(s@.skip(hi as int)),
        decreases hi,
    {
        assert(s@.skip(hi - 1) =~= seq![cs@[hi - 1]] + s@.skip(hi as int));
        hi = hi - 1;
    }
    // `lo` is the first character that is not white, `hi` one past the last.
    assert(lo < n ==> !is_white(s@[lo as int]));
    assert(hi > lo ==> !is_white(s@[hi - 1]));
    if hi - lo != ws.len() {
        proof {
            if trims_to(s@, word@) {
                let k = choose|k: int|
                    0 <= k && k + word@.len() <= s@.len() && #[trigger] s@.subrange(k, k + word@.len()) == word@
                        && all_white(s@.take(k)) && all_white(s@.skip(k + word@.len()));
                let m = word@.len() as int;
                assert(s@[k] == s@.subrange(k, k + m)[0]);
                assert(s@[k + m - 1] == s@.subrange(k, k + m)[m - 1]);
                if (k as int) < lo as int {
                    assert(s@.take(lo as int)[k] == s@[k]);
                }
                if (k as int) > lo as int {
                    assert(s@.take(k)[lo as int] == s@[lo as int]);
                }
                if k + m > hi as int {
                    assert(s@.skip(hi as int)[k + m - 1 - hi] == s@[k + m - 1]);
                }
                if k + m < hi as int {
                    assert(s@.skip(k + m)[hi - 1 - (k + m)] == s@[hi - 1]);
                }
            }
        }
        return false;
    }
    let mut i: usize = 0;
    while i < ws.len()
        invariant
            cs@ == s@,
            ws@ == word@,
            n == cs.len(),
            lo <= hi <= n,
            hi - lo == ws.len(),
            i <= ws.len(),
            forall|j: int| 0 <= j < i ==> s@[lo + j] == word@[j],
            all_white(s@.take(lo as int)),
            lo < n ==> !is_white(s@[lo as int]),
            word@.len() > 0,
            !is_white(word@[0]),
        decreases ws.len() - i,
    {
        if cs[lo + i] != ws[i] {
            proof {
                if trims_to(s@, word@) {
                    let k = choose|k: int|
                        0 <= k && k + word@.len() <= s@.len() && #[trigger] s@.subrange(k, k + word@.len()) == word@
                            && all_white(s@.take(k)) && all_white(s@.skip(k + word@.len()));
                    let m = word@.len() as int;
                    assert(s@[k] == s@.subrange(k, k + m)[0]);
                    if (k as int) < lo as int {
                        assert(s@.take(lo as int)[k] == s@[k]);
                    }
                    if (k as int) > lo as int {
                        assert(s@.take(k)[lo as int] == s@[lo as int]);
                    }
                    assert(k == lo);
                    assert(s@.subrange(k, k + m)[i as int] == s@[k + i]);
                    assert(word@[i as int] == s@[lo + i]);
                    assert(false);
                }
            }
            return false;
        }
        i = i + 1;
    }
    assert(s@.subrange(lo as int, lo + word@.len()) =~= word@);
    true
}


/// The strings among `items`, in order, skipping the absent ones.
pub open spec fn present_texts(items: Seq<Option<String>>) -> Seq<Seq<char>>
    decreases items.len(),
{
    if items.len() == 0 {
        Seq::empty()
    } else {
        let rest = present_texts(items.drop_last());
        match items.last() {
            Some(t) => rest.push(t@),
            None => rest,
        }
    }
}

/// `parts.join("\n")`.
pub open spec fn join_lines(parts: Seq<Seq<char>>) -> Seq<char>
    decreases parts.len(),
{
    if parts.len() == 0 {
        Seq::empty()
    } else if parts.len() == 1 {
        parts[0]
    } else {
        join_lines(parts.drop_last()) + seq!['\n'] + parts.last()
    }
}

/// Joining one more text appends a newline and that text, except to nothing, where the text
/// stands alone; a present text is kept and an absent one is skipped.
pub proof fn lemma_join_lines_appends(parts: Seq<Seq<char>>, t: Seq<char>, items: Seq<Option<String>>, u: String)
    ensures
        join_lines(parts.push(t)) == (if parts.len() == 0 {
            t
        } else {
            join_lines(parts) + seq!['\n'] + t
        }),
        present_texts(items.push(Some(u))) == present_texts(items).push(u@),
        present_texts(items.push(None)) == present_texts(items),
{
    assert(parts.push(t).drop_last() =~= parts);
    assert(items.push(Some(u)).drop_last() =~= items);
    assert(items.push(None).drop_last() =~= items);
    if parts.len() == 0 {
        assert(parts.push(t)[0] == t);
    }
}

/// `present_texts` of a longer prefix extends the shorter one by at most one string.
pub proof fn lemma_present_texts_step(items: Seq<Option<String>>, i: int)
    requires
        0 <= i < items.len(),
    ensures
        present_texts(items.take(i + 1)) == match items[i] {
            Some(t) => present_texts(items.take(i)).push(t@),
            None => present_texts(items.take(i)),
        },
{
    assert(items.take(i + 1).drop_last() =~= items.take(i));
}


/// Lower-casing leaves no ASCII capital behind, so doing it twice changes nothing.
pub proof fn lemma_lowercase_idempotent(s: Seq<char>)
    ensures
        lowercase(lowercase(s)) == lowercase(s),
        forall|i: int| 0 <= i < s.len() ==> !('A' <= #[trigger] lowercase(s)[i] && lowercase(s)[i] <= 'Z'),
{
    assert forall|i: int| 0 <= i < s.len() implies !('A' <= #[trigger] lowercase(s)[i] && lowercase(s)[i] <= 'Z') by {
        let c = s[i];
        if 'A' <= c && c <= 'Z' {
            assert(((c as u32) + 32) as char == lowercase(s)[i]);
        }
    }
    assert(lowercase(lowercase(s)) =~= lowercase(s));
}

/// The last segment is the longest suffix of the string without `/`: it holds no `/`, and
/// either it is the whole string or a `/` stands just before it. Every other character,
/// `:` included, is kept.
pub proof fn lemma_last_segment_suffix(s: Seq<char>)
    ensures
        last_segment(s).len() <= s.len(),
        last_segment(s) == s.skip(s.len() - last_segment(s).len()),
        forall|i: int| 0 <= i < last_segment(s).len() ==> #[trigger] last_segment(s)[i] != '/',
        last_segment(s).len() == s.len() || s[s.len() - last_segment(s).len() - 1] == '/',
        (forall|i: int| 0 <= i < s.len() ==> s[i] != '/') ==> last_segment(s) == s,
    decreases s.len(),
{
    if s.len() > 0 {
        lemma_last_segment_suffix(s.drop_last());
        if s.last() != '/' {
            let t = last_segment(s.drop_last());
            assert(s.skip(s.len() - (t.len() + 1)) =~= s.drop_last().skip(s.drop_last().len() - t.len()).push(s.last()));
            if t.len() < s.drop_last().len() {
                assert(s[s.len() - (t.len() + 1) - 1] == s.drop_last()[s.drop_last().len() - t.len() - 1]);
            }
            if forall|i: int| 0 <= i < s.len() ==> s[i] != '/' {
                assert forall|i: int| 0 <= i < s.drop_last().len() implies s.drop_last()[i] != '/' by {
                    assert(s.drop_last()[i] == s[i]);
                }
                assert(s.drop_last().push(s.last()) =~= s);
            }
        } else {
            assert(s.skip(s.len() as int) =~= Seq::<char>::empty());
        }
    }
}

/// The number that a string of decimal digits denotes.
pub open spec fn digits_value(s: Seq<char>) -> nat
    decreases s.len(),
{
    if s.len() == 0 {
        0
    } else {
        10 * digits_value(s.drop_last()) + ((s.last() as u32) - ('0' as u32)) as nat
    }
}

proof fn lemma_digit_value(d: nat)
    requires
        d < 10,
    ensures
        '0' <= digit(d) && digit(d) <= '9',
        ((digit(d) as u32) - ('0' as u32)) as nat == d,
{
}

/// The decimal representation of `n` is made of digits only, denotes `n`, and has no
/// leading zero.
pub proof fn lemma_decimal_denotes(n: nat)
    ensures
        forall|i: int| 0 <= i < decimal(n).len() ==> '0' <= #[trigger] decimal(n)[i] && decimal(n)[i] <= '9',
        digits_value(decimal(n)) == n,
        decimal(n).len() > 1 ==> decimal(n)[0] != '0',
    decreases n,
{
    if n >= 10 {
        lemma_decimal_denotes(n / 10);
        lemma_decimal_starts_with_digit(n / 10);
        lemma_digit_value(n % 10);
        let d = decimal(n / 10);
        assert(decimal(n).drop_last() =~= d);
        assert(decimal(n)[0] == d[0]);
        assert(digits_value(decimal(n)) == 10 * digits_value(d) + n % 10);
        if n / 10 < 10 {
            lemma_digit_value(n / 10);
            assert(d[0] == digit(n / 10));
        } else {
            lemma_decimal_starts_with_digit(n / 10 / 10);
        }
    } else {
        lemma_digit_value(n);
        assert(decimal(n).drop_last() =~= Seq::<char>::empty());
        assert(digits_value(decimal(n)) == 10 * digits_value(Seq::<char>::empty()) + n);
    }
}

/// A decimal representation starts with a digit.
pub proof fn lemma_decimal_starts_with_digit(n: nat)
    ensures
        decimal(n).len() > 0,
        '0' <= decimal(n)[0] && decimal(n)[0] <= '9',
    decreases n,
{
    if n >= 10 {
        lemma_decimal_starts_with_digit(n / 10);
    }
}

} // verus!
