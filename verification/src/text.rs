//! Character-level helpers: Unicode whitespace, leading indentation,
//! trimming and splitting a line into words.
use vstd::prelude::*;

verus! {

/// The Unicode `White_Space` property, which is what `char::is_whitespace` tests.
pub open spec fn is_white_space(c: char) -> bool {
    ||| ('\u{9}' <= c && c <= '\u{d}')
    ||| c == ' '
    ||| c == '\u{85}'
    ||| c == '\u{a0}'
    ||| c == '\u{1680}'
    ||| ('\u{2000}' <= c && c <= '\u{200a}')
    ||| c == '\u{2028}'
    ||| c == '\u{2029}'
    ||| c == '\u{202f}'
    ||| c == '\u{205f}'
    ||| c == '\u{3000}'
}

/// Whether `c` is a Unicode whitespace character.
pub fn is_whitespace(c: char) -> (b: bool)
    ensures
        b == is_white_space(c),
{
    ('\u{9}' <= c && c <= '\u{d}') || c == ' ' || c == '\u{85}' || c == '\u{a0}' || c == '\u{1680}'
        || ('\u{2000}' <= c && c <= '\u{200a}') || c == '\u{2028}' || c == '\u{2029}' || c
        == '\u{202f}' || c == '\u{205f}' || c == '\u{3000}'
}

/// Number of whitespace characters at the start of `s`.
pub open spec fn lead_len(s: Seq<char>) -> nat
    decreases s.len(),
{
    if s.len() > 0 && is_white_space(s[0]) {
        1 + lead_len(s.drop_first())
    } else {
        0
    }
}

/// The whitespace characters at the start of `s`.
pub open spec fn leading_whitespace(s: Seq<char>) -> Seq<char> {
    s.take(lead_len(s) as int)
}

pub proof fn lemma_lead_len_bound(s: Seq<char>)
    ensures
        lead_len(s) <= s.len(),
        forall|j: int| 0 <= j < lead_len(s) ==> is_white_space(#[trigger] s[j]),
        lead_len(s) < s.len() ==> !is_white_space(s[lead_len(s) as int]),
    decreases s.len(),
{
    if s.len() > 0 && is_white_space(s[0]) {
        lemma_lead_len_bound(s.drop_first());
        assert forall|j: int| 0 <= j < lead_len(s) implies is_white_space(#[trigger] s[j]) by {
            if j > 0 {
                assert(s[j] == s.drop_first()[j - 1]);
            }
        }
    }
}

/// A prefix of whitespace followed by a non-whitespace character (or the end)
/// has exactly the length `lead_len` gives.
pub proof fn lemma_lead_len_exact(s: Seq<char>, n: int)
    requires
        0 <= n <= s.len(),
        forall|j: int| 0 <= j < n ==> is_white_space(#[trigger] s[j]),
        n < s.len() ==> !is_white_space(s[n]),
    ensures
        lead_len(s) == n,
    decreases n,
{
    if n > 0 {
        assert(is_white_space(s[0]));
        assert forall|j: int| 0 <= j < n - 1 implies is_white_space(#[trigger] s.drop_first()[j]) by {
            assert(s.drop_first()[j] == s[j + 1]);
        }
        if n - 1 < s.drop_first().len() {
            assert(s.drop_first()[n - 1] == s[n]);
        }
        lemma_lead_len_exact(s.drop_first(), n - 1);
    } else if s.len() > 0 {
        assert(!is_white_space(s[0]));
    }
}

/// Counts the whitespace characters at the start of `s`.
pub fn leading_count(s: &str) -> (n: usize)
    ensures
        n == lead_len(s@),
{
    let len: usize = s.unicode_len();
    let mut i: usize = 0;
    while i < len
        invariant
            len == s@.len(),
            i <= len,
            forall|j: int| 0 <= j < i ==> is_white_space(#[trigger] s@[j]),
        decreases len - i,
    {
        if !is_whitespace(s.get_char(i)) {
            proof {
                lemma_lead_len_exact(s@, i as int);
            }
            return i;
        }
        i = i + 1;
    }
    proof {
        lemma_lead_len_exact(s@, i as int);
    }
    i
}

/// The leading whitespace of `string`: every character up to the first
/// one that is not whitespace.
pub fn leading_spaces(string: &String) -> (leading: String)
    ensures
        leading@ == leading_whitespace(string@),
{
    let s: &str = string.as_str();
    let n: usize = leading_count(s);
    proof {
        lemma_lead_len_bound(s@);
    }
    String::from_str(s.substring_char(0, n))
}


/// Number of whitespace characters at the end of `s`.
pub open spec fn trail_len(s: Seq<char>) -> nat
    decreases s.len(),
{
    if s.len() > 0 && is_white_space(s.last()) {
        1 + trail_len(s.drop_last())
    } else {
        0
    }
}

/// `s` without its leading and trailing whitespace, as `str::trim` gives it.
pub open spec fn trim(s: Seq<char>) -> Seq<char> {
    let t = s.skip(lead_len(s) as int);
    t.take(t.len() - trail_len(t))
}

/// Splitting state after reading `s` from the left: the words completed so
/// far and the word being read.
pub open spec fn split_state(s: Seq<char>) -> (Seq<Seq<char>>, Seq<char>)
    decreases s.len(),
{
    if s.len() == 0 {
        (Seq::empty(), Seq::empty())
    } else {
        let (done, cur) = split_state(s.drop_last());
        if s.last() == ' ' {
            if cur.len() > 0 {
                (done.push(cur), Seq::empty())
            } else {
                (done, Seq::empty())
            }
        } else {
            (done, cur.push(s.last()))
        }
    }
}

/// The non-empty pieces of `s` split at each space character ' ',
/// as `s.split(' ').filter(|w| w != "")` yields them.
pub open spec fn split_words(s: Seq<char>) -> Seq<Seq<char>> {
    let (done, cur) = split_state(s);
    if cur.len() > 0 {
        done.push(cur)
    } else {
        done
    }
}

/// The words of a line: its trimmed text split at spaces, empty pieces dropped.
pub open spec fn line_words(s: Seq<char>) -> Seq<Seq<char>> {
    split_words(trim(s))
}

/// The views of a sequence of string slices.
pub open spec fn views(v: Seq<&str>) -> Seq<Seq<char>> {
    v.map_values(|w: &str| w@)
}

proof fn lemma_trail_len_exact(t: Seq<char>, k: int)
    requires
        0 <= k <= t.len(),
        forall|j: int| k <= j < t.len() ==> is_white_space(#[trigger] t[j]),
        k > 0 ==> !is_white_space(t[k - 1]),
    ensures
        trail_len(t) == t.len() - k,
    decreases t.len() - k,
{
    if k < t.len() {
        assert(is_white_space(t.last()));
        assert forall|j: int| k <= j < t.drop_last().len() implies is_white_space(
            #[trigger] t.drop_last()[j],
        ) by {
            assert(t.drop_last()[j] == t[j]);
        }
        if k > 0 {
            assert(t.drop_last()[k - 1] == t[k - 1]);
        }
        lemma_trail_len_exact(t.drop_last(), k);
    } else if t.len() > 0 {
        assert(!is_white_space(t.last()));
    }
}

/// The words of `s` after trimming it, in order.
pub fn words_of(s: &str) -> (words: Vec<&str>)
    ensures
        views(words@) == line_words(s@),
{
    let len: usize = s.unicode_len();
    let a: usize = leading_count(s);
    proof {
        lemma_lead_len_bound(s@);
    }
    let mut e: usize = len;
    while e > a && is_whitespace(s.get_char(e - 1))
        invariant
            len == s@.len(),
            a <= e <= len,
            forall|j: int| e <= j < len ==> is_white_space(#[trigger] s@[j]),
        decreases e,
    {
        e = e - 1;
    }
    let ghost t = s@.skip(a as int);
    proof {
        assert forall|j: int| (e - a) <= j < t.len() implies is_white_space(#[trigger] t[j]) by {
            assert(t[j] == s@[j + a]);
        }
        if e > a {
            assert(t[e - a - 1] == s@[e - 1]);
        }
        lemma_trail_len_exact(t, e - a);
        assert(trim(s@) =~= s@.subrange(a as int, e as int));
    }
    let mut words: Vec<&str> = Vec::new();
    let mut start: usize = a;
    let mut i: usize = a;
    while i < e
        invariant
            len == s@.len(),
            a <= start <= i <= e <= len,
            split_state(s@.subrange(a as int, i as int)) == (views(words@), s@.subrange(
                start as int,
                i as int,
            )),
        decreases e - i,
    {
        let c: char = s.get_char(i);
        let ghost prev = words@;
        proof {
            let x = s@.subrange(a as int, i + 1);
            assert(x.drop_last() =~= s@.subrange(a as int, i as int));
            assert(x.last() == c);
        }
        if c == ' ' {
            if start < i {
                let w: &str = s.substring_char(start, i);
                words.push(w);
                assert(views(words@) =~= views(prev).push(w@));
            }
            start = i + 1;
            assert(s@.subrange(start as int, start as int) =~= Seq::<char>::empty());
        } else {
            assert(s@.subrange(start as int, i + 1) =~= s@.subrange(start as int, i as int).push(c));
        }
        i = i + 1;
    }
    if start < e {
        let ghost prev = words@;
        let w: &str = s.substring_char(start, e);
        words.push(w);
        assert(views(words@) =~= views(prev).push(w@));
    }
    words
}

/// Whether two string slices hold the same characters.
pub fn str_eq(x: &str, y: &str) -> (b: bool)
    ensures
        b == (x@ == y@),
{
    let n: usize = x.unicode_len();
    let m: usize = y.unicode_len();
    if n != m {
        return false;
    }
    let mut i: usize = 0;
    while i < n
        invariant
            n == x@.len(),
            m == y@.len(),
            n == m,
            i <= n,
            forall|j: int| 0 <= j < i ==> x@[j] == y@[j],
        decreases n - i,
    {
        if x.get_char(i) != y.get_char(i) {
            return false;
        }
        i = i + 1;
    }
    assert(x@ =~= y@);
    true
}


/// The characters past the trailing whitespace are whitespace.
proof fn lemma_trail_len_bound(t: Seq<char>)
    ensures
        trail_len(t) <= t.len(),
        forall|j: int| t.len() - trail_len(t) <= j < t.len() ==> is_white_space(#[trigger] t[j]),
    decreases t.len(),
{
    if t.len() > 0 && is_white_space(t.last()) {
        lemma_trail_len_bound(t.drop_last());
        assert forall|j: int| t.len() - trail_len(t) <= j < t.len() implies is_white_space(
            #[trigger] t[j],
        ) by {
            if j < t.len() - 1 {
                assert(t[j] == t.drop_last()[j]);
            }
        }
    }
}

/// Reading a text that starts with a character other than a space, the first
/// word found starts with that character.
proof fn lemma_split_state_first(s: Seq<char>)
    requires
        s.len() > 0,
        s[0] != ' ',
    ensures
        ({
            let (done, cur) = split_state(s);
            ||| done.len() > 0 && done[0].len() > 0 && done[0][0] == s[0]
            ||| done.len() == 0 && cur.len() > 0 && cur[0] == s[0]
        }),
    decreases s.len(),
{
    if s.len() > 1 {
        assert(s.drop_last()[0] == s[0]);
        lemma_split_state_first(s.drop_last());
        let (d0, c0) = split_state(s.drop_last());
        if s.last() == ' ' {
            if c0.len() > 0 {
                assert(d0.push(c0)[0] == if d0.len() > 0 { d0[0] } else { c0 });
            }
        } else {
            assert(c0.push(s.last())[0] == if c0.len() > 0 { c0[0] } else { s.last() });
        }
    } else {
        assert(s.drop_last() =~= Seq::<char>::empty());
        assert(split_state(s.drop_last()) == (Seq::<Seq<char>>::empty(), Seq::<char>::empty()));
    }
}

/// A line whose first character that is not whitespace is `c` has a first
/// word, and that word starts with `c`.
pub proof fn lemma_first_word(s: Seq<char>)
    requires
        lead_len(s) < s.len(),
    ensures
        line_words(s).len() > 0,
        line_words(s)[0].len() > 0,
        line_words(s)[0][0] == s[lead_len(s) as int],
{
    lemma_lead_len_bound(s);
    let t = s.skip(lead_len(s) as int);
    lemma_trail_len_bound(t);
    assert(t[0] == s[lead_len(s) as int]);
    if trail_len(t) == t.len() {
        assert(is_white_space(t[0]));
    }
    let x = trim(s);
    assert(x[0] == s[lead_len(s) as int]);
    lemma_split_state_first(x);
}

/// A line of whitespace alone has no words.
pub proof fn lemma_blank_no_words(s: Seq<char>)
    requires
        forall|j: int| 0 <= j < s.len() ==> is_white_space(#[trigger] s[j]),
    ensures
        line_words(s).len() == 0,
{
    lemma_lead_len_exact(s, s.len() as int);
    assert(trim(s) =~= Seq::<char>::empty());
}

/// Appending text after a character that is not whitespace does not change
/// the leading whitespace.
pub proof fn lemma_lead_len_append(s: Seq<char>, t: Seq<char>)
    requires
        lead_len(s) < s.len(),
    ensures
        lead_len(s + t) == lead_len(s),
{
    lemma_lead_len_bound(s);
    let n = lead_len(s) as int;
    assert forall|j: int| 0 <= j < n implies is_white_space(#[trigger] (s + t)[j]) by {
        assert((s + t)[j] == s[j]);
    }
    assert((s + t)[n] == s[n]);
    lemma_lead_len_exact(s + t, n);
}

} // verus!
