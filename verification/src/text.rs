//! Character-sequence utilities that the rest of the library states its
//! contracts over: whitespace tokenization, substring search, joining,
//! and decimal rendering of integers.

use vstd::prelude::*;

verus! {

/// The whitespace characters recognized when splitting command strings:
/// the Unicode white-space set, as `char::is_whitespace` recognizes it.
pub open spec fn is_space_char(c: char) -> bool {
    ||| c == '\t'
    ||| c == '\n'
    ||| c == '\u{b}'
    ||| c == '\u{c}'
    ||| c == '\r'
    ||| c == ' '
    ||| c == '\u{85}'
    ||| c == '\u{a0}'
    ||| c == '\u{1680}'
    ||| ('\u{2000}' <= c && c <= '\u{200a}')
    ||| c == '\u{2028}'
    ||| c == '\u{2029}'
    ||| c == '\u{202f}'
    ||| c == '\u{205f}'
    ||| c == '\u{3000}'
}

/// A decimal digit.
pub open spec fn is_digit_char(c: char) -> bool {
    '0' <= c && c <= '9'
}

/// Length of the leading run of non-whitespace characters.
pub open spec fn token_len(s: Seq<char>) -> nat
    decreases s.len(),
{
    if s.len() == 0 || is_space_char(s[0]) {
        0
    } else {
        1 + token_len(s.drop_first())
    }
}

pub proof fn lemma_token_len_bound(s: Seq<char>)
    ensures
        token_len(s) <= s.len(),
    decreases s.len(),
{
    if s.len() == 0 || is_space_char(s[0]) {
    } else {
        lemma_token_len_bound(s.drop_first());
    }
}

/// The whitespace-separated tokens of a character sequence, in order.
pub open spec fn split_ws(s: Seq<char>) -> Seq<Seq<char>>
    decreases s.len(),
    via split_ws_decreases
{
    if s.len() == 0 {
        Seq::empty()
    } else if is_space_char(s[0]) {
        split_ws(s.drop_first())
    } else {
        seq![s.take(token_len(s) as int)] + split_ws(s.skip(token_len(s) as int))
    }
}

#[via_fn]
proof fn split_ws_decreases(s: Seq<char>) {
    if s.len() > 0 && !is_space_char(s[0]) {
        lemma_token_len_bound(s);
        assert(token_len(s) == 1 + token_len(s.drop_first()));
    }
}

/// The leading token of `s` runs exactly to the first whitespace
/// character (or the end).
pub proof fn lemma_token_len_exact(s: Seq<char>, k: int)
    requires
        0 <= k <= s.len(),
        forall|m: int| 0 <= m < k ==> !is_space_char(s[m]),
        k == s.len() || is_space_char(s[k]),
    ensures
        token_len(s) == k,
    decreases k,
{
    if k == 0 {
    } else {
        assert(!is_space_char(s[0]));
        lemma_token_len_exact(s.drop_first(), k - 1);
    }
}

/// Splitting off a maximal non-whitespace prefix of length `k` leaves
/// the tokens of the remainder.
pub proof fn lemma_split_ws_token(s: Seq<char>, k: int)
    requires
        1 <= k <= s.len(),
        forall|m: int| 0 <= m < k ==> !is_space_char(s[m]),
        k == s.len() || is_space_char(s[k]),
    ensures
        split_ws(s) == seq![s.take(k)] + split_ws(s.skip(k)),
{
    lemma_token_len_exact(s, k);
    assert(!is_space_char(s[0]));
}

fn is_space_exec(c: char) -> (r: bool)
    ensures
        r == is_space_char(c),
{
    c == '\t' || c == '\n' || c == '\u{b}' || c == '\u{c}' || c == '\r' || c == ' ' || c == '\u{85}'
        || c == '\u{a0}' || c == '\u{1680}' || ('\u{2000}' <= c && c <= '\u{200a}') || c
        == '\u{2028}' || c == '\u{2029}' || c == '\u{202f}' || c == '\u{205f}' || c == '\u{3000}'
}

/// Split a string into its whitespace-separated tokens, in order.
pub fn split_whitespace(s: &str) -> (toks: Vec<String>)
    ensures
        toks@.map_values(|t: String| t@) == split_ws(s@),
{
    let n: usize = s.unicode_len();
    let mut toks: Vec<String> = Vec::new();
    let mut i: usize = 0;
    proof {
        assert(s@.skip(0) =~= s@);
        assert(toks@.map_values(|t: String| t@) + split_ws(s@) =~= split_ws(s@));
    }
    while i < n
        invariant
            n == s@.len(),
            i <= n,
            split_ws(s@) == toks@.map_values(|t: String| t@) + split_ws(s@.skip(i as int)),
        decreases n - i,
    {
        let c = s.get_char(i);
        if is_space_exec(c) {
            proof {
                assert(s@.skip(i as int).drop_first() =~= s@.skip(i as int + 1));
            }
            i += 1;
        } else {
            let start: usize = i;
            let mut j: usize = i;
            loop
                invariant
                    n == s@.len(),
                    start <= j <= n,
                    forall|m: int| start <= m < j ==> !is_space_char(s@[m]),
                ensures
                    start <= j <= n,
                    forall|m: int| start <= m < j ==> !is_space_char(s@[m]),
                    j == n || is_space_char(s@[j as int]),
                decreases n - j,
            {
                if j == n {
                    break ;
                }
                if is_space_exec(s.get_char(j)) {
                    break ;
                }
                j += 1;
            }
            assert(j > start) by {
                assert(!is_space_char(s@[start as int]));
            }
            let t: String = s.substring_char(start, j).to_owned();
            proof {
                let tail = s@.skip(start as int);
                lemma_split_ws_token(tail, j - start);
                assert(tail.take(j - start) =~= s@.subrange(start as int, j as int));
                assert(tail.skip(j - start) =~= s@.skip(j as int));
                assert(s@.skip(start as int) == tail);
                let old_views = toks@.map_values(|x: String| x@);
                assert((toks@.push(t)).map_values(|x: String| x@) =~= old_views.push(t@));
                assert(old_views + (seq![t@] + split_ws(s@.skip(j as int))) =~= old_views.push(
                    t@,
                ) + split_ws(s@.skip(j as int)));
            }
            toks.push(t);
            i = j;
        }
    }
    proof {
        assert(s@.skip(n as int) =~= Seq::<char>::empty());
        assert(toks@.map_values(|t: String| t@) + Seq::<Seq<char>>::empty() =~= toks@.map_values(
            |t: String| t@,
        ));
    }
    toks
}

/// `n` occurs as a contiguous subsequence of `h`.
pub open spec fn contains_seq(h: Seq<char>, n: Seq<char>) -> bool {
    exists|i: int| 0 <= i && i + n.len() <= h.len() && #[trigger] h.subrange(i, i + n.len() as int)
        == n
}

fn match_at(h: &str, n: &str, i: usize) -> (r: bool)
    requires
        i + n@.len() <= h@.len(),
    ensures
        r == (h@.subrange(i as int, i as int + n@.len() as int) == n@),
{
    let hn: usize = h.unicode_len();
    let nn: usize = n.unicode_len();
    let mut j: usize = 0;
    while j < nn
        invariant
            j <= nn,
            nn == n@.len(),
            hn == h@.len(),
            i + nn <= hn,
            forall|m: int| 0 <= m < j ==> h@[i + m] == n@[m],
        decreases nn - j,
    {
        if h.get_char(i + j) != n.get_char(j) {
            proof {
                assert(h@.subrange(i as int, i as int + n@.len() as int)[j as int] == h@[i + j]);
            }
            return false;
        }
        j += 1;
    }
    proof {
        assert(h@.subrange(i as int, i as int + n@.len() as int) =~= n@);
    }
    true
}

/// Substring search: does `needle` occur anywhere in `h`?
pub fn str_contains(h: &str, needle: &str) -> (r: bool)
    ensures
        r == contains_seq(h@, needle@),
{
    let hn: usize = h.unicode_len();
    let nn: usize = needle.unicode_len();
    if nn > hn {
        return false;
    }
    if nn == 0 {
        proof {
            assert(h@.subrange(0, 0 + needle@.len() as int) =~= needle@);
        }
        return true;
    }
    let mut i: usize = 0;
    while i <= hn - nn
        invariant
            1 <= nn <= hn,
            i <= hn - nn + 1,
            hn == h@.len(),
            nn == needle@.len(),
            forall|k: int|
                0 <= k < i ==> #[trigger] h@.subrange(k, k + needle@.len() as int) != needle@,
        decreases hn - nn - i + 1,
    {
        if match_at(h, needle, i) {
            return true;
        }
        i += 1;
    }
    false
}

/// Character-for-character string equality.
pub fn str_eq(a: &str, b: &str) -> (r: bool)
    ensures
        r == (a@ == b@),
{
    let la: usize = a.unicode_len();
    let lb: usize = b.unicode_len();
    if la != lb {
        return false;
    }
    let mut i: usize = 0;
    while i < la
        invariant
            la == a@.len(),
            la == b@.len(),
            i <= la,
            forall|m: int| 0 <= m < i ==> a@[m] == b@[m],
        decreases la - i,
    {
        if a.get_char(i) != b.get_char(i) {
            return false;
        }
        i += 1;
    }
    proof {
        assert(a@ =~= b@);
    }
    true
}

/// The items of `xs` joined with `sep` between consecutive items.
pub open spec fn join_seqs(xs: Seq<Seq<char>>, sep: Seq<char>) -> Seq<char>
    decreases xs.len(),
{
    if xs.len() == 0 {
        Seq::empty()
    } else if xs.len() == 1 {
        xs[0]
    } else {
        xs[0] + sep + join_seqs(xs.drop_first(), sep)
    }
}

pub proof fn lemma_join_seqs_snoc(xs: Seq<Seq<char>>, x: Seq<char>, sep: Seq<char>)
    ensures
        join_seqs(xs.push(x), sep) == if xs.len() == 0 {
            x
        } else {
            join_seqs(xs, sep) + sep + x
        },
    decreases xs.len(),
{
    if xs.len() == 0 {
        assert(xs.push(x).len() == 1);
        assert(xs.push(x)[0] == x);
    } else {
        lemma_join_seqs_snoc(xs.drop_first(), x, sep);
        assert(xs.push(x).drop_first() =~= xs.drop_first().push(x));
        if xs.len() == 1 {
            assert(join_seqs(xs.push(x), sep) == xs[0] + sep + x);
            assert(join_seqs(xs, sep) == xs[0]);
        } else {
            assert(join_seqs(xs.push(x), sep) == xs[0] + sep + (join_seqs(xs.drop_first(), sep)
                + sep + x));
            assert(xs[0] + sep + (join_seqs(xs.drop_first(), sep) + sep + x) =~= (xs[0] + sep
                + join_seqs(xs.drop_first(), sep)) + sep + x);
        }
    }
}

/// Join strings with a separator between consecutive items.
pub fn join_with(items: &Vec<String>, sep: &str) -> (r: String)
    ensures
        r@ == join_seqs(items@.map_values(|t: String| t@), sep@),
{
    let ghost xs = items@.map_values(|t: String| t@);
    let mut r = String::new();
    let mut i: usize = 0;
    while i < items.len()
        invariant
            xs == items@.map_values(|t: String| t@),
            i <= items.len(),
            r@ == join_seqs(xs.take(i as int), sep@),
        decreases items.len() - i,
    {
        if i > 0 {
            r.append(sep);
        }
        r.append(items[i].as_str());
        proof {
            lemma_join_seqs_snoc(xs.take(i as int), xs[i as int], sep@);
            assert(xs.take(i as int + 1) =~= xs.take(i as int).push(xs[i as int]));
        }
        i += 1;
    }
    proof {
        assert(xs.take(items@.len() as int) =~= xs);
    }
    r
}

/// The character for a single decimal digit.
pub open spec fn digit_char(d: nat) -> char {
    if d == 0 {
        '0'
    } else if d == 1 {
        '1'
    } else if d == 2 {
        '2'
    } else if d == 3 {
        '3'
    } else if d == 4 {
        '4'
    } else if d == 5 {
        '5'
    } else if d == 6 {
        '6'
    } else if d == 7 {
        '7'
    } else if d == 8 {
        '8'
    } else {
        '9'
    }
}

/// Decimal rendering of a natural number, most significant digit first.
pub open spec fn dec_str(n: nat) -> Seq<char>
    decreases n,
{
    if n < 10 {
        seq![digit_char(n)]
    } else {
        dec_str(n / 10) + seq![digit_char(n % 10)]
    }
}

/// Decimal rendering of an integer, with a leading minus sign when negative.
pub open spec fn int_dec(v: int) -> Seq<char> {
    if v >= 0 {
        dec_str(v as nat)
    } else {
        seq!['-'] + dec_str((-v) as nat)
    }
}

fn digit_str(d: u64) -> (r: &'static str)
    requires
        d < 10,
    ensures
        r@ =~= seq![digit_char(d as nat)],
{
    proof {
        reveal_strlit("0");
        reveal_strlit("1");
        reveal_strlit("2");
        reveal_strlit("3");
        reveal_strlit("4");
        reveal_strlit("5");
        reveal_strlit("6");
        reveal_strlit("7");
        reveal_strlit("8");
        reveal_strlit("9");
    }
    if d == 0 {
        "0"
    } else if d == 1 {
        "1"
    } else if d == 2 {
        "2"
    } else if d == 3 {
        "3"
    } else if d == 4 {
        "4"
    } else if d == 5 {
        "5"
    } else if d == 6 {
        "6"
    } else if d == 7 {
        "7"
    } else if d == 8 {
        "8"
    } else {
        "9"
    }
}

/// Render an unsigned integer in decimal.
pub fn u64_to_dec(n: u64) -> (r: String)
    ensures
        r@ == dec_str(n as nat),
    decreases n,
{
    if n < 10 {
        digit_str(n).to_owned()
    } else {
        let mut s = u64_to_dec(n / 10);
        s.append(digit_str(n % 10));
        s
    }
}

/// Render a signed integer in decimal.
pub fn i32_to_dec(n: i32) -> (r: String)
    ensures
        r@ == int_dec(n as int),
{
    if n >= 0 {
        u64_to_dec(n as u64)
    } else {
        let mag: u64 = (-(n as i64)) as u64;
        let mut s = "-".to_owned();
        let digits = u64_to_dec(mag);
        s.append(digits.as_str());
        proof {
            reveal_strlit("-");
            assert("-"@ =~= seq!['-']);
        }
        s
    }
}

} // verus!
