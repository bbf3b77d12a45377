//! Verified string building blocks: decimal rendering of numbers, joining
//! sequences of words with separators, and splitting a command line into
//! whitespace-separated tokens.

use vstd::prelude::*;
use vstd::string::StringExecFns;
use vstd::string::StrSliceExecFns;

verus! {

/// The views of a sequence of strings.
pub open spec fn seq_views(items: Seq<String>) -> Seq<Seq<char>> {
    Seq::new(items.len(), |i: int| items[i]@)
}

/// The character that stands for a decimal digit.
pub open spec fn dec_digit(d: nat) -> char {
    if d == 0 {
        '0'
    } else if d == 1 {
        '1'
    } else if d == 2 {
        '2'
    } else if d == 3 {
        '3'
    } else if d == 4 {
        '4'
    } else if d == 5 {
        '5'
    } else if d == 6 {
        '6'
    } else if d == 7 {
        '7'
    } else if d == 8 {
        '8'
    } else {
        '9'
    }
}

/// The decimal rendering of a number, without leading zeros (except for the
/// number zero itself).
pub open spec fn dec_digits(n: nat) -> Seq<char>
    decreases n,
{
    if n < 10 {
        seq![dec_digit(n)]
    } else {
        dec_digits(n / 10) + seq![dec_digit(n % 10)]
    }
}

/// The string slice holding one decimal digit.
fn digit_str(d: usize) -> (r: &'static str)
    requires
        d < 10,
    ensures
        r@ == seq![dec_digit(d as nat)],
{
    proof {
        reveal_strlit("0");
        reveal_strlit("1");
        reveal_strlit("2");
        reveal_strlit("3");
        reveal_strlit("4");
        reveal_strlit("5");
        reveal_strlit("6");
        reveal_strlit("7");
        reveal_strlit("8");
        reveal_strlit("9");
    }
    let r = if d == 0 {
        "0"
    } else if d == 1 {
        "1"
    } else if d == 2 {
        "2"
    } else if d == 3 {
        "3"
    } else if d == 4 {
        "4"
    } else if d == 5 {
        "5"
    } else if d == 6 {
        "6"
    } else if d == 7 {
        "7"
    } else if d == 8 {
        "8"
    } else {
        "9"
    };
    proof {
        assert(r@ =~= seq![dec_digit(d as nat)]);
    }
    r
}

/// Renders a number in decimal.
pub fn usize_to_string(n: usize) -> (s: String)
    ensures
        s@ == dec_digits(n as nat),
    decreases n,
{
    if n < 10 {
        digit_str(n).to_owned()
    } else {
        assert(n / 10 < n && (n / 10) as nat == n as nat / 10 && (n % 10) as nat == n as nat % 10);
        let mut s = usize_to_string(n / 10);
        s.append(digit_str(n % 10));
        s
    }
}

/// The concatenation of the given words, each preceded by the prefix.
pub open spec fn concat_prefixed(pre: Seq<char>, items: Seq<Seq<char>>) -> Seq<char>
    decreases items.len(),
{
    if items.len() == 0 {
        Seq::empty()
    } else {
        concat_prefixed(pre, items.drop_last()) + pre + items.last()
    }
}

/// Appends every word of `items` from position `from` on to `out`, each
/// preceded by `pre`.
pub fn append_prefixed(out: &mut String, pre: &str, items: &Vec<String>, from: usize)
    requires
        from <= items@.len(),
    ensures
        final(out)@ == old(out)@ + concat_prefixed(pre@, seq_views(items@).skip(from as int)),
{
    let ghost orig = out@;
    let mut i: usize = from;
    while i < items.len()
        invariant
            from <= i <= items@.len(),
            out@ == orig + concat_prefixed(pre@, seq_views(items@).subrange(from as int, i as int)),
        decreases items@.len() - i,
    {
        out.append(pre);
        out.append(items[i].as_str());
        proof {
            let vs = seq_views(items@);
            assert(vs.subrange(from as int, i + 1).drop_last() =~= vs.subrange(
                from as int,
                i as int,
            ));
            assert(out@ =~= orig + concat_prefixed(pre@, vs.subrange(from as int, i + 1)));
        }
        i += 1;
    }
    proof {
        assert(seq_views(items@).subrange(from as int, items@.len() as int) =~= seq_views(
            items@,
        ).skip(from as int));
    }
}

/// The given words joined by single spaces, with nothing before the first
/// word and nothing after the last.
pub open spec fn join_spaced(items: Seq<Seq<char>>) -> Seq<char> {
    if items.len() == 0 {
        Seq::empty()
    } else {
        items[0] + concat_prefixed(" "@, items.drop_first())
    }
}

/// Joins the given words with single spaces.
pub fn join_with_spaces(items: &Vec<String>) -> (s: String)
    ensures
        s@ == join_spaced(seq_views(items@)),
{
    if items.len() == 0 {
        String::new()
    } else {
        let mut s = items[0].clone();
        append_prefixed(&mut s, " ", items, 1);
        proof {
            assert(seq_views(items@).skip(1) =~= seq_views(items@).drop_first());
        }
        s
    }
}

/// Whether a character is ASCII whitespace: the set that separates the
/// tokens of a command line.
pub open spec fn is_ascii_ws(c: char) -> bool {
    c == ' ' || c == '\t' || c == '\n' || c == '\u{c}' || c == '\r'
}

/// The tokens of `s` from position `i` on, given that the characters of an
/// unfinished token read so far are `cur`: maximal runs of characters that
/// are not ASCII whitespace.
pub open spec fn tokens_from(s: Seq<char>, i: int, cur: Seq<char>) -> Seq<Seq<char>>
    decreases s.len() - i,
{
    if i < 0 || i >= s.len() {
        if cur.len() == 0 {
            Seq::empty()
        } else {
            seq![cur]
        }
    } else if is_ascii_ws(s[i]) {
        if cur.len() == 0 {
            tokens_from(s, i + 1, Seq::empty())
        } else {
            seq![cur] + tokens_from(s, i + 1, Seq::empty())
        }
    } else {
        tokens_from(s, i + 1, cur.push(s[i]))
    }
}

/// The whitespace-separated tokens of a string.
pub open spec fn tokens_of(s: Seq<char>) -> Seq<Seq<char>> {
    tokens_from(s, 0, Seq::empty())
}

/// A string whose unfinished token is nonempty, or whose next character
/// starts one, has at least one token.
pub proof fn lemma_tokens_from_nonempty(s: Seq<char>, i: int, cur: Seq<char>)
    requires
        0 <= i <= s.len(),
        cur.len() > 0 || (i < s.len() && !is_ascii_ws(s[i])),
    ensures
        tokens_from(s, i, cur).len() > 0,
    decreases s.len() - i,
{
    if cur.len() > 0 {
        if 0 <= i < s.len() && !is_ascii_ws(s[i]) {
            lemma_tokens_from_nonempty(s, i + 1, cur.push(s[i]));
        }
    } else {
        lemma_tokens_from_nonempty(s, i + 1, cur.push(s[i]));
    }
}

/// A string that starts with a character that is not ASCII whitespace has at
/// least one token.
pub proof fn lemma_tokens_nonempty(s: Seq<char>)
    requires
        s.len() > 0,
        !is_ascii_ws(s[0]),
    ensures
        tokens_of(s).len() > 0,
{
    lemma_tokens_from_nonempty(s, 0, Seq::empty());
}

/// Splits a string into its whitespace-separated tokens.
pub fn split_tokens(s: &str) -> (r: Vec<String>)
    ensures
        seq_views(r@) == tokens_of(s@),
{
    let n = s.unicode_len();
    let mut r: Vec<String> = Vec::new();
    let mut i: usize = 0;
    let mut start: usize = 0;
    proof {
        assert(s@.subrange(0, 0) =~= Seq::<char>::empty());
        assert(seq_views(r@) =~= Seq::<Seq<char>>::empty());
        assert(tokens_of(s@) =~= seq_views(r@) + tokens_from(s@, 0, s@.subrange(0, 0)));
    }
    while i < n
        invariant
            n == s@.len(),
            i <= n,
            start <= i,
            tokens_of(s@) == seq_views(r@) + tokens_from(
                s@,
                i as int,
                s@.subrange(start as int, i as int),
            ),
        decreases n - i,
    {
        let ghost cur = s@.subrange(start as int, i as int);
        let c = s.get_char(i);
        if c == ' ' || c == '\t' || c == '\n' || c == '\u{c}' || c == '\r' {
            if start < i {
                let tok = s.substring_char(start, i);
                r.push(tok.to_owned());
                proof {
                    assert(seq_views(r@).drop_last() =~= seq_views(r@.drop_last()));
                    assert(seq_views(r@) =~= seq_views(r@.drop_last()) + seq![cur]);
                    assert(tokens_from(s@, i as int, cur) == seq![cur] + tokens_from(
                        s@,
                        i + 1,
                        Seq::empty(),
                    ));
                    assert(tokens_of(s@) =~= seq_views(r@) + tokens_from(s@, i + 1, Seq::empty()));
                }
            }
            i += 1;
            start = i;
            proof {
                assert(s@.subrange(start as int, i as int) =~= Seq::<char>::empty());
            }
        } else {
            i += 1;
            proof {
                assert(s@.subrange(start as int, i as int) =~= cur.push(s@[i - 1]));
            }
        }
    }
    let ghost cur = s@.subrange(start as int, i as int);
    if start < i {
        let tok = s.substring_char(start, i);
        r.push(tok.to_owned());
        proof {
            assert(seq_views(r@).drop_last() =~= seq_views(r@.drop_last()));
            assert(seq_views(r@) =~= seq_views(r@.drop_last()) + seq![cur]);
            assert(tokens_from(s@, i as int, cur) =~= seq![cur]);
            assert(seq_views(r@) =~= tokens_of(s@));
        }
    } else {
        proof {
            assert(cur =~= Seq::<char>::empty());
            assert(tokens_from(s@, i as int, cur) =~= Seq::<Seq<char>>::empty());
            assert(seq_views(r@) =~= tokens_of(s@));
        }
    }
    r
}

} // verus!
