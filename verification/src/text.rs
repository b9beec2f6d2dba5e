//! Text helpers: building strings, decimal numbers, splitting at a character.
use vstd::prelude::*;
use vstd::string::StrSliceExecFns;

verus! {

/// Appends `c` to `s`.
///
/// Calls `String::push`, which its documentation says appends the character
/// to the end of the string; the contract claims that the text grows by
/// exactly that character.
#[verifier::external_body]
pub(crate) fn push_char(s: &mut String, c: char)
    ensures
        final(s)@ == old(s)@.push(c),
{
    s.push(c)
}

/// Appends `t` to `s`.
///
/// Calls `String::push_str`, which its documentation says appends the given
/// text to the end of the string; the contract claims that the text grows by
/// exactly that text.
#[verifier::external_body]
pub(crate) fn push_str(s: &mut String, t: &str)
    ensures
        final(s)@ == old(s)@ + t@,
{
    s.push_str(t)
}

/// The decimal digit of `d`.
pub open spec fn digit_char(d: nat) -> char {
    ((48 + d) as u32) as char
}

/// The decimal text of `n`, without leading zeros.
pub open spec fn decimal(n: nat) -> Seq<char>
    decreases n,
{
    if n < 10 {
        seq![digit_char(n)]
    } else {
        decimal(n / 10).push(digit_char(n % 10))
    }
}

/// Appends the decimal text of `n` to `s`.
pub fn push_decimal(s: &mut String, n: u64)
    ensures
        final(s)@ == old(s)@ + decimal(n as nat),
    decreases n,
{
    if n >= 10 {
        push_decimal(s, n / 10);
    }
    let d: u64 = n % 10;
    let c: char = ((48u64 + d) as u8) as char;
    assert(c == digit_char(d as nat));
    push_char(s, c);
    proof {
        if n >= 10 {
            assert(old(s)@ + decimal(n as nat) =~= old(s)@ + decimal((n / 10) as nat) + seq![c]);
        } else {
            assert(old(s)@ + decimal(n as nat) =~= old(s)@ + seq![c]);
        }
    }
}

/// The index of the last `c` in `s`, if any.
pub open spec fn last_index_of(s: Seq<char>, c: char) -> Option<int>
    decreases s.len(),
{
    if s.len() == 0 {
        None
    } else if s.last() == c {
        Some(s.len() - 1)
    } else {
        last_index_of(s.drop_last(), c)
    }
}

/// The index of the last `c`, when there is one, is the index of a `c` with
/// no `c` after it.
pub proof fn lemma_last_index_of(s: Seq<char>, c: char)
    ensures
        match last_index_of(s, c) {
            Some(p) => 0 <= p < s.len() && s[p] == c && forall|j: int| p < j < s.len() ==> s[j] != c,
            None => forall|j: int| 0 <= j < s.len() ==> s[j] != c,
        },
    decreases s.len(),
{
    if s.len() > 0 {
        lemma_last_index_of(s.drop_last(), c);
        assert forall|j: int| 0 <= j < s.len() - 1 implies s.drop_last()[j] == s[j] by {}
    }
}

/// The text before and after the last `c` of `s`, or `s` and nothing where
/// `s` has no `c` (what `str::rsplit_once` gives, with its `None` read as the
/// whole text and an empty rest).
pub open spec fn split_at_last(s: Seq<char>, c: char) -> (Seq<char>, Seq<char>) {
    match last_index_of(s, c) {
        Some(p) => (s.take(p), s.skip(p + 1)),
        None => (s, Seq::empty()),
    }
}

/// Splits `s` at its last `c`: the text before and after it, or `s` and an
/// empty text where `s` has no `c`.
pub fn split_at_last_char(s: &str, c: char) -> (res: (String, String))
    ensures
        (res.0@, res.1@) == split_at_last(s@, c),
{
    let n = s.unicode_len();
    let mut i: usize = n;
    proof {
        assert(s@.take(n as int) =~= s@);
    }
    while i > 0
        invariant
            i <= n,
            n == s@.len(),
            last_index_of(s@, c) == last_index_of(s@.take(i as int), c),
        decreases i,
    {
        if s.get_char(i - 1) == c {
            proof {
                assert(s@.take(i as int).last() == c);
            }
            let before = s.substring_char(0, i - 1);
            let after = s.substring_char(i, n);
            proof {
                assert(s@.take((i - 1) as int) =~= s@.subrange(0, (i - 1) as int));
                assert(s@.skip(i as int) =~= s@.subrange(i as int, n as int));
            }
            return (before.to_owned(), after.to_owned());
        }
        proof {
            assert(s@.take(i as int).drop_last() =~= s@.take((i - 1) as int));
        }
        i = i - 1;
    }
    proof {
        assert(s@.take(0) =~= Seq::<char>::empty());
    }
    (s.to_owned(), String::new())
}

/// Whether `s` has the character `c`.
pub fn has_char(s: &str, c: char) -> (res: bool)
    ensures
        res == s@.contains(c),
{
    let n = s.unicode_len();
    let mut i: usize = 0;
    while i < n
        invariant
            i <= n,
            n == s@.len(),
            forall|j: int| 0 <= j < i ==> s@[j] != c,
        decreases n - i,
    {
        if s.get_char(i) == c {
            return true;
        }
        i = i + 1;
    }
    false
}

/// The pieces of `s` between the `sep` characters, in order, without the
/// empty ones.
pub open spec fn nonempty_pieces(s: Seq<char>, sep: char) -> Seq<Seq<char>>
    decreases s.len(),
{
    match last_index_of(s, sep) {
        None => if s.len() == 0 {
            Seq::empty()
        } else {
            seq![s]
        },
        Some(p) => {
            proof {
                lemma_last_index_of(s, sep);
            }
            let rest = nonempty_pieces(s.take(p), sep);
            if p + 1 == s.len() {
                rest
            } else {
                rest.push(s.skip(p + 1))
            }
        },
    }
}

/// The pieces of the first `end` characters of `s` between the `sep`
/// characters, in order, without the empty ones.
fn pieces_of(s: &str, end: usize, sep: char) -> (res: Vec<String>)
    requires
        end <= s@.len(),
    ensures
        res@.map_values(|x: String| x@) == nonempty_pieces(s@.take(end as int), sep),
    decreases end,
{
    let mut i: usize = end;
    let ghost t = s@.take(end as int);
    proof {
        assert(t.take(end as int) =~= t);
    }
    while i > 0
        invariant
            i <= end <= s@.len(),
            t == s@.take(end as int),
            last_index_of(t, sep) == last_index_of(t.take(i as int), sep),
        decreases i,
    {
        if s.get_char(i - 1) == sep {
            proof {
                assert(t.take(i as int).last() == sep);
                assert(t.take((i - 1) as int) =~= s@.take((i - 1) as int));
            }
            let mut rest = pieces_of(s, i - 1, sep);
            if i < end {
                let piece = s.substring_char(i, end).to_owned();
                proof {
                    assert(piece@ =~= t.skip(i as int));
                }
                rest.push(piece);
            }
            proof {
                assert(rest@.map_values(|x: String| x@) =~= nonempty_pieces(t, sep));
            }
            return rest;
        }
        proof {
            assert(t.take(i as int).drop_last() =~= t.take((i - 1) as int));
        }
        i = i - 1;
    }
    proof {
        assert(t.take(0) =~= Seq::<char>::empty());
    }
    let mut out: Vec<String> = Vec::new();
    if end > 0 {
        let piece = s.substring_char(0, end).to_owned();
        out.push(piece);
    }
    proof {
        assert(out@.map_values(|x: String| x@) =~= nonempty_pieces(t, sep));
    }
    out
}

/// The pieces of `s` between the `sep` characters, in order, without the
/// empty ones.
pub fn nonempty_pieces_of(s: &str, sep: char) -> (res: Vec<String>)
    ensures
        res@.map_values(|x: String| x@) == nonempty_pieces(s@, sep),
{
    let n = s.unicode_len();
    proof {
        assert(s@.take(n as int) =~= s@);
    }
    pieces_of(s, n, sep)
}

/// The texts of `items` joined with `sep` between each two.
pub open spec fn joined(items: Seq<Seq<char>>, sep: char) -> Seq<char>
    decreases items.len(),
{
    if items.len() == 0 {
        Seq::empty()
    } else if items.len() == 1 {
        items[0]
    } else {
        joined(items.drop_last(), sep).push(sep) + items.last()
    }
}

/// The texts of `items` joined with `sep` between each two.
pub fn join_with(items: &Vec<String>, sep: char) -> (res: String)
    ensures
        res@ == joined(items@.map_values(|x: String| x@), sep),
{
    let ghost v = items@.map_values(|x: String| x@);
    let mut out = String::new();
    let mut i: usize = 0;
    while i < items.len()
        invariant
            i <= items@.len(),
            v == items@.map_values(|x: String| x@),
            out@ == joined(v.take(i as int), sep),
        decreases items@.len() - i,
    {
        if i > 0 {
            push_char(&mut out, sep);
        }
        push_str(&mut out, items[i].as_str());
        i = i + 1;
        proof {
            let w = v.take(i as int);
            assert(w.drop_last() =~= v.take((i - 1) as int));
            if i == 1 {
                assert(out@ =~= w[0]);
            }
        }
    }
    proof {
        assert(v.take(items@.len() as int) =~= v);
    }
    out
}

} // verus!
