//! Text helpers: splitting, searching and decimal numbers, over sequences of
//! characters.

use vstd::prelude::*;
use vstd::string::StrSliceExecFns;
use vstd::string::StringExecFns;

verus! {

/// The views of a list of strings.
pub open spec fn texts(list: Seq<String>) -> Seq<Seq<char>> {
    list.map_values(|s: String| s@)
}

/// The pieces of `s` between occurrences of `sep`, empty ones included. There
/// is always at least one piece.
pub open spec fn split_at_each(s: Seq<char>, sep: char) -> Seq<Seq<char>>
    decreases s.len(),
{
    if s.len() == 0 {
        seq![Seq::empty()]
    } else {
        let before = split_at_each(s.drop_last(), sep);
        if s.last() == sep {
            before.push(Seq::empty())
        } else {
            before.drop_last().push(before.last().push(s.last()))
        }
    }
}

/// The non-empty pieces of `s` between occurrences of `sep`.
pub open spec fn nonempty_pieces(s: Seq<char>, sep: char) -> Seq<Seq<char>> {
    split_at_each(s, sep).filter(|piece: Seq<char>| piece.len() > 0)
}

/// The position of the first `c` in `s`, or the length of `s` if there is none.
pub open spec fn first_position(s: Seq<char>, c: char) -> nat
    decreases s.len(),
{
    if s.len() == 0 || s[0] == c {
        0
    } else {
        1 + first_position(s.drop_first(), c)
    }
}

/// The first `c` in `s` stands at the position that `first_position` names, if
/// `c` occurs at all.
pub proof fn lemma_first_position(s: Seq<char>, c: char)
    ensures
        first_position(s, c) <= s.len(),
        s.contains(c) <==> first_position(s, c) < s.len(),
        first_position(s, c) < s.len() ==> s[first_position(s, c) as int] == c,
        forall|i: int| 0 <= i < first_position(s, c) ==> s[i] != c,
    decreases s.len(),
{
    if s.len() > 0 {
        let rest = s.drop_first();
        lemma_first_position(rest, c);
        if s[0] == c {
            assert(s.contains(c));
        } else {
            assert forall|i: int| 0 <= i < first_position(s, c) implies s[i] != c by {
                if i > 0 {
                    assert(rest[i - 1] == s[i]);
                }
            }
            if s.contains(c) {
                let i = choose|i: int| 0 <= i < s.len() && s[i] == c;
                assert(rest[i - 1] == c);
                assert(rest.contains(c));
            }
            if first_position(s, c) < s.len() {
                assert(s[first_position(s, c) as int] == rest[first_position(rest, c) as int]);
                assert(s.contains(c));
            }
        }
    }
}

/// A position that holds `c` and has no `c` before it is the first one.
pub proof fn lemma_first_position_is(s: Seq<char>, c: char, n: nat)
    requires
        n <= s.len(),
        forall|i: int| 0 <= i < n ==> s[i] != c,
        n < s.len() ==> s[n as int] == c,
    ensures
        first_position(s, c) == n,
{
    lemma_first_position(s, c);
    if first_position(s, c) < n {
        assert(s[first_position(s, c) as int] == c);
    }
}

/// Cutting after a piece that holds no separator gives that piece.
pub proof fn lemma_split_snoc(a: Seq<char>, sep: char, b: Seq<char>)
    requires
        !b.contains(sep),
    ensures
        split_at_each(a.push(sep) + b, sep) == split_at_each(a, sep).push(b),
    decreases b.len(),
{
    let whole = a.push(sep) + b;
    if b.len() == 0 {
        assert(whole =~= a.push(sep));
        assert(whole.drop_last() =~= a);
        assert(b =~= Seq::empty());
    } else {
        let shorter = b.drop_last();
        assert(whole.drop_last() =~= a.push(sep) + shorter);
        assert(b.last() != sep) by {
            assert(b.contains(b.last()));
        }
        assert(!shorter.contains(sep)) by {
            if shorter.contains(sep) {
                let i = choose|i: int| 0 <= i < shorter.len() && shorter[i] == sep;
                assert(b[i] == sep);
                assert(b.contains(sep));
            }
        }
        lemma_split_snoc(a, sep, shorter);
        let before = split_at_each(a, sep).push(shorter);
        assert(before.drop_last() =~= split_at_each(a, sep));
        assert(shorter.push(b.last()) =~= b);
    }
}

/// Text that holds no separator is one piece.
pub proof fn lemma_split_whole(b: Seq<char>, sep: char)
    requires
        !b.contains(sep),
    ensures
        split_at_each(b, sep) == seq![b],
    decreases b.len(),
{
    if b.len() == 0 {
        assert(b =~= Seq::empty());
    } else {
        let shorter = b.drop_last();
        assert(b.last() != sep) by {
            assert(b.contains(b.last()));
        }
        assert(!shorter.contains(sep)) by {
            if shorter.contains(sep) {
                let i = choose|i: int| 0 <= i < shorter.len() && shorter[i] == sep;
                assert(b[i] == sep);
                assert(b.contains(sep));
            }
        }
        lemma_split_whole(shorter, sep);
        assert(seq![shorter].drop_last() =~= Seq::empty());
        assert(shorter.push(b.last()) =~= b);
        assert(split_at_each(b, sep) =~= seq![b]);
    }
}

/// No piece holds a separator, and there is at least one piece.
pub proof fn lemma_pieces_hold_no_separator(s: Seq<char>, sep: char)
    ensures
        split_at_each(s, sep).len() > 0,
        forall|i: int|
            0 <= i < split_at_each(s, sep).len() ==> !(#[trigger] split_at_each(s, sep)[i]).contains(
                sep,
            ),
    decreases s.len(),
{
    if s.len() > 0 {
        let before = split_at_each(s.drop_last(), sep);
        lemma_pieces_hold_no_separator(s.drop_last(), sep);
        let now = split_at_each(s, sep);
        assert forall|i: int| 0 <= i < now.len() implies !(#[trigger] now[i]).contains(sep) by {
            if i < now.len() - 1 {
                assert(now[i] == before[i]);
            } else if s.last() != sep {
                let last = before.last();
                assert(now[i] == last.push(s.last()));
                assert(!last.contains(sep)) by {
                    assert(last == before[before.len() - 1]);
                }
                if now[i].contains(sep) {
                    let k = choose|k: int| 0 <= k < now[i].len() && now[i][k] == sep;
                    assert(k < last.len());
                    assert(last[k] == sep);
                    assert(last.contains(sep));
                }
            }
        }
    }
}

/// What a filter does with one more item.
pub proof fn lemma_filter_push<T>(s: Seq<T>, keep: spec_fn(T) -> bool, item: T)
    ensures
        s.push(item).filter(keep) == if keep(item) {
            s.filter(keep).push(item)
        } else {
            s.filter(keep)
        },
{
    reveal(Seq::filter);
    assert(s.push(item).drop_last() =~= s);
}

/// The characters of `s`, in order.
pub fn chars_of(s: &str) -> (out: Vec<char>)
    ensures
        out@ == s@,
{
    let mut out: Vec<char> = Vec::new();
    for c in it: s.chars()
        invariant
            it.seq() == s@,
            out@ == s@.take(it.index()),
    {
        out.push(c);
        assert(out@ =~= s@.take(it.index() + 1));
    }
    assert(s@.take(s@.len() as int) =~= s@);
    out
}

/// Whether two texts hold the same characters.
pub fn same_text(a: &str, b: &str) -> (same: bool)
    ensures
        same == (a@ == b@),
{
    let left: String = a.to_owned();
    let right: String = b.to_owned();
    left == right
}

/// Whether `prefix` opens `s`.
pub open spec fn opens_with(s: Seq<char>, prefix: Seq<char>) -> bool {
    prefix.len() <= s.len() && s.take(prefix.len() as int) == prefix
}

/// Whether `prefix` opens `s`.
pub fn starts_with(s: &str, prefix: &str) -> (yes: bool)
    ensures
        yes == opens_with(s@, prefix@),
{
    let n: usize = prefix.unicode_len();
    if s.unicode_len() < n {
        return false;
    }
    let head: &str = s.substring_char(0, n);
    assert(head@ =~= s@.take(prefix@.len() as int));
    same_text(head, prefix)
}

/// The position of the first `c` in `s`, or the number of characters of `s`.
pub fn find_char(s: &str, c: char) -> (at: usize)
    ensures
        at == first_position(s@, c),
{
    let chars: Vec<char> = chars_of(s);
    let mut at: usize = 0;
    while at < chars.len() && chars[at] != c
        invariant
            at <= chars.len(),
            chars@ == s@,
            forall|i: int| 0 <= i < at ==> s@[i] != c,
        decreases chars.len() - at,
    {
        at = at + 1;
    }
    proof {
        lemma_first_position_is(s@, c, at as nat);
    }
    at
}

/// Whether `c` occurs in `s`.
pub fn has_char(s: &str, c: char) -> (yes: bool)
    ensures
        yes == s@.contains(c),
{
    let at: usize = find_char(s, c);
    proof {
        lemma_first_position(s@, c);
    }
    at < s.unicode_len()
}

/// The non-empty pieces of `s` between occurrences of `sep`, in order.
pub fn cut_nonempty(s: &str, sep: char) -> (pieces: Vec<String>)
    ensures
        texts(pieces@) == nonempty_pieces(s@, sep),
{
    let chars: Vec<char> = chars_of(s);
    let mut pieces: Vec<String> = Vec::new();
    let mut start: usize = 0;
    let mut at: usize = 0;
    let ghost keep = |piece: Seq<char>| piece.len() > 0;
    let ghost mut closed: Seq<Seq<char>> = Seq::empty();
    proof {
        reveal(Seq::filter);
        assert(texts(pieces@) =~= closed.filter(keep));
        assert(s@.take(0) =~= Seq::empty());
        assert(s@.subrange(0, 0) =~= Seq::empty());
        assert(split_at_each(s@.take(0), sep) =~= closed.push(s@.subrange(0, 0)));
    }
    while at < chars.len()
        invariant
            chars@ == s@,
            start <= at <= chars.len(),
            keep == (|piece: Seq<char>| piece.len() > 0),
            texts(pieces@) == closed.filter(keep),
            split_at_each(s@.take(at as int), sep) == closed.push(s@.subrange(start as int, at as int)),
        decreases chars.len() - at,
    {
        let ghost open_piece = s@.subrange(start as int, at as int);
        proof {
            assert(s@.take(at + 1).drop_last() =~= s@.take(at as int));
            assert(s@.take(at + 1).last() == s@[at as int]);
            assert(closed.push(open_piece).drop_last() =~= closed);
            lemma_filter_push(closed, keep, open_piece);
        }
        if chars[at] == sep {
            if start < at {
                let piece: String = s.substring_char(start, at).to_owned();
                let ghost before = pieces@;
                pieces.push(piece);
                assert(texts(pieces@) =~= texts(before).push(open_piece));
            }
            start = at + 1;
            proof {
                closed = closed.push(open_piece);
                assert(s@.subrange(at + 1, at + 1) =~= Seq::empty());
            }
        } else {
            assert(s@.subrange(start as int, at + 1) =~= open_piece.push(s@[at as int]));
        }
        at = at + 1;
    }
    let ghost open_piece = s@.subrange(start as int, at as int);
    proof {
        assert(s@.take(at as int) =~= s@);
        lemma_filter_push(closed, keep, open_piece);
    }
    if start < at {
        let piece: String = s.substring_char(start, at).to_owned();
        let ghost before = pieces@;
        pieces.push(piece);
        assert(texts(pieces@) =~= texts(before).push(open_piece));
    }
    pieces
}

/// The decimal digit `d`.
pub open spec fn digit(d: nat) -> char {
    if d == 0 {
        '0'
    } else if d == 1 {
        '1'
    } else if d == 2 {
        '2'
    } else if d == 3 {
        '3'
    } else if d == 4 {
        '4'
    } else if d == 5 {
        '5'
    } else if d == 6 {
        '6'
    } else if d == 7 {
        '7'
    } else if d == 8 {
        '8'
    } else {
        '9'
    }
}

/// `n` in decimal, without leading zeros.
pub open spec fn decimal(n: nat) -> Seq<char>
    decreases n,
{
    if n < 10 {
        seq![digit(n)]
    } else {
        decimal(n / 10).push(digit(n % 10))
    }
}

fn digit_text(d: u64) -> (t: &'static str)
    requires
        d < 10,
    ensures
        t@ == seq![digit(d as nat)],
{
    proof {
        reveal_strlit("0");
        reveal_strlit("1");
        reveal_strlit("2");
        reveal_strlit("3");
        reveal_strlit("4");
        reveal_strlit("5");
        reveal_strlit("6");
        reveal_strlit("7");
        reveal_strlit("8");
        reveal_strlit("9");
    }
    let t: &'static str = match d {
        0 => "0",
        1 => "1",
        2 => "2",
        3 => "3",
        4 => "4",
        5 => "5",
        6 => "6",
        7 => "7",
        8 => "8",
        _ => "9",
    };
    assert(t@ =~= seq![digit(d as nat)]);
    t
}

/// `n` in decimal.
pub fn decimal_text(n: u64) -> (t: String)
    ensures
        t@ == decimal(n as nat),
    decreases n,
{
    if n < 10 {
        digit_text(n).to_owned()
    } else {
        let mut t: String = decimal_text(n / 10);
        let last: &'static str = digit_text(n % 10);
        t.append(last);
        assert(t@ =~= decimal(n as nat));
        t
    }
}

/// Cutting two texts with a separator between them gives the pieces of the first
/// and then those of the second.
proof fn lemma_split_join(a: Seq<char>, sep: char, b: Seq<char>)
    ensures
        split_at_each(a.push(sep) + b, sep) == split_at_each(a, sep) + split_at_each(b, sep),
    decreases b.len(),
{
    let whole = a.push(sep) + b;
    if b.len() == 0 {
        assert(whole =~= a.push(sep));
        assert(whole.drop_last() =~= a);
    } else {
        let shorter = b.drop_last();
        assert(whole.drop_last() =~= a.push(sep) + shorter);
        assert(whole.last() == b.last());
        lemma_split_join(a, sep, shorter);
        lemma_pieces_hold_no_separator(shorter, sep);
        let before = split_at_each(a, sep) + split_at_each(shorter, sep);
        assert(before.drop_last() =~= split_at_each(a, sep) + split_at_each(
            shorter,
            sep,
        ).drop_last());
    }
}

/// The pieces of a text are those of its parts: a separator stands between pieces
/// and belongs to none, a part without a separator is one piece, and a part that
/// is empty is none.
pub proof fn law_pieces_are_those_of_the_parts(a: Seq<char>, sep: char, b: Seq<char>)
    ensures
        nonempty_pieces(a + seq![sep] + b, sep) == nonempty_pieces(a, sep) + nonempty_pieces(
            b,
            sep,
        ),
        !a.contains(sep) && a.len() > 0 ==> nonempty_pieces(a, sep) == seq![a],
        a.len() == 0 ==> nonempty_pieces(a, sep).len() == 0,
{
    let keep = |piece: Seq<char>| piece.len() > 0;
    assert(a + seq![sep] + b =~= a.push(sep) + b);
    lemma_split_join(a, sep, b);
    Seq::filter_distributes_over_add(split_at_each(a, sep), split_at_each(b, sep), keep);
    let none = Seq::<Seq<char>>::empty();
    lemma_filter_push(none, keep, a);
    assert(none.push(a) =~= seq![a]);
    reveal(Seq::filter);
    assert(none.filter(keep) =~= none);
    assert(none.push(a) =~= seq![a]);
    if !a.contains(sep) {
        lemma_split_whole(a, sep);
        assert(a.len() > 0 ==> nonempty_pieces(a, sep) =~= seq![a]);
    }
    if a.len() == 0 {
        assert(!a.contains(sep));
    }
}

/// A number is written digit by digit: the last digit is what is left of it by
/// ten, and what stands before it is the number without that digit.
pub proof fn law_numbers_are_written_in_decimal(n: nat)
    ensures
        decimal(n).len() >= 1,
        decimal(n).last() as int == '0' as int + n % 10,
        n < 10 ==> decimal(n).len() == 1,
        n >= 10 ==> decimal(n).drop_last() == decimal(n / 10),
{
    if n >= 10 {
        assert(decimal(n).drop_last() =~= decimal(n / 10));
    }
}

/// What the searches and comparisons of texts find.
pub proof fn law_texts_are_searched_from_the_front(
    s: &str,
    t: &str,
    c: char,
    at: usize,
    yes: bool,
    n: u64,
    text: String,
)
    ensures
        call_ensures(same_text, (s, t), yes) ==> (yes <==> s@ == t@),
        call_ensures(starts_with, (s, t), yes) ==> (yes <==> exists|rest: Seq<char>|
            s@ == #[trigger] (t@ + rest)),
        call_ensures(has_char, (s, c), yes) ==> (yes <==> s@.contains(c)),
        call_ensures(find_char, (s, c), at) ==> at <= s@.len() && (at < s@.len() ==> s@[at as int]
            == c) && forall|i: int| 0 <= i < at ==> s@[i] != c,
        call_ensures(decimal_text, (n,), text) ==> text@ == decimal(n as nat),
{
    lemma_first_position(s@, c);
    if opens_with(s@, t@) {
        assert(s@ =~= t@ + s@.skip(t@.len() as int));
    }
    assert forall|rest: Seq<char>| s@ == #[trigger] (t@ + rest) implies opens_with(s@, t@) by {
        assert(s@.take(t@.len() as int) =~= t@);
    }
}

/// Cutting a text gives its pieces, in order.
pub proof fn law_texts_are_cut_into_their_pieces(s: &str, sep: char, pieces: Vec<String>, i: int)
    requires
        call_ensures(cut_nonempty, (s, sep), pieces),
    ensures
        pieces@.len() == nonempty_pieces(s@, sep).len(),
        0 <= i < pieces@.len() ==> pieces@[i]@ == nonempty_pieces(s@, sep)[i],
{
    assert(texts(pieces@).len() == pieces@.len());
}

/// The characters of a text are those that it holds, in order.
pub proof fn law_characters_are_those_of_the_text(s: &str, out: Vec<char>)
    requires
        call_ensures(chars_of, (s,), out),
    ensures
        out@ == s@,
{
}

} // verus!
