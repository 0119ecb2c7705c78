//! Small operations on text that the rules of the service are written with.

use vstd::prelude::*;

verus! {

/// The pieces of `s` between its commas, in order. A text without a comma is
/// one piece, and so is the empty text; a comma at either end, or two in a
/// row, leave an empty piece.
pub open spec fn split_commas(s: Seq<char>) -> Seq<Seq<char>>
    decreases s.len(),
{
    if s.len() == 0 {
        seq![Seq::<char>::empty()]
    } else {
        let before = split_commas(s.drop_last());
        if s.last() == ',' {
            before.push(Seq::<char>::empty())
        } else {
            before.update(before.len() - 1, before.last().push(s.last()))
        }
    }
}

/// Splitting never yields an empty list.
pub proof fn lemma_split_commas_nonempty(s: Seq<char>)
    ensures
        split_commas(s).len() >= 1,
    decreases s.len(),
{
    if s.len() > 0 {
        lemma_split_commas_nonempty(s.drop_last());
    }
}

/// The pieces put together again, with a comma between each two.
pub open spec fn join_commas(pieces: Seq<Seq<char>>) -> Seq<char>
    decreases pieces.len(),
{
    if pieces.len() == 0 {
        Seq::empty()
    } else if pieces.len() == 1 {
        pieces[0]
    } else {
        join_commas(pieces.drop_last()).push(',') + pieces.last()
    }
}

/// Splitting loses nothing and leaves no comma: no piece holds one, and the
/// pieces put together again with commas are the text that was split.
pub proof fn law_split_commas_is_exact(s: Seq<char>)
    ensures
        join_commas(split_commas(s)) == s,
        forall|i: int, j: int|
            0 <= i < split_commas(s).len() && 0 <= j < split_commas(s)[i].len() ==> split_commas(
                s,
            )[i][j] != ',',
    decreases s.len(),
{
    if s.len() > 0 {
        let rest = s.drop_last();
        let before = split_commas(rest);
        let last = before.len() - 1;
        law_split_commas_is_exact(rest);
        lemma_split_commas_nonempty(rest);
        assert(rest.push(s.last()) =~= s);
        if s.last() == ',' {
            let now = before.push(Seq::<char>::empty());
            assert(now.drop_last() =~= before);
            assert(join_commas(now) =~= s);
        } else {
            let grown = before[last].push(s.last());
            let now = before.update(last, grown);
            if before.len() == 1 {
                assert(join_commas(now) =~= s);
            } else {
                assert(now.drop_last() =~= before.drop_last());
                assert(join_commas(now) =~= join_commas(before).push(s.last()));
            }
            assert forall|i: int, j: int| 0 <= i < now.len() && 0 <= j < now[i].len() implies now[i][j]
                != ',' by {
                if i == last && j < before[last].len() {
                    assert(now[i][j] == before[last][j]);
                } else if i != last {
                    assert(now[i] == before[i]);
                }
            }
        }
    }
}

/// Reading one more character either opens a new piece or grows the last.
pub proof fn lemma_split_commas_step(s: Seq<char>, done: Seq<Seq<char>>, start: int, i: int)
    requires
        0 <= start <= i < s.len(),
        split_commas(s.take(i)) == done.push(s.subrange(start, i)),
    ensures
        s[i] == ',' ==> split_commas(s.take(i + 1)) == done.push(s.subrange(start, i)).push(
            s.subrange(i + 1, i + 1),
        ),
        s[i] != ',' ==> split_commas(s.take(i + 1)) == done.push(s.subrange(start, i + 1)),
{
    let t = s.take(i + 1);
    assert(t.drop_last() =~= s.take(i));
    assert(t.last() == s[i]);
    let before = split_commas(t.drop_last());
    assert(before.len() - 1 == done.len());
    assert(before.last() == s.subrange(start, i));
    if s[i] == ',' {
        assert(s.subrange(i + 1, i + 1) =~= Seq::<char>::empty());
    } else {
        assert(s.subrange(start, i).push(s[i]) =~= s.subrange(start, i + 1));
        assert(before.update(before.len() - 1, s.subrange(start, i + 1)) =~= done.push(
            s.subrange(start, i + 1),
        ));
    }
}

/// The characters of `s`, in order.
pub fn chars_of(s: &str) -> (chars: Vec<char>)
    ensures
        chars@ == s@,
{
    let mut chars: Vec<char> = Vec::new();
    for c in it: s.chars()
        invariant
            it.seq() == s@,
            chars@ == s@.take(it.index() as int),
    {
        chars.push(c);
    }
    chars
}

/// Whether two texts hold the same characters.
pub fn same_text(a: &str, b: &str) -> (same: bool)
    ensures
        same == (a@ == b@),
{
    let left = a.to_owned();
    let right = b.to_owned();
    left == right
}

/// The place of the last `mark` in `s`, or -1 if `s` holds none.
pub open spec fn last_index_of(s: Seq<char>, mark: char) -> int
    decreases s.len(),
{
    if s.len() == 0 {
        -1
    } else if s.last() == mark {
        s.len() - 1
    } else {
        last_index_of(s.drop_last(), mark)
    }
}

/// What follows the last `mark` in `s`, if `s` holds one.
pub open spec fn after_last(s: Seq<char>, mark: char) -> Option<Seq<char>> {
    let at = last_index_of(s, mark);
    if at < 0 {
        None
    } else {
        Some(s.subrange(at + 1, s.len() as int))
    }
}

/// What follows the last `mark` in `s`, if `s` holds one.
pub fn tail_after_last<'a>(s: &'a str, mark: char) -> (tail: Option<&'a str>)
    ensures
        match tail {
            Some(rest) => after_last(s@, mark) == Some(rest@),
            None => after_last(s@, mark) is None,
        },
{
    let chars = chars_of(s);
    let mut i: usize = chars.len();
    proof {
        assert(s@.take(i as int) =~= s@);
    }
    while i > 0
        invariant
            chars@ == s@,
            i <= chars.len(),
            last_index_of(s@, mark) == last_index_of(s@.take(i as int), mark),
        decreases i,
    {
        proof {
            assert(s@.take(i as int).drop_last() =~= s@.take(i - 1));
        }
        if chars[i - 1] == mark {
            return Some(s.substring_char(i, chars.len()));
        }
        i = i - 1;
    }
    None
}

/// The ten digits.
pub open spec fn digits() -> Seq<char> {
    seq!['0', '1', '2', '3', '4', '5', '6', '7', '8', '9']
}

/// A number written in base ten, without sign or leading zero.
pub open spec fn decimal(n: nat) -> Seq<char>
    decreases n,
{
    if n < 10 {
        seq![digits()[n as int]]
    } else {
        decimal(n / 10).push(digits()[(n % 10) as int])
    }
}

/// One digit as a text.
fn digit_text(d: u64) -> (text: &'static str)
    requires
        d < 10,
    ensures
        text@ == seq![digits()[d as int]],
{
    proof {
        reveal_strlit("0");
        reveal_strlit("1");
        reveal_strlit("2");
        reveal_strlit("3");
        reveal_strlit("4");
        reveal_strlit("5");
        reveal_strlit("6");
        reveal_strlit("7");
        reveal_strlit("8");
        reveal_strlit("9");
    }
    let text = if d == 0 {
        "0"
    } else if d == 1 {
        "1"
    } else if d == 2 {
        "2"
    } else if d == 3 {
        "3"
    } else if d == 4 {
        "4"
    } else if d == 5 {
        "5"
    } else if d == 6 {
        "6"
    } else if d == 7 {
        "7"
    } else if d == 8 {
        "8"
    } else {
        "9"
    };
    assert(text@ =~= seq![digits()[d as int]]);
    text
}

/// Writes a number in base ten.
pub fn decimal_text(n: u64) -> (text: String)
    ensures
        text@ == decimal(n as nat),
    decreases n,
{
    if n < 10 {
        String::from_str(digit_text(n))
    } else {
        let mut text = decimal_text(n / 10);
        text.append(digit_text(n % 10));
        assert(text@ =~= decimal((n / 10) as nat).push(digits()[(n % 10) as int]));
        text
    }
}

} // verus!
