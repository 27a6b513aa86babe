//! Small text routines shared by the rest of the crate: splitting a command
//! line, stripping quotes and writing integers in decimal.

use vstd::prelude::*;
use vstd::std_specs::iter::IteratorSpec;

verus! {

/// `String::push` appends exactly the given character.
pub assume_specification[ String::push ](s: &mut String, c: char)
    ensures
        final(s)@ == old(s)@.push(c),
;

/// Anything but the ASCII double quote.
pub open spec fn not_quote(c: char) -> bool {
    c != '"'
}

/// `text` with every ASCII double quote removed.
pub open spec fn unquoted(text: Seq<char>) -> Seq<char> {
    text.filter(|c: char| not_quote(c))
}

/// The pieces of `text` between single spaces, empty pieces included. A text
/// with `n` spaces has `n + 1` pieces; the empty text has one empty piece.
pub open spec fn split_spaces(text: Seq<char>) -> Seq<Seq<char>>
    decreases text.len(),
{
    if text.len() == 0 {
        seq![Seq::<char>::empty()]
    } else {
        let before = split_spaces(text.drop_last());
        if text.last() == ' ' {
            before.push(Seq::<char>::empty())
        } else {
            before.drop_last().push(before.last().push(text.last()))
        }
    }
}

/// The pieces joined again with one space between neighbours.
pub open spec fn join_spaces(pieces: Seq<Seq<char>>) -> Seq<char>
    decreases pieces.len(),
{
    if pieces.len() == 0 {
        Seq::<char>::empty()
    } else if pieces.len() == 1 {
        pieces[0]
    } else {
        join_spaces(pieces.drop_last()) + seq![' '] + pieces.last()
    }
}

/// The character that writes the digit `d`.
pub open spec fn digit_char(d: nat) -> char {
    if d == 0 {
        '0'
    } else if d == 1 {
        '1'
    } else if d == 2 {
        '2'
    } else if d == 3 {
        '3'
    } else if d == 4 {
        '4'
    } else if d == 5 {
        '5'
    } else if d == 6 {
        '6'
    } else if d == 7 {
        '7'
    } else if d == 8 {
        '8'
    } else {
        '9'
    }
}

/// Decimal digits of `n`, most significant first, without leading zeros.
pub open spec fn digits(n: nat) -> Seq<char>
    decreases n,
{
    if n < 10 {
        seq![digit_char(n)]
    } else {
        digits(n / 10).push(digit_char(n % 10))
    }
}

/// Decimal writing of an integer: a minus sign for negative numbers, then the
/// digits of the magnitude.
pub open spec fn decimal(n: int) -> Seq<char> {
    if n < 0 {
        seq!['-'] + digits((-n) as nat)
    } else {
        digits(n as nat)
    }
}

/// Splitting never loses text: every piece is free of spaces and joining the
/// pieces with single spaces gives the text back.
pub proof fn split_spaces_joins_back(text: Seq<char>)
    ensures
        split_spaces(text).len() >= 1,
        join_spaces(split_spaces(text)) == text,
        forall|i: int, j: int|
            0 <= i < split_spaces(text).len() && 0 <= j < split_spaces(text)[i].len()
                ==> split_spaces(text)[i][j] != ' ',
    decreases text.len(),
{
    if text.len() == 0 {
        assert(join_spaces(split_spaces(text)) =~= text);
    } else {
        let shorter = text.drop_last();
        split_spaces_joins_back(shorter);
        let before = split_spaces(shorter);
        let pieces = split_spaces(text);
        if text.last() == ' ' {
            assert(pieces.drop_last() =~= before);
            assert(join_spaces(pieces) =~= shorter + seq![' '] + Seq::<char>::empty());
            assert(join_spaces(pieces) =~= text);
        } else {
            let grown = before.last().push(text.last());
            assert(pieces.last() == grown);
            if before.len() == 1 {
                assert(join_spaces(before) == before[0]);
                assert(join_spaces(pieces) =~= text);
            } else {
                assert(pieces.drop_last() =~= before.drop_last());
                assert(join_spaces(pieces) =~= join_spaces(before.drop_last()) + seq![' ']
                    + before.last() + seq![text.last()]);
                assert(join_spaces(pieces) =~= text);
            }
        }
    }
}

/// Copy of `text` without its ASCII double quotes.
pub fn without_quotes(text: &str) -> (stripped: String)
    ensures
        stripped@ == unquoted(text@),
{
    let mut stripped = String::new();
    for c in it: text.chars()
        invariant
            it.seq() == text@,
            stripped@ == unquoted(text@.take(it.index() as int)),
    {
        proof {
            let i = it.index() as int;
            assert(text@.take(i + 1).drop_last() == text@.take(i));
            reveal(Seq::filter);
        }
        if c != '"' {
            stripped.push(c);
        }
    }
    proof {
        assert(text@.take(text@.len() as int) == text@);
    }
    stripped
}

/// The pieces of `text` between single spaces, as `str::split(' ')` lists them.
pub fn split_on_space(text: &str) -> (pieces: Vec<String>)
    ensures
        pieces.deep_view() == split_spaces(text@),
        pieces.len() >= 1,
{
    let mut pieces: Vec<String> = Vec::new();
    let mut current = String::new();
    for c in it: text.chars()
        invariant
            it.seq() == text@,
            pieces.deep_view().push(current@) == split_spaces(text@.take(it.index() as int)),
    {
        proof {
            let i = it.index() as int;
            assert(text@.take(i + 1).drop_last() == text@.take(i));
            assert(text@.take(i + 1).last() == c);
        }
        let ghost before = pieces.deep_view().push(current@);
        if c == ' ' {
            pieces.push(current);
            current = String::new();
            proof {
                assert(pieces.deep_view() =~= before);
            }
        } else {
            current.push(c);
            proof {
                assert(before.drop_last() =~= pieces.deep_view());
                assert(pieces.deep_view().push(current@) =~= before.drop_last().push(
                    before.last().push(c),
                ));
            }
        }
    }
    proof {
        assert(text@.take(text@.len() as int) == text@);
    }
    pieces.push(current);
    pieces
}

/// The character that writes the digit `d`.
fn digit_to_char(d: u32) -> (c: char)
    requires
        d < 10,
    ensures
        c == digit_char(d as nat),
{
    if d == 0 {
        '0'
    } else if d == 1 {
        '1'
    } else if d == 2 {
        '2'
    } else if d == 3 {
        '3'
    } else if d == 4 {
        '4'
    } else if d == 5 {
        '5'
    } else if d == 6 {
        '6'
    } else if d == 7 {
        '7'
    } else if d == 8 {
        '8'
    } else {
        '9'
    }
}

/// Writing a digit in front of a reversed tail is the same as pushing it on
/// the tail before reversing.
proof fn reverse_of_push(tail: Seq<char>, c: char)
    ensures
        tail.push(c).reverse() == seq![c] + tail.reverse(),
{
    assert(tail.push(c).reverse() =~= seq![c] + tail.reverse());
}

/// One more digit moves from the front part to the back part.
proof fn digits_regroup(all: Seq<char>, front: Seq<char>, c: char, back: Seq<char>)
    requires
        all == front.push(c) + back,
    ensures
        all == front + (seq![c] + back),
{
    assert(front.push(c) + back =~= front + (seq![c] + back));
}

/// Appends the decimal writing of `n` to `out`.
pub fn push_decimal(out: &mut String, n: i32)
    ensures
        final(out)@ == old(out)@ + decimal(n as int),
{
    let mut rest: u32 = if n < 0 {
        out.push('-');
        if n == i32::MIN {
            2147483648u32
        } else {
            (-n) as u32
        }
    } else {
        n as u32
    };
    let ghost magnitude = rest as nat;
    let ghost start = out@;
    let mut lowest: Vec<char> = Vec::new();
    proof {
        assert(digits(magnitude) =~= digits(rest as nat) + lowest@.reverse());
    }
    loop
        invariant_except_break
            digits(magnitude) == digits(rest as nat) + lowest@.reverse(),
        ensures
            digits(magnitude) == lowest@.reverse(),
            lowest.len() >= 1,
        decreases rest,
    {
        let d = rest % 10;
        let c = digit_to_char(d);
        let ghost shown = lowest@.reverse();
        let ghost front = if rest < 10 {
            Seq::<char>::empty()
        } else {
            digits((rest / 10) as nat)
        };
        proof {
            assert(digits(rest as nat) == front.push(c)) by {
                if rest < 10 {
                    assert(seq![c] =~= front.push(c));
                }
            }
            reverse_of_push(lowest@, c);
            digits_regroup(digits(magnitude), front, c, shown);
        }
        lowest.push(c);
        if rest < 10 {
            proof {
                assert(front + lowest@.reverse() =~= lowest@.reverse());
            }
            break;
        }
        rest = rest / 10;
    }
    let mut i: usize = lowest.len();
    proof {
        assert(lowest@.reverse().take(0) =~= Seq::<char>::empty());
        assert(out@ =~= start + lowest@.reverse().take(0));
    }
    while i > 0
        invariant
            i <= lowest.len(),
            out@ == start + lowest@.reverse().take(lowest.len() - i),
        decreases i,
    {
        i = i - 1;
        let c = lowest[i];
        let ghost k = lowest.len() - i - 1;
        proof {
            assert(lowest@.reverse()[k] == c);
            assert(lowest@.reverse().take(k + 1) =~= lowest@.reverse().take(k).push(c));
            assert((start + lowest@.reverse().take(k)).push(c) =~= start + lowest@.reverse().take(
                k + 1,
            ));
        }
        out.push(c);
    }
    proof {
        assert(lowest@.reverse().take(lowest.len() as int) =~= lowest@.reverse());
        if n < 0 {
            assert(start == old(out)@.push('-'));
            assert(out@ =~= old(out)@ + (seq!['-'] + digits(magnitude)));
        }
    }
}

/// `text` with every occurrence of `from` replaced by `to`, reading from the
/// left and never looking into a replacement. An empty `from` replaces
/// nothing.
pub open spec fn replaced(text: Seq<char>, from: Seq<char>, to: Seq<char>) -> Seq<char>
    decreases text.len(),
{
    if from.len() == 0 || text.len() < from.len() {
        text
    } else if text.take(from.len() as int) == from {
        to + replaced(text.skip(from.len() as int), from, to)
    } else {
        seq![text[0]] + replaced(text.skip(1), from, to)
    }
}

/// The characters of `text`, one by one.
pub fn chars_of(text: &str) -> (chars: Vec<char>)
    ensures
        chars@ == text@,
{
    let mut chars: Vec<char> = Vec::new();
    for c in it: text.chars()
        invariant
            it.seq() == text@,
            chars@ == text@.take(it.index() as int),
    {
        proof {
            assert(text@.take(it.index() + 1) =~= text@.take(it.index() as int).push(c));
        }
        chars.push(c);
    }
    proof {
        assert(text@.take(text@.len() as int) =~= text@);
    }
    chars
}

/// Whether `from` stands in `text` at position `at`.
fn stands_at(text: &Vec<char>, at: usize, from: &Vec<char>) -> (found: bool)
    requires
        at <= text.len(),
    ensures
        found == (text@.skip(at as int).len() >= from@.len() && text@.skip(at as int).take(
            from@.len() as int,
        ) == from@),
{
    if text.len() - at < from.len() {
        return false;
    }
    let ghost window = text@.skip(at as int).take(from@.len() as int);
    let mut i: usize = 0;
    while i < from.len()
        invariant
            i <= from.len(),
            at + from.len() <= text.len(),
            window == text@.skip(at as int).take(from@.len() as int),
            forall|j: int| 0 <= j < i ==> window[j] == from@[j],
        decreases from.len() - i,
    {
        if text[at + i] != from[i] {
            assert(window[i as int] != from@[i as int]);
            return false;
        }
        i = i + 1;
    }
    assert(window =~= from@);
    true
}

/// Copy of `text` with every occurrence of `from` replaced by `to`.
pub fn replace_all(text: &str, from: &str, to: &str) -> (result: String)
    ensures
        result@ == replaced(text@, from@, to@),
{
    let source = chars_of(text);
    let pattern = chars_of(from);
    let mut result = String::new();
    if pattern.len() == 0 {
        result.append(text);
        assert(result@ =~= text@);
        return result;
    }
    let mut at: usize = 0;
    assert(source@.skip(0) =~= source@);
    assert(result@ + replaced(source@.skip(0), pattern@, to@) =~= replaced(
        source@,
        pattern@,
        to@,
    ));
    while at < source.len()
        invariant
            at <= source.len(),
            pattern.len() > 0,
            result@ + replaced(source@.skip(at as int), pattern@, to@) == replaced(
                source@,
                pattern@,
                to@,
            ),
        decreases source.len() - at,
    {
        let ghost rest = source@.skip(at as int);
        let ghost done = result@;
        if stands_at(&source, at, &pattern) {
            result.append(to);
            proof {
                assert(rest.skip(pattern@.len() as int) =~= source@.skip(at + pattern@.len()));
                assert(done + (to@ + replaced(rest.skip(pattern@.len() as int), pattern@, to@))
                    =~= (done + to@) + replaced(rest.skip(pattern@.len() as int), pattern@, to@));
            }
            at = at + pattern.len();
        } else {
            result.push(source[at]);
            proof {
                assert(rest[0] == source@[at as int]);
                assert(rest.skip(1) =~= source@.skip(at + 1));
                if rest.len() >= pattern@.len() {
                    assert(done + (seq![rest[0]] + replaced(rest.skip(1), pattern@, to@))
                        =~= done.push(rest[0]) + replaced(rest.skip(1), pattern@, to@));
                } else {
                    rest_is_kept(rest, pattern@, to@);
                    rest_is_kept(rest.skip(1), pattern@, to@);
                    assert(done + rest =~= done.push(rest[0]) + rest.skip(1));
                }
            }
            at = at + 1;
        }
    }
    proof {
        assert(source@.skip(source@.len() as int) =~= Seq::<char>::empty());
        assert(result@ + Seq::<char>::empty() =~= result@);
    }
    result
}

/// A text shorter than the pattern is kept as it is.
proof fn rest_is_kept(text: Seq<char>, from: Seq<char>, to: Seq<char>)
    requires
        text.len() < from.len(),
    ensures
        replaced(text, from, to) == text,
{
}

} // verus!
