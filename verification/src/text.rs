//! Text as a sequence of characters: comparison, searching and decimal numbers.

use vstd::prelude::*;

verus! {

/// `std::string::String::push`: the character is put behind the text that was there.
pub assume_specification[ String::push ](text: &mut String, c: char)
    ensures
        final(text)@ == old(text)@.push(c),
;

/// The characters of a text that may be missing.
pub open spec fn text_view(text: Option<String>) -> Option<Seq<char>> {
    match text {
        Some(t) => Some(t@),
        None => None,
    }
}

/// A text of letters alone, without accents.
pub open spec fn is_letters(text: Seq<char>) -> bool {
    forall|i: int|
        0 <= i < text.len() ==> 'a' <= #[trigger] text[i] <= 'z' || 'A' <= text[i] <= 'Z'
}

/// `part` stands in `text` from position `at` on.
pub open spec fn occurs_at(text: Seq<char>, part: Seq<char>, at: int) -> bool {
    0 <= at && at + part.len() <= text.len() && text.subrange(at, at + part.len()) == part
}

/// `text` begins with `part`.
pub open spec fn begins_with(text: Seq<char>, part: Seq<char>) -> bool {
    occurs_at(text, part, 0)
}

/// `text` ends with `part`.
pub open spec fn finishes_with(text: Seq<char>, part: Seq<char>) -> bool {
    occurs_at(text, part, text.len() - part.len())
}

/// `part` stands somewhere in `text`.
pub open spec fn holds_text(text: Seq<char>, part: Seq<char>) -> bool {
    exists|at: int| occurs_at(text, part, at)
}

/// The decimal digit of a number below ten.
pub open spec fn digit_char(digit: nat) -> char {
    ('0' as nat + digit) as char
}

/// A number in decimal, without leading zeros.
pub open spec fn decimal_text(n: nat) -> Seq<char>
    decreases n,
{
    if n < 10 {
        seq![digit_char(n)]
    } else {
        decimal_text(n / 10).push(digit_char(n % 10))
    }
}

/// The number that a text of digits spells.
pub open spec fn decimal_value(text: Seq<char>) -> int
    decreases text.len(),
{
    if text.len() == 0 {
        0
    } else {
        decimal_value(text.drop_last()) * 10 + (text.last() as int - '0' as int)
    }
}

/// The pieces of a text between its separators, empty ones too.
pub open spec fn split_at(text: Seq<char>, separator: char) -> Seq<Seq<char>>
    decreases text.len(),
{
    if text.len() == 0 {
        seq![Seq::empty()]
    } else {
        let front = split_at(text.drop_last(), separator);
        if text.last() == separator {
            front.push(Seq::empty())
        } else {
            front.drop_last().push(front.last().push(text.last()))
        }
    }
}

/// The text goes without a character.
pub open spec fn is_free_of(text: Seq<char>, c: char) -> bool {
    forall|i: int| 0 <= i < text.len() ==> #[trigger] text[i] != c
}

/// The characters of a text, one by one.
pub(crate) fn chars_of(text: &str) -> (chars: Vec<char>)
    ensures
        chars@ == text@,
{
    let mut chars: Vec<char> = Vec::new();
    for c in it: text.chars()
        invariant
            it.seq() == text@,
            chars@ == text@.take(it.index()),
    {
        chars.push(c);
    }
    assert(text@.take(text@.len() as int) == text@);
    chars
}

/// Whether `part` stands in `text` from `at` on.
fn stands_at(text: &Vec<char>, part: &Vec<char>, at: usize) -> (found: bool)
    requires
        at + part@.len() <= text@.len(),
    ensures
        found == occurs_at(text@, part@, at as int),
{
    let mut i: usize = 0;
    while i < part.len()
        invariant
            at + part@.len() <= text.len(),
            i <= part@.len(),
            forall|k: int| 0 <= k < i ==> #[trigger] part@[k] == text@[at + k],
        decreases part@.len() - i,
    {
        if text[at + i] != part[i] {
            assert(text@.subrange(at as int, at + part@.len())[i as int] != part@[i as int]);
            return false;
        }
        i = i + 1;
    }
    assert(text@.subrange(at as int, at + part@.len()) == part@);
    true
}

/// Whether two texts are the same.
pub(crate) fn same_text(a: &str, b: &str) -> (same: bool)
    ensures
        same == (a@ == b@),
{
    let left = chars_of(a);
    let right = chars_of(b);
    if left.len() != right.len() {
        return false;
    }
    let found = stands_at(&left, &right, 0);
    assert(a@.subrange(0, b@.len() as int) == a@);
    found
}

/// Whether `text` begins with `part`.
pub(crate) fn text_begins_with(text: &str, part: &str) -> (found: bool)
    ensures
        found == begins_with(text@, part@),
{
    let chars = chars_of(text);
    let wanted = chars_of(part);
    wanted.len() <= chars.len() && stands_at(&chars, &wanted, 0)
}

/// Whether `text` ends with `part`.
pub(crate) fn text_finishes_with(text: &str, part: &str) -> (found: bool)
    ensures
        found == finishes_with(text@, part@),
{
    let chars = chars_of(text);
    let wanted = chars_of(part);
    wanted.len() <= chars.len() && stands_at(&chars, &wanted, chars.len() - wanted.len())
}

/// Whether `part` stands anywhere in `text`.
pub(crate) fn text_holds(text: &str, part: &str) -> (found: bool)
    ensures
        found == holds_text(text@, part@),
{
    let chars = chars_of(text);
    let wanted = chars_of(part);
    if wanted.len() > chars.len() {
        return false;
    }
    let last: usize = chars.len() - wanted.len();
    let mut at: usize = 0;
    while at <= last
        invariant
            chars@ == text@,
            wanted@ == part@,
            last + wanted@.len() == chars@.len(),
            at <= last + 1,
            forall|k: int| 0 <= k < at ==> !occurs_at(text@, part@, k),
        decreases last + 1 - at,
    {
        if stands_at(&chars, &wanted, at) {
            return true;
        }
        if at == last {
            return false;
        }
        at = at + 1;
    }
    false
}

/// Two texts, one after the other.
pub(crate) fn joined(front: &str, back: &str) -> (text: String)
    ensures
        text@ == front@ + back@,
{
    let mut text = front.to_owned();
    text.append(back);
    text
}

/// A number in decimal.
pub(crate) fn decimal(n: u64) -> (text: String)
    ensures
        text@ == decimal_text(n as nat),
    decreases n,
{
    let digit: u8 = (n % 10) as u8;
    let mut text = if n < 10 {
        String::new()
    } else {
        decimal(n / 10)
    };
    text.push(('0' as u8 + digit) as char);
    assert(text@ == decimal_text(n as nat));
    text
}

/// Every character of a decimal text is a digit, and there is at least one.
proof fn lemma_decimal_digits(n: nat)
    ensures
        decimal_text(n).len() > 0,
        forall|i: int|
            0 <= i < decimal_text(n).len() ==> '0' <= #[trigger] decimal_text(n)[i] <= '9',
    decreases n,
{
    if n >= 10 {
        lemma_decimal_digits(n / 10);
    }
}

/// Different numbers have different decimal texts.
pub proof fn decimal_text_is_injective(a: nat, b: nat)
    requires
        decimal_text(a) == decimal_text(b),
    ensures
        a == b,
    decreases a,
{
    let left = decimal_text(a);
    let right = decimal_text(b);
    lemma_decimal_digits(a / 10);
    lemma_decimal_digits(b / 10);
    assert(left.last() == digit_char(a % 10));
    assert(right.last() == digit_char(b % 10));
    if a >= 10 && b >= 10 {
        assert(left.drop_last() == decimal_text(a / 10));
        assert(right.drop_last() == decimal_text(b / 10));
        decimal_text_is_injective(a / 10, b / 10);
    } else if a >= 10 {
        assert(left.len() >= 2 && right.len() == 1);
    } else if b >= 10 {
        assert(right.len() >= 2 && left.len() == 1);
    }
}

/// The decimal text of a number has digits alone, no zero before others, and spells the number.
pub proof fn decimal_text_spells_the_number(n: nat)
    ensures
        decimal_value(decimal_text(n)) == n,
        decimal_text(n).len() > 0,
        forall|i: int|
            0 <= i < decimal_text(n).len() ==> '0' <= #[trigger] decimal_text(n)[i] <= '9',
        decimal_text(n).len() > 1 ==> decimal_text(n)[0] != '0',
    decreases n,
{
    lemma_decimal_digits(n);
    let text = decimal_text(n);
    if n < 10 {
        assert(text.drop_last() == Seq::<char>::empty());
        assert(decimal_value(text.drop_last()) == 0);
    } else {
        decimal_text_spells_the_number(n / 10);
        assert(text.drop_last() == decimal_text(n / 10));
        lemma_decimal_digits(n / 10 / 10);
        assert(text[0] == decimal_text(n / 10)[0]);
        if n / 10 < 10 {
            assert(decimal_text(n / 10)[0] == digit_char(n / 10));
        }
    }
}

/// A text begins with another exactly where it is that text and something behind it.
pub proof fn beginnings_are_fronts(text: Seq<char>, part: Seq<char>)
    ensures
        begins_with(text, part) <==> exists|rest: Seq<char>| text == part + rest,
{
    if begins_with(text, part) {
        assert(text == part + text.skip(part.len() as int));
    }
    assert forall|rest: Seq<char>| text == part + rest implies begins_with(text, part) by {
        assert(text.subrange(0, part.len() as int) == part);
    }
}

/// A text ends with another exactly where it is something and that text behind it.
pub proof fn endings_are_backs(text: Seq<char>, part: Seq<char>)
    ensures
        finishes_with(text, part) <==> exists|front: Seq<char>| text == front + part,
{
    if finishes_with(text, part) {
        assert(text == text.take(text.len() - part.len()) + part) by {
            let n = text.len() - part.len();
            assert forall|i: int| n <= i < text.len() implies text[i] == part[i - n] by {
                assert(text.subrange(n, n + part.len())[i - n] == text[i]);
            }
        }
    }
    assert forall|front: Seq<char>| text == front + part implies finishes_with(text, part) by {
        assert(text.subrange(text.len() - part.len(), text.len() as int) == part);
    }
}

/// A text holds another exactly where it is that text with something before it and behind it.
pub proof fn parts_stand_inside(text: Seq<char>, part: Seq<char>)
    ensures
        holds_text(text, part) <==> exists|front: Seq<char>, back: Seq<char>|
            text == #[trigger] (front + part + back),
{
    if holds_text(text, part) {
        let at = choose|at: int| occurs_at(text, part, at);
        let front = text.take(at);
        let back = text.skip(at + part.len());
        assert forall|i: int| at <= i < at + part.len() implies text[i] == part[i - at] by {
            assert(text.subrange(at, at + part.len())[i - at] == text[i]);
        }
        assert(text == front + part + back);
    }
    assert forall|front: Seq<char>, back: Seq<char>|
        text == #[trigger] (front + part + back) implies holds_text(text, part) by {
        let at = front.len() as int;
        assert(text.subrange(at, at + part.len()) == part);
        assert(occurs_at(text, part, at));
    }
}

/// A piece without separators behind a separator is the last piece; alone it is the only one.
pub proof fn pieces_end_at_separators(front: Seq<char>, piece: Seq<char>, separator: char)
    requires
        is_free_of(piece, separator),
    ensures
        split_at(front.push(separator) + piece, separator) == split_at(front, separator).push(piece),
        split_at(piece, separator) == seq![piece],
    decreases piece.len(),
{
    let long = front.push(separator) + piece;
    if piece.len() == 0 {
        assert(piece == Seq::<char>::empty());
        assert(long == front.push(separator));
        assert(long.drop_last() == front);
        assert(split_at(long, separator) == split_at(front, separator).push(piece));
    } else {
        let shorter = piece.drop_last();
        pieces_end_at_separators(front, shorter, separator);
        assert(long.drop_last() == front.push(separator) + shorter);
        assert(long.last() == piece.last());
        assert(shorter.push(piece.last()) == piece);
        let pieces = split_at(long.drop_last(), separator);
        assert(pieces.last() == shorter);
        assert(pieces.drop_last() == split_at(front, separator));
        assert(split_at(long, separator) == split_at(front, separator).push(piece));
        assert(split_at(shorter, separator) == seq![shorter]);
        assert(piece.last() == piece[piece.len() - 1]);
        assert(split_at(piece, separator) == seq![piece]);
    }
}

} // verus!
