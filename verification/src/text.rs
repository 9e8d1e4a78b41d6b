//! Text: comparing, cutting, padding, and the decimal form of numbers.

use vstd::prelude::*;
use vstd::string::*;
use vstd::utf8::*;

verus! {

/// `String::push` appends the given character to the end of the string.
pub assume_specification[ String::push ](text: &mut String, c: char)
    ensures
        final(text)@ == old(text)@.push(c),
;

/// Whether two texts hold the same characters.
pub fn same_text(a: &str, b: &str) -> (same: bool)
    ensures
        same == (a@ == b@),
{
    let left = a.as_bytes();
    let right = b.as_bytes();
    proof {
        encode_utf8_decode_utf8(a@);
        encode_utf8_decode_utf8(b@);
    }
    same_bytes(left, right)
}

/// Whether two byte strings are equal.
pub fn same_bytes(a: &[u8], b: &[u8]) -> (same: bool)
    ensures
        same == (a@ == b@),
{
    if a.len() != b.len() {
        return false;
    }
    let mut i: usize = 0;
    while i < a.len()
        invariant
            i <= a.len(),
            a.len() == b.len(),
            forall|j: int| 0 <= j < i ==> a@[j] == b@[j],
        decreases a.len() - i,
    {
        if a[i] != b[i] {
            return false;
        }
        i += 1;
    }
    assert(a@ =~= b@);
    true
}

/// Whether `bytes` begins with `prefix`.
pub fn begins_with(bytes: &[u8], prefix: &[u8]) -> (yes: bool)
    ensures
        yes == prefix@.is_prefix_of(bytes@),
{
    if bytes.len() < prefix.len() {
        return false;
    }
    let mut i: usize = 0;
    while i < prefix.len()
        invariant
            i <= prefix.len() <= bytes.len(),
            forall|j: int| 0 <= j < i ==> prefix@[j] == bytes@[j],
        decreases prefix.len() - i,
    {
        if bytes[i] != prefix[i] {
            assert(prefix@[i as int] != bytes@.subrange(0, prefix@.len() as int)[i as int]);
            return false;
        }
        i += 1;
    }
    assert(prefix@ =~= bytes@.subrange(0, prefix@.len() as int));
    true
}

/// The characters of a text, in order.
pub fn characters(text: &str) -> (list: Vec<char>)
    ensures
        list@ == text@,
{
    let mut list: Vec<char> = Vec::new();
    for c in it: text.chars()
        invariant
            it.seq() == text@,
            list@ == text@.take(it.index() as int),
    {
        list.push(c);
        assert(list@ =~= text@.take(it.index() + 1));
    }
    assert(list@ =~= text@);
    list
}

/// Whether `text` begins with `prefix`.
pub fn starts_with(text: &str, prefix: &str) -> (yes: bool)
    ensures
        yes == prefix@.is_prefix_of(text@),
{
    let whole = characters(text);
    let start = characters(prefix);
    if whole.len() < start.len() {
        return false;
    }
    let mut i: usize = 0;
    while i < start.len()
        invariant
            whole@ == text@,
            start@ == prefix@,
            i <= start.len() <= whole.len(),
            forall|j: int| 0 <= j < i ==> start@[j] == whole@[j],
        decreases start.len() - i,
    {
        if whole[i] != start[i] {
            assert(start@[i as int] != whole@.subrange(0, start@.len() as int)[i as int]);
            return false;
        }
        i += 1;
    }
    assert(start@ =~= whole@.subrange(0, start@.len() as int));
    true
}

/// The parts of `text` between the occurrences of `mark`, in order; always at least one.
pub open spec fn split_parts<T>(text: Seq<T>, mark: T) -> Seq<Seq<T>>
    decreases text.len(),
{
    if text.len() == 0 {
        seq![Seq::empty()]
    } else {
        let parts = split_parts(text.drop_last(), mark);
        if text.last() == mark {
            parts.push(Seq::empty())
        } else {
            parts.drop_last().push(parts.last().push(text.last()))
        }
    }
}

/// There is always a part.
pub proof fn lemma_split_has_parts<T>(text: Seq<T>, mark: T)
    ensures
        split_parts(text, mark).len() >= 1,
    decreases text.len(),
{
    if text.len() > 0 {
        lemma_split_has_parts(text.drop_last(), mark);
    }
}

/// The first part ends where `mark` occurs first, and is all of `text` where it does not occur.
pub proof fn law_first_part_ends_at_the_first_mark<T>(text: Seq<T>, mark: T, n: int)
    requires
        0 <= n <= text.len(),
        forall|i: int| 0 <= i < n ==> text[i] != mark,
        n < text.len() ==> text[n] == mark,
    ensures
        split_parts(text, mark)[0] == text.take(n),
        split_parts(text, mark).len() == 1 <==> n == text.len(),
        split_parts(text, mark).len() >= 1,
    decreases text.len(),
{
    if text.len() == 0 {
        assert(text.take(n) =~= Seq::empty());
    } else {
        let earlier = text.drop_last();
        lemma_split_has_parts(earlier, mark);
        if n == text.len() {
            law_first_part_ends_at_the_first_mark(earlier, mark, n - 1);
            assert(earlier.take(n - 1).push(text.last()) =~= text.take(n));
        } else {
            law_first_part_ends_at_the_first_mark(earlier, mark, n);
            assert(earlier.take(n) =~= text.take(n));
        }
    }
}

/// A text without `mark` is one part.
pub proof fn law_text_without_marks_is_one_part<T>(text: Seq<T>, mark: T)
    requires
        !text.contains(mark),
    ensures
        split_parts(text, mark) == seq![text],
    decreases text.len(),
{
    if text.len() > 0 {
        assert forall|i: int| 0 <= i < text.drop_last().len() implies text.drop_last()[i]
            != mark by {
            assert(text.contains(text[i]));
        }
        law_text_without_marks_is_one_part(text.drop_last(), mark);
        assert(text.contains(text.last()));
        let parts = split_parts(text.drop_last(), mark);
        assert(parts.last() == text.drop_last());
        assert(parts.last().push(text.last()) =~= text);
        assert(split_parts(text, mark) =~= seq![text]);
    } else {
        assert(text =~= Seq::empty());
    }
}

/// What stands in front of the first `mark` is the first part, and what stands behind it is cut
/// by itself: nothing is lost, and empty parts count.
pub proof fn law_parts_are_cut_at_each_mark<T>(first: Seq<T>, mark: T, rest: Seq<T>)
    requires
        !first.contains(mark),
    ensures
        split_parts(first.push(mark) + rest, mark) == seq![first] + split_parts(rest, mark),
    decreases rest.len(),
{
    let text = first.push(mark) + rest;
    lemma_split_has_parts(rest, mark);
    if rest.len() == 0 {
        law_text_without_marks_is_one_part(first, mark);
        assert(text =~= first.push(mark));
        assert(text.drop_last() =~= first);
        assert(split_parts(text, mark) =~= seq![first] + split_parts(rest, mark));
    } else {
        law_parts_are_cut_at_each_mark(first, mark, rest.drop_last());
        lemma_split_has_parts(rest.drop_last(), mark);
        assert(text.drop_last() =~= first.push(mark) + rest.drop_last());
        assert(text.last() == rest.last());
        assert(split_parts(text, mark) =~= seq![first] + split_parts(rest, mark));
    }
}

/// What the texts of a list hold.
pub open spec fn texts(list: Seq<String>) -> Seq<Seq<char>> {
    list.map_values(|text: String| text@)
}

/// Cuts a text at every occurrence of `mark`.
pub fn split_text(text: &str, mark: char) -> (parts: Vec<String>)
    ensures
        texts(parts@) == split_parts(text@, mark),
        parts@.len() >= 1,
{
    let list = characters(text);
    let mut parts: Vec<String> = Vec::new();
    let mut part = String::new();
    let mut i: usize = 0;
    proof {
        assert(texts(parts@).push(part@) =~= split_parts(list@.take(0), mark));
    }
    while i < list.len()
        invariant
            i <= list.len(),
            list@ == text@,
            texts(parts@).push(part@) == split_parts(list@.take(i as int), mark),
        decreases list.len() - i,
    {
        let c = list[i];
        let ghost before = texts(parts@).push(part@);
        proof {
            assert(list@.take(i + 1).drop_last() =~= list@.take(i as int));
            assert(before.drop_last() =~= texts(parts@));
            assert(before.last() == part@);
        }
        if c == mark {
            let ghost finished = part@;
            let ghost earlier = parts@;
            parts.push(part);
            part = String::new();
            proof {
                assert(texts(parts@) =~= texts(earlier).push(finished));
            }
        } else {
            part.push(c);
        }
        i += 1;
    }
    proof {
        assert(list@.take(list.len() as int) =~= text@);
        lemma_split_has_parts(text@, mark);
    }
    let ghost earlier = parts@;
    let ghost last = part@;
    parts.push(part);
    proof {
        assert(texts(parts@) =~= texts(earlier).push(last));
    }
    parts
}

/// Cuts a byte string at every occurrence of `mark`.
pub fn split_bytes(bytes: &[u8], mark: u8) -> (parts: Vec<Vec<u8>>)
    ensures
        parts@.map_values(|part: Vec<u8>| part@) == split_parts(bytes@, mark),
        parts@.len() >= 1,
{
    let mut parts: Vec<Vec<u8>> = Vec::new();
    let mut part: Vec<u8> = Vec::new();
    let mut i: usize = 0;
    let ghost held = |part: Vec<u8>| part@;
    proof {
        assert(parts@.map_values(held).push(part@) =~= split_parts(bytes@.take(0), mark));
    }
    while i < bytes.len()
        invariant
            i <= bytes.len(),
            held == (|part: Vec<u8>| part@),
            parts@.map_values(held).push(part@) == split_parts(bytes@.take(i as int), mark),
        decreases bytes.len() - i,
    {
        let b = bytes[i];
        let ghost before = parts@.map_values(held).push(part@);
        proof {
            assert(bytes@.take(i + 1).drop_last() =~= bytes@.take(i as int));
            assert(before.drop_last() =~= parts@.map_values(held));
            assert(before.last() == part@);
        }
        if b == mark {
            let ghost finished = part@;
            let ghost earlier = parts@;
            parts.push(part);
            part = Vec::new();
            proof {
                assert(parts@.map_values(held) =~= earlier.map_values(held).push(finished));
            }
        } else {
            part.push(b);
        }
        i += 1;
    }
    proof {
        assert(bytes@.take(bytes.len() as int) =~= bytes@);
        lemma_split_has_parts(bytes@, mark);
    }
    let ghost earlier = parts@;
    let ghost last = part@;
    parts.push(part);
    proof {
        assert(parts@.map_values(held) =~= earlier.map_values(held).push(last));
    }
    parts
}

/// A character with the ASCII capitals made small.
pub open spec fn lower_char(c: char) -> char {
    if 'A' <= c && c <= 'Z' {
        (c as u32 + 32) as char
    } else {
        c
    }
}

/// A text with its ASCII capitals made small.
pub open spec fn lower_text(text: Seq<char>) -> Seq<char> {
    text.map_values(|c: char| lower_char(c))
}

/// Makes the ASCII capitals of a text small and leaves every other character as it is.
pub fn lowercase(text: &str) -> (lowered: String)
    ensures
        lowered@ == lower_text(text@),
{
    let list = characters(text);
    let mut lowered = String::new();
    let mut i: usize = 0;
    while i < list.len()
        invariant
            i <= list.len(),
            list@ == text@,
            lowered@ == lower_text(text@.take(i as int)),
        decreases list.len() - i,
    {
        let c = list[i];
        if 'A' <= c && c <= 'Z' {
            lowered.push((c as u8 + 32) as char);
        } else {
            lowered.push(c);
        }
        proof {
            assert(lower_text(text@.take(i + 1)) =~= lower_text(text@.take(i as int)).push(lower_char(c)));
        }
        i += 1;
    }
    assert(text@.take(list.len() as int) =~= text@);
    lowered
}

/// The character of a decimal digit.
pub open spec fn digit(n: nat) -> char {
    (48 + n) as char
}

/// A number in decimal, without leading zeros.
pub open spec fn decimal_text(n: nat) -> Seq<char>
    decreases n,
{
    if n < 10 {
        seq![digit(n)]
    } else {
        decimal_text(n / 10).push(digit(n % 10))
    }
}

/// Writes a number in decimal.
pub fn decimal(n: u64) -> (text: String)
    ensures
        text@ == decimal_text(n as nat),
    decreases n,
{
    let mut text = if n < 10 {
        String::new()
    } else {
        decimal(n / 10)
    };
    text.push((48 + (n % 10) as u8) as char);
    assert(text@ =~= decimal_text(n as nat));
    text
}

/// Different numbers have different decimal forms.
pub proof fn lemma_decimal_injective(a: nat, b: nat)
    requires
        decimal_text(a) == decimal_text(b),
    ensures
        a == b,
    decreases a,
{
    lemma_decimal_len(a);
    lemma_decimal_len(b);
    let left = decimal_text(a);
    let right = decimal_text(b);
    if a < 10 {
        assert(left.len() == 1);
        assert(left[0] == digit(a));
        if b >= 10 {
            lemma_decimal_len(b / 10);
        }
        assert(right[0] == digit(b));
    } else {
        lemma_decimal_len(a / 10);
        if b < 10 {
            assert(right.len() == 1);
        }
        assert(left.drop_last() =~= decimal_text(a / 10));
        assert(right.drop_last() =~= decimal_text(b / 10));
        lemma_decimal_injective(a / 10, b / 10);
        assert(left.last() == digit(a % 10));
        assert(right.last() == digit(b % 10));
    }
}

proof fn lemma_decimal_len(n: nat)
    ensures
        decimal_text(n).len() >= 1,
        n >= 10 ==> decimal_text(n).len() >= 2,
    decreases n,
{
    if n >= 10 {
        lemma_decimal_len(n / 10);
    }
}

/// `count` spaces.
pub open spec fn spaces(count: nat) -> Seq<char> {
    Seq::new(count, |i: int| ' ')
}

/// A text followed by as many spaces as bring it to `width` characters.
pub open spec fn padded(text: Seq<char>, width: nat) -> Seq<char> {
    if text.len() < width {
        text + spaces((width - text.len()) as nat)
    } else {
        text
    }
}

/// Appends a text and then spaces up to a width counted in characters.
pub fn push_padded(output: &mut String, text: &str, width: usize)
    ensures
        final(output)@ == old(output)@ + padded(text@, width as nat),
{
    output.append(text);
    let mut count: usize = text.unicode_len();
    let ghost start = output@;
    proof {
        assert(start + spaces(0) =~= start);
    }
    while count < width
        invariant
            text@.len() <= count,
            count <= width || count == text@.len(),
            output@ == start + spaces((count - text@.len()) as nat),
        decreases width - count,
    {
        output.push(' ');
        proof {
            assert(start + spaces((count + 1 - text@.len()) as nat) =~= (start + spaces((count - text@.len()) as nat)).push(' '));
        }
        count += 1;
    }
    assert(output@ =~= old(output)@ + padded(text@, width as nat));
}

/// Whether one text comes before another, or is the same: by the first character in
/// which they differ, or by length where one begins with the other.
pub open spec fn text_le(a: Seq<char>, b: Seq<char>) -> bool
    decreases a.len(),
{
    if a.len() == 0 {
        true
    } else if b.len() == 0 {
        false
    } else if a[0] != b[0] {
        a[0] < b[0]
    } else {
        text_le(a.skip(1), b.skip(1))
    }
}

/// Compares two texts in the order of their characters.
pub fn in_order(a: &str, b: &str) -> (ordered: bool)
    ensures
        ordered == text_le(a@, b@),
{
    let left = characters(a);
    let right = characters(b);
    let mut i: usize = 0;
    proof {
        assert(left@.skip(0) =~= left@);
        assert(right@.skip(0) =~= right@);
    }
    while i < left.len() && i < right.len()
        invariant
            i <= left.len(),
            i <= right.len(),
            left@ == a@,
            right@ == b@,
            text_le(a@, b@) == text_le(left@.skip(i as int), right@.skip(i as int)),
        decreases left.len() - i,
    {
        if left[i] != right[i] {
            return left[i] < right[i];
        }
        proof {
            assert(left@.skip(i as int).skip(1) =~= left@.skip(i + 1));
            assert(right@.skip(i as int).skip(1) =~= right@.skip(i + 1));
        }
        i += 1;
    }
    i >= left.len()
}

/// The order of texts is total.
pub proof fn lemma_text_le_total(a: Seq<char>, b: Seq<char>)
    ensures
        text_le(a, b) || text_le(b, a),
    decreases a.len(),
{
    if a.len() > 0 && b.len() > 0 && a[0] == b[0] {
        lemma_text_le_total(a.skip(1), b.skip(1));
    }
}

/// The order of texts is transitive.
pub proof fn lemma_text_le_transitive(a: Seq<char>, b: Seq<char>, c: Seq<char>)
    requires
        text_le(a, b),
        text_le(b, c),
    ensures
        text_le(a, c),
    decreases a.len(),
{
    if a.len() > 0 && b.len() > 0 && c.len() > 0 && a[0] == b[0] && b[0] == c[0] {
        lemma_text_le_transitive(a.skip(1), b.skip(1), c.skip(1));
    }
}

/// Whether a text comes before another by the characters at a place: they are the same up to
/// it, where the first has ended or has the smaller character.
pub open spec fn comes_before(a: Seq<char>, b: Seq<char>, place: int) -> bool {
    &&& 0 <= place <= a.len()
    &&& place < b.len()
    &&& forall|i: int| 0 <= i < place ==> a[i] == b[i]
    &&& place < a.len() ==> a[place] < b[place]
}

/// Two texts are in order where they are the same, or the first place at which they differ
/// puts the first before the second.
pub proof fn law_text_order(a: Seq<char>, b: Seq<char>)
    ensures
        text_le(a, b) <==> a == b || exists|place: int| #[trigger] comes_before(a, b, place),
    decreases a.len(),
{
    if a.len() == 0 {
        if b.len() > 0 {
            assert(comes_before(a, b, 0));
        } else {
            assert(a =~= b);
        }
    } else if b.len() == 0 {
        assert(forall|place: int| !#[trigger] comes_before(a, b, place));
    } else if a[0] != b[0] {
        if a[0] < b[0] {
            assert(comes_before(a, b, 0));
        }
        assert forall|place: int| #[trigger] comes_before(a, b, place) implies a[0] < b[0] by {
            if place > 0 {
                assert(a[0] == b[0]);
            }
        }
    } else {
        law_text_order(a.skip(1), b.skip(1));
        if text_le(a, b) && a.skip(1) == b.skip(1) {
            assert forall|i: int| 0 <= i < a.len() implies a[i] == b[i] by {
                if i > 0 {
                    assert(a[i] == a.skip(1)[i - 1]);
                    assert(b[i] == b.skip(1)[i - 1]);
                }
            }
            assert(a.len() == b.len());
            assert(a =~= b);
        } else if text_le(a, b) {
            let place = choose|place: int| #[trigger] comes_before(a.skip(1), b.skip(1), place);
            assert forall|i: int| 0 <= i < place + 1 implies a[i] == b[i] by {
                if i > 0 {
                    assert(a[i] == a.skip(1)[i - 1]);
                    assert(b[i] == b.skip(1)[i - 1]);
                }
            }
            assert(comes_before(a, b, place + 1));
        }
        assert forall|place: int| #[trigger] comes_before(a, b, place) implies text_le(a, b) by {
            assert(place > 0);
            assert(comes_before(a.skip(1), b.skip(1), place - 1));
        }
    }
}

/// Capital letters of the alphabet become the small ones of the same place, and every other
/// character stays.
pub proof fn law_small_letters(text: &str, lowered: String)
    requires
        call_ensures(lowercase, (text,), lowered),
    ensures
        lowered@.len() == text@.len(),
        forall|i: int|
            0 <= i < text@.len() ==> {
                let c = #[trigger] text@[i];
                &&& 'A' <= c <= 'Z' ==> lowered@[i] as int == c as int - ('A' as int) + ('a' as int)
                &&& !('A' <= c <= 'Z') ==> lowered@[i] == c
            },
{
}

/// The number that a text of decimal digits stands for.
pub open spec fn number_of(digits: Seq<char>) -> int
    decreases digits.len(),
{
    if digits.len() == 0 {
        0
    } else {
        10 * number_of(digits.drop_last()) + (digits.last() as int - '0' as int)
    }
}

/// A number is written in decimal digits that stand for it, without a needless zero in front.
pub proof fn law_decimal_digits(n: nat)
    ensures
        decimal_text(n).len() > 0,
        forall|i: int|
            0 <= i < decimal_text(n).len() ==> '0' <= #[trigger] decimal_text(n)[i] <= '9',
        number_of(decimal_text(n)) == n,
        decimal_text(n).len() > 1 ==> decimal_text(n)[0] != '0',
    decreases n,
{
    if n < 10 {
        let one = decimal_text(n);
        assert(one.drop_last() =~= Seq::<char>::empty());
        assert(number_of(one.drop_last()) == 0);
    } else {
        law_decimal_digits(n / 10);
        let text = decimal_text(n);
        assert(text.drop_last() =~= decimal_text(n / 10));
        assert(number_of(text) == 10 * number_of(text.drop_last()) + (n % 10));
        if decimal_text(n / 10).len() == 1 && decimal_text(n / 10)[0] == '0' {
            let one = decimal_text(n / 10);
            assert(one.drop_last() =~= Seq::<char>::empty());
            assert(number_of(one.drop_last()) == 0);
            assert(number_of(one) == 0);
        }
    }
}

/// A text is brought to a width by spaces behind it, and a text that is wider stays.
pub proof fn law_padded_texts(text: Seq<char>, width: nat)
    ensures
        padded(text, width).take(text.len() as int) == text,
        text.len() >= width ==> padded(text, width) == text,
        text.len() < width ==> padded(text, width).len() == width,
        forall|i: int|
            text.len() <= i < padded(text, width).len() ==> #[trigger] padded(text, width)[i]
                == ' ',
{
    assert(padded(text, width).take(text.len() as int) =~= text);
    assert(text.len() >= width ==> padded(text, width) =~= text);
}

} // verus!
