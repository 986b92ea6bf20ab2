//! A line of input as the words it holds: the runs of characters between
//! white space.

use vstd::prelude::*;

verus! {

/// Whether `c` is white space: a character with the Unicode property
/// `White_Space`.
pub open spec fn is_space(c: char) -> bool {
    let code = c as u32;
    ||| 0x09 <= code <= 0x0D
    ||| code == 0x20
    ||| code == 0x85
    ||| code == 0xA0
    ||| code == 0x1680
    ||| 0x2000 <= code <= 0x200A
    ||| code == 0x2028
    ||| code == 0x2029
    ||| code == 0x202F
    ||| code == 0x205F
    ||| code == 0x3000
}

/// The words of `text`, read from the left: white space ends a word, and
/// any other character goes on with the word before it or begins one.
pub open spec fn words_of(text: Seq<char>) -> Seq<Seq<char>>
    decreases text.len(),
{
    if text.len() == 0 {
        Seq::empty()
    } else {
        let before = words_of(text.drop_last());
        let c = text.last();
        if is_space(c) {
            before
        } else if text.len() >= 2 && !is_space(text[text.len() - 2]) {
            before.drop_last().push(before.last().push(c))
        } else {
            before.push(seq![c])
        }
    }
}

/// Whether `text` holds no white space.
pub open spec fn solid(text: Seq<char>) -> bool {
    forall|i: int| 0 <= i < text.len() ==> !is_space(#[trigger] text[i])
}

/// Whether `text` holds nothing but white space.
pub open spec fn blank(text: Seq<char>) -> bool {
    forall|i: int| 0 <= i < text.len() ==> is_space(#[trigger] text[i])
}

/// Whether `c` is white space.
pub fn is_whitespace(c: char) -> (space: bool)
    ensures
        space == is_space(c),
{
    let code: u32 = c as u32;
    (0x09 <= code && code <= 0x0D) || code == 0x20 || code == 0x85 || code == 0xA0 || code
        == 0x1680 || (0x2000 <= code && code <= 0x200A) || code == 0x2028 || code == 0x2029
        || code == 0x202F || code == 0x205F || code == 0x3000
}

/// The characters of `text`, in order.
pub fn chars_of(text: &str) -> (chars: Vec<char>)
    ensures
        chars@ == text@,
{
    let mut chars: Vec<char> = Vec::new();
    let source = text.chars();
    proof {
        vstd::string::axiom_spec_iter(text);
    }
    for c in it: source
        invariant
            it.seq() == text@,
            chars@ == text@.take(it.index()),
    {
        chars.push(c);
    }
    chars
}

/// Whether two texts are the same, character for character.
pub fn same_text(left: &str, right: &str) -> (same: bool)
    ensures
        same == (left@ == right@),
{
    let a = left.as_bytes();
    let b = right.as_bytes();
    proof {
        vstd::utf8::encode_utf8_decode_utf8(left@);
        vstd::utf8::encode_utf8_decode_utf8(right@);
    }
    if a.len() != b.len() {
        return false;
    }
    let mut at: usize = 0;
    while at < a.len()
        invariant
            a@.len() == b@.len(),
            at <= a@.len(),
            a@.take(at as int) == b@.take(at as int),
            a@ == b@ ==> left@ == right@,
            left@ == right@ ==> a@ == b@,
        decreases a.len() - at,
    {
        if a[at] != b[at] {
            return false;
        }
        assert(a@.take(at + 1) =~= a@.take(at as int).push(a@[at as int]));
        assert(b@.take(at + 1) =~= b@.take(at as int).push(b@[at as int]));
        at = at + 1;
    }
    assert(a@.take(at as int) == a@);
    assert(b@.take(at as int) == b@);
    true
}

/// What has been read of a line up to position `end`: the words that are
/// complete, and the word that is open, which began at `start`.
spec fn read_so_far(text: Seq<char>, done: Seq<Seq<char>>, start: int, end: int) -> bool {
    &&& 0 <= start <= end <= text.len()
    &&& start > 0 ==> is_space(text[start - 1])
    &&& solid(text.subrange(start, end))
    &&& words_of(text.take(end)) == if start < end {
        done.push(text.subrange(start, end))
    } else {
        done
    }
}

proof fn read_one_more(text: Seq<char>, done: Seq<Seq<char>>, start: int, end: int)
    requires
        read_so_far(text, done, start, end),
        end < text.len(),
    ensures
        is_space(text[end]) ==> read_so_far(
            text,
            if start < end {
                done.push(text.subrange(start, end))
            } else {
                done
            },
            end + 1,
            end + 1,
        ),
        !is_space(text[end]) ==> read_so_far(text, done, start, end + 1),
{
    let seen = text.take(end + 1);
    assert(seen.drop_last() == text.take(end));
    assert(seen.last() == text[end]);
    if is_space(text[end]) {
        assert(text.subrange(end + 1, end + 1) =~= Seq::<char>::empty());
    } else {
        let word = text.subrange(start, end + 1);
        assert forall|i: int| 0 <= i < word.len() implies !is_space(#[trigger] word[i]) by {
            if i < end - start {
                assert(word[i] == text.subrange(start, end)[i]);
            }
        }
        if start < end {
            assert(seen[seen.len() - 2] == text.subrange(start, end)[end - start - 1]);
            assert(word =~= text.subrange(start, end).push(text[end]));
            assert(done.push(text.subrange(start, end)).drop_last() =~= done);
        } else {
            assert(word =~= seq![text[end]]);
        }
    }
}

/// Splits `line` into its words.
pub fn split_words(line: &str) -> (words: Vec<String>)
    ensures
        words.deep_view() == words_of(line@),
{
    let chars = chars_of(line);
    let mut words: Vec<String> = Vec::new();
    let mut start: usize = 0;
    let mut end: usize = 0;
    assert(line@.subrange(0, 0) =~= Seq::<char>::empty());
    assert(words.deep_view() =~= Seq::<Seq<char>>::empty());
    assert(line@.take(0) =~= Seq::<char>::empty());
    while end < chars.len()
        invariant
            chars@ == line@,
            read_so_far(line@, words.deep_view(), start as int, end as int),
        decreases chars.len() - end,
    {
        proof {
            read_one_more(line@, words.deep_view(), start as int, end as int);
        }
        if is_whitespace(chars[end]) {
            if start < end {
                let ghost before = words.deep_view();
                let word = line.substring_char(start, end).to_owned();
                words.push(word);
                assert(words.deep_view() =~= before.push(line@.subrange(start as int, end as int)));
            }
            start = end + 1;
        }
        end = end + 1;
    }
    assert(line@.take(end as int) == line@);
    if start < end {
        let ghost before = words.deep_view();
        let word = line.substring_char(start, end).to_owned();
        words.push(word);
        assert(words.deep_view() =~= before.push(line@.subrange(start as int, end as int)));
    }
    words
}

/// Every word holds at least one character and no white space.
pub proof fn words_are_solid(text: Seq<char>, i: int)
    requires
        0 <= i < words_of(text).len(),
    ensures
        words_of(text)[i].len() > 0,
        solid(words_of(text)[i]),
    decreases text.len(),
{
    let before = words_of(text.drop_last());
    let c = text.last();
    if is_space(c) {
        words_are_solid(text.drop_last(), i);
    } else if text.len() >= 2 && !is_space(text[text.len() - 2]) {
        open_word_exists(text.drop_last());
        if i < before.len() - 1 {
            words_are_solid(text.drop_last(), i);
        } else {
            words_are_solid(text.drop_last(), before.len() - 1);
        }
    } else {
        if i < before.len() {
            words_are_solid(text.drop_last(), i);
        }
    }
}

proof fn open_word_exists(text: Seq<char>)
    requires
        text.len() > 0,
        !is_space(text.last()),
    ensures
        words_of(text).len() > 0,
    decreases text.len(),
{
    if text.len() >= 2 && !is_space(text[text.len() - 2]) {
        assert(text.drop_last().last() == text[text.len() - 2]);
        open_word_exists(text.drop_last());
    }
}

/// A line has no words exactly when it is blank: empty, or white space
/// throughout.
pub proof fn no_words_iff_blank(text: Seq<char>)
    ensures
        words_of(text).len() == 0 <==> blank(text),
    decreases text.len(),
{
    if text.len() > 0 {
        let front = text.drop_last();
        no_words_iff_blank(front);
        if is_space(text.last()) {
            if blank(front) {
                assert forall|i: int| 0 <= i < text.len() implies is_space(#[trigger] text[i]) by {
                    if i < front.len() {
                        assert(text[i] == front[i]);
                    }
                }
            } else {
                let i = choose|i: int| 0 <= i < front.len() && !is_space(#[trigger] front[i]);
                assert(text[i] == front[i]);
            }
        } else {
            open_word_exists(text);
            assert(!is_space(text[text.len() - 1]));
        }
    }
}

/// A text without white space is one word, itself.
pub proof fn solid_text_is_one_word(text: Seq<char>)
    requires
        text.len() > 0,
        solid(text),
    ensures
        words_of(text) == seq![text],
    decreases text.len(),
{
    let front = text.drop_last();
    assert(!is_space(text[text.len() - 1]));
    if text.len() >= 2 {
        assert(!is_space(text[text.len() - 2]));
        assert forall|i: int| 0 <= i < front.len() implies !is_space(#[trigger] front[i]) by {
            assert(front[i] == text[i]);
        }
        solid_text_is_one_word(front);
        assert(front.push(text.last()) =~= text);
        assert(seq![front].drop_last().push(seq![front].last().push(text.last())) =~= seq![text]);
    } else {
        assert(front =~= Seq::<char>::empty());
        assert(seq![text.last()] =~= text);
        assert(words_of(front).push(seq![text.last()]) =~= seq![text]);
    }
}

/// White space separates: the words of two texts with one white space
/// character between them are the words of the first followed by the
/// words of the second.
pub proof fn space_separates(left: Seq<char>, space: char, right: Seq<char>)
    requires
        is_space(space),
    ensures
        words_of(left.push(space) + right) == words_of(left) + words_of(right),
    decreases right.len(),
{
    let text = left.push(space) + right;
    if right.len() == 0 {
        assert(text =~= left.push(space));
        assert(text.drop_last() =~= left);
        assert(words_of(left) + words_of(right) =~= words_of(left));
    } else {
        let front = right.drop_last();
        let c = right.last();
        space_separates(left, space, front);
        assert(text.drop_last() =~= left.push(space) + front);
        assert(text.last() == c);
        let before = words_of(text.drop_last());
        assert(before == words_of(left) + words_of(front));
        if is_space(c) {
        } else if right.len() >= 2 && !is_space(right[right.len() - 2]) {
            assert(text[text.len() - 2] == right[right.len() - 2]);
            assert(front.last() == right[right.len() - 2]);
            open_word_exists(front);
            let tail = words_of(front);
            assert(before.last() == tail.last());
            assert(before.drop_last() =~= words_of(left) + tail.drop_last());
            assert(before.drop_last().push(before.last().push(c)) =~= words_of(left)
                + tail.drop_last().push(tail.last().push(c)));
        } else {
            if right.len() >= 2 {
                assert(text[text.len() - 2] == right[right.len() - 2]);
            } else {
                assert(text[text.len() - 2] == space);
            }
            assert(before.push(seq![c]) =~= words_of(left) + words_of(front).push(seq![c]));
        }
    }
}

} // verus!
