//! Text: equality of two texts, its characters, white space, and the fields
//! that white space separates.

use vstd::prelude::*;
use vstd::string::StringSliceAdditionalSpecFns;

verus! {

/// Whether two byte slices hold the same bytes.
pub fn bytes_equal(a: &[u8], b: &[u8]) -> (same: bool)
    ensures
        same == (a@ == b@),
{
    if a.len() != b.len() {
        return false;
    }
    let mut i: usize = 0;
    while i < a.len()
        invariant
            i <= a@.len(),
            a@.len() == b@.len(),
            forall|k: int| 0 <= k < i ==> a@[k] == b@[k],
        decreases a@.len() - i,
    {
        if a[i] != b[i] {
            return false;
        }
        i += 1;
    }
    assert(a@ =~= b@);
    true
}

/// Whether two texts hold the same characters.
pub fn text_equal(a: &str, b: &str) -> (same: bool)
    ensures
        same == (a@ == b@),
{
    proof {
        vstd::utf8::encode_utf8_decode_utf8(a@);
        vstd::utf8::encode_utf8_decode_utf8(b@);
    }
    bytes_equal(a.as_bytes(), b.as_bytes())
}


/// The characters of a text, one by one.
pub fn chars_of(text: &str) -> (chars: Vec<char>)
    ensures
        chars@ == text@,
{
    let mut chars: Vec<char> = Vec::new();
    for c in it: text.chars()
        invariant
            it.seq() == text@,
            chars@ == text@.take(it.index() as int),
    {
        chars.push(c);
        assert(chars@ =~= text@.take(it.index() + 1));
    }
    assert(text@.take(text@.len() as int) =~= text@);
    chars
}

/// Whether a character is white space: the code points with the Unicode
/// property `White_Space`.
pub open spec fn is_whitespace(c: char) -> bool {
    let n = c as u32;
    ||| 0x09 <= n <= 0x0d
    ||| n == 0x20
    ||| n == 0x85
    ||| n == 0xa0
    ||| n == 0x1680
    ||| 0x2000 <= n <= 0x200a
    ||| n == 0x2028
    ||| n == 0x2029
    ||| n == 0x202f
    ||| n == 0x205f
    ||| n == 0x3000
}

/// Whether no character of `word` is white space.
pub open spec fn is_solid(word: Seq<char>) -> bool {
    forall|i: int| 0 <= i < word.len() ==> !is_whitespace(#[trigger] word[i])
}

/// The fields of a text: its maximal runs of characters that are not white
/// space, in order. Read from the back: a trailing white space adds nothing;
/// any other last character extends the field before it or, after white
/// space or at the start, opens a new one.
pub open spec fn fields(text: Seq<char>) -> Seq<Seq<char>>
    decreases text.len(),
{
    if text.len() == 0 {
        Seq::empty()
    } else {
        let before = fields(text.drop_last());
        if is_whitespace(text.last()) {
            before
        } else if text.len() >= 2 && !is_whitespace(text[text.len() - 2]) {
            before.drop_last().push(before.last().push(text.last()))
        } else {
            before.push(seq![text.last()])
        }
    }
}

/// Whether a character is white space.
pub fn is_whitespace_char(c: char) -> (ws: bool)
    ensures
        ws == is_whitespace(c),
{
    let n: u32 = c as u32;
    (0x09 <= n && n <= 0x0d) || n == 0x20 || n == 0x85 || n == 0xa0 || n == 0x1680 || (0x2000 <= n
        && n <= 0x200a) || n == 0x2028 || n == 0x2029 || n == 0x202f || n == 0x205f || n == 0x3000
}

/// A text that ends in a character other than white space has a last field.
pub proof fn lemma_open_field(text: Seq<char>)
    requires
        text.len() > 0,
        !is_whitespace(text.last()),
    ensures
        fields(text).len() > 0,
    decreases text.len(),
{
    if text.len() >= 2 && !is_whitespace(text[text.len() - 2]) {
        lemma_open_field(text.drop_last());
    }
}

/// How the fields change when one character is appended to `text.take(i)`.
pub proof fn lemma_fields_step(text: Seq<char>, i: int)
    requires
        0 <= i < text.len(),
    ensures
        is_whitespace(text[i]) ==> fields(text.take(i + 1)) == fields(text.take(i)),
        !is_whitespace(text[i]) && i > 0 && !is_whitespace(text[i - 1]) ==> {
            let before = fields(text.take(i));
            &&& before.len() > 0
            &&& fields(text.take(i + 1)) == before.drop_last().push(before.last().push(text[i]))
        },
        !is_whitespace(text[i]) && (i == 0 || is_whitespace(text[i - 1])) ==> fields(
            text.take(i + 1),
        ) == fields(text.take(i)).push(seq![text[i]]),
{
    let longer = text.take(i + 1);
    assert(longer.drop_last() =~= text.take(i));
    assert(longer.last() == text[i]);
    if i > 0 {
        assert(longer[longer.len() - 2] == text[i - 1]);
        if !is_whitespace(text[i - 1]) {
            assert(text.take(i).last() == text[i - 1]);
            lemma_open_field(text.take(i));
        }
    }
}

/// The fields of a text, as owned strings.
pub fn whitespace_fields(text: &str) -> (out: Vec<String>)
    ensures
        out@.len() == fields(text@).len(),
        forall|k: int| 0 <= k < out@.len() ==> (#[trigger] out@[k])@ == fields(text@)[k],
{
    let mut out: Vec<String> = Vec::new();
    let mut start: usize = 0;
    let mut inside: bool = false;
    let mut at: usize = 0;
    // The count of characters bounds `at`, which counts them again below.
    let len: usize = text.unicode_len();
    for c in it: text.chars()
        invariant
            it.seq() == text@,
            len == text@.len(),
            at == it.index(),
            at <= text@.len(),
            start <= at,
            inside == (at > 0 && !is_whitespace(text@[at - 1])),
            inside ==> out@.len() + 1 == fields(text@.take(at as int)).len() && fields(
                text@.take(at as int),
            ).last() == text@.subrange(start as int, at as int),
            !inside ==> out@.len() == fields(text@.take(at as int)).len(),
            forall|k: int|
                0 <= k < out@.len() ==> (#[trigger] out@[k])@ == fields(text@.take(at as int))[k],
    {
        proof {
            lemma_fields_step(text@, at as int);
        }
        let ghost before = fields(text@.take(at as int));
        if is_whitespace_char(c) {
            if inside {
                let word = text.substring_char(start, at);
                out.push(word.to_owned());
            }
            inside = false;
        } else {
            if !inside {
                start = at;
                inside = true;
                assert(text@.subrange(at as int, at + 1) =~= seq![text@[at as int]]);
            } else {
                assert(text@.subrange(start as int, at + 1) =~= before.last().push(
                    text@[at as int],
                ));
            }
        }
        at += 1;
    }
    proof {
        assert(text@.take(at as int) =~= text@);
    }
    if inside {
        let word = text.substring_char(start, at);
        out.push(word.to_owned());
    }
    out
}


/// Every field is non-empty and holds no white space.
pub proof fn lemma_fields_are_words(text: Seq<char>)
    ensures
        forall|k: int|
            0 <= k < fields(text).len() ==> (#[trigger] fields(text)[k]).len() > 0 && is_solid(
                fields(text)[k],
            ),
    decreases text.len(),
{
    if text.len() > 0 {
        lemma_fields_are_words(text.drop_last());
        if !is_whitespace(text.last()) && text.len() >= 2 && !is_whitespace(text[text.len() - 2]) {
            assert(text.drop_last().last() == text[text.len() - 2]);
            lemma_open_field(text.drop_last());
        }
    }
}

/// A non-empty text without white space is its own and only field.
pub proof fn lemma_word_is_field(word: Seq<char>)
    requires
        word.len() > 0,
        is_solid(word),
    ensures
        fields(word) == seq![word],
    decreases word.len(),
{
    if word.len() == 1 {
        assert(fields(word.drop_last()) =~= Seq::<Seq<char>>::empty());
        assert(seq![word.last()] =~= word);
        assert(fields(word) =~= seq![word]);
    } else {
        lemma_word_is_field(word.drop_last());
        assert(word.drop_last().push(word.last()) =~= word);
        assert(fields(word) =~= seq![word]);
    }
}

/// Fields never reach across white space: around a white-space character a
/// text's fields are those of the left part followed by those of the right.
pub proof fn lemma_fields_split(left: Seq<char>, gap: char, right: Seq<char>)
    requires
        is_whitespace(gap),
    ensures
        fields(left.push(gap) + right) == fields(left) + fields(right),
    decreases right.len(),
{
    let whole = left.push(gap) + right;
    if right.len() == 0 {
        assert(whole =~= left.push(gap));
        assert(whole.drop_last() =~= left);
        assert(fields(right) =~= Seq::<Seq<char>>::empty());
        assert(fields(left) + fields(right) =~= fields(left));
    } else {
        let shorter = right.drop_last();
        lemma_fields_split(left, gap, shorter);
        assert(whole.drop_last() =~= left.push(gap) + shorter);
        assert(whole.last() == right.last());
        let before = fields(left) + fields(shorter);
        if is_whitespace(right.last()) {
            assert(fields(whole) == before);
        } else if right.len() >= 2 && !is_whitespace(right[right.len() - 2]) {
            assert(whole[whole.len() - 2] == right[right.len() - 2]);
            assert(shorter.last() == right[right.len() - 2]);
            lemma_open_field(shorter);
            assert(before.drop_last().push(before.last().push(right.last())) =~= fields(left)
                + fields(shorter).drop_last().push(fields(shorter).last().push(right.last())));
        } else {
            if right.len() >= 2 {
                assert(whole[whole.len() - 2] == right[right.len() - 2]);
            } else {
                assert(whole[whole.len() - 2] == gap);
            }
            assert(before.push(seq![right.last()]) =~= fields(left) + fields(shorter).push(
                seq![right.last()],
            ));
        }
    }
}

} // verus!
