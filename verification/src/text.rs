//! Characters and words: how a line of text is cut at white space.

use vstd::prelude::*;
use vstd::std_specs::iter::IteratorSpec;

verus! {

/// Whether `c` is white space: one of the code points that carry the Unicode
/// property `White_Space`.
pub open spec fn is_whitespace(c: char) -> bool {
    let u = c as u32;
    ||| 0x0009 <= u <= 0x000D
    ||| u == 0x0020
    ||| u == 0x0085
    ||| u == 0x00A0
    ||| u == 0x1680
    ||| 0x2000 <= u <= 0x200A
    ||| u == 0x2028
    ||| u == 0x2029
    ||| u == 0x202F
    ||| u == 0x205F
    ||| u == 0x3000
}

/// Whether every character of `s` is white space. The empty text is blank.
pub open spec fn is_blank(s: Seq<char>) -> bool {
    forall|i: int| 0 <= i < s.len() ==> is_whitespace(#[trigger] s[i])
}

/// Whether `w` can stand as a word: it is not empty and holds no white space.
pub open spec fn is_word(w: Seq<char>) -> bool {
    w.len() > 0 && forall|i: int| 0 <= i < w.len() ==> !is_whitespace(#[trigger] w[i])
}

/// The texts of `list` written one after the other, with one blank between
/// each two.
pub open spec fn joined(list: Seq<Seq<char>>) -> Seq<char>
    decreases list.len(),
{
    if list.len() == 0 {
        Seq::empty()
    } else if list.len() == 1 {
        list[0]
    } else {
        list[0] + seq![' '] + joined(list.drop_first())
    }
}

/// The number of characters at the start of `s` before its first white space.
pub open spec fn word_len(s: Seq<char>) -> nat
    decreases s.len(),
{
    if s.len() == 0 || is_whitespace(s[0]) {
        0
    } else {
        1 + word_len(s.drop_first())
    }
}

/// The words of `s`, in order: its longest runs of characters that are not
/// white space. White space separates words and belongs to none.
pub open spec fn words(s: Seq<char>) -> Seq<Seq<char>>
    decreases s.len(),
{
    if s.len() == 0 {
        Seq::empty()
    } else if is_whitespace(s[0]) {
        words(s.drop_first())
    } else {
        proof {
            lemma_word_len_bounds(s);
        }
        seq![s.take(word_len(s) as int)] + words(s.skip(word_len(s) as int))
    }
}

/// A word is never longer than the text it starts, and it is not empty where
/// the text starts with a character that is not white space.
pub proof fn lemma_word_len_bounds(s: Seq<char>)
    ensures
        word_len(s) <= s.len(),
        s.len() > 0 && !is_whitespace(s[0]) ==> word_len(s) >= 1,
    decreases s.len(),
{
    if s.len() > 0 && !is_whitespace(s[0]) {
        lemma_word_len_bounds(s.drop_first());
    }
}

/// Where `n` characters that are not white space start `s`, and white space
/// or the end of `s` follows them, the first word of `s` has `n` characters.
pub proof fn lemma_word_len_is(s: Seq<char>, n: nat)
    requires
        n <= s.len(),
        forall|i: int| 0 <= i < n ==> !is_whitespace(#[trigger] s[i]),
        n == s.len() || is_whitespace(s[n as int]),
    ensures
        word_len(s) == n,
    decreases n,
{
    if n > 0 {
        let rest = s.drop_first();
        assert forall|i: int| 0 <= i < n - 1 implies !is_whitespace(#[trigger] rest[i]) by {
            assert(rest[i] == s[i + 1]);
        }
        lemma_word_len_is(rest, (n - 1) as nat);
    }
}

/// The characters of the first word are not white space.
pub proof fn lemma_word_holds_no_whitespace(s: Seq<char>)
    ensures
        forall|i: int| 0 <= i < word_len(s) ==> !is_whitespace(#[trigger] s[i]),
    decreases s.len(),
{
    if s.len() > 0 && !is_whitespace(s[0]) {
        let rest = s.drop_first();
        lemma_word_holds_no_whitespace(rest);
        lemma_word_len_bounds(rest);
        assert forall|i: int| 0 <= i < word_len(s) implies !is_whitespace(#[trigger] s[i]) by {
            if i > 0 {
                assert(s[i] == rest[i - 1]);
            }
        }
    }
}

/// A text has no words if and only if it is blank.
pub proof fn lemma_blank_iff_no_words(s: Seq<char>)
    ensures
        is_blank(s) <==> words(s).len() == 0,
    decreases s.len(),
{
    if s.len() > 0 && is_whitespace(s[0]) {
        let rest = s.drop_first();
        lemma_blank_iff_no_words(rest);
        if is_blank(s) {
            assert forall|i: int| 0 <= i < rest.len() implies is_whitespace(#[trigger] rest[i]) by {
                assert(rest[i] == s[i + 1]);
            }
        }
        if is_blank(rest) {
            assert forall|i: int| 0 <= i < s.len() implies is_whitespace(#[trigger] s[i]) by {
                if i > 0 {
                    assert(s[i] == rest[i - 1]);
                }
            }
        }
    }
}

/// No word is empty, and no word holds white space.
pub proof fn lemma_words_are_solid(s: Seq<char>)
    ensures
        forall|i: int| 0 <= i < words(s).len() ==> is_word(#[trigger] words(s)[i]),
    decreases s.len(),
{
    if s.len() == 0 {
    } else if is_whitespace(s[0]) {
        lemma_words_are_solid(s.drop_first());
        assert(words(s) == words(s.drop_first()));
    } else {
        lemma_word_len_bounds(s);
        lemma_word_holds_no_whitespace(s);
        let n = word_len(s) as int;
        let first = s.take(n);
        let rest = words(s.skip(n));
        lemma_words_are_solid(s.skip(n));
        assert(words(s) == seq![first] + rest);
        assert forall|i: int| 0 <= i < words(s).len() implies is_word(#[trigger] words(s)[i]) by {
            if i > 0 {
                assert(words(s)[i] == rest[i - 1]);
            } else {
                assert(words(s)[0] == first);
                assert forall|j: int| 0 <= j < first.len() implies !is_whitespace(
                    #[trigger] first[j],
                ) by {
                    assert(first[j] == s[j]);
                }
            }
        }
    }
}

/// Cutting undoes joining: words that are written with one blank between
/// each two are cut into the same words again. So a token holds what was
/// typed between two blanks, with nothing taken from it and nothing read
/// into it.
pub proof fn lemma_words_of_joined(list: Seq<Seq<char>>)
    requires
        forall|i: int| 0 <= i < list.len() ==> is_word(#[trigger] list[i]),
    ensures
        words(joined(list)) == list,
    decreases list.len(),
{
    if list.len() == 0 {
        assert(words(joined(list)) =~= list);
    } else {
        let first = list[0];
        let line = joined(list);
        let n = first.len() as int;
        assert(is_word(first));
        if list.len() == 1 {
            assert(line.skip(0) =~= line);
            lemma_word_between(line, 0, n);
            assert(line.subrange(0, n) =~= first);
            assert(words(line.skip(n)) =~= Seq::<Seq<char>>::empty());
            assert(words(line) =~= list);
        } else {
            let others = list.drop_first();
            assert forall|i: int| 0 <= i < others.len() implies is_word(#[trigger] others[i]) by {
                assert(others[i] == list[i + 1]);
            }
            lemma_words_of_joined(others);
            assert forall|i: int| 0 <= i < n implies !is_whitespace(#[trigger] line[i]) by {
                assert(line[i] == first[i]);
            }
            assert(line[n] == ' ');
            assert(line.skip(0) =~= line);
            lemma_word_between(line, 0, n);
            assert(line.subrange(0, n) =~= first);
            lemma_whitespace_skipped(line, n);
            let tail = joined(others);
            assert(line == first + seq![' '] + tail);
            assert(line.skip(n + 1) =~= tail);
            assert(words(line) =~= list);
        }
    }
}

/// Tells whether `c` is white space.
pub fn whitespace(c: char) -> (b: bool)
    ensures
        b == is_whitespace(c),
{
    let u: u32 = c as u32;
    (0x0009 <= u && u <= 0x000D) || u == 0x0020 || u == 0x0085 || u == 0x00A0 || u == 0x1680 || (
    0x2000 <= u && u <= 0x200A) || u == 0x2028 || u == 0x2029 || u == 0x202F || u == 0x205F || u
        == 0x3000
}

/// A word that starts at `start` and ends before `end` is the first word of
/// what `s` holds from `start` on, and the other words are those of what it
/// holds from `end` on.
pub proof fn lemma_word_between(s: Seq<char>, start: int, end: int)
    requires
        0 <= start < end <= s.len(),
        forall|i: int| start <= i < end ==> !is_whitespace(#[trigger] s[i]),
        end == s.len() || is_whitespace(s[end]),
    ensures
        words(s.skip(start)) == seq![s.subrange(start, end)] + words(s.skip(end)),
{
    let tail = s.skip(start);
    assert forall|i: int| 0 <= i < end - start implies !is_whitespace(#[trigger] tail[i]) by {
        assert(tail[i] == s[start + i]);
    }
    lemma_word_len_is(tail, (end - start) as nat);
    assert(tail.take(end - start) =~= s.subrange(start, end));
    assert(tail.skip(end - start) =~= s.skip(end));
}

/// White space at `at` belongs to no word: the words from `at` on are those
/// from the next character on.
pub proof fn lemma_whitespace_skipped(s: Seq<char>, at: int)
    requires
        0 <= at < s.len(),
        is_whitespace(s[at]),
    ensures
        words(s.skip(at)) == words(s.skip(at + 1)),
{
    assert(s.skip(at).drop_first() =~= s.skip(at + 1));
}

/// Tells whether `a` and `b` hold the same characters.
pub fn same_text(a: &str, b: &str) -> (same: bool)
    ensures
        same == (a@ == b@),
{
    let len: usize = a.unicode_len();
    let mut left = a.chars();
    let mut right = b.chars();
    let mut pos: usize = 0;
    assert(a@.skip(0) =~= a@);
    assert(b@.skip(0) =~= b@);
    loop
        invariant
            len == a@.len(),
            pos <= len,
            pos <= b@.len(),
            left.remaining() == a@.skip(pos as int),
            right.remaining() == b@.skip(pos as int),
            left.obeys_prophetic_iter_laws(),
            right.obeys_prophetic_iter_laws(),
            forall|i: int| 0 <= i < pos ==> a@[i] == b@[i],
        decreases len - pos,
    {
        let ghost left_before = left;
        let ghost right_before = right;
        let x = left.next();
        let y = right.next();
        proof {
            vstd::string::next_postcondition(&left_before, &left, x);
            vstd::string::next_postcondition(&right_before, &right, y);
        }
        match (x, y) {
            (None, None) => {
                assert(a@ =~= b@);
                return true;
            },
            (Some(p), Some(q)) => {
                if p != q {
                    return false;
                }
                assert(a@.skip(pos as int).drop_first() =~= a@.skip(pos + 1));
                assert(b@.skip(pos as int).drop_first() =~= b@.skip(pos + 1));
                pos = pos + 1;
            },
            _ => {
                return false;
            },
        }
    }
}

/// Copies the strings of `list` from the one at `from` on: none where the
/// list has no more than `from` strings.
pub fn strings_from(list: &Vec<String>, from: usize) -> (rest: Vec<String>)
    ensures
        rest.deep_view() == if from <= list.len() {
            list.deep_view().skip(from as int)
        } else {
            Seq::empty()
        },
{
    let mut rest: Vec<String> = Vec::new();
    let mut i: usize = from;
    while i < list.len()
        invariant
            from <= i,
            i <= list.len() || i == from,
            rest.len() == i - from,
            forall|k: int| 0 <= k < rest.len() ==> rest[k]@ == list[k + from]@,
        decreases list.len() - i,
    {
        rest.push(list[i].clone());
        i = i + 1;
    }
    if from <= list.len() {
        assert(rest.deep_view() =~= list.deep_view().skip(from as int));
    } else {
        assert(rest.deep_view() =~= Seq::<Seq<char>>::empty());
    }
    rest
}

/// Appends to `out` the word that `line` holds from `start` to `end`.
fn push_word(out: &mut Vec<String>, line: &str, start: usize, end: usize)
    requires
        start <= end <= line@.len(),
    ensures
        final(out).deep_view() == old(out).deep_view().push(line@.subrange(start as int, end as int)),
{
    let word = line.substring_char(start, end).to_owned();
    out.push(word);
    assert(out.deep_view() =~= old(out).deep_view().push(line@.subrange(start as int, end as int)));
}

/// Cuts `line` into its words.
pub fn split_whitespace(line: &str) -> (out: Vec<String>)
    ensures
        out.deep_view() == words(line@),
{
    let len: usize = line.unicode_len();
    let mut out: Vec<String> = Vec::new();
    let mut chars = line.chars();
    let mut pos: usize = 0;
    let mut start: usize = 0;
    let mut in_word: bool = false;
    assert(line@.skip(0) =~= line@);
    assert(out.deep_view() =~= Seq::<Seq<char>>::empty());
    loop
        invariant_except_break
            in_word ==> start < pos,
            in_word ==> forall|i: int| start <= i < pos ==> !is_whitespace(#[trigger] line@[i]),
            in_word ==> out.deep_view() + words(line@.skip(start as int)) == words(line@),
            !in_word ==> out.deep_view() + words(line@.skip(pos as int)) == words(line@),
        invariant
            len == line@.len(),
            pos <= len,
            chars.remaining() == line@.skip(pos as int),
            chars.obeys_prophetic_iter_laws(),
        ensures
            out.deep_view() == words(line@),
        decreases len - pos,
    {
        let ghost before = chars;
        let next = chars.next();
        proof {
            vstd::string::next_postcondition(&before, &chars, next);
        }
        match next {
            None => {
                if in_word {
                    proof {
                        lemma_word_between(line@, start as int, pos as int);
                    }
                    let ghost words_before = out.deep_view();
                    push_word(&mut out, line, start, pos);
                    assert(out.deep_view() + words(line@.skip(pos as int)) =~= words_before
                        + words(line@.skip(start as int)));
                }
                assert(words(line@.skip(pos as int)) =~= Seq::<Seq<char>>::empty());
                assert(out.deep_view() + Seq::<Seq<char>>::empty() =~= out.deep_view());
                break ;
            },
            Some(c) => {
                if whitespace(c) {
                    if in_word {
                        proof {
                            lemma_word_between(line@, start as int, pos as int);
                        }
                        let ghost words_before = out.deep_view();
                        push_word(&mut out, line, start, pos);
                        assert(out.deep_view() + words(line@.skip(pos as int)) =~= words_before
                            + words(line@.skip(start as int)));
                        in_word = false;
                    }
                    proof {
                        lemma_whitespace_skipped(line@, pos as int);
                    }
                } else if !in_word {
                    in_word = true;
                    start = pos;
                }
                assert(line@.skip(pos as int).drop_first() =~= line@.skip(pos + 1));
                pos = pos + 1;
            },
        }
    }
    out
}

} // verus!
