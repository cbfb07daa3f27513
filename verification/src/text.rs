//! Small operations on text.

use vstd::prelude::*;
use vstd::string::*;

verus! {

/// Whether two pieces of text are the same.
pub fn same_text(a: &str, b: &str) -> (r: bool)
    ensures
        r == (a@ == b@),
{
    String::from_str(a) == String::from_str(b)
}

/// Joins two pieces of text.
pub fn join2(a: &str, b: &str) -> (r: String)
    ensures
        r@ == a@ + b@,
{
    String::from_str(a).concat(b)
}

/// Joins three pieces of text.
pub fn join3(a: &str, b: &str, c: &str) -> (r: String)
    ensures
        r@ == a@ + b@ + c@,
{
    let mut out = String::from_str(a);
    out.append(b);
    out.append(c);
    out
}

/// Joins four pieces of text.
pub fn join4(a: &str, b: &str, c: &str, d: &str) -> (r: String)
    ensures
        r@ == a@ + b@ + c@ + d@,
{
    let mut out = join3(a, b, c);
    out.append(d);
    out
}

/// `text` in lower case.
pub uninterp spec fn lowercase_of(text: Seq<char>) -> Seq<char>;

/// Lowers the case of a text with `str::to_lowercase`. Trusted: the
/// result is what `lowercase_of` names.
#[verifier::external_body]
pub(crate) fn lowercase(text: &str) -> (r: String)
    ensures
        r@ == lowercase_of(text@),
{
    text.to_lowercase()
}

/// Whether `c` is ASCII whitespace: a space, a tab, a line feed, a form
/// feed or a carriage return.
pub open spec fn is_ascii_space(c: char) -> bool {
    c == ' ' || c == '\t' || c == '\n' || c == '\x0C' || c == '\r'
}

/// What a word that has ended adds to the words: itself, unless it is
/// empty.
pub open spec fn closed(word: Seq<char>) -> Seq<Seq<char>> {
    if word.len() == 0 {
        Seq::empty()
    } else {
        seq![word]
    }
}

/// The words of `text` when it follows the unfinished word `word`: each
/// whitespace character ends the word before it, and so does the end of
/// the text.
pub open spec fn words_after(text: Seq<char>, word: Seq<char>) -> Seq<Seq<char>>
    decreases text.len(),
{
    if text.len() == 0 {
        closed(word)
    } else if is_ascii_space(text[0]) {
        closed(word) + words_after(text.skip(1), Seq::empty())
    } else {
        words_after(text.skip(1), word.push(text[0]))
    }
}

/// The words of `text`: its maximal runs of characters other than ASCII
/// whitespace, in order.
pub open spec fn ascii_words_of(text: Seq<char>) -> Seq<Seq<char>> {
    words_after(text, Seq::empty())
}

/// Whether `word` is a run of characters other than whitespace: it is
/// not empty and holds no whitespace.
pub open spec fn is_run(word: Seq<char>) -> bool {
    word.len() > 0 && forall|j: int| 0 <= j < word.len() ==> !is_ascii_space(#[trigger] word[j])
}

/// Every word that follows an unfinished word without whitespace is a
/// run.
pub proof fn lemma_words_after_are_runs(text: Seq<char>, word: Seq<char>)
    requires
        forall|j: int| 0 <= j < word.len() ==> !is_ascii_space(#[trigger] word[j]),
    ensures
        forall|k: int|
            0 <= k < words_after(text, word).len() ==> is_run(#[trigger] words_after(text, word)[k]),
    decreases text.len(),
{
    let words = words_after(text, word);
    if text.len() == 0 {
        assert forall|k: int| 0 <= k < words.len() implies is_run(#[trigger] words[k]) by {
            assert(words[k] == word);
        }
    } else if is_ascii_space(text[0]) {
        let rest = words_after(text.skip(1), Seq::empty());
        lemma_words_after_are_runs(text.skip(1), Seq::empty());
        assert forall|k: int| 0 <= k < words.len() implies is_run(#[trigger] words[k]) by {
            if k < closed(word).len() {
                assert(words[k] == word);
            } else {
                assert(words[k] == rest[k - closed(word).len()]);
            }
        }
    } else {
        let longer = word.push(text[0]);
        assert forall|j: int| 0 <= j < longer.len() implies !is_ascii_space(#[trigger] longer[j]) by {
            if j < word.len() {
                assert(longer[j] == word[j]);
            }
        }
        lemma_words_after_are_runs(text.skip(1), longer);
        assert(words == words_after(text.skip(1), longer));
    }
    assert(forall|k: int| 0 <= k < words.len() ==> is_run(#[trigger] words[k]));
}

/// Every word of a text is a run of characters other than whitespace.
pub proof fn law_words_are_runs(text: Seq<char>)
    ensures
        forall|k: int|
            0 <= k < ascii_words_of(text).len() ==> is_run(#[trigger] ascii_words_of(text)[k]),
{
    lemma_words_after_are_runs(text, Seq::empty());
}

/// A text without whitespace is its own single word, unless it is empty.
pub proof fn law_run_is_one_word(text: Seq<char>)
    requires
        is_run(text),
    ensures
        ascii_words_of(text) == seq![text],
{
    lemma_run_extends_word(text, Seq::empty());
    assert(Seq::<char>::empty() + text =~= text);
}

/// A run that follows an unfinished word only makes that word longer.
pub proof fn lemma_run_extends_word(text: Seq<char>, word: Seq<char>)
    requires
        forall|j: int| 0 <= j < text.len() ==> !is_ascii_space(#[trigger] text[j]),
        word.len() + text.len() > 0,
    ensures
        words_after(text, word) == seq![word + text],
    decreases text.len(),
{
    if text.len() == 0 {
        assert(word + text =~= word);
    } else {
        let rest = text.skip(1);
        assert forall|j: int| 0 <= j < rest.len() implies !is_ascii_space(#[trigger] rest[j]) by {
            assert(rest[j] == text[j + 1]);
        }
        lemma_run_extends_word(rest, word.push(text[0]));
        assert(word.push(text[0]) + rest =~= word + text);
    }
}

/// The texts that a list of strings holds.
pub open spec fn texts_of(items: Seq<String>) -> Seq<Seq<char>> {
    items.map_values(|s: String| s@)
}

/// Whether `c` is ASCII whitespace.
pub fn is_space(c: char) -> (r: bool)
    ensures
        r == is_ascii_space(c),
{
    c == ' ' || c == '\t' || c == '\n' || c == '\x0C' || c == '\r'
}

/// Splits a text into its words.
pub fn ascii_words(text: &str) -> (words: Vec<String>)
    ensures
        texts_of(words@) == ascii_words_of(text@),
{
    let n: usize = text.unicode_len();
    let mut words: Vec<String> = Vec::new();
    let mut start: usize = 0;
    let mut i: usize = 0;
    proof {
        assert(text@.skip(0) =~= text@);
        assert(text@.subrange(0, 0) =~= Seq::<char>::empty());
        assert(texts_of(words@) =~= Seq::<Seq<char>>::empty());
        assert(texts_of(words@) + words_after(text@, Seq::empty()) =~= ascii_words_of(text@));
    }
    while i < n
        invariant
            n == text@.len(),
            start <= i <= n,
            ascii_words_of(text@) == texts_of(words@) + words_after(
                text@.skip(i as int),
                text@.subrange(start as int, i as int),
            ),
        decreases n - i,
    {
        let c = text.get_char(i);
        let ghost rest = text@.skip(i as int);
        let ghost word = text@.subrange(start as int, i as int);
        let ghost before = texts_of(words@);
        proof {
            assert(rest[0] == c);
            assert(rest.skip(1) =~= text@.skip(i + 1));
        }
        if is_space(c) {
            if start < i {
                words.push(String::from_str(text.substring_char(start, i)));
                proof {
                    assert(texts_of(words@) =~= before.push(word));
                    assert(before + (closed(word) + words_after(rest.skip(1), Seq::empty()))
                        =~= before.push(word) + words_after(rest.skip(1), Seq::empty()));
                }
            } else {
                proof {
                    assert(before + (closed(word) + words_after(rest.skip(1), Seq::empty()))
                        =~= before + words_after(rest.skip(1), Seq::empty()));
                }
            }
            start = i + 1;
            proof {
                assert(text@.subrange(start as int, i + 1) =~= Seq::<char>::empty());
            }
        } else {
            proof {
                assert(word.push(c) =~= text@.subrange(start as int, i + 1));
            }
        }
        i = i + 1;
    }
    let ghost word = text@.subrange(start as int, n as int);
    let ghost before = texts_of(words@);
    proof {
        assert(text@.skip(n as int).len() == 0);
    }
    if start < n {
        words.push(String::from_str(text.substring_char(start, n)));
        proof {
            assert(texts_of(words@) =~= before.push(word));
            assert(before + closed(word) =~= before.push(word));
        }
    } else {
        proof {
            assert(before + closed(word) =~= before);
        }
    }
    words
}

} // verus!
