//! Words for the AROS shell, whose escape character is `*`.
//!
//! A word with a blank, a quote, a star or a line break in it goes between double
//! quotes; inside them `*"` is a quote, `**` a star and `*n` a line break.
use vstd::prelude::*;

use crate::text::{lossy, to_string_lossy};

verus! {

/// Whether a character makes a word need quotes.
pub open spec fn special(c: char) -> bool {
    c == ' ' || c == '"' || c == '*' || c == '\t' || c == '\n'
}

/// Whether a word needs quotes: it is empty, or holds a character that would be read as
/// something else.
pub open spec fn needs_quotes(word: Seq<char>) -> bool {
    word.len() == 0 || exists|i: int| 0 <= i < word.len() && special(#[trigger] word[i])
}

/// A character between quotes.
pub open spec fn escaped(c: char) -> Seq<char> {
    if c == '"' {
        seq!['*', '"']
    } else if c == '*' {
        seq!['*', '*']
    } else if c == '\n' {
        seq!['*', 'n']
    } else {
        seq![c]
    }
}

/// Characters between quotes.
pub open spec fn escape(word: Seq<char>) -> Seq<char>
    decreases word.len(),
{
    if word.len() == 0 {
        Seq::empty()
    } else {
        escaped(word[0]) + escape(word.drop_first())
    }
}

/// A word the way it is written for the shell.
pub open spec fn quoted(word: Seq<char>) -> Seq<char> {
    if needs_quotes(word) {
        seq!['"'] + escape(word) + seq!['"']
    } else {
        word
    }
}

/// Words in a row, one blank between each and the next.
pub open spec fn line_of(words: Seq<Seq<char>>) -> Seq<char>
    decreases words.len(),
{
    if words.len() == 0 {
        Seq::empty()
    } else if words.len() == 1 {
        quoted(words[0])
    } else {
        quoted(words[0]) + seq![' '] + line_of(words.drop_first())
    }
}

// ------------------------------------------------------------------------------------
// What the shell reads
// ------------------------------------------------------------------------------------

/// What the shell takes `*c` for between quotes.
pub open spec fn unescaped(c: char) -> Option<char> {
    if c == '"' || c == '*' {
        Some(c)
    } else if c == 'n' {
        Some('\n')
    } else {
        None
    }
}

/// A word that the shell reads up to the closing quote, and what follows that.
pub open spec fn read_quoted(text: Seq<char>) -> Option<(Seq<char>, Seq<char>)>
    decreases text.len(),
{
    if text.len() == 0 {
        None
    } else if text[0] == '"' {
        Some((Seq::empty(), text.skip(1)))
    } else if text[0] == '*' {
        if text.len() < 2 {
            None
        } else {
            match (unescaped(text[1]), read_quoted(text.skip(2))) {
                (Some(c), Some((word, rest))) => Some((seq![c] + word, rest)),
                _ => None,
            }
        }
    } else {
        match read_quoted(text.skip(1)) {
            Some((word, rest)) => Some((seq![text[0]] + word, rest)),
            None => None,
        }
    }
}

/// The length of a word without quotes: up to a blank or a line break.
pub open spec fn plain_len(text: Seq<char>) -> int
    decreases text.len(),
{
    if text.len() == 0 || text[0] == ' ' || text[0] == '\t' || text[0] == '\n' {
        0
    } else {
        1 + plain_len(text.skip(1))
    }
}

/// The next word that the shell reads, and what follows it.
pub open spec fn read_word(text: Seq<char>) -> Option<(Seq<char>, Seq<char>)> {
    if text.len() > 0 && text[0] == '"' {
        read_quoted(text.skip(1))
    } else {
        Some((text.take(plain_len(text)), text.skip(plain_len(text))))
    }
}

/// The words that the shell reads in a line, where one blank stands between them.
pub open spec fn read_words(line: Seq<char>) -> Option<Seq<Seq<char>>>
    decreases line.len(),
{
    if line.len() == 0 {
        Some(Seq::empty())
    } else {
        match read_word(line) {
            Some((word, rest)) => if rest.len() == 0 {
                Some(seq![word])
            } else if rest[0] == ' ' && rest.len() <= line.len() {
                match read_words(rest.skip(1)) {
                    Some(words) => Some(seq![word] + words),
                    None => None,
                }
            } else {
                None
            },
            None => None,
        }
    }
}

/// Whether what follows a word ends it.
pub open spec fn ends_word(rest: Seq<char>) -> bool {
    rest.len() == 0 || rest[0] == ' ' || rest[0] == '\n'
}

proof fn read_escaped(word: Seq<char>, rest: Seq<char>)
    ensures
        read_quoted(escape(word) + seq!['"'] + rest) == Some((word, rest)),
    decreases word.len(),
{
    let text = escape(word) + seq!['"'] + rest;
    if word.len() == 0 {
        assert(text[0] == '"');
        assert(text.skip(1) == rest);
        assert(read_quoted(text) == Some((word, rest)));
    } else {
        let c = word[0];
        let tail = word.drop_first();
        let next = escape(tail) + seq!['"'] + rest;
        read_escaped(tail, rest);
        assert(text == escaped(c) + next);
        assert(seq![c] + tail == word);
        if c == '"' || c == '*' || c == '\n' {
            assert(text[0] == '*');
            assert(text.skip(2) == next);
        } else {
            assert(text[0] == c);
            assert(text.skip(1) == next);
        }
        assert(read_quoted(text) == Some((word, rest)));
    }
}

proof fn plain_len_of(word: Seq<char>, rest: Seq<char>)
    requires
        forall|i: int| 0 <= i < word.len() ==> !special(#[trigger] word[i]),
        ends_word(rest),
    ensures
        plain_len(word + rest) == word.len(),
    decreases word.len(),
{
    let text = word + rest;
    if word.len() == 0 {
        assert(text == rest);
    } else {
        let tail = word.skip(1);
        assert(!special(word[0]));
        assert(text[0] == word[0]);
        assert(text.skip(1) == tail + rest);
        assert forall|i: int| 0 <= i < tail.len() implies !special(#[trigger] tail[i]) by {
            assert(tail[i] == word[i + 1]);
        }
        plain_len_of(tail, rest);
    }
}

/// The shell reads a quoted word back as the word it was, whatever it holds, and goes on
/// right behind it.
pub proof fn quoted_word_reads_back(word: Seq<char>, rest: Seq<char>)
    requires
        ends_word(rest),
    ensures
        read_word(quoted(word) + rest) == Some((word, rest)),
{
    let text = quoted(word) + rest;
    if needs_quotes(word) {
        assert(text[0] == '"');
        assert(text.skip(1) == escape(word) + seq!['"'] + rest);
        read_escaped(word, rest);
    } else {
        assert(!special(word[0]));
        assert(text[0] == word[0]);
        plain_len_of(word, rest);
        assert(text.take(word.len() as int) == word);
        assert(text.skip(word.len() as int) == rest);
    }
}

/// A word is never written as nothing.
pub proof fn quoted_is_not_empty(word: Seq<char>)
    ensures
        quoted(word).len() > 0,
{
}

/// The shell reads a line of quoted words back as exactly those words.
pub proof fn line_reads_back(words: Seq<Seq<char>>)
    ensures
        read_words(line_of(words)) == Some(words),
    decreases words.len(),
{
    let line = line_of(words);
    if words.len() == 0 {
        assert(read_words(line) == Some(words));
    } else if words.len() == 1 {
        quoted_is_not_empty(words[0]);
        quoted_word_reads_back(words[0], Seq::empty());
        assert(quoted(words[0]) + Seq::<char>::empty() == line);
        assert(seq![words[0]] == words);
    } else {
        let tail = words.drop_first();
        let rest = seq![' '] + line_of(tail);
        quoted_is_not_empty(words[0]);
        quoted_word_reads_back(words[0], rest);
        assert(quoted(words[0]) + rest == line);
        assert(rest.skip(1) == line_of(tail));
        line_reads_back(tail);
        assert(seq![words[0]] + tail == words);
    }
}

proof fn escape_has_no_break(word: Seq<char>)
    ensures
        !escape(word).contains('\n'),
    decreases word.len(),
{
    if word.len() > 0 {
        let tail = escape(word.drop_first());
        escape_has_no_break(word.drop_first());
        let all = escape(word);
        if all.contains('\n') {
            let k = choose|k: int| 0 <= k < all.len() && all[k] == '\n';
            let n = escaped(word[0]).len() as int;
            if k >= n {
                assert(tail[k - n] == '\n');
            }
        }
    }
}

/// No word breaks the line it is written on.
pub proof fn quoted_has_no_break(word: Seq<char>)
    ensures
        !quoted(word).contains('\n'),
{
    let q = quoted(word);
    escape_has_no_break(word);
    if q.contains('\n') {
        let k = choose|k: int| 0 <= k < q.len() && q[k] == '\n';
        if needs_quotes(word) {
            assert(escape(word)[k - 1] == '\n');
        } else {
            assert(special(word[k]));
        }
    }
}

/// No line of words breaks.
pub proof fn line_has_no_break(words: Seq<Seq<char>>)
    ensures
        !line_of(words).contains('\n'),
    decreases words.len(),
{
    if words.len() > 0 {
        quoted_has_no_break(words[0]);
        let q = quoted(words[0]);
        let tail = line_of(words.drop_first());
        line_has_no_break(words.drop_first());
        let line = line_of(words);
        if line.contains('\n') {
            let k = choose|k: int| 0 <= k < line.len() && line[k] == '\n';
            if k < q.len() {
                assert(q[k] == '\n');
            } else {
                assert(tail[k - q.len() - 1] == '\n');
            }
        }
    }
}

/// Where the first line of a text ends.
pub open spec fn line_end(text: Seq<char>) -> int
    decreases text.len(),
{
    if text.len() == 0 || text[0] == '\n' {
        0
    } else {
        1 + line_end(text.drop_first())
    }
}

/// What a shell reads in a script: the words of one line after the other, unless there is a
/// line in it that is none.
pub open spec fn read_script(text: Seq<char>) -> Option<Seq<Seq<Seq<char>>>>
    decreases text.len(),
{
    if text.len() == 0 {
        Some(Seq::empty())
    } else {
        let end = line_end(text);
        if end < 0 || end >= text.len() {
            None
        } else {
            match (read_words(text.take(end)), read_script(text.skip(end + 1))) {
                (Some(words), Some(rest)) => Some(seq![words] + rest),
                _ => None,
            }
        }
    }
}

proof fn line_end_is(line: Seq<char>, rest: Seq<char>)
    requires
        !line.contains('\n'),
    ensures
        line_end(line + seq!['\n'] + rest) == line.len(),
    decreases line.len(),
{
    let text = line + seq!['\n'] + rest;
    if line.len() == 0 {
        assert(text[0] == '\n');
    } else {
        assert(line.contains(line[0]));
        let tail = line.drop_first();
        if tail.contains('\n') {
            let k = choose|k: int| 0 <= k < tail.len() && tail[k] == '\n';
            assert(line[k + 1] == '\n');
        }
        line_end_is(tail, rest);
        assert(text.drop_first() == tail + seq!['\n'] + rest);
    }
}

/// The shell reads a line of quoted words and what follows it as those words and what it
/// reads in the rest.
pub proof fn script_line_reads_back(words: Seq<Seq<char>>, rest: Seq<char>)
    ensures
        read_script(line_of(words).push('\n') + rest) == match read_script(rest) {
            Some(others) => Some(seq![words] + others),
            None => None,
        },
{
    let line = line_of(words);
    let text = line.push('\n') + rest;
    assert(text == line + seq!['\n'] + rest);
    line_has_no_break(words);
    line_reads_back(words);
    line_end_is(line, rest);
    assert(text.take(line.len() as int) == line);
    assert(text.skip(line.len() as int + 1) == rest);
}

/// A word more at the end of a line.
pub proof fn line_of_push(words: Seq<Seq<char>>, word: Seq<char>)
    ensures
        line_of(words.push(word)) == if words.len() == 0 {
            quoted(word)
        } else {
            line_of(words) + seq![' '] + quoted(word)
        },
    decreases words.len(),
{
    if words.len() > 0 {
        let tail = words.drop_first();
        line_of_push(tail, word);
        assert(words.push(word).drop_first() == tail.push(word));
        assert(line_of(words.push(word)) == line_of(words) + seq![' '] + quoted(word));
    }
}

proof fn escape_push(word: Seq<char>, c: char)
    ensures
        escape(word.push(c)) == escape(word) + escaped(c),
    decreases word.len(),
{
    if word.len() == 0 {
        reveal_with_fuel(escape, 2);
        assert(word.push(c).drop_first() == Seq::<char>::empty());
        assert(escape(word.push(c)) == escape(word) + escaped(c));
    } else {
        escape_push(word.drop_first(), c);
        assert(word.push(c).drop_first() == word.drop_first().push(c));
        assert(escape(word.push(c)) == escape(word) + escaped(c));
    }
}

/// A word is written as it is exactly where it is not empty and holds no blank, quote, star,
/// tab or line break; any other goes between quotes.
pub proof fn only_what_needs_it_is_quoted(word: Seq<char>)
    ensures
        word.len() > 0 && (forall|i: int|
            0 <= i < word.len() ==> word[i] != ' ' && word[i] != '"' && word[i] != '*' && word[i]
                != '\t' && word[i] != '\n') ==> quoted(word) == word,
        word.len() == 0 || (exists|i: int|
            0 <= i < word.len() && (word[i] == ' ' || word[i] == '"' || word[i] == '*' || word[i]
                == '\t' || word[i] == '\n')) ==> quoted(word) == seq!['"'] + escape(word) + seq![
            '"',
        ],
{
    if exists|i: int|
        0 <= i < word.len() && (word[i] == ' ' || word[i] == '"' || word[i] == '*' || word[i]
            == '\t' || word[i] == '\n') {
        let i = choose|i: int|
            0 <= i < word.len() && (word[i] == ' ' || word[i] == '"' || word[i] == '*' || word[i]
                == '\t' || word[i] == '\n');
        assert(special(word[i]));
    }
}

/// Between quotes every character is written for itself, one after the other: a quote and a
/// star behind a star, a line break as a star and an `n`, and any other as it is.
pub proof fn characters_are_written_one_by_one(a: Seq<char>, b: Seq<char>, c: char)
    ensures
        escape(Seq::empty()) == Seq::<char>::empty(),
        escape(a + b) == escape(a) + escape(b),
        c == '"' ==> escape(seq![c]) == seq!['*', '"'],
        c == '*' ==> escape(seq![c]) == seq!['*', '*'],
        c == '\n' ==> escape(seq![c]) == seq!['*', 'n'],
        c != '"' && c != '*' && c != '\n' ==> escape(seq![c]) == seq![c],
    decreases a.len(),
{
    escape_push(Seq::empty(), c);
    assert(Seq::<char>::empty().push(c) == seq![c]);
    assert(escape(Seq::empty()) + escaped(c) == escaped(c));
    if a.len() == 0 {
        assert(a + b == b);
        assert(escape(a) + escape(b) == escape(b));
    } else {
        characters_are_written_one_by_one(a.drop_first(), b, c);
        assert((a + b).drop_first() == a.drop_first() + b);
        assert(escape(a + b) == escape(a) + escape(b));
    }
}

/// Words stand on a line in their order, each as it is written by itself, with one blank before
/// each but the first; no word is no line.
pub proof fn words_stand_in_a_row(words: Seq<Seq<char>>, word: Seq<char>)
    ensures
        line_of(Seq::empty()) == Seq::<char>::empty(),
        line_of(seq![word]) == quoted(word),
        words.len() > 0 ==> line_of(words.push(word)) == line_of(words) + seq![' '] + quoted(word),
{
    line_of_push(words, word);
}

// ------------------------------------------------------------------------------------
// Writing words
// ------------------------------------------------------------------------------------

/// Whether a word needs quotes.
fn text_needs_quotes(text: &str) -> (yes: bool)
    ensures
        yes == needs_quotes(text@),
{
    let mut yes: bool = text.is_empty();
    for c in it: text.chars()
        invariant
            it.seq() == text@,
            yes == (text@.len() == 0 || exists|i: int|
                0 <= i < it.index() && special(#[trigger] text@[i])),
    {
        let ghost k = it.index() as int;
        assert(c == text@[k]);
        if c == ' ' || c == '"' || c == '*' || c == '\t' || c == '\n' {
            assert(special(text@[k]));
            yes = true;
        }
    }
    yes
}

/// Appends a word the way it is written for the shell.
pub fn quote_text(text: &str, out: &mut String)
    ensures
        final(out)@ == old(out)@ + quoted(text@),
{
    if !text_needs_quotes(text) {
        out.append(text);
        return ;
    }
    let ghost before = out@;
    out.push('"');
    let ghost head = out@;
    for c in it: text.chars()
        invariant
            it.seq() == text@,
            out@ == head + escape(text@.take(it.index() as int)),
    {
        let ghost k = it.index() as int;
        proof {
            escape_push(text@.take(k), c);
            assert(text@.take(k).push(c) == text@.take(k + 1));
        }
        if c == '"' {
            out.push('*');
            out.push('"');
        } else if c == '*' {
            out.push('*');
            out.push('*');
        } else if c == '\n' {
            out.push('*');
            out.push('n');
        } else {
            out.push(c);
        }
        assert(out@ == head + escape(text@.take(k + 1)));
    }
    assert(text@.take(text@.len() as int) == text@);
    out.push('"');
    assert(out@ == before + quoted(text@));
}

/// Appends an argument, which is raw bytes, the way it is written for the shell.
pub fn quote_into(arg: &[u8], out: &mut String)
    ensures
        final(out)@ == old(out)@ + quoted(lossy(arg@)),
{
    let text: String = to_string_lossy(arg);
    quote_text(text.as_str(), out);
}

/// A word and an argument are appended the way they are written, behind what was there.
pub proof fn words_are_appended_as_they_are_written(
    text: &str,
    a: &mut String,
    arg: &[u8],
    b: &mut String,
)
    requires
        call_ensures(quote_text, (text, a), ()),
        call_ensures(quote_into, (arg, b), ()),
    ensures
        final(a)@ == old(a)@ + quoted(text@),
        final(b)@ == old(b)@ + quoted(lossy(arg@)),
{
}

} // verus!
