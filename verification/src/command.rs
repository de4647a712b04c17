use vstd::prelude::*;
use vstd::string::StrSliceExecFns;
use crate::log::texts;

verus! {

/// The characters that separate the words of a command line.
pub open spec fn is_separator(c: char) -> bool {
    c == ' ' || c == '\t' || c == '\n' || c == '\r'
}

/// The words of `s`: its maximal runs of characters that are no
/// separators, in order. Read from the left: a separator adds nothing, a
/// character after a word's character extends that word, and any other
/// character opens a new word.
pub open spec fn words(s: Seq<char>) -> Seq<Seq<char>>
    decreases s.len(),
{
    if s.len() == 0 {
        Seq::empty()
    } else if is_separator(s.last()) {
        words(s.drop_last())
    } else if s.len() > 1 && !is_separator(s[s.len() - 2]) {
        let before = words(s.drop_last());
        before.drop_last().push(before.last().push(s.last()))
    } else {
        words(s.drop_last()).push(seq![s.last()])
    }
}

/// A program and its arguments.
pub struct CommandLine {
    pub program: String,
    pub args: Vec<String>,
}

/// A command line as plain text.
pub struct CommandLineView {
    pub program: Seq<char>,
    pub args: Seq<Seq<char>>,
}

impl View for CommandLine {
    type V = CommandLineView;

    open spec fn view(&self) -> CommandLineView {
        CommandLineView { program: self.program@, args: texts(self.args@) }
    }
}

/// The command line that `cmd` stands for: its first word is the program
/// and the words after it are the arguments. A command without a word
/// stands for the fallback program without arguments.
pub open spec fn command_line(cmd: Seq<char>, fallback: Seq<char>) -> CommandLineView {
    let w = words(cmd);
    if w.len() == 0 {
        CommandLineView { program: fallback, args: Seq::empty() }
    } else {
        CommandLineView { program: w[0], args: w.subrange(1, w.len() as int) }
    }
}

/// No word is empty, no word holds a separator, and a text that ends in a
/// character of a word has that word last.
pub proof fn lemma_words_hold_no_separator(s: Seq<char>)
    ensures
        forall|i: int| 0 <= i < words(s).len() ==> (#[trigger] words(s)[i]).len() > 0,
        forall|i: int, j: int|
            0 <= i < words(s).len() && 0 <= j < words(s)[i].len() ==> !is_separator(
                #[trigger] words(s)[i][j],
            ),
        s.len() > 0 && !is_separator(s.last()) ==> words(s).len() > 0,
    decreases s.len(),
{
    if s.len() > 0 {
        lemma_words_hold_no_separator(s.drop_last());
        let before = words(s.drop_last());
        if is_separator(s.last()) {
        } else if s.len() > 1 && !is_separator(s[s.len() - 2]) {
            assert(s.drop_last().last() == s[s.len() - 2]);
            let grown = before.last().push(s.last());
            assert forall|i: int, j: int|
                0 <= i < words(s).len() && 0 <= j < words(s)[i].len() implies !is_separator(
                #[trigger] words(s)[i][j],
            ) by {
                if i < before.len() - 1 {
                    assert(words(s)[i] == before[i]);
                } else {
                    assert(words(s)[i] == grown);
                    if j < before.last().len() {
                        assert(grown[j] == before.last()[j]);
                        assert(!is_separator(before[before.len() - 1][j]));
                    }
                }
            }
            assert forall|i: int| 0 <= i < words(s).len() implies (#[trigger] words(s)[i]).len()
                > 0 by {
                if i < before.len() - 1 {
                    assert(words(s)[i] == before[i]);
                }
            }
        } else {
            assert forall|i: int, j: int|
                0 <= i < words(s).len() && 0 <= j < words(s)[i].len() implies !is_separator(
                #[trigger] words(s)[i][j],
            ) by {
                if i < before.len() {
                    assert(words(s)[i] == before[i]);
                }
            }
            assert forall|i: int| 0 <= i < words(s).len() implies (#[trigger] words(s)[i]).len()
                > 0 by {
                if i < before.len() {
                    assert(words(s)[i] == before[i]);
                }
            }
        }
    }
}

/// Whether `c` separates words.
pub fn separates(c: char) -> (r: bool)
    ensures
        r == is_separator(c),
{
    c == ' ' || c == '\t' || c == '\n' || c == '\r'
}

/// Splits `text` into its words.
pub fn split_words(text: &str) -> (r: Vec<String>)
    ensures
        texts(r@) == words(text@),
{
    let n: usize = text.unicode_len();
    let mut out: Vec<String> = Vec::new();
    let mut start: usize = 0;
    let mut in_word: bool = false;
    let mut i: usize = 0;
    while i < n
        invariant
            n == text@.len(),
            i <= n,
            in_word ==> start < i && !is_separator(text@[i - 1]),
            !in_word ==> i == 0 || is_separator(text@[i - 1]),
            in_word ==> words(text@.take(i as int)) == texts(out@).push(
                text@.subrange(start as int, i as int),
            ),
            !in_word ==> words(text@.take(i as int)) == texts(out@),
        decreases n - i,
    {
        let c = text.get_char(i);
        assert(text@.take(i + 1).drop_last() =~= text@.take(i as int));
        if separates(c) {
            if in_word {
                let word = text.substring_char(start, i).to_owned();
                out.push(word);
                in_word = false;
            }
        } else {
            if in_word {
                assert(text@.subrange(start as int, i + 1) =~= text@.subrange(
                    start as int,
                    i as int,
                ).push(c));
            } else {
                assert(text@.subrange(i as int, i + 1) =~= seq![c]);
                start = i;
                in_word = true;
            }
        }
        i = i + 1;
    }
    assert(text@.take(n as int) =~= text@);
    if in_word {
        let word = text.substring_char(start, n).to_owned();
        out.push(word);
    }
    out
}

/// Splits a command line into program and arguments; `fallback` is the
/// program where `cmd` holds no word.
pub fn split_command(cmd: &str, fallback: &str) -> (r: CommandLine)
    ensures
        r@ == command_line(cmd@, fallback@),
{
    let mut tokens = split_words(cmd);
    if tokens.len() == 0 {
        let r = CommandLine { program: fallback.to_owned(), args: Vec::new() };
        assert(texts(r.args@) =~= Seq::empty());
        r
    } else {
        let ghost all = tokens@;
        let program = tokens.remove(0);
        assert(texts(tokens@) =~= texts(all).subrange(1, all.len() as int));
        CommandLine { program, args: tokens }
    }
}

} // verus!
