//! The plain text of a transcript: its line texts joined by newlines.

use vstd::prelude::*;

use crate::cstring::strings_view;

verus! {

/// The line texts joined with `'\n'` between consecutive lines.
pub open spec fn joined_lines(lines: Seq<Seq<char>>) -> Seq<char>
    decreases lines.len(),
{
    if lines.len() == 0 {
        Seq::empty()
    } else if lines.len() == 1 {
        lines[0]
    } else {
        joined_lines(lines.drop_last()) + seq!['\n'] + lines.last()
    }
}

/// Joins the texts of a transcript's lines with newlines into one string.
pub fn join_line_texts(texts: &Vec<String>) -> (r: String)
    ensures
        r@ == joined_lines(strings_view(texts@)),
{
    let mut out = String::new();
    let newline = "\n";
    proof {
        reveal_strlit("\n");
    }
    let n = texts.len();
    let mut i: usize = 0;
    while i < n
        invariant
            n == texts@.len(),
            i <= n,
            newline@ == seq!['\n'],
            out@ == joined_lines(strings_view(texts@).take(i as int)),
        decreases n - i,
    {
        let ghost v = strings_view(texts@);
        assert(v.take(i as int + 1).drop_last() =~= v.take(i as int));
        if i != 0 {
            out.append(newline);
        }
        out.append(texts[i].as_str());
        proof {
            if i == 0 {
                assert(joined_lines(v.take(0)) =~= Seq::<char>::empty());
                assert(out@ =~= v.take(1)[0]);
            }
        }
        i = i + 1;
    }
    assert(strings_view(texts@).take(n as int) =~= strings_view(texts@));
    out
}

/// Joining: no lines give the empty text, one line gives that line, and a
/// line added after one or more lines is preceded by exactly one `'\n'`,
/// whatever the number of lines before it.
pub proof fn lemma_joined_lines_push(lines: Seq<Seq<char>>, line: Seq<char>)
    ensures
        joined_lines(Seq::<Seq<char>>::empty()) == Seq::<char>::empty(),
        joined_lines(seq![line]) == line,
        lines.len() > 0 ==> joined_lines(lines.push(line)) == joined_lines(lines) + seq!['\n'] + line,
{
    assert(lines.push(line).drop_last() =~= lines);
}

/// The joined text of a concatenation of two non-empty runs of lines is the
/// text of the first, one `'\n'`, then the text of the second.
pub proof fn lemma_joined_lines_append(a: Seq<Seq<char>>, b: Seq<Seq<char>>)
    requires
        a.len() > 0,
        b.len() > 0,
    ensures
        joined_lines(a + b) == joined_lines(a) + seq!['\n'] + joined_lines(b),
    decreases b.len(),
{
    if b.len() == 1 {
        assert((a + b).drop_last() =~= a);
        assert((a + b).last() == b[0]);
    } else {
        let b0 = b.drop_last();
        lemma_joined_lines_append(a, b0);
        assert((a + b).drop_last() =~= a + b0);
        assert((a + b).last() == b.last());
        assert(joined_lines(a) + seq!['\n'] + joined_lines(b0) + seq!['\n'] + b.last()
            =~= joined_lines(a) + seq!['\n'] + (joined_lines(b0) + seq!['\n'] + b.last()));
    }
}

} // verus!
