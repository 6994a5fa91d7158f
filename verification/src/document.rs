//! The aggregator of whole-input mode: all lines as one document.

use vstd::prelude::*;

verus! {

/// The text of each line.
pub open spec fn line_texts(lines: Seq<String>) -> Seq<Seq<char>> {
    Seq::new(lines.len(), |i: int| lines[i]@)
}

/// The document made of `lines`: the lines in order, with one line feed
/// between each two neighbours and none before the first or after the last.
/// No lines make the empty document.
pub open spec fn document_text(lines: Seq<Seq<char>>) -> Seq<char>
    decreases lines.len(),
{
    if lines.len() == 0 {
        Seq::empty()
    } else if lines.len() == 1 {
        lines[0]
    } else {
        document_text(lines.drop_last()) + seq!['\n'] + lines.last()
    }
}

/// Joins `lines` into one document.
pub fn join_lines(lines: &[String]) -> (document: String)
    ensures
        document@ == document_text(line_texts(lines@)),
{
    let ghost texts = line_texts(lines@);
    let mut document = String::new();
    let mut i: usize = 0;
    while i < lines.len()
        invariant
            i <= lines.len(),
            texts == line_texts(lines@),
            document@ == document_text(texts.take(i as int)),
        decreases lines.len() - i,
    {
        if i > 0 {
            document.append("\n");
        }
        document.append(lines[i].as_str());
        proof {
            reveal_strlit("\n");
            let seen = texts.take(i + 1);
            assert(seen.drop_last() =~= texts.take(i as int));
            assert(seen.last() == lines@[i as int]@);
            if i > 0 {
                assert(document@ =~= document_text(seen.drop_last()) + seq!['\n'] + seen.last());
            } else {
                assert(document@ =~= seen[0]);
            }
        }
        i += 1;
    }
    proof {
        assert(texts.take(i as int) =~= texts);
    }
    document
}

} // verus!
