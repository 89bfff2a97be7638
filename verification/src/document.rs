//! The document a session shows: the lines of the readable sources, in the
//! order in which the sources were given.

use vstd::prelude::*;
use vstd::string::StringExecFns;
use crate::decimal::decimal;
use crate::decimal::decimal_string;

verus! {

/// The lines of `text` as `str::lines` of the standard library splits them.
pub uninterp spec fn text_lines(text: Seq<char>) -> Seq<Seq<char>>;

/// The contents of a vector of lines.
pub open spec fn lines_view(lines: Seq<String>) -> Seq<Seq<char>> {
    Seq::new(lines.len(), |i: int| lines[i]@)
}

/// The lines of all sources, one source after the other. A source that could
/// not be read is `None` and adds nothing.
pub open spec fn joined(parts: Seq<Option<Seq<Seq<char>>>>) -> Seq<Seq<char>>
    decreases parts.len(),
{
    if parts.len() == 0 {
        Seq::empty()
    } else {
        joined(parts.drop_last()) + match parts.last() {
            Some(lines) => lines,
            None => Seq::empty(),
        }
    }
}

/// The sources as sequences of lines, where the lines are already split.
pub open spec fn parts_view(parts: Seq<Option<Vec<String>>>) -> Seq<Option<Seq<Seq<char>>>> {
    Seq::new(
        parts.len(),
        |i: int|
            match parts[i] {
                Some(lines) => Some(lines_view(lines@)),
                None => None,
            },
    )
}

/// The sources as sequences of lines, where each source is one text.
pub open spec fn texts_view(texts: Seq<Option<String>>) -> Seq<Option<Seq<Seq<char>>>> {
    Seq::new(
        texts.len(),
        |i: int|
            match texts[i] {
                Some(text) => Some(text_lines(text@)),
                None => None,
            },
    )
}

/// An ordered sequence of text lines. It is built once and not changed.
#[derive(Debug)]
pub struct Document {
    pub lines: Vec<String>,
}

impl View for Document {
    type V = Seq<Seq<char>>;

    open spec fn view(&self) -> Seq<Seq<char>> {
        lines_view(self.lines@)
    }
}

/// Splits a text into its lines by `str::lines` of the standard library. The
/// contract gives the result a name and says nothing more of it: how a text
/// is split is taken from the standard library as it is.
#[verifier::external_body]
fn split_lines(text: &str) -> (lines: Vec<String>)
    ensures
        lines_view(lines@) == text_lines(text@),
{
    text.lines().map(String::from).collect()
}

/// Two sources, both readable, give as many lines as the two hold together, the
/// first source's lines first; where the first could not be read, the
/// document is the second source alone.
pub proof fn lemma_joined_pair(first: Option<Seq<Seq<char>>>, second: Seq<Seq<char>>)
    ensures
        first is Some ==> joined(seq![first, Some(second)]) == first->Some_0 + second,
        first is Some ==> joined(seq![first, Some(second)]).len() == first->Some_0.len()
            + second.len(),
        first is None ==> joined(seq![first, Some(second)]) == second,
{
    let both = seq![first, Some(second)];
    assert(both.drop_last() == seq![first]);
    assert(seq![first].drop_last() == Seq::<Option<Seq<Seq<char>>>>::empty());
    reveal_with_fuel(joined, 3);
    assert(joined(seq![first]) == match first {
        Some(lines) => lines,
        None => Seq::empty(),
    });
}

/// The number of lines that the readable sources hold together.
pub open spec fn total_lines(parts: Seq<Option<Seq<Seq<char>>>>) -> nat
    decreases parts.len(),
{
    if parts.len() == 0 {
        0
    } else {
        total_lines(parts.drop_last()) + match parts.last() {
            Some(lines) => lines.len(),
            None => 0,
        }
    }
}

/// The length of what `joined` gives is the sum of the lengths of the readable
/// sources.
pub proof fn lemma_joined_len(parts: Seq<Option<Seq<Seq<char>>>>)
    ensures
        joined(parts).len() == total_lines(parts),
    decreases parts.len(),
{
    if parts.len() > 0 {
        lemma_joined_len(parts.drop_last());
    }
}

impl Document {
    /// A document of the given lines.
    pub fn new(lines: Vec<String>) -> (document: Document)
        ensures
            document@ == lines_view(lines@),
            document.lines == lines,
    {
        Document { lines }
    }

    /// The number of lines.
    pub fn line_count(&self) -> (count: usize)
        ensures
            count == self@.len(),
    {
        self.lines.len()
    }

    /// The number of lines as it is printed where only the count is asked
    /// for: in decimal, with a newline after it.
    pub fn line_count_text(&self) -> (text: String)
        ensures
            text@ == decimal(self@.len()).push('\n'),
    {
        let mut text = decimal_string(self.lines.len());
        text.append("\n");
        proof {
            reveal_strlit("\n");
            assert(text@ =~= decimal(self@.len()).push('\n'));
        }
        text
    }

    /// Joins sources whose lines are already split: the lines of every
    /// readable source, in the order of the sources.
    pub fn from_parts(parts: &Vec<Option<Vec<String>>>) -> (document: Document)
        ensures
            document@ == joined(parts_view(parts@)),
            document@.len() == total_lines(parts_view(parts@)),
    {
        let mut lines: Vec<String> = Vec::new();
        let mut i: usize = 0;
        proof {
            assert(parts_view(parts@).take(0) == Seq::<Option<Seq<Seq<char>>>>::empty());
            assert(lines_view(lines@) == Seq::<Seq<char>>::empty());
        }
        while i < parts.len()
            invariant
                i <= parts.len(),
                lines_view(lines@) == joined(parts_view(parts@).take(i as int)),
            decreases parts.len() - i,
        {
            let ghost before = lines_view(lines@);
            match &parts[i] {
                Some(part) => {
                    let mut j: usize = 0;
                    while j < part.len()
                        invariant
                            j <= part.len(),
                            lines_view(lines@) == before + lines_view(part@).take(j as int),
                        decreases part.len() - j,
                    {
                        let ghost shown = lines_view(lines@);
                        let line = part[j].clone();
                        lines.push(line);
                        j += 1;
                        proof {
                            assert(lines_view(lines@) =~= shown.push(line@));
                            assert(lines_view(part@).take(j as int) =~= lines_view(part@).take(
                                j - 1,
                            ).push(line@));
                            assert(lines_view(lines@) =~= before + lines_view(part@).take(
                                j as int,
                            ));
                        }
                    }
                    proof {
                        assert(lines_view(part@).take(j as int) == lines_view(part@));
                    }
                },
                None => {},
            }
            proof {
                let all = parts_view(parts@);
                assert(all.take(i + 1).drop_last() == all.take(i as int));
                assert(all.take(i + 1).last() == all[i as int]);
            }
            i += 1;
        }
        proof {
            assert(parts_view(parts@).take(i as int) == parts_view(parts@));
            lemma_joined_len(parts_view(parts@));
        }
        Document { lines }
    }

    /// Joins sources given as whole texts: each readable text is split into
    /// its lines, and the lines follow one another in the order of the
    /// sources.
    pub fn from_texts(texts: &Vec<Option<String>>) -> (document: Document)
        ensures
            document@ == joined(texts_view(texts@)),
            document@.len() == total_lines(texts_view(texts@)),
    {
        let mut parts: Vec<Option<Vec<String>>> = Vec::new();
        let mut i: usize = 0;
        while i < texts.len()
            invariant
                i <= texts.len(),
                parts@.len() == i,
                parts_view(parts@) == texts_view(texts@).take(i as int),
            decreases texts.len() - i,
        {
            let part: Option<Vec<String>> = match &texts[i] {
                Some(text) => Some(split_lines(text.as_str())),
                None => None,
            };
            parts.push(part);
            i += 1;
            proof {
                assert(parts_view(parts@) =~= texts_view(texts@).take(i as int));
            }
        }
        proof {
            assert(texts_view(texts@).take(i as int) == texts_view(texts@));
        }
        Document::from_parts(&parts)
    }
}

} // verus!
