//! The line store: source lines with their tab characters expanded.

use vstd::prelude::*;

verus! {

/// The number of spaces that stand for one tab character.
pub const TAB_WIDTH: usize = 4;

/// What one source character becomes in the line store.
pub open spec fn expand_char(c: char) -> Seq<char> {
    if c == '\t' {
        Seq::new(TAB_WIDTH as nat, |i: int| ' ')
    } else {
        seq![c]
    }
}

/// A source line with every tab replaced by `TAB_WIDTH` spaces.
pub open spec fn expand_tabs(line: Seq<char>) -> Seq<char> {
    line.map_values(|c: char| expand_char(c)).flatten()
}

/// The line store that a sequence of source lines gives: the same lines in
/// the same order, each with its tabs expanded.
pub open spec fn expand_lines(source: Seq<Seq<char>>) -> Seq<Seq<char>> {
    source.map_values(|line: Seq<char>| expand_tabs(line))
}

/// No character of `line` is a tab.
pub open spec fn tab_free(line: Seq<char>) -> bool {
    !line.contains('\t')
}

/// A line of one character expands to what that character expands to.
pub proof fn lemma_expand_one(c: char)
    ensures
        expand_tabs(seq![c]) == expand_char(c),
{
    assert(seq![c].map_values(|c: char| expand_char(c)) =~= seq![expand_char(c)]);
    seq![expand_char(c)].lemma_flatten_one_element();
}

/// Expansion goes character by character, so it distributes over
/// concatenation.
pub proof fn lemma_expand_concat(a: Seq<char>, b: Seq<char>)
    ensures
        expand_tabs(a + b) == expand_tabs(a) + expand_tabs(b),
{
    let f = |c: char| expand_char(c);
    assert((a + b).map_values(f) =~= a.map_values(f) + b.map_values(f));
    vstd::seq_lib::lemma_flatten_concat(a.map_values(f), b.map_values(f));
}

/// A line without tabs is stored as it is.
pub proof fn lemma_expand_tab_free(line: Seq<char>)
    requires
        tab_free(line),
    ensures
        expand_tabs(line) == line,
    decreases line.len(),
{
    if line.len() == 0 {
        assert(line.map_values(|c: char| expand_char(c)) =~= Seq::<Seq<char>>::empty());
        assert(expand_tabs(line) =~= line);
    } else {
        let head = line.drop_last();
        let last = line.last();
        assert(line =~= head + seq![last]);
        assert(tab_free(head)) by {
            if head.contains('\t') {
                let i = choose|i: int| 0 <= i < head.len() && head[i] == '\t';
                assert(line[i] == '\t');
            }
        }
        assert(last != '\t') by {
            assert(line[line.len() - 1] == last);
        }
        lemma_expand_tab_free(head);
        lemma_expand_concat(head, seq![last]);
        lemma_expand_one(last);
    }
}

/// A line that holds exactly one tab is stored with that tab replaced by
/// exactly four spaces, and with everything before and after it unchanged.
pub proof fn lemma_expand_single_tab(before: Seq<char>, after: Seq<char>)
    requires
        tab_free(before),
        tab_free(after),
    ensures
        expand_tabs(before + seq!['\t'] + after) == before + seq![' ', ' ', ' ', ' '] + after,
{
    lemma_expand_concat(before + seq!['\t'], after);
    lemma_expand_concat(before, seq!['\t']);
    lemma_expand_tab_free(before);
    lemma_expand_tab_free(after);
    lemma_expand_one('\t');
    assert(expand_char('\t') =~= seq![' ', ' ', ' ', ' ']);
}

/// Expansion brings in nothing but spaces: a character of the stored line
/// is a space or a character of the source line, and never a tab.
pub proof fn lemma_expanded_chars(line: Seq<char>, c: char)
    requires
        expand_tabs(line).contains(c),
    ensures
        c != '\t',
        c == ' ' || line.contains(c),
    decreases line.len(),
{
    if line.len() == 0 {
        assert(line.map_values(|c: char| expand_char(c)) =~= Seq::<Seq<char>>::empty());
        assert(expand_tabs(line) =~= Seq::<char>::empty());
    } else {
        let head = line.drop_last();
        let last = line.last();
        assert(line =~= head + seq![last]);
        lemma_expand_concat(head, seq![last]);
        lemma_expand_one(last);
        let whole = expand_tabs(head) + expand_char(last);
        let i = choose|i: int| 0 <= i < whole.len() && whole[i] == c;
        if i < expand_tabs(head).len() {
            assert(expand_tabs(head)[i] == c);
            lemma_expanded_chars(head, c);
            if head.contains(c) {
                let k = choose|k: int| 0 <= k < head.len() && head[k] == c;
                assert(line[k] == c);
            }
        } else {
            assert(expand_char(last)[i - expand_tabs(head).len()] == c);
            assert(line[line.len() - 1] == last);
        }
    }
}

/// No tab is left in an expanded line.
pub proof fn lemma_expanded_is_tab_free(line: Seq<char>)
    ensures
        tab_free(expand_tabs(line)),
{
    if expand_tabs(line).contains('\t') {
        lemma_expanded_chars(line, '\t');
    }
}

/// Copies `line`, writing `TAB_WIDTH` spaces wherever it holds a tab.
pub fn expand_line(line: &str) -> (out: String)
    ensures
        out@ == expand_tabs(line@),
{
    let mut out = String::new();
    proof {
        assert(line@.take(0) =~= Seq::<char>::empty());
        lemma_expand_tab_free(Seq::<char>::empty());
    }
    for c in it: line.chars()
        invariant
            it.seq() == line@,
            out@ == expand_tabs(line@.take(it.index())),
    {
        proof {
            let done = line@.take(it.index());
            assert(line@.take(it.index() + 1) =~= done + seq![c]);
            lemma_expand_concat(done, seq![c]);
            lemma_expand_one(c);
        }
        if c == '\t' {
            let mut k: usize = 0;
            while k < TAB_WIDTH
                invariant
                    k <= TAB_WIDTH,
                    out@ == expand_tabs(line@.take(it.index())) + Seq::new(k as nat, |i: int| ' '),
                decreases TAB_WIDTH - k,
            {
                out.push(' ');
                k += 1;
            }
        } else {
            out.push(c);
        }
    }
    proof {
        assert(line@.take(line@.len() as int) =~= line@);
    }
    out
}

} // verus!
