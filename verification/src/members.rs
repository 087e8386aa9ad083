//! Per-column member code: the assignment statements that move row values
//! into the column-oriented polynomial container, and the statements that
//! derive the shifted polynomials.

use vstd::prelude::*;

verus! {

/// The statement copying one column of the current row into its polynomial
/// slot at the current row index.
pub open spec fn spec_assignment_stmt(col: Seq<char>) -> Seq<char> {
    "polys."@ + col + "[i] = rows[i]."@ + col + ";"@
}

/// The statement deriving one shifted polynomial from its base polynomial.
pub open spec fn spec_shift_stmt(col: Seq<char>) -> Seq<char> {
    "polys."@ + col + "_shift = Polynomial(polys."@ + col + ".shifted());"@
}

/// Lines joined by a newline, with no trailing newline.
pub open spec fn spec_join_lines(lines: Seq<Seq<char>>) -> Seq<char>
    decreases lines.len(),
{
    if lines.len() == 0 {
        Seq::empty()
    } else if lines.len() == 1 {
        lines[0]
    } else {
        lines[0] + "\n"@ + spec_join_lines(lines.drop_first())
    }
}

/// The whole assignment block: one statement per column, in schema order.
pub open spec fn spec_assignment_block(cols: Seq<Seq<char>>) -> Seq<char> {
    spec_join_lines(cols.map_values(|c: Seq<char>| spec_assignment_stmt(c)))
}

/// The whole shift block: one statement per shifted column, in their order.
pub open spec fn spec_shift_block(cols: Seq<Seq<char>>) -> Seq<char> {
    spec_join_lines(cols.map_values(|c: Seq<char>| spec_shift_stmt(c)))
}

/// Appending one more line extends the joined text by a separator and the
/// line (or is the line itself when nothing came before).
proof fn lemma_join_lines_push(lines: Seq<Seq<char>>, line: Seq<char>)
    ensures
        spec_join_lines(lines.push(line)) == if lines.len() == 0 {
            line
        } else {
            (spec_join_lines(lines) + "\n"@ + line)
        },
    decreases lines.len(),
{
    let pushed = lines.push(line);
    if lines.len() == 0 {
        assert(pushed.len() == 1);
        assert(pushed[0] == line);
    } else if lines.len() == 1 {
        assert(pushed.drop_first() =~= seq![line]);
        assert(spec_join_lines(pushed.drop_first()) == line);
        assert(spec_join_lines(pushed) == lines[0] + "\n"@ + line);
    } else {
        lemma_join_lines_push(lines.drop_first(), line);
        assert(pushed.drop_first() =~= lines.drop_first().push(line));
        assert(spec_join_lines(pushed) == lines[0] + "\n"@ + (spec_join_lines(lines.drop_first())
            + "\n"@ + line));
        assert(lines[0] + "\n"@ + (spec_join_lines(lines.drop_first()) + "\n"@ + line) =~= (lines[0]
            + "\n"@ + spec_join_lines(lines.drop_first())) + "\n"@ + line);
    }
}

/// Whether a text holds no newline.
pub open spec fn newline_free(s: Seq<char>) -> bool {
    forall|i: int| 0 <= i < s.len() ==> s[i] != '\n'
}

/// How many newlines a text holds.
pub open spec fn newline_count(s: Seq<char>) -> nat
    decreases s.len(),
{
    if s.len() == 0 {
        0
    } else {
        newline_count(s.drop_last()) + if s.last() == '\n' {
            1nat
        } else {
            0nat
        }
    }
}

proof fn lemma_newline_count_of_free(s: Seq<char>)
    requires
        newline_free(s),
    ensures
        newline_count(s) == 0,
    decreases s.len(),
{
    if s.len() > 0 {
        assert(newline_free(s.drop_last()));
        lemma_newline_count_of_free(s.drop_last());
    }
}

proof fn lemma_newline_count_add(a: Seq<char>, b: Seq<char>)
    ensures
        newline_count(a + b) == newline_count(a) + newline_count(b),
    decreases b.len(),
{
    if b.len() == 0 {
        assert(a + b =~= a);
    } else {
        lemma_newline_count_add(a, b.drop_last());
        assert((a + b).drop_last() =~= a + b.drop_last());
        assert((a + b).last() == b.last());
    }
}

/// Joining newline-free lines puts exactly one newline between neighbors:
/// the joined text holds one line per list entry and no other line breaks.
pub proof fn lemma_join_lines_newline_count(lines: Seq<Seq<char>>)
    requires
        lines.len() >= 1,
        forall|i: int| 0 <= i < lines.len() ==> newline_free(#[trigger] lines[i]),
    ensures
        newline_count(spec_join_lines(lines)) == lines.len() - 1,
    decreases lines.len(),
{
    if lines.len() == 1 {
        lemma_newline_count_of_free(lines[0]);
    } else {
        assert(forall|i: int|
            0 <= i < lines.drop_first().len() ==> newline_free(#[trigger] lines.drop_first()[i]));
        lemma_join_lines_newline_count(lines.drop_first());
        lemma_newline_count_add(lines[0] + "\n"@, spec_join_lines(lines.drop_first()));
        lemma_newline_count_add(lines[0], "\n"@);
        lemma_newline_count_of_free(lines[0]);
        reveal_strlit("\n");
        assert("\n"@ =~= seq!['\n']);
        assert(seq!['\n'].drop_last() =~= Seq::<char>::empty());
        assert(newline_count(Seq::<char>::empty()) == 0);
        assert(newline_count(seq!['\n']) == 1);
    }
}

/// A column name without newlines yields a one-line assignment statement.
pub proof fn lemma_assignment_stmt_newline_free(col: Seq<char>)
    requires
        newline_free(col),
    ensures
        newline_free(spec_assignment_stmt(col)),
{
    reveal_strlit("polys.");
    reveal_strlit("[i] = rows[i].");
    reveal_strlit(";");
    assert(newline_free("polys."@));
    assert(newline_free("[i] = rows[i]."@));
    assert(newline_free(";"@));
}

/// A column name without newlines yields a one-line shift statement.
pub proof fn lemma_shift_stmt_newline_free(col: Seq<char>)
    requires
        newline_free(col),
    ensures
        newline_free(spec_shift_stmt(col)),
{
    reveal_strlit("polys.");
    reveal_strlit("_shift = Polynomial(polys.");
    reveal_strlit(".shifted());");
    assert(newline_free("polys."@));
    assert(newline_free("_shift = Polynomial(polys."@));
    assert(newline_free(".shifted());"@));
}

/// The assignment block for `cols` newline-free column names is a text of
/// exactly `cols.len()` lines, one statement per column, in column order.
pub proof fn lemma_assignment_block_line_count(cols: Seq<Seq<char>>)
    requires
        cols.len() >= 1,
        forall|i: int| 0 <= i < cols.len() ==> newline_free(#[trigger] cols[i]),
    ensures
        newline_count(spec_assignment_block(cols)) == cols.len() - 1,
{
    let lines = cols.map_values(|c: Seq<char>| spec_assignment_stmt(c));
    assert forall|i: int| 0 <= i < lines.len() implies newline_free(#[trigger] lines[i]) by {
        lemma_assignment_stmt_newline_free(cols[i]);
    }
    lemma_join_lines_newline_count(lines);
}

/// The shift block for `cols` newline-free column names is a text of
/// exactly `cols.len()` lines, one statement per column, in their order.
pub proof fn lemma_shift_block_line_count(cols: Seq<Seq<char>>)
    requires
        cols.len() >= 1,
        forall|i: int| 0 <= i < cols.len() ==> newline_free(#[trigger] cols[i]),
    ensures
        newline_count(spec_shift_block(cols)) == cols.len() - 1,
{
    let lines = cols.map_values(|c: Seq<char>| spec_shift_stmt(c));
    assert forall|i: int| 0 <= i < lines.len() implies newline_free(#[trigger] lines[i]) by {
        lemma_shift_stmt_newline_free(cols[i]);
    }
    lemma_join_lines_newline_count(lines);
}

/// One assignment statement per entry of `all_cols`, in order.
pub fn assignment_lines(all_cols: &[String]) -> (r: Vec<String>)
    ensures
        r@.len() == all_cols@.len(),
        forall|i: int| 0 <= i < r@.len() ==> r@[i]@ == spec_assignment_stmt(all_cols@[i]@),
{
    let mut out: Vec<String> = Vec::new();
    let mut idx: usize = 0;
    while idx < all_cols.len()
        invariant
            idx <= all_cols@.len(),
            out@.len() == idx,
            forall|i: int| 0 <= i < idx ==> out@[i]@ == spec_assignment_stmt(all_cols@[i]@),
        decreases all_cols@.len() - idx,
    {
        let mut line = String::from_str("polys.");
        line.append(all_cols[idx].as_str());
        line.append("[i] = rows[i].");
        line.append(all_cols[idx].as_str());
        line.append(";");
        out.push(line);
        idx = idx + 1;
    }
    out
}

/// One shift statement per entry of `to_be_shifted`, in order.
pub fn shift_lines(to_be_shifted: &[String]) -> (r: Vec<String>)
    ensures
        r@.len() == to_be_shifted@.len(),
        forall|i: int| 0 <= i < r@.len() ==> r@[i]@ == spec_shift_stmt(to_be_shifted@[i]@),
{
    let mut out: Vec<String> = Vec::new();
    let mut idx: usize = 0;
    while idx < to_be_shifted.len()
        invariant
            idx <= to_be_shifted@.len(),
            out@.len() == idx,
            forall|i: int| 0 <= i < idx ==> out@[i]@ == spec_shift_stmt(to_be_shifted@[i]@),
        decreases to_be_shifted@.len() - idx,
    {
        let mut line = String::from_str("polys.");
        line.append(to_be_shifted[idx].as_str());
        line.append("_shift = Polynomial(polys.");
        line.append(to_be_shifted[idx].as_str());
        line.append(".shifted());");
        out.push(line);
        idx = idx + 1;
    }
    out
}

/// Joins statements with single newlines, as the emitted blocks expect.
pub fn join_lines(lines: &Vec<String>) -> (r: String)
    ensures
        r@ == spec_join_lines(lines.deep_view()),
{
    let ghost all: Seq<Seq<char>> = lines.deep_view();
    let mut s = String::new();
    let mut idx: usize = 0;
    while idx < lines.len()
        invariant
            idx <= lines@.len(),
            all == lines.deep_view(),
            all.len() == lines@.len(),
            forall|i: int| 0 <= i < lines@.len() ==> all[i] == lines@[i]@,
            s@ == spec_join_lines(all.take(idx as int)),
        decreases lines@.len() - idx,
    {
        if idx > 0 {
            s.append("\n");
        }
        s.append(lines[idx].as_str());
        proof {
            lemma_join_lines_push(all.take(idx as int), all[idx as int]);
            assert(all.take(idx as int + 1) =~= all.take(idx as int).push(all[idx as int]));
            assert(s@ =~= spec_join_lines(all.take(idx as int + 1)));
        }
        idx = idx + 1;
    }
    proof {
        assert(all.take(lines@.len() as int) =~= all);
    }
    s
}

/// The assignment block for a schema: exactly one line per column of
/// `all_cols`, in `all_cols` order.
pub fn assignment_block(all_cols: &[String]) -> (r: String)
    ensures
        r@ == spec_assignment_block(all_cols.deep_view()),
{
    let lines = assignment_lines(all_cols);
    let joined = join_lines(&lines);
    proof {
        assert(lines.deep_view() =~= all_cols.deep_view().map_values(
            |c: Seq<char>| spec_assignment_stmt(c),
        ));
    }
    joined
}

/// The shift block for a schema: exactly one line per column of
/// `to_be_shifted`, in `to_be_shifted` order (not `all_cols` order).
pub fn shift_block(to_be_shifted: &[String]) -> (r: String)
    ensures
        r@ == spec_shift_block(to_be_shifted.deep_view()),
{
    let lines = shift_lines(to_be_shifted);
    let joined = join_lines(&lines);
    proof {
        assert(lines.deep_view() =~= to_be_shifted.deep_view().map_values(
            |c: Seq<char>| spec_shift_stmt(c),
        ));
    }
    joined
}

} // verus!
