//! The fixed algorithms of the emitted trace builder, modeled over plain
//! values so that their behavior is provable: the circuit-subgroup sizing
//! rule and the fail-fast constraint check. The emitted module carries the
//! same algorithms as C++ text; the field arithmetic feeding the constraint
//! check stays with the proof system and enters here only as the per-row
//! accumulator values it produces.

use vstd::prelude::*;

verus! {

/// Whether `n` is a power of two.
pub open spec fn is_pow2(n: nat) -> bool
    decreases n,
{
    if n == 0 {
        false
    } else if n == 1 {
        true
    } else {
        n % 2 == 0 && is_pow2(n / 2)
    }
}

/// The smallest power of two at least `r`, taken as 1 when `r` is zero:
/// a zero-row trace still gets a one-element evaluation domain.
pub open spec fn spec_subgroup_size(r: nat) -> nat
    decreases r,
{
    if r <= 1 {
        1
    } else {
        2 * spec_subgroup_size((r + 1) / 2)
    }
}

/// Distinct powers of two differ by at least a factor of two.
proof fn lemma_pow2_gap(p: nat, q: nat)
    requires
        is_pow2(p),
        is_pow2(q),
        p < q,
    ensures
        2 * p <= q,
    decreases p,
{
    if p == 1 {
    } else {
        lemma_pow2_gap(p / 2, q / 2);
    }
}

/// In the half-open band `[r, 2r)` there is at most one power of two.
proof fn lemma_pow2_band_unique(p: nat, q: nat, r: nat)
    requires
        is_pow2(p),
        is_pow2(q),
        r <= p < 2 * r,
        r <= q < 2 * r,
    ensures
        p == q,
{
    if p < q {
        lemma_pow2_gap(p, q);
    } else if q < p {
        lemma_pow2_gap(q, p);
    }
}

/// The circuit subgroup size is a power of two no smaller than the row
/// count, and halving it drops below the row count: it is the smallest
/// power of two that can hold the trace.
pub proof fn lemma_subgroup_size_bounds(r: nat)
    ensures
        is_pow2(spec_subgroup_size(r)),
        spec_subgroup_size(r) >= r,
        spec_subgroup_size(r) >= 1,
        r >= 1 ==> spec_subgroup_size(r) < 2 * r,
        r >= 1 ==> spec_subgroup_size(r) / 2 < r,
    decreases r,
{
    if r <= 1 {
    } else {
        let h = (r + 1) / 2;
        lemma_subgroup_size_bounds(h);
        let s = spec_subgroup_size(h);
        assert(spec_subgroup_size(r) == 2 * s);
        assert(2 * s >= r);
        if r % 2 == 0 {
            assert(2 * h == r);
            assert(s < r);
        } else {
            assert(2 * h == r + 1);
            assert(s <= r);
            if s == r {
                assert(is_pow2(r));
                assert(r % 2 == 1);
                assert(r > 1);
                assert(false);
            }
        }
        assert(2 * s < 2 * r);
    }
}

/// The smallest power-of-two domain size for `num_rows` trace rows; a trace
/// with no rows gets the one-element domain.
pub fn get_circuit_subgroup_size(num_rows: usize) -> (r: usize)
    requires
        num_rows <= usize::MAX / 2 + 1,
    ensures
        r as nat == spec_subgroup_size(num_rows as nat),
{
    let mut p: usize = 1;
    while p < num_rows
        invariant
            1 <= p,
            is_pow2(p as nat),
            p == 1 || (p as int) < 2 * (num_rows as int),
            num_rows <= usize::MAX / 2 + 1,
        decreases 2 * (num_rows as int) - (p as int),
    {
        p = p * 2;
    }
    proof {
        lemma_subgroup_size_bounds(num_rows as nat);
        if num_rows >= 2 {
            lemma_pow2_band_unique(p as nat, spec_subgroup_size(num_rows as nat), num_rows as nat);
        }
    }
    p
}

/// The number of gates is the number of trace rows as recorded.
pub fn get_num_gates(rows: &Vec<Vec<u64>>) -> (r: usize)
    ensures
        r == rows@.len(),
{
    rows.len()
}

/// A constraint violation: the relation checked, the index of the
/// sub-relation whose accumulator was nonzero, and the row it failed at.
pub struct ConstraintViolation {
    pub relation: String,
    pub subrelation: usize,
    pub row: usize,
}

/// Whether every sub-relation accumulator of one row is zero.
pub open spec fn spec_row_ok(row: Seq<u64>) -> bool {
    forall|j: int| 0 <= j < row.len() ==> row[j] == 0
}

/// Whether every row of the trace satisfies every sub-relation.
pub open spec fn spec_all_rows_ok(evals: Seq<Seq<u64>>) -> bool {
    forall|i: int| 0 <= i < evals.len() ==> spec_row_ok(#[trigger] evals[i])
}

/// The fail-fast constraint check of the emitted module, over the per-row
/// sub-relation accumulator values that the relation produced for the named
/// relation (the accumulator is reset before every row). Succeeds exactly
/// when every accumulator of every row is zero; otherwise reports the first
/// violation — first failing row, and within it the first nonzero
/// sub-relation — and looks no further. A trace with no rows passes.
pub fn check_circuit(relation_name: &str, evals: &Vec<Vec<u64>>) -> (r: Result<
    (),
    ConstraintViolation,
>)
    ensures
        r is Ok <==> spec_all_rows_ok(evals.deep_view()),
        r matches Err(v) ==> {
            &&& v.relation@ == relation_name@
            &&& v.row < evals@.len()
            &&& v.subrelation < evals@[v.row as int]@.len()
            &&& evals@[v.row as int]@[v.subrelation as int] != 0
            &&& forall|j: int|
                0 <= j < v.subrelation ==> evals@[v.row as int]@[j] == 0
            &&& forall|i: int|
                0 <= i < v.row ==> spec_row_ok(#[trigger] evals.deep_view()[i])
        },
{
    let ghost all: Seq<Seq<u64>> = evals.deep_view();
    let mut i: usize = 0;
    while i < evals.len()
        invariant
            i <= evals@.len(),
            all == evals.deep_view(),
            all.len() == evals@.len(),
            forall|k: int| 0 <= k < evals@.len() ==> all[k] == evals@[k]@,
            forall|k: int| 0 <= k < i ==> spec_row_ok(#[trigger] all[k]),
        decreases evals@.len() - i,
    {
        let row = &evals[i];
        let mut j: usize = 0;
        while j < row.len()
            invariant
                j <= row@.len(),
                row@ == evals@[i as int]@,
                i < evals@.len(),
                all == evals.deep_view(),
                all.len() == evals@.len(),
                forall|k: int| 0 <= k < evals@.len() ==> all[k] == evals@[k]@,
                forall|k: int| 0 <= k < i ==> spec_row_ok(#[trigger] all[k]),
                forall|k: int| 0 <= k < j ==> row@[k] == 0,
            decreases row@.len() - j,
        {
            if row[j] != 0 {
                proof {
                    assert(all[i as int][j as int] != 0);
                    assert(!spec_row_ok(all[i as int]));
                }
                return Err(ConstraintViolation {
                    relation: String::from_str(relation_name),
                    subrelation: j,
                    row: i,
                });
            }
            j = j + 1;
        }
        proof {
            assert(spec_row_ok(all[i as int]));
        }
        i = i + 1;
    }
    Ok(())
}

/// A trace with no rows passes the constraint check outright: there is no
/// row at which any relation could be evaluated.
pub proof fn lemma_check_circuit_no_rows(evals: Seq<Seq<u64>>)
    requires
        evals.len() == 0,
    ensures
        spec_all_rows_ok(evals),
{
}

} // verus!
