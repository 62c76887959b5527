//! Arithmetic puzzles handed to newly joined members: a pair of small operands
//! with an operator, plus a list of candidate answers in which the correct one
//! is hidden among decoys and never shown first.

use vstd::prelude::*;
use vstd::seq_lib::*;
use vstd::set_lib::*;

verus! {

/// Smallest operand a question may carry.
pub const MIN_OPERAND: u8 = 1;

/// Largest right operand of an addition or a multiplication; the left operand
/// stays strictly below it.
pub const MAX_OPERAND: u8 = 10;

/// Largest value a decoy answer may take. The answer space (1..=100) is
/// strictly larger than any allowed candidate count, so decoys can always be
/// chosen distinct.
pub const MAX_CANDIDATE: u8 = 100;

/// Relies on rand::Rng::gen_range over the inclusive range lo..=hi (which
/// panics only on an empty range): the draw is random, so nothing beyond
/// membership in the range is stated of it.
#[verifier::external_body]
pub(crate) fn rand_in_range(lo: u8, hi: u8) -> (r: u8)
    requires
        lo <= hi,
    ensures
        lo <= r <= hi,
{
    rand::Rng::gen_range(&mut rand::thread_rng(), lo..=hi)
}

/// The operator of an arithmetic question.
#[derive(Clone, Copy, Debug, PartialEq, Eq, Structural)]
pub enum Operator {
    Add,
    Sub,
    Mul,
}

impl Operator {
    /// The mathematical value of applying the operator to two operands.
    pub open spec fn spec_eval(self, lhs: u8, rhs: u8) -> int {
        match self {
            Operator::Add => lhs + rhs,
            Operator::Sub => lhs - rhs,
            Operator::Mul => lhs * rhs,
        }
    }

    /// Apply the operator to two small operands; subtraction is only asked to
    /// produce non-negative results.
    pub fn eval(self, lhs: u8, rhs: u8) -> (r: u8)
        requires
            lhs <= MAX_OPERAND,
            rhs <= MAX_OPERAND,
            self is Sub ==> rhs <= lhs,
        ensures
            r == self.spec_eval(lhs, rhs),
            r <= MAX_CANDIDATE,
    {
        proof {
            assert(lhs * rhs <= 100) by (nonlinear_arith)
                requires
                    lhs <= 10,
                    rhs <= 10,
            ;
        }
        match self {
            Operator::Add => lhs + rhs,
            Operator::Sub => lhs - rhs,
            Operator::Mul => lhs * rhs,
        }
    }

    /// The symbol the operator is displayed with.
    pub fn symbol(self) -> (r: &'static str)
        ensures
            r@ == self.spec_symbol(),
    {
        proof {
            reveal_strlit("+");
            reveal_strlit("-");
            reveal_strlit("*");
        }
        match self {
            Operator::Add => "+",
            Operator::Sub => "-",
            Operator::Mul => "*",
        }
    }

    /// The character sequence of the operator's symbol.
    pub open spec fn spec_symbol(self) -> Seq<char> {
        match self {
            Operator::Add => seq!['+'],
            Operator::Sub => seq!['-'],
            Operator::Mul => seq!['*'],
        }
    }
}

/// An immutable arithmetic question. The correct answer is never stored, only
/// recomputed from the operands, so no externally supplied value is trusted.
#[derive(Clone, Copy, Debug, PartialEq, Eq, Structural)]
pub struct MathQuestion {
    pub lhs: u8,
    pub operator: Operator,
    pub rhs: u8,
}

impl MathQuestion {
    /// Structural invariant of every question the engine issues: operands stay
    /// in their small range, and subtraction never has a right operand
    /// exceeding the left one, so the answer is never negative.
    pub open spec fn wf(self) -> bool {
        &&& MIN_OPERAND <= self.lhs < MAX_OPERAND
        &&& MIN_OPERAND <= self.rhs <= MAX_OPERAND
        &&& (self.operator is Sub ==> self.rhs <= self.lhs)
    }

    /// The correct answer of the question.
    pub open spec fn answer(self) -> int {
        self.operator.spec_eval(self.lhs, self.rhs)
    }

    /// Build a question from its parts.
    pub fn new(lhs: u8, operator: Operator, rhs: u8) -> (q: MathQuestion)
        requires
            MIN_OPERAND <= lhs < MAX_OPERAND,
            MIN_OPERAND <= rhs <= MAX_OPERAND,
            operator is Sub ==> rhs <= lhs,
        ensures
            q == (MathQuestion { lhs, operator, rhs }),
            q.wf(),
    {
        MathQuestion { lhs, operator, rhs }
    }

    /// Recompute the operator applied to the stored operands and compare with
    /// the submitted value. Pure and deterministic: equal inputs always give
    /// the same verdict.
    pub fn validate_answer(self, answer: u8) -> (r: bool)
        requires
            self.wf(),
        ensures
            r == (answer == self.answer()),
    {
        self.operator.eval(self.lhs, self.rhs) == answer
    }

    /// Generate a random question together with `n` candidate answers in
    /// presentation order: the correct answer stands at exactly one position,
    /// which is never the first, all candidates are pairwise distinct, and
    /// every decoy lies in the plausible range 1..=100.
    pub fn generate_question(n: usize) -> (r: (MathQuestion, Vec<u8>))
        requires
            2 <= n < MAX_CANDIDATE as int,
        ensures
            r.0.wf(),
            r.1@.len() == n,
            forall|i: int| 0 <= i < n ==> #[trigger] r.1@[i] <= MAX_CANDIDATE,
            forall|i: int, j: int| 0 <= i < j < n ==> r.1@[i] != r.1@[j],
            exists|i: int| 1 <= i < n && r.1@[i] == r.0.answer(),
            r.1@[0] != r.0.answer(),
    {
        let lhs = rand_in_range(MIN_OPERAND, MAX_OPERAND - 1);
        let pick = rand_in_range(0, 2);
        let operator = if pick == 0 {
            Operator::Add
        } else if pick == 1 {
            Operator::Sub
        } else {
            Operator::Mul
        };
        // For subtraction the right operand must not exceed the left one.
        let rhs = if matches!(operator, Operator::Sub) {
            rand_in_range(MIN_OPERAND, lhs)
        } else {
            rand_in_range(MIN_OPERAND, MAX_OPERAND)
        };
        let question = MathQuestion { lhs, operator, rhs };
        let answer = operator.eval(lhs, rhs);

        // The answer first, then n - 1 decoys, each fresh with respect to
        // everything drawn so far.
        let mut used: Vec<u8> = Vec::new();
        used.push(answer);
        while used.len() < n
            invariant
                1 <= used@.len() <= n,
                n < MAX_CANDIDATE as int,
                used@[0] == answer,
                used@.no_duplicates(),
                forall|i: int| 0 <= i < used@.len() ==> #[trigger] used@[i] <= MAX_CANDIDATE,
            decreases n - used@.len(),
        {
            let d = pick_fresh(&used);
            used.push(d);
        }

        // Place the answer at a random position that is never the first slot,
        // so the leftmost candidate is always a decoy.
        let pos = rand_in_range(1, (n - 1) as u8);
        let mut candidates: Vec<u8> = Vec::new();
        let mut i: usize = 1;
        while i < used.len()
            invariant
                1 <= i <= used@.len(),
                candidates@ == used@.subrange(1, i as int),
            decreases used@.len() - i,
        {
            candidates.push(used[i]);
            proof {
                assert(candidates@ =~= used@.subrange(1, i + 1));
            }
            i += 1;
        }
        let ghost decoys = used@.subrange(1, used@.len() as int);
        candidates.insert(pos as usize, answer);
        proof {
            decoys.insert_ensures(pos as int, answer);
            let cs = decoys.insert(pos as int, answer);
            assert(candidates@ == cs);
            assert(cs[pos as int] == answer);
            assert forall|a: int, b: int| 0 <= a < b < n implies cs[a] != cs[b] by {
                assert(forall|k: int| 0 <= k < pos ==> cs[k] == decoys[k]);
                assert(forall|k: int| pos < k < n ==> cs[k] == decoys[k - 1]);
                assert(forall|k: int| 0 <= k < decoys.len() ==> decoys[k] == used@[k + 1]);
            }
            assert(cs[0] == decoys[0]);
        }
        let result = (question, candidates);
        proof {
            assert(exists|i: int| 1 <= i < n && result.1@[i] == result.0.answer()) by {
                assert(1 <= pos as int && (pos as int) < n && result.1@[pos as int]
                    == result.0.answer());
            }
        }
        result
    }
}

/// In a generated candidate list, validation accepts exactly one candidate —
/// the one carrying the question's answer — and that candidate never stands
/// first. Follows for every list with the shape `generate_question` ensures:
/// pairwise distinct candidates, the answer among them past the first slot.
pub proof fn lemma_single_accepted_candidate(q: MathQuestion, cands: Seq<u8>)
    requires
        q.wf(),
        exists|i: int| 1 <= i < cands.len() && cands[i] == q.answer(),
        forall|i: int, j: int| 0 <= i < j < cands.len() ==> cands[i] != cands[j],
    ensures
        exists|i: int|
            {
                &&& 1 <= i < cands.len()
                &&& cands[i] == q.answer()
                &&& forall|j: int| 0 <= j < cands.len() && j != i ==> cands[j] != q.answer()
            },
{
    let i = choose|i: int| 1 <= i < cands.len() && cands[i] == q.answer();
    assert forall|j: int| 0 <= j < cands.len() && j != i implies cands[j] != q.answer() by {
        if j < i {
            assert(cands[j] != cands[i]);
        } else {
            assert(cands[i] != cands[j]);
        }
    }
    assert({
        &&& 1 <= i < cands.len()
        &&& cands[i] == q.answer()
        &&& forall|j: int| 0 <= j < cands.len() && j != i ==> cands[j] != q.answer()
    });
}

/// A value in 1..=100 that does not yet occur in `used`: a random draw, moved
/// forward cyclically past collisions. One always exists because fewer than
/// 100 values are taken.
fn pick_fresh(used: &Vec<u8>) -> (r: u8)
    requires
        used@.no_duplicates(),
        used@.len() < 100,
    ensures
        1 <= r <= MAX_CANDIDATE,
        !used@.contains(r),
{
    let start = rand_in_range(1, MAX_CANDIDATE);
    let mut v = start;
    while v <= MAX_CANDIDATE
        invariant
            1 <= start <= MAX_CANDIDATE,
            start <= v <= MAX_CANDIDATE + 1,
            forall|j: u8| start <= j < v ==> used@.contains(j),
        decreases MAX_CANDIDATE + 1 - v,
    {
        if !contains_value(used, v) {
            return v;
        }
        v = v + 1;
    }
    let mut w: u8 = 1;
    while w < start
        invariant
            1 <= start <= MAX_CANDIDATE,
            1 <= w <= start,
            forall|j: u8| 1 <= j < w ==> used@.contains(j),
        decreases start - w,
    {
        if !contains_value(used, w) {
            return w;
        }
        w = w + 1;
    }
    // Every value in 1..=100 would now occur in `used`, yet `used` holds
    // fewer than 100 distinct values: impossible.
    proof {
        assert(forall|j: u8| 1 <= j <= 100 ==> used@.contains(j));
        let ints = used@.map_values(|x: u8| x as int);
        assert(ints.no_duplicates());
        ints.unique_seq_to_set();
        let range = set_int_range(1, 101);
        lemma_int_range(1, 101);
        assert forall|k: int| range.contains(k) implies ints.to_set().contains(k) by {
            assert(1 <= k < 101);
            assert(used@.contains(k as u8));
            let idx = choose|idx: int| 0 <= idx < used@.len() && used@[idx] == k as u8;
            assert(ints[idx] == k);
            assert(ints.contains(k));
        }
        lemma_len_subset(range, ints.to_set());
        assert(false);
    }
    1
}

/// Whether `x` occurs in `v`.
fn contains_value(v: &Vec<u8>, x: u8) -> (r: bool)
    ensures
        r == v@.contains(x),
{
    let mut i: usize = 0;
    while i < v.len()
        invariant
            0 <= i <= v@.len(),
            forall|j: int| 0 <= j < i ==> v@[j] != x,
        decreases v@.len() - i,
    {
        if v[i] == x {
            return true;
        }
        i += 1;
    }
    false
}

} // verus!
