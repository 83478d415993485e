//! Choosing the best class among the scores of one inference run.
//!
//! Scores are 32-bit IEEE floats, carried here as their bit patterns
//! (`f32::to_bits`). For every pair of non-NaN floats, the order of their
//! values is the order of `score_rank` of their bit patterns: the sign bit
//! says which side of zero the value lies on, and the remaining 31 bits grow
//! with the magnitude. Both zeros have rank 0, as `0.0 == -0.0`.
use vstd::prelude::*;

use crate::CLASS_INDEX_OFFSET;

verus! {

/// The sign bit of a 32-bit float.
pub const SIGN_BIT: u32 = 0x8000_0000;

/// The bit pattern of positive infinity; every larger magnitude is a NaN.
pub const INFINITY_BITS: u32 = 0x7f80_0000;

/// The exponent and fraction bits of a float: its magnitude, in order.
pub open spec fn magnitude(bits: u32) -> int {
    (bits % SIGN_BIT) as int
}

pub open spec fn is_negative(bits: u32) -> bool {
    bits >= SIGN_BIT
}

pub open spec fn is_nan(bits: u32) -> bool {
    magnitude(bits) > INFINITY_BITS
}

/// Position of a float on the number line, as an integer of the same order.
pub open spec fn score_rank(bits: u32) -> int {
    if is_negative(bits) {
        -magnitude(bits)
    } else {
        magnitude(bits)
    }
}

/// `pos` is the first position holding a score that no other score exceeds.
pub open spec fn is_best(scores: Seq<u32>, pos: int) -> bool {
    &&& 0 <= pos < scores.len()
    &&& forall|j: int| 0 <= j < scores.len() ==> score_rank(#[trigger] scores[j]) <= score_rank(scores[pos])
    &&& forall|j: int| 0 <= j < pos ==> score_rank(#[trigger] scores[j]) < score_rank(scores[pos])
}

pub open spec fn has_nan(scores: Seq<u32>) -> bool {
    exists|j: int| 0 <= j < scores.len() && is_nan(#[trigger] scores[j])
}

/// The label number reported for output position `pos`.
pub open spec fn class_index_of(pos: int) -> int {
    pos + CLASS_INDEX_OFFSET
}

/// The winning class of one inference run.
#[derive(Clone, Copy, Debug, PartialEq, Eq, Structural)]
pub struct Best {
    /// Bit pattern of the winning score.
    pub score: u32,
    /// Label number of the winning class.
    pub class_index: i32,
}

/// Why no class could be chosen.
#[derive(Clone, Copy, Debug, PartialEq, Eq, Structural)]
pub enum SelectError {
    /// The output holds no score at all.
    EmptyOutput,
    /// Some score is a NaN, which is not ordered against the others.
    UnorderedOutput,
}

/// Largest number of scores whose label numbers fit an `i32`.
pub const MAX_SCORES: usize = 0x7fff_fffe;

/// Integer rank of a score, as `score_rank` states it.
pub fn rank_of(bits: u32) -> (r: i64)
    ensures
        r == score_rank(bits),
{
    if bits >= SIGN_BIT {
        -((bits - SIGN_BIT) as i64)
    } else {
        bits as i64
    }
}

/// Whether a score is a NaN.
pub fn score_is_nan(bits: u32) -> (r: bool)
    ensures
        r == is_nan(bits),
{
    let m: u32 = if bits >= SIGN_BIT { bits - SIGN_BIT } else { bits };
    m > INFINITY_BITS
}

/// `r` is what choosing among `scores` gives: an error for an empty output
/// or one holding a NaN, else the first highest score with its label number.
pub open spec fn selects(scores: Seq<u32>, r: Result<Best, SelectError>) -> bool {
    if scores.len() == 0 {
        r == Err::<Best, SelectError>(SelectError::EmptyOutput)
    } else if has_nan(scores) {
        r == Err::<Best, SelectError>(SelectError::UnorderedOutput)
    } else {
        r matches Ok(b) && exists|pos: int|
            #![trigger is_best(scores, pos)]
            {
                &&& is_best(scores, pos)
                &&& b.class_index == class_index_of(pos)
                &&& b.score == scores[pos]
            }
    }
}

/// Picks the highest score and its label number. Of equal highest scores
/// the first one wins.
pub fn select_best(scores: &Vec<u32>) -> (r: Result<Best, SelectError>)
    requires
        scores@.len() <= MAX_SCORES,
    ensures
        selects(scores@, r),
{
    let n = scores.len();
    if n == 0 {
        return Err(SelectError::EmptyOutput);
    }
    let mut k: usize = 0;
    while k < n
        invariant
            n == scores@.len(),
            k <= n,
            forall|j: int| 0 <= j < k ==> !is_nan(#[trigger] scores@[j]),
        decreases n - k,
    {
        if score_is_nan(scores[k]) {
            return Err(SelectError::UnorderedOutput);
        }
        k += 1;
    }
    let mut best: usize = 0;
    let mut best_rank: i64 = rank_of(scores[0]);
    let mut k: usize = 1;
    while k < n
        invariant
            n == scores@.len(),
            n <= MAX_SCORES,
            1 <= k <= n,
            best < k,
            best_rank == score_rank(scores@[best as int]),
            forall|j: int| 0 <= j < k ==> score_rank(#[trigger] scores@[j]) <= best_rank,
            forall|j: int| 0 <= j < best ==> score_rank(#[trigger] scores@[j]) < best_rank,
        decreases n - k,
    {
        let r = rank_of(scores[k]);
        if r > best_rank {
            best = k;
            best_rank = r;
        }
        k += 1;
    }
    let r = Ok(Best { score: scores[best], class_index: best as i32 + CLASS_INDEX_OFFSET });
    assert(is_best(scores@, best as int));
    r
}

/// Choosing is deterministic: two choices on the same scores give the same
/// result, so choosing again on an output repeats the first answer.
pub proof fn lemma_selection_is_deterministic(
    scores: Seq<u32>,
    r1: Result<Best, SelectError>,
    r2: Result<Best, SelectError>,
)
    requires
        selects(scores, r1),
        selects(scores, r2),
    ensures
        r1 == r2,
{
    if scores.len() > 0 && !has_nan(scores) {
        let p1 = choose|pos: int| is_best(scores, pos) && r1->Ok_0.class_index == class_index_of(pos) && r1->Ok_0.score == scores[pos];
        let p2 = choose|pos: int| is_best(scores, pos) && r2->Ok_0.class_index == class_index_of(pos) && r2->Ok_0.score == scores[pos];
        lemma_best_is_unique(scores, p1, p2);
    }
}

/// At most one position is the best one: the choice is fully determined by
/// the scores, so choosing again on the same output gives the same class
/// and score.
pub proof fn lemma_best_is_unique(scores: Seq<u32>, a: int, b: int)
    requires
        is_best(scores, a),
        is_best(scores, b),
    ensures
        a == b,
{
    if a < b {
        assert(score_rank(scores[a]) < score_rank(scores[b]));
    } else if b < a {
        assert(score_rank(scores[b]) < score_rank(scores[a]));
    }
}

/// An output of one score that is not a NaN wins at position zero, and so
/// is reported under the label number `CLASS_INDEX_OFFSET`.
pub proof fn lemma_single_score_wins(scores: Seq<u32>)
    requires
        scores.len() == 1,
        !is_nan(scores[0]),
    ensures
        !has_nan(scores),
        is_best(scores, 0),
        class_index_of(0) == CLASS_INDEX_OFFSET,
        forall|pos: int| is_best(scores, pos) ==> pos == 0,
{
}

/// Of two positions holding equal highest scores, the later one never wins.
pub proof fn lemma_tie_goes_to_first(scores: Seq<u32>, i: int, j: int)
    requires
        0 <= i < j < scores.len(),
        score_rank(scores[i]) == score_rank(scores[j]),
        forall|k: int| 0 <= k < scores.len() ==> score_rank(#[trigger] scores[k]) <= score_rank(scores[i]),
    ensures
        !is_best(scores, j),
        exists|pos: int| pos <= i && is_best(scores, pos),
{
    let pos = first_best(scores, i);
    assert(is_best(scores, pos));
}

/// The first position at or before `i` whose score equals the highest one.
proof fn first_best(scores: Seq<u32>, i: int) -> (pos: int)
    requires
        0 <= i < scores.len(),
        forall|k: int| 0 <= k < scores.len() ==> score_rank(#[trigger] scores[k]) <= score_rank(scores[i]),
    ensures
        0 <= pos <= i,
        is_best(scores, pos),
    decreases i,
{
    if exists|k: int| 0 <= k < i && score_rank(#[trigger] scores[k]) == score_rank(scores[i]) {
        let k = choose|k: int| 0 <= k < i && score_rank(#[trigger] scores[k]) == score_rank(scores[i]);
        first_best(scores, k)
    } else {
        assert forall|k: int| 0 <= k < i implies score_rank(#[trigger] scores[k]) < score_rank(scores[i]) by {
        }
        i
    }
}

} // verus!
