//! The disassembler: an ordered filter table resolved first-match-wins.
use vstd::prelude::*;

use crate::instruction::{
    spec_filter_matches, spec_render, FilterSpec, InstructionBits, InstructionFilter,
};

verus! {

/// The decoding of the word `b` against the table `t`: the rendering of the
/// first filter that matches, or `None` when none does.
pub open spec fn spec_decode(t: Seq<FilterSpec>, b: InstructionBits) -> Option<Seq<char>>
    decreases t.len(),
{
    if t.len() == 0 {
        None
    } else if spec_filter_matches(t[0], b.bits) {
        Some(spec_render(t[0], b))
    } else {
        spec_decode(t.drop_first(), b)
    }
}

/// The index of the first filter in `t` that accepts `bits`, or `t.len()`
/// when none does.
pub open spec fn spec_first_match_index(t: Seq<FilterSpec>, bits: u32) -> int
    decreases t.len(),
{
    if t.len() == 0 {
        0
    } else if spec_filter_matches(t[0], bits) {
        0
    } else {
        1 + spec_first_match_index(t.drop_first(), bits)
    }
}

/// How the decoding relates to the first matching index: every filter before
/// it rejects the word; where it lies inside the table, that filter accepts
/// the word and the decoding is its rendering; where it is the table's
/// length, the decoding is `None`.
pub proof fn lemma_decode_characterization(t: Seq<FilterSpec>, b: InstructionBits)
    ensures
        0 <= spec_first_match_index(t, b.bits) <= t.len(),
        forall|j: int|
            0 <= j < spec_first_match_index(t, b.bits) ==> !spec_filter_matches(
                #[trigger] t[j],
                b.bits,
            ),
        spec_first_match_index(t, b.bits) < t.len() ==> (spec_filter_matches(
            t[spec_first_match_index(t, b.bits)],
            b.bits,
        ) && spec_decode(t, b) == Some(spec_render(t[spec_first_match_index(t, b.bits)], b))),
        spec_first_match_index(t, b.bits) == t.len() ==> spec_decode(t, b) is None,
    decreases t.len(),
{
    if t.len() == 0 {
    } else if spec_filter_matches(t[0], b.bits) {
    } else {
        lemma_decode_characterization(t.drop_first(), b);
        let rest = t.drop_first();
        let n = spec_first_match_index(rest, b.bits);
        assert forall|j: int|
            0 <= j < spec_first_match_index(t, b.bits) implies !spec_filter_matches(
            #[trigger] t[j],
            b.bits,
        ) by {
            if j > 0 {
                assert(rest[j - 1] == t[j]);
            }
        }
        if n < rest.len() {
            assert(rest[n] == t[n + 1]);
        }
    }
}

/// Decoding is a function of the table and the word alone: the same word
/// decoded against the same table always yields the same text.
pub proof fn lemma_decode_deterministic(t1: Seq<FilterSpec>, t2: Seq<FilterSpec>, b: InstructionBits)
    requires
        t1 == t2,
    ensures
        spec_decode(t1, b) == spec_decode(t2, b),
{
}

/// First-match precedence. Let filter A at index `i` over-constrain filter
/// B at a later index `j`: A's mask covers B's mask, and A's match value
/// agrees with B's on it. Then every word that A accepts, B accepts too, and
/// decoding such a word renders a filter no later than A — so B, the general
/// form, is never the one rendered.
pub proof fn lemma_first_match_precedence(t: Seq<FilterSpec>, i: int, j: int, b: InstructionBits)
    requires
        0 <= i < j < t.len(),
        t[j].mask & t[i].mask == t[j].mask,
        t[i].match_value & t[j].mask == t[j].match_value,
        spec_filter_matches(t[i], b.bits),
    ensures
        spec_filter_matches(t[j], b.bits),
        spec_first_match_index(t, b.bits) <= i,
        spec_decode(t, b) == Some(spec_render(t[spec_first_match_index(t, b.bits)], b)),
{
    let w = b.bits;
    let mi = t[i].mask;
    let vi = t[i].match_value;
    let mj = t[j].mask;
    let vj = t[j].match_value;
    assert(w & mj == vj) by (bit_vector)
        requires
            mj & mi == mj,
            vi & mj == vj,
            w & mi == vi,
    ;
    lemma_first_match_le(t, w, i);
    lemma_decode_characterization(t, b);
}

/// The first matching index never lies past a known matching index.
proof fn lemma_first_match_le(t: Seq<FilterSpec>, w: u32, i: int)
    requires
        0 <= i < t.len(),
        spec_filter_matches(t[i], w),
    ensures
        spec_first_match_index(t, w) <= i,
    decreases t.len(),
{
    if t.len() == 0 {
    } else if spec_filter_matches(t[0], w) {
    } else {
        assert(i != 0);
        assert(t.drop_first()[i - 1] == t[i]);
        lemma_first_match_le(t.drop_first(), w, i - 1);
    }
}

/// A disassembler: owns an ordered filter table and resolves instruction
/// words against it, first match wins.
pub struct Disassembler {
    instructions: Vec<InstructionFilter>,
}

impl View for Disassembler {
    type V = Seq<FilterSpec>;

    closed spec fn view(&self) -> Seq<FilterSpec> {
        self.instructions@.map_values(|f: InstructionFilter| f@)
    }
}

impl Disassembler {
    pub fn new(instructions: Vec<InstructionFilter>) -> (r: Self)
        ensures
            r@ == instructions@.map_values(|f: InstructionFilter| f@),
    {
        Self { instructions }
    }

    /// The first filter of the table that accepts `x`, if any.
    fn get_inst(&self, x: InstructionBits) -> (r: Option<&InstructionFilter>)
        ensures
            match r {
                Some(f) => spec_first_match_index(self@, x.bits) < self@.len() && f@ == self@[
                    spec_first_match_index(self@, x.bits)
                ],
                None => spec_first_match_index(self@, x.bits) == self@.len(),
            },
    {
        let mut idx: usize = 0;
        while idx < self.instructions.len()
            invariant
                idx <= self.instructions.len(),
                self@.len() == self.instructions@.len(),
                forall|j: int|
                    0 <= j < idx ==> !spec_filter_matches(#[trigger] self@[j], x.bits),
            decreases self.instructions.len() - idx,
        {
            let f = &self.instructions[idx];
            proof {
                assert(f@ == self@[idx as int]);
            }
            if f.is_eq(x) {
                proof {
                    lemma_decode_characterization(self@, x);
                    let n = spec_first_match_index(self@, x.bits);
                    if n < idx {
                        assert(spec_filter_matches(self@[n], x.bits));
                    }
                    lemma_first_match_le(self@, x.bits, idx as int);
                }
                return Some(f);
            }
            idx = idx + 1;
        }
        proof {
            lemma_decode_characterization(self@, x);
            let n = spec_first_match_index(self@, x.bits);
            if n < self@.len() {
                assert(spec_filter_matches(self@[n], x.bits));
            }
        }
        None
    }

    /// Decodes `x` against the table: the rendering of the first matching
    /// filter, or `None` when no filter matches.
    pub fn fmt_inst(&self, x: InstructionBits) -> (r: Option<String>)
        ensures
            match r {
                Some(s) => spec_decode(self@, x) == Some(s@),
                None => spec_decode(self@, x) is None,
            },
    {
        proof {
            lemma_decode_characterization(self@, x);
        }
        match self.get_inst(x) {
            Some(inst_filter) => Some(crate::instruction::render_filter(inst_filter, x)),
            None => None,
        }
    }
}

} // verus!
