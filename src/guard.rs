//! The rule that an operation never writes onto one of its inputs.
//!
//! Paths are compared in canonical form; the caller canonicalizes (falling back
//! to the path as given where that fails) and hands both forms in.
use vstd::prelude::*;
use crate::error::{InputProblem, OpError};

verus! {

/// Whether the canonical output equals one of the canonical inputs.
pub open spec fn collides(canon_inputs: Seq<String>, canon_output: Seq<char>) -> bool {
    exists|i: int| 0 <= i < canon_inputs.len() && #[trigger] canon_inputs[i]@ == canon_output
}

/// Rejects an output path that canonically equals the input path.
pub fn assert_output_not_same(input: &String, canon_input: &String, canon_output: &String) -> (r:
    Result<(), OpError>)
    ensures
        r is Ok <==> canon_input@ != canon_output@,
        r is Err ==> r == Err::<(), OpError>(
            OpError::InvalidInput(InputProblem::OutputIsInput { input: *input }),
        ),
{
    if *canon_input == *canon_output {
        Err(OpError::InvalidInput(InputProblem::OutputIsInput { input: input.clone() }))
    } else {
        Ok(())
    }
}

/// Rejects an output path that canonically equals any of the input paths; the
/// error names the first such input.
pub fn assert_output_not_in_inputs(
    inputs: &Vec<String>,
    canon_inputs: &Vec<String>,
    canon_output: &String,
) -> (r: Result<(), OpError>)
    requires
        inputs.len() == canon_inputs.len(),
    ensures
        r is Ok <==> !collides(canon_inputs@, canon_output@),
        r is Err ==> exists|i: int|
            0 <= i < inputs.len() && canon_inputs@[i]@ == canon_output@ && (forall|j: int|
                0 <= j < i ==> canon_inputs@[j]@ != canon_output@) && r == Err::<(), OpError>(
                OpError::InvalidInput(InputProblem::OutputIsInput { input: inputs@[i] }),
            ),
{
    let mut i: usize = 0;
    while i < canon_inputs.len()
        invariant
            inputs.len() == canon_inputs.len(),
            i <= canon_inputs.len(),
            forall|j: int| 0 <= j < i ==> canon_inputs@[j]@ != canon_output@,
        decreases canon_inputs.len() - i,
    {
        if canon_inputs[i] == *canon_output {
            let input = inputs[i].clone();
            return Err(OpError::InvalidInput(InputProblem::OutputIsInput { input }));
        }
        i = i + 1;
    }
    Ok(())
}

} // verus!
