//! What the caller of a capture decides before and after the session runs:
//! which output to capture, and under what name the image is handed on.

use vstd::prelude::*;

verus! {

/// A display that can be captured, as the compositor describes it.
#[derive(Debug)]
pub struct OutputInfo {
    /// The compositor's identifier of the output.
    pub id: u32,
    /// The name a user knows the output by, where the compositor gave one.
    pub name: Option<String>,
}

/// Whether `i` is the position of the first output with the given identifier.
pub open spec fn is_first_with_id(outputs: Seq<OutputInfo>, id: u32, i: int) -> bool {
    &&& 0 <= i < outputs.len()
    &&& outputs[i].id == id
    &&& forall|j: int| 0 <= j < i ==> (#[trigger] outputs[j]).id != id
}

/// Picks the output to capture: the one the caller asked for by identifier,
/// or the first in the list when the caller asked for none. Yields nothing
/// exactly when the list holds no such output.
pub fn select_output(outputs: &Vec<OutputInfo>, requested: Option<u32>) -> (r: Option<usize>)
    ensures
        requested.is_none() ==> r == (if outputs@.len() > 0 {
            Some(0usize)
        } else {
            None
        }),
        requested matches Some(id) ==> match r {
            Some(i) => is_first_with_id(outputs@, id, i as int),
            None => forall|j: int| 0 <= j < outputs@.len() ==> (#[trigger] outputs@[j]).id != id,
        },
{
    match requested {
        None => {
            if outputs.len() > 0 {
                Some(0)
            } else {
                None
            }
        },
        Some(id) => {
            let mut i: usize = 0;
            while i < outputs.len()
                invariant
                    requested == Some(id),
                    i <= outputs@.len(),
                    forall|j: int| 0 <= j < i ==> (#[trigger] outputs@[j]).id != id,
                decreases outputs@.len() - i,
            {
                if outputs[i].id == id {
                    return Some(i);
                }
                i += 1;
            }
            None
        },
    }
}

/// The name under which the image of an output is handed on: the output's
/// own name where it has one, else `output`.
pub open spec fn spec_sink_name(output: OutputInfo) -> Seq<char> {
    match output.name {
        Some(name) => name@,
        None => "output"@,
    }
}

/// The name under which the image of an output is handed on.
pub fn sink_name(output: &OutputInfo) -> (text: String)
    ensures
        text@ == spec_sink_name(*output),
{
    match &output.name {
        Some(name) => name.clone(),
        None => "output".to_owned(),
    }
}

} // verus!
