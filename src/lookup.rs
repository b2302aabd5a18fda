//! Finding the trace buffer among the debug components a target reports.
use vstd::prelude::*;

verus! {

/// What identifies a debug component's kind: its designer's JEP106 code
/// (continuation count and identity code) and its part number.
#[derive(Clone, Copy, PartialEq, Eq, Structural, Debug)]
pub struct PartId {
    pub jep106_cc: u8,
    pub jep106_id: u8,
    pub part: u16,
}

/// No component with the identifiers looked for was among those given.
#[derive(Clone, Copy, PartialEq, Eq, Debug)]
pub struct ComponentNotFound;

/// The index of the first component in `ids` identified by `wanted`.
pub fn find_component(ids: &Vec<PartId>, wanted: PartId) -> (r: Result<usize, ComponentNotFound>)
    ensures
        r matches Ok(i) ==> i < ids.len() && ids@[i as int] == wanted
            && forall|j: int| 0 <= j < i ==> ids@[j] != wanted,
        r is Err <==> forall|j: int| 0 <= j < ids.len() ==> ids@[j] != wanted,
{
    let mut i: usize = 0;
    while i < ids.len()
        invariant
            i <= ids.len(),
            forall|j: int| 0 <= j < i ==> ids@[j] != wanted,
        decreases ids.len() - i,
    {
        if ids[i] == wanted {
            return Ok(i);
        }
        i = i + 1;
    }
    Err(ComponentNotFound)
}

} // verus!
