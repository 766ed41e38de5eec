use vstd::prelude::*;

verus! {

/// The place of the first network in a scan whose name is `target`, if any.
pub fn find_network(ssids: &Vec<String>, target: &String) -> (r: Option<usize>)
    ensures
        match r {
            Some(i) => {
                &&& i < ssids@.len()
                &&& ssids@[i as int]@ == target@
                &&& forall|j: int| 0 <= j < i ==> (#[trigger] ssids@[j])@ != target@
            },
            None => forall|j: int| 0 <= j < ssids@.len() ==> (#[trigger] ssids@[j])@ != target@,
        },
{
    let mut i: usize = 0;
    while i < ssids.len()
        invariant
            0 <= i <= ssids@.len(),
            forall|j: int| 0 <= j < i ==> (#[trigger] ssids@[j])@ != target@,
        decreases ssids@.len() - i,
    {
        if ssids[i].eq(target) {
            return Some(i);
        }
        i += 1;
    }
    None
}

} // verus!
