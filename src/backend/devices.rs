use vstd::prelude::*;

verus! {

/// `i` is the first position of `devices` (object path, type code) whose
/// type is `kind`.
pub open spec fn first_of_kind(devices: Seq<(String, u32)>, kind: u32, i: int) -> bool {
    &&& 0 <= i < devices.len()
    &&& devices[i].1 == kind
    &&& forall|j: int| 0 <= j < i ==> (#[trigger] devices[j]).1 != kind
}

/// The object path of the first device of type `kind`, if any.
pub fn first_of_type(devices: &Vec<(String, u32)>, kind: u32) -> (r: Option<String>)
    ensures
        match r {
            Some(p) => exists|i: int| first_of_kind(devices@, kind, i) && #[trigger] devices@[i].0 == p,
            None => forall|j: int| 0 <= j < devices.len() ==> (#[trigger] devices@[j]).1 != kind,
        },
{
    let mut i: usize = 0;
    while i < devices.len()
        invariant
            i <= devices.len(),
            forall|j: int| 0 <= j < i ==> (#[trigger] devices@[j]).1 != kind,
        decreases devices.len() - i,
    {
        if devices[i].1 == kind {
            let p = devices[i].0.clone();
            assert(first_of_kind(devices@, kind, i as int));
            return Some(p);
        }
        i += 1;
    }
    None
}

} // verus!
