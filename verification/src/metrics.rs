use vstd::prelude::*;

verus! {

/// The label pair under which per-policy observability series are
/// reported: the instance's URL and the policy's name-or-index.
#[derive(Clone, Debug)]
pub struct Policy {
    pub transmission_url: String,
    pub policy: String,
}

impl Policy {
    pub fn new_for(transmission_url: &str, policy: &str) -> (r: Self)
        ensures
            r.transmission_url@ == transmission_url@,
            r.policy@ == policy@,
    {
        Policy { transmission_url: transmission_url.to_owned(), policy: policy.to_owned() }
    }
}

} // verus!
