use vstd::prelude::*;

verus! {

/// The profile endpoints: they have no settings.
#[derive(Debug, Clone, Default)]
pub struct ProfileService {}

pub fn new_factory() -> (r: ProfileService)
    ensures
        r == (ProfileService {}),
{
    ProfileService {}
}

} // verus!
