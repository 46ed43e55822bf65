use vstd::prelude::*;

verus! {

/// The tag endpoints: they have no settings.
#[derive(Debug, Clone, Default)]
pub struct TagService {}

pub fn new_factory() -> (r: TagService)
    ensures
        r == (TagService {}),
{
    TagService {}
}

} // verus!
