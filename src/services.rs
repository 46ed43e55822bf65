use vstd::prelude::*;

use crate::error::AppError;

pub mod article;
pub mod profile;
pub mod tag;
pub mod user;

verus! {

/// The groups of endpoints a server can offer.
#[derive(Debug, Clone, Copy, PartialEq, Eq, Structural)]
pub enum ServiceKind {
    User,
    Profile,
    Article,
    Tag,
}

/// The group of endpoints a name in the settings stands for.
pub open spec fn kind_named(name: Seq<char>) -> Option<ServiceKind> {
    if name == "User"@ {
        Some(ServiceKind::User)
    } else if name == "Profile"@ {
        Some(ServiceKind::Profile)
    } else if name == "Article"@ {
        Some(ServiceKind::Article)
    } else if name == "Tag"@ {
        Some(ServiceKind::Tag)
    } else {
        None
    }
}

impl ServiceKind {
    pub fn from_name(name: &str) -> (r: Option<ServiceKind>)
        ensures
            r == kind_named(name@),
    {
        let name = String::from_str(name);
        if name == String::from_str("User") {
            Some(ServiceKind::User)
        } else if name == String::from_str("Profile") {
            Some(ServiceKind::Profile)
        } else if name == String::from_str("Article") {
            Some(ServiceKind::Article)
        } else if name == String::from_str("Tag") {
            Some(ServiceKind::Tag)
        } else {
            None
        }
    }
}

/// Whether every name stands for a group and no group is named twice.
pub open spec fn names_ok(names: Seq<Seq<char>>) -> bool {
    &&& forall|i: int| 0 <= i < names.len() ==> #[trigger] kind_named(names[i]) is Some
    &&& forall|i: int, j: int| 0 <= i < j < names.len() ==> kind_named(names[i]) != kind_named(names[j])
}

/// The groups of endpoints that the settings list, in order.  A name that
/// stands for no group, or a group listed twice, is refused.
pub fn plan_services(names: &Vec<String>) -> (r: Result<Vec<ServiceKind>, AppError>)
    ensures
        r is Ok <==> names_ok(names@.map_values(|s: String| s@)),
        r is Ok ==> r->Ok_0@.len() == names@.len() && forall|i: int| 0 <= i < names@.len()
            ==> Some(#[trigger] r->Ok_0@[i]) == kind_named(names@[i]@),
        r is Err ==> r->Err_0 is BadConfig,
{
    let ghost views = names@.map_values(|s: String| s@);
    let mut kinds: Vec<ServiceKind> = Vec::new();
    let mut i: usize = 0;
    while i < names.len()
        invariant
            0 <= i <= names@.len(),
            views == names@.map_values(|s: String| s@),
            kinds@.len() == i,
            forall|k: int| 0 <= k < i ==> Some(#[trigger] kinds@[k]) == kind_named(names@[k]@),
            forall|a: int, b: int| 0 <= a < b < i ==> kinds@[a] != kinds@[b],
        decreases names@.len() - i,
    {
        let kind = match ServiceKind::from_name(names[i].as_str()) {
            Some(kind) => kind,
            None => {
                proof {
                    assert(kind_named(views[i as int]) is None);
                }
                return Err(AppError::BadConfig(String::from_str("unknown service")));
            },
        };
        let mut j: usize = 0;
        while j < kinds.len()
            invariant
                0 <= j <= kinds@.len(),
                kinds@.len() == i,
                i < names@.len(),
                views == names@.map_values(|s: String| s@),
                Some(kind) == kind_named(names@[i as int]@),
                forall|k: int| 0 <= k < i ==> Some(#[trigger] kinds@[k]) == kind_named(names@[k]@),
                forall|k: int| 0 <= k < j ==> kinds@[k] != kind,
            decreases kinds@.len() - j,
        {
            if kinds[j] == kind {
                proof {
                    assert(Some(kinds@[j as int]) == kind_named(names@[j as int]@));
                    assert(kind_named(views[j as int]) == kind_named(views[i as int]));
                }
                return Err(AppError::BadConfig(String::from_str("service listed twice")));
            }
            j += 1;
        }
        kinds.push(kind);
        i += 1;
    }
    proof {
        assert forall|a: int, b: int| 0 <= a < b < views.len() implies kind_named(views[a]) != kind_named(
            views[b],
        ) by {
            assert(Some(kinds@[a]) == kind_named(views[a]));
            assert(Some(kinds@[b]) == kind_named(views[b]));
        }
        assert forall|a: int| 0 <= a < views.len() implies #[trigger] kind_named(views[a]) is Some by {
            assert(Some(kinds@[a]) == kind_named(views[a]));
        }
    }
    Ok(kinds)
}

} // verus!
