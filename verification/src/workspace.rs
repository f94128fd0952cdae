//! Workspace members and package-name resolution.

use vstd::prelude::*;

use crate::error::PackError;

verus! {

/// One package of a workspace: its name, where its manifest lives, and the
/// manifest's text as the external read collaborator supplied it.
#[derive(Debug, PartialEq)]
pub struct Member {
    /// The package's name, matched exactly during resolution.
    pub name: String,
    /// Where the member's manifest lives, as the host environment names it.
    pub manifest_path: String,
    /// The manifest's raw text.
    pub manifest_text: String,
}

/// A set of related packages sharing a root, with an optional ambient
/// default member.
#[derive(Debug, PartialEq)]
pub struct Workspace {
    /// The member packages.
    pub members: Vec<Member>,
    /// The index of the ambient default member, if the workspace has one.
    pub current: Option<usize>,
}

impl Workspace {
    /// A well-formed workspace's default member, when named, is one of its
    /// members.
    pub open spec fn wf(self) -> bool {
        self.current matches Some(i) ==> i < self.members@.len()
    }
}

/// How many members bear the name `name`.
pub open spec fn count_matches(members: Seq<Member>, name: Seq<char>) -> int
    decreases members.len(),
{
    if members.len() == 0 {
        0
    } else {
        (if members[0].name@ == name {
            1int
        } else {
            0int
        }) + count_matches(members.skip(1), name)
    }
}

/// The index of the first member bearing the name `name`.
pub open spec fn first_match(members: Seq<Member>, name: Seq<char>) -> int
    decreases members.len(),
{
    if members.len() == 0 {
        0
    } else if members[0].name@ == name {
        0
    } else {
        1 + first_match(members.skip(1), name)
    }
}

/// What resolution returns: without a requested name, the ambient default
/// member; with one, the sole member bearing it exactly, or the error naming
/// the zero-match or many-match failure.
pub open spec fn spec_resolve(
    members: Seq<Member>,
    name: Option<String>,
    current: Option<usize>,
) -> Result<int, PackError> {
    match name {
        Option::None => match current {
            Option::Some(i) => Ok(i as int),
            Option::None => Err(PackError::NoCurrentPackage),
        },
        Option::Some(n) => {
            if count_matches(members, n@) == 0 {
                Err(PackError::UnknownPackage(n))
            } else if count_matches(members, n@) == 1 {
                Ok(first_match(members, n@))
            } else {
                Err(PackError::AmbiguousPackage(n))
            }
        },
    }
}

/// An index that bears the name, with none earlier, is the first match.
proof fn lemma_first_match_at(members: Seq<Member>, name: Seq<char>, j: int)
    requires
        0 <= j < members.len(),
        members[j].name@ == name,
        forall|k: int| 0 <= k < j ==> members[k].name@ != name,
    ensures
        first_match(members, name) == j,
    decreases members.len(),
{
    if members[0].name@ == name {
    } else {
        let rest = members.skip(1);
        assert(rest[j - 1] == members[j]);
        assert(forall|k: int| 0 <= k < j - 1 ==> rest[k] == members[k + 1]);
        lemma_first_match_at(rest, name, j - 1);
    }
}

/// Resolve which member a pipeline run operates on.
///
/// Without a requested name this is the ambient default member, with no scan
/// of the member list; with one, the member list is filtered by exact,
/// case-sensitive equality, and exactly one match resolves.
pub fn resolve_member(
    members: &Vec<Member>,
    name: &Option<String>,
    current: &Option<usize>,
) -> (r: Result<usize, PackError>)
    requires
        (*current) matches Some(i) ==> i < members@.len(),
    ensures
        spec_resolve(members@, *name, *current) matches Ok(i) ==> r matches Ok(j) && j == i,
        spec_resolve(members@, *name, *current) matches Err(e) ==> r == Err::<usize, PackError>(e),
        r matches Ok(j) ==> j < members@.len(),
{
    match name {
        Option::None => match current {
            Option::Some(i) => Ok(*i),
            Option::None => Err(PackError::NoCurrentPackage),
        },
        Option::Some(n) => {
            let mut cnt: usize = 0;
            let mut first: usize = 0;
            let mut i: usize = 0;
            assert(members@.skip(0) =~= members@);
            while i < members.len()
                invariant
                    i <= members@.len(),
                    cnt <= i,
                    count_matches(members@, n@) == cnt + count_matches(
                        members@.skip(i as int),
                        n@,
                    ),
                    cnt == 0 ==> forall|k: int| 0 <= k < i ==> members@[k].name@ != n@,
                    cnt > 0 ==> first < i && members@[first as int].name@ == n@ && (forall|
                        k: int,
                    |
                        0 <= k < first ==> members@[k].name@ != n@),
                decreases members@.len() - i,
            {
                proof {
                    assert(members@.skip(i as int)[0] == members@[i as int]);
                    assert(members@.skip(i as int).skip(1) =~= members@.skip(i + 1));
                }
                if members[i].name == *n {
                    if cnt == 0 {
                        first = i;
                    }
                    cnt = cnt + 1;
                }
                i = i + 1;
            }
            proof {
                assert(members@.skip(i as int) =~= Seq::<Member>::empty());
            }
            if cnt == 0 {
                Err(PackError::UnknownPackage(n.clone()))
            } else if cnt == 1 {
                proof {
                    lemma_first_match_at(members@, n@, first as int);
                }
                Ok(first)
            } else {
                Err(PackError::AmbiguousPackage(n.clone()))
            }
        },
    }
}

} // verus!
