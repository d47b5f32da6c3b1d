//! Permissions and their resolution through group membership.
use vstd::prelude::*;

verus! {

/// A capability that groups grant to their members. There is no hierarchy: holding a
/// permission is the only thing that counts.
#[derive(Clone, Copy, Debug, PartialEq, Eq, Hash, Structural)]
pub enum Permission {
    AddRole,
    RemoveRole,
    AddPokedexToOtherProfiles,
    RemovePokedexFromOtherProfiles,
}

/// The permissions granted by a list of grants (one per group membership and group
/// permission), duplicates folded.
pub open spec fn granted(grants: Seq<Permission>) -> Set<Permission> {
    grants.to_set()
}

/// A set of permissions, each held once.
pub struct PermissionSet {
    members: Vec<Permission>,
}

impl View for PermissionSet {
    type V = Set<Permission>;

    closed spec fn view(&self) -> Set<Permission> {
        self.members@.to_set()
    }
}

impl PermissionSet {
    /// Each permission is held once.
    pub closed spec fn wf(&self) -> bool {
        self.members@.no_duplicates()
    }

    /// The set without permissions.
    pub fn new() -> (r: Self)
        ensures
            r.wf(),
            r@ == Set::<Permission>::empty(),
    {
        let r = PermissionSet { members: Vec::new() };
        assert(r@ =~= Set::<Permission>::empty());
        r
    }

    /// Whether `p` is in the set.
    pub fn contains(&self, p: Permission) -> (r: bool)
        ensures
            r == self@.contains(p),
    {
        let mut i: usize = 0;
        while i < self.members.len()
            invariant
                i <= self.members@.len(),
                forall|j: int| 0 <= j < i ==> self.members@[j] != p,
            decreases self.members@.len() - i,
        {
            if self.members[i] == p {
                return true;
            }
            i = i + 1;
        }
        false
    }

    /// Adds `p`; a permission already held is not added twice.
    pub fn insert(&mut self, p: Permission)
        requires
            old(self).wf(),
        ensures
            final(self).wf(),
            final(self)@ == old(self)@.insert(p),
    {
        if !self.contains(p) {
            proof {
                self.members@.lemma_push_to_set_commute(p);
            }
            self.members.push(p);
        } else {
            assert(self@ =~= self@.insert(p));
        }
    }

    /// The number of permissions held.
    pub fn len(&self) -> (r: usize)
        requires
            self.wf(),
        ensures
            r == self@.len(),
    {
        proof {
            self.members@.unique_seq_to_set();
        }
        self.members.len()
    }

    /// The permissions held, each once.
    pub fn to_vec(&self) -> (r: Vec<Permission>)
        requires
            self.wf(),
        ensures
            r@.no_duplicates(),
            r@.to_set() == self@,
    {
        self.members.clone()
    }
}

/// Resolves the permission set of an account from the grants that its groups give it:
/// the union over its groups, each permission once. No grants give the empty set.
pub fn get_group_permissions(grants: &Vec<Permission>) -> (r: PermissionSet)
    ensures
        r.wf(),
        r@ == granted(grants@),
{
    let mut set = PermissionSet::new();
    let mut i: usize = 0;
    while i < grants.len()
        invariant
            i <= grants@.len(),
            set.wf(),
            set@ == grants@.subrange(0, i as int).to_set(),
        decreases grants@.len() - i,
    {
        proof {
            grants@.subrange(0, i as int).lemma_push_to_set_commute(grants@[i as int]);
            assert(grants@.subrange(0, i as int).push(grants@[i as int]) == grants@.subrange(
                0,
                i + 1,
            ));
        }
        set.insert(grants[i]);
        i = i + 1;
    }
    assert(grants@.subrange(0, grants@.len() as int) == grants@);
    set
}

/// Whether the grants of an account give it `p`, without building the whole set.
pub fn has_perm(grants: &Vec<Permission>, p: Permission) -> (r: bool)
    ensures
        r == grants@.contains(p),
{
    let mut i: usize = 0;
    while i < grants.len()
        invariant
            i <= grants@.len(),
            forall|j: int| 0 <= j < i ==> grants@[j] != p,
        decreases grants@.len() - i,
    {
        if grants[i] == p {
            return true;
        }
        i = i + 1;
    }
    false
}

/// An account in no group holds no permission.
pub proof fn lemma_no_groups_no_permissions()
    ensures
        granted(Seq::<Permission>::empty()) == Set::<Permission>::empty(),
{
    assert(granted(Seq::<Permission>::empty()) =~= Set::<Permission>::empty());
}

/// The permissions of an account in two groups are the union of what each group grants;
/// a permission that both grant is held once.
pub proof fn lemma_two_groups_union(first: Seq<Permission>, second: Seq<Permission>)
    ensures
        granted(first + second) == granted(first).union(granted(second)),
{
    assert forall|p: Permission| #[trigger] (first + second).contains(p) <==> (first.contains(p)
        || second.contains(p)) by {
        if first.contains(p) {
            let j = choose|j: int| 0 <= j < first.len() && first[j] == p;
            assert((first + second)[j] == p);
        }
        if second.contains(p) {
            let j = choose|j: int| 0 <= j < second.len() && second[j] == p;
            assert((first + second)[first.len() + j] == p);
        }
    }
    assert(granted(first + second) =~= granted(first).union(granted(second)));
}

/// `has_perm` answers exactly the membership test on the resolved permission set.
pub proof fn lemma_has_perm_is_membership(grants: Seq<Permission>, p: Permission)
    ensures
        grants.contains(p) == granted(grants).contains(p),
{
}

} // verus!
