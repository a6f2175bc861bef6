//! Request batching: partitioning the requested resources into
//! connection-groups according to the scenario profile.

use vstd::prelude::*;
use vstd::seq_lib::lemma_flatten_concat;

use crate::resource::{Resource, ResourceView};
use crate::scenario::{ConnectionGrouping, ScenarioProfile};

verus! {

/// An ordered, non-empty run of resources served over one transport
/// connection.
#[derive(Debug)]
pub struct ConnectionGroup {
    pub resources: Vec<Resource>,
}

impl View for ConnectionGroup {
    type V = Seq<ResourceView>;

    open spec fn view(&self) -> Seq<ResourceView> {
        self.resources@.map_values(|r: Resource| r@)
    }
}

/// The mathematical value of a sequence of groups.
pub open spec fn groups_view(gs: Seq<ConnectionGroup>) -> Seq<Seq<ResourceView>> {
    gs.map_values(|g: ConnectionGroup| g@)
}

/// How the resources left after any carve-out are grouped: all on one
/// connection, or one connection each, keeping input order.
pub open spec fn spec_group_rest(rs: Seq<ResourceView>, g: ConnectionGrouping) -> Seq<
    Seq<ResourceView>,
> {
    match g {
        ConnectionGrouping::SingleShared => if rs.len() == 0 {
            Seq::empty()
        } else {
            seq![rs]
        },
        ConnectionGrouping::PerRequest => Seq::new(rs.len(), |i: int| seq![rs[i]]),
    }
}

/// The groups a resource list is partitioned into under a profile: an empty
/// list yields no groups; with `first_request_separate` the first resource
/// is carved out into a singleton group placed before the rest; the rest
/// follow the profile's connection grouping.
pub open spec fn spec_partition(rs: Seq<ResourceView>, p: ScenarioProfile) -> Seq<
    Seq<ResourceView>,
> {
    if rs.len() == 0 {
        Seq::empty()
    } else if p.first_request_separate {
        seq![seq![rs[0]]] + spec_group_rest(rs.skip(1), p.connection_grouping)
    } else {
        spec_group_rest(rs, p.connection_grouping)
    }
}

/// Partitions the requested resources into connection-groups.  Order is
/// kept: the groups, read left to right, list the resources exactly as they
/// were requested.
pub fn partition(resources: Vec<Resource>, profile: &ScenarioProfile) -> (groups: Vec<
    ConnectionGroup,
>)
    ensures
        groups_view(groups@) == spec_partition(
            resources@.map_values(|r: Resource| r@),
            *profile,
        ),
{
    let ghost rsv = resources@.map_values(|r: Resource| r@);
    let mut groups: Vec<ConnectionGroup> = Vec::new();
    if resources.len() == 0 {
        proof {
            assert(groups_view(groups@) =~= spec_partition(rsv, *profile));
        }
        return groups;
    }
    let mut rest = resources;
    let ghost mut basev: Seq<Seq<ResourceView>> = Seq::empty();
    if profile.first_request_separate {
        let tail = rest.split_off(1);
        groups.push(ConnectionGroup { resources: rest });
        rest = tail;
        proof {
            basev = seq![seq![rsv[0]]];
            assert(rest@.map_values(|r: Resource| r@) =~= rsv.skip(1));
            assert(groups_view(groups@) =~~= basev);
        }
    }
    let ghost tailv = rest@.map_values(|r: Resource| r@);
    match profile.connection_grouping {
        ConnectionGrouping::SingleShared => {
            if rest.len() > 0 {
                groups.push(ConnectionGroup { resources: rest });
                proof {
                    assert(groups_view(groups@) =~~= basev + seq![tailv]);
                }
            }
        },
        ConnectionGrouping::PerRequest => {
            let mut k: usize = 0;
            while k < rest.len()
                invariant
                    k <= rest@.len(),
                    tailv == rest@.map_values(|r: Resource| r@),
                    groups_view(groups@) == basev + Seq::new(
                        k as nat,
                        (|j: int| seq![tailv[j]]),
                    ),
                decreases rest@.len() - k,
            {
                let mut single: Vec<Resource> = Vec::new();
                single.push(rest[k].clone());
                let g = ConnectionGroup { resources: single };
                proof {
                    assert(g@ =~= seq![tailv[k as int]]);
                }
                let ghost gprev = groups@;
                groups.push(g);
                proof {
                    assert(groups_view(groups@) =~= groups_view(gprev).push(g@));
                    assert(groups_view(groups@) =~~= basev + Seq::new(
                        (k + 1) as nat,
                        (|j: int| seq![tailv[j]]),
                    ));
                }
                k = k + 1;
            }
            proof {
                assert(Seq::new(k as nat, (|j: int| seq![tailv[j]])) =~~= spec_group_rest(
                    tailv,
                    ConnectionGrouping::PerRequest,
                ));
            }
        },
    }
    proof {
        assert(groups_view(groups@) =~~= spec_partition(rsv, *profile));
    }
    groups
}

/// Law: with a shared connection and no carve-out, every resource lands in
/// exactly one group, in the original order.
pub proof fn lemma_partition_single_shared(rs: Seq<ResourceView>, p: ScenarioProfile)
    requires
        rs.len() > 0,
        p.connection_grouping == ConnectionGrouping::SingleShared,
        !p.first_request_separate,
    ensures
        spec_partition(rs, p) == seq![rs],
{
}

/// Law: with per-request grouping and no carve-out, every resource gets a
/// singleton group of its own, in the original order.
pub proof fn lemma_partition_per_request(rs: Seq<ResourceView>, p: ScenarioProfile)
    requires
        rs.len() > 0,
        p.connection_grouping == ConnectionGrouping::PerRequest,
        !p.first_request_separate,
    ensures
        spec_partition(rs, p).len() == rs.len(),
        forall|i: int| 0 <= i < rs.len() ==> spec_partition(rs, p)[i] == seq![rs[i]],
{
}

/// Law: with the first request carved out, the first group is the singleton
/// holding exactly the first resource.
pub proof fn lemma_partition_first_separate(rs: Seq<ResourceView>, p: ScenarioProfile)
    requires
        rs.len() >= 1,
        p.first_request_separate,
    ensures
        spec_partition(rs, p).len() >= 1,
        spec_partition(rs, p)[0] == seq![rs[0]],
{
}

/// Flattening one singleton group per element gives back the elements.
proof fn lemma_flatten_singletons(rs: Seq<ResourceView>)
    ensures
        Seq::new(rs.len(), (|i: int| seq![rs[i]])).flatten() == rs,
    decreases rs.len(),
{
    broadcast use Seq::lemma_flatten_push;

    if rs.len() == 0 {
        assert(Seq::new(0, (|i: int| seq![rs[i]])).flatten() =~= rs);
    } else {
        let prev = rs.drop_last();
        lemma_flatten_singletons(prev);
        assert(Seq::new(prev.len(), (|i: int| seq![prev[i]])) =~= Seq::new(
            prev.len(),
            (|i: int| seq![rs[i]]),
        ));
        assert(Seq::new(rs.len(), (|i: int| seq![rs[i]])) =~= Seq::new(
            prev.len(),
            (|i: int| seq![rs[i]]),
        ).push(seq![rs.last()]));
        assert(prev.push(rs.last()) =~= rs);
    }
}

/// Flattening the rest-grouping gives back the rest.
proof fn lemma_group_rest_complete(rs: Seq<ResourceView>, g: ConnectionGrouping)
    ensures
        spec_group_rest(rs, g).flatten() == rs,
{
    match g {
        ConnectionGrouping::SingleShared => {
            if rs.len() == 0 {
                assert(spec_group_rest(rs, g).flatten() =~= rs);
            } else {
                seq![rs].lemma_flatten_one_element();
            }
        },
        ConnectionGrouping::PerRequest => {
            lemma_flatten_singletons(rs);
        },
    }
}

/// Law: the groups partition the request list with no omission, no overlap
/// and no reordering — flattening them gives back the requested resources
/// exactly.
pub proof fn lemma_partition_complete(rs: Seq<ResourceView>, p: ScenarioProfile)
    ensures
        spec_partition(rs, p).flatten() == rs,
{
    if rs.len() == 0 {
        assert(spec_partition(rs, p).flatten() =~= rs);
    } else if p.first_request_separate {
        let head = seq![seq![rs[0]]];
        let tail = spec_group_rest(rs.skip(1), p.connection_grouping);
        lemma_flatten_concat(head, tail);
        head.lemma_flatten_one_element();
        lemma_group_rest_complete(rs.skip(1), p.connection_grouping);
        assert(seq![rs[0]] + rs.skip(1) =~= rs);
    } else {
        lemma_group_rest_complete(rs, p.connection_grouping);
    }
}

/// Law: every group a partition yields is non-empty.
pub proof fn lemma_partition_groups_nonempty(rs: Seq<ResourceView>, p: ScenarioProfile)
    ensures
        forall|i: int|
            0 <= i < spec_partition(rs, p).len() ==> #[trigger] spec_partition(rs, p)[i].len()
                > 0,
{
}

} // verus!
