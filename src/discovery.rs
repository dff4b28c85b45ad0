use vstd::prelude::*;

verus! {

broadcast use vstd::std_specs::vec::vec_clone_deep_view_proof;

/// A change in what local discovery knows, with each peer given by the bytes of its id.
pub enum Discovery {
    /// These peers were found.
    Discovered(Vec<Vec<u8>>),
    /// A record of each of these peers expired. The flag tells whether discovery still
    /// reports the peer present through another record.
    Expired(Vec<(Vec<u8>, bool)>),
}

/// A change to the set of peers that broadcasts go to.
pub enum ViewChange {
    Add(Vec<u8>),
    Remove(Vec<u8>),
}

impl ViewChange {
    /// Whether the peer is added, and which peer.
    pub open spec fn view(self) -> (bool, Seq<u8>) {
        match self {
            ViewChange::Add(p) => (true, p@),
            ViewChange::Remove(p) => (false, p@),
        }
    }
}

/// An addition for each peer found, in order.
pub open spec fn additions(found: Seq<Vec<u8>>) -> Seq<(bool, Seq<u8>)> {
    Seq::new(found.len(), |i: int| (true, found[i]@))
}

/// A removal for each expired record whose peer discovery no longer reports, in order.
pub open spec fn removals(expired: Seq<(Vec<u8>, bool)>) -> Seq<(bool, Seq<u8>)>
    decreases expired.len(),
{
    if expired.len() == 0 {
        Seq::empty()
    } else {
        let rest = removals(expired.drop_last());
        if expired.last().1 {
            rest
        } else {
            rest.push((false, expired.last().0@))
        }
    }
}

/// The changes that a discovery event calls for.
pub open spec fn changes_spec(ev: Discovery) -> Seq<(bool, Seq<u8>)> {
    match ev {
        Discovery::Discovered(found) => additions(found@),
        Discovery::Expired(expired) => removals(expired@),
    }
}

fn copy_peer(p: &Vec<u8>) -> (r: Vec<u8>)
    ensures
        r@ == p@,
{
    let r = p.clone();
    assert(r.deep_view() =~= p.deep_view());
    assert(r@ =~= p@);
    r
}

/// The changes to the broadcast targets that a discovery event calls for: each found
/// peer is added; an expired peer is removed unless discovery still reports it.
pub fn view_changes(ev: &Discovery) -> (r: Vec<ViewChange>)
    ensures
        r@.map_values(|c: ViewChange| c.view()) == changes_spec(*ev),
{
    let mut out: Vec<ViewChange> = Vec::new();
    match ev {
        Discovery::Discovered(found) => {
            let mut i: usize = 0;
            while i < found.len()
                invariant
                    i <= found@.len(),
                    out@.map_values(|c: ViewChange| c.view()) =~= additions(found@).take(i as int),
                decreases found.len() - i,
            {
                let ghost before = out@;
                out.push(ViewChange::Add(copy_peer(&found[i])));
                assert(out@.map_values(|c: ViewChange| c.view()) =~= before.map_values(
                    |c: ViewChange| c.view(),
                ).push((true, found@[i as int]@)));
                i = i + 1;
            }
            assert(additions(found@).take(i as int) =~= additions(found@));
        },
        Discovery::Expired(expired) => {
            let mut i: usize = 0;
            while i < expired.len()
                invariant
                    i <= expired@.len(),
                    out@.map_values(|c: ViewChange| c.view()) =~= removals(expired@.take(i as int)),
                decreases expired.len() - i,
            {
                assert(expired@.take(i + 1).drop_last() =~= expired@.take(i as int));
                if !expired[i].1 {
                    out.push(ViewChange::Remove(copy_peer(&expired[i].0)));
                }
                i = i + 1;
            }
            assert(expired@.take(i as int) =~= expired@);
        },
    }
    out
}

/// A peer is removed only for an expired record of it that discovery no longer
/// reports: while every record of it is still reported, it stays a broadcast target.
pub proof fn lemma_reported_peer_kept(expired: Seq<(Vec<u8>, bool)>, peer: Seq<u8>)
    requires
        forall|j: int| 0 <= j < expired.len() && (#[trigger] expired[j]).0@ == peer ==> expired[j].1,
    ensures
        !removals(expired).contains((false, peer)),
    decreases expired.len(),
{
    if expired.len() > 0 {
        let init = expired.drop_last();
        assert forall|j: int| 0 <= j < init.len() && (#[trigger] init[j]).0@ == peer implies init[j].1 by {
            assert(init[j] == expired[j]);
        }
        lemma_reported_peer_kept(init, peer);
        if !expired.last().1 {
            assert(expired[expired.len() - 1] == expired.last());
            let rest = removals(init);
            assert forall|k: int| 0 <= k < rest.push((false, expired.last().0@)).len() implies
                rest.push((false, expired.last().0@))[k] != (false, peer) by {
                if k < rest.len() {
                    assert(rest.push((false, expired.last().0@))[k] == rest[k]);
                }
            }
        }
    }
}

} // verus!
