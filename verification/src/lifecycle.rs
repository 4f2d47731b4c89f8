//! The interest-group (channel) lifecycle: absent, then active, then
//! absent again.
//!
//! Creating a group announces it together with the eviction payload
//! proxies replay to stale subscribers; destroying it retires the id
//! cluster-wide. Position changes are batched: one tick's moves become at
//! most one position-update message covering every group that moved, so
//! proxy-bound message volume stays sub-linear in group count under
//! steady churn.

use vstd::prelude::*;

use crate::buffer::OutgoingMessageBuffer;
use crate::identity::{ChannelId, ChunkPosition};
use crate::intermediate::{
    AddChannel, IntermediateMsgView, IntermediateServerToProxyMessage, RemoveChannel,
    UpdateChannelPosition, UpdateChannelPositions,
};

verus! {

/// The position recorded for one channel id in a list of entries, if any;
/// later entries win.
pub open spec fn position_lookup(s: Seq<UpdateChannelPosition>, id: u32) -> Option<ChunkPosition>
    decreases s.len(),
{
    if s.len() == 0 {
        None
    } else if s.last().channel_id == id {
        Some(s.last().position)
    } else {
        position_lookup(s.drop_last(), id)
    }
}

/// No channel id occurs twice in the entries.
pub open spec fn distinct_keys(s: Seq<UpdateChannelPosition>) -> bool {
    forall|a: int, b: int| 0 <= a < b < s.len() ==> s[a].channel_id != s[b].channel_id
}

/// The entries of `current` whose position differs from what `stored`
/// records for their channel (including channels `stored` does not know),
/// in their original order.
pub open spec fn changed_updates(
    stored: Seq<UpdateChannelPosition>,
    current: Seq<UpdateChannelPosition>,
) -> Seq<UpdateChannelPosition>
    decreases current.len(),
{
    if current.len() == 0 {
        Seq::empty()
    } else {
        let rest = changed_updates(stored, current.drop_last());
        let e = current.last();
        if position_lookup(stored, e.channel_id) == Some(e.position) {
            rest
        } else {
            rest.push(e)
        }
    }
}

/// A position is recorded for an id exactly when some entry carries that
/// id.
pub proof fn lemma_lookup_some(s: Seq<UpdateChannelPosition>, id: u32)
    ensures
        position_lookup(s, id) is Some <==> exists|k: int|
            0 <= k < s.len() && (#[trigger] s[k]).channel_id == id,
    decreases s.len(),
{
    if s.len() > 0 {
        lemma_lookup_some(s.drop_last(), id);
        if s.last().channel_id == id {
            assert(s[s.len() - 1].channel_id == id);
        } else if exists|k: int| 0 <= k < s.len() && (#[trigger] s[k]).channel_id == id {
            let k = choose|k: int| 0 <= k < s.len() && (#[trigger] s[k]).channel_id == id;
            assert(s.drop_last()[k] == s[k]);
        }
    }
}

/// Tracks which interest groups are active and the last position each
/// was reported at, and turns lifecycle events into intermediate
/// messages.
#[derive(Debug)]
pub struct GroupLifecycle {
    active: Vec<u32>,
    positions: Vec<UpdateChannelPosition>,
}

impl GroupLifecycle {
    /// The ids of the currently active groups, in creation order.
    pub closed spec fn active_groups(&self) -> Seq<u32> {
        self.active@
    }

    /// The recorded last-reported positions.
    pub closed spec fn stored_positions(&self) -> Seq<UpdateChannelPosition> {
        self.positions@
    }

    /// The last position reported for one group, if any was.
    pub open spec fn stored_position(&self, id: u32) -> Option<ChunkPosition> {
        position_lookup(self.stored_positions(), id)
    }

    /// Active ids are unique, and so are the recorded position keys.
    pub closed spec fn wf(&self) -> bool {
        &&& forall|a: int, b: int|
            0 <= a < b < self.active@.len() ==> self.active@[a] != self.active@[b]
        &&& distinct_keys(self.positions@)
    }

    /// Creates a tracker with no groups.
    pub fn new() -> (r: Self)
        ensures
            r.wf(),
            r.active_groups() == Seq::<u32>::empty(),
            r.stored_positions() == Seq::<UpdateChannelPosition>::empty(),
    {
        Self { active: Vec::new(), positions: Vec::new() }
    }

    /// Whether a group is currently active.
    pub fn is_active(&self, group_id: ChannelId) -> (r: bool)
        ensures
            r == self.active_groups().contains(group_id.channel_id),
    {
        let mut i: usize = 0;
        while i < self.active.len()
            invariant
                i <= self.active@.len(),
                forall|k: int| 0 <= k < i ==> self.active@[k] != group_id.channel_id,
            decreases self.active@.len() - i,
        {
            if self.active[i] == group_id.channel_id {
                assert(self.active@[i as int] == group_id.channel_id);
                return true;
            }
            i = i + 1;
        }
        false
    }

    /// Brings a group from absent to active: announces it with the
    /// eviction payload proxies will replay to clients that unsubscribe.
    pub fn add_group(
        &mut self,
        buf: &mut OutgoingMessageBuffer,
        group_id: ChannelId,
        unsubscribe_packets: Vec<u8>,
    )
        requires
            old(self).wf(),
            !old(self).active_groups().contains(group_id.channel_id),
        ensures
            final(self).wf(),
            final(self).active_groups() == old(self).active_groups().push(group_id.channel_id),
            final(self).stored_positions() == old(self).stored_positions(),
            final(buf)@ == old(buf)@.push(
                IntermediateMsgView::AddChannel {
                    channel_id: group_id.channel_id,
                    unsubscribe_packets: unsubscribe_packets@,
                },
            ),
    {
        let ghost prior = self.active@;
        self.active.push(group_id.channel_id);
        proof {
            assert forall|a: int, b: int|
                0 <= a < b < self.active@.len() implies self.active@[a] != self.active@[b] by {
                if b < self.active@.len() - 1 {
                    assert(prior[a] != prior[b]);
                } else {
                    assert(self.active@[a] == prior[a]);
                    if self.active@[a] == group_id.channel_id {
                        assert(prior.contains(group_id.channel_id));
                    }
                }
            }
        }
        buf.enqueue(
            IntermediateServerToProxyMessage::AddChannel(
                AddChannel { channel_id: group_id.channel_id, unsubscribe_packets },
            ),
        );
    }

    /// Brings a group from active back to absent: retires the id
    /// cluster-wide and forgets its recorded position.
    pub fn remove_group(&mut self, buf: &mut OutgoingMessageBuffer, group_id: ChannelId)
        requires
            old(self).wf(),
            old(self).active_groups().contains(group_id.channel_id),
        ensures
            final(self).wf(),
            final(self).active_groups() == old(self).active_groups().remove(
                old(self).active_groups().index_of(group_id.channel_id),
            ),
            !final(self).active_groups().contains(group_id.channel_id),
            forall|x: u32|
                final(self).stored_position(x) == if x == group_id.channel_id {
                    None::<ChunkPosition>
                } else {
                    old(self).stored_position(x)
                },
            final(buf)@ == old(buf)@.push(
                IntermediateMsgView::RemoveChannel { channel_id: group_id.channel_id },
            ),
    {
        self.remove_active(group_id.channel_id);
        self.remove_position(group_id.channel_id);
        buf.enqueue(
            IntermediateServerToProxyMessage::RemoveChannel(
                RemoveChannel { channel_id: group_id.channel_id },
            ),
        );
    }

    /// Reports the current position of every group; if at least one
    /// moved since it was last reported, emits exactly one batched
    /// position-update message covering exactly the groups that moved.
    pub fn update_group_positions(
        &mut self,
        buf: &mut OutgoingMessageBuffer,
        current: &Vec<UpdateChannelPosition>,
    )
        requires
            old(self).wf(),
            distinct_keys(current@),
        ensures
            final(self).wf(),
            final(self).active_groups() == old(self).active_groups(),
            forall|x: u32|
                final(self).stored_position(x) == match position_lookup(current@, x) {
                    Some(p) => Some(p),
                    None => old(self).stored_position(x),
                },
            final(buf)@ == if changed_updates(old(self).stored_positions(), current@).len() == 0 {
                old(buf)@
            } else {
                old(buf)@.push(
                    IntermediateMsgView::UpdateChannelPositions {
                        updates: changed_updates(old(self).stored_positions(), current@),
                    },
                )
            },
    {
        let ghost stored0 = self.positions@;

        let mut changed: Vec<UpdateChannelPosition> = Vec::new();
        let mut i: usize = 0;
        while i < current.len()
            invariant
                i <= current@.len(),
                self.positions@ == stored0,
                changed@ == changed_updates(stored0, current@.take(i as int)),
            decreases current@.len() - i,
        {
            let e = current[i];
            let previous = self.find_position(e.channel_id);
            let moved = match previous {
                Some(p) => !(p == e.position),
                None => true,
            };
            if moved {
                changed.push(e);
            }
            i = i + 1;
            proof {
                let taken = current@.take(i as int);
                assert(taken.drop_last() =~= current@.take(i - 1));
                assert(taken.last() == current@[i - 1]);
            }
        }
        proof {
            assert(current@.take(current@.len() as int) =~= current@);
        }

        let mut j: usize = 0;
        while j < current.len()
            invariant
                j <= current@.len(),
                self.wf(),
                self.active@ == old(self).active@,
                forall|x: u32|
                    position_lookup(self.positions@, x) == match position_lookup(
                        current@.take(j as int),
                        x,
                    ) {
                        Some(p) => Some(p),
                        None => position_lookup(stored0, x),
                    },
            decreases current@.len() - j,
        {
            let e = current[j];
            self.set_position(e);
            j = j + 1;
            proof {
                let taken = current@.take(j as int);
                assert(taken.drop_last() =~= current@.take(j - 1));
                assert(taken.last() == current@[j - 1]);
            }
        }
        proof {
            assert(current@.take(current@.len() as int) =~= current@);
        }

        if changed.len() > 0 {
            buf.enqueue(
                IntermediateServerToProxyMessage::UpdateChannelPositions(
                    UpdateChannelPositions { updates: changed },
                ),
            );
        }
    }

    /// The recorded position of one group, if any.
    fn find_position(&self, id: u32) -> (r: Option<ChunkPosition>)
        ensures
            r == position_lookup(self.positions@, id),
    {
        let ghost s = self.positions@;
        proof {
            assert(s.take(s.len() as int) =~= s);
        }
        let mut i: usize = self.positions.len();
        while i > 0
            invariant
                i <= s.len(),
                self.positions@ == s,
                position_lookup(s, id) == position_lookup(s.take(i as int), id),
            decreases i,
        {
            i = i - 1;
            proof {
                let taken = s.take(i + 1);
                assert(taken.drop_last() =~= s.take(i as int));
                assert(taken.last() == s[i as int]);
            }
            if self.positions[i].channel_id == id {
                return Some(self.positions[i].position);
            }
        }
        proof {
            assert(s.take(0) =~= Seq::<UpdateChannelPosition>::empty());
        }
        None
    }

    /// Drops a group id from the active list, keeping the rest in order.
    fn remove_active(&mut self, id: u32)
        requires
            old(self).wf(),
            old(self).active@.contains(id),
        ensures
            final(self).wf(),
            final(self).active@ == old(self).active@.remove(old(self).active@.index_of(id)),
            !final(self).active@.contains(id),
            final(self).positions@ == old(self).positions@,
    {
        let ghost prior = self.active@;
        let mut i: usize = 0;
        while i < self.active.len()
            invariant
                i <= self.active@.len(),
                self.active@ == prior,
                self.positions@ == old(self).positions@,
                prior == old(self).active@,
                self.wf(),
                forall|a: int, b: int| 0 <= a < b < prior.len() ==> prior[a] != prior[b],
                prior.contains(id),
                forall|k: int| 0 <= k < i ==> self.active@[k] != id,
            decreases self.active@.len() - i,
        {
            if self.active[i] == id {
                assert(prior[i as int] == id);
                proof {
                    assert forall|m: int| 0 <= m < prior.len() && m != i implies #[trigger] prior[m]
                        != id by {
                        if m < i {
                            assert(prior[m] != prior[i as int]);
                        } else {
                            assert(prior[i as int] != prior[m]);
                        }
                    }
                    assert(exists|j: int| 0 <= j < prior.len() && prior[j] == id);
                    let k = prior.index_of(id);
                    assert(0 <= k < prior.len() && prior[k] == id);
                    assert(k == i);
                }
                self.active.remove(i);
                proof {
                    prior.remove_ensures(i as int);
                    let cleaned = prior.remove(i as int);
                    assert forall|k: int| 0 <= k < cleaned.len() implies #[trigger] cleaned[k]
                        != id by {
                        if k < i {
                            assert(cleaned[k] == prior[k]);
                        } else {
                            assert(cleaned[k] == prior[k + 1]);
                        }
                    }
                    assert forall|a: int, b: int|
                        0 <= a < b < cleaned.len() implies cleaned[a] != cleaned[b] by {
                        let a0: int = if a < i {
                            a
                        } else {
                            a + 1
                        };
                        let b0: int = if b < i {
                            b
                        } else {
                            b + 1
                        };
                        assert(cleaned[a] == prior[a0]);
                        assert(cleaned[b] == prior[b0]);
                    }
                }
                return ;
            }
            i = i + 1;
        }
        proof {
            let w = prior.index_of(id);
            assert(0 <= w < prior.len() && prior[w] == id);
        }
    }

    /// Forgets the recorded position of one group, keeping every other
    /// recording.
    fn remove_position(&mut self, id: u32)
        requires
            old(self).wf(),
        ensures
            final(self).wf(),
            final(self).active@ == old(self).active@,
            forall|x: u32|
                position_lookup(final(self).positions@, x) == if x == id {
                    None::<ChunkPosition>
                } else {
                    position_lookup(old(self).positions@, x)
                },
            forall|k: int|
                0 <= k < final(self).positions@.len()
                    ==> (#[trigger] final(self).positions@[k]).channel_id != id,
    {
        let ghost s = self.positions@;
        let mut out: Vec<UpdateChannelPosition> = Vec::new();
        let mut i: usize = 0;
        while i < self.positions.len()
            invariant
                i <= s.len(),
                self.positions@ == s,
                distinct_keys(s),
                forall|k: int| 0 <= k < out@.len() ==> (#[trigger] out@[k]).channel_id != id,
                distinct_keys(out@),
                forall|x: u32|
                    position_lookup(out@, x) == if x == id {
                        None::<ChunkPosition>
                    } else {
                        position_lookup(s.take(i as int), x)
                    },
            decreases s.len() - i,
        {
            let e = self.positions[i];
            let ghost out_before = out@;
            if e.channel_id != id {
                proof {
                    lemma_lookup_some(out@, e.channel_id);
                    if position_lookup(out@, e.channel_id) is Some {
                        let k = choose|k: int|
                            0 <= k < out@.len() && (#[trigger] out@[k]).channel_id
                                == e.channel_id;
                        lemma_lookup_some(s.take(i as int), e.channel_id);
                        let m = choose|m: int|
                            0 <= m < i && (#[trigger] s.take(i as int)[m]).channel_id
                                == e.channel_id;
                        assert(s[m].channel_id == s[i as int].channel_id);
                    }
                }
                let ghost before = out@;
                out.push(e);
                proof {
                    assert forall|a: int, b: int|
                        0 <= a < b < out@.len() implies out@[a].channel_id
                        != out@[b].channel_id by {
                        if b < out@.len() - 1 {
                            assert(before[a].channel_id != before[b].channel_id);
                        } else {
                            assert(out@[a] == before[a]);
                            assert(position_lookup(before, e.channel_id) is None);
                            lemma_lookup_some(before, e.channel_id);
                        }
                    }
                }
            }
            i = i + 1;
            proof {
                let taken = s.take(i as int);
                assert(taken.drop_last() =~= s.take(i - 1));
                assert(taken.last() == s[i - 1]);
                if e.channel_id != id {
                    assert(out@.drop_last() =~= out_before);
                    assert(out@.last() == e);
                }
                assert forall|x: u32|
                    position_lookup(out@, x) == (if x == id {
                        None::<ChunkPosition>
                    } else {
                        position_lookup(taken, x)
                    }) by {
                    if e.channel_id != id && x != e.channel_id {
                        assert(position_lookup(out@, x) == position_lookup(out@.drop_last(), x));
                    }
                }
            }
        }
        proof {
            assert(s.take(s.len() as int) =~= s);
        }
        self.positions = out;
    }

    /// Records the position of one group, replacing any earlier
    /// recording.
    fn set_position(&mut self, e: UpdateChannelPosition)
        requires
            old(self).wf(),
        ensures
            final(self).wf(),
            final(self).active@ == old(self).active@,
            forall|x: u32|
                position_lookup(final(self).positions@, x) == if x == e.channel_id {
                    Some(e.position)
                } else {
                    position_lookup(old(self).positions@, x)
                },
    {
        self.remove_position(e.channel_id);
        let ghost mid = self.positions@;
        self.positions.push(e);
        proof {
            let now = self.positions@;
            assert(now.drop_last() =~= mid);
            assert(now.last() == e);
            assert forall|a: int, b: int|
                0 <= a < b < now.len() implies now[a].channel_id != now[b].channel_id by {
                if b < now.len() - 1 {
                    assert(mid[a].channel_id != mid[b].channel_id);
                } else {
                    assert(now[a] == mid[a]);
                }
            }
            assert forall|x: u32|
                position_lookup(now, x) == (if x == e.channel_id {
                    Some(e.position)
                } else {
                    position_lookup(old(self).positions@, x)
                }) by {
                if x != e.channel_id {
                    assert(position_lookup(now, x) == position_lookup(now.drop_last(), x));
                }
            }
        }
    }
}

} // verus!
