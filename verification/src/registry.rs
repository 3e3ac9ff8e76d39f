//! Relay registry: the single shared mapping from channel identity to
//! the currently active outbound connection half for that channel.

use vstd::prelude::*;

verus! {

use std::collections::HashMap;

broadcast use vstd::std_specs::hash::group_hash_axioms;

/// The registry of active outbound write halves. It owns at most one
/// writer per channel; replacing one surrenders the old writer to the
/// caller so it can be shut down before anything else runs.
#[verifier::reject_recursive_types(W)]
pub struct RelayRegistry<W> {
    slots: HashMap<u64, W>,
}

impl<W> View for RelayRegistry<W> {
    type V = Map<u64, W>;

    closed spec fn view(&self) -> Map<u64, W> {
        self.slots@
    }
}

impl<W> RelayRegistry<W> {
    /// An empty registry: no channel has an active connection.
    pub fn new() -> (r: RelayRegistry<W>)
        ensures
            r@ == Map::<u64, W>::empty(),
    {
        RelayRegistry { slots: HashMap::new() }
    }

    /// Install `writer` as the one active write half for `channel`.
    /// Any previously installed writer is handed back so the caller can
    /// shut it down: once `install` returns, the registry no longer
    /// holds the old writer anywhere.
    pub fn install(&mut self, channel: u64, writer: W) -> (displaced: Option<W>)
        ensures
            final(self)@ == old(self)@.insert(channel, writer),
            old(self)@.contains_key(channel) ==> displaced == Some(old(self)@[channel]),
            !old(self)@.contains_key(channel) ==> displaced is None,
    {
        self.slots.insert(channel, writer)
    }

    /// Borrow the current writer for `channel`, or report that no
    /// connection is active, in which case the caller drops the
    /// outbound message silently.
    pub fn lookup_for_write(&self, channel: u64) -> (r: Option<&W>)
        ensures
            self@.contains_key(channel) ==> (r matches Some(w) && *w == self@[channel]),
            !self@.contains_key(channel) ==> r is None,
    {
        self.slots.get(&channel)
    }

    /// Drop the stored writer for `channel` without shutting it down,
    /// handing it back to the caller. Removing an absent channel is a
    /// no-op, not an error.
    pub fn remove(&mut self, channel: u64) -> (r: Option<W>)
        ensures
            final(self)@ == old(self)@.remove(channel),
            old(self)@.contains_key(channel) ==> r == Some(old(self)@[channel]),
            !old(self)@.contains_key(channel) ==> r is None && final(self)@ == old(self)@,
    {
        let r = self.slots.remove(&channel);
        proof {
            if !old(self)@.contains_key(channel) {
                assert(self@ =~= old(self)@);
            }
        }
        r
    }

    /// How many channels have an active connection.
    pub fn len(&self) -> (n: usize)
        ensures
            n == self@.dom().len(),
    {
        self.slots.len()
    }
}

/// Replacement is ordered: installing `a` and then `b` for the same
/// channel leaves exactly `b` installed, and the second install hands
/// back exactly `a` — the handle obtained before it is no longer held
/// by the registry once that install returns.
pub proof fn lemma_install_replaces<W>(m: Map<u64, W>, channel: u64, a: W, b: W)
    ensures
        m.insert(channel, a).contains_key(channel),
        m.insert(channel, a)[channel] == a,
        m.insert(channel, a).insert(channel, b) == m.insert(channel, b),
        m.insert(channel, a).insert(channel, b)[channel] == b,
{
    assert(m.insert(channel, a).insert(channel, b) =~= m.insert(channel, b));
}

} // verus!
