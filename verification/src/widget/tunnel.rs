//! The tunnel list widget: keeps one entry per tunnel id, replacing an
//! existing entry when an update for the same id arrives.

use vstd::prelude::*;

use crate::errors::Error;
use crate::events::{Broadcast, Event, TunnelEntry};

verus! {

/// The set of live tunnels, at most one entry per id.
#[derive(PartialEq, Eq, Debug)]
pub struct Tunnel {
    pub items: Vec<TunnelEntry>,
}

impl View for Tunnel {
    type V = Seq<TunnelEntry>;

    open spec fn view(&self) -> Seq<TunnelEntry> {
        self.items@
    }
}

/// Well-formedness: ids are pairwise distinct.
pub open spec fn tunnel_wf(items: Seq<TunnelEntry>) -> bool {
    forall|i: int, j: int|
        0 <= i < j < items.len() ==> (#[trigger] items[i]).id != (#[trigger] items[j]).id
}

/// Whether some entry carries this id.
pub open spec fn has_id(items: Seq<TunnelEntry>, id: u64) -> bool {
    exists|i: int| 0 <= i < items.len() && (#[trigger] items[i]).id == id
}

/// The list after inserting an entry: replaces the entry with the same id
/// if there is one, and appends otherwise.
pub open spec fn upserted(items: Seq<TunnelEntry>, e: TunnelEntry) -> Seq<TunnelEntry> {
    if has_id(items, e.id) {
        items.map(|i: int, x: TunnelEntry| if x.id == e.id { e } else { x })
    } else {
        items.push(e)
    }
}

/// The list after dispatching one event.
pub open spec fn tunnel_next(items: Seq<TunnelEntry>, ev: Event) -> Seq<TunnelEntry> {
    match ev {
        Event::Tunnel(Ok(e)) => upserted(items, e),
        Event::Tunnel(Err(err)) => upserted(
            items,
            TunnelEntry { id: err.tunnel.id, failed: true },
        ),
        _ => items,
    }
}

/// The broadcast dispatching one event yields: a successful tunnel update
/// is consumed, everything else is ignored.
pub open spec fn tunnel_out(ev: Event) -> Broadcast {
    match ev {
        Event::Tunnel(Ok(_)) => Broadcast::Consumed,
        _ => Broadcast::Ignored,
    }
}

impl Default for Tunnel {
    fn default() -> (r: Self)
        ensures
            r@ == Seq::<TunnelEntry>::empty(),
    {
        Tunnel { items: Vec::new() }
    }
}

impl Tunnel {
    /// The number of rows the widget needs: one per entry plus a border
    /// above and below, saturating at the terminal-size maximum.
    pub fn height(&self) -> (r: u16)
        requires
            self@.len() <= 65535,
        ensures
            r as nat == if self@.len() + 2 <= 65535 {
                self@.len() + 2
            } else {
                65535nat
            },
    {
        let n = self.items.len() as u16;
        if n <= 65533 {
            n + 2
        } else {
            65535
        }
    }

    /// Record one entry, replacing any entry with the same id.
    fn upsert(&mut self, e: TunnelEntry)
        requires
            tunnel_wf(old(self)@),
        ensures
            tunnel_wf(final(self)@),
            final(self)@ == upserted(old(self)@, e),
    {
        let ghost orig = self@;
        let mut i: usize = 0;
        while i < self.items.len()
            invariant
                orig == old(self)@,
                self@ == orig,
                tunnel_wf(orig),
                i <= orig.len(),
                forall|k: int| 0 <= k < i ==> (#[trigger] orig[k]).id != e.id,
            decreases orig.len() - i,
        {
            if self.items[i].id == e.id {
                let ghost idx = i as int;
                self.items.set(i, e);
                proof {
                    assert(orig[idx].id == e.id);
                    assert(has_id(orig, e.id));
                    assert forall|k: int|
                        0 <= k < orig.len() implies self@[k] == upserted(orig, e)[k] by {
                        if k != idx {
                            assert(orig[k].id != orig[idx].id);
                        }
                    }
                    assert(self@ =~= upserted(orig, e));
                    assert forall|a: int, b: int|
                        0 <= a < b < self@.len() implies (#[trigger] self@[a]).id != (
                    #[trigger] self@[b]).id by {
                        assert(self@[a].id == orig[a].id);
                        assert(self@[b].id == orig[b].id);
                    }
                }
                return;
            }
            i = i + 1;
        }
        self.items.push(e);
        proof {
            assert(!has_id(orig, e.id));
            assert(self@ =~= upserted(orig, e));
            assert forall|a: int, b: int|
                0 <= a < b < self@.len() implies (#[trigger] self@[a]).id != (
            #[trigger] self@[b]).id by {
                if b == self@.len() - 1 {
                    assert(orig[a].id != e.id);
                }
            }
        }
    }

    /// Fold one event into the list: a tunnel update (successful or
    /// failed) is recorded under its id; other events are ignored.
    pub fn dispatch(&mut self, event: &Event) -> (r: Result<Broadcast, Error>)
        requires
            tunnel_wf(old(self)@),
        ensures
            tunnel_wf(final(self)@),
            final(self)@ == tunnel_next(old(self)@, *event),
            r == Ok::<Broadcast, Error>(tunnel_out(*event)),
    {
        match event {
            Event::Tunnel(Err(err)) => {
                let tun = err.into_error();
                self.upsert(tun);
                Ok(Broadcast::Ignored)
            },
            Event::Tunnel(Ok(ev)) => {
                self.upsert(*ev);
                Ok(Broadcast::Consumed)
            },
            _ => Ok(Broadcast::Ignored),
        }
    }
}

} // verus!
