//! One direction of the relay: a state machine that alternates reading a
//! chunk from its source with writing that chunk — and only that chunk —
//! to its sink, flushed at once. Two independent instances, one per
//! direction, share nothing; each closes on its own when its source ends
//! or its sink stops accepting bytes.
//!
//! A pump can start with a preface: the leftover bytes a successful
//! handshake captured past the header block. Those are written before
//! anything is read, so the sink sees them ahead of every relayed byte.

use vstd::prelude::*;

verus! {

/// The per-direction transfer unit: a read never asks for more than this
/// many bytes at once.
pub const RELAY_CHUNK: usize = 4096;

enum PumpPhase {
    Idle,
    Sending,
    Closed,
}

/// What the pump asks its driver to do next: read up to [`RELAY_CHUNK`]
/// bytes from the source and report them with [`Pump::took`]; write the
/// given bytes to the sink, flush, and report with [`Pump::wrote`]; or
/// stop, this direction being over.
pub enum PumpAction {
    Read,
    Write(Vec<u8>),
    Stop,
}

/// One direction's relay state. `preface` is what must reach the sink
/// before any relayed byte; `taken` the bytes read from the source so
/// far; `delivered` the bytes written and flushed to the sink so far.
pub struct Pump {
    phase: PumpPhase,
    clean: bool,
    preface: Ghost<Seq<u8>>,
    taken: Ghost<Seq<u8>>,
    delivered: Ghost<Seq<u8>>,
    pending: Ghost<Seq<u8>>,
}

impl Pump {
    /// The bytes this pump was started with, owed to the sink first.
    pub closed spec fn preface_bytes(self) -> Seq<u8> {
        self.preface@
    }

    /// The bytes read from the source so far.
    pub closed spec fn source_bytes(self) -> Seq<u8> {
        self.taken@
    }

    /// The bytes written and flushed to the sink so far.
    pub closed spec fn sink_bytes(self) -> Seq<u8> {
        self.delivered@
    }

    /// The bytes handed out for writing and not yet confirmed.
    pub closed spec fn pending_bytes(self) -> Seq<u8> {
        self.pending@
    }

    /// The pump waits for a read of its source.
    pub closed spec fn ready_to_read(self) -> bool {
        self.phase is Idle
    }

    /// The pump waits for a write of [`Pump::pending_bytes`] to its sink.
    pub closed spec fn awaiting_write(self) -> bool {
        self.phase is Sending
    }

    /// This direction is over.
    pub closed spec fn is_closed(self) -> bool {
        self.phase is Closed
    }

    /// The direction ended by end-of-stream on the source, every byte
    /// read having been delivered — not by a sink that stopped accepting.
    pub closed spec fn closed_clean(self) -> bool {
        self.phase is Closed && self.clean
    }

    /// Every byte that reached the sink is accounted for, in order: the
    /// sink holds a prefix of the preface followed by the source bytes,
    /// and exactly that once a pending write is confirmed or the source
    /// ends.
    pub closed spec fn wf(self) -> bool {
        &&& (self.phase is Idle ==> self.delivered@ == self.preface@ + self.taken@
            && self.pending@ == Seq::<u8>::empty())
        &&& (self.phase is Sending ==> self.delivered@ + self.pending@ == self.preface@
            + self.taken@ && self.pending@.len() > 0)
        &&& (self.closed_clean() ==> self.delivered@ == self.preface@ + self.taken@)
        &&& self.delivered@.is_prefix_of(self.preface@ + self.taken@)
    }

    /// Starts a direction. With a non-empty preface the first action
    /// writes it; with an empty one the pump reads at once.
    pub fn start(preface: Vec<u8>) -> (pa: (Pump, PumpAction))
        ensures
            pa.0.wf(),
            !pa.0.is_closed(),
            pa.0.preface_bytes() == preface@,
            pa.0.source_bytes() == Seq::<u8>::empty(),
            pa.0.sink_bytes() == Seq::<u8>::empty(),
            preface@.len() == 0 ==> pa.1 is Read && pa.0.ready_to_read(),
            preface@.len() > 0 ==> ({
                &&& pa.1 matches PumpAction::Write(v) && v@ == preface@
                &&& pa.0.awaiting_write()
                &&& pa.0.pending_bytes() == preface@
            }),
    {
        let ghost p = preface@;
        if preface.len() == 0 {
            let pump = Pump {
                phase: PumpPhase::Idle,
                clean: false,
                preface: Ghost(p),
                taken: Ghost(Seq::empty()),
                delivered: Ghost(Seq::empty()),
                pending: Ghost(Seq::empty()),
            };
            proof {
                assert(pump.delivered@ =~= pump.preface@ + pump.taken@);
            }
            (pump, PumpAction::Read)
        } else {
            let pump = Pump {
                phase: PumpPhase::Sending,
                clean: false,
                preface: Ghost(p),
                taken: Ghost(Seq::empty()),
                delivered: Ghost(Seq::empty()),
                pending: Ghost(p),
            };
            proof {
                assert(pump.delivered@ + pump.pending@ =~= pump.preface@ + pump.taken@);
            }
            (pump, PumpAction::Write(preface))
        }
    }

    /// Consumes one read of the source. A non-empty chunk is handed
    /// straight back as the next write — the bytes read and only those.
    /// An empty chunk is end-of-stream: the direction closes cleanly,
    /// every byte read having already been delivered.
    pub fn took(&mut self, chunk: Vec<u8>) -> (a: PumpAction)
        requires
            old(self).wf(),
            old(self).ready_to_read(),
            chunk@.len() <= RELAY_CHUNK,
        ensures
            final(self).wf(),
            final(self).preface_bytes() == old(self).preface_bytes(),
            chunk@.len() == 0 ==> {
                &&& a is Stop
                &&& final(self).closed_clean()
                &&& final(self).source_bytes() == old(self).source_bytes()
                &&& final(self).sink_bytes() == old(self).sink_bytes()
                &&& final(self).sink_bytes() == final(self).preface_bytes()
                    + final(self).source_bytes()
            },
            chunk@.len() > 0 ==> {
                &&& a matches PumpAction::Write(v) && v@ == chunk@
                &&& final(self).awaiting_write()
                &&& final(self).pending_bytes() == chunk@
                &&& final(self).source_bytes() == old(self).source_bytes() + chunk@
                &&& final(self).sink_bytes() == old(self).sink_bytes()
            },
    {
        if chunk.len() == 0 {
            self.phase = PumpPhase::Closed;
            self.clean = true;
            PumpAction::Stop
        } else {
            self.phase = PumpPhase::Sending;
            proof {
                self.taken@ = self.taken@ + chunk@;
                self.pending@ = chunk@;
                assert(self.delivered@ + self.pending@ =~= self.preface@ + self.taken@);
                assert(self.delivered@.is_prefix_of(self.preface@ + self.taken@));
            }
            PumpAction::Write(chunk)
        }
    }

    /// Consumes the sink's answer to the pending write: `accepted` is how
    /// many bytes the sink took, which a full write makes the whole
    /// pending chunk and a dead sink makes zero. A full write is counted
    /// as delivered and the pump reads again; a zero-byte write closes
    /// this direction without error, the pending bytes undelivered.
    pub fn wrote(&mut self, accepted: usize) -> (a: PumpAction)
        requires
            old(self).wf(),
            old(self).awaiting_write(),
            accepted == 0 || accepted == old(self).pending_bytes().len(),
        ensures
            final(self).wf(),
            final(self).preface_bytes() == old(self).preface_bytes(),
            final(self).source_bytes() == old(self).source_bytes(),
            accepted > 0 ==> {
                &&& a is Read
                &&& final(self).ready_to_read()
                &&& final(self).sink_bytes() == old(self).sink_bytes()
                    + old(self).pending_bytes()
            },
            accepted == 0 ==> {
                &&& a is Stop
                &&& final(self).is_closed()
                &&& !final(self).closed_clean()
                &&& final(self).sink_bytes() == old(self).sink_bytes()
            },
    {
        if accepted == 0 {
            self.phase = PumpPhase::Closed;
            self.clean = false;
            proof {
                self.pending@ = Seq::empty();
            }
            PumpAction::Stop
        } else {
            self.phase = PumpPhase::Idle;
            proof {
                self.delivered@ = self.delivered@ + self.pending@;
                self.pending@ = Seq::empty();
                assert(self.delivered@ =~= self.preface@ + self.taken@);
            }
            PumpAction::Read
        }
    }
}

/// Faithful-relay law: a direction that closed on end-of-stream has
/// written to its sink exactly its preface followed by every byte it
/// read from its source, in order — nothing lost, added or reordered.
pub proof fn lemma_clean_close_delivers_everything(p: &Pump)
    requires
        p.wf(),
        p.closed_clean(),
    ensures
        p.sink_bytes() == p.preface_bytes() + p.source_bytes(),
{
}

/// Ordering law: whatever state a pump is in, its sink holds a prefix of
/// the preface followed by the source bytes — so no relayed byte ever
/// reaches the sink before the whole preface has.
pub proof fn lemma_preface_delivered_first(p: &Pump)
    requires
        p.wf(),
    ensures
        p.sink_bytes().is_prefix_of(p.preface_bytes() + p.source_bytes()),
        forall|i: int|
            0 <= i < p.sink_bytes().len() && i < p.preface_bytes().len()
                ==> p.sink_bytes()[i] == p.preface_bytes()[i],
{
}

} // verus!
