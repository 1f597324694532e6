use vstd::prelude::*;

verus! {

/// Where a progress display stands.
#[derive(Clone, Copy, Debug, PartialEq, Eq, Structural)]
pub enum ProgressPhase {
    Running,
    Finished,
    Abandoned,
}

/// The counters behind a progress display: bytes moved so far, the total
/// when it is known, and how the operation ended. Rendering reads them; only
/// `advance` moves the byte counter.
pub struct ProgressState {
    bytes_transferred: u64,
    total_bytes: Option<u64>,
    phase: ProgressPhase,
    message: String,
}

pub struct ProgressView {
    pub bytes_transferred: nat,
    pub total_bytes: Option<nat>,
    pub phase: ProgressPhase,
    pub message: Seq<char>,
}

/// The most the counter may reach: the total when known, else the largest
/// count the counter holds.
pub open spec fn counter_cap(total_bytes: Option<nat>) -> nat {
    match total_bytes {
        Some(t) => t,
        None => 0xffff_ffff_ffff_ffff,
    }
}

/// The counter after adding `delta` to `bytes`, held at `cap`.
pub open spec fn advanced(bytes: nat, cap: nat, delta: nat) -> nat {
    if bytes + delta > cap {
        cap
    } else {
        bytes + delta
    }
}

/// The counter after a sequence of advances, starting from `bytes`.
pub open spec fn after_advances(bytes: nat, cap: nat, deltas: Seq<u64>) -> nat
    decreases deltas.len(),
{
    if deltas.len() == 0 {
        bytes
    } else {
        advanced(after_advances(bytes, cap, deltas.drop_last()), cap, deltas.last() as nat)
    }
}

impl View for ProgressState {
    type V = ProgressView;

    closed spec fn view(&self) -> ProgressView {
        ProgressView {
            bytes_transferred: self.bytes_transferred as nat,
            total_bytes: match self.total_bytes {
                Some(t) => Some(t as nat),
                None => None,
            },
            phase: self.phase,
            message: self.message@,
        }
    }
}

impl ProgressView {
    pub open spec fn wf(self) -> bool {
        &&& self.bytes_transferred <= counter_cap(self.total_bytes)
        &&& counter_cap(self.total_bytes) <= 0xffff_ffff_ffff_ffff
    }

    /// With no known total, or a total of zero, nothing is drawn.
    pub open spec fn hidden(self) -> bool {
        match self.total_bytes {
            Some(t) => t == 0,
            None => true,
        }
    }
}

impl ProgressState {
    /// A fresh counter for an operation of `total_bytes`, if known.
    pub fn new(total_bytes: Option<u64>) -> (r: ProgressState)
        ensures
            r@.wf(),
            r@.bytes_transferred == 0,
            r@.total_bytes == match total_bytes {
                Some(t) => Some(t as nat),
                None => None::<nat>,
            },
            r@.phase == ProgressPhase::Running,
            r@.message.len() == 0,
    {
        ProgressState {
            bytes_transferred: 0,
            total_bytes,
            phase: ProgressPhase::Running,
            message: String::new(),
        }
    }

    /// A counter for a response whose announced length is `content_length`:
    /// an absent or zero length gives a hidden display.
    pub fn for_content_length(content_length: Option<u64>) -> (r: ProgressState)
        ensures
            r@.wf(),
            r@.bytes_transferred == 0,
            r@.phase == ProgressPhase::Running,
            r@.hidden() <==> (content_length is None || content_length == Some(0u64)),
            !r@.hidden() ==> r@.total_bytes == Some(content_length->Some_0 as nat),
    {
        match content_length {
            Some(len) if len > 0 => ProgressState::new(Some(len)),
            _ => ProgressState::new(None),
        }
    }

    pub fn bytes_transferred(&self) -> (r: u64)
        ensures
            r == self@.bytes_transferred,
    {
        self.bytes_transferred
    }

    pub fn total_bytes(&self) -> (r: Option<u64>)
        ensures
            r is Some <==> self@.total_bytes is Some,
            r is Some ==> r->Some_0 == self@.total_bytes->Some_0,
    {
        self.total_bytes
    }

    pub fn phase(&self) -> (r: ProgressPhase)
        ensures
            r == self@.phase,
    {
        self.phase
    }

    pub fn message(&self) -> (r: &str)
        ensures
            r@ == self@.message,
    {
        self.message.as_str()
    }

    pub fn is_hidden(&self) -> (r: bool)
        ensures
            r == self@.hidden(),
    {
        match self.total_bytes {
            Some(t) => t == 0,
            None => true,
        }
    }

    /// Adds `delta` bytes to the counter, which never goes back and never
    /// passes a known total.
    pub fn advance(&mut self, delta: u64)
        requires
            old(self)@.wf(),
        ensures
            final(self)@.wf(),
            final(self)@.bytes_transferred == advanced(
                old(self)@.bytes_transferred,
                counter_cap(old(self)@.total_bytes),
                delta as nat,
            ),
            old(self)@.bytes_transferred <= final(self)@.bytes_transferred,
            final(self)@.total_bytes == old(self)@.total_bytes,
            final(self)@.phase == old(self)@.phase,
            final(self)@.message == old(self)@.message,
    {
        let cap: u64 = match self.total_bytes {
            Some(t) => t,
            None => 0xffff_ffff_ffff_ffff,
        };
        if delta > cap - self.bytes_transferred {
            self.bytes_transferred = cap;
        } else {
            self.bytes_transferred = self.bytes_transferred + delta;
        }
    }

    /// Marks the operation as complete, with a closing message.
    pub fn finish(&mut self, message: &str)
        ensures
            final(self)@ == (ProgressView {
                phase: ProgressPhase::Finished,
                message: message@,
                ..old(self)@
            }),
    {
        self.phase = ProgressPhase::Finished;
        self.message = String::from_str(message);
    }

    /// Marks the operation as given up, with a closing message.
    pub fn abandon(&mut self, message: &str)
        ensures
            final(self)@ == (ProgressView {
                phase: ProgressPhase::Abandoned,
                message: message@,
                ..old(self)@
            }),
    {
        self.phase = ProgressPhase::Abandoned;
        self.message = String::from_str(message);
    }
}

proof fn lemma_after_advances_bounded(bytes: nat, cap: nat, deltas: Seq<u64>)
    requires
        bytes <= cap,
    ensures
        bytes <= after_advances(bytes, cap, deltas) <= cap,
    decreases deltas.len(),
{
    if deltas.len() > 0 {
        lemma_after_advances_bounded(bytes, cap, deltas.drop_last());
    }
}

/// Whatever advances are made, the counter never decreases from one advance
/// to a later one, and never exceeds its cap (the total, when known).
pub proof fn lemma_progress_monotonic(bytes: nat, cap: nat, deltas: Seq<u64>, i: int, j: int)
    requires
        bytes <= cap,
        0 <= i <= j <= deltas.len(),
    ensures
        after_advances(bytes, cap, deltas.take(i)) <= after_advances(bytes, cap, deltas.take(j)),
        after_advances(bytes, cap, deltas.take(j)) <= cap,
    decreases j - i,
{
    lemma_after_advances_bounded(bytes, cap, deltas.take(j));
    if i < j {
        lemma_progress_monotonic(bytes, cap, deltas, i, j - 1);
        assert(deltas.take(j).drop_last() =~= deltas.take(j - 1));
        lemma_after_advances_bounded(bytes, cap, deltas.take(j - 1));
    }
}

} // verus!
