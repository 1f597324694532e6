use vstd::prelude::*;

verus! {

/// Size of the upload payload: ten megabytes.
pub const UPLOAD_PAYLOAD_BYTES: u64 = 10485760;

/// The simulated upload progress moves in this many equal steps.
pub const SIMULATED_STEPS: u64 = 50;

/// Interval, in milliseconds, between two simulated progress steps.
pub const SIMULATION_TICK_MS: u64 = 150;

/// The size of one simulated progress step for a payload of `total` bytes:
/// a fiftieth of it, and at least one byte.
pub open spec fn simulation_step_spec(total: nat) -> nat {
    if total / (SIMULATED_STEPS as nat) >= 1 {
        total / (SIMULATED_STEPS as nat)
    } else {
        1
    }
}

pub fn simulation_step(total: u64) -> (r: u64)
    ensures
        r == simulation_step_spec(total as nat),
        r >= 1,
{
    let step = total / SIMULATED_STEPS;
    if step >= 1 {
        step
    } else {
        1
    }
}

/// Stands in for upload progress, which the transport does not report: on
/// each tick it advances by a fixed step until the whole payload is counted.
pub struct UploadSimulator {
    pub uploaded: u64,
    pub total: u64,
    pub step: u64,
}

impl UploadSimulator {
    pub open spec fn wf(&self) -> bool {
        &&& self.uploaded <= self.total
        &&& self.step == simulation_step_spec(self.total as nat)
    }

    pub fn new(total: u64) -> (r: UploadSimulator)
        ensures
            r.wf(),
            r.uploaded == 0,
            r.total == total,
    {
        UploadSimulator { uploaded: 0, total, step: simulation_step(total) }
    }

    pub fn is_done(&self) -> (r: bool)
        ensures
            r == (self.uploaded >= self.total),
    {
        self.uploaded >= self.total
    }

    /// The bytes to count on this tick: a step, or what is left of the
    /// payload when that is less; `None` once the whole payload is counted.
    pub fn next_chunk(&mut self) -> (r: Option<u64>)
        requires
            old(self).wf(),
        ensures
            final(self).wf(),
            final(self).total == old(self).total,
            final(self).step == old(self).step,
            old(self).uploaded >= old(self).total ==> r is None && *final(self) == *old(self),
            old(self).uploaded < old(self).total ==> {
                let left = old(self).total - old(self).uploaded;
                let chunk = if old(self).step < left { old(self).step as int } else { left };
                &&& r == Some(chunk as u64)
                &&& final(self).uploaded == old(self).uploaded + chunk
            },
    {
        if self.uploaded >= self.total {
            return None;
        }
        let left = self.total - self.uploaded;
        let chunk = if self.step < left {
            self.step
        } else {
            left
        };
        self.uploaded = self.uploaded + chunk;
        Some(chunk)
    }
}

/// Relies on rand::rng and rand::RngCore::fill_bytes: the buffer's bytes are
/// overwritten with random data and its length is kept.
#[verifier::external_body]
fn fill_random(buf: &mut Vec<u8>)
    ensures
        final(buf)@.len() == old(buf)@.len(),
{
    rand::RngCore::fill_bytes(&mut rand::rng(), buf.as_mut_slice());
}

/// A fresh payload of `len` random bytes; only its size matters.
pub fn upload_payload(len: usize) -> (r: Vec<u8>)
    ensures
        r@.len() == len,
{
    let mut buf: Vec<u8> = Vec::with_capacity(len);
    let mut i: usize = 0;
    while i < len
        invariant
            i <= len,
            buf@.len() == i,
        decreases len - i,
    {
        buf.push(0u8);
        i = i + 1;
    }
    fill_random(&mut buf);
    buf
}

} // verus!
