//! Where the octets of a new address come from.

use rand::Rng;
use vstd::prelude::*;

verus! {

/// A supply of octets.
#[derive(Debug)]
pub enum EntropySource {
    /// The thread-local generator of the `rand` crate, seeded by the
    /// operating system.
    System,
    /// A fixed script, handed out front to back. Once it has run out every
    /// draw is zero.
    Scripted { octets: Vec<u8> },
}

impl View for EntropySource {
    type V = Option<Seq<u8>>;

    /// The octets still to come where they are known, `None` where chance
    /// decides.
    open spec fn view(&self) -> Option<Seq<u8>> {
        match self {
            EntropySource::System => None,
            EntropySource::Scripted { octets } => Some(octets@),
        }
    }
}

/// The octet that the draw number `i` from now takes out of a script.
pub open spec fn script_octet(script: Seq<u8>, i: int) -> u8 {
    if 0 <= i < script.len() {
        script[i]
    } else {
        0
    }
}

/// What is left of a script after `n` draws.
pub open spec fn script_after(script: Seq<u8>, n: int) -> Seq<u8> {
    if 0 <= n < script.len() {
        script.skip(n)
    } else {
        Seq::empty()
    }
}

/// What is left of a source after `n` draws.
pub open spec fn after_draws(source: Option<Seq<u8>>, n: int) -> Option<Seq<u8>> {
    match source {
        None => None,
        Some(script) => Some(script_after(script, n)),
    }
}

/// Draws from `rand::rng()` with `Rng::random_range` over `0..bound`. The
/// range is not empty, so the call does not panic on it, and what comes back
/// lies in the range. Which value comes back is left to chance. The call
/// panics where the operating system gives the generator no seed, at its
/// first use in a thread or when it reseeds itself.
#[verifier::external_body]
fn random_below(bound: u8) -> (value: u8)
    requires
        bound > 0,
    ensures
        value < bound,
{
    rand::rng().random_range(0..bound)
}

/// Draws one octet from `rand::rng()` with `Rng::random`. Any octet may come
/// back. The call panics where the operating system gives the generator no
/// seed, at its first use in a thread or when it reseeds itself.
#[verifier::external_body]
fn random_octet() -> (value: u8) {
    rand::rng().random::<u8>()
}

impl EntropySource {
    /// The source that chance decides.
    pub fn system() -> (source: Self)
        ensures
            source@ is None,
    {
        EntropySource::System
    }

    /// A source that replays `octets`.
    pub fn scripted(octets: Vec<u8>) -> (source: Self)
        ensures
            source@ == Some(octets@),
    {
        EntropySource::Scripted { octets }
    }

    /// Draws one octet.
    pub fn next_octet(&mut self) -> (value: u8)
        ensures
            final(self)@ == after_draws(old(self)@, 1),
            old(self)@ matches Some(script) ==> value == script_octet(script, 0),
    {
        match self {
            EntropySource::System => random_octet(),
            EntropySource::Scripted { octets } => {
                if octets.len() > 0 {
                    let value: u8 = octets.remove(0);
                    proof {
                        assert(octets@ =~= script_after(old(self)@->0, 1));
                    }
                    value
                } else {
                    proof {
                        assert(octets@ =~= script_after(old(self)@->0, 1));
                    }
                    0
                }
            },
        }
    }

    /// Draws four bits. A script gives the high four bits of its next octet.
    pub fn next_nibble(&mut self) -> (value: u8)
        ensures
            value < 16,
            final(self)@ == after_draws(old(self)@, 1),
            old(self)@ matches Some(script) ==> value == script_octet(script, 0) / 16,
    {
        match self {
            EntropySource::System => random_below(16),
            EntropySource::Scripted { .. } => {
                let octet: u8 = self.next_octet();
                octet / 16
            },
        }
    }
}

} // verus!
