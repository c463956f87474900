use vstd::prelude::*;

verus! {

/// Protocol configuration: `n` participants in total, of whom any `t` can
/// jointly produce a signature.
#[derive(Clone, Copy, PartialEq, Eq, Structural, Debug)]
pub struct Params {
    /// The threshold required for a successful signature.
    pub t: u32,
    /// The number of participants in the scheme.
    pub n: u32,
}

impl Params {
    /// A configuration is valid when there are at least three participants
    /// and the threshold lies between two and the participant count.
    pub open spec fn valid(self) -> bool {
        3 <= self.n && 2 <= self.t && self.t <= self.n
    }

    /// Accept or reject a threshold configuration before any key generation
    /// starts: `n` must be at least 3 and `t` must satisfy `2 <= t <= n`.
    pub fn new(t: u32, n: u32) -> (r: Option<Params>)
        ensures
            3 <= n && 2 <= t && t <= n ==> r == Some(Params { t, n }),
            !(3 <= n && 2 <= t && t <= n) ==> r is None,
            r matches Some(p) ==> p.valid() && p.t == t && p.n == n,
    {
        if n >= 3 && t >= 2 && t <= n {
            Some(Params { t, n })
        } else {
            None
        }
    }
}

/// A message is accepted for signing exactly when it is non-empty.
pub fn message_is_signable(message: &[u8]) -> (r: bool)
    ensures
        r <==> message@.len() > 0,
{
    message.len() > 0
}

} // verus!
