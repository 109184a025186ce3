use crate::natural::{mod_pow, Natural};
use crate::system::{response_value, ZKPParameters, ZKPSystem};
use vstd::prelude::*;

verus! {

/// The prover: holds the secret `x` and its public values. The randomness
/// of each attempt is handed back to the caller rather than kept, so one
/// prover can serve independent attempts.
pub struct Prover<'a> {
    system: &'a ZKPSystem,
    secret: Natural,
    public_values: (Natural, Natural),
}

impl<'a> Prover<'a> {
    /// The parameters of the system the prover works in.
    pub closed spec fn params(&self) -> ZKPParameters {
        self.system.params()
    }

    /// The secret `x`.
    pub closed spec fn secret(&self) -> nat {
        self.secret@
    }

    /// The cached public values `(y1, y2)`.
    pub closed spec fn public_view(&self) -> (nat, nat) {
        (self.public_values.0@, self.public_values.1@)
    }

    /// A prover for `secret`, with its public values
    /// `(alpha^x mod p, beta^x mod p)` computed once.
    pub fn new(system: &'a ZKPSystem, secret: Natural) -> (r: Self)
        requires
            system.params().p@ > 0,
        ensures
            r.params() == system.params(),
            r.secret() == secret@,
            r.public_view() == (
                mod_pow(system.params().alpha@, secret@, system.params().p@),
                mod_pow(system.params().beta@, secret@, system.params().p@),
            ),
    {
        let public_values = system.compute_public_values(&secret);
        Self { system, secret, public_values }
    }

    /// Fresh randomness `k` below `q` with the commitments
    /// `(alpha^k mod p, beta^k mod p)`, as `((r1, r2), k)`.
    pub fn generate_commitments(&self) -> (r: ((Natural, Natural), Natural))
        requires
            self.params().p@ > 0,
            self.params().q@ > 0,
        ensures
            r.1@ < self.params().q@,
            r.0.0@ == mod_pow(self.params().alpha@, r.1@, self.params().p@),
            r.0.1@ == mod_pow(self.params().beta@, r.1@, self.params().p@),
    {
        let randomness = Natural::random_below(self.system.get_order());
        let commitments = self.system.compute_commitments(&randomness);
        (commitments, randomness)
    }

    /// The response `s = (k - c * x) mod q` to `challenge`, for the
    /// randomness `k` of the same attempt.
    pub fn generate_response(&self, challenge: &Natural, randomness: &Natural) -> (r: Natural)
        requires
            self.params().q@ > 0,
        ensures
            r@ == response_value(randomness@, challenge@, self.secret(), self.params().q@),
            r@ < self.params().q@,
    {
        self.system.compute_response(randomness, challenge, &self.secret)
    }

    /// The public values `(y1, y2)`.
    pub fn public_values(&self) -> (r: &(Natural, Natural))
        ensures
            (r.0@, r.1@) == self.public_view(),
    {
        &self.public_values
    }
}

/// The verifier: draws challenges and checks responses.
pub struct Verifier<'a> {
    system: &'a ZKPSystem,
}

impl<'a> Verifier<'a> {
    /// The parameters of the system the verifier works in.
    pub closed spec fn params(&self) -> ZKPParameters {
        self.system.params()
    }

    /// A verifier over `system`.
    pub fn new(system: &'a ZKPSystem) -> (r: Self)
        ensures
            r.params() == system.params(),
    {
        Self { system }
    }

    /// A fresh challenge below `q`.
    pub fn generate_challenge(&self) -> (r: Natural)
        requires
            self.params().q@ > 0,
        ensures
            r@ < self.params().q@,
    {
        Natural::random_below(self.system.get_order())
    }

    /// Whether `r1 == alpha^s * y1^c mod p` and `r2 == beta^s * y2^c mod p`.
    pub fn verify(
        &self,
        commitments: (&Natural, &Natural),
        challenge: &Natural,
        response: &Natural,
        public_values: (&Natural, &Natural),
    ) -> (r: bool)
        requires
            self.params().p@ > 0,
        ensures
            r == self.params().accepts(
                commitments.0@,
                commitments.1@,
                challenge@,
                response@,
                public_values.0@,
                public_values.1@,
            ),
    {
        self.system.verify(commitments, challenge, response, public_values)
    }
}

} // verus!
