use crate::natural::{mod_pow, Natural};
use vstd::arithmetic::div_mod::{lemma_fundamental_div_mod, lemma_fundamental_div_mod_converse, lemma_mul_mod_noop_general};
use vstd::arithmetic::power::pow;
use vstd::prelude::*;

verus! {

/// `s = (k - c * x) mod q`, reduced into `[0, q)` for a positive `q`.
pub open spec fn response_value(k: nat, c: nat, x: nat, q: nat) -> nat
    recommends
        q > 0,
{
    ((k as int - (c * x) as int) % (q as int)) as nat
}

/// One of the two verification equations: `r == g^s * y^c mod p`.
pub open spec fn equation_holds(p: nat, g: nat, r: nat, c: nat, s: nat, y: nat) -> bool {
    r as int == (pow(g as int, s) * pow(y as int, c)) % (p as int)
}

/// The group parameters `(p, q, alpha, beta)`.
pub struct ZKPParameters {
    /// The prime modulus.
    pub p: Natural,
    /// The prime order of the subgroup.
    pub q: Natural,
    /// The first generator.
    pub alpha: Natural,
    /// The second generator.
    pub beta: Natural,
}

impl ZKPParameters {
    /// Parameters on which the protocol is complete: a modulus above one, a
    /// positive order, and generators in `(1, p)` whose `q`-th powers are one.
    pub open spec fn valid(&self) -> bool {
        &&& self.p@ > 1
        &&& self.q@ > 0
        &&& 1 < self.alpha@ < self.p@
        &&& 1 < self.beta@ < self.p@
        &&& mod_pow(self.alpha@, self.q@, self.p@) == 1
        &&& mod_pow(self.beta@, self.q@, self.p@) == 1
    }

    /// Both verification equations hold.
    pub open spec fn accepts(&self, r1: nat, r2: nat, c: nat, s: nat, y1: nat, y2: nat) -> bool {
        &&& equation_holds(self.p@, self.alpha@, r1, c, s, y1)
        &&& equation_holds(self.p@, self.beta@, r2, c, s, y2)
    }

    /// The public values `(alpha^x mod p, beta^x mod p)`.
    pub fn compute_public_keys(&self, secret: &Natural) -> (r: (Natural, Natural))
        requires
            self.p@ > 0,
        ensures
            r.0@ == mod_pow(self.alpha@, secret@, self.p@),
            r.1@ == mod_pow(self.beta@, secret@, self.p@),
    {
        let y1 = self.alpha.mod_pow(secret, &self.p);
        let y2 = self.beta.mod_pow(secret, &self.p);
        (y1, y2)
    }

    /// The commitments `(alpha^k mod p, beta^k mod p)`.
    pub fn compute_commitments(&self, randomness: &Natural) -> (r: (Natural, Natural))
        requires
            self.p@ > 0,
        ensures
            r.0@ == mod_pow(self.alpha@, randomness@, self.p@),
            r.1@ == mod_pow(self.beta@, randomness@, self.p@),
    {
        let r1 = self.alpha.mod_pow(randomness, &self.p);
        let r2 = self.beta.mod_pow(randomness, &self.p);
        (r1, r2)
    }

    /// The response `s = (k - c * x) mod q`, always in `[0, q)`. The
    /// difference is formed on naturals, so a negative one is reduced as
    /// `q - ((c * x - k) mod q)`, or zero where that remainder is zero.
    pub fn compute_response(&self, randomness: &Natural, challenge: &Natural, secret: &Natural) -> (r: Natural)
        requires
            self.q@ > 0,
        ensures
            r@ == response_value(randomness@, challenge@, secret@, self.q@),
            r@ < self.q@,
    {
        let cx = challenge.times(secret);
        if randomness.at_least(&cx) {
            randomness.minus(&cx).rem(&self.q)
        } else {
            let m = cx.minus(randomness).rem(&self.q);
            let zero = Natural::zero();
            proof {
                let q = self.q@ as int;
                let d = cx@ as int - randomness@ as int;
                let t = d / q;
                let rm = m@ as int;
                lemma_fundamental_div_mod(d, q);
                assert(d == q * t + rm);
                if rm == 0 {
                    assert(-d == q * (-t) + 0) by (nonlinear_arith)
                        requires
                            d == q * t + rm,
                            rm == 0,
                    ;
                    lemma_fundamental_div_mod_converse(-d, q, -t, 0);
                } else {
                    assert(-d == q * (-t - 1) + (q - rm)) by (nonlinear_arith)
                        requires
                            d == q * t + rm,
                    ;
                    lemma_fundamental_div_mod_converse(-d, q, -t - 1, q - rm);
                }
            }
            if m.same_value(&zero) {
                zero
            } else {
                self.q.minus(&m)
            }
        }
    }

    /// Checks `r1 == alpha^s * y1^c mod p` and `r2 == beta^s * y2^c mod p`.
    pub fn verify(
        &self,
        commitments: (&Natural, &Natural),
        challenge: &Natural,
        response: &Natural,
        public_keys: (&Natural, &Natural),
    ) -> (r: bool)
        requires
            self.p@ > 0,
        ensures
            r == self.accepts(
                commitments.0@,
                commitments.1@,
                challenge@,
                response@,
                public_keys.0@,
                public_keys.1@,
            ),
    {
        let (r1, r2) = commitments;
        let (y1, y2) = public_keys;
        let cond1 = equation_check(&self.p, &self.alpha, r1, challenge, response, y1);
        let cond2 = equation_check(&self.p, &self.beta, r2, challenge, response, y2);
        cond1 && cond2
    }
}

/// Evaluates `r == g^s * y^c mod p`, reducing each power before the product.
fn equation_check(p: &Natural, g: &Natural, r: &Natural, c: &Natural, s: &Natural, y: &Natural) -> (b: bool)
    requires
        p@ > 0,
    ensures
        b == equation_holds(p@, g@, r@, c@, s@, y@),
{
    let gs = g.mod_pow(s, p);
    let yc = y.mod_pow(c, p);
    let product = gs.times(&yc).rem(p);
    proof {
        lemma_mul_mod_noop_general(pow(g@ as int, s@), pow(y@ as int, c@), p@ as int);
    }
    r.same_value(&product)
}

/// The value held by an optional parameter, if any.
pub open spec fn setting(o: Option<Natural>) -> Option<nat> {
    match o {
        Some(n) => Some(n@),
        None => None,
    }
}

/// Collects the four parameters; `build` refuses to proceed while any is
/// missing.
pub struct ZKPSystemBuilder {
    p: Option<Natural>,
    q: Option<Natural>,
    alpha: Option<Natural>,
    beta: Option<Natural>,
}

impl ZKPSystemBuilder {
    /// The parameters set so far: `(p, q, alpha, beta)`.
    pub closed spec fn settings(&self) -> (Option<nat>, Option<nat>, Option<nat>, Option<nat>) {
        (setting(self.p), setting(self.q), setting(self.alpha), setting(self.beta))
    }

    /// A builder with no parameter set.
    pub fn new() -> (r: Self)
        ensures
            r.settings() == (None::<nat>, None::<nat>, None::<nat>, None::<nat>),
    {
        Self { p: None, q: None, alpha: None, beta: None }
    }

    /// Sets the prime modulus `p`.
    pub fn with_prime(self, prime: Natural) -> (r: Self)
        ensures
            r.settings() == (Some(prime@), self.settings().1, self.settings().2, self.settings().3),
    {
        Self { p: Some(prime), q: self.q, alpha: self.alpha, beta: self.beta }
    }

    /// Sets the prime order `q` of the subgroup.
    pub fn with_order(self, order: Natural) -> (r: Self)
        ensures
            r.settings() == (self.settings().0, Some(order@), self.settings().2, self.settings().3),
    {
        Self { p: self.p, q: Some(order), alpha: self.alpha, beta: self.beta }
    }

    /// Sets the first generator `alpha`.
    pub fn with_generator(self, generator: Natural) -> (r: Self)
        ensures
            r.settings() == (self.settings().0, self.settings().1, Some(generator@), self.settings().3),
    {
        Self { p: self.p, q: self.q, alpha: Some(generator), beta: self.beta }
    }

    /// Sets the second generator `beta`.
    pub fn with_second_generator(self, generator: Natural) -> (r: Self)
        ensures
            r.settings() == (self.settings().0, self.settings().1, self.settings().2, Some(generator@)),
    {
        Self { p: self.p, q: self.q, alpha: self.alpha, beta: Some(generator) }
    }

    /// The system with the four parameters, or the first missing one named,
    /// in the order `p`, `q`, `alpha`, `beta`.
    pub fn build(self) -> (r: Result<ZKPSystem, &'static str>)
        ensures
            r is Ok <==> (self.settings().0 is Some && self.settings().1 is Some
                && self.settings().2 is Some && self.settings().3 is Some),
            r matches Ok(sys) ==> (Some(sys.params().p@), Some(sys.params().q@),
                Some(sys.params().alpha@), Some(sys.params().beta@)) == self.settings(),
            self.settings().0 is None ==> (r matches Err(e) && e@ == "Prime p is required"@),
            self.settings().0 is Some && self.settings().1 is None
                ==> (r matches Err(e) && e@ == "Order q is required"@),
            self.settings().0 is Some && self.settings().1 is Some && self.settings().2 is None
                ==> (r matches Err(e) && e@ == "Generator alpha is required"@),
            self.settings().0 is Some && self.settings().1 is Some && self.settings().2 is Some
                && self.settings().3 is None
                ==> (r matches Err(e) && e@ == "Second generator beta is required"@),
    {
        let p = match self.p {
            Some(v) => v,
            None => return Err("Prime p is required"),
        };
        let q = match self.q {
            Some(v) => v,
            None => return Err("Order q is required"),
        };
        let alpha = match self.alpha {
            Some(v) => v,
            None => return Err("Generator alpha is required"),
        };
        let beta = match self.beta {
            Some(v) => v,
            None => return Err("Second generator beta is required"),
        };
        Ok(ZKPSystem::new(p, q, alpha, beta))
    }
}

/// The Chaum-Pedersen proof system over one set of parameters.
pub struct ZKPSystem {
    parameters: ZKPParameters,
}

impl ZKPSystem {
    /// The parameters the system was made with.
    pub closed spec fn params(&self) -> ZKPParameters {
        self.parameters
    }

    /// The system over the modulus `p`, the order `q` and the generators
    /// `alpha` and `beta`.
    pub fn new(p: Natural, q: Natural, alpha: Natural, beta: Natural) -> (r: Self)
        ensures
            r.params().p@ == p@,
            r.params().q@ == q@,
            r.params().alpha@ == alpha@,
            r.params().beta@ == beta@,
    {
        Self { parameters: ZKPParameters { p, q, alpha, beta } }
    }

    /// A builder with no parameter set.
    pub fn builder() -> (r: ZKPSystemBuilder)
        ensures
            r.settings() == (None::<nat>, None::<nat>, None::<nat>, None::<nat>),
    {
        ZKPSystemBuilder::new()
    }

    /// The system's parameters.
    pub fn parameters(&self) -> (r: &ZKPParameters)
        ensures
            *r == self.params(),
    {
        &self.parameters
    }

    /// The commitments `(alpha^k mod p, beta^k mod p)`.
    pub fn compute_commitments(&self, randomness: &Natural) -> (r: (Natural, Natural))
        requires
            self.params().p@ > 0,
        ensures
            r.0@ == mod_pow(self.params().alpha@, randomness@, self.params().p@),
            r.1@ == mod_pow(self.params().beta@, randomness@, self.params().p@),
    {
        self.parameters.compute_commitments(randomness)
    }

    /// The response `s = (k - c * x) mod q`, in `[0, q)`.
    pub fn compute_response(&self, randomness: &Natural, challenge: &Natural, secret: &Natural) -> (r: Natural)
        requires
            self.params().q@ > 0,
        ensures
            r@ == response_value(randomness@, challenge@, secret@, self.params().q@),
            r@ < self.params().q@,
    {
        self.parameters.compute_response(randomness, challenge, secret)
    }

    /// Whether both verification equations hold.
    pub fn verify(
        &self,
        commitments: (&Natural, &Natural),
        challenge: &Natural,
        response: &Natural,
        public_keys: (&Natural, &Natural),
    ) -> (r: bool)
        requires
            self.params().p@ > 0,
        ensures
            r == self.params().accepts(
                commitments.0@,
                commitments.1@,
                challenge@,
                response@,
                public_keys.0@,
                public_keys.1@,
            ),
    {
        self.parameters.verify(commitments, challenge, response, public_keys)
    }

    /// The public values `(alpha^x mod p, beta^x mod p)`.
    pub fn compute_public_values(&self, secret: &Natural) -> (r: (Natural, Natural))
        requires
            self.params().p@ > 0,
        ensures
            r.0@ == mod_pow(self.params().alpha@, secret@, self.params().p@),
            r.1@ == mod_pow(self.params().beta@, secret@, self.params().p@),
    {
        self.parameters.compute_public_keys(secret)
    }

    /// The order `q` of the subgroup.
    pub fn get_order(&self) -> (r: &Natural)
        ensures
            r@ == self.params().q@,
    {
        &self.parameters.q
    }
}

} // verus!
