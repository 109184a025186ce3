use crate::natural::mod_pow;
use crate::system::{equation_holds, response_value, ZKPParameters};
use vstd::arithmetic::div_mod::{
    lemma_fundamental_div_mod, lemma_mod_equivalence, lemma_mod_multiples_vanish,
    lemma_mul_mod_noop_left, lemma_mul_mod_noop_right, lemma_small_mod,
};
use vstd::arithmetic::power::{
    lemma1_pow, lemma_pow_adds, lemma_pow_mod_noop, lemma_pow_multiplies, pow,
};
use vstd::prelude::*;

verus! {

/// Where `g^q mod p == 1`, a power of `g` modulo `p` depends only on the
/// exponent modulo `q`.
pub proof fn lemma_pow_reduces_exponent(g: nat, p: nat, q: nat, e: nat)
    requires
        p > 1,
        q > 0,
        mod_pow(g, q, p) == 1,
    ensures
        pow(g as int, e) % (p as int) == pow(g as int, e % q) % (p as int),
{
    let t = e / q;
    let r = e % q;
    lemma_fundamental_div_mod(e as int, q as int);
    assert(e == r + q * t);
    lemma_pow_adds(g as int, r, q * t);
    lemma_pow_multiplies(g as int, q, t);
    let gq = pow(g as int, q);
    lemma_pow_mod_noop(gq, t, p as int);
    lemma1_pow(t);
    assert(gq % (p as int) == 1);
    lemma_small_mod(1, p);
    assert(1int % (p as int) == 1);
    assert(pow(gq, t) % (p as int) == 1);
    lemma_mul_mod_noop_right(pow(g as int, r), pow(gq, t), p as int);
}

/// `g^s * (g^x mod p)^c mod p == g^(s + x*c) mod p`.
proof fn lemma_equation_exponent(g: nat, p: nat, x: nat, c: nat, s: nat)
    requires
        p > 1,
    ensures
        (pow(g as int, s) * pow(mod_pow(g, x, p) as int, c)) % (p as int)
            == pow(g as int, s + x * c) % (p as int),
{
    let pi = p as int;
    let gx = pow(g as int, x);
    lemma_pow_mod_noop(gx, c, pi);
    lemma_pow_multiplies(g as int, x, c);
    lemma_mul_mod_noop_right(pow(g as int, s), pow(mod_pow(g, x, p) as int, c), pi);
    lemma_mul_mod_noop_right(pow(g as int, s), pow(gx, c), pi);
    lemma_pow_adds(g as int, s, x * c);
}

/// `(((k - c*x) mod q) + x*c) mod q == k mod q`.
proof fn lemma_response_cancels(k: nat, c: nat, x: nat, q: nat)
    requires
        q > 0,
    ensures
        (response_value(k, c, x, q) + x * c) % q == k % q,
{
    let d = k as int - (c * x) as int;
    let qi = q as int;
    lemma_fundamental_div_mod(d, qi);
    let t = d / qi;
    let s = response_value(k, c, x, q) as int;
    assert(s + (x * c) as int == qi * (-t) + k) by (nonlinear_arith)
        requires
            d == qi * t + s,
            d == k as int - (c * x) as int,
    ;
    lemma_mod_multiples_vanish(-t, k as int, qi);
}

/// One verification equation holds for an honest response: with
/// `r = g^k mod p`, `y = g^x mod p` and `s = (k - c*x) mod q`, `r == g^s * y^c mod p`.
pub proof fn lemma_equation_complete(g: nat, p: nat, q: nat, x: nat, k: nat, c: nat)
    requires
        p > 1,
        q > 0,
        mod_pow(g, q, p) == 1,
    ensures
        equation_holds(p, g, mod_pow(g, k, p), c, response_value(k, c, x, q), mod_pow(g, x, p)),
{
    let s = response_value(k, c, x, q);
    lemma_equation_exponent(g, p, x, c, s);
    lemma_pow_reduces_exponent(g, p, q, s + x * c);
    lemma_pow_reduces_exponent(g, p, q, k);
    lemma_response_cancels(k, c, x, q);
}

/// Completeness: on valid parameters, for every secret `x`, randomness `k`
/// and challenge `c`, the commitments of `k`, the response to `c` and the
/// public values of `x` pass verification.
pub proof fn lemma_completeness(params: &ZKPParameters, x: nat, k: nat, c: nat)
    requires
        params.valid(),
    ensures
        params.accepts(
            mod_pow(params.alpha@, k, params.p@),
            mod_pow(params.beta@, k, params.p@),
            c,
            response_value(k, c, x, params.q@),
            mod_pow(params.alpha@, x, params.p@),
            mod_pow(params.beta@, x, params.p@),
        ),
{
    lemma_equation_complete(params.alpha@, params.p@, params.q@, x, k, c);
    lemma_equation_complete(params.beta@, params.p@, params.q@, x, k, c);
}

/// Where `g` has order exactly `q` modulo `p`, distinct exponents below `q`
/// give distinct powers.
proof fn lemma_distinct_powers(g: nat, p: nat, q: nat, a: nat, b: nat)
    requires
        p > 1,
        mod_pow(g, q, p) == 1,
        forall|e: nat| 0 < e < q ==> #[trigger] mod_pow(g, e, p) != 1,
        a < b < q,
    ensures
        pow(g as int, a) % (p as int) != pow(g as int, b) % (p as int),
{
    if pow(g as int, a) % (p as int) == pow(g as int, b) % (p as int) {
        let e = (q - b) as nat;
        lemma_mul_mod_noop_left(pow(g as int, a), pow(g as int, e), p as int);
        lemma_mul_mod_noop_left(pow(g as int, b), pow(g as int, e), p as int);
        lemma_pow_adds(g as int, a, e);
        lemma_pow_adds(g as int, b, e);
        assert(b + e == q);
        assert(mod_pow(g, (a + e) as nat, p) == 1);
    }
}

/// Soundness against a wrong secret: where `alpha` has order exactly `q`
/// modulo `p`, a response computed with a secret `x_wrong` for which
/// `c * x_wrong` and `c * x` differ modulo `q` fails verification against
/// the public values of `x`, whatever the randomness `k`. With a prime `q`
/// this covers every wrong secret below `q` and every challenge but zero.
pub proof fn lemma_wrong_secret_rejected(params: &ZKPParameters, x: nat, x_wrong: nat, k: nat, c: nat)
    requires
        params.valid(),
        forall|e: nat| 0 < e < params.q@ ==> #[trigger] mod_pow(params.alpha@, e, params.p@) != 1,
        (c * x) % params.q@ != (c * x_wrong) % params.q@,
    ensures
        !params.accepts(
            mod_pow(params.alpha@, k, params.p@),
            mod_pow(params.beta@, k, params.p@),
            c,
            response_value(k, c, x_wrong, params.q@),
            mod_pow(params.alpha@, x, params.p@),
            mod_pow(params.beta@, x, params.p@),
        ),
{
    let g = params.alpha@;
    let p = params.p@;
    let q = params.q@;
    let s = response_value(k, c, x_wrong, q);
    lemma_equation_exponent(g, p, x, c, s);
    lemma_pow_reduces_exponent(g, p, q, s + x * c);
    lemma_pow_reduces_exponent(g, p, q, k);
    lemma_response_cancels(k, c, x_wrong, q);
    let a = k % q;
    let b = (s + x * c) % q;
    assert(x * c == c * x && x_wrong * c == c * x_wrong) by (nonlinear_arith);
    if a == b {
        lemma_mod_equivalence((s + x * c) as int, (s + x_wrong * c) as int, q as int);
        lemma_mod_equivalence((c * x) as int, (c * x_wrong) as int, q as int);
        assert((s + x * c) as int - (s + x_wrong * c) as int == (c * x) as int - (c * x_wrong) as int);
    }
    if a < b {
        lemma_distinct_powers(g, p, q, a, b);
    } else {
        lemma_distinct_powers(g, p, q, b, a);
    }
}

/// `g^s * (h^x mod p)^c mod p == g^s * h^(x*c) mod p`.
proof fn lemma_public_power(g: nat, h: nat, p: nat, x: nat, c: nat, s: nat)
    requires
        p > 1,
    ensures
        (pow(g as int, s) * pow(mod_pow(h, x, p) as int, c)) % (p as int)
            == (pow(g as int, s) * pow(h as int, x * c)) % (p as int),
{
    let pi = p as int;
    let hx = pow(h as int, x);
    lemma_pow_mod_noop(hx, c, pi);
    lemma_pow_multiplies(h as int, x, c);
    lemma_mul_mod_noop_right(pow(g as int, s), pow(mod_pow(h, x, p) as int, c), pi);
    lemma_mul_mod_noop_right(pow(g as int, s), pow(hx, c), pi);
}

/// Cancels a factor `g^s` with `s < q` where `g^q mod p == 1`:
/// `g^s * a == g^s * b (mod p)` implies `a == b (mod p)`.
proof fn lemma_cancel_power(g: nat, p: nat, q: nat, s: nat, a: int, b: int)
    requires
        p > 1,
        s < q,
        mod_pow(g, q, p) == 1,
        (pow(g as int, s) * a) % (p as int) == (pow(g as int, s) * b) % (p as int),
    ensures
        a % (p as int) == b % (p as int),
{
    let pi = p as int;
    let gs = pow(g as int, s);
    let e = (q - s) as nat;
    let ge = pow(g as int, e);
    let gq = pow(g as int, q);
    lemma_pow_adds(g as int, s, e);
    assert(gs * ge == gq);
    lemma_mul_mod_noop_left(gs * a, ge, pi);
    lemma_mul_mod_noop_left(gs * b, ge, pi);
    assert((gs * a) * ge == gq * a && (gs * b) * ge == gq * b) by (nonlinear_arith)
        requires
            gs * ge == gq,
    ;
    lemma_mul_mod_noop_left(gq, a, pi);
    lemma_mul_mod_noop_left(gq, b, pi);
    assert(gq % pi == 1);
}

/// Cross-field failure: on valid parameters, an honest proof for the secret
/// `x` fails once the public values are swapped, i.e. checked against
/// `(beta^x mod p, alpha^x mod p)`, whenever `alpha^(x*c)` and
/// `beta^(x*c)` differ modulo `p` (when they agree, as for `x == 0` or
/// `c == 0`, the swap is invisible to the verifier).
pub proof fn lemma_swapped_public_values_rejected(params: &ZKPParameters, x: nat, k: nat, c: nat)
    requires
        params.valid(),
        mod_pow(params.alpha@, x * c, params.p@) != mod_pow(params.beta@, x * c, params.p@),
    ensures
        !params.accepts(
            mod_pow(params.alpha@, k, params.p@),
            mod_pow(params.beta@, k, params.p@),
            c,
            response_value(k, c, x, params.q@),
            mod_pow(params.beta@, x, params.p@),
            mod_pow(params.alpha@, x, params.p@),
        ),
{
    let g = params.alpha@;
    let h = params.beta@;
    let p = params.p@;
    let q = params.q@;
    let s = response_value(k, c, x, q);
    lemma_equation_complete(g, p, q, x, k, c);
    if equation_holds(p, g, mod_pow(g, k, p), c, s, mod_pow(h, x, p)) {
        lemma_public_power(g, h, p, x, c, s);
        lemma_public_power(g, g, p, x, c, s);
        lemma_cancel_power(g, p, q, s, pow(h as int, x * c), pow(g as int, x * c));
    }
}

/// Registration overwrites: registering `user` with `first` and then with
/// `second` leaves the registry as registering `second` alone would, so
/// only the later public values are used afterwards.
pub proof fn lemma_register_last_wins(
    users: Map<Seq<char>, (nat, nat)>,
    user: Seq<char>,
    first: (nat, nat),
    second: (nat, nat),
)
    ensures
        users.insert(user, first).insert(user, second) == users.insert(user, second),
        users.insert(user, first).insert(user, second)[user] == second,
{
    assert(users.insert(user, first).insert(user, second) =~= users.insert(user, second));
}

/// A session is completed at most once: once a completion of `auth_id` has
/// removed it, whatever the outcome, it is no longer pending, so a second
/// completion with the same identifier meets an absent session.
pub proof fn lemma_session_completed_once(
    sessions: Map<Seq<char>, (Seq<char>, nat, nat, nat)>,
    auth_id: Seq<char>,
)
    ensures
        !sessions.remove(auth_id).contains_key(auth_id),
        sessions.remove(auth_id).remove(auth_id) == sessions.remove(auth_id),
{
    assert(sessions.remove(auth_id).remove(auth_id) =~= sessions.remove(auth_id));
}

} // verus!
