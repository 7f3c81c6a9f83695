//! The signed payload of a session token, and its text form.
use vstd::prelude::*;

use crate::text::{
    chars_of, dec, is_digit, lemma_canonical_dec, lemma_dec, lemma_dec_split, lemma_read_dec,
    parse_number, push_dec, push_str, read_number, string_of,
};

verus! {

/// How long a token stays valid after it was issued, in seconds.
pub const TOKEN_VALIDITY_SECS: u64 = 3600;

/// The claims that a session token carries: the issuing authority, the
/// user it was issued to (a UUID as a 128-bit number), when it was issued
/// and when it expires (seconds since the Unix epoch).
#[derive(Debug, Clone, PartialEq, Eq)]
pub struct Claims {
    pub iss: String,
    pub sub: u128,
    pub iat: u64,
    pub exp: u64,
}

/// The issuer that this authority writes into its tokens.
pub open spec fn issuer() -> Seq<char> {
    "authentication"@
}

/// The text form of claims of this issuer.
pub open spec fn claims_json(sub: nat, iat: nat, exp: nat) -> Seq<char> {
    "{\"iss\":\"authentication\",\"sub\":\""@ + dec(sub) + "\",\"iat\":"@ + dec(iat) + ",\"exp\":"@
        + dec(exp) + "}"@
}

/// Subject, issue time and expiry that fit the claims' integer types.
pub open spec fn in_range(x: (nat, nat, nat)) -> bool {
    x.0 <= u128::MAX && x.1 <= u64::MAX && x.2 <= u64::MAX
}

/// `t` is the text form of some claims of this issuer.
pub open spec fn is_claims_json(t: Seq<char>) -> bool {
    exists|x: (nat, nat, nat)| in_range(x) && t == #[trigger] claims_json(x.0, x.1, x.2)
}

/// The subject, issue time and expiry that a text form holds.
pub open spec fn claims_fields(t: Seq<char>) -> Option<(nat, nat, nat)> {
    if is_claims_json(t) {
        Some(choose|x: (nat, nat, nat)| in_range(x) && t == #[trigger] claims_json(x.0, x.1, x.2))
    } else {
        None
    }
}

proof fn lemma_prefix_dec_split(p: Seq<char>, a: nat, x: Seq<char>, b: nat, y: Seq<char>)
    requires
        p + (dec(a) + x) == p + (dec(b) + y),
        x.len() >= 1,
        !is_digit(x[0]),
        y.len() >= 1,
        !is_digit(y[0]),
    ensures
        a == b,
        x == y,
{
    let u = p + (dec(a) + x);
    assert(u.subrange(p.len() as int, u.len() as int) =~= dec(a) + x);
    assert((p + (dec(b) + y)).subrange(p.len() as int, u.len() as int) =~= dec(b) + y);
    lemma_dec_split(a, x, b, y);
}

proof fn lemma_regroup(
    a: Seq<char>,
    b: Seq<char>,
    c: Seq<char>,
    d: Seq<char>,
    e: Seq<char>,
    f: Seq<char>,
    g: Seq<char>,
)
    ensures
        a + b + c + d + e + f + g == a + (b + (c + (d + (e + (f + g))))),
{
    assert(a + b + c + d + e + f + g =~= a + (b + (c + (d + (e + (f + g))))));
}

/// Different claims have different text forms.
pub proof fn lemma_claims_json_injective(x: (nat, nat, nat), y: (nat, nat, nat))
    requires
        claims_json(x.0, x.1, x.2) == claims_json(y.0, y.1, y.2),
    ensures
        x == y,
{
    let lead = "{\"iss\":\"authentication\",\"sub\":\""@;
    let mid_iat = "\",\"iat\":"@;
    let mid_exp = ",\"exp\":"@;
    let close = "}"@;
    lemma_claims_json_shape(0, 0, 0);
    let tx = dec(x.1) + (mid_exp + (dec(x.2) + close));
    let ty = dec(y.1) + (mid_exp + (dec(y.2) + close));
    lemma_regroup(lead, dec(x.0), mid_iat, dec(x.1), mid_exp, dec(x.2), close);
    lemma_regroup(lead, dec(y.0), mid_iat, dec(y.1), mid_exp, dec(y.2), close);
    assert((mid_iat + tx)[0] == mid_iat[0]);
    assert((mid_iat + ty)[0] == mid_iat[0]);
    lemma_prefix_dec_split(lead, x.0, mid_iat + tx, y.0, mid_iat + ty);
    assert((mid_exp + (dec(x.2) + close))[0] == mid_exp[0]);
    assert((mid_exp + (dec(y.2) + close))[0] == mid_exp[0]);
    lemma_prefix_dec_split(mid_iat, x.1, mid_exp + (dec(x.2) + close), y.1, mid_exp + (dec(y.2) + close));
    lemma_prefix_dec_split(mid_exp, x.2, close, y.2, close);
}

impl Claims {
    /// Claims for `user_id`, issued at `now` and expiring one validity
    /// window later.
    pub fn new(user_id: u128, now: u64) -> (r: Claims)
        requires
            now + TOKEN_VALIDITY_SECS <= u64::MAX,
        ensures
            r.iss@ == issuer(),
            r.sub == user_id,
            r.iat == now,
            r.exp == now + TOKEN_VALIDITY_SECS,
    {
        Claims {
            iss: String::from_str("authentication"),
            sub: user_id,
            iat: now,
            exp: now + TOKEN_VALIDITY_SECS,
        }
    }

    /// The text form of these claims.
    pub fn to_json(&self) -> (r: String)
        ensures
            r@ == claims_json(self.sub as nat, self.iat as nat, self.exp as nat),
    {
        let mut out: Vec<char> = Vec::new();
        push_str(&mut out, "{\"iss\":\"authentication\",\"sub\":\"");
        push_dec(&mut out, self.sub);
        push_str(&mut out, "\",\"iat\":");
        push_dec(&mut out, self.iat as u128);
        push_str(&mut out, ",\"exp\":");
        push_dec(&mut out, self.exp as u128);
        push_str(&mut out, "}");
        string_of(&out)
    }

    /// Reads claims from their text form. Only the exact form that
    /// `to_json` writes is accepted.
    pub fn from_json(s: &str) -> (r: Option<Claims>)
        ensures
            r is Some ==> s@ == claims_json(
                r->Some_0.sub as nat,
                r->Some_0.iat as nat,
                r->Some_0.exp as nat,
            ),
            r is Some ==> r->Some_0.iss@ == issuer(),
            forall|sub: nat, iat: nat, exp: nat|
                #![trigger claims_json(sub, iat, exp)]
                sub <= u128::MAX && iat <= u64::MAX && exp <= u64::MAX && s@ == claims_json(
                    sub,
                    iat,
                    exp,
                ) ==> r is Some && r->Some_0.sub == sub && r->Some_0.iat == iat && r->Some_0.exp
                    == exp,
    {
        let t = chars_of(s);
        match parse_claims(&t) {
            Some((sub, iat, exp)) => Some(
                Claims { iss: String::from_str("authentication"), sub, iat, exp },
            ),
            None => None,
        }
    }
}

/// Whether `lit` stands in `t` at `pos`.
fn matches_at(t: &Vec<char>, pos: usize, lit: &str) -> (r: bool)
    requires
        pos <= t@.len(),
    ensures
        r <==> pos + lit@.len() <= t@.len() && t@.subrange(pos as int, pos + lit@.len()) == lit@,
{
    let n = lit.unicode_len();
    if n > t.len() - pos {
        return false;
    }
    let mut i: usize = 0;
    while i < n
        invariant
            n == lit@.len(),
            pos + n <= t@.len() <= usize::MAX,
            i <= n,
            forall|j: int| 0 <= j < i ==> t@[pos + j] == lit@[j],
        decreases n - i,
    {
        if t[pos + i] != lit.get_char(i) {
            assert(t@.subrange(pos as int, pos + n)[i as int] != lit@[i as int]);
            return false;
        }
        i = i + 1;
    }
    assert(t@.subrange(pos as int, pos + n) =~= lit@);
    true
}

proof fn lemma_claims_json_shape(sub: nat, iat: nat, exp: nat)
    ensures
        ({
            let lead = "{\"iss\":\"authentication\",\"sub\":\""@;
            let mid_iat = "\",\"iat\":"@;
            let mid_exp = ",\"exp\":"@;
            let close = "}"@;
            &&& mid_iat.len() >= 1 && !is_digit(mid_iat[0])
            &&& mid_exp.len() >= 1 && !is_digit(mid_exp[0])
            &&& close.len() == 1 && !is_digit(close[0])
        }),
{
    reveal_strlit("\",\"iat\":");
    reveal_strlit(",\"exp\":");
    reveal_strlit("}");
}

/// Reads the number fields of the claims' text form.
#[verifier::rlimit(50)]
fn parse_claims(t: &Vec<char>) -> (r: Option<(u128, u64, u64)>)
    ensures
        r is Some ==> t@ == claims_json(r->Some_0.0 as nat, r->Some_0.1 as nat, r->Some_0.2 as nat),
        forall|sub: nat, iat: nat, exp: nat|
            #![trigger claims_json(sub, iat, exp)]
            sub <= u128::MAX && iat <= u64::MAX && exp <= u64::MAX && t@ == claims_json(
                sub,
                iat,
                exp,
            ) ==> r == Some((sub as u128, iat as u64, exp as u64)),
{
    let lead = "{\"iss\":\"authentication\",\"sub\":\"";
    let mid_iat = "\",\"iat\":";
    let mid_exp = ",\"exp\":";
    let close = "}";
    let ghost tv = t@;
    let ghost l1: int = lead@.len() as int;
    let ghost l2: int = mid_iat@.len() as int;
    let ghost l3: int = mid_exp@.len() as int;
    proof {
        assert forall|sub: nat, iat: nat, exp: nat|
            #![trigger claims_json(sub, iat, exp)]
            sub <= u128::MAX && iat <= u64::MAX && exp <= u64::MAX && tv == claims_json(
                sub,
                iat,
                exp,
            ) implies ({
            let a = l1 + dec(sub).len() as int;
            let b = a + l2 + dec(iat).len() as int;
            let c = b + l3 + dec(exp).len() as int;
            &&& l1 <= tv.len() && a + l2 <= tv.len() && b + l3 <= tv.len()
            &&& tv.subrange(0, l1) == lead@
            &&& read_number(tv, l1, u128::MAX as nat) == Some((sub, a))
            &&& tv.subrange(a, a + l2) == mid_iat@
            &&& read_number(tv, a + l2, u64::MAX as nat) == Some((iat, b))
            &&& tv.subrange(b, b + l3) == mid_exp@
            &&& read_number(tv, b + l3, u64::MAX as nat) == Some((exp, c))
            &&& tv.subrange(c, c + 1) == close@
            &&& c + 1 == tv.len()
        }) by {
            lemma_claims_json_shape(sub, iat, exp);
            lemma_dec(sub);
            lemma_dec(iat);
            lemma_dec(exp);
            let ds = dec(sub);
            let di = dec(iat);
            let de = dec(exp);
            let a = l1 + ds.len() as int;
            let b = a + l2 + di.len() as int;
            let c = b + l3 + de.len() as int;
            assert(tv =~= lead@ + ds + mid_iat@ + di + mid_exp@ + de + close@);
            assert(tv.subrange(0, l1) =~= lead@);
            assert(tv.subrange(l1, a) =~= ds);
            assert(tv[a] == mid_iat@[0]);
            lemma_read_dec(tv, l1, sub, u128::MAX as nat);
            assert(tv.subrange(a, a + l2) =~= mid_iat@);
            assert(tv.subrange(a + l2, b) =~= di);
            assert(tv[b] == mid_exp@[0]);
            lemma_read_dec(tv, a + l2, iat, u64::MAX as nat);
            assert(tv.subrange(b, b + l3) =~= mid_exp@);
            assert(tv.subrange(b + l3, c) =~= de);
            assert(tv[c] == close@[0]);
            lemma_read_dec(tv, b + l3, exp, u64::MAX as nat);
            assert(tv.subrange(c, c + 1) =~= close@);
        }
    }
    let tl = t.len();
    if !matches_at(t, 0, lead) {
        return None;
    }
    let s0 = lead.unicode_len();
    let (sub, a) = match parse_number(t, s0, u128::MAX) {
        Some(x) => x,
        None => return None,
    };
    if !matches_at(t, a, mid_iat) {
        return None;
    }
    let i0 = a + mid_iat.unicode_len();
    let (iat, b) = match parse_number(t, i0, u64::MAX as u128) {
        Some(x) => x,
        None => return None,
    };
    if !matches_at(t, b, mid_exp) {
        return None;
    }
    let e0 = b + mid_exp.unicode_len();
    let (exp, c) = match parse_number(t, e0, u64::MAX as u128) {
        Some(x) => x,
        None => return None,
    };
    if !matches_at(t, c, close) {
        return None;
    }
    if c + close.unicode_len() != tl {
        return None;
    }
    proof {
        reveal_strlit("}");
        lemma_canonical_dec(tv.subrange(s0 as int, a as int));
        lemma_canonical_dec(tv.subrange(i0 as int, b as int));
        lemma_canonical_dec(tv.subrange(e0 as int, c as int));
        assert(tv =~= tv.subrange(0, s0 as int) + tv.subrange(s0 as int, a as int) + tv.subrange(
            a as int,
            i0 as int,
        ) + tv.subrange(i0 as int, b as int) + tv.subrange(b as int, e0 as int) + tv.subrange(
            e0 as int,
            c as int,
        ) + tv.subrange(c as int, c + 1));
    }
    Some((sub, iat as u64, exp as u64))
}

} // verus!
