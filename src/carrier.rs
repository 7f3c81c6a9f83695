//! Finding the session token in what a request carries: text headers on
//! one transport, call metadata on the other, through one interface.
use vstd::prelude::*;

use crate::claims::{issuer, Claims};
use crate::error::CpassError;
use crate::text::{chars_of, same_text, string_of};
use crate::token::{token_outcome, validate_token, SigningKey};

verus! {

/// A carrier of named request entries: looked up by name, read as text.
pub trait Carrier {
    /// The entry under `key`: `None` when there is none, `Some(None)` when
    /// its value is not text, `Some(Some(v))` when it reads as `v`.
    spec fn entry(&self, key: Seq<char>) -> Option<Option<Seq<char>>>;

    /// The text of the entry under `key`; a failure when its value is not
    /// text.
    fn get(&self, key: &str) -> (r: Result<Option<String>, ()>)
        ensures
            match self.entry(key@) {
                None => r == Ok::<Option<String>, ()>(None),
                Some(None) => r is Err,
                Some(Some(v)) => r is Ok && r->Ok_0 is Some && r->Ok_0->Some_0@ == v,
            },
    ;

    /// Whether there is an entry under `key`.
    fn contains_key(&self, key: &str) -> (r: bool)
        ensures
            r <==> self.entry(key@) is Some,
    ;
}

/// The first of the named entries under `key`.
pub open spec fn first_entry(es: Seq<(String, Option<String>)>, key: Seq<char>) -> Option<
    Option<Seq<char>>,
>
    decreases es.len(),
{
    if es.len() == 0 {
        None
    } else if es[0].0@ == key {
        Some(
            match es[0].1 {
                Some(v) => Some(v@),
                None => None,
            },
        )
    } else {
        first_entry(es.drop_first(), key)
    }
}

/// Looks `key` up among named entries.
fn find_entry(es: &Vec<(String, Option<String>)>, key: &str) -> (r: Option<usize>)
    ensures
        match first_entry(es@, key@) {
            None => r is None,
            Some(_) => r is Some && r->Some_0 < es@.len() && es@[r->Some_0 as int].0@ == key@
                && first_entry(es@, key@) == Some(
                match es@[r->Some_0 as int].1 {
                    Some(v) => Some(v@),
                    None => None,
                },
            ),
        },
{
    let mut i: usize = 0;
    assert(es@.subrange(0, es@.len() as int) =~= es@);
    while i < es.len()
        invariant
            i <= es@.len(),
            first_entry(es@, key@) == first_entry(es@.subrange(i as int, es@.len() as int), key@),
        decreases es@.len() - i,
    {
        let ghost rest = es@.subrange(i as int, es@.len() as int);
        if same_text(es[i].0.as_str(), key) {
            assert(rest[0] == es@[i as int]);
            return Some(i);
        }
        assert(rest.drop_first() =~= es@.subrange(i + 1, es@.len() as int));
        i = i + 1;
    }
    None
}

/// The headers of a text request, by lower-case name; a value that is not
/// visible ASCII text is held as `None`.
#[derive(Debug, Clone, PartialEq, Eq)]
pub struct HeaderCarrier {
    pub entries: Vec<(String, Option<String>)>,
}

impl Carrier for HeaderCarrier {
    open spec fn entry(&self, key: Seq<char>) -> Option<Option<Seq<char>>> {
        first_entry(self.entries@, key)
    }

    fn get(&self, key: &str) -> (r: Result<Option<String>, ()>) {
        match find_entry(&self.entries, key) {
            None => Ok(None),
            Some(i) => match &self.entries[i].1 {
                Some(v) => Ok(Some(v.clone())),
                None => Err(()),
            },
        }
    }

    fn contains_key(&self, key: &str) -> (r: bool) {
        find_entry(&self.entries, key).is_some()
    }
}

/// A value of call metadata: text, or bytes under a `-bin` key.
#[derive(Debug, Clone, PartialEq, Eq)]
pub enum MetadataValue {
    /// A text value; `None` when it is not visible ASCII.
    Ascii(Option<String>),
    /// A binary value, which a text lookup does not see.
    Binary(Vec<u8>),
}

/// The first text entry of call metadata under `key`.
pub open spec fn first_metadata(es: Seq<(String, MetadataValue)>, key: Seq<char>) -> Option<
    Option<Seq<char>>,
>
    decreases es.len(),
{
    if es.len() == 0 {
        None
    } else if es[0].0@ == key && es[0].1 is Ascii {
        Some(
            match es[0].1 {
                MetadataValue::Ascii(Some(v)) => Some(v@),
                _ => None,
            },
        )
    } else {
        first_metadata(es.drop_first(), key)
    }
}

/// The metadata of a binary call, by lower-case key.
#[derive(Debug, Clone, PartialEq, Eq)]
pub struct MetadataCarrier {
    pub entries: Vec<(String, MetadataValue)>,
}

impl MetadataCarrier {
    fn find(&self, key: &str) -> (r: Option<usize>)
        ensures
            match first_metadata(self.entries@, key@) {
                None => r is None,
                Some(e) => r is Some && r->Some_0 < self.entries@.len() && self.entries@[r->Some_0 as int].1 is Ascii
                    && e == match self.entries@[r->Some_0 as int].1 {
                    MetadataValue::Ascii(Some(v)) => Some(v@),
                    _ => None,
                },
            },
    {
        let es = &self.entries;
        let mut i: usize = 0;
        assert(es@.subrange(0, es@.len() as int) =~= es@);
        while i < es.len()
            invariant
                es == &self.entries,
                i <= es@.len(),
                first_metadata(es@, key@) == first_metadata(
                    es@.subrange(i as int, es@.len() as int),
                    key@,
                ),
            decreases es@.len() - i,
        {
            let ghost rest = es@.subrange(i as int, es@.len() as int);
            assert(rest[0] == es@[i as int]);
            let is_text = match &es[i].1 {
                MetadataValue::Ascii(_) => true,
                MetadataValue::Binary(_) => false,
            };
            if is_text && same_text(es[i].0.as_str(), key) {
                return Some(i);
            }
            assert(rest.drop_first() =~= es@.subrange(i + 1, es@.len() as int));
            i = i + 1;
        }
        None
    }
}

impl Carrier for MetadataCarrier {
    open spec fn entry(&self, key: Seq<char>) -> Option<Option<Seq<char>>> {
        first_metadata(self.entries@, key)
    }

    fn get(&self, key: &str) -> (r: Result<Option<String>, ()>) {
        match self.find(key) {
            None => Ok(None),
            Some(i) => match &self.entries[i].1 {
                MetadataValue::Ascii(Some(v)) => Ok(Some(v.clone())),
                _ => Err(()),
            },
        }
    }

    fn contains_key(&self, key: &str) -> (r: bool) {
        self.find(key).is_some()
    }
}

/// `v` is the space at `i` and the only space of `v`.
pub open spec fn only_space_at(v: Seq<char>, i: int) -> bool {
    &&& 0 <= i < v.len()
    &&& v[i] == ' '
    &&& forall|j: int| 0 <= j < v.len() && j != i ==> v[j] != ' '
}

/// The token of a `<scheme> <token>` value: what follows its one space.
pub open spec fn bearer_token(v: Seq<char>) -> Option<Seq<char>> {
    if exists|i: int| only_space_at(v, i) {
        let i = choose|i: int| only_space_at(v, i);
        Some(v.subrange(i + 1, v.len() as int))
    } else {
        None
    }
}

/// Splits a `<scheme> <token>` value and returns the token; `None` unless
/// the value has exactly one space.
pub fn split_bearer(value: &str) -> (r: Option<String>)
    ensures
        match bearer_token(value@) {
            None => r is None,
            Some(t) => r is Some && r->Some_0@ == t,
        },
{
    let v = chars_of(value);
    let mut i: usize = 0;
    let mut first: usize = 0;
    let mut count: usize = 0;
    while i < v.len()
        invariant
            v@ == value@,
            i <= v@.len(),
            count <= i,
            count == 0 ==> forall|j: int| 0 <= j < i ==> v@[j] != ' ',
            count >= 1 ==> first < i && v@[first as int] == ' ',
            count == 1 ==> forall|j: int| 0 <= j < i && j != first ==> v@[j] != ' ',
            count >= 2 ==> exists|j: int| 0 <= j < i && j != first && v@[j] == ' ',
        decreases v@.len() - i,
    {
        if v[i] == ' ' {
            if count == 0 {
                first = i;
            }
            if count < 2 {
                count = count + 1;
            }
        }
        i = i + 1;
    }
    if count != 1 {
        proof {
            if count == 0 {
                assert forall|k: int| !only_space_at(value@, k) by {
                    if 0 <= k < v@.len() {
                        assert(v@[k] != ' ');
                    }
                }
            } else {
                let j = choose|j: int| 0 <= j < v@.len() && j != first && v@[j] == ' ';
                assert forall|k: int| !only_space_at(value@, k) by {
                    if only_space_at(value@, k) {
                        if k == first {
                            assert(v@[j] != ' ');
                        } else {
                            assert(v@[first as int] != ' ');
                        }
                    }
                }
            }
        }
        return None;
    }
    assert(only_space_at(value@, first as int));
    proof {
        let k = choose|k: int| only_space_at(value@, k);
        if k != first {
            assert(v@[k] != ' ');
        }
    }
    let mut token: Vec<char> = Vec::new();
    let mut k: usize = first + 1;
    while k < v.len()
        invariant
            v@ == value@,
            first + 1 <= k <= v@.len(),
            token@ == v@.subrange(first + 1, k as int),
        decreases v@.len() - k,
    {
        token.push(v[k]);
        k = k + 1;
        assert(token@ =~= v@.subrange(first + 1, k as int));
    }
    Some(string_of(&token))
}

/// Finds the `authorization` entry, takes the token out of its
/// `<scheme> <token>` value and checks it at `now`. The same logic serves
/// both carriers.
pub fn claims_from_headers<C: Carrier>(headers: &C, key: &SigningKey, now: u64) -> (r: Result<
    Claims,
    CpassError,
>)
    ensures
        match headers.entry("authorization"@) {
            None => r matches Err(CpassError::InvalidRequest(_)),
            Some(None) => r matches Err(CpassError::InvalidRequest(_)),
            Some(Some(v)) => match bearer_token(v) {
                None => r matches Err(CpassError::InvalidRequest(_)),
                Some(t) => match token_outcome(t, key.bytes@, now as nat) {
                    Some(c) => r is Ok && r->Ok_0.sub == c.0 && r->Ok_0.iat == c.1 && r->Ok_0.exp
                        == c.2 && r->Ok_0.iss@ == issuer(),
                    None => r == Err::<Claims, CpassError>(CpassError::InvalidToken),
                },
            },
        },
{
    if !headers.contains_key("authorization") {
        return Err(CpassError::InvalidRequest("No authorization token was found".to_string()));
    }
    let value = match headers.get("authorization") {
        Ok(Some(v)) => v,
        _ => {
            return Err(CpassError::InvalidRequest("Wrong authorization Bearer format".to_string()))
        },
    };
    let token = match split_bearer(value.as_str()) {
        Some(t) => t,
        None => {
            return Err(CpassError::InvalidRequest("Wrong authorization Bearer format".to_string()))
        },
    };
    validate_token(token.as_str(), key, now)
}

} // verus!
