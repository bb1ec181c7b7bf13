//! The payload stored for one provider: the JSON object
//! `{"provider":..,"api_key":..,"custom_endpoint":.. | null}`.
//!
//! JSON string literals are written and objects are parsed by `serde_json`;
//! the layout of the object and the selection of its fields are this
//! module's own.
use vstd::prelude::*;

verus! {

/// Text before the provider's string literal.
pub const OPEN_PROVIDER: &'static str = "{\"provider\":";

/// Text between the provider and the secret.
pub const AFTER_PROVIDER: &'static str = ",\"api_key\":";

/// Text between the secret and the endpoint value.
pub const AFTER_KEY: &'static str = ",\"custom_endpoint\":";

/// The endpoint value of a record without an override.
pub const NULL_VALUE: &'static str = "null";

/// Text that closes the object.
pub const CLOSE: &'static str = "}";

/// Member names of the stored object.
pub const PROVIDER_FIELD: &'static str = "provider";

pub const API_KEY_FIELD: &'static str = "api_key";

pub const ENDPOINT_FIELD: &'static str = "custom_endpoint";

/// One provider's stored credential.
#[derive(Debug, Clone)]
pub struct CredentialRecord {
    pub provider: String,
    pub api_key: String,
    pub custom_endpoint: Option<String>,
}

/// The text of an optional string.
pub open spec fn opt_text(o: Option<String>) -> Option<Seq<char>> {
    match o {
        Some(s) => Some(s@),
        None => None,
    }
}

impl View for CredentialRecord {
    type V = (Seq<char>, Seq<char>, Option<Seq<char>>);

    open spec fn view(&self) -> Self::V {
        (self.provider@, self.api_key@, opt_text(self.custom_endpoint))
    }
}

/// The view of an optional record.
pub open spec fn opt_record(o: Option<CredentialRecord>) -> Option<(Seq<char>, Seq<char>, Option<Seq<char>>)> {
    match o {
        Some(r) => Some(r@),
        None => None,
    }
}

/// What `serde_json` writes for the string `s`: a JSON string literal,
/// quotes included.
pub uninterp spec fn json_string_of(s: Seq<char>) -> Option<Seq<char>>;

/// The members of the JSON object `t` whose values are all strings or null,
/// as `serde_json` reads them into an ordered map; `None` when `t` is not
/// such an object.
pub uninterp spec fn json_object_of(t: Seq<char>) -> Option<Seq<(Seq<char>, Option<Seq<char>>)>>;

/// The text of one member.
pub open spec fn member_text(m: (String, Option<String>)) -> (Seq<char>, Option<Seq<char>>) {
    (m.0@, opt_text(m.1))
}

/// The text of a list of members.
pub open spec fn members_text(v: Seq<(String, Option<String>)>) -> Seq<(Seq<char>, Option<Seq<char>>)> {
    v.map_values(|m: (String, Option<String>)| member_text(m))
}

/// The text of an optional list of members.
pub open spec fn opt_members(o: Option<Vec<(String, Option<String>)>>) -> Option<Seq<(Seq<char>, Option<Seq<char>>)>> {
    match o {
        Some(v) => Some(members_text(v@)),
        None => None,
    }
}

/// Relies on `serde_json::to_string` on a `str`: the JSON string literal
/// that holds `s`; the result depends on `s` alone.
#[verifier::external_body]
fn json_string(s: &str) -> (r: Option<String>)
    ensures
        opt_text(r) == json_string_of(s@),
{
    serde_json::to_string(s).ok()
}

/// Relies on `serde_json::from_str` into a
/// `std::collections::BTreeMap<String, Option<String>>`: the members of a JSON
/// object whose values are strings or null, in key order; the result depends
/// on `t` alone.
#[verifier::external_body]
fn json_object(t: &str) -> (r: Option<Vec<(String, Option<String>)>>)
    ensures
        opt_members(r) == json_object_of(t@),
{
    serde_json::from_str::<std::collections::BTreeMap<String, Option<String>>>(t).ok().map(
        |m| m.into_iter().collect(),
    )
}

/// Relies on `String::push`: appends one character.
#[verifier::external_body]
pub(crate) fn push_char(s: &mut String, c: char)
    ensures
        final(s)@ == old(s)@.push(c),
{
    s.push(c)
}

/// The object that holds the literals `p`, `k` and `e` (`None`: null).
pub open spec fn frame_spec(p: Seq<char>, k: Seq<char>, e: Option<Seq<char>>) -> Seq<char> {
    OPEN_PROVIDER@ + p + AFTER_PROVIDER@ + k + AFTER_KEY@ + match e {
        Some(x) => x,
        None => NULL_VALUE@,
    } + CLOSE@
}

/// The payload that holds a record, when each of its strings can be written.
pub open spec fn encode_spec(p: Seq<char>, k: Seq<char>, e: Option<Seq<char>>) -> Option<Seq<char>> {
    match (json_string_of(p), json_string_of(k)) {
        (Some(pj), Some(kj)) => match e {
            None => Some(frame_spec(pj, kj, None)),
            Some(es) => match json_string_of(es) {
                Some(ej) => Some(frame_spec(pj, kj, Some(ej))),
                None => None,
            },
        },
        _ => None,
    }
}

/// The object that holds the JSON literals of a record's fields.
pub fn frame_record(provider_json: &str, api_key_json: &str, endpoint_json: Option<&str>) -> (t: String)
    ensures
        t@ == frame_spec(
            provider_json@,
            api_key_json@,
            match endpoint_json {
                Some(x) => Some(x@),
                None => None,
            },
        ),
{
    let mut t = String::from_str(OPEN_PROVIDER);
    t.append(provider_json);
    t.append(AFTER_PROVIDER);
    t.append(api_key_json);
    t.append(AFTER_KEY);
    match endpoint_json {
        Some(e) => t.append(e),
        None => t.append(NULL_VALUE),
    }
    t.append(CLOSE);
    t
}

/// The payload that stores `r`; `None` when one of its strings cannot be
/// written.
pub fn encode_record(r: &CredentialRecord) -> (t: Option<String>)
    ensures
        opt_text(t) == encode_spec(r@.0, r@.1, r@.2),
{
    let p = match json_string(r.provider.as_str()) {
        Some(p) => p,
        None => return None,
    };
    let k = match json_string(r.api_key.as_str()) {
        Some(k) => k,
        None => return None,
    };
    match &r.custom_endpoint {
        None => Some(frame_record(p.as_str(), k.as_str(), None)),
        Some(e) => match json_string(e.as_str()) {
            Some(ej) => Some(frame_record(p.as_str(), k.as_str(), Some(ej.as_str()))),
            None => None,
        },
    }
}

/// The value of the first member named `name`.
pub open spec fn field(members: Seq<(Seq<char>, Option<Seq<char>>)>, name: Seq<char>) -> Option<Option<Seq<char>>>
    decreases members.len(),
{
    if members.len() == 0 {
        None
    } else if members[0].0 == name {
        Some(members[0].1)
    } else {
        field(members.drop_first(), name)
    }
}

/// The record that an object's members hold: a provider and a secret that
/// are strings, and an endpoint that is a string, null or missing. Other
/// members are ignored.
pub open spec fn decode_fields(members: Seq<(Seq<char>, Option<Seq<char>>)>) -> Option<(Seq<char>, Seq<char>, Option<Seq<char>>)> {
    match (field(members, PROVIDER_FIELD@), field(members, API_KEY_FIELD@)) {
        (Some(Some(p)), Some(Some(k))) => Some(
            (
                p,
                k,
                match field(members, ENDPOINT_FIELD@) {
                    Some(e) => e,
                    None => None,
                },
            ),
        ),
        _ => None,
    }
}

/// The record that payload `t` holds, if it is one.
pub open spec fn decode_spec(t: Seq<char>) -> Option<(Seq<char>, Seq<char>, Option<Seq<char>>)> {
    match json_object_of(t) {
        Some(members) => decode_fields(members),
        None => None,
    }
}

/// The value of the first member named `name`.
fn find_field(members: &Vec<(String, Option<String>)>, name: &str) -> (r: Option<Option<String>>)
    ensures
        match r {
            Some(v) => field(members_text(members@), name@) == Some(opt_text(v)),
            None => field(members_text(members@), name@) is None,
        },
{
    let key = String::from_str(name);
    let ghost all = members_text(members@);
    let mut i: usize = 0;
    assert(all.skip(0) =~= all);
    while i < members.len()
        invariant
            i <= members.len(),
            all == members_text(members@),
            key@ == name@,
            field(all, name@) == field(all.skip(i as int), name@),
        decreases members.len() - i,
    {
        assert(all.skip(i as int)[0] == member_text(members@[i as int]));
        if members[i].0 == key {
            return match &members[i].1 {
                Some(v) => Some(Some(v.clone())),
                None => Some(None),
            };
        }
        assert(all.skip(i as int).drop_first() =~= all.skip(i + 1));
        i = i + 1;
    }
    assert(all.skip(i as int).len() == 0);
    None
}

/// The record that an object's members hold, if they hold one.
pub fn record_from_fields(members: &Vec<(String, Option<String>)>) -> (r: Option<CredentialRecord>)
    ensures
        opt_record(r) == decode_fields(members_text(members@)),
{
    let provider = match find_field(members, PROVIDER_FIELD) {
        Some(Some(p)) => p,
        _ => return None,
    };
    let api_key = match find_field(members, API_KEY_FIELD) {
        Some(Some(k)) => k,
        _ => return None,
    };
    let custom_endpoint = match find_field(members, ENDPOINT_FIELD) {
        Some(e) => e,
        None => None,
    };
    Some(CredentialRecord { provider, api_key, custom_endpoint })
}

/// The record that payload `t` holds, or `None` when it holds none.
pub fn decode_record(t: &str) -> (r: Option<CredentialRecord>)
    ensures
        opt_record(r) == decode_spec(t@),
{
    match json_object(t) {
        Some(members) => record_from_fields(&members),
        None => None,
    }
}

proof fn lemma_field_cons(
    h: (Seq<char>, Option<Seq<char>>),
    rest: Seq<(Seq<char>, Option<Seq<char>>)>,
    name: Seq<char>,
)
    ensures
        field(seq![h] + rest, name) == if h.0 == name {
            Some(h.1)
        } else {
            field(rest, name)
        },
{
    let m = seq![h] + rest;
    assert(m[0] == h);
    assert(m.drop_first() =~= rest);
}

/// The members of a stored record, in the key order in which they are read,
/// give back that record; so does the same object without an endpoint.
pub proof fn lemma_record_members_decode(p: Seq<char>, k: Seq<char>, e: Option<Seq<char>>)
    ensures
        decode_fields(seq![(API_KEY_FIELD@, Some(k)), (ENDPOINT_FIELD@, e), (PROVIDER_FIELD@, Some(p))])
            == Some((p, k, e)),
        decode_fields(seq![(API_KEY_FIELD@, Some(k)), (PROVIDER_FIELD@, Some(p))]) == Some(
            (p, k, None::<Seq<char>>),
        ),
{
    reveal_strlit("provider");
    reveal_strlit("api_key");
    reveal_strlit("custom_endpoint");
    let pf = PROVIDER_FIELD@;
    let kf = API_KEY_FIELD@;
    let ef = ENDPOINT_FIELD@;
    assert(kf != pf && ef != pf && kf != ef) by {
        assert(kf[0] != pf[0]);
        assert(ef[0] != pf[0]);
        assert(kf[0] != ef[0]);
    }
    let a = (kf, Some(k));
    let b = (ef, e);
    let c = (pf, Some(p));
    let empty = Seq::<(Seq<char>, Option<Seq<char>>)>::empty();
    let sc = seq![c] + empty;
    let sbc = seq![b] + sc;
    let m = seq![a] + sbc;
    assert(m =~= seq![a, b, c]);
    assert(sc =~= seq![c]);
    let n = seq![a] + sc;
    assert(n =~= seq![a, c]);
    assert(field(empty, pf) == None::<Option<Seq<char>>>);
    assert(field(empty, kf) == None::<Option<Seq<char>>>);
    assert(field(empty, ef) == None::<Option<Seq<char>>>);
    lemma_field_cons(c, empty, pf);
    lemma_field_cons(c, empty, kf);
    lemma_field_cons(c, empty, ef);
    lemma_field_cons(b, sc, pf);
    lemma_field_cons(b, sc, kf);
    lemma_field_cons(b, sc, ef);
    lemma_field_cons(a, sbc, pf);
    lemma_field_cons(a, sbc, kf);
    lemma_field_cons(a, sbc, ef);
    lemma_field_cons(a, sc, pf);
    lemma_field_cons(a, sc, kf);
    lemma_field_cons(a, sc, ef);
}

} // verus!
