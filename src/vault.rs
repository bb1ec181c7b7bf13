//! Per-provider credentials in the operating system's secret store.
//!
//! Each provider's record is one entry of the store, named from a fixed
//! service identifier and the provider. The store cannot list its entries, so
//! enumeration probes a fixed catalog of providers.
use vstd::prelude::*;
use crate::codec::{CredentialRecord, decode_record, decode_spec, encode_record, encode_spec, opt_text, push_char};
use crate::texts;

verus! {

#[verifier::external_type_specification]
#[verifier::external_body]
pub struct ExEntry(keyring::Entry);

#[verifier::external_type_specification]
#[verifier::external_body]
pub struct ExKeyringError(keyring::Error);

/// Service under which every entry is filed.
pub const SERVICE_NAME: &'static str = "com.echov2.app";

/// Prefix of every entry name.
pub const API_KEY_PREFIX: &'static str = "api_key";

/// Relies on `keyring::Entry::new`: the entry of `service` and `user` in the
/// platform's default store, or the store's error.
#[verifier::external_body]
fn open_entry(service: &str, user: &str) -> Result<keyring::Entry, keyring::Error> {
    keyring::Entry::new(service, user)
}

/// Relies on `keyring::Entry::set_password`: writes the entry's secret.
#[verifier::external_body]
fn write_secret(entry: &keyring::Entry, secret: &str) -> Result<(), keyring::Error> {
    entry.set_password(secret)
}

/// Relies on `keyring::Entry::get_password`: reads the entry's secret.
#[verifier::external_body]
fn read_secret(entry: &keyring::Entry) -> Result<String, keyring::Error> {
    entry.get_password()
}

/// Relies on `keyring::Entry::delete_password`: removes the entry's secret.
#[verifier::external_body]
fn delete_secret(entry: &keyring::Entry) -> Result<(), keyring::Error> {
    entry.delete_password()
}

/// Relies on the variant `keyring::Error::NoEntry`: the store holds no such entry.
#[verifier::external_body]
fn is_no_entry(e: &keyring::Error) -> bool {
    matches!(e, keyring::Error::NoEntry)
}

/// Relies on `keyring::Error`'s `Display`: a description of the failure.
#[verifier::external_body]
fn describe(e: &keyring::Error) -> String {
    e.to_string()
}

/// The operation that the secret store failed.
#[derive(Debug, Clone, Copy, PartialEq, Eq, Structural)]
pub enum VaultOp {
    OpenEntry,
    Store,
    Retrieve,
    Delete,
}

/// A failed vault operation. No variant carries a secret.
#[derive(Debug, Clone, PartialEq, Eq)]
pub enum VaultError {
    /// The secret store refused or failed `op` on the provider's entry.
    StoreAccess { op: VaultOp, provider: String, detail: String },
    /// The provider's stored payload is not a well-formed record.
    Deserialization { provider: String },
    /// The record could not be written as a payload.
    Serialization { provider: String },
}

impl VaultError {
    /// The provider that the failed operation was about.
    pub open spec fn provider_spec(&self) -> Seq<char> {
        match self {
            VaultError::StoreAccess { provider, .. } => provider@,
            VaultError::Deserialization { provider } => provider@,
            VaultError::Serialization { provider } => provider@,
        }
    }

    /// A message for the user interface: the operation, the provider and
    /// the store's description, never a secret.
    pub fn message(&self) -> (m: String)
        ensures
            m@ == message_spec(*self),
    {
        match self {
            VaultError::StoreAccess { op, provider, detail } => {
                let mut m = String::from_str(op_prefix(*op));
                m.append(provider.as_str());
                m.append(": ");
                m.append(detail.as_str());
                m
            },
            VaultError::Deserialization { provider } => {
                let mut m = String::from_str("Failed to deserialize API key data for ");
                m.append(provider.as_str());
                m
            },
            VaultError::Serialization { provider } => {
                let mut m = String::from_str("Failed to serialize API key data for ");
                m.append(provider.as_str());
                m
            },
        }
    }
}

/// The opening words of the message of a failed operation.
pub open spec fn op_prefix_spec(op: VaultOp) -> Seq<char> {
    match op {
        VaultOp::OpenEntry => "Failed to create keyring entry for "@,
        VaultOp::Store => "Failed to store API key for "@,
        VaultOp::Retrieve => "Failed to retrieve API key for "@,
        VaultOp::Delete => "Failed to delete API key for "@,
    }
}

/// The message of a failure.
pub open spec fn message_spec(e: VaultError) -> Seq<char> {
    match e {
        VaultError::StoreAccess { op, provider, detail } => op_prefix_spec(op) + provider@ + ": "@
            + detail@,
        VaultError::Deserialization { provider } => "Failed to deserialize API key data for "@
            + provider@,
        VaultError::Serialization { provider } => "Failed to serialize API key data for "@
            + provider@,
    }
}

fn op_prefix(op: VaultOp) -> (r: &'static str)
    ensures
        r@ == op_prefix_spec(op),
{
    match op {
        VaultOp::OpenEntry => "Failed to create keyring entry for ",
        VaultOp::Store => "Failed to store API key for ",
        VaultOp::Retrieve => "Failed to retrieve API key for ",
        VaultOp::Delete => "Failed to delete API key for ",
    }
}

/// The operation that the store failed, for a store failure.
pub open spec fn failed_op(e: VaultError) -> Option<VaultOp> {
    match e {
        VaultError::StoreAccess { op, .. } => Some(op),
        _ => None,
    }
}

/// Name of the entry that holds a provider's record.
pub open spec fn entry_name_spec(provider: Seq<char>) -> Seq<char> {
    API_KEY_PREFIX@.push('_') + provider
}

/// Name of the entry that holds a provider's record.
pub fn entry_name(provider: &str) -> (r: String)
    ensures
        r@ == entry_name_spec(provider@),
{
    let mut r = String::from_str(API_KEY_PREFIX);
    push_char(&mut r, '_');
    r.append(provider);
    r
}

/// Distinct providers have distinct entries, so a record of one provider
/// never replaces or shadows the record of another.
pub proof fn lemma_entry_names_distinct(p1: Seq<char>, p2: Seq<char>)
    requires
        p1 != p2,
    ensures
        entry_name_spec(p1) != entry_name_spec(p2),
{
    let n = API_KEY_PREFIX@.len() + 1;
    if entry_name_spec(p1) == entry_name_spec(p2) {
        assert(entry_name_spec(p1).subrange(n as int, entry_name_spec(p1).len() as int) =~= p1);
        assert(entry_name_spec(p2).subrange(n as int, entry_name_spec(p2).len() as int) =~= p2);
    }
}

/// The failure of `op` on the provider's entry, described by the store.
fn access_error(op: VaultOp, provider: &str, e: &keyring::Error) -> (r: VaultError)
    ensures
        failed_op(r) == Some(op),
        r.provider_spec() == provider@,
{
    VaultError::StoreAccess { op, provider: String::from_str(provider), detail: describe(e) }
}

/// What the secret store answered to one operation on an entry.
#[derive(Debug, Clone, PartialEq, Eq)]
pub enum StoreReply<T> {
    /// The operation succeeded with this value.
    Done(T),
    /// The store holds no such entry.
    NoEntry,
    /// Any other failure, described.
    Failed(String),
}

/// The store's answer to an operation, as a reply.
fn reply_of<T>(r: Result<T, keyring::Error>) -> (reply: StoreReply<T>)
    ensures
        r is Ok ==> reply == StoreReply::Done(r->Ok_0),
        r is Err ==> reply !is Done,
{
    match r {
        Ok(v) => StoreReply::Done(v),
        Err(e) => if is_no_entry(&e) {
            StoreReply::NoEntry
        } else {
            StoreReply::Failed(describe(&e))
        },
    }
}

/// The outcome of a read, from the store's reply. A missing entry is no
/// record, not a failure; a payload that is not a well-formed record is.
pub fn read_outcome(provider: &str, reply: StoreReply<String>) -> (r: Result<Option<CredentialRecord>, VaultError>)
    ensures
        reply is NoEntry ==> r matches Ok(None),
        reply matches StoreReply::Done(t) ==> match decode_spec(t@) {
            Some(v) => r matches Ok(Some(rec)) && rec@ == v,
            None => r matches Err(e) && e is Deserialization && e.provider_spec() == provider@,
        },
        reply matches StoreReply::Failed(d) ==> r matches Err(
            VaultError::StoreAccess { op, provider: p, detail },
        ) && op == VaultOp::Retrieve && p@ == provider@ && detail == d,
{
    match reply {
        StoreReply::NoEntry => Ok(None),
        StoreReply::Done(t) => match decode_record(t.as_str()) {
            Some(rec) => Ok(Some(rec)),
            None => Err(VaultError::Deserialization { provider: String::from_str(provider) }),
        },
        StoreReply::Failed(detail) => Err(
            VaultError::StoreAccess { op: VaultOp::Retrieve, provider: String::from_str(provider), detail },
        ),
    }
}

/// The outcome of a delete, from the store's reply. Deleting what is
/// already absent succeeds.
pub fn delete_outcome(provider: &str, reply: StoreReply<()>) -> (r: Result<(), VaultError>)
    ensures
        reply !is Failed <==> r is Ok,
        reply matches StoreReply::Failed(d) ==> r matches Err(
            VaultError::StoreAccess { op, provider: p, detail },
        ) && op == VaultOp::Delete && p@ == provider@ && detail == d,
{
    match reply {
        StoreReply::Done(()) => Ok(()),
        StoreReply::NoEntry => Ok(()),
        StoreReply::Failed(detail) => Err(
            VaultError::StoreAccess { op: VaultOp::Delete, provider: String::from_str(provider), detail },
        ),
    }
}

/// The entry name and the payload that storing `{provider, api_key,
/// custom_endpoint}` writes; a serialization error when the record cannot be
/// written.
pub fn store_request(provider: String, api_key: String, custom_endpoint: Option<String>) -> (r: Result<(String, String), VaultError>)
    ensures
        match encode_spec(provider@, api_key@, opt_text(custom_endpoint)) {
            Some(t) => r matches Ok((n, payload)) && n@ == entry_name_spec(provider@) && payload@ == t,
            None => r matches Err(VaultError::Serialization { provider: p }) && p@ == provider@,
        },
{
    let name = entry_name(provider.as_str());
    let record = CredentialRecord { provider, api_key, custom_endpoint };
    match encode_record(&record) {
        Some(payload) => Ok((name, payload)),
        None => Err(VaultError::Serialization { provider: record.provider }),
    }
}

/// What a failed store reports: a serialization error exactly when the
/// record cannot be written, else the failure of opening the entry or of
/// writing it.
pub open spec fn store_failure(provider: Seq<char>, api_key: Seq<char>, custom_endpoint: Option<Seq<char>>, e: VaultError) -> bool {
    &&& e.provider_spec() == provider
    &&& (e is Serialization <==> encode_spec(provider, api_key, custom_endpoint) is None)
    &&& e is Serialization || failed_op(e) == Some(VaultOp::OpenEntry) || failed_op(e) == Some(
        VaultOp::Store,
    )
}

/// Stores the record `{provider, api_key, custom_endpoint}`, replacing
/// whatever the provider's entry held, by writing what `store_request` gives.
pub fn store_api_key(provider: String, api_key: String, custom_endpoint: Option<String>) -> (r: Result<(), VaultError>)
    ensures
        r matches Err(e) ==> store_failure(provider@, api_key@, opt_text(custom_endpoint), e),
{
    let label = provider.clone();
    let (name, payload) = match store_request(provider, api_key, custom_endpoint) {
        Ok(x) => x,
        Err(e) => return Err(e),
    };
    let entry = match open_entry(SERVICE_NAME, name.as_str()) {
        Ok(entry) => entry,
        Err(e) => return Err(access_error(VaultOp::OpenEntry, label.as_str(), &e)),
    };
    match write_secret(&entry, payload.as_str()) {
        Ok(()) => Ok(()),
        Err(e) => Err(access_error(VaultOp::Store, label.as_str(), &e)),
    }
}

/// Stores a record carried over from a legacy, insecure location: the same
/// operation as `store_api_key`.
pub fn migrate_from_localstorage(provider: String, api_key: String, custom_endpoint: Option<String>) -> (r: Result<(), VaultError>)
    ensures
        r matches Err(e) ==> store_failure(provider@, api_key@, opt_text(custom_endpoint), e),
{
    store_api_key(provider, api_key, custom_endpoint)
}

/// The provider's record: `None` when the store holds none. A record comes
/// only from a well-formed payload.
pub fn get_api_key(provider: &str) -> (r: Result<Option<CredentialRecord>, VaultError>)
    ensures
        r matches Ok(Some(rec)) ==> exists|t: Seq<char>| decode_spec(t) == Some(rec@),
        r matches Err(e) ==> e.provider_spec() == provider@ && (e is Deserialization || failed_op(e)
            == Some(VaultOp::OpenEntry) || failed_op(e) == Some(VaultOp::Retrieve)),
{
    let name = entry_name(provider);
    let entry = match open_entry(SERVICE_NAME, name.as_str()) {
        Ok(entry) => entry,
        Err(e) => return Err(access_error(VaultOp::OpenEntry, provider, &e)),
    };
    let reply = reply_of(read_secret(&entry));
    let ghost stored = reply;
    let r = read_outcome(provider, reply);
    proof {
        if r is Ok && r->Ok_0 is Some {
            assert(decode_spec(stored->Done_0@) == Some(r->Ok_0->Some_0@));
        }
    }
    r
}

/// Removes the provider's record. An entry that is already absent is no
/// failure.
pub fn delete_api_key(provider: &str) -> (r: Result<(), VaultError>)
    ensures
        r matches Err(e) ==> e.provider_spec() == provider@ && (failed_op(e) == Some(VaultOp::OpenEntry)
            || failed_op(e) == Some(VaultOp::Delete)),
{
    let name = entry_name(provider);
    let entry = match open_entry(SERVICE_NAME, name.as_str()) {
        Ok(entry) => entry,
        Err(e) => return Err(access_error(VaultOp::OpenEntry, provider, &e)),
    };
    delete_outcome(provider, reply_of(delete_secret(&entry)))
}

/// The providers that enumeration probes, in order.
pub open spec fn catalog() -> Seq<Seq<char>> {
    seq!["openai"@, "anthropic"@, "google"@, "ollama"@]
}

/// The providers that enumeration probes, in order.
pub fn provider_catalog() -> (r: Vec<String>)
    ensures
        texts(r@) == catalog(),
{
    let mut r: Vec<String> = Vec::new();
    r.push(String::from_str("openai"));
    r.push(String::from_str("anthropic"));
    r.push(String::from_str("google"));
    r.push(String::from_str("ollama"));
    assert(texts(r@) =~= catalog());
    r
}

/// The names of `names` whose flag in `found` is set, in order.
pub open spec fn present_among(names: Seq<Seq<char>>, found: Seq<bool>) -> Seq<Seq<char>>
    decreases names.len(),
{
    if names.len() == 0 || found.len() == 0 {
        Seq::empty()
    } else {
        let rest = present_among(names.drop_last(), found.drop_last());
        if found.last() {
            rest.push(names.last())
        } else {
            rest
        }
    }
}

/// Every name that `present_among` reports is one of `names`.
pub proof fn lemma_present_among_within(names: Seq<Seq<char>>, found: Seq<bool>)
    ensures
        forall|i: int| 0 <= i < present_among(names, found).len() ==> names.contains(
            #[trigger] present_among(names, found)[i],
        ),
    decreases names.len(),
{
    if names.len() > 0 && found.len() > 0 {
        let rest = present_among(names.drop_last(), found.drop_last());
        lemma_present_among_within(names.drop_last(), found.drop_last());
        assert forall|i: int| 0 <= i < present_among(names, found).len() implies names.contains(
            #[trigger] present_among(names, found)[i],
        ) by {
            if i < rest.len() {
                let x = rest[i];
                assert(names.drop_last().contains(x));
                let j = choose|j: int| 0 <= j < names.drop_last().len() && names.drop_last()[j] == x;
                assert(names[j] == x);
            } else {
                assert(names[names.len() - 1] == names.last());
            }
        }
    }
}

/// The names of `names` whose flag in `found` is set, in order.
fn select_present(names: &Vec<String>, found: &Vec<bool>) -> (r: Vec<String>)
    requires
        names.len() == found.len(),
    ensures
        texts(r@) == present_among(texts(names@), found@),
{
    let mut r: Vec<String> = Vec::new();
    let mut i: usize = 0;
    while i < names.len()
        invariant
            i <= names.len() == found.len(),
            texts(r@) == present_among(texts(names@).take(i as int), found@.take(i as int)),
        decreases names.len() - i,
    {
        if found[i] {
            r.push(names[i].clone());
        }
        proof {
            let ns = texts(names@).take(i + 1);
            let fs = found@.take(i + 1);
            assert(ns.drop_last() =~= texts(names@).take(i as int));
            assert(fs.drop_last() =~= found@.take(i as int));
            assert(texts(r@) =~= present_among(ns, fs));
        }
        i = i + 1;
    }
    assert(texts(names@).take(i as int) =~= texts(names@));
    assert(found@.take(i as int) =~= found@);
    r
}

/// Whether a probe found a record.
pub open spec fn probe_found(p: Result<Option<CredentialRecord>, VaultError>) -> bool {
    p matches Ok(Some(_))
}

/// The flags of a list of probes.
pub open spec fn probe_flags(probes: Seq<Result<Option<CredentialRecord>, VaultError>>) -> Seq<bool> {
    probes.map_values(|p: Result<Option<CredentialRecord>, VaultError>| probe_found(p))
}

/// The names of `names` whose probe found a record, in order; a probe that
/// found none, or failed, leaves its name out.
pub fn providers_found(names: &Vec<String>, probes: &Vec<Result<Option<CredentialRecord>, VaultError>>) -> (r: Vec<String>)
    requires
        names.len() == probes.len(),
    ensures
        texts(r@) == present_among(texts(names@), probe_flags(probes@)),
{
    let mut found: Vec<bool> = Vec::new();
    let mut i: usize = 0;
    while i < probes.len()
        invariant
            i <= probes.len(),
            found@ == probe_flags(probes@.take(i as int)),
        decreases probes.len() - i,
    {
        let f = match &probes[i] {
            Ok(Some(_)) => true,
            _ => false,
        };
        found.push(f);
        assert(found@ =~= probe_flags(probes@.take(i + 1)));
        i = i + 1;
    }
    assert(probes@.take(i as int) =~= probes@);
    select_present(names, &found)
}

/// The providers of the catalog whose probe with `get_api_key` found a
/// record, in catalog order. Providers outside the catalog are never
/// reported, whatever the store holds.
pub fn list_stored_providers() -> (r: Vec<String>)
    ensures
        forall|i: int| 0 <= i < r.len() ==> catalog().contains(#[trigger] r@[i]@),
        exists|probes: Seq<Result<Option<CredentialRecord>, VaultError>>|
            probes.len() == catalog().len() && texts(r@) == present_among(
                catalog(),
                probe_flags(probes),
            ),
{
    let names = provider_catalog();
    let mut probes: Vec<Result<Option<CredentialRecord>, VaultError>> = Vec::new();
    let mut i: usize = 0;
    while i < names.len()
        invariant
            i <= names.len(),
            probes.len() == i,
        decreases names.len() - i,
    {
        probes.push(get_api_key(names[i].as_str()));
        i = i + 1;
    }
    let r = providers_found(&names, &probes);
    proof {
        lemma_present_among_within(catalog(), probe_flags(probes@));
        assert forall|i: int| 0 <= i < r.len() implies catalog().contains(#[trigger] r@[i]@) by {
            assert(texts(r@)[i] == r@[i]@);
        }
    }
    r
}

} // verus!
