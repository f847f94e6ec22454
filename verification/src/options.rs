//! The raw option store and the aggregate around it: construction case-folds
//! every key and resolves duplicates last-write-wins over the input order;
//! per-provider validators turn the snapshot into a typed mapping, failing
//! fast on the first unrecognized key.

use vstd::prelude::*;
use crate::ascii::ascii_lowercase;
use crate::ascii::is_lower;
use crate::ascii::lemma_lower_idempotent;
use crate::ascii::lower;
use crate::ascii::str_eq;
use crate::aws::s3_key_of;
use crate::aws::AmazonS3ConfigKey;
use crate::azure::azure_key_of;
use crate::azure::AzureConfigKey;
use crate::client::default_client_options;
use crate::client::ClientOptions;
use crate::error::Error;
use crate::error::Provider;
use crate::gcp::gcs_key_of;
use crate::gcp::GoogleConfigKey;
use crate::validated::ValidatedOptions;

verus! {

/// One raw configuration setting as supplied by the caller: a key and a
/// string value, with no constraint on either.
#[derive(Clone, Debug)]
pub struct RawOption {
    pub key: String,
    pub value: String,
}

/// The (key, value) character sequences of a sequence of raw options.
pub open spec fn pair_views(s: Seq<RawOption>) -> Seq<(Seq<char>, Seq<char>)> {
    Seq::new(s.len(), |i: int| (s[i].key@, s[i].value@))
}

/// Whether some entry of `s` has key `k`.
pub open spec fn seq_has_key(s: Seq<(Seq<char>, Seq<char>)>, k: Seq<char>) -> bool {
    exists|i: int| 0 <= i < s.len() && (#[trigger] s[i]).0 == k
}

/// The position of the entry of `s` with key `k`; meaningful only when
/// `seq_has_key(s, k)` holds and the keys of `s` are distinct.
pub open spec fn seq_key_index(s: Seq<(Seq<char>, Seq<char>)>, k: Seq<char>) -> int {
    choose|i: int| 0 <= i < s.len() && (#[trigger] s[i]).0 == k
}

/// The store's key discipline: every key is lowercase, and no key occurs
/// twice.
pub open spec fn keys_wf(s: Seq<(Seq<char>, Seq<char>)>) -> bool {
    &&& (forall|i: int| 0 <= i < s.len() ==> is_lower((#[trigger] s[i]).0))
    &&& (forall|i: int, j: int|
        0 <= i < s.len() && 0 <= j < s.len() && i != j ==> (#[trigger] s[i]).0 != (
        #[trigger] s[j]).0)
}

/// Normalization of an input sequence of raw pairs: keys are lowercased in
/// order; a pair whose lowercased key is already present overwrites that
/// entry's value in place, otherwise it is appended. Last write wins over
/// the input order.
pub open spec fn normalized_seq(pairs: Seq<(Seq<char>, Seq<char>)>) -> Seq<
    (Seq<char>, Seq<char>),
>
    decreases pairs.len(),
{
    if pairs.len() == 0 {
        Seq::empty()
    } else {
        let rest = normalized_seq(pairs.drop_last());
        let k = lower(pairs.last().0);
        let v = pairs.last().1;
        if seq_has_key(rest, k) {
            rest.update(seq_key_index(rest, k), (k, v))
        } else {
            rest.push((k, v))
        }
    }
}

/// A sequence of entries with distinct keys, read as a map.
pub open spec fn seq_to_map(s: Seq<(Seq<char>, Seq<char>)>) -> Map<Seq<char>, Seq<char>> {
    Map::new(|k: Seq<char>| seq_has_key(s, k), |k: Seq<char>| s[seq_key_index(s, k)].1)
}

/// When the keys of `s` are distinct, the entry position of a key present at
/// `j` is exactly `j`.
pub proof fn lemma_key_index_unique(s: Seq<(Seq<char>, Seq<char>)>, k: Seq<char>, j: int)
    requires
        keys_wf(s),
        0 <= j < s.len(),
        s[j].0 == k,
    ensures
        seq_has_key(s, k),
        seq_key_index(s, k) == j,
{
    assert(seq_has_key(s, k));
    let i = seq_key_index(s, k);
    assert(0 <= i < s.len() && s[i].0 == k);
    if i != j {
        assert(s[i].0 != s[j].0);
        assert(false);
    }
}

/// An immutable, case-normalized snapshot of raw configuration settings:
/// an insertion-ordered mapping from lowercase key to value. Its view is
/// the sequence of (key, value) character sequences; every reachable value
/// has lowercase, pairwise-distinct keys.
#[derive(Debug)]
pub struct RawOptionStore {
    entries: Vec<RawOption>,
}

impl Clone for RawOptionStore {
    /// A clone holds the same entries and shares no state with the original.
    fn clone(&self) -> (r: Self)
        ensures
            r@ == self@,
    {
        proof {
            use_type_invariant(&*self);
        }
        let mut entries: Vec<RawOption> = Vec::new();
        let n = self.entries.len();
        let mut i: usize = 0;
        proof {
            assert(pair_views(entries@) =~= self@.take(0));
        }
        while i < n
            invariant
                n == self.entries@.len(),
                n == self@.len(),
                i <= n,
                keys_wf(self@),
                pair_views(entries@) == self@.take(i as int),
            decreases n - i,
        {
            let key = self.entries[i].key.clone();
            let value = self.entries[i].value.clone();
            proof {
                assert(key@ == self@[i as int].0);
                assert(value@ == self@[i as int].1);
            }
            let ghost prev = entries@;
            entries.push(RawOption { key, value });
            proof {
                assert(pair_views(prev).len() == prev.len());
                assert(prev.len() == i);
                assert(entries@ == prev.push(entries@.last()));
                assert(entries@.last().key@ == self@[i as int].0);
                assert forall|j: int| 0 <= j < i + 1 implies pair_views(entries@)[j] == self@.take(
                    i + 1,
                )[j] by {
                    if j < i {
                        assert(entries@[j] == prev[j]);
                        assert(pair_views(prev)[j] == self@.take(i as int)[j]);
                    }
                }
                assert(pair_views(entries@) =~= self@.take(i + 1));
            }
            i = i + 1;
        }
        proof {
            assert(self@.take(n as int) =~= self@);
        }
        RawOptionStore { entries }
    }
}

impl View for RawOptionStore {
    type V = Seq<(Seq<char>, Seq<char>)>;

    closed spec fn view(&self) -> Seq<(Seq<char>, Seq<char>)> {
        pair_views(self.entries@)
    }
}

impl RawOptionStore {
    #[verifier::type_invariant]
    spec fn wf(self) -> bool {
        keys_wf(self@)
    }

    /// The snapshot read as a map from lowercase key to value.
    pub open spec fn as_map(self) -> Map<Seq<char>, Seq<char>> {
        seq_to_map(self@)
    }

    /// The number of distinct keys in the snapshot.
    pub fn len(&self) -> (n: usize)
        ensures
            n == self@.len(),
    {
        self.entries.len()
    }

    /// The entry at the given position.
    pub fn get_entry(&self, i: usize) -> (e: &RawOption)
        requires
            i < self@.len(),
        ensures
            e.key@ == self@[i as int].0,
            e.value@ == self@[i as int].1,
    {
        &self.entries[i]
    }

    /// Looks a key up case-insensitively: the value stored under the
    /// lowercased key, if any.
    pub fn get(&self, key: &str) -> (r: Option<&String>)
        ensures
            (match r {
                Some(v) => self.as_map().contains_key(lower(key@)) && v@ == self.as_map()[lower(
                    key@,
                )],
                None => !self.as_map().contains_key(lower(key@)),
            }),
    {
        proof {
            use_type_invariant(&*self);
        }
        let lk = ascii_lowercase(key);
        match find_key(&self.entries, lk.as_str()) {
            Some(j) => {
                proof {
                    lemma_key_index_unique(self@, lower(key@), j as int);
                }
                Some(&self.entries[j].value)
            },
            None => {
                proof {
                    assert(!seq_has_key(self@, lower(key@)));
                }
                None
            },
        }
    }
}

/// Every snapshot's keys are lowercase and pairwise distinct: normalization
/// of any input sequence yields a well-formed store.
pub proof fn lemma_normalized_wf(pairs: Seq<(Seq<char>, Seq<char>)>)
    ensures
        keys_wf(normalized_seq(pairs)),
    decreases pairs.len(),
{
    if pairs.len() == 0 {
        assert(keys_wf(normalized_seq(pairs)));
    } else {
        lemma_normalized_wf(pairs.drop_last());
        let rest = normalized_seq(pairs.drop_last());
        let k = lower(pairs.last().0);
        let v = pairs.last().1;
        lemma_lower_idempotent(pairs.last().0);
        if seq_has_key(rest, k) {
            let j = seq_key_index(rest, k);
            assert(0 <= j < rest.len() && rest[j].0 == k);
            let u = rest.update(j, (k, v));
            assert forall|a: int| 0 <= a < u.len() implies (#[trigger] u[a]).0 == rest[a].0 by {}
            assert(keys_wf(u));
        } else {
            let u = rest.push((k, v));
            assert forall|a: int, b: int|
                0 <= a < u.len() && 0 <= b < u.len() && a != b implies (#[trigger] u[a]).0 != (
            #[trigger] u[b]).0 by {
                if a < rest.len() && b < rest.len() {
                } else if a < rest.len() {
                    assert(u[b].0 == k);
                    assert(!seq_has_key(rest, u[a].0) ==> u[a].0 != k);
                    assert(rest[a].0 == u[a].0);
                } else {
                    assert(u[a].0 == k);
                    assert(rest[b].0 == u[b].0);
                }
            }
            assert(keys_wf(u));
        }
    }
}

/// The position of the entry with the given key, by linear search.
fn find_key(entries: &Vec<RawOption>, key: &str) -> (r: Option<usize>)
    ensures
        (match r {
            Some(j) => j < entries@.len() && entries@[j as int].key@ == key@,
            None => forall|i: int|
                0 <= i < entries@.len() ==> (#[trigger] entries@[i]).key@ != key@,
        }),
{
    let n = entries.len();
    let mut i: usize = 0;
    while i < n
        invariant
            n == entries@.len(),
            i <= n,
            forall|j: int| 0 <= j < i ==> (#[trigger] entries@[j]).key@ != key@,
        decreases n - i,
    {
        if str_eq(entries[i].key.as_str(), key) {
            return Some(i);
        }
        i = i + 1;
    }
    None
}

/// Inserts a lowercase key: overwrites the value of the entry already
/// holding the key, or appends a new entry.
fn upsert(entries: &mut Vec<RawOption>, key: String, value: String)
    requires
        keys_wf(pair_views(old(entries)@)),
        is_lower(key@),
    ensures
        keys_wf(pair_views(final(entries)@)),
        pair_views(final(entries)@) == ({
            let s = pair_views(old(entries)@);
            if seq_has_key(s, key@) {
                s.update(seq_key_index(s, key@), (key@, value@))
            } else {
                s.push((key@, value@))
            }
        }),
{
    let ghost s = pair_views(entries@);
    match find_key(entries, key.as_str()) {
        Some(j) => {
            proof {
                lemma_key_index_unique(s, key@, j as int);
            }
            entries[j] = RawOption { key, value };
            proof {
                let t = pair_views(entries@);
                assert(t =~= s.update(j as int, (key@, value@)));
                assert forall|a: int| 0 <= a < t.len() implies (#[trigger] t[a]).0 == s[a].0 by {}
            }
        },
        None => {
            entries.push(RawOption { key, value });
            proof {
                let t = pair_views(entries@);
                assert(t =~= s.push((key@, value@)));
            }
        },
    }
}

/// The Azure schema's parse function as a value.
pub open spec fn azure_parse() -> spec_fn(Seq<char>) -> Option<AzureConfigKey> {
    |k: Seq<char>| azure_key_of(k)
}

/// The S3 schema's parse function as a value.
pub open spec fn s3_parse() -> spec_fn(Seq<char>) -> Option<AmazonS3ConfigKey> {
    |k: Seq<char>| s3_key_of(k)
}

/// The GCS schema's parse function as a value.
pub open spec fn gcs_parse() -> spec_fn(Seq<char>) -> Option<GoogleConfigKey> {
    |k: Seq<char>| gcs_key_of(k)
}

/// All keys of the snapshot parse under the given schema.
pub open spec fn all_keys_known<K>(
    s: Seq<(Seq<char>, Seq<char>)>,
    parse: spec_fn(Seq<char>) -> Option<K>,
) -> bool {
    forall|i: int| 0 <= i < s.len() ==> parse((#[trigger] s[i]).0) is Some
}

/// A successful validation result: one entry per snapshot entry, in order,
/// the key parsed under the schema and the value unchanged.
pub open spec fn validation_ok<K>(
    s: Seq<(Seq<char>, Seq<char>)>,
    parse: spec_fn(Seq<char>) -> Option<K>,
    v: ValidatedOptions<K>,
) -> bool {
    &&& v.entry_seq().len() == s.len()
    &&& (forall|i: int|
        0 <= i < s.len() ==> parse(s[i].0) == Some((#[trigger] v.entry_seq()[i]).0))
    &&& (forall|i: int| 0 <= i < s.len() ==> (#[trigger] v.entry_seq()[i]).1@ == s[i].1)
}

/// The position of the first snapshot key the schema does not recognize:
/// the entry at `j` fails to parse and every earlier one parses.
pub open spec fn first_unknown_at<K>(
    s: Seq<(Seq<char>, Seq<char>)>,
    parse: spec_fn(Seq<char>) -> Option<K>,
    j: int,
) -> bool {
    &&& 0 <= j < s.len()
    &&& parse(s[j].0) is None
    &&& (forall|i: int| 0 <= i < j ==> parse((#[trigger] s[i]).0) is Some)
}

/// A failed validation: the error names the first snapshot key that the
/// schema does not recognize, and the given provider.
pub open spec fn validation_err<K>(
    s: Seq<(Seq<char>, Seq<char>)>,
    parse: spec_fn(Seq<char>) -> Option<K>,
    p: Provider,
    e: Error,
) -> bool {
    exists|j: int|
        {
            &&& #[trigger] first_unknown_at(s, parse, j)
            &&& (match e {
                Error::UnknownConfigurationKey { store, key } => store == p && key@ == s[j].0,
            })
        }
}

/// Options used for configuring a backend store: the case-normalized
/// snapshot of raw settings together with the transport configuration for
/// the internal client. Immutable once constructed.
#[derive(Debug)]
pub struct StoreOptions {
    /// Store specific options like key, secret, region etc.
    store_options: RawOptionStore,
    /// Options specific for the internal client.
    client_options: ClientOptions,
}

impl Clone for StoreOptions {
    /// A clone is an independent copy: same snapshot, same transport
    /// configuration, no shared state.
    fn clone(&self) -> (r: Self)
        ensures
            r.raw_options() == self.raw_options(),
            r.transport() == self.transport(),
    {
        StoreOptions {
            store_options: self.store_options.clone(),
            client_options: self.client_options,
        }
    }
}

impl StoreOptions {
    /// The snapshot's entries: lowercase keys in first-insertion order, each
    /// with the last value written for it.
    pub closed spec fn raw_options(self) -> Seq<(Seq<char>, Seq<char>)> {
        self.store_options@
    }

    /// The transport configuration held for the internal client.
    pub closed spec fn transport(self) -> ClientOptions {
        self.client_options
    }

    /// Builds the aggregate: the raw pairs are normalized into the snapshot
    /// and the transport configuration is stored alongside.
    pub fn new(pairs: Vec<RawOption>, client_options: ClientOptions) -> (r: Self)
        ensures
            r.raw_options() == normalized_seq(pair_views(pairs@)),
            r.transport() == client_options,
    {
        StoreOptions { store_options: Self::iter_2_opts(pairs), client_options }
    }

    /// Convenience conversion: builds the aggregate from raw pairs alone,
    /// with the standard transport configuration.
    pub fn from_pairs(pairs: Vec<RawOption>) -> (r: Self)
        ensures
            r.raw_options() == normalized_seq(pair_views(pairs@)),
            r.transport() == default_client_options(),
    {
        StoreOptions::new(pairs, ClientOptions::default())
    }

    /// A copy of the transport configuration; the caller's copy and the
    /// aggregate's internal one share no state.
    pub fn get_client_options(&self) -> (r: ClientOptions)
        ensures
            r == self.transport(),
    {
        self.client_options
    }

    /// Normalizes raw pairs into a snapshot: each key is ASCII-lowercased in
    /// input order, and of two pairs with the same lowercased key the later
    /// one's value wins. Never fails.
    pub fn iter_2_opts(pairs: Vec<RawOption>) -> (s: RawOptionStore)
        ensures
            s@ == normalized_seq(pair_views(pairs@)),
    {
        let ghost pv = pair_views(pairs@);
        let mut entries: Vec<RawOption> = Vec::new();
        let n = pairs.len();
        let mut i: usize = 0;
        proof {
            assert(pv.take(0) =~= Seq::empty());
            assert(pair_views(entries@) =~= Seq::empty());
        }
        while i < n
            invariant
                n == pairs@.len(),
                pv == pair_views(pairs@),
                i <= n,
                keys_wf(pair_views(entries@)),
                pair_views(entries@) == normalized_seq(pv.take(i as int)),
            decreases n - i,
        {
            let lk = ascii_lowercase(pairs[i].key.as_str());
            let v = pairs[i].value.clone();
            proof {
                lemma_lower_idempotent(pairs@[i as int].key@);
            }
            upsert(&mut entries, lk, v);
            proof {
                assert(pv.take(i + 1).drop_last() =~= pv.take(i as int));
                assert(pv.take(i + 1).last() == pv[i as int]);
            }
            i = i + 1;
        }
        proof {
            assert(pv.take(n as int) =~= pv);
        }
        RawOptionStore { entries }
    }

    /// Ensures that the provided options are compatible with Azure: every
    /// key must parse under the Azure schema, else the first unknown key is
    /// reported and no mapping is produced.
    pub fn get_azure_options(&self) -> (r: Result<ValidatedOptions<AzureConfigKey>, Error>)
        ensures
            r is Ok <==> all_keys_known(self.raw_options(), azure_parse()),
            (match r {
                Ok(v) => validation_ok(self.raw_options(), azure_parse(), v),
                Err(e) => validation_err(
                    self.raw_options(),
                    azure_parse(),
                    Provider::MicrosoftAzure,
                    e,
                ),
            }),
    {
        proof {
            use_type_invariant(&self.store_options);
        }
        let ghost s = self.raw_options();
        let mut opts: Vec<(AzureConfigKey, String)> = Vec::new();
        let n = self.store_options.len();
        let mut i: usize = 0;
        while i < n
            invariant
                n == s.len(),
                s == self.raw_options(),
                keys_wf(s),
                i <= n,
                opts@.len() == i,
                forall|k: int| 0 <= k < i ==> (#[trigger] azure_key_of(s[k].0)) is Some,
                forall|k: int|
                    0 <= k < i ==> azure_key_of(s[k].0) == Some((#[trigger] opts@[k]).0),
                forall|k: int| 0 <= k < i ==> (#[trigger] opts@[k]).1@ == s[k].1,
            decreases n - i,
        {
            let entry = self.store_options.get_entry(i);
            match AzureConfigKey::from_str(entry.key.as_str()) {
                Ok(k) => {
                    opts.push((k, entry.value.clone()));
                },
                Err(e) => {
                    proof {
                        assert(azure_key_of(s[i as int].0) is None);
                        assert(is_lower(s[i as int].0));
                        assert(first_unknown_at(s, azure_parse(), i as int));
                        assert(validation_err(s, azure_parse(), Provider::MicrosoftAzure, e));
                        assert(!all_keys_known(s, azure_parse()));
                    }
                    return Err(e);
                },
            }
            i = i + 1;
        }
        let v = ValidatedOptions::from_entries(opts);
        proof {
            assert(all_keys_known(s, azure_parse()));
            assert(validation_ok(s, azure_parse(), v));
        }
        Ok(v)
    }

    /// Ensures that the provided options are compatible with S3: every key
    /// must parse under the S3 schema, else the first unknown key is
    /// reported and no mapping is produced.
    pub fn get_s3_options(&self) -> (r: Result<ValidatedOptions<AmazonS3ConfigKey>, Error>)
        ensures
            r is Ok <==> all_keys_known(self.raw_options(), s3_parse()),
            (match r {
                Ok(v) => validation_ok(self.raw_options(), s3_parse(), v),
                Err(e) => validation_err(self.raw_options(), s3_parse(), Provider::AmazonS3, e),
            }),
    {
        proof {
            use_type_invariant(&self.store_options);
        }
        let ghost s = self.raw_options();
        let mut opts: Vec<(AmazonS3ConfigKey, String)> = Vec::new();
        let n = self.store_options.len();
        let mut i: usize = 0;
        while i < n
            invariant
                n == s.len(),
                s == self.raw_options(),
                keys_wf(s),
                i <= n,
                opts@.len() == i,
                forall|k: int| 0 <= k < i ==> (#[trigger] s3_key_of(s[k].0)) is Some,
                forall|k: int| 0 <= k < i ==> s3_key_of(s[k].0) == Some((#[trigger] opts@[k]).0),
                forall|k: int| 0 <= k < i ==> (#[trigger] opts@[k]).1@ == s[k].1,
            decreases n - i,
        {
            let entry = self.store_options.get_entry(i);
            match AmazonS3ConfigKey::from_str(entry.key.as_str()) {
                Ok(k) => {
                    opts.push((k, entry.value.clone()));
                },
                Err(e) => {
                    proof {
                        assert(s3_key_of(s[i as int].0) is None);
                        assert(is_lower(s[i as int].0));
                        assert(first_unknown_at(s, s3_parse(), i as int));
                        assert(validation_err(s, s3_parse(), Provider::AmazonS3, e));
                        assert(!all_keys_known(s, s3_parse()));
                    }
                    return Err(e);
                },
            }
            i = i + 1;
        }
        let v = ValidatedOptions::from_entries(opts);
        proof {
            assert(all_keys_known(s, s3_parse()));
            assert(validation_ok(s, s3_parse(), v));
        }
        Ok(v)
    }

    /// Ensures that the provided options are compatible with GCS: every key
    /// must parse under the GCS schema, else the first unknown key is
    /// reported and no mapping is produced.
    pub fn get_gcs_options(&self) -> (r: Result<ValidatedOptions<GoogleConfigKey>, Error>)
        ensures
            r is Ok <==> all_keys_known(self.raw_options(), gcs_parse()),
            (match r {
                Ok(v) => validation_ok(self.raw_options(), gcs_parse(), v),
                Err(e) => validation_err(
                    self.raw_options(),
                    gcs_parse(),
                    Provider::GoogleCloudStorage,
                    e,
                ),
            }),
    {
        proof {
            use_type_invariant(&self.store_options);
        }
        let ghost s = self.raw_options();
        let mut opts: Vec<(GoogleConfigKey, String)> = Vec::new();
        let n = self.store_options.len();
        let mut i: usize = 0;
        while i < n
            invariant
                n == s.len(),
                s == self.raw_options(),
                keys_wf(s),
                i <= n,
                opts@.len() == i,
                forall|k: int| 0 <= k < i ==> (#[trigger] gcs_key_of(s[k].0)) is Some,
                forall|k: int| 0 <= k < i ==> gcs_key_of(s[k].0) == Some((#[trigger] opts@[k]).0),
                forall|k: int| 0 <= k < i ==> (#[trigger] opts@[k]).1@ == s[k].1,
            decreases n - i,
        {
            let entry = self.store_options.get_entry(i);
            match GoogleConfigKey::from_str(entry.key.as_str()) {
                Ok(k) => {
                    opts.push((k, entry.value.clone()));
                },
                Err(e) => {
                    proof {
                        assert(gcs_key_of(s[i as int].0) is None);
                        assert(is_lower(s[i as int].0));
                        assert(first_unknown_at(s, gcs_parse(), i as int));
                        assert(validation_err(s, gcs_parse(), Provider::GoogleCloudStorage, e));
                        assert(!all_keys_known(s, gcs_parse()));
                    }
                    return Err(e);
                },
            }
            i = i + 1;
        }
        let v = ValidatedOptions::from_entries(opts);
        proof {
            assert(all_keys_known(s, gcs_parse()));
            assert(validation_ok(s, gcs_parse(), v));
        }
        Ok(v)
    }
}

impl Default for StoreOptions {
    /// The empty aggregate: no raw options, standard transport configuration.
    fn default() -> (r: Self)
        ensures
            r.raw_options() == Seq::<(Seq<char>, Seq<char>)>::empty(),
            r.transport() == default_client_options(),
    {
        let entries: Vec<RawOption> = Vec::new();
        proof {
            assert(pair_views(entries@) =~= Seq::empty());
        }
        StoreOptions {
            store_options: RawOptionStore { entries },
            client_options: ClientOptions::default(),
        }
    }
}

/// Case-insensitivity of construction: a store built from a single pair is
/// the same store as one built from the pair with its key lowercased.
pub proof fn lemma_build_case_insensitive(k: Seq<char>, v: Seq<char>)
    ensures
        normalized_seq(seq![(k, v)]) == normalized_seq(seq![(lower(k), v)]),
        normalized_seq(seq![(k, v)]) == seq![(lower(k), v)],
{
    lemma_lower_idempotent(k);
    let e = Seq::<(Seq<char>, Seq<char>)>::empty();
    assert(normalized_seq(e) == e);
    let s1 = seq![(k, v)];
    let s2 = seq![(lower(k), v)];
    assert(s1.drop_last() =~= e);
    assert(s2.drop_last() =~= e);
    assert(s1.last() == (k, v));
    assert(s2.last() == (lower(k), v));
    assert(!seq_has_key(e, lower(k)));
    assert(normalized_seq(s1) == e.push((lower(k), v)));
    assert(normalized_seq(s2) == e.push((lower(lower(k)), v)));
    assert(e.push((lower(k), v)) =~= seq![(lower(k), v)]);
}

/// Last write wins: two input pairs whose keys lowercase to the same key
/// build a store with exactly one entry, holding the later value.
pub proof fn lemma_last_write_wins(k1: Seq<char>, k2: Seq<char>, v1: Seq<char>, v2: Seq<char>)
    requires
        lower(k1) == lower(k2),
    ensures
        normalized_seq(seq![(k1, v1), (k2, v2)]) == seq![(lower(k1), v2)],
{
    let s = seq![(k1, v1), (k2, v2)];
    assert(s.drop_last() =~= seq![(k1, v1)]);
    lemma_build_case_insensitive(k1, v1);
    let rest = normalized_seq(seq![(k1, v1)]);
    assert(rest == seq![(lower(k1), v1)]);
    assert(rest[0].0 == lower(k2));
    assert(seq_has_key(rest, lower(k2)));
    let j = seq_key_index(rest, lower(k2));
    assert(0 <= j < rest.len() && rest[j].0 == lower(k2));
    assert(j == 0);
    assert(normalized_seq(s) =~= seq![(lower(k1), v2)]);
}

} // verus!
