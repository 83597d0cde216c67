//! Refresh token store.
//!
//! `TokenStoreKey` identifies one stored credential: two configurations
//! with a different project, endpoint location or user hint resolve to
//! independent entries.  `SerializedTokens` is the only secret that is
//! persisted — a refresh token with its metadata, never an access token.
//! `TokenStore` is the keyed store itself; the surrounding process gives it
//! durability by loading it from and flushing it to per-user storage.

use vstd::prelude::*;

use crate::envcfg::{profile_label_spec, ApiProfile};
use crate::strutil::str_equal;

verus! {

/// The view of an `Option<String>`.
pub open spec fn opt_view(o: &Option<String>) -> Option<Seq<char>> {
    match o {
        Some(s) => Some(s@),
        None => None,
    }
}

/// The lookup key for persisted refresh tokens.
#[derive(Debug, Clone)]
pub struct TokenStoreKey {
    pub profile: ApiProfile,
    pub project_number: Option<String>,
    pub endpoint_location: Option<String>,
    pub user_hint: Option<String>,
}

/// One segment of the storage key: `~` for an absent field, the value
/// behind a `:` marker otherwise, so that an absent field and an empty one
/// stay distinct.
pub open spec fn key_segment_spec(v: Option<Seq<char>>) -> Seq<char> {
    match v {
        None => "~"@,
        Some(s) => ":"@ + s,
    }
}

/// The stable, deterministic string form of a key, usable as a map key:
/// the profile label and the three optional fields, `|`-separated.
pub open spec fn storage_key_spec(k: &TokenStoreKey) -> Seq<char> {
    profile_label_spec(k.profile) + "|"@ + key_segment_spec(opt_view(&k.project_number)) + "|"@
        + key_segment_spec(opt_view(&k.endpoint_location)) + "|"@ + key_segment_spec(
        opt_view(&k.user_hint),
    )
}

fn push_segment(out: String, v: &Option<String>) -> (r: String)
    ensures
        r@ == out@ + key_segment_spec(opt_view(v)),
{
    match v {
        None => {
            let r = out.concat("~");
            proof {
                assert(r@ =~= out@ + key_segment_spec(opt_view(v)));
            }
            r
        },
        Some(s) => {
            let r = out.concat(":").concat(s.as_str());
            proof {
                assert(r@ =~= out@ + key_segment_spec(opt_view(v)));
            }
            r
        },
    }
}

impl TokenStoreKey {
    /// The key's stable string form.
    pub fn storage_key(&self) -> (r: String)
        ensures
            r@ == storage_key_spec(self),
    {
        let s = String::from_str(self.profile.as_str()).concat("|");
        let s = push_segment(s, &self.project_number).concat("|");
        let s = push_segment(s, &self.endpoint_location).concat("|");
        let s = push_segment(s, &self.user_hint);
        proof {
            assert(s@ =~= storage_key_spec(self));
        }
        s
    }
}

/// A string that never holds the key separator.
pub open spec fn bar_free(s: Seq<char>) -> bool {
    forall|i: int| 0 <= i < s.len() ==> s[i] != '|'
}

/// An optional field whose value, if any, never holds the key separator.
pub open spec fn bar_free_opt(o: Option<Seq<char>>) -> bool {
    match o {
        Some(v) => bar_free(v),
        None => true,
    }
}

proof fn lemma_split_at_bar(a1: Seq<char>, b1: Seq<char>, a2: Seq<char>, b2: Seq<char>)
    requires
        bar_free(a1),
        bar_free(a2),
        a1 + "|"@ + b1 == a2 + "|"@ + b2,
    ensures
        a1 == a2,
        b1 == b2,
{
    reveal_strlit("|");
    let s = a1 + "|"@ + b1;
    // The first separator sits at the end of the bar-free prefix, so both
    // prefixes have the same length.
    if a1.len() < a2.len() {
        assert(s[a1.len() as int] == '|');
        assert((a2 + "|"@ + b2)[a1.len() as int] == a2[a1.len() as int]);
        assert(a2[a1.len() as int] != '|');
    }
    if a2.len() < a1.len() {
        assert(s[a2.len() as int] == '|');
        assert((a1 + "|"@ + b1)[a2.len() as int] == a1[a2.len() as int]);
        assert(a1[a2.len() as int] != '|');
    }
    assert(a1.len() == a2.len());
    assert forall|i: int| 0 <= i < a1.len() implies a1[i] == a2[i] by {
        assert(s[i] == a1[i]);
        assert((a2 + "|"@ + b2)[i] == a2[i]);
    }
    assert(a1 =~= a2);
    assert(s.len() == a1.len() + 1 + b1.len());
    assert((a2 + "|"@ + b2).len() == a2.len() + 1 + b2.len());
    assert(b1.len() == b2.len());
    assert forall|i: int| 0 <= i < b1.len() implies b1[i] == b2[i] by {
        assert(s[a1.len() + 1 + i] == b1[i]);
        assert((a2 + "|"@ + b2)[a2.len() + 1 + i] == b2[i]);
    }
    assert(b1 =~= b2);
}

proof fn lemma_segment_injective(o1: Option<Seq<char>>, o2: Option<Seq<char>>)
    requires
        key_segment_spec(o1) == key_segment_spec(o2),
    ensures
        o1 == o2,
{
    reveal_strlit("~");
    reveal_strlit(":");
    match (o1, o2) {
        (None, None) => {},
        (None, Some(v)) => {
            assert(key_segment_spec(o1)[0] == '~');
            assert(key_segment_spec(o2)[0] == ':');
        },
        (Some(v), None) => {
            assert(key_segment_spec(o1)[0] == ':');
            assert(key_segment_spec(o2)[0] == '~');
        },
        (Some(v1), Some(v2)) => {
            assert(key_segment_spec(o1).len() == 1 + v1.len());
            assert(key_segment_spec(o2).len() == 1 + v2.len());
            assert(v1.len() == v2.len());
            assert forall|i: int| 0 <= i < v1.len() implies v1[i] == v2[i] by {
                assert(key_segment_spec(o1)[1 + i] == v1[i]);
                assert(key_segment_spec(o2)[1 + i] == v2[i]);
            }
            assert(v1 =~= v2);
        },
    }
}

proof fn lemma_segment_bar_free(o: Option<Seq<char>>)
    requires
        bar_free_opt(o),
    ensures
        bar_free(key_segment_spec(o)),
{
    reveal_strlit("~");
    reveal_strlit(":");
    reveal_strlit("|");
    match o {
        None => {
            assert forall|i: int| 0 <= i < key_segment_spec(o).len() implies key_segment_spec(o)[i]
                != '|' by {
                assert(key_segment_spec(o)[0] == '~');
            }
        },
        Some(v) => {
            assert forall|i: int| 0 <= i < key_segment_spec(o).len() implies key_segment_spec(o)[i]
                != '|' by {
                if i == 0 {
                    assert(key_segment_spec(o)[0] == ':');
                } else {
                    assert(key_segment_spec(o)[i] == v[i - 1]);
                }
            }
        },
    }
}

proof fn lemma_profile_label_bar_free_and_injective(p1: ApiProfile, p2: ApiProfile)
    ensures
        bar_free(profile_label_spec(p1)),
        profile_label_spec(p1) == profile_label_spec(p2) ==> p1 == p2,
{
    reveal_strlit("enterprise");
    reveal_strlit("personal");
    reveal_strlit("workspace");
    reveal_strlit("|");
    assert(profile_label_spec(ApiProfile::Enterprise).len() == 10);
    assert(profile_label_spec(ApiProfile::Personal).len() == 8);
    assert(profile_label_spec(ApiProfile::Workspace).len() == 9);
    assert(bar_free(profile_label_spec(p1)));
}

/// The storage key is injective: as long as no field holds the `|`
/// separator, two configurations resolve to the same stored credential
/// only when the profile and every optional field agree — a different
/// project, endpoint location or user hint always yields an independent
/// record.
proof fn lemma_key_shape(k: &TokenStoreKey)
    ensures
        storage_key_spec(k) == profile_label_spec(k.profile) + "|"@ + (key_segment_spec(
            opt_view(&k.project_number),
        ) + "|"@ + (key_segment_spec(opt_view(&k.endpoint_location)) + "|"@ + key_segment_spec(
            opt_view(&k.user_hint),
        ))),
{
    let label = profile_label_spec(k.profile);
    let p = key_segment_spec(opt_view(&k.project_number));
    let e = key_segment_spec(opt_view(&k.endpoint_location));
    let u = key_segment_spec(opt_view(&k.user_hint));
    vstd::seq_lib::lemma_concat_associative(e, "|"@, u);
    vstd::seq_lib::lemma_concat_associative(p, "|"@, e + "|"@ + u);
    vstd::seq_lib::lemma_concat_associative(label, "|"@, p + "|"@ + (e + "|"@ + u));
    assert((label + "|"@ + p + "|"@ + e) + "|"@ + u =~= label + "|"@ + (p + "|"@ + (e + "|"@
        + u)));
}

pub proof fn lemma_storage_key_injective(k1: &TokenStoreKey, k2: &TokenStoreKey)
    requires
        bar_free_opt(opt_view(&k1.project_number)),
        bar_free_opt(opt_view(&k1.endpoint_location)),
        bar_free_opt(opt_view(&k1.user_hint)),
        bar_free_opt(opt_view(&k2.project_number)),
        bar_free_opt(opt_view(&k2.endpoint_location)),
        bar_free_opt(opt_view(&k2.user_hint)),
        storage_key_spec(k1) == storage_key_spec(k2),
    ensures
        k1.profile == k2.profile,
        opt_view(&k1.project_number) == opt_view(&k2.project_number),
        opt_view(&k1.endpoint_location) == opt_view(&k2.endpoint_location),
        opt_view(&k1.user_hint) == opt_view(&k2.user_hint),
{
    let label1 = profile_label_spec(k1.profile);
    let label2 = profile_label_spec(k2.profile);
    let p1 = key_segment_spec(opt_view(&k1.project_number));
    let p2 = key_segment_spec(opt_view(&k2.project_number));
    let e1 = key_segment_spec(opt_view(&k1.endpoint_location));
    let e2 = key_segment_spec(opt_view(&k2.endpoint_location));
    let u1 = key_segment_spec(opt_view(&k1.user_hint));
    let u2 = key_segment_spec(opt_view(&k2.user_hint));
    lemma_profile_label_bar_free_and_injective(k1.profile, k2.profile);
    lemma_profile_label_bar_free_and_injective(k2.profile, k1.profile);
    lemma_segment_bar_free(opt_view(&k1.project_number));
    lemma_segment_bar_free(opt_view(&k2.project_number));
    lemma_segment_bar_free(opt_view(&k1.endpoint_location));
    lemma_segment_bar_free(opt_view(&k2.endpoint_location));
    lemma_key_shape(k1);
    lemma_key_shape(k2);
    lemma_split_at_bar(label1, p1 + "|"@ + (e1 + "|"@ + u1), label2, p2 + "|"@ + (e2 + "|"@ + u2));
    lemma_split_at_bar(p1, e1 + "|"@ + u1, p2, e2 + "|"@ + u2);
    lemma_split_at_bar(e1, u1, e2, u2);
    lemma_segment_injective(opt_view(&k1.project_number), opt_view(&k2.project_number));
    lemma_segment_injective(opt_view(&k1.endpoint_location), opt_view(&k2.endpoint_location));
    lemma_segment_injective(opt_view(&k1.user_hint), opt_view(&k2.user_hint));
}

/// The view of a stored credential.
#[verifier::ext_equal]
pub ghost struct TokensView {
    pub refresh_token: Seq<char>,
    pub scopes: Seq<Seq<char>>,
    pub expires_at: Option<i64>,
    pub token_type: Option<Seq<char>>,
    pub updated_at: i64,
}

/// The persisted credential: the refresh token, the granted scopes, the
/// expiry of the access token it last produced, its token type, and when
/// the record was written.  Access tokens are never persisted.
#[derive(Debug)]
pub struct SerializedTokens {
    pub refresh_token: String,
    pub scopes: Vec<String>,
    pub expires_at: Option<i64>,
    pub token_type: Option<String>,
    pub updated_at: i64,
}

impl View for SerializedTokens {
    type V = TokensView;

    open spec fn view(&self) -> TokensView {
        TokensView {
            refresh_token: self.refresh_token@,
            scopes: self.scopes@.map_values(|s: String| s@),
            expires_at: self.expires_at,
            token_type: opt_view(&self.token_type),
            updated_at: self.updated_at,
        }
    }
}

/// An exact copy of a string vector.
pub fn clone_string_vec(v: &Vec<String>) -> (r: Vec<String>)
    ensures
        r@ == v@,
{
    let mut r: Vec<String> = Vec::new();
    let mut i: usize = 0;
    while i < v.len()
        invariant
            i <= v@.len(),
            r@ == v@.subrange(0, i as int),
        decreases v@.len() - i,
    {
        r.push(v[i].clone());
        i += 1;
        proof {
            assert(r@ =~= v@.subrange(0, i as int));
        }
    }
    proof {
        assert(v@.subrange(0, v@.len() as int) =~= v@);
    }
    r
}

fn clone_opt_string(v: &Option<String>) -> (r: Option<String>)
    ensures
        opt_view(&r) == opt_view(v),
{
    match v {
        Some(s) => Some(s.clone()),
        None => None,
    }
}

fn eq_opt_string(a: &Option<String>, b: &Option<String>) -> (r: bool)
    ensures
        r == (opt_view(a) == opt_view(b)),
{
    match (a, b) {
        (Some(x), Some(y)) => str_equal(x.as_str(), y.as_str()),
        (None, None) => true,
        _ => false,
    }
}

fn eq_string_vec(a: &Vec<String>, b: &Vec<String>) -> (r: bool)
    ensures
        r == (a@.map_values(|s: String| s@) == b@.map_values(|s: String| s@)),
{
    let ghost av = a@.map_values(|s: String| s@);
    let ghost bv = b@.map_values(|s: String| s@);
    if a.len() != b.len() {
        proof {
            assert(av.len() != bv.len());
        }
        return false;
    }
    let mut i: usize = 0;
    while i < a.len()
        invariant
            av == a@.map_values(|s: String| s@),
            bv == b@.map_values(|s: String| s@),
            a@.len() == b@.len(),
            i <= a@.len(),
            forall|k: int| 0 <= k < i ==> av[k] == bv[k],
        decreases a@.len() - i,
    {
        if !str_equal(a[i].as_str(), b[i].as_str()) {
            proof {
                assert(av[i as int] != bv[i as int]);
            }
            return false;
        }
        i += 1;
    }
    proof {
        assert(av =~= bv);
    }
    true
}

impl SerializedTokens {
    /// An exact copy of the record.
    pub fn clone_value(&self) -> (r: Self)
        ensures
            r@ == self@,
    {
        let r = SerializedTokens {
            refresh_token: self.refresh_token.clone(),
            scopes: clone_string_vec(&self.scopes),
            expires_at: self.expires_at,
            token_type: clone_opt_string(&self.token_type),
            updated_at: self.updated_at,
        };
        proof {
            assert(r@ =~= self@);
        }
        r
    }
}

impl PartialEq for SerializedTokens {
    /// Two records are equal when every persisted field is.
    fn eq(&self, other: &Self) -> (r: bool) {
        let fields_eq = str_equal(self.refresh_token.as_str(), other.refresh_token.as_str())
            && eq_string_vec(&self.scopes, &other.scopes) && self.expires_at == other.expires_at
            && eq_opt_string(&self.token_type, &other.token_type) && self.updated_at
            == other.updated_at;
        proof {
            if fields_eq {
                assert(self@ =~= other@);
            }
        }
        fields_eq
    }
}

impl vstd::std_specs::cmp::PartialEqSpecImpl for SerializedTokens {
    open spec fn obeys_eq_spec() -> bool {
        true
    }

    open spec fn eq_spec(&self, other: &Self) -> bool {
        self@ == other@
    }
}

/// The map a record journal denotes: later entries for a key shadow
/// earlier ones.
pub open spec fn journal_map(entries: Seq<(String, SerializedTokens)>) -> Map<
    Seq<char>,
    TokensView,
>
    decreases entries.len(),
{
    if entries.len() == 0 {
        Map::<Seq<char>, TokensView>::empty()
    } else {
        journal_map(entries.drop_last()).insert(entries.last().0@, entries.last().1@)
    }
}

proof fn lemma_journal_lookup(entries: Seq<(String, SerializedTokens)>, k: Seq<char>)
    ensures
        journal_map(entries).contains_key(k) <==> exists|i: int|
            0 <= i < entries.len() && entries[i].0@ == k,
        forall|i: int|
            (0 <= i < entries.len() && entries[i].0@ == k && (forall|j: int|
                i < j < entries.len() ==> entries[j].0@ != k)) ==> journal_map(entries)[k]
                == #[trigger] entries[i].1@,
    decreases entries.len(),
{
    if entries.len() > 0 {
        lemma_journal_lookup(entries.drop_last(), k);
        let t = entries.drop_last();
        assert forall|i: int| 0 <= i < t.len() implies t[i] == entries[i] by {}
        if entries.last().0@ == k {
            assert(entries[entries.len() - 1].0@ == k);
        }
    }
}

/// The keyed persistent storage for refresh tokens, as a map from the
/// stable key string to the stored record.  Saves append to a journal;
/// lookups take the newest record for the key.
pub struct TokenStore {
    entries: Vec<(String, SerializedTokens)>,
}

impl TokenStore {
    /// The store as a map from key string to stored record.
    pub closed spec fn view(&self) -> Map<Seq<char>, TokensView> {
        journal_map(self.entries@)
    }

    /// An empty store.
    pub fn new() -> (s: Self)
        ensures
            s@ == Map::<Seq<char>, TokensView>::empty(),
    {
        TokenStore { entries: Vec::new() }
    }

    /// Look a key up: the stored record, or none for an unknown key.
    pub fn load(&self, key: &TokenStoreKey) -> (r: Option<SerializedTokens>)
        ensures
            match r {
                Some(t) => self@.contains_key(storage_key_spec(key)) && t@ == self@[storage_key_spec(
                    key,
                )],
                None => !self@.contains_key(storage_key_spec(key)),
            },
    {
        let ks = key.storage_key();
        proof {
            lemma_journal_lookup(self.entries@, ks@);
        }
        let mut i: usize = self.entries.len();
        while i > 0
            invariant
                ks@ == storage_key_spec(key),
                i <= self.entries@.len(),
                forall|j: int| i <= j < self.entries@.len() ==> self.entries@[j].0@ != ks@,
            decreases i,
        {
            i -= 1;
            if str_equal(self.entries[i].0.as_str(), ks.as_str()) {
                let t = self.entries[i].1.clone_value();
                proof {
                    lemma_journal_lookup(self.entries@, ks@);
                    assert(self.entries@[i as int].0@ == ks@);
                }
                return Some(t);
            }
        }
        proof {
            lemma_journal_lookup(self.entries@, ks@);
        }
        None
    }

    /// Store a record under a key, replacing what the key held before.
    pub fn save(&mut self, key: &TokenStoreKey, tokens: SerializedTokens)
        ensures
            final(self)@ == old(self)@.insert(storage_key_spec(key), tokens@),
    {
        let ks = key.storage_key();
        self.entries.push((ks, tokens));
        proof {
            assert(self.entries@.drop_last() =~= old(self).entries@);
        }
    }
}

/// Round trip: after `save(key, tokens)`, `load(key)` finds that exact
/// record; a key never saved is not found.
pub proof fn lemma_store_round_trip(
    before: Map<Seq<char>, TokensView>,
    key: Seq<char>,
    tokens: TokensView,
    unknown: Seq<char>,
)
    requires
        !before.contains_key(unknown),
        unknown != key,
    ensures
        before.insert(key, tokens).contains_key(key),
        before.insert(key, tokens)[key] == tokens,
        !before.insert(key, tokens).contains_key(unknown),
{
}

} // verus!
