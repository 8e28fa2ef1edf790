//! The API-key lifecycle: issued records, the record store, registration
//! (with optional signed-challenge checking), validity, and the expiry
//! sweep.
//!
//! Records are soft-revoked only: issuing a new key for a device clears the
//! active flag of its earlier records, and the sweep clears it on expired
//! ones; nothing is ever deleted, preserving an audit trail. Timestamps are
//! Unix seconds.

use vstd::math::abs;
use vstd::prelude::*;
use vstd::string::StrSliceExecFns;
use vstd::string::StringExecFns;

use crate::settings::AuthConfig;
use crate::signature::signature_ok;
use crate::signature::verify_signature;

verus! {

/// One issued key record.
#[derive(Debug, Clone)]
pub struct ApiKey {
    pub id: String,
    pub device_id: String,
    pub api_key: String,
    pub created_at: i64,
    pub expires_at: Option<i64>,
    pub is_active: bool,
}

pub open spec fn is_lower_hex_char(c: char) -> bool {
    ('0' <= c <= '9') || ('a' <= c <= 'f')
}

/// The shape of a hyphenated identifier: 36 characters, `-` at positions
/// 8, 13, 18 and 23, lowercase hex digits everywhere else.
pub open spec fn is_hyphenated_uuid(s: Seq<char>) -> bool {
    &&& s.len() == 36
    &&& forall|i: int|
        0 <= i < 36 ==> (if i == 8 || i == 13 || i == 18 || i == 23 {
            s[i] == '-'
        } else {
            is_lower_hex_char(#[trigger] s[i])
        })
}

/// Relies on uuid::Uuid::new_v4 and its Display form, the lowercase
/// hyphenated rendering: 32 lowercase hex digits with `-` at positions 8,
/// 13, 18 and 23. The value is random, so nothing more is promised of it.
#[verifier::external_body]
fn uuid_v4_string() -> (r: String)
    ensures
        is_hyphenated_uuid(r@),
{
    uuid::Uuid::new_v4().to_string()
}

/// The 32 hex digits of a hyphenated identifier with its 4 separators
/// dropped.
fn strip_uuid_hyphens(s: &str) -> (r: String)
    requires
        is_hyphenated_uuid(s@),
    ensures
        r@ == s@.subrange(0, 8) + s@.subrange(9, 13) + s@.subrange(14, 18) + s@.subrange(19, 23)
            + s@.subrange(24, 36),
        r@.len() == 32,
        forall|i: int| 0 <= i < 32 ==> is_lower_hex_char(#[trigger] r@[i]),
{
    let mut r = String::from_str(s.substring_char(0, 8));
    r.append(s.substring_char(9, 13));
    r.append(s.substring_char(14, 18));
    r.append(s.substring_char(19, 23));
    r.append(s.substring_char(24, 36));
    proof {
        assert forall|i: int| 0 <= i < 32 implies is_lower_hex_char(r@[i]) by {
            if i < 8 {
                assert(r@[i] == s@[i]);
            } else if i < 12 {
                assert(r@[i] == s@[i + 1]);
            } else if i < 16 {
                assert(r@[i] == s@[i + 2]);
            } else if i < 20 {
                assert(r@[i] == s@[i + 3]);
            } else {
                assert(r@[i] == s@[i + 4]);
            }
        }
    }
    r
}

impl ApiKey {
    /// A fresh active record for `device_id`, created at `now`: a random
    /// hyphenated id, and a bearer token `sk-` followed by the 32 hex
    /// digits of a fresh random identifier.
    pub fn new(device_id: String, expires_at: Option<i64>, now: i64) -> (r: ApiKey)
        ensures
            r.device_id == device_id,
            r.created_at == now,
            r.expires_at == expires_at,
            r.is_active,
            r.api_key@.len() == 35,
            r.api_key@.subrange(0, 3) == "sk-"@,
            forall|i: int| 3 <= i < 35 ==> is_lower_hex_char(#[trigger] r.api_key@[i]),
            is_hyphenated_uuid(r.id@),
    {
        let u = uuid_v4_string();
        let suffix = strip_uuid_hyphens(u.as_str());
        let api_key = String::from_str("sk-").concat(suffix.as_str());
        proof {
            reveal_strlit("sk-");
            assert(api_key@.subrange(0, 3) =~= "sk-"@);
            assert forall|i: int| 3 <= i < 35 implies is_lower_hex_char(api_key@[i]) by {
                assert(api_key@[i] == suffix@[i - 3]);
            }
        }
        let id = uuid_v4_string();
        ApiKey { id, device_id, api_key, created_at: now, expires_at, is_active: true }
    }

    /// Valid means active and not expired: an expiry strictly in the
    /// future, or none at all.
    pub open spec fn spec_valid(self, now: int) -> bool {
        self.is_active && match self.expires_at {
            None => true,
            Some(e) => e > now,
        }
    }

    /// Validity at `now`: active, and the expiry — when one is set —
    /// still in the future. A record is already invalid at its expiry
    /// instant, and an expired record still flagged active is invalid
    /// here ahead of the sweep clearing its flag.
    pub fn is_valid(&self, now: i64) -> (r: bool)
        ensures
            r == self.spec_valid(now as int),
    {
        if !self.is_active {
            return false;
        }
        match self.expires_at {
            Some(e) => e > now,
            None => true,
        }
    }
}

/// `k` with its active flag cleared.
pub open spec fn deactivated(k: ApiKey) -> ApiKey {
    ApiKey { is_active: false, ..k }
}

/// Every record of `dev` deactivated; all others untouched.
pub open spec fn deactivate_device(s: Seq<ApiKey>, dev: Seq<char>) -> Seq<ApiKey> {
    Seq::new(
        s.len(),
        |i: int|
            if s[i].device_id@ == dev {
                deactivated(s[i])
            } else {
                s[i]
            },
    )
}

/// Still flagged active although its expiry has passed.
pub open spec fn expired_active(k: ApiKey, now: int) -> bool {
    k.is_active && match k.expires_at {
        Some(e) => e < now,
        None => false,
    }
}

/// The sweep's effect: every expired-active record deactivated, the rest
/// untouched.
pub open spec fn sweep(s: Seq<ApiKey>, now: int) -> Seq<ApiKey> {
    Seq::new(
        s.len(),
        |i: int|
            if expired_active(s[i], now) {
                deactivated(s[i])
            } else {
                s[i]
            },
    )
}

pub open spec fn count_expired_active(s: Seq<ApiKey>, now: int) -> nat
    decreases s.len(),
{
    if s.len() == 0 {
        0
    } else {
        (if expired_active(s[0], now) {
            1nat
        } else {
            0nat
        }) + count_expired_active(s.drop_first(), now)
    }
}

/// First record carrying `token`, if any.
pub open spec fn find_token(s: Seq<ApiKey>, token: Seq<char>) -> Option<ApiKey>
    decreases s.len(),
{
    if s.len() == 0 {
        None
    } else if s[0].api_key@ == token {
        Some(s[0])
    } else {
        find_token(s.drop_first(), token)
    }
}

pub open spec fn has_active_for_device(s: Seq<ApiKey>, dev: Seq<char>) -> bool {
    exists|i: int| 0 <= i < s.len() && s[i].is_active && s[i].device_id@ == dev
}

/// The store invariant on the token column: no two records carry the same
/// bearer token.
pub open spec fn tokens_unique(s: Seq<ApiKey>) -> bool {
    forall|i: int, j: int| 0 <= i < j < s.len() ==> s[i].api_key@ != s[j].api_key@
}

proof fn lemma_find_token_none(s: Seq<ApiKey>, t: Seq<char>)
    requires
        find_token(s, t) is None,
    ensures
        forall|i: int| 0 <= i < s.len() ==> s[i].api_key@ != t,
    decreases s.len(),
{
    if s.len() > 0 {
        lemma_find_token_none(s.drop_first(), t);
        assert forall|i: int| 0 <= i < s.len() implies s[i].api_key@ != t by {
            if i > 0 {
                assert(s.drop_first()[i - 1] == s[i]);
            }
        }
    }
}

/// An issuance whose freshly drawn token is not yet in the store keeps
/// tokens unique: revocation changes no token, and the appended record's
/// token is new.
pub proof fn lemma_register_step_keeps_tokens_unique(s: Seq<ApiKey>, k: ApiKey)
    requires
        tokens_unique(s),
        find_token(s, k.api_key@) is None,
    ensures
        tokens_unique(register_step(s, k)),
{
    lemma_find_token_none(s, k.api_key@);
    let s2 = register_step(s, k);
    assert forall|i: int, j: int| 0 <= i < j < s2.len() implies s2[i].api_key@ != s2[j].api_key@ by {
        if j < s.len() {
            assert(s2[i].api_key@ == s[i].api_key@);
            assert(s2[j].api_key@ == s[j].api_key@);
        } else {
            assert(s2[j] == k);
            assert(s2[i].api_key@ == s[i].api_key@);
        }
    }
}

/// The record store, modelled as the full history of issued records in
/// insertion order.
pub struct KeyStore {
    records: Vec<ApiKey>,
}

impl View for KeyStore {
    type V = Seq<ApiKey>;

    closed spec fn view(&self) -> Seq<ApiKey> {
        self.records@
    }
}

impl KeyStore {
    pub fn new() -> (r: KeyStore)
        ensures
            r@ == Seq::<ApiKey>::empty(),
    {
        KeyStore { records: Vec::new() }
    }

    /// Persists a record. Nothing is overwritten: the record is appended.
    pub fn create(&mut self, k: ApiKey)
        ensures
            final(self)@ == old(self)@.push(k),
    {
        self.records.push(k);
    }

    /// The first record carrying `token`, if any.
    pub fn find_by_api_key(&self, token: &String) -> (r: Option<&ApiKey>)
        ensures
            match r {
                Some(k) => find_token(self@, token@) == Some(*k),
                None => find_token(self@, token@) is None,
            },
    {
        let n = self.records.len();
        let mut i: usize = 0;
        proof {
            assert(self@.skip(0) =~= self@);
        }
        while i < n
            invariant
                0 <= i <= n,
                n == self@.len(),
                find_token(self@, token@) == find_token(self@.skip(i as int), token@),
            decreases n - i,
        {
            let rec = &self.records[i];
            if rec.api_key == *token {
                proof {
                    assert(self@.skip(i as int)[0] == self@[i as int]);
                }
                return Some(rec);
            }
            proof {
                assert(self@.skip(i as int).drop_first() =~= self@.skip(i as int + 1));
            }
            i = i + 1;
        }
        proof {
            assert(self@.skip(n as int) =~= Seq::<ApiKey>::empty());
        }
        None
    }

    /// The most recently created active record of `dev`, if the device has
    /// one (ties on the creation time may resolve to either record).
    pub fn find_by_device_id(&self, device_id: &String) -> (r: Option<&ApiKey>)
        ensures
            match r {
                Some(k) => {
                    &&& exists|i: int| 0 <= i < self@.len() && self@[i] == *k
                    &&& k.is_active && k.device_id@ == device_id@
                    &&& forall|j: int| #![auto]
                        0 <= j < self@.len() && self@[j].is_active && self@[j].device_id@
                            == device_id@ ==> self@[j].created_at <= k.created_at
                },
                None => !has_active_for_device(self@, device_id@),
            },
    {
        let n = self.records.len();
        let mut best: Option<usize> = None;
        let mut i: usize = 0;
        while i < n
            invariant
                0 <= i <= n,
                n == self@.len(),
                match best {
                    Some(b) => {
                        &&& b < i
                        &&& self@[b as int].is_active && self@[b as int].device_id@ == device_id@
                        &&& forall|j: int| #![auto]
                            0 <= j < i && self@[j].is_active && self@[j].device_id@ == device_id@
                                ==> self@[j].created_at <= self@[b as int].created_at
                    },
                    None => forall|j: int| #![auto]
                        0 <= j < i ==> !(self@[j].is_active && self@[j].device_id@ == device_id@),
                },
            decreases n - i,
        {
            let active = self.records[i].is_active;
            let matches_dev = self.records[i].device_id == *device_id;
            if active && matches_dev {
                match best {
                    Some(b) => {
                        if self.records[b].created_at < self.records[i].created_at {
                            best = Some(i);
                        }
                    },
                    None => {
                        best = Some(i);
                    },
                }
            }
            i = i + 1;
        }
        match best {
            Some(b) => Some(&self.records[b]),
            None => None,
        }
    }

    /// Clears the active flag of every record of `device_id`; a no-op when
    /// it has none.
    pub fn deactivate_by_device_id(&mut self, device_id: &String)
        ensures
            final(self)@ == deactivate_device(old(self)@, device_id@),
    {
        let n = self.records.len();
        let mut i: usize = 0;
        while i < n
            invariant
                0 <= i <= n,
                n == self.records@.len(),
                self.records@.len() == old(self).records@.len(),
                forall|j: int| #![auto]
                    0 <= j < i ==> self.records@[j] == (if old(self).records@[j].device_id@
                        == device_id@ {
                        deactivated(old(self).records@[j])
                    } else {
                        old(self).records@[j]
                    }),
                forall|j: int| i <= j < n ==> self.records@[j] == old(self).records@[j],
            decreases n - i,
        {
            if self.records[i].device_id == *device_id {
                self.records[i].is_active = false;
            }
            i = i + 1;
        }
        proof {
            assert(self@ =~= deactivate_device(old(self)@, device_id@));
        }
    }

    /// Clears the active flag of the record with this id, if present.
    pub fn deactivate(&mut self, id: &String)
        ensures
            final(self)@ == Seq::new(
                old(self)@.len(),
                |i: int|
                    if old(self)@[i].id@ == id@ {
                        deactivated(old(self)@[i])
                    } else {
                        old(self)@[i]
                    },
            ),
    {
        let n = self.records.len();
        let mut i: usize = 0;
        while i < n
            invariant
                0 <= i <= n,
                n == self.records@.len(),
                self.records@.len() == old(self).records@.len(),
                forall|j: int| #![auto]
                    0 <= j < i ==> self.records@[j] == (if old(self).records@[j].id@ == id@ {
                        deactivated(old(self).records@[j])
                    } else {
                        old(self).records@[j]
                    }),
                forall|j: int| i <= j < n ==> self.records@[j] == old(self).records@[j],
            decreases n - i,
        {
            if self.records[i].id == *id {
                self.records[i].is_active = false;
            }
            i = i + 1;
        }
        proof {
            assert(self@ =~= Seq::new(
                old(self)@.len(),
                |i: int|
                    if old(self)@[i].id@ == id@ {
                        deactivated(old(self)@[i])
                    } else {
                        old(self)@[i]
                    },
            ));
        }
    }

    /// The expiry sweep: flips `is_active` off on every record whose
    /// expiry has passed and is still flagged active, and reports how many
    /// records it flipped.
    pub fn cleanup_expired(&mut self, now: i64) -> (r: u64)
        ensures
            final(self)@ == sweep(old(self)@, now as int),
            r == count_expired_active(old(self)@, now as int),
    {
        let n = self.records.len();
        let mut count: u64 = 0;
        let mut i: usize = 0;
        proof {
            assert(old(self)@.take(0) =~= Seq::<ApiKey>::empty());
        }
        while i < n
            invariant
                0 <= i <= n,
                n == self.records@.len(),
                self.records@.len() == old(self).records@.len(),
                count <= i,
                count == count_expired_active(old(self)@.take(i as int), now as int),
                forall|j: int| #![auto]
                    0 <= j < i ==> self.records@[j] == (if expired_active(
                        old(self).records@[j],
                        now as int,
                    ) {
                        deactivated(old(self).records@[j])
                    } else {
                        old(self).records@[j]
                    }),
                forall|j: int| i <= j < n ==> self.records@[j] == old(self).records@[j],
            decreases n - i,
        {
            let flip = self.records[i].is_active && match self.records[i].expires_at {
                Some(e) => e < now,
                None => false,
            };
            if flip {
                self.records[i].is_active = false;
                count = count + 1;
            }
            proof {
                lemma_count_prefix(old(self)@, now as int, i as int);
            }
            i = i + 1;
        }
        proof {
            assert(old(self)@.take(n as int) =~= old(self)@);
            assert(self@ =~= sweep(old(self)@, now as int));
        }
        count
    }
}

proof fn lemma_count_prefix(s: Seq<ApiKey>, now: int, i: int)
    requires
        0 <= i < s.len(),
    ensures
        count_expired_active(s.take(i + 1), now) == count_expired_active(s.take(i), now) + (
        if expired_active(s[i], now) {
            1int
        } else {
            0int
        }),
    decreases i,
{
    if i == 0 {
        assert(s.take(1) =~= seq![s[0]]);
        assert(s.take(0) =~= Seq::<ApiKey>::empty());
        assert(s.take(1).drop_first() =~= Seq::<ApiKey>::empty());
    } else {
        lemma_count_prefix(s.drop_first(), now, i - 1);
        assert(s.take(i + 1).drop_first() =~= s.drop_first().take(i));
        assert(s.take(i).drop_first() =~= s.drop_first().take(i - 1));
        assert(s.take(i + 1)[0] == s[0]);
        assert(s.take(i)[0] == s[0]);
        assert(s.drop_first()[i - 1] == s[i]);
    }
}

proof fn lemma_count_zero(s: Seq<ApiKey>, now: int)
    requires
        forall|i: int| 0 <= i < s.len() ==> !expired_active(s[i], now),
    ensures
        count_expired_active(s, now) == 0,
    decreases s.len(),
{
    if s.len() == 0 {
    } else {
        assert(forall|i: int| 0 <= i < s.drop_first().len() ==> s.drop_first()[i] == s[i + 1]);
        lemma_count_zero(s.drop_first(), now);
    }
}

/// The sweep leaves nothing expired-active behind: a second sweep at the
/// same instant flips zero records and changes nothing.
pub proof fn lemma_sweep_idempotent(s: Seq<ApiKey>, now: int)
    ensures
        count_expired_active(sweep(s, now), now) == 0,
        sweep(sweep(s, now), now) == sweep(s, now),
{
    assert forall|i: int| 0 <= i < sweep(s, now).len() implies !expired_active(
        sweep(s, now)[i],
        now,
    ) by {
        if expired_active(s[i], now) {
            assert(sweep(s, now)[i] == deactivated(s[i]));
        }
    }
    lemma_count_zero(sweep(s, now), now);
    assert(sweep(sweep(s, now), now) =~= sweep(s, now));
}

/// A record found in the store is found unchanged after an append, and a
/// fresh token is found exactly when the appended record carries it.
pub proof fn lemma_find_token_push(s: Seq<ApiKey>, k: ApiKey, t: Seq<char>)
    ensures
        find_token(s.push(k), t) == match find_token(s, t) {
            Some(x) => Some(x),
            None => if k.api_key@ == t {
                Some(k)
            } else {
                None
            },
        },
    decreases s.len(),
{
    if s.len() == 0 {
        assert(s.push(k)[0] == k);
        assert(s.push(k).drop_first() =~= Seq::<ApiKey>::empty());
        assert(find_token(Seq::<ApiKey>::empty(), t) is None);
        assert(find_token(s.push(k), t) == if k.api_key@ == t {
            Some(k)
        } else {
            None::<ApiKey>
        });
    } else {
        lemma_find_token_push(s.drop_first(), k, t);
        assert(s.push(k)[0] == s[0]);
        assert(s.push(k).drop_first() =~= s.drop_first().push(k));
        assert(find_token(s.push(k).drop_first(), t) == find_token(s.drop_first().push(k), t));
        if s[0].api_key@ == t {
            assert(find_token(s.push(k), t) == Some(s[0]));
            assert(find_token(s, t) == Some(s[0]));
        } else {
            assert(find_token(s.push(k), t) == find_token(s.drop_first().push(k), t));
            assert(find_token(s, t) == find_token(s.drop_first(), t));
        }
    }
}

/// Deactivating a device's records never adds or removes a token: lookup
/// finds the same record, deactivated when it belongs to the device.
pub proof fn lemma_find_token_deactivate(s: Seq<ApiKey>, dev: Seq<char>, t: Seq<char>)
    ensures
        find_token(deactivate_device(s, dev), t) == match find_token(s, t) {
            Some(x) => Some(
                if x.device_id@ == dev {
                    deactivated(x)
                } else {
                    x
                },
            ),
            None => None::<ApiKey>,
        },
    decreases s.len(),
{
    if s.len() == 0 {
        assert(deactivate_device(s, dev) =~= Seq::<ApiKey>::empty());
    } else {
        lemma_find_token_deactivate(s.drop_first(), dev, t);
        assert(deactivate_device(s, dev)[0] == (if s[0].device_id@ == dev {
            deactivated(s[0])
        } else {
            s[0]
        }));
        assert(deactivate_device(s, dev).drop_first() =~= deactivate_device(s.drop_first(), dev));
    }
}

/// What a registration request carries.
#[derive(Debug, Clone)]
pub struct RegisterRequest {
    pub device_id: String,
    pub timestamp: Option<i64>,
    pub signature: Option<String>,
}

/// What a successful registration returns.
#[derive(Debug, Clone)]
pub struct RegisterResponse {
    pub api_key: String,
    pub expires_at: Option<i64>,
}

#[derive(PartialEq, Eq, Structural, Clone, Copy, Debug)]
pub enum RegisterError {
    MissingDeviceId,
    MissingTimestamp,
    MissingSignature,
    TimestampExpired,
    InvalidSignature,
}

impl RegisterError {
    pub open spec fn spec_error_code(self) -> int {
        match self {
            RegisterError::MissingDeviceId => -32005,
            RegisterError::MissingTimestamp => -32005,
            RegisterError::MissingSignature => -32005,
            RegisterError::TimestampExpired => -32003,
            RegisterError::InvalidSignature => -32003,
        }
    }

    pub fn error_code(&self) -> (r: i64)
        ensures
            r == self.spec_error_code(),
    {
        match self {
            RegisterError::MissingDeviceId => -32005,
            RegisterError::MissingTimestamp => -32005,
            RegisterError::MissingSignature => -32005,
            RegisterError::TimestampExpired => -32003,
            RegisterError::InvalidSignature => -32003,
        }
    }

    pub open spec fn spec_status_code(self) -> u16 {
        match self {
            RegisterError::MissingDeviceId => 400,
            RegisterError::MissingTimestamp => 400,
            RegisterError::MissingSignature => 400,
            RegisterError::TimestampExpired => 401,
            RegisterError::InvalidSignature => 401,
        }
    }

    /// 400 for a missing field, 401 for a failed authentication.
    pub fn status_code(&self) -> (r: u16)
        ensures
            r == self.spec_status_code(),
    {
        match self {
            RegisterError::MissingDeviceId => 400,
            RegisterError::MissingTimestamp => 400,
            RegisterError::MissingSignature => 400,
            RegisterError::TimestampExpired => 401,
            RegisterError::InvalidSignature => 401,
        }
    }

    pub open spec fn spec_message(self) -> Seq<char> {
        match self {
            RegisterError::MissingDeviceId => "device_id is required"@,
            RegisterError::MissingTimestamp => "timestamp is required"@,
            RegisterError::MissingSignature => "signature is required"@,
            RegisterError::TimestampExpired => "Request timestamp expired"@,
            RegisterError::InvalidSignature => "Invalid signature"@,
        }
    }

    pub fn message(&self) -> (r: &'static str)
        ensures
            r@ == self.spec_message(),
    {
        match self {
            RegisterError::MissingDeviceId => "device_id is required",
            RegisterError::MissingTimestamp => "timestamp is required",
            RegisterError::MissingSignature => "signature is required",
            RegisterError::TimestampExpired => "Request timestamp expired",
            RegisterError::InvalidSignature => "Invalid signature",
        }
    }
}

/// The configured secret, viewed.
pub open spec fn spec_secret(auth: AuthConfig) -> Option<Seq<char>> {
    match auth.client_secret {
        Some(s) => Some(s@),
        None => None,
    }
}

/// Validation outcome for a registration request at `now`: an empty device
/// id is rejected; with a secret configured, the timestamp and signature
/// must be present, the timestamp within tolerance of `now`, and the
/// signature the expected tag — in that order, with no fallback to
/// unauthenticated issuance.
pub open spec fn spec_validate(
    req: RegisterRequest,
    secret: Option<Seq<char>>,
    now: int,
    tolerance: int,
) -> Result<(), RegisterError> {
    if req.device_id@.len() == 0 {
        Err(RegisterError::MissingDeviceId)
    } else {
        match secret {
            None => Ok(()),
            Some(sec) => match req.timestamp {
                None => Err(RegisterError::MissingTimestamp),
                Some(ts) => match req.signature {
                    None => Err(RegisterError::MissingSignature),
                    Some(sig) => if abs(now - ts) > tolerance {
                        Err(RegisterError::TimestampExpired)
                    } else if !signature_ok(req.device_id@, ts as int, sig@, sec) {
                        Err(RegisterError::InvalidSignature)
                    } else {
                        Ok(())
                    },
                },
            },
        }
    }
}

/// Checks a registration request against the configured authentication,
/// per `spec_validate`.
pub fn validate_registration(req: &RegisterRequest, auth: &AuthConfig, now: i64) -> (r: Result<
    (),
    RegisterError,
>)
    ensures
        r == spec_validate(*req, spec_secret(*auth), now as int, auth.timestamp_tolerance_secs as int),
{
    if req.device_id.as_str().is_empty() {
        return Err(RegisterError::MissingDeviceId);
    }
    match &auth.client_secret {
        None => Ok(()),
        Some(secret) => {
            let ts = match req.timestamp {
                Some(t) => t,
                None => {
                    return Err(RegisterError::MissingTimestamp);
                },
            };
            let sig = match &req.signature {
                Some(s) => s,
                None => {
                    return Err(RegisterError::MissingSignature);
                },
            };
            let diff: i128 = now as i128 - ts as i128;
            let adiff: i128 = if diff < 0 {
                -diff
            } else {
                diff
            };
            if adiff > auth.timestamp_tolerance_secs as i128 {
                return Err(RegisterError::TimestampExpired);
            }
            if !verify_signature(req.device_id.as_str(), ts, sig.as_str(), secret.as_str()) {
                return Err(RegisterError::InvalidSignature);
            }
            Ok(())
        },
    }
}

/// A timestamp outside the tolerance never registers, whatever the
/// signature — even one that would otherwise check out is not examined.
/// On a well-formed request (device id present, signature attached) the
/// answer is the timestamp error itself; a request that is also missing a
/// field is rejected for that field first, but rejected all the same.
pub proof fn lemma_stale_timestamp_rejected(
    req: RegisterRequest,
    secret: Seq<char>,
    now: int,
    tolerance: int,
)
    requires
        req.timestamp is Some,
        abs(now - req.timestamp->Some_0) > tolerance,
    ensures
        spec_validate(req, Some(secret), now, tolerance) is Err,
        req.device_id@.len() > 0 && req.signature is Some ==> spec_validate(
            req,
            Some(secret),
            now,
            tolerance,
        ) == Err::<(), RegisterError>(RegisterError::TimestampExpired),
{
}

/// The expiry an issuance stamps on the new record: `now` plus the
/// configured number of days, or none when no TTL is configured.
pub open spec fn spec_expiry(auth: AuthConfig, now: i64) -> Option<i64> {
    match auth.key_expiration_days {
        Some(d) => Some((now + d * 86400) as i64),
        None => None,
    }
}

/// Computes the expiry a key issued at `now` carries under this
/// configuration. The bound on the configured TTL is a machine limit:
/// the sum must stay representable.
pub fn expiry_at(auth: &AuthConfig, now: i64) -> (r: Option<i64>)
    requires
        match auth.key_expiration_days {
            Some(d) => 0 <= d && now + d * 86400 <= i64::MAX,
            None => true,
        },
    ensures
        r == spec_expiry(*auth, now),
{
    match auth.key_expiration_days {
        Some(d) => Some(((now as i128) + (d as i128) * 86400) as i64),
        None => None,
    }
}

/// Spec-level effect of an issuance on the store: every record of the
/// device deactivated, then the fresh record appended.
pub open spec fn register_step(s: Seq<ApiKey>, k: ApiKey) -> Seq<ApiKey> {
    deactivate_device(s, k.device_id@).push(k)
}

/// Issues a key: validates the request, soft-revokes the device's earlier
/// records, and persists a fresh token with the configured expiry. On any
/// validation failure the store is untouched and no key is issued.
pub fn register_device(
    store: &mut KeyStore,
    req: &RegisterRequest,
    auth: &AuthConfig,
    now: i64,
) -> (r: Result<RegisterResponse, RegisterError>)
    requires
        match auth.key_expiration_days {
            Some(d) => 0 <= d && now + d * 86400 <= i64::MAX,
            None => true,
        },
    ensures
        match r {
            Ok(resp) => {
                &&& spec_validate(
                    *req,
                    spec_secret(*auth),
                    now as int,
                    auth.timestamp_tolerance_secs as int,
                ) is Ok
                &&& exists|k: ApiKey|
                    {
                        &&& final(store)@ == register_step(old(store)@, k)
                        &&& k.device_id@ == req.device_id@
                        &&& k.created_at == now
                        &&& k.is_active
                        &&& k.expires_at == spec_expiry(*auth, now)
                        &&& resp.api_key == k.api_key
                        &&& resp.expires_at == k.expires_at
                        &&& k.api_key@.len() == 35
                        &&& k.api_key@.subrange(0, 3) == "sk-"@
                    }
            },
            Err(e) => {
                &&& Err::<(), RegisterError>(e) == spec_validate(
                    *req,
                    spec_secret(*auth),
                    now as int,
                    auth.timestamp_tolerance_secs as int,
                )
                &&& final(store)@ == old(store)@
            },
        },
{
    match validate_registration(req, auth, now) {
        Err(e) => Err(e),
        Ok(()) => {
            store.deactivate_by_device_id(&req.device_id);
            let expires_at = expiry_at(auth, now);
            let key = ApiKey::new(req.device_id.clone(), expires_at, now);
            let resp = RegisterResponse { api_key: key.api_key.clone(), expires_at: key.expires_at };
            let ghost issued = key;
            store.create(key);
            proof {
                assert(final(store)@ == register_step(old(store)@, issued));
            }
            Ok(resp)
        },
    }
}

} // verus!
