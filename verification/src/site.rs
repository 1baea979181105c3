//! The model of a user and its sites, as the user file holds them, and the user key that
//! the algorithm derives from the user's name and secret.
use vstd::prelude::*;

use crate::spectre::{AlgorithmVersion, ResultType, ResultTypeDefault};
use crate::identicon::Identicon;
use crate::text::push_char;
use vstd::std_specs::cmp::PartialEqSpec;
use vstd::std_specs::cmp::PartialEqSpecImpl;

verus! {

/// Declares std's `std::time::SystemTime`, a reading of the system clock.
#[verifier::external_type_specification]
#[verifier::external_body]
pub struct ExSystemTime(std::time::SystemTime);

/// Reads the system clock with `std::time::SystemTime::now`. What it returns depends on
/// the time, so nothing is stated of it.
#[verifier::external_body]
fn system_time_now() -> std::time::SystemTime {
    std::time::SystemTime::now()
}

/// Calls `SystemTime::duration_since` with `std::time::UNIX_EPOCH`: std documents an
/// error when the reading lies before the epoch, which comes back here as `None`. Which
/// of the two comes back, and which duration, depends on the clock, so nothing is stated.
#[verifier::external_body]
fn duration_since_unix_epoch(t: &std::time::SystemTime) -> Option<core::time::Duration> {
    t.duration_since(std::time::UNIX_EPOCH).ok()
}

/// Calls `Duration::as_secs`, the whole seconds of a duration. A `Duration` has no model
/// here to speak of, so which number that is goes unsaid; nothing is stated.
#[verifier::external_body]
fn duration_as_secs(d: &core::time::Duration) -> u64 {
    d.as_secs()
}

/// A security question of a site: its keyword, the result type of its answer, and the
/// state data (base64), if any, that the answer needs.
pub struct SiteQuestion {
    pub keyword: String,
    /// Numeric code of the result type of the answer.
    pub result_type: u32,
    pub state: Option<String>,
}

/// A site of a user: the name from which its password is derived, the algorithm version,
/// counter and result type that derive it, and what the user file records of its use.
pub struct Site {
    pub site_name: String,
    /// Numeric code of the algorithm version.
    pub algorithm: u32,
    pub counter: u32,
    /// Numeric code of the result type of the site's password.
    pub result_type: u32,
    /// State data (base64), if any, that the site's result needs.
    pub result_state: Option<String>,
    /// Numeric code of the result type of the site's login name.
    pub login_type: u32,
    /// State data (base64), if any, that the site's login needs.
    pub login_state: Option<String>,
    pub url: Option<String>,
    pub uses: u32,
    /// Seconds since the Unix epoch of the last use.
    pub last_used: i64,
    /// The site's security questions.
    pub questions: Vec<SiteQuestion>,
}

/// A copy of an optional string.
fn copy_opt_string(s: &Option<String>) -> (r: Option<String>)
    ensures
        r == *s,
{
    match s {
        Some(t) => Some(t.clone()),
        None => None,
    }
}

/// A copy of a site's security questions.
fn copy_questions(qs: &Vec<SiteQuestion>) -> (r: Vec<SiteQuestion>)
    ensures
        r@ == qs@,
{
    let mut r: Vec<SiteQuestion> = Vec::new();
    let mut i: usize = 0;
    while i < qs.len()
        invariant
            i <= qs@.len(),
            r@ == qs@.subrange(0, i as int),
        decreases qs@.len() - i,
    {
        let q = &qs[i];
        r.push(
            SiteQuestion {
                keyword: q.keyword.clone(),
                result_type: q.result_type,
                state: copy_opt_string(&q.state),
            },
        );
        i = i + 1;
        assert(r@ =~= qs@.subrange(0, i as int));
    }
    assert(r@ =~= qs@);
    r
}

/// The code that marks a site's login as not set.
pub const LOGIN_TYPE_NONE: u32 = 0;

impl Site {
    /// A new site as the algorithm records one: with the given name, result type, counter
    /// and version, no state, no login, no address, never used.
    pub fn new(
        site_name: &str,
        result_type: ResultType,
        counter: u32,
        algorithm_version: AlgorithmVersion,
    ) -> (r: Site)
        ensures
            r.site_name@ == site_name@,
            r.result_type == result_type.code(),
            r.counter == counter,
            r.algorithm == algorithm_version.code(),
            r.result_state is None,
            r.login_type == LOGIN_TYPE_NONE,
            r.login_state is None,
            r.url is None,
            r.uses == 0,
            r.last_used == 0,
            r.questions@.len() == 0,
    {
        Site {
            site_name: site_name.to_owned(),
            algorithm: algorithm_version.to_u32(),
            counter,
            result_type: result_type.to_u32(),
            result_state: None,
            login_type: LOGIN_TYPE_NONE,
            login_state: None,
            url: None,
            uses: 0,
            last_used: 0,
            questions: Vec::new(),
        }
    }

    /// `self` and `other` hold the same values: equal fields, and security questions with
    /// equal values in the same order.
    pub open spec fn same_values(self, other: Site) -> bool {
        &&& (Site { questions: other.questions, ..self }) == other
        &&& self.questions@ == other.questions@
    }

    /// A copy of the site.
    pub fn duplicate(&self) -> (r: Site)
        ensures
            r.same_values(*self),
    {
        Site {
            site_name: self.site_name.clone(),
            algorithm: self.algorithm,
            counter: self.counter,
            result_type: self.result_type,
            result_state: copy_opt_string(&self.result_state),
            login_type: self.login_type,
            login_state: copy_opt_string(&self.login_state),
            url: copy_opt_string(&self.url),
            uses: self.uses,
            last_used: self.last_used,
            questions: copy_questions(&self.questions),
        }
    }

    /// The site's name.
    pub fn get_name(&self) -> (r: String)
        ensures
            r@ == self.site_name@,
    {
        self.site_name.clone()
    }

    /// Renames the site; nothing else changes.
    pub fn set_name(&mut self, name: &str)
        ensures
            final(self).site_name@ == name@,
            *final(self) == (Site { site_name: final(self).site_name, ..*old(self) }),
    {
        self.site_name = name.to_owned();
    }

    /// The site's address; the site must have one.
    pub fn get_url(&self) -> (r: String)
        requires
            self.url is Some,
        ensures
            r@ == self.url->0@,
    {
        match &self.url {
            Some(u) => u.clone(),
            None => String::new(),
        }
    }

    /// Sets the site's address; nothing else changes.
    pub fn set_url(&mut self, url: &str)
        ensures
            final(self).url matches Some(u) && u@ == url@,
            *final(self) == (Site { url: final(self).url, ..*old(self) }),
    {
        self.url = Some(url.to_owned());
    }

    /// Counts one more use of the site; nothing else changes.
    pub fn increase_uses(&mut self)
        requires
            old(self).uses < u32::MAX,
        ensures
            final(self).uses == old(self).uses + 1,
            *final(self) == (Site { uses: final(self).uses, ..*old(self) }),
    {
        self.uses = self.uses + 1;
    }

    /// How often the site was used.
    pub fn get_uses(&self) -> (r: u32)
        ensures
            r == self.uses,
    {
        self.uses
    }

    /// Records a use at `secs` seconds after the Unix epoch, the count of seconds taken as
    /// a signed number as the user file stores it; nothing else changes.
    pub fn set_last_used(&mut self, secs: u64)
        ensures
            final(self).last_used == secs as i64,
            *final(self) == (Site { last_used: final(self).last_used, ..*old(self) }),
    {
        self.last_used = secs as i64;
    }

    /// Records a use now, by the system clock, and returns the clock's reading in seconds
    /// since the Unix epoch; nothing else changes. A clock that reads before the Unix epoch
    /// gives `None` and leaves the site as it was.
    pub fn set_used_now(&mut self) -> (r: Option<u64>)
        ensures
            r matches Some(secs) ==> final(self).last_used == secs as i64 && *final(self) == (
            Site { last_used: final(self).last_used, ..*old(self) }),
            r is None ==> *final(self) == *old(self),
    {
        let now = system_time_now();
        match duration_since_unix_epoch(&now) {
            Some(d) => {
                let secs: u64 = duration_as_secs(&d);
                self.set_last_used(secs);
                Some(secs)
            },
            None => None,
        }
    }

    /// When the site was last used, in seconds since the Unix epoch.
    pub fn last_used(&self) -> (r: i64)
        ensures
            r == self.last_used,
    {
        self.last_used
    }

    /// The site's algorithm version; its code must name one.
    pub fn get_algorithm(&self) -> (r: AlgorithmVersion)
        requires
            AlgorithmVersion::from_code(self.algorithm) is Some,
        ensures
            Some(r) == AlgorithmVersion::from_code(self.algorithm),
            r.code() == self.algorithm,
    {
        match AlgorithmVersion::from_u32(self.algorithm) {
            Some(v) => v,
            None => AlgorithmVersion::V3,
        }
    }

    /// The site's result type; a code that names no result type gives the default.
    #[allow(non_snake_case)]
    pub fn get_resultType(&self) -> (r: ResultType)
        ensures
            r == site_result_type(self.result_type),
    {
        match ResultType::from_u32(self.result_type) {
            Some(t) => t,
            None => ResultTypeDefault,
        }
    }
}

/// The result type that a site's numeric code stands for, the default where it names none.
pub open spec fn site_result_type(code: u32) -> ResultType {
    match ResultType::from_code(code) {
        Some(t) => t,
        None => ResultTypeDefault,
    }
}

/// Two sites are the same site when they have the same name.
impl PartialEq for Site {
    fn eq(&self, other: &Self) -> (r: bool) {
        self.site_name == other.site_name
    }
}

impl Eq for Site {}

impl PartialEqSpecImpl for Site {
    open spec fn obeys_eq_spec() -> bool {
        true
    }

    open spec fn eq_spec(&self, other: &Site) -> bool {
        self.site_name@ == other.site_name@
    }
}

/// Site equality is an equivalence: reflexive, symmetric and transitive.
pub proof fn law_site_eq_is_equivalence(a: Site, b: Site, c: Site)
    ensures
        PartialEqSpec::eq_spec(&a, &a),
        PartialEqSpec::eq_spec(&a, &b) ==> PartialEqSpec::eq_spec(&b, &a),
        PartialEqSpec::eq_spec(&a, &b) && PartialEqSpec::eq_spec(&b, &c) ==> PartialEqSpec::eq_spec(
            &a,
            &c,
        ),
{
}

/// The key that the algorithm derives from a user's name and secret: its 32-byte
/// identifier, the version that derived it, and its 64 bytes.
pub struct UserKey {
    key_id: Vec<u8>,
    algorithm: AlgorithmVersion,
    bytes: Vec<u8>,
}

/// The length in bytes of a key identifier.
pub const KEY_ID_LEN: usize = 32;

/// The length in bytes of a user key.
pub const USER_KEY_LEN: usize = 64;

impl UserKey {
    #[verifier::type_invariant]
    spec fn well_formed(self) -> bool {
        self.key_id@.len() == KEY_ID_LEN && self.bytes@.len() == USER_KEY_LEN
    }

    /// The key's identifier.
    pub closed spec fn key_id_view(self) -> Seq<u8> {
        self.key_id@
    }

    /// The version that derived the key.
    pub closed spec fn algorithm_view(self) -> AlgorithmVersion {
        self.algorithm
    }

    /// The key's bytes.
    pub closed spec fn bytes_view(self) -> Seq<u8> {
        self.bytes@
    }

    /// A key from its parts; `None` unless the identifier has 32 bytes and the key 64.
    pub fn new(key_id: Vec<u8>, algorithm: AlgorithmVersion, bytes: Vec<u8>) -> (r: Option<
        UserKey,
    >)
        ensures
            r is Some <==> key_id@.len() == KEY_ID_LEN && bytes@.len() == USER_KEY_LEN,
            r matches Some(k) ==> k.key_id_view() == key_id@ && k.algorithm_view() == algorithm
                && k.bytes_view() == bytes@,
    {
        if key_id.len() == KEY_ID_LEN && bytes.len() == USER_KEY_LEN {
            Some(UserKey { key_id, algorithm, bytes })
        } else {
            None
        }
    }

    /// The key's identifier, 32 bytes.
    pub fn key_id(&self) -> (r: &[u8])
        ensures
            r@ == self.key_id_view(),
            r@.len() == KEY_ID_LEN,
    {
        proof {
            use_type_invariant(self);
        }
        self.key_id.as_slice()
    }

    /// The key's identifier in upper-case hexadecimal, 64 digits.
    pub fn key_id_hex(&self) -> (r: String)
        ensures
            r@ == hex_upper(self.key_id_view()),
            r@.len() == 2 * KEY_ID_LEN,
    {
        proof {
            use_type_invariant(self);
        }
        to_hex_upper(self.key_id.as_slice())
    }

    /// The version that derived the key.
    pub fn algorithm(&self) -> (r: AlgorithmVersion)
        ensures
            r == self.algorithm_view(),
    {
        self.algorithm
    }

    /// The key's bytes, 64 of them.
    pub fn bytes(&self) -> (r: &[u8])
        ensures
            r@ == self.bytes_view(),
            r@.len() == USER_KEY_LEN,
    {
        proof {
            use_type_invariant(self);
        }
        self.bytes.as_slice()
    }
}

/// The upper-case hexadecimal digit of a number below 16.
pub open spec fn hex_digit_spec(n: u8) -> char {
    if n < 10 {
        (48 + n) as char
    } else {
        (55 + n) as char
    }
}

/// The upper-case hexadecimal text of some bytes: two digits per byte, the high half first.
pub open spec fn hex_upper(bytes: Seq<u8>) -> Seq<char> {
    Seq::new(
        2 * bytes.len(),
        |i: int|
            if i % 2 == 0 {
                hex_digit_spec(bytes[i / 2] / 16)
            } else {
                hex_digit_spec(bytes[i / 2] % 16)
            },
    )
}

/// The upper-case hexadecimal digit of a number below 16.
fn hex_digit(n: u8) -> (r: char)
    requires
        n < 16,
    ensures
        r == hex_digit_spec(n),
{
    if n < 10 {
        (48 + n) as char
    } else {
        (55 + n) as char
    }
}

/// The upper-case hexadecimal text of some bytes, such as "0AFF" for 10 and 255.
pub fn to_hex_upper(bytes: &[u8]) -> (r: String)
    ensures
        r@ == hex_upper(bytes@),
{
    let mut r = String::new();
    let mut i: usize = 0;
    while i < bytes.len()
        invariant
            i <= bytes@.len(),
            r@ == hex_upper(bytes@.subrange(0, i as int)),
        decreases bytes@.len() - i,
    {
        let b: u8 = bytes[i];
        push_char(&mut r, hex_digit(b / 16));
        push_char(&mut r, hex_digit(b % 16));
        i = i + 1;
        assert(r@ =~= hex_upper(bytes@.subrange(0, i as int))) by {
            let prefix = bytes@.subrange(0, i as int);
            assert forall|k: int| 0 <= k < 2 * i implies #[trigger] hex_upper(prefix)[k] == r@[k] by {
                assert(prefix[k / 2] == bytes@[k / 2]);
                if k < 2 * (i - 1) {
                    assert(bytes@.subrange(0, i - 1)[k / 2] == bytes@[k / 2]);
                }
            }
        }
    }
    assert(bytes@.subrange(0, bytes@.len() as int) =~= bytes@);
    r
}

/// A user as its file holds it: the full name, the algorithm version, the identifier of
/// its key, what the file records of the user besides, and its sites in the order in which
/// they were added.
pub struct User {
    pub user_name: String,
    /// Numeric code of the algorithm version.
    pub algorithm: u32,
    pub key_id: Vec<u8>,
    /// Whether the file leaves out the user's secret results.
    pub redacted: bool,
    /// The user's identicon, if the file records one.
    pub identicon: Option<Identicon>,
    pub avatar: u32,
    /// Numeric code of the result type that new sites get.
    pub default_type: u32,
    /// Numeric code of the result type of the user's login name.
    pub login_type: u32,
    /// State data (base64), if any, that the login name needs.
    pub login_state: Option<String>,
    /// Seconds since the Unix epoch of the last use.
    pub last_used: i64,
    pub sites: Vec<Site>,
}

/// The result type that a new user gives new sites: the long password template.
pub const USER_DEFAULT_TYPE: u32 = 17;

/// The result type of a new user's login name: the name template.
pub const USER_DEFAULT_LOGIN_TYPE: u32 = 30;

/// Some site in `sites` has the name `name`.
pub open spec fn has_site_spec(sites: Seq<Site>, name: Seq<char>) -> bool {
    exists|i: int| 0 <= i < sites.len() && #[trigger] sites[i].site_name@ == name
}

impl User {
    /// A new user with the given full name and version, identified by the given key, with
    /// no sites.
    pub fn create(full_name: &str, algorithm_version: AlgorithmVersion, key: &UserKey) -> (r: User)
        ensures
            r.user_name@ == full_name@,
            r.algorithm == algorithm_version.code(),
            r.key_id@ == key.key_id_view(),
            r.redacted,
            r.identicon is None,
            r.avatar == 0,
            r.default_type == USER_DEFAULT_TYPE,
            r.login_type == USER_DEFAULT_LOGIN_TYPE,
            r.login_state is None,
            r.last_used == 0,
            r.sites@.len() == 0,
    {
        let id = key.key_id();
        let mut key_id: Vec<u8> = Vec::new();
        let mut i: usize = 0;
        while i < id.len()
            invariant
                i <= id@.len(),
                key_id@ == id@.subrange(0, i as int),
            decreases id@.len() - i,
        {
            key_id.push(id[i]);
            i = i + 1;
            assert(key_id@ =~= id@.subrange(0, i as int));
        }
        assert(key_id@ =~= id@);
        User {
            user_name: full_name.to_owned(),
            algorithm: algorithm_version.to_u32(),
            key_id,
            redacted: true,
            identicon: None,
            avatar: 0,
            default_type: USER_DEFAULT_TYPE,
            login_type: USER_DEFAULT_LOGIN_TYPE,
            login_state: None,
            last_used: 0,
            sites: Vec::new(),
        }
    }

    /// The user's sites, in the order in which they were added.
    pub fn get_sites(&self) -> (r: &[Site])
        ensures
            r@ == self.sites@,
    {
        self.sites.as_slice()
    }

    /// Whether the user has a site with the name `site_name`.
    pub fn has_site(&self, site_name: &String) -> (r: bool)
        ensures
            r == has_site_spec(self.sites@, site_name@),
    {
        let mut i: usize = 0;
        while i < self.sites.len()
            invariant
                i <= self.sites@.len(),
                forall|k: int| 0 <= k < i ==> #[trigger] self.sites@[k].site_name@ != site_name@,
            decreases self.sites@.len() - i,
        {
            if self.sites[i].site_name == *site_name {
                return true;
            }
            i = i + 1;
        }
        false
    }

    /// Adds a site with the given name, result type, counter and version, used at `now`
    /// seconds after the Unix epoch, after the user's other sites, and returns a copy of it;
    /// the new site is the one that `Site::new` describes, with that time of use.
    pub fn add_site_at(
        &mut self,
        site_name: &str,
        result_type: ResultType,
        site_counter: u32,
        algorithm_version: AlgorithmVersion,
        now: u64,
    ) -> (r: Site)
        ensures
            final(self).sites@.len() == old(self).sites@.len() + 1,
            final(self).sites@ == old(self).sites@.push(final(self).sites@.last()),
            *final(self) == (User { sites: final(self).sites, ..*old(self) }),
            r.same_values(final(self).sites@.last()),
            r.site_name@ == site_name@,
            r.result_type == result_type.code(),
            r.counter == site_counter,
            r.algorithm == algorithm_version.code(),
            r.result_state is None,
            r.login_type == LOGIN_TYPE_NONE,
            r.login_state is None,
            r.url is None,
            r.uses == 0,
            r.last_used == now as i64,
            r.questions@.len() == 0,
    {
        let mut s = Site::new(site_name, result_type, site_counter, algorithm_version);
        s.set_last_used(now);
        let r = s.duplicate();
        self.sites.push(s);
        proof {
            assert(final(self).sites@ =~= old(self).sites@.push(final(self).sites@.last()));
        }
        r
    }

    /// Adds a site with the given name, result type, counter and version, used now by the
    /// system clock, after the user's other sites, and returns a copy of it: the site that
    /// `add_site_at` adds for the clock's reading. A clock that reads before the Unix epoch
    /// gives `None` and leaves the user as it was.
    pub fn add_site(
        &mut self,
        site_name: &str,
        result_type: ResultType,
        site_counter: u32,
        algorithm_version: AlgorithmVersion,
    ) -> (r: Option<Site>)
        ensures
            r is None ==> *final(self) == *old(self),
            r matches Some(added) ==> {
                &&& final(self).sites@.len() == old(self).sites@.len() + 1
                &&& final(self).sites@ == old(self).sites@.push(final(self).sites@.last())
                &&& *final(self) == (User { sites: final(self).sites, ..*old(self) })
                &&& added.same_values(final(self).sites@.last())
                &&& added.site_name@ == site_name@
                &&& added.result_type == result_type.code()
                &&& added.counter == site_counter
                &&& added.algorithm == algorithm_version.code()
                &&& added.result_state is None
                &&& added.login_type == LOGIN_TYPE_NONE
                &&& added.login_state is None
                &&& added.url is None
                &&& added.uses == 0
                &&& added.questions@.len() == 0
            },
    {
        let clock = system_time_now();
        match duration_since_unix_epoch(&clock) {
            Some(d) => {
                let now: u64 = duration_as_secs(&d);
                Some(self.add_site_at(site_name, result_type, site_counter, algorithm_version, now))
            },
            None => None,
        }
    }
}

/// The names of some sites, in order.
pub open spec fn site_names(sites: Seq<Site>) -> Seq<Seq<char>> {
    sites.map_values(|s: Site| s.site_name@)
}

/// A user has a site of a name exactly when that name is among the names of its sites:
/// the very name, not one that holds a stored name or is held in one. Equivalently, some
/// site equals, by site equality, a site of that name.
pub proof fn law_has_site_is_exact_name(sites: Seq<Site>, name: Seq<char>, probe: Site)
    requires
        probe.site_name@ == name,
    ensures
        has_site_spec(sites, name) <==> site_names(sites).contains(name),
        has_site_spec(sites, name) <==> exists|i: int|
            0 <= i < sites.len() && PartialEqSpec::eq_spec(&sites[i], &probe),
        has_site_spec(sites, name) ==> exists|i: int|
            0 <= i < sites.len() && (#[trigger] sites[i].site_name@).len() == name.len(),
{
    let names = site_names(sites);
    if has_site_spec(sites, name) {
        let i = choose|i: int| 0 <= i < sites.len() && #[trigger] sites[i].site_name@ == name;
        assert(names[i] == name);
    }
    if names.contains(name) {
        let i = choose|i: int| 0 <= i < names.len() && names[i] == name;
        assert(sites[i].site_name@ == name);
    }
}

/// After a site is added, the user has a site of that name, and every site it had before
/// it still has, in the same place.
pub proof fn law_added_site_is_found(sites: Seq<Site>, added: Site, name: Seq<char>)
    requires
        added.site_name@ == name,
    ensures
        has_site_spec(sites.push(added), name),
        forall|i: int| 0 <= i < sites.len() ==> #[trigger] sites.push(added)[i] == sites[i],
        forall|other: Seq<char>|
            has_site_spec(sites, other) ==> #[trigger] has_site_spec(sites.push(added), other),
{
    assert(sites.push(added)[sites.len() as int].site_name@ == name);
    assert forall|other: Seq<char>| has_site_spec(sites, other) implies #[trigger] has_site_spec(
        sites.push(added),
        other,
    ) by {
        let i = choose|i: int| 0 <= i < sites.len() && #[trigger] sites[i].site_name@ == other;
        assert(sites.push(added)[i] == sites[i]);
    }
}

} // verus!
