//! User sessions derived from proxy-set request headers, and the
//! authorization checks built on them.
//!
//! A reverse proxy in front of the service passes the current user's
//! identity in three headers: a stable username, a display name, and a
//! comma-separated role list. The session logic reads those headers, trims
//! and splits them, and answers the one question the rest of the service
//! asks: is this user a moderator (or the global administrator)?
use vstd::prelude::*;
use vstd::string::*;

use crate::response::{bytes_to_string_lossy, utf8_lossy};

verus! {

/// What `str::trim` returns: the string without leading and trailing
/// whitespace; a function of the characters alone.
pub uninterp spec fn trim_of(s: Seq<char>) -> Seq<char>;

/// Relies on str::trim: strips leading and trailing whitespace, a
/// deterministic function of the characters.
#[verifier::external_body]
fn str_trim(s: &str) -> (r: &str)
    ensures
        r@ == trim_of(s@),
{
    s.trim()
}

/// Whether two characters match up to ASCII case: equal, or the same Latin
/// letter with 'A' through 'Z' and 'a' through 'z' identified.
pub open spec fn ascii_case_eq_char(a: char, b: char) -> bool {
    ||| a == b
    ||| (65 <= a as int <= 90 && b as int == a as int + 32)
    ||| (65 <= b as int <= 90 && a as int == b as int + 32)
}

/// Whether two strings match letter for letter up to ASCII case.
pub open spec fn ascii_case_eq(a: Seq<char>, b: Seq<char>) -> bool {
    a.len() == b.len() && forall|i: int| 0 <= i < a.len() ==> ascii_case_eq_char(a[i], b[i])
}

/// Relies on str::eq_ignore_ascii_case: true exactly when the strings match
/// with upper- and lower-case ASCII letters identified; all other
/// characters must be equal.
#[verifier::external_body]
fn eq_ignore_case(a: &str, b: &str) -> (r: bool)
    ensures
        r == ascii_case_eq(a@, b@),
{
    a.eq_ignore_ascii_case(b)
}

/// The role of the global administrator, who can do anything.
pub open spec fn admin_role() -> Seq<char> {
    "ROLE_ADMIN"@
}

/// The role every user has, logged in or not.
pub open spec fn anonymous_role() -> Seq<char> {
    "ROLE_ANONYMOUS"@
}

/// Authentication and authorization configuration: the names of the headers
/// the proxy sets, and the role that makes a user a moderator.
pub struct AuthConfig {
    /// The header carrying a unique and stable username of the current user.
    pub username_header: String,
    /// The header carrying the human-readable name of the current user.
    pub display_name_header: String,
    /// The header carrying a comma-separated list of the user's roles.
    pub roles_header: String,
    /// A user with this role is treated as a moderator.
    pub moderator_role: String,
    /// Authentication proxy configuration.
    pub proxy: AuthProxyConfig,
}

/// Authentication proxy configuration.
pub struct AuthProxyConfig {
    /// Header values are only trusted when the proxy is enabled.
    pub enabled: bool,
}

/// Request headers as the session logic reads them: name and raw byte
/// value, in order of arrival. A lookup finds the first entry whose name
/// matches the asked-for name up to ASCII case, as an HTTP header map's
/// lookup does.
pub struct Headers {
    pub entries: Vec<(String, Vec<u8>)>,
}

/// The value of the first entry whose name matches `name` up to ASCII case,
/// if any.
pub open spec fn lookup(entries: Seq<(String, Vec<u8>)>, name: Seq<char>) -> Option<Seq<u8>>
    decreases entries.len(),
{
    if entries.len() == 0 {
        None
    } else if ascii_case_eq(entries[0].0@, name) {
        Some(entries[0].1@)
    } else {
        lookup(entries.subrange(1, entries.len() as int), name)
    }
}

impl Headers {
    /// Finds the first header with the given name.
    pub fn get(&self, name: &String) -> (r: Option<&Vec<u8>>)
        ensures
            r is Some <==> lookup(self.entries@, name@) is Some,
            r matches Some(v) ==> Some(v@) == lookup(self.entries@, name@),
    {
        let mut i: usize = 0;
        proof {
            assert(self.entries@.skip(0) =~= self.entries@);
        }
        while i < self.entries.len()
            invariant
                i <= self.entries@.len(),
                lookup(self.entries@, name@) == lookup(
                    self.entries@.skip(i as int),
                    name@,
                ),
            decreases self.entries@.len() - i,
        {
            proof {
                assert(self.entries@.skip(i as int)[0] == self.entries@[i as int]);
            }
            if eq_ignore_case(self.entries[i].0.as_str(), name.as_str()) {
                return Some(&self.entries[i].1);
            }
            proof {
                let rest = self.entries@.skip(i as int);
                assert(rest.subrange(1, rest.len() as int) =~= self.entries@.skip(i as int + 1));
            }
            i = i + 1;
        }
        proof {
            assert(self.entries@.skip(i as int).len() == 0);
        }
        None
    }
}

/// Splitting a byte string at commas, with the piece gathered so far as the
/// accumulator: the shape of the role list header.
pub open spec fn spec_split_acc(bytes: Seq<u8>, cur: Seq<u8>) -> Seq<Seq<u8>>
    decreases bytes.len(),
{
    if bytes.len() == 0 {
        seq![cur]
    } else if bytes[0] == 44u8 {
        seq![cur] + spec_split_acc(bytes.subrange(1, bytes.len() as int), Seq::empty())
    } else {
        spec_split_acc(bytes.subrange(1, bytes.len() as int), cur.push(bytes[0]))
    }
}

/// The comma-separated pieces of a byte string; the empty string is one
/// empty piece.
pub open spec fn spec_split_commas(bytes: Seq<u8>) -> Seq<Seq<u8>> {
    spec_split_acc(bytes, Seq::empty())
}

/// Splits at commas (byte 44), exactly as `spec_split_commas` states.
fn split_commas(bytes: &Vec<u8>) -> (r: Vec<Vec<u8>>)
    ensures
        r@.map_values(|v: Vec<u8>| v@) == spec_split_commas(bytes@),
{
    let mut pieces: Vec<Vec<u8>> = Vec::new();
    let mut cur: Vec<u8> = Vec::new();
    let mut i: usize = 0;
    proof {
        assert(bytes@.skip(0) =~= bytes@);
        assert(pieces@.map_values(|v: Vec<u8>| v@) =~= Seq::<Seq<u8>>::empty());
    }
    while i < bytes.len()
        invariant
            i <= bytes@.len(),
            spec_split_commas(bytes@) == pieces@.map_values(|v: Vec<u8>| v@) + spec_split_acc(
                bytes@.skip(i as int),
                cur@,
            ),
        decreases bytes@.len() - i,
    {
        proof {
            let rest = bytes@.skip(i as int);
            assert(rest[0] == bytes@[i as int]);
            assert(rest.subrange(1, rest.len() as int) =~= bytes@.skip(i as int + 1));
        }
        let b = bytes[i];
        if b == 44u8 {
            let ghost old_pieces = pieces@;
            pieces.push(cur);
            cur = Vec::new();
            proof {
                assert(pieces@.map_values(|v: Vec<u8>| v@) =~= old_pieces.map_values(
                    |v: Vec<u8>| v@,
                ) + seq![pieces@[old_pieces.len() as int]@]);
                assert(cur@ =~= Seq::<u8>::empty());
            }
        } else {
            cur.push(b);
        }
        i = i + 1;
    }
    proof {
        assert(bytes@.skip(i as int).len() == 0);
    }
    let ghost before = pieces@;
    pieces.push(cur);
    proof {
        assert(pieces@.map_values(|v: Vec<u8>| v@) =~= before.map_values(|v: Vec<u8>| v@)
            + seq![pieces@[before.len() as int]@]);
    }
    pieces
}

/// The views of a list of strings.
pub open spec fn views_of(strings: Seq<String>) -> Seq<Seq<char>> {
    strings.map_values(|s: String| s@)
}

/// The roles named by a role list header: each comma-separated piece,
/// decoded leniently and trimmed.
pub open spec fn spec_roles_from_header(bytes: Seq<u8>) -> Seq<Seq<char>> {
    spec_split_commas(bytes).map_values(|p: Seq<u8>| trim_of(utf8_lossy(p)))
}

/// The full role list of a session derived from `headers`: the anonymous
/// role first, then whatever the role list header names, if it is present.
pub open spec fn spec_session_roles(headers: Headers, cfg: AuthConfig) -> Seq<Seq<char>> {
    match lookup(headers.entries@, cfg.roles_header@) {
        None => seq![anonymous_role()],
        Some(bytes) => seq![anonymous_role()] + spec_roles_from_header(bytes),
    }
}

/// The trimmed, leniently decoded value of the header named `name`.
pub open spec fn spec_header_str(headers: Headers, name: Seq<char>) -> Option<Seq<char>> {
    match lookup(headers.entries@, name) {
        None => None,
        Some(bytes) => Some(trim_of(utf8_lossy(bytes))),
    }
}

/// Reads one header as a trimmed string.
fn header_to_string(headers: &Headers, name: &String) -> (r: Option<String>)
    ensures
        r is Some <==> spec_header_str(*headers, name@) is Some,
        r matches Some(s) ==> Some(s@) == spec_header_str(*headers, name@),
{
    match headers.get(name) {
        None => None,
        Some(bytes) => {
            let decoded = bytes_to_string_lossy(bytes.as_slice());
            Some(str_trim(decoded.as_str()).to_owned())
        },
    }
}

/// An optional user: either nobody is logged in, or the proxy identified a
/// user with a name and a role list.
pub enum UserSession {
    Anonymous,
    User { username: String, display_name: String, roles: Vec<String> },
}

impl UserSession {
    /// The roles this session acts with: the user's list, or the anonymous
    /// role alone when nobody is logged in.
    pub open spec fn spec_roles(self) -> Seq<Seq<char>> {
        match self {
            UserSession::Anonymous => seq![anonymous_role()],
            UserSession::User { roles, .. } => views_of(roles@),
        }
    }

    /// Whether one of the session's roles is `role`.
    pub open spec fn spec_has_role(self, role: Seq<char>) -> bool {
        self.spec_roles().contains(role)
    }

    /// Whether the user is the global administrator, who can do anything.
    pub open spec fn spec_is_admin(self) -> bool {
        self.spec_has_role(admin_role())
    }

    /// Whether the user is a moderator, as decided by the configured
    /// moderator role; the administrator always is one.
    pub open spec fn spec_is_moderator(self, cfg: AuthConfig) -> bool {
        self.spec_is_admin() || self.spec_has_role(cfg.moderator_role@)
    }

    /// Derives the session from the request headers. Nothing is trusted
    /// unless the auth proxy is enabled; username and display name are both
    /// required, and a missing role list simply means no extra roles.
    pub fn from_headers(headers: &Headers, auth_config: &AuthConfig) -> (r: UserSession)
        ensures
            ({
                let u = spec_header_str(*headers, auth_config.username_header@);
                let d = spec_header_str(*headers, auth_config.display_name_header@);
                &&& !auth_config.proxy.enabled ==> r is Anonymous
                &&& auth_config.proxy.enabled && (u is None || d is None) ==> r is Anonymous
                &&& auth_config.proxy.enabled && u is Some && d is Some ==> (r matches
                    UserSession::User { username, display_name, roles }
                    && username@ == u.unwrap() && display_name@ == d.unwrap() && views_of(roles@)
                    == spec_session_roles(*headers, *auth_config))
            }),
    {
        if !auth_config.proxy.enabled {
            return UserSession::Anonymous;
        }
        let username = match header_to_string(headers, &auth_config.username_header) {
            None => { return UserSession::Anonymous },
            Some(s) => s,
        };
        let display_name = match header_to_string(headers, &auth_config.display_name_header) {
            None => { return UserSession::Anonymous },
            Some(s) => s,
        };
        let mut roles: Vec<String> = Vec::new();
        roles.push("ROLE_ANONYMOUS".to_owned());
        match headers.get(&auth_config.roles_header) {
            None => {
                proof {
                    assert(views_of(roles@) =~= seq![anonymous_role()]);
                }
            },
            Some(bytes) => {
                let pieces = split_commas(bytes);
                proof {
                    assert(views_of(roles@) =~= seq![anonymous_role()]);
                }
                let mut i: usize = 0;
                while i < pieces.len()
                    invariant
                        i <= pieces@.len(),
                        pieces@.map_values(|v: Vec<u8>| v@) == spec_split_commas(bytes@),
                        views_of(roles@) =~= seq![anonymous_role()] + spec_roles_from_header(
                            bytes@,
                        ).take(i as int),
                    decreases pieces@.len() - i,
                {
                    let decoded = bytes_to_string_lossy(pieces[i].as_slice());
                    let trimmed = str_trim(decoded.as_str()).to_owned();
                    let ghost before = roles@;
                    roles.push(trimmed);
                    proof {
                        assert(pieces@.map_values(|v: Vec<u8>| v@)[i as int] == pieces@[i as int]@);
                        assert(spec_roles_from_header(bytes@)[i as int] == trim_of(
                            utf8_lossy(pieces@[i as int]@),
                        ));
                        assert(views_of(roles@) =~= views_of(before) + seq![
                            roles@[before.len() as int]@,
                        ]);
                        assert(views_of(roles@) =~= seq![anonymous_role()]
                            + spec_roles_from_header(bytes@).take(i as int + 1));
                    }
                    i = i + 1;
                }
                proof {
                    assert(spec_roles_from_header(bytes@).take(pieces@.len() as int)
                        =~= spec_roles_from_header(bytes@));
                }
            },
        }
        UserSession::User { username, display_name, roles }
    }

    /// The roles of the session, as owned strings: the user's own list, or
    /// the anonymous role alone.
    pub fn roles(&self) -> (r: Vec<String>)
        ensures
            views_of(r@) == self.spec_roles(),
    {
        match self {
            UserSession::Anonymous => {
                let mut r: Vec<String> = Vec::new();
                r.push("ROLE_ANONYMOUS".to_owned());
                proof {
                    assert(views_of(r@) =~= seq![anonymous_role()]);
                }
                r
            },
            UserSession::User { roles, .. } => {
                let mut r: Vec<String> = Vec::new();
                let mut i: usize = 0;
                while i < roles.len()
                    invariant
                        i <= roles@.len(),
                        views_of(r@) =~= views_of(roles@).take(i as int),
                    decreases roles@.len() - i,
                {
                    let ghost before = r@;
                    r.push(roles[i].clone());
                    proof {
                        assert(views_of(roles@)[i as int] == roles@[i as int]@);
                        assert(views_of(r@) =~= views_of(before) + seq![
                            r@[before.len() as int]@,
                        ]);
                    }
                    i = i + 1;
                }
                proof {
                    assert(views_of(roles@).take(roles@.len() as int) =~= views_of(roles@));
                }
                r
            },
        }
    }

    /// Whether one of the session's roles equals `role`.
    fn has_role(&self, role: &String) -> (r: bool)
        ensures
            r == self.spec_has_role(role@),
    {
        let rs = self.roles();
        let mut i: usize = 0;
        while i < rs.len()
            invariant
                i <= rs@.len(),
                views_of(rs@) == self.spec_roles(),
                forall|j: int| 0 <= j < i ==> views_of(rs@)[j] != role@,
            decreases rs@.len() - i,
        {
            proof {
                assert(views_of(rs@)[i as int] == rs@[i as int]@);
            }
            if rs[i] == *role {
                return true;
            }
            i = i + 1;
        }
        proof {
            assert(forall|j: int|
                0 <= j < self.spec_roles().len() ==> self.spec_roles()[j] != role@);
        }
        false
    }

    /// Whether the user is the global administrator and can do anything.
    pub fn is_admin(&self) -> (r: bool)
        ensures
            r == self.spec_is_admin(),
    {
        self.has_role(&"ROLE_ADMIN".to_owned())
    }

    /// Whether the user is a moderator, as decided by the configured
    /// moderator role.
    pub fn is_moderator(&self, auth_config: &AuthConfig) -> (r: bool)
        ensures
            r == self.spec_is_moderator(*auth_config),
    {
        self.is_admin() || self.has_role(&auth_config.moderator_role)
    }

    /// Hands out an authorization token exactly when this user is a
    /// moderator.
    pub fn require_moderator(&self, auth_config: &AuthConfig) -> (r: Option<AuthToken>)
        ensures
            r is Some <==> self.spec_is_moderator(*auth_config),
    {
        AuthToken::some_if(self.is_moderator(auth_config))
    }
}

/// A marker that proves *some* user authorization has been done, so that a
/// protected operation can demand it as a parameter and cannot be reached
/// without a check. The token carries no payload: it does not say what was
/// authorized.
pub struct AuthToken(());

impl AuthToken {
    /// The token for a check that came out as `v`: present exactly when the
    /// check succeeded. Being public, this lets any caller mint a token for
    /// a check of their own; the token therefore proves that the minting
    /// site ran *a* check, not which one.
    pub fn some_if(v: bool) -> (r: Option<AuthToken>)
        ensures
            r is Some <==> v,
    {
        if v {
            Some(AuthToken(()))
        } else {
            None
        }
    }
}

} // verus!
