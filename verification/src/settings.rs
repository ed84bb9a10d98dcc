//! The client's configuration and its diagnostic rendering.
//!
//! The rendering deliberately never includes the password value: it depends
//! on the password field only through its presence, which
//! `lemma_describe_masks_password` states and proves.

use vstd::prelude::*;

verus! {

/// Settings for reaching the store: a single-node endpoint, or a
/// comma-separated list of cluster endpoints whose presence selects cluster
/// mode, plus the credentials and the logical database index.
#[derive(Clone)]
pub struct RedisSettings {
    /// Network address of the single-node service, such as
    /// `tcp://127.0.0.1:6379`. When absent, that default endpoint is used.
    pub address: Option<String>,
    /// Comma-separated network addresses of the cluster service. Presence
    /// selects cluster mode regardless of `address`.
    pub addresses: Option<String>,
    /// The username to authenticate with, applied uniformly across nodes.
    pub username: Option<String>,
    /// The password to authenticate with, applied uniformly across nodes.
    /// Never included in any diagnostic output.
    pub password: Option<String>,
    /// The logical database index; best-effort in cluster mode.
    pub db: i64,
}

/// The decimal digit character for `n`, which must be below ten.
pub open spec fn spec_digit_char(n: int) -> char {
    if n == 0 { '0' }
    else if n == 1 { '1' }
    else if n == 2 { '2' }
    else if n == 3 { '3' }
    else if n == 4 { '4' }
    else if n == 5 { '5' }
    else if n == 6 { '6' }
    else if n == 7 { '7' }
    else if n == 8 { '8' }
    else { '9' }
}

/// The decimal rendering of a non-negative integer, most significant digit
/// first.
pub open spec fn spec_nat_string(n: int) -> Seq<char>
    decreases n,
{
    if n < 10 {
        seq![spec_digit_char(n)]
    } else {
        spec_nat_string(n / 10).push(spec_digit_char(n % 10))
    }
}

/// The decimal rendering of a signed integer: a minus sign before the
/// magnitude for negative values.
pub open spec fn spec_int_string(n: int) -> Seq<char> {
    if n < 0 {
        seq!['-'] + spec_nat_string(-n)
    } else {
        spec_nat_string(n)
    }
}

/// The single decimal digit `d` as a static string.
fn digit_str(d: u64) -> (r: &'static str)
    requires
        d < 10,
    ensures
        r@ =~= seq![spec_digit_char(d as int)],
{
    proof {
        reveal_strlit("0");
        reveal_strlit("1");
        reveal_strlit("2");
        reveal_strlit("3");
        reveal_strlit("4");
        reveal_strlit("5");
        reveal_strlit("6");
        reveal_strlit("7");
        reveal_strlit("8");
        reveal_strlit("9");
    }
    if d == 0 { "0" }
    else if d == 1 { "1" }
    else if d == 2 { "2" }
    else if d == 3 { "3" }
    else if d == 4 { "4" }
    else if d == 5 { "5" }
    else if d == 6 { "6" }
    else if d == 7 { "7" }
    else if d == 8 { "8" }
    else { "9" }
}

/// The decimal rendering of `n`.
pub fn u64_string(n: u64) -> (r: String)
    ensures
        r@ == spec_nat_string(n as int),
    decreases n,
{
    if n < 10 {
        digit_str(n).to_owned()
    } else {
        let mut s = u64_string(n / 10);
        s.append(digit_str(n % 10));
        proof {
            assert(s@ =~= spec_nat_string(n as int / 10).push(
                spec_digit_char(n as int % 10)));
        }
        s
    }
}

/// The decimal rendering of `n`, with a minus sign when negative.
pub fn i64_string(n: i64) -> (r: String)
    ensures
        r@ == spec_int_string(n as int),
{
    if n >= 0 {
        u64_string(n as u64)
    } else {
        let wide: i128 = n as i128;
        let mag: u64 = (-wide) as u64;
        let mut s = "-".to_owned();
        let tail = u64_string(mag);
        s.append(tail.as_str());
        proof {
            reveal_strlit("-");
            assert(s@ =~= seq!['-'] + spec_nat_string(-(n as int)));
        }
        s
    }
}

/// What the diagnostic rendering of the settings is a function of: every
/// field but the password, and of the password only whether one is
/// present. The shape is the non-exhaustive struct form, each value
/// quoted.
pub open spec fn spec_describe_settings(
    db: int,
    address: Option<Seq<char>>,
    addresses: Option<Seq<char>>,
    username: Option<Seq<char>>,
    has_password: bool,
) -> Seq<char> {
    "RedisSettings { db: \""@ + spec_int_string(db) + "\""@ + (match address {
        Option::Some(a) => ", address: \""@ + a + "\""@,
        Option::None => Seq::<char>::empty(),
    }) + (match addresses {
        Option::Some(a) => ", cluster_endpoints: \""@ + a + "\""@,
        Option::None => Seq::<char>::empty(),
    }) + (match username {
        Option::Some(u) => ", username: \""@ + u + "\""@,
        Option::None => Seq::<char>::empty(),
    }) + (if has_password {
        ", password: \"<redacted>\""@
    } else {
        Seq::<char>::empty()
    }) + ", .. }"@
}

/// The view of an optional string.
pub open spec fn opt_view(o: Option<String>) -> Option<Seq<char>> {
    match o {
        Option::Some(s) => Option::Some(s@),
        Option::None => Option::None,
    }
}

impl RedisSettings {
    /// Render the settings for diagnostics. The password is masked: the
    /// output depends only on whether one is present, never on its value.
    pub fn describe(&self) -> (r: String)
        ensures
            r@ == spec_describe_settings(
                self.db as int,
                opt_view(self.address),
                opt_view(self.addresses),
                opt_view(self.username),
                self.password is Some,
            ),
    {
        let mut out = "RedisSettings { db: \"".to_owned();
        let db = i64_string(self.db);
        out.append(db.as_str());
        out.append("\"");
        match &self.address {
            Some(a) => {
                out.append(", address: \"");
                out.append(a.as_str());
                out.append("\"");
            },
            None => {},
        }
        match &self.addresses {
            Some(a) => {
                out.append(", cluster_endpoints: \"");
                out.append(a.as_str());
                out.append("\"");
            },
            None => {},
        }
        match &self.username {
            Some(u) => {
                out.append(", username: \"");
                out.append(u.as_str());
                out.append("\"");
            },
            None => {},
        }
        match &self.password {
            Some(_) => {
                out.append(", password: \"<redacted>\"");
            },
            None => {},
        }
        out.append(", .. }");
        out
    }
}

/// The diagnostic rendering never leaks the password: two settings that
/// agree on everything except the password's value render identically, so
/// no choice of password can change a single character of the output.
pub proof fn lemma_describe_masks_password(s1: RedisSettings, s2: RedisSettings)
    requires
        s1.db == s2.db,
        opt_view(s1.address) == opt_view(s2.address),
        opt_view(s1.addresses) == opt_view(s2.addresses),
        opt_view(s1.username) == opt_view(s2.username),
        s1.password is Some <==> s2.password is Some,
    ensures
        spec_describe_settings(
            s1.db as int,
            opt_view(s1.address),
            opt_view(s1.addresses),
            opt_view(s1.username),
            s1.password is Some,
        ) == spec_describe_settings(
            s2.db as int,
            opt_view(s2.address),
            opt_view(s2.addresses),
            opt_view(s2.username),
            s2.password is Some,
        ),
{
}

} // verus!
