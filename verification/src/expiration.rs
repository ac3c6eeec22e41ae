//! Expiry resolution: from a symbolic lifetime and the current time to the
//! second at which a paste expires.
//!
//! Six tokens name a fixed lifetime. The token `never` asks for a paste that
//! does not expire, which the server grants only where eternal pastes are
//! allowed; the deadline `0` stands for "never". Any other text is resolved
//! as the server's default token is.

use vstd::prelude::*;
use crate::text::str_eq;

verus! {

pub const MINUTE_SECONDS: i64 = 60;

pub const TEN_MINUTES_SECONDS: i64 = 600;

pub const HOUR_SECONDS: i64 = 3600;

pub const DAY_SECONDS: i64 = 86400;

pub const THREE_DAYS_SECONDS: i64 = 259200;

pub const WEEK_SECONDS: i64 = 604800;

/// The deadline that stands for "never expires".
pub const NEVER: i64 = 0;

/// The lifetime in seconds that a token names, for the six tokens that name
/// one.
pub open spec fn lifetime(token: Seq<char>) -> Option<int> {
    if token == "1min"@ {
        Some(60int)
    } else if token == "10min"@ {
        Some(600int)
    } else if token == "1hour"@ {
        Some(3600int)
    } else if token == "24hour"@ {
        Some(86400int)
    } else if token == "3days"@ {
        Some(259200int)
    } else if token == "1week"@ {
        Some(604800int)
    } else {
        None
    }
}

/// Whether the token asks for a paste that never expires.
pub open spec fn asks_never(token: Seq<char>) -> bool {
    token == "never"@
}

/// The tokens with a rule of their own: the six lifetimes and `never`.
pub open spec fn is_known_token(token: Seq<char>) -> bool {
    lifetime(token) is Some || asks_never(token)
}

/// The deadline of a token that has a rule of its own.
pub open spec fn known_deadline(token: Seq<char>, now: int, eternal: bool) -> int {
    match lifetime(token) {
        Some(seconds) => now + seconds,
        None => if eternal {
            0
        } else {
            now + 604800
        },
    }
}

/// The deadline of any token: its own rule where it has one, else the rule
/// of the default token.
pub open spec fn resolve(
    token: Seq<char>,
    now: int,
    eternal: bool,
    default_token: Seq<char>,
) -> int {
    if is_known_token(token) {
        known_deadline(token, now, eternal)
    } else {
        known_deadline(default_token, now, eternal)
    }
}

/// Whether `token` has a rule of its own. A server's default token has to be
/// one of these.
pub fn is_known(token: &str) -> (known: bool)
    ensures
        known == is_known_token(token@),
{
    str_eq(token, "1min") || str_eq(token, "10min") || str_eq(token, "1hour") || str_eq(
        token,
        "24hour",
    ) || str_eq(token, "3days") || str_eq(token, "1week") || str_eq(token, "never")
}

/// The deadline of a token with a rule of its own, and `None` for any other
/// text.
fn deadline_if_known(token: &str, now: i64, eternal: bool) -> (deadline: Option<i64>)
    requires
        now + WEEK_SECONDS <= i64::MAX,
    ensures
        is_known_token(token@) ==> deadline == Some(
            known_deadline(token@, now as int, eternal) as i64,
        ),
        is_known_token(token@) ==> i64::MIN <= known_deadline(token@, now as int, eternal)
            <= i64::MAX,
        !is_known_token(token@) ==> deadline is None,
{
    if str_eq(token, "1min") {
        Some(now + MINUTE_SECONDS)
    } else if str_eq(token, "10min") {
        Some(now + TEN_MINUTES_SECONDS)
    } else if str_eq(token, "1hour") {
        Some(now + HOUR_SECONDS)
    } else if str_eq(token, "24hour") {
        Some(now + DAY_SECONDS)
    } else if str_eq(token, "3days") {
        Some(now + THREE_DAYS_SECONDS)
    } else if str_eq(token, "1week") {
        Some(now + WEEK_SECONDS)
    } else if str_eq(token, "never") {
        if eternal {
            Some(NEVER)
        } else {
            Some(now + WEEK_SECONDS)
        }
    } else {
        None
    }
}

/// Resolves a lifetime token at time `timenow` (seconds since the epoch).
///
/// `eternal_pasta` says whether the server allows pastes that never expire
/// and `default_expiry` is its default token, which must have a rule of its
/// own. The result is `timenow` plus the token's lifetime; for `never` it is
/// `0` where eternal pastes are allowed and a week from now where they are
/// not; any other text gets what the default token gets.
pub fn expiration_to_timestamp(
    expiration: &str,
    timenow: i64,
    eternal_pasta: bool,
    default_expiry: &str,
) -> (deadline: i64)
    requires
        is_known_token(default_expiry@),
        timenow + WEEK_SECONDS <= i64::MAX,
    ensures
        deadline == resolve(expiration@, timenow as int, eternal_pasta, default_expiry@),
{
    match deadline_if_known(expiration, timenow, eternal_pasta) {
        Some(deadline) => deadline,
        None => {
            let fallback = deadline_if_known(default_expiry, timenow, eternal_pasta);
            fallback.unwrap()
        },
    }
}

/// The seven tokens are pairwise different texts, so each is resolved by its
/// own rule and none by another's.
pub proof fn lemma_tokens_differ()
    ensures
        lifetime("1min"@) == Some(60int),
        lifetime("10min"@) == Some(600int),
        lifetime("1hour"@) == Some(3600int),
        lifetime("24hour"@) == Some(86400int),
        lifetime("3days"@) == Some(259200int),
        lifetime("1week"@) == Some(604800int),
        lifetime("never"@) is None,
        asks_never("never"@),
{
    reveal_strlit("1min");
    reveal_strlit("10min");
    reveal_strlit("1hour");
    reveal_strlit("24hour");
    reveal_strlit("3days");
    reveal_strlit("1week");
    reveal_strlit("never");
    // Tokens of one length differ in their first or second character.
    assert("10min"@[1] == '0');
    assert("1min"@[1] == 'm');
    assert("1hour"@[1] == 'h');
    assert("1week"@[1] == 'w');
    assert("24hour"@[0] == '2');
    assert("3days"@[0] == '3');
    assert("never"@[0] == 'n');
    assert("1min"@[0] == '1');
    assert("10min"@[0] == '1');
    assert("1hour"@[0] == '1');
    assert("1week"@[0] == '1');
}

/// Each of the six lifetime tokens resolves to the current time plus its
/// lifetime: a minute, ten minutes, an hour, a day, three days, a week,
/// whatever the server's settings are.
pub proof fn theorem_lifetime_tokens(now: int, eternal: bool, default_token: Seq<char>)
    ensures
        resolve("1min"@, now, eternal, default_token) == now + 60,
        resolve("10min"@, now, eternal, default_token) == now + 600,
        resolve("1hour"@, now, eternal, default_token) == now + 3600,
        resolve("24hour"@, now, eternal, default_token) == now + 86400,
        resolve("3days"@, now, eternal, default_token) == now + 259200,
        resolve("1week"@, now, eternal, default_token) == now + 604800,
{
    lemma_tokens_differ();
}

/// `never` resolves to `0` where eternal pastes are allowed and to a week
/// from now where they are not. So, unless a week from now is itself the
/// second `0`, the deadline is `0` exactly where eternal pastes are allowed.
pub proof fn theorem_never_token(now: int, eternal: bool, default_token: Seq<char>)
    ensures
        eternal ==> resolve("never"@, now, eternal, default_token) == 0,
        !eternal ==> resolve("never"@, now, eternal, default_token) == now + 604800,
        now != -604800 ==> (resolve("never"@, now, eternal, default_token) == 0 <==> eternal),
{
    lemma_tokens_differ();
}

/// A text that is none of the seven tokens resolves to what the default
/// token resolves to, where the default token is one of the seven.
pub proof fn theorem_unknown_token_falls_back(
    token: Seq<char>,
    now: int,
    eternal: bool,
    default_token: Seq<char>,
)
    requires
        !is_known_token(token),
        is_known_token(default_token),
    ensures
        resolve(token, now, eternal, default_token) == resolve(
            default_token,
            now,
            eternal,
            default_token,
        ),
{
}

/// A deadline is the current time plus one of the six lifetimes, or it is
/// `0` by the `never` rule: eternal pastes are allowed, and the token is
/// `never`, or it is an unknown text and the default token is `never`.
pub proof fn theorem_deadline_is_lifetime_or_never(
    token: Seq<char>,
    now: int,
    eternal: bool,
    default_token: Seq<char>,
)
    requires
        is_known_token(default_token),
    ensures
        ({
            let deadline: int = resolve(token, now, eternal, default_token);
            let by_default = !is_known_token(token);
            ||| deadline == now + 60
            ||| deadline == now + 600
            ||| deadline == now + 3600
            ||| deadline == now + 86400
            ||| deadline == now + 259200
            ||| deadline == now + 604800
            ||| (deadline == 0 && eternal && (asks_never(token) || (by_default && asks_never(
                default_token,
            ))))
        }),
{
}

} // verus!
