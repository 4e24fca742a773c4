use twilight_mention::Mention;
use twilight_model::id::marker::RoleMarker;
use twilight_model::id::Id;
use vstd::prelude::*;

use crate::decimal::{decimal_chars, parsed_id};
use crate::text::occurs_at;

verus! {

/// The fixed part of a webhook URL that precedes the id.
pub open spec fn webhook_path_marker() -> Seq<char> {
    "discord.com/api/webhooks/"@
}

/// The position of the first occurrence of the non-empty `w` in `s` at or
/// after `from`.
pub open spec fn find_from(s: Seq<char>, w: Seq<char>, from: int) -> Option<int>
    decreases s.len() - from,
{
    if from < 0 || w.len() == 0 || from + w.len() > s.len() {
        None
    } else if occurs_at(s, from, w) {
        Some(from)
    } else {
        find_from(s, w, from + 1)
    }
}

/// The part of `s` before its first `/`, or all of it.
pub open spec fn first_segment(s: Seq<char>) -> Seq<char> {
    match find_from(s, seq!['/'], 0) {
        Some(k) => s.subrange(0, k),
        None => s,
    }
}

/// What a webhook URL holds: the text after the first
/// `discord.com/api/webhooks/` (up to a second one, if any) is split at `/`;
/// its first segment must be a non-zero id, and its second segment, when
/// there is one and it is not empty, is the token.
pub open spec fn webhook_link_of(url: Seq<char>) -> Option<(u64, Option<Seq<char>>)> {
    let m = webhook_path_marker();
    match find_from(url, m, 0) {
        None => None,
        Some(i) => {
            let a = i + m.len();
            let b = match find_from(url, m, a) {
                Some(j) => j,
                None => url.len() as int,
            };
            let path = url.subrange(a, b);
            let id_text = first_segment(path);
            if id_text.len() == 0 {
                None
            } else {
                match parsed_id(id_text) {
                    None => None,
                    Some(id) => {
                        let token = if id_text.len() == path.len() {
                            None
                        } else {
                            let t = first_segment(path.subrange(id_text.len() + 1int, path.len() as int));
                            if t.len() == 0 {
                                None
                            } else {
                                Some(t)
                            }
                        };
                        Some((id, token))
                    },
                }
            }
        },
    }
}

/// The view of a parsed webhook link: the id and the token's characters.
pub open spec fn parsed_link_view(p: Option<(u64, Option<String>)>) -> Option<
    (u64, Option<Seq<char>>),
> {
    match p {
        None => None,
        Some((id, None)) => Some((id, None)),
        Some((id, Some(t))) => Some((id, Some(t@))),
    }
}

/// Relies on `twilight_util::link::webhook::parse` to read the webhook id and
/// token from a URL: it splits at `discord.com/api/webhooks/` and then at
/// `/`, parses the id as a `NonZeroU64`, and turns an empty token segment
/// into no token; any error becomes `None`.
#[verifier::external_body]
pub(crate) fn parse_webhook_url(url: &str) -> (r: Option<(u64, Option<String>)>)
    ensures
        parsed_link_view(r) == webhook_link_of(url@),
        r matches Some((id, _)) ==> id > 0,
        r matches Some((_, Some(t))) ==> t@.len() > 0,
{
    match twilight_util::link::webhook::parse(url) {
        Ok((id, token)) => Some((id.get(), token.map(String::from))),
        Err(_) => None,
    }
}

/// Relies on `FromStr` for twilight's `Id<RoleMarker>`, which is
/// `NonZeroU64::from_str`: an optional `+` and decimal digits, non-zero and
/// within `u64`.
#[verifier::external_body]
pub(crate) fn parse_role_id(s: &str) -> (r: Option<u64>)
    ensures
        r == parsed_id(s@),
{
    s.parse::<Id<RoleMarker>>().ok().map(Id::get)
}

/// Relies on twilight_mention's `Display` for a role mention, which writes
/// `<@&`, the id in decimal, and `>`. `Id::new` panics on zero.
#[verifier::external_body]
pub(crate) fn role_mention(id: u64) -> (r: String)
    requires
        id > 0,
    ensures
        r@ == "<@&"@ + decimal_chars(id as nat) + ">"@,
{
    Id::<RoleMarker>::new(id).mention().to_string()
}

} // verus!
