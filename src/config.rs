use vstd::prelude::*;
use vstd::string::*;

use crate::classify::{begins_with_lower, begins_with_lower_at};
use crate::text::{copy_range, last_segment, last_segment_of, occurs_at, occurs_at_exec};
use crate::twilight::{parse_webhook_url, parsed_link_view, webhook_link_of};

verus! {

/// The inputs of a run, as plain strings; an empty string means "not given".
pub struct RawInputs {
    pub curseforge_project_id: String,
    pub modrinth_project_id: String,
    pub project_name: String,
    pub project_version: String,
    /// The repository as `owner/name`.
    pub project_repository: String,
    pub webhook_url: String,
    pub thumbnail_url: String,
    pub notification_role_id: String,
    /// Empty, `false` in any ASCII case, or anything else for "yes".
    pub ping_notification_role: String,
}

/// Whether to mention the notification role after the announcement.
#[derive(Debug, Clone, Copy, PartialEq, Eq, Structural)]
pub enum PingOverride {
    /// Decide by the version: mention for stable releases only.
    Unset,
    ForceTrue,
    ForceFalse,
}

/// Where the announcement is posted.
pub struct WebhookEndpoint {
    pub id: u64,
    pub token: String,
}

/// One entry of the downloads line.
pub struct DownloadLink {
    pub platform_label: String,
    pub url: String,
    pub emoji_prefix: String,
}

/// The normalised configuration of a run.
pub struct ReleaseAnnouncementConfig {
    pub project_name: String,
    pub project_version: String,
    /// Empty when there is no source-code link.
    pub source_code_url: String,
    pub webhook: WebhookEndpoint,
    /// Empty when there is no thumbnail.
    pub thumbnail_url: String,
    /// The bare role id text; whether it is a valid id is checked only when
    /// the role is to be mentioned.
    pub notification_role_id: String,
    pub ping_override: PingOverride,
    /// In display order.
    pub download_links: Vec<DownloadLink>,
    /// Empty for no prefix.
    pub source_code_emoji: String,
}

/// Why the inputs cannot make a configuration.
#[derive(Debug, Clone, Copy, PartialEq, Eq, Structural)]
pub enum ConfigError {
    /// The webhook URL does not hold a webhook id.
    WebhookUrlInvalid,
    /// The webhook URL holds an id but no token.
    WebhookTokenMissing,
    /// Neither a project name nor a repository name to take it from.
    ProjectNameMissing,
    /// The notification role id is not a positive integer, and the role is
    /// to be mentioned.
    RoleIdInvalid,
}

/// The webhook URL suffix of the GitHub-compatible endpoint, which this
/// announcement does not use.
pub open spec fn incompatible_suffix() -> Seq<char> {
    "/github"@
}

/// The webhook URL with the incompatible suffix removed, if it ends with it.
pub open spec fn corrected_webhook_url(u: Seq<char>) -> Seq<char> {
    let n = incompatible_suffix().len();
    if occurs_at(u, u.len() - n, incompatible_suffix()) {
        u.subrange(0, u.len() - n)
    } else {
        u
    }
}

/// The role mentioned when none is given.
pub open spec fn default_role_id() -> Seq<char> {
    "918884941461352469"@
}

/// The role id text with a mention decoration `<@&...>` removed, or the
/// default role when it is empty.
pub open spec fn resolved_role_text(r: Seq<char>) -> Seq<char> {
    if r.len() == 0 {
        default_role_id()
    } else if r.len() >= 4 && occurs_at(r, 0, "<@&"@) && r.last() == '>' {
        r.subrange(3, r.len() - 1)
    } else {
        r
    }
}

pub open spec fn ping_override_of(p: Seq<char>) -> PingOverride {
    if p.len() == 0 {
        PingOverride::Unset
    } else if p.len() == 5 && begins_with_lower(p, "false"@) {
        PingOverride::ForceFalse
    } else {
        PingOverride::ForceTrue
    }
}

/// The project name given, or else the repository's name.
pub open spec fn project_name_of(name: Seq<char>, repository: Seq<char>) -> Seq<char> {
    if name.len() > 0 {
        name
    } else {
        last_segment(repository)
    }
}

pub open spec fn source_url_of(repository: Seq<char>) -> Seq<char> {
    if repository.len() > 0 {
        "https://github.com/"@ + repository
    } else {
        Seq::empty()
    }
}

pub open spec fn curseforge_emoji() -> Seq<char> {
    "<:curseforge:1231714919561429023>"@
}

pub open spec fn modrinth_emoji() -> Seq<char> {
    "<:modrinth:1231714923503943710>"@
}

pub open spec fn github_emoji() -> Seq<char> {
    "<:github:1231714921331425310>"@
}

/// A download link as (label, url, emoji prefix).
pub open spec fn link_view(l: DownloadLink) -> (Seq<char>, Seq<char>, Seq<char>) {
    (l.platform_label@, l.url@, l.emoji_prefix@)
}

pub open spec fn links_view(ls: Seq<DownloadLink>) -> Seq<(Seq<char>, Seq<char>, Seq<char>)> {
    ls.map_values(|l: DownloadLink| link_view(l))
}

pub open spec fn curseforge_link(id: Seq<char>) -> (Seq<char>, Seq<char>, Seq<char>) {
    ("CurseForge"@, "https://www.curseforge.com/projects/"@ + id, curseforge_emoji())
}

pub open spec fn modrinth_link(id: Seq<char>) -> (Seq<char>, Seq<char>, Seq<char>) {
    ("Modrinth"@, "https://modrinth.com/mod/"@ + id, modrinth_emoji())
}

/// The download links for the platform ids: CurseForge first, then
/// Modrinth, each only where its id is given.
pub open spec fn expected_links(curseforge: Seq<char>, modrinth: Seq<char>) -> Seq<
    (Seq<char>, Seq<char>, Seq<char>),
> {
    let cf = if curseforge.len() > 0 {
        seq![curseforge_link(curseforge)]
    } else {
        Seq::empty()
    };
    let mr = if modrinth.len() > 0 {
        seq![modrinth_link(modrinth)]
    } else {
        Seq::empty()
    };
    cf + mr
}

/// The error, if any, of normalising `raw` when the webhook URL parsed as
/// `parsed`.
pub open spec fn config_error(raw: RawInputs, parsed: Option<(u64, Option<Seq<char>>)>) -> Option<
    ConfigError,
> {
    match parsed {
        None => Some(ConfigError::WebhookUrlInvalid),
        Some((_, None)) => Some(ConfigError::WebhookTokenMissing),
        Some(_) => if project_name_of(raw.project_name@, raw.project_repository@).len() == 0 {
            Some(ConfigError::ProjectNameMissing)
        } else {
            None
        },
    }
}

/// `c` is the configuration of `raw` when the webhook URL parsed as `parsed`.
pub open spec fn normalized_as(
    raw: RawInputs,
    parsed: Option<(u64, Option<Seq<char>>)>,
    c: ReleaseAnnouncementConfig,
) -> bool {
    &&& parsed == Some((c.webhook.id, Some(c.webhook.token@)))
    &&& c.project_name@ == project_name_of(raw.project_name@, raw.project_repository@)
    &&& c.project_version@ == raw.project_version@
    &&& c.source_code_url@ == source_url_of(raw.project_repository@)
    &&& c.thumbnail_url@ == raw.thumbnail_url@
    &&& c.notification_role_id@ == resolved_role_text(raw.notification_role_id@)
    &&& c.ping_override == ping_override_of(raw.ping_notification_role@)
    &&& links_view(c.download_links@) == expected_links(
        raw.curseforge_project_id@,
        raw.modrinth_project_id@,
    )
    &&& c.source_code_emoji@ == github_emoji()
}

/// Removes the incompatible suffix from a webhook URL.
pub fn correct_webhook_url(url: &str) -> (r: String)
    ensures
        r@ == corrected_webhook_url(url@),
{
    let n = url.unicode_len();
    proof {
        reveal_strlit("/github");
    }
    if n >= 7 && occurs_at_exec(url, n - 7, "/github") {
        copy_range(url, 0, n - 7)
    } else {
        String::from_str(url)
    }
}

/// The bare role id text: decoration removed, or the default role.
pub fn resolve_role_text(role: &str) -> (r: String)
    ensures
        r@ == resolved_role_text(role@),
{
    let n = role.unicode_len();
    if n == 0 {
        String::from_str("918884941461352469")
    } else if n >= 4 && occurs_at_exec(role, 0, "<@&") && role.get_char(n - 1) == '>' {
        proof {
            reveal_strlit("<@&");
        }
        copy_range(role, 3, n - 1)
    } else {
        String::from_str(role)
    }
}

/// Reads the ping setting: empty is unset, `false` in any ASCII case is
/// "no", anything else "yes".
pub fn parse_ping_override(p: &str) -> (r: PingOverride)
    ensures
        r == ping_override_of(p@),
{
    let n = p.unicode_len();
    if n == 0 {
        PingOverride::Unset
    } else if n == 5 && begins_with_lower_at(p, 0, "false") {
        proof {
            assert(p@.subrange(0, 5) =~= p@);
        }
        PingOverride::ForceFalse
    } else {
        proof {
            if n == 5 {
                assert(p@.subrange(0, 5) =~= p@);
            }
        }
        PingOverride::ForceTrue
    }
}

fn make_link(label: &str, base: &str, id: &str, emoji: &str) -> (r: DownloadLink)
    ensures
        link_view(r) == (label@, base@ + id@, emoji@),
{
    let mut url = String::from_str(base);
    url.append(id);
    DownloadLink {
        platform_label: String::from_str(label),
        url,
        emoji_prefix: String::from_str(emoji),
    }
}

/// The download links for the platform ids that are given.
pub fn download_links(curseforge: &str, modrinth: &str) -> (r: Vec<DownloadLink>)
    ensures
        links_view(r@) == expected_links(curseforge@, modrinth@),
{
    let mut links: Vec<DownloadLink> = Vec::new();
    if curseforge.unicode_len() > 0 {
        links.push(
            make_link(
                "CurseForge",
                "https://www.curseforge.com/projects/",
                curseforge,
                "<:curseforge:1231714919561429023>",
            ),
        );
    }
    if modrinth.unicode_len() > 0 {
        links.push(
            make_link(
                "Modrinth",
                "https://modrinth.com/mod/",
                modrinth,
                "<:modrinth:1231714923503943710>",
            ),
        );
    }
    assert(links_view(links@) =~= expected_links(curseforge@, modrinth@));
    links
}

/// Builds the configuration from the inputs, given what the webhook URL
/// parsed as: `None` where it did not parse, else its id and token.
pub fn normalize_with(raw: &RawInputs, parsed: Option<(u64, Option<String>)>) -> (r: Result<
    ReleaseAnnouncementConfig,
    ConfigError,
>)
    ensures
        match r {
            Ok(c) => config_error(*raw, parsed_link_view(parsed)) is None && normalized_as(
                *raw,
                parsed_link_view(parsed),
                c,
            ),
            Err(e) => config_error(*raw, parsed_link_view(parsed)) == Some(e),
        },
{
    let (id, token) = match parsed {
        None => return Err(ConfigError::WebhookUrlInvalid),
        Some((_, None)) => return Err(ConfigError::WebhookTokenMissing),
        Some((id, Some(token))) => (id, token),
    };
    let project_name = if raw.project_name.as_str().unicode_len() > 0 {
        raw.project_name.clone()
    } else {
        last_segment_of(raw.project_repository.as_str())
    };
    if project_name.as_str().unicode_len() == 0 {
        return Err(ConfigError::ProjectNameMissing);
    }
    let source_code_url = if raw.project_repository.as_str().unicode_len() > 0 {
        let mut u = String::from_str("https://github.com/");
        u.append(raw.project_repository.as_str());
        u
    } else {
        String::new()
    };
    Ok(
        ReleaseAnnouncementConfig {
            project_name,
            project_version: raw.project_version.clone(),
            source_code_url,
            webhook: WebhookEndpoint { id, token },
            thumbnail_url: raw.thumbnail_url.clone(),
            notification_role_id: resolve_role_text(raw.notification_role_id.as_str()),
            ping_override: parse_ping_override(raw.ping_notification_role.as_str()),
            download_links: download_links(
                raw.curseforge_project_id.as_str(),
                raw.modrinth_project_id.as_str(),
            ),
            source_code_emoji: String::from_str("<:github:1231714921331425310>"),
        },
    )
}

/// Builds the configuration from the inputs. The webhook URL is corrected
/// first, then parsed into an id and a token.
pub fn normalize(raw: &RawInputs) -> (r: Result<ReleaseAnnouncementConfig, ConfigError>)
    ensures
        match r {
            Ok(c) => config_error(
                *raw,
                webhook_link_of(corrected_webhook_url(raw.webhook_url@)),
            ) is None && normalized_as(
                *raw,
                webhook_link_of(corrected_webhook_url(raw.webhook_url@)),
                c,
            ),
            Err(e) => config_error(*raw, webhook_link_of(corrected_webhook_url(raw.webhook_url@)))
                == Some(e),
        },
{
    let url = correct_webhook_url(raw.webhook_url.as_str());
    let parsed = parse_webhook_url(url.as_str());
    normalize_with(raw, parsed)
}

} // verus!
