use release_notify::classify::{classify, ReleaseKind};
use release_notify::compose::{compose, join_links, parse_sections, Sections};
use release_notify::config::{
    correct_webhook_url, download_links, normalize, normalize_with, parse_ping_override,
    resolve_role_text, ConfigError, PingOverride, RawInputs, ReleaseAnnouncementConfig,
};
use release_notify::text::last_segment_of;

const HOOK: &str = "https://discord.com/api/webhooks/794590023369752587/tjxHaPHLKp9aEdSw";

fn raw(name: &str, version: &str, cf: &str, mr: &str, repo: &str) -> RawInputs {
    RawInputs {
        curseforge_project_id: cf.to_string(),
        modrinth_project_id: mr.to_string(),
        project_name: name.to_string(),
        project_version: version.to_string(),
        project_repository: repo.to_string(),
        webhook_url: HOOK.to_string(),
        thumbnail_url: String::new(),
        notification_role_id: String::new(),
        ping_notification_role: String::new(),
    }
}

fn config(r: &RawInputs) -> ReleaseAnnouncementConfig {
    match normalize(r) {
        Ok(c) => c,
        Err(e) => panic!("normalize failed: {:?}", e),
    }
}

#[test]
fn classify_beta_is_pre_release() {
    assert_eq!(classify("1.2.0-beta.3"), ReleaseKind::PreRelease);
}

#[test]
fn classify_plain_is_stable() {
    assert_eq!(classify("1.2.0"), ReleaseKind::Stable);
}

#[test]
fn classify_dev_is_pre_release() {
    assert_eq!(classify("2.0.0-dev"), ReleaseKind::PreRelease);
}

#[test]
fn classify_word_without_separator_is_stable() {
    assert_eq!(classify("devotion-1.0"), ReleaseKind::Stable);
}

#[test]
fn classify_other_markers() {
    assert_eq!(classify("1.0.0-RC1"), ReleaseKind::PreRelease);
    assert_eq!(classify("1.0_snapshot"), ReleaseKind::PreRelease);
    assert_eq!(classify("1.0+Alpha.2"), ReleaseKind::PreRelease);
    assert_eq!(classify("1.0-pre-release"), ReleaseKind::PreRelease);
    assert_eq!(classify("1.0-prerelease"), ReleaseKind::PreRelease);
    assert_eq!(classify("1.0-release"), ReleaseKind::Stable);
    assert_eq!(classify("beta"), ReleaseKind::Stable);
    assert_eq!(classify(""), ReleaseKind::Stable);
    assert_eq!(classify("1.0-"), ReleaseKind::Stable);
}

#[test]
fn scenario_modrinth_and_source() {
    let c = config(&raw("Foo", "1.0.0", "", "m1", "org/Foo"));
    let m = compose(&c);
    assert_eq!(
        m.description,
        "# Foo 1.0.0\n\n## Downloads:\n<:modrinth:1231714923503943710> [Modrinth](https://modrinth.com/mod/m1)\n\n<:github:1231714921331425310> [Source Code](https://github.com/org/Foo)"
    );
    assert!(m.thumbnail_url.is_none());
}

#[test]
fn no_ids_gives_no_downloads_section() {
    let c = config(&raw("Foo", "1.0.0", "", "", "org/Foo"));
    assert!(c.download_links.is_empty());
    let m = compose(&c);
    assert!(!m.description.contains("Downloads"));
    assert_eq!(
        m.description,
        "# Foo 1.0.0\n\n<:github:1231714921331425310> [Source Code](https://github.com/org/Foo)"
    );
}

#[test]
fn title_only_without_links_or_source() {
    let mut c = config(&raw("Foo", "1.0.0", "", "", "org/Foo"));
    c.source_code_url = String::new();
    assert_eq!(compose(&c).description, "# Foo 1.0.0");
}

#[test]
fn downloads_line_keeps_platform_order() {
    let c = config(&raw("Foo", "2.1", "cf7", "mr7", "org/Foo"));
    let line = join_links(&c.download_links);
    assert_eq!(
        line,
        "<:curseforge:1231714919561429023> [CurseForge](https://www.curseforge.com/projects/cf7) | <:modrinth:1231714923503943710> [Modrinth](https://modrinth.com/mod/mr7)"
    );
    let d = compose(&c).description;
    assert!(d.starts_with("# Foo 2.1\n\n## Downloads:\n<:curseforge:"));
}

#[test]
fn download_links_only_for_given_ids() {
    let ls = download_links("cf", "");
    assert_eq!(ls.len(), 1);
    assert_eq!(ls[0].platform_label, "CurseForge");
    assert_eq!(ls[0].url, "https://www.curseforge.com/projects/cf");
    assert!(download_links("", "").is_empty());
}

#[test]
fn source_section_without_emoji() {
    let mut c = config(&raw("Foo", "1.0.0", "", "", "org/Foo"));
    c.source_code_emoji = String::new();
    assert_eq!(
        compose(&c).description,
        "# Foo 1.0.0\n\n[Source Code](https://github.com/org/Foo)"
    );
}

#[test]
fn thumbnail_passes_through() {
    let mut r = raw("Foo", "1.0.0", "", "", "");
    r.thumbnail_url = "https://example.com/t.png".to_string();
    let m = compose(&config(&r));
    assert_eq!(m.thumbnail_url.as_deref(), Some("https://example.com/t.png"));
    assert_eq!(m.description, "# Foo 1.0.0");
}

#[test]
fn sections_read_back_after_compose() {
    let cases = [("", "", ""), ("", "m1", ""), ("", "", "o/r"), ("c1", "m1", "o/r")];
    for (cf, mr, repo) in cases {
        let c = config(&raw("Foo", "1.0", cf, mr, repo));
        let s = parse_sections(&compose(&c).description);
        assert_eq!(
            s,
            Sections {
                downloads: !cf.is_empty() || !mr.is_empty(),
                source_code: !repo.is_empty(),
            }
        );
    }
}

#[test]
fn github_suffix_is_removed_before_parsing() {
    let url = format!("{}/github", HOOK);
    assert_eq!(correct_webhook_url(&url), HOOK);
    assert_eq!(correct_webhook_url(HOOK), HOOK);
    let mut r = raw("Foo", "1.0.0", "", "", "");
    r.webhook_url = url;
    let c = config(&r);
    assert_eq!(c.webhook.id, 794590023369752587);
    assert_eq!(c.webhook.token, "tjxHaPHLKp9aEdSw");
}

#[test]
fn webhook_url_errors() {
    let mut r = raw("Foo", "1.0.0", "", "", "");
    r.webhook_url = "https://example.com/hooks/1/abc".to_string();
    assert!(matches!(normalize(&r), Err(ConfigError::WebhookUrlInvalid)));
    r.webhook_url = "https://discord.com/api/webhooks/123".to_string();
    assert!(matches!(normalize(&r), Err(ConfigError::WebhookTokenMissing)));
    r.webhook_url = "https://discord.com/api/webhooks/0/abc".to_string();
    assert!(matches!(normalize(&r), Err(ConfigError::WebhookUrlInvalid)));
    r.webhook_url = "https://discord.com/api/webhooks/123/".to_string();
    assert!(matches!(normalize(&r), Err(ConfigError::WebhookTokenMissing)));
    r.webhook_url = "https://discord.com/api/webhooks//abc".to_string();
    assert!(matches!(normalize(&r), Err(ConfigError::WebhookUrlInvalid)));
}

#[test]
fn webhook_url_extra_segments_are_ignored() {
    let mut r = raw("Foo", "1.0.0", "", "", "");
    r.webhook_url = "https://canary.discord.com/api/webhooks/77/tok/slack".to_string();
    let c = config(&r);
    assert_eq!(c.webhook.id, 77);
    assert_eq!(c.webhook.token, "tok");
}

#[test]
fn normalize_with_parsed_values() {
    let r = raw("", "1.0.0", "", "", "org/Bar");
    assert!(matches!(normalize_with(&r, None), Err(ConfigError::WebhookUrlInvalid)));
    assert!(matches!(normalize_with(&r, Some((5, None))), Err(ConfigError::WebhookTokenMissing)));
    let c = match normalize_with(&r, Some((5, Some("t".to_string())))) {
        Ok(c) => c,
        Err(e) => panic!("{:?}", e),
    };
    assert_eq!(c.webhook.id, 5);
    assert_eq!(c.project_name, "Bar");
    assert_eq!(c.source_code_url, "https://github.com/org/Bar");
}

#[test]
fn project_name_falls_back_to_repository() {
    let c = config(&raw("", "1.0.0", "", "", "org/Foo"));
    assert_eq!(c.project_name, "Foo");
    let c = config(&raw("Given", "1.0.0", "", "", "org/Foo"));
    assert_eq!(c.project_name, "Given");
    assert_eq!(last_segment_of("a/b/c"), "c");
    assert_eq!(last_segment_of("plain"), "plain");
}

#[test]
fn project_name_missing_is_an_error() {
    assert!(matches!(normalize(&raw("", "1.0.0", "", "", "")), Err(ConfigError::ProjectNameMissing)));
    assert!(matches!(
        normalize(&raw("", "1.0.0", "", "", "org/")),
        Err(ConfigError::ProjectNameMissing)
    ));
}

#[test]
fn role_text_is_unwrapped_or_defaulted() {
    assert_eq!(resolve_role_text("<@&123>"), "123");
    assert_eq!(resolve_role_text(""), "918884941461352469");
    assert_eq!(resolve_role_text("456"), "456");
    assert_eq!(resolve_role_text("<@&"), "<@&");
}

#[test]
fn ping_override_is_read() {
    assert_eq!(parse_ping_override(""), PingOverride::Unset);
    assert_eq!(parse_ping_override("FaLsE"), PingOverride::ForceFalse);
    assert_eq!(parse_ping_override("true"), PingOverride::ForceTrue);
    assert_eq!(parse_ping_override("no"), PingOverride::ForceTrue);
    assert_eq!(parse_ping_override("falsey"), PingOverride::ForceTrue);
}
