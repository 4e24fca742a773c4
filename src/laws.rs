use vstd::prelude::*;

use crate::classify::{is_pre_release, kind_of};
use crate::compose::{
    description_of, downloads_section, joined_links, line_breaks, link_text, sections_of,
    source_section, title_line, Sections,
};
use crate::config::{
    curseforge_link, expected_links, links_view, modrinth_link, normalized_as, PingOverride,
    RawInputs, ReleaseAnnouncementConfig,
};
use crate::pipeline::{mention_of, ping_wanted, planned_mention};

verus! {

/// `s` holds no line break.
pub open spec fn single_line(s: Seq<char>) -> bool {
    forall|i: int| 0 <= i < s.len() ==> s[i] != '\n'
}

/// Every field of the download link is a single line.
pub open spec fn link_single_line(l: (Seq<char>, Seq<char>, Seq<char>)) -> bool {
    single_line(l.0) && single_line(l.1) && single_line(l.2)
}

/// Every field of every download link is a single line.
pub open spec fn links_single_line(ls: Seq<(Seq<char>, Seq<char>, Seq<char>)>) -> bool {
    forall|k: int| 0 <= k < ls.len() ==> link_single_line(#[trigger] ls[k])
}

proof fn lemma_breaks_concat(a: Seq<char>, b: Seq<char>)
    ensures
        line_breaks(a + b) == line_breaks(a) + line_breaks(b),
    decreases b.len(),
{
    if b.len() > 0 {
        lemma_breaks_concat(a, b.drop_last());
        assert((a + b).drop_last() =~= a + b.drop_last());
    } else {
        assert(a + b =~= a);
    }
}

proof fn lemma_single_line_no_breaks(s: Seq<char>)
    requires
        single_line(s),
    ensures
        line_breaks(s) == 0,
    decreases s.len(),
{
    if s.len() > 0 {
        lemma_single_line_no_breaks(s.drop_last());
    }
}

proof fn lemma_link_text_breaks(l: (Seq<char>, Seq<char>, Seq<char>))
    requires
        single_line(l.0),
        single_line(l.1),
        single_line(l.2),
    ensures
        line_breaks(link_text(l)) == 0,
{
    reveal_strlit(" [");
    reveal_strlit("](");
    reveal_strlit(")");
    lemma_single_line_no_breaks(l.0);
    lemma_single_line_no_breaks(l.1);
    lemma_single_line_no_breaks(l.2);
    lemma_single_line_no_breaks(" ["@);
    lemma_single_line_no_breaks("]("@);
    lemma_single_line_no_breaks(")"@);
    lemma_breaks_concat(l.2, " ["@);
    lemma_breaks_concat(l.2 + " ["@, l.0);
    lemma_breaks_concat(l.2 + " ["@ + l.0, "]("@);
    lemma_breaks_concat(l.2 + " ["@ + l.0 + "]("@, l.1);
    lemma_breaks_concat(l.2 + " ["@ + l.0 + "]("@ + l.1, ")"@);
}

proof fn lemma_joined_breaks(ls: Seq<(Seq<char>, Seq<char>, Seq<char>)>)
    requires
        links_single_line(ls),
    ensures
        line_breaks(joined_links(ls)) == 0,
    decreases ls.len(),
{
    if ls.len() == 1 {
        lemma_link_text_breaks(ls[0]);
    } else if ls.len() > 1 {
        let init = ls.drop_last();
        assert(links_single_line(init)) by {
            assert forall|k: int| 0 <= k < init.len() implies link_single_line(#[trigger] init[k]) by {
                assert(init[k] == ls[k]);
            }
        }
        assert(link_single_line(ls[ls.len() - 1]));
        lemma_joined_breaks(init);
        lemma_link_text_breaks(ls.last());
        reveal_strlit(" | ");
        lemma_single_line_no_breaks(" | "@);
        lemma_breaks_concat(joined_links(init), " | "@);
        lemma_breaks_concat(joined_links(init) + " | "@, link_text(ls.last()));
    }
}

proof fn lemma_pair_breaks()
    ensures
        line_breaks("\n\n"@) == 2,
        line_breaks("\n"@) == 1,
{
    reveal_strlit("\n\n");
    reveal_strlit("\n");
    let one = seq!['\n'];
    let two = seq!['\n', '\n'];
    assert("\n"@ =~= one);
    assert("\n\n"@ =~= two);
    assert(one.drop_last() =~= Seq::<char>::empty());
    assert(two.drop_last() =~= one);
    assert(line_breaks(Seq::<char>::empty()) == 0);
    assert(line_breaks(one) == 1);
    assert(line_breaks(two) == 2);
}

/// Composing and then reading the sections back gives the sections that the
/// configuration asks for, where every text field is a single line.
pub proof fn lemma_sections_round_trip(c: ReleaseAnnouncementConfig)
    requires
        single_line(c.project_name@),
        single_line(c.project_version@),
        single_line(c.source_code_url@),
        single_line(c.source_code_emoji@),
        links_single_line(links_view(c.download_links@)),
    ensures
        sections_of(description_of(c)) == (Sections {
            downloads: c.download_links@.len() > 0,
            source_code: c.source_code_url@.len() > 0,
        }),
{
    let links = links_view(c.download_links@);
    let head = title_line(c.project_name@, c.project_version@);
    reveal_strlit("# ");
    reveal_strlit(" ");
    reveal_strlit("## Downloads:");
    reveal_strlit("[Source Code](");
    reveal_strlit(")");
    lemma_pair_breaks();
    lemma_single_line_no_breaks("# "@);
    lemma_single_line_no_breaks(" "@);
    lemma_single_line_no_breaks("## Downloads:"@);
    lemma_single_line_no_breaks("[Source Code]("@);
    lemma_single_line_no_breaks(")"@);
    lemma_single_line_no_breaks(c.project_name@);
    lemma_single_line_no_breaks(c.project_version@);
    lemma_single_line_no_breaks(c.source_code_url@);
    lemma_single_line_no_breaks(c.source_code_emoji@);
    lemma_breaks_concat("# "@, c.project_name@);
    lemma_breaks_concat("# "@ + c.project_name@, " "@);
    lemma_breaks_concat("# "@ + c.project_name@ + " "@, c.project_version@);
    assert(line_breaks(head) == 0);
    lemma_joined_breaks(links);
    lemma_breaks_concat("## Downloads:"@, "\n"@);
    lemma_breaks_concat("## Downloads:"@ + "\n"@, joined_links(links));
    assert(line_breaks(downloads_section(links)) == 1);
    lemma_breaks_concat(head, "\n\n"@);
    lemma_breaks_concat(head + "\n\n"@, downloads_section(links));
    let with_downloads = if links.len() > 0 {
        head + "\n\n"@ + downloads_section(links)
    } else {
        head
    };
    assert(line_breaks(with_downloads) == if links.len() > 0 {
        3nat
    } else {
        0nat
    });
    let emoji = c.source_code_emoji@;
    let url = c.source_code_url@;
    let prefix = if emoji.len() == 0 {
        Seq::<char>::empty()
    } else {
        emoji + " "@
    };
    lemma_breaks_concat(emoji, " "@);
    assert(line_breaks(Seq::<char>::empty()) == 0);
    lemma_breaks_concat(prefix, "[Source Code]("@);
    lemma_breaks_concat(prefix + "[Source Code]("@, url);
    lemma_breaks_concat(prefix + "[Source Code]("@ + url, ")"@);
    assert(line_breaks(source_section(emoji, url)) == 0);
    lemma_breaks_concat(with_downloads, "\n\n"@);
    lemma_breaks_concat(with_downloads + "\n\n"@, source_section(emoji, url));
}

/// Where neither platform id is given, the description has no downloads
/// section: it is the title, followed by the source-code section if any.
pub proof fn lemma_no_downloads_without_ids(
    raw: RawInputs,
    parsed: Option<(u64, Option<Seq<char>>)>,
    c: ReleaseAnnouncementConfig,
)
    requires
        normalized_as(raw, parsed, c),
        raw.curseforge_project_id@.len() == 0,
        raw.modrinth_project_id@.len() == 0,
    ensures
        c.download_links@.len() == 0,
        description_of(c) == if c.source_code_url@.len() > 0 {
            title_line(c.project_name@, c.project_version@) + "\n\n"@ + source_section(
                c.source_code_emoji@,
                c.source_code_url@,
            )
        } else {
            title_line(c.project_name@, c.project_version@)
        },
{
    assert(links_view(c.download_links@).len() == c.download_links@.len());
    assert(expected_links(raw.curseforge_project_id@, raw.modrinth_project_id@).len() == 0);
}

/// Where a platform id is given, the downloads section follows the title,
/// and its line holds the CurseForge link before the Modrinth link, joined
/// with ` | `, each only where its id is given.
pub proof fn lemma_downloads_line_order(
    raw: RawInputs,
    parsed: Option<(u64, Option<Seq<char>>)>,
    c: ReleaseAnnouncementConfig,
)
    requires
        normalized_as(raw, parsed, c),
        raw.curseforge_project_id@.len() > 0 || raw.modrinth_project_id@.len() > 0,
    ensures
        ({
            let cf = raw.curseforge_project_id@;
            let mr = raw.modrinth_project_id@;
            let line = if cf.len() > 0 && mr.len() > 0 {
                link_text(curseforge_link(cf)) + " | "@ + link_text(modrinth_link(mr))
            } else if cf.len() > 0 {
                link_text(curseforge_link(cf))
            } else {
                link_text(modrinth_link(mr))
            };
            let head = title_line(c.project_name@, c.project_version@) + "\n\n"@
                + "## Downloads:"@ + "\n"@ + line;
            &&& joined_links(links_view(c.download_links@)) == line
            &&& description_of(c) == if c.source_code_url@.len() > 0 {
                head + "\n\n"@ + source_section(c.source_code_emoji@, c.source_code_url@)
            } else {
                head
            }
        }),
{
    let cf = raw.curseforge_project_id@;
    let mr = raw.modrinth_project_id@;
    let ls = expected_links(cf, mr);
    assert(links_view(c.download_links@).len() == c.download_links@.len());
    if cf.len() > 0 && mr.len() > 0 {
        assert(ls =~= seq![curseforge_link(cf), modrinth_link(mr)]);
        assert(ls.drop_last() =~= seq![curseforge_link(cf)]);
        assert(joined_links(ls.drop_last()) == link_text(curseforge_link(cf)));
        assert(joined_links(ls) == link_text(curseforge_link(cf)) + " | "@ + link_text(
            modrinth_link(mr),
        ));
    } else if cf.len() > 0 {
        assert(ls =~= seq![curseforge_link(cf)]);
    } else {
        assert(ls =~= seq![modrinth_link(mr)]);
    }
    let line = joined_links(ls);
    assert(title_line(c.project_name@, c.project_version@) + "\n\n"@ + downloads_section(ls)
        =~= title_line(c.project_name@, c.project_version@) + "\n\n"@ + "## Downloads:"@ + "\n"@
        + line);
}

/// Left unset, the ping is suppressed for a pre-release: no follow-up
/// message is planned.
pub proof fn lemma_pre_release_not_pinged(c: ReleaseAnnouncementConfig)
    requires
        c.ping_override == PingOverride::Unset,
        is_pre_release(c.project_version@),
    ensures
        !ping_wanted(c.ping_override, kind_of(c.project_version@)),
        planned_mention(c) is None,
{
}

/// Forced on, the ping follows a pre-release too: a follow-up message is
/// planned whenever the role id is valid.
pub proof fn lemma_forced_ping_on_pre_release(c: ReleaseAnnouncementConfig)
    requires
        c.ping_override == PingOverride::ForceTrue,
        is_pre_release(c.project_version@),
    ensures
        ping_wanted(c.ping_override, kind_of(c.project_version@)),
        planned_mention(c) == mention_of(c.notification_role_id@),
{
}

} // verus!
