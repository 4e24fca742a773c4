use vstd::prelude::*;
use vstd::string::*;

use crate::config::{link_view, links_view, DownloadLink, ReleaseAnnouncementConfig};

verus! {

/// The announcement handed to the delivery client.
pub struct ComposedMessage {
    pub description: String,
    /// Present when the configuration has a thumbnail.
    pub thumbnail_url: Option<String>,
}

/// Which optional sections a description holds.
#[derive(Debug, Clone, Copy, PartialEq, Eq, Structural)]
pub struct Sections {
    pub downloads: bool,
    pub source_code: bool,
}

/// `{emoji} [{label}]({url})` for a link given as (label, url, emoji).
pub open spec fn link_text(l: (Seq<char>, Seq<char>, Seq<char>)) -> Seq<char> {
    l.2 + " ["@ + l.0 + "]("@ + l.1 + ")"@
}

/// The link texts joined with ` | `, in order.
pub open spec fn joined_links(ls: Seq<(Seq<char>, Seq<char>, Seq<char>)>) -> Seq<char>
    decreases ls.len(),
{
    if ls.len() == 0 {
        Seq::empty()
    } else if ls.len() == 1 {
        link_text(ls[0])
    } else {
        joined_links(ls.drop_last()) + " | "@ + link_text(ls.last())
    }
}

pub open spec fn title_line(name: Seq<char>, version: Seq<char>) -> Seq<char> {
    "# "@ + name + " "@ + version
}

pub open spec fn downloads_section(ls: Seq<(Seq<char>, Seq<char>, Seq<char>)>) -> Seq<char> {
    "## Downloads:"@ + "\n"@ + joined_links(ls)
}

/// `{emoji} [Source Code]({url})`, without the emoji and its space when the
/// emoji is empty.
pub open spec fn source_section(emoji: Seq<char>, url: Seq<char>) -> Seq<char> {
    let prefix = if emoji.len() == 0 {
        Seq::empty()
    } else {
        emoji + " "@
    };
    prefix + "[Source Code]("@ + url + ")"@
}

/// The title, then the downloads section when there are links, then the
/// source-code section when there is a URL, with a blank line between each
/// two of them.
pub open spec fn description_of(c: ReleaseAnnouncementConfig) -> Seq<char> {
    let links = links_view(c.download_links@);
    let head = title_line(c.project_name@, c.project_version@);
    let with_downloads = if links.len() > 0 {
        head + "\n\n"@ + downloads_section(links)
    } else {
        head
    };
    if c.source_code_url@.len() > 0 {
        with_downloads + "\n\n"@ + source_section(c.source_code_emoji@, c.source_code_url@)
    } else {
        with_downloads
    }
}

pub open spec fn thumbnail_of(c: ReleaseAnnouncementConfig) -> Option<Seq<char>> {
    if c.thumbnail_url@.len() > 0 {
        Some(c.thumbnail_url@)
    } else {
        None
    }
}

fn append_link_text(s: &mut String, l: &DownloadLink)
    ensures
        final(s)@ == old(s)@ + link_text(link_view(*l)),
{
    s.append(l.emoji_prefix.as_str());
    s.append(" [");
    s.append(l.platform_label.as_str());
    s.append("](");
    s.append(l.url.as_str());
    s.append(")");
}

/// The download links joined with ` | `, in their order.
pub fn join_links(links: &Vec<DownloadLink>) -> (r: String)
    ensures
        r@ == joined_links(links_view(links@)),
{
    let ghost lv = links_view(links@);
    let mut s = String::new();
    let mut i: usize = 0;
    while i < links.len()
        invariant
            i <= links@.len(),
            lv == links_view(links@),
            s@ == joined_links(lv.subrange(0, i as int)),
        decreases links@.len() - i,
    {
        let ghost before = s@;
        if i > 0 {
            s.append(" | ");
        }
        append_link_text(&mut s, &links[i]);
        proof {
            let next = lv.subrange(0, i + 1);
            assert(next.drop_last() =~= lv.subrange(0, i as int));
            assert(next.last() == link_view(links@[i as int]));
            if i == 0 {
                assert(before =~= Seq::<char>::empty());
                assert(s@ =~= link_text(next[0]));
            }
        }
        i = i + 1;
    }
    assert(lv.subrange(0, links@.len() as int) =~= lv);
    s
}

/// Composes the announcement: its description text and its thumbnail.
pub fn compose(c: &ReleaseAnnouncementConfig) -> (r: ComposedMessage)
    ensures
        r.description@ == description_of(*c),
        match r.thumbnail_url {
            Some(t) => thumbnail_of(*c) == Some(t@),
            None => thumbnail_of(*c) is None,
        },
{
    let mut d = String::from_str("# ");
    d.append(c.project_name.as_str());
    d.append(" ");
    d.append(c.project_version.as_str());
    if c.download_links.len() > 0 {
        d.append("\n\n");
        d.append("## Downloads:");
        d.append("\n");
        let joined = join_links(&c.download_links);
        d.append(joined.as_str());
    }
    if c.source_code_url.as_str().unicode_len() > 0 {
        d.append("\n\n");
        if c.source_code_emoji.as_str().unicode_len() > 0 {
            d.append(c.source_code_emoji.as_str());
            d.append(" ");
        }
        d.append("[Source Code](");
        d.append(c.source_code_url.as_str());
        d.append(")");
    }
    proof {
        assert(d@ =~= description_of(*c));
    }
    let thumbnail_url = if c.thumbnail_url.as_str().unicode_len() > 0 {
        Some(c.thumbnail_url.clone())
    } else {
        None
    };
    ComposedMessage { description: d, thumbnail_url }
}

/// The number of line breaks in `s`.
pub open spec fn line_breaks(s: Seq<char>) -> nat
    decreases s.len(),
{
    if s.len() == 0 {
        0
    } else {
        line_breaks(s.drop_last()) + if s.last() == '\n' {
            1nat
        } else {
            0nat
        }
    }
}

/// The sections of a description, told apart by its line structure: the
/// title is one line, the downloads section a header and a line, the
/// source-code section one line, and each section after the title follows a
/// blank line. So there are 0, 2, 3 or 5 line breaks.
pub open spec fn sections_of(d: Seq<char>) -> Sections {
    let n = line_breaks(d);
    Sections { downloads: n == 3 || n == 5, source_code: n == 2 || n == 5 }
}

/// Reads which optional sections a composed description holds.
pub fn parse_sections(d: &str) -> (r: Sections)
    ensures
        r == sections_of(d@),
{
    let n = d.unicode_len();
    let mut count: usize = 0;
    let mut i: usize = 0;
    while i < n
        invariant
            i <= n,
            n == d@.len(),
            count <= i,
            count == line_breaks(d@.subrange(0, i as int)),
        decreases n - i,
    {
        proof {
            assert(d@.subrange(0, i + 1).drop_last() =~= d@.subrange(0, i as int));
        }
        if d.get_char(i) == '\n' {
            count = count + 1;
        }
        i = i + 1;
    }
    assert(d@.subrange(0, n as int) =~= d@);
    Sections { downloads: count == 3 || count == 5, source_code: count == 2 || count == 5 }
}

} // verus!
