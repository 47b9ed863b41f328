//! Rendering an `UpdateInfo` as a short human-oriented summary: a banner,
//! at most four changelog bullets, and a footer with the URL. An answer
//! without an update renders as no lines at all.

use vstd::prelude::*;
use vstd::string::StrSliceExecFns;
use vstd::string::StringExecFns;

use crate::model::UpdateInfo;

verus! {

/// At most this many qualifying changelog lines are shown.
pub const MAX_SHOWN_LINES: usize = 4;

/// The index of the first character that is a line break, or the length
/// where there is none.
pub open spec fn first_newline(s: Seq<char>) -> nat
    decreases s.len(),
{
    if s.len() == 0 {
        0
    } else if s[0] == '\n' {
        0
    } else {
        1 + first_newline(s.skip(1))
    }
}

/// A line with one trailing carriage return removed, if one is present.
pub open spec fn drop_cr(line: Seq<char>) -> Seq<char> {
    if line.len() > 0 && line.last() == '\r' {
        line.drop_last()
    } else {
        line
    }
}

/// The lines of a text: the pieces between line breaks, each with one
/// trailing carriage return removed. An empty text has no lines, and a
/// trailing line break closes the last line rather than opening an empty
/// one.
pub open spec fn split_lines(s: Seq<char>) -> Seq<Seq<char>>
    decreases s.len(),
{
    if s.len() == 0 {
        Seq::empty()
    } else {
        let i = first_newline(s);
        if i >= s.len() {
            seq![drop_cr(s)]
        } else {
            seq![drop_cr(s.take(i as int))] + split_lines(s.skip(i as int + 1))
        }
    }
}

/// The whitespace characters a blank line may consist of.
pub open spec fn is_space_char(c: char) -> bool {
    c == ' ' || c == '\t' || c == '\r'
}

/// A line of nothing but whitespace (the empty line included).
pub open spec fn is_blank(line: Seq<char>) -> bool {
    forall|k: int| 0 <= k < line.len() ==> is_space_char(#[trigger] line[k])
}

/// A markdown-style header line.
pub open spec fn is_header(line: Seq<char>) -> bool {
    line.len() >= 3 && line[0] == '#' && line[1] == '#' && line[2] == ' '
}

/// A changelog line that the summary keeps: neither blank nor a header.
pub open spec fn keeps(line: Seq<char>) -> bool {
    !is_blank(line) && !is_header(line)
}

/// The changelog's qualifying lines, in their original order.
pub open spec fn qualifying_lines(s: Seq<char>) -> Seq<Seq<char>> {
    split_lines(s).filter(|l: Seq<char>| keeps(l))
}

/// The markers a changelog line may already carry as a bullet.
pub open spec fn is_marker(c: char) -> bool {
    c == '-' || c == '*' || c == '•'
}

/// The content of a kept line: the original marker, and one space after
/// it, stripped off where the line carries one.
pub open spec fn bullet_content(line: Seq<char>) -> Seq<char> {
    if line.len() > 0 && is_marker(line[0]) {
        let rest = line.skip(1);
        if rest.len() > 0 && rest[0] == ' ' {
            rest.skip(1)
        } else {
            rest
        }
    } else {
        line
    }
}

/// A kept line as the summary shows it: a single normalized bullet.
pub open spec fn bullet_line(line: Seq<char>) -> Seq<char> {
    "• "@ + bullet_content(line)
}

/// The changelog part of the summary: a header, the first qualifying
/// lines as bullets, and a closing bullet where more lines exist than are
/// shown.
pub open spec fn changelog_section_spec(changelog: Seq<char>) -> Seq<Seq<char>> {
    let quals = qualifying_lines(changelog);
    let shown = if quals.len() <= MAX_SHOWN_LINES {
        quals
    } else {
        quals.take(MAX_SHOWN_LINES as int)
    };
    seq!["📝  Changelog:"@] + shown.map_values(|l: Seq<char>| bullet_line(l)) + (
    if quals.len() > MAX_SHOWN_LINES {
        seq!["• (and more...)"@]
    } else {
        Seq::<Seq<char>>::empty()
    })
}

/// The whole summary: no lines at all without an update; otherwise a
/// banner, the latest version, the changelog section where release notes
/// exist, and a footer naming the URL.
pub open spec fn render_spec(info: UpdateInfo) -> Seq<Seq<char>> {
    if !info.is_update_available {
        Seq::empty()
    } else {
        seq!["🚀  A new version is available!"@, "🔖  Latest version: "@ + info.latest_version.text@]
            + (match info.changelog {
            Some(c) => changelog_section_spec(c@),
            None => Seq::<Seq<char>>::empty(),
        }) + seq!["🌐  More info: "@ + info.url@]
    }
}

proof fn lemma_first_newline_at(s: Seq<char>, i: int)
    requires
        0 <= i <= s.len(),
        forall|k: int| 0 <= k < i ==> s[k] != '\n',
        i == s.len() || s[i] == '\n',
    ensures
        first_newline(s) == i,
    decreases s.len(),
{
    if s.len() == 0 {
    } else if s[0] == '\n' {
        assert(i == 0);
    } else {
        assert(s[0] != '\n');
        assert(i >= 1);
        let t = s.skip(1);
        assert forall|k: int| 0 <= k < i - 1 implies t[k] != '\n' by {
            assert(t[k] == s[k + 1]);
        }
        if i < s.len() {
            assert(t[i - 1] == s[i]);
        }
        lemma_first_newline_at(t, i - 1);
    }
}

fn drop_cr_exec(line: &str) -> (r: String)
    ensures
        r@ == drop_cr(line@),
{
    let n = line.unicode_len();
    if n > 0 && line.get_char(n - 1) == '\r' {
        let head = line.substring_char(0, n - 1);
        proof {
            assert(head@ =~= drop_cr(line@));
        }
        String::from_str(head)
    } else {
        String::from_str(line)
    }
}

fn split_lines_exec(s: &str) -> (r: Vec<String>)
    ensures
        r.deep_view() == split_lines(s@),
    decreases s@.len(),
{
    let n = s.unicode_len();
    if n == 0 {
        let r: Vec<String> = Vec::new();
        proof {
            assert(r.deep_view() =~= split_lines(s@));
        }
        return r;
    }
    let mut i: usize = 0;
    loop
        invariant
            n == s@.len(),
            i <= n,
            forall|k: int| 0 <= k < i ==> s@[k] != '\n',
        ensures
            i <= n,
            forall|k: int| 0 <= k < i ==> s@[k] != '\n',
            i == n || s@[i as int] == '\n',
        decreases n - i,
    {
        if i == n {
            break ;
        }
        if s.get_char(i) == '\n' {
            break ;
        }
        i = i + 1;
    }
    proof {
        lemma_first_newline_at(s@, i as int);
    }
    if i == n {
        let mut r: Vec<String> = Vec::new();
        r.push(drop_cr_exec(s));
        proof {
            assert(r.deep_view() =~= split_lines(s@));
        }
        r
    } else {
        let head = s.substring_char(0, i);
        let rest = s.substring_char(i + 1, n);
        let mut r = split_lines_exec(rest);
        let first = drop_cr_exec(head);
        proof {
            assert(head@ == s@.take(i as int));
        }
        r.insert(0, first);
        proof {
            assert(r.deep_view() =~= split_lines(s@));
        }
        r
    }
}

fn is_blank_exec(line: &str) -> (r: bool)
    ensures
        r == is_blank(line@),
{
    let n = line.unicode_len();
    let mut i: usize = 0;
    while i < n
        invariant
            n == line@.len(),
            i <= n,
            forall|k: int| 0 <= k < i ==> is_space_char(#[trigger] line@[k]),
        decreases n - i,
    {
        let c = line.get_char(i);
        if !(c == ' ' || c == '\t' || c == '\r') {
            proof {
                assert(!is_space_char(line@[i as int]));
            }
            return false;
        }
        i = i + 1;
    }
    true
}

fn is_header_exec(line: &str) -> (r: bool)
    ensures
        r == is_header(line@),
{
    let n = line.unicode_len();
    if n < 3 {
        return false;
    }
    line.get_char(0) == '#' && line.get_char(1) == '#' && line.get_char(2) == ' '
}

fn bullet_line_exec(line: &str) -> (r: String)
    ensures
        r@ == bullet_line(line@),
{
    let n = line.unicode_len();
    let content: &str = if n > 0 && {
        let c = line.get_char(0);
        c == '-' || c == '*' || c == '•'
    } {
        let rest = line.substring_char(1, n);
        proof {
            assert(rest@ == line@.skip(1));
        }
        if n > 1 && rest.get_char(0) == ' ' {
            let trimmed = rest.substring_char(1, n - 1);
            proof {
                assert(trimmed@ =~= line@.skip(1).skip(1));
            }
            trimmed
        } else {
            rest
        }
    } else {
        line
    };
    let mut out = String::from_str("• ");
    out.append(content);
    out
}

proof fn lemma_filter_push<A>(s: Seq<A>, x: A, pred: spec_fn(A) -> bool)
    ensures
        s.push(x).filter(pred) == if pred(x) {
            s.filter(pred).push(x)
        } else {
            s.filter(pred)
        },
{
    reveal(Seq::filter);
    assert(s.push(x).drop_last() =~= s);
    assert(s.push(x).last() == x);
}

/// An `UpdateInfo` without an update renders as no output, whatever its
/// changelog holds.
pub proof fn lemma_render_no_update(info: UpdateInfo)
    requires
        !info.is_update_available,
    ensures
        render_spec(info) == Seq::<Seq<char>>::empty(),
{
}

/// With more qualifying changelog lines than are shown, the changelog
/// section holds the header, then exactly the first `MAX_SHOWN_LINES`
/// qualifying lines as bullets, then one closing bullet announcing the
/// rest.
pub proof fn lemma_changelog_truncation(changelog: Seq<char>)
    requires
        qualifying_lines(changelog).len() > MAX_SHOWN_LINES,
    ensures
        ({
            let quals = qualifying_lines(changelog);
            let section = changelog_section_spec(changelog);
            &&& section.len() == MAX_SHOWN_LINES + 2
            &&& section[0] == "📝  Changelog:"@
            &&& forall|i: int|
                0 <= i < MAX_SHOWN_LINES ==> section[i + 1] == bullet_line(quals[i])
            &&& section[MAX_SHOWN_LINES as int + 1] == "• (and more...)"@
        }),
{
    let quals = qualifying_lines(changelog);
    let shown = quals.take(MAX_SHOWN_LINES as int);
    let bullets = shown.map_values(|l: Seq<char>| bullet_line(l));
    let section = changelog_section_spec(changelog);
    assert forall|i: int| 0 <= i < MAX_SHOWN_LINES implies section[i + 1] == bullet_line(
        quals[i],
    ) by {
        assert(bullets[i] == bullet_line(shown[i]));
        assert(shown[i] == quals[i]);
    }
}

/// With no more qualifying changelog lines than are shown, the changelog
/// section holds the header and then every qualifying line as a bullet,
/// and nothing after them.
pub proof fn lemma_changelog_shows_all(changelog: Seq<char>)
    requires
        qualifying_lines(changelog).len() <= MAX_SHOWN_LINES,
    ensures
        ({
            let quals = qualifying_lines(changelog);
            let section = changelog_section_spec(changelog);
            &&& section.len() == quals.len() + 1
            &&& section[0] == "📝  Changelog:"@
            &&& forall|i: int| 0 <= i < quals.len() ==> section[i + 1] == bullet_line(quals[i])
        }),
{
    let quals = qualifying_lines(changelog);
    let bullets = quals.map_values(|l: Seq<char>| bullet_line(l));
    let section = changelog_section_spec(changelog);
    assert(section =~= seq!["📝  Changelog:"@] + bullets);
    assert forall|i: int| 0 <= i < quals.len() implies section[i + 1] == bullet_line(quals[i]) by {
        assert(bullets[i] == bullet_line(quals[i]));
    }
}

impl UpdateInfo {
    /// Renders the summary as its sequence of text lines, a pure function
    /// of the answer's fields: empty without an update, otherwise the
    /// banner, the latest version, the changelog section where release
    /// notes exist, and the footer with the URL.
    pub fn render_lines(&self) -> (r: Vec<String>)
        ensures
            r.deep_view() == render_spec(*self),
    {
        let mut out: Vec<String> = Vec::new();
        if !self.is_update_available {
            proof {
                assert(out.deep_view() =~= render_spec(*self));
            }
            return out;
        }
        out.push(String::from_str("🚀  A new version is available!"));
        let mut vline = String::from_str("🔖  Latest version: ");
        vline.append(self.latest_version.text.as_str());
        out.push(vline);
        let ghost head: Seq<Seq<char>> = seq![
            "🚀  A new version is available!"@,
            "🔖  Latest version: "@ + self.latest_version.text@,
        ];
        proof {
            assert(out.deep_view() =~= head);
        }
        let ghost section: Seq<Seq<char>> = match &self.changelog {
            Some(c) => changelog_section_spec(c@),
            None => Seq::<Seq<char>>::empty(),
        };
        match &self.changelog {
            Some(cl) => {
                out.push(String::from_str("📝  Changelog:"));
                proof {
                    assert(out.deep_view() =~= head.push("📝  Changelog:"@));
                }
                let lines = split_lines_exec(cl.as_str());
                let mut quals: Vec<String> = Vec::new();
                let mut j: usize = 0;
                while j < lines.len()
                    invariant
                        j <= lines.len(),
                        lines.deep_view() == split_lines(cl@),
                        quals.deep_view() == lines.deep_view().take(j as int).filter(
                            |l: Seq<char>| keeps(l),
                        ),
                    decreases lines.len() - j,
                {
                    let lr = &lines[j];
                    let keep = !is_blank_exec(lr.as_str()) && !is_header_exec(lr.as_str());
                    proof {
                        assert(lines.deep_view().take(j as int + 1) =~= lines.deep_view().take(
                            j as int,
                        ).push(lines.deep_view()[j as int]));
                        lemma_filter_push(
                            lines.deep_view().take(j as int),
                            lines.deep_view()[j as int],
                            |l: Seq<char>| keeps(l),
                        );
                    }
                    if keep {
                        quals.push(lr.clone());
                    }
                    j = j + 1;
                }
                proof {
                    assert(lines.deep_view().take(lines.deep_view().len() as int)
                        =~= lines.deep_view());
                    assert(quals.deep_view() == qualifying_lines(cl@));
                }
                let ghost quals_s = quals.deep_view();
                let total = quals.len();
                let shown: usize = if total <= MAX_SHOWN_LINES {
                    total
                } else {
                    MAX_SHOWN_LINES
                };
                let ghost mid = out.deep_view();
                let mut k: usize = 0;
                while k < shown
                    invariant
                        k <= shown,
                        shown <= quals@.len(),
                        quals.deep_view() == quals_s,
                        out.deep_view() == mid + quals_s.take(k as int).map_values(
                            |l: Seq<char>| bullet_line(l),
                        ),
                    decreases shown - k,
                {
                    let ghost before = out.deep_view();
                    let b = bullet_line_exec(quals[k].as_str());
                    out.push(b);
                    proof {
                        assert(out.deep_view() =~= before.push(bullet_line(quals_s[k as int])));
                        assert(quals_s.take(k as int + 1) =~= quals_s.take(k as int).push(
                            quals_s[k as int],
                        ));
                        assert(quals_s.take(k as int + 1).map_values(|l: Seq<char>| bullet_line(l))
                            =~= quals_s.take(k as int).map_values(
                            |l: Seq<char>| bullet_line(l),
                        ).push(bullet_line(quals_s[k as int])));
                    }
                    k = k + 1;
                }
                if total > MAX_SHOWN_LINES {
                    let ghost before_more = out.deep_view();
                    out.push(String::from_str("• (and more...)"));
                    proof {
                        assert(out.deep_view() =~= before_more.push("• (and more...)"@));
                    }
                }
                proof {
                    if quals_s.len() <= MAX_SHOWN_LINES {
                        assert(quals_s.take(shown as int) =~= quals_s);
                    }
                    assert(out.deep_view() =~= head + section);
                }
            },
            None => {
                proof {
                    assert(out.deep_view() =~= head + section);
                }
            },
        }
        let mut fline = String::from_str("🌐  More info: ");
        fline.append(self.url.as_str());
        out.push(fline);
        proof {
            assert(out.deep_view() =~= (head + section) + seq!["🌐  More info: "@ + self.url@]);
            assert(out.deep_view() =~= render_spec(*self));
        }
        out
    }
}

} // verus!
