//! Response renderer: one pure transform per catalog record, from the
//! fetched data to a bounded, ordered reply payload, plus the fixed
//! not-found message for each request shape.
use vstd::prelude::*;
use crate::catalog::{
    ProjectList, ProjectListV, ProjectDetail, ProjectDetailV, VersionGroupDetail,
    VersionGroupDetailV, VersionGroupBuilds, VersionGroupBuildsV, VersionDetail, VersionDetailV,
    Change, ChangeV, BuildDetail, BuildDetailV,
};
use crate::router::{ParsedCommand, CommandView};
use crate::text::{trunc, truncate, join_comma, join_with_comma, int_str, i32_to_string};

verus! {

/// Root of every download link the bot hands out.
pub const BASE_URL: &'static str = "https://papermc.io/api/v2/projects/";

/// The accent color of every reply.
pub const COLOR_RED: u8 = 56;

/// The accent color of every reply.
pub const COLOR_GREEN: u8 = 210;

/// The accent color of every reply.
pub const COLOR_BLUE: u8 = 237;

/// The view of an optional string.
pub open spec fn opt_view(o: Option<String>) -> Option<Seq<char>> {
    match o {
        Some(s) => Some(s@),
        None => None,
    }
}

/// Who asked: the display name and, when there is one, an avatar image URL.
pub struct ReplyAuthor {
    pub name: String,
    pub icon_url: Option<String>,
}

/// The mathematical shape of a `ReplyAuthor`.
pub struct ReplyAuthorV {
    pub name: Seq<char>,
    pub icon_url: Option<Seq<char>>,
}

impl View for ReplyAuthor {
    type V = ReplyAuthorV;

    open spec fn view(&self) -> ReplyAuthorV {
        ReplyAuthorV { name: self.name@, icon_url: opt_view(self.icon_url) }
    }
}

impl ReplyAuthor {
    /// Author attribution for a reply: the sender's display name, with the
    /// avatar URL when present and nothing more when absent.
    pub fn new(name: String, icon_url: Option<String>) -> (r: ReplyAuthor)
        ensures
            r@.name == name@,
            r@.icon_url == opt_view(icon_url),
    {
        ReplyAuthor { name, icon_url }
    }
}

/// One labeled field of a reply.
pub struct ReplyField {
    pub label: String,
    pub value: String,
    pub inline: bool,
}

/// The mathematical shape of a `ReplyField`.
pub struct ReplyFieldV {
    pub label: Seq<char>,
    pub value: Seq<char>,
    pub inline: bool,
}

impl View for ReplyField {
    type V = ReplyFieldV;

    open spec fn view(&self) -> ReplyFieldV {
        ReplyFieldV { label: self.label@, value: self.value@, inline: self.inline }
    }
}

impl DeepView for ReplyField {
    type V = ReplyFieldV;

    open spec fn deep_view(&self) -> ReplyFieldV {
        self@
    }
}

/// A fully rendered reply: title, ordered fields, and the optional parts a
/// reply may carry.
pub struct RenderedReply {
    pub title: String,
    pub description: Option<String>,
    pub color: (u8, u8, u8),
    pub author: ReplyAuthor,
    pub fields: Vec<ReplyField>,
    pub link: Option<String>,
    pub footer: Option<String>,
    pub timestamp: String,
}

/// The mathematical shape of a `RenderedReply`.
pub struct RenderedReplyV {
    pub title: Seq<char>,
    pub description: Option<Seq<char>>,
    pub color: (u8, u8, u8),
    pub author: ReplyAuthorV,
    pub fields: Seq<ReplyFieldV>,
    pub link: Option<Seq<char>>,
    pub footer: Option<Seq<char>>,
    pub timestamp: Seq<char>,
}

impl View for RenderedReply {
    type V = RenderedReplyV;

    open spec fn view(&self) -> RenderedReplyV {
        RenderedReplyV {
            title: self.title@,
            description: opt_view(self.description),
            color: self.color,
            author: self.author@,
            fields: self.fields.deep_view(),
            link: opt_view(self.link),
            footer: opt_view(self.footer),
            timestamp: self.timestamp@,
        }
    }
}

/// A collection as displayed: most recent entry first, joined by `", "`,
/// cut to the platform's field size.
pub open spec fn spec_listing(items: Seq<Seq<char>>) -> Seq<char> {
    trunc(join_comma(items.reverse()), 1024)
}

/// The decimal renderings of a sequence of build numbers, in source order.
pub open spec fn int_strs(builds: Seq<i32>) -> Seq<Seq<char>> {
    builds.map_values(|b: i32| int_str(b as int))
}

fn reversed_strings(v: &Vec<String>) -> (r: Vec<String>)
    ensures
        r.deep_view() == v.deep_view().reverse(),
{
    let mut r: Vec<String> = Vec::new();
    let mut i: usize = v.len();
    while i > 0
        invariant
            i <= v.len(),
            r.len() == v.len() - i,
            forall|j: int|
                0 <= j < r.len() ==> r.deep_view()[j] == v.deep_view()[v.len() - 1 - j],
        decreases i,
    {
        let ghost prev = r.deep_view();
        i = i - 1;
        r.push(v[i].clone());
        proof {
            assert forall|j: int|
                0 <= j < r.len() implies r.deep_view()[j] == v.deep_view()[v.len() - 1 - j] by {
                if j < r.len() - 1 {
                    assert(r.deep_view()[j] == prev[j]);
                } else {
                    assert(r@[j]@ == v@[i as int]@);
                }
            }
        }
    }
    proof {
        assert(r.deep_view() =~= v.deep_view().reverse());
    }
    r
}

fn build_strings(v: &Vec<i32>) -> (r: Vec<String>)
    ensures
        r.deep_view() == int_strs(v@),
{
    let mut r: Vec<String> = Vec::new();
    let mut i: usize = 0;
    while i < v.len()
        invariant
            i <= v.len(),
            r.len() == i,
            forall|j: int| 0 <= j < r.len() ==> r.deep_view()[j] == int_str(v@[j] as int),
        decreases v.len() - i,
    {
        let ghost prev = r.deep_view();
        r.push(i32_to_string(v[i]));
        i = i + 1;
        proof {
            assert forall|j: int|
                0 <= j < r.len() implies r.deep_view()[j] == int_str(v@[j] as int) by {
                if j < r.len() - 1 {
                    assert(r.deep_view()[j] == prev[j]);
                }
            }
        }
    }
    proof {
        assert(r.deep_view() =~= int_strs(v@));
    }
    r
}

/// Renders `items` for display: reversed, joined by `", "`, truncated to the
/// platform's field size of 1024 characters.
pub fn listing(items: &Vec<String>) -> (r: String)
    ensures
        r@ == spec_listing(items.deep_view()),
{
    let rev = reversed_strings(items);
    let joined = join_with_comma(&rev);
    let cut = truncate(joined.as_str(), 1024);
    cut.to_owned()
}

/// The reply title for a project.
pub open spec fn spec_project_title(name: Seq<char>) -> Seq<char> {
    "PaperAPI Project "@ + name
}

/// The reply title for a version group.
pub open spec fn spec_group_title(name: Seq<char>, group: Seq<char>) -> Seq<char> {
    "PaperAPI Project "@ + name + " Group "@ + group
}

/// The reply title for a version.
pub open spec fn spec_version_title(name: Seq<char>, version: Seq<char>) -> Seq<char> {
    "PaperAPI Project "@ + name + " Version "@ + version
}

/// The reply title for a single build.
pub open spec fn spec_build_title(name: Seq<char>, version: Seq<char>, build: i32) -> Seq<char> {
    "PaperAPI Project "@ + name + " Version "@ + version + " Build "@ + int_str(build as int)
}

/// Where a build's artifact is downloaded from.
pub open spec fn spec_download_url(
    pid: Seq<char>,
    version: Seq<char>,
    build: i32,
    artifact: Seq<char>,
) -> Seq<char> {
    BASE_URL@ + pid + "/"@ + version + "/builds/"@ + int_str(build as int) + "/downloads/"@
        + artifact
}

/// Builds the download link of a build's artifact from the fixed base URL
/// and the resource path.
pub fn download_url(pid: &str, version: &str, build: i32, artifact: &str) -> (r: String)
    ensures
        r@ == spec_download_url(pid@, version@, build, artifact@),
{
    let mut s = String::from_str(BASE_URL);
    s.append(pid);
    s.append("/");
    s.append(version);
    s.append("/builds/");
    let b = i32_to_string(build);
    s.append(b.as_str());
    s.append("/downloads/");
    s.append(artifact);
    s
}

/// The reply for the full project list: source order, never reversed.
pub open spec fn spec_render_projects(
    p: ProjectListV,
    author: ReplyAuthorV,
    ts: Seq<char>,
) -> RenderedReplyV {
    RenderedReplyV {
        title: "PaperAPI Projects"@,
        description: Some(join_comma(p.projects)),
        color: (COLOR_RED, COLOR_GREEN, COLOR_BLUE),
        author: author,
        fields: Seq::empty(),
        link: None,
        footer: None,
        timestamp: ts,
    }
}

/// Renders the full project list: the names joined by `", "` in the order
/// the catalog sent them.
pub fn render_projects(p: &ProjectList, author: ReplyAuthor, ts: String) -> (r: RenderedReply)
    ensures
        r@ == spec_render_projects(p@, author@, ts@),
{
    let desc = join_with_comma(&p.projects);
    let r = RenderedReply {
        title: String::from_str("PaperAPI Projects"),
        description: Some(desc),
        color: (COLOR_RED, COLOR_GREEN, COLOR_BLUE),
        author,
        fields: Vec::new(),
        link: None,
        footer: None,
        timestamp: ts,
    };
    proof {
        assert(r@.fields =~= Seq::<ReplyFieldV>::empty());
    }
    r
}

/// The reply for one project: its id, then its groups and versions, each
/// most recent first.
pub open spec fn spec_render_project(
    p: ProjectDetailV,
    author: ReplyAuthorV,
    ts: Seq<char>,
) -> RenderedReplyV {
    RenderedReplyV {
        title: spec_project_title(p.project_name),
        description: None,
        color: (COLOR_RED, COLOR_GREEN, COLOR_BLUE),
        author: author,
        fields: seq![
            ReplyFieldV { label: "Project ID"@, value: p.project_id, inline: true },
            ReplyFieldV {
                label: "Project Groups"@,
                value: spec_listing(p.version_groups),
                inline: false,
            },
            ReplyFieldV {
                label: "Project Versions"@,
                value: spec_listing(p.versions),
                inline: false,
            },
        ],
        link: None,
        footer: None,
        timestamp: ts,
    }
}

/// Renders one project's reply.
pub fn render_project(p: &ProjectDetail, author: ReplyAuthor, ts: String) -> (r: RenderedReply)
    ensures
        r@ == spec_render_project(p@, author@, ts@),
{
    let mut title = String::from_str("PaperAPI Project ");
    title.append(p.project_name.as_str());
    let mut fields: Vec<ReplyField> = Vec::new();
    fields.push(
        ReplyField {
            label: String::from_str("Project ID"),
            value: p.project_id.clone(),
            inline: true,
        },
    );
    fields.push(
        ReplyField {
            label: String::from_str("Project Groups"),
            value: listing(&p.version_groups),
            inline: false,
        },
    );
    fields.push(
        ReplyField {
            label: String::from_str("Project Versions"),
            value: listing(&p.versions),
            inline: false,
        },
    );
    let r = RenderedReply {
        title,
        description: None,
        color: (COLOR_RED, COLOR_GREEN, COLOR_BLUE),
        author,
        fields,
        link: None,
        footer: None,
        timestamp: ts,
    };
    proof {
        assert(r@.fields =~= spec_render_project(p@, author@, ts@).fields);
    }
    r
}

/// The reply for one version group: its project's id and its versions,
/// most recent first.
pub open spec fn spec_render_group(
    g: VersionGroupDetailV,
    author: ReplyAuthorV,
    ts: Seq<char>,
) -> RenderedReplyV {
    RenderedReplyV {
        title: spec_group_title(g.project_name, g.version_group),
        description: None,
        color: (COLOR_RED, COLOR_GREEN, COLOR_BLUE),
        author: author,
        fields: seq![
            ReplyFieldV { label: "Project ID"@, value: g.project_id, inline: true },
            ReplyFieldV {
                label: "Project Versions"@,
                value: spec_listing(g.versions),
                inline: false,
            },
        ],
        link: None,
        footer: None,
        timestamp: ts,
    }
}

/// Renders one version group's reply.
pub fn render_group(g: &VersionGroupDetail, author: ReplyAuthor, ts: String) -> (r: RenderedReply)
    ensures
        r@ == spec_render_group(g@, author@, ts@),
{
    let mut title = String::from_str("PaperAPI Project ");
    title.append(g.project_name.as_str());
    title.append(" Group ");
    title.append(g.version_group.as_str());
    let mut fields: Vec<ReplyField> = Vec::new();
    fields.push(
        ReplyField {
            label: String::from_str("Project ID"),
            value: g.project_id.clone(),
            inline: true,
        },
    );
    fields.push(
        ReplyField {
            label: String::from_str("Project Versions"),
            value: listing(&g.versions),
            inline: false,
        },
    );
    let r = RenderedReply {
        title,
        description: None,
        color: (COLOR_RED, COLOR_GREEN, COLOR_BLUE),
        author,
        fields,
        link: None,
        footer: None,
        timestamp: ts,
    };
    proof {
        assert(r@.fields =~= spec_render_group(g@, author@, ts@).fields);
    }
    r
}

/// The decimal renderings of build numbers as displayed: most recent first,
/// joined by `", "`, cut to the platform's field size.
pub open spec fn spec_builds_listing(builds: Seq<i32>) -> Seq<char> {
    trunc(join_comma(int_strs(builds).reverse()), 1024)
}

/// Renders build numbers for display: decimal, most recent first, joined by
/// `", "`, truncated to 1024 characters.
pub fn builds_listing(v: &Vec<i32>) -> (r: String)
    ensures
        r@ == spec_builds_listing(v@),
{
    let bs = build_strings(v);
    let rev = reversed_strings(&bs);
    let joined = join_with_comma(&rev);
    truncate(joined.as_str(), 1024).to_owned()
}

/// The reply for a version group's builds: the group reply plus the build
/// numbers, most recent first.
pub open spec fn spec_render_group_builds(
    g: VersionGroupBuildsV,
    author: ReplyAuthorV,
    ts: Seq<char>,
) -> RenderedReplyV {
    RenderedReplyV {
        title: spec_group_title(g.project_name, g.version_group),
        description: None,
        color: (COLOR_RED, COLOR_GREEN, COLOR_BLUE),
        author: author,
        fields: seq![
            ReplyFieldV { label: "Project ID"@, value: g.project_id, inline: true },
            ReplyFieldV {
                label: "Project Versions"@,
                value: spec_listing(g.versions),
                inline: false,
            },
            ReplyFieldV {
                label: "Project Version Group Builds"@,
                value: spec_builds_listing(g.builds),
                inline: false,
            },
        ],
        link: None,
        footer: None,
        timestamp: ts,
    }
}

/// Renders the builds of one version group.
pub fn render_group_builds(
    g: &VersionGroupBuilds,
    author: ReplyAuthor,
    ts: String,
) -> (r: RenderedReply)
    ensures
        r@ == spec_render_group_builds(g@, author@, ts@),
{
    let mut title = String::from_str("PaperAPI Project ");
    title.append(g.project_name.as_str());
    title.append(" Group ");
    title.append(g.version_group.as_str());
    let mut fields: Vec<ReplyField> = Vec::new();
    fields.push(
        ReplyField {
            label: String::from_str("Project ID"),
            value: g.project_id.clone(),
            inline: true,
        },
    );
    fields.push(
        ReplyField {
            label: String::from_str("Project Versions"),
            value: listing(&g.versions),
            inline: false,
        },
    );
    fields.push(
        ReplyField {
            label: String::from_str("Project Version Group Builds"),
            value: builds_listing(&g.builds),
            inline: false,
        },
    );
    let r = RenderedReply {
        title,
        description: None,
        color: (COLOR_RED, COLOR_GREEN, COLOR_BLUE),
        author,
        fields,
        link: None,
        footer: None,
        timestamp: ts,
    };
    proof {
        assert(r@.fields =~= spec_render_group_builds(g@, author@, ts@).fields);
    }
    r
}

/// The reply for one version: its project's id and its build numbers, most
/// recent first.
pub open spec fn spec_render_version(
    v: VersionDetailV,
    author: ReplyAuthorV,
    ts: Seq<char>,
) -> RenderedReplyV {
    RenderedReplyV {
        title: spec_version_title(v.project_name, v.version),
        description: None,
        color: (COLOR_RED, COLOR_GREEN, COLOR_BLUE),
        author: author,
        fields: seq![
            ReplyFieldV { label: "Project ID"@, value: v.project_id, inline: true },
            ReplyFieldV {
                label: "Project Version Builds"@,
                value: spec_builds_listing(v.builds),
                inline: false,
            },
        ],
        link: None,
        footer: None,
        timestamp: ts,
    }
}

/// Renders one version's reply.
pub fn render_version(v: &VersionDetail, author: ReplyAuthor, ts: String) -> (r: RenderedReply)
    ensures
        r@ == spec_render_version(v@, author@, ts@),
{
    let mut title = String::from_str("PaperAPI Project ");
    title.append(v.project_name.as_str());
    title.append(" Version ");
    title.append(v.version.as_str());
    let mut fields: Vec<ReplyField> = Vec::new();
    fields.push(
        ReplyField {
            label: String::from_str("Project ID"),
            value: v.project_id.clone(),
            inline: true,
        },
    );
    fields.push(
        ReplyField {
            label: String::from_str("Project Version Builds"),
            value: builds_listing(&v.builds),
            inline: false,
        },
    );
    let r = RenderedReply {
        title,
        description: None,
        color: (COLOR_RED, COLOR_GREEN, COLOR_BLUE),
        author,
        fields,
        link: None,
        footer: None,
        timestamp: ts,
    };
    proof {
        assert(r@.fields =~= spec_render_version(v@, author@, ts@).fields);
    }
    r
}

/// How one change is shown: its hash cut to 10 characters in the label, its
/// summary cut to the field size in the value.
pub open spec fn spec_change_field(c: ChangeV) -> ReplyFieldV {
    ReplyFieldV {
        label: "Commit "@ + trunc(c.commit, 10),
        value: trunc(c.summary, 1024),
        inline: false,
    }
}

/// How many changes a build reply shows: all of them, but never more than
/// the platform's field-count limit of 23.
pub open spec fn spec_change_count(n: nat) -> nat {
    if n <= 23 {
        n
    } else {
        23
    }
}

/// The change fields of a build reply: the first 23 changes at most, in
/// their original order.
pub open spec fn spec_change_fields(changes: Seq<ChangeV>) -> Seq<ReplyFieldV> {
    Seq::new(spec_change_count(changes.len()), |i: int| spec_change_field(changes[i]))
}

fn change_fields(changes: &Vec<Change>) -> (r: Vec<ReplyField>)
    ensures
        r.deep_view() == spec_change_fields(changes.deep_view()),
{
    let cap: usize = if changes.len() < 23 {
        changes.len()
    } else {
        23
    };
    let mut r: Vec<ReplyField> = Vec::new();
    let mut i: usize = 0;
    while i < cap
        invariant
            cap == spec_change_count(changes.deep_view().len()),
            cap <= changes.len(),
            i <= cap,
            r.len() == i,
            forall|j: int|
                0 <= j < i ==> r.deep_view()[j] == spec_change_field(changes.deep_view()[j]),
        decreases cap - i,
    {
        let ghost prev = r.deep_view();
        let mut label = String::from_str("Commit ");
        label.append(truncate(changes[i].commit.as_str(), 10));
        let value = truncate(changes[i].summary.as_str(), 1024).to_owned();
        r.push(ReplyField { label, value, inline: false });
        i = i + 1;
        proof {
            assert forall|j: int|
                0 <= j < i implies r.deep_view()[j] == spec_change_field(
                changes.deep_view()[j],
            ) by {
                if j < i - 1 {
                    assert(r.deep_view()[j] == prev[j]);
                } else {
                    assert(changes.deep_view()[j] == changes@[j]@);
                }
            }
        }
    }
    proof {
        assert(r.deep_view() =~= spec_change_fields(changes.deep_view()));
    }
    r
}

/// The reply for one build: id and time, a download link with a fixed
/// footer, and the build's changes, capped to the first 23.
pub open spec fn spec_render_build(
    b: BuildDetailV,
    author: ReplyAuthorV,
    ts: Seq<char>,
) -> RenderedReplyV {
    RenderedReplyV {
        title: spec_build_title(b.project_name, b.version, b.build),
        description: None,
        color: (COLOR_RED, COLOR_GREEN, COLOR_BLUE),
        author: author,
        fields: seq![
            ReplyFieldV { label: "Project ID"@, value: b.project_id, inline: true },
            ReplyFieldV { label: "Time"@, value: b.time, inline: true },
        ] + spec_change_fields(b.changes),
        link: Some(spec_download_url(b.project_id, b.version, b.build, b.artifact_name)),
        footer: Some("Click to download!"@),
        timestamp: ts,
    }
}

/// Renders one build's reply.
pub fn render_build(b: &BuildDetail, author: ReplyAuthor, ts: String) -> (r: RenderedReply)
    ensures
        r@ == spec_render_build(b@, author@, ts@),
{
    let mut title = String::from_str("PaperAPI Project ");
    title.append(b.project_name.as_str());
    title.append(" Version ");
    title.append(b.version.as_str());
    title.append(" Build ");
    let bn = i32_to_string(b.build);
    title.append(bn.as_str());
    let mut fields: Vec<ReplyField> = Vec::new();
    fields.push(
        ReplyField {
            label: String::from_str("Project ID"),
            value: b.project_id.clone(),
            inline: true,
        },
    );
    fields.push(
        ReplyField { label: String::from_str("Time"), value: b.time.clone(), inline: true },
    );
    let mut changes = change_fields(&b.changes);
    fields.append(&mut changes);
    let link = download_url(
        b.project_id.as_str(),
        b.version.as_str(),
        b.build,
        b.artifact_name.as_str(),
    );
    let r = RenderedReply {
        title,
        description: None,
        color: (COLOR_RED, COLOR_GREEN, COLOR_BLUE),
        author,
        fields,
        link: Some(link),
        footer: Some(String::from_str("Click to download!")),
        timestamp: ts,
    };
    proof {
        assert(r@.fields =~= spec_render_build(b@, author@, ts@).fields);
    }
    r
}

/// The fixed not-found reply for each request shape, with the identifiers
/// the user supplied interpolated verbatim.
pub open spec fn spec_not_found(c: CommandView) -> Seq<char> {
    match c {
        CommandView::ListProjects => "Could not find projects"@,
        CommandView::ProjectInfo { name } => "Could not find project "@ + name,
        CommandView::GroupInfo { project, group } => "Could not find project groups (Project: "@
            + project + ", Version Group: "@ + group + ")"@,
        CommandView::GroupBuilds { project, group } => "Could not find builds (Project: "@
            + project + ", Version Group: "@ + group + ")"@,
        CommandView::VersionInfo { project, version } => (
        "Could not find project version (Project: "@ + project + ", Version: "@ + version
            + ")"@),
        CommandView::BuildInfo { project, version, build } => (
        "Could not find project version build (Project: "@ + project + ", Version: "@ + version
            + ", Build: "@ + int_str(build as int) + ")"@),
    }
}

/// The not-found message for a request whose lookup found nothing or whose
/// remote call failed.
pub fn not_found_message(c: &ParsedCommand) -> (r: String)
    ensures
        r@ == spec_not_found(c@),
{
    match c {
        ParsedCommand::ListProjects => String::from_str("Could not find projects"),
        ParsedCommand::ProjectInfo { name } => {
            let mut s = String::from_str("Could not find project ");
            s.append(name.as_str());
            s
        },
        ParsedCommand::GroupInfo { project, group } => {
            let mut s = String::from_str("Could not find project groups (Project: ");
            s.append(project.as_str());
            s.append(", Version Group: ");
            s.append(group.as_str());
            s.append(")");
            s
        },
        ParsedCommand::GroupBuilds { project, group } => {
            let mut s = String::from_str("Could not find builds (Project: ");
            s.append(project.as_str());
            s.append(", Version Group: ");
            s.append(group.as_str());
            s.append(")");
            s
        },
        ParsedCommand::VersionInfo { project, version } => {
            let mut s = String::from_str("Could not find project version (Project: ");
            s.append(project.as_str());
            s.append(", Version: ");
            s.append(version.as_str());
            s.append(")");
            s
        },
        ParsedCommand::BuildInfo { project, version, build } => {
            let mut s = String::from_str("Could not find project version build (Project: ");
            s.append(project.as_str());
            s.append(", Version: ");
            s.append(version.as_str());
            s.append(", Build: ");
            let bn = i32_to_string(*build);
            s.append(bn.as_str());
            s.append(")");
            s
        },
    }
}

/// Reversing for display is its own inverse: reversing a rendered list a
/// second time reproduces the fetched order. The project list is never
/// reversed at all, as `spec_render_projects` states.
pub proof fn lemma_display_reverse_round_trip(items: Seq<Seq<char>>)
    ensures
        items.reverse().reverse() == items,
{
    assert(items.reverse().reverse() =~= items);
}

/// A build reply shows at most 23 changes, whatever the lookup returned:
/// with the two fixed fields first, the reply holds exactly the first
/// `min(n, 23)` changes, in their original order.
pub proof fn lemma_build_changes_capped(b: BuildDetailV, author: ReplyAuthorV, ts: Seq<char>)
    ensures
        spec_render_build(b, author, ts).fields.len() <= 2 + 23,
        spec_render_build(b, author, ts).fields.len() == 2 + spec_change_count(b.changes.len()),
        forall|j: int|
            0 <= j < spec_change_count(b.changes.len()) ==> spec_render_build(
                b,
                author,
                ts,
            ).fields[2 + j] == spec_change_field(b.changes[j]),
{
}

} // verus!
