//! Dispatcher: receives an inbound message, rejects non-human senders,
//! routes the text, and turns a lookup's outcome into the reply to send.
use vstd::prelude::*;
use crate::catalog::{
    ProjectList, ProjectListV, ProjectDetail, ProjectDetailV, VersionGroupDetail,
    VersionGroupDetailV, VersionGroupBuilds, VersionGroupBuildsV, VersionDetail, VersionDetailV,
    BuildDetail, BuildDetailV,
};
use crate::render::{
    ReplyAuthor, RenderedReply, RenderedReplyV, not_found_message, spec_not_found,
    render_projects, render_project, render_group, render_group_builds, render_version,
    render_build, spec_render_projects, spec_render_project, spec_render_group,
    spec_render_group_builds, spec_render_version, spec_render_build,
};
use crate::router::{route, spec_route, ParsedCommand, CommandView, RouteOutcome, RouteView};

verus! {

/// The fixed reply to a message from a non-human sender.
pub const BOT_REJECTION: &'static str = "Cannot respond to bots.";

/// The bot's one command group: every verb it serves is dispatched through
/// here, one stateless request/response cycle per inbound message.
pub struct General;

/// What the dispatcher decides to do with one inbound message.
pub enum Action {
    Ignore,
    Reply(String),
    Lookup(ParsedCommand),
}

/// The mathematical shape of an `Action`.
pub enum ActionV {
    Ignore,
    Reply(Seq<char>),
    Lookup(CommandView),
}

impl View for Action {
    type V = ActionV;

    open spec fn view(&self) -> ActionV {
        match self {
            Action::Ignore => ActionV::Ignore,
            Action::Reply(m) => ActionV::Reply(m@),
            Action::Lookup(c) => ActionV::Lookup(c@),
        }
    }
}

/// A catalog lookup's outcome as the renderer sees it: the fetched record,
/// or one opaque signal for "not found or the remote call failed".
pub enum CatalogResult {
    Projects(ProjectList),
    Project(ProjectDetail),
    Group(VersionGroupDetail),
    GroupBuilds(VersionGroupBuilds),
    Version(VersionDetail),
    Build(BuildDetail),
    NotFound,
}

/// The mathematical shape of a `CatalogResult`.
pub enum CatalogResultV {
    Projects(ProjectListV),
    Project(ProjectDetailV),
    Group(VersionGroupDetailV),
    GroupBuilds(VersionGroupBuildsV),
    Version(VersionDetailV),
    Build(BuildDetailV),
    NotFound,
}

impl View for CatalogResult {
    type V = CatalogResultV;

    open spec fn view(&self) -> CatalogResultV {
        match self {
            CatalogResult::Projects(p) => CatalogResultV::Projects(p@),
            CatalogResult::Project(p) => CatalogResultV::Project(p@),
            CatalogResult::Group(g) => CatalogResultV::Group(g@),
            CatalogResult::GroupBuilds(g) => CatalogResultV::GroupBuilds(g@),
            CatalogResult::Version(v) => CatalogResultV::Version(v@),
            CatalogResult::Build(b) => CatalogResultV::Build(b@),
            CatalogResult::NotFound => CatalogResultV::NotFound,
        }
    }
}

/// The outbound reply: plain text, or a structured payload.
pub enum Reply {
    Text(String),
    Embed(RenderedReply),
}

/// The mathematical shape of a `Reply`.
pub enum ReplyV {
    Text(Seq<char>),
    Embed(RenderedReplyV),
}

impl View for Reply {
    type V = ReplyV;

    open spec fn view(&self) -> ReplyV {
        match self {
            Reply::Text(m) => ReplyV::Text(m@),
            Reply::Embed(e) => ReplyV::Embed(e@),
        }
    }
}

/// Whether a lookup outcome is one the request could have produced: the
/// failure signal fits every request; a record fits the request that asks
/// for its kind.
pub open spec fn result_matches(c: CommandView, r: CatalogResultV) -> bool {
    match r {
        CatalogResultV::NotFound => true,
        CatalogResultV::Projects(_) => c is ListProjects,
        CatalogResultV::Project(_) => c is ProjectInfo,
        CatalogResultV::Group(_) => c is GroupInfo,
        CatalogResultV::GroupBuilds(_) => c is GroupBuilds,
        CatalogResultV::Version(_) => c is VersionInfo,
        CatalogResultV::Build(_) => c is BuildInfo,
    }
}

impl General {
    /// Decides what to do with an inbound message. A non-human sender gets
    /// the fixed rejection and nothing is looked up; otherwise the line is
    /// routed: not a command is ignored, a malformed command gets its verb's
    /// usage message, a complete one asks for the matching lookup.
    pub fn plan_message(author_is_bot: bool, content: &str) -> (r: Action)
        ensures
            author_is_bot ==> r@ == ActionV::Reply(BOT_REJECTION@),
            !author_is_bot ==> r@ == (match spec_route(content@) {
                RouteView::NotACommand => ActionV::Ignore,
                RouteView::Usage(m) => ActionV::Reply(m),
                RouteView::Cmd(c) => ActionV::Lookup(c),
            }),
    {
        if author_is_bot {
            return Action::Reply(String::from_str(BOT_REJECTION));
        }
        match route(content) {
            RouteOutcome::NotACommand => Action::Ignore,
            RouteOutcome::Usage(m) => Action::Reply(m),
            RouteOutcome::Cmd(c) => Action::Lookup(c),
        }
    }

    /// Turns a lookup's outcome into the reply to send: the record's full
    /// rendering on success, the request's fixed not-found message when the
    /// lookup found nothing or the remote call failed.
    pub fn reply_for(
        cmd: &ParsedCommand,
        res: &CatalogResult,
        author: ReplyAuthor,
        ts: String,
    ) -> (r: Reply)
        requires
            result_matches(cmd@, res@),
        ensures
            r@ == (match res@ {
                CatalogResultV::NotFound => ReplyV::Text(spec_not_found(cmd@)),
                CatalogResultV::Projects(p) => ReplyV::Embed(
                    spec_render_projects(p, author@, ts@),
                ),
                CatalogResultV::Project(p) => ReplyV::Embed(spec_render_project(p, author@, ts@)),
                CatalogResultV::Group(g) => ReplyV::Embed(spec_render_group(g, author@, ts@)),
                CatalogResultV::GroupBuilds(g) => ReplyV::Embed(
                    spec_render_group_builds(g, author@, ts@),
                ),
                CatalogResultV::Version(v) => ReplyV::Embed(spec_render_version(v, author@, ts@)),
                CatalogResultV::Build(b) => ReplyV::Embed(spec_render_build(b, author@, ts@)),
            }),
    {
        match res {
            CatalogResult::NotFound => Reply::Text(not_found_message(cmd)),
            CatalogResult::Projects(p) => Reply::Embed(render_projects(p, author, ts)),
            CatalogResult::Project(p) => Reply::Embed(render_project(p, author, ts)),
            CatalogResult::Group(g) => Reply::Embed(render_group(g, author, ts)),
            CatalogResult::GroupBuilds(g) => Reply::Embed(render_group_builds(g, author, ts)),
            CatalogResult::Version(v) => Reply::Embed(render_version(v, author, ts)),
            CatalogResult::Build(b) => Reply::Embed(render_build(b, author, ts)),
        }
    }

    /// As `reply_for`, but stamped with the render-time clock: apart from
    /// the timestamp, which only the clock decides, the reply is exactly
    /// what the lookup outcome dictates.
    pub fn reply_for_now(
        cmd: &ParsedCommand,
        res: &CatalogResult,
        author: ReplyAuthor,
    ) -> (r: Reply)
        requires
            result_matches(cmd@, res@),
        ensures
            res@ is NotFound ==> r@ == ReplyV::Text(spec_not_found(cmd@)),
            (match res@ {
                CatalogResultV::NotFound => true,
                CatalogResultV::Projects(p) => r@ matches ReplyV::Embed(e) && e
                    == spec_render_projects(p, author@, e.timestamp),
                CatalogResultV::Project(p) => r@ matches ReplyV::Embed(e) && e
                    == spec_render_project(p, author@, e.timestamp),
                CatalogResultV::Group(g) => r@ matches ReplyV::Embed(e) && e == spec_render_group(
                    g,
                    author@,
                    e.timestamp,
                ),
                CatalogResultV::GroupBuilds(g) => r@ matches ReplyV::Embed(e) && e
                    == spec_render_group_builds(g, author@, e.timestamp),
                CatalogResultV::Version(v) => r@ matches ReplyV::Embed(e) && e
                    == spec_render_version(v, author@, e.timestamp),
                CatalogResultV::Build(b) => r@ matches ReplyV::Embed(e) && e == spec_render_build(
                    b,
                    author@,
                    e.timestamp,
                ),
            }),
    {
        let ts = crate::clock::timestamp();
        General::reply_for(cmd, res, author, ts)
    }
}

} // verus!
