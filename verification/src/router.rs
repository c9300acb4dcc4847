//! Command router: splits an incoming line into whitespace-separated tokens,
//! recognizes the verbs, and builds a typed request or the verb's fixed
//! usage message.
use vstd::prelude::*;
use crate::text::{is_digit, digit_val};

verus! {

/// The usage hint for `project`.
pub const PROJECT_USAGE: &'static str =
    "Did not understand request. Please use `>project <project name>`";

/// The usage hint for `project groups`.
pub const GROUPS_USAGE: &'static str =
    "Did not understand request. Please use `>project groups <project name> <version group>`";

/// The usage hint for `project builds`.
pub const BUILDS_USAGE: &'static str =
    "Did not understand request. Please use `>project builds <project name> <version group>`";

/// The usage hint for `project version`.
pub const VERSION_USAGE: &'static str =
    "Did not understand request. Please use `>project version <project name> <version>`";

/// The usage hint for `project build`.
pub const BUILD_USAGE: &'static str =
    "Did not understand request. Please use `>project build <project name> <version> <build>`";

/// Whether `c` separates tokens.
pub open spec fn is_ws(c: char) -> bool {
    c == ' ' || c == '\t' || c == '\r' || c == '\n'
}

fn is_ws_char(c: char) -> (r: bool)
    ensures
        r == is_ws(c),
{
    c == ' ' || c == '\t' || c == '\r' || c == '\n'
}

/// The maximal runs of non-whitespace characters of `s`, in order.
pub open spec fn split_ws(s: Seq<char>) -> Seq<Seq<char>>
    decreases s.len(),
{
    if s.len() == 0 {
        Seq::empty()
    } else if is_ws(s.first()) {
        split_ws(s.drop_first())
    } else if s.len() == 1 || is_ws(s[1]) {
        seq![seq![s.first()]] + split_ws(s.drop_first())
    } else {
        let r = split_ws(s.drop_first());
        seq![seq![s.first()] + r.first()] + r.drop_first()
    }
}

proof fn lemma_split_ws_nonempty(s: Seq<char>)
    requires
        s.len() > 0,
        !is_ws(s.first()),
    ensures
        split_ws(s).len() > 0,
    decreases s.len(),
{
    if s.len() > 1 && !is_ws(s[1]) {
        lemma_split_ws_nonempty(s.drop_first());
    }
}

/// Splits `s` on whitespace into its tokens; runs of separators count once
/// and empty tokens never appear.
pub fn tokenize(s: &str) -> (r: Vec<String>)
    ensures
        r@.len() == split_ws(s@).len(),
        forall|i: int| 0 <= i < r@.len() ==> r@[i]@ == split_ws(s@)[i],
    decreases s@.len(),
{
    let n = s.unicode_len();
    if n == 0 {
        Vec::new()
    } else {
        let c = s.get_char(0);
        let rest = s.substring_char(1, n);
        proof {
            assert(rest@ =~= s@.drop_first());
        }
        if is_ws_char(c) {
            tokenize(rest)
        } else {
            let mut r = tokenize(rest);
            let ghost rs = split_ws(s@.drop_first());
            let head = String::from_str(s.substring_char(0, 1));
            proof {
                assert(head@ =~= seq![s@.first()]);
            }
            if n == 1 || is_ws_char(s.get_char(1)) {
                let ghost old_r = r@;
                r.insert(0, head);
                proof {
                    let t = split_ws(s@);
                    assert(t =~= seq![seq![s@.first()]] + rs);
                    assert(r@ =~= seq![head] + old_r);
                    assert forall|i: int| 0 <= i < r@.len() implies r@[i]@ == t[i] by {
                        if i > 0 {
                            assert(r@[i] == old_r[i - 1]);
                            assert(t[i] == rs[i - 1]);
                        }
                    }
                }
            } else {
                proof {
                    assert(s@.drop_first().first() == s@[1]);
                    lemma_split_ws_nonempty(s@.drop_first());
                }
                let mut tok = head;
                tok.append(r[0].as_str());
                r.set(0, tok);
                proof {
                    let t = split_ws(s@);
                    assert(t =~= seq![seq![s@.first()] + rs.first()] + rs.drop_first());
                    assert forall|i: int| 0 <= i < r@.len() implies r@[i]@ == t[i] by {
                        if i > 0 {
                            assert(t[i] == rs.drop_first()[i - 1]);
                            assert(rs.drop_first()[i - 1] == rs[i]);
                        }
                    }
                }
            }
            r
        }
    }
}

/// Whether every character of `s` is a decimal digit.
pub open spec fn all_digits(s: Seq<char>) -> bool {
    forall|i: int| 0 <= i < s.len() ==> is_digit(s[i])
}

/// The value of a digit string, read left to right.
pub open spec fn digits_val(s: Seq<char>) -> nat
    decreases s.len(),
{
    if s.len() == 0 {
        0
    } else {
        digits_val(s.drop_last()) * 10 + digit_val(s.last())
    }
}

/// Whether the integer token `s` starts with a minus sign.
pub open spec fn int_token_neg(s: Seq<char>) -> bool {
    s.len() > 0 && s[0] == '-'
}

/// The digits of the integer token `s`, after any single leading sign.
pub open spec fn int_token_body(s: Seq<char>) -> Seq<char> {
    if s.len() > 0 && (s[0] == '+' || s[0] == '-') {
        s.drop_first()
    } else {
        s
    }
}

/// Whether `s` is a decimal integer that fits a 32-bit signed integer: an
/// optional sign, then at least one digit, with the value in range.
pub open spec fn valid_i32_token(s: Seq<char>) -> bool {
    let b = int_token_body(s);
    &&& b.len() > 0
    &&& all_digits(b)
    &&& if int_token_neg(s) {
        digits_val(b) <= 0x8000_0000
    } else {
        digits_val(b) <= 0x7fff_ffff
    }
}

/// The signed value of a valid integer token.
pub open spec fn i32_token_val(s: Seq<char>) -> int {
    if int_token_neg(s) {
        -(digits_val(int_token_body(s)) as int)
    } else {
        digits_val(int_token_body(s)) as int
    }
}

/// The 32-bit signed integer denoted by `s`, if `s` is one.
pub open spec fn spec_parse_i32(s: Seq<char>) -> Option<i32> {
    if valid_i32_token(s) {
        Some(i32_token_val(s) as i32)
    } else {
        None
    }
}

proof fn lemma_digits_val_mono(b: Seq<char>, j: int)
    requires
        0 <= j <= b.len(),
    ensures
        digits_val(b) >= digits_val(b.take(j)),
    decreases b.len(),
{
    if j < b.len() {
        lemma_digits_val_mono(b.drop_last(), j);
        assert(b.drop_last().take(j) =~= b.take(j));
    } else {
        assert(b.take(j) =~= b);
    }
}

/// Parses `s` as a 32-bit signed integer: an optional `+` or `-` sign, then
/// one or more decimal digits. Non-numeric or out-of-range input gives
/// `None`, never a default.
pub fn parse_i32(s: &str) -> (r: Option<i32>)
    ensures
        r == spec_parse_i32(s@),
{
    let n = s.unicode_len();
    if n == 0 {
        return None;
    }
    let c0 = s.get_char(0);
    let neg = c0 == '-';
    let start: usize = if c0 == '-' || c0 == '+' {
        1
    } else {
        0
    };
    let ghost body = int_token_body(s@);
    proof {
        assert(body =~= s@.subrange(start as int, n as int));
    }
    if start == n {
        return None;
    }
    let bound: u64 = if neg {
        0x8000_0000
    } else {
        0x7fff_ffff
    };
    let mut acc: u64 = 0;
    let mut i: usize = start;
    while i < n
        invariant
            start <= i <= n,
            n == s@.len(),
            body == s@.subrange(start as int, n as int),
            body == int_token_body(s@),
            neg == int_token_neg(s@),
            acc == digits_val(s@.subrange(start as int, i as int)),
            all_digits(s@.subrange(start as int, i as int)),
            acc <= bound,
            bound == if neg {
                0x8000_0000u64
            } else {
                0x7fff_ffffu64
            },
        decreases n - i,
    {
        let c = s.get_char(i);
        if !('0' <= c && c <= '9') {
            proof {
                assert(body[i - start] == s@[i as int]);
                assert(!is_digit(body[i - start]));
                assert(!all_digits(body));
            }
            return None;
        }
        let d: u64 = (c as u32 as u64) - 48;
        let next: u64 = acc * 10 + d;
        proof {
            assert(d == digit_val(c));
            assert(s@.subrange(start as int, i + 1).drop_last() =~= s@.subrange(
                start as int,
                i as int,
            ));
            assert(s@.subrange(start as int, i + 1).last() == s@[i as int]);
            assert(digits_val(s@.subrange(start as int, i + 1)) == acc * 10 + d);
        }
        if next > bound {
            proof {
                assert(body.take(i + 1 - start) =~= s@.subrange(start as int, i + 1));
                lemma_digits_val_mono(body, i + 1 - start);
                assert(digits_val(body) > bound);
                assert(!valid_i32_token(s@));
            }
            return None;
        }
        acc = next;
        i = i + 1;
    }
    proof {
        assert(s@.subrange(start as int, n as int) =~= body);
        assert(valid_i32_token(s@));
    }
    if neg {
        let v: i64 = -(acc as i64);
        Some(v as i32)
    } else {
        Some(acc as i32)
    }
}

/// A recognized command, with its arguments.
pub enum ParsedCommand {
    ListProjects,
    ProjectInfo { name: String },
    GroupInfo { project: String, group: String },
    GroupBuilds { project: String, group: String },
    VersionInfo { project: String, version: String },
    BuildInfo { project: String, version: String, build: i32 },
}

/// The mathematical shape of a `ParsedCommand`.
pub enum CommandView {
    ListProjects,
    ProjectInfo { name: Seq<char> },
    GroupInfo { project: Seq<char>, group: Seq<char> },
    GroupBuilds { project: Seq<char>, group: Seq<char> },
    VersionInfo { project: Seq<char>, version: Seq<char> },
    BuildInfo { project: Seq<char>, version: Seq<char>, build: i32 },
}

impl View for ParsedCommand {
    type V = CommandView;

    open spec fn view(&self) -> CommandView {
        match self {
            ParsedCommand::ListProjects => CommandView::ListProjects,
            ParsedCommand::ProjectInfo { name } => CommandView::ProjectInfo { name: name@ },
            ParsedCommand::GroupInfo { project, group } => CommandView::GroupInfo {
                project: project@,
                group: group@,
            },
            ParsedCommand::GroupBuilds { project, group } => CommandView::GroupBuilds {
                project: project@,
                group: group@,
            },
            ParsedCommand::VersionInfo { project, version } => CommandView::VersionInfo {
                project: project@,
                version: version@,
            },
            ParsedCommand::BuildInfo { project, version, build } => CommandView::BuildInfo {
                project: project@,
                version: version@,
                build: *build,
            },
        }
    }
}

/// What the router makes of a line: not a command at all, a recognized verb
/// with malformed arguments, or a complete request.
pub enum RouteOutcome {
    NotACommand,
    Usage(String),
    Cmd(ParsedCommand),
}

/// The mathematical shape of a `RouteOutcome`.
pub enum RouteView {
    NotACommand,
    Usage(Seq<char>),
    Cmd(CommandView),
}

impl View for RouteOutcome {
    type V = RouteView;

    open spec fn view(&self) -> RouteView {
        match self {
            RouteOutcome::NotACommand => RouteView::NotACommand,
            RouteOutcome::Usage(m) => RouteView::Usage(m@),
            RouteOutcome::Cmd(c) => RouteView::Cmd(c@),
        }
    }
}

/// What the token list after the prefix routes to: `projects` takes no
/// arguments and ignores trailing tokens; `project` takes one name unless one
/// of its sub-verbs follows; each sub-verb takes two string arguments,
/// `build` a third that must be a 32-bit integer. A missing token, or for
/// `build` an unparsable number, gives the verb's fixed usage message.
pub open spec fn spec_route_tokens(t: Seq<Seq<char>>) -> RouteView {
    if t.len() == 0 {
        RouteView::NotACommand
    } else if t[0] == "projects"@ {
        RouteView::Cmd(CommandView::ListProjects)
    } else if t[0] != "project"@ {
        RouteView::NotACommand
    } else if t.len() < 2 {
        RouteView::Usage(PROJECT_USAGE@)
    } else if t[1] == "groups"@ {
        if t.len() < 4 {
            RouteView::Usage(GROUPS_USAGE@)
        } else {
            RouteView::Cmd(CommandView::GroupInfo { project: t[2], group: t[3] })
        }
    } else if t[1] == "builds"@ {
        if t.len() < 4 {
            RouteView::Usage(BUILDS_USAGE@)
        } else {
            RouteView::Cmd(CommandView::GroupBuilds { project: t[2], group: t[3] })
        }
    } else if t[1] == "version"@ {
        if t.len() < 4 {
            RouteView::Usage(VERSION_USAGE@)
        } else {
            RouteView::Cmd(CommandView::VersionInfo { project: t[2], version: t[3] })
        }
    } else if t[1] == "build"@ {
        if t.len() < 5 || spec_parse_i32(t[4]) is None {
            RouteView::Usage(BUILD_USAGE@)
        } else {
            RouteView::Cmd(
                CommandView::BuildInfo {
                    project: t[2],
                    version: t[3],
                    build: spec_parse_i32(t[4])->0,
                },
            )
        }
    } else {
        RouteView::Cmd(CommandView::ProjectInfo { name: t[1] })
    }
}

/// What a raw line routes to: lines that do not start with the `>` prefix,
/// or whose verb does not follow it immediately, are no command; the rest
/// is split on whitespace and routed by verb.
pub open spec fn spec_route(line: Seq<char>) -> RouteView {
    if line.len() < 2 || line[0] != '>' || is_ws(line[1]) {
        RouteView::NotACommand
    } else {
        spec_route_tokens(split_ws(line.drop_first()))
    }
}

fn str_eq(a: &str, b: &str) -> (r: bool)
    ensures
        r == (a@ == b@),
{
    let sa = a.to_owned();
    let sb = b.to_owned();
    sa == sb
}

/// Routes an already-tokenized command line.
pub fn route_tokens(toks: &Vec<String>) -> (r: RouteOutcome)
    ensures
        r@ == spec_route_tokens(toks.deep_view()),
{
    let ghost t = toks.deep_view();
    if toks.len() == 0 {
        return RouteOutcome::NotACommand;
    }
    if str_eq(toks[0].as_str(), "projects") {
        return RouteOutcome::Cmd(ParsedCommand::ListProjects);
    }
    if !str_eq(toks[0].as_str(), "project") {
        return RouteOutcome::NotACommand;
    }
    if toks.len() < 2 {
        return RouteOutcome::Usage(String::from_str(PROJECT_USAGE));
    }
    if str_eq(toks[1].as_str(), "groups") {
        if toks.len() < 4 {
            return RouteOutcome::Usage(String::from_str(GROUPS_USAGE));
        }
        return RouteOutcome::Cmd(
            ParsedCommand::GroupInfo { project: toks[2].clone(), group: toks[3].clone() },
        );
    }
    if str_eq(toks[1].as_str(), "builds") {
        if toks.len() < 4 {
            return RouteOutcome::Usage(String::from_str(BUILDS_USAGE));
        }
        return RouteOutcome::Cmd(
            ParsedCommand::GroupBuilds { project: toks[2].clone(), group: toks[3].clone() },
        );
    }
    if str_eq(toks[1].as_str(), "version") {
        if toks.len() < 4 {
            return RouteOutcome::Usage(String::from_str(VERSION_USAGE));
        }
        return RouteOutcome::Cmd(
            ParsedCommand::VersionInfo { project: toks[2].clone(), version: toks[3].clone() },
        );
    }
    if str_eq(toks[1].as_str(), "build") {
        if toks.len() < 5 {
            return RouteOutcome::Usage(String::from_str(BUILD_USAGE));
        }
        match parse_i32(toks[4].as_str()) {
            Some(b) => {
                return RouteOutcome::Cmd(
                    ParsedCommand::BuildInfo {
                        project: toks[2].clone(),
                        version: toks[3].clone(),
                        build: b,
                    },
                );
            },
            None => {
                return RouteOutcome::Usage(String::from_str(BUILD_USAGE));
            },
        }
    }
    RouteOutcome::Cmd(ParsedCommand::ProjectInfo { name: toks[1].clone() })
}

/// Routes a raw inbound line: checks the `>` prefix, tokenizes the rest on
/// whitespace, and dispatches on the verb.
pub fn route(line: &str) -> (r: RouteOutcome)
    ensures
        r@ == spec_route(line@),
{
    let n = line.unicode_len();
    if n < 2 {
        return RouteOutcome::NotACommand;
    }
    if line.get_char(0) != '>' {
        return RouteOutcome::NotACommand;
    }
    if is_ws_char(line.get_char(1)) {
        return RouteOutcome::NotACommand;
    }
    let rest = line.substring_char(1, n);
    proof {
        assert(rest@ =~= line@.drop_first());
    }
    let toks = tokenize(rest);
    proof {
        assert(toks.deep_view() =~= split_ws(rest@));
    }
    route_tokens(&toks)
}

/// For every recognized verb, a command line with fewer than the verb's
/// required arguments routes to exactly that verb's fixed usage message,
/// the same one whichever required argument is missing; for `project build`
/// an argument that is not a 32-bit integer counts as missing.
pub proof fn lemma_missing_args_give_usage(t: Seq<Seq<char>>)
    requires
        t.len() >= 1,
        t[0] == "project"@,
    ensures
        t.len() == 1 ==> spec_route_tokens(t) == RouteView::Usage(PROJECT_USAGE@),
        t.len() >= 2 && t[1] == "groups"@ && t.len() < 4 ==> spec_route_tokens(t)
            == RouteView::Usage(GROUPS_USAGE@),
        t.len() >= 2 && t[1] == "builds"@ && t.len() < 4 ==> spec_route_tokens(t)
            == RouteView::Usage(BUILDS_USAGE@),
        t.len() >= 2 && t[1] == "version"@ && t.len() < 4 ==> spec_route_tokens(t)
            == RouteView::Usage(VERSION_USAGE@),
        t.len() >= 2 && t[1] == "build"@ && t.len() < 5 ==> spec_route_tokens(t)
            == RouteView::Usage(BUILD_USAGE@),
        t.len() >= 5 && t[1] == "build"@ && spec_parse_i32(t[4]) is None ==> spec_route_tokens(t)
            == RouteView::Usage(BUILD_USAGE@),
{
    reveal_strlit("project");
    reveal_strlit("projects");
    reveal_strlit("groups");
    reveal_strlit("builds");
    reveal_strlit("version");
    reveal_strlit("build");
    assert("project"@.len() == 7);
    assert("projects"@.len() == 8);
    assert("groups"@.len() == 6);
    assert("builds"@.len() == 6);
    assert("version"@.len() == 7);
    assert("build"@.len() == 5);
    assert("groups"@[0] == 'g');
    assert("builds"@[0] == 'b');
    assert(t[0] != "projects"@);
    if t.len() >= 2 {
        assert(t[1] == "groups"@ ==> t[1] != "builds"@ && t[1] != "version"@ && t[1]
            != "build"@);
        assert(t[1] == "builds"@ ==> t[1] != "version"@ && t[1] != "build"@);
        assert(t[1] == "version"@ ==> t[1] != "build"@);
    }
}

} // verus!
