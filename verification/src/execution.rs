//! How hook commands are understood and which process runs each of them.
//!
//! The processes themselves are started by the application; this module
//! decides where a command runs (on the host, through Docker Compose, or
//! inside a container) and with which program and arguments.
use vstd::prelude::*;

use crate::check::is_command_available;
use crate::text::{
    join_seq, join_strings, lowercase, map_chars, map_chars_exec, push_chars, push_str,
    to_lowercase, trim, trim_end_char, trim_seq,
    chars_of, contains_chars, contains_seq, find_char, first_index_of, has_prefix, owned,
    slice_chars, starts_with_chars, str_contains, str_eq, string_from_chars, char_is_whitespace,
    is_white_space,
};

verus! {

/// Where a command is executed.
#[derive(Debug, Clone)]
pub enum ExecutionContext {
    /// Run command directly on host
    Host,
    /// Run command inside a Docker container
    Docker {
        container: String,
        /// docker-compose service name
        service: Option<String>,
    },
}

/// A single command to execute.
#[derive(Debug, Clone)]
pub struct CommandSpec {
    /// The command to run
    pub command: String,
    /// Where to execute the command
    pub context: ExecutionContext,
    /// Working directory (relative to project root)
    pub working_dir: Option<String>,
}

/// A program and its arguments, ready to be started.
#[derive(Debug, Clone)]
pub struct Invocation {
    pub program: String,
    pub args: Vec<String>,
}

/// How a host command that manages a Compose project is carried out.
#[derive(Debug, Clone)]
pub enum ComposeInvocation {
    /// Run the command text through the shell, unchanged.
    Shell,
    /// Start this program with these arguments.
    Program(Invocation),
}

/// The route a parsed command takes.
#[derive(Debug, Clone)]
pub enum CommandRoute {
    /// A Compose lifecycle command (up, down, start, stop) run on the host.
    ComposeLifecycle(String),
    /// A command run through the host shell.
    HostShell(String),
    /// A command run inside a container or Compose service.
    InContainer { command: String, container: String, service: Option<String> },
}

/// The views of a list of strings.
pub open spec fn views(v: Seq<String>) -> Seq<Seq<char>> {
    v.map_values(|s: String| s@)
}

/// The command mentions one of the Compose lifecycle verbs.
pub open spec fn mentions_lifecycle(c: Seq<char>) -> bool {
    ||| contains_seq(c, "up"@)
    ||| contains_seq(c, "down"@)
    ||| contains_seq(c, "start"@)
    ||| contains_seq(c, "stop"@)
}

/// A lifecycle verb of Docker: `up`, `down`, `start` or `stop`.
pub open spec fn is_lifecycle_word(w: Seq<char>) -> bool {
    w == "up"@ || w == "down"@ || w == "start"@ || w == "stop"@
}

/// A `docker` command with a lifecycle verb among its words, such as
/// `docker start web`.
pub open spec fn is_docker_lifecycle(c: Seq<char>) -> bool {
    let ws = words(c);
    &&& ws.len() > 0
    &&& ws[0] == "docker"@
    &&& exists|i: int| 1 <= i < ws.len() && is_lifecycle_word(#[trigger] ws[i])
}

/// Commands that manage containers themselves (Sail, Compose, Docker
/// lifecycle commands) always run on the host.
pub open spec fn is_docker_management(c: Seq<char>) -> bool {
    ||| contains_seq(c, "sail"@)
    ||| contains_seq(c, "docker-compose"@)
    ||| contains_seq(c, "docker compose"@)
    ||| is_docker_lifecycle(c)
}

/// `spec` runs `command` on the host.
pub open spec fn is_host_spec(spec: CommandSpec, command: Seq<char>) -> bool {
    &&& spec.command@ == command
    &&& spec.context is Host
    &&& spec.working_dir is None
}

/// `spec` runs `command` in the Compose service and container named `target`.
pub open spec fn is_docker_spec(spec: CommandSpec, command: Seq<char>, target: Seq<char>) -> bool {
    &&& spec.command@ == command
    &&& spec.context matches ExecutionContext::Docker { container, service }
    &&& container@ == target
    &&& service matches Some(s)
    &&& s@ == target
    &&& spec.working_dir is None
}

/// The meaning of a command string: `docker:service:command` runs in a
/// Compose service, `docker:command` in the `app` service, anything else
/// (and every container-management command) on the host.
pub open spec fn parsed_command(cmd: Seq<char>, spec: CommandSpec) -> bool {
    if is_docker_management(cmd) || !has_prefix(cmd, "docker:"@) {
        is_host_spec(spec, cmd)
    } else {
        let rest = cmd.skip("docker:"@.len() as int);
        match first_index_of(rest, ':') {
            Some(k) => is_docker_spec(spec, rest.skip(k + 1), rest.take(k)),
            None => is_docker_spec(spec, rest, "app"@),
        }
    }
}

fn lit_contains(haystack: &Vec<char>, lit: &str) -> (r: bool)
    ensures
        r == contains_seq(haystack@, lit@),
{
    let pat = chars_of(lit);
    contains_chars(haystack.as_slice(), pat.as_slice())
}

fn lifecycle_verb(cv: &Vec<char>) -> (r: bool)
    ensures
        r == mentions_lifecycle(cv@),
{
    lit_contains(cv, "up") || lit_contains(cv, "down") || lit_contains(cv, "start")
        || lit_contains(cv, "stop")
}

/// Whether the command is `docker` with a lifecycle verb among its words.
fn docker_lifecycle_command(cmd: &str) -> (r: bool)
    ensures
        r == is_docker_lifecycle(cmd@),
{
    let ws = split_words(cmd);
    if ws.len() == 0 || !str_eq(ws[0].as_str(), "docker") {
        return false;
    }
    assert(words(cmd@)[0] == ws@[0]@);
    let mut i: usize = 1;
    while i < ws.len()
        invariant
            views(ws@) == words(cmd@),
            words(cmd@).len() > 0,
            words(cmd@)[0] == "docker"@,
            1 <= i <= ws@.len(),
            forall|k: int| 1 <= k < i ==> !is_lifecycle_word(#[trigger] words(cmd@)[k]),
        decreases ws@.len() - i,
    {
        let w = ws[i].as_str();
        assert(w@ == words(cmd@)[i as int]);
        if str_eq(w, "up") || str_eq(w, "down") || str_eq(w, "start") || str_eq(w, "stop") {
            assert(is_lifecycle_word(words(cmd@)[i as int]));
            return true;
        }
        i += 1;
    }
    false
}

/// Whether the command manages containers itself and must run on the host.
pub fn is_docker_management_command(cmd: &str) -> (r: bool)
    ensures
        r == is_docker_management(cmd@),
{
    let cv = chars_of(cmd);
    lit_contains(&cv, "sail") || lit_contains(&cv, "docker-compose") || lit_contains(
        &cv,
        "docker compose",
    ) || docker_lifecycle_command(cmd)
}

/// Parse a command string into a CommandSpec.
/// Supports syntax:
/// - "command" - runs on host
/// - "docker:service:command" - runs in docker-compose service
/// - Commands containing "sail" or docker-compose management are forced to host
pub fn parse_command(cmd: &str) -> (r: CommandSpec)
    ensures
        parsed_command(cmd@, r),
{
    if is_docker_management_command(cmd) {
        return CommandSpec { command: owned(cmd), context: ExecutionContext::Host, working_dir: None };
    }
    let cv = chars_of(cmd);
    let prefix = chars_of("docker:");
    if starts_with_chars(cv.as_slice(), prefix.as_slice()) {
        let rest = slice_chars(cv.as_slice(), prefix.len(), cv.len());
        assert(rest@ == cmd@.skip("docker:"@.len() as int));
        match find_char(rest.as_slice(), ':') {
            Some(k) => {
                let target = slice_chars(rest.as_slice(), 0, k);
                let command = slice_chars(rest.as_slice(), k + 1, rest.len());
                assert(command@ == rest@.skip(k + 1));
                CommandSpec {
                    command: string_from_chars(command.as_slice()),
                    context: ExecutionContext::Docker {
                        container: string_from_chars(target.as_slice()),
                        service: Some(string_from_chars(target.as_slice())),
                    },
                    working_dir: None,
                }
            },
            None => {
                CommandSpec {
                    command: string_from_chars(rest.as_slice()),
                    context: ExecutionContext::Docker {
                        container: owned("app"),
                        service: Some(owned("app")),
                    },
                    working_dir: None,
                }
            },
        }
    } else {
        CommandSpec { command: owned(cmd), context: ExecutionContext::Host, working_dir: None }
    }
}

/// The first word of a command that starts with `docker:` is not `docker`.
proof fn lemma_docker_prefix_first_word(cmd: Seq<char>)
    requires
        has_prefix(cmd, "docker:"@),
    ensures
        !is_docker_lifecycle(cmd),
{
    reveal_strlit("docker:");
    reveal_strlit("docker");
    assert(cmd.len() >= 7);
    assert forall|k: int| 0 <= k < 7 implies !is_white_space(#[trigger] cmd[k]) by {
        assert(cmd[k] == "docker:"@[k]);
    }
    lemma_leading_word_len_at_least(cmd, 7);
    let n = leading_word_len(cmd);
    lemma_leading_word_len_bound(cmd);
    assert(words(cmd)[0] == cmd.take(n as int));
    assert(cmd.take(n as int).len() != "docker"@.len());
}

/// A run of `m` non-whitespace characters at the start makes the leading
/// word at least `m` long.
proof fn lemma_leading_word_len_at_least(s: Seq<char>, m: int)
    requires
        0 <= m <= s.len(),
        forall|k: int| 0 <= k < m ==> !is_white_space(#[trigger] s[k]),
    ensures
        leading_word_len(s) >= m,
    decreases m,
{
    if m > 0 {
        assert forall|k: int| 0 <= k < m - 1 implies !is_white_space(
            #[trigger] s.drop_first()[k],
        ) by {
            assert(s.drop_first()[k] == s[k + 1]);
        }
        lemma_leading_word_len_at_least(s.drop_first(), m - 1);
    }
}

/// A command written `docker:<service>:<command>` runs `<command>` in the
/// Compose service `<service>` (and `docker:<command>` in `app`), unless
/// it mentions Sail or Compose; any other command runs on the host as it
/// is written.
pub proof fn lemma_docker_prefix_runs_in_service(cmd: Seq<char>, spec: CommandSpec)
    requires
        parsed_command(cmd, spec),
    ensures
        has_prefix(cmd, "docker:"@) && !contains_seq(cmd, "sail"@) && !contains_seq(
            cmd,
            "docker-compose"@,
        ) && !contains_seq(cmd, "docker compose"@) ==> spec.context is Docker && match first_index_of(
            cmd.skip(7),
            ':',
        ) {
            Some(k) => spec.command@ == cmd.skip(7).skip(k + 1) && spec.context->container@
                == cmd.skip(7).take(k),
            None => spec.command@ == cmd.skip(7) && spec.context->container@ == "app"@,
        },
        !has_prefix(cmd, "docker:"@) ==> spec.context is Host && spec.command@ == cmd,
{
    reveal_strlit("docker:");
    if has_prefix(cmd, "docker:"@) {
        lemma_docker_prefix_first_word(cmd);
    }
}

/// A host command that starts or stops a Compose project.
pub open spec fn is_compose_lifecycle(c: Seq<char>) -> bool {
    &&& (contains_seq(c, "docker compose"@) || contains_seq(c, "docker-compose"@))
    &&& mentions_lifecycle(c)
}

/// The route that `execute_command` takes for a parsed command.
pub open spec fn route_of(spec: CommandSpec) -> CommandRoute {
    match spec.context {
        ExecutionContext::Host => if is_compose_lifecycle(spec.command@) {
            CommandRoute::ComposeLifecycle(spec.command)
        } else {
            CommandRoute::HostShell(spec.command)
        },
        ExecutionContext::Docker { container, service } => CommandRoute::InContainer {
            command: spec.command,
            container,
            service,
        },
    }
}

/// Decides how a command is executed: Compose lifecycle commands on the host
/// get the project name and compose file, other host commands go through the
/// shell, and docker commands run in their container.
pub fn route_command(spec: &CommandSpec) -> (r: CommandRoute)
    ensures
        r == route_of(*spec),
{
    match &spec.context {
        ExecutionContext::Host => {
            let cv = chars_of(spec.command.as_str());
            if (lit_contains(&cv, "docker compose") || lit_contains(&cv, "docker-compose"))
                && lifecycle_verb(&cv) {
                CommandRoute::ComposeLifecycle(spec.command.clone())
            } else {
                CommandRoute::HostShell(spec.command.clone())
            }
        },
        ExecutionContext::Docker { container, service } => CommandRoute::InContainer {
            command: spec.command.clone(),
            container: container.clone(),
            service: service.clone(),
        },
    }
}

/// A host command goes through Compose, with the project's name and
/// compose file, exactly when it mentions `docker compose` or
/// `docker-compose` together with one of the verbs `up`, `down`, `start`
/// or `stop`; any other host command runs through the shell as written, and
/// a container command keeps its command, container and service.
pub proof fn lemma_host_route(spec: CommandSpec)
    ensures
        spec.context is Host ==> (route_of(spec) is ComposeLifecycle <==> ((contains_seq(
            spec.command@,
            "docker compose"@,
        ) || contains_seq(spec.command@, "docker-compose"@)) && (contains_seq(spec.command@, "up"@)
            || contains_seq(spec.command@, "down"@) || contains_seq(spec.command@, "start"@)
            || contains_seq(spec.command@, "stop"@)))),
        spec.context is Host ==> match route_of(spec) {
            CommandRoute::ComposeLifecycle(c) => c == spec.command,
            CommandRoute::HostShell(c) => c == spec.command,
            CommandRoute::InContainer { .. } => false,
        },
        spec.context matches ExecutionContext::Docker { container, service } ==> route_of(spec)
            == (CommandRoute::InContainer { command: spec.command, container, service }),
{
}

/// Length of the run of non-whitespace characters that starts `s`.
pub open spec fn leading_word_len(s: Seq<char>) -> nat
    decreases s.len(),
{
    if s.len() == 0 || is_white_space(s[0]) {
        0
    } else {
        1 + leading_word_len(s.drop_first())
    }
}

/// The whitespace-separated words of `s`, as `str::split_whitespace` gives them.
pub open spec fn words(s: Seq<char>) -> Seq<Seq<char>>
    decreases s.len(),
{
    if s.len() == 0 {
        Seq::empty()
    } else if is_white_space(s[0]) {
        words(s.drop_first())
    } else {
        let n = leading_word_len(s);
        proof {
            lemma_leading_word_len_bound(s);
        }
        if n == 0 {
            Seq::empty()
        } else {
            seq![s.take(n as int)] + words(s.skip(n as int))
        }
    }
}

pub proof fn lemma_leading_word_len_bound(s: Seq<char>)
    ensures
        leading_word_len(s) <= s.len(),
    decreases s.len(),
{
    if s.len() > 0 && !is_white_space(s[0]) {
        lemma_leading_word_len_bound(s.drop_first());
    }
}

proof fn lemma_leading_word_len(s: Seq<char>, n: int)
    requires
        0 < n <= s.len(),
        forall|k: int| 0 <= k < n ==> !is_white_space(s[k]),
        n == s.len() || is_white_space(s[n]),
    ensures
        leading_word_len(s) == n,
    decreases n,
{
    if n > 1 {
        lemma_leading_word_len(s.drop_first(), n - 1);
    } else {
        assert(leading_word_len(s.drop_first()) == 0);
    }
}

proof fn lemma_words_skip_space(s: Seq<char>, i: int)
    requires
        0 <= i < s.len(),
        is_white_space(s[i]),
    ensures
        words(s.skip(i)) == words(s.skip(i + 1)),
{
    assert(s.skip(i).drop_first() =~= s.skip(i + 1));
}

proof fn lemma_words_take_word(s: Seq<char>, i: int, j: int)
    requires
        0 <= i < j <= s.len(),
        forall|k: int| i <= k < j ==> !is_white_space(s[k]),
        j == s.len() || is_white_space(s[j]),
    ensures
        words(s.skip(i)) == seq![s.subrange(i, j)] + words(s.skip(j)),
{
    let t = s.skip(i);
    lemma_leading_word_len(t, j - i);
    assert(t.take(j - i) =~= s.subrange(i, j));
    assert(t.skip(j - i) =~= s.skip(j));
}

/// The whitespace-separated words of `s`.
pub fn split_words(s: &str) -> (r: Vec<String>)
    ensures
        views(r@) == words(s@),
{
    let cv = chars_of(s);
    let n = cv.len();
    let mut out: Vec<String> = Vec::new();
    let mut i: usize = 0;
    assert(cv@.skip(0) =~= cv@);
    while i < n
        invariant
            n == cv@.len(),
            i <= n,
            views(out@) + words(cv@.skip(i as int)) == words(cv@),
        decreases n - i,
    {
        if char_is_whitespace(cv[i]) {
            proof {
                lemma_words_skip_space(cv@, i as int);
            }
            i += 1;
        } else {
            let mut j: usize = i + 1;
            while j < n && !char_is_whitespace(cv[j])
                invariant
                    n == cv@.len(),
                    i < j <= n,
                    forall|k: int| i <= k < j ==> !is_white_space(cv@[k]),
                decreases n - j,
            {
                j += 1;
            }
            proof {
                lemma_words_take_word(cv@, i as int, j as int);
            }
            let word = slice_chars(cv.as_slice(), i, j);
            let ghost before = views(out@);
            out.push(string_from_chars(word.as_slice()));
            assert(views(out@) == before.push(word@));
            assert(views(out@) + words(cv@.skip(j as int)) == before + (seq![word@] + words(
                cv@.skip(j as int),
            )));
            i = j;
        }
    }
    assert(cv@.skip(n as int).len() == 0);
    assert(views(out@) + words(cv@.skip(i as int)) == views(out@));
    out
}

/// `-p <project> -f <file>` as given to Compose, preceded by `compose` when
/// the program is `docker` itself.
pub open spec fn compose_prefix(
    program: Seq<char>,
    project_name: Seq<char>,
    compose_file: Option<Seq<char>>,
) -> Seq<Seq<char>> {
    (if program == "docker"@ {
        seq!["compose"@]
    } else {
        Seq::empty()
    }) + match compose_file {
        Some(f) => seq!["-p"@, project_name, "-f"@, f],
        None => Seq::empty(),
    }
}

/// The Compose program started for a lifecycle command: `None` when the
/// command runs through the shell instead.
pub open spec fn compose_lifecycle_args(
    cmd: Seq<char>,
    program: Seq<char>,
    project_name: Seq<char>,
    compose_file: Option<Seq<char>>,
) -> Option<Seq<Seq<char>>> {
    let parts = words(cmd);
    let prefix = compose_prefix(program, project_name, compose_file);
    if contains_seq(cmd, "sail"@) {
        None
    } else if program == "docker"@ {
        if parts.len() >= 2 && parts[0] == "docker"@ && parts[1] == "compose"@ {
            Some(prefix + parts.skip(2))
        } else {
            None
        }
    } else {
        if parts.len() >= 1 && parts[0] == "docker-compose"@ {
            Some(prefix + parts.skip(1))
        } else {
            None
        }
    }
}

fn push_lit(v: &mut Vec<String>, lit: &str)
    ensures
        views(final(v)@) == views(old(v)@).push(lit@),
{
    let ghost before = views(v@);
    v.push(owned(lit));
    assert(views(v@) =~= before.push(lit@));
}

fn push_string(v: &mut Vec<String>, s: &str)
    ensures
        views(final(v)@) == views(old(v)@).push(s@),
{
    let ghost before = views(v@);
    v.push(owned(s));
    assert(views(v@) =~= before.push(s@));
}

/// The arguments that select the Compose project and file.
pub fn compose_base_args(program: &str, project_name: &str, compose_file: Option<&str>) -> (r: Vec<
    String,
>)
    ensures
        views(r@) == compose_prefix(
            program@,
            project_name@,
            match compose_file {
                Some(f) => Some(f@),
                None => None,
            },
        ),
{
    let mut args: Vec<String> = Vec::new();
    if str_eq(program, "docker") {
        push_lit(&mut args, "compose");
    }
    if let Some(f) = compose_file {
        push_lit(&mut args, "-p");
        push_string(&mut args, project_name);
        push_lit(&mut args, "-f");
        push_string(&mut args, f);
    }
    assert(views(args@) =~= compose_prefix(
        program@,
        project_name@,
        match compose_file {
            Some(f) => Some(f@),
            None => None,
        },
    ));
    args
}

/// Builds the Compose invocation for a lifecycle command: `docker compose`
/// or `docker-compose` with the project name and compose file, then the
/// rest of the command's words. Sail commands and commands that do not
/// start with the Compose program run through the shell as they are.
pub fn plan_compose_command(
    cmd: &str,
    program: &str,
    project_name: &str,
    compose_file: Option<&str>,
) -> (r: ComposeInvocation)
    ensures
        match compose_lifecycle_args(
            cmd@,
            program@,
            project_name@,
            match compose_file {
                Some(f) => Some(f@),
                None => None,
            },
        ) {
            Some(args) => r matches ComposeInvocation::Program(inv) && inv.program@ == program@
                && views(inv.args@) == args,
            None => r is Shell,
        },
{
    let ghost file = match compose_file {
        Some(f) => Some(f@),
        None => None,
    };
    let parts = split_words(cmd);
    if str_contains(cmd, "sail") {
        return ComposeInvocation::Shell;
    }
    let mut args = compose_base_args(program, project_name, compose_file);
    let ghost prefix = views(args@);
    let skip_opt: Option<usize> = if str_eq(program, "docker") {
        if parts.len() >= 2 && str_eq(parts[0].as_str(), "docker") && str_eq(
            parts[1].as_str(),
            "compose",
        ) {
            Some(2)
        } else {
            None
        }
    } else {
        if parts.len() >= 1 && str_eq(parts[0].as_str(), "docker-compose") {
            Some(1)
        } else {
            None
        }
    };
    let skip: usize = match skip_opt {
        Some(k) => k,
        None => {
            return ComposeInvocation::Shell;
        },
    };
    let ghost pv = views(parts@);
    assert(pv.len() == parts@.len());
    let mut i: usize = skip;
    while i < parts.len()
        invariant
            skip <= i <= parts@.len(),
            pv == views(parts@),
            pv.len() == parts@.len(),
            views(args@) == prefix + pv.subrange(skip as int, i as int),
        decreases parts@.len() - i,
    {
        assert(pv[i as int] == parts@[i as int]@);
        push_string(&mut args, parts[i].as_str());
        assert(pv.subrange(skip as int, i + 1) =~= pv.subrange(skip as int, i as int).push(
            pv[i as int],
        ));
        i += 1;
    }
    assert(pv.subrange(skip as int, parts@.len() as int) =~= pv.skip(skip as int));
    ComposeInvocation::Program(Invocation { program: owned(program), args })
}

/// The arguments of a command run inside a container: through
/// `compose exec` when a service and a compose file are known, otherwise
/// through `docker exec` on the container.
pub open spec fn container_exec_args(
    cmd: Seq<char>,
    container: Seq<char>,
    project_name: Seq<char>,
    compose: Option<(Seq<char>, Seq<char>, Seq<char>)>,
    user_flag: Option<Seq<char>>,
) -> Seq<Seq<char>> {
    let user = match user_flag {
        Some(u) => seq!["--user"@, u],
        None => Seq::empty(),
    };
    match compose {
        Some((program, service, file)) => compose_prefix(program, project_name, Some(file)) + seq![
            "exec"@,
        ] + user + seq!["-T"@, service, "sh"@, "-c"@, cmd],
        None => seq!["exec"@] + user + seq![container, "sh"@, "-c"@, cmd],
    }
}

/// Builds the process that runs `cmd` inside a container. With a Compose
/// service and file (`compose` holds the Compose program, the service and
/// the file) the service is reached through `compose exec -T`; otherwise
/// `docker exec` is used on the container. Both run the command with
/// `sh -c`, as the given user when a user flag is known.
pub fn plan_container_command(
    cmd: &str,
    container: &str,
    project_name: &str,
    compose: Option<(&str, &str, &str)>,
    user_flag: Option<&str>,
) -> (r: Invocation)
    ensures
        r.program@ == (match compose {
            Some((program, _, _)) => program@,
            None => "docker"@,
        }),
        views(r.args@) == container_exec_args(
            cmd@,
            container@,
            project_name@,
            match compose {
                Some((p, s, f)) => Some((p@, s@, f@)),
                None => None,
            },
            match user_flag {
                Some(u) => Some(u@),
                None => None,
            },
        ),
{
    let program;
    let mut args: Vec<String>;
    let ghost start: Seq<Seq<char>>;
    match compose {
        Some((p, service, file)) => {
            program = owned(p);
            args = compose_base_args(p, project_name, Some(file));
            push_lit(&mut args, "exec");
            proof {
                start = views(args@);
            }
        },
        None => {
            program = owned("docker");
            args = Vec::new();
            push_lit(&mut args, "exec");
            proof {
                start = views(args@);
            }
        },
    }
    if let Some(u) = user_flag {
        push_lit(&mut args, "--user");
        push_string(&mut args, u);
    }
    match compose {
        Some((_, service, _)) => {
            push_lit(&mut args, "-T");
            push_string(&mut args, service);
        },
        None => {
            push_string(&mut args, container);
        },
    }
    push_lit(&mut args, "sh");
    push_lit(&mut args, "-c");
    push_string(&mut args, cmd);
    assert(views(args@) =~= container_exec_args(
        cmd@,
        container@,
        project_name@,
        match compose {
            Some((p, s, f)) => Some((p@, s@, f@)),
            None => None,
        },
        match user_flag {
            Some(u) => Some(u@),
            None => None,
        },
    ));
    Invocation { program, args }
}

/// A path made of a single plain name on every platform: not empty, not
/// `.` or `..`, and without `/`, `\\` or `:`.
pub open spec fn is_plain_name(p: Seq<char>) -> bool {
    &&& p.len() > 0
    &&& p != "."@
    &&& p != ".."@
    &&& forall|i: int| 0 <= i < p.len() ==> #[trigger] p[i] != '/' && p[i] != '\\' && p[i] != ':'
}

/// `n` can be the final name of `path`: a non-empty part of it, not `.`
/// or `..`, without `/`.
pub open spec fn is_final_name_of(n: Seq<char>, path: Seq<char>) -> bool {
    &&& n.len() > 0
    &&& n != "."@
    &&& n != ".."@
    &&& contains_seq(path, n)
    &&& forall|i: int| 0 <= i < n.len() ==> #[trigger] n[i] != '/'
}

/// The part of `s` after its last `/` (all of `s` when it holds none).
pub open spec fn after_last_slash(s: Seq<char>) -> Seq<char>
    decreases s.len(),
{
    if s.len() == 0 {
        s
    } else if s.last() == '/' {
        Seq::empty()
    } else {
        after_last_slash(s.drop_last()).push(s.last())
    }
}

/// The last `/`-separated segment of a path, trailing slashes aside.
pub open spec fn last_segment(path: Seq<char>) -> Seq<char> {
    after_last_slash(trim_end_char(path, '/'))
}

/// A character that separates path components on some platform.
pub open spec fn is_separator(c: char) -> bool {
    c == '/' || c == '\\'
}

/// The path ends in a plain name (`<dir>/<name>`, trailing slashes aside),
/// and does not start with two separators (which on Windows begin a
/// network or device prefix).
pub open spec fn has_final_plain_name(path: Seq<char>) -> bool {
    &&& !(path.len() >= 2 && is_separator(path[0]) && is_separator(path[1]))
    &&& is_plain_name(last_segment(path))
}

/// Calls `Path::file_name` on the path and hands the name back as a string.
/// How a path is split depends on the platform the tool was built for (a
/// `\\` or a drive prefix separates on Windows only), so the contract
/// states what holds on every platform: a name found is a normal component
/// of the path, so a non-empty part of it that is not `.` or `..` and holds
/// no `/`; a path that is a single plain name is its own file name; and
/// `Path::file_name` gives the final component, so a path that ends in a
/// plain name after a `/` (trailing slashes aside), and does not start with
/// two separators, has that name as its file name.
#[verifier::external_body]
fn path_file_name(path: &str) -> (r: Option<String>)
    ensures
        match r {
            Some(n) => has_final_plain_name(path@) ==> n@ == last_segment(path@),
            None => !has_final_plain_name(path@),
        },
        match r {
            Some(n) => is_final_name_of(n@, path@),
            None => !is_plain_name(path@),
        },
        match r {
            Some(n) => is_plain_name(path@) ==> n@ == path@,
            None => true,
        },
{
    std::path::Path::new(path).file_name().and_then(|n| n.to_str()).map(|n| n.to_string())
}

/// The characters that Compose project names may not contain.
pub open spec fn compose_separators() -> Set<char> {
    set![' ', '.', '_']
}

/// A name with every space, dot and underscore turned into a hyphen.
pub fn hyphenate_separators(name: &str) -> (r: String)
    ensures
        r@ == map_chars(name@, compose_separators(), '-'),
        forall|i: int| 0 <= i < r@.len() ==> !compose_separators().contains(#[trigger] r@[i]),
{
    let cv = chars_of(name);
    let seps: Vec<char> = vec![' ', '.', '_'];
    assert(seps@.to_set() =~= compose_separators()) by {
        assert forall|c: char| compose_separators().contains(c) implies seps@.to_set().contains(c) by {
            if c == ' ' {
                assert(seps@[0] == c);
            } else if c == '.' {
                assert(seps@[1] == c);
            } else {
                assert(seps@[2] == c);
            }
        }
    }
    let out = map_chars_exec(cv.as_slice(), seps.as_slice(), '-');
    string_from_chars(out.as_slice())
}

/// The Compose project name for a directory of the given name
/// (`ncl-project` when there is none): lowercased, with spaces, dots and
/// underscores turned into hyphens.
pub open spec fn compose_project_name(file_name: Option<Seq<char>>) -> Seq<char> {
    map_chars(
        lowercase(
            match file_name {
                Some(n) => n,
                None => "ncl-project"@,
            },
        ),
        compose_separators(),
        '-',
    )
}

/// The Compose project name for a directory whose final path component is
/// `file_name`.
pub fn project_name_from_file_name(file_name: Option<&str>) -> (r: String)
    ensures
        r@ == compose_project_name(
            match file_name {
                Some(n) => Some(n@),
                None => None,
            },
        ),
        forall|i: int| 0 <= i < r@.len() ==> !compose_separators().contains(#[trigger] r@[i]),
{
    let name = match file_name {
        Some(n) => n,
        None => "ncl-project",
    };
    let lower = to_lowercase(name);
    hyphenate_separators(lower.as_str())
}

/// The Compose project name of a project directory: the directory's name
/// (`ncl-project` when the path has none), lowercased, with spaces, dots
/// and underscores turned into hyphens.
pub fn get_project_name(project_path: &str) -> (r: String)
    ensures
        exists|file_name: Option<Seq<char>>|
            r@ == compose_project_name(file_name) && (file_name matches Some(n) ==> is_final_name_of(
                n,
                project_path@,
            )),
        is_plain_name(project_path@) ==> r@ == compose_project_name(Some(project_path@)),
        has_final_plain_name(project_path@) ==> r@ == compose_project_name(
            Some(last_segment(project_path@)),
        ),
        forall|i: int| 0 <= i < r@.len() ==> !compose_separators().contains(#[trigger] r@[i]),
{
    let name = path_file_name(project_path);
    let r = match &name {
        Some(n) => project_name_from_file_name(Some(n.as_str())),
        None => project_name_from_file_name(None),
    };
    proof {
        let witness = match name {
            Some(n) => Some(n@),
            None => None,
        };
        assert(r@ == compose_project_name(witness));
    }
    r
}

/// Errors of the execution planning.
#[derive(Debug, Clone, PartialEq, Eq)]
pub enum ExecutionError {
    /// Neither `docker` nor `docker-compose` is installed.
    ComposeNotFound,
}

impl ExecutionError {
    /// The message shown for this error.
    pub fn message(&self) -> (r: String)
        ensures
            r@ == "Neither 'docker' nor 'docker-compose' found"@,
    {
        owned("Neither 'docker' nor 'docker-compose' found")
    }
}

/// The Compose program to use, given which programs are installed:
/// `docker` (with its `compose` subcommand) first, then `docker-compose`.
pub fn select_compose_program(docker_found: bool, docker_compose_found: bool) -> (r: Result<
    &'static str,
    ExecutionError,
>)
    ensures
        docker_found ==> (r matches Ok(p) && p@ == "docker"@),
        !docker_found && docker_compose_found ==> (r matches Ok(p) && p@ == "docker-compose"@),
        !docker_found && !docker_compose_found ==> r == Err::<&'static str, ExecutionError>(
            ExecutionError::ComposeNotFound,
        ),
{
    if docker_found {
        Ok("docker")
    } else if docker_compose_found {
        Ok("docker-compose")
    } else {
        Err(ExecutionError::ComposeNotFound)
    }
}

/// The Compose program installed on this system: `docker` or
/// `docker-compose`, whichever is found first in that order.
pub fn get_compose_command() -> (r: Result<&'static str, ExecutionError>)
    ensures
        match r {
            Ok(p) => p@ == "docker"@ || p@ == "docker-compose"@,
            Err(e) => e == ExecutionError::ComposeNotFound,
        },
{
    let docker = is_command_available("docker");
    if docker {
        return select_compose_program(true, false);
    }
    let compose = is_command_available("docker-compose");
    select_compose_program(false, compose)
}

/// The `--user` value for Docker: the trimmed user and group IDs, as
/// printed by `id -u` and `id -g`, joined by a colon.
pub fn docker_user_flag(uid_output: &str, gid_output: &str) -> (r: String)
    ensures
        r@ == trim_seq(uid_output@) + ":"@ + trim_seq(gid_output@),
{
    let uid = trim(uid_output);
    let gid = trim(gid_output);
    let mut v: Vec<char> = Vec::new();
    push_str(&mut v, uid.as_str());
    push_str(&mut v, ":");
    push_str(&mut v, gid.as_str());
    string_from_chars(v.as_slice())
}

/// The report of a command that ran and failed: its trimmed error output,
/// else its trimmed standard output, when there is any.
pub open spec fn failure_message(cmd: Seq<char>, stderr: Seq<char>, stdout: Seq<char>) -> Seq<char> {
    "Command failed: "@ + cmd + if stderr.len() > 0 {
        ": "@ + trim_seq(stderr)
    } else if stdout.len() > 0 {
        ": "@ + trim_seq(stdout)
    } else {
        Seq::empty()
    }
}

/// The report of a command that ran and failed.
pub fn command_failure_message(cmd: &str, stderr: &str, stdout: &str) -> (r: String)
    ensures
        r@ == failure_message(cmd@, stderr@, stdout@),
{
    let mut v: Vec<char> = Vec::new();
    push_str(&mut v, "Command failed: ");
    push_str(&mut v, cmd);
    if stderr.unicode_len() > 0 {
        push_str(&mut v, ": ");
        let t = trim(stderr);
        push_str(&mut v, t.as_str());
    } else if stdout.unicode_len() > 0 {
        push_str(&mut v, ": ");
        let t = trim(stdout);
        push_str(&mut v, t.as_str());
    }
    let r = string_from_chars(v.as_slice());
    assert(r@ =~= failure_message(cmd@, stderr@, stdout@));
    r
}

/// The report of a run of commands in which some failed: one line per
/// failure after a heading.
pub fn failures_summary(errors: &Vec<String>) -> (r: String)
    ensures
        r@ == "Some commands failed:\n"@ + join_seq(views(errors@), "\n"@),
{
    let mut v: Vec<char> = Vec::new();
    push_str(&mut v, "Some commands failed:\n");
    let joined = join_strings(errors, "\n");
    push_chars(&mut v, joined.as_slice());
    string_from_chars(v.as_slice())
}

/// The arguments that ask Compose whether a service runs: `ps -q <service>`
/// after the project and file.
pub fn service_status_args(program: &str, project_name: &str, compose_file: &str, service: &str) -> (r:
    Vec<String>)
    ensures
        views(r@) == compose_prefix(program@, project_name@, Some(compose_file@)) + seq![
            "ps"@,
            "-q"@,
            service@,
        ],
{
    let mut args = compose_base_args(program, project_name, Some(compose_file));
    push_lit(&mut args, "ps");
    push_lit(&mut args, "-q");
    push_string(&mut args, service);
    assert(views(args@) =~= compose_prefix(program@, project_name@, Some(compose_file@)) + seq![
        "ps"@,
        "-q"@,
        service@,
    ]);
    args
}

/// The arguments that start a service in the background: `up -d <service>`
/// after the project and file.
pub fn service_start_args(program: &str, project_name: &str, compose_file: &str, service: &str) -> (r:
    Vec<String>)
    ensures
        views(r@) == compose_prefix(program@, project_name@, Some(compose_file@)) + seq![
            "up"@,
            "-d"@,
            service@,
        ],
{
    let mut args = compose_base_args(program, project_name, Some(compose_file));
    push_lit(&mut args, "up");
    push_lit(&mut args, "-d");
    push_string(&mut args, service);
    assert(views(args@) =~= compose_prefix(program@, project_name@, Some(compose_file@)) + seq![
        "up"@,
        "-d"@,
        service@,
    ]);
    args
}

/// Whether Docker Desktop is in use: `DOCKER_HOST` is set, or the current
/// Docker context (as `docker context show` printed it) names Desktop.
pub fn looks_like_docker_desktop(docker_host_set: bool, context_output: Option<&str>) -> (r: bool)
    ensures
        r == (docker_host_set || match context_output {
            Some(c) => contains_seq(c@, "desktop"@) || contains_seq(c@, "Docker Desktop"@),
            None => false,
        }),
{
    if docker_host_set {
        return true;
    }
    match context_output {
        Some(c) => str_contains(c, "desktop") || str_contains(c, "Docker Desktop"),
        None => false,
    }
}

/// Advice when `docker ps` fails on Linux without Docker Desktop.
pub const DOCKER_DENIED_LINUX: &'static str = "Docker permission denied on Linux.\n\n\
Options (no additional dependencies needed):\n\n\
1. Use Docker Desktop for Linux (works without sudo):\n\
Download: https://www.docker.com/products/docker-desktop/\n\
Docker Desktop works without sudo on all platforms.\n\n\
2. Add user to docker group (one-time, requires sudo):\n\
sudo usermod -aG docker $USER\n\
Then: newgrp docker (or log out/in)\n\n\
3. On macOS/Windows: Docker Desktop should work automatically.\n\
If not, ensure Docker Desktop is running.";

/// Advice when `docker ps` fails on Linux with Docker Desktop.
pub const DOCKER_DENIED_DESKTOP: &'static str = "Docker permission denied. If using Docker Desktop, ensure it's running.\n\
Otherwise, add user to docker group:\n\
sudo usermod -aG docker $USER && newgrp docker";

/// Advice when `docker ps` fails on other systems.
pub const DOCKER_NOT_ACCESSIBLE: &'static str = "Docker is not accessible. Please ensure:\n\
1. Docker Desktop is installed and running\n\
2. Docker Desktop is started (check system tray/menu bar)\n\
3. Try: docker ps (to verify Docker is working)";

/// Whether Docker can be used, given whether `docker ps` succeeded: when it
/// did not, the advice that fits the system (Linux with or without Docker
/// Desktop, or another system).
pub fn docker_access(ps_succeeded: bool, on_linux: bool, docker_desktop: bool) -> (r: Result<
    (),
    &'static str,
>)
    ensures
        ps_succeeded ==> r is Ok,
        !ps_succeeded && on_linux && !docker_desktop ==> r == Err::<(), &'static str>(DOCKER_DENIED_LINUX),
        !ps_succeeded && on_linux && docker_desktop ==> r == Err::<(), &'static str>(DOCKER_DENIED_DESKTOP),
        !ps_succeeded && !on_linux ==> r == Err::<(), &'static str>(DOCKER_NOT_ACCESSIBLE),
{
    if ps_succeeded {
        Ok(())
    } else if !on_linux {
        Err(DOCKER_NOT_ACCESSIBLE)
    } else if docker_desktop {
        Err(DOCKER_DENIED_DESKTOP)
    } else {
        Err(DOCKER_DENIED_LINUX)
    }
}

} // verus!
