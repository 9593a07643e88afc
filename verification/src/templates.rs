//! Project templates: their metadata, hooks and jobs.
use vstd::prelude::*;

use crate::assoc::{get_entry, insert_entry, lookup, unique_keys};
use crate::common::Dependency;
use crate::execution::views;
use crate::text::{
    chars_of, contains_seq, occurs_at, owned, push_str, replace_chars, replace_seq, str_eq,
    string_from_chars,
};

verus! {

/// A hook is a sequence of shell commands to execute
pub type Hook = Vec<String>;

/// Represents a project template with its configuration
#[derive(Debug, Clone, PartialEq, Eq)]
pub struct Template {
    pub name: String,
    pub path: String,
    pub comment: String,
    pub dependencies: Vec<Dependency>,
    /// Post-install hook (deprecated, use hooks instead)
    pub post_install_hook: Hook,
    /// Named hooks for different execution contexts
    pub hooks: Vec<(String, Hook)>,
    pub jobs: Option<Vec<(String, Vec<String>)>>,
}

/// Errors of the template operations.
#[derive(Debug, Clone, PartialEq, Eq)]
pub enum TemplateError {
    /// The template has no hook of this name.
    HookNotFound { hook: String, template: String },
}

impl TemplateError {
    /// The message shown for this error.
    pub fn message(&self) -> (r: String)
        ensures
            r@ == match *self {
                TemplateError::HookNotFound { hook, template } => "Hook '"@ + hook@
                    + "' not found in template '"@ + template@ + "'"@,
            },
    {
        match self {
            TemplateError::HookNotFound { hook, template } => {
                let mut v: Vec<char> = Vec::new();
                push_str(&mut v, "Hook '");
                push_str(&mut v, hook.as_str());
                push_str(&mut v, "' not found in template '");
                push_str(&mut v, template.as_str());
                push_str(&mut v, "'");
                string_from_chars(v.as_slice())
            },
        }
    }
}

impl Default for Template {
    fn default() -> (r: Self)
        ensures
            r.name@.len() == 0,
            r.path@.len() == 0,
            r.comment@.len() == 0,
            r.dependencies@.len() == 0,
            r.post_install_hook@.len() == 0,
            r.hooks@.len() == 0,
            r.jobs is None,
    {
        Self {
            name: String::new(),
            path: String::new(),
            comment: String::new(),
            dependencies: Vec::new(),
            post_install_hook: Vec::new(),
            hooks: Vec::new(),
            jobs: None,
        }
    }
}

/// The post-install hook of a template: the `post_install` named hook when
/// there is one, else the legacy `post_install_hook` list.
pub open spec fn post_install_hook_of(t: Template) -> Hook {
    match lookup(t.hooks@, "post_install"@) {
        Some(h) => h,
        None => t.post_install_hook,
    }
}

/// The name of the universal base template.
pub open spec fn universal_base_name() -> Seq<char> {
    "Universal Base"@
}

impl Template {
    /// Get the post-install hook, checking both old and new formats
    pub fn get_post_install_hook(&self) -> (r: &Hook)
        ensures
            *r == post_install_hook_of(*self),
    {
        match get_entry(&self.hooks, "post_install") {
            Some(h) => h,
            None => &self.post_install_hook,
        }
    }

    /// Check if this is the universal base template
    pub fn is_universal_base(&self) -> (r: bool)
        ensures
            r == (self.name@ == universal_base_name()),
    {
        str_eq(self.name.as_str(), "Universal Base")
    }
}

/// The hook of the given name, or the error that names the hook and the
/// template when there is none.
pub fn hook_named<'a>(template: &'a Template, hook_name: &str) -> (r: Result<&'a Hook, TemplateError>)
    ensures
        match lookup(template.hooks@, hook_name@) {
            Some(h) => r matches Ok(x) && *x == h,
            None => r matches Err(TemplateError::HookNotFound { hook, template: t })
                && hook@ == hook_name@ && t@ == template.name@,
        },
{
    match get_entry(&template.hooks, hook_name) {
        Some(h) => Ok(h),
        None => Err(
            TemplateError::HookNotFound { hook: owned(hook_name), template: template.name.clone() },
        ),
    }
}

/// The placeholder that stands for a variable in template files.
pub open spec fn placeholder(key: Seq<char>) -> Seq<char> {
    "{{"@ + key + "}}"@
}

/// `text` with the placeholders of the variables replaced by their values,
/// one variable after the other, in order.
pub open spec fn filled(text: Seq<char>, vars: Seq<(&str, &str)>) -> Seq<char>
    decreases vars.len(),
{
    if vars.len() == 0 {
        text
    } else {
        filled(replace_seq(text, placeholder(vars[0].0@), vars[0].1@), vars.drop_first())
    }
}

fn placeholder_of(key: &str) -> (r: Vec<char>)
    ensures
        r@ == placeholder(key@),
        r@.len() > 0,
{
    let mut v: Vec<char> = Vec::new();
    push_str(&mut v, "{{");
    push_str(&mut v, key);
    push_str(&mut v, "}}");
    proof {
        reveal_strlit("{{");
    }
    v
}

/// Replaces each `{{key}}` of the text by the variable's value.
pub fn fill_placeholders(text: &str, vars: &Vec<(&str, &str)>) -> (r: String)
    ensures
        r@ == filled(text@, vars@),
{
    let mut cur = chars_of(text);
    let mut i: usize = 0;
    assert(vars@.skip(0) =~= vars@);
    while i < vars.len()
        invariant
            i <= vars@.len(),
            filled(cur@, vars@.skip(i as int)) == filled(text@, vars@),
        decreases vars@.len() - i,
    {
        let (key, value) = vars[i];
        let pat = placeholder_of(key);
        let rep = chars_of(value);
        let next = replace_chars(cur.as_slice(), pat.as_slice(), rep.as_slice());
        assert(vars@.skip(i as int).drop_first() =~= vars@.skip(i + 1));
        cur = next;
        i += 1;
    }
    string_from_chars(cur.as_slice())
}

/// Replacing a pattern that does not occur changes nothing.
pub proof fn lemma_replace_absent(s: Seq<char>, pat: Seq<char>, rep: Seq<char>)
    requires
        pat.len() > 0,
        !contains_seq(s, pat),
    ensures
        replace_seq(s, pat, rep) == s,
    decreases s.len(),
{
    if s.len() > 0 {
        assert(!occurs_at(s, pat, 0));
        let t = s.skip(1);
        assert forall|i: int| !occurs_at(t, pat, i) by {
            if occurs_at(t, pat, i) {
                assert(s.subrange(i + 1, i + 1 + pat.len()) =~= t.subrange(i, i + pat.len()));
                assert(occurs_at(s, pat, i + 1));
            }
        }
        lemma_replace_absent(t, pat, rep);
        assert(seq![s[0]] + t =~= s);
    }
}

/// A text without any `{{` holds no placeholder, so filling it with any
/// variables leaves it as it is.
pub proof fn lemma_fill_without_placeholders(text: Seq<char>, vars: Seq<(&str, &str)>)
    requires
        !contains_seq(text, "{{"@),
    ensures
        filled(text, vars) == text,
    decreases vars.len(),
{
    if vars.len() > 0 {
        let pat = placeholder(vars[0].0@);
        reveal_strlit("{{");
        assert forall|i: int| !occurs_at(text, pat, i) by {
            if occurs_at(text, pat, i) {
                assert(text.subrange(i, i + 2) =~= pat.subrange(0, 2));
                assert(pat.subrange(0, 2) =~= "{{"@);
                assert(occurs_at(text, "{{"@, i));
            }
        }
        lemma_replace_absent(text, pat, vars[0].1@);
        lemma_fill_without_placeholders(text, vars.drop_first());
    }
}

/// How many bytes of a file are looked at to tell text from binary data.
pub fn text_sample_len(file_len: u64) -> (r: usize)
    ensures
        r as int == if file_len < 8000 {
            file_len as int
        } else {
            8000
        },
{
    if file_len < 8000 {
        file_len as usize
    } else {
        8000
    }
}

/// A sample of a file looks like text when it holds no zero byte.
pub fn is_text_sample(sample: &[u8]) -> (r: bool)
    ensures
        r == !sample@.contains(0u8),
{
    let mut i: usize = 0;
    while i < sample.len()
        invariant
            i <= sample@.len(),
            forall|j: int| 0 <= j < i ==> sample@[j] != 0u8,
        decreases sample@.len() - i,
    {
        if sample[i] == 0 {
            assert(sample@[i as int] == 0u8);
            return false;
        }
        i += 1;
    }
    true
}

/// The job that removes the project's remote resources.
pub const REMOVE_PROJECT_JOB: &'static str = "remove-project";

/// What `ncl run` does for a job.
#[derive(Debug)]
pub enum JobAction<'a> {
    /// The template defines no hooks.
    NoHooks,
    /// No job was named: the hooks are listed.
    ListHooks,
    /// The project's remote resources are removed.
    RemoveProject,
    /// The commands of the named hook are run.
    RunHook(&'a Hook),
    /// The named hook does not exist.
    UnknownHook(String),
}

/// Adds the built-in `remove-project` job to the hooks, so that it is
/// listed with them.
pub fn add_remove_project_hook(hooks: &mut Vec<(String, Hook)>)
    requires
        unique_keys(old(hooks)@),
    ensures
        unique_keys(final(hooks)@),
        lookup(final(hooks)@, REMOVE_PROJECT_JOB@) matches Some(h) && views(h@) == seq![
            "Removes the project from coolify and github"@,
        ],
        forall|k: Seq<char>|
            k != REMOVE_PROJECT_JOB@ ==> lookup(final(hooks)@, k) == lookup(old(hooks)@, k),
{
    let mut description: Vec<String> = Vec::new();
    description.push(owned("Removes the project from coolify and github"));
    assert(views(description@) =~= seq!["Removes the project from coolify and github"@]);
    insert_entry(hooks, owned(REMOVE_PROJECT_JOB), description);
}

/// Decides what `ncl run` does: list the hooks when no job is named, remove
/// the project for `remove-project`, else run the named hook if it exists.
pub fn resolve_job<'a>(hooks: &'a Vec<(String, Hook)>, job: Option<&str>) -> (r: JobAction<'a>)
    ensures
        hooks@.len() == 0 ==> r is NoHooks,
        hooks@.len() > 0 && job is None ==> r is ListHooks,
        hooks@.len() > 0 && (job matches Some(j) && j@ == REMOVE_PROJECT_JOB@) ==> r is RemoveProject,
        hooks@.len() > 0 && (job matches Some(j) && j@ != REMOVE_PROJECT_JOB@) ==> match lookup(
            hooks@,
            job.unwrap()@,
        ) {
            Some(h) => r matches JobAction::RunHook(x) && *x == h,
            None => r matches JobAction::UnknownHook(n) && n@ == job.unwrap()@,
        },
{
    if hooks.len() == 0 {
        return JobAction::NoHooks;
    }
    match job {
        None => JobAction::ListHooks,
        Some(name) => {
            if str_eq(name, REMOVE_PROJECT_JOB) {
                JobAction::RemoveProject
            } else {
                match get_entry(hooks, name) {
                    Some(h) => JobAction::RunHook(h),
                    None => JobAction::UnknownHook(owned(name)),
                }
            }
        },
    }
}

/// The lines that list hooks: each hook's name, then its commands indented
/// by four spaces.
pub open spec fn listing(hooks: Seq<(String, Hook)>) -> Seq<Seq<char>>
    decreases hooks.len(),
{
    if hooks.len() == 0 {
        Seq::empty()
    } else {
        let (name, commands) = hooks.last();
        listing(hooks.drop_last()).push(name@) + views(commands@).map_values(
            |c: Seq<char>| "    "@ + c,
        )
    }
}

/// The number of commands over all hooks.
pub open spec fn command_count(hooks: Seq<(String, Hook)>) -> nat
    decreases hooks.len(),
{
    if hooks.len() == 0 {
        0
    } else {
        command_count(hooks.drop_last()) + hooks.last().1@.len()
    }
}

/// The listing shows every hook's name and every command of every hook,
/// indented by four spaces, and nothing else: one line per hook and one per
/// command.
pub proof fn lemma_listing_shows_every_command(hooks: Seq<(String, Hook)>)
    ensures
        listing(hooks).len() == hooks.len() + command_count(hooks),
        forall|i: int| 0 <= i < hooks.len() ==> listing(hooks).contains(#[trigger] hooks[i].0@),
        forall|i: int, j: int|
            0 <= i < hooks.len() && 0 <= j < hooks[i].1@.len() ==> listing(hooks).contains(
                "    "@ + (#[trigger] hooks[i].1@[j])@,
            ),
    decreases hooks.len(),
{
    if hooks.len() > 0 {
        let prev = hooks.drop_last();
        lemma_listing_shows_every_command(prev);
        let (name, commands) = hooks.last();
        let head = listing(prev).push(name@);
        let tail = views(commands@).map_values(|c: Seq<char>| "    "@ + c);
        let all = listing(hooks);
        assert(all == head + tail);
        assert forall|i: int| 0 <= i < hooks.len() implies all.contains(#[trigger] hooks[i].0@) by {
            if i < hooks.len() - 1 {
                assert(prev[i] == hooks[i]);
                assert(listing(prev).contains(prev[i].0@));
                let k = choose|k: int| 0 <= k < listing(prev).len() && listing(prev)[k] == prev[i].0@;
                assert(all[k] == listing(prev)[k]);
            } else {
                assert(all[listing(prev).len() as int] == name@);
            }
        }
        assert forall|i: int, j: int|
            0 <= i < hooks.len() && 0 <= j < hooks[i].1@.len() implies all.contains(
                "    "@ + (#[trigger] hooks[i].1@[j])@,
            ) by {
            if i < hooks.len() - 1 {
                assert(prev[i] == hooks[i]);
                assert(listing(prev).contains("    "@ + prev[i].1@[j]@));
                let k = choose|k: int|
                    0 <= k < listing(prev).len() && listing(prev)[k] == "    "@ + prev[i].1@[j]@;
                assert(all[k] == listing(prev)[k]);
            } else {
                let k = head.len() + j;
                assert(tail[j] == "    "@ + commands@[j]@);
                assert(all[k] == tail[j]);
            }
        }
    }
}

/// The listing of the hooks.
pub fn hook_listing(hooks: &Vec<(String, Hook)>) -> (r: Vec<String>)
    ensures
        views(r@) == listing(hooks@),
{
    let mut out: Vec<String> = Vec::new();
    let mut i: usize = 0;
    while i < hooks.len()
        invariant
            i <= hooks@.len(),
            views(out@) == listing(hooks@.take(i as int)),
        decreases hooks@.len() - i,
    {
        assert(hooks@.take(i + 1).drop_last() =~= hooks@.take(i as int));
        let (name, commands) = &hooks[i];
        let ghost start = views(out@);
        out.push(name.clone());
        let ghost with_name = views(out@);
        assert(with_name =~= start.push(name@));
        let mut j: usize = 0;
        while j < commands.len()
            invariant
                j <= commands@.len(),
                views(out@) == with_name + views(commands@).take(j as int).map_values(
                    |c: Seq<char>| "    "@ + c,
                ),
            decreases commands@.len() - j,
        {
            let mut v: Vec<char> = Vec::new();
            push_str(&mut v, "    ");
            push_str(&mut v, commands[j].as_str());
            let ghost before = views(out@);
            out.push(string_from_chars(v.as_slice()));
            assert(views(out@) =~= before.push("    "@ + commands@[j as int]@));
            assert(views(commands@).take(j + 1).map_values(|c: Seq<char>| "    "@ + c)
                =~= views(commands@).take(j as int).map_values(|c: Seq<char>| "    "@ + c).push(
                "    "@ + commands@[j as int]@,
            ));
            j += 1;
        }
        assert(views(commands@).take(commands@.len() as int) =~= views(commands@));
        i += 1;
    }
    assert(hooks@.take(hooks@.len() as int) =~= hooks@);
    out
}

} // verus!
