//! What is read from git and from the code-hosting search: the author's
//! name and e-mail address, the profile URL and the repository URL guessed
//! from them.

use crate::failure::{Failure, FailureView, Subprocess, SubprocessView};
use crate::json::{document_of, parse, Json, JsonView};
use crate::text::{
    append_chars, chars_of, appended, occurs_at, same_text, starts_with, str_view, string_of,
    text_view, views_of,
};
use crate::toolchain::{Command, CommandView};
use vstd::prelude::*;

verus! {

/// A setting of the user's git configuration.
#[derive(Clone, Copy, Debug, PartialEq, Eq, Structural)]
pub enum GitSetting {
    UserName,
    UserEmail,
}

/// Where the name of the repository is taken from.
#[derive(Clone, Copy, Debug, PartialEq, Eq, Structural)]
pub enum SlugSource {
    /// From the name of the working directory.
    WorkingDir,
    /// From the last component of the slug, read as a path.
    LastComponent,
    /// The slug gives no name.
    Nothing,
}

/// Whether `char::is_whitespace` of std holds of `c`: the character has the
/// Unicode property `White_Space`.
pub uninterp spec fn white_space(c: char) -> bool;

/// `s` without the white space at its start.
pub open spec fn trimmed_start(s: Seq<char>) -> Seq<char>
    decreases s.len(),
{
    if s.len() > 0 && white_space(s[0]) {
        trimmed_start(s.skip(1))
    } else {
        s
    }
}

/// `s` without the white space at its end.
pub open spec fn trimmed_end(s: Seq<char>) -> Seq<char>
    decreases s.len(),
{
    if s.len() > 0 && white_space(s.last()) {
        trimmed_end(s.drop_last())
    } else {
        s
    }
}

/// `s` without the white space at its start and at its end.
pub open spec fn trimmed(s: Seq<char>) -> Seq<char> {
    trimmed_end(trimmed_start(s))
}

/// The value of a setting, from what `git config --get` printed: the output
/// without the white space around it; nothing where git could not be run.
pub open spec fn setting_of(output: Option<Seq<char>>) -> Seq<char> {
    match output {
        Some(text) => trimmed(text),
        None => Seq::empty(),
    }
}

impl GitSetting {
    /// The key of the setting.
    pub open spec fn key(self) -> Seq<char> {
        match self {
            GitSetting::UserName => "user.name"@,
            GitSetting::UserEmail => "user.email"@,
        }
    }
}

/// The command that prints a setting.
pub open spec fn query_of(setting: GitSetting) -> CommandView {
    CommandView { program: "git"@, args: seq!["config"@, "--get"@, setting.key()] }
}

/// The command that creates an empty repository in the directory it is run
/// in.
pub open spec fn init_of() -> CommandView {
    CommandView { program: "git"@, args: seq!["init"@] }
}

/// The address at which users are searched by e-mail address; none for an
/// empty address.
pub open spec fn search_url_of(email: Seq<char>) -> Option<Seq<char>> {
    if email.len() == 0 {
        None
    } else {
        Some("https://api.github.com/search/users?q="@ + email + "+in:email"@)
    }
}

/// The login of the first user that a search result lists.
pub open spec fn first_login(doc: JsonView) -> Option<Seq<char>> {
    match doc.member("items"@) {
        Some(list) => match list.items() {
            Some(items) => if items.len() > 0 {
                items[0].text_member("login"@)
            } else {
                None
            },
            None => None,
        },
        None => None,
    }
}

/// The profile URL that a search result gives: that of the first user
/// listed; nothing where the result is not a document or lists no user with
/// a login.
pub open spec fn profile_of(doc: Option<JsonView>) -> Seq<char> {
    match doc {
        Some(doc) => match first_login(doc) {
            Some(login) => "https://github.com/"@ + login,
            None => Seq::empty(),
        },
        None => Seq::empty(),
    }
}

/// The profile URL for an e-mail address, from the body of the search's
/// response: nothing for an empty address and where no response came.
pub open spec fn profile_url_of(email: Seq<char>, body: Option<Seq<char>>) -> Seq<char> {
    if email.len() == 0 {
        Seq::empty()
    } else {
        match body {
            Some(text) => profile_of(document_of(text)),
            None => Seq::empty(),
        }
    }
}

/// Where the name of the repository is taken from: the working directory
/// for `.` and `./`, the slug's last component for another slug that starts
/// with `./` or `../`, nowhere for any other slug.
pub open spec fn source_of(slug: Seq<char>) -> SlugSource {
    if slug == "."@ || slug == "./"@ {
        SlugSource::WorkingDir
    } else if occurs_at(slug, "./"@, 0) || occurs_at(slug, "../"@, 0) {
        SlugSource::LastComponent
    } else {
        SlugSource::Nothing
    }
}

/// The repository URL guessed from the author's profile URL and the slug:
/// the profile URL, a slash and the repository's name, where the profile is
/// one of `https://github.com/` and the slug gives a name; else nothing.
/// `working_dir` is the name of the working directory and `last_component`
/// the last component of the slug; each is empty where there is none.
pub open spec fn repo_url_of(
    author_url: Seq<char>,
    slug: Seq<char>,
    working_dir: Seq<char>,
    last_component: Seq<char>,
) -> Seq<char> {
    let name = match source_of(slug) {
        SlugSource::WorkingDir => working_dir,
        SlugSource::LastComponent => last_component,
        SlugSource::Nothing => Seq::empty(),
    };
    if occurs_at(author_url, "https://github.com/"@, 0) && name.len() > 0 {
        author_url + "/"@ + name
    } else {
        Seq::empty()
    }
}

/// Leading white space ends at the first character that is none.
pub proof fn lemma_trimmed_start(s: Seq<char>, at: int)
    requires
        0 <= at <= s.len(),
        forall|k: int| 0 <= k < at ==> white_space(#[trigger] s[k]),
        at == s.len() || !white_space(s[at]),
    ensures
        trimmed_start(s) == s.skip(at),
    decreases at,
{
    if at == 0 {
        assert(s.skip(0) =~= s);
    } else {
        let rest = s.skip(1);
        assert forall|k: int| 0 <= k < at - 1 implies white_space(#[trigger] rest[k]) by {
            assert(rest[k] == s[k + 1]);
        }
        lemma_trimmed_start(rest, at - 1);
        assert(rest.skip(at - 1) =~= s.skip(at));
    }
}

/// Trailing white space starts after the last character that is none.
pub proof fn lemma_trimmed_end(s: Seq<char>, end: int)
    requires
        0 <= end <= s.len(),
        forall|k: int| end <= k < s.len() ==> white_space(#[trigger] s[k]),
        end == 0 || !white_space(s[end - 1]),
    ensures
        trimmed_end(s) == s.take(end),
    decreases s.len() - end,
{
    if end == s.len() {
        assert(s.take(end) =~= s);
    } else {
        let rest = s.drop_last();
        lemma_trimmed_end(rest, end);
        assert(rest.take(end) =~= s.take(end));
    }
}

/// Trimming leaves no white space at either end, and takes nothing from a
/// text that has none there.
pub proof fn lemma_trimmed_ends(s: Seq<char>)
    ensures
        trimmed(s).len() > 0 ==> !white_space(trimmed(s)[0]) && !white_space(trimmed(s).last()),
        s.len() > 0 && !white_space(s[0]) && !white_space(s.last()) ==> trimmed(s) == s,
{
    lemma_trimmed_start_shape(s);
    lemma_trimmed_end_shape(trimmed_start(s));
}

/// What is left after trimming the start is a suffix that does not start
/// with white space.
pub proof fn lemma_trimmed_start_shape(s: Seq<char>)
    ensures
        trimmed_start(s).len() <= s.len(),
        trimmed_start(s) == s.skip(s.len() - trimmed_start(s).len()),
        trimmed_start(s).len() > 0 ==> !white_space(trimmed_start(s)[0]),
    decreases s.len(),
{
    if s.len() > 0 && white_space(s[0]) {
        let rest = s.skip(1);
        lemma_trimmed_start_shape(rest);
        assert(rest.skip(rest.len() - trimmed_start(rest).len()) =~= s.skip(
            s.len() - trimmed_start(rest).len(),
        ));
    } else {
        assert(s.skip(0) =~= s);
    }
}

/// What is left after trimming the end is a prefix that does not end with
/// white space.
pub proof fn lemma_trimmed_end_shape(s: Seq<char>)
    ensures
        trimmed_end(s).len() <= s.len(),
        trimmed_end(s) == s.take(trimmed_end(s).len() as int),
        trimmed_end(s).len() > 0 ==> !white_space(trimmed_end(s).last()),
    decreases s.len(),
{
    if s.len() > 0 && white_space(s.last()) {
        let rest = s.drop_last();
        lemma_trimmed_end_shape(rest);
        assert(rest.take(trimmed_end(rest).len() as int) =~= s.take(
            trimmed_end(rest).len() as int,
        ));
    } else {
        assert(s.take(s.len() as int) =~= s);
    }
}

/// Calls `char::is_whitespace` of std, which tells whether the character
/// has the Unicode property `White_Space`.
#[verifier::external_body]
fn is_space(c: char) -> (yes: bool)
    ensures
        yes == white_space(c),
{
    c.is_whitespace()
}

/// `text` without the white space at its start and at its end.
pub fn trim(text: &str) -> (out: String)
    ensures
        out@ == trimmed(text@),
{
    let chars = chars_of(text);
    let mut start: usize = 0;
    while start < chars.len() && is_space(chars[start])
        invariant
            start <= chars.len(),
            forall|k: int| 0 <= k < start ==> white_space(#[trigger] chars@[k]),
        decreases chars.len() - start,
    {
        start += 1;
    }
    let mut end: usize = chars.len();
    while end > start && is_space(chars[end - 1])
        invariant
            start <= end <= chars.len(),
            forall|k: int| end <= k < chars.len() ==> white_space(#[trigger] chars@[k]),
        decreases end - start,
    {
        end -= 1;
    }
    let mut kept: Vec<char> = Vec::new();
    let mut i: usize = start;
    while i < end
        invariant
            start <= i <= end <= chars.len(),
            kept@ == chars@.subrange(start as int, i as int),
        decreases end - i,
    {
        kept.push(chars[i]);
        i += 1;
    }
    proof {
        let rest = chars@.skip(start as int);
        lemma_trimmed_start(chars@, start as int);
        assert forall|k: int| end - start <= k < rest.len() implies white_space(
            #[trigger] rest[k],
        ) by {
            assert(rest[k] == chars@[start + k]);
        }
        if end > start {
            assert(rest[end - start - 1] == chars@[end - 1]);
        }
        lemma_trimmed_end(rest, end - start);
        assert(rest.take(end - start) =~= chars@.subrange(start as int, end as int));
    }
    string_of(&kept)
}

/// The value of a setting, from what `git config --get` printed; nothing
/// where git could not be run.
pub fn setting_value(output: Option<&str>) -> (out: String)
    ensures
        out@ == setting_of(str_view(output)),
{
    match output {
        Some(text) => trim(text),
        None => String::new(),
    }
}

/// The user's name, from what `git config --get user.name` printed.
pub fn find_my_name(output: Option<&str>) -> (out: String)
    ensures
        out@ == setting_of(str_view(output)),
{
    setting_value(output)
}

/// The user's e-mail address, from what `git config --get user.email`
/// printed.
pub fn find_github_email(output: Option<&str>) -> (out: String)
    ensures
        out@ == setting_of(str_view(output)),
{
    setting_value(output)
}

/// Three words as a list.
fn three_words(a: &str, b: &str, c: &str) -> (words: Vec<String>)
    ensures
        views_of(words@) == seq![a@, b@, c@],
{
    let mut words: Vec<String> = Vec::new();
    words.push(a.to_owned());
    words.push(b.to_owned());
    words.push(c.to_owned());
    proof {
        assert(views_of(words@) =~= seq![a@, b@, c@]);
    }
    words
}

/// The command that prints a setting of the user's git configuration.
pub fn config_query(setting: GitSetting) -> (command: Command)
    ensures
        command@ == query_of(setting),
{
    let key = match setting {
        GitSetting::UserName => "user.name",
        GitSetting::UserEmail => "user.email",
    };
    Command { program: "git".to_owned(), args: three_words("config", "--get", key) }
}

/// The command that creates an empty repository in the directory it is run
/// in.
pub fn init_command() -> (command: Command)
    ensures
        command@ == init_of(),
{
    let mut args: Vec<String> = Vec::new();
    args.push("init".to_owned());
    proof {
        assert(views_of(args@) =~= seq!["init"@]);
    }
    Command { program: "git".to_owned(), args }
}

/// What `git init` came to: a failure, with what it wrote to standard error,
/// exactly where it did not exit with status 0.
pub fn init_outcome(success: bool, stderr: &str) -> (out: Result<(), Failure>)
    ensures
        match out {
            Ok(_) => success,
            Err(failure) => !success && failure@ == FailureView::SubprocessFailed(
                SubprocessView::GitInit(stderr@),
            ),
        },
{
    if success {
        Ok(())
    } else {
        Err(Failure::SubprocessFailed(Subprocess::GitInit(stderr.to_owned())))
    }
}

/// The address at which users are searched by e-mail address; none for an
/// empty address, for which no search is made.
pub fn profile_search_url(email: &str) -> (out: Option<String>)
    ensures
        text_view(out) == search_url_of(email@),
{
    if email.is_empty() {
        None
    } else {
        let mut acc = chars_of("https://api.github.com/search/users?q=");
        let mail = chars_of(email);
        let tail = chars_of("+in:email");
        append_chars(&mut acc, &mail);
        append_chars(&mut acc, &tail);
        Some(string_of(&acc))
    }
}

/// The profile URL that a search result gives.
pub fn profile_url(doc: &Json) -> (out: String)
    ensures
        out@ == profile_of(Some(doc@)),
{
    let items = match doc.get("items") {
        Some(list) => match list.as_array() {
            Some(items) => items,
            None => { return String::new(); },
        },
        None => { return String::new(); },
    };
    if items.len() == 0 {
        return String::new();
    }
    match items[0].text_of("login") {
        Some(login) => appended("https://github.com/", login.as_str()),
        None => String::new(),
    }
}

/// The profile URL for an e-mail address, from the body of the response to
/// the search; `None` for the body where no response came.
pub fn find_github_profile_url(email: &str, body: Option<&str>) -> (out: String)
    ensures
        out@ == profile_url_of(email@, str_view(body)),
{
    if email.is_empty() {
        return String::new();
    }
    match body {
        Some(text) => match parse(text) {
            Some(doc) => profile_url(&doc),
            None => String::new(),
        },
        None => String::new(),
    }
}

/// Where the name of the repository is taken from.
pub fn slug_source(slug: &str) -> (source: SlugSource)
    ensures
        source == source_of(slug@),
{
    if same_text(slug, ".") || same_text(slug, "./") {
        SlugSource::WorkingDir
    } else if starts_with(slug, "./") || starts_with(slug, "../") {
        SlugSource::LastComponent
    } else {
        SlugSource::Nothing
    }
}

/// Guesses the repository URL from the author's profile URL and the slug.
/// `working_dir` is the name of the working directory and `last_component`
/// the last component of the slug read as a path; each is empty where there
/// is none.
pub fn guess_repo_url(author_url: &str, slug: &str, working_dir: &str, last_component: &str) -> (out:
    String)
    ensures
        out@ == repo_url_of(author_url@, slug@, working_dir@, last_component@),
{
    if !starts_with(author_url, "https://github.com/") {
        return String::new();
    }
    let name = match slug_source(slug) {
        SlugSource::WorkingDir => working_dir,
        SlugSource::LastComponent => last_component,
        SlugSource::Nothing => { return String::new(); },
    };
    if name.is_empty() {
        return String::new();
    }
    let mut acc = chars_of(author_url);
    let slash = chars_of("/");
    let tail = chars_of(name);
    append_chars(&mut acc, &slash);
    append_chars(&mut acc, &tail);
    string_of(&acc)
}

} // verus!
