//! The template engine's rules: which tokens are replaced by what, in which
//! files, and how the placeholder application directory is renamed.

use crate::failure::{Failure, FailureView};
use crate::text::{
    chars_find, chars_of, chars_replace_all, appended, lemma_replace_all_without_occurrence,
    occurs_in, replace_all, same_text, str_view, string_of,
};
use vstd::prelude::*;

verus! {

/// The two project templates.
#[derive(Clone, Copy, Debug, PartialEq, Eq, Structural)]
pub enum TemplateKind {
    Rust,
    AssemblyScript,
}

/// A token and the text that takes its place.
#[derive(Debug, PartialEq, Eq)]
pub struct Replacement {
    pub token: String,
    pub value: String,
}

/// `Replacement` over texts.
pub struct ReplacementView {
    pub token: Seq<char>,
    pub value: Seq<char>,
}

impl View for Replacement {
    type V = ReplacementView;

    open spec fn view(&self) -> ReplacementView {
        ReplacementView { token: self.token@, value: self.value@ }
    }
}

/// The views of `replacements`.
pub open spec fn replacement_views(replacements: Seq<Replacement>) -> Seq<ReplacementView> {
    replacements.map_values(|r: Replacement| r@)
}

/// What the substitution made of a file's content.
#[derive(Debug, PartialEq, Eq)]
pub struct Substitution {
    pub content: String,
    /// Some token stood in the content when its turn came.
    pub modified: bool,
}

/// The directory of the template's application, relative to the project.
pub open spec fn placeholder_dir() -> Seq<char> {
    "apps/hello_world"@
}

/// The directory of the project's application, relative to the project.
pub open spec fn app_dir_of(project_name: Seq<char>) -> Seq<char> {
    "apps/"@ + project_name
}

/// The renaming of the application directory, both relative to the project.
#[derive(Debug, PartialEq, Eq)]
pub struct Rename {
    pub from: String,
    pub to: String,
}

/// The template that a name stands for: `rust` for the Rust template, any
/// other name for the AssemblyScript one.
pub open spec fn kind_of_name(name: Seq<char>) -> TemplateKind {
    if name == "rust"@ {
        TemplateKind::Rust
    } else {
        TemplateKind::AssemblyScript
    }
}

/// The tokens of a template and what stands for each, in the order in which
/// they are replaced.
pub open spec fn replacements_of(project_name: Seq<char>, description: Seq<char>) -> Seq<
    ReplacementView,
> {
    seq![
        ReplacementView { token: "{{KLAVE_APP_SLUG}}"@, value: project_name },
        ReplacementView { token: "{{KLAVE_APP_DESCRIPTION}}"@, value: description },
        ReplacementView { token: "{{KLAVE_APP_VERSION}}"@, value: "0.0.1"@ },
        ReplacementView { token: "{{KLAVE_APP_LICENSE}}"@, value: "MIT"@ },
        ReplacementView { token: "{{KLAVE_SDK_CURRENT_VERSION}}"@, value: "*"@ },
    ]
}

/// Files with one of these extensions are searched for tokens; all others
/// are left alone.
pub open spec fn text_extension(extension: Seq<char>) -> bool {
    extension == "json"@ || extension == "toml"@ || extension == "rs"@ || extension == "ts"@
        || extension == "wit"@
}

/// `content` after each replacement was made in turn, every occurrence of a
/// token at once.
pub open spec fn applied(content: Seq<char>, replacements: Seq<ReplacementView>) -> Seq<char>
    decreases replacements.len(),
{
    if replacements.len() == 0 {
        content
    } else {
        replace_all(
            applied(content, replacements.drop_last()),
            replacements.last().token,
            replacements.last().value,
        )
    }
}

/// Some token stood in the content when its turn came.
pub open spec fn touched(content: Seq<char>, replacements: Seq<ReplacementView>) -> bool
    decreases replacements.len(),
{
    if replacements.len() == 0 {
        false
    } else {
        touched(content, replacements.drop_last()) || occurs_in(
            applied(content, replacements.drop_last()),
            replacements.last().token,
        )
    }
}

/// What is written back to a file: the new content where the file's
/// extension is one that is searched and some token stood in it, else
/// nothing.
pub open spec fn rewritten(
    extension: Option<Seq<char>>,
    content: Seq<char>,
    replacements: Seq<ReplacementView>,
) -> Option<Seq<char>> {
    match extension {
        Some(ext) => if text_extension(ext) && touched(content, replacements) {
            Some(applied(content, replacements))
        } else {
            None
        },
        None => None,
    }
}

/// A content in which no token stands is not touched and stays as it is.
pub proof fn lemma_untouched_content_is_kept(
    content: Seq<char>,
    replacements: Seq<ReplacementView>,
)
    requires
        forall|i: int|
            0 <= i < replacements.len() ==> (#[trigger] replacements[i]).token.len() > 0
                && !occurs_in(content, replacements[i].token),
    ensures
        applied(content, replacements) == content,
        !touched(content, replacements),
    decreases replacements.len(),
{
    if replacements.len() > 0 {
        let before = replacements.drop_last();
        assert forall|i: int| 0 <= i < before.len() implies (#[trigger] before[i]).token.len() > 0
            && !occurs_in(content, before[i].token) by {
            assert(before[i] == replacements[i]);
        }
        lemma_untouched_content_is_kept(content, before);
        assert(replacements.last() == replacements[replacements.len() - 1]);
        lemma_replace_all_without_occurrence(
            content,
            replacements.last().token,
            replacements.last().value,
        );
    }
}

/// Where nothing was touched, the content is what it was.
pub proof fn lemma_not_touched_means_unchanged(
    content: Seq<char>,
    replacements: Seq<ReplacementView>,
)
    requires
        !touched(content, replacements),
    ensures
        applied(content, replacements) == content,
    decreases replacements.len(),
{
    if replacements.len() > 0 {
        let before = replacements.drop_last();
        lemma_not_touched_means_unchanged(content, before);
        let token = replacements.last().token;
        if token.len() == 0 {
            assert(content.subrange(0, 0) =~= token);
            assert(crate::text::occurs_at(content, token, 0));
        } else {
            lemma_replace_all_without_occurrence(content, token, replacements.last().value);
        }
    }
}

/// The template that a name stands for.
pub fn template_kind(name: &str) -> (kind: TemplateKind)
    ensures
        kind == kind_of_name(name@),
{
    if same_text(name, "rust") {
        TemplateKind::Rust
    } else {
        TemplateKind::AssemblyScript
    }
}

/// A replacement of `token` by `value`.
fn replacement(token: &str, value: &str) -> (out: Replacement)
    ensures
        out@ == (ReplacementView { token: token@, value: value@ }),
{
    Replacement { token: token.to_owned(), value: value.to_owned() }
}

/// The tokens of a template and what stands for each: the project's name
/// and description, and the fixed version, license and SDK version.
pub fn replacements(project_name: &str, description: &str) -> (out: Vec<Replacement>)
    ensures
        replacement_views(out@) == replacements_of(project_name@, description@),
{
    let mut out: Vec<Replacement> = Vec::new();
    out.push(replacement("{{KLAVE_APP_SLUG}}", project_name));
    out.push(replacement("{{KLAVE_APP_DESCRIPTION}}", description));
    out.push(replacement("{{KLAVE_APP_VERSION}}", "0.0.1"));
    out.push(replacement("{{KLAVE_APP_LICENSE}}", "MIT"));
    out.push(replacement("{{KLAVE_SDK_CURRENT_VERSION}}", "*"));
    proof {
        assert(replacement_views(out@) =~= replacements_of(project_name@, description@));
    }
    out
}

/// What scaffolding a project takes: which template is unpacked, what is
/// replaced in its files, and how its application directory is renamed.
#[derive(Debug, PartialEq, Eq)]
pub struct Scaffold {
    pub kind: TemplateKind,
    pub replacements: Vec<Replacement>,
    /// The template's application directory, relative to the project.
    pub placeholder: String,
    /// The project's application directory, relative to the project.
    pub app_dir: String,
}

/// Plans the scaffolding of a project from a template.
pub fn create_template(project_name: &str, description: &str, template_type: &str) -> (out:
    Scaffold)
    ensures
        out.kind == kind_of_name(template_type@),
        replacement_views(out.replacements@) == replacements_of(project_name@, description@),
        out.placeholder@ == placeholder_dir(),
        out.app_dir@ == app_dir_of(project_name@),
{
    Scaffold {
        kind: template_kind(template_type),
        replacements: replacements(project_name, description),
        placeholder: "apps/hello_world".to_owned(),
        app_dir: appended("apps/", project_name),
    }
}

/// Whether files with this extension are searched for tokens.
pub fn is_text_extension(extension: &str) -> (yes: bool)
    ensures
        yes == text_extension(extension@),
{
    same_text(extension, "json") || same_text(extension, "toml") || same_text(extension, "rs")
        || same_text(extension, "ts") || same_text(extension, "wit")
}

/// Makes each replacement in turn, every occurrence of its token at once,
/// and tells whether any token was found.
pub fn substitute(content: &str, replacements: &Vec<Replacement>) -> (out: Substitution)
    ensures
        out.content@ == applied(content@, replacement_views(replacements@)),
        out.modified == touched(content@, replacement_views(replacements@)),
{
    let mut current = chars_of(content);
    let mut modified = false;
    let mut i: usize = 0;
    while i < replacements.len()
        invariant
            i <= replacements.len(),
            current@ == applied(content@, replacement_views(replacements@).take(i as int)),
            modified == touched(content@, replacement_views(replacements@).take(i as int)),
        decreases replacements.len() - i,
    {
        let ghost before = replacement_views(replacements@).take(i as int);
        let ghost after = replacement_views(replacements@).take(i + 1);
        proof {
            assert(after.drop_last() =~= before);
            assert(after.last() == replacements@[i as int]@);
        }
        let token = chars_of(replacements[i].token.as_str());
        let value = chars_of(replacements[i].value.as_str());
        if chars_find(&current, &token).is_some() {
            current = chars_replace_all(&current, &token, &value);
            modified = true;
        } else {
            proof {
                if token@.len() == 0 {
                    assert(current@.subrange(0, 0) =~= token@);
                    assert(crate::text::occurs_at(current@, token@, 0));
                }
                lemma_replace_all_without_occurrence(current@, token@, value@);
            }
        }
        i += 1;
    }
    proof {
        assert(replacement_views(replacements@).take(replacements.len() as int)
            =~= replacement_views(replacements@));
    }
    Substitution { content: string_of(&current), modified }
}

/// What is to be written back to a file with this extension and content:
/// the new content where the extension is one that is searched and a token
/// was found, else nothing.
pub fn rewrite(extension: Option<&str>, content: &str, replacements: &Vec<Replacement>) -> (out:
    Option<String>)
    ensures
        match out {
            Some(text) => rewritten(
                str_view(extension),
                content@,
                replacement_views(replacements@),
            ) == Some(text@),
            None => rewritten(
                str_view(extension),
                content@,
                replacement_views(replacements@),
            ) is None,
        },
{
    match extension {
        Some(ext) => {
            if !is_text_extension(ext) {
                return None;
            }
            let done = substitute(content, replacements);
            if done.modified {
                Some(done.content)
            } else {
                None
            }
        },
        None => None,
    }
}

/// How the application directory is renamed once the template is copied:
/// from the template's placeholder to the directory named after the project.
/// Fails exactly where the placeholder is not there; `shown` is the
/// placeholder's path as the failure shows it.
pub fn rename_plan(project_name: &str, placeholder_exists: bool, shown: &str) -> (out: Result<
    Rename,
    Failure,
>)
    ensures
        match out {
            Ok(rename) => placeholder_exists && rename.from@ == placeholder_dir() && rename.to@
                == app_dir_of(project_name@),
            Err(failure) => !placeholder_exists && failure@ == FailureView::AppDirMissing(shown@),
        },
{
    if placeholder_exists {
        Ok(Rename { from: "apps/hello_world".to_owned(), to: appended("apps/", project_name) })
    } else {
        Err(Failure::AppDirMissing(shown.to_owned()))
    }
}

} // verus!
