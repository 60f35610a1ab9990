//! The project manifest: the applications it declares and the choice of the
//! ones to build.

use crate::failure::{ConfigFault, Failure, FailureView};
use crate::json::{document_of, parse, trees, Json, JsonView};
use crate::text::{chars_of, copy_of, holds, str_view, string_of, text_view, views_of};
use vstd::prelude::*;

verus! {

/// One entry of the manifest's `applications` array, as written: each field
/// is there only where the entry has it as a string.
#[derive(Clone, Debug, PartialEq, Eq)]
pub struct Application {
    pub slug: Option<String>,
    pub name: Option<String>,
    pub root_dir: Option<String>,
}

/// `Application` over texts.
pub struct ApplicationView {
    pub slug: Option<Seq<char>>,
    pub name: Option<Seq<char>>,
    pub root_dir: Option<Seq<char>>,
}

impl View for Application {
    type V = ApplicationView;

    open spec fn view(&self) -> ApplicationView {
        ApplicationView {
            slug: text_view(self.slug),
            name: text_view(self.name),
            root_dir: text_view(self.root_dir),
        }
    }
}

impl ApplicationView {
    /// The slug, else the name.
    pub open spec fn known_label(self) -> Option<Seq<char>> {
        match self.slug {
            Some(slug) => Some(slug),
            None => self.name,
        }
    }

    /// The slug, else the name, else `unknown`.
    pub open spec fn label(self) -> Seq<char> {
        match self.known_label() {
            Some(label) => label,
            None => "unknown"@,
        }
    }

    /// Whether the slug or the name is `wanted`.
    pub open spec fn answers_to(self, wanted: Seq<char>) -> bool {
        self.slug == Some(wanted) || self.name == Some(wanted)
    }

    /// The root directory as written, `.` where the entry has none.
    pub open spec fn root(self) -> Seq<char> {
        match self.root_dir {
            Some(dir) => dir,
            None => "."@,
        }
    }

    /// The root directory relative to the manifest: one leading `/` is
    /// dropped.
    pub open spec fn relative_root(self) -> Seq<char> {
        let root = self.root();
        if root.len() > 0 && root[0] == '/' {
            root.skip(1)
        } else {
            root
        }
    }
}

/// The views of `apps`.
pub open spec fn views(apps: Seq<Application>) -> Seq<ApplicationView> {
    apps.map_values(|a: Application| a@)
}

/// The test for an application that answers to `wanted`.
pub open spec fn answering(wanted: Seq<char>) -> spec_fn(ApplicationView) -> bool {
    |a: ApplicationView| a.answers_to(wanted)
}

/// The known labels of `apps`, in order; an application with neither slug
/// nor name gives none.
pub open spec fn known_labels(apps: Seq<ApplicationView>) -> Seq<Seq<char>>
    decreases apps.len(),
{
    if apps.len() == 0 {
        Seq::empty()
    } else {
        let before = known_labels(apps.drop_last());
        match apps.last().known_label() {
            Some(label) => before.push(label),
            None => before,
        }
    }
}

/// The application that a manifest entry declares.
pub open spec fn application_of(entry: JsonView) -> ApplicationView {
    ApplicationView {
        slug: entry.text_member("slug"@),
        name: entry.text_member("name"@),
        root_dir: entry.text_member("rootDir"@),
    }
}

/// The applications that a document declares: those of its `applications`
/// array, in order. `None` where the document has no such array.
pub open spec fn applications_of(doc: JsonView) -> Option<Seq<ApplicationView>> {
    match doc.member("applications"@) {
        Some(list) => match list.items() {
            Some(items) => Some(items.map_values(|entry: JsonView| application_of(entry))),
            None => None,
        },
        None => None,
    }
}

/// The manifest that a parsed text gives.
pub open spec fn manifest_of(doc: Option<JsonView>) -> Result<Seq<ApplicationView>, FailureView> {
    match doc {
        None => Err(FailureView::ConfigInvalid(ConfigFault::NotJson)),
        Some(doc) => match applications_of(doc) {
            None => Err(FailureView::ConfigInvalid(ConfigFault::NoApplicationsArray)),
            Some(apps) => Ok(apps),
        },
    }
}

/// The applications to build: all of them without a filter, else those that
/// answer to it, in the manifest's order. An empty choice is a failure.
pub open spec fn selection(apps: Seq<ApplicationView>, filter: Option<Seq<char>>) -> Result<
    Seq<ApplicationView>,
    FailureView,
> {
    match filter {
        Some(wanted) => if apps.filter(answering(wanted)).len() == 0 {
            Err(FailureView::ApplicationNotFound { name: wanted, available: known_labels(apps) })
        } else {
            Ok(apps.filter(answering(wanted)))
        },
        None => if apps.len() == 0 {
            Err(FailureView::ConfigInvalid(ConfigFault::NoApplications))
        } else {
            Ok(apps)
        },
    }
}

/// A list of applications, or a failure, over texts.
pub open spec fn outcome_view(outcome: Result<Vec<Application>, Failure>) -> Result<
    Seq<ApplicationView>,
    FailureView,
> {
    match outcome {
        Ok(apps) => Ok(views(apps@)),
        Err(failure) => Err(failure@),
    }
}

/// Without a filter every application of a manifest that has one is chosen.
pub proof fn lemma_no_filter_selects_all(apps: Seq<ApplicationView>)
    requires
        apps.len() > 0,
    ensures
        selection(apps, None) == Ok::<Seq<ApplicationView>, FailureView>(apps),
        selection(apps, None)->Ok_0.len() == apps.len(),
{
}

/// Where no application answers to the filter, none passes it.
pub proof fn lemma_filter_without_match(apps: Seq<ApplicationView>, wanted: Seq<char>)
    requires
        forall|i: int| 0 <= i < apps.len() ==> !(#[trigger] apps[i]).answers_to(wanted),
    ensures
        apps.filter(answering(wanted)).len() == 0,
    decreases apps.len(),
{
    reveal(Seq::filter);
    if apps.len() > 0 {
        lemma_filter_without_match(apps.drop_last(), wanted);
    }
}

/// Where exactly one application answers to the filter, exactly that one is
/// chosen.
pub proof fn lemma_filter_selects_the_one(apps: Seq<ApplicationView>, wanted: Seq<char>, at: int)
    requires
        0 <= at < apps.len(),
        apps[at].answers_to(wanted),
        forall|i: int| 0 <= i < apps.len() && i != at ==> !(#[trigger] apps[i]).answers_to(wanted),
    ensures
        selection(apps, Some(wanted)) == Ok::<Seq<ApplicationView>, FailureView>(seq![apps[at]]),
    decreases apps.len(),
{
    reveal(Seq::filter);
    let rest = apps.drop_last();
    if at == apps.len() - 1 {
        lemma_filter_without_match(rest, wanted);
        assert(apps.filter(answering(wanted)) =~= seq![apps[at]]);
    } else {
        lemma_filter_selects_the_one(rest, wanted, at);
        assert(rest[at] == apps[at]);
    }
}

/// Every label that an application has stands in the list of known labels.
pub proof fn lemma_known_labels_complete(apps: Seq<ApplicationView>, at: int)
    requires
        0 <= at < apps.len(),
        apps[at].known_label() is Some,
    ensures
        known_labels(apps).contains(apps[at].known_label()->Some_0),
    decreases apps.len(),
{
    let before = known_labels(apps.drop_last());
    if at == apps.len() - 1 {
        let all = before.push(apps[at].known_label()->Some_0);
        assert(all[before.len() as int] == apps[at].known_label()->Some_0);
    } else {
        lemma_known_labels_complete(apps.drop_last(), at);
        let label = apps[at].known_label()->Some_0;
        let k = choose|k: int| 0 <= k < before.len() && before[k] == label;
        match apps.last().known_label() {
            Some(other) => {
                assert(before.push(other)[k] == label);
            },
            None => {},
        }
    }
}

/// Where no application answers to the filter, the choice fails and names
/// the filter and every label that the manifest knows.
pub proof fn lemma_filter_unknown_lists_all(apps: Seq<ApplicationView>, wanted: Seq<char>)
    requires
        forall|i: int| 0 <= i < apps.len() ==> !(#[trigger] apps[i]).answers_to(wanted),
    ensures
        selection(apps, Some(wanted)) == Err::<Seq<ApplicationView>, FailureView>(
            FailureView::ApplicationNotFound { name: wanted, available: known_labels(apps) },
        ),
        forall|i: int|
            0 <= i < apps.len() && (#[trigger] apps[i]).known_label() is Some ==> known_labels(
                apps,
            ).contains(apps[i].known_label()->Some_0),
{
    lemma_filter_without_match(apps, wanted);
    assert forall|i: int|
        0 <= i < apps.len() && (#[trigger] apps[i]).known_label() is Some implies known_labels(
        apps,
    ).contains(apps[i].known_label()->Some_0) by {
        lemma_known_labels_complete(apps, i);
    }
}

impl Application {
    /// A copy of the entry.
    pub fn duplicate(&self) -> (out: Application)
        ensures
            out@ == self@,
    {
        Application {
            slug: copy_of(&self.slug),
            name: copy_of(&self.name),
            root_dir: copy_of(&self.root_dir),
        }
    }

    /// The name under which the application is reported: its slug, else its
    /// name, else `unknown`.
    pub fn label(&self) -> (out: String)
        ensures
            out@ == self@.label(),
    {
        match &self.slug {
            Some(slug) => slug.clone(),
            None => match &self.name {
                Some(name) => name.clone(),
                None => "unknown".to_owned(),
            },
        }
    }

    /// The slug, else the name, where the entry has one of them.
    pub fn known_label(&self) -> (out: Option<String>)
        ensures
            text_view(out) == self@.known_label(),
    {
        match &self.slug {
            Some(slug) => Some(slug.clone()),
            None => copy_of(&self.name),
        }
    }

    /// Whether the slug or the name is `wanted`.
    pub fn answers_to(&self, wanted: &str) -> (yes: bool)
        ensures
            yes == self@.answers_to(wanted@),
    {
        holds(&self.slug, wanted) || holds(&self.name, wanted)
    }

    /// The root directory as written, `.` where the entry has none.
    pub fn root(&self) -> (out: String)
        ensures
            out@ == self@.root(),
    {
        match &self.root_dir {
            Some(dir) => dir.clone(),
            None => ".".to_owned(),
        }
    }

    /// The root directory relative to the manifest's directory: one leading
    /// `/` is dropped.
    pub fn relative_root(&self) -> (out: String)
        ensures
            out@ == self@.relative_root(),
    {
        let root = self.root();
        let chars = chars_of(root.as_str());
        if chars.len() > 0 && chars[0] == '/' {
            let mut rest: Vec<char> = Vec::new();
            let mut i: usize = 1;
            while i < chars.len()
                invariant
                    1 <= i <= chars.len(),
                    rest@ == chars@.subrange(1, i as int),
                decreases chars.len() - i,
            {
                rest.push(chars[i]);
                i += 1;
            }
            proof {
                assert(chars@.subrange(1, chars.len() as int) =~= chars@.skip(1));
            }
            string_of(&rest)
        } else {
            root
        }
    }
}

/// The application that a manifest entry declares.
pub fn application_from_json(entry: &Json) -> (app: Application)
    ensures
        app@ == application_of(entry@),
{
    Application {
        slug: entry.text_of("slug"),
        name: entry.text_of("name"),
        root_dir: entry.text_of("rootDir"),
    }
}

/// The applications that a document declares. Fails exactly where the
/// document has no `applications` array.
pub fn applications_from_json(doc: &Json) -> (outcome: Result<Vec<Application>, Failure>)
    ensures
        outcome_view(outcome) == manifest_of(Some(doc@)),
{
    let items = match doc.get("applications") {
        Some(list) => match list.as_array() {
            Some(items) => items,
            None => { return Err(Failure::ConfigInvalid(ConfigFault::NoApplicationsArray)); },
        },
        None => { return Err(Failure::ConfigInvalid(ConfigFault::NoApplicationsArray)); },
    };
    let ghost wanted = trees(items@).map_values(|entry: JsonView| application_of(entry));
    let mut apps: Vec<Application> = Vec::new();
    let mut i: usize = 0;
    while i < items.len()
        invariant
            i <= items.len(),
            wanted == trees(items@).map_values(|entry: JsonView| application_of(entry)),
            views(apps@) == wanted.take(i as int),
        decreases items.len() - i,
    {
        let app = application_from_json(&items[i]);
        let ghost before = apps@;
        apps.push(app);
        i += 1;
        proof {
            assert(views(before).len() == before.len());
            assert(views(apps@).len() == i);
            assert forall|j: int| 0 <= j < i implies views(apps@)[j] == wanted.take(i as int)[j] by {
                if j < i - 1 {
                    assert(views(before)[j] == wanted.take(i - 1)[j]);
                }
            }
            assert(views(apps@) =~= wanted.take(i as int));
        }
    }
    proof {
        assert(wanted.take(items.len() as int) =~= wanted);
    }
    Ok(apps)
}

/// Reads the manifest from the text of its file. Fails where the text is not
/// JSON and where the document has no `applications` array.
pub fn read_manifest(text: &str) -> (outcome: Result<Vec<Application>, Failure>)
    ensures
        outcome_view(outcome) == manifest_of(document_of(text@)),
{
    match parse(text) {
        Some(doc) => applications_from_json(&doc),
        None => Err(Failure::ConfigInvalid(ConfigFault::NotJson)),
    }
}

/// The applications to build, from the text of the manifest file, `None`
/// where the working directory has no manifest, and the filter.
pub open spec fn chosen_of(text: Option<Seq<char>>, filter: Option<Seq<char>>) -> Result<
    Seq<ApplicationView>,
    FailureView,
> {
    match text {
        None => Err(FailureView::ConfigNotFound),
        Some(text) => match manifest_of(document_of(text)) {
            Ok(apps) => selection(apps, filter),
            Err(failure) => Err(failure),
        },
    }
}

/// Reads the manifest and chooses the applications to build. `text` is what
/// the manifest file holds, `None` where the working directory has none.
pub fn open_manifest(text: Option<&str>, filter: Option<&str>) -> (outcome: Result<
    Vec<Application>,
    Failure,
>)
    ensures
        outcome_view(outcome) == chosen_of(str_view(text), str_view(filter)),
{
    match text {
        None => Err(Failure::ConfigNotFound),
        Some(text) => match read_manifest(text) {
            Ok(apps) => select(&apps, filter),
            Err(failure) => Err(failure),
        },
    }
}

/// The known labels of `apps`, in order.
pub fn labels_of(apps: &Vec<Application>) -> (labels: Vec<String>)
    ensures
        views_of(labels@) == known_labels(views(apps@)),
{
    let mut labels: Vec<String> = Vec::new();
    let mut i: usize = 0;
    while i < apps.len()
        invariant
            i <= apps.len(),
            views_of(labels@) == known_labels(views(apps@).take(i as int)),
        decreases apps.len() - i,
    {
        let ghost before = views(apps@).take(i as int);
        let ghost after = views(apps@).take(i + 1);
        proof {
            assert(after.drop_last() =~= before);
            assert(after.last() == apps@[i as int]@);
        }
        match apps[i].known_label() {
            Some(label) => {
                labels.push(label);
                proof {
                    assert(views_of(labels@) =~= known_labels(before).push(label@));
                }
            },
            None => {},
        }
        i += 1;
    }
    proof {
        assert(views(apps@).take(apps.len() as int) =~= views(apps@));
    }
    labels
}

/// Chooses the applications to build: all of them without a filter, else
/// those whose slug or name is the filter, in the manifest's order. Fails
/// where nothing is chosen.
pub fn select(apps: &Vec<Application>, filter: Option<&str>) -> (outcome: Result<
    Vec<Application>,
    Failure,
>)
    ensures
        outcome_view(outcome) == selection(views(apps@), str_view(filter)),
{
    let mut chosen: Vec<Application> = Vec::new();
    let mut i: usize = 0;
    match filter {
        Some(wanted) => {
            while i < apps.len()
                invariant
                    i <= apps.len(),
                    views(chosen@) == views(apps@).take(i as int).filter(answering(wanted@)),
                decreases apps.len() - i,
            {
                let ghost before = views(apps@).take(i as int);
                let ghost after = views(apps@).take(i + 1);
                proof {
                    reveal(Seq::filter);
                    assert(after.drop_last() =~= before);
                    assert(after.last() == apps@[i as int]@);
                }
                if apps[i].answers_to(wanted) {
                    chosen.push(apps[i].duplicate());
                    proof {
                        assert(views(chosen@) =~= before.filter(answering(wanted@)).push(
                            apps@[i as int]@,
                        ));
                    }
                }
                i += 1;
            }
            proof {
                assert(views(apps@).take(apps.len() as int) =~= views(apps@));
            }
            if chosen.len() == 0 {
                let available = labels_of(apps);
                Err(Failure::ApplicationNotFound { name: wanted.to_owned(), available })
            } else {
                Ok(chosen)
            }
        },
        None => {
            if apps.len() == 0 {
                return Err(Failure::ConfigInvalid(ConfigFault::NoApplications));
            }
            while i < apps.len()
                invariant
                    i <= apps.len(),
                    views(chosen@) == views(apps@).take(i as int),
                decreases apps.len() - i,
            {
                let ghost before = chosen@;
                chosen.push(apps[i].duplicate());
                i += 1;
                proof {
                    assert(views(before).len() == before.len());
                    assert(views(chosen@).len() == i);
                    assert forall|j: int| 0 <= j < i implies views(chosen@)[j] == views(apps@).take(
                        i as int,
                    )[j] by {
                        if j < i - 1 {
                            assert(views(before)[j] == views(apps@).take(i - 1)[j]);
                        }
                    }
                    assert(views(chosen@) =~= views(apps@).take(i as int));
                }
            }
            proof {
                assert(views(apps@).take(apps.len() as int) =~= views(apps@));
            }
            Ok(chosen)
        },
    }
}

} // verus!
