//! The directory of key pairs.
//!
//! A pair is a private-key file named by its stem and a public-key file
//! named by the stem and `.pub`. A file counts as a private key only where
//! that sibling exists beside it.
//!
//! The caller reads the directory once into a [`KeyDirectory`]. Each
//! operation answers with the steps to perform on disk; the caller performs
//! them in order, stops at the first that fails, and records each that
//! succeeded with [`KeyDirectory::apply`].

use crate::error::{Error, ErrorView};
use crate::listing::{
    filter_membership, filter_no_duplicates, filter_push, strings_without, without,
    without_membership, without_no_duplicates,
};
use crate::names::{child_path, is_plain, is_plain_name, path_in};
use crate::text::{contains_text, debug_form, ends_with, has_suffix, join, quoted, views};
use vstd::prelude::*;

verus! {

/// The names of the files in the key directory, each once, in the order in
/// which the directory gave them.
pub struct KeyDirectory {
    files: Vec<String>,
}

impl View for KeyDirectory {
    type V = Seq<Seq<char>>;

    closed spec fn view(&self) -> Seq<Seq<char>> {
        views(self.files@)
    }
}

/// The public-key file that belongs to the private key `stem`.
pub open spec fn public_name(stem: Seq<char>) -> Seq<char> {
    stem + ".pub"@
}

/// Whether `name` counts as a private key among `files`: it is not itself a
/// public-key file, and its public sibling is there.
pub open spec fn is_key_in(files: Seq<Seq<char>>, name: Seq<char>) -> bool {
    !ends_with(name, ".pub"@) && files.contains(public_name(name))
}

/// The test for a private key among `files`.
pub open spec fn key_test(files: Seq<Seq<char>>) -> spec_fn(Seq<char>) -> bool {
    |name: Seq<char>| is_key_in(files, name)
}

/// The stems of the key pairs among `files`, in the order of `files`.
pub open spec fn listed_keys(files: Seq<Seq<char>>) -> Seq<Seq<char>> {
    files.filter(key_test(files))
}

/// `files` with the file `name`, which is put last where it is new.
pub open spec fn with_file(files: Seq<Seq<char>>, name: Seq<char>) -> Seq<Seq<char>> {
    if files.contains(name) {
        files
    } else {
        files.push(name)
    }
}

/// Without duplicates, `first` with the names of `rest` that are new to it.
pub open spec fn merged(first: Seq<Seq<char>>, rest: Seq<Seq<char>>) -> Seq<Seq<char>>
    decreases rest.len(),
{
    if rest.len() == 0 {
        first
    } else {
        with_file(merged(first, rest.drop_last()), rest.last())
    }
}

/// With `name` there is every file that was there, and `name`.
pub proof fn with_file_membership(files: Seq<Seq<char>>, name: Seq<char>, x: Seq<char>)
    ensures
        with_file(files, name).contains(x) <==> files.contains(x) || x == name,
{
    let out = with_file(files, name);
    if !files.contains(name) {
        assert(out[files.len() as int] == name);
        if out.contains(x) {
            let i = choose|i: int| 0 <= i < out.len() && out[i] == x;
            if i < files.len() {
                assert(files[i] == x);
            }
        }
        if files.contains(x) {
            let i = choose|i: int| 0 <= i < files.len() && files[i] == x;
            assert(out[i] == x);
        }
    }
}

/// Adding a file keeps every name single.
pub proof fn with_file_no_duplicates(files: Seq<Seq<char>>, name: Seq<char>)
    requires
        files.no_duplicates(),
    ensures
        with_file(files, name).no_duplicates(),
{
    let out = with_file(files, name);
    if !files.contains(name) {
        assert forall|i: int, j: int|
            0 <= i < out.len() && 0 <= j < out.len() && i != j implies out[i] != out[j] by {
            if i < files.len() && j < files.len() {
            } else if i < files.len() {
                assert(files.contains(files[i]));
            } else {
                assert(files.contains(files[j]));
            }
        }
    }
}

/// A file is listed where it is there, is no `.pub` file and has its sibling.
pub proof fn listed_membership(files: Seq<Seq<char>>, name: Seq<char>)
    ensures
        listed_keys(files).contains(name) <==> files.contains(name) && is_key_in(files, name),
{
    filter_membership(files, key_test(files), name);
}

/// Where every file name is single, so is every listed key.
pub proof fn listed_keys_are_single(files: Seq<Seq<char>>)
    requires
        files.no_duplicates(),
    ensures
        listed_keys(files).no_duplicates(),
{
    filter_no_duplicates(files, key_test(files));
}

impl KeyDirectory {
    #[verifier::type_invariant]
    spec fn single_names(self) -> bool {
        views(self.files@).no_duplicates()
    }

    /// A directory without files, which is also how an absent directory reads.
    pub fn empty() -> (r: KeyDirectory)
        ensures
            r@ == Seq::<Seq<char>>::empty(),
            r@.no_duplicates(),
    {
        let files: Vec<String> = Vec::new();
        assert(views(files@) == Seq::<Seq<char>>::empty());
        KeyDirectory { files }
    }

    /// The directory that holds the files `names`. A name that occurs again
    /// is taken once, where it stood first.
    pub fn from_listing(names: Vec<String>) -> (r: KeyDirectory)
        ensures
            r@ == merged(Seq::<Seq<char>>::empty(), views(names@)),
            r@.no_duplicates(),
    {
        let mut files: Vec<String> = Vec::new();
        let mut i: usize = 0;
        assert(views(names@).take(0) == Seq::<Seq<char>>::empty());
        assert(views(files@) == Seq::<Seq<char>>::empty());
        while i < names.len()
            invariant
                i <= names.len(),
                views(files@) == merged(Seq::<Seq<char>>::empty(), views(names@).take(i as int)),
                views(files@).no_duplicates(),
            decreases names.len() - i,
        {
            let ghost before = views(files@);
            let ghost prefix = views(names@).take(i + 1);
            assert(prefix.drop_last() == views(names@).take(i as int));
            assert(prefix.last() == names@[i as int]@);
            proof {
                with_file_no_duplicates(before, names@[i as int]@);
            }
            if !contains_text(&files, names[i].as_str()) {
                files.push(names[i].clone());
                assert(views(files@) == before.push(names@[i as int]@));
            }
            i += 1;
        }
        assert(views(names@).take(names.len() as int) == views(names@));
        KeyDirectory { files }
    }

    /// The file names, in order.
    pub fn file_names(&self) -> (r: Vec<String>)
        ensures
            views(r@) == self@,
    {
        let mut out: Vec<String> = Vec::new();
        let mut i: usize = 0;
        while i < self.files.len()
            invariant
                i <= self.files.len(),
                views(out@) == views(self.files@).take(i as int),
            decreases self.files.len() - i,
        {
            let ghost before = views(out@);
            out.push(self.files[i].clone());
            assert(views(out@) == before.push(self.files@[i as int]@));
            assert(views(out@) == views(self.files@).take(i + 1));
            i += 1;
        }
        assert(views(self.files@).take(self.files.len() as int) == views(self.files@));
        out
    }

    /// Whether the directory holds a file `name`.
    pub fn has_file(&self, name: &str) -> (r: bool)
        ensures
            r == self@.contains(name@),
    {
        contains_text(&self.files, name)
    }
}

/// The stems of the key pairs in the directory: each file that is not itself
/// a `.pub` file and has its `.pub` sibling beside it, once, in the
/// directory's order. An empty directory has none.
pub fn list_ssh_keys(dir: &KeyDirectory) -> (r: Vec<String>)
    ensures
        views(r@) == listed_keys(dir@),
        views(r@).no_duplicates(),
{
    proof {
        use_type_invariant(dir);
        listed_keys_are_single(dir@);
    }
    let ghost test = key_test(dir@);
    let mut keys: Vec<String> = Vec::new();
    let mut i: usize = 0;
    assert(dir@.take(0) == Seq::<Seq<char>>::empty());
    assert(views(keys@) == Seq::<Seq<char>>::empty());
    proof {
        reveal(Seq::filter);
    }
    assert(dir@.take(0).filter(test) == Seq::<Seq<char>>::empty());
    while i < dir.files.len()
        invariant
            i <= dir.files.len(),
            dir@ == views(dir.files@),
            test == key_test(dir@),
            views(keys@) == dir@.take(i as int).filter(test),
        decreases dir.files.len() - i,
    {
        let ghost before = views(keys@);
        let name = dir.files[i].as_str();
        proof {
            filter_push(dir@.take(i as int), test, name@);
            assert(dir@.take(i as int).push(name@) == dir@.take(i + 1));
        }
        if !has_suffix(name, ".pub") {
            let sibling = join(name, ".pub");
            if contains_text(&dir.files, sibling.as_str()) {
                keys.push(dir.files[i].clone());
                assert(views(keys@) == before.push(name@));
            }
        }
        i += 1;
    }
    assert(dir@.take(dir.files.len() as int) == dir@);
    keys
}

/// One change to the key directory, for the caller to perform.
#[derive(Debug, PartialEq, Eq)]
pub enum KeyStep {
    /// Remove the file `name`.
    Remove { name: String },
    /// Rename the file `from` to `to`, replacing a file `to`.
    Rename { from: String, to: String },
    /// Run the key generator for a new pair `name`, `name.pub`.
    Generate { algorithm: String, name: String, passphrase: String },
}

/// A [`KeyStep`] with its text as sequences of characters.
pub ghost enum KeyStepView {
    Remove { name: Seq<char> },
    Rename { from: Seq<char>, to: Seq<char> },
    Generate { algorithm: Seq<char>, name: Seq<char>, passphrase: Seq<char> },
}

impl View for KeyStep {
    type V = KeyStepView;

    open spec fn view(&self) -> KeyStepView {
        match self {
            KeyStep::Remove { name } => KeyStepView::Remove { name: name@ },
            KeyStep::Rename { from, to } => KeyStepView::Rename { from: from@, to: to@ },
            KeyStep::Generate { algorithm, name, passphrase } => KeyStepView::Generate {
                algorithm: algorithm@,
                name: name@,
                passphrase: passphrase@,
            },
        }
    }
}

/// The views of the steps of `steps`, in order.
pub open spec fn step_views(steps: Seq<KeyStep>) -> Seq<KeyStepView> {
    Seq::new(steps.len(), |i: int| steps[i]@)
}

/// The files after `step` has succeeded on `files`.
pub open spec fn effect(files: Seq<Seq<char>>, step: KeyStepView) -> Seq<Seq<char>> {
    match step {
        KeyStepView::Remove { name } => without(files, name),
        KeyStepView::Rename { from, to } => if files.contains(from) {
            without(without(files, from), to).push(to)
        } else {
            files
        },
        KeyStepView::Generate { algorithm, name, passphrase } => with_file(
            with_file(files, name),
            public_name(name),
        ),
    }
}

/// The files after every step of `steps` has succeeded on `files`, in order.
pub open spec fn effects(files: Seq<Seq<char>>, steps: Seq<KeyStepView>) -> Seq<Seq<char>>
    decreases steps.len(),
{
    if steps.len() == 0 {
        files
    } else {
        effect(effects(files, steps.drop_last()), steps.last())
    }
}

/// A step keeps every name single.
pub proof fn effect_no_duplicates(files: Seq<Seq<char>>, step: KeyStepView)
    requires
        files.no_duplicates(),
    ensures
        effect(files, step).no_duplicates(),
{
    match step {
        KeyStepView::Remove { name } => {
            without_no_duplicates(files, name);
        },
        KeyStepView::Rename { from, to } => {
            if files.contains(from) {
                let rest = without(without(files, from), to);
                without_no_duplicates(files, from);
                without_no_duplicates(without(files, from), to);
                without_membership(without(files, from), to, to);
                with_file_no_duplicates(rest, to);
                assert(with_file(rest, to) == rest.push(to));
            }
        },
        KeyStepView::Generate { algorithm, name, passphrase } => {
            with_file_no_duplicates(files, name);
            with_file_no_duplicates(with_file(files, name), public_name(name));
        },
    }
}

/// `files` with `name` put last where it is new.
fn names_with(files: Vec<String>, name: &str) -> (r: Vec<String>)
    ensures
        views(r@) == with_file(views(files@), name@),
{
    let mut out = files;
    if !contains_text(&out, name) {
        let ghost before = views(out@);
        out.push(String::from_str(name));
        assert(views(out@) == before.push(name@));
    }
    out
}

impl KeyDirectory {
    /// Records that `step` has been performed on disk.
    pub fn apply(&mut self, step: &KeyStep)
        ensures
            final(self)@ == effect(old(self)@, step@),
            final(self)@.no_duplicates(),
    {
        proof {
            use_type_invariant(&*self);
            effect_no_duplicates(self@, step@);
        }
        match step {
            KeyStep::Remove { name } => {
                let next = strings_without(&self.files, name.as_str());
                self.files = next;
            },
            KeyStep::Rename { from, to } => {
                if contains_text(&self.files, from.as_str()) {
                    let first = strings_without(&self.files, from.as_str());
                    let mut next = strings_without(&first, to.as_str());
                    let ghost before = views(next@);
                    next.push(to.clone());
                    assert(views(next@) == before.push(to@));
                    self.files = next;
                }
            },
            KeyStep::Generate { algorithm, name, passphrase } => {
                let sibling = join(name.as_str(), ".pub");
                let first = names_with(self.file_names(), name.as_str());
                let next = names_with(first, sibling.as_str());
                self.files = next;
            },
        }
    }
}

/// A plan of steps, or a refusal, as the contracts speak of it.
pub open spec fn steps_view(r: Result<Vec<KeyStep>, Error>) -> Result<Seq<KeyStepView>, ErrorView> {
    match r {
        Ok(steps) => Ok(step_views(steps@)),
        Err(e) => Err(e@),
    }
}

/// An outcome without a value, as the contracts speak of it.
pub open spec fn done_view(r: Result<(), Error>) -> Result<(), ErrorView> {
    match r {
        Ok(done) => Ok(done),
        Err(e) => Err(e@),
    }
}

/// An outcome with a status code, as the contracts speak of it.
pub open spec fn code_view(r: Result<i32, Error>) -> Result<i32, ErrorView> {
    match r {
        Ok(code) => Ok(code),
        Err(e) => Err(e@),
    }
}

/// The steps that delete the pair `key`: its private key, then its public
/// sibling where there is one. Without the private key there is nothing to
/// delete, which is a failure of its own.
pub open spec fn delete_steps(files: Seq<Seq<char>>, key: Seq<char>) -> Result<
    Seq<KeyStepView>,
    ErrorView,
> {
    if !files.contains(key) {
        Err(ErrorView::NotFound("Private key file does not exist"@))
    } else if files.contains(public_name(key)) {
        Ok(seq![KeyStepView::Remove { name: key }, KeyStepView::Remove { name: public_name(key) }])
    } else {
        Ok(seq![KeyStepView::Remove { name: key }])
    }
}

/// The steps that rename the pair `old` to `new`: the private key, then the
/// public sibling where there is one. Without the private key there is
/// nothing to rename, whatever `new` is; with it, `new` has to be a plain
/// file name.
pub open spec fn rename_steps(files: Seq<Seq<char>>, old: Seq<char>, new: Seq<char>) -> Result<
    Seq<KeyStepView>,
    ErrorView,
> {
    if !files.contains(old) {
        Err(ErrorView::NotFound("Old private key file does not exist"@))
    } else if !is_plain_name(new) {
        Err(ErrorView::InvalidName("New key name is not a plain file name"@))
    } else if files.contains(public_name(old)) {
        Ok(
            seq![
                KeyStepView::Rename { from: old, to: new },
                KeyStepView::Rename { from: public_name(old), to: public_name(new) },
            ],
        )
    } else {
        Ok(seq![KeyStepView::Rename { from: old, to: new }])
    }
}

/// Decides how the pair `key_name` is deleted.
pub fn delete_ssh_key(dir: &KeyDirectory, key_name: &str) -> (r: Result<Vec<KeyStep>, Error>)
    ensures
        steps_view(r) == delete_steps(dir@, key_name@),
{
    if !dir.has_file(key_name) {
        return Err(Error::NotFound(String::from_str("Private key file does not exist")));
    }
    let sibling = join(key_name, ".pub");
    let mut steps: Vec<KeyStep> = Vec::new();
    steps.push(KeyStep::Remove { name: String::from_str(key_name) });
    if dir.has_file(sibling.as_str()) {
        steps.push(KeyStep::Remove { name: sibling });
        assert(step_views(steps@) == seq![
            KeyStepView::Remove { name: key_name@ },
            KeyStepView::Remove { name: public_name(key_name@) },
        ]);
    } else {
        assert(step_views(steps@) == seq![KeyStepView::Remove { name: key_name@ }]);
    }
    Ok(steps)
}

/// Decides how the pair `old_name` is renamed to `new_name`.
pub fn rename_ssh_key(dir: &KeyDirectory, old_name: &str, new_name: &str) -> (r: Result<
    Vec<KeyStep>,
    Error,
>)
    ensures
        steps_view(r) == rename_steps(dir@, old_name@, new_name@),
{
    if !dir.has_file(old_name) {
        return Err(Error::NotFound(String::from_str("Old private key file does not exist")));
    }
    if !is_plain(new_name) {
        return Err(Error::InvalidName(String::from_str("New key name is not a plain file name")));
    }
    let old_sibling = join(old_name, ".pub");
    let mut steps: Vec<KeyStep> = Vec::new();
    steps.push(
        KeyStep::Rename { from: String::from_str(old_name), to: String::from_str(new_name) },
    );
    if dir.has_file(old_sibling.as_str()) {
        steps.push(KeyStep::Rename { from: old_sibling, to: join(new_name, ".pub") });
        assert(step_views(steps@) == seq![
            KeyStepView::Rename { from: old_name@, to: new_name@ },
            KeyStepView::Rename { from: public_name(old_name@), to: public_name(new_name@) },
        ]);
    } else {
        assert(step_views(steps@) == seq![KeyStepView::Rename { from: old_name@, to: new_name@ }]);
    }
    Ok(steps)
}

/// What deleting a pair amounts to: `failure` is what the file system said
/// of the step that failed, if one did.
pub fn delete_outcome(failure: Option<String>) -> (r: Result<(), Error>)
    ensures
        match failure {
            None => r == Ok::<(), Error>(()),
            Some(text) => done_view(r) == Err::<(), ErrorView>(ErrorView::IoFailure(text@)),
        },
{
    match failure {
        None => Ok(()),
        Some(text) => Err(Error::IoFailure(text)),
    }
}

/// What renaming a pair amounts to, after `completed` steps succeeded and
/// the next one failed with `failure`, if one did. A failure behind a
/// completed step has left the pair in two names and is told apart from a
/// failure that changed nothing.
pub fn rename_outcome(completed: usize, failure: Option<String>) -> (r: Result<(), Error>)
    ensures
        match failure {
            None => r == Ok::<(), Error>(()),
            Some(text) => done_view(r) == Err::<(), ErrorView>(
                if completed == 0 {
                    ErrorView::IoFailure(text@)
                } else {
                    ErrorView::PartialRename(text@)
                },
            ),
        },
{
    match failure {
        None => Ok(()),
        Some(text) => if completed == 0 {
            Err(Error::IoFailure(text))
        } else {
            Err(Error::PartialRename(text))
        },
    }
}

/// The status code of a generation that made a new pair.
pub const CREATED: i32 = 1;

/// The status code of a generation that found the key in place and was not
/// to replace it.
pub const ALREADY_EXISTS: i32 = -1;

/// What generating a pair asks of the caller.
#[derive(Debug, PartialEq, Eq)]
pub enum GeneratePlan {
    /// The private key is there and is to stay: nothing is to be done, and
    /// the caller decides what follows.
    AlreadyExists,
    /// Perform these steps, the last of which runs the key generator.
    Run { steps: Vec<KeyStep> },
}

/// A [`GeneratePlan`] with its steps as the contracts speak of them.
pub ghost enum GeneratePlanView {
    AlreadyExists,
    Run { steps: Seq<KeyStepView> },
}

impl View for GeneratePlan {
    type V = GeneratePlanView;

    open spec fn view(&self) -> GeneratePlanView {
        match self {
            GeneratePlan::AlreadyExists => GeneratePlanView::AlreadyExists,
            GeneratePlan::Run { steps } => GeneratePlanView::Run { steps: step_views(steps@) },
        }
    }
}

/// How the key generator ended.
#[derive(Debug, PartialEq, Eq)]
pub enum ToolReport {
    /// It ran and reported success.
    Succeeded,
    /// It ran and reported failure, with this text on its error stream.
    Failed { diagnostic: String },
    /// It could not be started, for this reason.
    NotStarted { reason: String },
}

/// The steps that clear the way for a new pair `name`: the private key that
/// is there goes, and its public sibling with it.
pub open spec fn clearing_steps(files: Seq<Seq<char>>, name: Seq<char>) -> Seq<KeyStepView> {
    if !files.contains(name) {
        Seq::<KeyStepView>::empty()
    } else if files.contains(public_name(name)) {
        seq![KeyStepView::Remove { name }, KeyStepView::Remove { name: public_name(name) }]
    } else {
        seq![KeyStepView::Remove { name }]
    }
}

/// What generating the pair `name` asks of the caller. A name that is not a
/// plain file name is refused. A private key in place stays unless
/// `overwrite` is set, and is cleared away with its sibling if it is.
pub open spec fn generate_plan(
    files: Seq<Seq<char>>,
    algorithm: Seq<char>,
    passphrase: Seq<char>,
    name: Seq<char>,
    overwrite: bool,
) -> Result<GeneratePlanView, ErrorView> {
    if !is_plain_name(name) {
        Err(ErrorView::InvalidName("Key name is not a plain file name"@))
    } else if files.contains(name) && !overwrite {
        Ok(GeneratePlanView::AlreadyExists)
    } else {
        Ok(
            GeneratePlanView::Run {
                steps: clearing_steps(files, name).push(
                    KeyStepView::Generate { algorithm, name, passphrase },
                ),
            },
        )
    }
}

/// A generation plan, or a refusal, as the contracts speak of it.
pub open spec fn generate_view(r: Result<GeneratePlan, Error>) -> Result<
    GeneratePlanView,
    ErrorView,
> {
    match r {
        Ok(plan) => Ok(plan@),
        Err(e) => Err(e@),
    }
}

/// Decides how a pair named `filename` is generated.
pub fn generate_keys_with_filename(
    dir: &KeyDirectory,
    algorithm: &str,
    password: &str,
    filename: &str,
    overwrite: bool,
) -> (r: Result<GeneratePlan, Error>)
    ensures
        generate_view(r) == generate_plan(dir@, algorithm@, password@, filename@, overwrite),
{
    if !is_plain(filename) {
        return Err(Error::InvalidName(String::from_str("Key name is not a plain file name")));
    }
    let present = dir.has_file(filename);
    if present && !overwrite {
        return Ok(GeneratePlan::AlreadyExists);
    }
    let mut steps: Vec<KeyStep> = Vec::new();
    assert(step_views(steps@) == Seq::<KeyStepView>::empty());
    if present {
        let sibling = join(filename, ".pub");
        steps.push(KeyStep::Remove { name: String::from_str(filename) });
        if dir.has_file(sibling.as_str()) {
            steps.push(KeyStep::Remove { name: sibling });
            assert(step_views(steps@) == seq![
                KeyStepView::Remove { name: filename@ },
                KeyStepView::Remove { name: public_name(filename@) },
            ]);
        } else {
            assert(step_views(steps@) == seq![KeyStepView::Remove { name: filename@ }]);
        }
    }
    let ghost cleared = step_views(steps@);
    steps.push(
        KeyStep::Generate {
            algorithm: String::from_str(algorithm),
            name: String::from_str(filename),
            passphrase: String::from_str(password),
        },
    );
    assert(step_views(steps@) == cleared.push(
        KeyStepView::Generate { algorithm: algorithm@, name: filename@, passphrase: password@ },
    ));
    Ok(GeneratePlan::Run { steps })
}

/// The failure reported for a key generator that ended as `report` says:
/// the generator's own words, quoted as `{:?}` prints them, or the reason
/// for which it did not start.
pub open spec fn generation_failure(report: ToolReport) -> Seq<char> {
    match report {
        ToolReport::Succeeded => Seq::<char>::empty(),
        ToolReport::Failed { diagnostic } => "Error generating keys: "@ + debug_form(diagnostic@),
        ToolReport::NotStarted { reason } => "Error generating keys: "@ + reason@,
    }
}

/// The failure of a generation, with `text` to say what went wrong.
pub fn generation_error(text: &str) -> (r: Error)
    ensures
        r@ == ErrorView::IoFailure("Error generating keys: "@ + text@),
{
    Error::IoFailure(join("Error generating keys: ", text))
}

/// What running the key generator amounts to: [`CREATED`] where it
/// succeeded, and otherwise a failure that carries its diagnostic.
pub fn generation_outcome(report: ToolReport) -> (r: Result<i32, Error>)
    ensures
        report is Succeeded ==> r == Ok::<i32, Error>(CREATED),
        !(report is Succeeded) ==> code_view(r) == Err::<i32, ErrorView>(
            ErrorView::IoFailure(generation_failure(report)),
        ),
{
    match report {
        ToolReport::Succeeded => Ok(CREATED),
        ToolReport::Failed { diagnostic } => {
            let shown = quoted(diagnostic.as_str());
            Err(generation_error(shown.as_str()))
        },
        ToolReport::NotStarted { reason } => Err(generation_error(reason.as_str())),
    }
}

/// The failure reported where a key in the way could not be removed.
pub fn removal_failure(text: &str) -> (r: Error)
    ensures
        r@ == ErrorView::IoFailure("Error removing existing file: "@ + text@),
{
    Error::IoFailure(join("Error removing existing file: ", text))
}

/// The arguments of the key generator for a pair at `path`.
pub open spec fn generator_arguments(
    algorithm: Seq<char>,
    path: Seq<char>,
    passphrase: Seq<char>,
) -> Seq<Seq<char>> {
    seq!["-t"@, algorithm, "-f"@, path, "-N"@, passphrase]
}

/// The arguments with which `ssh-keygen` makes a pair of `algorithm` at
/// `path`, protected by `passphrase`.
pub fn keygen_arguments(algorithm: &str, path: &str, passphrase: &str) -> (r: Vec<String>)
    ensures
        views(r@) == generator_arguments(algorithm@, path@, passphrase@),
{
    let mut arguments: Vec<String> = Vec::new();
    arguments.push(String::from_str("-t"));
    arguments.push(String::from_str(algorithm));
    arguments.push(String::from_str("-f"));
    arguments.push(String::from_str(path));
    arguments.push(String::from_str("-N"));
    arguments.push(String::from_str(passphrase));
    assert(views(arguments@) == generator_arguments(algorithm@, path@, passphrase@));
    arguments
}

/// Where the pair of `algorithm` lies for `username` when no name is given.
pub open spec fn default_key_path(username: Seq<char>, algorithm: Seq<char>) -> Seq<char> {
    "/home/"@ + username + "/.ssh/id_"@ + algorithm
}

/// The arguments with which `ssh-keygen` makes the pair of `algorithm`
/// under its default name in the home of `username`.
pub fn generate_keys(username: &str, algorithm: &str, password: &str) -> (r: Vec<String>)
    ensures
        views(r@) == generator_arguments(
            algorithm@,
            default_key_path(username@, algorithm@),
            password@,
        ),
{
    let mut path = join("/home/", username);
    path.append("/.ssh/id_");
    path.append(algorithm);
    keygen_arguments(algorithm, path.as_str(), password)
}

/// The paths of the files `files` of the directory `dir`, in order.
pub open spec fn paths_in(dir: Seq<char>, files: Seq<Seq<char>>) -> Seq<Seq<char>> {
    Seq::new(files.len(), |i: int| path_in(dir, files[i]))
}

/// The path of every file in the key directory, which lies at `ssh_dir`.
pub fn check_ssh_keys(ssh_dir: &str, dir: &KeyDirectory) -> (r: Vec<String>)
    ensures
        views(r@) == paths_in(ssh_dir@, dir@),
{
    let mut paths: Vec<String> = Vec::new();
    let mut i: usize = 0;
    while i < dir.files.len()
        invariant
            i <= dir.files.len(),
            dir@ == views(dir.files@),
            views(paths@) == paths_in(ssh_dir@, dir@.take(i as int)),
        decreases dir.files.len() - i,
    {
        let ghost before = views(paths@);
        let path = child_path(ssh_dir, dir.files[i].as_str());
        paths.push(path);
        assert(views(paths@) == before.push(path_in(ssh_dir@, dir@[i as int])));
        assert(views(paths@) == paths_in(ssh_dir@, dir@.take(i + 1)));
        i += 1;
    }
    assert(dir@.take(dir.files.len() as int) == dir@);
    paths
}

/// How the step that the caller performed last ended.
#[derive(Debug, PartialEq, Eq)]
pub enum StepResult {
    /// It succeeded, or no step has been performed yet.
    Done,
    /// A file could not be removed or renamed; `text` is what the file
    /// system said.
    Failed { text: String },
    /// The key generator ended as `report` says.
    Generated { report: ToolReport },
}

/// Whether a step that ended as `last` says has failed.
pub open spec fn has_failed(last: StepResult) -> bool {
    match last {
        StepResult::Done => false,
        StepResult::Failed { text } => true,
        StepResult::Generated { report } => !(report is Succeeded),
    }
}

/// The step to perform after `performed` of `planned` steps, the last of
/// which ended as `last` says: the next in order, and none behind a failure
/// or behind the last step.
pub open spec fn step_after(planned: nat, performed: usize, last: StepResult) -> Option<usize> {
    if !has_failed(last) && performed < planned {
        Some(performed)
    } else {
        None
    }
}

/// Which of `steps` the caller is to perform next, if any: steps are taken
/// in order, and the first failure ends the run.
pub fn next_step(steps: &Vec<KeyStep>, performed: usize, last: &StepResult) -> (r: Option<usize>)
    ensures
        r == step_after(steps@.len(), performed, *last),
{
    let failed = match last {
        StepResult::Done => false,
        StepResult::Failed { text } => true,
        StepResult::Generated { report } => match report {
            ToolReport::Succeeded => false,
            _ => true,
        },
    };
    if !failed && performed < steps.len() {
        Some(performed)
    } else {
        None
    }
}

/// The failure with which a run ended whose last step ended as `last` says.
pub open spec fn run_failure(last: StepResult) -> Option<ErrorView> {
    match last {
        StepResult::Done => None,
        StepResult::Failed { text } => Some(ErrorView::IoFailure(text@)),
        StepResult::Generated { report } => if report is Succeeded {
            None
        } else {
            Some(ErrorView::IoFailure(generation_failure(report)))
        },
    }
}

/// What a deletion amounts to whose last step ended as `last` says.
pub open spec fn delete_end(last: StepResult) -> Result<(), ErrorView> {
    match run_failure(last) {
        None => Ok(()),
        Some(e) => Err(e),
    }
}

/// What a rename amounts to after `performed` steps, the last of which
/// ended as `last` says: a failure of a step behind the first has left the
/// pair in two names.
pub open spec fn rename_end(performed: usize, last: StepResult) -> Result<(), ErrorView> {
    match last {
        StepResult::Failed { text } => Err(
            if performed <= 1 {
                ErrorView::IoFailure(text@)
            } else {
                ErrorView::PartialRename(text@)
            },
        ),
        _ => delete_end(last),
    }
}

/// What a generation amounts to that went by `plan` and whose last step
/// ended as `last` says: [`ALREADY_EXISTS`] where the key was in place and
/// was to stay, [`CREATED`] where the generator succeeded, and otherwise
/// the failure of the step that failed.
pub open spec fn generate_end(plan: GeneratePlanView, last: StepResult) -> Result<i32, ErrorView> {
    if plan is AlreadyExists {
        Ok(ALREADY_EXISTS)
    } else {
        match last {
            StepResult::Done => Err(
                ErrorView::IoFailure("Error generating keys: "@ + "the generator was not run"@),
            ),
            StepResult::Failed { text } => Err(
                ErrorView::IoFailure("Error removing existing file: "@ + text@),
            ),
            StepResult::Generated { report } => if report is Succeeded {
                Ok(CREATED)
            } else {
                Err(ErrorView::IoFailure(generation_failure(report)))
            },
        }
    }
}

/// What deleting a pair amounts to, given how the last step ended.
pub fn delete_result(last: StepResult) -> (r: Result<(), Error>)
    ensures
        done_view(r) == delete_end(last),
{
    match last {
        StepResult::Done => Ok(()),
        StepResult::Failed { text } => delete_outcome(Some(text)),
        StepResult::Generated { report } => match generation_outcome(report) {
            Ok(code) => Ok(()),
            Err(e) => Err(e),
        },
    }
}

/// What renaming a pair amounts to, given how many steps were performed
/// and how the last ended.
pub fn rename_result(performed: usize, last: StepResult) -> (r: Result<(), Error>)
    ensures
        done_view(r) == rename_end(performed, last),
{
    match last {
        StepResult::Failed { text } => if performed <= 1 {
            rename_outcome(0, Some(text))
        } else {
            rename_outcome(1, Some(text))
        },
        other => delete_result(other),
    }
}

/// What generating a pair amounts to, given the plan and how the last step
/// ended.
pub fn generate_outcome(plan: &GeneratePlan, last: StepResult) -> (r: Result<i32, Error>)
    ensures
        code_view(r) == generate_end(plan@, last),
{
    match plan {
        GeneratePlan::AlreadyExists => Ok(ALREADY_EXISTS),
        GeneratePlan::Run { steps } => match last {
            StepResult::Done => Err(generation_error("the generator was not run")),
            StepResult::Failed { text } => Err(removal_failure(text.as_str())),
            StepResult::Generated { report } => generation_outcome(report),
        },
    }
}

} // verus!
