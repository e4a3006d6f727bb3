//! How a Torch build is installed and made ready for use. Every step is decided
//! here; downloading, unpacking and loading are left to the caller.
use vstd::prelude::*;

use crate::runtime::config::{RuntimeConfig, TorchSource};
use crate::runtime::target::Target;
use crate::runtime::torch::{Torch, TorchError, OFFICIAL_VERSION, RELEASE};

verus! {

/// One step of an installation into a staging directory.
#[derive(Debug)]
pub enum InstallStep {
    /// Download the URL to a temporary file whose name ends in the suffix.
    Fetch { url: String, suffix: String },
    /// Unpack the files that match a pattern from the file fetched last.
    Extract { patterns: Vec<String> },
    /// Rename a directory of the staging directory.
    Rename { from: String, to: String },
}

/// An installation: the source of the build, the directory of the package, as
/// the components of a path below the store's root, and the steps that fill it.
/// [`next_step`] leads through the steps.
#[derive(Debug)]
pub struct InstallPlan {
    pub source: TorchSource,
    pub directory: Vec<String>,
    pub steps: Vec<InstallStep>,
}

/// What it takes to make a build ready for use. The package is installed first.
/// [`libraries_after`] tells what is loaded then, and [`next_library`] leads
/// through it. `global` tells whether the libraries publish their symbols to
/// the whole process.
#[derive(Debug)]
pub struct Activation {
    pub source: TorchSource,
    pub install: Result<InstallPlan, TorchError>,
    pub libraries: Result<Vec<String>, TorchError>,
    pub global: bool,
}

/// Why a package is not installed or not ready for use: because of the package
/// itself, or because of something that the caller does.
#[derive(Debug)]
pub enum Failure<E> {
    Torch(TorchError),
    Outside(E),
}

/// The characters of an [`InstallStep`].
#[verifier::ext_equal]
pub enum StepView {
    Fetch { url: Seq<char>, suffix: Seq<char> },
    Extract { patterns: Seq<Seq<char>> },
    Rename { from: Seq<char>, to: Seq<char> },
}

impl View for InstallStep {
    type V = StepView;

    open spec fn view(&self) -> StepView {
        match self {
            InstallStep::Fetch { url, suffix } => StepView::Fetch { url: url@, suffix: suffix@ },
            InstallStep::Extract { patterns } => StepView::Extract {
                patterns: crate::text::texts(patterns@),
            },
            InstallStep::Rename { from, to } => StepView::Rename { from: from@, to: to@ },
        }
    }
}

/// The characters of an [`InstallPlan`].
#[verifier::ext_equal]
pub struct PlanView {
    pub source: TorchSource,
    pub directory: Seq<Seq<char>>,
    pub steps: Seq<StepView>,
}

impl View for InstallPlan {
    type V = PlanView;

    open spec fn view(&self) -> PlanView {
        PlanView {
            source: self.source,
            directory: crate::text::texts(self.directory@),
            steps: self.steps@.map_values(|s: InstallStep| s@),
        }
    }
}

/// The characters of a planned installation.
pub open spec fn plan_result(plan: Result<InstallPlan, TorchError>) -> Result<PlanView, TorchError> {
    match plan {
        Ok(p) => Ok(p@),
        Err(error) => Err(error),
    }
}

/// The patterns of the files that a bundled build is made of.
pub open spec fn bundled_patterns() -> Seq<Seq<char>> {
    seq!["**/*.dll"@, "**/*.dylib"@, "**/*.so"@, "**/*.so.*"@]
}

/// The pattern of a library in an official build.
pub open spec fn library_pattern(name: Seq<char>) -> Seq<char> {
    "torch/lib/"@ + name
}

/// The patterns of what a CPU build holds for those who compile against it.
pub open spec fn development_patterns() -> Seq<Seq<char>> {
    seq!["torch/include/**/*"@, "torch/share/cmake/**/*"@, "torch/lib/*.lib"@]
}

/// The patterns of the files that are taken from an official build.
pub open spec fn official_patterns(torch: Torch, names: Seq<Seq<char>>) -> Seq<Seq<char>> {
    let libraries = names.map_values(|name: Seq<char>| library_pattern(name));
    if torch == Torch::Cpu {
        libraries + development_patterns()
    } else {
        libraries
    }
}

/// The steps that fetch archives one after the other and unpack each of them.
pub open spec fn archive_steps(
    urls: Seq<Seq<char>>,
    suffix: Seq<char>,
    patterns: Seq<Seq<char>>,
) -> Seq<StepView>
    decreases urls.len(),
{
    if urls.len() == 0 {
        Seq::empty()
    } else {
        archive_steps(urls.drop_last(), suffix, patterns).push(
            StepView::Fetch { url: urls.last(), suffix },
        ).push(StepView::Extract { patterns })
    }
}

/// The URL of an asset of the bundled release.
pub open spec fn release_url(asset: Seq<char>) -> Seq<char> {
    "https://github.com/koharu-rs/torch/releases/download/"@ + RELEASE@ + "/"@ + asset
}

/// Where a package stands below the root of the store.
pub open spec fn package_directory(torch: Torch, source: TorchSource, target: Target) -> Seq<
    Seq<char>,
> {
    let name = crate::runtime::torch::name_of(torch, target.os);
    match source {
        TorchSource::Bundled => seq!["torch"@, RELEASE@, name],
        TorchSource::Official => seq!["torch-official"@, OFFICIAL_VERSION@, name],
    }
}

/// The installation of the bundled build.
pub open spec fn bundled_plan(torch: Torch, target: Target) -> Result<PlanView, TorchError> {
    match crate::runtime::torch::asset_of(torch, target) {
        Ok(asset) => Ok(
            PlanView {
                source: TorchSource::Bundled,
                directory: package_directory(torch, TorchSource::Bundled, target),
                steps: archive_steps(seq![release_url(asset)], ".tar.gz"@, bundled_patterns()),
            },
        ),
        Err(error) => Err(error),
    }
}

/// The installation of the official build. It is unpacked as `torch` and then
/// renamed to `libtorch`.
pub open spec fn official_plan(torch: Torch, target: Target) -> Result<PlanView, TorchError> {
    match crate::runtime::torch::official_urls_of(torch, target) {
        Err(error) => Err(error),
        Ok(urls) => match crate::runtime::torch::library_names_of(
            torch,
            TorchSource::Official,
            target,
        ) {
            Err(error) => Err(error),
            Ok(names) => Ok(
                PlanView {
                    source: TorchSource::Official,
                    directory: package_directory(torch, TorchSource::Official, target),
                    steps: archive_steps(urls, ".whl"@, official_patterns(torch, names)).push(
                        StepView::Rename { from: "torch"@, to: "libtorch"@ },
                    ),
                },
            ),
        },
    }
}

/// The installation of the build from a source.
pub open spec fn install_plan(torch: Torch, source: TorchSource, target: Target) -> Result<
    PlanView,
    TorchError,
> {
    match source {
        TorchSource::Bundled => bundled_plan(torch, target),
        TorchSource::Official => official_plan(torch, target),
    }
}

/// The installation of the build under a configuration. Where there is no
/// configuration there is no installation.
pub open spec fn configured_plan<E>(
    torch: Torch,
    config: Result<RuntimeConfig, E>,
    target: Target,
) -> Result<PlanView, Failure<E>> {
    match crate::runtime::torch::resolved_source(torch, config) {
        Err(error) => Err(Failure::Outside(error)),
        Ok(source) => match install_plan(torch, source, target) {
            Err(error) => Err(Failure::Torch(error)),
            Ok(plan) => Ok(plan),
        },
    }
}

/// What comes next in a list of `count` tasks when `done` of them are done and
/// the last one came out as told: its error where it failed, and otherwise the
/// next task, if one is left.
pub open spec fn next_task<E>(count: nat, done: nat, outcome: Result<(), E>) -> Result<
    Option<nat>,
    E,
> {
    match outcome {
        Err(error) => Err(error),
        Ok(()) => Ok(
            if done < count {
                Some(done)
            } else {
                None
            },
        ),
    }
}

/// The run of a list of tasks from a point on, where task `i` comes out as
/// `outcomes[i]` if it is performed: how many are performed in all, and how the
/// run ends.
pub open spec fn run_from<E>(
    count: nat,
    done: nat,
    outcome: Result<(), E>,
    outcomes: Seq<Result<(), E>>,
) -> (nat, Result<(), E>)
    decreases count - done,
{
    match next_task(count, done, outcome) {
        Err(error) => (done, Err(error)),
        Ok(None) => (done, Ok(())),
        Ok(Some(at)) => run_from(count, at + 1, outcomes[at as int], outcomes),
    }
}

/// The run of a whole list of tasks.
pub open spec fn run_all<E>(count: nat, outcomes: Seq<Result<(), E>>) -> (nat, Result<(), E>) {
    run_from(count, 0, Ok(()), outcomes)
}

/// The libraries to load once the installation came out as told: none where it
/// failed, which is the failure then.
pub open spec fn loading<T, E>(
    libraries: Result<T, TorchError>,
    installed: Result<(), Failure<E>>,
) -> Result<T, Failure<E>> {
    match installed {
        Err(failure) => Err(failure),
        Ok(()) => match libraries {
            Err(error) => Err(Failure::Torch(error)),
            Ok(paths) => Ok(paths),
        },
    }
}

/// How the installation of a build comes out where the store reports `stored`
/// for a plan that it is given.
pub open spec fn installed<E>(
    torch: Torch,
    config: Result<RuntimeConfig, E>,
    target: Target,
    stored: Result<(), E>,
) -> Result<(), Failure<E>> {
    match configured_plan(torch, config, target) {
        Err(failure) => Err(failure),
        Ok(_) => match stored {
            Err(error) => Err(Failure::Outside(error)),
            Ok(()) => Ok(()),
        },
    }
}

/// How making a build ready for use comes out, where loading library `i` comes
/// out as `loads[i]`: how many libraries are loaded or tried, and how it ends.
pub open spec fn activated<E>(
    torch: Torch,
    config: Result<RuntimeConfig, E>,
    target: Target,
    stored: Result<(), E>,
    loads: Seq<Result<(), E>>,
) -> (nat, Result<(), Failure<E>>) {
    let libraries = match crate::runtime::torch::resolved_source(torch, config) {
        Ok(source) => crate::runtime::torch::library_paths_of(torch, source, target),
        Err(_) => Ok(Seq::empty()),
    };
    match loading(libraries, installed(torch, config, target, stored)) {
        Err(failure) => (0, Err(failure)),
        Ok(paths) => {
            let (performed, end) = run_all(paths.len(), loads);
            match end {
                Err(error) => (performed, Err(Failure::Outside(error))),
                Ok(()) => (performed, Ok(())),
            }
        },
    }
}

/// The index of a task, as the count that it stands for.
pub open spec fn as_task<E>(next: Result<Option<usize>, E>) -> Result<Option<nat>, E> {
    match next {
        Ok(Some(at)) => Ok(Some(at as nat)),
        Ok(None) => Ok(None),
        Err(error) => Err(error),
    }
}

fn advance<E>(count: usize, done: usize, outcome: Result<(), E>) -> (next: Result<
    Option<usize>,
    E,
>)
    ensures
        as_task(next) == next_task(count as nat, done as nat, outcome),
{
    match outcome {
        Err(error) => Err(error),
        Ok(()) => {
            if done < count {
                Ok(Some(done))
            } else {
                Ok(None)
            }
        },
    }
}

/// The step to perform when `done` steps are done and the last of them came out
/// as told. The first step that fails ends the installation with its error.
/// Before the first step `done` is 0 and the outcome a success.
pub fn next_step<E>(plan: &InstallPlan, done: usize, outcome: Result<(), E>) -> (next: Result<
    Option<usize>,
    E,
>)
    ensures
        as_task(next) == next_task(plan.steps@.len(), done as nat, outcome),
        outcome matches Err(e) ==> next == Err::<Option<usize>, E>(e),
        outcome is Ok && done < plan.steps@.len() ==> next == Ok::<Option<usize>, E>(Some(done)),
        outcome is Ok && done >= plan.steps@.len() ==> next == Ok::<Option<usize>, E>(None),
{
    advance(plan.steps.len(), done, outcome)
}

/// The library to load when `done` libraries are loaded and the last of them
/// came out as told. The first one that cannot be loaded ends the loading.
pub fn next_library<E>(libraries: &Vec<String>, done: usize, outcome: Result<(), E>) -> (next:
    Result<Option<usize>, E>)
    ensures
        as_task(next) == next_task(libraries@.len(), done as nat, outcome),
        outcome matches Err(e) ==> next == Err::<Option<usize>, E>(e),
        outcome is Ok && done < libraries@.len() ==> next == Ok::<Option<usize>, E>(Some(done)),
        outcome is Ok && done >= libraries@.len() ==> next == Ok::<Option<usize>, E>(None),
{
    advance(libraries.len(), done, outcome)
}

/// The libraries to load once the installation came out as told. A failed
/// installation comes before libraries that are not known.
pub fn libraries_after<E>(
    libraries: Result<Vec<String>, TorchError>,
    installed: Result<(), Failure<E>>,
) -> (next: Result<Vec<String>, Failure<E>>)
    ensures
        next == loading(libraries, installed),
{
    match installed {
        Err(failure) => Err(failure),
        Ok(()) => match libraries {
            Ok(paths) => Ok(paths),
            Err(error) => Err(Failure::Torch(error)),
        },
    }
}

fn copy_strings(strings: &Vec<String>) -> (copy: Vec<String>)
    ensures
        crate::text::texts(copy@) == crate::text::texts(strings@),
{
    let mut copy: Vec<String> = Vec::new();
    let mut at: usize = 0;
    while at < strings.len()
        invariant
            at <= strings@.len(),
            copy@.len() == at,
            forall|i: int| 0 <= i < at ==> (#[trigger] copy@[i])@ == strings@[i]@,
        decreases strings@.len() - at,
    {
        copy.push(strings[at].clone());
        at += 1;
    }
    assert(crate::text::texts(copy@) =~= crate::text::texts(strings@));
    copy
}

fn plan_archives(urls: &Vec<String>, suffix: &str, patterns: &Vec<String>) -> (steps: Vec<
    InstallStep,
>)
    ensures
        steps@.map_values(|s: InstallStep| s@) == archive_steps(
            crate::text::texts(urls@),
            suffix@,
            crate::text::texts(patterns@),
        ),
{
    let ghost addresses = crate::text::texts(urls@);
    let ghost selected = crate::text::texts(patterns@);
    let mut steps: Vec<InstallStep> = Vec::new();
    let mut at: usize = 0;
    assert(addresses.take(0) =~= Seq::<Seq<char>>::empty());
    assert(steps@.map_values(|s: InstallStep| s@) =~= archive_steps(
        addresses.take(0),
        suffix@,
        selected,
    ));
    while at < urls.len()
        invariant
            at <= urls@.len(),
            addresses == crate::text::texts(urls@),
            selected == crate::text::texts(patterns@),
            steps@.map_values(|s: InstallStep| s@) == archive_steps(
                addresses.take(at as int),
                suffix@,
                selected,
            ),
        decreases urls@.len() - at,
    {
        let ghost earlier = steps@;
        let fetch = InstallStep::Fetch { url: urls[at].clone(), suffix: suffix.to_owned() };
        let extract = InstallStep::Extract { patterns: copy_strings(patterns) };
        let ghost first = fetch@;
        let ghost second = extract@;
        steps.push(fetch);
        steps.push(extract);
        assert(steps@.map_values(|s: InstallStep| s@) =~= earlier.map_values(
            |s: InstallStep| s@,
        ).push(first).push(second));
        assert(addresses.take(at + 1).drop_last() =~= addresses.take(at as int));
        assert(addresses.take(at + 1).last() == urls@[at as int]@);
        at += 1;
    }
    assert(addresses.take(at as int) =~= addresses);
    steps
}

fn plan_directory(torch: Torch, source: TorchSource, target: Target) -> (directory: Vec<String>)
    ensures
        crate::text::texts(directory@) == package_directory(torch, source, target),
{
    let mut directory: Vec<String> = Vec::new();
    match source {
        TorchSource::Bundled => {
            directory.push("torch".to_owned());
            directory.push(RELEASE.to_owned());
        },
        TorchSource::Official => {
            directory.push("torch-official".to_owned());
            directory.push(OFFICIAL_VERSION.to_owned());
        },
    }
    directory.push(torch.name(target.os).to_owned());
    assert(crate::text::texts(directory@) =~= package_directory(torch, source, target));
    directory
}

spec fn slice_texts(slices: Seq<&'static str>) -> Seq<Seq<char>> {
    slices.map_values(|s: &'static str| s@)
}

fn plan_patterns(torch: Torch, names: &Vec<&'static str>) -> (patterns: Vec<String>)
    ensures
        crate::text::texts(patterns@) == official_patterns(
            torch,
            slice_texts(names@),
        ),
{
    let ghost words = slice_texts(names@);
    let mut patterns: Vec<String> = Vec::new();
    let mut at: usize = 0;
    while at < names.len()
        invariant
            at <= names@.len(),
            words == slice_texts(names@),
            patterns@.len() == at,
            forall|i: int| 0 <= i < at ==> (#[trigger] patterns@[i])@ == library_pattern(words[i]),
        decreases names@.len() - at,
    {
        let mut pattern = "torch/lib/".to_owned();
        pattern.append(names[at]);
        patterns.push(pattern);
        at += 1;
    }
    if torch == Torch::Cpu {
        patterns.push("torch/include/**/*".to_owned());
        patterns.push("torch/share/cmake/**/*".to_owned());
        patterns.push("torch/lib/*.lib".to_owned());
    }
    assert(crate::text::texts(patterns@) =~= official_patterns(torch, words));
    patterns
}

impl Torch {
    /// Plans the installation of the bundled build.
    pub fn install_bundled(self, target: Target) -> (plan: Result<InstallPlan, TorchError>)
        ensures
            plan_result(plan) == bundled_plan(self, target),
    {
        let asset = match self.asset(target) {
            Ok(asset) => asset,
            Err(error) => {
                return Err(error);
            },
        };
        let mut url = "https://github.com/koharu-rs/torch/releases/download/".to_owned();
        url.append(RELEASE);
        url.append("/");
        url.append(&asset);
        let ghost address = url@;
        let mut urls: Vec<String> = Vec::new();
        urls.push(url);
        assert(crate::text::texts(urls@) =~= seq![address]);
        let mut patterns: Vec<String> = Vec::new();
        patterns.push("**/*.dll".to_owned());
        patterns.push("**/*.dylib".to_owned());
        patterns.push("**/*.so".to_owned());
        patterns.push("**/*.so.*".to_owned());
        assert(crate::text::texts(patterns@) =~= bundled_patterns());
        Ok(
            InstallPlan {
                source: TorchSource::Bundled,
                directory: plan_directory(self, TorchSource::Bundled, target),
                steps: plan_archives(&urls, ".tar.gz", &patterns),
            },
        )
    }

    /// Plans the installation of the official build.
    pub fn install_official(self, target: Target) -> (plan: Result<InstallPlan, TorchError>)
        ensures
            plan_result(plan) == official_plan(self, target),
    {
        let urls = match self.official_urls(target) {
            Ok(urls) => urls,
            Err(error) => {
                return Err(error);
            },
        };
        let names = match self.library_names(TorchSource::Official, target) {
            Ok(names) => names,
            Err(error) => {
                return Err(error);
            },
        };
        proof {
            let expected = crate::runtime::torch::official_urls_of(self, target)->Ok_0;
            assert(crate::text::texts(urls@) =~= expected);
            let expected = crate::runtime::torch::library_names_of(
                self,
                TorchSource::Official,
                target,
            )->Ok_0;
            assert(slice_texts(names@) =~= expected);
        }
        let patterns = plan_patterns(self, &names);
        let mut steps = plan_archives(&urls, ".whl", &patterns);
        let ghost earlier = steps@;
        steps.push(InstallStep::Rename { from: "torch".to_owned(), to: "libtorch".to_owned() });
        assert(steps@.map_values(|s: InstallStep| s@) =~= earlier.map_values(
            |s: InstallStep| s@,
        ).push(StepView::Rename { from: "torch"@, to: "libtorch"@ }));
        Ok(
            InstallPlan {
                source: TorchSource::Official,
                directory: plan_directory(self, TorchSource::Official, target),
                steps,
            },
        )
    }

    /// Plans the installation of the build from a source.
    pub fn install_with(self, source: TorchSource, target: Target) -> (plan: Result<
        InstallPlan,
        TorchError,
    >)
        ensures
            plan_result(plan) == install_plan(self, source, target),
    {
        match source {
            TorchSource::Bundled => self.install_bundled(target),
            TorchSource::Official => self.install_official(target),
        }
    }

    /// Plans the installation of the build under a configuration. Where the
    /// configuration failed to load, nothing is planned.
    pub fn install<E>(self, config: Result<RuntimeConfig, E>, target: Target) -> (plan: Result<
        InstallPlan,
        Failure<E>,
    >)
        ensures
            (match plan {
                Ok(p) => Ok(p@),
                Err(failure) => Err(failure),
            }) == configured_plan(self, config, target),
    {
        match self.source(config) {
            Err(error) => Err(Failure::Outside(error)),
            Ok(source) => match self.install_with(source, target) {
                Ok(plan) => Ok(plan),
                Err(error) => Err(Failure::Torch(error)),
            },
        }
    }

    /// Plans what it takes to make the build ready for use. Its libraries keep
    /// their symbols to themselves. Where the configuration failed to load,
    /// nothing is planned.
    pub fn activate<E>(self, config: Result<RuntimeConfig, E>, target: Target) -> (activation:
        Result<Activation, E>)
        ensures
            match crate::runtime::torch::resolved_source(self, config) {
                Err(error) => activation == Err::<Activation, E>(error),
                Ok(source) => {
                    &&& activation matches Ok(a)
                    &&& a.source == source
                    &&& plan_result(a.install) == install_plan(self, source, target)
                    &&& crate::runtime::torch::results_spell(
                        a.libraries,
                        crate::runtime::torch::library_paths_of(self, source, target),
                    )
                    &&& !a.global
                },
            },
    {
        match self.source(config) {
            Err(error) => Err(error),
            Ok(source) => Ok(
                Activation {
                    source,
                    install: self.install_with(source, target),
                    libraries: self.library_paths(source, target),
                    global: false,
                },
            ),
        }
    }
}

} // verus!
