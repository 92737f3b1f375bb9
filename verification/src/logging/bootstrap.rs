//! The bootstrap as a sequence of decisions around the caller's two actions:
//! [`begin`], open the file, [`Diagnostics::plan`], install the layers,
//! [`Diagnostics::complete`].

use vstd::prelude::*;
use vstd::string::*;

use crate::logging::filter::{
    resolution_text, resolve_filter, resolved_filter, FilterChoice, FilterView, LevelOverrides,
    UnusableFilter,
};

verus! {

/// The part of the configuration that the bootstrap reads.
#[derive(Clone, Debug, PartialEq, Eq)]
pub struct Config {
    /// Where the log is written; diagnostics are off where this is absent.
    pub log_file: Option<String>,
    /// The level to log at when the environment does not override it.
    pub log_level: Option<String>,
}

/// What a bootstrap starts with.
#[derive(Clone, Debug, PartialEq, Eq)]
pub enum Start {
    /// No destination is configured: there is nothing to open or to install,
    /// and the bootstrap has succeeded.
    Disabled,
    /// Open the file at `path` in the given mode, then ask for the plan.
    Open { path: String, create: bool, append: bool },
}

/// [`Start`] with its path read as a sequence of characters.
pub enum StartView {
    Disabled,
    Open { path: Seq<char>, create: bool, append: bool },
}

impl DeepView for Start {
    type V = StartView;

    open spec fn deep_view(&self) -> StartView {
        match *self {
            Start::Disabled => StartView::Disabled,
            Start::Open { path, create, append } => StartView::Open { path: path@, create, append },
        }
    }
}

/// How opening the destination went.
#[derive(Clone, Debug, PartialEq, Eq)]
pub enum OpenOutcome {
    Opened,
    Failed { reason: String },
}

/// [`OpenOutcome`] with its reason read as a sequence of characters.
pub enum OpenOutcomeView {
    Opened,
    Failed { reason: Seq<char> },
}

impl DeepView for OpenOutcome {
    type V = OpenOutcomeView;

    open spec fn deep_view(&self) -> OpenOutcomeView {
        match *self {
            OpenOutcome::Opened => OpenOutcomeView::Opened,
            OpenOutcome::Failed { reason } => OpenOutcomeView::Failed { reason: reason@ },
        }
    }
}

/// How installing the planned layers went.
#[derive(Clone, Debug, PartialEq, Eq)]
pub enum InstallOutcome {
    Installed,
    /// The process already has a subscriber, whoever installed it.
    Refused { reason: String },
}

/// [`InstallOutcome`] with its reason read as a sequence of characters.
pub enum InstallOutcomeView {
    Installed,
    Refused { reason: Seq<char> },
}

impl DeepView for InstallOutcome {
    type V = InstallOutcomeView;

    open spec fn deep_view(&self) -> InstallOutcomeView {
        match *self {
            InstallOutcome::Installed => InstallOutcomeView::Installed,
            InstallOutcome::Refused { reason } => InstallOutcomeView::Refused { reason: reason@ },
        }
    }
}

/// The sink that writes the log file.
#[derive(Clone, Debug, PartialEq, Eq)]
pub struct FileSink {
    pub path: String,
    /// The filter that events pass before they reach the file.
    pub filter: FilterChoice,
    /// Whether each line names the source file of the event.
    pub with_file: bool,
    /// Whether each line gives the line number of the event.
    pub with_line_number: bool,
    /// Whether each line names the module that emitted the event.
    pub with_target: bool,
    /// Whether lines carry terminal colour codes.
    pub with_ansi: bool,
}

/// One layer of the subscriber to install.
#[derive(Clone, Debug, PartialEq, Eq)]
pub enum Layer {
    File(FileSink),
    /// Records the spans that an error passed through.
    SpanTrace,
    /// The interactive introspection console.
    Console,
}

/// [`Layer`] with its strings read as sequences of characters.
pub enum LayerView {
    File {
        path: Seq<char>,
        filter: FilterView,
        with_file: bool,
        with_line_number: bool,
        with_target: bool,
        with_ansi: bool,
    },
    SpanTrace,
    Console,
}

impl DeepView for Layer {
    type V = LayerView;

    open spec fn deep_view(&self) -> LayerView {
        match *self {
            Layer::File(sink) => LayerView::File {
                path: sink.path@,
                filter: sink.filter.deep_view(),
                with_file: sink.with_file,
                with_line_number: sink.with_line_number,
                with_target: sink.with_target,
                with_ansi: sink.with_ansi,
            },
            Layer::SpanTrace => LayerView::SpanTrace,
            Layer::Console => LayerView::Console,
        }
    }
}

/// Why a bootstrap failed.
#[derive(Clone, Debug, PartialEq, Eq)]
pub enum InitError {
    /// The destination could not be opened.
    OpenFailed { path: String, reason: String },
    /// Neither override is usable, and the level behind them is not either.
    BadFilter(UnusableFilter),
    /// Diagnostics were installed before; the earlier installation stands.
    AlreadyInitialized,
    /// The process refused the layers.
    InstallRefused { reason: String },
}

/// [`InitError`] with its strings read as sequences of characters.
pub enum InitErrorView {
    OpenFailed { path: Seq<char>, reason: Seq<char> },
    BadFilter(FilterView),
    AlreadyInitialized,
    InstallRefused { reason: Seq<char> },
}

impl DeepView for InitError {
    type V = InitErrorView;

    open spec fn deep_view(&self) -> InitErrorView {
        match *self {
            InitError::OpenFailed { path, reason } => InitErrorView::OpenFailed {
                path: path@,
                reason: reason@,
            },
            InitError::BadFilter(unusable) => InitErrorView::BadFilter(unusable.deep_view()),
            InitError::AlreadyInitialized => InitErrorView::AlreadyInitialized,
            InitError::InstallRefused { reason } => InitErrorView::InstallRefused {
                reason: reason@,
            },
        }
    }
}

/// What an error says of itself. The reason why a file did not open is left to
/// the `reason` of the error.
pub open spec fn message_text(error: InitErrorView) -> Seq<char> {
    match error {
        InitErrorView::OpenFailed { path, reason } => "Fail to open file `"@ + path + "`"@,
        InitErrorView::BadFilter(unusable) => "No usable log filter in `"@ + unusable.directives
            + "`"@,
        InitErrorView::AlreadyInitialized => "Diagnostics are already initialized"@,
        InitErrorView::InstallRefused { reason } => "Fail to install diagnostics: "@ + reason,
    }
}

impl InitError {
    /// The error as one line of text.
    pub fn message(&self) -> (text: String)
        ensures
            text@ == message_text(self.deep_view()),
    {
        match self {
            InitError::OpenFailed { path, reason } => {
                String::from_str("Fail to open file `").concat(path.as_str()).concat("`")
            },
            InitError::BadFilter(unusable) => {
                String::from_str("No usable log filter in `").concat(
                    unusable.directives.as_str(),
                ).concat("`")
            },
            InitError::AlreadyInitialized => String::from_str(
                "Diagnostics are already initialized",
            ),
            InitError::InstallRefused { reason } => {
                String::from_str("Fail to install diagnostics: ").concat(reason.as_str())
            },
        }
    }
}

/// A plan, or the error in its place, with strings read as character sequences.
pub open spec fn plan_text(plan: Result<Vec<Layer>, InitError>) -> Result<
    Seq<LayerView>,
    InitErrorView,
> {
    match plan {
        Ok(layers) => Ok(layers.deep_view()),
        Err(error) => Err(error.deep_view()),
    }
}

/// The end of a bootstrap, with strings read as character sequences.
pub open spec fn end_text(end: Result<(), InitError>) -> Result<(), InitErrorView> {
    match end {
        Ok(()) => Ok(()),
        Err(error) => Err(error.deep_view()),
    }
}

/// The file sink names file and line of each event, leaves the emitting module
/// out, and writes no colour codes.
pub open spec fn file_layer(path: Seq<char>, filter: FilterView) -> LayerView {
    LayerView::File {
        path,
        filter,
        with_file: true,
        with_line_number: true,
        with_target: false,
        with_ansi: false,
    }
}

/// The layers to install: the file sink, the span trace, and in a debug build
/// the console.
pub open spec fn planned_layers(path: Seq<char>, filter: FilterView, debug_build: bool) -> Seq<
    LayerView,
> {
    if debug_build {
        seq![file_layer(path, filter), LayerView::SpanTrace, LayerView::Console]
    } else {
        seq![file_layer(path, filter), LayerView::SpanTrace]
    }
}

/// What is to be installed: nothing when the file did not open, nothing when no
/// filter could be resolved, nothing when diagnostics are installed already.
pub open spec fn planned(
    initialized: bool,
    path: Seq<char>,
    opened: OpenOutcomeView,
    filter: Result<FilterView, FilterView>,
    debug_build: bool,
) -> Result<Seq<LayerView>, InitErrorView> {
    match opened {
        OpenOutcomeView::Failed { reason } => Err(InitErrorView::OpenFailed { path, reason }),
        OpenOutcomeView::Opened => match filter {
            Err(unusable) => Err(InitErrorView::BadFilter(unusable)),
            Ok(choice) => if initialized {
                Err(InitErrorView::AlreadyInitialized)
            } else {
                Ok(planned_layers(path, choice, debug_build))
            },
        },
    }
}

/// The state after an attempt to install, and how the bootstrap ends.
pub open spec fn completed(initialized: bool, outcome: InstallOutcomeView) -> (
    bool,
    Result<(), InitErrorView>,
) {
    if initialized {
        (true, Err(InitErrorView::AlreadyInitialized))
    } else {
        match outcome {
            InstallOutcomeView::Installed => (true, Ok(())),
            InstallOutcomeView::Refused { reason } => (
                false,
                Err(InitErrorView::InstallRefused { reason }),
            ),
        }
    }
}

/// The first decision of a bootstrap: whether there is anything to do.
///
/// The destination is opened for appending and is created where it does not
/// exist.
pub fn begin(config: &Config) -> (start: Start)
    ensures
        config.log_file is None ==> start is Disabled,
        config.log_file is Some ==> start.deep_view() == (StartView::Open {
            path: config.log_file->0@,
            create: true,
            append: true,
        }),
{
    match &config.log_file {
        None => Start::Disabled,
        Some(path) => Start::Open { path: path.clone(), create: true, append: true },
    }
}

/// Whether this process has installed its diagnostics.
#[derive(Debug)]
pub struct Diagnostics {
    initialized: bool,
}

impl Diagnostics {
    pub closed spec fn initialized(&self) -> bool {
        self.initialized
    }

    /// The state at process start.
    pub fn new() -> (diagnostics: Diagnostics)
        ensures
            !diagnostics.initialized(),
    {
        Diagnostics { initialized: false }
    }

    pub fn is_initialized(&self) -> (yes: bool)
        ensures
            yes == self.initialized(),
    {
        self.initialized
    }

    /// Decides what to install, given how opening `path` went and which filter
    /// was resolved.
    pub fn plan_with(
        &self,
        path: String,
        opened: OpenOutcome,
        filter: Result<FilterChoice, UnusableFilter>,
        debug_build: bool,
    ) -> (plan: Result<Vec<Layer>, InitError>)
        ensures
            plan_text(plan) == planned(
                self.initialized(),
                path@,
                opened.deep_view(),
                resolution_text(filter),
                debug_build,
            ),
    {
        match opened {
            OpenOutcome::Failed { reason } => Err(InitError::OpenFailed { path, reason }),
            OpenOutcome::Opened => match filter {
                Err(unusable) => Err(InitError::BadFilter(unusable)),
                Ok(choice) => {
                    if self.initialized {
                        return Err(InitError::AlreadyInitialized);
                    }
                    let ghost file = file_layer(path@, choice.deep_view());
                    let mut layers: Vec<Layer> = Vec::new();
                    layers.push(
                        Layer::File(
                            FileSink {
                                path,
                                filter: choice,
                                with_file: true,
                                with_line_number: true,
                                with_target: false,
                                with_ansi: false,
                            },
                        ),
                    );
                    layers.push(Layer::SpanTrace);
                    if debug_build {
                        layers.push(Layer::Console);
                    }
                    assert(layers.deep_view() =~= planned_layers(
                        file->path,
                        file->filter,
                        debug_build,
                    ));
                    Ok(layers)
                },
            },
        }
    }

    /// Decides what to install, given how opening `path` went: resolves the
    /// filter from `overrides` and `log_level`, then plans as
    /// [`Diagnostics::plan_with`] does.
    pub fn plan(
        &self,
        path: String,
        opened: OpenOutcome,
        overrides: &LevelOverrides,
        log_level: &Option<String>,
        debug_build: bool,
    ) -> (plan: Result<Vec<Layer>, InitError>)
        ensures
            plan_text(plan) == planned(
                self.initialized(),
                path@,
                opened.deep_view(),
                resolved_filter(
                    overrides.project.deep_view(),
                    overrides.generic.deep_view(),
                    log_level.deep_view(),
                ),
                debug_build,
            ),
    {
        let filter = resolve_filter(overrides, log_level);
        self.plan_with(path, opened, filter, debug_build)
    }

    /// Records how installing the planned layers went, and ends the bootstrap.
    pub fn complete(&mut self, outcome: InstallOutcome) -> (end: Result<(), InitError>)
        ensures
            (final(self).initialized(), end_text(end)) == completed(
                old(self).initialized(),
                outcome.deep_view(),
            ),
    {
        if self.initialized {
            return Err(InitError::AlreadyInitialized);
        }
        match outcome {
            InstallOutcome::Installed => {
                self.initialized = true;
                Ok(())
            },
            InstallOutcome::Refused { reason } => Err(InitError::InstallRefused { reason }),
        }
    }
}

/// A bootstrap that installed its layers is the last one to do so: from then on
/// the state stays initialized, nothing more is planned, and no attempt to
/// install ends in success.
pub proof fn reinitialization_fails(
    initialized: bool,
    first: InstallOutcomeView,
    path: Seq<char>,
    opened: OpenOutcomeView,
    filter: Result<FilterView, FilterView>,
    debug_build: bool,
    second: InstallOutcomeView,
)
    requires
        completed(initialized, first).1 is Ok,
    ensures
        completed(initialized, first).0,
        planned(completed(initialized, first).0, path, opened, filter, debug_build) is Err,
        completed(completed(initialized, first).0, second) == (
            true,
            Err::<(), InitErrorView>(InitErrorView::AlreadyInitialized),
        ),
{
}

/// Only an installation initializes: the state changes exactly when a
/// bootstrap ends in success, and then from uninitialized to initialized.
pub proof fn initialized_by_success_only(initialized: bool, outcome: InstallOutcomeView)
    ensures
        completed(initialized, outcome).1 is Ok <==> !initialized && outcome is Installed,
        completed(initialized, outcome).1 is Ok ==> completed(initialized, outcome).0,
        completed(initialized, outcome).1 is Err ==> completed(initialized, outcome).0
            == initialized,
{
}

} // verus!
