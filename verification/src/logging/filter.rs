//! Which filter directives the log file is written under.

use vstd::prelude::*;
use vstd::string::*;
use vstd::utf8::is_ascii_chars;

verus! {

/// Environment variable of the generic level override.
pub const GENERIC_LEVEL_VAR: &'static str = "RUST_LOG";

/// What follows the project's name in the variable of its own level override.
pub const PROJECT_LEVEL_SUFFIX: &'static str = "_LOG_LEVEL";

/// The level used when nothing else is configured.
pub const FALLBACK_LEVEL: &'static str = "info";

/// Where filter directives were taken from, in the order in which the sources
/// are consulted.
#[derive(Clone, Copy, Debug, PartialEq, Eq, Structural)]
pub enum FilterSource {
    /// The project's own environment variable.
    ProjectOverride,
    /// The environment variable that tracing tools share.
    GenericOverride,
    /// The level from the configuration.
    Configured,
    /// The hard-coded level.
    Fallback,
}

/// The values of the two environment overrides, each absent when its variable
/// is unset or does not hold Unicode text.
#[derive(Clone, Debug, PartialEq, Eq)]
pub struct LevelOverrides {
    pub project: Option<String>,
    pub generic: Option<String>,
}

/// The directives that won, and the source they came from.
#[derive(Clone, Debug, PartialEq, Eq)]
pub struct FilterChoice {
    pub source: FilterSource,
    pub directives: String,
}

/// The directives of the last source consulted, which are not usable either.
#[derive(Clone, Debug, PartialEq, Eq)]
pub struct UnusableFilter {
    pub source: FilterSource,
    pub directives: String,
}

/// Directives and their source, the directives read as a sequence of characters.
pub struct FilterView {
    pub source: FilterSource,
    pub directives: Seq<char>,
}

impl DeepView for FilterChoice {
    type V = FilterView;

    open spec fn deep_view(&self) -> FilterView {
        FilterView { source: self.source, directives: self.directives@ }
    }
}

impl DeepView for UnusableFilter {
    type V = FilterView;

    open spec fn deep_view(&self) -> FilterView {
        FilterView { source: self.source, directives: self.directives@ }
    }
}

/// A resolution with its strings read as character sequences.
pub open spec fn resolution_text(resolution: Result<FilterChoice, UnusableFilter>) -> Result<
    FilterView,
    FilterView,
> {
    match resolution {
        Ok(choice) => Ok(choice.deep_view()),
        Err(unusable) => Err(unusable.deep_view()),
    }
}

/// Whether `tracing_subscriber::EnvFilter::try_new` accepts `directives`.
pub uninterp spec fn filter_accepts(directives: Seq<char>) -> bool;

/// Whether `char::is_whitespace` holds of `c`.
pub uninterp spec fn white_space(c: char) -> bool;

/// Whether position `i` of `directives` begins a piece. The pieces are what
/// lies between the commas.
pub open spec fn begins_piece(directives: Seq<char>, i: int) -> bool {
    i == 0 || directives[i - 1] == ','
}

/// Whether no comma stands at the positions from `i` up to `j`, `j` left out.
pub open spec fn within_piece(directives: Seq<char>, i: int, j: int) -> bool {
    forall|k: int| i <= k < j ==> directives[k] != ','
}

/// Whether the filter parser can be run on `directives`: no piece both begins
/// with white space and holds a character outside ASCII.
///
/// The parser counts byte offsets in a piece after trimming it and cuts the
/// untrimmed piece at them. The offsets are right where nothing was trimmed
/// off the front, and they are character boundaries in any case where every
/// character of the piece takes one byte.
pub open spec fn parse_safe(directives: Seq<char>) -> bool {
    forall|i: int, j: int|
        #![trigger within_piece(directives, i, j)]
        0 <= i <= j < directives.len() && begins_piece(directives, i) && white_space(
            directives[i],
        ) && within_piece(directives, i, j) ==> directives[j] <= '\u{7f}'
}

/// Directives yield a usable filter when the filter parser can be run on them
/// and accepts them.
pub open spec fn usable(directives: Seq<char>) -> bool {
    parse_safe(directives) && filter_accepts(directives)
}

/// Plain ASCII directives can be shown to the parser, and so can directives of
/// which no piece begins with white space.
pub proof fn plain_directives_are_parse_safe(directives: Seq<char>)
    ensures
        is_ascii_chars(directives) ==> parse_safe(directives),
        (forall|i: int|
            0 <= i < directives.len() && begins_piece(directives, i) ==> !white_space(
                #[trigger] directives[i],
            )) ==> parse_safe(directives),
{
}

/// `char::is_whitespace`.
///
/// Not proved: that the answer depends on the character alone, which is what
/// [`white_space`] names.
#[verifier::external_body]
fn is_white_space(c: char) -> (yes: bool)
    ensures
        yes == white_space(c),
{
    c.is_whitespace()
}

/// `tracing_subscriber::EnvFilter::try_new`, asked only whether it succeeds.
///
/// Not proved: that success depends on the text of `directives` alone, which is
/// what [`filter_accepts`] names. Text that is not [`parse_safe`] is kept away:
/// the parser may cut it inside a character. That rests on `str::trim` taking
/// off the characters of [`white_space`] and no others; the documentation of
/// both names the Unicode property `White_Space`.
#[verifier::external_body]
fn try_filter(directives: &str) -> (accepted: bool)
    requires
        parse_safe(directives@),
    ensures
        accepted == filter_accepts(directives@),
{
    ::tracing_subscriber::EnvFilter::try_new(directives).is_ok()
}

/// Whether the filter parser can be run on `directives`.
pub fn is_parse_safe(directives: &str) -> (yes: bool)
    ensures
        yes == parse_safe(directives@),
{
    broadcast use group_string_axioms;

    let ghost text = directives@;
    let ghost mut start: int = 0;
    let mut at_start = true;
    let mut risky = false;
    for c in it: directives.chars()
        invariant
            text == directives@,
            it.seq() == text,
            0 <= start <= it.index(),
            begins_piece(text, start),
            within_piece(text, start, it.index() as int),
            at_start <==> start == it.index(),
            risky <==> start < it.index() && white_space(text[start]),
            forall|i: int, j: int|
                #![trigger within_piece(text, i, j)]
                0 <= i <= j < it.index() && begins_piece(text, i) && white_space(text[i])
                    && within_piece(text, i, j) ==> text[j] <= '\u{7f}',
    {
        let ghost here = it.index() as int;
        let ghost piece = start;
        assert(c == text[here]);
        if c == ',' {
            at_start = true;
            risky = false;
            proof {
                start = here + 1;
            }
        } else {
            if at_start {
                risky = is_white_space(c);
                at_start = false;
            }
            if risky && c > '\u{7f}' {
                assert(within_piece(text, piece, here));
                return false;
            }
        }
        assert forall|i: int, j: int|
            #![trigger within_piece(text, i, j)]
            0 <= i <= j < here + 1 && begins_piece(text, i) && white_space(text[i])
                && within_piece(text, i, j) implies text[j] <= '\u{7f}' by {
            if j == here && c != ',' {
                if i < piece {
                    assert(text[piece - 1] == ',');
                } else if i > piece {
                    assert(text[i - 1] == ',');
                }
                assert(i == piece);
            }
        }
    }
    true
}

/// Whether `directives` yield a usable filter.
pub fn is_usable(directives: &str) -> (yes: bool)
    ensures
        yes == usable(directives@),
{
    is_parse_safe(directives) && try_filter(directives)
}

/// The name of the project's own level override: the project's name followed
/// by [`PROJECT_LEVEL_SUFFIX`].
pub fn project_level_var(project_name: &str) -> (name: String)
    ensures
        name@ == project_name@ + PROJECT_LEVEL_SUFFIX@,
{
    String::from_str(project_name).concat(PROJECT_LEVEL_SUFFIX)
}

/// The level that stands behind the overrides: the configured one, or the
/// fallback where none is configured.
pub open spec fn effective_level(configured: Option<Seq<char>>) -> FilterView {
    match configured {
        Some(level) => FilterView { source: FilterSource::Configured, directives: level },
        None => FilterView { source: FilterSource::Fallback, directives: FALLBACK_LEVEL@ },
    }
}

/// The first source that is set and usable wins: the project's override, then
/// the generic one, then the effective level. `project_usable` and
/// `generic_usable` matter only where the override is set.
pub open spec fn chosen_filter(
    project: Option<Seq<char>>,
    project_usable: bool,
    generic: Option<Seq<char>>,
    generic_usable: bool,
    configured: Option<Seq<char>>,
    level_usable: bool,
) -> Result<FilterView, FilterView> {
    if project is Some && project_usable {
        Ok(FilterView { source: FilterSource::ProjectOverride, directives: project->0 })
    } else if generic is Some && generic_usable {
        Ok(FilterView { source: FilterSource::GenericOverride, directives: generic->0 })
    } else if level_usable {
        Ok(effective_level(configured))
    } else {
        Err(effective_level(configured))
    }
}

/// [`chosen_filter`] where each source is as usable as the filter parser says.
pub open spec fn resolved_filter(
    project: Option<Seq<char>>,
    generic: Option<Seq<char>>,
    configured: Option<Seq<char>>,
) -> Result<FilterView, FilterView> {
    chosen_filter(
        project,
        project is Some && usable(project->0),
        generic,
        generic is Some && usable(generic->0),
        configured,
        usable(effective_level(configured).directives),
    )
}

/// The directives that a resolution settled on, usable or not.
pub open spec fn settled(resolution: Result<FilterView, FilterView>) -> FilterView {
    match resolution {
        Ok(choice) => choice,
        Err(unusable) => unusable,
    }
}

/// Precedence of the sources. Where each override that is set is usable, the
/// project's override wins over everything, the generic override wins over the
/// configured level, the configured level is settled on when no override is
/// set, and the fallback level when nothing is set at all. Only the level
/// behind the overrides can leave the resolution without a filter.
pub proof fn filter_precedence(
    project: Option<Seq<char>>,
    generic: Option<Seq<char>>,
    configured: Option<Seq<char>>,
)
    requires
        project is Some ==> usable(project->0),
        generic is Some ==> usable(generic->0),
    ensures
        project is Some ==> resolved_filter(project, generic, configured) == Ok::<
            FilterView,
            FilterView,
        >(FilterView { source: FilterSource::ProjectOverride, directives: project->0 }),
        project is None && generic is Some ==> resolved_filter(project, generic, configured)
            == Ok::<FilterView, FilterView>(
            FilterView { source: FilterSource::GenericOverride, directives: generic->0 },
        ),
        project is None && generic is None && configured is Some ==> settled(
            resolved_filter(project, generic, configured),
        ) == (FilterView { source: FilterSource::Configured, directives: configured->0 }),
        project is None && generic is None && configured is None ==> settled(
            resolved_filter(project, generic, configured),
        ) == (FilterView { source: FilterSource::Fallback, directives: FALLBACK_LEVEL@ }),
        project is None && generic is None ==> (resolved_filter(project, generic, configured) is Ok
            <==> usable(effective_level(configured).directives)),
{
}

/// An override that is set but not usable is passed over: the resolution is
/// what it would be were the override not set.
pub proof fn unusable_override_is_skipped(
    project: Option<Seq<char>>,
    generic: Option<Seq<char>>,
    configured: Option<Seq<char>>,
)
    ensures
        project is Some && !usable(project->0) ==> resolved_filter(project, generic, configured)
            == resolved_filter(None, generic, configured),
        generic is Some && !usable(generic->0) ==> resolved_filter(project, generic, configured)
            == resolved_filter(project, None, configured),
{
}

/// Picks the directives to filter by, given what each source holds and whether
/// what it holds is usable.
pub fn choose_filter(
    project: Option<String>,
    project_usable: bool,
    generic: Option<String>,
    generic_usable: bool,
    configured: Option<String>,
    level_usable: bool,
) -> (resolution: Result<FilterChoice, UnusableFilter>)
    ensures
        resolution_text(resolution) == chosen_filter(
            project.deep_view(),
            project_usable,
            generic.deep_view(),
            generic_usable,
            configured.deep_view(),
            level_usable,
        ),
{
    if let Some(directives) = project {
        if project_usable {
            return Ok(FilterChoice { source: FilterSource::ProjectOverride, directives });
        }
    }
    if let Some(directives) = generic {
        if generic_usable {
            return Ok(FilterChoice { source: FilterSource::GenericOverride, directives });
        }
    }
    let (source, directives) = match configured {
        Some(level) => (FilterSource::Configured, level),
        None => (FilterSource::Fallback, String::from_str(FALLBACK_LEVEL)),
    };
    if level_usable {
        Ok(FilterChoice { source, directives })
    } else {
        Err(UnusableFilter { source, directives })
    }
}

/// Resolves the filter from the environment overrides and the configured
/// level, asking the filter parser which of them are usable.
pub fn resolve_filter(overrides: &LevelOverrides, configured: &Option<String>) -> (resolution:
    Result<FilterChoice, UnusableFilter>)
    ensures
        resolution_text(resolution) == resolved_filter(
            overrides.project.deep_view(),
            overrides.generic.deep_view(),
            configured.deep_view(),
        ),
{
    let project_usable = match &overrides.project {
        Some(directives) => is_usable(directives.as_str()),
        None => false,
    };
    let generic_usable = match &overrides.generic {
        Some(directives) => is_usable(directives.as_str()),
        None => false,
    };
    let level_usable = match configured {
        Some(level) => is_usable(level.as_str()),
        None => is_usable(FALLBACK_LEVEL),
    };
    choose_filter(
        overrides.project.clone(),
        project_usable,
        overrides.generic.clone(),
        generic_usable,
        configured.clone(),
        level_usable,
    )
}

} // verus!
