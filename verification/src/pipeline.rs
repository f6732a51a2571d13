use vstd::prelude::*;

verus! {

/// The fragment program that a pipeline is linked with.
#[derive(Clone, Debug, PartialEq, Eq)]
pub enum FragmentProgram {
    /// A program compiled from the given source text.
    Candidate(String),
    /// The known-good program that was compiled once at startup.
    Fallback,
}

/// A fragment program with its source as a sequence of characters.
pub enum FragmentProgramView {
    Candidate(Seq<char>),
    Fallback,
}

impl View for FragmentProgram {
    type V = FragmentProgramView;

    open spec fn view(&self) -> FragmentProgramView {
        match self {
            FragmentProgram::Candidate(source) => FragmentProgramView::Candidate(source@),
            FragmentProgram::Fallback => FragmentProgramView::Fallback,
        }
    }
}

/// What a finished build links and what it has to report.
#[derive(Clone, Debug, PartialEq, Eq)]
pub struct PipelineBuild {
    /// The program of the pipeline that is installed.
    pub program: FragmentProgram,
    /// The validation error that was captured while the first attempt was
    /// compiled and linked; the pipeline was then linked a second time.
    pub error: Option<String>,
    /// How often the build reached for the fallback program: each time
    /// gives one warning.
    pub fallback_uses: u8,
}

pub struct PipelineBuildView {
    pub program: FragmentProgramView,
    pub error: Option<Seq<char>>,
    pub fallback_uses: u8,
}

/// The text of an optional string.
pub open spec fn text_of(s: Option<String>) -> Option<Seq<char>> {
    match s {
        Some(text) => Some(text@),
        None => None,
    }
}

impl View for PipelineBuild {
    type V = PipelineBuildView;

    open spec fn view(&self) -> PipelineBuildView {
        PipelineBuildView {
            program: self.program@,
            error: text_of(self.error),
            fallback_uses: self.fallback_uses,
        }
    }
}

/// The program of the first attempt: the candidate where there is one.
pub open spec fn spec_first_attempt(candidate: Option<Seq<char>>) -> FragmentProgramView {
    match candidate {
        Some(source) => FragmentProgramView::Candidate(source),
        None => FragmentProgramView::Fallback,
    }
}

pub open spec fn spec_uses(program: FragmentProgramView) -> u8 {
    if program is Fallback {
        1
    } else {
        0
    }
}

/// The build that results once the error scope around the first attempt
/// has been queried.
pub open spec fn spec_create_pipeline(
    candidate: Option<Seq<char>>,
    captured: Option<Seq<char>>,
) -> PipelineBuildView {
    let first = spec_first_attempt(candidate);
    match captured {
        None => PipelineBuildView { program: first, error: None, fallback_uses: spec_uses(first) },
        Some(reason) => PipelineBuildView {
            program: FragmentProgramView::Fallback,
            error: Some(reason),
            fallback_uses: (spec_uses(first) + 1) as u8,
        },
    }
}

impl PipelineBuild {
    /// Whether the pipeline of the first attempt is discarded and a second
    /// one is linked, with the fallback program: so it is exactly when an
    /// error was captured.
    pub fn relinks(&self) -> (again: bool)
        ensures
            again == (self.error is Some),
    {
        self.error.is_some()
    }
}

/// Chooses the fragment program that is compiled and linked first, inside
/// the error scope: the candidate where one is present, else the fallback.
pub fn first_attempt(candidate: Option<String>) -> (program: FragmentProgram)
    ensures
        program@ == spec_first_attempt(text_of(candidate)),
{
    match candidate {
        Some(source) => FragmentProgram::Candidate(source),
        None => FragmentProgram::Fallback,
    }
}

/// Settles a build from the candidate and from what the error scope
/// captured while the first attempt was compiled and linked. Without a
/// captured error the first attempt stands. With one, the fallback program
/// is linked in its place and the error is reported. A pipeline comes out
/// either way.
pub fn create_pipeline(
    candidate: Option<String>,
    captured: Option<String>,
) -> (build: PipelineBuild)
    ensures
        build@ == spec_create_pipeline(text_of(candidate), text_of(captured)),
        captured is Some ==> build.program is Fallback,
        candidate is None ==> build.program is Fallback,
        captured is None && candidate is Some ==> build.program@
            == FragmentProgramView::Candidate(candidate->0@),
{
    let first = first_attempt(candidate);
    let uses: u8 = match &first {
        FragmentProgram::Fallback => 1,
        FragmentProgram::Candidate(_) => 0,
    };
    match captured {
        None => PipelineBuild { program: first, error: None, fallback_uses: uses },
        Some(reason) => PipelineBuild {
            program: FragmentProgram::Fallback,
            error: Some(reason),
            fallback_uses: uses + 1,
        },
    }
}

/// A candidate whose compilation raised a validation error gives the same
/// program as a build from the fallback alone, whatever the candidate and
/// whatever the error.
pub proof fn lemma_fallback_substitution(source: Seq<char>, reason: Seq<char>)
    ensures
        spec_create_pipeline(Some(source), Some(reason)).program == spec_create_pipeline(
            None,
            None,
        ).program,
        spec_create_pipeline(Some(source), Some(reason)).program is Fallback,
        spec_create_pipeline(Some(source), Some(reason)).error == Some(reason),
{
}

} // verus!
