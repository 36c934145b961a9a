//! Locating the `fiberpath` executable.
//!
//! The executable is looked for among the resources bundled with the
//! application, in a fixed order that depends on the platform, and after that
//! on the search path. Looking at the disk is the caller's part: the caller
//! probes the location it is asked about and reports what it found, and
//! [`get_fiberpath_executable`] says what to do next.

use crate::paths::{debug, join, path_debug, path_join, path_text, to_str};
use crate::platform::Platform;
use std::path::PathBuf;
use vstd::prelude::*;
use vstd::string::*;

verus! {

/// What the caller found at one candidate location.
#[derive(Clone, Copy, Debug, PartialEq, Eq, Structural)]
pub enum Probe {
    /// Nothing exists there.
    Missing,
    /// Something exists there that is not a regular file.
    NotAFile,
    /// A regular file exists there.
    File,
}

/// One candidate location together with what was found there.
#[derive(Clone, Debug)]
pub struct Attempt {
    pub location: PathBuf,
    pub finding: Probe,
}

/// What is known of the search-path lookup of the bare program name.
#[derive(Clone, Debug)]
pub enum Lookup {
    /// The search path has not been consulted.
    NotTried,
    /// The search path holds no such program.
    Missing,
    /// The search path led to this executable.
    Found(PathBuf),
}

/// No installation was found: every location that was examined, in order.
#[derive(Clone, Debug)]
pub struct ResolutionError {
    pub tried: Vec<Attempt>,
}

/// The next move of the search for the executable.
#[derive(Clone, Debug)]
pub enum Step {
    /// Probe this candidate and report the finding.
    Probe(PathBuf),
    /// Look this bare program name up on the search path and report the result.
    SearchPath(String),
    /// The search is over: this is the executable.
    Found(PathBuf),
    /// The search is over: there is no executable.
    NotFound(ResolutionError),
}

/// A [`Step`] as contracts see it.
pub enum StepView {
    Probe(PathBuf),
    SearchPath(Seq<char>),
    Found(PathBuf),
    NotFound(Seq<Attempt>),
}

impl View for Step {
    type V = StepView;

    open spec fn view(&self) -> StepView {
        match *self {
            Step::Probe(location) => StepView::Probe(location),
            Step::SearchPath(name) => StepView::SearchPath(name@),
            Step::Found(location) => StepView::Found(location),
            Step::NotFound(error) => StepView::NotFound(error.tried@),
        }
    }
}

/// The bare name under which the executable is looked up on the search path.
pub open spec fn program_name() -> Seq<char> {
    "fiberpath"@
}

/// The views of a list of string slices, in order.
pub open spec fn slices(parts: Seq<&'static str>) -> Seq<Seq<char>> {
    Seq::new(parts.len(), |i: int| parts[i]@)
}

/// The places below the resource directory where a bundled executable may
/// lie, most preferred first, each as its path components.
///
/// Where children get a console window, an installed application keeps its
/// resources one level down, so that place is tried before the flat layout of
/// a development build, and the executable carries an extension.
pub open spec fn bundled_sub_paths(platform: Platform) -> Seq<Seq<Seq<char>>> {
    if platform.console_windowed() {
        seq![
            seq!["_up_"@, "bundled-cli"@, "fiberpath.exe"@],
            seq!["bundled-cli"@, "fiberpath.exe"@],
        ]
    } else {
        seq![seq!["bundled-cli"@, "fiberpath"@]]
    }
}

/// `base` with the components adjoined one after another.
pub open spec fn join_all(base: PathBuf, components: Seq<Seq<char>>) -> PathBuf
    decreases components.len(),
{
    if components.len() == 0 {
        base
    } else {
        path_join(join_all(base, components.drop_last()), components.last())
    }
}

/// The candidate locations of the bundled executable, most preferred first.
pub open spec fn bundled_candidates(resource_dir: PathBuf, platform: Platform) -> Seq<PathBuf> {
    Seq::new(
        bundled_sub_paths(platform).len(),
        |i: int| join_all(resource_dir, bundled_sub_paths(platform)[i]),
    )
}

fn sub_paths(platform: Platform) -> (table: Vec<Vec<&'static str>>)
    ensures
        table@.len() == bundled_sub_paths(platform).len(),
        forall|i: int|
            0 <= i < table@.len() ==> slices(#[trigger] table@[i]@) == bundled_sub_paths(
                platform,
            )[i],
{
    let mut table: Vec<Vec<&'static str>> = Vec::new();
    if platform.needs_hidden_console() {
        let installed: Vec<&'static str> = vec!["_up_", "bundled-cli", "fiberpath.exe"];
        let development: Vec<&'static str> = vec!["bundled-cli", "fiberpath.exe"];
        assert(slices(installed@) =~= bundled_sub_paths(platform)[0]);
        assert(slices(development@) =~= bundled_sub_paths(platform)[1]);
        table.push(installed);
        table.push(development);
    } else {
        let flat: Vec<&'static str> = vec!["bundled-cli", "fiberpath"];
        assert(slices(flat@) =~= bundled_sub_paths(platform)[0]);
        table.push(flat);
    }
    table
}

fn join_components(base: &PathBuf, components: &Vec<&'static str>) -> (location: PathBuf)
    ensures
        location == join_all(*base, slices(components@)),
{
    let mut location = base.clone();
    let mut i: usize = 0;
    while i < components.len()
        invariant
            i <= components.len(),
            location == join_all(*base, slices(components@).take(i as int)),
        decreases components.len() - i,
    {
        proof {
            let next = slices(components@).take(i + 1);
            assert(next.drop_last() =~= slices(components@).take(i as int));
            assert(next.last() == components@[i as int]@);
        }
        location = join(&location, components[i]);
        i = i + 1;
    }
    proof {
        assert(slices(components@).take(components.len() as int) =~= slices(components@));
    }
    location
}

/// Lists the candidate locations of the bundled executable below
/// `resource_dir`, most preferred first.
pub fn bundled_cli_candidates(resource_dir: &PathBuf, platform: Platform) -> (candidates: Vec<
    PathBuf,
>)
    ensures
        candidates@ == bundled_candidates(*resource_dir, platform),
{
    let table = sub_paths(platform);
    let mut candidates: Vec<PathBuf> = Vec::new();
    let mut i: usize = 0;
    while i < table.len()
        invariant
            i <= table.len(),
            table@.len() == bundled_sub_paths(platform).len(),
            forall|k: int|
                0 <= k < table@.len() ==> slices(#[trigger] table@[k]@) == bundled_sub_paths(
                    platform,
                )[k],
            candidates@.len() == i,
            forall|k: int|
                0 <= k < i ==> #[trigger] candidates@[k] == join_all(
                    *resource_dir,
                    bundled_sub_paths(platform)[k],
                ),
        decreases table.len() - i,
    {
        let location = join_components(resource_dir, &table[i]);
        candidates.push(location);
        i = i + 1;
    }
    assert(candidates@ =~= bundled_candidates(*resource_dir, platform));
    candidates
}

/// What [`get_bundled_cli_path`] answers.
pub open spec fn bundled_cli_path_spec(
    resource_dir: Result<PathBuf, String>,
    os_name: Seq<char>,
) -> Result<Seq<PathBuf>, Seq<char>> {
    match resource_dir {
        Err(reason) => Err("Failed to resolve resource directory: "@ + reason@),
        Ok(dir) => match Platform::named(os_name) {
            None => Err("Unsupported platform: "@ + os_name),
            Some(platform) => Ok(bundled_candidates(dir, platform)),
        },
    }
}

/// Works out where the bundled executable may lie, from what the caller
/// learnt of the resource directory and from the name of the operating
/// system.
///
/// Fails, with a message, when the resource directory could not be resolved
/// (`resource_dir` then holds the reason) and when the operating system is
/// not one the bridge serves; otherwise lists the candidates, most preferred
/// first.
pub fn get_bundled_cli_path(resource_dir: &Result<PathBuf, String>, os_name: &str) -> (located:
    Result<Vec<PathBuf>, String>)
    ensures
        match bundled_cli_path_spec(*resource_dir, os_name@) {
            Ok(candidates) => located matches Ok(listed) && listed@ == candidates,
            Err(message) => located matches Err(told) && told@ == message,
        },
{
    match resource_dir {
        Err(reason) => {
            let mut message = String::from_str("Failed to resolve resource directory: ");
            message.append(reason.as_str());
            Err(message)
        },
        Ok(dir) => match Platform::from_os_name(os_name) {
            None => {
                let mut message = String::from_str("Unsupported platform: ");
                message.append(os_name);
                Err(message)
            },
            Some(platform) => Ok(bundled_cli_candidates(dir, platform)),
        },
    }
}

/// The index of the first probe that found a regular file, if any did.
pub open spec fn first_file(probes: Seq<Probe>) -> Option<int>
    decreases probes.len(),
{
    if probes.len() == 0 {
        None
    } else {
        match first_file(probes.drop_last()) {
            Some(i) => Some(i),
            None => if probes.last() == Probe::File {
                Some(probes.len() - 1)
            } else {
                None
            },
        }
    }
}

/// The probes that answer a candidate: those beyond the last candidate do
/// not count.
pub open spec fn examined(candidates: Seq<PathBuf>, probes: Seq<Probe>) -> Seq<Probe> {
    if probes.len() <= candidates.len() {
        probes
    } else {
        probes.take(candidates.len() as int)
    }
}

/// Every candidate with the finding reported for it.
pub open spec fn attempts(candidates: Seq<PathBuf>, probes: Seq<Probe>) -> Seq<Attempt> {
    Seq::new(
        candidates.len(),
        |i: int| Attempt { location: candidates[i], finding: probes[i] },
    )
}

/// The next move of the search, given the candidates, the findings reported
/// so far (the i-th finding answers the i-th candidate) and what is known of
/// the search path.
///
/// The first candidate found to be a regular file is the executable. Until
/// one is found the candidates are probed in order. When none of them is a
/// regular file the search path is consulted, and what it yields is the
/// executable. Failing that too, there is none.
pub open spec fn next_step(candidates: Seq<PathBuf>, probes: Seq<Probe>, lookup: Lookup) -> StepView {
    match first_file(examined(candidates, probes)) {
        Some(i) => StepView::Found(candidates[i]),
        None => if probes.len() < candidates.len() {
            StepView::Probe(candidates[probes.len() as int])
        } else {
            match lookup {
                Lookup::NotTried => StepView::SearchPath(program_name()),
                Lookup::Found(location) => StepView::Found(location),
                Lookup::Missing => StepView::NotFound(attempts(candidates, probes)),
            }
        },
    }
}

/// [`first_file`] names a regular file, and the earliest one.
pub proof fn lemma_first_file(probes: Seq<Probe>)
    ensures
        match first_file(probes) {
            Some(i) => {
                &&& 0 <= i < probes.len()
                &&& probes[i] == Probe::File
                &&& forall|j: int| 0 <= j < i ==> probes[j] != Probe::File
            },
            None => forall|j: int| 0 <= j < probes.len() ==> probes[j] != Probe::File,
        },
    decreases probes.len(),
{
    if probes.len() > 0 {
        let front = probes.drop_last();
        lemma_first_file(front);
        assert(forall|j: int| 0 <= j < front.len() ==> front[j] == probes[j]);
    }
}

/// The search never names a location that was not seen to exist: an
/// executable it settles on is either a candidate whose probe found a regular
/// file, with no regular file at any candidate before it, or the very
/// location the search path led to, no candidate being a regular file.
pub proof fn lemma_found_was_seen(
    candidates: Seq<PathBuf>,
    probes: Seq<Probe>,
    lookup: Lookup,
    location: PathBuf,
)
    requires
        next_step(candidates, probes, lookup) == StepView::Found(location),
    ensures
        ({
            ||| exists|i: int|
                {
                    &&& 0 <= i < candidates.len()
                    &&& i < probes.len()
                    &&& #[trigger] candidates[i] == location
                    &&& probes[i] == Probe::File
                    &&& forall|j: int| 0 <= j < i ==> probes[j] != Probe::File
                }
            ||| {
                &&& lookup == Lookup::Found(location)
                &&& candidates.len() <= probes.len()
                &&& forall|j: int| 0 <= j < candidates.len() ==> probes[j] != Probe::File
            }
        }),
{
    let seen = examined(candidates, probes);
    lemma_first_file(seen);
    match first_file(seen) {
        Some(i) => {
            assert(seen[i] == probes[i]);
            assert forall|j: int| 0 <= j < i implies probes[j] != Probe::File by {
                assert(seen[j] == probes[j]);
            }
            assert(candidates[i] == location);
        },
        None => {
            assert forall|j: int| 0 <= j < candidates.len() implies probes[j] != Probe::File by {
                assert(seen[j] == probes[j]);
            }
        },
    }
}

/// The first candidate that is a regular file wins, whatever was reported
/// after it and whatever the search path holds.
pub proof fn lemma_first_regular_file_wins(
    candidates: Seq<PathBuf>,
    probes: Seq<Probe>,
    lookup: Lookup,
    i: int,
)
    requires
        0 <= i < candidates.len(),
        i < probes.len(),
        probes[i] == Probe::File,
        forall|j: int| 0 <= j < i ==> probes[j] != Probe::File,
    ensures
        next_step(candidates, probes, lookup) == StepView::Found(candidates[i]),
{
    let seen = examined(candidates, probes);
    lemma_first_file(seen);
    assert(seen[i] == probes[i]);
    match first_file(seen) {
        Some(k) => {
            assert(seen[k] == probes[k]);
            if k < i {
                assert(probes[k] != Probe::File);
            }
            if i < k {
                assert(seen[i] != Probe::File);
            }
        },
        None => {
            assert(seen[i] != Probe::File);
        },
    }
}

/// An answer found early stands: once a candidate was seen to be a regular
/// file, nothing that is reported of later candidates or learnt of the
/// search path changes the executable. Probing the candidates one by one and
/// stopping at the first regular file therefore finds what probing all of
/// them would find.
pub proof fn lemma_early_answer_stands(
    candidates: Seq<PathBuf>,
    probes: Seq<Probe>,
    lookup: Lookup,
    later_probes: Seq<Probe>,
    later_lookup: Lookup,
)
    requires
        first_file(examined(candidates, probes)) is Some,
    ensures
        next_step(candidates, probes, lookup) is Found,
        next_step(candidates, probes + later_probes, later_lookup) == next_step(
            candidates,
            probes,
            lookup,
        ),
{
    let seen = examined(candidates, probes);
    lemma_first_file(seen);
    let i = first_file(seen).unwrap();
    assert(seen[i] == probes[i]);
    assert((probes + later_probes)[i] == probes[i]);
    assert forall|j: int| 0 <= j < i implies (probes + later_probes)[j] != Probe::File by {
        assert(seen[j] == probes[j]);
        assert((probes + later_probes)[j] == probes[j]);
    }
    lemma_first_regular_file_wins(candidates, probes + later_probes, later_lookup, i);
}

/// A search that gives up has examined every candidate and the search path,
/// and names each candidate with its finding, none of them a regular file.
pub proof fn lemma_not_found_tried_all(
    candidates: Seq<PathBuf>,
    probes: Seq<Probe>,
    lookup: Lookup,
    tried: Seq<Attempt>,
)
    requires
        next_step(candidates, probes, lookup) == StepView::NotFound(tried),
    ensures
        lookup == Lookup::Missing,
        candidates.len() <= probes.len(),
        tried.len() == candidates.len(),
        forall|i: int|
            0 <= i < tried.len() ==> {
                &&& (#[trigger] tried[i]).location == candidates[i]
                &&& tried[i].finding == probes[i]
                &&& tried[i].finding != Probe::File
            },
{
    let seen = examined(candidates, probes);
    lemma_first_file(seen);
    assert forall|i: int| 0 <= i < tried.len() implies {
        &&& (#[trigger] tried[i]).location == candidates[i]
        &&& tried[i].finding == probes[i]
        &&& tried[i].finding != Probe::File
    } by {
        assert(seen[i] == probes[i]);
    }
}

/// The candidates of each platform, written out: two where children get a
/// console window, one elsewhere.
pub proof fn lemma_candidates_enumerated(resource_dir: PathBuf, platform: Platform)
    ensures
        platform == Platform::Windows ==> bundled_candidates(resource_dir, platform) == seq![
            path_join(
                path_join(path_join(resource_dir, "_up_"@), "bundled-cli"@),
                "fiberpath.exe"@,
            ),
            path_join(path_join(resource_dir, "bundled-cli"@), "fiberpath.exe"@),
        ],
        platform != Platform::Windows ==> bundled_candidates(resource_dir, platform) == seq![
            path_join(path_join(resource_dir, "bundled-cli"@), "fiberpath"@),
        ],
{
    reveal_with_fuel(join_all, 4);
    let table = bundled_sub_paths(platform);
    if platform == Platform::Windows {
        assert(table[0].drop_last() =~= seq!["_up_"@, "bundled-cli"@]);
        assert(table[0].drop_last().drop_last() =~= seq!["_up_"@]);
        assert(table[0].drop_last().drop_last().drop_last() =~= Seq::<Seq<char>>::empty());
        assert(table[1].drop_last() =~= seq!["bundled-cli"@]);
        assert(table[1].drop_last().drop_last() =~= Seq::<Seq<char>>::empty());
        assert(bundled_candidates(resource_dir, platform) =~= seq![
            path_join(
                path_join(path_join(resource_dir, "_up_"@), "bundled-cli"@),
                "fiberpath.exe"@,
            ),
            path_join(path_join(resource_dir, "bundled-cli"@), "fiberpath.exe"@),
        ]);
    } else {
        assert(table[0].drop_last() =~= seq!["bundled-cli"@]);
        assert(table[0].drop_last().drop_last() =~= Seq::<Seq<char>>::empty());
        assert(bundled_candidates(resource_dir, platform) =~= seq![
            path_join(path_join(resource_dir, "bundled-cli"@), "fiberpath"@),
        ]);
    }
}

/// Decides the next move of the search for the executable.
///
/// `candidates` are the bundled locations, most preferred first; `probes`
/// holds what the caller found at the candidates it was asked to probe so
/// far, in the same order; `lookup` says what is known of the search path.
/// The answer is [`next_step`] of the three: it depends on nothing else, so
/// a repaired installation is found by the next search.
pub fn get_fiberpath_executable(candidates: &Vec<PathBuf>, probes: &Vec<Probe>, lookup: &Lookup) -> (step:
    Step)
    ensures
        step@ == next_step(candidates@, probes@, *lookup),
{
    let ghost seen = examined(candidates@, probes@);
    let limit = if probes.len() <= candidates.len() {
        probes.len()
    } else {
        candidates.len()
    };
    let mut i: usize = 0;
    while i < limit
        invariant
            i <= limit,
            limit == seen.len(),
            limit <= candidates.len(),
            limit <= probes.len(),
            seen == examined(candidates@, probes@),
            first_file(seen.take(i as int)) is None,
        decreases limit - i,
    {
        proof {
            assert(seen.take(i + 1).drop_last() =~= seen.take(i as int));
            assert(seen.take(i + 1).last() == probes@[i as int]);
        }
        match probes[i] {
            Probe::File => {
                proof {
                    lemma_first_file(seen.take(i + 1));
                    lemma_first_file(seen);
                    assert(seen[i as int] == Probe::File);
                    assert forall|j: int| 0 <= j < i implies seen[j] != Probe::File by {
                        assert(seen.take(i + 1)[j] == seen[j]);
                    }
                    assert(first_file(seen) == Some(i as int));
                }
                return Step::Found(candidates[i].clone());
            },
            _ => {},
        }
        i = i + 1;
    }
    proof {
        assert(seen.take(limit as int) =~= seen);
    }
    if probes.len() < candidates.len() {
        return Step::Probe(candidates[probes.len()].clone());
    }
    match lookup {
        Lookup::NotTried => Step::SearchPath(String::from_str("fiberpath")),
        Lookup::Found(location) => Step::Found(location.clone()),
        Lookup::Missing => {
            let mut tried: Vec<Attempt> = Vec::new();
            let mut k: usize = 0;
            while k < candidates.len()
                invariant
                    k <= candidates.len(),
                    candidates.len() <= probes.len(),
                    tried@.len() == k,
                    forall|j: int|
                        0 <= j < k ==> #[trigger] tried@[j] == (Attempt {
                            location: candidates@[j],
                            finding: probes@[j],
                        }),
                decreases candidates.len() - k,
            {
                tried.push(Attempt { location: candidates[k].clone(), finding: probes[k] });
                k = k + 1;
            }
            assert(tried@ =~= attempts(candidates@, probes@));
            Step::NotFound(ResolutionError { tried })
        },
    }
}

/// The opening of the message of a failed search.
pub open spec fn not_found_notice() -> Seq<char> {
    "FiberPath CLI not found. Please ensure the application was installed correctly, or install the Python package with: pip install fiberpath"@
}

/// How a finding reads in a message: absence and a wrong kind of entry are
/// told apart.
pub open spec fn finding_note(finding: Probe) -> Seq<char> {
    match finding {
        Probe::Missing => "not found"@,
        Probe::NotAFile => "exists but is not a regular file"@,
        Probe::File => "is a regular file"@,
    }
}

/// The line of a message that reports one attempt.
pub open spec fn attempt_line(attempt: Attempt) -> Seq<char> {
    "\n  "@ + path_debug(attempt.location) + ": "@ + finding_note(attempt.finding)
}

/// The lines that report the attempts, in order.
pub open spec fn attempt_lines(tried: Seq<Attempt>) -> Seq<char>
    decreases tried.len(),
{
    if tried.len() == 0 {
        Seq::empty()
    } else {
        attempt_lines(tried.drop_last()) + attempt_line(tried.last())
    }
}

/// The message of a failed search: the notice, then every location that was
/// examined with what was found there, then the search path.
pub open spec fn resolution_message(tried: Seq<Attempt>) -> Seq<char> {
    not_found_notice() + "\nLocations checked:"@ + attempt_lines(tried)
        + "\n  search path: fiberpath not found"@
}

impl Probe {
    /// The finding that two looks at a location add up to: whether anything
    /// exists there, and whether what exists is a regular file. Existence is
    /// looked at first: of a location where nothing exists the second look
    /// does not count.
    pub open spec fn of_checks(exists: bool, is_file: bool) -> Probe {
        if !exists {
            Probe::Missing
        } else if is_file {
            Probe::File
        } else {
            Probe::NotAFile
        }
    }

    /// Sums up what was seen at a location.
    pub fn observed(exists: bool, is_file: bool) -> (finding: Probe)
        ensures
            finding == Probe::of_checks(exists, is_file),
    {
        if !exists {
            Probe::Missing
        } else if is_file {
            Probe::File
        } else {
            Probe::NotAFile
        }
    }

    /// How this finding reads in a message.
    pub fn note(self) -> (text: &'static str)
        ensures
            text@ == finding_note(self),
    {
        match self {
            Probe::Missing => "not found",
            Probe::NotAFile => "exists but is not a regular file",
            Probe::File => "is a regular file",
        }
    }
}

impl ResolutionError {
    /// Describes the failed search for a reader: that no installation was
    /// found, how to install the tool by hand, and every location examined.
    pub fn message(&self) -> (text: String)
        ensures
            text@ == resolution_message(self.tried@),
    {
        let mut lines = String::new();
        let mut i: usize = 0;
        while i < self.tried.len()
            invariant
                i <= self.tried.len(),
                lines@ == attempt_lines(self.tried@.take(i as int)),
            decreases self.tried.len() - i,
        {
            proof {
                let next = self.tried@.take(i + 1);
                assert(next.drop_last() =~= self.tried@.take(i as int));
                assert(next.last() == self.tried@[i as int]);
            }
            let ghost before = lines@;
            let shown = debug(&self.tried[i].location);
            lines.append("\n  ");
            lines.append(shown.as_str());
            lines.append(": ");
            lines.append(self.tried[i].finding.note());
            assert(lines@ =~= before + attempt_line(self.tried@[i as int]));
            i = i + 1;
        }
        proof {
            assert(self.tried@.take(self.tried.len() as int) =~= self.tried@);
        }
        let mut text = String::from_str(
            "FiberPath CLI not found. Please ensure the application was installed correctly, or install the Python package with: pip install fiberpath",
        );
        text.append("\nLocations checked:");
        text.append(lines.as_str());
        text.append("\n  search path: fiberpath not found");
        text
    }
}

/// What [`path_to_string`] answers for a path.
pub open spec fn path_to_string_spec(path: PathBuf) -> Result<Seq<char>, Seq<char>> {
    match path_text(path) {
        Some(text) => Ok(text),
        None => Err("Invalid path encoding: "@ + path_debug(path)),
    }
}

/// Converts a path to the string a process is started with.
///
/// A path that is valid Unicode converts to its text. Any other path is
/// refused with a message that shows the path.
pub fn path_to_string(path: &PathBuf) -> (converted: Result<String, String>)
    ensures
        match path_to_string_spec(*path) {
            Ok(text) => converted matches Ok(held) && held@ == text,
            Err(message) => converted matches Err(told) && told@ == message,
        },
{
    match to_str(path) {
        Some(text) => Ok(text.to_owned()),
        None => {
            let mut message = String::from_str("Invalid path encoding: ");
            let shown = debug(path);
            message.append(shown.as_str());
            Err(message)
        },
    }
}

} // verus!
