use vstd::prelude::*;
use vstd::string::StringExecFns;

use crate::platform::Platform;
use crate::platform::triple_model;
use crate::platform::triple_string;

verus! {

/// Outcome of the candidate search for the auxiliary tracing tool: the
/// platform identifier it was searched for, and the first existing candidate
/// path, if any. Absence is a valid, non-fatal outcome.
pub struct AuxPathConfig {
    pub platform_triple: String,
    pub resolved_path: Option<String>,
}

/// Which candidate the resolver probes next. The resource-directory candidate
/// is tried first, the development candidate only as a fallback.
#[derive(Clone, Copy, PartialEq, Eq, Structural, Debug)]
pub enum ResolvePhase {
    ResourceCandidate,
    DevCandidate,
    Settled,
}

/// The candidate path under the packaged resource directory.
pub open spec fn resource_candidate_model(dir: Seq<char>, t: Seq<char>) -> Seq<char> {
    dir + "/binaries/tracy-"@ + t
}

/// The development-mode candidate path, rooted at the working directory.
pub open spec fn dev_candidate_model(cwd: Seq<char>, t: Seq<char>) -> Seq<char> {
    cwd + "/src-tauri/binaries/tracy-"@ + t
}

/// The character sequences held by an optional string.
pub open spec fn opt_view(o: Option<String>) -> Option<Seq<char>> {
    match o {
        Option::None => Option::<Seq<char>>::None,
        Option::Some(s) => Option::Some(s@),
    }
}

/// Resolves the auxiliary tool's location: it names the candidates
/// deterministically from the platform identifier, asks its caller whether
/// each exists (the only filesystem effect, and read-only), and keeps the
/// first candidate that does.
pub struct PathResolver {
    pub platform: Platform,
    pub triple: String,
    pub resource_candidate: Option<String>,
    pub dev_candidate: String,
    pub phase: ResolvePhase,
    pub resolved: Option<String>,
}

/// One transition of the resolver: the answer to the pending existence probe
/// moves it to the next candidate or settles it.
pub open spec fn step_model(r: PathResolver, found: bool) -> PathResolver {
    match r.phase {
        ResolvePhase::ResourceCandidate => if found {
            PathResolver { phase: ResolvePhase::Settled, resolved: r.resource_candidate, ..r }
        } else {
            PathResolver { phase: ResolvePhase::DevCandidate, ..r }
        },
        ResolvePhase::DevCandidate => PathResolver {
            phase: ResolvePhase::Settled,
            resolved: if found {
                Option::Some(r.dev_candidate)
            } else {
                Option::<String>::None
            },
            ..r
        },
        ResolvePhase::Settled => r,
    }
}

impl PathResolver {
    /// Internal consistency: the triple matches the platform, a pending
    /// resource probe has its candidate, and nothing is resolved early.
    pub open spec fn wf(self) -> bool {
        &&& self.triple@ == triple_model(self.platform)
        &&& (self.phase is ResourceCandidate ==> self.resource_candidate is Some)
        &&& (!(self.phase is Settled) ==> self.resolved is None)
    }

    /// Starts a search. `resource_dir` is the packaged resource directory if
    /// the host could obtain it; `cwd` is the working directory for the
    /// development fallback. Both candidates are named deterministically from
    /// the platform's triple.
    pub fn new(p: Platform, resource_dir: Option<&str>, cwd: &str) -> (r: PathResolver)
        ensures
            r.wf(),
            r.platform == p,
            r.triple@ == triple_model(p),
            r.dev_candidate@ == dev_candidate_model(cwd@, triple_model(p)),
            opt_view(r.resource_candidate) == (match resource_dir {
                Option::Some(d) => Option::Some(
                    resource_candidate_model(d@, triple_model(p)),
                ),
                Option::None => Option::<Seq<char>>::None,
            }),
            (r.phase is ResourceCandidate) <==> (resource_dir is Some),
            (r.phase is DevCandidate) <==> (resource_dir is None),
            r.resolved is None,
    {
        let t = triple_string(p);
        let mut dev = String::from_str(cwd);
        dev.append("/src-tauri/binaries/tracy-");
        dev.append(t.as_str());
        let rc: Option<String> = match resource_dir {
            Option::Some(dir) => {
                let mut c = String::from_str(dir);
                c.append("/binaries/tracy-");
                c.append(t.as_str());
                Option::Some(c)
            },
            Option::None => Option::None,
        };
        let phase = if rc.is_some() {
            ResolvePhase::ResourceCandidate
        } else {
            ResolvePhase::DevCandidate
        };
        PathResolver {
            platform: p,
            triple: t,
            resource_candidate: rc,
            dev_candidate: dev,
            phase,
            resolved: Option::None,
        }
    }

    /// The path whose existence the caller should check next, or `None` once
    /// the search is settled.
    pub fn next_probe(&self) -> (p: Option<String>)
        requires
            self.wf(),
        ensures
            opt_view(p) == (match self.phase {
                ResolvePhase::ResourceCandidate => opt_view(self.resource_candidate),
                ResolvePhase::DevCandidate => Option::Some(self.dev_candidate@),
                ResolvePhase::Settled => Option::<Seq<char>>::None,
            }),
            (p is Some) <==> !(self.phase is Settled),
    {
        match self.phase {
            ResolvePhase::ResourceCandidate => match &self.resource_candidate {
                Option::Some(c) => Option::Some(c.clone()),
                Option::None => Option::None,
            },
            ResolvePhase::DevCandidate => Option::Some(self.dev_candidate.clone()),
            ResolvePhase::Settled => Option::None,
        }
    }

    /// Records the answer to the pending probe: `found` says whether the path
    /// returned by `next_probe` exists on disk.
    pub fn note_probe(&mut self, found: bool)
        requires
            !(old(self).phase is Settled),
        ensures
            *final(self) == step_model(*old(self), found),
    {
        match self.phase {
            ResolvePhase::ResourceCandidate => {
                if found {
                    let c: Option<String> = match &self.resource_candidate {
                        Option::Some(s) => Option::Some(s.clone()),
                        Option::None => Option::None,
                    };
                    self.resolved = c;
                    self.phase = ResolvePhase::Settled;
                } else {
                    self.phase = ResolvePhase::DevCandidate;
                }
            },
            ResolvePhase::DevCandidate => {
                if found {
                    self.resolved = Option::Some(self.dev_candidate.clone());
                } else {
                    self.resolved = Option::None;
                }
                self.phase = ResolvePhase::Settled;
            },
            ResolvePhase::Settled => {},
        }
    }

    /// Whether the search has settled on an outcome.
    pub fn finished(&self) -> (b: bool)
        ensures
            b == (self.phase is Settled),
    {
        match self.phase {
            ResolvePhase::Settled => true,
            _ => false,
        }
    }

    /// The search's outcome, immutable once computed.
    pub fn into_config(self) -> (c: AuxPathConfig)
        requires
            self.phase is Settled,
        ensures
            c.platform_triple == self.triple,
            c.resolved_path == self.resolved,
    {
        AuxPathConfig { platform_triple: self.triple, resolved_path: self.resolved }
    }
}

/// Law: the development candidate is probed if and only if the
/// resource-directory candidate was unavailable (the host could not obtain a
/// resource directory, so the search starts at the development phase) or its
/// probe answered that it does not exist.
pub proof fn lemma_dev_candidate_iff(r: PathResolver, resource_found: bool)
    requires
        r.wf(),
        r.phase is ResourceCandidate || r.phase is DevCandidate,
        (r.phase is DevCandidate) <==> (r.resource_candidate is None),
    ensures
        (r.phase is DevCandidate || step_model(r, resource_found).phase is DevCandidate)
            <==> (r.resource_candidate is None || !resource_found),
{
}

/// Law: the candidate naming scheme is selected deterministically from the
/// platform identifier string — platforms with the same identifier are
/// searched at the same candidate paths.
pub proof fn lemma_naming_deterministic(p1: Platform, p2: Platform, dir: Seq<char>, cwd: Seq<char>)
    requires
        triple_model(p1) == triple_model(p2),
    ensures
        resource_candidate_model(dir, triple_model(p1))
            == resource_candidate_model(dir, triple_model(p2)),
        dev_candidate_model(cwd, triple_model(p1)) == dev_candidate_model(cwd, triple_model(p2)),
{
}

/// Law: when every probe answers "missing", the search settles with no path.
pub proof fn lemma_no_candidate_resolves_none(r: PathResolver)
    requires
        r.wf(),
        !(r.phase is Settled),
    ensures
        step_model(step_model(r, false), false).phase is Settled,
        step_model(step_model(r, false), false).resolved is None,
{
}

} // verus!
