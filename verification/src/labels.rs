//! Label taxonomy and the locked holdout objects.
//!
//! There is no confirmed-moon label. Injected moons are synthetic training
//! rows; named objects are holdout score cards (candidate, false positive,
//! search) whose statuses are fixed here and never upgraded.
use crate::text::{chars_of, eq_ignore_ascii_case, eq_ignore_case_chars, str_eq, trim, trimmed};
use vstd::prelude::*;

verus! {

/// Locked host-planet names. Never trained as confirmed moons.
pub const HOLDOUT_HOSTS: [&'static str; 4] = ["Kepler-1625 b", "Kepler-1708 b", "Kepler-90 g", "Kepler-167 e"];

/// Locked moon / search identifiers (score cards only), in host order.
pub const HOLDOUT_OBJECTS: [&'static str; 4] = [
    "Kepler-1625b-i",
    "Kepler-1708 b-i",
    "Kepler-90g moon",
    "JWST Kepler-167e (GO 6491)",
];

/// The holdout host names as character sequences.
pub open spec fn holdout_hosts() -> Seq<Seq<char>> {
    seq!["Kepler-1625 b"@, "Kepler-1708 b"@, "Kepler-90 g"@, "Kepler-167 e"@]
}

/// The holdout object identifiers as character sequences.
pub open spec fn holdout_objects() -> Seq<Seq<char>> {
    seq!["Kepler-1625b-i"@, "Kepler-1708 b-i"@, "Kepler-90g moon"@, "JWST Kepler-167e (GO 6491)"@]
}

#[derive(Debug, Clone, Copy, PartialEq, Eq, Structural, Hash)]
pub enum Split {
    Train,
    Holdout,
}

#[derive(Debug, Clone, Copy, PartialEq, Eq, Structural, Hash)]
pub enum ExampleKind {
    /// Confirmed planet / KOI used as a planet-only row.
    PlanetOnly,
    /// Synthetic moon TTV/TDV on real planet parameters. Training only.
    Injected,
    /// Locked named object. Never a training target.
    Holdout,
}

#[derive(Debug, Clone, Copy, PartialEq, Eq, Structural, Hash)]
pub enum HoldoutStatus {
    Candidate,
    FalsePositive,
    Search,
}

/// The display text of a holdout status.
pub open spec fn status_text(s: HoldoutStatus) -> Seq<char> {
    match s {
        HoldoutStatus::Candidate => "CANDIDATE"@,
        HoldoutStatus::FalsePositive => "FALSE POSITIVE"@,
        HoldoutStatus::Search => "SEARCH"@,
    }
}

impl HoldoutStatus {
    pub fn as_str(self) -> (r: &'static str)
        ensures
            r@ == status_text(self),
    {
        match self {
            HoldoutStatus::Candidate => "CANDIDATE",
            HoldoutStatus::FalsePositive => "FALSE POSITIVE",
            HoldoutStatus::Search => "SEARCH",
        }
    }
}

#[derive(Debug, Clone, Copy, PartialEq, Eq, Structural, Hash)]
pub enum TrainTarget {
    PlanetOnly,
    MoonLikeTiming,
}

/// The training target of an example kind; holdouts have none.
pub open spec fn target_of(kind: ExampleKind) -> Option<TrainTarget> {
    match kind {
        ExampleKind::PlanetOnly => Some(TrainTarget::PlanetOnly),
        ExampleKind::Injected => Some(TrainTarget::MoonLikeTiming),
        ExampleKind::Holdout => None,
    }
}

impl TrainTarget {
    pub fn as_bool(self) -> (r: bool)
        ensures
            r == (self == TrainTarget::MoonLikeTiming),
    {
        match self {
            TrainTarget::MoonLikeTiming => true,
            TrainTarget::PlanetOnly => false,
        }
    }

    pub fn from_kind(kind: ExampleKind) -> (r: Option<Self>)
        ensures
            r == target_of(kind),
    {
        match kind {
            ExampleKind::PlanetOnly => Some(TrainTarget::PlanetOnly),
            ExampleKind::Injected => Some(TrainTarget::MoonLikeTiming),
            ExampleKind::Holdout => None,
        }
    }
}

/// The locked status of a named holdout object, if it is one.
pub open spec fn locked_status(id: Seq<char>) -> Option<HoldoutStatus> {
    if id == "Kepler-1625b-i"@ || id == "Kepler-1708 b-i"@ {
        Some(HoldoutStatus::Candidate)
    } else if id == "Kepler-90g moon"@ {
        Some(HoldoutStatus::FalsePositive)
    } else if id == "JWST Kepler-167e (GO 6491)"@ {
        Some(HoldoutStatus::Search)
    } else {
        None
    }
}

/// Locked statuses from the science note. Do not "upgrade".
pub fn locked_holdout_status(object_id: &str) -> (r: Option<HoldoutStatus>)
    ensures
        r == locked_status(object_id@),
{
    if str_eq(object_id, "Kepler-1625b-i") || str_eq(object_id, "Kepler-1708 b-i") {
        Some(HoldoutStatus::Candidate)
    } else if str_eq(object_id, "Kepler-90g moon") {
        Some(HoldoutStatus::FalsePositive)
    } else if str_eq(object_id, "JWST Kepler-167e (GO 6491)") {
        Some(HoldoutStatus::Search)
    } else {
        None
    }
}

/// `name`, trimmed, equals some locked host up to ASCII case.
pub open spec fn is_holdout_host_spec(name: Seq<char>) -> bool {
    exists|i: int|
        0 <= i < holdout_hosts().len() && eq_ignore_ascii_case(
            #[trigger] holdout_hosts()[i],
            trim(name),
        )
}

/// Whether `name` is a locked holdout host (trimmed, up to ASCII case).
pub fn is_holdout_host(name: &str) -> (r: bool)
    ensures
        r == is_holdout_host_spec(name@),
{
    let t = trimmed(name);
    let mut i: usize = 0;
    while i < 4
        invariant
            t@ == trim(name@),
            i <= 4,
            forall|j: int| 0 <= j < i ==> !eq_ignore_ascii_case(#[trigger] holdout_hosts()[j], t@),
        decreases 4 - i,
    {
        let h = chars_of(HOLDOUT_HOSTS[i]);
        proof {
            assert(HOLDOUT_HOSTS[i as int]@ == holdout_hosts()[i as int]);
        }
        if eq_ignore_case_chars(&h, &t) {
            return true;
        }
        i = i + 1;
    }
    false
}

/// A training target exists exactly for planet-only and injected rows (never
/// for a holdout), and it reads as moon-like timing exactly for injected
/// rows.
pub proof fn targets_follow_kinds(kind: ExampleKind)
    ensures
        target_of(kind).is_none() <==> kind == ExampleKind::Holdout,
        target_of(kind) matches Some(t) ==> ((t == TrainTarget::MoonLikeTiming) <==> kind
            == ExampleKind::Injected),
{
}

/// The training target of a feature row: none for a holdout-split row,
/// else the target of its kind.
pub open spec fn row_target_spec(split: Split, kind: ExampleKind) -> Option<TrainTarget> {
    match split {
        Split::Holdout => None,
        Split::Train => target_of(kind),
    }
}

pub fn row_target(split: Split, kind: ExampleKind) -> (r: Option<TrainTarget>)
    ensures
        r == row_target_spec(split, kind),
{
    match split {
        Split::Holdout => None,
        Split::Train => TrainTarget::from_kind(kind),
    }
}

/// No holdout row is ever a training target, and a row is a positive
/// (moon-like timing) target only when it is an injected training row.
pub proof fn holdout_rows_never_train(split: Split, kind: ExampleKind)
    ensures
        (split == Split::Holdout || kind == ExampleKind::Holdout) ==> row_target_spec(split, kind)
            is None,
        row_target_spec(split, kind) == Some(TrainTarget::MoonLikeTiming) <==> (split == Split::Train
            && kind == ExampleKind::Injected),
{
}

} // verus!
