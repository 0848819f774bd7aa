//! The merged planet catalog. KOI rows come first and the first row of a
//! name wins; Planetary Systems rows then fill the fields that a KOI row of
//! the same name left empty, or join the catalog when they are named,
//! K2-host or holdout rows. Nothing is invented: every field of the merged
//! catalog comes from some row.
//!
//! A planet's measured quantities have the type `F` (the archive's
//! floating-point columns); the catalog copies them and never reads them.
use crate::ascii::sub_bytes;
use crate::labels::{is_holdout_host, is_holdout_host_spec};
use crate::order::{apply_order, keys_view, sorted_order, sorts_stably};
use crate::text::{contains, str_contains, str_eq};
use vstd::prelude::*;
use vstd::utf8::encode_utf8;

verus! {

#[derive(Debug, Clone, Copy, PartialEq, Eq, Structural)]
pub enum CatalogSource {
    KoiCumulative,
    PlanetarySystems,
}

pub struct CatalogPlanet<F> {
    pub id: String,
    pub name: String,
    pub source: CatalogSource,
    pub period_days: F,
    pub rp_earth: Option<F>,
    pub mp_earth: Option<F>,
    pub mp_is_upper_limit: bool,
    pub a_au: Option<F>,
    pub impact_b: Option<F>,
    pub duration_hr: Option<F>,
    pub depth_ppm: Option<F>,
    pub incl_deg: Option<F>,
    pub rstar_rsun: Option<F>,
    pub mstar_msun: Option<F>,
    pub teff_k: Option<F>,
    pub disposition: Option<String>,
    pub kepid: Option<u64>,
    /// KOI `koi_time0bk` (BKJD). Missing on PS-only rows.
    pub epoch_bkjd: Option<F>,
}

impl<F> CatalogPlanet<F> {
    pub fn is_holdout_host(&self) -> (r: bool)
        ensures
            r == is_holdout_host_spec(self.name@),
    {
        is_holdout_host(self.name.as_str())
    }
}

/// A field as the merge leaves it: its own value when it has one, else the
/// other row's.
pub open spec fn fill<T>(own: Option<T>, other: Option<T>) -> Option<T> {
    if own is None {
        other
    } else {
        own
    }
}

/// A KOI row after a Planetary Systems row of the same planet filled its
/// empty mass, semi-major axis, inclination, impact parameter, KIC id,
/// epoch and duration. The mass limit flag travels with the mass.
pub open spec fn merged<F>(koi: CatalogPlanet<F>, ps: CatalogPlanet<F>) -> CatalogPlanet<F> {
    CatalogPlanet {
        mp_earth: fill(koi.mp_earth, ps.mp_earth),
        mp_is_upper_limit: if koi.mp_earth is None {
            ps.mp_is_upper_limit
        } else {
            koi.mp_is_upper_limit
        },
        a_au: fill(koi.a_au, ps.a_au),
        incl_deg: fill(koi.incl_deg, ps.incl_deg),
        impact_b: fill(koi.impact_b, ps.impact_b),
        kepid: fill(koi.kepid, ps.kepid),
        epoch_bkjd: fill(koi.epoch_bkjd, ps.epoch_bkjd),
        duration_hr: fill(koi.duration_hr, ps.duration_hr),
        ..koi
    }
}

/// Fill the empty fields of a KOI row from a Planetary Systems row of the
/// same planet.
pub fn merge_ps_onto_koi<F: Copy>(koi: &mut CatalogPlanet<F>, ps: &CatalogPlanet<F>)
    ensures
        *final(koi) == merged(*old(koi), *ps),
{
    if koi.mp_earth.is_none() {
        koi.mp_earth = ps.mp_earth;
        koi.mp_is_upper_limit = ps.mp_is_upper_limit;
    }
    if koi.a_au.is_none() {
        koi.a_au = ps.a_au;
    }
    if koi.incl_deg.is_none() {
        koi.incl_deg = ps.incl_deg;
    }
    if koi.impact_b.is_none() {
        koi.impact_b = ps.impact_b;
    }
    if koi.kepid.is_none() {
        koi.kepid = ps.kepid;
    }
    if koi.epoch_bkjd.is_none() {
        koi.epoch_bkjd = ps.epoch_bkjd;
    }
    if koi.duration_hr.is_none() {
        koi.duration_hr = ps.duration_hr;
    }
}

/// The merge never replaces a value the KOI row has, and every merged field
/// holds a value of one of the two rows.
pub proof fn merge_keeps_known_fields<F>(koi: CatalogPlanet<F>, ps: CatalogPlanet<F>)
    ensures
        koi.mp_earth is Some ==> merged(koi, ps).mp_earth == koi.mp_earth,
        koi.a_au is Some ==> merged(koi, ps).a_au == koi.a_au,
        koi.incl_deg is Some ==> merged(koi, ps).incl_deg == koi.incl_deg,
        koi.impact_b is Some ==> merged(koi, ps).impact_b == koi.impact_b,
        koi.kepid is Some ==> merged(koi, ps).kepid == koi.kepid,
        koi.epoch_bkjd is Some ==> merged(koi, ps).epoch_bkjd == koi.epoch_bkjd,
        koi.duration_hr is Some ==> merged(koi, ps).duration_hr == koi.duration_hr,
        merged(koi, ps).name == koi.name && merged(koi, ps).id == koi.id,
        merged(koi, ps).period_days == koi.period_days,
        merged(koi, ps).mp_earth is Some ==> merged(koi, ps).mp_earth == koi.mp_earth
            || merged(koi, ps).mp_earth == ps.mp_earth,
{
}

/// Every field the KOI row leaves empty is taken from the Planetary Systems
/// row: mass (with its upper-limit flag), semi-major axis, inclination,
/// impact parameter, KIC id, epoch and duration.
pub proof fn merge_fills_empty_fields<F>(koi: CatalogPlanet<F>, ps: CatalogPlanet<F>)
    ensures
        koi.mp_earth is None ==> merged(koi, ps).mp_earth == ps.mp_earth
            && merged(koi, ps).mp_is_upper_limit == ps.mp_is_upper_limit,
        koi.mp_earth is Some ==> merged(koi, ps).mp_is_upper_limit == koi.mp_is_upper_limit,
        koi.a_au is None ==> merged(koi, ps).a_au == ps.a_au,
        koi.incl_deg is None ==> merged(koi, ps).incl_deg == ps.incl_deg,
        koi.impact_b is None ==> merged(koi, ps).impact_b == ps.impact_b,
        koi.kepid is None ==> merged(koi, ps).kepid == ps.kepid,
        koi.epoch_bkjd is None ==> merged(koi, ps).epoch_bkjd == ps.epoch_bkjd,
        koi.duration_hr is None ==> merged(koi, ps).duration_hr == ps.duration_hr,
{
}

/// The KOI cache files, read in this order.
pub const KOI_CACHE_FILES: [&'static str; 4] = [
    "nasa_koi_confirmed_geometry_sample.csv",
    "nasa_koi_long_period_sample.csv",
    "nasa_koi_named_systems.csv",
    "nasa_koi_lc_hosts.csv",
];

/// The Planetary Systems cache files, read in this order after the KOI ones.
pub const PS_CACHE_FILES: [&'static str; 3] = [
    "nasa_ps_named_systems.csv",
    "nasa_ps_kepler_transiting_sample.csv",
    "nasa_ps_k2_hosts.csv",
];

/// Planetary Systems rows of a named-systems or K2-host file join the
/// catalog even when no KOI row has their name.
pub fn keeps_unmatched_ps(fname: &str) -> (r: bool)
    ensures
        r == (contains(fname@, "named"@) || contains(fname@, "k2"@)),
{
    str_contains(fname, "named") || str_contains(fname, "k2")
}

pub open spec fn names_distinct<F>(s: Seq<CatalogPlanet<F>>) -> bool {
    forall|i: int, j: int| 0 <= i < j < s.len() ==> s[i].name@ != s[j].name@
}

pub open spec fn has_name<F>(s: Seq<CatalogPlanet<F>>, name: Seq<char>) -> bool {
    exists|i: int| 0 <= i < s.len() && #[trigger] s[i].name@ == name
}

/// Where `name` stands in `s` (meaningful when `has_name(s, name)`).
pub open spec fn name_index<F>(s: Seq<CatalogPlanet<F>>, name: Seq<char>) -> int {
    choose|i: int| 0 <= i < s.len() && #[trigger] s[i].name@ == name
}

/// The catalog after a KOI row: unchanged when its name is known, else the
/// row joins at the end.
pub open spec fn with_koi<F>(s: Seq<CatalogPlanet<F>>, p: CatalogPlanet<F>) -> Seq<CatalogPlanet<F>> {
    if has_name(s, p.name@) {
        s
    } else {
        s.push(p)
    }
}

/// The catalog after a Planetary Systems row: merged onto the planet of the
/// same name; else joining at the end when `keep_unmatched` holds or it is a
/// holdout host; else dropped.
pub open spec fn with_ps<F>(s: Seq<CatalogPlanet<F>>, ps: CatalogPlanet<F>, keep_unmatched: bool) -> Seq<
    CatalogPlanet<F>,
> {
    if has_name(s, ps.name@) {
        let i = name_index(s, ps.name@);
        s.update(i, merged(s[i], ps))
    } else if keep_unmatched || is_holdout_host_spec(ps.name@) {
        s.push(ps)
    } else {
        s
    }
}

/// A holdout host's Planetary Systems row always leaves its name in the
/// catalog, so its score card finds the catalog row.
pub proof fn holdout_hosts_stay_in_catalog<F>(
    s: Seq<CatalogPlanet<F>>,
    ps: CatalogPlanet<F>,
    keep_unmatched: bool,
)
    requires
        is_holdout_host_spec(ps.name@),
    ensures
        has_name(with_ps(s, ps, keep_unmatched), ps.name@),
{
    let r = with_ps(s, ps, keep_unmatched);
    if has_name(s, ps.name@) {
        let i = name_index(s, ps.name@);
        assert(r[i].name@ == ps.name@);
    } else {
        assert(r[s.len() as int].name@ == ps.name@);
    }
}

/// The catalog being built: its planets in the order they joined, no name
/// twice.
pub struct Catalog<F> {
    planets: Vec<CatalogPlanet<F>>,
}

impl<F> View for Catalog<F> {
    type V = Seq<CatalogPlanet<F>>;

    closed spec fn view(&self) -> Seq<CatalogPlanet<F>> {
        self.planets@
    }
}

impl<F> Catalog<F> {
    pub open spec fn wf(&self) -> bool {
        names_distinct(self@)
    }

    pub fn new() -> (r: Self)
        ensures
            r.wf(),
            r@ == Seq::<CatalogPlanet<F>>::empty(),
    {
        Catalog { planets: Vec::new() }
    }

    /// The planets so far, in the order they joined.
    pub fn planets(&self) -> (r: &Vec<CatalogPlanet<F>>)
        ensures
            r@ == self@,
    {
        &self.planets
    }

    /// The position of the planet named `name`.
    pub fn index_of(&self, name: &str) -> (r: Option<usize>)
        ensures
            match r {
                Some(i) => i < self@.len() && self@[i as int].name@ == name@,
                None => !has_name(self@, name@),
            },
    {
        let mut i: usize = 0;
        while i < self.planets.len()
            invariant
                i <= self.planets@.len(),
                forall|j: int| 0 <= j < i ==> self.planets@[j].name@ != name@,
            decreases self.planets@.len() - i,
        {
            if str_eq(self.planets[i].name.as_str(), name) {
                return Some(i);
            }
            i = i + 1;
        }
        None
    }

    pub fn add_koi(&mut self, p: CatalogPlanet<F>)
        requires
            old(self).wf(),
        ensures
            final(self).wf(),
            final(self)@ == with_koi(old(self)@, p),
    {
        match self.index_of(p.name.as_str()) {
            Some(i) => {
                assert(has_name(self@, p.name@) && self@[i as int].name@ == p.name@);
            },
            None => {
                self.planets.push(p);
            },
        }
    }

    pub fn add_ps(&mut self, ps: CatalogPlanet<F>, keep_unmatched: bool)
        where
            F: Copy,
        requires
            old(self).wf(),
        ensures
            final(self).wf(),
            final(self)@ == with_ps(old(self)@, ps, keep_unmatched),
    {
        match self.index_of(ps.name.as_str()) {
            Some(i) => {
                let ghost s = self.planets@;
                assert(has_name(s, ps.name@) && s[i as int].name@ == ps.name@);
                let ghost k = name_index(s, ps.name@);
                assert(k == i as int);
                let mut tmp = self.planets.remove(i);
                merge_ps_onto_koi(&mut tmp, &ps);
                self.planets.insert(i, tmp);
                assert(self.planets@ =~= s.update(i as int, merged(s[i as int], ps)));
            },
            None => {
                if keep_unmatched || ps.is_holdout_host() {
                    self.planets.push(ps);
                }
            },
        }
    }

    /// The planets sorted by `period_keys` (one per planet, in the catalog's
    /// order), then by name.
    pub fn into_sorted(self, period_keys: &Vec<u64>) -> (r: Vec<CatalogPlanet<F>>)
        requires
            period_keys@.len() == self@.len(),
        ensures
            r@.len() == self@.len(),
            exists|p: Seq<usize>|
                sorts_stably(catalog_keys(self@, period_keys@), p) && forall|i: int|
                    0 <= i < r@.len() ==> #[trigger] r@[i] == self@[p[i] as int],
    {
        let mut keys: Vec<(u64, Vec<u8>)> = Vec::new();
        let mut i: usize = 0;
        while i < self.planets.len()
            invariant
                i <= self.planets@.len(),
                period_keys@.len() == self.planets@.len(),
                keys_view(keys@) == catalog_keys(self.planets@, period_keys@).take(i as int),
            decreases self.planets@.len() - i,
        {
            let b = self.planets[i].name.as_str().as_bytes();
            let nb = sub_bytes(b, 0, b.len());
            assert(nb@ =~= encode_utf8(self.planets@[i as int].name@));
            let ghost before = keys@;
            keys.push((period_keys[i], nb));
            assert(keys_view(keys@) =~= keys_view(before).push((period_keys@[i as int], nb@)));
            assert(keys_view(keys@) =~= catalog_keys(self.planets@, period_keys@).take(i + 1));
            i = i + 1;
        }
        assert(catalog_keys(self.planets@, period_keys@).take(i as int) =~= catalog_keys(
            self.planets@,
            period_keys@,
        ));
        let p = sorted_order(&keys);
        let ghost s = self.planets@;
        let r = apply_order(self.planets, &p);
        assert(forall|i: int| 0 <= i < r@.len() ==> #[trigger] r@[i] == s[p@[i] as int]);
        r
    }
}

/// The sort key of each planet: its period key, then its name's bytes.
pub open spec fn catalog_keys<F>(s: Seq<CatalogPlanet<F>>, period_keys: Seq<u64>) -> Seq<
    (u64, Seq<u8>),
> {
    Seq::new(s.len(), |i: int| (period_keys[i], encode_utf8(s[i].name@)))
}

} // verus!
