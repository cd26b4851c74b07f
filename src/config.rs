//! Layered, optional-field configuration of a profiler run.
//!
//! Every field of a [`ScenarioConfig`] is either set or absent. Layers are merged with
//! [`ScenarioConfig::overwrite`], where the right-hand layer wins; defaults are applied only
//! when a value is read through one of the `get_*` accessors.
use vstd::prelude::*;

verus! {

/// Size, associativity and line size of one simulated cache level.
#[derive(Clone, Copy, Debug, Hash, PartialEq, Eq, PartialOrd, Structural)]
pub struct CacheParameters {
    /// Size of the cache in bytes.
    pub size: usize,
    /// Associativity of the cache.
    pub associativity: usize,
    /// Size of a single cache line in bytes.
    pub line_size: usize,
}

/// Cache simulation settings: the first-level data and instruction caches and the last-level
/// cache. A level left as `None` is simulated with the host CPU's parameters.
#[derive(Clone, Copy, Debug, Default, Hash, PartialEq, Eq, PartialOrd, Structural)]
pub struct CacheOptions {
    /// First-level data cache (`--D1`).
    pub first_level_data: Option<CacheParameters>,
    /// First-level instruction cache (`--I1`).
    pub first_level_code: Option<CacheParameters>,
    /// Last-level cache (`--LL`).
    pub last_level: Option<CacheParameters>,
}

/// Profiler settings of one configuration layer; every field may be absent.
#[derive(Debug, Hash, PartialEq, Eq, PartialOrd)]
pub struct ScenarioConfig {
    /// Path of the Valgrind executable.
    pub valgrind_path: Option<String>,
    /// Cache simulation: `Some` turns it on.
    pub cache: Option<CacheOptions>,
    /// Branch prediction simulation.
    pub branch_sim: Option<bool>,
    /// Address space layout randomization.
    pub is_aslr_enabled: Option<bool>,
    /// Removal of the report file after use.
    pub cleanup_files: Option<bool>,
    /// Largest number of profiler runs at a time.
    pub parallelism: Option<u64>,
    /// Bus event collection.
    pub collect_bus: Option<bool>,
    /// Functions that collection is limited to.
    pub filters: Option<Vec<String>>,
    /// Path of the report file; `Some(None)` asks for the default path.
    pub output_file: Option<Option<String>>,
}

/// The mathematical value of a [`ScenarioConfig`]: strings as character sequences.
pub struct ConfigView {
    pub valgrind_path: Option<Seq<char>>,
    pub cache: Option<CacheOptions>,
    pub branch_sim: Option<bool>,
    pub is_aslr_enabled: Option<bool>,
    pub cleanup_files: Option<bool>,
    pub parallelism: Option<u64>,
    pub collect_bus: Option<bool>,
    pub filters: Option<Seq<Seq<char>>>,
    pub output_file: Option<Option<Seq<char>>>,
}

/// The view of an optional string.
pub open spec fn opt_str_view(s: Option<String>) -> Option<Seq<char>> {
    match s {
        Some(v) => Some(v@),
        None => None,
    }
}

/// The view of a list of strings.
pub open spec fn strings_view(v: Seq<String>) -> Seq<Seq<char>> {
    v.map_values(|s: String| s@)
}

impl View for ScenarioConfig {
    type V = ConfigView;

    closed spec fn view(&self) -> ConfigView {
        ConfigView {
            valgrind_path: opt_str_view(self.valgrind_path),
            cache: self.cache,
            branch_sim: self.branch_sim,
            is_aslr_enabled: self.is_aslr_enabled,
            cleanup_files: self.cleanup_files,
            parallelism: self.parallelism,
            collect_bus: self.collect_bus,
            filters: match self.filters {
                Some(f) => Some(strings_view(f@)),
                None => None,
            },
            output_file: match self.output_file {
                Some(o) => Some(opt_str_view(o)),
                None => None,
            },
        }
    }
}

/// `over` if it is present, else `base`.
pub open spec fn or_else<T>(over: Option<T>, base: Option<T>) -> Option<T> {
    match over {
        Some(v) => Some(v),
        None => base,
    }
}

/// Right-biased merge of two layers: each field of `over` that is present wins.
pub open spec fn merged(base: ConfigView, over: ConfigView) -> ConfigView {
    ConfigView {
        valgrind_path: or_else(over.valgrind_path, base.valgrind_path),
        cache: or_else(over.cache, base.cache),
        branch_sim: or_else(over.branch_sim, base.branch_sim),
        is_aslr_enabled: or_else(over.is_aslr_enabled, base.is_aslr_enabled),
        cleanup_files: or_else(over.cleanup_files, base.cleanup_files),
        parallelism: or_else(over.parallelism, base.parallelism),
        collect_bus: or_else(over.collect_bus, base.collect_bus),
        filters: or_else(over.filters, base.filters),
        output_file: or_else(over.output_file, base.output_file),
    }
}

fn pick<T>(over: Option<T>, base: Option<T>) -> (r: Option<T>)
    ensures
        r == or_else(over, base),
{
    match over {
        Some(v) => Some(v),
        None => base,
    }
}

impl ScenarioConfig {
    /// Merges two layers: every field set in `other` replaces the one of `self`; a field
    /// absent from `other` keeps the value of `self`.
    pub fn overwrite(self, other: Self) -> (r: Self)
        ensures
            r@ == merged(self@, other@),
    {
        ScenarioConfig {
            branch_sim: pick(other.branch_sim, self.branch_sim),
            is_aslr_enabled: pick(other.is_aslr_enabled, self.is_aslr_enabled),
            cleanup_files: pick(other.cleanup_files, self.cleanup_files),
            parallelism: pick(other.parallelism, self.parallelism),
            collect_bus: pick(other.collect_bus, self.collect_bus),
            valgrind_path: pick(other.valgrind_path, self.valgrind_path),
            cache: pick(other.cache, self.cache),
            filters: pick(other.filters, self.filters),
            output_file: pick(other.output_file, self.output_file),
        }
    }
}

/// The layer with every field absent.
pub open spec fn empty_config() -> ConfigView {
    ConfigView {
        valgrind_path: None,
        cache: None,
        branch_sim: None,
        is_aslr_enabled: None,
        cleanup_files: None,
        parallelism: None,
        collect_bus: None,
        filters: None,
        output_file: None,
    }
}

/// The value of a flag, or `default` when it is absent.
pub open spec fn flag_or(o: Option<bool>, default: bool) -> bool {
    match o {
        Some(b) => b,
        None => default,
    }
}

/// The profiler executable: `"valgrind"` unless set.
pub open spec fn resolved_valgrind(c: ConfigView) -> Seq<char> {
    match c.valgrind_path {
        Some(p) => p,
        None => "valgrind"@,
    }
}

/// The largest number of profiler runs at a time: 1 unless set.
pub open spec fn resolved_parallelism(c: ConfigView) -> u64 {
    match c.parallelism {
        Some(p) => p,
        None => 1,
    }
}

/// The function filters: none unless set.
pub open spec fn resolved_filters(c: ConfigView) -> Seq<Seq<char>> {
    match c.filters {
        Some(f) => f,
        None => seq![],
    }
}

/// The report path that the user chose, if any.
pub open spec fn resolved_output(c: ConfigView) -> Option<Seq<char>> {
    match c.output_file {
        Some(Some(p)) => Some(p),
        _ => None,
    }
}

impl Default for ScenarioConfig {
    fn default() -> (r: Self)
        ensures
            r@ == empty_config(),
    {
        ScenarioConfig {
            valgrind_path: None,
            cache: None,
            branch_sim: None,
            is_aslr_enabled: None,
            cleanup_files: None,
            parallelism: None,
            collect_bus: None,
            filters: None,
            output_file: None,
        }
    }
}

fn clone_strings(v: &Vec<String>) -> (r: Vec<String>)
    ensures
        strings_view(r@) == strings_view(v@),
{
    let mut r: Vec<String> = Vec::new();
    let mut i: usize = 0;
    while i < v.len()
        invariant
            i <= v.len(),
            strings_view(r@) == strings_view(v@.subrange(0, i as int)),
        decreases v.len() - i,
    {
        let ghost before = r@;
        r.push(v[i].clone());
        assert(strings_view(r@) =~= strings_view(before).push(v@[i as int]@));
        assert(strings_view(v@.subrange(0, i + 1)) =~= strings_view(v@.subrange(0, i as int)).push(
            v@[i as int]@,
        ));
        i += 1;
    }
    assert(v@.subrange(0, i as int) =~= v@);
    r
}

fn clone_opt_string(s: &Option<String>) -> (r: Option<String>)
    ensures
        opt_str_view(r) == opt_str_view(*s),
{
    match s {
        Some(v) => Some(v.clone()),
        None => None,
    }
}

impl Clone for ScenarioConfig {
    fn clone(&self) -> (r: Self)
        ensures
            r@ == self@,
    {
        ScenarioConfig {
            valgrind_path: clone_opt_string(&self.valgrind_path),
            cache: self.cache,
            branch_sim: self.branch_sim,
            is_aslr_enabled: self.is_aslr_enabled,
            cleanup_files: self.cleanup_files,
            parallelism: self.parallelism,
            collect_bus: self.collect_bus,
            filters: match &self.filters {
                Some(f) => Some(clone_strings(f)),
                None => None,
            },
            output_file: match &self.output_file {
                Some(o) => Some(clone_opt_string(o)),
                None => None,
            },
        }
    }
}

impl ScenarioConfig {
    /// A layer with every field absent.
    pub fn new() -> (r: Self)
        ensures
            r@ == empty_config(),
    {
        Self::default()
    }

    /// Sets the path of the Valgrind executable (default `"valgrind"`).
    pub fn valgrind(self, path: String) -> (r: Self)
        ensures
            r@ == (ConfigView { valgrind_path: Some(path@), ..self@ }),
    {
        ScenarioConfig { valgrind_path: Some(path), ..self }
    }

    /// Sets cache simulation: `Some` turns it on (`--cache-sim=yes`) with the given levels,
    /// `None` leaves it off (the default).
    pub fn cache(self, settings: Option<CacheOptions>) -> (r: Self)
        ensures
            r@ == (ConfigView { cache: settings, ..self@ }),
    {
        ScenarioConfig { cache: settings, ..self }
    }

    /// Sets branch prediction simulation (`--branch-sim`, default off).
    pub fn branch_sim(self, is_enabled: bool) -> (r: Self)
        ensures
            r@ == (ConfigView { branch_sim: Some(is_enabled), ..self@ }),
    {
        ScenarioConfig { branch_sim: Some(is_enabled), ..self }
    }

    /// Sets address space layout randomization (default off, since it makes results less
    /// reproducible).
    pub fn aslr(self, is_enabled: bool) -> (r: Self)
        ensures
            r@ == (ConfigView { is_aslr_enabled: Some(is_enabled), ..self@ }),
    {
        ScenarioConfig { is_aslr_enabled: Some(is_enabled), ..self }
    }

    /// Sets whether the report file is removed after use (default on).
    pub fn cleanup_files(self, is_enabled: bool) -> (r: Self)
        ensures
            r@ == (ConfigView { cleanup_files: Some(is_enabled), ..self@ }),
    {
        ScenarioConfig { cleanup_files: Some(is_enabled), ..self }
    }

    /// Sets the largest number of profiler runs at a time (default 1). Callgrind does not
    /// measure wall time, so runs may overlap.
    pub fn parallelism(self, parallelism: u64) -> (r: Self)
        ensures
            r@ == (ConfigView { parallelism: Some(parallelism), ..self@ }),
    {
        ScenarioConfig { parallelism: Some(parallelism), ..self }
    }

    /// Sets bus event collection (`--collect-bus`, default off).
    pub fn collect_bus(self, is_enabled: bool) -> (r: Self)
        ensures
            r@ == (ConfigView { collect_bus: Some(is_enabled), ..self@ }),
    {
        ScenarioConfig { collect_bus: Some(is_enabled), ..self }
    }

    /// Sets the functions that collection is limited to (`--toggle-collect`). An empty list
    /// turns filtering off.
    pub fn filters(self, filters: Vec<String>) -> (r: Self)
        ensures
            r@ == (ConfigView { filters: Some(strings_view(filters@)), ..self@ }),
    {
        ScenarioConfig { filters: Some(filters), ..self }
    }

    /// Sets the path of the report file (default `callgrind.out.<pid>`).
    pub fn output(self, path: String) -> (r: Self)
        ensures
            r@ == (ConfigView { output_file: Some(Some(path@)), ..self@ }),
    {
        ScenarioConfig { output_file: Some(Some(path)), ..self }
    }

    /// The path of the Valgrind executable.
    pub fn get_valgrind(&self) -> (r: &str)
        ensures
            r@ == resolved_valgrind(self@),
    {
        match &self.valgrind_path {
            Some(v) => v.as_str(),
            None => "valgrind",
        }
    }

    /// Whether bus events are collected.
    pub fn get_collect_bus(&self) -> (r: bool)
        ensures
            r == flag_or(self@.collect_bus, false),
    {
        match self.collect_bus {
            Some(b) => b,
            None => false,
        }
    }

    /// The largest number of profiler runs at a time.
    pub fn get_parallelism(&self) -> (r: u64)
        ensures
            r == resolved_parallelism(self@),
    {
        match self.parallelism {
            Some(p) => p,
            None => 1,
        }
    }

    /// Whether the report file is removed after use.
    pub fn get_cleanup_files(&self) -> (r: bool)
        ensures
            r == flag_or(self@.cleanup_files, true),
    {
        match self.cleanup_files {
            Some(b) => b,
            None => true,
        }
    }

    /// Whether address space layout randomization stays on.
    pub fn get_aslr(&self) -> (r: bool)
        ensures
            r == flag_or(self@.is_aslr_enabled, false),
    {
        match self.is_aslr_enabled {
            Some(b) => b,
            None => false,
        }
    }

    /// Whether branch prediction is simulated.
    pub fn get_branch_sim(&self) -> (r: bool)
        ensures
            r == flag_or(self@.branch_sim, false),
    {
        match self.branch_sim {
            Some(b) => b,
            None => false,
        }
    }

    /// The cache simulation settings, if cache simulation is on.
    pub fn get_cache(&self) -> (r: Option<CacheOptions>)
        ensures
            r == self@.cache,
    {
        self.cache
    }

    /// The report path, if the user chose one.
    pub fn get_output_file(&self) -> (r: Option<&str>)
        ensures
            match r {
                Some(p) => resolved_output(self@) == Some(p@),
                None => resolved_output(self@) is None,
            },
    {
        match &self.output_file {
            Some(Some(p)) => Some(p.as_str()),
            _ => None,
        }
    }

    /// The function filters.
    pub fn get_filters(&self) -> (r: &[String])
        ensures
            strings_view(r@) == resolved_filters(self@),
    {
        match &self.filters {
            Some(f) => f.as_slice(),
            None => {
                let r: &[String] = &[];
                assert(strings_view(r@) =~= Seq::<Seq<char>>::empty());
                r
            },
        }
    }
}

/// Merging layers is associative: `(a over b) over c` and `a over (b over c)` agree.
pub proof fn lemma_overwrite_associative(a: ScenarioConfig, b: ScenarioConfig, c: ScenarioConfig)
    ensures
        merged(merged(a@, b@), c@) == merged(a@, merged(b@, c@)),
{
}

/// Merging is right-biased: a field set in the top layer `c` is the merged value, whatever
/// the layers `a` and `b` below it hold.
pub proof fn lemma_overwrite_right_biased(a: ScenarioConfig, b: ScenarioConfig, c: ScenarioConfig)
    ensures
        ({
            let m = merged(merged(a@, b@), c@);
            &&& c@.valgrind_path is Some ==> m.valgrind_path == c@.valgrind_path
            &&& c@.cache is Some ==> m.cache == c@.cache
            &&& c@.branch_sim is Some ==> m.branch_sim == c@.branch_sim
            &&& c@.is_aslr_enabled is Some ==> m.is_aslr_enabled == c@.is_aslr_enabled
            &&& c@.cleanup_files is Some ==> m.cleanup_files == c@.cleanup_files
            &&& c@.parallelism is Some ==> m.parallelism == c@.parallelism
            &&& c@.collect_bus is Some ==> m.collect_bus == c@.collect_bus
            &&& c@.filters is Some ==> m.filters == c@.filters
            &&& c@.output_file is Some ==> m.output_file == c@.output_file
        }),
{
}

} // verus!
