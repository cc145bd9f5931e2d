//! Memory headroom of a memory-capped cgroup, with reclaimable file cache
//! counted as available.
//!
//! `memory.current` charges reclaimable page cache as used, so
//! `limit - current` trends toward zero on a cache-heavy server even though
//! the kernel reclaims that cache long before OOM. The honest number adds the
//! reclaimable file cache back, `limit - (current - inactive_file -
//! active_file)`, evaluated at every capped ancestor with the minimum kept,
//! since a parent's cap binds its descendants even when the leaf itself is
//! unlimited.

use vstd::prelude::*;

use crate::text::chars_of;
use crate::text::copy_range;
use crate::text::find_char;
use crate::text::find_map;
use crate::text::index_of;
use crate::text::index_of_from;
use crate::text::lemma_contains_cons;
use crate::text::lemma_find_map_cons;
use crate::text::lemma_index_of_from_is;
use crate::text::lines;
use crate::text::lines_from;
use crate::text::next_line;
use crate::text::next_piece;
use crate::text::opt_view;
use crate::text::parse_u64;
use crate::text::parse_unsigned_range;
use crate::text::range_equals;
use crate::text::split;
use crate::text::split_from;
use crate::text::string_from_range;
use crate::text::trim;
use crate::text::trim_range;

verus! {

/// The two cgroup hierarchies. They name the limit and usage files
/// differently, and v1 needs the `total_`-prefixed `memory.stat` keys for
/// hierarchical (descendants included) counters, which v2 reports by
/// default.
#[derive(Clone, Copy, Debug, PartialEq, Eq)]
pub enum CgroupVersion {
    V1,
    V2,
}

/// Name of the per-level statistics file in both hierarchies.
pub const MEMORY_STAT_FILE: &'static str = "memory.stat";

impl CgroupVersion {
    pub open spec fn spec_limit_file(self) -> Seq<char> {
        match self {
            CgroupVersion::V2 => "memory.max"@,
            CgroupVersion::V1 => "memory.limit_in_bytes"@,
        }
    }

    pub open spec fn spec_usage_file(self) -> Seq<char> {
        match self {
            CgroupVersion::V2 => "memory.current"@,
            CgroupVersion::V1 => "memory.usage_in_bytes"@,
        }
    }

    pub open spec fn spec_inactive_key(self) -> Seq<char> {
        match self {
            CgroupVersion::V2 => "inactive_file"@,
            CgroupVersion::V1 => "total_inactive_file"@,
        }
    }

    pub open spec fn spec_active_key(self) -> Seq<char> {
        match self {
            CgroupVersion::V2 => "active_file"@,
            CgroupVersion::V1 => "total_active_file"@,
        }
    }

    /// File that holds a level's memory limit.
    pub fn limit_file(self) -> (r: &'static str)
        ensures
            r@ == self.spec_limit_file(),
            self is V2 ==> r@ == "memory.max"@,
            self is V1 ==> r@ == "memory.limit_in_bytes"@,
    {
        match self {
            CgroupVersion::V2 => "memory.max",
            CgroupVersion::V1 => "memory.limit_in_bytes",
        }
    }

    /// File that holds a level's memory usage.
    pub fn usage_file(self) -> (r: &'static str)
        ensures
            r@ == self.spec_usage_file(),
            self is V2 ==> r@ == "memory.current"@,
            self is V1 ==> r@ == "memory.usage_in_bytes"@,
    {
        match self {
            CgroupVersion::V2 => "memory.current",
            CgroupVersion::V1 => "memory.usage_in_bytes",
        }
    }

    /// The two `memory.stat` keys whose counters are reclaimable file cache.
    pub fn reclaimable_keys(self) -> (r: (&'static str, &'static str))
        ensures
            r.0@ == self.spec_inactive_key(),
            r.1@ == self.spec_active_key(),
            self is V2 ==> r.0@ == "inactive_file"@ && r.1@ == "active_file"@,
            self is V1 ==> r.0@ == "total_inactive_file"@ && r.1@ == "total_active_file"@,
    {
        match self {
            CgroupVersion::V2 => ("inactive_file", "active_file"),
            CgroupVersion::V1 => ("total_inactive_file", "total_active_file"),
        }
    }
}

impl CgroupVersion {
    pub open spec fn spec_hierarchy_root(self) -> Seq<char> {
        match self {
            CgroupVersion::V2 => "/sys/fs/cgroup"@,
            CgroupVersion::V1 => "/sys/fs/cgroup/memory"@,
        }
    }

    /// Mount point of the hierarchy's memory controller, under which the
    /// process's cgroup path lies.
    pub fn hierarchy_root(self) -> (r: &'static str)
        ensures
            r@ == self.spec_hierarchy_root(),
            self is V2 ==> r@ == "/sys/fs/cgroup"@,
            self is V1 ==> r@ == "/sys/fs/cgroup/memory"@,
    {
        match self {
            CgroupVersion::V2 => "/sys/fs/cgroup",
            CgroupVersion::V1 => "/sys/fs/cgroup/memory",
        }
    }
}

/// The next step of the probe for available memory: evaluate one
/// hierarchy, or stop with an answer.
#[derive(Debug, Clone, Copy, PartialEq, Eq)]
pub enum CgroupProbe {
    Probe(CgroupVersion),
    Done(Option<u64>),
}

/// The probe starts with the unified (v2) hierarchy.
pub fn first_cgroup_probe() -> (p: CgroupProbe)
    ensures
        p == CgroupProbe::Probe(CgroupVersion::V2),
{
    CgroupProbe::Probe(CgroupVersion::V2)
}

/// The step after evaluating `probed`, which gave `result` (`None` when the
/// process has no cgroup path there or no capped, readable level): an answer
/// from v2 is final; without one, v1 is tried; v1's result, whatever it is,
/// ends the probe.
pub fn next_cgroup_probe(probed: CgroupVersion, result: Option<u64>) -> (p: CgroupProbe)
    ensures
        p == (match probed {
            CgroupVersion::V2 => if result is Some {
                CgroupProbe::Done(result)
            } else {
                CgroupProbe::Probe(CgroupVersion::V1)
            },
            CgroupVersion::V1 => CgroupProbe::Done(result),
        }),
{
    match probed {
        CgroupVersion::V2 => match result {
            Some(_) => CgroupProbe::Done(result),
            None => CgroupProbe::Probe(CgroupVersion::V1),
        },
        CgroupVersion::V1 => CgroupProbe::Done(result),
    }
}

// ---------------------------------------------------------------------------
// Locating the cgroup in `/proc/self/cgroup`
// ---------------------------------------------------------------------------

/// The path, relative to the root, that `Path::strip_prefix("/")` leaves of an
/// absolute path.
pub uninterp spec fn root_relative(path: Seq<char>) -> Seq<char>;

/// `std::path::Path::strip_prefix` with the prefix `"/"`: succeeds exactly on
/// a path that starts at the root, and then gives the path relative to it.
/// What that relative path is (how separators and `.` components are
/// normalised) is left to the name `root_relative`.
#[verifier::external_body]
fn strip_root(path: &str) -> (r: Option<String>)
    ensures
        r is Some <==> (path@.len() > 0 && path@[0] == '/'),
        r matches Some(p) ==> p@ == root_relative(path@),
{
    match std::path::Path::new(path).strip_prefix("/") {
        Ok(relative) => Some(relative.to_string_lossy().into_owned()),
        Err(_) => None,
    }
}

/// The three `:`-separated fields of a `/proc/self/cgroup` line
/// (`splitn(3, ':')`): hierarchy id, controller list, path. `None` when the
/// line has fewer than two colons.
pub open spec fn line_fields(line: Seq<char>) -> Option<(Seq<char>, Seq<char>, Seq<char>)> {
    let i1 = index_of(line, ':');
    let i2 = index_of_from(line, ':', i1 + 1);
    if i1 >= line.len() || i2 >= line.len() {
        None
    } else {
        Some((line.subrange(0, i1), line.subrange(i1 + 1, i2), line.subrange(i2 + 1, line.len() as int)))
    }
}

/// Whether a line with these fields describes the memory cgroup of
/// `version`: the v2 unified line has hierarchy id `0` and no controllers,
/// a v1 line lists `memory` among its comma-separated controllers.
pub open spec fn spec_line_matches(version: CgroupVersion, hierarchy_id: Seq<char>, controllers: Seq<char>) -> bool {
    match version {
        CgroupVersion::V2 => hierarchy_id == "0"@ && controllers.len() == 0,
        CgroupVersion::V1 => split(controllers, ',').contains("memory"@),
    }
}

/// The cgroup path that one line gives for `version`, if any.
pub open spec fn line_relative_path(version: CgroupVersion) -> spec_fn(Seq<char>) -> Option<Seq<char>> {
    |line: Seq<char>|
        match line_fields(line) {
            Some(fields) => if spec_line_matches(version, fields.0, fields.1) && fields.2.len() > 0
                && fields.2[0] == '/' {
                Some(root_relative(fields.2))
            } else {
                None
            },
            None => None,
        }
}

/// The cgroup path of the first line of `cgroup` that gives one for `version`.
pub open spec fn spec_cgroup_relative_path(cgroup: Seq<char>, version: CgroupVersion) -> Option<Seq<char>> {
    find_map(lines(cgroup), line_relative_path(version))
}

/// Whether `controllers` lists `memory` among its comma-separated entries.
fn lists_memory_controller(c: &Vec<char>) -> (b: bool)
    ensures
        b == split(c@, ',').contains("memory"@),
{
    let mut start: usize = 0;
    loop
        invariant
            start <= c@.len(),
            split(c@, ',').contains("memory"@) == split_from(c@, ',', start as int).contains("memory"@),
        decreases c@.len() - start,
    {
        let (end, next) = next_piece(c, ',', start);
        proof {
            let rest = match next {
                Some(n) => split_from(c@, ',', n as int),
                None => Seq::<Seq<char>>::empty(),
            };
            lemma_contains_cons(c@.subrange(start as int, end as int), rest, "memory"@);
        }
        if range_equals(c, start, end, "memory") {
            return true;
        }
        match next {
            Some(n) => {
                start = n;
            },
            None => {
                return false;
            },
        }
    }
}

/// Whether the line with the given field bounds describes the memory cgroup.
fn line_matches(line: &Vec<char>, i1: usize, i2: usize, version: CgroupVersion) -> (b: bool)
    requires
        i1 < i2 <= line@.len(),
    ensures
        b == spec_line_matches(version, line@.subrange(0, i1 as int), line@.subrange(i1 + 1, i2 as int)),
{
    match version {
        CgroupVersion::V2 => range_equals(line, 0, i1, "0") && i2 == i1 + 1,
        CgroupVersion::V1 => {
            let controllers = copy_range(line, i1 + 1, i2);
            lists_memory_controller(&controllers)
        },
    }
}

/// The cgroup path that `line` gives for `version`, if any.
fn relative_path_of_line(line: &Vec<char>, version: CgroupVersion) -> (r: Option<String>)
    ensures
        opt_view(r) == (line_relative_path(version))(line@),
{
    let n = line.len();
    assert(line@.subrange(0, n as int) =~= line@);
    let i1 = find_char(line, ':', 0, n);
    if i1 >= n {
        return None;
    }
    let i2 = find_char(line, ':', i1 + 1, n);
    if i2 >= n {
        return None;
    }
    if !line_matches(line, i1, i2, version) {
        return None;
    }
    let path = string_from_range(line, i2 + 1, n);
    strip_root(path.as_str())
}

/// The path, relative to the hierarchy root, of the calling process's memory
/// cgroup for `version`, found in the text of `/proc/self/cgroup`: the first
/// line `hierarchy-id:controllers:path` that describes that cgroup and whose
/// path is absolute.
pub fn cgroup_relative_path(cgroup: &str, version: CgroupVersion) -> (r: Option<String>)
    ensures
        opt_view(r) == spec_cgroup_relative_path(cgroup@, version),
{
    let v = chars_of(cgroup);
    let n = v.len();
    let mut start: usize = 0;
    while start < n
        invariant
            start <= n == v@.len(),
            v@ == cgroup@,
            spec_cgroup_relative_path(cgroup@, version) == find_map(
                lines_from(v@, start as int),
                line_relative_path(version),
            ),
        decreases n - start,
    {
        let (end, next) = next_line(&v, start);
        let line = copy_range(&v, start, end);
        let r = relative_path_of_line(&line, version);
        proof {
            lemma_find_map_cons(line@, lines_from(v@, next as int), line_relative_path(version));
        }
        if r.is_some() {
            return r;
        }
        start = next;
    }
    proof {
        assert(lines_from(v@, start as int) =~= Seq::<Seq<char>>::empty());
    }
    None
}

/// The cgroup v2 (unified hierarchy) path of the calling process.
pub fn v2_cgroup_path(cgroup: &str) -> (r: Option<String>)
    ensures
        opt_view(r) == spec_cgroup_relative_path(cgroup@, CgroupVersion::V2),
{
    cgroup_relative_path(cgroup, CgroupVersion::V2)
}

/// The cgroup v1 memory-controller path of the calling process.
pub fn v1_cgroup_path(cgroup: &str) -> (r: Option<String>)
    ensures
        opt_view(r) == spec_cgroup_relative_path(cgroup@, CgroupVersion::V1),
{
    cgroup_relative_path(cgroup, CgroupVersion::V1)
}

// ---------------------------------------------------------------------------
// Reading the limit, usage and statistics files
// ---------------------------------------------------------------------------

/// The number in the text of a limit or usage file: the whole text, trimmed,
/// parsed as `u64`. A v2 `max` (unlimited) parses to `None`.
pub open spec fn spec_file_u64(text: Seq<char>) -> Option<u64> {
    parse_u64(trim(text))
}

/// The number held in the text of a limit or usage file.
pub fn parse_file_u64(text: &str) -> (r: Option<u64>)
    ensures
        r == spec_file_u64(text@),
{
    let v = chars_of(text);
    assert(v@.subrange(0, v@.len() as int) =~= v@);
    let (a, b) = trim_range(&v, 0, v.len());
    parse_unsigned_range(&v, a, b, u64::MAX)
}

/// The value that one `memory.stat` line gives for `key`: the line is
/// `name value`, split at its first space; the name must be `key` and the
/// trimmed value must parse as `u64`.
pub open spec fn stat_line_value(key: Seq<char>) -> spec_fn(Seq<char>) -> Option<u64> {
    |line: Seq<char>|
        {
            let i = index_of(line, ' ');
            if i >= line.len() || line.subrange(0, i) != key {
                None
            } else {
                parse_u64(trim(line.subrange(i + 1, line.len() as int)))
            }
        }
}

/// The counter `key` in the text of `memory.stat`: the first line that
/// gives a value for it.
pub open spec fn spec_stat_value(stat: Seq<char>, key: Seq<char>) -> Option<u64> {
    find_map(lines(stat), stat_line_value(key))
}

pub open spec fn or_zero(o: Option<u64>) -> nat {
    match o {
        Some(v) => v as nat,
        None => 0,
    }
}

pub open spec fn saturating_u64(n: nat) -> u64 {
    if n > u64::MAX {
        u64::MAX
    } else {
        n as u64
    }
}

/// Reclaimable file cache in the text of `memory.stat`: the saturating sum
/// of the inactive and active file counters, a missing counter counting as
/// zero (kernels omit feature-gated counters).
pub open spec fn spec_reclaimable(stat: Seq<char>, version: CgroupVersion) -> u64 {
    saturating_u64(
        or_zero(spec_stat_value(stat, version.spec_inactive_key())) + or_zero(
            spec_stat_value(stat, version.spec_active_key()),
        ),
    )
}

/// The value that `line` gives for `key`, if any.
fn stat_value_of_line(line: &Vec<char>, key: &str) -> (r: Option<u64>)
    ensures
        r == (stat_line_value(key@))(line@),
{
    let n = line.len();
    assert(line@.subrange(0, n as int) =~= line@);
    let i = find_char(line, ' ', 0, n);
    if i >= n {
        return None;
    }
    if !range_equals(line, 0, i, key) {
        return None;
    }
    let (a, b) = trim_range(line, i + 1, n);
    parse_unsigned_range(line, a, b, u64::MAX)
}

/// The counter `key` in the text of `memory.stat`, if it is there.
pub fn stat_value(stat: &str, key: &str) -> (r: Option<u64>)
    ensures
        r == spec_stat_value(stat@, key@),
{
    let v = chars_of(stat);
    let n = v.len();
    let mut start: usize = 0;
    while start < n
        invariant
            start <= n == v@.len(),
            v@ == stat@,
            spec_stat_value(stat@, key@) == find_map(lines_from(v@, start as int), stat_line_value(key@)),
        decreases n - start,
    {
        let (end, next) = next_line(&v, start);
        let line = copy_range(&v, start, end);
        let r = stat_value_of_line(&line, key);
        proof {
            lemma_find_map_cons(line@, lines_from(v@, next as int), stat_line_value(key@));
        }
        if r.is_some() {
            return r;
        }
        start = next;
    }
    proof {
        assert(lines_from(v@, start as int) =~= Seq::<Seq<char>>::empty());
    }
    None
}

/// Reclaimable file cache counted in the text of `memory.stat`.
pub fn read_reclaimable(stat: &str, version: CgroupVersion) -> (r: u64)
    ensures
        r == spec_reclaimable(stat@, version),
{
    let (inactive, active) = version.reclaimable_keys();
    let mut reclaimable: u64 = 0;
    let a = stat_value(stat, inactive);
    reclaimable = reclaimable.saturating_add(
        match a {
            Some(x) => x,
            None => 0,
        },
    );
    let b = stat_value(stat, active);
    reclaimable = reclaimable.saturating_add(
        match b {
            Some(x) => x,
            None => 0,
        },
    );
    reclaimable
}

// ---------------------------------------------------------------------------
// Headroom over the levels of the hierarchy
// ---------------------------------------------------------------------------

/// What was read at one level of the cgroup hierarchy: the text of its
/// limit file, usage file and `memory.stat`, each `None` where the file could
/// not be read.
pub struct CgroupLevel {
    pub limit: Option<String>,
    pub usage: Option<String>,
    pub stat: Option<String>,
}

pub open spec fn opt_file_u64(text: Option<String>) -> Option<u64> {
    match text {
        Some(t) => spec_file_u64(t@),
        None => None,
    }
}

/// The cap of a level: its limit, when it reads as a number no larger than
/// the host total. An unlimited level reads as `max` (v2, unparsable) or a
/// value beyond the host total (v1); neither constrains anything.
pub open spec fn level_cap(level: CgroupLevel, host_total_memory: u64) -> Option<u64> {
    match opt_file_u64(level.limit) {
        Some(limit) => if limit <= host_total_memory {
            Some(limit)
        } else {
            None
        },
        None => None,
    }
}

pub open spec fn sat_sub(a: u64, b: u64) -> u64 {
    if a >= b {
        (a - b) as u64
    } else {
        0
    }
}

/// Headroom under the cap `limit` of a level:
/// `limit - (usage - reclaimable)`, both differences saturating at zero;
/// `None` when the usage or the statistics cannot be read.
pub open spec fn level_headroom(level: CgroupLevel, version: CgroupVersion, limit: u64) -> Option<u64> {
    match (opt_file_u64(level.usage), level.stat) {
        (Some(usage), Some(stat)) => Some(sat_sub(limit, sat_sub(usage, spec_reclaimable(stat@, version)))),
        _ => None,
    }
}

pub open spec fn tighter(tightest: Option<u64>, headroom: u64) -> u64 {
    match tightest {
        Some(t) => if t <= headroom {
            t
        } else {
            headroom
        },
        None => headroom,
    }
}

/// Walks `levels` from the leaf up, keeping the smallest headroom of the
/// capped levels seen so far in `tightest`; a capped level whose usage or
/// statistics cannot be read gives `None` for the whole walk.
pub open spec fn spec_available_from(
    levels: Seq<CgroupLevel>,
    version: CgroupVersion,
    host_total_memory: u64,
    tightest: Option<u64>,
) -> Option<u64>
    decreases levels.len(),
{
    if levels.len() == 0 {
        tightest
    } else {
        match level_cap(levels[0], host_total_memory) {
            None => spec_available_from(levels.drop_first(), version, host_total_memory, tightest),
            Some(limit) => match level_headroom(levels[0], version, limit) {
                None => None,
                Some(h) => spec_available_from(
                    levels.drop_first(),
                    version,
                    host_total_memory,
                    Some(tighter(tightest, h)),
                ),
            },
        }
    }
}

/// Reclaimable-aware available memory over the levels of a cgroup, leaf
/// first, up to and including the hierarchy root.
pub open spec fn spec_available_memory_within(
    levels: Seq<CgroupLevel>,
    version: CgroupVersion,
    host_total_memory: u64,
) -> Option<u64> {
    spec_available_from(levels, version, host_total_memory, None)
}

/// The number in an optional file text.
fn parse_opt_file_u64(text: &Option<String>) -> (r: Option<u64>)
    ensures
        r == opt_file_u64(*text),
{
    match text {
        Some(t) => parse_file_u64(t.as_str()),
        None => None,
    }
}

/// Reclaimable-aware available memory for a cgroup whose hierarchy levels,
/// leaf first and root last, read as `levels`. `None` when no level caps
/// memory below the host total, or a capped level's usage or statistics are
/// unreadable.
pub fn available_memory_within(levels: &Vec<CgroupLevel>, version: CgroupVersion, host_total_memory: u64) -> (r: Option<u64>)
    ensures
        r == spec_available_memory_within(levels@, version, host_total_memory),
{
    let mut available: Option<u64> = None;
    let mut i: usize = 0;
    assert(levels@.skip(0) =~= levels@);
    while i < levels.len()
        invariant
            i <= levels@.len(),
            spec_available_memory_within(levels@, version, host_total_memory) == spec_available_from(
                levels@.skip(i as int),
                version,
                host_total_memory,
                available,
            ),
        decreases levels@.len() - i,
    {
        let level = &levels[i];
        proof {
            assert(levels@.skip(i as int)[0] == levels@[i as int]);
            assert(levels@.skip(i as int).drop_first() =~= levels@.skip(i + 1));
        }
        let cap = match parse_opt_file_u64(&level.limit) {
            Some(limit) => if limit <= host_total_memory {
                Some(limit)
            } else {
                None
            },
            None => None,
        };
        if let Some(limit) = cap {
            let usage = match parse_opt_file_u64(&level.usage) {
                Some(u) => u,
                None => return None,
            };
            let reclaimable = match &level.stat {
                Some(stat) => read_reclaimable(stat.as_str(), version),
                None => return None,
            };
            let level_available = limit.saturating_sub(usage.saturating_sub(reclaimable));
            available = Some(
                match available {
                    Some(tightest) => if tightest <= level_available {
                        tightest
                    } else {
                        level_available
                    },
                    None => level_available,
                },
            );
        }
        i += 1;
    }
    proof {
        assert(levels@.skip(i as int) =~= Seq::<CgroupLevel>::empty());
    }
    available
}

// ---------------------------------------------------------------------------
// Laws
// ---------------------------------------------------------------------------

/// The headroom of a capped level, `None` for an uncapped one or one whose
/// usage or statistics cannot be read.
pub open spec fn headroom_at(level: CgroupLevel, version: CgroupVersion, host_total_memory: u64) -> Option<u64> {
    match level_cap(level, host_total_memory) {
        Some(limit) => level_headroom(level, version, limit),
        None => None,
    }
}

pub open spec fn is_capped(level: CgroupLevel, host_total_memory: u64) -> bool {
    level_cap(level, host_total_memory) is Some
}

proof fn lemma_available_from(
    levels: Seq<CgroupLevel>,
    version: CgroupVersion,
    host: u64,
    t: Option<u64>,
)
    ensures
        spec_available_from(levels, version, host, t) is Some <==> ((t is Some || exists|i: int|
            0 <= i < levels.len() && is_capped(#[trigger] levels[i], host)) && forall|i: int|
            0 <= i < levels.len() && is_capped(#[trigger] levels[i], host) ==> headroom_at(
                levels[i],
                version,
                host,
            ) is Some),
        spec_available_from(levels, version, host, t) matches Some(x) ==> {
            &&& t matches Some(tv) ==> x <= tv
            &&& forall|i: int|
                0 <= i < levels.len() && is_capped(#[trigger] levels[i], host) ==> x <= headroom_at(
                    levels[i],
                    version,
                    host,
                )->0
            &&& (t == Some(x) || exists|i: int|
                0 <= i < levels.len() && headroom_at(#[trigger] levels[i], version, host) == Some(x))
        },
    decreases levels.len(),
{
    if levels.len() > 0 {
        let rest = levels.drop_first();
        let l0 = levels[0];
        assert forall|j: int| 0 <= j < rest.len() implies #[trigger] rest[j] == levels[j + 1] by {}
        match level_cap(l0, host) {
            None => {
                lemma_available_from(rest, version, host, t);
                if exists|i: int| 0 <= i < levels.len() && is_capped(#[trigger] levels[i], host) {
                    let i = choose|i: int| 0 <= i < levels.len() && is_capped(#[trigger] levels[i], host);
                    assert(i > 0);
                    assert(is_capped(rest[i - 1], host));
                }
                if let Some(x) = spec_available_from(levels, version, host, t) {
                    if t != Some(x) {
                        let j = choose|j: int|
                            0 <= j < rest.len() && headroom_at(#[trigger] rest[j], version, host) == Some(x);
                        assert(headroom_at(levels[j + 1], version, host) == Some(x));
                    }
                    assert forall|i: int|
                        0 <= i < levels.len() && is_capped(#[trigger] levels[i], host) implies x
                        <= headroom_at(levels[i], version, host)->0 by {
                        assert(rest[i - 1] == levels[i]);
                    }
                }
                assert((forall|i: int|
                    0 <= i < levels.len() && is_capped(#[trigger] levels[i], host) ==> headroom_at(
                        levels[i],
                        version,
                        host,
                    ) is Some) <==> (forall|i: int|
                    0 <= i < rest.len() && is_capped(#[trigger] rest[i], host) ==> headroom_at(
                        rest[i],
                        version,
                        host,
                    ) is Some)) by {
                    if forall|i: int|
                        0 <= i < rest.len() && is_capped(#[trigger] rest[i], host) ==> headroom_at(
                            rest[i],
                            version,
                            host,
                        ) is Some {
                        assert forall|i: int|
                            0 <= i < levels.len() && is_capped(#[trigger] levels[i], host) implies headroom_at(
                            levels[i],
                            version,
                            host,
                        ) is Some by {
                            assert(rest[i - 1] == levels[i]);
                        }
                    }
                }
            },
            Some(limit) => {
                assert(is_capped(levels[0], host));
                match level_headroom(l0, version, limit) {
                    None => {
                        assert(headroom_at(levels[0], version, host) is None);
                    },
                    Some(h) => {
                        let t2 = Some(tighter(t, h));
                        lemma_available_from(rest, version, host, t2);
                        if let Some(x) = spec_available_from(levels, version, host, t) {
                            if t2 == Some(x) {
                                if t != Some(x) {
                                    assert(headroom_at(levels[0], version, host) == Some(x));
                                }
                            } else {
                                let j = choose|j: int|
                                    0 <= j < rest.len() && headroom_at(#[trigger] rest[j], version, host)
                                        == Some(x);
                                assert(headroom_at(levels[j + 1], version, host) == Some(x));
                            }
                            assert forall|i: int|
                                0 <= i < levels.len() && is_capped(#[trigger] levels[i], host) implies x
                                <= headroom_at(levels[i], version, host)->0 by {
                                if i > 0 {
                                    assert(rest[i - 1] == levels[i]);
                                }
                            }
                        }
                        assert((forall|i: int|
                            0 <= i < levels.len() && is_capped(#[trigger] levels[i], host) ==> headroom_at(
                                levels[i],
                                version,
                                host,
                            ) is Some) <==> (forall|i: int|
                            0 <= i < rest.len() && is_capped(#[trigger] rest[i], host) ==> headroom_at(
                                rest[i],
                                version,
                                host,
                            ) is Some)) by {
                            if forall|i: int|
                                0 <= i < rest.len() && is_capped(#[trigger] rest[i], host) ==> headroom_at(
                                    rest[i],
                                    version,
                                    host,
                                ) is Some {
                                assert forall|i: int|
                                    0 <= i < levels.len() && is_capped(#[trigger] levels[i], host) implies headroom_at(
                                    levels[i],
                                    version,
                                    host,
                                ) is Some by {
                                    if i > 0 {
                                        assert(rest[i - 1] == levels[i]);
                                    }
                                }
                            }
                        }
                    },
                }
            },
        }
    }
}

/// The available memory is the smallest headroom among the capped levels:
/// it is the headroom of one of them, and no capped level (a parent's cap
/// included) has less headroom or a lower limit.
pub proof fn law_available_is_tightest_cap(levels: Seq<CgroupLevel>, version: CgroupVersion, host_total_memory: u64)
    ensures
        spec_available_memory_within(levels, version, host_total_memory) matches Some(x) ==> {
            &&& exists|i: int|
                0 <= i < levels.len() && headroom_at(#[trigger] levels[i], version, host_total_memory)
                    == Some(x)
            &&& forall|i: int|
                0 <= i < levels.len() && is_capped(#[trigger] levels[i], host_total_memory) ==> x
                    <= headroom_at(levels[i], version, host_total_memory)->0 && x <= level_cap(
                    levels[i],
                    host_total_memory,
                )->0
        },
{
    lemma_available_from(levels, version, host_total_memory, None);
    if let Some(x) = spec_available_memory_within(levels, version, host_total_memory) {
        assert forall|i: int|
            0 <= i < levels.len() && is_capped(#[trigger] levels[i], host_total_memory) implies x
            <= level_cap(levels[i], host_total_memory)->0 by {
            assert(headroom_at(levels[i], version, host_total_memory) is Some);
        }
    }
}

/// There is an answer exactly when some level caps memory below the host
/// total and every capped level's usage and statistics can be read.
pub proof fn law_available_defined_iff_capped_and_readable(
    levels: Seq<CgroupLevel>,
    version: CgroupVersion,
    host_total_memory: u64,
)
    ensures
        spec_available_memory_within(levels, version, host_total_memory) is Some <==> ((exists|i: int|
            0 <= i < levels.len() && is_capped(#[trigger] levels[i], host_total_memory)) && forall|i: int|
            0 <= i < levels.len() && is_capped(#[trigger] levels[i], host_total_memory) ==> headroom_at(
                levels[i],
                version,
                host_total_memory,
            ) is Some),
{
    lemma_available_from(levels, version, host_total_memory, None);
}

/// Counting reclaimable cache as available never reports less headroom than
/// the plain `limit - usage`, and never more than the limit.
pub proof fn law_headroom_adds_back_reclaimable(level: CgroupLevel, version: CgroupVersion, limit: u64)
    ensures
        level_headroom(level, version, limit) matches Some(h) ==> sat_sub(
            limit,
            opt_file_u64(level.usage)->0,
        ) <= h <= limit,
{
}

/// A counter that `memory.stat` lacks counts as zero: the reclaimable cache
/// is then the other counter alone.
pub proof fn law_missing_counter_counts_as_zero(stat: Seq<char>, version: CgroupVersion)
    requires
        spec_stat_value(stat, version.spec_active_key()) is None,
    ensures
        spec_reclaimable(stat, version) == or_zero(spec_stat_value(stat, version.spec_inactive_key())),
{
}

/// The files read are the kernel's own: in the unified (v2) hierarchy the
/// hard limit `memory.max` and the usage `memory.current`, with the
/// `inactive_file` and `active_file` counters, under `/sys/fs/cgroup`; in
/// the v1 memory controller `memory.limit_in_bytes` and
/// `memory.usage_in_bytes`, with the hierarchical `total_inactive_file` and
/// `total_active_file` counters, under `/sys/fs/cgroup/memory`; both keep
/// their counters in `memory.stat`.
pub proof fn law_kernel_file_names(version: CgroupVersion)
    ensures
        version is V2 ==> {
            &&& version.spec_limit_file() == "memory.max"@
            &&& version.spec_usage_file() == "memory.current"@
            &&& version.spec_inactive_key() == "inactive_file"@
            &&& version.spec_active_key() == "active_file"@
            &&& version.spec_hierarchy_root() == "/sys/fs/cgroup"@
        },
        version is V1 ==> {
            &&& version.spec_limit_file() == "memory.limit_in_bytes"@
            &&& version.spec_usage_file() == "memory.usage_in_bytes"@
            &&& version.spec_inactive_key() == "total_inactive_file"@
            &&& version.spec_active_key() == "total_active_file"@
            &&& version.spec_hierarchy_root() == "/sys/fs/cgroup/memory"@
        },
        MEMORY_STAT_FILE@ == "memory.stat"@,
{
}

/// A level caps memory exactly when its limit reads as a number no larger
/// than the host total, and its cap is that number.
pub proof fn law_cap_is_a_limit_within_host_total(level: CgroupLevel, host_total_memory: u64)
    ensures
        level_cap(level, host_total_memory) is Some <==> (opt_file_u64(level.limit) matches Some(l) && l
            <= host_total_memory),
        level_cap(level, host_total_memory) matches Some(c) ==> opt_file_u64(level.limit) == Some(c),
{
}

/// Headroom under a cap adds the reclaimable cache back to what is left:
/// `limit - (usage - reclaimable)`, exactly, whenever the reclaimable cache
/// is within the usage and the rest within the limit; zero when the
/// unreclaimable usage exceeds the limit.
pub proof fn law_headroom_formula(level: CgroupLevel, version: CgroupVersion, limit: u64)
    ensures
        level_headroom(level, version, limit) is Some <==> (opt_file_u64(level.usage) is Some
            && level.stat is Some),
        level_headroom(level, version, limit) matches Some(h) ==> {
            let usage = opt_file_u64(level.usage)->0 as int;
            let reclaimable = spec_reclaimable(level.stat->0@, version) as int;
            &&& reclaimable <= usage && usage - reclaimable <= limit ==> h == limit - usage + reclaimable
            &&& reclaimable > usage ==> h == limit
            &&& usage - reclaimable > limit ==> h == 0
        },
{
}

/// The reclaimable cache is the sum of the inactive and active file
/// counters, saturating at `u64::MAX`.
pub proof fn law_reclaimable_is_the_counter_sum(stat: Seq<char>, version: CgroupVersion)
    ensures
        spec_reclaimable(stat, version) as int == if or_zero(spec_stat_value(stat, version.spec_inactive_key()))
            + or_zero(spec_stat_value(stat, version.spec_active_key())) > u64::MAX {
            u64::MAX as int
        } else {
            (or_zero(spec_stat_value(stat, version.spec_inactive_key())) + or_zero(
                spec_stat_value(stat, version.spec_active_key()),
            )) as int
        },
{
}

/// A `/proc/self/cgroup` line `id:controllers:path` (id and controllers
/// free of `:`) splits into exactly those three fields, the path keeping any
/// further `:`; it gives a path only when the path is absolute and the line
/// describes the memory cgroup: hierarchy `0` with no controllers for v2,
/// `memory` among the controllers for v1.
pub proof fn law_cgroup_line(id: Seq<char>, controllers: Seq<char>, path: Seq<char>, version: CgroupVersion)
    requires
        forall|j: int| 0 <= j < id.len() ==> id[j] != ':',
        forall|j: int| 0 <= j < controllers.len() ==> controllers[j] != ':',
    ensures
        line_fields(id + seq![':'] + controllers + seq![':'] + path) == Some((id, controllers, path)),
        (line_relative_path(version))(id + seq![':'] + controllers + seq![':'] + path) == (if path.len() > 0
            && path[0] == '/' && (match version {
            CgroupVersion::V2 => id == "0"@ && controllers.len() == 0,
            CgroupVersion::V1 => split(controllers, ',').contains("memory"@),
        }) {
            Some(root_relative(path))
        } else {
            None
        }),
{
    let line = id + seq![':'] + controllers + seq![':'] + path;
    let a = id.len() as int;
    let b = a + 1 + controllers.len();
    assert(line[a] == ':');
    assert forall|j: int| 0 <= j < a implies line[j] != ':' by {
        assert(line[j] == id[j]);
    }
    lemma_index_of_from_is(line, ':', 0, a);
    assert(line[b] == ':');
    assert forall|j: int| a + 1 <= j < b implies line[j] != ':' by {
        assert(line[j] == controllers[j - a - 1]);
    }
    lemma_index_of_from_is(line, ':', a + 1, b);
    assert(line.subrange(0, a) =~= id);
    assert(line.subrange(a + 1, b) =~= controllers);
    assert(line.subrange(b + 1, line.len() as int) =~= path);
}

/// A `memory.stat` line `name value` (name free of spaces) gives a value for
/// `name` and for no other key: the value text, trimmed and parsed as `u64`.
pub proof fn law_stat_line(name: Seq<char>, value: Seq<char>, key: Seq<char>)
    requires
        forall|j: int| 0 <= j < name.len() ==> name[j] != ' ',
    ensures
        (stat_line_value(key))(name + seq![' '] + value) == (if name == key {
            parse_u64(trim(value))
        } else {
            None
        }),
{
    let line = name + seq![' '] + value;
    let a = name.len() as int;
    assert(line[a] == ' ');
    assert forall|j: int| 0 <= j < a implies line[j] != ' ' by {
        assert(line[j] == name[j]);
    }
    lemma_index_of_from_is(line, ' ', 0, a);
    assert(line.subrange(0, a) =~= name);
    assert(line.subrange(a + 1, line.len() as int) =~= value);
}

} // verus!
