use vstd::prelude::*;
use vstd::wrapping::usize_specs;

use crate::clock::{is_later, later, now_local, valid_local, Instant, LocalStamp};
use crate::stats::{
    day_of, day_period, month_of, month_period, rate_view, FileStats, FileStatsView, Period,
    PeriodModel, RateLimits, RateLimitsView,
};
use crate::tally::{
    distinct_keys, entries_map, lemma_distinct_take, lemma_entries_map_facts, merged, usage_at,
    Tally, UsageMap,
};
use crate::usage::{add_usage, lemma_add_usage_zero, zero_usage, Usage};

verus! {

/// Usage over all session logs: in all, today, this month, and by model for
/// each, with the latest rate limits reported.
pub struct Stats {
    pub total: Usage,
    pub today: Usage,
    pub month: Usage,
    pub by_model: UsageMap,
    pub today_by_model: UsageMap,
    pub month_by_model: UsageMap,
    pub rate_limits: Option<RateLimits>,
    pub latest_rate_ts: Option<Instant>,
    pub files_seen: usize,
    pub events_seen: usize,
}

/// What a `Stats` holds, as the contracts speak of it.
pub struct StatsView {
    pub total: Usage,
    pub today: Usage,
    pub month: Usage,
    pub by_model: Map<Seq<char>, Usage>,
    pub today_by_model: Map<Seq<char>, Usage>,
    pub month_by_model: Map<Seq<char>, Usage>,
    pub rate_limits: Option<RateLimitsView>,
    pub latest_rate_ts: Option<Instant>,
    pub files_seen: usize,
    pub events_seen: usize,
}

impl View for Stats {
    type V = StatsView;

    open spec fn view(&self) -> StatsView {
        StatsView {
            total: self.total,
            today: self.today,
            month: self.month,
            by_model: self.by_model@,
            today_by_model: self.today_by_model@,
            month_by_model: self.month_by_model@,
            rate_limits: rate_view(self.rate_limits),
            latest_rate_ts: self.latest_rate_ts,
            files_seen: self.files_seen,
            events_seen: self.events_seen,
        }
    }
}

impl Clone for Stats {
    fn clone(&self) -> (res: Self)
        ensures
            res@ == self@,
            res.by_model.entries_seq().len() == self.by_model.entries_seq().len(),
            res.today_by_model.entries_seq().len() == self.today_by_model.entries_seq().len(),
            res.month_by_model.entries_seq().len() == self.month_by_model.entries_seq().len(),
    {
        Stats {
            total: self.total,
            today: self.today,
            month: self.month,
            by_model: self.by_model.clone(),
            today_by_model: self.today_by_model.clone(),
            month_by_model: self.month_by_model.clone(),
            rate_limits: match &self.rate_limits {
                Some(r) => Some(r.clone()),
                None => None,
            },
            latest_rate_ts: self.latest_rate_ts,
            files_seen: self.files_seen,
            events_seen: self.events_seen,
        }
    }
}

/// The statistics of no files.
pub open spec fn empty_stats() -> StatsView {
    StatsView {
        total: zero_usage(),
        today: zero_usage(),
        month: zero_usage(),
        by_model: Map::empty(),
        today_by_model: Map::empty(),
        month_by_model: Map::empty(),
        rate_limits: None,
        latest_rate_ts: None,
        files_seen: 0,
        events_seen: 0,
    }
}

/// The per-model usage of one period, out of a tally by period and model.
pub open spec fn models_in(m: Map<(Period, Seq<char>), Usage>, p: Period) -> Map<Seq<char>, Usage> {
    Map::new(|k: Seq<char>| m.contains_key((p, k)), |k: Seq<char>| m[(p, k)])
}

/// `u` plus the usage of period `p` in `m`, if it has any.
pub open spec fn plus_period(u: Usage, m: Map<Period, Usage>, p: Period) -> Usage {
    if m.contains_key(p) {
        add_usage(u, m[p])
    } else {
        u
    }
}

/// Whether a file's rate limits replace those kept so far: it has some, and
/// they are later than the kept ones.
pub open spec fn takes_file_rate(s: StatsView, f: FileStatsView) -> bool {
    f.latest_rate_ts is Some && f.rate_limits is Some && (s.latest_rate_ts is None || later(
        f.latest_rate_ts.unwrap(),
        s.latest_rate_ts.unwrap(),
    ))
}

/// The statistics after adding one more file.
pub open spec fn after_file(s: StatsView, f: FileStatsView, today: Period, month: Period) -> StatsView {
    let take = takes_file_rate(s, f);
    StatsView {
        total: add_usage(s.total, f.total),
        today: plus_period(s.today, f.by_period, today),
        month: plus_period(s.month, f.by_period, month),
        by_model: merged(s.by_model, f.by_model),
        today_by_model: merged(s.today_by_model, models_in(f.by_period_model, today)),
        month_by_model: merged(s.month_by_model, models_in(f.by_period_model, month)),
        rate_limits: if take {
            f.rate_limits
        } else {
            s.rate_limits
        },
        latest_rate_ts: if take {
            f.latest_rate_ts
        } else {
            s.latest_rate_ts
        },
        files_seen: usize_specs::wrapping_add(s.files_seen, 1),
        events_seen: usize_specs::wrapping_add(s.events_seen, f.events_seen as usize),
    }
}

/// The statistics of a run of files, for the given day and month.
pub open spec fn stats_of_files(files: Seq<FileStatsView>, today: Period, month: Period) -> StatsView
    decreases files.len(),
{
    if files.len() == 0 {
        empty_stats()
    } else {
        after_file(stats_of_files(files.drop_last(), today, month), files.last(), today, month)
    }
}

/// The usage of each model within period `p`.
pub fn models_in_period(t: &Tally<PeriodModel>, p: Period) -> (res: UsageMap)
    ensures
        res@ == models_in(t@, p),
{
    let entries = t.entries();
    let mut out: UsageMap = Tally::new();
    let n = entries.len();
    let mut i: usize = 0;
    proof {
        assert(models_in(entries_map(entries@.take(0)), p) =~= Map::<Seq<char>, Usage>::empty());
    }
    while i < n
        invariant
            n == entries@.len(),
            i <= n,
            distinct_keys(entries@),
            entries_map(entries@) == t@,
            out@ == models_in(entries_map(entries@.take(i as int)), p),
        decreases n - i,
    {
        let ghost before = out@;
        let ghost pre = entries@.take(i as int);
        proof {
            assert(entries@.take(i + 1).drop_last() =~= pre);
            lemma_distinct_take(entries@, i as int);
            lemma_entries_map_facts(pre);
        }
        if entries[i].0.period == p {
            out.credit(&entries[i].0.model, &entries[i].1);
            proof {
                let k = entries@[i as int].0@;
                assert(!entries_map(pre).contains_key(k)) by {
                    if entries_map(pre).contains_key(k) {
                        let j = choose|j: int| 0 <= j < pre.len() && pre[j].0@ == k;
                        assert(entries@[j].0@ == k);
                    }
                }
                assert(!before.contains_key(k.1));
                assert(out@ =~= models_in(entries_map(entries@.take(i + 1)), p));
            }
        } else {
            proof {
                assert(out@ =~= models_in(entries_map(entries@.take(i + 1)), p));
            }
        }
        i += 1;
    }
    proof {
        assert(entries@.take(n as int) =~= entries@);
    }
    out
}

impl Stats {
    /// Statistics of no files.
    pub fn new() -> (res: Stats)
        ensures
            res@ == empty_stats(),
    {
        Stats {
            total: Usage::default(),
            today: Usage::default(),
            month: Usage::default(),
            by_model: Tally::new(),
            today_by_model: Tally::new(),
            month_by_model: Tally::new(),
            rate_limits: None,
            latest_rate_ts: None,
            files_seen: 0,
            events_seen: 0,
        }
    }

    /// Adds the statistics of one more file.
    pub fn add_file(&mut self, file: &FileStats, today: Period, month: Period)
        ensures
            final(self)@ == after_file(old(self)@, file@, today, month),
    {
        let ghost before = self@;
        let take = match (&file.latest_rate_ts, &file.rate_limits) {
            (Some(ts), Some(_)) => match &self.latest_rate_ts {
                None => true,
                Some(latest) => is_later(ts, latest),
            },
            _ => false,
        };
        self.files_seen = self.files_seen.wrapping_add(1);
        self.events_seen = self.events_seen.wrapping_add(file.events_seen);
        self.total.merge(&file.total);
        self.by_model.merge_from(&file.by_model);
        match file.by_period.get(&today) {
            Some(u) => self.today.merge(&u),
            None => {},
        }
        let today_models = models_in_period(&file.by_period_model, today);
        self.today_by_model.merge_from(&today_models);
        match file.by_period.get(&month) {
            Some(u) => self.month.merge(&u),
            None => {},
        }
        let month_models = models_in_period(&file.by_period_model, month);
        self.month_by_model.merge_from(&month_models);
        if take {
            self.latest_rate_ts = file.latest_rate_ts;
            self.rate_limits = match &file.rate_limits {
                Some(r) => Some(r.clone()),
                None => None,
            };
        }
        assert(self@ == after_file(before, file@, today, month));
    }
}

/// A session log as last read: its length and modification time, and what it
/// adds up to.
pub struct CachedFile {
    pub len: u64,
    pub modified_ns: u128,
    pub stats: FileStats,
}

/// The statistics of a run of cache entries.
pub open spec fn cached_views(s: Seq<(String, CachedFile)>) -> Seq<FileStatsView> {
    s.map_values(|e: (String, CachedFile)| e.1.stats@)
}

/// Adds up the statistics of cached files for the given day and month.
pub fn aggregate_cached_stats(files: &Vec<(String, CachedFile)>, today: Period, month: Period) -> (res: Stats)
    ensures
        res@ == stats_of_files(cached_views(files@), today, month),
{
    let mut stats = Stats::new();
    let n = files.len();
    let mut i: usize = 0;
    while i < n
        invariant
            n == files@.len(),
            i <= n,
            stats@ == stats_of_files(cached_views(files@.take(i as int)), today, month),
        decreases n - i,
    {
        stats.add_file(&files[i].1.stats, today, month);
        assert(cached_views(files@.take(i + 1)).drop_last() =~= cached_views(files@.take(i as int)));
        i += 1;
    }
    assert(files@.take(n as int) =~= files@);
    stats
}

/// No two cached files have the same path.
pub open spec fn distinct_paths(s: Seq<(String, CachedFile)>) -> bool {
    forall|i: int, j: int|
        0 <= i < s.len() && 0 <= j < s.len() && i != j ==> #[trigger] s[i].0@ != #[trigger] s[j].0@
}

fn path_listed(seen: &Vec<String>, path: &String) -> (res: bool)
    ensures
        res == listed(seen@, path@),
{
    let mut j: usize = 0;
    while j < seen.len()
        invariant
            j <= seen@.len(),
            forall|k: int| 0 <= k < j ==> seen@[k]@ != path@,
        decreases seen@.len() - j,
    {
        if seen[j] == *path {
            return true;
        }
        j += 1;
    }
    false
}

/// Whether `p` is the path of one of `seen`.
pub open spec fn listed(seen: Seq<String>, p: Seq<char>) -> bool {
    exists|k: int| 0 <= k < seen.len() && seen[k]@ == p
}

/// Two cache entries hold the same path, length, time and statistics.
pub open spec fn same_entry(a: (String, CachedFile), b: (String, CachedFile)) -> bool {
    &&& a.0@ == b.0@
    &&& a.1.len == b.1.len
    &&& a.1.modified_ns == b.1.modified_ns
    &&& a.1.stats@ == b.1.stats@
}

/// The entries among `files` whose path is listed in `seen`, in order.
pub open spec fn kept_files(files: Seq<(String, CachedFile)>, seen: Seq<String>) -> Seq<(String, CachedFile)> {
    files.filter(|e: (String, CachedFile)| listed(seen, e.0@))
}

/// Whether a file is cached with the given length and modification time.
pub open spec fn is_fresh(files: Seq<(String, CachedFile)>, p: Seq<char>, len: u64, modified_ns: u128) -> bool {
    exists|i: int|
        0 <= i < files.len() && (#[trigger] files[i]).0@ == p && files[i].1.len == len
            && files[i].1.modified_ns == modified_ns
}

/// Whether a cached file has path `p`.
pub open spec fn has_path(s: Seq<(String, CachedFile)>, p: Seq<char>) -> bool {
    exists|i: int| 0 <= i < s.len() && (#[trigger] s[i]).0@ == p
}

/// Parsed session logs by path, with the statistics last added up from them.
pub struct StatsCache {
    files: Vec<(String, CachedFile)>,
    last_stats: Option<Stats>,
    last_day: Option<Period>,
    last_month: Option<Period>,
    dirty: bool,
}

impl StatsCache {
    #[verifier::type_invariant]
    spec fn consistent(self) -> bool {
        &&& distinct_paths(self.files@)
        &&& !self.dirty ==> match (self.last_stats, self.last_day, self.last_month) {
            (Some(s), Some(d), Some(m)) => s@ == stats_of_files(cached_views(self.files@), d, m),
            _ => true,
        }
    }

    /// The cached files in order, one per path.
    pub closed spec fn files_seq(self) -> Seq<(String, CachedFile)> {
        self.files@
    }

    /// An empty cache.
    pub fn new() -> (res: StatsCache)
        ensures
            res.files_seq().len() == 0,
    {
        StatsCache { files: Vec::new(), last_stats: None, last_day: None, last_month: None, dirty: false }
    }

    /// The cached files in order: paths are distinct.
    pub fn files(&self) -> (res: &Vec<(String, CachedFile)>)
        ensures
            res@ == self.files_seq(),
            distinct_paths(res@),
    {
        proof {
            use_type_invariant(self);
        }
        &self.files
    }

    fn position(&self, path: &String) -> (res: Option<usize>)
        ensures
            match res {
                Some(i) => i < self.files@.len() && self.files@[i as int].0@ == path@,
                None => forall|i: int| 0 <= i < self.files@.len() ==> self.files@[i].0@ != path@,
            },
    {
        let mut i: usize = 0;
        while i < self.files.len()
            invariant
                i <= self.files@.len(),
                forall|j: int| 0 <= j < i ==> self.files@[j].0@ != path@,
            decreases self.files@.len() - i,
        {
            if self.files[i].0 == *path {
                return Some(i);
            }
            i += 1;
        }
        None
    }

    /// Whether a file must be parsed again: it is not cached, or it was
    /// cached with another length or modification time.
    pub fn is_stale(&self, path: &String, len: u64, modified_ns: u128) -> (res: bool)
        ensures
            res == !is_fresh(self.files_seq(), path@, len, modified_ns),
    {
        proof {
            use_type_invariant(self);
        }
        match self.position(path) {
            Some(i) => {
                let stale = self.files[i].1.len != len || self.files[i].1.modified_ns != modified_ns;
                proof {
                    if stale {
                        assert forall|j: int|
                            0 <= j < self.files@.len() && (#[trigger] self.files@[j]).0@ == path@
                            implies !(self.files@[j].1.len == len && self.files@[j].1.modified_ns
                            == modified_ns) by {
                            if j != i {
                                assert(self.files@[j].0@ != self.files@[i as int].0@);
                            }
                        }
                    }
                }
                stale
            },
            None => true,
        }
    }

    /// Records the statistics of a file just parsed, in place of any it had;
    /// the file is then fresh for its length and time.
    pub fn store(&mut self, path: String, len: u64, modified_ns: u128, stats: FileStats)
        ensures
            is_fresh(final(self).files_seq(), path@, len, modified_ns),
            exists|i: int|
                0 <= i < final(self).files_seq().len() && (#[trigger] final(self).files_seq()[i]).0@
                    == path@ && final(self).files_seq()[i].1.len == len
                    && final(self).files_seq()[i].1.modified_ns == modified_ns
                    && final(self).files_seq()[i].1.stats@ == stats@,
            forall|p: Seq<char>|
                p != path@ ==> #[trigger] has_path(final(self).files_seq(), p) == has_path(
                    old(self).files_seq(),
                    p,
                ),
            forall|i: int|
                0 <= i < final(self).files_seq().len() && (#[trigger] final(self).files_seq()[i]).0@
                    != path@ ==> exists|k: int|
                    0 <= k < old(self).files_seq().len() && same_entry(
                        final(self).files_seq()[i],
                        old(self).files_seq()[k],
                    ),
    {
        proof {
            use_type_invariant(&*self);
        }
        let ghost old_files = self.files@;
        let pos = self.position(&path);
        self.dirty = true;
        let mut files: Vec<(String, CachedFile)> = Vec::new();
        std::mem::swap(&mut files, &mut self.files);
        let ghost stats_view = stats@;
        let ghost path_view = path@;
        let ghost mut at: int = 0;
        match pos {
            Some(i) => {
                files.set(i, (path, CachedFile { len, modified_ns, stats }));
                proof {
                    at = i as int;
                    assert(distinct_paths(files@)) by {
                        assert forall|a: int, b: int|
                            0 <= a < files@.len() && 0 <= b < files@.len() && a != b
                            implies #[trigger] files@[a].0@ != #[trigger] files@[b].0@ by {
                            assert(old_files[a].0@ != old_files[b].0@);
                        }
                    }
                    assert(files@[i as int].0@ == path@);
                    assert forall|p: Seq<char>| p != path@ implies #[trigger] has_path(files@, p)
                        == has_path(old_files, p) by {
                        if exists|k: int| 0 <= k < old_files.len() && (#[trigger] old_files[k]).0@ == p {
                            let k = choose|k: int| 0 <= k < old_files.len() && (#[trigger] old_files[k]).0@ == p;
                            assert(files@[k].0@ == p);
                        }
                        if exists|k: int| 0 <= k < files@.len() && (#[trigger] files@[k]).0@ == p {
                            let k = choose|k: int| 0 <= k < files@.len() && (#[trigger] files@[k]).0@ == p;
                            assert(old_files[k].0@ == p);
                        }
                    }
                }
            },
            None => {
                let ghost pv = path@;
                files.push((path, CachedFile { len, modified_ns, stats }));
                proof {
                    let last = old_files.len() as int;
                    at = last;
                    assert(files@[last].0@ == pv);
                    assert(distinct_paths(files@)) by {
                        assert forall|a: int, b: int|
                            0 <= a < files@.len() && 0 <= b < files@.len() && a != b
                            implies #[trigger] files@[a].0@ != #[trigger] files@[b].0@ by {
                            if a < last && b < last {
                                assert(old_files[a].0@ != old_files[b].0@);
                            } else if a < last {
                                assert(old_files[a].0@ != pv);
                            } else {
                                assert(old_files[b].0@ != pv);
                            }
                        }
                    }
                    assert forall|p: Seq<char>| p != pv implies #[trigger] has_path(files@, p)
                        == has_path(old_files, p) by {
                        if exists|k: int| 0 <= k < old_files.len() && (#[trigger] old_files[k]).0@ == p {
                            let k = choose|k: int| 0 <= k < old_files.len() && (#[trigger] old_files[k]).0@ == p;
                            assert(files@[k].0@ == p);
                        }
                        if exists|k: int| 0 <= k < files@.len() && (#[trigger] files@[k]).0@ == p {
                            let k = choose|k: int| 0 <= k < files@.len() && (#[trigger] files@[k]).0@ == p;
                            assert(k != last);
                            assert(old_files[k].0@ == p);
                        }
                    }
                }
            },
        }
        proof {
            assert forall|j: int|
                0 <= j < files@.len() && (#[trigger] files@[j]).0@ != path_view implies exists|k: int|
                    0 <= k < old_files.len() && same_entry(files@[j], old_files[k]) by {
                assert(j != at);
                assert(files@[j] == old_files[j]);
                assert(same_entry(files@[j], old_files[j]));
            }
        }
        let ghost new_files = files@;
        self.files = files;
        proof {
            assert(self.files_seq() == new_files);
            assert(old(self).files_seq() == old_files);
            assert forall|j: int|
                0 <= j < self.files_seq().len() && (#[trigger] self.files_seq()[j]).0@ != path_view
                implies exists|k: int|
                0 <= k < old(self).files_seq().len() && same_entry(
                    self.files_seq()[j],
                    old(self).files_seq()[k],
                ) by {
                assert(new_files[j] == self.files_seq()[j]);
            }
        }
        assert(self.files_seq()[at] == self.files@[at]);
        assert(self.files@[at].0@ == path_view && self.files@[at].1.len == len
            && self.files@[at].1.modified_ns == modified_ns && self.files@[at].1.stats@ == stats_view);
    }

    /// Drops every cached file whose path is not among `seen`, keeping the
    /// others unchanged and in order.
    pub fn retain_seen(&mut self, seen: &Vec<String>)
        ensures
            forall|i: int|
                0 <= i < final(self).files_seq().len() ==> listed(
                    seen@,
                    (#[trigger] final(self).files_seq()[i]).0@,
                ),
            forall|i: int|
                0 <= i < final(self).files_seq().len() ==> exists|k: int|
                    0 <= k < old(self).files_seq().len() && same_entry(
                        #[trigger] final(self).files_seq()[i],
                        old(self).files_seq()[k],
                    ),
            forall|i: int|
                0 <= i < old(self).files_seq().len() && listed(
                    seen@,
                    (#[trigger] old(self).files_seq()[i]).0@,
                ) ==> has_path(final(self).files_seq(), old(self).files_seq()[i].0@),
            final(self).files_seq() == kept_files(old(self).files_seq(), seen@),
    {
        proof {
            use_type_invariant(&*self);
        }
        let old_dirty = self.dirty;
        self.dirty = true;
        let mut files: Vec<(String, CachedFile)> = Vec::new();
        std::mem::swap(&mut files, &mut self.files);
        let ghost old_files = files@;
        let mut kept: Vec<(String, CachedFile)> = Vec::new();
        let mut removed = false;
        let n = files.len();
        // Entries are moved out from the back and kept at the front, so the
        // kept ones stay in their order.
        let mut rest = files;
        while rest.len() > 0
            invariant
                n == old_files.len(),
                rest@.len() <= n,
                rest@ == old_files.take(rest@.len() as int),
                distinct_paths(old_files),
                distinct_paths(kept@),
                !removed ==> kept@ == old_files.skip(rest@.len() as int),
                kept@ == kept_files(old_files.skip(rest@.len() as int), seen@),
                forall|a: int| 0 <= a < kept@.len() ==> listed(seen@, (#[trigger] kept@[a]).0@),
                forall|a: int|
                    0 <= a < kept@.len() ==> exists|b: int|
                        rest@.len() <= b < n && same_entry(#[trigger] kept@[a], old_files[b]),
                forall|b: int|
                    rest@.len() <= b < n && listed(seen@, (#[trigger] old_files[b]).0@) ==> has_path(
                        kept@,
                        old_files[b].0@,
                    ),
            decreases rest@.len(),
        {
            let entry = rest.pop().unwrap();
            let ghost b = rest@.len() as int;
            assert(old_files[b] == entry);
            proof {
                let pred = |e: (String, CachedFile)| listed(seen@, e.0@);
                assert(old_files.skip(b) =~= seq![entry] + old_files.skip(b + 1));
                old_files.skip(b + 1).lemma_filter_prepend(entry, pred);
            }
            let found = path_listed(seen, &entry.0);
            let ghost prev = kept@;
            if found {
                proof {
                    assert forall|a: int| 0 <= a < prev.len() implies prev[a].0@ != entry.0@ by {
                        let b2 = choose|b2: int| b + 1 <= b2 < n && same_entry(prev[a], old_files[b2]);
                        assert(old_files[b2].0@ != old_files[b].0@);
                    }
                }
                kept.insert(0, entry);
                proof {
                    assert(kept@[0] == entry);
                    assert forall|a: int| 1 <= a < kept@.len() implies kept@[a] == prev[a - 1] by {}
                    if !removed {
                        assert(kept@ =~= old_files.skip(rest@.len() as int));
                    }
                    assert(distinct_paths(kept@)) by {
                        assert forall|x: int, y: int|
                            0 <= x < kept@.len() && 0 <= y < kept@.len() && x != y
                            implies #[trigger] kept@[x].0@ != #[trigger] kept@[y].0@ by {
                            if x == 0 {
                                assert(prev[y - 1].0@ != entry.0@);
                            } else if y == 0 {
                                assert(prev[x - 1].0@ != entry.0@);
                            } else {
                                assert(prev[x - 1].0@ != prev[y - 1].0@);
                            }
                        }
                    }
                    assert forall|a: int| 0 <= a < kept@.len() implies listed(
                        seen@,
                        (#[trigger] kept@[a]).0@,
                    ) by {
                        if a > 0 {
                            assert(kept@[a] == prev[a - 1]);
                        }
                    }
                    assert forall|a: int| 0 <= a < kept@.len() implies exists|b3: int|
                        rest@.len() <= b3 < n && same_entry(#[trigger] kept@[a], old_files[b3]) by {
                        if a > 0 {
                            assert(kept@[a] == prev[a - 1]);
                        } else {
                            assert(same_entry(kept@[a], old_files[b]));
                        }
                    }
                    assert forall|b4: int|
                        rest@.len() <= b4 < n && listed(seen@, (#[trigger] old_files[b4]).0@)
                        implies has_path(kept@, old_files[b4].0@) by {
                        if b4 > b {
                            let a = choose|a: int| 0 <= a < prev.len() && (#[trigger] prev[a]).0@
                                == old_files[b4].0@;
                            assert(kept@[a + 1] == prev[a]);
                        } else {
                            assert(kept@[0].0@ == old_files[b4].0@);
                        }
                    }
                }
            } else {
                removed = true;
            }
        }
        proof {
            assert(rest@.len() == 0);
            assert(old_files.skip(0) =~= old_files);
            assert(old_files == old(self).files_seq());
            assert forall|i: int| 0 <= i < kept@.len() implies exists|k: int|
                0 <= k < old_files.len() && same_entry(#[trigger] kept@[i], old_files[k]) by {
                let b = choose|b: int| 0 <= b < n && same_entry(kept@[i], old_files[b]);
                assert(same_entry(kept@[i], old_files[b]));
            }
        }
        self.files = kept;
        if !removed {
            proof {
                assert(kept@ =~= old_files);
            }
            self.dirty = old_dirty;
        }
    }

    /// The statistics of the cached files for a day and month: the ones last
    /// added up where no file changed and the day and month are the same,
    /// else added up anew. Either way they are those of the files now cached.
    pub fn stats_for(&mut self, today: Period, month: Period) -> (res: Stats)
        ensures
            res@ == stats_of_files(cached_views(final(self).files_seq()), today, month),
            final(self).files_seq() == old(self).files_seq(),
    {
        proof {
            use_type_invariant(&*self);
        }
        let same_day = match self.last_day {
            Some(d) => d == today,
            None => false,
        };
        let same_month = match self.last_month {
            Some(m) => m == month,
            None => false,
        };
        if !self.dirty && same_day && same_month {
            match &self.last_stats {
                Some(s) => {
                    return s.clone();
                },
                None => {},
            }
        }
        let stats = aggregate_cached_stats(&self.files, today, month);
        self.dirty = true;
        self.last_stats = Some(stats.clone());
        self.last_day = Some(today);
        self.last_month = Some(month);
        self.dirty = false;
        stats
    }

    /// The statistics of the cached files for the local day and month of the
    /// present moment; `None`, with the cache unchanged, where the system
    /// clock could not be read.
    pub fn collect(&mut self) -> (res: Option<Stats>)
        ensures
            final(self).files_seq() == old(self).files_seq(),
            res matches Some(st) ==> exists|now: LocalStamp|
                valid_local(now) && st@ == stats_of_files(
                    cached_views(final(self).files_seq()),
                    day_of(now),
                    month_of(now),
                ),
    {
        match now_local() {
            Some(now) => Some(self.stats_for(day_period(&now), month_period(&now))),
            None => None,
        }
    }
}


/// The rate limits kept over all files are the latest any file reported:
/// there are some exactly when a file reported some, they come from such a
/// file together with its time, and no file reported later ones.
pub proof fn lemma_latest_file_rate_limits(files: Seq<FileStatsView>, today: Period, month: Period)
    ensures
        ({
            let s = stats_of_files(files, today, month);
            &&& s.latest_rate_ts is Some <==> s.rate_limits is Some
            &&& s.latest_rate_ts is Some <==> exists|i: int|
                0 <= i < files.len() && (#[trigger] files[i]).latest_rate_ts is Some
                    && files[i].rate_limits is Some
            &&& s.latest_rate_ts is Some ==> exists|i: int|
                0 <= i < files.len() && (#[trigger] files[i]).latest_rate_ts == s.latest_rate_ts
                    && files[i].rate_limits == s.rate_limits
            &&& s.latest_rate_ts matches Some(t) ==> forall|i: int|
                0 <= i < files.len() && (#[trigger] files[i]).rate_limits is Some
                    && files[i].latest_rate_ts is Some ==> !later(files[i].latest_rate_ts.unwrap(), t)
        }),
    decreases files.len(),
{
    if files.len() > 0 {
        let p = files.drop_last();
        lemma_latest_file_rate_limits(p, today, month);
        let n = files.len() - 1;
        let prev = stats_of_files(p, today, month);
        let s = stats_of_files(files, today, month);
        assert forall|i: int| 0 <= i < n implies #[trigger] files[i] == p[i] by {}
        if prev.latest_rate_ts is Some {
            let i = choose|i: int|
                0 <= i < p.len() && (#[trigger] p[i]).latest_rate_ts is Some && p[i].rate_limits is Some;
            assert(files[i] == p[i]);
            let j = choose|j: int|
                0 <= j < p.len() && (#[trigger] p[j]).latest_rate_ts == prev.latest_rate_ts
                    && p[j].rate_limits == prev.rate_limits;
            assert(files[j] == p[j]);
        }
        if takes_file_rate(prev, files[n]) {
            let t = files[n].latest_rate_ts.unwrap();
            assert forall|i: int|
                0 <= i < files.len() && (#[trigger] files[i]).rate_limits is Some
                    && files[i].latest_rate_ts is Some implies !later(files[i].latest_rate_ts.unwrap(), t) by {
                if i < n {
                    assert(p[i] == files[i]);
                }
            }
        } else if s.latest_rate_ts is Some {
            let t = s.latest_rate_ts.unwrap();
            assert forall|i: int|
                0 <= i < files.len() && (#[trigger] files[i]).rate_limits is Some
                    && files[i].latest_rate_ts is Some implies !later(files[i].latest_rate_ts.unwrap(), t) by {
                if i < n {
                    assert(p[i] == files[i]);
                }
            }
        }
        if exists|i: int|
            0 <= i < files.len() && (#[trigger] files[i]).latest_rate_ts is Some && files[i].rate_limits is Some {
            let i = choose|i: int|
                0 <= i < files.len() && (#[trigger] files[i]).latest_rate_ts is Some
                    && files[i].rate_limits is Some;
            if i < n {
                assert(p[i] == files[i]);
            }
        }
    }
}


/// The summed usage of all files.
pub open spec fn total_over(files: Seq<FileStatsView>) -> Usage
    decreases files.len(),
{
    if files.len() == 0 {
        zero_usage()
    } else {
        add_usage(total_over(files.drop_last()), files.last().total)
    }
}

/// The summed usage of all files within period `p`.
pub open spec fn period_total_over(files: Seq<FileStatsView>, p: Period) -> Usage
    decreases files.len(),
{
    if files.len() == 0 {
        zero_usage()
    } else {
        add_usage(period_total_over(files.drop_last(), p), usage_at(files.last().by_period, p))
    }
}

/// The summed usage of model `m` over all files.
pub open spec fn model_total_over(files: Seq<FileStatsView>, m: Seq<char>) -> Usage
    decreases files.len(),
{
    if files.len() == 0 {
        zero_usage()
    } else {
        add_usage(model_total_over(files.drop_last(), m), usage_at(files.last().by_model, m))
    }
}

/// The summed usage of model `m` within period `p` over all files.
pub open spec fn period_model_total_over(files: Seq<FileStatsView>, p: Period, m: Seq<char>) -> Usage
    decreases files.len(),
{
    if files.len() == 0 {
        zero_usage()
    } else {
        add_usage(
            period_model_total_over(files.drop_last(), p, m),
            usage_at(files.last().by_period_model, (p, m)),
        )
    }
}

/// Adding up files gives, for the day `today` and the month `month` asked
/// for: the total of all files; as today's usage, the sum of each file's
/// usage on that day, and as the month's usage the sum of each file's usage
/// in that month; as each model's usage, the sum of that model's usage in
/// every file; as each model's usage today, the sum of that model's usage on
/// that day in every file, and as each model's usage this month, the sum of
/// that model's usage in that month in every file (a model is listed for
/// the day or month exactly when some file has usage of it then).
pub proof fn lemma_aggregate_sums(files: Seq<FileStatsView>, today: Period, month: Period)
    ensures
        ({
            let s = stats_of_files(files, today, month);
            &&& s.total == total_over(files)
            &&& s.today == period_total_over(files, today)
            &&& s.month == period_total_over(files, month)
            &&& forall|m: Seq<char>| #[trigger]
                usage_at(s.by_model, m) == model_total_over(files, m)
            &&& forall|m: Seq<char>| #[trigger]
                usage_at(s.today_by_model, m) == period_model_total_over(files, today, m)
            &&& forall|m: Seq<char>| #[trigger]
                usage_at(s.month_by_model, m) == period_model_total_over(files, month, m)
            &&& forall|m: Seq<char>| #[trigger]
                s.today_by_model.contains_key(m) <==> exists|i: int|
                    0 <= i < files.len() && (#[trigger] files[i].by_period_model).contains_key(
                        (today, m),
                    )
            &&& forall|m: Seq<char>| #[trigger]
                s.month_by_model.contains_key(m) <==> exists|i: int|
                    0 <= i < files.len() && (#[trigger] files[i].by_period_model).contains_key(
                        (month, m),
                    )
        }),
    decreases files.len(),
{
    if files.len() > 0 {
        let p = files.drop_last();
        lemma_aggregate_sums(p, today, month);
        let prev = stats_of_files(p, today, month);
        let f = files.last();
        let s = stats_of_files(files, today, month);
        lemma_add_usage_zero(prev.today);
        lemma_add_usage_zero(prev.month);
        assert forall|m: Seq<char>| #[trigger] usage_at(s.by_model, m) == model_total_over(files, m) by {
            lemma_add_usage_zero(zero_usage());
            assert(usage_at(prev.by_model, m) == model_total_over(p, m));
            assert(model_total_over(files, m) == add_usage(model_total_over(p, m), usage_at(f.by_model, m)));
        }
        assert forall|m: Seq<char>| #[trigger]
            usage_at(s.today_by_model, m) == period_model_total_over(files, today, m) by {
            lemma_add_usage_zero(zero_usage());
            assert(usage_at(prev.today_by_model, m) == period_model_total_over(p, today, m));
            assert(period_model_total_over(files, today, m) == add_usage(
                period_model_total_over(p, today, m),
                usage_at(f.by_period_model, (today, m)),
            ));
        }
        assert forall|m: Seq<char>| #[trigger]
            usage_at(s.month_by_model, m) == period_model_total_over(files, month, m) by {
            lemma_add_usage_zero(zero_usage());
            assert(usage_at(prev.month_by_model, m) == period_model_total_over(p, month, m));
            assert(period_model_total_over(files, month, m) == add_usage(
                period_model_total_over(p, month, m),
                usage_at(f.by_period_model, (month, m)),
            ));
        }
        assert forall|m: Seq<char>| #[trigger]
            s.today_by_model.contains_key(m) <==> exists|i: int|
                0 <= i < files.len() && (#[trigger] files[i].by_period_model).contains_key(
                    (today, m),
                ) by {
            if prev.today_by_model.contains_key(m) {
                let i = choose|i: int|
                    0 <= i < p.len() && (#[trigger] p[i].by_period_model).contains_key((today, m));
                assert(files[i] == p[i]);
            }
            if exists|i: int|
                0 <= i < files.len() && (#[trigger] files[i].by_period_model).contains_key(
                    (today, m),
                ) {
                let i = choose|i: int|
                    0 <= i < files.len() && (#[trigger] files[i].by_period_model).contains_key(
                        (today, m),
                    );
                if i < p.len() {
                    assert(files[i] == p[i]);
                }
            }
        }
        assert forall|m: Seq<char>| #[trigger]
            s.month_by_model.contains_key(m) <==> exists|i: int|
                0 <= i < files.len() && (#[trigger] files[i].by_period_model).contains_key(
                    (month, m),
                ) by {
            if prev.month_by_model.contains_key(m) {
                let i = choose|i: int|
                    0 <= i < p.len() && (#[trigger] p[i].by_period_model).contains_key((month, m));
                assert(files[i] == p[i]);
            }
            if exists|i: int|
                0 <= i < files.len() && (#[trigger] files[i].by_period_model).contains_key(
                    (month, m),
                ) {
                let i = choose|i: int|
                    0 <= i < files.len() && (#[trigger] files[i].by_period_model).contains_key(
                        (month, m),
                    );
                if i < p.len() {
                    assert(files[i] == p[i]);
                }
            }
        }
    }
}

} // verus!
