use vstd::prelude::*;

use crate::std_calls::str_eq;

verus! {

/// How many series the logger keeps between two reports.
pub const MAX_SERIES: usize = 10;

/// One logged series as the table keeps it: its key and how many values it
/// has taken. Its statistics (minimum, maximum, mean) are floating point and
/// kept by the caller, at the same index.
#[derive(Clone, Copy, Debug)]
pub struct SeriesEntry {
    pub key: &'static str,
    pub value_count: u32,
}

/// A series entry by content.
pub open spec fn entry_view(e: SeriesEntry) -> (Seq<char>, u32) {
    (e.key@, e.value_count)
}

/// The series of the logger, in the fixed-capacity `heapless::Vec` that
/// holds them.
#[verifier::external_body]
pub struct SeriesList {
    list: heapless::Vec<SeriesEntry, MAX_SERIES>,
}

/// What a `SeriesList` holds, in order.
pub uninterp spec fn series_entries(s: SeriesList) -> Seq<(Seq<char>, u32)>;

impl SeriesList {
    /// Calls `heapless::Vec::new`: an empty vector.
    #[verifier::external_body]
    fn new() -> (r: SeriesList)
        ensures
            series_entries(r) == Seq::<(Seq<char>, u32)>::empty(),
    {
        SeriesList { list: heapless::Vec::new() }
    }

    /// Calls `heapless::Vec::as_slice` and takes its length: the number of
    /// entries, never above the capacity.
    #[verifier::external_body]
    fn len(&self) -> (r: usize)
        ensures
            r == series_entries(*self).len(),
            r <= MAX_SERIES,
    {
        self.list.as_slice().len()
    }

    /// Calls `heapless::Vec::as_slice` and reads entry `i`.
    #[verifier::external_body]
    fn entry(&self, i: usize) -> (r: SeriesEntry)
        requires
            i < series_entries(*self).len(),
        ensures
            entry_view(r) == series_entries(*self)[i as int],
    {
        self.list.as_slice()[i]
    }

    /// Calls `heapless::Vec::as_mut_slice` and replaces the count of entry
    /// `i`, keeping its key.
    #[verifier::external_body]
    fn set_count(&mut self, i: usize, count: u32)
        requires
            i < series_entries(*old(self)).len(),
        ensures
            series_entries(*final(self)) == series_entries(*old(self)).update(
                i as int,
                (series_entries(*old(self))[i as int].0, count),
            ),
    {
        self.list.as_mut_slice()[i].value_count = count;
    }

    /// Calls `heapless::Vec::push`: appends when there is room, and otherwise
    /// leaves the vector as it was and reports the failure.
    #[verifier::external_body]
    fn push(&mut self, e: SeriesEntry) -> (r: bool)
        ensures
            series_entries(*old(self)).len() < MAX_SERIES ==> r && series_entries(*final(self))
                == series_entries(*old(self)).push(entry_view(e)),
            series_entries(*old(self)).len() >= MAX_SERIES ==> !r && series_entries(*final(self))
                == series_entries(*old(self)),
    {
        self.list.push(e).is_ok()
    }

    /// Calls `heapless::Vec::clear`: no entries remain.
    #[verifier::external_body]
    fn clear(&mut self)
        ensures
            series_entries(*final(self)) == Seq::<(Seq<char>, u32)>::empty(),
    {
        self.list.clear()
    }
}

/// Index of the first series with this key, or -1.
pub open spec fn key_index(s: Seq<(Seq<char>, u32)>, key: Seq<char>) -> int
    decreases s.len(),
{
    if s.len() == 0 {
        -1
    } else if key_index(s.drop_last(), key) >= 0 {
        key_index(s.drop_last(), key)
    } else if s.last().0 == key {
        s.len() - 1
    } else {
        -1
    }
}

/// No two series share a key.
pub open spec fn distinct_keys(s: Seq<(Seq<char>, u32)>) -> bool {
    forall|i: int, j: int| 0 <= i < j < s.len() ==> s[i].0 != s[j].0
}

/// Where a logged value went.
#[derive(Clone, Copy, Debug, PartialEq, Eq, Structural)]
pub enum LogSlot {
    /// Into the existing series at this index.
    Existing(usize),
    /// Into a new series appended at this index.
    New(usize),
}

/// The series table after logging a value for `key`, and where it went
/// (`None`: the table was full and the value was dropped).
pub open spec fn log_model(s: Seq<(Seq<char>, u32)>, key: Seq<char>) -> (Seq<(Seq<char>, u32)>, Option<LogSlot>) {
    let i = key_index(s, key);
    if i >= 0 {
        (s.update(i, (key, (s[i].1 + 1) as u32)), Some(LogSlot::Existing(i as usize)))
    } else if s.len() < MAX_SERIES {
        (s.push((key, 1u32)), Some(LogSlot::New(s.len() as usize)))
    } else {
        (s, None)
    }
}

proof fn lemma_key_index_bounds(s: Seq<(Seq<char>, u32)>, key: Seq<char>)
    ensures
        -1 <= key_index(s, key) < s.len(),
        key_index(s, key) >= 0 ==> s[key_index(s, key)].0 == key,
        key_index(s, key) < 0 ==> forall|j: int| 0 <= j < s.len() ==> s[j].0 != key,
    decreases s.len(),
{
    if s.len() > 0 {
        lemma_key_index_bounds(s.drop_last(), key);
        assert forall|j: int| 0 <= j < s.len() - 1 implies s[j] == s.drop_last()[j] by {}
    }
}

proof fn lemma_key_index_first(s: Seq<(Seq<char>, u32)>, key: Seq<char>, j: int)
    requires
        0 <= j < s.len(),
        s[j].0 == key,
        forall|k: int| 0 <= k < j ==> s[k].0 != key,
    ensures
        key_index(s, key) == j,
    decreases s.len(),
{
    if j < s.len() - 1 {
        lemma_key_index_first(s.drop_last(), key, j);
    } else {
        lemma_key_index_bounds(s.drop_last(), key);
    }
}

/// A well-formed series table: at most `MAX_SERIES` series, each key in one
/// series only.
pub open spec fn table_wf(s: Seq<(Seq<char>, u32)>) -> bool {
    s.len() <= MAX_SERIES && distinct_keys(s)
}

/// Data logger that collects statistics for multiple time-series: the table
/// of series keys and value counts.
pub struct Logger {
    series_list: SeriesList,
}

impl Logger {
    /// The table is always well formed.
    #[verifier::type_invariant]
    closed spec fn well_formed(self) -> bool {
        table_wf(series_entries(self.series_list))
    }

    /// The series logged since the last report, in order of first appearance.
    pub closed spec fn series(self) -> Seq<(Seq<char>, u32)> {
        series_entries(self.series_list)
    }

    /// An empty logger.
    pub fn new() -> (r: Self)
        ensures
            r.series() == Seq::<(Seq<char>, u32)>::empty(),
            table_wf(r.series()),
    {
        Logger { series_list: SeriesList::new() }
    }

    /// The index of the first series with this key, if any.
    fn find_key(&self, key: &'static str) -> (r: Option<usize>)
        ensures
            r matches Some(i) ==> i as int == key_index(self.series(), key@),
            r is None ==> key_index(self.series(), key@) < 0,
    {
        let ghost s = self.series();
        let n = self.series_list.len();
        let mut i: usize = 0;
        while i < n
            invariant
                n == s.len(),
                s == series_entries(self.series_list),
                i <= n,
                forall|k: int| 0 <= k < i ==> s[k].0 != key@,
            decreases n - i,
        {
            let entry = self.series_list.entry(i);
            if str_eq(entry.key, key) {
                proof {
                    lemma_key_index_first(s, key@, i as int);
                }
                return Some(i);
            }
            i = i + 1;
        }
        proof {
            lemma_key_index_bounds(s, key@);
            if key_index(s, key@) >= 0 {
                assert(s[key_index(s, key@)].0 == key@);
            }
        }
        None
    }

    /// Log a value for a given key: the value goes to the series with that
    /// key, or to a new series when there is none and fewer than
    /// `MAX_SERIES` exist; otherwise it is dropped.
    pub fn log_value(&mut self, key: &'static str) -> (r: Option<LogSlot>)
        requires
            forall|i: int|
                0 <= i < old(self).series().len() && old(self).series()[i].0 == key@
                    ==> old(self).series()[i].1 < u32::MAX,
        ensures
            (final(self).series(), r) == log_model(old(self).series(), key@),
            table_wf(final(self).series()),
    {
        proof {
            use_type_invariant(&*self);
        }
        let ghost s = self.series();
        let found = self.find_key(key);
        let n = self.series_list.len();
        proof {
            lemma_key_index_bounds(s, key@);
            lemma_log_keeps_keys_distinct(s, key@);
        }
        // Work on the table outside the logger, so that the logger stays
        // well formed throughout.
        let mut list = SeriesList::new();
        core::mem::swap(&mut list, &mut self.series_list);
        let r = match found {
            Some(i) => {
                let entry = list.entry(i);
                let count: u32 = entry.value_count + 1;
                list.set_count(i, count);
                assert(series_entries(list) =~= log_model(s, key@).0);
                Some(LogSlot::Existing(i))
            },
            None => {
                if list.push(SeriesEntry { key, value_count: 1 }) {
                    Some(LogSlot::New(n))
                } else {
                    None
                }
            },
        };
        self.series_list = list;
        r
    }

    /// Whether `log_value(key)` may run: the series with that key, if any, can
    /// still count one more value.
    pub fn can_log_value(&self, key: &'static str) -> (r: bool)
        ensures
            r == forall|i: int|
                0 <= i < self.series().len() && self.series()[i].0 == key@
                    ==> self.series()[i].1 < u32::MAX,
    {
        proof {
            use_type_invariant(self);
            lemma_key_index_bounds(self.series(), key@);
        }
        match self.find_key(key) {
            Some(i) => {
                let entry = self.series_list.entry(i);
                entry.value_count < u32::MAX
            },
            None => true,
        }
    }

    /// How many values the series at index `i` has taken.
    pub fn value_count(&self, i: usize) -> (r: u32)
        requires
            i < self.series().len(),
        ensures
            r == self.series()[i as int].1,
    {
        self.series_list.entry(i).value_count
    }

    /// The series logged since the last report, in order; the table is then
    /// emptied for the next report.
    pub fn take_series(&mut self) -> (r: Vec<SeriesEntry>)
        ensures
            r@.map_values(|e: SeriesEntry| entry_view(e)) == old(self).series(),
            final(self).series() == Seq::<(Seq<char>, u32)>::empty(),
            table_wf(old(self).series()),
            table_wf(final(self).series()),
    {
        proof {
            use_type_invariant(&*self);
        }
        let ghost s = self.series();
        let n = self.series_list.len();
        let mut r: Vec<SeriesEntry> = Vec::new();
        let mut i: usize = 0;
        while i < n
            invariant
                n == s.len(),
                s == series_entries(self.series_list),
                i <= n,
                r@.len() == i,
                forall|k: int| 0 <= k < i ==> entry_view(#[trigger] r@[k]) == s[k],
            decreases n - i,
        {
            let e = self.series_list.entry(i);
            r.push(e);
            i = i + 1;
        }
        assert(r@.map_values(|e: SeriesEntry| entry_view(e)) =~= s);
        // Clear the table outside the logger, so that the logger stays well
        // formed throughout.
        let mut list = SeriesList::new();
        core::mem::swap(&mut list, &mut self.series_list);
        list.clear();
        self.series_list = list;
        r
    }
}

/// Logging keeps every key in one series and never exceeds `MAX_SERIES`.
pub proof fn lemma_log_keeps_keys_distinct(s: Seq<(Seq<char>, u32)>, key: Seq<char>)
    requires
        distinct_keys(s),
        s.len() <= MAX_SERIES,
    ensures
        distinct_keys(log_model(s, key).0),
        log_model(s, key).0.len() <= MAX_SERIES,
{
    lemma_key_index_bounds(s, key);
    let n = log_model(s, key).0;
    if key_index(s, key) < 0 && s.len() < MAX_SERIES {
        assert forall|i: int, j: int| 0 <= i < j < n.len() implies n[i].0 != n[j].0 by {
            if j == s.len() {
                assert(s[i].0 != key);
            }
        }
    }
}

/// Logging a key that is already there adds one to its count and leaves every
/// other series unchanged.
pub proof fn lemma_log_counts(s: Seq<(Seq<char>, u32)>, key: Seq<char>, i: int)
    requires
        0 <= i < s.len(),
        s[i].0 == key,
        distinct_keys(s),
    ensures
        log_model(s, key).0[i].1 == s[i].1 + 1 || s[i].1 == u32::MAX,
        log_model(s, key).0.len() == s.len(),
        forall|j: int| 0 <= j < s.len() && j != i ==> log_model(s, key).0[j] == s[j],
        log_model(s, key).1 == Some(LogSlot::Existing(i as usize)),
{
    lemma_key_index_first(s, key, i);
}

} // verus!
