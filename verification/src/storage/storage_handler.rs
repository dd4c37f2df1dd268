use crate::config::{TukaiLayoutName, TypingDuration};
use crate::storage::stats::Stat;
use vstd::arithmetic::div_mod::lemma_fundamental_div_mod;
use vstd::prelude::*;

verus! {

/// An error from reading or writing the persisted record.
#[derive(Debug)]
pub struct StorageHandlerError {
    message: String,
}

impl StorageHandlerError {
    pub closed spec fn spec_message(&self) -> Seq<char> {
        self.message@
    }

    pub fn new(message: String) -> (r: Self)
        ensures
            r.spec_message() == message@,
    {
        Self { message }
    }

    pub fn get_message(&self) -> (r: &String)
        ensures
            r@ == self.spec_message(),
    {
        &self.message
    }
}

/// Storage data type
///
/// Everything the application persists: the completed-session statistics in
/// chronological order, then the typing duration, the active layout name,
/// the transparent-background flag and the language index.
pub type StorageData = (Vec<Stat>, TypingDuration, TukaiLayoutName, bool, usize);

/// One stat in its portable form: a duration code, the average WPM, the raw
/// WPM and the accuracy in hundredths of a percent.
pub type RawStat = (u8, u64, u64, u64);

/// The code under which each duration is persisted.
pub open spec fn spec_duration_code(d: TypingDuration) -> u8 {
    match d {
        TypingDuration::FifteenSec => 0,
        TypingDuration::ThirtySec => 1,
        TypingDuration::Minute => 2,
        TypingDuration::ThreeMinutes => 3,
    }
}

/// The code under which each layout name is persisted.
pub open spec fn spec_layout_code(n: TukaiLayoutName) -> u8 {
    match n {
        TukaiLayoutName::Iced => 0,
        TukaiLayoutName::Rust => 1,
        TukaiLayoutName::Anime => 2,
        TukaiLayoutName::Deadpool => 3,
        TukaiLayoutName::Wolverine => 4,
        TukaiLayoutName::Goblin => 5,
    }
}

/// The portable form of one stat.
pub open spec fn spec_raw_of_stat(st: Stat) -> RawStat {
    (
        spec_duration_code(st.spec_typing_duration()),
        st.spec_average_wpm() as u64,
        st.spec_raw_wpm() as u64,
        st.spec_accuracy(),
    )
}

/// The bytes that bincode produces for a record with these plain fields.
pub uninterp spec fn bincode_record_bytes(
    stats: Seq<RawStat>,
    duration: u8,
    layout: u8,
    transparent: bool,
    language: u64,
) -> Seq<u8>;

/// Whether bincode's default configuration decodes these bytes into a value
/// of the record's plain tuple-and-vector type.
pub uninterp spec fn bincode_record_decodes(bytes: Seq<u8>) -> bool;

/// Relies on bincode::serialize (default configuration): it encodes a value
/// of this plain tuple-and-vector type into bytes that depend on the value
/// alone, with a reference serialized exactly as the value it points to.
/// Serialization of integers, booleans and vectors of them cannot fail
/// under the default configuration's unlimited size, so it always succeeds.
#[verifier::external_body]
fn bincode_encode_record(
    stats: &Vec<RawStat>,
    duration: u8,
    layout: u8,
    transparent: bool,
    language: u64,
) -> (r: Option<Vec<u8>>)
    ensures
        r is Some,
        r matches Some(v) ==> v@ == bincode_record_bytes(
            stats@,
            duration,
            layout,
            transparent,
            language,
        ),
{
    bincode::serialize(&(stats, duration, layout, transparent, language)).ok()
}

/// Relies on bincode::deserialize (default configuration): whether bytes
/// decode depends on the bytes alone, decoding inverts encoding, and so the
/// bytes bincode produced for a record decode back to exactly that record.
#[verifier::external_body]
fn bincode_decode_record(bytes: &Vec<u8>) -> (r: Option<(Vec<RawStat>, u8, u8, bool, u64)>)
    ensures
        r is Some <==> bincode_record_decodes(bytes@),
        r is Some <== exists|stats: Seq<RawStat>, duration: u8, layout: u8, transparent: bool, language: u64|
            bytes@ == #[trigger] bincode_record_bytes(stats, duration, layout, transparent, language),
        r matches Some(v) ==> forall|
            stats: Seq<RawStat>,
            duration: u8,
            layout: u8,
            transparent: bool,
            language: u64,
        |
            bytes@ == #[trigger] bincode_record_bytes(stats, duration, layout, transparent, language)
                ==> (v.0@ == stats && v.1 == duration && v.2 == layout && v.3 == transparent
                && v.4 == language),
{
    bincode::deserialize(bytes.as_slice()).ok()
}

fn duration_to_code(d: TypingDuration) -> (r: u8)
    ensures
        r == spec_duration_code(d),
{
    match d {
        TypingDuration::FifteenSec => 0,
        TypingDuration::ThirtySec => 1,
        TypingDuration::Minute => 2,
        TypingDuration::ThreeMinutes => 3,
    }
}

fn code_to_duration(c: u8) -> (r: Option<TypingDuration>)
    ensures
        c <= 3 ==> (r matches Some(d) && spec_duration_code(d) == c),
        c > 3 ==> r is None,
{
    match c {
        0 => Some(TypingDuration::FifteenSec),
        1 => Some(TypingDuration::ThirtySec),
        2 => Some(TypingDuration::Minute),
        3 => Some(TypingDuration::ThreeMinutes),
        _ => None,
    }
}

fn layout_to_code(n: TukaiLayoutName) -> (r: u8)
    ensures
        r == spec_layout_code(n),
{
    match n {
        TukaiLayoutName::Iced => 0,
        TukaiLayoutName::Rust => 1,
        TukaiLayoutName::Anime => 2,
        TukaiLayoutName::Deadpool => 3,
        TukaiLayoutName::Wolverine => 4,
        TukaiLayoutName::Goblin => 5,
    }
}

fn code_to_layout(c: u8) -> (r: Option<TukaiLayoutName>)
    ensures
        c <= 5 ==> (r matches Some(n) && spec_layout_code(n) == c),
        c > 5 ==> r is None,
{
    match c {
        0 => Some(TukaiLayoutName::Iced),
        1 => Some(TukaiLayoutName::Rust),
        2 => Some(TukaiLayoutName::Anime),
        3 => Some(TukaiLayoutName::Deadpool),
        4 => Some(TukaiLayoutName::Wolverine),
        5 => Some(TukaiLayoutName::Goblin),
        _ => None,
    }
}

fn stats_to_raw(stats: &Vec<Stat>) -> (r: Vec<RawStat>)
    ensures
        r@ == stats@.map(|i: int, st: Stat| spec_raw_of_stat(st)),
{
    let ghost target = stats@.map(|i: int, st: Stat| spec_raw_of_stat(st));
    let mut r: Vec<RawStat> = Vec::new();
    for k in 0..stats.len()
        invariant
            r@.len() == k,
            forall|i: int| 0 <= i < k ==> r@[i] == target[i],
            target == stats@.map(|i: int, st: Stat| spec_raw_of_stat(st)),
    {
        let st = &stats[k];
        let raw = (
            duration_to_code(st.get_typing_duration()),
            st.get_average_wpm() as u64,
            st.get_raw_wpm() as u64,
            st.get_accuracy(),
        );
        r.push(raw);
    }
    proof {
        assert(r@ =~= target);
    }
    r
}

/// Whether a stored stat can be read back into the in-memory form.
pub open spec fn spec_raw_in_range(rs: RawStat) -> bool {
    rs.0 <= 3 && rs.1 <= usize::MAX && rs.2 <= usize::MAX
}

fn raw_to_stats(raw: &Vec<RawStat>) -> (r: Option<Vec<Stat>>)
    ensures
        (forall|i: int| 0 <= i < raw@.len() ==> spec_raw_in_range(#[trigger] raw@[i])) <==> r is Some,
        r matches Some(v) ==> {
            &&& v@.len() == raw@.len()
            &&& forall|i: int| 0 <= i < v@.len() ==> spec_raw_of_stat(#[trigger] v@[i]) == raw@[i]
        },
{
    let mut v: Vec<Stat> = Vec::new();
    for k in 0..raw.len()
        invariant
            v@.len() == k,
            forall|i: int| 0 <= i < k ==> spec_raw_in_range(#[trigger] raw@[i]),
            forall|i: int| 0 <= i < k ==> spec_raw_of_stat(#[trigger] v@[i]) == raw@[i],
    {
        let (code, avg, raw_wpm, accuracy) = raw[k];
        let duration = match code_to_duration(code) {
            Some(d) => d,
            None => {
                return None;
            },
        };
        if avg > usize::MAX as u64 || raw_wpm > usize::MAX as u64 {
            return None;
        }
        v.push(Stat::from_parts(duration, avg as usize, raw_wpm as usize, accuracy));
    }
    Some(v)
}

/// The sum of the average WPM figures of these stats.
pub open spec fn spec_sum_wpm(stats: Seq<Stat>) -> int
    decreases stats.len(),
{
    if stats.len() == 0 {
        0
    } else {
        spec_sum_wpm(stats.drop_last()) + stats.last().spec_average_wpm()
    }
}

/// The sum of the accuracies of these stats, in hundredths of a percent.
pub open spec fn spec_sum_accuracy(stats: Seq<Stat>) -> int
    decreases stats.len(),
{
    if stats.len() == 0 {
        0
    } else {
        spec_sum_accuracy(stats.drop_last()) + stats.last().spec_accuracy()
    }
}

/// The largest average WPM among these stats, or zero if there are none.
pub open spec fn spec_max_wpm(stats: Seq<Stat>) -> int
    decreases stats.len(),
{
    if stats.len() == 0 {
        0
    } else {
        let rest = spec_max_wpm(stats.drop_last());
        if stats.last().spec_average_wpm() > rest {
            stats.last().spec_average_wpm() as int
        } else {
            rest
        }
    }
}

/// Total statistics overview
///
/// The average WPM rounds down; the average accuracy is a whole percentage,
/// rounded half up. Both are zero when no session was recorded yet.
pub struct StatOverview {
    pub total_stats_count: usize,
    pub total_average_wpm: usize,
    pub total_average_accuracy: u64,
}

/// Represents the persisted record with the path of its storage file.
///
/// The handler owns the record in memory; reading and writing the file
/// itself is its caller's business.
pub struct StorageHandler {
    // Path to the `storage` file
    file_path: String,
    // Data stored in the `storage` binary file
    data: StorageData,
}

impl StorageHandler {
    pub closed spec fn spec_file_path(&self) -> Seq<char> {
        self.file_path@
    }

    pub closed spec fn spec_data(&self) -> StorageData {
        self.data
    }

    /// The stats held by the record, oldest first.
    pub open spec fn spec_stats(&self) -> Seq<Stat> {
        self.spec_data().0@
    }

    /// The fallback record: no stats yet and every setting at its default.
    pub open spec fn is_default_data(d: StorageData) -> bool {
        &&& d.0@.len() == 0
        &&& d.1 == TypingDuration::Minute
        &&& d.2 == TukaiLayoutName::Iced
        &&& d.3 == false
        &&& d.4 == 0
    }

    /// Whether two records hold the same stats and the same settings.
    pub open spec fn data_agrees(a: StorageData, b: StorageData) -> bool {
        &&& a.0@ == b.0@
        &&& a.1 == b.1
        &&& a.2 == b.2
        &&& a.3 == b.3
        &&& a.4 == b.4
    }

    /// The bytes this record is persisted as.
    pub open spec fn spec_record_bytes(d: StorageData) -> Seq<u8> {
        bincode_record_bytes(
            d.0@.map(|i: int, st: Stat| spec_raw_of_stat(st)),
            spec_duration_code(d.1),
            spec_layout_code(d.2),
            d.3,
            d.4 as u64,
        )
    }

    fn default_data() -> (r: StorageData)
        ensures
            Self::is_default_data(r),
    {
        (Vec::new(), TypingDuration::Minute, TukaiLayoutName::Iced, false, 0)
    }

    /// Creates a handler for the given storage file, holding the default
    /// record until `init` reads a persisted one.
    pub fn new(file_path: String) -> (r: Self)
        ensures
            r.spec_file_path() == file_path@,
            Self::is_default_data(r.spec_data()),
    {
        Self { file_path, data: Self::default_data() }
    }

    /// Reads a record back from its persisted bytes.
    ///
    /// Returns `None` when the bytes are not a record; bytes this handler
    /// wrote always decode, and to the record they were written from.
    fn decode_data(bytes: &Vec<u8>) -> (r: Option<StorageData>)
        ensures
            r matches Some(v) ==> forall|d: StorageData|
                bytes@ == #[trigger] Self::spec_record_bytes(d) ==> Self::data_agrees(v, d),
            r is None ==> forall|d: StorageData| bytes@ != #[trigger] Self::spec_record_bytes(d),
            !bincode_record_decodes(bytes@) ==> r is None,
    {
        let decoded = match bincode_decode_record(bytes) {
            Some(decoded) => decoded,
            None => {
                return None;
            },
        };
        let (raw_stats, duration_code, layout_code, transparent, language) = decoded;
        let duration = match code_to_duration(duration_code) {
            Some(duration) => duration,
            None => {
                return None;
            },
        };
        let layout = match code_to_layout(layout_code) {
            Some(layout) => layout,
            None => {
                return None;
            },
        };
        let stats = match raw_to_stats(&raw_stats) {
            Some(stats) => stats,
            None => {
                return None;
            },
        };
        if language > usize::MAX as u64 {
            return None;
        }
        let data = (stats, duration, layout, transparent, language as usize);
        proof {
            assert forall|d: StorageData| bytes@ == #[trigger] Self::spec_record_bytes(d) implies Self::data_agrees(
                data,
                d,
            ) by {
                let raw_of_d = d.0@.map(|i: int, st: Stat| spec_raw_of_stat(st));
                assert(raw_stats@ == raw_of_d);
                assert forall|i: int| 0 <= i < data.0@.len() implies data.0@[i] == d.0@[i] by {
                    assert(spec_raw_of_stat(data.0@[i]) == raw_of_d[i]);
                    assert(raw_of_d[i] == spec_raw_of_stat(d.0@[i]));
                    Stat::lemma_stat_eq(data.0@[i], d.0@[i]);
                }
                assert(data.0@ =~= d.0@);
            }
        }
        Some(data)
    }

    /// Initializes the record from the bytes read from the storage file, if
    /// the file existed.
    ///
    /// Missing or undecodable bytes silently fall back to the default
    /// record: startup never fails on corrupt state. Bytes that `to_bytes`
    /// produced always come back as the record they encode.
    pub fn init(self, bytes: Option<&Vec<u8>>) -> (r: Self)
        ensures
            r.spec_file_path() == self.spec_file_path(),
            ({
                match bytes {
                    Some(b) => forall|d: StorageData|
                        b@ == #[trigger] Self::spec_record_bytes(d) ==> Self::data_agrees(
                            r.spec_data(),
                            d,
                        ),
                    None => Self::is_default_data(r.spec_data()),
                }
            }),
            bytes matches Some(b) && !bincode_record_decodes(b@) ==> Self::is_default_data(
                r.spec_data(),
            ),
    {
        let file_path = self.file_path;
        match bytes {
            None => Self { file_path, data: Self::default_data() },
            Some(b) => match Self::decode_data(b) {
                Some(data) => Self { file_path, data },
                None => Self { file_path, data: Self::default_data() },
            },
        }
    }

    /// Serializes the record into the bytes to be written to the storage
    /// file.
    pub fn to_bytes(&self) -> (r: Vec<u8>)
        ensures
            r@ == Self::spec_record_bytes(self.spec_data()),
    {
        let raw = stats_to_raw(&self.data.0);
        let encoded = bincode_encode_record(
            &raw,
            duration_to_code(self.data.1),
            layout_to_code(self.data.2),
            self.data.3,
            self.data.4 as u64,
        );
        match encoded {
            Some(bytes) => bytes,
            None => vstd::pervasive::unreached(),
        }
    }

    /// Returns the path of the storage file this record belongs to
    pub fn get_file_path(&self) -> (r: &String)
        ensures
            r@ == self.spec_file_path(),
    {
        &self.file_path
    }

    /// Returns data from the storage
    pub fn get_data(&self) -> (r: &StorageData)
        ensures
            *r == self.spec_data(),
    {
        &self.data
    }

    /// Returns a TypingDuration
    pub fn get_typing_duration(&self) -> (r: TypingDuration)
        ensures
            r == self.spec_data().1,
    {
        self.data.1
    }

    /// Returns an active layout name
    pub fn get_layout_name(&self) -> (r: TukaiLayoutName)
        ensures
            r == self.spec_data().2,
    {
        self.data.2
    }

    /// Returns a current language index
    pub fn get_language_index(&self) -> (r: usize)
        ensures
            r == self.spec_data().4,
    {
        self.data.4
    }

    /// Returns if has a transparent background
    pub fn get_has_transparent_bg(&self) -> (r: bool)
        ensures
            r == self.spec_data().3,
    {
        self.data.3
    }

    /// Appends a completed session's stat to the record.
    pub fn insert_into_stats(&mut self, stat: &Stat)
        ensures
            final(self).spec_data().0@ == old(self).spec_data().0@.push(*stat),
            final(self).spec_data().1 == old(self).spec_data().1,
            final(self).spec_data().2 == old(self).spec_data().2,
            final(self).spec_data().3 == old(self).spec_data().3,
            final(self).spec_data().4 == old(self).spec_data().4,
            final(self).spec_file_path() == old(self).spec_file_path(),
    {
        self.data.0.push(*stat);
    }

    /// Sets a new typing duration
    pub fn set_typing_duration(&mut self, typing_duration: TypingDuration)
        ensures
            final(self).spec_data().1 == typing_duration,
            final(self).spec_data().0 == old(self).spec_data().0,
            final(self).spec_data().2 == old(self).spec_data().2,
            final(self).spec_data().3 == old(self).spec_data().3,
            final(self).spec_data().4 == old(self).spec_data().4,
            final(self).spec_file_path() == old(self).spec_file_path(),
    {
        self.data.1 = typing_duration;
    }

    /// Sets a new active layout name
    pub fn set_layout(&mut self, layout_name_changed: TukaiLayoutName)
        ensures
            final(self).spec_data().2 == layout_name_changed,
            final(self).spec_data().0 == old(self).spec_data().0,
            final(self).spec_data().1 == old(self).spec_data().1,
            final(self).spec_data().3 == old(self).spec_data().3,
            final(self).spec_data().4 == old(self).spec_data().4,
            final(self).spec_file_path() == old(self).spec_file_path(),
    {
        self.data.2 = layout_name_changed;
    }

    /// Sets a new language_index
    pub fn set_language_index(&mut self, language_index: usize)
        ensures
            final(self).spec_data().4 == language_index,
            final(self).spec_data().0 == old(self).spec_data().0,
            final(self).spec_data().1 == old(self).spec_data().1,
            final(self).spec_data().2 == old(self).spec_data().2,
            final(self).spec_data().3 == old(self).spec_data().3,
            final(self).spec_file_path() == old(self).spec_file_path(),
    {
        self.data.4 = language_index;
    }

    /// Returns stats in reversed order
    ///
    /// Newest first
    pub fn get_data_stats_reversed(&self) -> (r: Vec<Stat>)
        ensures
            r@ == self.spec_stats().reverse(),
    {
        let stats = &self.data.0;
        let n = stats.len();
        let mut r: Vec<Stat> = Vec::new();
        for k in 0..n
            invariant
                n == stats@.len(),
                r@.len() == k,
                forall|i: int| 0 <= i < k ==> r@[i] == stats@[n - 1 - i],
        {
            r.push(stats[n - 1 - k]);
        }
        proof {
            assert(r@ =~= self.spec_stats().reverse());
        }
        r
    }

    /// Returns stats sorted by average WPM, best first
    ///
    /// Used to determine the `best score`.
    pub fn get_data_stats_best(&self) -> (r: Vec<Stat>)
        ensures
            r@.to_multiset() == self.spec_stats().to_multiset(),
            forall|i: int, j: int|
                0 <= i <= j < r@.len() ==> #[trigger] r@[i].spec_average_wpm()
                    >= #[trigger] r@[j].spec_average_wpm(),
    {
        broadcast use vstd::seq_lib::group_to_multiset_ensures;
        broadcast use vstd::multiset::group_multiset_axioms;

        let stats = &self.data.0;
        let mut work: Vec<Stat> = Vec::new();
        for k in 0..stats.len()
            invariant
                work@.len() == k,
                forall|i: int| 0 <= i < k ==> work@[i] == stats@[i],
        {
            work.push(stats[k]);
        }
        proof {
            assert(work@ =~= self.spec_stats());
        }
        let mut out: Vec<Stat> = Vec::new();
        while work.len() > 0
            invariant
                out@.to_multiset().add(work@.to_multiset()) == self.spec_stats().to_multiset(),
                forall|i: int, j: int|
                    0 <= i <= j < out@.len() ==> #[trigger] out@[i].spec_average_wpm()
                        >= #[trigger] out@[j].spec_average_wpm(),
                forall|i: int, j: int|
                    0 <= i < out@.len() && 0 <= j < work@.len()
                        ==> #[trigger] out@[i].spec_average_wpm()
                        >= #[trigger] work@[j].spec_average_wpm(),
            decreases work@.len(),
        {
            let mut mi: usize = 0;
            let mut t: usize = 1;
            while t < work.len()
                invariant
                    mi < t <= work@.len(),
                    work@.len() > 0,
                    forall|j: int|
                        0 <= j < t ==> #[trigger] work@[j].spec_average_wpm()
                            <= work@[mi as int].spec_average_wpm(),
                decreases work@.len() - t,
            {
                if work[t].get_average_wpm() > work[mi].get_average_wpm() {
                    mi = t;
                }
                t = t + 1;
            }
            let ghost old_work = work@;
            let ghost old_out = out@;
            let st = work.remove(mi);
            out.push(st);
            proof {
                vstd::seq_lib::to_multiset_remove(old_work, mi as int);
                vstd::seq_lib::to_multiset_build(old_out, st);
                assert(work@.to_multiset() =~= old_work.to_multiset().remove(st));
                assert(out@.to_multiset() =~= old_out.to_multiset().insert(st));
                assert(old_work.contains(st)) by {
                    assert(old_work[mi as int] == st);
                }
                vstd::seq_lib::to_multiset_contains(old_work, st);
                assert(old_work.to_multiset().count(st) > 0);
                assert(out@.to_multiset().add(work@.to_multiset()) =~= old_out.to_multiset().add(
                    old_work.to_multiset(),
                ));
                assert forall|j: int| 0 <= j < work@.len() implies #[trigger] work@[j].spec_average_wpm()
                    <= st.spec_average_wpm() by {
                    if j < mi {
                        assert(work@[j] == old_work[j]);
                    } else {
                        assert(work@[j] == old_work[j + 1]);
                    }
                }
            }
        }
        out
    }

    /// Returns the complete statistics overview
    ///
    /// (count of runs, average WPM, average accuracy as a whole percentage)
    pub fn get_data_for_overview(&self) -> (r: StatOverview)
        ensures
            r.total_stats_count == self.spec_stats().len(),
            self.spec_stats().len() == 0 ==> r.total_average_wpm == 0
                && r.total_average_accuracy == 0,
            self.spec_stats().len() > 0 ==> {
                let n = self.spec_stats().len() as int;
                &&& r.total_average_wpm == spec_sum_wpm(self.spec_stats()) / n
                &&& r.total_average_accuracy == (spec_sum_accuracy(self.spec_stats()) + 50 * n)
                    / (100 * n)
            },
    {
        let stats = &self.data.0;
        let n = stats.len();
        if n == 0 {
            return StatOverview {
                total_stats_count: 0,
                total_average_wpm: 0,
                total_average_accuracy: 0,
            };
        }
        let mut sum_wpm: u128 = 0;
        let mut sum_accuracy: u128 = 0;
        for k in 0..n
            invariant
                n == stats@.len(),
                sum_wpm == spec_sum_wpm(stats@.subrange(0, k as int)),
                sum_accuracy == spec_sum_accuracy(stats@.subrange(0, k as int)),
                sum_wpm <= k * (usize::MAX as int),
                sum_accuracy <= k * (u64::MAX as int),
        {
            proof {
                assert(stats@.subrange(0, k + 1).drop_last() =~= stats@.subrange(0, k as int));
                assert(stats@.subrange(0, k + 1).last() == stats@[k as int]);
                assert(sum_wpm + stats@[k as int].spec_average_wpm() <= (k + 1) * (
                usize::MAX as int)) by (nonlinear_arith)
                    requires
                        sum_wpm <= k * (usize::MAX as int),
                        stats@[k as int].spec_average_wpm() <= usize::MAX,
                        0 <= k,
                ;
                assert(sum_accuracy + stats@[k as int].spec_accuracy() <= (k + 1) * (
                u64::MAX as int)) by (nonlinear_arith)
                    requires
                        sum_accuracy <= k * (u64::MAX as int),
                        stats@[k as int].spec_accuracy() <= u64::MAX,
                        0 <= k,
                ;
                assert((k + 1) * (usize::MAX as int) < u128::MAX) by (nonlinear_arith)
                    requires
                        0 <= k < usize::MAX,
                ;
                assert((k + 1) * (u64::MAX as int) < u128::MAX) by (nonlinear_arith)
                    requires
                        0 <= k < usize::MAX,
                ;
            }
            sum_wpm = sum_wpm + (stats[k].get_average_wpm() as u128);
            sum_accuracy = sum_accuracy + (stats[k].get_accuracy() as u128);
        }
        proof {
            assert(stats@.subrange(0, n as int) =~= stats@);
        }
        let avg_wpm: u128 = sum_wpm / (n as u128);
        let q: u128 = sum_accuracy / (n as u128);
        proof {
            let su = sum_accuracy as int;
            let ni = n as int;
            assert(avg_wpm <= usize::MAX) by (nonlinear_arith)
                requires
                    avg_wpm == sum_wpm / (n as u128),
                    sum_wpm <= n * (usize::MAX as int),
                    0 < n,
            ;
            assert(q <= u64::MAX) by (nonlinear_arith)
                requires
                    q == sum_accuracy / (n as u128),
                    sum_accuracy <= n * (u64::MAX as int),
                    0 < n,
            ;
            lemma_fundamental_div_mod(su, ni);
            vstd::arithmetic::div_mod::lemma_mod_bound(su, ni);
            let rr = su % ni;
            assert(su + 50 * ni == ni * (q + 50) + rr) by (nonlinear_arith)
                requires
                    su == ni * (q as int) + rr,
                    q == su / ni,
            ;
            vstd::arithmetic::div_mod::lemma_div_multiples_vanish_fancy(q as int + 50, rr, ni);
            vstd::arithmetic::div_mod::lemma_div_denominator(su + 50 * ni, ni, 100);
            assert((su + 50 * ni) / (100 * ni) == (q as int + 50) / 100);
            assert((q as int + 50) / 100 <= u64::MAX) by (nonlinear_arith)
                requires
                    q <= u64::MAX,
            ;
        }
        let avg_accuracy: u128 = (q + 50) / 100;
        StatOverview {
            total_stats_count: n,
            total_average_wpm: avg_wpm as usize,
            total_average_accuracy: avg_accuracy as u64,
        }
    }

    /// Returns data for the chart widget
    ///
    /// Creates a dataset of (run index, average WPM) points, newest run
    /// first, and the best WPM, floored at 100 for the chart's scale.
    pub fn get_data_for_chart(&self) -> (r: (usize, Vec<(usize, usize)>))
        ensures
            r.1@.len() == self.spec_stats().len(),
            forall|k: int|
                0 <= k < r.1@.len() ==> #[trigger] r.1@[k] == (
                    (self.spec_stats().len() - 1 - k) as usize,
                    self.spec_stats()[self.spec_stats().len() - 1 - k].spec_average_wpm(),
                ),
            r.0 == if spec_max_wpm(self.spec_stats()) > 100 {
                spec_max_wpm(self.spec_stats())
            } else {
                100int
            },
    {
        let stats = &self.data.0;
        let n = stats.len();
        let mut best_wpm: usize = 0;
        for k in 0..n
            invariant
                n == stats@.len(),
                best_wpm == spec_max_wpm(stats@.subrange(0, k as int)),
        {
            proof {
                assert(stats@.subrange(0, k + 1).drop_last() =~= stats@.subrange(0, k as int));
                assert(stats@.subrange(0, k + 1).last() == stats@[k as int]);
            }
            let wpm = stats[k].get_average_wpm();
            if wpm > best_wpm {
                best_wpm = wpm;
            }
        }
        let mut dataset: Vec<(usize, usize)> = Vec::new();
        for k in 0..n
            invariant
                n == stats@.len(),
                dataset@.len() == k,
                forall|i: int|
                    0 <= i < k ==> #[trigger] dataset@[i] == (
                        (n - 1 - i) as usize,
                        stats@[n - 1 - i].spec_average_wpm(),
                    ),
        {
            let index = n - 1 - k;
            dataset.push((index, stats[index].get_average_wpm()));
        }
        proof {
            assert(stats@.subrange(0, n as int) =~= stats@);
        }
        let best = if best_wpm > 100 {
            best_wpm
        } else {
            100
        };
        (best, dataset)
    }

    /// Toggles a background transparency
    pub fn set_transparent_bg(&mut self, state: bool)
        ensures
            final(self).spec_data().3 == state,
            final(self).spec_data().0 == old(self).spec_data().0,
            final(self).spec_data().1 == old(self).spec_data().1,
            final(self).spec_data().2 == old(self).spec_data().2,
            final(self).spec_data().4 == old(self).spec_data().4,
            final(self).spec_file_path() == old(self).spec_file_path(),
    {
        self.data.3 = state;
    }
}

} // verus!
