use vstd::prelude::*;
use crate::timestamp::{Timestamp, digit, two_digits, push_compact};

verus! {

/// The name of the file that holds a frame captured at `t`:
/// `raspi-camera-YYYYMMDDHHMMSS.jpg`.
pub open spec fn file_name_of(t: Timestamp) -> Seq<char> {
    "raspi-camera-"@ + t.compact() + ".jpg"@
}

/// Why a frame could not be stored.
#[derive(Clone, Copy, Debug, PartialEq, Eq, Structural)]
pub enum StoreError {
    /// The clock gave a year that a four-digit name cannot hold.
    ClockOutOfRange,
    /// The file could not be created, written or flushed.
    Io,
}

/// A frame on disk: where it is, its file name, and the second it was taken.
#[derive(Clone, Debug, PartialEq, Eq)]
pub struct StoredImage {
    pub path: String,
    pub file_name: String,
    pub stamp: Timestamp,
}

/// Persists frames under one directory, one file per second of capture.
#[derive(Clone, Debug)]
pub struct FrameStore {
    pub base_dir: String,
}

impl FrameStore {
    /// The path of the file for a frame captured at `t`.
    pub open spec fn path_of(self, t: Timestamp) -> Seq<char> {
        self.base_dir@ + "/"@ + file_name_of(t)
    }

    /// What `target` hands back for a frame captured at `t`.
    pub open spec fn target_spec(self, t: Timestamp, r: Result<StoredImage, StoreError>) -> bool {
        match r {
            Ok(img) => {
                &&& t.wf()
                &&& img.path@ == self.path_of(t)
                &&& img.file_name@ == file_name_of(t)
                &&& img.stamp == t
            },
            Err(e) => !t.wf() && e == StoreError::ClockOutOfRange,
        }
    }

    pub fn new(base_dir: String) -> (r: FrameStore)
        ensures
            r.base_dir@ == base_dir@,
    {
        FrameStore { base_dir }
    }

    /// The file name for a frame captured at `t`.
    pub fn file_name(t: &Timestamp) -> (r: Result<String, StoreError>)
        ensures
            t.wf() ==> (r matches Ok(name) && name@ == file_name_of(*t)),
            !t.wf() ==> r == Err::<String, StoreError>(StoreError::ClockOutOfRange),
    {
        if t.year < 0 || t.year > 9999 || !(1 <= t.month && t.month <= 12 && 1 <= t.day && t.day
            <= 31 && t.hour <= 23 && t.minute <= 59 && t.second <= 59) {
            return Err(StoreError::ClockOutOfRange);
        }
        let mut name = String::from_str("raspi-camera-");
        push_compact(&mut name, t);
        name.append(".jpg");
        Ok(name)
    }

    /// Where a frame captured at `t` is to be written.
    pub fn target(&self, t: Timestamp) -> (r: Result<StoredImage, StoreError>)
        ensures
            self.target_spec(t, r),
    {
        match FrameStore::file_name(&t) {
            Err(e) => Err(e),
            Ok(file_name) => {
                let mut path = self.base_dir.clone();
                path.append("/");
                path.append(file_name.as_str());
                Ok(StoredImage { path, file_name, stamp: t })
            },
        }
    }

    /// Where a frame captured now is to be written, named after the local time.
    pub fn target_now(&self) -> (r: Result<StoredImage, StoreError>)
        ensures
            r matches Ok(img) ==> self.target_spec(img.stamp, r),
            r matches Err(e) ==> e == StoreError::ClockOutOfRange,
    {
        let t = Timestamp::now();
        self.target(t)
    }
}

proof fn lemma_digit_injective(x: int, y: int)
    requires
        0 <= x <= 9,
        0 <= y <= 9,
        digit(x) == digit(y),
    ensures
        x == y,
{
}

proof fn lemma_two_digits_injective(n: int, m: int)
    requires
        0 <= n <= 99,
        0 <= m <= 99,
        two_digits(n) == two_digits(m),
    ensures
        n == m,
{
    assert(two_digits(n)[0] == two_digits(m)[0]);
    assert(two_digits(n)[1] == two_digits(m)[1]);
    lemma_digit_injective(n / 10, m / 10);
    lemma_digit_injective(n % 10, m % 10);
}

proof fn lemma_compact_injective(a: Timestamp, b: Timestamp)
    requires
        a.wf(),
        b.wf(),
        a.compact() == b.compact(),
    ensures
        a == b,
{
    let ca = a.compact();
    let cb = b.compact();
    assert(ca.subrange(0, 2) =~= two_digits(a.year as int / 100));
    assert(cb.subrange(0, 2) =~= two_digits(b.year as int / 100));
    assert(ca.subrange(2, 4) =~= two_digits(a.year as int % 100));
    assert(cb.subrange(2, 4) =~= two_digits(b.year as int % 100));
    assert(ca.subrange(4, 6) =~= two_digits(a.month as int));
    assert(cb.subrange(4, 6) =~= two_digits(b.month as int));
    assert(ca.subrange(6, 8) =~= two_digits(a.day as int));
    assert(cb.subrange(6, 8) =~= two_digits(b.day as int));
    assert(ca.subrange(8, 10) =~= two_digits(a.hour as int));
    assert(cb.subrange(8, 10) =~= two_digits(b.hour as int));
    assert(ca.subrange(10, 12) =~= two_digits(a.minute as int));
    assert(cb.subrange(10, 12) =~= two_digits(b.minute as int));
    assert(ca.subrange(12, 14) =~= two_digits(a.second as int));
    assert(cb.subrange(12, 14) =~= two_digits(b.second as int));
    lemma_two_digits_injective(a.year as int / 100, b.year as int / 100);
    lemma_two_digits_injective(a.year as int % 100, b.year as int % 100);
    lemma_two_digits_injective(a.month as int, b.month as int);
    lemma_two_digits_injective(a.day as int, b.day as int);
    lemma_two_digits_injective(a.hour as int, b.hour as int);
    lemma_two_digits_injective(a.minute as int, b.minute as int);
    lemma_two_digits_injective(a.second as int, b.second as int);
}

/// Frames captured in two different seconds go to two different files of the same
/// store, so a save never overwrites the file of a frame from another second.
pub proof fn lemma_distinct_seconds_distinct_files(store: FrameStore, a: Timestamp, b: Timestamp)
    requires
        a.wf(),
        b.wf(),
        a != b,
    ensures
        file_name_of(a) != file_name_of(b),
        store.path_of(a) != store.path_of(b),
{
    let p = "raspi-camera-"@;
    let d = store.base_dir@ + "/"@;
    if file_name_of(a) == file_name_of(b) || store.path_of(a) == store.path_of(b) {
        if store.path_of(a) == store.path_of(b) {
            assert(file_name_of(a) =~= store.path_of(a).subrange(d.len() as int, store.path_of(a).len() as int));
            assert(file_name_of(b) =~= store.path_of(b).subrange(d.len() as int, store.path_of(b).len() as int));
        }
        assert(a.compact() =~= file_name_of(a).subrange(p.len() as int, p.len() as int + 14));
        assert(b.compact() =~= file_name_of(b).subrange(p.len() as int, p.len() as int + 14));
        lemma_compact_injective(a, b);
    }
}

} // verus!
