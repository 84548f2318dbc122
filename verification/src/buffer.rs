//! The pattern buffer: a contiguous sequence of machine words stamped with the
//! identity pattern (`elements[i] == i`), together with the scan-and-repair
//! pass that detects and heals deviations from that pattern.

use vstd::prelude::*;

verus! {

/// Number of bytes in one buffer word.
pub const WORD_BYTES: usize = 8;

/// A detected deviation: the word at `index` was expected to hold `expected`
/// (always equal to `index` under the identity pattern) but held `actual`.
#[derive(Clone, Copy, Debug, PartialEq, Eq, Structural)]
pub struct Mismatch {
    pub index: usize,
    pub expected: usize,
    pub actual: usize,
}

/// The requested buffer size could not be reserved.
#[derive(Clone, Copy, Debug, PartialEq, Eq, Structural)]
pub struct AllocationError;

/// Holds if every word of `s` equals its own index: the clean pattern that a
/// fresh buffer is stamped with and that a scan pass restores.
pub open spec fn is_identity(s: Seq<usize>) -> bool {
    forall|i: int| 0 <= i < s.len() ==> s[i] == i
}

/// The mismatches that a scan of the first `n` words of `s` reports, in
/// ascending index order.
pub open spec fn mismatches_upto(s: Seq<usize>, n: int) -> Seq<Mismatch>
    decreases n,
{
    if n <= 0 {
        Seq::empty()
    } else {
        mismatches_upto(s, n - 1) + (if s[n - 1] as int != n - 1 {
            seq![Mismatch { index: (n - 1) as usize, expected: (n - 1) as usize, actual: s[n - 1] }]
        } else {
            Seq::empty()
        })
    }
}

/// The mismatches that a full scan pass over contents `s` reports.
pub open spec fn mismatches_of(s: Seq<usize>) -> Seq<Mismatch> {
    mismatches_upto(s, s.len() as int)
}

proof fn lemma_identity_prefix_has_no_mismatches(s: Seq<usize>, n: int)
    requires
        n <= s.len(),
        forall|i: int| 0 <= i < n ==> s[i] == i,
    ensures
        mismatches_upto(s, n) =~= Seq::<Mismatch>::empty(),
    decreases n,
{
    if n > 0 {
        lemma_identity_prefix_has_no_mismatches(s, n - 1);
    }
}

/// A scan pass over clean contents is silent: on contents that carry the
/// identity pattern it reports no mismatch at all, and since a pass also
/// leaves such contents as they are, repeated scans of an untouched buffer
/// report nothing, pass after pass, and never move the error counter.
pub proof fn lemma_scan_of_clean_buffer_is_silent(s: Seq<usize>)
    requires
        is_identity(s),
    ensures
        mismatches_of(s) =~= Seq::<Mismatch>::empty(),
{
    lemma_identity_prefix_has_no_mismatches(s, s.len() as int);
}

proof fn lemma_single_corruption_prefix(s: Seq<usize>, k: int, v: usize, n: int)
    requires
        is_identity(s),
        0 <= k < s.len(),
        v as int != k,
        0 <= n <= s.len(),
    ensures
        n <= k ==> mismatches_upto(s.update(k, v), n) =~= Seq::<Mismatch>::empty(),
        n > k ==> mismatches_upto(s.update(k, v), n) =~= (seq![
            Mismatch { index: k as usize, expected: k as usize, actual: v },
        ]),
    decreases n,
{
    if n > 0 {
        lemma_single_corruption_prefix(s, k, v, n - 1);
    }
}

/// A single corrupted word is reported exactly once: when clean contents are
/// corrupted at index `k` to a value `v` different from `k`, the next scan
/// pass reports precisely the one mismatch `(k, k, v)` and nothing else; and
/// since a pass restores the identity pattern, the word at `k` holds `k`
/// again afterwards.
pub proof fn lemma_corrupted_word_reported_once(s: Seq<usize>, k: int, v: usize)
    requires
        is_identity(s),
        0 <= k < s.len(),
        v as int != k,
    ensures
        mismatches_of(s.update(k, v)) =~= (seq![
            Mismatch { index: k as usize, expected: k as usize, actual: v },
        ]),
{
    lemma_single_corruption_prefix(s, k, v, s.len() as int);
}

/// Stamps the identity pattern: grows the empty vector to `n` words, each
/// holding its own index.
fn fill_identity(v: &mut Vec<usize>, n: usize)
    requires
        old(v)@.len() == 0,
    ensures
        final(v)@.len() == n,
        is_identity(final(v)@),
{
    let mut i: usize = 0;
    while i < n
        invariant
            i <= n,
            v@.len() == i,
            forall|j: int| 0 <= j < i ==> v@[j] == j,
        decreases n - i,
    {
        v.push(i);
        i += 1;
    }
}

/// A buffer of machine words initialized to the identity pattern, plus a flag
/// recording whether its backing pages are confirmed pinned to physical RAM.
pub struct Buffer {
    elements: Vec<usize>,
    locked: bool,
}

impl View for Buffer {
    type V = Seq<usize>;

    closed spec fn view(&self) -> Seq<usize> {
        self.elements@
    }
}

impl Buffer {
    /// Whether the backing memory is confirmed pinned to physical RAM.
    pub closed spec fn pinned(&self) -> bool {
        self.locked
    }

    /// Allocates a buffer of `size_in_bytes` bytes, rounded down to a whole
    /// number of words, every word stamped with its own index. Fails with an
    /// `AllocationError` when the requested capacity cannot be reserved; the
    /// buffer starts out unpinned either way.
    pub fn new(size_in_bytes: usize) -> (r: Result<Buffer, AllocationError>)
        ensures
            match r {
                Ok(b) => {
                    &&& b@.len() == size_in_bytes / WORD_BYTES
                    &&& is_identity(b@)
                    &&& !b.pinned()
                },
                Err(e) => e == (AllocationError {}),
            },
    {
        let n_words = size_in_bytes / WORD_BYTES;
        let mut elements: Vec<usize> = Vec::new();
        if elements.try_reserve(n_words).is_err() {
            return Err(AllocationError);
        }
        fill_identity(&mut elements, n_words);
        Ok(Buffer { elements, locked: false })
    }

    /// Number of words in the buffer.
    pub fn len(&self) -> (n: usize)
        ensures
            n == self@.len(),
    {
        self.elements.len()
    }

    /// The word currently stored at index `i`.
    pub fn word(&self, i: usize) -> (w: usize)
        requires
            i < self@.len(),
        ensures
            w == self@[i as int],
    {
        self.elements[i]
    }

    /// Overwrites the word at index `i` with `v`, as external corruption (or a
    /// fault-injection harness) would.
    pub fn set_word(&mut self, i: usize, v: usize)
        requires
            i < old(self)@.len(),
        ensures
            final(self)@ == old(self)@.update(i as int, v),
            final(self).pinned() == old(self).pinned(),
    {
        self.elements[i] = v;
    }

    /// The buffer's words as a slice, for the surrounding program to hand to
    /// the page-pinning system call.
    pub fn words(&self) -> (s: &[usize])
        ensures
            s@ == self@,
    {
        self.elements.as_slice()
    }

    /// Records the outcome of the best-effort page-pinning attempt that the
    /// surrounding program made for this buffer. A failed attempt leaves the
    /// buffer fully usable; only the residency guarantee is lost.
    pub fn record_pin_outcome(&mut self, ok: bool)
        ensures
            final(self)@ == old(self)@,
            final(self).pinned() == ok,
    {
        self.locked = ok;
    }

    /// Whether the backing memory is confirmed pinned.
    pub fn is_pinned(&self) -> (b: bool)
        ensures
            b == self.pinned(),
    {
        self.locked
    }

    /// Gives up the residency claim: after this the buffer no longer counts
    /// as pinned, so the surrounding program can unpin the pages before the
    /// memory is reclaimed.
    pub fn release(&mut self)
        ensures
            final(self)@ == old(self)@,
            !final(self).pinned(),
    {
        self.locked = false;
    }

    /// One scan pass: compares every word to its index, reports each deviation
    /// as a `Mismatch` carrying the index, the expected value and the value
    /// found, and rewrites the deviating word with its expected value, so the
    /// buffer is back to the clean identity pattern when the pass ends.
    pub fn scan(&mut self) -> (r: Vec<Mismatch>)
        ensures
            r@ == mismatches_of(old(self)@),
            final(self)@.len() == old(self)@.len(),
            is_identity(final(self)@),
            final(self).pinned() == old(self).pinned(),
    {
        let ghost orig: Seq<usize> = self.elements@;
        let ghost was_locked: bool = self.locked;
        let mut found: Vec<Mismatch> = Vec::new();
        let n = self.elements.len();
        let mut i: usize = 0;
        while i < n
            invariant
                i <= n,
                n == self.elements@.len(),
                n == orig.len(),
                found@ == mismatches_upto(orig, i as int),
                forall|j: int| 0 <= j < i ==> self.elements@[j] == j,
                forall|j: int| i <= j < n ==> self.elements@[j] == orig[j],
                self.locked == was_locked,
            decreases n - i,
        {
            let actual = self.elements[i];
            if actual != i {
                found.push(Mismatch { index: i, expected: i, actual });
                self.elements[i] = i;
            }
            i += 1;
        }
        found
    }
}

} // verus!
