//! Framing for the Silero voice-activity detector, which takes 16 kHz mono
//! audio in windows of exactly 512 samples.
use vstd::prelude::*;

verus! {

/// The sample rate the detector and the session timeline use.
pub const VAD_SAMPLE_RATE: u32 = 16000;

/// The number of samples the detector takes at once.
pub const WINDOW: usize = 512;

/// The `i`-th full window of `all`.
pub open spec fn window_of<T>(all: Seq<T>, i: int) -> Seq<T> {
    all.subrange(i * WINDOW as int, (i + 1) * WINDOW as int)
}

/// How many full windows `len` samples make.
pub open spec fn full_windows(len: int) -> int {
    len / WINDOW as int
}

/// Splits the samples still pending plus the new ones into full windows, in
/// order, and what is left over (fewer than a window), kept pending for the
/// next call.
pub fn split_windows<T: Copy>(pending: &Vec<T>, samples: &[T]) -> (r: (Vec<Vec<T>>, Vec<T>))
    requires
        pending@.len() + samples@.len() <= usize::MAX,
    ensures
        r.0@.len() == full_windows((pending@.len() + samples@.len()) as int),
        forall|i: int|
            0 <= i < r.0@.len() ==> #[trigger] r.0@[i]@ == window_of(pending@ + samples@, i),
        r.1@ == (pending@ + samples@).skip(r.0@.len() * WINDOW as int),
        r.1@.len() < WINDOW,
{
    let ghost all = pending@ + samples@;
    let mut buf: Vec<T> = Vec::new();
    let mut i: usize = 0;
    while i < pending.len()
        invariant
            i <= pending.len(),
            buf@ == pending@.take(i as int),
        decreases pending.len() - i,
    {
        buf.push(pending[i]);
        i = i + 1;
        assert(buf@ =~= pending@.take(i as int));
    }
    let mut j: usize = 0;
    while j < samples.len()
        invariant
            j <= samples.len(),
            pending@.len() + samples@.len() <= usize::MAX,
            buf@ == pending@ + samples@.take(j as int),
        decreases samples.len() - j,
    {
        buf.push(samples[j]);
        j = j + 1;
        assert(buf@ =~= pending@ + samples@.take(j as int));
    }
    assert(samples@.take(samples@.len() as int) =~= samples@);
    assert(buf@ == all);
    let mut windows: Vec<Vec<T>> = Vec::new();
    let mut offset: usize = 0;
    while buf.len() - offset >= WINDOW
        invariant
            buf@ == all,
            offset <= buf.len(),
            offset == windows@.len() * WINDOW,
            forall|k: int| 0 <= k < windows@.len() ==> #[trigger] windows@[k]@ == window_of(all, k),
        decreases buf.len() - offset,
    {
        let mut w: Vec<T> = Vec::new();
        let mut k: usize = 0;
        while k < WINDOW
            invariant
                k <= WINDOW,
                offset + WINDOW <= buf.len(),
                w@ == buf@.subrange(offset as int, offset + k),
            decreases WINDOW - k,
        {
            w.push(buf[offset + k]);
            k = k + 1;
            assert(w@ =~= buf@.subrange(offset as int, offset + k));
        }
        windows.push(w);
        offset = offset + WINDOW;
    }
    let mut rest: Vec<T> = Vec::new();
    let mut k: usize = offset;
    while k < buf.len()
        invariant
            offset <= k <= buf.len(),
            rest@ == buf@.subrange(offset as int, k as int),
        decreases buf.len() - k,
    {
        rest.push(buf[k]);
        k = k + 1;
        assert(rest@ =~= buf@.subrange(offset as int, k as int));
    }
    assert(rest@ =~= all.skip(offset as int));
    (windows, rest)
}

/// Cutting into windows loses nothing and adds nothing: the windows, in
/// order, followed by what is left over, are the pending and new samples.
pub proof fn law_windows_cover<T>(all: Seq<T>, windows: Seq<Seq<T>>, rest: Seq<T>)
    requires
        windows.len() == full_windows(all.len() as int),
        forall|i: int| 0 <= i < windows.len() ==> #[trigger] windows[i] == window_of(all, i),
        rest == all.skip(windows.len() * WINDOW as int),
    ensures
        windows.fold_left(Seq::<T>::empty(), |acc: Seq<T>, w: Seq<T>| acc + w) + rest == all,
{
    lemma_fold_windows(all, windows, windows.len() as int);
    assert(all.take(windows.len() * WINDOW as int) + all.skip(windows.len() * WINDOW as int) =~= all);
}

proof fn lemma_fold_windows<T>(all: Seq<T>, windows: Seq<Seq<T>>, n: int)
    requires
        0 <= n <= windows.len(),
        windows.len() == full_windows(all.len() as int),
        forall|i: int| 0 <= i < windows.len() ==> #[trigger] windows[i] == window_of(all, i),
    ensures
        windows.take(n).fold_left(Seq::<T>::empty(), |acc: Seq<T>, w: Seq<T>| acc + w) == all.take(
            n * WINDOW as int,
        ),
    decreases n,
{
    if n == 0 {
        assert(all.take(0) =~= Seq::<T>::empty());
    } else {
        lemma_fold_windows(all, windows, n - 1);
        assert(windows.take(n).drop_last() =~= windows.take(n - 1));
        assert(windows.take(n).last() == window_of(all, n - 1));
        assert(all.take((n - 1) * WINDOW as int) + window_of(all, n - 1) =~= all.take(
            n * WINDOW as int,
        ));
    }
}

} // verus!
