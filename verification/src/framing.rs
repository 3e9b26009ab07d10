//! Cutting a stream of samples into fixed-size frames.
use vstd::prelude::*;
use vstd::arithmetic::div_mod::lemma_fundamental_div_mod_converse;

verus! {

/// The complete frames of `n` samples at the front of `s`, in order.
pub open spec fn full_frames(n: int, s: Seq<i16>) -> Seq<Seq<i16>>
    recommends
        n > 0,
{
    Seq::new((s.len() as int / n) as nat, |i: int| s.subrange(i * n, i * n + n))
}

/// The samples of `s` that do not fill a complete frame of `n`.
pub open spec fn leftover(n: int, s: Seq<i16>) -> Seq<i16>
    recommends
        n > 0,
{
    s.subrange((s.len() as int / n) * n, s.len() as int)
}

/// All frames laid end to end.
pub open spec fn concat_frames(fs: Seq<Seq<i16>>) -> Seq<i16>
    decreases fs.len(),
{
    if fs.len() == 0 {
        Seq::<i16>::empty()
    } else {
        concat_frames(fs.drop_last()) + fs.last()
    }
}

/// `s` filled up with zeros to length `n`.
pub open spec fn zero_padded(n: int, s: Seq<i16>) -> Seq<i16> {
    s + Seq::new((n - s.len()) as nat, |i: int| 0i16)
}

/// The number of samples in a 20 ms frame at `sample_rate` Hz.
pub open spec fn frame_size_spec(sample_rate: u32) -> int {
    sample_rate as int / 50
}

proof fn lemma_count(n: int, len: int, q: int, r: int)
    requires
        n > 0,
        0 <= r < n,
        len == q * n + r,
    ensures
        len / n == q,
{
    lemma_fundamental_div_mod_converse(len, n, q, r);
}

/// The frames and the leftover of `s` give back `s`; each frame has `n`
/// samples and fewer than `n` are left over.
pub proof fn law_frames_cover_samples(n: int, s: Seq<i16>)
    requires
        n > 0,
    ensures
        concat_frames(full_frames(n, s)) + leftover(n, s) == s,
        forall|i: int|
            0 <= i < full_frames(n, s).len() ==> (#[trigger] full_frames(n, s)[i]).len() == n,
        leftover(n, s).len() < n,
{
    let q = s.len() as int / n;
    assert(q * n <= s.len() < q * n + n) by (nonlinear_arith)
        requires
            q == s.len() as int / n,
            n > 0,
            s.len() >= 0,
    ;
    lemma_concat_prefix(n, s, q);
    assert(full_frames(n, s).take(q) =~= full_frames(n, s));
    assert(s.subrange(0, q * n) + s.subrange(q * n, s.len() as int) =~= s);
    assert forall|i: int| 0 <= i < full_frames(n, s).len() implies (#[trigger] full_frames(
        n,
        s,
    )[i]).len() == n by {
        assert(i * n + n <= q * n) by (nonlinear_arith)
            requires
                0 <= i < q,
                n > 0,
        ;
    }
}

/// The first `k` frames of `s`, laid end to end, are the first `k * n`
/// samples.
proof fn lemma_concat_prefix(n: int, s: Seq<i16>, k: int)
    requires
        n > 0,
        0 <= k <= s.len() as int / n,
    ensures
        concat_frames(full_frames(n, s).take(k)) == s.subrange(0, k * n),
    decreases k,
{
    let q = s.len() as int / n;
    assert(q * n <= s.len()) by (nonlinear_arith)
        requires
            q == s.len() as int / n,
            n > 0,
            s.len() >= 0,
    ;
    assert(0 <= k * n <= q * n) by (nonlinear_arith)
        requires
            0 <= k <= q,
            n > 0,
    ;
    if k == 0 {
        assert(k * n == 0) by (nonlinear_arith)
            requires
                k == 0,
        ;
        assert(full_frames(n, s).take(0) =~= Seq::<Seq<i16>>::empty());
        assert(s.subrange(0, 0) =~= Seq::<i16>::empty());
    } else {
        lemma_concat_prefix(n, s, k - 1);
        let fs = full_frames(n, s).take(k);
        assert(fs.len() == k);
        assert(fs.drop_last() =~= full_frames(n, s).take(k - 1));
        assert(0 <= (k - 1) * n) by (nonlinear_arith)
            requires
                k >= 1,
                n > 0,
        ;
        assert(k * n <= q * n) by (nonlinear_arith)
            requires
                k <= q,
                n > 0,
        ;
        assert((k - 1) * n + n == k * n) by (nonlinear_arith);
        assert(fs.last() == s.subrange((k - 1) * n, (k - 1) * n + n));
        assert(concat_frames(fs) == concat_frames(fs.drop_last()) + fs.last());
        assert(s.subrange(0, (k - 1) * n) + s.subrange((k - 1) * n, k * n) =~= s.subrange(
            0,
            k * n,
        ));
    }
}

/// Framing `a` and then the leftover of `a` followed by `b` yields the same
/// frames, and the same leftover, as framing `a + b` at once.
pub proof fn law_framing_in_pieces(n: int, a: Seq<i16>, b: Seq<i16>)
    requires
        n > 0,
    ensures
        full_frames(n, a + b) == full_frames(n, a) + full_frames(n, leftover(n, a) + b),
        leftover(n, a + b) == leftover(n, leftover(n, a) + b),
{
    let q = a.len() as int / n;
    let r = leftover(n, a);
    let c = r + b;
    let qc = c.len() as int / n;
    let rc = c.len() as int % n;
    assert(q * n <= a.len() < q * n + n) by (nonlinear_arith)
        requires
            q == a.len() as int / n,
            n > 0,
            a.len() >= 0,
    ;
    assert(c.len() == qc * n + rc && 0 <= rc < n) by (nonlinear_arith)
        requires
            qc == c.len() as int / n,
            rc == c.len() as int % n,
            n > 0,
            c.len() >= 0,
    ;
    let ab = a + b;
    assert(ab.len() == (q + qc) * n + rc) by (nonlinear_arith)
        requires
            ab.len() == a.len() + b.len(),
            c.len() == a.len() - q * n + b.len(),
            c.len() == qc * n + rc,
    ;
    lemma_count(n, ab.len() as int, q + qc, rc);
    let lhs = full_frames(n, ab);
    let rhs = full_frames(n, a) + full_frames(n, c);
    assert(lhs.len() == rhs.len());
    assert forall|i: int| 0 <= i < lhs.len() implies #[trigger] lhs[i] == rhs[i] by {
        if i < q {
            assert(i * n + n <= q * n) by (nonlinear_arith)
                requires
                    0 <= i < q,
                    n > 0,
            ;
            assert(ab.subrange(i * n, i * n + n) =~= a.subrange(i * n, i * n + n));
        } else {
            let j = i - q;
            assert(j * n == i * n - q * n) by (nonlinear_arith)
                requires
                    j == i - q,
            ;
            assert(j * n + n <= qc * n) by (nonlinear_arith)
                requires
                    0 <= j < qc,
                    n > 0,
            ;
            assert forall|k: int| 0 <= k < n implies ab.subrange(i * n, i * n + n)[k]
                == #[trigger] c.subrange(j * n, j * n + n)[k] by {
                assert(ab[i * n + k] == c[j * n + k]);
            }
            assert(ab.subrange(i * n, i * n + n) =~= c.subrange(j * n, j * n + n));
        }
    }
    assert(lhs =~= rhs);
    assert((q + qc) * n == q * n + qc * n) by (nonlinear_arith);
    assert(leftover(n, ab) =~= leftover(n, c)) by {
        assert forall|k: int| 0 <= k < rc implies #[trigger] leftover(n, ab)[k] == leftover(
            n,
            c,
        )[k] by {
            assert(ab[(q + qc) * n + k] == c[qc * n + k]);
        }
    }
}

/// A frame holds the samples of 20 ms: fifty frames fit in one second of
/// samples, with fewer than fifty samples to spare.
pub proof fn law_frame_is_twenty_ms(sample_rate: u32)
    ensures
        50 * frame_size_spec(sample_rate) <= sample_rate < 50 * frame_size_spec(sample_rate) + 50,
{
}

/// The number of samples in a 20 ms frame at `sample_rate` Hz.
pub fn frame_size_for(sample_rate: u32) -> (n: usize)
    ensures
        n == frame_size_spec(sample_rate),
{
    (sample_rate / 50) as usize
}

/// Copies `v[from..to]` into a new vector.
fn copy_range(v: &Vec<i16>, from: usize, to: usize) -> (r: Vec<i16>)
    requires
        from <= to <= v.len(),
    ensures
        r@ == v@.subrange(from as int, to as int),
{
    let mut r: Vec<i16> = Vec::new();
    let mut k = from;
    while k < to
        invariant
            from <= k <= to <= v.len(),
            r@ == v@.subrange(from as int, k as int),
        decreases to - k,
    {
        r.push(v[k]);
        proof {
            assert(v@.subrange(from as int, k + 1) =~= v@.subrange(from as int, k as int).push(
                v@[k as int],
            ));
        }
        k = k + 1;
    }
    r
}

/// Collects samples and hands them out in frames of a fixed size, keeping
/// what does not fill a frame for the next call.
pub struct OpusFramer {
    frame_size: usize,
    pending: Vec<i16>,
}

impl OpusFramer {
    #[verifier::type_invariant]
    spec fn inv(&self) -> bool {
        self.frame_size > 0 && self.pending.len() < self.frame_size
    }

    /// The frame length.
    pub closed spec fn frame_len(&self) -> int {
        self.frame_size as int
    }

    /// The samples waiting for a frame to be complete.
    pub closed spec fn pending_samples(&self) -> Seq<i16> {
        self.pending@
    }

    /// A framer with nothing pending.
    pub fn new(frame_size: usize) -> (r: Self)
        requires
            frame_size > 0,
        ensures
            r.frame_len() == frame_size,
            r.pending_samples() == Seq::<i16>::empty(),
    {
        OpusFramer { frame_size, pending: Vec::new() }
    }

    /// The frame length.
    pub fn frame_size(&self) -> (n: usize)
        ensures
            n == self.frame_len(),
            n > 0,
            self.pending_samples().len() < n,
    {
        proof {
            use_type_invariant(self);
        }
        self.frame_size
    }

    /// Adds `chunk` after the pending samples and returns every complete
    /// frame, in order; the rest stays pending.
    pub fn push(&mut self, chunk: Vec<i16>) -> (frames: Vec<Vec<i16>>)
        ensures
            final(self).frame_len() == old(self).frame_len(),
            frames.deep_view() == full_frames(
                old(self).frame_len(),
                old(self).pending_samples() + chunk@,
            ),
            final(self).pending_samples() == leftover(
                old(self).frame_len(),
                old(self).pending_samples() + chunk@,
            ),
    {
        proof {
            use_type_invariant(&*self);
        }
        let n = self.frame_size;
        let mut all: Vec<i16> = Vec::new();
        let mut k: usize = 0;
        while k < self.pending.len()
            invariant
                k <= self.pending.len(),
                all@ == self.pending@.take(k as int),
            decreases self.pending.len() - k,
        {
            all.push(self.pending[k]);
            proof {
                assert(self.pending@.take(k + 1) =~= self.pending@.take(k as int).push(
                    self.pending@[k as int],
                ));
            }
            k = k + 1;
        }
        let mut j: usize = 0;
        while j < chunk.len()
            invariant
                j <= chunk.len(),
                k == self.pending.len(),
                all@ == self.pending@ + chunk@.take(j as int),
            decreases chunk.len() - j,
        {
            all.push(chunk[j]);
            proof {
                assert(chunk@.take(j + 1) =~= chunk@.take(j as int).push(chunk@[j as int]));
                assert(self.pending@ + chunk@.take(j + 1) =~= (self.pending@ + chunk@.take(
                    j as int,
                )).push(chunk@[j as int]));
            }
            j = j + 1;
        }
        proof {
            assert(self.pending@.take(k as int) =~= self.pending@);
            assert(chunk@.take(j as int) =~= chunk@);
        }
        let ghost s = all@;
        let ghost ni = n as int;
        let mut frames: Vec<Vec<i16>> = Vec::new();
        let mut off: usize = 0;
        let mut count: usize = 0;
        while all.len() - off >= n
            invariant
                all@ == s,
                n == ni,
                ni > 0,
                off == count * ni,
                count <= off,
                off <= all.len(),
                frames.deep_view() == Seq::new(
                    count as nat,
                    |i: int| s.subrange(i * ni, i * ni + ni),
                ),
            decreases all.len() - off,
        {
            let frame = copy_range(&all, off, off + n);
            let ghost before = frames.deep_view();
            proof {
                assert(frame.deep_view() =~= frame@);
            }
            frames.push(frame);
            proof {
                assert(count + 1 <= off + n) by (nonlinear_arith)
                    requires
                        count <= off,
                        ni >= 1,
                        n == ni,
                ;
                assert(frames.deep_view() =~= Seq::new(
                    (count + 1) as nat,
                    |i: int| s.subrange(i * ni, i * ni + ni),
                )) by {
                    assert(frames.deep_view() =~= before.push(s.subrange(off as int, off + ni)));
                }
                assert((count + 1) * ni == count * ni + ni) by (nonlinear_arith);
            }
            off = off + n;
            count = count + 1;
        }
        proof {
            lemma_count(ni, s.len() as int, count as int, s.len() - off);
        }
        let rest = copy_range(&all, off, all.len());
        self.pending = rest;
        proof {
            assert(frames.deep_view() =~= full_frames(ni, s));
        }
        frames
    }

    /// The pending samples padded with zeros to a full frame, or `None`
    /// when nothing is pending.
    pub fn finish(self) -> (frame: Option<Vec<i16>>)
        ensures
            frame is None <==> self.pending_samples().len() == 0,
            frame matches Some(f) ==> f@ == zero_padded(self.frame_len(), self.pending_samples())
                && f@.len() == self.frame_len(),
    {
        proof {
            use_type_invariant(&self);
        }
        if self.pending.len() == 0 {
            return None;
        }
        let n = self.frame_size;
        let mut f: Vec<i16> = Vec::new();
        let mut k: usize = 0;
        while k < n
            invariant
                k <= n,
                n == self.frame_size,
                self.pending.len() < n,
                f@ == zero_padded(n as int, self.pending@).take(k as int),
            decreases n - k,
        {
            let v = if k < self.pending.len() {
                self.pending[k]
            } else {
                0i16
            };
            f.push(v);
            proof {
                let z = zero_padded(n as int, self.pending@);
                assert(z.len() == n);
                assert(z[k as int] == v);
                assert(z.take(k + 1) =~= z.take(k as int).push(z[k as int]));
            }
            k = k + 1;
        }
        proof {
            assert(zero_padded(n as int, self.pending@).take(n as int) =~= zero_padded(
                n as int,
                self.pending@,
            ));
        }
        Some(f)
    }
}

} // verus!
