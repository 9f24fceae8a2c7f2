use vstd::prelude::*;

verus! {

/// Two channels of `n` samples each, woven into one flat sequence in
/// which pixel `i` occupies positions `2*i` (first channel) and
/// `2*i + 1` (second channel).
pub open spec fn interleave2<T>(n: nat, a: Seq<T>, b: Seq<T>) -> Seq<T> {
    Seq::new(2 * n, |j: int| if j % 2 == 0 { a[j / 2] } else { b[j / 2] })
}

/// Three channels of `n` samples each, woven into one flat sequence in
/// which pixel `i` occupies positions `3*i` through `3*i + 2`.
pub open spec fn interleave3<T>(n: nat, a: Seq<T>, b: Seq<T>, c: Seq<T>) -> Seq<T> {
    Seq::new(
        3 * n,
        |j: int|
            if j % 3 == 0 {
                a[j / 3]
            } else if j % 3 == 1 {
                b[j / 3]
            } else {
                c[j / 3]
            },
    )
}

/// Four channels of `n` samples each, woven into one flat sequence in
/// which pixel `i` occupies positions `4*i` through `4*i + 3`.
pub open spec fn interleave4<T>(n: nat, a: Seq<T>, b: Seq<T>, c: Seq<T>, d: Seq<T>) -> Seq<T> {
    Seq::new(
        4 * n,
        |j: int|
            if j % 4 == 0 {
                a[j / 4]
            } else if j % 4 == 1 {
                b[j / 4]
            } else if j % 4 == 2 {
                c[j / 4]
            } else {
                d[j / 4]
            },
    )
}

/// The channel at `offset` of a flat sequence holding `elems` samples
/// per pixel: sample `i` of the channel sits at position
/// `elems * i + offset` of the flat sequence.
pub open spec fn channel_slice<T>(flat: Seq<T>, elems: int, offset: int, n: nat) -> Seq<T> {
    Seq::new(n, |i: int| flat[elems * i + offset])
}

/// Splitting a two-channel interleaved sequence back into channels
/// recovers both channels exactly.
pub proof fn lemma_round_trip2<T>(n: nat, a: Seq<T>, b: Seq<T>)
    requires
        a.len() == n,
        b.len() == n,
    ensures
        channel_slice(interleave2(n, a, b), 2, 0, n) == a,
        channel_slice(interleave2(n, a, b), 2, 1, n) == b,
{
    let flat = interleave2(n, a, b);
    assert forall|i: int| 0 <= i < n implies flat[2 * i] == a[i] && flat[2 * i + 1] == b[i] by {
        assert((2 * i) % 2 == 0 && (2 * i) / 2 == i) by (nonlinear_arith);
        assert((2 * i + 1) % 2 == 1 && (2 * i + 1) / 2 == i) by (nonlinear_arith);
    }
    assert(channel_slice(flat, 2, 0, n) =~= a);
    assert(channel_slice(flat, 2, 1, n) =~= b);
}

/// Splitting a three-channel interleaved sequence back into channels
/// recovers all three channels exactly.
pub proof fn lemma_round_trip3<T>(n: nat, a: Seq<T>, b: Seq<T>, c: Seq<T>)
    requires
        a.len() == n,
        b.len() == n,
        c.len() == n,
    ensures
        channel_slice(interleave3(n, a, b, c), 3, 0, n) == a,
        channel_slice(interleave3(n, a, b, c), 3, 1, n) == b,
        channel_slice(interleave3(n, a, b, c), 3, 2, n) == c,
{
    let flat = interleave3(n, a, b, c);
    assert forall|i: int| 0 <= i < n implies flat[3 * i] == a[i] && flat[3 * i + 1] == b[i] && flat[
        3 * i + 2
    ] == c[i] by {
        assert((3 * i) % 3 == 0 && (3 * i) / 3 == i) by (nonlinear_arith);
        assert((3 * i + 1) % 3 == 1 && (3 * i + 1) / 3 == i) by (nonlinear_arith);
        assert((3 * i + 2) % 3 == 2 && (3 * i + 2) / 3 == i) by (nonlinear_arith);
    }
    assert(channel_slice(flat, 3, 0, n) =~= a);
    assert(channel_slice(flat, 3, 1, n) =~= b);
    assert(channel_slice(flat, 3, 2, n) =~= c);
}

/// Splitting a four-channel interleaved sequence back into channels
/// recovers all four channels exactly.
pub proof fn lemma_round_trip4<T>(n: nat, a: Seq<T>, b: Seq<T>, c: Seq<T>, d: Seq<T>)
    requires
        a.len() == n,
        b.len() == n,
        c.len() == n,
        d.len() == n,
    ensures
        channel_slice(interleave4(n, a, b, c, d), 4, 0, n) == a,
        channel_slice(interleave4(n, a, b, c, d), 4, 1, n) == b,
        channel_slice(interleave4(n, a, b, c, d), 4, 2, n) == c,
        channel_slice(interleave4(n, a, b, c, d), 4, 3, n) == d,
{
    let flat = interleave4(n, a, b, c, d);
    assert forall|i: int| 0 <= i < n implies flat[4 * i] == a[i] && flat[4 * i + 1] == b[i] && flat[
        4 * i + 2
    ] == c[i] && flat[4 * i + 3] == d[i] by {
        assert((4 * i) % 4 == 0 && (4 * i) / 4 == i) by (nonlinear_arith);
        assert((4 * i + 1) % 4 == 1 && (4 * i + 1) / 4 == i) by (nonlinear_arith);
        assert((4 * i + 2) % 4 == 2 && (4 * i + 2) / 4 == i) by (nonlinear_arith);
        assert((4 * i + 3) % 4 == 3 && (4 * i + 3) / 4 == i) by (nonlinear_arith);
    }
    assert(channel_slice(flat, 4, 0, n) =~= a);
    assert(channel_slice(flat, 4, 1, n) =~= b);
    assert(channel_slice(flat, 4, 2, n) =~= c);
    assert(channel_slice(flat, 4, 3, n) =~= d);
}

/// A sequence of `n` samples is its own single-channel interleaving.
pub proof fn lemma_round_trip1<T>(n: nat, a: Seq<T>)
    requires
        a.len() == n,
    ensures
        channel_slice(a, 1, 0, n) == a,
{
    assert(channel_slice(a, 1, 0, n) =~= a);
}

/// Weaving the per-channel strides of a two-channel flat sequence back
/// together reproduces the flat sequence exactly.
pub proof fn lemma_reassemble2<T>(n: nat, flat: Seq<T>)
    requires
        flat.len() == 2 * n,
    ensures
        interleave2(n, channel_slice(flat, 2, 0, n), channel_slice(flat, 2, 1, n)) == flat,
{
    let woven = interleave2(n, channel_slice(flat, 2, 0, n), channel_slice(flat, 2, 1, n));
    assert forall|j: int| 0 <= j < 2 * n implies woven[j] == flat[j] by {
        vstd::arithmetic::div_mod::lemma_fundamental_div_mod(j, 2);
        assert(0 <= j / 2 < n) by (nonlinear_arith)
            requires
                0 <= j < 2 * n,
                j == 2 * (j / 2) + j % 2,
                0 <= j % 2 < 2,
        ;
    }
    assert(woven =~= flat);
}

/// Weaving the per-channel strides of a three-channel flat sequence
/// back together reproduces the flat sequence exactly.
pub proof fn lemma_reassemble3<T>(n: nat, flat: Seq<T>)
    requires
        flat.len() == 3 * n,
    ensures
        interleave3(
            n,
            channel_slice(flat, 3, 0, n),
            channel_slice(flat, 3, 1, n),
            channel_slice(flat, 3, 2, n),
        ) == flat,
{
    let woven = interleave3(
        n,
        channel_slice(flat, 3, 0, n),
        channel_slice(flat, 3, 1, n),
        channel_slice(flat, 3, 2, n),
    );
    assert forall|j: int| 0 <= j < 3 * n implies woven[j] == flat[j] by {
        vstd::arithmetic::div_mod::lemma_fundamental_div_mod(j, 3);
        assert(0 <= j / 3 < n) by (nonlinear_arith)
            requires
                0 <= j < 3 * n,
                j == 3 * (j / 3) + j % 3,
                0 <= j % 3 < 3,
        ;
    }
    assert(woven =~= flat);
}

/// Weaving the per-channel strides of a four-channel flat sequence back
/// together reproduces the flat sequence exactly.
pub proof fn lemma_reassemble4<T>(n: nat, flat: Seq<T>)
    requires
        flat.len() == 4 * n,
    ensures
        interleave4(
            n,
            channel_slice(flat, 4, 0, n),
            channel_slice(flat, 4, 1, n),
            channel_slice(flat, 4, 2, n),
            channel_slice(flat, 4, 3, n),
        ) == flat,
{
    let woven = interleave4(
        n,
        channel_slice(flat, 4, 0, n),
        channel_slice(flat, 4, 1, n),
        channel_slice(flat, 4, 2, n),
        channel_slice(flat, 4, 3, n),
    );
    assert forall|j: int| 0 <= j < 4 * n implies woven[j] == flat[j] by {
        vstd::arithmetic::div_mod::lemma_fundamental_div_mod(j, 4);
        assert(0 <= j / 4 < n) by (nonlinear_arith)
            requires
                0 <= j < 4 * n,
                j == 4 * (j / 4) + j % 4,
                0 <= j % 4 < 4,
        ;
    }
    assert(woven =~= flat);
}

} // verus!
