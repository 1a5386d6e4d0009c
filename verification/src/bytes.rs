//! Little-endian byte codec for the records exchanged with the engine:
//! counter snapshots, knob records, latency samples and fixed-width name
//! keys all cross the boundary as raw little-endian bytes.

use vstd::prelude::*;

verus! {

/// Value of the `n` bytes at `off`, read little-endian.
pub open spec fn spec_le_value(s: Seq<u8>, off: int, n: nat) -> int
    decreases n,
{
    if n == 0 {
        0
    } else {
        s[off] + 256 * spec_le_value(s, off + 1, (n - 1) as nat)
    }
}

pub open spec fn spec_pow256(n: nat) -> int
    decreases n,
{
    if n == 0 {
        1
    } else {
        256 * spec_pow256((n - 1) as nat)
    }
}

pub proof fn lemma_pow256_values()
    ensures
        spec_pow256(0) == 1,
        spec_pow256(1) == 0x100,
        spec_pow256(2) == 0x1_0000,
        spec_pow256(3) == 0x100_0000,
        spec_pow256(4) == 0x1_0000_0000,
        spec_pow256(5) == 0x100_0000_0000,
        spec_pow256(6) == 0x1_0000_0000_0000,
        spec_pow256(7) == 0x100_0000_0000_0000,
        spec_pow256(8) == 0x1_0000_0000_0000_0000,
{
    reveal_with_fuel(spec_pow256, 9);
}

pub proof fn lemma_pow256_mono(a: nat, b: nat)
    requires
        a <= b,
    ensures
        0 < spec_pow256(a) <= spec_pow256(b),
    decreases b,
{
    if b > 0 {
        if a == b {
            lemma_pow256_mono((a - 1) as nat, (b - 1) as nat);
        } else {
            lemma_pow256_mono(a, (b - 1) as nat);
        }
    }
}

/// A little-endian value of `n` bytes is bounded by `256^n`.
pub proof fn lemma_le_value_bound(s: Seq<u8>, off: int, n: nat)
    requires
        0 <= off,
        off + n <= s.len(),
    ensures
        0 <= spec_le_value(s, off, n) < spec_pow256(n),
    decreases n,
{
    if n > 0 {
        lemma_le_value_bound(s, off + 1, (n - 1) as nat);
    }
}

/// The value only depends on the bytes of its window.
pub proof fn lemma_le_value_stable(s1: Seq<u8>, s2: Seq<u8>, off: int, n: nat)
    requires
        forall|j: int| off <= j < off + n ==> s1[j] == s2[j],
    ensures
        spec_le_value(s1, off, n) == spec_le_value(s2, off, n),
    decreases n,
{
    if n > 0 {
        lemma_le_value_stable(s1, s2, off + 1, (n - 1) as nat);
    }
}

/// Splitting the window: the low `m` bytes plus the high `n` bytes shifted by
/// `256^m`.
pub proof fn lemma_le_value_split(s: Seq<u8>, off: int, m: nat, n: nat)
    ensures
        spec_le_value(s, off, m + n) == spec_le_value(s, off, m) + spec_pow256(m) * spec_le_value(
            s,
            off + m,
            n,
        ),
    decreases m,
{
    if m == 0 {
    } else {
        lemma_le_value_split(s, off + 1, (m - 1) as nat, n);
        assert(256 * (spec_le_value(s, off + 1, (m - 1) as nat) + spec_pow256((m - 1) as nat)
            * spec_le_value(s, off + m, n)) == 256 * spec_le_value(s, off + 1, (m - 1) as nat)
            + 256 * (spec_pow256((m - 1) as nat) * spec_le_value(s, off + m, n)))
            by (nonlinear_arith);
        assert(256 * (spec_pow256((m - 1) as nat) * spec_le_value(s, off + m, n)) == (256
            * spec_pow256((m - 1) as nat)) * spec_le_value(s, off + m, n)) by (nonlinear_arith);
    }
}

/// Appending one byte extends the value at the high end.
pub proof fn lemma_le_value_snoc(s: Seq<u8>, off: int, n: nat)
    ensures
        spec_le_value(s, off, n + 1) == spec_le_value(s, off, n) + spec_pow256(n) * s[off + n],
    decreases n,
{
    lemma_le_value_split(s, off, n, 1);
    reveal_with_fuel(spec_le_value, 2);
    assert(spec_le_value(s, off + n, 1) == s[off + n]);
}

/// Reads the `n`-byte little-endian value at `off` (up to eight bytes).
pub fn le_value_at(data: &[u8], off: usize, n: usize) -> (v: u64)
    requires
        n <= 8,
        off + n <= data@.len(),
    ensures
        v as int == spec_le_value(data@, off as int, n as nat),
{
    proof {
        lemma_pow256_values();
    }
    let len = data.len();
    let mut acc: u64 = 0;
    let mut k: usize = n;
    while k > 0
        invariant
            n <= 8,
            off + n <= data@.len(),
            len == data@.len(),
            k <= n,
            acc as int == spec_le_value(data@, off + k, (n - k) as nat),
            acc < spec_pow256((n - k) as nat),
            spec_pow256(8) == 0x1_0000_0000_0000_0000,
        decreases k,
    {
        proof {
            lemma_pow256_mono((n - k + 1) as nat, 8);
        }
        k = k - 1;
        let b = data[off + k];
        acc = acc * 256 + b as u64;
    }
    acc
}

/// Appends the little-endian encoding of `v` in `n` bytes (the value must
/// fit).
pub fn push_le_value(out: &mut Vec<u8>, v: u64, n: usize)
    requires
        n <= 8,
        (v as int) < spec_pow256(n as nat),
    ensures
        final(out)@.len() == old(out)@.len() + n,
        forall|j: int| 0 <= j < old(out)@.len() ==> final(out)@[j] == old(out)@[j],
        spec_le_value(final(out)@, old(out)@.len() as int, n as nat) == v as int,
{
    let base = out.len();
    let mut x = v;
    let mut j: usize = 0;
    while j < n
        invariant
            n <= 8,
            j <= n,
            out@.len() == base + j,
            base == old(out)@.len(),
            forall|i: int| 0 <= i < base ==> out@[i] == old(out)@[i],
            spec_le_value(out@, base as int, j as nat) + spec_pow256(j as nat) * x == v as int,
            x as int == v as int / spec_pow256(j as nat),
        decreases n - j,
    {
        let ghost pre = out@;
        let b = (x % 256) as u8;
        out.push(b);
        proof {
            lemma_le_value_stable(pre, out@, base as int, j as nat);
            lemma_le_value_snoc(out@, base as int, j as nat);
            lemma_pow256_mono(0, j as nat);
            vstd::arithmetic::div_mod::lemma_fundamental_div_mod(x as int, 256);
            assert(spec_pow256(j as nat) * ((x as int) % 256 + 256 * ((x as int) / 256))
                == spec_pow256(j as nat) * ((x as int) % 256) + (256 * spec_pow256(j as nat)) * ((
            x as int) / 256)) by (nonlinear_arith);
            assert(spec_pow256(j as nat) * (out@[base + j] as int) == spec_pow256(j as nat) * ((
            x as int) % 256));
            vstd::arithmetic::div_mod::lemma_div_denominator(
                v as int,
                spec_pow256(j as nat),
                256,
            );
            lemma_pow256_mono(0, j as nat);
        }
        x = x / 256;
        j = j + 1;
    }
    proof {
        lemma_pow256_mono(0, n as nat);
        vstd::arithmetic::div_mod::lemma_basic_div(v as int, spec_pow256(n as nat));
        assert(x == 0);
    }
}

/// The fixed-width name key: the first sixteen bytes of a process name,
/// zero-padded, read as one little-endian value. Exactly the truncation the
/// engine applies on its side of the tables.
pub open spec fn spec_name_key(s: Seq<u8>) -> int {
    spec_le_value(Seq::new(16, |i: int| if i < s.len() {
        s[i]
    } else {
        0u8
    }), 0, 16)
}

#[verifier::loop_isolation(false)]
pub fn name_key(name: &[u8]) -> (k: u128)
    ensures
        k as int == spec_name_key(name@),
{
    let ghost padded = Seq::new(16, |i: int| if i < name@.len() {
        name@[i]
    } else {
        0u8
    });
    let mut buf: Vec<u8> = Vec::new();
    let mut i: usize = 0;
    while i < 16
        invariant
            i <= 16,
            buf@.len() == i,
            forall|j: int| 0 <= j < i ==> buf@[j] == padded[j],
        decreases 16 - i,
    {
        if i < name.len() {
            buf.push(name[i]);
        } else {
            buf.push(0);
        }
        i = i + 1;
    }
    proof {
        assert(buf@ =~= padded);
        lemma_le_value_split(padded, 0, 8, 8);
        lemma_le_value_bound(padded, 0, 8);
        lemma_le_value_bound(padded, 8, 8);
        lemma_pow256_values();
    }
    let lo = le_value_at(buf.as_slice(), 0, 8);
    let hi = le_value_at(buf.as_slice(), 8, 8);
    (lo as u128) + (hi as u128) * 0x1_0000_0000_0000_0000
}

} // verus!
