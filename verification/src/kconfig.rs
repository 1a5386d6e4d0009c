//! Kernel-configuration probe: decides from a gzip-compressed config image
//! whether the kernel was built with the extensible scheduling class. The
//! binary only reads the file; decompression runs through one trusted
//! wrapper, and the search for the flag is verified.

use std::io::Read;

use vstd::prelude::*;

verus! {

/// What decompressing a gzip stream yields, as a function of the bytes
/// alone; `None` when the stream is malformed.
pub uninterp spec fn gunzip_of(data: Seq<u8>) -> Option<Seq<u8>>;

/// Relies on flate2's `read::GzDecoder`: decompresses an in-memory gzip
/// stream; the result depends on the input bytes alone, and a malformed
/// stream reports an error.
#[verifier::external_body]
fn gunzip(data: &[u8]) -> (r: Option<Vec<u8>>)
    ensures
        r is Some <==> gunzip_of(data@) is Some,
        r is Some ==> r.unwrap()@ == gunzip_of(data@).unwrap(),
{
    let mut decoder = flate2::read::GzDecoder::new(data);
    let mut out = Vec::new();
    match decoder.read_to_end(&mut out) {
        Ok(_) => Some(out),
        Err(_) => None,
    }
}

/// The needle occurs in the haystack starting at position `i`.
pub open spec fn spec_contains_at(haystack: Seq<u8>, needle: Seq<u8>, i: int) -> bool {
    0 <= i && i + needle.len() <= haystack.len() && forall|j: int|
        0 <= j < needle.len() ==> haystack[i + j] == needle[j]
}

/// The needle occurs somewhere in the haystack.
pub open spec fn spec_contains(haystack: Seq<u8>, needle: Seq<u8>) -> bool {
    exists|i: int| spec_contains_at(haystack, needle, i)
}

fn matches_at(haystack: &[u8], needle: &[u8], i: usize) -> (r: bool)
    requires
        i + needle@.len() <= haystack@.len(),
    ensures
        r == spec_contains_at(haystack@, needle@, i as int),
{
    let nl = needle.len();
    let hl = haystack.len();
    let mut j: usize = 0;
    while j < nl
        invariant
            nl == needle@.len(),
            hl == haystack@.len(),
            i + nl <= hl,
            j <= nl,
            forall|k: int| 0 <= k < j ==> haystack@[i + k] == needle@[k],
        decreases nl - j,
    {
        if haystack[i + j] != needle[j] {
            return false;
        }
        j = j + 1;
    }
    true
}

/// Byte-level substring search.
pub fn contains_bytes(haystack: &[u8], needle: &[u8]) -> (r: bool)
    ensures
        r == spec_contains(haystack@, needle@),
{
    let hl = haystack.len();
    let nl = needle.len();
    if nl > hl {
        proof {
            assert forall|i: int| !spec_contains_at(haystack@, needle@, i) by {}
        }
        return false;
    }
    let mut i: usize = 0;
    while i <= hl - nl
        invariant
            hl == haystack@.len(),
            nl == needle@.len(),
            nl <= hl,
            i <= hl - nl + 1,
            forall|k: int| 0 <= k < i ==> !spec_contains_at(haystack@, needle@, k),
        decreases hl - nl + 1 - i,
    {
        if matches_at(haystack, needle, i) {
            return true;
        }
        i = i + 1;
    }
    proof {
        assert forall|k: int| !spec_contains_at(haystack@, needle@, k) by {
            if 0 <= k <= hl - nl {
                assert(!spec_contains_at(haystack@, needle@, k));
            }
        }
    }
    false
}

/// The configuration line that marks a kernel built with the extensible
/// scheduling class, as its ASCII bytes: `CONFIG_SCHED_CLASS_EXT=y`.
pub open spec fn spec_sched_ext_flag() -> Seq<u8> {
    seq![
        67u8, 79u8, 78u8, 70u8, 73u8, 71u8, 95u8, 83u8, 67u8, 72u8, 69u8, 68u8, 95u8, 67u8, 76u8,
        65u8, 83u8, 83u8, 95u8, 69u8, 88u8, 84u8, 61u8, 121u8,
    ]
}

fn sched_ext_flag() -> (r: Vec<u8>)
    ensures
        r@ == spec_sched_ext_flag(),
{
    let mut v: Vec<u8> = Vec::new();
    v.push(67);
    v.push(79);
    v.push(78);
    v.push(70);
    v.push(73);
    v.push(71);
    v.push(95);
    v.push(83);
    v.push(67);
    v.push(72);
    v.push(69);
    v.push(68);
    v.push(95);
    v.push(67);
    v.push(76);
    v.push(65);
    v.push(83);
    v.push(83);
    v.push(95);
    v.push(69);
    v.push(88);
    v.push(84);
    v.push(61);
    v.push(121);
    proof {
        assert(v@ =~= spec_sched_ext_flag());
    }
    v
}

/// Decides from a gzip-compressed kernel configuration whether the
/// extensible scheduling class is available: `None` when the stream cannot
/// be decompressed, otherwise whether the flag line occurs in the
/// decompressed text.
pub fn kernel_config_has_sched_ext(gz_data: &[u8]) -> (r: Option<bool>)
    ensures
        r is Some <==> gunzip_of(gz_data@) is Some,
        r is Some ==> r.unwrap() == spec_contains(
            gunzip_of(gz_data@).unwrap(),
            spec_sched_ext_flag(),
        ),
{
    match gunzip(gz_data) {
        None => None,
        Some(config) => {
            let flag = sched_ext_flag();
            Some(contains_bytes(config.as_slice(), flag.as_slice()))
        },
    }
}

} // verus!
