//! Drift detection: the checksum of a file tree and the comparison of
//! checksum manifests.

use vstd::prelude::*;

verus! {

/// The SHA-256 digest of `data`, as 64 lower-case hex digits.
pub uninterp spec fn sha256_hex_of(data: Seq<u8>) -> Seq<u8>;

/// Relies on sha2::Sha256::digest, written with `{:x}`: the lower-case hex
/// form of the digest of `data`, which depends on `data` alone.
#[verifier::external_body]
fn sha256_hex(data: &[u8]) -> (r: Vec<u8>)
    ensures
        r@ == sha256_hex_of(data@),
{
    format!("{:x}", <sha2::Sha256 as sha2::Digest>::digest(data)).into_bytes()
}

/// A file of a tree: its path, by which files are ordered, and its contents.
#[derive(Debug)]
pub struct FileContent {
    pub path: Vec<u8>,
    pub content: Vec<u8>,
}

/// Byte-wise lexicographic order.
pub open spec fn bytes_lt(a: Seq<u8>, b: Seq<u8>) -> bool
    decreases a.len(),
{
    if a.len() == 0 {
        b.len() > 0
    } else if b.len() == 0 {
        false
    } else if a[0] != b[0] {
        a[0] < b[0]
    } else {
        bytes_lt(a.subrange(1, a.len() as int), b.subrange(1, b.len() as int))
    }
}

/// `order` with index `i` inserted before the first index whose path is
/// greater than that of `i`.
pub open spec fn insert_by_path(order: Seq<int>, i: int, paths: Seq<Seq<u8>>) -> Seq<int>
    decreases order.len(),
{
    if order.len() == 0 {
        seq![i]
    } else if bytes_lt(paths[i], paths[order[0]]) {
        seq![i] + order
    } else {
        seq![order[0]] + insert_by_path(order.subrange(1, order.len() as int), i, paths)
    }
}

/// The indices of the first `k` paths, ordered by path; equal paths keep their
/// order.
pub open spec fn path_order(paths: Seq<Seq<u8>>, k: nat) -> Seq<int>
    decreases k,
{
    if k == 0 {
        seq![]
    } else {
        insert_by_path(path_order(paths, (k - 1) as nat), k - 1, paths)
    }
}

/// The digests of the files, one per line, each line ended by a newline; a
/// lone newline when there is no file.
pub open spec fn digest_lines(digests: Seq<Seq<u8>>) -> Seq<u8>
    decreases digests.len(),
{
    if digests.len() == 0 {
        seq![10u8]
    } else if digests.len() == 1 {
        digests[0] + seq![10u8]
    } else {
        digest_lines(digests.drop_last()) + digests.last() + seq![10u8]
    }
}

/// The paths of `files`.
pub open spec fn paths_of(files: Seq<FileContent>) -> Seq<Seq<u8>> {
    files.map_values(|f: FileContent| f.path@)
}

/// The checksum of a tree: the digest of the lines that hold the digests of its
/// files, taken in path order.
pub open spec fn tree_checksum(files: Seq<FileContent>) -> Seq<u8> {
    let order = path_order(paths_of(files), files.len());
    sha256_hex_of(digest_lines(order.map_values(|i: int| sha256_hex_of(files[i].content@))))
}

/// Whether `a` comes before `b` byte-wise.
pub fn path_before(a: &Vec<u8>, b: &Vec<u8>) -> (r: bool)
    ensures
        r == bytes_lt(a@, b@),
{
    let mut i: usize = 0;
    proof {
        assert(a@.subrange(0, a@.len() as int) =~= a@);
        assert(b@.subrange(0, b@.len() as int) =~= b@);
    }
    while i < a.len() && i < b.len() && a[i] == b[i]
        invariant
            i <= a@.len(),
            i <= b@.len(),
            bytes_lt(a@, b@) == bytes_lt(a@.subrange(i as int, a@.len() as int), b@.subrange(i as int, b@.len() as int)),
        decreases a@.len() - i,
    {
        proof {
            let x = a@.subrange(i as int, a@.len() as int);
            let y = b@.subrange(i as int, b@.len() as int);
            assert(x.subrange(1, x.len() as int) =~= a@.subrange(i + 1, a@.len() as int));
            assert(y.subrange(1, y.len() as int) =~= b@.subrange(i + 1, b@.len() as int));
        }
        i = i + 1;
    }
    proof {
        assert(a@.subrange(0, a@.len() as int) =~= a@);
        assert(b@.subrange(0, b@.len() as int) =~= b@);
    }
    if i == a.len() {
        i < b.len()
    } else if i == b.len() {
        false
    } else {
        a[i] < b[i]
    }
}

proof fn lemma_insert_at(order: Seq<int>, i: int, paths: Seq<Seq<u8>>, j: int)
    requires
        0 <= j <= order.len(),
        forall|k: int| 0 <= k < j ==> !bytes_lt(paths[i], paths[#[trigger] order[k]]),
        j < order.len() ==> bytes_lt(paths[i], paths[order[j]]),
    ensures
        insert_by_path(order, i, paths) == order.insert(j, i),
    decreases order.len(),
{
    if order.len() > 0 {
        if j == 0 {
            assert(seq![i] + order =~= order.insert(0, i));
        } else {
            let rest = order.subrange(1, order.len() as int);
            assert forall|k: int| 0 <= k < j - 1 implies !bytes_lt(paths[i], paths[#[trigger] rest[k]]) by {
                assert(rest[k] == order[k + 1]);
            }
            if j - 1 < rest.len() {
                assert(rest[j - 1] == order[j]);
            }
            lemma_insert_at(rest, i, paths, j - 1);
            assert(seq![order[0]] + rest.insert(j - 1, i) =~= order.insert(j, i));
        }
    } else {
        assert(seq![i] =~= order.insert(0, i));
    }
}

proof fn lemma_order_in_range(paths: Seq<Seq<u8>>, k: nat)
    ensures
        path_order(paths, k).len() == k,
        forall|m: int| 0 <= m < k ==> 0 <= #[trigger] path_order(paths, k)[m] < k,
    decreases k,
{
    if k > 0 {
        lemma_order_in_range(paths, (k - 1) as nat);
        let prev = path_order(paths, (k - 1) as nat);
        lemma_insert_len(prev, k - 1, paths);
    }
}

proof fn lemma_insert_len(order: Seq<int>, i: int, paths: Seq<Seq<u8>>)
    ensures
        insert_by_path(order, i, paths).len() == order.len() + 1,
        forall|m: int| 0 <= m < order.len() + 1 ==> #[trigger] insert_by_path(order, i, paths)[m] == i
            || order.contains(insert_by_path(order, i, paths)[m]),
    decreases order.len(),
{
    if order.len() > 0 {
        let rest = order.subrange(1, order.len() as int);
        lemma_insert_len(rest, i, paths);
        let r = insert_by_path(order, i, paths);
        assert forall|m: int| 0 <= m < order.len() + 1 implies #[trigger] r[m] == i || order.contains(r[m]) by {
            if !bytes_lt(paths[i], paths[order[0]]) {
                if m > 0 {
                    let x = insert_by_path(rest, i, paths)[m - 1];
                    assert(r[m] == x);
                    if x != i {
                        let t = choose|t: int| 0 <= t < rest.len() && rest[t] == x;
                        assert(order[t + 1] == x);
                    }
                } else {
                    assert(order[0] == r[0]);
                }
            } else {
                if m > 0 {
                    assert(r[m] == order[m - 1]);
                }
            }
        }
    }
}

/// The checksum of a file tree: the files are put in path order, each is
/// digested, and the lines of their digests are digested in turn.
pub fn create_shasum(files: &Vec<FileContent>) -> (r: Vec<u8>)
    ensures
        r@ == tree_checksum(files@),
{
    let n = files.len();
    let ghost paths = paths_of(files@);
    let mut order: Vec<usize> = Vec::new();
    let mut i: usize = 0;
    proof {
        assert(order@.map_values(|x: usize| x as int) =~= path_order(paths, 0));
    }
    while i < n
        invariant
            n == files@.len(),
            paths == paths_of(files@),
            i <= n,
            order@.map_values(|x: usize| x as int) == path_order(paths, i as nat),
        decreases n - i,
    {
        proof {
            lemma_order_in_range(paths, i as nat);
        }
        let ghost o = order@.map_values(|x: usize| x as int);
        proof {
            assert forall|m: int| 0 <= m < order@.len() implies #[trigger] order@[m] < n by {
                assert(o[m] == order@[m] as int);
            }
        }
        let mut j: usize = 0;
        while j < order.len() && !path_before(&files[i].path, &files[order[j]].path)
            invariant
                n == files@.len(),
                paths == paths_of(files@),
                i < n,
                o == order@.map_values(|x: usize| x as int),
                o.len() == i,
                forall|m: int| 0 <= m < i ==> 0 <= #[trigger] o[m] < i,
                forall|m: int| 0 <= m < order@.len() ==> #[trigger] order@[m] < n,
                j <= order@.len(),
                forall|k: int| 0 <= k < j ==> !bytes_lt(paths[i as int], paths[#[trigger] o[k]]),
            decreases order@.len() - j,
        {
            proof {
                assert(o[j as int] == order@[j as int] as int);
                assert(paths[o[j as int]] == files@[order@[j as int] as int].path@);
                assert(paths[i as int] == files@[i as int].path@);
            }
            j = j + 1;
        }
        proof {
            if j < order@.len() {
                assert(o[j as int] == order@[j as int] as int);
                assert(paths[o[j as int]] == files@[order@[j as int] as int].path@);
                assert(paths[i as int] == files@[i as int].path@);
            }
            lemma_insert_at(o, i as int, paths, j as int);
        }
        order.insert(j, i);
        proof {
            assert(order@.map_values(|x: usize| x as int) =~= o.insert(j as int, i as int));
        }
        i = i + 1;
    }
    proof {
        lemma_order_in_range(paths, n as nat);
    }
    let ghost ord = path_order(paths, n as nat);
    let ghost digests = ord.map_values(|k: int| sha256_hex_of(files@[k].content@));
    let mut lines: Vec<u8> = Vec::new();
    let mut k: usize = 0;
    while k < order.len()
        invariant
            n == files@.len(),
            ord == order@.map_values(|x: usize| x as int),
            ord.len() == n,
            forall|m: int| 0 <= m < n ==> 0 <= #[trigger] ord[m] < n,
            digests == ord.map_values(|k: int| sha256_hex_of(files@[k].content@)),
            k <= n,
            k > 0 ==> lines@ == digest_lines(digests.subrange(0, k as int)),
            k == 0 ==> lines@.len() == 0,
        decreases n - k,
    {
        assert(ord[k as int] == order@[k as int] as int);
        let mut h = sha256_hex(files[order[k]].content.as_slice());
        let ghost before = lines@;
        lines.append(&mut h);
        lines.push(10u8);
        proof {
            let d = digests.subrange(0, k + 1);
            assert(d.drop_last() =~= digests.subrange(0, k as int));
            assert(d.last() == digests[k as int]);
            if k == 0 {
                assert(lines@ =~= d[0] + seq![10u8]);
            } else {
                assert(lines@ =~= before + d.last() + seq![10u8]);
            }
        }
        k = k + 1;
    }
    if n == 0 {
        lines.push(10u8);
        proof {
            assert(digests.len() == 0);
            assert(lines@ =~= seq![10u8]);
        }
    } else {
        proof {
            assert(digests.subrange(0, n as int) =~= digests);
        }
    }
    sha256_hex(lines.as_slice())
}

/// ASCII whitespace, as a byte.
pub open spec fn is_space_byte(b: u8) -> bool {
    b == 32 || b == 9 || b == 10 || b == 13
}

/// `s` without leading and trailing whitespace bytes.
pub open spec fn trimmed_bytes(s: Seq<u8>) -> Seq<u8>
    decreases s.len(),
{
    if s.len() > 0 && is_space_byte(s[0]) {
        trimmed_bytes(s.subrange(1, s.len() as int))
    } else if s.len() > 0 && is_space_byte(s.last()) {
        trimmed_bytes(s.drop_last())
    } else {
        s
    }
}

/// A checksum manifest: one line `<dir> <checksum>` per tracked directory,
/// lines separated by newlines.
pub open spec fn manifest_of(entries: Seq<(Seq<u8>, Seq<u8>)>) -> Seq<u8>
    decreases entries.len(),
{
    if entries.len() == 0 {
        seq![]
    } else if entries.len() == 1 {
        entries[0].0 + seq![32u8] + entries[0].1
    } else {
        manifest_of(entries.drop_last()) + seq![10u8] + entries.last().0 + seq![32u8] + entries.last().1
    }
}

proof fn lemma_trim_step(s: Seq<u8>, a: int, b: int)
    requires
        0 <= a < b <= s.len(),
        is_space_byte(s[a]) || is_space_byte(s[b - 1]),
    ensures
        trimmed_bytes(s.subrange(a, b)) == if is_space_byte(s[a]) {
            trimmed_bytes(s.subrange(a + 1, b))
        } else {
            trimmed_bytes(s.subrange(a, b - 1))
        },
{
    let t = s.subrange(a, b);
    assert(t[0] == s[a]);
    assert(t.last() == s[b - 1]);
    assert(t.subrange(1, t.len() as int) =~= s.subrange(a + 1, b));
    assert(t.drop_last() =~= s.subrange(a, b - 1));
}

/// The bounds of `s` once leading and trailing whitespace are removed.
fn trim_byte_bounds(s: &Vec<u8>) -> (r: (usize, usize))
    ensures
        r.0 <= r.1 <= s@.len(),
        s@.subrange(r.0 as int, r.1 as int) == trimmed_bytes(s@),
{
    let mut a: usize = 0;
    let mut b: usize = s.len();
    proof {
        assert(s@.subrange(0, s@.len() as int) =~= s@);
    }
    while a < b && (s[a] == 32 || s[a] == 9 || s[a] == 10 || s[a] == 13 || s[b - 1] == 32 || s[b - 1] == 9
        || s[b - 1] == 10 || s[b - 1] == 13)
        invariant
            a <= b <= s@.len(),
            trimmed_bytes(s@.subrange(a as int, b as int)) == trimmed_bytes(s@),
        decreases b - a,
    {
        proof {
            lemma_trim_step(s@, a as int, b as int);
        }
        if s[a] == 32 || s[a] == 9 || s[a] == 10 || s[a] == 13 {
            a = a + 1;
        } else {
            b = b - 1;
        }
    }
    proof {
        let t = s@.subrange(a as int, b as int);
        if t.len() > 0 {
            assert(t[0] == s@[a as int]);
            assert(t.last() == s@[b - 1]);
        }
    }
    (a, b)
}

/// Whether two manifests agree byte for byte once trimmed.
pub fn manifests_match(a: &Vec<u8>, b: &Vec<u8>) -> (r: bool)
    ensures
        r == (trimmed_bytes(a@) == trimmed_bytes(b@)),
{
    let (a0, a1) = trim_byte_bounds(a);
    let (b0, b1) = trim_byte_bounds(b);
    if a1 - a0 != b1 - b0 {
        assert(trimmed_bytes(a@).len() != trimmed_bytes(b@).len());
        return false;
    }
    let mut k: usize = 0;
    while k < a1 - a0
        invariant
            a0 <= a1 <= a@.len(),
            b0 <= b1 <= b@.len(),
            a1 - a0 == b1 - b0,
            a@.subrange(a0 as int, a1 as int) == trimmed_bytes(a@),
            b@.subrange(b0 as int, b1 as int) == trimmed_bytes(b@),
            k <= a1 - a0,
            forall|m: int| 0 <= m < k ==> #[trigger] a@.subrange(a0 as int, a1 as int)[m] == b@.subrange(b0 as int, b1 as int)[m],
        decreases a1 - a0 - k,
    {
        if a[a0 + k] != b[b0 + k] {
            assert(a@.subrange(a0 as int, a1 as int)[k as int] != b@.subrange(b0 as int, b1 as int)[k as int]);
            assert(trimmed_bytes(a@)[k as int] != trimmed_bytes(b@)[k as int]);
            return false;
        }
        k = k + 1;
    }
    assert(a@.subrange(a0 as int, a1 as int) =~= b@.subrange(b0 as int, b1 as int));
    true
}

/// The manifest of `entries`, each a directory name and its checksum.
pub fn build_manifest(entries: &Vec<(Vec<u8>, Vec<u8>)>) -> (r: Vec<u8>)
    ensures
        r@ == manifest_of(entries@.map_values(|e: (Vec<u8>, Vec<u8>)| (e.0@, e.1@))),
{
    let ghost es = entries@.map_values(|e: (Vec<u8>, Vec<u8>)| (e.0@, e.1@));
    let mut out: Vec<u8> = Vec::new();
    let mut i: usize = 0;
    while i < entries.len()
        invariant
            es == entries@.map_values(|e: (Vec<u8>, Vec<u8>)| (e.0@, e.1@)),
            i <= entries@.len(),
            out@ == manifest_of(es.subrange(0, i as int)),
        decreases entries@.len() - i,
    {
        let ghost before = out@;
        if i > 0 {
            out.push(10u8);
        }
        let mut k: usize = 0;
        let ghost mid = out@;
        while k < entries[i].0.len()
            invariant
                i < entries@.len(),
                k <= entries@[i as int].0@.len(),
                out@ == mid + entries@[i as int].0@.subrange(0, k as int),
            decreases entries@[i as int].0@.len() - k,
        {
            out.push(entries[i].0[k]);
            k = k + 1;
            assert(out@ =~= mid + entries@[i as int].0@.subrange(0, k as int));
        }
        out.push(32u8);
        let mut k: usize = 0;
        let ghost mid2 = out@;
        while k < entries[i].1.len()
            invariant
                i < entries@.len(),
                k <= entries@[i as int].1@.len(),
                out@ == mid2 + entries@[i as int].1@.subrange(0, k as int),
            decreases entries@[i as int].1@.len() - k,
        {
            out.push(entries[i].1[k]);
            k = k + 1;
            assert(out@ =~= mid2 + entries@[i as int].1@.subrange(0, k as int));
        }
        proof {
            let e = es.subrange(0, i + 1);
            assert(e.drop_last() =~= es.subrange(0, i as int));
            assert(e.last() == (entries@[i as int].0@, entries@[i as int].1@));
            assert(entries@[i as int].0@.subrange(0, entries@[i as int].0@.len() as int) =~= entries@[i as int].0@);
            assert(entries@[i as int].1@.subrange(0, entries@[i as int].1@.len() as int) =~= entries@[i as int].1@);
            if i == 0 {
                assert(out@ =~= e[0].0 + seq![32u8] + e[0].1);
            } else {
                assert(out@ =~= before + seq![10u8] + e.last().0 + seq![32u8] + e.last().1);
            }
        }
        i = i + 1;
    }
    proof {
        assert(es.subrange(0, i as int) =~= es);
    }
    out
}

} // verus!
