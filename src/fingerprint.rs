//! Fingerprints: 32-bit values that identify a file or an ordered set of files.

use vstd::prelude::*;

verus! {

/// The CRC-32 checksum of a byte sequence.
pub uninterp spec fn crc32_of(data: Seq<u8>) -> u32;

/// Relies on `crc32fast::hash`: the CRC-32 of the buffer, which depends on its bytes alone.
#[verifier::external_body]
pub(crate) fn crc32(data: &[u8]) -> (r: u32)
    ensures
        r == crc32_of(data@),
{
    crc32fast::hash(data)
}

/// The bytes that one file contributes to a file set: its content, or a single
/// zero byte when it could not be read.
pub open spec fn file_contribution(content: Option<Seq<u8>>) -> Seq<u8> {
    match content {
        Some(bytes) => bytes,
        None => seq![0u8],
    }
}

/// The buffer hashed for an ordered file set: the contributions of the files, in order.
pub open spec fn fileset_bytes(files: Seq<Option<Seq<u8>>>) -> Seq<u8>
    decreases files.len(),
{
    if files.len() == 0 {
        Seq::empty()
    } else {
        fileset_bytes(files.drop_last()) + file_contribution(files.last())
    }
}

/// What was read of each file, as plain byte sequences.
pub open spec fn contents_view(files: Seq<Option<Vec<u8>>>) -> Seq<Option<Seq<u8>>> {
    files.map_values(|c: Option<Vec<u8>>|
        match c {
            Some(v) => Some(v@),
            None => None,
        }
    )
}

/// The fingerprint of an ordered file set.
pub open spec fn fileset_fingerprint(files: Seq<Option<Seq<u8>>>) -> u32 {
    crc32_of(fileset_bytes(files))
}

/// Fingerprints an ordered list of files from what was read of each one
/// (`None` for a file that could not be read).
pub fn checksum_for_files(files: Vec<Option<Vec<u8>>>) -> (r: u32)
    ensures
        r == fileset_fingerprint(contents_view(files@)),
{
    let mut data: Vec<u8> = Vec::new();
    let n = files.len();
    let mut i: usize = 0;
    while i < n
        invariant
            n == files@.len(),
            i <= n,
            data@ == fileset_bytes(contents_view(files@).take(i as int)),
        decreases n - i,
    {
        let ghost prefix = contents_view(files@).take(i as int);
        let ghost next = contents_view(files@).take(i + 1);
        assert(next.drop_last() == prefix);
        match &files[i] {
            Some(content) => {
                data.extend_from_slice(content.as_slice());
            },
            None => {
                data.push(0u8);
            },
        }
        assert(data@ =~= fileset_bytes(next));
        i = i + 1;
    }
    assert(contents_view(files@).take(n as int) == contents_view(files@));
    crc32(data.as_slice())
}

/// The buffer of a concatenation of file lists is the concatenation of their buffers.
pub proof fn lemma_fileset_bytes_concat(a: Seq<Option<Seq<u8>>>, b: Seq<Option<Seq<u8>>>)
    ensures
        fileset_bytes(a + b) == fileset_bytes(a) + fileset_bytes(b),
    decreases b.len(),
{
    if b.len() == 0 {
        assert(a + b =~= a);
        assert(fileset_bytes(b) =~= Seq::<u8>::empty());
        assert(fileset_bytes(a) + fileset_bytes(b) =~= fileset_bytes(a));
    } else {
        lemma_fileset_bytes_concat(a, b.drop_last());
        assert((a + b).drop_last() =~= a + b.drop_last());
        assert((a + b).last() == b.last());
        assert(fileset_bytes(a) + fileset_bytes(b) =~= fileset_bytes(a) + fileset_bytes(
            b.drop_last(),
        ) + file_contribution(b.last()));
    }
}

proof fn lemma_fileset_bytes_single(x: Option<Seq<u8>>)
    ensures
        fileset_bytes(seq![x]) == file_contribution(x),
{
    assert(seq![x].drop_last() =~= Seq::<Option<Seq<u8>>>::empty());
    assert(fileset_bytes(seq![x].drop_last()) =~= Seq::<u8>::empty());
    assert(fileset_bytes(seq![x]) =~= file_contribution(x));
}

/// Two buffers that differ only in an equally long middle part differ.
proof fn lemma_middle_differs(pre: Seq<u8>, a: Seq<u8>, b: Seq<u8>, post: Seq<u8>)
    requires
        a.len() == b.len(),
        a != b,
    ensures
        pre + a + post != pre + b + post,
{
    assert(exists|k: int| 0 <= k < a.len() && a[k] != b[k]) by {
        if forall|k: int| 0 <= k < a.len() ==> a[k] == b[k] {
            assert(a =~= b);
        }
    }
    let k = choose|k: int| 0 <= k < a.len() && a[k] != b[k];
    assert((pre + a + post)[pre.len() + k] == a[k]);
    assert((pre + b + post)[pre.len() + k] == b[k]);
}

/// Splits a file list around positions `i < j`.
proof fn lemma_fileset_bytes_around(files: Seq<Option<Seq<u8>>>, i: int, j: int)
    requires
        0 <= i < j < files.len(),
    ensures
        fileset_bytes(files) == fileset_bytes(files.take(i)) + (file_contribution(files[i])
            + fileset_bytes(files.subrange(i + 1, j)) + file_contribution(files[j]))
            + fileset_bytes(files.skip(j + 1)),
{
    let pre = files.take(i);
    let mid = files.subrange(i + 1, j);
    let post = files.skip(j + 1);
    assert(files =~= pre + seq![files[i]] + mid + seq![files[j]] + post);
    lemma_fileset_bytes_concat(pre + seq![files[i]] + mid + seq![files[j]], post);
    lemma_fileset_bytes_concat(pre + seq![files[i]] + mid, seq![files[j]]);
    lemma_fileset_bytes_concat(pre + seq![files[i]], mid);
    lemma_fileset_bytes_concat(pre, seq![files[i]]);
    lemma_fileset_bytes_single(files[i]);
    lemma_fileset_bytes_single(files[j]);
    assert(fileset_bytes(files) =~= fileset_bytes(pre) + (file_contribution(files[i])
        + fileset_bytes(mid) + file_contribution(files[j])) + fileset_bytes(post));
}

/// Splits a file list around position `i`.
proof fn lemma_fileset_bytes_split(files: Seq<Option<Seq<u8>>>, i: int)
    requires
        0 <= i < files.len(),
    ensures
        fileset_bytes(files) == fileset_bytes(files.take(i)) + file_contribution(files[i])
            + fileset_bytes(files.skip(i + 1)),
{
    assert(files =~= files.take(i) + seq![files[i]] + files.skip(i + 1));
    lemma_fileset_bytes_concat(files.take(i) + seq![files[i]], files.skip(i + 1));
    lemma_fileset_bytes_concat(files.take(i), seq![files[i]]);
    lemma_fileset_bytes_single(files[i]);
}

/// The fingerprint of a file set depends on nothing but what was read of its
/// files, in their order: two lists with the same contents in the same order
/// have the same fingerprint.
pub proof fn lemma_fingerprint_deterministic(a: Seq<Option<Seq<u8>>>, b: Seq<Option<Seq<u8>>>)
    requires
        a == b,
    ensures
        fileset_bytes(a) == fileset_bytes(b),
        fileset_fingerprint(a) == fileset_fingerprint(b),
{
}

/// Swapping the files at positions `i < j` changes the hashed buffer, except
/// where the stretch from the first to the second reads the same both ways
/// (such as two files whose contents are repetitions of one common block).
/// The fingerprints of the two orders are the CRC-32 of these two buffers.
pub proof fn lemma_swap_changes_fileset_bytes(files: Seq<Option<Seq<u8>>>, i: int, j: int)
    requires
        0 <= i < j < files.len(),
        file_contribution(files[i]) + fileset_bytes(files.subrange(i + 1, j))
            + file_contribution(files[j]) != file_contribution(files[j]) + fileset_bytes(
            files.subrange(i + 1, j),
        ) + file_contribution(files[i]),
    ensures
        fileset_bytes(files.update(i, files[j]).update(j, files[i])) != fileset_bytes(files),
        fileset_fingerprint(files) == crc32_of(fileset_bytes(files)),
        fileset_fingerprint(files.update(i, files[j]).update(j, files[i])) == crc32_of(
            fileset_bytes(files.update(i, files[j]).update(j, files[i])),
        ),
{
    let swapped = files.update(i, files[j]).update(j, files[i]);
    lemma_fileset_bytes_around(files, i, j);
    lemma_fileset_bytes_around(swapped, i, j);
    assert(swapped.take(i) =~= files.take(i));
    assert(swapped.subrange(i + 1, j) =~= files.subrange(i + 1, j));
    assert(swapped.skip(j + 1) =~= files.skip(j + 1));
    let m = fileset_bytes(files.subrange(i + 1, j));
    let a = file_contribution(files[i]) + m + file_contribution(files[j]);
    let b = file_contribution(files[j]) + m + file_contribution(files[i]);
    let pre = fileset_bytes(files.take(i));
    let post = fileset_bytes(files.skip(j + 1));
    lemma_middle_differs(pre, a, b, post);
}

/// Swapping two files of equal length and different content, present or
/// missing, changes the hashed buffer.
pub proof fn lemma_swap_equal_length_files(files: Seq<Option<Seq<u8>>>, i: int, j: int)
    requires
        0 <= i < j < files.len(),
        file_contribution(files[i]).len() == file_contribution(files[j]).len(),
        file_contribution(files[i]) != file_contribution(files[j]),
    ensures
        fileset_bytes(files.update(i, files[j]).update(j, files[i])) != fileset_bytes(files),
{
    let x = file_contribution(files[i]);
    let y = file_contribution(files[j]);
    let m = fileset_bytes(files.subrange(i + 1, j));
    if x + m + y == y + m + x {
        assert((x + m + y).take(x.len() as int) =~= x);
        assert((y + m + x).take(x.len() as int) =~= y);
    }
    lemma_swap_changes_fileset_bytes(files, i, j);
}

/// A file that could not be read is told apart from the same file present with
/// content, except where that content is the single zero byte that stands for a
/// missing file. The fingerprints are the CRC-32 of these two buffers.
pub proof fn lemma_missing_file_changes_fileset_bytes(
    files: Seq<Option<Seq<u8>>>,
    i: int,
    content: Seq<u8>,
)
    requires
        0 <= i < files.len(),
        files[i] is None,
        content.len() > 0,
        content != seq![0u8],
    ensures
        fileset_bytes(files.update(i, Some(content))) != fileset_bytes(files),
        fileset_fingerprint(files.update(i, Some(content))) == crc32_of(
            fileset_bytes(files.update(i, Some(content))),
        ),
{
    let present = files.update(i, Some(content));
    lemma_fileset_bytes_split(files, i);
    lemma_fileset_bytes_split(present, i);
    assert(present.take(i) =~= files.take(i));
    assert(present.skip(i + 1) =~= files.skip(i + 1));
    let pre = fileset_bytes(files.take(i));
    let post = fileset_bytes(files.skip(i + 1));
    if content.len() == 1 {
        assert(content[0] != 0) by {
            if content[0] == 0 {
                assert(content =~= seq![0u8]);
            }
        }
        lemma_middle_differs(pre, content, seq![0u8], post);
    } else {
        assert((pre + content + post).len() != (pre + seq![0u8] + post).len());
    }
}

} // verus!
