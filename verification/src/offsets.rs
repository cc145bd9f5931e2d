//! Persisted consumer offsets: the 8-byte little-endian file format, how a
//! read of the file is interpreted, and the monotone fold of a server
//! auto-commit.

use vstd::prelude::*;

verus! {

/// Size in bytes of a persisted offset.
pub const OFFSET_SIZE: usize = 8;

/// Errors of the consumer-offset storage, each naming the file involved
/// where there is one.
#[derive(Debug, PartialEq, Eq)]
pub enum OffsetStorageError {
    CannotCreateConsumerOffsetsDirectory(String),
    CannotOpenConsumerOffsetsFile(String),
    CannotWriteToFile,
    CannotReadConsumerOffsets(String),
    CannotDeleteConsumerOffsetFile(String),
}

/// The value of bytes in little-endian order (`u64::from_le_bytes`).
pub open spec fn le_value(b: Seq<u8>) -> nat
    decreases b.len(),
{
    if b.len() == 0 {
        0
    } else {
        b[0] as nat + 256 * le_value(b.drop_first())
    }
}

/// The `n` low-order bytes of `x`, least significant first
/// (`to_le_bytes` for `n == 8`).
pub open spec fn le_bytes(x: nat, n: nat) -> Seq<u8>
    decreases n,
{
    if n == 0 {
        seq![]
    } else {
        seq![(x % 256) as u8] + le_bytes(x / 256, (n - 1) as nat)
    }
}

pub open spec fn pow256(n: nat) -> nat
    decreases n,
{
    if n == 0 {
        1
    } else {
        256 * pow256((n - 1) as nat)
    }
}

proof fn lemma_le_bytes_len(x: nat, n: nat)
    ensures
        le_bytes(x, n).len() == n,
    decreases n,
{
    if n > 0 {
        lemma_le_bytes_len(x / 256, (n - 1) as nat);
    }
}

proof fn lemma_le_round_trip(x: nat, n: nat)
    ensures
        le_value(le_bytes(x, n)) == x % pow256(n),
    decreases n,
{
    if n > 0 {
        let b = le_bytes(x, n);
        lemma_le_round_trip(x / 256, (n - 1) as nat);
        assert(b.drop_first() =~= le_bytes(x / 256, (n - 1) as nat));
        let p = pow256((n - 1) as nat);
        assert(p > 0) by {
            lemma_pow256_positive((n - 1) as nat);
        }
        assert(x % 256 + 256 * ((x / 256) % p) == x % (256 * p)) by (nonlinear_arith)
            requires
                p > 0,
        {
            assert(x == 256 * (x / 256) + x % 256);
            assert(x / 256 == p * ((x / 256) / p) + (x / 256) % p);
            assert(x == (256 * p) * ((x / 256) / p) + (256 * ((x / 256) % p) + x % 256));
            assert(0 <= 256 * ((x / 256) % p) + x % 256 < 256 * p);
        }
    }
}

proof fn lemma_pow256_positive(n: nat)
    ensures
        pow256(n) > 0,
    decreases n,
{
    if n > 0 {
        lemma_pow256_positive((n - 1) as nat);
    }
}

proof fn lemma_pow256_8()
    ensures
        pow256(8) == 0x1_0000_0000_0000_0000nat,
{
    reveal_with_fuel(pow256, 9);
}

proof fn lemma_le_value_bound(b: Seq<u8>)
    ensures
        le_value(b) < pow256(b.len()),
    decreases b.len(),
{
    if b.len() > 0 {
        lemma_le_value_bound(b.drop_first());
        let r = le_value(b.drop_first());
        let p = pow256((b.len() - 1) as nat);
        assert(b[0] as nat + 256 * r < 256 * p) by (nonlinear_arith)
            requires
                r < p,
                b[0] < 256,
        {}
    }
}

/// The persisted form of `offset`.
pub open spec fn spec_encode_offset(offset: u64) -> Seq<u8> {
    le_bytes(offset as nat, 8)
}

/// The 8 bytes that persist `offset`, least significant first.
pub fn encode_offset(offset: u64) -> (b: [u8; 8])
    ensures
        b@ == spec_encode_offset(offset),
{
    let mut b = [0u8; 8];
    let mut x = offset;
    let mut i: usize = 0;
    proof {
        lemma_le_bytes_len(offset as nat, 8);
        assert(pow256(0) == 1);
        assert(b@.take(0) =~= le_bytes(offset as nat, 8).take(0));
        assert(le_bytes(offset as nat, 8).skip(0) =~= le_bytes(offset as nat, 8));
    }
    while i < 8
        invariant
            i <= 8,
            b@.len() == 8,
            x as nat == (offset as nat) / pow256(i as nat),
            b@.take(i as int) == le_bytes(offset as nat, 8).take(i as int),
            le_bytes(offset as nat, 8).skip(i as int) == le_bytes(x as nat, (8 - i) as nat),
        decreases 8 - i,
    {
        proof {
            lemma_le_bytes_len(x as nat, (8 - i) as nat);
            lemma_le_bytes_len(offset as nat, 8);
            let rest = le_bytes(x as nat, (8 - i) as nat);
            assert(rest[0] == (x % 256) as u8);
            assert(rest.drop_first() =~= le_bytes((x / 256) as nat, (8 - i - 1) as nat));
            assert(le_bytes(offset as nat, 8)[i as int] == rest[0]);
            lemma_pow256_positive(i as nat);
            let p = pow256(i as nat);
            assert((offset as nat / p) / 256 == offset as nat / (p * 256)) by (nonlinear_arith)
                requires
                    p > 0,
            {
                vstd::arithmetic::div_mod::lemma_div_denominator(offset as int, p as int, 256);
            }
            assert(pow256((i + 1) as nat) == 256 * p);
        }
        b[i] = (x % 256) as u8;
        x = x / 256;
        i += 1;
        proof {
            lemma_le_bytes_len(offset as nat, 8);
            assert(b@.take(i as int) =~= le_bytes(offset as nat, 8).take(i as int));
            assert(le_bytes(offset as nat, 8).skip(i as int) =~= le_bytes(offset as nat, 8).skip(
                (i - 1) as int,
            ).drop_first());
        }
    }
    proof {
        lemma_le_bytes_len(offset as nat, 8);
        assert(b@ =~= le_bytes(offset as nat, 8).take(8));
        assert(le_bytes(offset as nat, 8).take(8) =~= le_bytes(offset as nat, 8));
    }
    b
}

/// The offset that 8 persisted bytes hold.
pub fn decode_offset(b: &[u8; 8]) -> (x: u64)
    ensures
        x as nat == le_value(b@),
{
    proof {
        lemma_le_value_bound(b@);
        lemma_pow256_8();
    }
    let mut acc: u64 = 0;
    let mut i: usize = 8;
    while i > 0
        invariant
            i <= 8,
            b@.len() == 8,
            acc as nat == le_value(b@.skip(i as int)),
            le_value(b@) < 0x1_0000_0000_0000_0000nat,
        decreases i,
    {
        i -= 1;
        let ghost tail = b@.skip(i as int);
        proof {
            assert(tail.drop_first() =~= b@.skip(i + 1));
            assert(tail[0] == b@[i as int]);
            lemma_le_value_suffix_bound(b@, i as int);
        }
        acc = acc * 256 + b[i] as u64;
    }
    assert(b@.skip(0) =~= b@);
    acc
}

proof fn lemma_le_value_suffix_bound(b: Seq<u8>, i: int)
    requires
        0 <= i <= b.len(),
    ensures
        le_value(b.skip(i)) <= le_value(b),
    decreases i,
{
    if i > 0 {
        lemma_le_value_suffix_bound(b.drop_first(), i - 1);
        assert(b.drop_first().skip(i - 1) =~= b.skip(i));
    } else {
        assert(b.skip(0) =~= b);
    }
}

/// What reading a persisted offset file gave.
pub enum OffsetFileRead {
    /// There is no file at the path.
    Absent,
    /// The file exists but could not be opened for reading.
    OpenFailed,
    /// The file ended before `OFFSET_SIZE` bytes (a torn write).
    ShortRead,
    /// Reading failed with a real I/O error.
    ReadFailed,
    /// The bytes read from the start of the file.
    Read(Vec<u8>),
}

/// The outcome of reading the offset file at `path`: `None` if the file is
/// absent or torn (shorter than 8 bytes), since the boot-time loader skips
/// such files too; real I/O errors are errors naming the file, since
/// mapping them to `None` would silently rewind a valid higher offset.
pub open spec fn read_outcome(path: Seq<char>, read: OffsetFileRead, r: Result<Option<u64>, OffsetStorageError>) -> bool {
    match read {
        OffsetFileRead::Absent => r == Ok::<Option<u64>, OffsetStorageError>(None),
        OffsetFileRead::ShortRead => r == Ok::<Option<u64>, OffsetStorageError>(None),
        OffsetFileRead::OpenFailed => r matches Err(OffsetStorageError::CannotOpenConsumerOffsetsFile(p))
            && p@ == path,
        OffsetFileRead::ReadFailed => r matches Err(OffsetStorageError::CannotReadConsumerOffsets(p))
            && p@ == path,
        OffsetFileRead::Read(bytes) => if bytes@.len() == OFFSET_SIZE {
            r == Ok::<Option<u64>, OffsetStorageError>(Some(le_value(bytes@) as u64))
        } else {
            r matches Err(OffsetStorageError::CannotReadConsumerOffsets(p)) && p@ == path
        },
    }
}

/// Interprets what reading the persisted offset file at `path` gave.
pub fn interpret_offset_read(path: &str, read: OffsetFileRead) -> (r: Result<Option<u64>, OffsetStorageError>)
    ensures
        read_outcome(path@, read, r),
{
    match read {
        OffsetFileRead::Absent => Ok(None),
        OffsetFileRead::ShortRead => Ok(None),
        OffsetFileRead::OpenFailed => Err(OffsetStorageError::CannotOpenConsumerOffsetsFile(path.to_owned())),
        OffsetFileRead::ReadFailed => Err(OffsetStorageError::CannotReadConsumerOffsets(path.to_owned())),
        OffsetFileRead::Read(bytes) => {
            if bytes.len() != OFFSET_SIZE {
                return Err(OffsetStorageError::CannotReadConsumerOffsets(path.to_owned()));
            }
            let arr: [u8; 8] = [bytes[0], bytes[1], bytes[2], bytes[3], bytes[4], bytes[5], bytes[6], bytes[7]];
            assert(arr@ =~= bytes@);
            Ok(Some(decode_offset(&arr)))
        },
    }
}

/// The offset a monotone commit leaves on disk: the larger of the persisted
/// one and `offset`, or `offset` when nothing is persisted.
pub open spec fn spec_fold_offset(on_disk: Option<u64>, offset: u64) -> u64 {
    match on_disk {
        Some(current) => if current >= offset {
            current
        } else {
            offset
        },
        None => offset,
    }
}

/// Whether a monotone commit must write the file: unless it already holds
/// the folded offset.
pub open spec fn spec_fold_writes(on_disk: Option<u64>, offset: u64) -> bool {
    on_disk != Some(spec_fold_offset(on_disk, offset))
}

/// What a monotone offset commit does.
pub struct OffsetCommit {
    /// The offset on disk after the commit.
    pub effective: u64,
    /// Whether the file must be written; it is skipped when it already
    /// holds `effective`.
    pub write: bool,
}

/// Folds `max(on_disk, offset)` for a server auto-commit: disk-tier polls
/// replicate their auto-committed offsets in IO-completion order, so a
/// committed op can carry a lower offset than an earlier one, and a plain
/// overwrite would rewind the file.
pub fn fold_offset_max(on_disk: Option<u64>, offset: u64) -> (c: OffsetCommit)
    ensures
        c.effective == spec_fold_offset(on_disk, offset),
        c.write == spec_fold_writes(on_disk, offset),
{
    let effective = match on_disk {
        Some(current) => if current >= offset {
            current
        } else {
            offset
        },
        None => offset,
    };
    let write = match on_disk {
        Some(current) => current != effective,
        None => true,
    };
    OffsetCommit { effective, write }
}

// ---------------------------------------------------------------------------
// Laws
// ---------------------------------------------------------------------------

/// Reading a file that holds the persisted form of `offset` gives `offset`
/// back.
pub proof fn law_read_gives_back_persisted(path: Seq<char>, offset: u64, r: Result<Option<u64>, OffsetStorageError>, bytes: Vec<u8>)
    requires
        bytes@ == spec_encode_offset(offset),
        read_outcome(path, OffsetFileRead::Read(bytes), r),
    ensures
        r == Ok::<Option<u64>, OffsetStorageError>(Some(offset)),
{
    lemma_le_bytes_len(offset as nat, 8);
    lemma_le_round_trip(offset as nat, 8);
    lemma_pow256_8();
}

/// A monotone commit never lowers the offset on disk and never records
/// less than the committed offset; it keeps one of the two.
pub proof fn law_fold_is_monotone(on_disk: Option<u64>, offset: u64)
    ensures
        spec_fold_offset(on_disk, offset) >= offset,
        on_disk matches Some(current) ==> spec_fold_offset(on_disk, offset) >= current,
        spec_fold_offset(on_disk, offset) == offset || on_disk == Some(spec_fold_offset(on_disk, offset)),
{
}

/// Replaying a commit on the file it produced changes nothing and writes
/// nothing.
pub proof fn law_fold_is_idempotent(on_disk: Option<u64>, offset: u64)
    ensures
        spec_fold_offset(Some(spec_fold_offset(on_disk, offset)), offset) == spec_fold_offset(on_disk, offset),
        !spec_fold_writes(Some(spec_fold_offset(on_disk, offset)), offset),
{
}

/// The order in which two commits are applied does not change the offset
/// that ends up on disk, so replicas applying them in different orders
/// agree.
pub proof fn law_fold_order_independent(on_disk: Option<u64>, a: u64, b: u64)
    ensures
        spec_fold_offset(Some(spec_fold_offset(on_disk, a)), b) == spec_fold_offset(
            Some(spec_fold_offset(on_disk, b)),
            a,
        ),
{
}

/// The offset on disk after monotone commits of `offsets`, in turn, onto a
/// file that held `on_disk` (`None` for an absent or torn file).
pub open spec fn fold_all(on_disk: Option<u64>, offsets: Seq<u64>) -> Option<u64>
    decreases offsets.len(),
{
    if offsets.len() == 0 {
        on_disk
    } else {
        Some(spec_fold_offset(fold_all(on_disk, offsets.drop_last()), offsets.last()))
    }
}

/// `m` is the largest of `offsets`.
pub open spec fn is_max_of(m: u64, offsets: Seq<u64>) -> bool {
    &&& forall|j: int| 0 <= j < offsets.len() ==> #[trigger] offsets[j] <= m
    &&& exists|j: int| 0 <= j < offsets.len() && #[trigger] offsets[j] == m
}

proof fn lemma_fold_all_is_max(offsets: Seq<u64>)
    requires
        offsets.len() > 0,
    ensures
        fold_all(None, offsets) matches Some(m) && is_max_of(m, offsets),
    decreases offsets.len(),
{
    let init = offsets.drop_last();
    let last = offsets.last();
    if init.len() == 0 {
        assert(offsets[0] == last);
    } else {
        lemma_fold_all_is_max(init);
        let prev = fold_all(None, init)->0;
        let m = spec_fold_offset(Some(prev), last);
        let k = choose|j: int| 0 <= j < init.len() && #[trigger] init[j] == prev;
        assert forall|j: int| 0 <= j < offsets.len() implies #[trigger] offsets[j] <= m by {
            if j < init.len() {
                assert(init[j] == offsets[j]);
            }
        }
        if m == prev {
            assert(offsets[k] == init[k]);
        } else {
            assert(offsets[offsets.len() - 1] == m);
        }
    }
}

/// Monotone commits of `offsets`, one after another, onto an absent or torn
/// file: the `i`-th commit returns, and leaves on disk, the largest of the
/// first `i + 1` offsets; what is on disk never decreases from one commit to
/// the next; and the file finally holds the largest offset, whatever the
/// order in which the offsets came.
pub proof fn law_commits_keep_running_maximum(offsets: Seq<u64>)
    ensures
        forall|i: int|
            0 <= i < offsets.len() ==> #[trigger] fold_all(None, offsets.take(i + 1)) == Some(
                spec_fold_offset(fold_all(None, offsets.take(i)), offsets[i]),
            ),
        forall|i: int|
            0 <= i < offsets.len() ==> ((#[trigger] fold_all(None, offsets.take(i + 1))) matches Some(m)
                && is_max_of(m, offsets.take(i + 1))),
        forall|i: int, j: int|
            0 < i <= j <= offsets.len() ==> fold_all(None, #[trigger] offsets.take(i))->0 <= fold_all(
                None,
                #[trigger] offsets.take(j),
            )->0,
        offsets.len() > 0 ==> (fold_all(None, offsets) matches Some(m) && is_max_of(m, offsets)),
{
    assert forall|i: int|
        0 <= i < offsets.len() implies #[trigger] fold_all(None, offsets.take(i + 1)) == Some(
        spec_fold_offset(fold_all(None, offsets.take(i)), offsets[i]),
    ) by {
        assert(offsets.take(i + 1).drop_last() =~= offsets.take(i));
        assert(offsets.take(i + 1).last() == offsets[i]);
    }
    assert forall|i: int|
        0 <= i < offsets.len() implies ((#[trigger] fold_all(None, offsets.take(i + 1))) matches Some(m)
        && is_max_of(m, offsets.take(i + 1))) by {
        lemma_fold_all_is_max(offsets.take(i + 1));
    }
    assert forall|i: int, j: int|
        0 < i <= j <= offsets.len() implies fold_all(None, #[trigger] offsets.take(i))->0 <= fold_all(
        None,
        #[trigger] offsets.take(j),
    )->0 by {
        let a = offsets.take(i);
        let b = offsets.take(j);
        lemma_fold_all_is_max(a);
        lemma_fold_all_is_max(b);
        let ma = fold_all(None, a)->0;
        let k = choose|k: int| 0 <= k < a.len() && #[trigger] a[k] == ma;
        assert(a[k] == b[k]);
    }
    if offsets.len() > 0 {
        lemma_fold_all_is_max(offsets);
    }
}

/// The persisted bytes are little-endian: `n` bytes, the least significant
/// first, then the next.
pub proof fn law_le_bytes_shape(x: nat, n: nat)
    requires
        n >= 2,
    ensures
        le_bytes(x, n).len() == n,
        le_bytes(x, n)[0] == (x % 256) as u8,
        le_bytes(x, n)[1] == ((x / 256) % 256) as u8,
{
    lemma_le_bytes_len(x, n);
    reveal_with_fuel(le_bytes, 2);
}

/// An offset is stored least significant byte first: the first byte is
/// `offset % 256`, the last `offset / 2^56`.
pub proof fn law_offset_stored_little_endian(offset: u64)
    ensures
        spec_encode_offset(offset).len() == OFFSET_SIZE,
        spec_encode_offset(offset)[0] == (offset % 256) as u8,
        le_value(spec_encode_offset(offset)) == offset,
{
    lemma_le_bytes_len(offset as nat, 8);
    law_le_bytes_shape(offset as nat, 8);
    lemma_le_round_trip(offset as nat, 8);
    lemma_pow256_8();
}

/// An absent file and a torn file (shorter than eight bytes) both read as
/// no offset, never as an error, so a crash between truncate and write does
/// not break later commits; a file that cannot be opened or read is an error
/// naming it, so a real failure never silently rewinds the offset.
pub proof fn law_read_outcomes(path: Seq<char>, read: OffsetFileRead, r: Result<Option<u64>, OffsetStorageError>)
    requires
        read_outcome(path, read, r),
    ensures
        (read is Absent || read is ShortRead) ==> r == Ok::<Option<u64>, OffsetStorageError>(None),
        read is OpenFailed ==> (r matches Err(OffsetStorageError::CannotOpenConsumerOffsetsFile(p)) && p@
            == path),
        read is ReadFailed ==> (r matches Err(OffsetStorageError::CannotReadConsumerOffsets(p)) && p@ == path),
        read matches OffsetFileRead::Read(bytes) ==> (r is Ok <==> bytes@.len() == 8),
{
}

} // verus!
