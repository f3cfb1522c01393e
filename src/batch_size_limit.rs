//! How many rows to fetch per batch, given a limit in rows, in bytes, or both.

use vstd::prelude::*;

verus! {

/// Row cap applied when the caller sets no limit. Some ODBC drivers keep the fetch size in a
/// 16-bit counter, so a larger default would break them.
pub const DEFAULT_BATCH_SIZE_ROWS: usize = 65535;

/// Byte cap applied when the caller sets no limit, on a 64-bit address space (2 GiB).
pub const DEFAULT_BATCH_SIZE_BYTES_WIDE: usize = 2147483648;

/// Byte cap applied when the caller sets no limit, on a 32-bit address space (1 GiB).
pub const DEFAULT_BATCH_SIZE_BYTES_NARROW: usize = 1073741824;

/// Bytes in one mebibyte.
pub const BYTES_PER_MIB: usize = 1048576;

/// The byte cap used when the caller sets no limit, on this platform.
pub open spec fn default_batch_size_bytes() -> usize {
    if usize::MAX == u64::MAX {
        DEFAULT_BATCH_SIZE_BYTES_WIDE
    } else {
        DEFAULT_BATCH_SIZE_BYTES_NARROW
    }
}

/// A memory limit of `mib` mebibytes, in bytes.
pub open spec fn mib_to_bytes(mib: u32) -> int {
    mib as int * BYTES_PER_MIB as int
}

/// Batches can be limited by number of rows, by the total size of the rows in bytes, or by
/// both.
#[derive(Debug, Clone, Copy, PartialEq, Eq, Structural)]
pub enum BatchSizeLimit {
    Rows(usize),
    Bytes(usize),
    Both { rows: usize, bytes: usize },
}

/// A single row needs more memory than the byte limit allows, so no batch can be fetched.
#[derive(Debug, Clone, Copy, PartialEq, Eq, Structural)]
pub struct MemoryLimitTooSmall {
    /// The byte limit of a batch.
    pub memory_limit_bytes: usize,
    /// The memory one row needs, in bytes.
    pub memory_per_row_bytes: usize,
}

/// Rows that fit into `bytes` when each takes `per_row` bytes, or an error if not one does.
pub open spec fn rows_within_bytes(bytes: usize, per_row: usize) -> Result<usize, MemoryLimitTooSmall>
    recommends
        per_row > 0,
{
    if bytes / per_row == 0 {
        Err(MemoryLimitTooSmall { memory_limit_bytes: bytes, memory_per_row_bytes: per_row })
    } else {
        Ok((bytes / per_row) as usize)
    }
}

fn default_batch_size_bytes_exec() -> (r: usize)
    ensures
        r == default_batch_size_bytes(),
{
    if usize::MAX as u64 == u64::MAX {
        DEFAULT_BATCH_SIZE_BYTES_WIDE
    } else {
        DEFAULT_BATCH_SIZE_BYTES_NARROW
    }
}

impl BatchSizeLimit {
    /// The limit that `new` builds from the two optional overrides.
    pub open spec fn spec_new(num_rows_limit: Option<usize>, memory_limit_mib: Option<u32>) -> Self {
        match (num_rows_limit, memory_limit_mib) {
            (Some(rows), None) => BatchSizeLimit::Rows(rows),
            (None, Some(mib)) => BatchSizeLimit::Bytes(mib_to_bytes(mib) as usize),
            (None, None) => BatchSizeLimit::Both {
                rows: DEFAULT_BATCH_SIZE_ROWS,
                bytes: default_batch_size_bytes(),
            },
            (Some(rows), Some(mib)) => BatchSizeLimit::Both {
                rows,
                bytes: mib_to_bytes(mib) as usize,
            },
        }
    }

    /// Whether `per_row` is a row cost that the limit can divide by.
    pub open spec fn accepts_row_cost(self, per_row: usize) -> bool {
        self is Rows || per_row > 0
    }

    /// The number of rows per batch for rows that each take `per_row` bytes.
    pub open spec fn spec_batch_size_in_rows(self, per_row: usize) -> Result<usize, MemoryLimitTooSmall>
        recommends
            self.accepts_row_cost(per_row),
    {
        match self {
            BatchSizeLimit::Rows(rows) => Ok(rows),
            BatchSizeLimit::Bytes(bytes) => rows_within_bytes(bytes, per_row),
            BatchSizeLimit::Both { rows, bytes } => match rows_within_bytes(bytes, per_row) {
                Ok(limit_rows) => Ok(if limit_rows <= rows { limit_rows } else { rows }),
                Err(e) => Err(e),
            },
        }
    }

    /// Combines an optional row limit and an optional memory limit in MiB. Without either, the
    /// defaults apply together.
    pub fn new(num_rows_limit: Option<usize>, memory_limit_mib: Option<u32>) -> (r: Self)
        requires
            memory_limit_mib matches Some(mib) ==> mib_to_bytes(mib) <= usize::MAX,
        ensures
            r == Self::spec_new(num_rows_limit, memory_limit_mib),
    {
        let bytes: Option<usize> = match memory_limit_mib {
            Some(mib) => Some(mib as usize * BYTES_PER_MIB),
            None => None,
        };
        match (num_rows_limit, bytes) {
            (Some(rows), None) => BatchSizeLimit::Rows(rows),
            (None, Some(bytes)) => BatchSizeLimit::Bytes(bytes),
            (None, None) => BatchSizeLimit::Both {
                rows: DEFAULT_BATCH_SIZE_ROWS,
                bytes: default_batch_size_bytes_exec(),
            },
            (Some(rows), Some(bytes)) => BatchSizeLimit::Both { rows, bytes },
        }
    }

    /// Number of rows to fetch in one batch if each row needs `total_mem_usage_per_row` bytes.
    /// Fails if a byte limit applies and not even one row fits into it.
    pub fn batch_size_in_rows(&self, total_mem_usage_per_row: usize) -> (r: Result<
        usize,
        MemoryLimitTooSmall,
    >)
        requires
            self.accepts_row_cost(total_mem_usage_per_row),
        ensures
            r == self.spec_batch_size_in_rows(total_mem_usage_per_row),
    {
        match self {
            BatchSizeLimit::Rows(rows) => Ok(*rows),
            BatchSizeLimit::Bytes(num_bytes) => to_num_rows(*num_bytes, total_mem_usage_per_row),
            BatchSizeLimit::Both { rows, bytes } => {
                let limit_rows = to_num_rows(*bytes, total_mem_usage_per_row)?;
                Ok(if limit_rows <= *rows { limit_rows } else { *rows })
            },
        }
    }
}

fn to_num_rows(num_bytes: usize, per_row: usize) -> (r: Result<usize, MemoryLimitTooSmall>)
    requires
        per_row > 0,
    ensures
        r == rows_within_bytes(num_bytes, per_row),
{
    let rows = num_bytes / per_row;
    if rows == 0 {
        Err(MemoryLimitTooSmall { memory_limit_bytes: num_bytes, memory_per_row_bytes: per_row })
    } else {
        Ok(rows)
    }
}

/// A row limit alone yields exactly that many rows, whatever a row costs.
pub proof fn lemma_rows_limit_ignores_row_cost(rows: usize, per_row: usize)
    requires
        rows > 0,
    ensures
        BatchSizeLimit::Rows(rows).spec_batch_size_in_rows(per_row) == Ok::<
            usize,
            MemoryLimitTooSmall,
        >(rows),
{
}

/// A byte limit that holds at least one row yields the byte limit divided by the row cost,
/// rounded down.
pub proof fn lemma_bytes_limit_divides(bytes: usize, per_row: usize)
    requires
        bytes > 0,
        per_row > 0,
        bytes >= per_row,
    ensures
        BatchSizeLimit::Bytes(bytes).spec_batch_size_in_rows(per_row) == Ok::<
            usize,
            MemoryLimitTooSmall,
        >(bytes / per_row),
{
    assert(bytes / per_row >= 1) by (nonlinear_arith)
        requires
            bytes >= per_row,
            per_row > 0,
    ;
}

/// A byte limit below the cost of one row fails with a capacity error that names both.
pub proof fn lemma_bytes_limit_too_small(bytes: usize, per_row: usize)
    requires
        bytes < per_row,
    ensures
        BatchSizeLimit::Bytes(bytes).spec_batch_size_in_rows(per_row) == Err::<
            usize,
            MemoryLimitTooSmall,
        >(MemoryLimitTooSmall { memory_limit_bytes: bytes, memory_per_row_bytes: per_row }),
{
    assert(bytes / per_row == 0) by (nonlinear_arith)
        requires
            bytes < per_row,
    ;
}

/// Both limits together yield the smaller of the row limit and what the byte limit alone
/// yields, and fail exactly where the byte limit alone fails.
pub proof fn lemma_both_limits_take_minimum(rows: usize, bytes: usize, per_row: usize)
    requires
        per_row > 0,
    ensures
        ({
            let both = BatchSizeLimit::Both { rows, bytes }.spec_batch_size_in_rows(per_row);
            let bytes_only = BatchSizeLimit::Bytes(bytes).spec_batch_size_in_rows(per_row);
            &&& both is Err <==> bytes_only is Err
            &&& bytes_only is Err ==> both == bytes_only
            &&& bytes_only is Ok ==> both == Ok::<usize, MemoryLimitTooSmall>(
                if rows <= bytes / per_row { rows } else { (bytes / per_row) as usize },
            )
        }),
{
}

/// Without overrides the limit holds both defaults, and its row cap is 65535.
pub proof fn lemma_default_limit()
    ensures
        BatchSizeLimit::spec_new(None, None) == (BatchSizeLimit::Both {
            rows: 65535,
            bytes: default_batch_size_bytes(),
        }),
{
}

} // verus!
