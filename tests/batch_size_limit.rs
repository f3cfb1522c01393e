use odbc2parquet::batch_size_limit::{
    BatchSizeLimit, MemoryLimitTooSmall, DEFAULT_BATCH_SIZE_BYTES_NARROW,
    DEFAULT_BATCH_SIZE_BYTES_WIDE,
};

#[test]
fn rows_limit_ignores_row_cost() {
    let limit = BatchSizeLimit::Rows(42);
    assert_eq!(limit.batch_size_in_rows(1), Ok(42));
    assert_eq!(limit.batch_size_in_rows(1_000_000), Ok(42));
    assert_eq!(limit.batch_size_in_rows(0), Ok(42));
}

#[test]
fn bytes_limit_divides_rounding_down() {
    let limit = BatchSizeLimit::Bytes(100);
    assert_eq!(limit.batch_size_in_rows(30), Ok(3));
    assert_eq!(limit.batch_size_in_rows(100), Ok(1));
    assert_eq!(limit.batch_size_in_rows(1), Ok(100));
}

#[test]
fn bytes_limit_below_row_cost_fails() {
    let limit = BatchSizeLimit::Bytes(99);
    assert_eq!(
        limit.batch_size_in_rows(100),
        Err(MemoryLimitTooSmall { memory_limit_bytes: 99, memory_per_row_bytes: 100 })
    );
    assert!(BatchSizeLimit::Bytes(0).batch_size_in_rows(1).is_err());
}

#[test]
fn both_limits_take_minimum() {
    let limit = BatchSizeLimit::Both { rows: 10, bytes: 1000 };
    assert_eq!(limit.batch_size_in_rows(300), Ok(3));
    assert_eq!(limit.batch_size_in_rows(10), Ok(10));
    assert_eq!(limit.batch_size_in_rows(100), Ok(10));
}

#[test]
fn both_limits_fail_where_bytes_alone_fail() {
    let limit = BatchSizeLimit::Both { rows: 10, bytes: 50 };
    assert_eq!(
        limit.batch_size_in_rows(51),
        Err(MemoryLimitTooSmall { memory_limit_bytes: 50, memory_per_row_bytes: 51 })
    );
    assert_eq!(
        limit.batch_size_in_rows(51).is_err(),
        BatchSizeLimit::Bytes(50).batch_size_in_rows(51).is_err()
    );
}

#[test]
fn no_override_gives_default_limits() {
    match BatchSizeLimit::new(None, None) {
        BatchSizeLimit::Both { rows, bytes } => {
            assert_eq!(rows, 65535);
            let expected = if usize::MAX as u64 == u64::MAX {
                DEFAULT_BATCH_SIZE_BYTES_WIDE
            } else {
                DEFAULT_BATCH_SIZE_BYTES_NARROW
            };
            assert_eq!(bytes, expected);
        }
        other => panic!("expected both limits, got {:?}", other),
    }
}

#[test]
fn default_limit_holds_many_small_rows() {
    let limit = BatchSizeLimit::new(None, None);
    assert_eq!(limit.batch_size_in_rows(8), Ok(65535));
}

#[test]
fn overrides_convert_mib_to_bytes() {
    assert_eq!(BatchSizeLimit::new(Some(7), None), BatchSizeLimit::Rows(7));
    assert_eq!(BatchSizeLimit::new(None, Some(2)), BatchSizeLimit::Bytes(2 * 1024 * 1024));
    assert_eq!(
        BatchSizeLimit::new(Some(7), Some(1)),
        BatchSizeLimit::Both { rows: 7, bytes: 1024 * 1024 }
    );
}
