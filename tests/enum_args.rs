use odbc2parquet::enum_args::{
    column_encoding_from_str, encoding_from_str, CompressionVariants, ConfigurationError,
    EncodingArgument,
};
use parquet::basic::{Compression, Encoding};

#[test]
fn encoding_names_map_to_encodings() {
    assert_eq!(encoding_from_str("plain"), Ok(Encoding::PLAIN));
    assert_eq!(encoding_from_str("delta-binary-packed"), Ok(Encoding::DELTA_BINARY_PACKED));
    assert_eq!(encoding_from_str("delta-byte-array"), Ok(Encoding::DELTA_BYTE_ARRAY));
    assert_eq!(
        encoding_from_str("delta-length-byte-array"),
        Ok(Encoding::DELTA_LENGTH_BYTE_ARRAY)
    );
    assert_eq!(encoding_from_str("rle"), Ok(Encoding::RLE));
}

#[test]
fn excluded_encodings_are_rejected() {
    assert_eq!(
        encoding_from_str("bit-packed"),
        Err(ConfigurationError::UnknownEncoding { token: "bit-packed".to_string() })
    );
    assert_eq!(
        encoding_from_str("rle-dictionary"),
        Err(ConfigurationError::UnknownEncoding { token: "rle-dictionary".to_string() })
    );
}

#[test]
fn unknown_and_empty_encodings_are_rejected() {
    assert_eq!(
        encoding_from_str("PLAIN"),
        Err(ConfigurationError::UnknownEncoding { token: "PLAIN".to_string() })
    );
    assert_eq!(
        encoding_from_str(""),
        Err(ConfigurationError::UnknownEncoding { token: String::new() })
    );
}

#[test]
fn column_encoding_splits_name_and_encoding() {
    assert_eq!(
        column_encoding_from_str("price:rle"),
        Ok(("price".to_string(), Encoding::RLE))
    );
}

#[test]
fn column_encoding_splits_at_last_colon() {
    assert_eq!(
        column_encoding_from_str("a:b:plain"),
        Ok(("a:b".to_string(), Encoding::PLAIN))
    );
    assert_eq!(column_encoding_from_str(":rle"), Ok((String::new(), Encoding::RLE)));
}

#[test]
fn column_encoding_needs_separator() {
    assert_eq!(
        column_encoding_from_str("noseparator"),
        Err(ConfigurationError::MissingColumnSeparator)
    );
    assert_eq!(column_encoding_from_str(""), Err(ConfigurationError::MissingColumnSeparator));
}

#[test]
fn column_encoding_reports_unknown_encoding() {
    assert_eq!(
        column_encoding_from_str("price:bit-packed"),
        Err(ConfigurationError::UnknownEncoding { token: "bit-packed".to_string() })
    );
    assert_eq!(
        column_encoding_from_str("prïce:zip"),
        Err(ConfigurationError::UnknownEncoding { token: "zip".to_string() })
    );
}

#[test]
fn column_encoding_keeps_non_ascii_names() {
    assert_eq!(
        column_encoding_from_str("größe:delta-byte-array"),
        Ok(("größe".to_string(), Encoding::DELTA_BYTE_ARRAY))
    );
}

#[test]
fn compression_variants_map_to_distinct_codecs() {
    assert_eq!(CompressionVariants::Uncompressed.as_compression(), Compression::UNCOMPRESSED);
    assert_eq!(CompressionVariants::Gzip.as_compression(), Compression::GZIP);
    assert_eq!(CompressionVariants::Lz4.as_compression(), Compression::LZ4);
    assert_eq!(CompressionVariants::Lz0.as_compression(), Compression::LZO);
    assert_eq!(CompressionVariants::Zstd.as_compression(), Compression::ZSTD);
    assert_eq!(CompressionVariants::Snappy.as_compression(), Compression::SNAPPY);
    assert_eq!(CompressionVariants::Brotli.as_compression(), Compression::BROTLI);
}

#[test]
fn text_encoding_policy() {
    assert!(!EncodingArgument::System.use_utf16());
    assert!(EncodingArgument::Utf16.use_utf16());
    assert_eq!(EncodingArgument::Auto.use_utf16(), std::path::MAIN_SEPARATOR == '\\');
}
