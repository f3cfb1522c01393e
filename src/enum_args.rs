//! Mappings from configuration tokens to text-encoding policies, compression codecs and
//! column encodings.

use vstd::prelude::*;
use parquet::basic::{Compression, Encoding};
use crate::text::{chars_between, chars_of, same_chars, string_from_chars};

verus! {

/// Which character encoding to request from the data source for text columns.
#[derive(Debug, Clone, Copy, PartialEq, Eq, Structural)]
pub enum EncodingArgument {
    /// The system encoding: no wide character buffers.
    System,
    /// Always wide (UTF-16) character buffers.
    Utf16,
    /// UTF-16 on Windows, the system encoding everywhere else.
    Auto,
}

/// Relies on `std::path::is_separator`: `'\\'` separates path components on Windows
/// alone. The result is fixed for the platform the crate was built for.
#[verifier::external_body]
fn platform_is_windows() -> (r: bool) {
    std::path::is_separator('\\')
}

impl EncodingArgument {
    /// Whether wide character buffers should be bound.
    pub fn use_utf16(self) -> (r: bool)
        ensures
            self is System ==> !r,
            self is Utf16 ==> r,
    {
        match self {
            EncodingArgument::System => false,
            EncodingArgument::Utf16 => true,
            // Most Windows systems do not use UTF-8 as their default encoding yet; Linux and
            // macOS do.
            EncodingArgument::Auto => platform_is_windows(),
        }
    }
}

/// The compression codecs that can be chosen for the written file.
#[derive(Debug, Clone, Copy, PartialEq, Eq, Structural)]
pub enum CompressionVariants {
    Uncompressed,
    Gzip,
    Lz4,
    Lz0,
    Zstd,
    Snappy,
    Brotli,
}

impl CompressionVariants {
    /// The Parquet codec that each variant names.
    pub open spec fn spec_compression(self) -> Compression {
        match self {
            CompressionVariants::Uncompressed => Compression::UNCOMPRESSED,
            CompressionVariants::Gzip => Compression::GZIP,
            CompressionVariants::Lz4 => Compression::LZ4,
            CompressionVariants::Lz0 => Compression::LZO,
            CompressionVariants::Zstd => Compression::ZSTD,
            CompressionVariants::Snappy => Compression::SNAPPY,
            CompressionVariants::Brotli => Compression::BROTLI,
        }
    }

    /// The Parquet codec of this variant. Each variant maps to a codec of its own.
    pub fn as_compression(self) -> (r: Compression)
        ensures
            r == self.spec_compression(),
    {
        match self {
            CompressionVariants::Uncompressed => Compression::UNCOMPRESSED,
            CompressionVariants::Gzip => Compression::GZIP,
            CompressionVariants::Lz4 => Compression::LZ4,
            CompressionVariants::Lz0 => Compression::LZO,
            CompressionVariants::Zstd => Compression::ZSTD,
            CompressionVariants::Snappy => Compression::SNAPPY,
            CompressionVariants::Brotli => Compression::BROTLI,
        }
    }
}

/// A configuration value that could not be understood.
#[derive(Debug, Clone, PartialEq, Eq)]
pub enum ConfigurationError {
    /// No column encoding is called `token`.
    UnknownEncoding { token: String },
    /// A column encoding override lacks the `:` between column name and encoding.
    MissingColumnSeparator,
}

/// The encoding that `name` selects, if any. `bit-packed` and `rle-dictionary` are left out on
/// purpose: the first is not supported for writing, the second is no valid fallback encoding.
pub open spec fn encoding_of_name(name: Seq<char>) -> Option<Encoding> {
    if name == "plain"@ {
        Some(Encoding::PLAIN)
    } else if name == "delta-binary-packed"@ {
        Some(Encoding::DELTA_BINARY_PACKED)
    } else if name == "delta-byte-array"@ {
        Some(Encoding::DELTA_BYTE_ARRAY)
    } else if name == "delta-length-byte-array"@ {
        Some(Encoding::DELTA_LENGTH_BYTE_ARRAY)
    } else if name == "rle"@ {
        Some(Encoding::RLE)
    } else {
        None
    }
}

/// What parsing `source` as an encoding name yields.
pub open spec fn encoding_result_matches(
    source: Seq<char>,
    r: Result<Encoding, ConfigurationError>,
) -> bool {
    match r {
        Ok(e) => encoding_of_name(source) == Some(e),
        Err(err) => {
            &&& encoding_of_name(source) is None
            &&& err matches ConfigurationError::UnknownEncoding { token } && token@ == source
        },
    }
}

fn encoding_from_chars(source: &[char]) -> (r: Result<Encoding, ConfigurationError>)
    ensures
        encoding_result_matches(source@, r),
{
    let encoding = if same_chars(source, chars_of("plain").as_slice()) {
        Encoding::PLAIN
    } else if same_chars(source, chars_of("delta-binary-packed").as_slice()) {
        Encoding::DELTA_BINARY_PACKED
    } else if same_chars(source, chars_of("delta-byte-array").as_slice()) {
        Encoding::DELTA_BYTE_ARRAY
    } else if same_chars(source, chars_of("delta-length-byte-array").as_slice()) {
        Encoding::DELTA_LENGTH_BYTE_ARRAY
    } else if same_chars(source, chars_of("rle").as_slice()) {
        Encoding::RLE
    } else {
        return Err(ConfigurationError::UnknownEncoding { token: string_from_chars(source) });
    };
    Ok(encoding)
}

/// Parses the name of a column encoding.
pub fn encoding_from_str(source: &str) -> (r: Result<Encoding, ConfigurationError>)
    ensures
        encoding_result_matches(source@, r),
{
    let chars = chars_of(source);
    encoding_from_chars(chars.as_slice())
}

/// Whether `i` is the position of the last `:` in `s`.
pub open spec fn is_last_colon(s: Seq<char>, i: int) -> bool {
    &&& 0 <= i < s.len()
    &&& s[i] == ':'
    &&& forall|j: int| i < j < s.len() ==> s[j] != ':'
}

/// Parses `COLUMN_NAME:ENCODING`. The split is at the last colon, so column names may hold
/// colons themselves.
pub fn column_encoding_from_str(source: &str) -> (r: Result<(String, Encoding), ConfigurationError>)
    ensures
        !source@.contains(':') <==> r == Err::<(String, Encoding), ConfigurationError>(
            ConfigurationError::MissingColumnSeparator,
        ),
        source@.contains(':') ==> exists|i: int|
            {
                &&& #[trigger] is_last_colon(source@, i)
                &&& encoding_result_matches(
                    source@.skip(i + 1),
                    match r {
                        Ok((_, e)) => Ok(e),
                        Err(err) => Err(err),
                    },
                )
                &&& r matches Ok((name, _)) ==> name@ == source@.take(i)
            },
{
    let chars = chars_of(source);
    let mut pos: usize = chars.len();
    while pos > 0 && chars[pos - 1] != ':'
        invariant
            chars@ == source@,
            pos <= chars@.len(),
            forall|j: int| pos <= j < chars@.len() ==> chars@[j] != ':',
        decreases pos,
    {
        pos = pos - 1;
    }
    if pos == 0 {
        assert(!source@.contains(':'));
        return Err(ConfigurationError::MissingColumnSeparator);
    }
    let colon = pos - 1;
    assert(is_last_colon(source@, colon as int));
    let name = string_from_chars(chars_between(chars.as_slice(), 0, colon).as_slice());
    let rest = chars_between(chars.as_slice(), colon + 1, chars.len());
    assert(rest@ =~= source@.skip(colon + 1));
    assert(name@ =~= source@.take(colon as int));
    match encoding_from_chars(rest.as_slice()) {
        Ok(e) => Ok((name, e)),
        Err(err) => Err(err),
    }
}

} // verus!
