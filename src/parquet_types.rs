//! Parquet's enumerations of physical types, converted types, repetitions, encodings and
//! compression codecs, made known to the verifier with all their variants.

use vstd::prelude::*;

verus! {

/// Parquet's physical types.
#[verifier::external_type_specification]
pub struct ExPhysicalType(parquet::basic::Type);

/// Parquet's converted types, the former logical annotations.
#[verifier::external_type_specification]
pub struct ExConvertedType(parquet::basic::ConvertedType);

/// Whether a Parquet column is required, optional or repeated.
#[verifier::external_type_specification]
pub struct ExRepetition(parquet::basic::Repetition);

/// Parquet's value encodings.
#[verifier::external_type_specification]
pub struct ExEncoding(parquet::basic::Encoding);

/// Parquet's compression codecs.
#[verifier::external_type_specification]
pub struct ExCompression(parquet::basic::Compression);

} // verus!
