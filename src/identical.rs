//! Strategies for columns whose source values and Parquet values are binary identical, so
//! values pass through without transformation.

use vstd::prelude::*;
use parquet::basic::{ConvertedType, Repetition, Type as PhysicalType};

verus! {

/// What buffer a strategy needs the fetch to fill: its element kind, and whether it carries
/// null markers.
#[derive(Debug, Clone, Copy, PartialEq, Eq)]
pub struct BufferDescription {
    pub kind: PhysicalType,
    pub nullable: bool,
}

/// The Parquet schema of one column, built once before any row is written.
#[derive(Debug, PartialEq, Eq)]
pub struct ColumnSchemaFragment {
    pub name: String,
    pub physical_type: PhysicalType,
    pub repetition: Repetition,
    pub converted_type: ConvertedType,
    /// Precision and scale of a decimal column. The scale is always zero.
    pub precision_and_scale: Option<(i32, i32)>,
}

/// The fixed configuration of a strategy: the physical kind of its values, the converted type
/// it annotates the column with, and the decimal precision if there is one.
#[derive(Debug, Clone, Copy, PartialEq, Eq)]
pub struct StrategyConfig {
    pub kind: PhysicalType,
    pub converted_type: ConvertedType,
    pub precision: Option<i32>,
}

/// The values of one column of a batch, as the column writer takes them when nulls may occur:
/// the present values in row order, and a definition level per row (1 present, 0 null).
#[derive(Debug, Clone, PartialEq, Eq)]
pub struct OptionalBatch<T> {
    pub values: Vec<T>,
    pub def_levels: Vec<i16>,
}

/// The configuration of a strategy without a converted type.
pub open spec fn plain_config(kind: PhysicalType) -> StrategyConfig {
    StrategyConfig { kind, converted_type: ConvertedType::NONE, precision: None }
}

/// Whether `kind` can hold a decimal of scale zero as a plain integer.
pub open spec fn is_integer_kind(kind: PhysicalType) -> bool {
    kind is INT32 || kind is INT64
}

/// The configuration of a strategy for decimals of scale zero. Preferring integers, the column
/// is annotated as a plain integer of the kind's width and keeps no precision.
pub open spec fn decimal_config(
    kind: PhysicalType,
    precision: i32,
    prefer_int_over_decimal: bool,
) -> StrategyConfig {
    if prefer_int_over_decimal {
        StrategyConfig {
            kind,
            converted_type: if kind is INT32 {
                ConvertedType::INT_32
            } else {
                ConvertedType::INT_64
            },
            precision: None,
        }
    } else {
        StrategyConfig { kind, converted_type: ConvertedType::DECIMAL, precision: Some(precision) }
    }
}

/// The schema fragment that a strategy with configuration `c` declares for column `name`.
pub open spec fn fragment_of(
    c: StrategyConfig,
    name: Seq<char>,
    repetition: Repetition,
    f: ColumnSchemaFragment,
) -> bool {
    &&& f.name@ == name
    &&& f.physical_type == c.kind
    &&& f.repetition == repetition
    &&& f.converted_type == c.converted_type
    &&& f.precision_and_scale == match c.precision {
        Some(p) => Some((p, 0i32)),
        None => None,
    }
}

/// The present values of `rows`, in row order.
pub open spec fn present_values<T>(rows: Seq<Option<T>>) -> Seq<T>
    decreases rows.len(),
{
    if rows.len() == 0 {
        Seq::empty()
    } else {
        let init = present_values(rows.drop_last());
        match rows.last() {
            Some(v) => init.push(v),
            None => init,
        }
    }
}

/// The definition level of each row: 1 where a value is present, 0 where it is null.
pub open spec fn definition_levels<T>(rows: Seq<Option<T>>) -> Seq<i16> {
    Seq::new(rows.len(), |i: int| if rows[i] is Some { 1i16 } else { 0i16 })
}

fn schema_fragment(c: StrategyConfig, name: &str, repetition: Repetition) -> (r:
    ColumnSchemaFragment)
    ensures
        fragment_of(c, name@, repetition, r),
{
    ColumnSchemaFragment {
        name: name.to_owned(),
        physical_type: c.kind,
        repetition,
        converted_type: c.converted_type,
        precision_and_scale: match c.precision {
            Some(p) => Some((p, 0)),
            None => None,
        },
    }
}

fn decimal_config_exec(kind: PhysicalType, precision: i32, prefer_int_over_decimal: bool) -> (r:
    StrategyConfig)
    requires
        prefer_int_over_decimal ==> is_integer_kind(kind),
    ensures
        r == decimal_config(kind, precision, prefer_int_over_decimal),
{
    if prefer_int_over_decimal {
        let converted_type = match kind {
            PhysicalType::INT32 => ConvertedType::INT_32,
            _ => ConvertedType::INT_64,
        };
        StrategyConfig { kind, converted_type, precision: None }
    } else {
        StrategyConfig { kind, converted_type: ConvertedType::DECIMAL, precision: Some(precision) }
    }
}

/// What every strategy offers: the schema of its column, and the buffer it needs fetched.
pub trait ColumnFetchStrategy {
    /// The fixed configuration of the strategy.
    spec fn spec_config(&self) -> StrategyConfig;

    /// The repetition the strategy declares for its column.
    spec fn spec_repetition(&self) -> Repetition;

    /// The schema of column `name`.
    fn parquet_type(&self, name: &str) -> (r: ColumnSchemaFragment)
        ensures
            fragment_of(self.spec_config(), name@, self.spec_repetition(), r),
    ;

    /// The buffer the strategy needs: of its kind, nullable exactly when the column is
    /// optional.
    fn buffer_description(&self) -> (r: BufferDescription)
        ensures
            r.kind == self.spec_config().kind,
            r.nullable == (self.spec_repetition() == Repetition::OPTIONAL),
    ;
}

/// Copies identical data that may hold nulls from the fetch buffer to Parquet.
#[derive(Debug, Clone, Copy, PartialEq, Eq)]
pub struct IdenticalOptional {
    config: StrategyConfig,
}

impl View for IdenticalOptional {
    type V = StrategyConfig;

    closed spec fn view(&self) -> StrategyConfig {
        self.config
    }
}

impl ColumnFetchStrategy for IdenticalOptional {
    open spec fn spec_config(&self) -> StrategyConfig {
        self@
    }

    open spec fn spec_repetition(&self) -> Repetition {
        Repetition::OPTIONAL
    }

    fn parquet_type(&self, name: &str) -> (r: ColumnSchemaFragment) {
        schema_fragment(self.config, name, Repetition::OPTIONAL)
    }

    fn buffer_description(&self) -> (r: BufferDescription) {
        BufferDescription { kind: self.config.kind, nullable: true }
    }
}

impl IdenticalOptional {
    /// A strategy for values of `kind` without a converted type.
    pub fn new(kind: PhysicalType) -> (r: Self)
        ensures
            r@ == plain_config(kind),
    {
        Self::with_converted_type(kind, ConvertedType::NONE)
    }

    /// Buffer and Parquet values are identical, but the column is annotated with
    /// `converted_type`.
    pub fn with_converted_type(kind: PhysicalType, converted_type: ConvertedType) -> (r: Self)
        ensures
            r@ == (StrategyConfig { kind, converted_type, precision: None }),
    {
        Self { config: StrategyConfig { kind, converted_type, precision: None } }
    }

    /// Decimals with a scale of zero are binary identical to 32 or 64 bit integers. Preferring
    /// integers is only possible on those two kinds.
    pub fn decimal_with_precision(
        kind: PhysicalType,
        precision: i32,
        prefer_int_over_decimal: bool,
    ) -> (r: Self)
        requires
            prefer_int_over_decimal ==> is_integer_kind(kind),
        ensures
            r@ == decimal_config(kind, precision, prefer_int_over_decimal),
    {
        Self { config: decimal_config_exec(kind, precision, prefer_int_over_decimal) }
    }

    /// The fixed configuration of this strategy.
    pub fn config(&self) -> (r: StrategyConfig)
        ensures
            r == self@,
    {
        self.config
    }

    /// The values and definition levels to write for one batch, in row order.
    pub fn copy_odbc_to_parquet<T: Copy>(&self, column_view: &[Option<T>]) -> (r: OptionalBatch<T>)
        ensures
            r.values@ == present_values(column_view@),
            r.def_levels@ == definition_levels(column_view@),
    {
        let mut values: Vec<T> = Vec::new();
        let mut def_levels: Vec<i16> = Vec::new();
        let mut i: usize = 0;
        while i < column_view.len()
            invariant
                i <= column_view@.len(),
                values@ == present_values(column_view@.take(i as int)),
                def_levels@ == definition_levels(column_view@.take(i as int)),
            decreases column_view@.len() - i,
        {
            let ghost before = column_view@.take(i as int);
            let row: Option<T> = column_view[i];
            match row {
                Some(v) => {
                    values.push(v);
                    def_levels.push(1);
                },
                None => {
                    def_levels.push(0);
                },
            }
            i = i + 1;
            assert(column_view@.take(i as int).drop_last() =~= before);
            assert(def_levels@ =~= definition_levels(column_view@.take(i as int)));
        }
        assert(column_view@.take(i as int) =~= column_view@);
        OptionalBatch { values, def_levels }
    }
}

/// Optimized strategy for identical data that is known to hold no nulls.
#[derive(Debug, Clone, Copy, PartialEq, Eq)]
pub struct IdenticalRequired {
    config: StrategyConfig,
}

impl View for IdenticalRequired {
    type V = StrategyConfig;

    closed spec fn view(&self) -> StrategyConfig {
        self.config
    }
}

impl ColumnFetchStrategy for IdenticalRequired {
    open spec fn spec_config(&self) -> StrategyConfig {
        self@
    }

    open spec fn spec_repetition(&self) -> Repetition {
        Repetition::REQUIRED
    }

    fn parquet_type(&self, name: &str) -> (r: ColumnSchemaFragment) {
        schema_fragment(self.config, name, Repetition::REQUIRED)
    }

    fn buffer_description(&self) -> (r: BufferDescription) {
        BufferDescription { kind: self.config.kind, nullable: false }
    }
}

impl IdenticalRequired {
    /// A strategy for values of `kind` without a converted type.
    pub fn new(kind: PhysicalType) -> (r: Self)
        ensures
            r@ == plain_config(kind),
    {
        Self::with_converted_type(kind, ConvertedType::NONE)
    }

    /// Buffer and Parquet values are identical, but the column is annotated with
    /// `converted_type`.
    pub fn with_converted_type(kind: PhysicalType, converted_type: ConvertedType) -> (r: Self)
        ensures
            r@ == (StrategyConfig { kind, converted_type, precision: None }),
    {
        Self { config: StrategyConfig { kind, converted_type, precision: None } }
    }

    /// Decimals with a scale of zero are binary identical to 32 or 64 bit integers. Preferring
    /// integers is only possible on those two kinds.
    pub fn decimal_with_precision(
        kind: PhysicalType,
        precision: i32,
        prefer_int_over_decimal: bool,
    ) -> (r: Self)
        requires
            prefer_int_over_decimal ==> is_integer_kind(kind),
        ensures
            r@ == decimal_config(kind, precision, prefer_int_over_decimal),
    {
        Self { config: decimal_config_exec(kind, precision, prefer_int_over_decimal) }
    }

    /// The fixed configuration of this strategy.
    pub fn config(&self) -> (r: StrategyConfig)
        ensures
            r == self@,
    {
        self.config
    }

    /// The values to write for one batch. They need neither transformation nor gaps for
    /// nulls, so the fetch buffer itself goes to the writer, with no definition levels.
    pub fn copy_odbc_to_parquet<'a, T>(&self, column_view: &'a [T]) -> (r: &'a [T])
        ensures
            r@ == column_view@,
    {
        column_view
    }
}

/// A strategy for binary identical data, with or without nulls.
#[derive(Debug, Clone, Copy, PartialEq, Eq)]
pub enum IdenticalStrategy {
    Optional(IdenticalOptional),
    Required(IdenticalRequired),
}

impl ColumnFetchStrategy for IdenticalStrategy {
    open spec fn spec_config(&self) -> StrategyConfig {
        match self {
            IdenticalStrategy::Optional(s) => s@,
            IdenticalStrategy::Required(s) => s@,
        }
    }

    open spec fn spec_repetition(&self) -> Repetition {
        match self {
            IdenticalStrategy::Optional(_) => Repetition::OPTIONAL,
            IdenticalStrategy::Required(_) => Repetition::REQUIRED,
        }
    }

    fn parquet_type(&self, name: &str) -> (r: ColumnSchemaFragment) {
        match self {
            IdenticalStrategy::Optional(s) => s.parquet_type(name),
            IdenticalStrategy::Required(s) => s.parquet_type(name),
        }
    }

    fn buffer_description(&self) -> (r: BufferDescription) {
        match self {
            IdenticalStrategy::Optional(s) => s.buffer_description(),
            IdenticalStrategy::Required(s) => s.buffer_description(),
        }
    }
}

/// The strategy for values of `kind`: optional or required as the column is.
pub fn fetch_identical(kind: PhysicalType, is_optional: bool) -> (r: IdenticalStrategy)
    ensures
        r is Optional <==> is_optional,
        r.spec_config() == plain_config(kind),
{
    if is_optional {
        IdenticalStrategy::Optional(IdenticalOptional::new(kind))
    } else {
        IdenticalStrategy::Required(IdenticalRequired::new(kind))
    }
}

/// The strategy for values of `kind` whose column is annotated with `converted_type`.
pub fn fetch_identical_with_converted_type(
    kind: PhysicalType,
    is_optional: bool,
    converted_type: ConvertedType,
) -> (r: IdenticalStrategy)
    ensures
        r is Optional <==> is_optional,
        r.spec_config() == (StrategyConfig { kind, converted_type, precision: None }),
{
    if is_optional {
        IdenticalStrategy::Optional(IdenticalOptional::with_converted_type(kind, converted_type))
    } else {
        IdenticalStrategy::Required(IdenticalRequired::with_converted_type(kind, converted_type))
    }
}

/// The strategy for decimals of scale zero held as values of `kind`.
pub fn fetch_decimal_as_identical_with_precision(
    kind: PhysicalType,
    is_optional: bool,
    precision: i32,
    prefer_int_over_decimal: bool,
) -> (r: IdenticalStrategy)
    requires
        prefer_int_over_decimal ==> is_integer_kind(kind),
    ensures
        r is Optional <==> is_optional,
        r.spec_config() == decimal_config(kind, precision, prefer_int_over_decimal),
{
    if is_optional {
        IdenticalStrategy::Optional(
            IdenticalOptional::decimal_with_precision(kind, precision, prefer_int_over_decimal),
        )
    } else {
        IdenticalStrategy::Required(
            IdenticalRequired::decimal_with_precision(kind, precision, prefer_int_over_decimal),
        )
    }
}

/// The rows that a column writer reads back from present values and definition levels.
pub open spec fn logical_slots<T>(values: Seq<T>, def_levels: Seq<i16>) -> Seq<Option<T>>
    decreases def_levels.len(),
{
    if def_levels.len() == 0 {
        Seq::empty()
    } else if def_levels.last() == 1 {
        logical_slots(values.drop_last(), def_levels.drop_last()).push(Some(values.last()))
    } else {
        logical_slots(values, def_levels.drop_last()).push(None)
    }
}

/// What the optional transfer writes for a batch holds one logical slot per row, a null
/// exactly where the row is absent and its value where it is present, in row order.
pub proof fn lemma_optional_batch_slots<T>(rows: Seq<Option<T>>)
    ensures
        definition_levels(rows).len() == rows.len(),
        forall|i: int| 0 <= i < rows.len() ==> (#[trigger] definition_levels(rows)[i] == 0
            <==> rows[i] is None),
        logical_slots(present_values(rows), definition_levels(rows)) == rows,
    decreases rows.len(),
{
    if rows.len() > 0 {
        let init = rows.drop_last();
        lemma_optional_batch_slots(init);
        assert(definition_levels(rows).drop_last() =~= definition_levels(init));
        assert(rows =~= init.push(rows.last()));
        match rows.last() {
            Some(v) => {
                assert(present_values(rows).drop_last() =~= present_values(init));
            },
            None => {},
        }
    }
}

/// Choosing integers over decimals on a 32 or 64 bit kind annotates the column as an integer
/// of that width and stores no precision, whatever the precision was.
pub proof fn lemma_decimal_as_integer(kind: PhysicalType, precision: i32)
    requires
        is_integer_kind(kind),
    ensures
        decimal_config(kind, precision, true).precision is None,
        kind is INT32 ==> decimal_config(kind, precision, true).converted_type
            == ConvertedType::INT_32,
        kind is INT64 ==> decimal_config(kind, precision, true).converted_type
            == ConvertedType::INT_64,
        decimal_config(kind, precision, true).kind == kind,
{
}

} // verus!
