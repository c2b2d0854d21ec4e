use vstd::prelude::*;
use crate::std_text::{lower_of, lowercase, trim, trimmed};
use crate::text::str_equal;

verus! {

/// The canonical logical column types that warehouse type names resolve to.
#[derive(Debug, Clone, Copy, PartialEq, Eq, Structural)]
pub enum LogicalType {
    Integer,
    BigInt,
    SmallInt,
    Decimal,
    Numeric,
    Double,
    Float,
    Boolean,
    Varchar,
    Char,
    Text,
    String,
    Date,
    DateTime,
    Time,
    Timestamp,
    TimestampTz,
    Binary,
    Array,
    Object,
    Variant,
    Json,
}

/// The canonical name of each logical type.
pub open spec fn canonical_type(s: Seq<char>) -> Option<LogicalType> {
    if s == "integer"@ { Some(LogicalType::Integer) }
    else if s == "big_int"@ { Some(LogicalType::BigInt) }
    else if s == "small_int"@ { Some(LogicalType::SmallInt) }
    else if s == "decimal"@ { Some(LogicalType::Decimal) }
    else if s == "numeric"@ { Some(LogicalType::Numeric) }
    else if s == "double"@ { Some(LogicalType::Double) }
    else if s == "float"@ { Some(LogicalType::Float) }
    else if s == "boolean"@ { Some(LogicalType::Boolean) }
    else if s == "varchar"@ { Some(LogicalType::Varchar) }
    else if s == "char"@ { Some(LogicalType::Char) }
    else if s == "text"@ { Some(LogicalType::Text) }
    else if s == "string"@ { Some(LogicalType::String) }
    else if s == "date"@ { Some(LogicalType::Date) }
    else if s == "date_time"@ { Some(LogicalType::DateTime) }
    else if s == "time"@ { Some(LogicalType::Time) }
    else if s == "timestamp"@ { Some(LogicalType::Timestamp) }
    else if s == "timestamptz"@ { Some(LogicalType::TimestampTz) }
    else if s == "binary"@ { Some(LogicalType::Binary) }
    else if s == "array"@ { Some(LogicalType::Array) }
    else if s == "object"@ { Some(LogicalType::Object) }
    else if s == "variant"@ { Some(LogicalType::Variant) }
    else if s == "json"@ { Some(LogicalType::Json) }
    else { None }
}

/// Short and vendor-specific type names.
pub open spec fn alias_type(s: Seq<char>) -> Option<LogicalType> {
    if s == "number"@ { Some(LogicalType::Decimal) }
    else if s == "int"@ || s == "int4"@ { Some(LogicalType::Integer) }
    else if s == "bool"@ { Some(LogicalType::Boolean) }
    else if s == "int2"@ || s == "smallint"@ { Some(LogicalType::SmallInt) }
    else if s == "int8"@ || s == "bigint"@ { Some(LogicalType::BigInt) }
    else if s == "float8"@ || s == "double precision"@ { Some(LogicalType::Double) }
    else if s == "float4"@ { Some(LogicalType::Float) }
    else if s == "bytea"@ { Some(LogicalType::Binary) }
    else if s == "super"@ { Some(LogicalType::Variant) }
    else if s == "datetime2"@ { Some(LogicalType::DateTime) }
    else if s == "character varying"@ || s == "nvarchar"@ { Some(LogicalType::Varchar) }
    else if s == "character"@ || s == "nchar"@ { Some(LogicalType::Char) }
    else if s == "struct"@ { Some(LogicalType::Object) }
    else { None }
}

/// The part of a string before its first `(`.
pub open spec fn before_paren(s: Seq<char>) -> Seq<char>
    decreases s.len(),
{
    if s.len() == 0 {
        s
    } else if s[0] == '(' {
        seq![]
    } else {
        seq![s[0]] + before_paren(s.skip(1))
    }
}

/// The base of a raw type name: lowercased, parameters dropped, trimmed.
pub open spec fn base_type_name(raw: Seq<char>) -> Seq<char> {
    trimmed(before_paren(lower_of(raw)))
}

/// The logical type of a base type name: any array form, a canonical name, or an alias.
pub open spec fn classify_type(b: Seq<char>) -> Option<LogicalType> {
    if b.len() >= 5 && b.subrange(0, 5) == "array"@ {
        Some(LogicalType::Array)
    } else if canonical_type(b) is Some {
        canonical_type(b)
    } else {
        alias_type(b)
    }
}

impl LogicalType {
    /// Looks a logical type up by its canonical name.
    pub fn from_name(s: &str) -> (r: Option<LogicalType>)
        ensures
            r == canonical_type(s@),
    {
        if str_equal(s, "integer") { Some(LogicalType::Integer) }
        else if str_equal(s, "big_int") { Some(LogicalType::BigInt) }
        else if str_equal(s, "small_int") { Some(LogicalType::SmallInt) }
        else if str_equal(s, "decimal") { Some(LogicalType::Decimal) }
        else if str_equal(s, "numeric") { Some(LogicalType::Numeric) }
        else if str_equal(s, "double") { Some(LogicalType::Double) }
        else if str_equal(s, "float") { Some(LogicalType::Float) }
        else if str_equal(s, "boolean") { Some(LogicalType::Boolean) }
        else if str_equal(s, "varchar") { Some(LogicalType::Varchar) }
        else if str_equal(s, "char") { Some(LogicalType::Char) }
        else if str_equal(s, "text") { Some(LogicalType::Text) }
        else if str_equal(s, "string") { Some(LogicalType::String) }
        else if str_equal(s, "date") { Some(LogicalType::Date) }
        else if str_equal(s, "date_time") { Some(LogicalType::DateTime) }
        else if str_equal(s, "time") { Some(LogicalType::Time) }
        else if str_equal(s, "timestamp") { Some(LogicalType::Timestamp) }
        else if str_equal(s, "timestamptz") { Some(LogicalType::TimestampTz) }
        else if str_equal(s, "binary") { Some(LogicalType::Binary) }
        else if str_equal(s, "array") { Some(LogicalType::Array) }
        else if str_equal(s, "object") { Some(LogicalType::Object) }
        else if str_equal(s, "variant") { Some(LogicalType::Variant) }
        else if str_equal(s, "json") { Some(LogicalType::Json) }
        else { None }
    }
}

fn alias_lookup(s: &str) -> (r: Option<LogicalType>)
    ensures
        r == alias_type(s@),
{
    if str_equal(s, "number") { Some(LogicalType::Decimal) }
    else if str_equal(s, "int") || str_equal(s, "int4") { Some(LogicalType::Integer) }
    else if str_equal(s, "bool") { Some(LogicalType::Boolean) }
    else if str_equal(s, "int2") || str_equal(s, "smallint") { Some(LogicalType::SmallInt) }
    else if str_equal(s, "int8") || str_equal(s, "bigint") { Some(LogicalType::BigInt) }
    else if str_equal(s, "float8") || str_equal(s, "double precision") { Some(LogicalType::Double) }
    else if str_equal(s, "float4") { Some(LogicalType::Float) }
    else if str_equal(s, "bytea") { Some(LogicalType::Binary) }
    else if str_equal(s, "super") { Some(LogicalType::Variant) }
    else if str_equal(s, "datetime2") { Some(LogicalType::DateTime) }
    else if str_equal(s, "character varying") || str_equal(s, "nvarchar") { Some(LogicalType::Varchar) }
    else if str_equal(s, "character") || str_equal(s, "nchar") { Some(LogicalType::Char) }
    else if str_equal(s, "struct") { Some(LogicalType::Object) }
    else { None }
}

/// The part of `s` before its first `(`.
pub fn strip_parameters(s: &str) -> (r: &str)
    ensures
        r@ == before_paren(s@),
{
    let n = s.unicode_len();
    let mut i: usize = 0;
    let mut found = false;
    proof {
        assert(s@.skip(0) =~= s@);
        assert(s@.subrange(0, 0) + before_paren(s@) =~= before_paren(s@));
    }
    while i < n && !found
        invariant
            i <= n == s@.len(),
            found ==> i < n && s@[i as int] == '(',
            before_paren(s@) == s@.subrange(0, i as int) + before_paren(s@.skip(i as int)),
        decreases n - i + (if found { 0int } else { 1int }),
    {
        if s.get_char(i) == '(' {
            found = true;
        } else {
            proof {
                let rest = s@.skip(i as int);
                assert(rest.skip(1) =~= s@.skip(i + 1));
                assert(s@.subrange(0, i + 1) =~= s@.subrange(0, i as int) + seq![rest[0]]);
            }
            i += 1;
        }
    }
    proof {
        if found {
            assert(s@.skip(i as int)[0] == '(');
            assert(before_paren(s@.skip(i as int)) =~= seq![]);
        } else {
            assert(s@.skip(i as int) =~= seq![]);
        }
        assert(s@.subrange(0, i as int) + seq![] =~= s@.subrange(0, i as int));
    }
    s.substring_char(0, i)
}

/// Resolves a raw warehouse column type to its logical type, or `None` when
/// the name is not recognized.
pub fn parse_logical_type(raw: &str) -> (r: Option<LogicalType>)
    ensures
        r == classify_type(base_type_name(raw@)),
{
    let lower = lowercase(raw);
    let base = trim(strip_parameters(lower.as_str()));
    let n = base.unicode_len();
    if n >= 5 && str_equal(base.substring_char(0, 5), "array") {
        return Some(LogicalType::Array);
    }
    match LogicalType::from_name(base) {
        Some(t) => Some(t),
        None => alias_lookup(base),
    }
}

} // verus!
