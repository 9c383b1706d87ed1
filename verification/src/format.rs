//! Serialization and compression selection.
//!
//! Three independent choices — input structural format, output structural
//! format, and body compression — are mapped onto the plain descriptor
//! values the content-query request carries. The mapping is total: every
//! combination of the variants has a defined image.

use vstd::prelude::*;

verus! {

/// How a JSON input object is structured: one document, or one record
/// per line.
#[derive(Clone, Copy)]
pub enum JsonType {
    Document,
    Lines,
}

/// The structural format of the stored object the query scans.
#[derive(Clone, Copy)]
pub enum InputObjectFormat {
    JSON(JsonType),
    Parquet,
}

/// The compression applied to the stored object's body.
#[derive(Clone, Copy)]
pub enum CompressionType {
    NONE,
    GZIP,
    BZIP2,
}

/// The structural format of the query's result records: JSON with an
/// optional record delimiter.
#[derive(Clone)]
pub enum OutputObjectFormat {
    JSON(Option<String>),
}

/// The protocol tag a compression choice maps to: no tag when the body is
/// uncompressed, the codec's name otherwise.
pub open spec fn compression_tag(c: CompressionType) -> Option<Seq<char>> {
    match c {
        CompressionType::NONE => None,
        CompressionType::GZIP => Some("GZIP"@),
        CompressionType::BZIP2 => Some("BZIP2"@),
    }
}

/// The protocol tag a JSON structure choice maps to.
pub open spec fn json_type_tag(t: JsonType) -> Seq<char> {
    match t {
        JsonType::Document => "Document"@,
        JsonType::Lines => "Lines"@,
    }
}

/// Maps a compression choice to its protocol tag.
pub fn compression(body_compression: CompressionType) -> (r: Option<String>)
    ensures
        match r {
            None => compression_tag(body_compression) is None,
            Some(s) => compression_tag(body_compression) matches Some(t) && s@ == t,
        },
{
    match body_compression {
        CompressionType::BZIP2 => Some("BZIP2".to_owned()),
        CompressionType::GZIP => Some("GZIP".to_owned()),
        CompressionType::NONE => None,
    }
}

/// The input serialization descriptor: which structural format the stored
/// object uses, and how its body is compressed, as plain values.
#[derive(Debug)]
pub struct InputDescriptor {
    /// The JSON structure tag when the input is JSON; unset for columnar
    /// input.
    pub json: Option<String>,
    /// Whether the input is the columnar binary format.
    pub parquet: bool,
    /// The compression tag; unset when the body is uncompressed.
    pub compression: Option<String>,
}

/// The output serialization descriptor: JSON output with an optional
/// record delimiter.
#[derive(Debug)]
pub struct OutputDescriptor {
    pub record_delimiter: Option<String>,
}

/// What a well-formed input descriptor for the given choices holds.
pub open spec fn input_descriptor_matches(
    d: InputDescriptor,
    format: InputObjectFormat,
    body_compression: CompressionType,
) -> bool {
    &&& match format {
        InputObjectFormat::Parquet => d.json is None && d.parquet,
        InputObjectFormat::JSON(t) => {
            &&& !d.parquet
            &&& d.json matches Some(s) && s@ == json_type_tag(t)
        },
    }
    &&& match d.compression {
        None => compression_tag(body_compression) is None,
        Some(s) => compression_tag(body_compression) matches Some(t) && s@ == t,
    }
}

/// What a well-formed output descriptor for the given choice holds.
pub open spec fn output_descriptor_matches(d: OutputDescriptor, format: OutputObjectFormat) -> bool {
    match format {
        OutputObjectFormat::JSON(delimiter) => d.record_delimiter == delimiter,
    }
}

/// Maps the input format and compression choices to the input
/// serialization descriptor. Total: every combination has an image.
pub fn input_descriptor(format: InputObjectFormat, body_compression: CompressionType) -> (r:
    InputDescriptor)
    ensures
        input_descriptor_matches(r, format, body_compression),
{
    match format {
        InputObjectFormat::Parquet => InputDescriptor {
            json: None,
            parquet: true,
            compression: compression(body_compression),
        },
        InputObjectFormat::JSON(t) => InputDescriptor {
            json: Some(
                match t {
                    JsonType::Document => "Document".to_owned(),
                    JsonType::Lines => "Lines".to_owned(),
                },
            ),
            parquet: false,
            compression: compression(body_compression),
        },
    }
}

/// Maps the output format choice to the output serialization descriptor.
pub fn output_descriptor(format: OutputObjectFormat) -> (r: OutputDescriptor)
    ensures
        output_descriptor_matches(r, format),
{
    match format {
        OutputObjectFormat::JSON(delimiter) => OutputDescriptor { record_delimiter: delimiter },
    }
}

} // verus!
