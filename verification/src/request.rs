//! Assembly of a complete content-query request.
//!
//! A [`ContentRequest`] holds everything the object store's
//! content-filtering call needs, as plain values: the source reference, the
//! compiled query text, the fixed expression-language tag, and the two
//! serialization descriptors. Handing it to a transport is the caller's
//! business; building it correctly is proved here.

use vstd::prelude::*;
use crate::format::{
    input_descriptor, input_descriptor_matches, output_descriptor, output_descriptor_matches,
    CompressionType, InputDescriptor, InputObjectFormat, OutputDescriptor, OutputObjectFormat,
};
use crate::query::{query_text, CompileError, QueryContent};

verus! {

/// One fully assembled content-query request, as plain values.
#[derive(Debug)]
pub struct ContentRequest {
    pub bucket: String,
    pub key: String,
    /// The compiled query text.
    pub expression: String,
    /// The fixed tag naming the query dialect.
    pub expression_type: String,
    pub input: InputDescriptor,
    pub output: OutputDescriptor,
}

impl QueryContent {
    /// Assembles the full request for this query and the given
    /// serialization choices. Fails with [`CompileError::MissingSource`],
    /// and only then, when no source reference was set.
    pub fn content_request(
        &self,
        body_compression: CompressionType,
        input_serialization: InputObjectFormat,
        output_serialization: OutputObjectFormat,
    ) -> (r: Result<ContentRequest, CompileError>)
        ensures
            self.from is None ==> r == Err::<ContentRequest, CompileError>(
                CompileError::MissingSource,
            ),
            self.from matches Some(kb) ==> r matches Ok(req) && {
                &&& req.key@ == kb.0@
                &&& req.bucket@ == kb.1@
                &&& req.expression@ == query_text(*self)
                &&& req.expression_type@ == "SQL"@
                &&& input_descriptor_matches(req.input, input_serialization, body_compression)
                &&& output_descriptor_matches(req.output, output_serialization)
            },
    {
        let expression = match self.build() {
            Ok(e) => e,
            Err(e) => {
                return Err(e);
            },
        };
        match &self.from {
            None => Err(CompileError::MissingSource),
            Some(kb) => Ok(
                ContentRequest {
                    key: kb.0.clone(),
                    bucket: kb.1.clone(),
                    expression,
                    expression_type: "SQL".to_owned(),
                    input: input_descriptor(input_serialization, body_compression),
                    output: output_descriptor(output_serialization),
                },
            ),
        }
    }
}

} // verus!
