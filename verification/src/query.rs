//! A query over the contents of an object, with the request that it came from.
use std::sync::Arc;
use vstd::prelude::*;

verus! {

/// The S3 `SelectObjectContent` request, `s3s::dto::SelectObjectContentInput`.
#[verifier::external_type_specification]
#[verifier::external_body]
pub struct ExSelectObjectContentInput(s3s::dto::SelectObjectContentInput);

/// What a query is run in.
pub struct Context {
    /// The request that asked for the query.
    pub input: Arc<s3s::dto::SelectObjectContentInput>,
}

impl Clone for Context {
    fn clone(&self) -> (r: Self)
        ensures
            r == *self,
    {
        Context { input: self.input.clone() }
    }
}

/// A query: its text, and the context to run it in.
pub struct Query {
    context: Context,
    content: String,
}

impl Clone for Query {
    fn clone(&self) -> (r: Self)
        ensures
            r == *self,
    {
        Query { context: self.context.clone(), content: self.content.clone() }
    }
}

impl Query {
    /// The context of the query.
    pub closed spec fn spec_context(self) -> Context {
        self.context
    }

    /// The characters of the query.
    pub closed spec fn spec_content(self) -> Seq<char> {
        self.content@
    }

    /// Makes a query.
    #[inline(always)]
    pub fn new(context: Context, content: String) -> (r: Self)
        ensures
            r.spec_context() == context,
            r.spec_content() == content@,
    {
        Self { context, content }
    }

    /// The context that the query was made with.
    pub fn context(&self) -> (r: &Context)
        ensures
            *r == self.spec_context(),
    {
        &self.context
    }

    /// The text that the query was made with.
    pub fn content(&self) -> (r: &str)
        ensures
            r@ == self.spec_content(),
    {
        self.content.as_str()
    }
}

} // verus!
