//! The process-wide context: instrumentation key and default properties and tags.
use vstd::prelude::*;
use crate::maps::TextMap;
use crate::request::{ContextTags, Properties};

verus! {

/// The instrumentation key with every `-` removed.
pub open spec fn normalized_key(key: Seq<char>) -> Seq<char> {
    key.filter(|c: char| c != '-')
}

/// Relies on std's `str::replace`, which puts the replacement in place of every
/// match: here each `-` is replaced by nothing.
#[verifier::external_body]
fn strip_dashes(s: &str) -> (r: String)
    ensures
        r@ == normalized_key(s@),
{
    s.replace('-', "")
}

/// Defaults shared by every record: the instrumentation key, its normalised
/// form, and the default properties and tags.
#[derive(Debug)]
pub struct TelemetryContext {
    i_key: String,
    normalized_i_key: String,
    properties: Properties,
    tags: ContextTags,
}

impl TelemetryContext {
    pub closed spec fn spec_i_key(&self) -> Seq<char> {
        self.i_key@
    }

    pub closed spec fn spec_normalized_i_key(&self) -> Seq<char> {
        self.normalized_i_key@
    }

    pub closed spec fn spec_properties(&self) -> Properties {
        self.properties
    }

    pub closed spec fn spec_tags(&self) -> ContextTags {
        self.tags
    }

    pub open spec fn wf(&self) -> bool {
        &&& self.spec_normalized_i_key() == normalized_key(self.spec_i_key())
        &&& self.spec_properties().wf()
        &&& self.spec_tags().wf()
    }

    /// A context for instrumentation key `i_key`, with no properties or tags.
    pub fn new(i_key: String) -> (r: TelemetryContext)
        ensures
            r.wf(),
            r.spec_i_key() == i_key@,
            r.spec_normalized_i_key() == normalized_key(i_key@),
            r.spec_properties()@ == Map::<Seq<char>, String>::empty(),
            r.spec_tags()@ == Map::<Seq<char>, String>::empty(),
    {
        let normalized_i_key = strip_dashes(i_key.as_str());
        TelemetryContext { i_key, normalized_i_key, properties: TextMap::new(), tags: TextMap::new() }
    }

    pub fn i_key(&self) -> (r: &String)
        ensures
            r@ == self.spec_i_key(),
    {
        &self.i_key
    }

    pub fn normalized_i_key(&self) -> (r: &String)
        ensures
            r@ == self.spec_normalized_i_key(),
    {
        &self.normalized_i_key
    }

    /// The default properties.
    pub fn properties(&self) -> (r: &Properties)
        ensures
            *r == self.spec_properties(),
    {
        &self.properties
    }

    /// The default properties, to change.
    pub fn properties_mut(&mut self) -> (r: &mut Properties)
        ensures
            *r == old(self).spec_properties(),
            final(self).spec_properties() == *final(r),
            final(self).spec_i_key() == old(self).spec_i_key(),
            final(self).spec_normalized_i_key() == old(self).spec_normalized_i_key(),
            final(self).spec_tags() == old(self).spec_tags(),
    {
        &mut self.properties
    }

    /// The default tags.
    pub fn tags(&self) -> (r: &ContextTags)
        ensures
            *r == self.spec_tags(),
    {
        &self.tags
    }

    /// The default tags, to change.
    pub fn tags_mut(&mut self) -> (r: &mut ContextTags)
        ensures
            *r == old(self).spec_tags(),
            final(self).spec_tags() == *final(r),
            final(self).spec_i_key() == old(self).spec_i_key(),
            final(self).spec_normalized_i_key() == old(self).spec_normalized_i_key(),
            final(self).spec_properties() == old(self).spec_properties(),
    {
        &mut self.tags
    }

    /// Takes the default properties and tags out of the context.
    pub(crate) fn into_maps(self) -> (r: (Properties, ContextTags))
        ensures
            r.0 == self.spec_properties(),
            r.1 == self.spec_tags(),
    {
        (self.properties, self.tags)
    }
}

} // verus!
