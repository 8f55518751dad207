//! What the library reads of the metadata that `tracing` attaches to each
//! event and span.
use vstd::prelude::*;

verus! {

#[verifier::external_type_specification]
#[verifier::external_body]
pub struct ExMetadata<'a>(tracing::Metadata<'a>);

/// The name that `Metadata::name` gives.
pub uninterp spec fn metadata_name(m: tracing::Metadata<'static>) -> Seq<char>;

/// The target that `Metadata::target` gives.
pub uninterp spec fn metadata_target(m: tracing::Metadata<'static>) -> Seq<char>;

/// The level that `Metadata::level` gives.
pub uninterp spec fn metadata_level(m: tracing::Metadata<'static>) -> tracing::Level;

/// The source file that `Metadata::file` gives, if it knows one.
pub uninterp spec fn metadata_file(m: tracing::Metadata<'static>) -> Option<Seq<char>>;

/// The line that `Metadata::line` gives, if it knows one.
pub uninterp spec fn metadata_line(m: tracing::Metadata<'static>) -> Option<u32>;

/// `Metadata::name`: the name of the event or span.
#[verifier::external_body]
pub fn meta_name(m: &tracing::Metadata<'static>) -> (s: &'static str)
    ensures
        s@ == metadata_name(*m),
{
    m.name()
}

/// `Metadata::target`: the part of the system where it happened.
#[verifier::external_body]
pub fn meta_target(m: &tracing::Metadata<'static>) -> (s: &'static str)
    ensures
        s@ == metadata_target(*m),
{
    m.target()
}

/// `Metadata::level`: the verbosity level.
#[verifier::external_body]
pub fn meta_level<'a>(m: &'a tracing::Metadata<'static>) -> (l: &'a tracing::Level)
    ensures
        *l == metadata_level(*m),
{
    m.level()
}

/// `Metadata::file`: the source file, if known.
#[verifier::external_body]
pub fn meta_file(m: &tracing::Metadata<'static>) -> (f: Option<&'static str>)
    ensures
        f is Some <==> metadata_file(*m) is Some,
        f matches Some(f) ==> metadata_file(*m) == Some(f@),
{
    m.file()
}

/// `Metadata::line`: the line in the source file, if known.
#[verifier::external_body]
pub fn meta_line(m: &tracing::Metadata<'static>) -> (l: Option<u32>)
    ensures
        l == metadata_line(*m),
{
    m.line()
}

} // verus!
