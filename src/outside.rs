use atom_syndication::Entry as EmitterEntry;
use atom_syndication::Feed as EmitterFeed;
use vstd::prelude::*;

verus! {

// The emitter's values, carried through opaque.
#[verifier::external_type_specification]
#[verifier::external_body]
pub struct ExLink(atom_syndication::Link);

#[verifier::external_type_specification]
#[verifier::external_body]
pub struct ExContent(atom_syndication::Content);

#[verifier::external_type_specification]
#[verifier::external_body]
pub struct ExPerson(atom_syndication::Person);

#[verifier::external_type_specification]
#[verifier::external_body]
pub struct ExEntry(EmitterEntry);

#[verifier::external_type_specification]
#[verifier::external_body]
pub struct ExFeed(EmitterFeed);

} // verus!
