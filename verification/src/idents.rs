//! Derivation of the generated identifiers.
//!
//! Every identifier the generator mints (the builder type name, the marker
//! type parameters, the helper capability names, the phantom field) is
//! derived from a source identifier by a fixed rule, using a long reserved
//! prefix to make collisions with user identifiers unlikely.

use vstd::prelude::*;
use vstd::string::StringExecFns;

verus! {

/// Characters of the marker type parameter minted for the field `name`.
pub open spec fn marker_ident_chars(name: Seq<char>) -> Seq<char> {
    "_TypedBuilder_genericType__"@ + name + "_"@
}

/// Characters of the builder type name derived from the record `name`.
pub open spec fn builder_name_chars(name: Seq<char>) -> Seq<char> {
    name + "Builder"@
}

/// Characters of the helper capability (trait) name for the record `name`.
pub open spec fn helper_trait_chars(name: Seq<char>) -> Seq<char> {
    "_TypedBuilder__conversionHelperTraitFor_"@ + name
}

/// Characters of the helper capability method name for the record `name`.
pub open spec fn helper_method_chars(name: Seq<char>) -> Seq<char> {
    "_TypedBuilder__conversionHelperMethodFor_"@ + name
}

/// Characters of the builder's phantom field, the same for every record.
pub open spec fn phantom_field_chars() -> Seq<char> {
    "_TypedBuilder__phantomGenerics_"@
}

/// Mint the marker type parameter name for the field `name`.
pub fn marker_ident(name: &str) -> (r: String)
    ensures
        r@ == marker_ident_chars(name@),
{
    let mut s = String::from_str("_TypedBuilder_genericType__");
    s.append(name);
    s.append("_");
    s
}

/// Derive the builder type name from the record `name`.
pub fn builder_ident(name: &str) -> (r: String)
    ensures
        r@ == builder_name_chars(name@),
{
    let mut s = String::from_str(name);
    s.append("Builder");
    s
}

/// Derive the helper capability name from the record `name`.
pub fn helper_trait_ident(name: &str) -> (r: String)
    ensures
        r@ == helper_trait_chars(name@),
{
    let mut s = String::from_str("_TypedBuilder__conversionHelperTraitFor_");
    s.append(name);
    s
}

/// Derive the helper capability method name from the record `name`.
pub fn helper_method_ident(name: &str) -> (r: String)
    ensures
        r@ == helper_method_chars(name@),
{
    let mut s = String::from_str("_TypedBuilder__conversionHelperMethodFor_");
    s.append(name);
    s
}

/// The phantom field identifier.
pub fn phantom_field_ident() -> (r: String)
    ensures
        r@ == phantom_field_chars(),
{
    String::from_str("_TypedBuilder__phantomGenerics_")
}

} // verus!
