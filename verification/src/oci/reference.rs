//! OCI image references.

use vstd::prelude::*;

use crate::error::MicrosandboxError;
use crate::text::str_equal;
use oci_client::Reference as OciReference;

verus! {

//--------------------------------------------------------------------------------------------------
// Outside items
//--------------------------------------------------------------------------------------------------

#[verifier::external_type_specification]
#[verifier::external_body]
pub struct ExOciReference(OciReference);

/// Names what `oci_client::Reference::try_from` makes of a reference string that
/// it accepts: the parsed reference, its registry host (`Reference::registry`)
/// and its canonical text (`Reference::whole`). `None` when the OCI reference
/// grammar rejects the string.
pub uninterp spec fn oci_parsed_reference(text: Seq<char>) -> Option<(OciReference, Seq<char>, Seq<char>)>;

/// Calls `oci_client::Reference::try_from(&str)` and reads the parsed reference's
/// `registry()` and `whole()`. The contract ties the outcome to `oci_parsed_reference`
/// of the input; what the grammar accepts is not restated.
#[verifier::external_body]
fn oci_parse(text: &str) -> (r: Result<(OciReference, String, String), oci_client::ParseError>)
    ensures
        r is Ok <==> oci_parsed_reference(text@) is Some,
        r matches Ok((reference, registry, whole)) ==> oci_parsed_reference(text@) == Some(
            (reference, registry@, whole@),
        ),
{
    match OciReference::try_from(text) {
        Ok(reference) => {
            let registry = reference.registry().to_string();
            let whole = reference.whole();
            Ok((reference, registry, whole))
        },
        Err(e) => Err(e),
    }
}

/// Calls `Clone::clone` on an `oci_client::Reference`, which derives `Clone`
/// over its text fields: the copy equals the original.
#[verifier::external_body]
fn oci_clone(reference: &OciReference) -> (r: OciReference)
    ensures
        r == *reference,
{
    reference.clone()
}

//--------------------------------------------------------------------------------------------------
// Reference
//--------------------------------------------------------------------------------------------------

/// Represents an OCI-compliant image reference.
pub struct Reference {
    reference: OciReference,
    registry: String,
    whole: String,
}

/// The registry address that a registry host resolves to: Docker Hub is served
/// from `index.docker.io`.
pub open spec fn resolved_registry(registry: Seq<char>) -> Seq<char> {
    if registry == "docker.io"@ {
        "index.docker.io"@
    } else {
        registry
    }
}

impl Reference {
    /// The registry host of the reference.
    pub closed spec fn registry_view(&self) -> Seq<char> {
        self.registry@
    }

    /// The canonical text of the reference.
    pub closed spec fn text(&self) -> Seq<char> {
        self.whole@
    }

    /// The `oci_client` reference this one was parsed as.
    pub closed spec fn parsed(&self) -> OciReference {
        self.reference
    }

    /// Parses an image reference.
    pub fn parse(s: &str) -> (r: Result<Reference, MicrosandboxError>)
        ensures
            r is Ok <==> oci_parsed_reference(s@) is Some,
            r matches Ok(reference) ==> oci_parsed_reference(s@) == Some(
                (reference.parsed(), reference.registry_view(), reference.text()),
            ),
            r matches Err(e) ==> e is ImageReference,
    {
        match oci_parse(s) {
            Ok((reference, registry, whole)) => Ok(Reference { reference, registry, whole }),
            Err(e) => Err(MicrosandboxError::ImageReference(e)),
        }
    }

    /// Create an [`oci_client::Reference`] from [`Reference`]: a copy of the one
    /// it was parsed as.
    pub fn as_oci_reference(&self) -> (r: OciReference)
        ensures
            r == self.parsed(),
    {
        oci_clone(&self.reference)
    }

    /// The key under which the reference is stored: its canonical text.
    pub fn as_db_key(&self) -> (r: String)
        ensures
            r@ == self.text(),
    {
        self.whole.clone()
    }

    /// The canonical text of the reference.
    pub fn to_string(&self) -> (r: String)
        ensures
            r@ == self.text(),
    {
        self.whole.clone()
    }

    /// The registry host of the reference.
    pub fn registry(&self) -> (r: &str)
        ensures
            r@ == self.registry_view(),
    {
        self.registry.as_str()
    }

    /// Resolve the effective registry host for this image reference.
    pub fn resolve_registry(&self) -> (r: &str)
        ensures
            r@ == resolved_registry(self.registry_view()),
    {
        if str_equal(self.registry.as_str(), "docker.io") {
            "index.docker.io"
        } else {
            self.registry.as_str()
        }
    }
}

impl std::str::FromStr for Reference {
    type Err = MicrosandboxError;

    /// Parses an image reference (see `parse`).
    fn from_str(s: &str) -> (r: Result<Self, Self::Err>)
        ensures
            r is Ok <==> oci_parsed_reference(s@) is Some,
            r matches Ok(reference) ==> oci_parsed_reference(s@) == Some(
                (reference.parsed(), reference.registry_view(), reference.text()),
            ),
            r matches Err(e) ==> e is ImageReference,
    {
        Reference::parse(s)
    }
}

} // verus!
