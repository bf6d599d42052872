//! The ASCII form of a domain name.

use vstd::prelude::*;

verus! {

/// `idna::Errors`, the reasons why a domain has no ASCII form. It is handed
/// on as it comes; nothing here looks inside.
#[verifier::external_type_specification]
#[verifier::external_body]
pub struct ExIdnaErrors(idna::Errors);

/// What `idna::domain_to_ascii` makes of `domain`: `None` where it fails,
/// else the domain's ASCII form.
pub uninterp spec fn ascii_form(domain: Seq<char>) -> Option<Seq<char>>;

/// Hands `domain` to `idna::domain_to_ascii`, which maps its characters and
/// writes each label that is not ASCII in Punycode. The contract names the
/// outcome and claims nothing of it but that the same domain always gives the
/// same outcome.
#[verifier::external_body]
pub(crate) fn to_ascii(domain: &str) -> (ascii: Result<String, idna::Errors>)
    ensures
        match ascii {
            Ok(a) => ascii_form(domain@) == Some(a@),
            Err(_) => ascii_form(domain@) is None,
        },
{
    idna::domain_to_ascii(domain)
}

} // verus!
