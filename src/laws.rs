//! Laws that relate several operations of the registry.
use vstd::prelude::*;
use crate::records::{ErrorCode, ProductType};
use crate::registry::{
    certified, certify_error, initialize_error, lemma_records_need_registry, register_error, registered,
    AuthLedger, RegisterProduct,
};

verus! {

/// The registry is created once: where it exists, creating it again, with
/// any arguments, fails with `AlreadyInitialized`.
pub proof fn lemma_initialize_once(l: AuthLedger)
    requires
        l.registry() is Some,
    ensures
        initialize_error(l) == Some(ErrorCode::AlreadyInitialized),
{
}

/// Registering the same code twice: once the first registration succeeded,
/// the same call fails with `DuplicateCode`, and the product counter has
/// grown by exactly one.
pub proof fn lemma_register_twice(
    l0: AuthLedger,
    l1: AuthLedger,
    ctx: RegisterProduct,
    qr_code: String,
    product_id: String,
    product_type: ProductType,
    metadata_uri: String,
)
    requires
        register_error(l0, ctx.authority@, qr_code@, product_id@, metadata_uri@) is None,
        registered(l0, l1, ctx, qr_code, product_id, product_type, metadata_uri),
    ensures
        register_error(l1, ctx.authority@, qr_code@, product_id@, metadata_uri@)
            == Some(ErrorCode::DuplicateCode),
        l1.registry().unwrap().total_products == l0.registry().unwrap().total_products + 1,
{
}

/// A certified record is terminal: certifying its code again, by any
/// caller, fails with `AlreadyVerified`.
pub proof fn lemma_certified_is_terminal(l: AuthLedger, code: Seq<char>)
    requires
        l.wf(),
        l.product(code) matches Some(p) && p.certification is Certified && p.qr_code@ == code,
    ensures
        certify_error(l, code) == Some(ErrorCode::AlreadyVerified),
{
    lemma_records_need_registry(l, code);
}

/// Certifying the same code twice: once the first certification succeeded,
/// a second one fails with `AlreadyVerified`.
pub proof fn lemma_certify_twice(l0: AuthLedger, l1: AuthLedger, code: Seq<char>)
    requires
        l1.wf(),
        certify_error(l0, code) is None,
        certified(l0, l1, code),
    ensures
        certify_error(l1, code) == Some(ErrorCode::AlreadyVerified),
        l1.registry().unwrap().verified_products == l0.registry().unwrap().verified_products + 1,
{
    lemma_certified_is_terminal(l1, code);
}

} // verus!
