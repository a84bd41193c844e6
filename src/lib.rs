//! A product authentication registry: products are registered under their
//! scannable code by the registry owner, and each one can later be certified
//! exactly once, which records the certificate token minted for it.
mod address;
mod table;
mod records;
mod registry;
mod laws;
pub mod master_collection;

pub use address::{address_seeds, derive_address, derive_program_address, derived, key_view, program_address, same_address, Address};
pub use table::AccountTable;
pub use records::{error_message, AuthState, Certification, ErrorCode, ProductRecord, ProductType};
pub use registry::{
    byte_len, certificate_address, certification_request, certified, certified_codes, certified_copy,
    certify_error, collection_address, collection_request, create_auth_nft, initialize_auth_system,
    initialize_error, lemma_certified_within_total, lemma_records_need_registry, product_address, register_error, register_product,
    registered, state_address, AuthLedger, CertificateRequest, CollectionRequest, CreateAuthNFT,
    InitializeAuthSystem, RegisterProduct, TokenMetadata, MAX_CODE_LEN, MAX_PRODUCT_ID_LEN, MAX_URI_LEN, MINT_AMOUNT,
    SELLER_FEE_BASIS_POINTS,
};
pub use laws::{lemma_certified_is_terminal, lemma_certify_twice, lemma_initialize_once, lemma_register_twice};
