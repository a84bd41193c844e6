//! The registry's records and the errors of its operations.
use vstd::prelude::*;
use vstd::string::StringExecFns;
use crate::address::Address;

verus! {

/// The compliance category of a product; the registry treats all alike.
#[derive(Clone, Copy, Debug, PartialEq, Eq, Structural)]
pub enum ProductType {
    VapeProduct,
    Supplement,
    Cosmetic,
    Other,
}

/// The one-way certification latch of a product record: the certificate
/// token is present exactly when the record is certified.
#[derive(Clone, Copy, Debug)]
pub enum Certification {
    Uncertified,
    Certified { token: Address },
}

/// The registry's singleton record.
#[derive(Clone, Copy, Debug)]
pub struct AuthState {
    /// The one identity allowed to register products.
    pub authority: Address,
    /// The collection anchor token that all certificates belong to.
    pub collection_mint: Address,
    /// How many products were ever registered.
    pub total_products: u64,
    /// How many products were ever certified.
    pub verified_products: u64,
}

/// The record of one product, stored at the address derived from its code.
#[derive(Debug)]
pub struct ProductRecord {
    pub qr_code: String,
    pub product_id: String,
    pub product_type: ProductType,
    pub metadata_uri: String,
    pub certification: Certification,
    pub registered_at: i64,
    /// The identity that registered the product.
    pub authority: Address,
}

impl ProductRecord {
    /// Whether the product has been certified.
    pub fn is_verified(&self) -> (r: bool)
        ensures
            r == (self.certification is Certified),
    {
        match self.certification {
            Certification::Certified { .. } => true,
            Certification::Uncertified => false,
        }
    }

    /// The certificate token, present once the product is certified.
    pub fn auth_nft_mint(&self) -> (r: Option<Address>)
        ensures
            match self.certification {
                Certification::Certified { token } => r == Some(token),
                Certification::Uncertified => r is None,
            },
    {
        match self.certification {
            Certification::Certified { token } => Some(token),
            Certification::Uncertified => None,
        }
    }
}

/// Why an operation of the registry did not happen.
#[derive(Clone, Copy, Debug, PartialEq, Eq, Structural)]
pub enum ErrorCode {
    /// The product code is longer than 32 bytes.
    QRCodeTooLong,
    /// The product id is longer than 32 bytes.
    ProductIdTooLong,
    /// The metadata URI is longer than 200 bytes.
    MetadataUriTooLong,
    /// The stored code differs from the code that was supplied.
    InvalidQRCode,
    /// The product is certified already.
    AlreadyVerified,
    /// The caller is not the registry's owner.
    Unauthorized,
    /// The registry exists already.
    AlreadyInitialized,
    /// The registry has not been created.
    NotInitialized,
    /// A product with this code is registered already.
    DuplicateCode,
    /// No product is registered under this code.
    ProductNotFound,
    /// No valid address can be derived from these seeds.
    AddressUnavailable,
    /// A counter is at its largest value.
    CounterOverflow,
    /// The token or metadata service refused a call.
    CollaboratorFailed,
}

/// The message that describes an error.
pub open spec fn error_message(e: ErrorCode) -> Seq<char> {
    match e {
        ErrorCode::QRCodeTooLong => "QR code too long"@,
        ErrorCode::ProductIdTooLong => "Product ID too long"@,
        ErrorCode::MetadataUriTooLong => "Metadata URI too long"@,
        ErrorCode::InvalidQRCode => "Invalid QR code"@,
        ErrorCode::AlreadyVerified => "Already verified"@,
        ErrorCode::Unauthorized => "Unauthorized"@,
        ErrorCode::AlreadyInitialized => "Already initialized"@,
        ErrorCode::NotInitialized => "Registry not initialized"@,
        ErrorCode::DuplicateCode => "Duplicate QR code"@,
        ErrorCode::ProductNotFound => "Product not found"@,
        ErrorCode::AddressUnavailable => "No valid address for these seeds"@,
        ErrorCode::CounterOverflow => "Counter overflow"@,
        ErrorCode::CollaboratorFailed => "Token service call failed"@,
    }
}

impl ErrorCode {
    /// The message that describes the error.
    pub fn message(&self) -> (r: String)
        ensures
            r@ == error_message(*self),
    {
        let s = match self {
            ErrorCode::QRCodeTooLong => "QR code too long",
            ErrorCode::ProductIdTooLong => "Product ID too long",
            ErrorCode::MetadataUriTooLong => "Metadata URI too long",
            ErrorCode::InvalidQRCode => "Invalid QR code",
            ErrorCode::AlreadyVerified => "Already verified",
            ErrorCode::Unauthorized => "Unauthorized",
            ErrorCode::AlreadyInitialized => "Already initialized",
            ErrorCode::NotInitialized => "Registry not initialized",
            ErrorCode::DuplicateCode => "Duplicate QR code",
            ErrorCode::ProductNotFound => "Product not found",
            ErrorCode::AddressUnavailable => "No valid address for these seeds",
            ErrorCode::CounterOverflow => "Counter overflow",
            ErrorCode::CollaboratorFailed => "Token service call failed",
        };
        String::from_str(s)
    }
}

} // verus!
