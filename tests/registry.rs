use product_auth::{
    certification_request, collection_request, create_auth_nft, derive_address, derive_program_address, initialize_auth_system,
    register_product, AuthLedger, CreateAuthNFT, ErrorCode, InitializeAuthSystem, ProductType,
    RegisterProduct,
};

const PROGRAM: [u8; 32] = [7u8; 32];
const OWNER_A: [u8; 32] = [1u8; 32];
const CALLER_B: [u8; 32] = [2u8; 32];
const CUSTOMER: [u8; 32] = [3u8; 32];

fn initialized() -> AuthLedger {
    let mut ledger = AuthLedger::new(PROGRAM);
    let ctx = InitializeAuthSystem { authority: OWNER_A };
    collection_request(
        &ledger,
        &ctx,
        "Genuine Goods".to_string(),
        "GG".to_string(),
        "ipfs://collection".to_string(),
    )
    .unwrap();
    initialize_auth_system(&mut ledger, &ctx, true).unwrap();
    ledger
}

fn register(ledger: &mut AuthLedger, who: [u8; 32], code: &str) -> Result<(), ErrorCode> {
    register_product(
        ledger,
        &RegisterProduct { authority: who, now: 1_700_000_000 },
        code.to_string(),
        "SKU-42".to_string(),
        ProductType::Supplement,
        "ipfs://p42".to_string(),
    )
}

fn certify(ledger: &mut AuthLedger, code: &str) -> Result<(), ErrorCode> {
    create_auth_nft(ledger, &CreateAuthNFT { user: CUSTOMER }, code.to_string(), true)
}

#[test]
fn initialize_then_reinitialize_fails() {
    let mut ledger = AuthLedger::new(PROGRAM);
    let ctx = InitializeAuthSystem { authority: OWNER_A };
    let req = collection_request(
        &ledger,
        &ctx,
        "Genuine Goods".to_string(),
        "GG".to_string(),
        "ipfs://collection".to_string(),
    )
    .unwrap();
    assert_eq!(req.metadata.name, "Genuine Goods");
    assert_eq!(req.metadata.symbol, "GG");
    assert_eq!(req.metadata.uri, "ipfs://collection");
    assert_eq!(req.max_supply, 0);
    assert_eq!(req.amount, 1);
    assert_eq!(req.metadata.seller_fee_basis_points, 0);
    assert_eq!(Some(req.recipient), derive_address("auth_state", None, &PROGRAM));
    assert_ne!(req.recipient, OWNER_A);
    assert!(req.metadata.is_mutable);
    assert_eq!(req.metadata.creator, OWNER_A);
    assert!(req.metadata.creator_verified);
    assert_eq!(Some(req.mint), derive_address("collection", None, &PROGRAM));
    assert_eq!(initialize_auth_system(&mut ledger, &ctx, true), Ok(()));
    let st = ledger.auth_state().unwrap();
    assert_eq!(st.authority, OWNER_A);
    assert_eq!(st.collection_mint, req.mint);
    assert_eq!(st.total_products, 0);
    assert_eq!(st.verified_products, 0);

    let other = InitializeAuthSystem { authority: CALLER_B };
    assert_eq!(initialize_auth_system(&mut ledger, &other, true), Err(ErrorCode::AlreadyInitialized));
    assert!(collection_request(&ledger, &other, "X".to_string(), "X".to_string(), "x".to_string()).is_err());
    assert_eq!(ledger.auth_state().unwrap().authority, OWNER_A);
}

#[test]
fn initialize_rolls_back_when_services_fail() {
    let mut ledger = AuthLedger::new(PROGRAM);
    let ctx = InitializeAuthSystem { authority: OWNER_A };
    assert_eq!(initialize_auth_system(&mut ledger, &ctx, false), Err(ErrorCode::CollaboratorFailed));
    assert!(ledger.auth_state().is_none());
    assert_eq!(initialize_auth_system(&mut ledger, &ctx, true), Ok(()));
}

#[test]
fn register_by_owner_and_by_stranger() {
    let mut ledger = initialized();
    assert_eq!(register(&mut ledger, OWNER_A, "QR-001"), Ok(()));
    assert_eq!(register(&mut ledger, CALLER_B, "QR-002"), Err(ErrorCode::Unauthorized));
    assert_eq!(register(&mut ledger, CALLER_B, "QR-001"), Err(ErrorCode::Unauthorized));
    assert!(ledger.product_record("QR-002").is_none());
    assert_eq!(ledger.auth_state().unwrap().total_products, 1);
}

#[test]
fn register_creates_uncertified_record() {
    let mut ledger = initialized();
    assert_eq!(register(&mut ledger, OWNER_A, "QR-001"), Ok(()));
    assert_eq!(ledger.auth_state().unwrap().total_products, 1);
    let rec = ledger.product_record("QR-001").unwrap();
    assert_eq!(rec.qr_code, "QR-001");
    assert_eq!(rec.product_id, "SKU-42");
    assert_eq!(rec.product_type, ProductType::Supplement);
    assert_eq!(rec.metadata_uri, "ipfs://p42");
    assert_eq!(rec.registered_at, 1_700_000_000);
    assert_eq!(rec.authority, OWNER_A);
    assert!(!rec.is_verified());
    assert_eq!(rec.auth_nft_mint(), None);
}

#[test]
fn register_same_code_twice() {
    let mut ledger = initialized();
    assert_eq!(register(&mut ledger, OWNER_A, "QR-001"), Ok(()));
    assert_eq!(register(&mut ledger, OWNER_A, "QR-001"), Err(ErrorCode::DuplicateCode));
    assert_eq!(ledger.auth_state().unwrap().total_products, 1);
}

#[test]
fn register_before_initialization() {
    let mut ledger = AuthLedger::new(PROGRAM);
    assert_eq!(register(&mut ledger, OWNER_A, "QR-001"), Err(ErrorCode::NotInitialized));
}

#[test]
fn register_length_bounds() {
    let mut ledger = initialized();
    let ctx = RegisterProduct { authority: OWNER_A, now: 5 };
    let code32 = "C".repeat(32);
    let code33 = "C".repeat(33);
    let r = register_product(&mut ledger, &ctx, code33, "p".to_string(), ProductType::Other, "u".to_string());
    assert_eq!(r, Err(ErrorCode::QRCodeTooLong));
    let r = register_product(
        &mut ledger,
        &ctx,
        "QR-1".to_string(),
        "P".repeat(33),
        ProductType::Other,
        "u".to_string(),
    );
    assert_eq!(r, Err(ErrorCode::ProductIdTooLong));
    let r = register_product(
        &mut ledger,
        &ctx,
        "QR-1".to_string(),
        "p".to_string(),
        ProductType::Other,
        "u".repeat(201),
    );
    assert_eq!(r, Err(ErrorCode::MetadataUriTooLong));
    assert_eq!(ledger.auth_state().unwrap().total_products, 0);
    let r = register_product(
        &mut ledger,
        &ctx,
        code32.clone(),
        "P".repeat(32),
        ProductType::Cosmetic,
        "u".repeat(200),
    );
    assert_eq!(r, Ok(()));
    assert!(ledger.product_record(&code32).is_some());
    // a code of 32 bytes whose characters take two bytes each is too long
    let wide = "é".repeat(17);
    let r = register_product(&mut ledger, &ctx, wide, "p".to_string(), ProductType::Other, "u".to_string());
    assert_eq!(r, Err(ErrorCode::QRCodeTooLong));
}

#[test]
fn certify_once_then_again() {
    let mut ledger = initialized();
    register(&mut ledger, OWNER_A, "QR-001").unwrap();
    let req = certification_request(&ledger, &CreateAuthNFT { user: CUSTOMER }, &"QR-001".to_string()).unwrap();
    assert_eq!(req.metadata.name, "Auth #SKU-42");
    assert_eq!(req.metadata.symbol, "AUTH");
    assert_eq!(req.metadata.uri, "ipfs://p42");
    assert_eq!(req.metadata.creator, OWNER_A);
    assert!(!req.metadata.creator_verified);
    assert_eq!(req.metadata.creator_share, 100);
    assert_eq!(req.recipient, CUSTOMER);
    assert_eq!(req.amount, 1);
    assert_eq!(req.metadata.seller_fee_basis_points, 0);
    assert!(req.metadata.is_mutable);
    assert_eq!(Some(req.mint), derive_address("auth_nft", Some("QR-001"), &PROGRAM));

    assert_eq!(certify(&mut ledger, "QR-001"), Ok(()));
    assert_eq!(ledger.auth_state().unwrap().verified_products, 1);
    let rec = ledger.product_record("QR-001").unwrap();
    assert!(rec.is_verified());
    assert_eq!(rec.auth_nft_mint(), Some(req.mint));

    assert_eq!(certify(&mut ledger, "QR-001"), Err(ErrorCode::AlreadyVerified));
    assert_eq!(ledger.auth_state().unwrap().verified_products, 1);
    let rec = ledger.product_record("QR-001").unwrap();
    assert_eq!(rec.auth_nft_mint(), Some(req.mint));
    assert_eq!(rec.product_id, "SKU-42");
    assert!(certification_request(&ledger, &CreateAuthNFT { user: CUSTOMER }, &"QR-001".to_string()).is_err());
}

#[test]
fn certify_unknown_code() {
    let mut ledger = initialized();
    register(&mut ledger, OWNER_A, "QR-001").unwrap();
    assert_eq!(certify(&mut ledger, "QR-999"), Err(ErrorCode::ProductNotFound));
    let st = ledger.auth_state().unwrap();
    assert_eq!(st.total_products, 1);
    assert_eq!(st.verified_products, 0);
    assert!(ledger.product_record("QR-999").is_none());
}

#[test]
fn certify_rolls_back_when_services_fail() {
    let mut ledger = initialized();
    register(&mut ledger, OWNER_A, "QR-001").unwrap();
    let r = create_auth_nft(&mut ledger, &CreateAuthNFT { user: CUSTOMER }, "QR-001".to_string(), false);
    assert_eq!(r, Err(ErrorCode::CollaboratorFailed));
    assert_eq!(ledger.auth_state().unwrap().verified_products, 0);
    assert!(!ledger.product_record("QR-001").unwrap().is_verified());
    assert_eq!(certify(&mut ledger, "QR-001"), Ok(()));
}

#[test]
fn certify_before_initialization_and_overlong_code() {
    let mut ledger = AuthLedger::new(PROGRAM);
    assert_eq!(certify(&mut ledger, "QR-001"), Err(ErrorCode::NotInitialized));
    let mut ledger = initialized();
    assert_eq!(certify(&mut ledger, &"C".repeat(33)), Err(ErrorCode::AddressUnavailable));
}

#[test]
fn counters_stay_ordered() {
    let mut ledger = initialized();
    for code in ["A-1", "A-2", "A-3"] {
        register(&mut ledger, OWNER_A, code).unwrap();
        let st = ledger.auth_state().unwrap();
        assert!(st.verified_products <= st.total_products);
    }
    for code in ["A-1", "A-3", "A-3", "A-9"] {
        let _ = certify(&mut ledger, code);
        let st = ledger.auth_state().unwrap();
        assert!(st.verified_products <= st.total_products);
    }
    let st = ledger.auth_state().unwrap();
    assert_eq!(st.total_products, 3);
    assert_eq!(st.verified_products, 2);
}

#[test]
fn derived_addresses_are_deterministic_and_distinct() {
    let a = derive_address("product", Some("QR-001"), &PROGRAM).unwrap();
    let b = derive_address("product", Some("QR-001"), &PROGRAM).unwrap();
    let c = derive_address("product", Some("QR-002"), &PROGRAM).unwrap();
    let d = derive_address("auth_nft", Some("QR-001"), &PROGRAM).unwrap();
    let e = derive_address("product", Some("QR-001"), &[8u8; 32]).unwrap();
    assert_eq!(a, b);
    assert_ne!(a, c);
    assert_ne!(a, d);
    assert_ne!(a, e);
    assert_ne!(a, PROGRAM);
    assert!(derive_address("product", Some(&"C".repeat(33)), &PROGRAM).is_none());
}

#[test]
fn error_messages() {
    assert_eq!(ErrorCode::QRCodeTooLong.message(), "QR code too long");
    assert_eq!(ErrorCode::AlreadyVerified.message(), "Already verified");
    assert_eq!(ErrorCode::Unauthorized.message(), "Unauthorized");
    assert_eq!(ErrorCode::ProductNotFound.message(), "Product not found");
}

#[test]
fn program_address_carries_its_bump() {
    let (a, bump) = derive_program_address("auth_nft", Some("QR-001"), &PROGRAM).unwrap();
    assert_eq!(Some(a), derive_address("auth_nft", Some("QR-001"), &PROGRAM));
    let (b, bump2) = derive_program_address("auth_nft", Some("QR-001"), &PROGRAM).unwrap();
    assert_eq!((a, bump), (b, bump2));
    assert!(derive_program_address("auth_nft", Some(&"C".repeat(33)), &PROGRAM).is_none());
}
