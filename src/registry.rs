//! The registry's state machine: creating the registry, registering products
//! and certifying them, each all-or-nothing.
use vstd::prelude::*;
use vstd::set_lib::lemma_len_subset;
use vstd::string::StringExecFns;
use vstd::utf8::encode_utf8;
use crate::address::{address_seeds, derive_address, derived, same_address, Address};
use crate::records::{AuthState, Certification, ErrorCode, ProductRecord, ProductType};
use crate::table::AccountTable;

verus! {

/// The longest product code, in bytes.
pub const MAX_CODE_LEN: usize = 32;

/// The longest product id, in bytes.
pub const MAX_PRODUCT_ID_LEN: usize = 32;

/// The longest metadata URI, in bytes.
pub const MAX_URI_LEN: usize = 200;

/// How many units of a token each mint call issues.
pub const MINT_AMOUNT: u64 = 1;

/// The seller fee, in basis points, recorded in every token's metadata.
pub const SELLER_FEE_BASIS_POINTS: u16 = 0;

/// The length of a string in bytes.
pub open spec fn byte_len(s: Seq<char>) -> nat {
    encode_utf8(s).len()
}

/// The address of the registry's singleton record.
pub open spec fn state_address(program: Seq<u8>) -> Option<Seq<u8>> {
    derived(address_seeds("auth_state"@, None), program)
}

/// The address of the record of the product with this code.
pub open spec fn product_address(program: Seq<u8>, code: Seq<char>) -> Option<Seq<u8>> {
    derived(address_seeds("product"@, Some(code)), program)
}

/// The identity of the certificate token of the product with this code.
pub open spec fn certificate_address(program: Seq<u8>, code: Seq<char>) -> Option<Seq<u8>> {
    derived(address_seeds("auth_nft"@, Some(code)), program)
}

/// The identity of the collection anchor token.
pub open spec fn collection_address(program: Seq<u8>) -> Option<Seq<u8>> {
    derived(address_seeds("collection"@, None), program)
}

/// The addresses of the certified records of a table.
pub open spec fn certified_codes(m: Map<Seq<u8>, ProductRecord>) -> Set<Seq<u8>> {
    m.dom().filter(|a: Seq<u8>| m[a].certification is Certified)
}

/// The storage of one registry program: its singleton record and its
/// product records, each at its derived address.
pub struct AuthLedger {
    program_id: Address,
    states: AccountTable<AuthState>,
    products: AccountTable<ProductRecord>,
}

impl AuthLedger {
    /// The identity of the program that the addresses are derived under.
    pub closed spec fn program(&self) -> Seq<u8> {
        self.program_id@
    }

    /// The singleton records by address.
    pub closed spec fn states(&self) -> Map<Seq<u8>, AuthState> {
        self.states@
    }

    /// The product records by address.
    pub closed spec fn records(&self) -> Map<Seq<u8>, ProductRecord> {
        self.products@
    }

    /// The singleton lives at its derived address only; products exist only
    /// once it does, and its counters count the products and the certified ones.
    pub closed spec fn wf(&self) -> bool {
        &&& self.states.wf()
        &&& self.products.wf()
        &&& self.records().dom().finite()
        &&& forall|a: Seq<u8>|
            #[trigger] self.states().contains_key(a) ==> state_address(self.program()) == Some(a)
        &&& match state_address(self.program()) {
            Some(sa) => if self.states().contains_key(sa) {
                &&& self.states()[sa].total_products == self.records().dom().len()
                &&& self.states()[sa].verified_products == certified_codes(self.records()).len()
            } else {
                self.records().is_empty()
            },
            None => self.records().is_empty(),
        }
    }

    /// The registry record, where it exists.
    pub open spec fn registry(&self) -> Option<AuthState> {
        match state_address(self.program()) {
            Some(sa) => if self.states().contains_key(sa) {
                Some(self.states()[sa])
            } else {
                None
            },
            None => None,
        }
    }

    /// The record of the product with this code, where it exists.
    pub open spec fn product(&self, code: Seq<char>) -> Option<ProductRecord> {
        match product_address(self.program(), code) {
            Some(pa) => if self.records().contains_key(pa) {
                Some(self.records()[pa])
            } else {
                None
            },
            None => None,
        }
    }

    /// Empty storage for the program `program_id`.
    pub fn new(program_id: Address) -> (r: Self)
        ensures
            r.wf(),
            r.program() == program_id@,
            r.states().is_empty(),
            r.records().is_empty(),
    {
        let r = AuthLedger { program_id, states: AccountTable::new(), products: AccountTable::new() };
        assert(r.records().dom() =~= Set::empty());
        r
    }

    /// The identity of the program.
    pub fn program_id(&self) -> (r: Address)
        ensures
            r@ == self.program(),
    {
        self.program_id
    }

    /// Reads the registry record.
    pub fn auth_state(&self) -> (r: Option<AuthState>)
        requires
            self.wf(),
        ensures
            r == self.registry(),
    {
        match derive_address("auth_state", None, &self.program_id) {
            Some(sa) => match self.states.get(&sa) {
                Some(s) => Some(*s),
                None => None,
            },
            None => None,
        }
    }

    /// Reads the record of the product with code `code`.
    pub fn product_record(&self, code: &str) -> (r: Option<&ProductRecord>)
        requires
            self.wf(),
        ensures
            match r {
                Some(p) => self.product(code@) == Some(*p),
                None => self.product(code@) is None,
            },
    {
        match derive_address("product", Some(code), &self.program_id) {
            Some(pa) => self.products.get(&pa),
            None => None,
        }
    }
}

/// Who asks for the registry to be created.
#[derive(Clone, Copy, Debug)]
pub struct InitializeAuthSystem {
    pub authority: Address,
}

/// Who asks for a product to be registered, and when.
#[derive(Clone, Copy, Debug)]
pub struct RegisterProduct {
    pub authority: Address,
    /// The clock's reading for the registration.
    pub now: i64,
}

/// Who asks for a product to be certified; the certificate goes to them.
#[derive(Clone, Copy, Debug)]
pub struct CreateAuthNFT {
    pub user: Address,
}

/// The descriptive metadata to attach to a freshly minted token.
pub struct TokenMetadata {
    pub name: String,
    pub symbol: String,
    pub uri: String,
    pub seller_fee_basis_points: u16,
    /// The creator of record, with its share of 100.
    pub creator: Address,
    pub creator_verified: bool,
    pub creator_share: u8,
    pub is_mutable: bool,
}

/// The calls that create the collection anchor, in their order: mint
/// `amount` units of `mint` to `recipient`, attach `metadata`, then cap the
/// supply at `max_supply` further units.
pub struct CollectionRequest {
    pub mint: Address,
    pub amount: u64,
    /// The holder of the anchor: the registry's own record address.
    pub recipient: Address,
    pub metadata: TokenMetadata,
    pub max_supply: u64,
}

/// The calls that issue a certificate, in their order: mint `amount` units
/// of `mint` to `recipient`, then attach `metadata`.
pub struct CertificateRequest {
    pub mint: Address,
    pub amount: u64,
    pub recipient: Address,
    pub metadata: TokenMetadata,
}

/// Why creating the registry must fail, if it must.
pub open spec fn initialize_error(l: AuthLedger) -> Option<ErrorCode> {
    match state_address(l.program()) {
        None => Some(ErrorCode::AddressUnavailable),
        Some(sa) => if l.states().contains_key(sa) {
            Some(ErrorCode::AlreadyInitialized)
        } else if collection_address(l.program()) is None {
            Some(ErrorCode::AddressUnavailable)
        } else {
            None
        },
    }
}

/// Checks that the registry can be created, and says which calls of the
/// token and metadata services create its collection anchor.
pub fn collection_request(
    ledger: &AuthLedger,
    ctx: &InitializeAuthSystem,
    collection_name: String,
    collection_symbol: String,
    collection_uri: String,
) -> (r: Result<CollectionRequest, ErrorCode>)
    requires
        ledger.wf(),
    ensures
        match r {
            Err(e) => initialize_error(*ledger) == Some(e),
            Ok(q) => {
                &&& initialize_error(*ledger) is None
                &&& collection_address(ledger.program()) == Some(q.mint@)
                &&& q.amount == MINT_AMOUNT
                &&& state_address(ledger.program()) == Some(q.recipient@)
                &&& q.metadata.seller_fee_basis_points == SELLER_FEE_BASIS_POINTS
                &&& q.max_supply == 0
                &&& q.metadata.name@ == collection_name@
                &&& q.metadata.symbol@ == collection_symbol@
                &&& q.metadata.uri@ == collection_uri@
                &&& q.metadata.creator == ctx.authority
                &&& q.metadata.creator_verified
                &&& q.metadata.creator_share == 100
                &&& q.metadata.is_mutable
            },
        },
{
    let sa = match derive_address("auth_state", None, &ledger.program_id) {
        Some(a) => a,
        None => return Err(ErrorCode::AddressUnavailable),
    };
    if ledger.states.contains(&sa) {
        return Err(ErrorCode::AlreadyInitialized);
    }
    let mint = match derive_address("collection", None, &ledger.program_id) {
        Some(a) => a,
        None => return Err(ErrorCode::AddressUnavailable),
    };
    let metadata = TokenMetadata {
        name: collection_name,
        symbol: collection_symbol,
        uri: collection_uri,
        seller_fee_basis_points: SELLER_FEE_BASIS_POINTS,
        creator: ctx.authority,
        creator_verified: true,
        creator_share: 100,
        is_mutable: true,
    };
    Ok(CollectionRequest { mint, amount: MINT_AMOUNT, recipient: sa, metadata, max_supply: 0 })
}

/// Creates the registry, owned by `ctx.authority`, once the calls of
/// `collection_request` have been made; `services_succeeded` says whether
/// all of them succeeded. On any error nothing changes.
pub fn initialize_auth_system(
    ledger: &mut AuthLedger,
    ctx: &InitializeAuthSystem,
    services_succeeded: bool,
) -> (r: Result<(), ErrorCode>)
    requires
        old(ledger).wf(),
    ensures
        final(ledger).wf(),
        match initialize_error(*old(ledger)) {
            Some(e) => r == Err::<(), ErrorCode>(e),
            None => if services_succeeded {
                r is Ok
            } else {
                r == Err::<(), ErrorCode>(ErrorCode::CollaboratorFailed)
            },
        },
        r is Err ==> *final(ledger) == *old(ledger),
        r is Ok ==> {
            &&& old(ledger).registry() is None
            &&& final(ledger).program() == old(ledger).program()
            &&& final(ledger).records() == old(ledger).records()
            &&& final(ledger).registry() matches Some(st) && st.authority == ctx.authority
                && collection_address(old(ledger).program()) == Some(st.collection_mint@)
                && st.total_products == 0 && st.verified_products == 0
        },
{
    let sa = match derive_address("auth_state", None, &ledger.program_id) {
        Some(a) => a,
        None => return Err(ErrorCode::AddressUnavailable),
    };
    if ledger.states.contains(&sa) {
        return Err(ErrorCode::AlreadyInitialized);
    }
    let mint = match derive_address("collection", None, &ledger.program_id) {
        Some(a) => a,
        None => return Err(ErrorCode::AddressUnavailable),
    };
    if !services_succeeded {
        return Err(ErrorCode::CollaboratorFailed);
    }
    proof {
        assert(ledger.records().dom() =~= Set::empty());
        assert(certified_codes(ledger.records()) =~= Set::empty());
    }
    let st = AuthState { authority: ctx.authority, collection_mint: mint, total_products: 0, verified_products: 0 };
    ledger.states.insert_new(sa, st);
    Ok(())
}

/// Why registering a product must fail, if it must.
pub open spec fn register_error(
    l: AuthLedger,
    authority: Seq<u8>,
    code: Seq<char>,
    product_id: Seq<char>,
    uri: Seq<char>,
) -> Option<ErrorCode> {
    if byte_len(code) > MAX_CODE_LEN {
        Some(ErrorCode::QRCodeTooLong)
    } else if byte_len(product_id) > MAX_PRODUCT_ID_LEN {
        Some(ErrorCode::ProductIdTooLong)
    } else if byte_len(uri) > MAX_URI_LEN {
        Some(ErrorCode::MetadataUriTooLong)
    } else {
        match l.registry() {
            None => if state_address(l.program()) is None {
                Some(ErrorCode::AddressUnavailable)
            } else {
                Some(ErrorCode::NotInitialized)
            },
            Some(st) => if st.authority@ != authority {
                Some(ErrorCode::Unauthorized)
            } else {
                match product_address(l.program(), code) {
                    None => Some(ErrorCode::AddressUnavailable),
                    Some(pa) => if l.records().contains_key(pa) {
                        Some(ErrorCode::DuplicateCode)
                    } else if st.total_products == u64::MAX {
                        Some(ErrorCode::CounterOverflow)
                    } else {
                        None
                    },
                }
            },
        }
    }
}

/// What a successful registration of `qr_code` does: the registry's product
/// counter grows by one, and an uncertified record with the given fields
/// appears at the code's derived address, where none was before.
pub open spec fn registered(
    before: AuthLedger,
    after: AuthLedger,
    ctx: RegisterProduct,
    qr_code: String,
    product_id: String,
    product_type: ProductType,
    metadata_uri: String,
) -> bool {
    let sa = state_address(before.program()).unwrap();
    let pa = product_address(before.program(), qr_code@).unwrap();
    let st = before.states()[sa];
    &&& before.registry() == Some(st)
    &&& before.product(qr_code@) is None
    &&& after.program() == before.program()
    &&& after.states() == before.states().insert(sa, (AuthState {
        total_products: (st.total_products + 1) as u64,
        ..st
    }))
    &&& after.records() == before.records().insert(pa, (ProductRecord {
        qr_code,
        product_id,
        product_type,
        metadata_uri,
        certification: Certification::Uncertified,
        registered_at: ctx.now,
        authority: ctx.authority,
    }))
    &&& after.registry().unwrap().total_products == st.total_products + 1
    &&& after.product(qr_code@) matches Some(p) && p.certification is Uncertified
}

/// Product records exist only once the registry does.
pub proof fn lemma_records_need_registry(l: AuthLedger, code: Seq<char>)
    requires
        l.wf(),
    ensures
        !l.records().is_empty() ==> l.registry() is Some,
        l.product(code) is Some ==> l.registry() is Some,
{
    if l.product(code) is Some {
        let pa = product_address(l.program(), code).unwrap();
        assert(l.records().contains_key(pa));
    }
}

/// The certified counter never exceeds the product counter.
pub proof fn lemma_certified_within_total(l: AuthLedger)
    requires
        l.wf(),
    ensures
        l.registry() matches Some(st) ==> st.verified_products <= st.total_products,
{
    lemma_len_subset(certified_codes(l.records()), l.records().dom());
}

/// Registers a product under `qr_code`: only the registry's owner may, and
/// only once per code. On any error nothing changes.
pub fn register_product(
    ledger: &mut AuthLedger,
    ctx: &RegisterProduct,
    qr_code: String,
    product_id: String,
    product_type: ProductType,
    metadata_uri: String,
) -> (r: Result<(), ErrorCode>)
    requires
        old(ledger).wf(),
    ensures
        final(ledger).wf(),
        final(ledger).program() == old(ledger).program(),
        match register_error(*old(ledger), ctx.authority@, qr_code@, product_id@, metadata_uri@) {
            Some(e) => r == Err::<(), ErrorCode>(e),
            None => r is Ok,
        },
        r is Err ==> *final(ledger) == *old(ledger),
        r is Ok ==> registered(*old(ledger), *final(ledger), *ctx, qr_code, product_id, product_type, metadata_uri),
{
    if qr_code.as_str().as_bytes().len() > MAX_CODE_LEN {
        return Err(ErrorCode::QRCodeTooLong);
    }
    if product_id.as_str().as_bytes().len() > MAX_PRODUCT_ID_LEN {
        return Err(ErrorCode::ProductIdTooLong);
    }
    if metadata_uri.as_str().as_bytes().len() > MAX_URI_LEN {
        return Err(ErrorCode::MetadataUriTooLong);
    }
    let sa = match derive_address("auth_state", None, &ledger.program_id) {
        Some(a) => a,
        None => return Err(ErrorCode::AddressUnavailable),
    };
    let st = match ledger.states.get(&sa) {
        Some(s) => *s,
        None => return Err(ErrorCode::NotInitialized),
    };
    if !same_address(&st.authority, &ctx.authority) {
        return Err(ErrorCode::Unauthorized);
    }
    let pa = match derive_address("product", Some(qr_code.as_str()), &ledger.program_id) {
        Some(a) => a,
        None => return Err(ErrorCode::AddressUnavailable),
    };
    if ledger.products.contains(&pa) {
        return Err(ErrorCode::DuplicateCode);
    }
    if st.total_products == u64::MAX {
        return Err(ErrorCode::CounterOverflow);
    }
    let record = ProductRecord {
        qr_code,
        product_id,
        product_type,
        metadata_uri,
        certification: Certification::Uncertified,
        registered_at: ctx.now,
        authority: ctx.authority,
    };
    let ghost old_records = ledger.records();
    ledger.products.insert_new(pa, record);
    proof {
        let new_records = ledger.records();
        assert(new_records.dom() =~= old_records.dom().insert(pa@));
        assert(certified_codes(new_records) =~= certified_codes(old_records));
    }
    let new_state = AuthState {
        authority: st.authority,
        collection_mint: st.collection_mint,
        total_products: st.total_products + 1,
        verified_products: st.verified_products,
    };
    ledger.states.replace(sa, new_state);
    Ok(())
}

/// Why certifying the product with this code must fail, if it must.
pub open spec fn certify_error(l: AuthLedger, code: Seq<char>) -> Option<ErrorCode> {
    match l.registry() {
        None => if state_address(l.program()) is None {
            Some(ErrorCode::AddressUnavailable)
        } else {
            Some(ErrorCode::NotInitialized)
        },
        Some(st) => match product_address(l.program(), code) {
            None => Some(ErrorCode::AddressUnavailable),
            Some(pa) => if !l.records().contains_key(pa) {
                Some(ErrorCode::ProductNotFound)
            } else if l.records()[pa].qr_code@ != code {
                Some(ErrorCode::InvalidQRCode)
            } else if l.records()[pa].certification is Certified {
                Some(ErrorCode::AlreadyVerified)
            } else if certificate_address(l.program(), code) is None {
                Some(ErrorCode::AddressUnavailable)
            } else {
                None
            },
        },
    }
}

/// The record `rec`, certified with the token `token`.
pub open spec fn certified_copy(rec: ProductRecord, token: Address) -> ProductRecord {
    ProductRecord { certification: Certification::Certified { token }, ..rec }
}

/// What a successful certification of `code` does: the certified counter
/// grows by one, and the uncertified record at the code's derived address
/// becomes certified with the certificate token derived from the code, its
/// other fields kept.
pub open spec fn certified(before: AuthLedger, after: AuthLedger, code: Seq<char>) -> bool {
    let sa = state_address(before.program()).unwrap();
    let pa = product_address(before.program(), code).unwrap();
    let st = before.states()[sa];
    &&& before.registry() == Some(st)
    &&& before.product(code) matches Some(p) && p.certification is Uncertified && p.qr_code@ == code
    &&& after.program() == before.program()
    &&& after.states() == before.states().insert(sa, (AuthState {
        verified_products: (st.verified_products + 1) as u64,
        ..st
    }))
    &&& exists|token: Address|
        certificate_address(before.program(), code) == Some(token@)
        && after.records() == before.records().insert(pa, certified_copy(before.records()[pa], token))
    &&& after.registry().unwrap().verified_products == st.verified_products + 1
    &&& after.product(code) matches Some(p) && p.certification is Certified && p.qr_code@ == code
}

/// Checks that the product with code `qr_code` can be certified, and says
/// which calls of the token and metadata services issue its certificate.
pub fn certification_request(ledger: &AuthLedger, ctx: &CreateAuthNFT, qr_code: &String) -> (r: Result<
    CertificateRequest,
    ErrorCode,
>)
    requires
        ledger.wf(),
    ensures
        match r {
            Err(e) => certify_error(*ledger, qr_code@) == Some(e),
            Ok(q) => {
                let rec = ledger.product(qr_code@).unwrap();
                &&& certify_error(*ledger, qr_code@) is None
                &&& certificate_address(ledger.program(), qr_code@) == Some(q.mint@)
                &&& q.amount == MINT_AMOUNT
                &&& q.recipient == ctx.user
                &&& q.metadata.seller_fee_basis_points == SELLER_FEE_BASIS_POINTS
                &&& q.metadata.name@ == "Auth #"@ + rec.product_id@
                &&& q.metadata.symbol@ == "AUTH"@
                &&& q.metadata.uri@ == rec.metadata_uri@
                &&& q.metadata.creator == ledger.registry().unwrap().authority
                &&& !q.metadata.creator_verified
                &&& q.metadata.creator_share == 100
                &&& q.metadata.is_mutable
            },
        },
{
    let sa = match derive_address("auth_state", None, &ledger.program_id) {
        Some(a) => a,
        None => return Err(ErrorCode::AddressUnavailable),
    };
    let st = match ledger.states.get(&sa) {
        Some(s) => *s,
        None => return Err(ErrorCode::NotInitialized),
    };
    let pa = match derive_address("product", Some(qr_code.as_str()), &ledger.program_id) {
        Some(a) => a,
        None => return Err(ErrorCode::AddressUnavailable),
    };
    let rec = match ledger.products.get(&pa) {
        Some(p) => p,
        None => return Err(ErrorCode::ProductNotFound),
    };
    if rec.qr_code != *qr_code {
        return Err(ErrorCode::InvalidQRCode);
    }
    if rec.is_verified() {
        return Err(ErrorCode::AlreadyVerified);
    }
    let mint = match derive_address("auth_nft", Some(qr_code.as_str()), &ledger.program_id) {
        Some(a) => a,
        None => return Err(ErrorCode::AddressUnavailable),
    };
    let name = String::from_str("Auth #").concat(rec.product_id.as_str());
    let metadata = TokenMetadata {
        name,
        symbol: String::from_str("AUTH"),
        uri: rec.metadata_uri.clone(),
        seller_fee_basis_points: SELLER_FEE_BASIS_POINTS,
        creator: st.authority,
        creator_verified: false,
        creator_share: 100,
        is_mutable: true,
    };
    Ok(CertificateRequest { mint, amount: MINT_AMOUNT, recipient: ctx.user, metadata })
}

/// Certifies the product with code `qr_code` once the calls of
/// `certification_request` have been made; `services_succeeded` says whether
/// both succeeded. The record then holds the certificate token and the
/// certified counter grows by one. On any error nothing changes.
pub fn create_auth_nft(
    ledger: &mut AuthLedger,
    ctx: &CreateAuthNFT,
    qr_code: String,
    services_succeeded: bool,
) -> (r: Result<(), ErrorCode>)
    requires
        old(ledger).wf(),
    ensures
        final(ledger).wf(),
        final(ledger).program() == old(ledger).program(),
        match certify_error(*old(ledger), qr_code@) {
            Some(e) => r == Err::<(), ErrorCode>(e),
            None => if services_succeeded {
                r is Ok
            } else {
                r == Err::<(), ErrorCode>(ErrorCode::CollaboratorFailed)
            },
        },
        r is Err ==> *final(ledger) == *old(ledger),
        r is Ok ==> certified(*old(ledger), *final(ledger), qr_code@),
{
    let sa = match derive_address("auth_state", None, &ledger.program_id) {
        Some(a) => a,
        None => return Err(ErrorCode::AddressUnavailable),
    };
    let st = match ledger.states.get(&sa) {
        Some(s) => *s,
        None => return Err(ErrorCode::NotInitialized),
    };
    let pa = match derive_address("product", Some(qr_code.as_str()), &ledger.program_id) {
        Some(a) => a,
        None => return Err(ErrorCode::AddressUnavailable),
    };
    let rec = match ledger.products.get(&pa) {
        Some(p) => p,
        None => return Err(ErrorCode::ProductNotFound),
    };
    if rec.qr_code != qr_code {
        return Err(ErrorCode::InvalidQRCode);
    }
    if rec.is_verified() {
        return Err(ErrorCode::AlreadyVerified);
    }
    let token = match derive_address("auth_nft", Some(qr_code.as_str()), &ledger.program_id) {
        Some(a) => a,
        None => return Err(ErrorCode::AddressUnavailable),
    };
    if !services_succeeded {
        return Err(ErrorCode::CollaboratorFailed);
    }
    let certified = ProductRecord {
        qr_code: rec.qr_code.clone(),
        product_id: rec.product_id.clone(),
        product_type: rec.product_type,
        metadata_uri: rec.metadata_uri.clone(),
        certification: Certification::Certified { token },
        registered_at: rec.registered_at,
        authority: rec.authority,
    };
    let ghost old_records = ledger.records();
    proof {
        let done = certified_codes(old_records);
        assert(done.insert(pa@).subset_of(old_records.dom()));
        lemma_len_subset(done.insert(pa@), old_records.dom());
        assert(certified == certified_copy(old_records[pa@], token));
    }
    ledger.products.replace(pa, certified);
    proof {
        let new_records = ledger.records();
        assert(new_records.dom() =~= old_records.dom());
        assert(certified_codes(new_records) =~= certified_codes(old_records).insert(pa@));
    }
    let new_state = AuthState {
        authority: st.authority,
        collection_mint: st.collection_mint,
        total_products: st.total_products,
        verified_products: st.verified_products + 1,
    };
    ledger.states.replace(sa, new_state);
    Ok(())
}

} // verus!
