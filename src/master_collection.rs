//! The simplified registry variant: one master collection, codes registered
//! by anyone, and each code claimable once for a numbered piece.
use vstd::prelude::*;
use crate::address::{address_seeds, derive_address, derived, Address};
use crate::registry::MINT_AMOUNT;
use crate::table::AccountTable;

verus! {

/// The number of pieces the master collection is made of.
pub const TOTAL_PIECES: u64 = 1_000_000_000;

/// The singleton record of the variant.
#[derive(Clone, Copy, Debug)]
pub struct ProgramState {
    pub authority: Address,
    pub total_pieces: u64,
    /// How many pieces were minted; the last one carries this number.
    pub minted_pieces: u64,
}

/// The record of one registered code.
#[derive(Clone, Copy, Debug)]
pub struct QRData {
    pub is_claimed: bool,
    /// The number of the piece minted for the code, 0 until claimed.
    pub piece_number: u64,
    /// Who claimed the code; all zeroes until claimed.
    pub claimed_by: Address,
}

/// Why an operation of the variant did not happen.
#[derive(Clone, Copy, Debug, PartialEq, Eq, Structural)]
pub enum ErrorCode {
    /// The code has been claimed already.
    QRAlreadyClaimed,
    AlreadyInitialized,
    NotInitialized,
    /// The code is registered already.
    DuplicateCode,
    /// The code is not registered.
    QRNotFound,
    /// No valid address can be derived from these seeds.
    AddressUnavailable,
    /// The piece counter is at its largest value.
    CounterOverflow,
    /// The token service refused a call.
    CollaboratorFailed,
}

/// Who creates the master collection.
#[derive(Clone, Copy, Debug)]
pub struct Initialize {
    pub authority: Address,
}

/// Who registers a code.
#[derive(Clone, Copy, Debug)]
pub struct RegisterQR {
    pub authority: Address,
}

/// Who claims a code; the piece goes to them.
#[derive(Clone, Copy, Debug)]
pub struct MintNFT {
    pub customer: Address,
}

/// The call of the token service that mints a piece: `amount` units of
/// `mint` to `recipient`, signed by the master collection `authority`.
#[derive(Clone, Copy, Debug)]
pub struct MintRequest {
    pub mint: Address,
    pub amount: u64,
    pub recipient: Address,
    pub authority: Address,
}

/// The address of the singleton record.
pub open spec fn program_state_address(program: Seq<u8>) -> Option<Seq<u8>> {
    derived(address_seeds("state"@, None), program)
}

/// The address of the master collection token.
pub open spec fn master_address(program: Seq<u8>) -> Option<Seq<u8>> {
    derived(address_seeds("master"@, None), program)
}

/// The address of the record of a code.
pub open spec fn qr_address(program: Seq<u8>, code: Seq<char>) -> Option<Seq<u8>> {
    derived(address_seeds("qr"@, Some(code)), program)
}

/// The address of the piece minted for a code.
pub open spec fn piece_address(program: Seq<u8>, code: Seq<char>) -> Option<Seq<u8>> {
    derived(address_seeds("nft"@, Some(code)), program)
}

/// The storage of one variant program.
pub struct MasterLedger {
    program_id: Address,
    states: AccountTable<ProgramState>,
    codes: AccountTable<QRData>,
}

impl MasterLedger {
    pub closed spec fn program(&self) -> Seq<u8> {
        self.program_id@
    }

    pub closed spec fn states(&self) -> Map<Seq<u8>, ProgramState> {
        self.states@
    }

    pub closed spec fn records(&self) -> Map<Seq<u8>, QRData> {
        self.codes@
    }

    /// The singleton lives at its derived address only.
    pub closed spec fn wf(&self) -> bool {
        &&& self.states.wf()
        &&& self.codes.wf()
        &&& forall|a: Seq<u8>|
            #[trigger] self.states().contains_key(a) ==> program_state_address(self.program()) == Some(a)
    }

    /// The singleton record, where it exists.
    pub open spec fn state(&self) -> Option<ProgramState> {
        match program_state_address(self.program()) {
            Some(sa) => if self.states().contains_key(sa) {
                Some(self.states()[sa])
            } else {
                None
            },
            None => None,
        }
    }

    /// The record of a code, where it exists.
    pub open spec fn qr(&self, code: Seq<char>) -> Option<QRData> {
        match qr_address(self.program(), code) {
            Some(qa) => if self.records().contains_key(qa) {
                Some(self.records()[qa])
            } else {
                None
            },
            None => None,
        }
    }

    /// Empty storage for the program `program_id`.
    pub fn new(program_id: Address) -> (r: Self)
        ensures
            r.wf(),
            r.program() == program_id@,
            r.states().is_empty(),
            r.records().is_empty(),
    {
        MasterLedger { program_id, states: AccountTable::new(), codes: AccountTable::new() }
    }

    /// The identity of the program.
    pub fn program_id(&self) -> (r: Address)
        ensures
            r@ == self.program(),
    {
        self.program_id
    }

    /// Reads the singleton record.
    pub fn program_state(&self) -> (r: Option<ProgramState>)
        requires
            self.wf(),
        ensures
            r == self.state(),
    {
        match derive_address("state", None, &self.program_id) {
            Some(sa) => match self.states.get(&sa) {
                Some(s) => Some(*s),
                None => None,
            },
            None => None,
        }
    }

    /// Reads the record of a code.
    pub fn qr_data(&self, code: &str) -> (r: Option<QRData>)
        requires
            self.wf(),
        ensures
            r == self.qr(code@),
    {
        match derive_address("qr", Some(code), &self.program_id) {
            Some(qa) => match self.codes.get(&qa) {
                Some(q) => Some(*q),
                None => None,
            },
            None => None,
        }
    }
}

/// Why creating the master collection must fail, if it must.
pub open spec fn initialize_error(l: MasterLedger) -> Option<ErrorCode> {
    match program_state_address(l.program()) {
        None => Some(ErrorCode::AddressUnavailable),
        Some(sa) => if l.states().contains_key(sa) {
            Some(ErrorCode::AlreadyInitialized)
        } else if master_address(l.program()) is None {
            Some(ErrorCode::AddressUnavailable)
        } else {
            None
        },
    }
}

/// Creates the singleton record once the token service created the master
/// collection token; `services_succeeded` says whether it did.
pub fn initialize(ledger: &mut MasterLedger, ctx: &Initialize, services_succeeded: bool) -> (r: Result<
    (),
    ErrorCode,
>)
    requires
        old(ledger).wf(),
    ensures
        final(ledger).wf(),
        final(ledger).program() == old(ledger).program(),
        match initialize_error(*old(ledger)) {
            Some(e) => r == Err::<(), ErrorCode>(e),
            None => if services_succeeded {
                r is Ok
            } else {
                r == Err::<(), ErrorCode>(ErrorCode::CollaboratorFailed)
            },
        },
        r is Err ==> *final(ledger) == *old(ledger),
        r is Ok ==> {
            &&& final(ledger).records() == old(ledger).records()
            &&& final(ledger).state() == Some(
                (ProgramState { authority: ctx.authority, total_pieces: TOTAL_PIECES, minted_pieces: 0 }),
            )
        },
{
    let sa = match derive_address("state", None, &ledger.program_id) {
        Some(a) => a,
        None => return Err(ErrorCode::AddressUnavailable),
    };
    if ledger.states.contains(&sa) {
        return Err(ErrorCode::AlreadyInitialized);
    }
    if derive_address("master", None, &ledger.program_id).is_none() {
        return Err(ErrorCode::AddressUnavailable);
    }
    if !services_succeeded {
        return Err(ErrorCode::CollaboratorFailed);
    }
    let st = ProgramState { authority: ctx.authority, total_pieces: TOTAL_PIECES, minted_pieces: 0 };
    ledger.states.insert_new(sa, st);
    Ok(())
}

/// Registers a code, unclaimed; any signer may.
pub fn register_qr_code(ledger: &mut MasterLedger, ctx: &RegisterQR, qr_code: String) -> (r: Result<
    (),
    ErrorCode,
>)
    requires
        old(ledger).wf(),
    ensures
        final(ledger).wf(),
        final(ledger).program() == old(ledger).program(),
        match qr_address(old(ledger).program(), qr_code@) {
            None => r == Err::<(), ErrorCode>(ErrorCode::AddressUnavailable),
            Some(qa) => if old(ledger).records().contains_key(qa) {
                r == Err::<(), ErrorCode>(ErrorCode::DuplicateCode)
            } else {
                &&& r is Ok
                &&& final(ledger).states() == old(ledger).states()
                &&& final(ledger).records() == old(ledger).records().insert(qa, final(ledger).records()[qa])
                &&& !final(ledger).records()[qa].is_claimed
                &&& final(ledger).records()[qa].piece_number == 0
                &&& final(ledger).records()[qa].claimed_by@ == Seq::new(32, |i: int| 0u8)
            },
        },
        r is Err ==> *final(ledger) == *old(ledger),
{
    let qa = match derive_address("qr", Some(qr_code.as_str()), &ledger.program_id) {
        Some(a) => a,
        None => return Err(ErrorCode::AddressUnavailable),
    };
    if ledger.codes.contains(&qa) {
        return Err(ErrorCode::DuplicateCode);
    }
    let fresh = QRData { is_claimed: false, piece_number: 0, claimed_by: [0u8; 32] };
    assert(fresh.claimed_by@ =~= Seq::new(32, |i: int| 0u8));
    ledger.codes.insert_new(qa, fresh);
    assert(ledger.states() == old(ledger).states());
    Ok(())
}

/// Why claiming a code must fail, if it must.
pub open spec fn mint_error(l: MasterLedger, code: Seq<char>) -> Option<ErrorCode> {
    match qr_address(l.program(), code) {
        None => Some(ErrorCode::AddressUnavailable),
        Some(qa) => if !l.records().contains_key(qa) {
            Some(ErrorCode::QRNotFound)
        } else {
            match l.state() {
                None => if program_state_address(l.program()) is None {
                    Some(ErrorCode::AddressUnavailable)
                } else {
                    Some(ErrorCode::NotInitialized)
                },
                Some(st) => if l.records()[qa].is_claimed {
                    Some(ErrorCode::QRAlreadyClaimed)
                } else if st.minted_pieces == u64::MAX {
                    Some(ErrorCode::CounterOverflow)
                } else if master_address(l.program()) is None || piece_address(l.program(), code) is None {
                    Some(ErrorCode::AddressUnavailable)
                } else {
                    None
                },
            }
        },
    }
}

/// Checks that a code can be claimed, and says which call of the token
/// service mints its piece.
pub fn mint_request(ledger: &MasterLedger, ctx: &MintNFT, qr_code: &str) -> (r: Result<MintRequest, ErrorCode>)
    requires
        ledger.wf(),
    ensures
        match r {
            Err(e) => mint_error(*ledger, qr_code@) == Some(e),
            Ok(q) => {
                &&& mint_error(*ledger, qr_code@) is None
                &&& piece_address(ledger.program(), qr_code@) == Some(q.mint@)
                &&& master_address(ledger.program()) == Some(q.authority@)
                &&& q.recipient == ctx.customer
                &&& q.amount == MINT_AMOUNT
            },
        },
{
    let qa = match derive_address("qr", Some(qr_code), &ledger.program_id) {
        Some(a) => a,
        None => return Err(ErrorCode::AddressUnavailable),
    };
    let data = match ledger.codes.get(&qa) {
        Some(q) => *q,
        None => return Err(ErrorCode::QRNotFound),
    };
    let sa = match derive_address("state", None, &ledger.program_id) {
        Some(a) => a,
        None => return Err(ErrorCode::AddressUnavailable),
    };
    let st = match ledger.states.get(&sa) {
        Some(s) => *s,
        None => return Err(ErrorCode::NotInitialized),
    };
    if data.is_claimed {
        return Err(ErrorCode::QRAlreadyClaimed);
    }
    if st.minted_pieces == u64::MAX {
        return Err(ErrorCode::CounterOverflow);
    }
    let authority = match derive_address("master", None, &ledger.program_id) {
        Some(a) => a,
        None => return Err(ErrorCode::AddressUnavailable),
    };
    let mint = match derive_address("nft", Some(qr_code), &ledger.program_id) {
        Some(a) => a,
        None => return Err(ErrorCode::AddressUnavailable),
    };
    Ok(MintRequest { mint, amount: MINT_AMOUNT, recipient: ctx.customer, authority })
}

/// Claims a code once the call of `mint_request` has been made;
/// `services_succeeded` says whether it succeeded. The code then carries the
/// next piece number and the claimer. On any error nothing changes.
pub fn mint_nft_piece(
    ledger: &mut MasterLedger,
    ctx: &MintNFT,
    qr_code: String,
    services_succeeded: bool,
) -> (r: Result<(), ErrorCode>)
    requires
        old(ledger).wf(),
    ensures
        final(ledger).wf(),
        final(ledger).program() == old(ledger).program(),
        match mint_error(*old(ledger), qr_code@) {
            Some(e) => r == Err::<(), ErrorCode>(e),
            None => if services_succeeded {
                r is Ok
            } else {
                r == Err::<(), ErrorCode>(ErrorCode::CollaboratorFailed)
            },
        },
        r is Err ==> *final(ledger) == *old(ledger),
        r is Ok ==> {
            let sa = program_state_address(old(ledger).program()).unwrap();
            let qa = qr_address(old(ledger).program(), qr_code@).unwrap();
            let st = old(ledger).states()[sa];
            let n = (st.minted_pieces + 1) as u64;
            &&& final(ledger).states() == old(ledger).states().insert(sa, (ProgramState {
                minted_pieces: n,
                ..st
            }))
            &&& final(ledger).records() == old(ledger).records().insert(qa, (QRData {
                is_claimed: true,
                piece_number: n,
                claimed_by: ctx.customer,
            }))
        },
{
    let qa = match derive_address("qr", Some(qr_code.as_str()), &ledger.program_id) {
        Some(a) => a,
        None => return Err(ErrorCode::AddressUnavailable),
    };
    let data = match ledger.codes.get(&qa) {
        Some(q) => *q,
        None => return Err(ErrorCode::QRNotFound),
    };
    let sa = match derive_address("state", None, &ledger.program_id) {
        Some(a) => a,
        None => return Err(ErrorCode::AddressUnavailable),
    };
    let st = match ledger.states.get(&sa) {
        Some(s) => *s,
        None => return Err(ErrorCode::NotInitialized),
    };
    if data.is_claimed {
        return Err(ErrorCode::QRAlreadyClaimed);
    }
    if st.minted_pieces == u64::MAX {
        return Err(ErrorCode::CounterOverflow);
    }
    if derive_address("master", None, &ledger.program_id).is_none() {
        return Err(ErrorCode::AddressUnavailable);
    }
    if derive_address("nft", Some(qr_code.as_str()), &ledger.program_id).is_none() {
        return Err(ErrorCode::AddressUnavailable);
    }
    if !services_succeeded {
        return Err(ErrorCode::CollaboratorFailed);
    }
    let piece_number = st.minted_pieces + 1;
    ledger.states.replace(
        sa,
        ProgramState { authority: st.authority, total_pieces: st.total_pieces, minted_pieces: piece_number },
    );
    ledger.codes.replace(qa, QRData { is_claimed: true, piece_number, claimed_by: ctx.customer });
    Ok(())
}

} // verus!
