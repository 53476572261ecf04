use vstd::prelude::*;
use vstd::utf8::encode_utf8;
use crate::accounts::AccountRef;
use crate::error::MetaBricksError;
use crate::ledger::same_key;

verus! {

/// Relies on spl-token's `Mint::LEN` (its `Pack` impl): a mint account
/// holds 82 bytes.
#[verifier::external_body]
fn mint_account_len() -> (r: u64)
    ensures
        r == 82,
{
    <spl_token::state::Mint as solana_program::program_pack::Pack>::LEN as u64
}

/// Relies on mpl-token-metadata's `MAX_NAME_LENGTH`, `MAX_SYMBOL_LENGTH` and
/// `MAX_URI_LENGTH`: a metadata record holds a name of at most 32 bytes, a
/// symbol of at most 10 and a uri of at most 200.
#[verifier::external_body]
fn metadata_limits() -> (r: (usize, usize, usize))
    ensures
        r == (32usize, 10usize, 200usize),
{
    (
        mpl_token_metadata::MAX_NAME_LENGTH,
        mpl_token_metadata::MAX_SYMBOL_LENGTH,
        mpl_token_metadata::MAX_URI_LENGTH,
    )
}

/// One delegated call of an asset issuance, with the identities it names.
#[derive(Clone, Debug, PartialEq, Eq)]
pub enum IssueStep {
    /// Allocate the mint account, owned by the token program.
    CreateMintAccount { payer: [u8; 32], mint: [u8; 32], space: u64, owner_program: [u8; 32] },
    /// Initialise the mint: no decimals, minted and frozen by the mint authority.
    InitializeMint {
        token_program: [u8; 32],
        mint: [u8; 32],
        mint_authority: [u8; 32],
        freeze_authority: [u8; 32],
        decimals: u8,
    },
    /// Create the metadata record, with the mint authority as its one
    /// verified creator.
    CreateMetadata {
        metadata: [u8; 32],
        mint: [u8; 32],
        mint_authority: [u8; 32],
        payer: [u8; 32],
        update_authority: [u8; 32],
        system_program: [u8; 32],
        rent: [u8; 32],
        name: String,
        symbol: String,
        uri: String,
        seller_fee_basis_points: u16,
        creator: [u8; 32],
        creator_share: u8,
        is_mutable: bool,
    },
    /// Create the master edition, with no further copies allowed.
    CreateMasterEdition {
        edition: [u8; 32],
        mint: [u8; 32],
        update_authority: [u8; 32],
        payer: [u8; 32],
        metadata: [u8; 32],
        mint_authority: [u8; 32],
        max_supply: u64,
    },
}

/// Name, symbol and uri fit the metadata record's budget.
pub open spec fn within_metadata_budget(name: Seq<char>, symbol: Seq<char>, uri: Seq<char>) -> bool {
    encode_utf8(name).len() <= 32 && encode_utf8(symbol).len() <= 10 && encode_utf8(uri).len()
        <= 200
}

/// The checks of an issuance, in order, all made before any delegated call.
/// The accounts are: mint, metadata, master edition, mint authority, payer,
/// update authority, system program, rent sysvar, token program, associated
/// token program and metadata program.
pub open spec fn issue_error(
    accounts: Seq<AccountRef>,
    name: Seq<char>,
    symbol: Seq<char>,
    uri: Seq<char>,
) -> Option<MetaBricksError> {
    if accounts.len() < 11 {
        Some(MetaBricksError::MissingAccount)
    } else if !accounts[3].is_signer || !accounts[4].is_signer {
        Some(MetaBricksError::MissingSignature)
    } else if !within_metadata_budget(name, symbol, uri) {
        Some(MetaBricksError::MetadataTooLong)
    } else {
        None
    }
}

/// The mint account does not yet belong to the token program, so it is to be
/// created for it.
pub open spec fn mint_needs_account(accounts: Seq<AccountRef>) -> bool {
    accounts[0].owner@ != accounts[8].key@
}

/// The steps of an issuance, each fully named by the accounts and arguments.
pub open spec fn is_issue_plan(
    steps: Seq<IssueStep>,
    accounts: Seq<AccountRef>,
    name: Seq<char>,
    symbol: Seq<char>,
    uri: Seq<char>,
    seller_fee_basis_points: u16,
) -> bool {
    let off: int = if mint_needs_account(accounts) { 1 } else { 0 };
    let mint = accounts[0].key;
    let metadata = accounts[1].key;
    let edition = accounts[2].key;
    let authority = accounts[3].key;
    let payer = accounts[4].key;
    let update = accounts[5].key;
    let token_program = accounts[8].key;
    &&& steps.len() == 3 + off
    &&& mint_needs_account(accounts) ==> steps[0] == (IssueStep::CreateMintAccount {
        payer,
        mint,
        space: 82,
        owner_program: token_program,
    })
    &&& steps[off] == (IssueStep::InitializeMint {
        token_program,
        mint,
        mint_authority: authority,
        freeze_authority: authority,
        decimals: 0,
    })
    &&& steps[off + 1] matches IssueStep::CreateMetadata {
        metadata: md,
        mint: m,
        mint_authority: ma,
        payer: p,
        update_authority: ua,
        system_program: sp,
        rent: rs,
        name: n,
        symbol: s,
        uri: u,
        seller_fee_basis_points: fee,
        creator,
        creator_share,
        is_mutable,
    } && md == metadata && m == mint && ma == authority && p == payer && ua == update && sp == accounts[6].key
        && rs == accounts[7].key && n@
        == name && s@ == symbol && u@ == uri && fee == seller_fee_basis_points && creator
        == authority && creator_share == 100 && is_mutable
    &&& steps[off + 2] == (IssueStep::CreateMasterEdition {
        edition,
        mint,
        update_authority: update,
        payer,
        metadata,
        mint_authority: authority,
        max_supply: 0,
    })
}

/// Plans the issuance of one non-fungible asset: every check comes first, so
/// an error means that no delegated call is to be made.
pub fn plan_create_nft(
    accounts: &Vec<AccountRef>,
    name: String,
    symbol: String,
    uri: String,
    seller_fee_basis_points: u16,
) -> (r: Result<Vec<IssueStep>, MetaBricksError>)
    ensures
        match issue_error(accounts@, name@, symbol@, uri@) {
            Some(e) => r matches Err(x) && x == e,
            None => r matches Ok(steps) && is_issue_plan(
                steps@,
                accounts@,
                name@,
                symbol@,
                uri@,
                seller_fee_basis_points,
            ),
        },
{
    if accounts.len() < 11 {
        return Err(MetaBricksError::MissingAccount);
    }
    if !accounts[3].is_signer || !accounts[4].is_signer {
        return Err(MetaBricksError::MissingSignature);
    }
    let (max_name, max_symbol, max_uri) = metadata_limits();
    if name.as_str().as_bytes().len() > max_name || symbol.as_str().as_bytes().len() > max_symbol
        || uri.as_str().as_bytes().len() > max_uri {
        return Err(MetaBricksError::MetadataTooLong);
    }
    let mint = accounts[0].key;
    let metadata = accounts[1].key;
    let edition = accounts[2].key;
    let authority = accounts[3].key;
    let payer = accounts[4].key;
    let update = accounts[5].key;
    let token_program = accounts[8].key;
    let mut steps: Vec<IssueStep> = Vec::new();
    if !same_key(&accounts[0].owner, &accounts[8].key) {
        steps.push(
            IssueStep::CreateMintAccount {
                payer,
                mint,
                space: mint_account_len(),
                owner_program: token_program,
            },
        );
    }
    steps.push(
        IssueStep::InitializeMint {
            token_program,
            mint,
            mint_authority: authority,
            freeze_authority: authority,
            decimals: 0,
        },
    );
    steps.push(
        IssueStep::CreateMetadata {
            metadata,
            mint,
            mint_authority: authority,
            payer,
            update_authority: update,
            system_program: accounts[6].key,
            rent: accounts[7].key,
            name,
            symbol,
            uri,
            seller_fee_basis_points,
            creator: authority,
            creator_share: 100,
            is_mutable: true,
        },
    );
    steps.push(
        IssueStep::CreateMasterEdition {
            edition,
            mint,
            update_authority: update,
            payer,
            metadata,
            mint_authority: authority,
            max_supply: 0,
        },
    );
    Ok(steps)
}

/// Where an issuance stands after a delegated call has answered.
#[derive(Clone, Copy, Debug, PartialEq, Eq, Structural)]
pub enum IssueProgress {
    /// Make the call at this index next.
    Next(usize),
    /// Every call succeeded.
    Done,
    /// A call failed: the whole instruction aborts.
    Failed(MetaBricksError),
}

/// Decides what follows the call at `index` of a plan of `total` calls: the
/// next call, completion, or abort on the first failure. Nothing is undone
/// by hand; the runtime drops every write of an aborted instruction.
pub fn after_step(index: usize, total: usize, succeeded: bool) -> (r: IssueProgress)
    requires
        index < total,
    ensures
        !succeeded ==> r == IssueProgress::Failed(MetaBricksError::DelegatedCallFailed),
        succeeded && index + 1 < total ==> r == IssueProgress::Next((index + 1) as usize),
        succeeded && index + 1 == total ==> r == IssueProgress::Done,
{
    if !succeeded {
        IssueProgress::Failed(MetaBricksError::DelegatedCallFailed)
    } else if index + 1 < total {
        IssueProgress::Next(index + 1)
    } else {
        IssueProgress::Done
    }
}

/// A name, symbol or uri over the metadata budget is refused, with
/// `MetadataTooLong`, before any delegated call, whenever the accounts
/// themselves are in order.
pub proof fn lemma_oversize_refused_before_calls(
    accounts: Seq<AccountRef>,
    name: Seq<char>,
    symbol: Seq<char>,
    uri: Seq<char>,
)
    requires
        accounts.len() >= 11,
        accounts[3].is_signer,
        accounts[4].is_signer,
        !within_metadata_budget(name, symbol, uri),
    ensures
        issue_error(accounts, name, symbol, uri) == Some(MetaBricksError::MetadataTooLong),
{
}

} // verus!
