use vstd::prelude::*;

use crate::errors::EscrowError;
use crate::util::{copy_bytes, keys_equal, zero_bytes};

verus! {

/// The mathematical shape of a ledger account.
pub struct AcctView {
    pub key: Seq<u8>,
    pub lamports: u64,
    pub owner: Seq<u8>,
    pub data: Seq<u8>,
}

/// A ledger account: an address, a native balance, the program that owns
/// its bytes, and those bytes.
#[derive(Clone, Debug, PartialEq, Eq)]
pub struct Account {
    pub key: [u8; 32],
    pub lamports: u64,
    pub owner: [u8; 32],
    pub data: Vec<u8>,
}

impl View for Account {
    type V = AcctView;

    open spec fn view(&self) -> AcctView {
        AcctView { key: self.key@, lamports: self.lamports, owner: self.owner@, data: self.data@ }
    }
}

impl Account {
    /// A fresh copy of the account.
    pub fn duplicate(&self) -> (r: Account)
        ensures
            r@ == self@,
    {
        Account {
            key: self.key,
            lamports: self.lamports,
            owner: self.owner,
            data: copy_bytes(&self.data),
        }
    }
}

/// The mathematical shape of an asset-holding account.
pub struct TokenAcctView {
    pub key: Seq<u8>,
    pub mint: Seq<u8>,
    pub authority: Seq<u8>,
    pub amount: u64,
    pub lamports: u64,
}

/// An asset-holding account: its address, the asset id it holds, the sole
/// authority allowed to move or close it, its asset balance, and its
/// native balance (the rent it carries).
#[derive(Clone, Copy, Debug, PartialEq, Eq)]
pub struct TokenAccount {
    pub key: [u8; 32],
    pub mint: [u8; 32],
    pub authority: [u8; 32],
    pub amount: u64,
    pub lamports: u64,
}

impl View for TokenAccount {
    type V = TokenAcctView;

    open spec fn view(&self) -> TokenAcctView {
        TokenAcctView {
            key: self.key@,
            mint: self.mint@,
            authority: self.authority@,
            amount: self.amount,
            lamports: self.lamports,
        }
    }
}

/// The asset-transfer collaborator: moves `amount` from `from` to `to` when
/// `authority` is `from`'s authority and the balances allow it; otherwise
/// fails without moving anything.
pub open spec fn spec_token_transfer(
    from: TokenAcctView,
    to: TokenAcctView,
    authority: Seq<u8>,
    amount: u64,
) -> Result<(TokenAcctView, TokenAcctView), EscrowError> {
    if authority != from.authority {
        Err(EscrowError::Unauthorized)
    } else if from.amount < amount {
        Err(EscrowError::InsufficientFunds)
    } else if to.amount + amount > u64::MAX {
        Err(EscrowError::InsufficientFunds)
    } else {
        Ok(
            (
                TokenAcctView { amount: (from.amount - amount) as u64, ..from },
                TokenAcctView { amount: (to.amount + amount) as u64, ..to },
            ),
        )
    }
}

/// Transfer(from, to, authority, amount): moves an asset balance or fails
/// with `Unauthorized` / `InsufficientFunds`; a destination balance the
/// ledger could not hold counts as a move the collaborator cannot perform.
pub fn token_transfer(
    from: &TokenAccount,
    to: &TokenAccount,
    authority: &[u8; 32],
    amount: u64,
) -> (r: Result<(TokenAccount, TokenAccount), EscrowError>)
    ensures
        match r {
            Ok(p) => spec_token_transfer(from@, to@, authority@, amount) == Ok::<
                _,
                EscrowError,
            >((p.0@, p.1@)),
            Err(e) => spec_token_transfer(from@, to@, authority@, amount) == Err::<
                (TokenAcctView, TokenAcctView),
                _,
            >(e),
        },
{
    if !keys_equal(authority, &from.authority) {
        return Err(EscrowError::Unauthorized);
    }
    if from.amount < amount {
        return Err(EscrowError::InsufficientFunds);
    }
    if amount > u64::MAX - to.amount {
        return Err(EscrowError::InsufficientFunds);
    }
    let mut new_from = *from;
    let mut new_to = *to;
    new_from.amount = from.amount - amount;
    new_to.amount = to.amount + amount;
    Ok((new_from, new_to))
}

/// The close collaborator: forwards the account's rent to `destination` and
/// zeroes the account, when `authority` matches and no asset balance would
/// be discarded.
pub open spec fn spec_close_token_account(
    account: TokenAcctView,
    destination: AcctView,
    authority: Seq<u8>,
) -> Result<(TokenAcctView, AcctView), EscrowError> {
    if authority != account.authority {
        Err(EscrowError::Unauthorized)
    } else if account.amount != 0 {
        Err(EscrowError::InsufficientFunds)
    } else if destination.lamports + account.lamports > u64::MAX {
        Err(EscrowError::InsufficientFunds)
    } else {
        Ok(
            (
                TokenAcctView { amount: 0, lamports: 0, ..account },
                AcctView {
                    lamports: (destination.lamports + account.lamports) as u64,
                    ..destination
                },
            ),
        )
    }
}

/// CloseAccount(account, destination, authority): requires a zero asset
/// balance, forwards the rent, fails if the authority is invalid. Nothing
/// is discarded: a refused close moves nothing.
pub fn close_token_account(
    account: &TokenAccount,
    destination: &Account,
    authority: &[u8; 32],
) -> (r: Result<(TokenAccount, Account), EscrowError>)
    ensures
        match r {
            Ok(p) => spec_close_token_account(account@, destination@, authority@) == Ok::<
                _,
                EscrowError,
            >((p.0@, p.1@)),
            Err(e) => spec_close_token_account(account@, destination@, authority@) == Err::<
                (TokenAcctView, AcctView),
                _,
            >(e),
        },
{
    if !keys_equal(authority, &account.authority) {
        return Err(EscrowError::Unauthorized);
    }
    if account.amount != 0 {
        return Err(EscrowError::InsufficientFunds);
    }
    if account.lamports > u64::MAX - destination.lamports {
        return Err(EscrowError::InsufficientFunds);
    }
    let mut closed = *account;
    closed.amount = 0;
    closed.lamports = 0;
    let mut dest = destination.duplicate();
    dest.lamports = destination.lamports + account.lamports;
    Ok((closed, dest))
}

/// The provisioning collaborator: funds, sizes and assigns a fresh account
/// in one step, or fails if the address is occupied or the payer cannot
/// fund it.
pub open spec fn spec_create_account(
    payer: AcctView,
    target: AcctView,
    lamports: u64,
    space: usize,
    owner: Seq<u8>,
) -> Result<(AcctView, AcctView), EscrowError> {
    if target.lamports != 0 || target.data.len() != 0 {
        Err(EscrowError::AlreadyInitialized)
    } else if payer.lamports < lamports {
        Err(EscrowError::InsufficientFunds)
    } else {
        Ok(
            (
                AcctView { lamports: (payer.lamports - lamports) as u64, ..payer },
                AcctView {
                    lamports: lamports,
                    owner: owner,
                    data: Seq::new(space as nat, |i: int| 0u8),
                    ..target
                },
            ),
        )
    }
}

/// CreateAccount(payer, new_account, lamports, space, owner): atomically
/// funds, sizes and assigns, or fails if the address is already occupied
/// (`AlreadyInitialized`) or the payer lacks the funds.
pub fn create_account(
    payer: &Account,
    target: &Account,
    lamports: u64,
    space: usize,
    owner: &[u8; 32],
) -> (r: Result<(Account, Account), EscrowError>)
    ensures
        match r {
            Ok(p) => spec_create_account(payer@, target@, lamports, space, owner@) == Ok::<
                _,
                EscrowError,
            >((p.0@, p.1@)),
            Err(e) => spec_create_account(payer@, target@, lamports, space, owner@) == Err::<
                (AcctView, AcctView),
                _,
            >(e),
        },
{
    if target.lamports != 0 || target.data.len() != 0 {
        return Err(EscrowError::AlreadyInitialized);
    }
    if payer.lamports < lamports {
        return Err(EscrowError::InsufficientFunds);
    }
    let mut new_payer = payer.duplicate();
    new_payer.lamports = payer.lamports - lamports;
    let new_target = Account { key: target.key, lamports, owner: *owner, data: zero_bytes(space) };
    Ok((new_payer, new_target))
}

/// Zeroing a subject account: its whole native balance moves to the
/// recipient, its bytes are truncated away, and its owner becomes
/// `new_owner`.
pub open spec fn spec_drain_account(
    subject: AcctView,
    recipient: AcctView,
    new_owner: Seq<u8>,
) -> Result<(AcctView, AcctView), EscrowError> {
    if recipient.lamports + subject.lamports > u64::MAX {
        Err(EscrowError::InsufficientFunds)
    } else {
        Ok(
            (
                AcctView { lamports: 0, owner: new_owner, data: Seq::empty(), ..subject },
                AcctView { lamports: (recipient.lamports + subject.lamports) as u64, ..recipient },
            ),
        )
    }
}

/// Drains, truncates and reassigns `subject`, forwarding its full balance
/// to `recipient`; balances are never discarded, so a balance the
/// recipient could not hold refuses the drain.
pub fn drain_account(subject: &Account, recipient: &Account, new_owner: &[u8; 32]) -> (r: Result<
    (Account, Account),
    EscrowError,
>)
    ensures
        match r {
            Ok(p) => spec_drain_account(subject@, recipient@, new_owner@) == Ok::<
                _,
                EscrowError,
            >((p.0@, p.1@)),
            Err(e) => spec_drain_account(subject@, recipient@, new_owner@) == Err::<
                (AcctView, AcctView),
                _,
            >(e),
        },
{
    if subject.lamports > u64::MAX - recipient.lamports {
        return Err(EscrowError::InsufficientFunds);
    }
    let drained = Account { key: subject.key, lamports: 0, owner: *new_owner, data: Vec::new() };
    let mut new_recipient = recipient.duplicate();
    new_recipient.lamports = recipient.lamports + subject.lamports;
    Ok((drained, new_recipient))
}

} // verus!
