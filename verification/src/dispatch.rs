//! Mapping one parsed command onto the one thing that the client then does.

use vstd::prelude::*;

use crate::error::{ErrorModel, ReportableError};
use crate::name::{law_normalize_idempotent, normalize_space, normalized};
use crate::operation::{
    all_normalized, empty_transfer_error, law_all_normalized_canonical, optional_text, texts,
    Operation, OperationModel,
};
use crate::request::{
    build_request, composed, zero_fee_rate_error, RequestModel, Shaping, TransactionRequest,
};
use crate::session::{ClientSession, SessionModel};

verus! {

/// The kind of address that a wallet is asked for.
#[derive(Debug, Clone, Copy, PartialEq, Eq)]
pub enum AddressKind {
    /// An address for receiving coins.
    Coin,
    /// An address for receiving spaces and coins.
    Space,
}

/// One parsed command with its arguments.
#[allow(inconsistent_fields)]
#[derive(Debug, Clone, PartialEq, Eq)]
pub enum Command {
    CreateWallet,
    LoadWallet,
    ExportWallet { path: String },
    ImportWallet { path: String },
    GetWalletInfo,
    GetServerInfo,
    Open { space: String, initial_bid: u64, fee_rate: Option<u64> },
    Bid { space: String, amount: u64, fee_rate: Option<u64>, confirmed_only: bool },
    Register { space: String, address: Option<String>, fee_rate: Option<u64> },
    GetSpace { space: String },
    Transfer { spaces: Vec<String>, to: String, fee_rate: Option<u64> },
    EstimateBid { target: usize },
    SendCoins { amount: u64, to: String, fee_rate: Option<u64> },
    Balance,
    CreateBidOuts { pairs: u8, fee_rate: Option<u64> },
    BumpFee { txid: String, fee_rate: u64 },
    GetSpaceOut { outpoint: String },
    GetRollout { target_interval: usize },
    /// Sets the fallback data of a space; `script` is the script that was built from the data.
    SetRawFallback { space: String, script: Vec<u8>, fee_rate: Option<u64> },
    ListTransactions { count: usize, skip: usize },
    ListSpaces,
    ListBidOuts,
    ListUnspent,
    GetSpaceAddress,
    GetCoinAddress,
    ForceSpend { outpoint: String, fee_rate: u64 },
    HashSpace { space: String },
}

/// The mathematical content of a [`Command`].
#[allow(inconsistent_fields)]
pub enum CommandModel {
    CreateWallet,
    LoadWallet,
    ExportWallet { path: Seq<char> },
    ImportWallet { path: Seq<char> },
    GetWalletInfo,
    GetServerInfo,
    Open { space: Seq<char>, initial_bid: u64, fee_rate: Option<u64> },
    Bid { space: Seq<char>, amount: u64, fee_rate: Option<u64>, confirmed_only: bool },
    Register { space: Seq<char>, address: Option<Seq<char>>, fee_rate: Option<u64> },
    GetSpace { space: Seq<char> },
    Transfer { spaces: Seq<Seq<char>>, to: Seq<char>, fee_rate: Option<u64> },
    EstimateBid { target: usize },
    SendCoins { amount: u64, to: Seq<char>, fee_rate: Option<u64> },
    Balance,
    CreateBidOuts { pairs: u8, fee_rate: Option<u64> },
    BumpFee { txid: Seq<char>, fee_rate: u64 },
    GetSpaceOut { outpoint: Seq<char> },
    GetRollout { target_interval: usize },
    SetRawFallback { space: Seq<char>, script: Seq<u8>, fee_rate: Option<u64> },
    ListTransactions { count: usize, skip: usize },
    ListSpaces,
    ListBidOuts,
    ListUnspent,
    GetSpaceAddress,
    GetCoinAddress,
    ForceSpend { outpoint: Seq<char>, fee_rate: u64 },
    HashSpace { space: Seq<char> },
}

impl View for Command {
    type V = CommandModel;

    open spec fn view(&self) -> CommandModel {
        match self {
            Command::CreateWallet => CommandModel::CreateWallet,
            Command::LoadWallet => CommandModel::LoadWallet,
            Command::ExportWallet { path } => CommandModel::ExportWallet { path: path@ },
            Command::ImportWallet { path } => CommandModel::ImportWallet { path: path@ },
            Command::GetWalletInfo => CommandModel::GetWalletInfo,
            Command::GetServerInfo => CommandModel::GetServerInfo,
            Command::Open { space, initial_bid, fee_rate } => CommandModel::Open {
                space: space@,
                initial_bid: *initial_bid,
                fee_rate: *fee_rate,
            },
            Command::Bid { space, amount, fee_rate, confirmed_only } => CommandModel::Bid {
                space: space@,
                amount: *amount,
                fee_rate: *fee_rate,
                confirmed_only: *confirmed_only,
            },
            Command::Register { space, address, fee_rate } => CommandModel::Register {
                space: space@,
                address: optional_text(*address),
                fee_rate: *fee_rate,
            },
            Command::GetSpace { space } => CommandModel::GetSpace { space: space@ },
            Command::Transfer { spaces, to, fee_rate } => CommandModel::Transfer {
                spaces: texts(spaces@),
                to: to@,
                fee_rate: *fee_rate,
            },
            Command::EstimateBid { target } => CommandModel::EstimateBid { target: *target },
            Command::SendCoins { amount, to, fee_rate } => CommandModel::SendCoins {
                amount: *amount,
                to: to@,
                fee_rate: *fee_rate,
            },
            Command::Balance => CommandModel::Balance,
            Command::CreateBidOuts { pairs, fee_rate } => CommandModel::CreateBidOuts {
                pairs: *pairs,
                fee_rate: *fee_rate,
            },
            Command::BumpFee { txid, fee_rate } => CommandModel::BumpFee {
                txid: txid@,
                fee_rate: *fee_rate,
            },
            Command::GetSpaceOut { outpoint } => CommandModel::GetSpaceOut { outpoint: outpoint@ },
            Command::GetRollout { target_interval } => CommandModel::GetRollout {
                target_interval: *target_interval,
            },
            Command::SetRawFallback { space, script, fee_rate } => CommandModel::SetRawFallback {
                space: space@,
                script: script@,
                fee_rate: *fee_rate,
            },
            Command::ListTransactions { count, skip } => CommandModel::ListTransactions {
                count: *count,
                skip: *skip,
            },
            Command::ListSpaces => CommandModel::ListSpaces,
            Command::ListBidOuts => CommandModel::ListBidOuts,
            Command::ListUnspent => CommandModel::ListUnspent,
            Command::GetSpaceAddress => CommandModel::GetSpaceAddress,
            Command::GetCoinAddress => CommandModel::GetCoinAddress,
            Command::ForceSpend { outpoint, fee_rate } => CommandModel::ForceSpend {
                outpoint: outpoint@,
                fee_rate: *fee_rate,
            },
            Command::HashSpace { space } => CommandModel::HashSpace { space: space@ },
        }
    }
}

/// The one thing to do for a command: a single call to the remote service, or
/// for the hash command a computation on this side.
#[allow(inconsistent_fields)]
#[derive(Debug, Clone, PartialEq, Eq)]
pub enum Action {
    /// Submit one transaction request for a wallet.
    Submit { wallet: String, request: TransactionRequest },
    CreateWallet { wallet: String },
    LoadWallet { wallet: String },
    /// Read the wallet document at `path` and hand it to the remote service.
    ImportWallet { path: String },
    /// Ask the remote service for the wallet's document and write it to `path`.
    ExportWallet { wallet: String, path: String },
    BumpFee { wallet: String, txid: String, fee_rate: u64, skip_validation: bool },
    ForceSpend { wallet: String, outpoint: String, fee_rate: u64 },
    GetRollout { target_interval: usize },
    EstimateBid { target: usize },
    /// Look a space up by the hash of its canonical name.
    GetSpace { name: String },
    GetSpaceOut { outpoint: String },
    GetWalletInfo { wallet: String },
    GetServerInfo,
    ListTransactions { wallet: String, count: usize, skip: usize },
    ListSpaces { wallet: String },
    ListBidOuts { wallet: String },
    ListUnspent { wallet: String },
    GetBalance { wallet: String },
    GetNewAddress { wallet: String, kind: AddressKind },
    /// Hash a canonical name and show the digest; nothing is sent.
    HashSpace { name: String },
}

/// The mathematical content of an [`Action`].
#[allow(inconsistent_fields)]
pub enum ActionModel {
    Submit { wallet: Seq<char>, request: RequestModel },
    CreateWallet { wallet: Seq<char> },
    LoadWallet { wallet: Seq<char> },
    ImportWallet { path: Seq<char> },
    ExportWallet { wallet: Seq<char>, path: Seq<char> },
    BumpFee { wallet: Seq<char>, txid: Seq<char>, fee_rate: u64, skip_validation: bool },
    ForceSpend { wallet: Seq<char>, outpoint: Seq<char>, fee_rate: u64 },
    GetRollout { target_interval: usize },
    EstimateBid { target: usize },
    GetSpace { name: Seq<char> },
    GetSpaceOut { outpoint: Seq<char> },
    GetWalletInfo { wallet: Seq<char> },
    GetServerInfo,
    ListTransactions { wallet: Seq<char>, count: usize, skip: usize },
    ListSpaces { wallet: Seq<char> },
    ListBidOuts { wallet: Seq<char> },
    ListUnspent { wallet: Seq<char> },
    GetBalance { wallet: Seq<char> },
    GetNewAddress { wallet: Seq<char>, kind: AddressKind },
    HashSpace { name: Seq<char> },
}

impl View for Action {
    type V = ActionModel;

    open spec fn view(&self) -> ActionModel {
        match self {
            Action::Submit { wallet, request } => ActionModel::Submit {
                wallet: wallet@,
                request: request@,
            },
            Action::CreateWallet { wallet } => ActionModel::CreateWallet { wallet: wallet@ },
            Action::LoadWallet { wallet } => ActionModel::LoadWallet { wallet: wallet@ },
            Action::ImportWallet { path } => ActionModel::ImportWallet { path: path@ },
            Action::ExportWallet { wallet, path } => ActionModel::ExportWallet {
                wallet: wallet@,
                path: path@,
            },
            Action::BumpFee { wallet, txid, fee_rate, skip_validation } => ActionModel::BumpFee {
                wallet: wallet@,
                txid: txid@,
                fee_rate: *fee_rate,
                skip_validation: *skip_validation,
            },
            Action::ForceSpend { wallet, outpoint, fee_rate } => ActionModel::ForceSpend {
                wallet: wallet@,
                outpoint: outpoint@,
                fee_rate: *fee_rate,
            },
            Action::GetRollout { target_interval } => ActionModel::GetRollout {
                target_interval: *target_interval,
            },
            Action::EstimateBid { target } => ActionModel::EstimateBid { target: *target },
            Action::GetSpace { name } => ActionModel::GetSpace { name: name@ },
            Action::GetSpaceOut { outpoint } => ActionModel::GetSpaceOut { outpoint: outpoint@ },
            Action::GetWalletInfo { wallet } => ActionModel::GetWalletInfo { wallet: wallet@ },
            Action::GetServerInfo => ActionModel::GetServerInfo,
            Action::ListTransactions { wallet, count, skip } => ActionModel::ListTransactions {
                wallet: wallet@,
                count: *count,
                skip: *skip,
            },
            Action::ListSpaces { wallet } => ActionModel::ListSpaces { wallet: wallet@ },
            Action::ListBidOuts { wallet } => ActionModel::ListBidOuts { wallet: wallet@ },
            Action::ListUnspent { wallet } => ActionModel::ListUnspent { wallet: wallet@ },
            Action::GetBalance { wallet } => ActionModel::GetBalance { wallet: wallet@ },
            Action::GetNewAddress { wallet, kind } => ActionModel::GetNewAddress {
                wallet: wallet@,
                kind: *kind,
            },
            Action::HashSpace { name } => ActionModel::HashSpace { name: name@ },
        }
    }
}

impl ActionModel {
    /// How many requests go out to the remote service when the action is
    /// performed: none for the hash of a name, one for everything else.
    pub open spec fn round_trips(self) -> nat {
        match self {
            ActionModel::HashSpace { .. } => 0,
            _ => 1,
        }
    }
}

/// Shaping that sets a fee rate and whether only confirmed outputs are spent.
pub open spec fn shaping_of(fee_rate: Option<u64>, confirmed_only: bool) -> Shaping {
    Shaping { fee_rate, dust_threshold: None, force: None, skip_validation: None, confirmed_only }
}

/// The submission of what an operation, a bid output count and the shaping
/// compose for the session's wallet, or the error they are refused with.
pub open spec fn submission(
    session: SessionModel,
    operation: Option<OperationModel>,
    bidout_count: Option<u8>,
    shaping: Shaping,
) -> Result<ActionModel, ErrorModel> {
    match composed(session, operation, bidout_count, shaping) {
        Ok(request) => Ok(ActionModel::Submit { wallet: session.wallet, request }),
        Err(error) => Err(error),
    }
}

/// The action that a command leads to under a session, or the error that the
/// command is refused with before anything is sent.
pub open spec fn planned(session: SessionModel, command: CommandModel) -> Result<
    ActionModel,
    ErrorModel,
> {
    match command {
        CommandModel::CreateWallet => Ok(ActionModel::CreateWallet { wallet: session.wallet }),
        CommandModel::LoadWallet => Ok(ActionModel::LoadWallet { wallet: session.wallet }),
        CommandModel::ExportWallet { path } => Ok(
            ActionModel::ExportWallet { wallet: session.wallet, path },
        ),
        CommandModel::ImportWallet { path } => Ok(ActionModel::ImportWallet { path }),
        CommandModel::GetWalletInfo => Ok(ActionModel::GetWalletInfo { wallet: session.wallet }),
        CommandModel::GetServerInfo => Ok(ActionModel::GetServerInfo),
        CommandModel::Open { space, initial_bid, fee_rate } => submission(
            session,
            Some(OperationModel::Open { name: normalized(space), initial_amount: initial_bid }),
            None,
            shaping_of(fee_rate, false),
        ),
        CommandModel::Bid { space, amount, fee_rate, confirmed_only } => submission(
            session,
            Some(OperationModel::Bid { name: normalized(space), amount }),
            None,
            shaping_of(fee_rate, confirmed_only),
        ),
        CommandModel::Register { space, address, fee_rate } => submission(
            session,
            Some(OperationModel::Register { name: normalized(space), destination: address }),
            None,
            shaping_of(fee_rate, false),
        ),
        CommandModel::GetSpace { space } => Ok(ActionModel::GetSpace { name: normalized(space) }),
        CommandModel::Transfer { spaces, to, fee_rate } => if spaces.len() == 0 {
            Err(empty_transfer_error())
        } else {
            submission(
                session,
                Some(OperationModel::Transfer { names: all_normalized(spaces), destination: to }),
                None,
                shaping_of(fee_rate, false),
            )
        },
        CommandModel::EstimateBid { target } => Ok(ActionModel::EstimateBid { target }),
        CommandModel::SendCoins { amount, to, fee_rate } => submission(
            session,
            Some(OperationModel::SendCoins { amount, destination: to }),
            None,
            shaping_of(fee_rate, false),
        ),
        CommandModel::Balance => Ok(ActionModel::GetBalance { wallet: session.wallet }),
        CommandModel::CreateBidOuts { pairs, fee_rate } => submission(
            session,
            None,
            Some(pairs),
            shaping_of(fee_rate, false),
        ),
        CommandModel::BumpFee { txid, fee_rate } => if fee_rate == 0 {
            Err(zero_fee_rate_error())
        } else {
            Ok(
                ActionModel::BumpFee {
                    wallet: session.wallet,
                    txid,
                    fee_rate,
                    skip_validation: session.skip_validation,
                },
            )
        },
        CommandModel::GetSpaceOut { outpoint } => Ok(ActionModel::GetSpaceOut { outpoint }),
        CommandModel::GetRollout { target_interval } => Ok(
            ActionModel::GetRollout { target_interval },
        ),
        CommandModel::SetRawFallback { space, script, fee_rate } => submission(
            session,
            Some(OperationModel::Execute { context: seq![normalized(space)], payload: script }),
            None,
            shaping_of(fee_rate, false),
        ),
        CommandModel::ListTransactions { count, skip } => Ok(
            ActionModel::ListTransactions { wallet: session.wallet, count, skip },
        ),
        CommandModel::ListSpaces => Ok(ActionModel::ListSpaces { wallet: session.wallet }),
        CommandModel::ListBidOuts => Ok(ActionModel::ListBidOuts { wallet: session.wallet }),
        CommandModel::ListUnspent => Ok(ActionModel::ListUnspent { wallet: session.wallet }),
        CommandModel::GetSpaceAddress => Ok(
            ActionModel::GetNewAddress { wallet: session.wallet, kind: AddressKind::Space },
        ),
        CommandModel::GetCoinAddress => Ok(
            ActionModel::GetNewAddress { wallet: session.wallet, kind: AddressKind::Coin },
        ),
        CommandModel::ForceSpend { outpoint, fee_rate } => if fee_rate == 0 {
            Err(zero_fee_rate_error())
        } else {
            Ok(ActionModel::ForceSpend { wallet: session.wallet, outpoint, fee_rate })
        },
        CommandModel::HashSpace { space } => Ok(ActionModel::HashSpace { name: normalized(space) }),
    }
}

impl Action {
    /// How many requests go out to the remote service when the action is performed.
    pub fn round_trips(&self) -> (r: u8)
        ensures
            r == self@.round_trips(),
    {
        match self {
            Action::HashSpace { .. } => 0,
            _ => 1,
        }
    }
}

fn shaping(fee_rate: Option<u64>, confirmed_only: bool) -> (r: Shaping)
    ensures
        r == shaping_of(fee_rate, confirmed_only),
{
    Shaping { fee_rate, dust_threshold: None, force: None, skip_validation: None, confirmed_only }
}

fn submit(
    session: &ClientSession,
    operation: Option<Operation>,
    bidout_count: Option<u8>,
    shaping: Shaping,
) -> (r: Result<Action, ReportableError>)
    ensures
        match submission(
            session@,
            crate::request::optional_operation(operation),
            bidout_count,
            shaping,
        ) {
            Ok(action) => r matches Ok(a) && a@ == action,
            Err(error) => r matches Err(e) && e@ == error,
        },
{
    match build_request(session, operation, bidout_count, shaping) {
        Ok(request) => Ok(Action::Submit { wallet: session.wallet.clone(), request }),
        Err(error) => Err(error),
    }
}

fn zero_fee_rate() -> (r: ReportableError)
    ensures
        r@ == zero_fee_rate_error(),
{
    ReportableError::local_validation(String::from_str("Fee rate must be greater than zero"))
}

/// Maps one command onto the one action that it stands for. A command that is
/// refused is refused here, as invalid input, and nothing is sent for it. Every
/// action is a single call to the remote service, but for the hash of a name,
/// which needs none.
pub fn dispatch(session: &ClientSession, command: Command) -> (r: Result<Action, ReportableError>)
    ensures
        match planned(session@, command@) {
            Ok(action) => r matches Ok(a) && a@ == action,
            Err(error) => r matches Err(e) && e@ == error,
        },
        r matches Ok(a) ==> a@.round_trips() == (if command is HashSpace {
            0nat
        } else {
            1nat
        }),
        r matches Err(e) ==> e@.category is LocalValidation,
{
    proof {
        law_refusals_are_local(session@, command@);
        law_one_round_trip(session@, command@);
    }
    match command {
        Command::CreateWallet => Ok(Action::CreateWallet { wallet: session.wallet.clone() }),
        Command::LoadWallet => Ok(Action::LoadWallet { wallet: session.wallet.clone() }),
        Command::ExportWallet { path } => Ok(
            Action::ExportWallet { wallet: session.wallet.clone(), path },
        ),
        Command::ImportWallet { path } => Ok(Action::ImportWallet { path }),
        Command::GetWalletInfo => Ok(Action::GetWalletInfo { wallet: session.wallet.clone() }),
        Command::GetServerInfo => Ok(Action::GetServerInfo),
        Command::Open { space, initial_bid, fee_rate } => submit(
            session,
            Some(Operation::open(space.as_str(), initial_bid)),
            None,
            shaping(fee_rate, false),
        ),
        Command::Bid { space, amount, fee_rate, confirmed_only } => submit(
            session,
            Some(Operation::bid(space.as_str(), amount)),
            None,
            shaping(fee_rate, confirmed_only),
        ),
        Command::Register { space, address, fee_rate } => submit(
            session,
            Some(Operation::register(space.as_str(), address)),
            None,
            shaping(fee_rate, false),
        ),
        Command::GetSpace { space } => Ok(
            Action::GetSpace { name: normalize_space(space.as_str()) },
        ),
        Command::Transfer { spaces, to, fee_rate } => match Operation::transfer(&spaces, to) {
            Ok(operation) => submit(session, Some(operation), None, shaping(fee_rate, false)),
            Err(error) => Err(error),
        },
        Command::EstimateBid { target } => Ok(Action::EstimateBid { target }),
        Command::SendCoins { amount, to, fee_rate } => submit(
            session,
            Some(Operation::send_coins(amount, to)),
            None,
            shaping(fee_rate, false),
        ),
        Command::Balance => Ok(Action::GetBalance { wallet: session.wallet.clone() }),
        Command::CreateBidOuts { pairs, fee_rate } => submit(
            session,
            None,
            Some(pairs),
            shaping(fee_rate, false),
        ),
        Command::BumpFee { txid, fee_rate } => {
            if fee_rate == 0 {
                Err(zero_fee_rate())
            } else {
                Ok(
                    Action::BumpFee {
                        wallet: session.wallet.clone(),
                        txid,
                        fee_rate,
                        skip_validation: session.skip_validation,
                    },
                )
            }
        },
        Command::GetSpaceOut { outpoint } => Ok(Action::GetSpaceOut { outpoint }),
        Command::GetRollout { target_interval } => Ok(Action::GetRollout { target_interval }),
        Command::SetRawFallback { space, script, fee_rate } => {
            let mut context: Vec<String> = Vec::new();
            context.push(space);
            assert(all_normalized(texts(context@)) =~= seq![normalized(space@)]);
            submit(
                session,
                Some(Operation::execute(&context, script)),
                None,
                shaping(fee_rate, false),
            )
        },
        Command::ListTransactions { count, skip } => Ok(
            Action::ListTransactions { wallet: session.wallet.clone(), count, skip },
        ),
        Command::ListSpaces => Ok(Action::ListSpaces { wallet: session.wallet.clone() }),
        Command::ListBidOuts => Ok(Action::ListBidOuts { wallet: session.wallet.clone() }),
        Command::ListUnspent => Ok(Action::ListUnspent { wallet: session.wallet.clone() }),
        Command::GetSpaceAddress => Ok(
            Action::GetNewAddress { wallet: session.wallet.clone(), kind: AddressKind::Space },
        ),
        Command::GetCoinAddress => Ok(
            Action::GetNewAddress { wallet: session.wallet.clone(), kind: AddressKind::Coin },
        ),
        Command::ForceSpend { outpoint, fee_rate } => {
            if fee_rate == 0 {
                Err(zero_fee_rate())
            } else {
                Ok(Action::ForceSpend { wallet: session.wallet.clone(), outpoint, fee_rate })
            }
        },
        Command::HashSpace { space } => Ok(
            Action::HashSpace { name: normalize_space(space.as_str()) },
        ),
    }
}

/// Every command that is not refused leads to exactly one request to the
/// remote service, but for the hash of a name, which leads to none.
pub proof fn law_one_round_trip(session: SessionModel, command: CommandModel)
    ensures
        planned(session, command) matches Ok(action) ==> action.round_trips() == (if command
            is HashSpace {
            0nat
        } else {
            1nat
        }),
{
}

/// A command is refused only as invalid input, found before any network call.
pub proof fn law_refusals_are_local(session: SessionModel, command: CommandModel)
    ensures
        planned(session, command) matches Err(error) ==> error.category is LocalValidation,
{
}

/// Whatever is submitted goes to the session's wallet and is well formed: it
/// has something to submit, at most one operation, and no fee rate of zero; and
/// every space name in its operation is in canonical form.
pub proof fn law_submission_is_well_formed(session: SessionModel, command: CommandModel)
    ensures
        planned(session, command) matches Ok(ActionModel::Submit { wallet, request }) ==> {
            &&& wallet == session.wallet
            &&& request.wf()
            &&& forall|i: int| 0 <= i < request.operations.len() ==> request.operations[i].wf()
        },
{
    match command {
        CommandModel::Open { space, .. } => law_normalize_idempotent(space),
        CommandModel::Bid { space, .. } => law_normalize_idempotent(space),
        CommandModel::Register { space, .. } => law_normalize_idempotent(space),
        CommandModel::Transfer { spaces, .. } => law_all_normalized_canonical(spaces),
        CommandModel::SetRawFallback { space, .. } => law_normalize_idempotent(space),
        _ => {},
    }
}

} // verus!
