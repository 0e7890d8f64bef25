//! Composing one transaction request from an operation and its shaping parameters.

use vstd::prelude::*;

use crate::error::{local_error, ErrorModel, ReportableError};
use crate::operation::{Operation, OperationModel};
use crate::session::{ClientSession, SessionModel};
use crate::text::{numeral_u64, parse_decimal};

verus! {

/// What one call may set to shape its transaction. A field left at `None`
/// takes the session's default.
#[derive(Debug, Clone, Copy, PartialEq, Eq)]
pub struct Shaping {
    /// Fee rate in satoshi per virtual byte; where present it must be above zero.
    pub fee_rate: Option<u64>,
    /// Dust threshold for this call, in satoshi.
    pub dust_threshold: Option<u64>,
    /// Whether to force an invalid transaction through, for this call.
    pub force: Option<bool>,
    /// Whether to skip the remote check of the transaction, for this call.
    pub skip_validation: Option<bool>,
    /// Whether only confirmed outputs may be spent.
    pub confirmed_only: bool,
}

/// One request to construct a transaction, as it is handed to the remote service.
#[derive(Debug, Clone, PartialEq, Eq)]
pub struct TransactionRequest {
    /// At most one operation; none only where bid outputs are to be created.
    pub operations: Vec<Operation>,
    /// The number of bid output pairs to create beforehand.
    pub bidout_count: Option<u8>,
    /// Fee rate in satoshi per virtual byte.
    pub fee_rate: Option<u64>,
    /// Dust threshold in satoshi.
    pub dust_threshold: Option<u64>,
    pub force: bool,
    pub confirmed_only: bool,
    pub skip_validation: bool,
}

/// The mathematical content of a [`TransactionRequest`].
pub struct RequestModel {
    pub operations: Seq<OperationModel>,
    pub bidout_count: Option<u8>,
    pub fee_rate: Option<u64>,
    pub dust_threshold: Option<u64>,
    pub force: bool,
    pub confirmed_only: bool,
    pub skip_validation: bool,
}

/// The contents of a list of operations.
pub open spec fn operation_models(list: Seq<Operation>) -> Seq<OperationModel> {
    list.map_values(|op: Operation| op@)
}

/// The content of an optional operation.
pub open spec fn optional_operation(operation: Option<Operation>) -> Option<OperationModel> {
    match operation {
        Some(op) => Some(op@),
        None => None,
    }
}

impl View for TransactionRequest {
    type V = RequestModel;

    open spec fn view(&self) -> RequestModel {
        RequestModel {
            operations: operation_models(self.operations@),
            bidout_count: self.bidout_count,
            fee_rate: self.fee_rate,
            dust_threshold: self.dust_threshold,
            force: self.force,
            confirmed_only: self.confirmed_only,
            skip_validation: self.skip_validation,
        }
    }
}

impl RequestModel {
    /// What holds of every request that is composed here: it has something to
    /// submit, at most one operation, and no fee rate of zero.
    pub open spec fn wf(self) -> bool {
        &&& self.operations.len() <= 1
        &&& self.operations.len() == 0 ==> self.bidout_count is Some
        &&& self.fee_rate != Some(0u64)
    }
}

/// The error for a request with neither an operation nor bid outputs to create.
pub open spec fn nothing_to_submit_error() -> ErrorModel {
    local_error("Nothing to submit: no operation and no bid outputs requested"@)
}

/// The error for a fee rate of zero.
pub open spec fn zero_fee_rate_error() -> ErrorModel {
    local_error("Fee rate must be greater than zero"@)
}

/// The error for a fee rate that is no unsigned number of 64 bits.
pub open spec fn invalid_fee_rate_error(text: Seq<char>) -> ErrorModel {
    local_error("Invalid fee rate: "@ + text)
}

/// The error for an amount that is no unsigned number of 64 bits.
pub open spec fn invalid_amount_error(text: Seq<char>) -> ErrorModel {
    local_error("Invalid amount: "@ + text)
}

/// A per-call value where one is given, else the session's default.
pub open spec fn or_default<T>(given: Option<T>, default: T) -> T {
    match given {
        Some(value) => value,
        None => default,
    }
}

/// The request that an operation, a bid output count and the shaping
/// parameters compose under a session, or the error they are refused with.
/// An empty request is refused before a fee rate of zero is.
pub open spec fn composed(
    session: SessionModel,
    operation: Option<OperationModel>,
    bidout_count: Option<u8>,
    shaping: Shaping,
) -> Result<RequestModel, ErrorModel> {
    if operation is None && bidout_count is None {
        Err(nothing_to_submit_error())
    } else if shaping.fee_rate == Some(0u64) {
        Err(zero_fee_rate_error())
    } else {
        Ok(
            RequestModel {
                operations: match operation {
                    Some(op) => seq![op],
                    None => Seq::empty(),
                },
                bidout_count,
                fee_rate: shaping.fee_rate,
                dust_threshold: match shaping.dust_threshold {
                    Some(dust) => Some(dust),
                    None => session.dust_threshold,
                },
                force: or_default(shaping.force, session.force),
                confirmed_only: shaping.confirmed_only,
                skip_validation: or_default(shaping.skip_validation, session.skip_validation),
            },
        )
    }
}

/// The fee rate that a text writes, or the error it is refused with.
pub open spec fn fee_rate_of(text: Seq<char>) -> Result<u64, ErrorModel> {
    match numeral_u64(text) {
        Some(rate) => if rate == 0 {
            Err(zero_fee_rate_error())
        } else {
            Ok(rate)
        },
        None => Err(invalid_fee_rate_error(text)),
    }
}

/// The amount that a text writes, or the error it is refused with.
pub open spec fn amount_of(text: Seq<char>) -> Result<u64, ErrorModel> {
    match numeral_u64(text) {
        Some(amount) => Ok(amount),
        None => Err(invalid_amount_error(text)),
    }
}

impl Shaping {
    /// Shaping that sets a fee rate, where one is given, and leaves the rest
    /// to the session.
    pub fn with_fee_rate(fee_rate: Option<u64>) -> (r: Shaping)
        ensures
            r == (Shaping {
                fee_rate,
                dust_threshold: None,
                force: None,
                skip_validation: None,
                confirmed_only: false,
            }),
    {
        Shaping {
            fee_rate,
            dust_threshold: None,
            force: None,
            skip_validation: None,
            confirmed_only: false,
        }
    }
}

/// Reads a fee rate in satoshi per virtual byte. A text that is no number,
/// and a rate of zero, are refused.
pub fn parse_fee_rate(text: &str) -> (r: Result<u64, ReportableError>)
    ensures
        match fee_rate_of(text@) {
            Ok(rate) => r matches Ok(v) && v == rate,
            Err(error) => r matches Err(e) && e@ == error,
        },
{
    match parse_decimal(text) {
        Some(rate) => {
            if rate == 0 {
                Err(
                    ReportableError::local_validation(
                        String::from_str("Fee rate must be greater than zero"),
                    ),
                )
            } else {
                Ok(rate)
            }
        },
        None => {
            let mut message = String::from_str("Invalid fee rate: ");
            message.append(text);
            Err(ReportableError::local_validation(message))
        },
    }
}

/// Reads an amount in satoshi. A text that is no number is refused.
pub fn parse_amount(text: &str) -> (r: Result<u64, ReportableError>)
    ensures
        match amount_of(text@) {
            Ok(amount) => r matches Ok(v) && v == amount,
            Err(error) => r matches Err(e) && e@ == error,
        },
{
    match parse_decimal(text) {
        Some(amount) => Ok(amount),
        None => {
            let mut message = String::from_str("Invalid amount: ");
            message.append(text);
            Err(ReportableError::local_validation(message))
        },
    }
}

/// Composes the one request of a call. The operation is attached as it is;
/// what the call leaves open is taken from the session. A request with nothing
/// to submit, or with a fee rate of zero, is refused here, before anything is sent.
pub fn build_request(
    session: &ClientSession,
    operation: Option<Operation>,
    bidout_count: Option<u8>,
    shaping: Shaping,
) -> (r: Result<TransactionRequest, ReportableError>)
    ensures
        match composed(session@, optional_operation(operation), bidout_count, shaping) {
            Ok(request) => r matches Ok(req) && req@ == request && req@.wf(),
            Err(error) => r matches Err(e) && e@ == error,
        },
        operation is None && bidout_count is None ==> (r matches Err(e) && e@.category
            is LocalValidation),
        shaping.fee_rate == Some(0u64) ==> (r matches Err(e) && e@.category is LocalValidation),
{
    if operation.is_none() && bidout_count.is_none() {
        return Err(
            ReportableError::local_validation(
                String::from_str("Nothing to submit: no operation and no bid outputs requested"),
            ),
        );
    }
    match shaping.fee_rate {
        Some(rate) => {
            if rate == 0 {
                return Err(
                    ReportableError::local_validation(
                        String::from_str("Fee rate must be greater than zero"),
                    ),
                );
            }
        },
        None => {},
    }
    let mut operations: Vec<Operation> = Vec::new();
    match operation {
        Some(op) => {
            operations.push(op);
            assert(operation_models(operations@) =~= seq![op@]);
        },
        None => {
            assert(operation_models(operations@) =~= Seq::<OperationModel>::empty());
        },
    }
    let dust_threshold = match shaping.dust_threshold {
        Some(dust) => Some(dust),
        None => session.dust_threshold,
    };
    let force = match shaping.force {
        Some(force) => force,
        None => session.force,
    };
    let skip_validation = match shaping.skip_validation {
        Some(skip) => skip,
        None => session.skip_validation,
    };
    Ok(
        TransactionRequest {
            operations,
            bidout_count,
            fee_rate: shaping.fee_rate,
            dust_threshold,
            force,
            confirmed_only: shaping.confirmed_only,
            skip_validation,
        },
    )
}

/// A request with neither an operation nor bid outputs to create is always
/// refused as invalid input, whatever its shaping.
pub proof fn law_empty_request_refused(session: SessionModel, shaping: Shaping)
    ensures
        composed(session, None, None, shaping) matches Err(e) && e.category is LocalValidation,
{
}

/// A fee rate of zero is always refused as invalid input, in a request and as a text.
pub proof fn law_zero_fee_rate_refused(
    session: SessionModel,
    operation: Option<OperationModel>,
    bidout_count: Option<u8>,
    shaping: Shaping,
)
    requires
        shaping.fee_rate == Some(0u64),
    ensures
        composed(session, operation, bidout_count, shaping) matches Err(e) && e.category
            is LocalValidation,
{
}

/// A fee rate text that writes no number, or that writes zero, is always
/// refused as invalid input.
pub proof fn law_bad_fee_rate_text_refused(text: Seq<char>)
    requires
        numeral_u64(text) is None || numeral_u64(text) == Some(0u64),
    ensures
        fee_rate_of(text) matches Err(e) && e.category is LocalValidation,
{
}

/// Whatever is composed has something to submit, holds at most one
/// operation, which is the one given, and carries no fee rate of zero.
pub proof fn law_composed_is_well_formed(
    session: SessionModel,
    operation: Option<OperationModel>,
    bidout_count: Option<u8>,
    shaping: Shaping,
)
    ensures
        composed(session, operation, bidout_count, shaping) matches Ok(request) ==> request.wf()
            && (operation matches Some(op) ==> request.operations == seq![op]),
{
}

} // verus!
