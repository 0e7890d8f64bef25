//! The closed vocabulary of wallet operations.

use vstd::prelude::*;
use vstd::string::StringSliceAdditionalSpecFns;

use crate::error::{local_error, ErrorModel, ReportableError};
use crate::hexcode::{hex_decode, hex_decoded, hex_fault_message, hex_fault_text};
use crate::name::{is_normalized, law_normalize_idempotent, normalize_space, normalized};

verus! {

/// One wallet operation. Every space name in it is in canonical form.
#[allow(inconsistent_fields)]
#[derive(Debug, Clone, PartialEq, Eq)]
pub enum Operation {
    /// Opens an auction for a space with an initial bid, in satoshi.
    Open { name: String, initial_amount: u64 },
    /// Places a bid on a space, in satoshi.
    Bid { name: String, amount: u64 },
    /// Registers a space whose auction was won, to a recipient where one is given.
    Register { name: String, destination: Option<String> },
    /// Transfers one or more spaces to a recipient.
    Transfer { names: Vec<String>, destination: String },
    /// Sends an amount of coins, in satoshi, to a recipient.
    SendCoins { amount: u64, destination: String },
    /// Runs a script on the spaces of its context.
    Execute { context: Vec<String>, payload: Vec<u8> },
}

/// The mathematical content of an [`Operation`].
#[allow(inconsistent_fields)]
pub enum OperationModel {
    Open { name: Seq<char>, initial_amount: u64 },
    Bid { name: Seq<char>, amount: u64 },
    Register { name: Seq<char>, destination: Option<Seq<char>> },
    Transfer { names: Seq<Seq<char>>, destination: Seq<char> },
    SendCoins { amount: u64, destination: Seq<char> },
    Execute { context: Seq<Seq<char>>, payload: Seq<u8> },
}

/// The texts of a list of strings.
pub open spec fn texts(list: Seq<String>) -> Seq<Seq<char>> {
    list.map_values(|s: String| s@)
}

/// The text of an optional string.
pub open spec fn optional_text(text: Option<String>) -> Option<Seq<char>> {
    match text {
        Some(s) => Some(s@),
        None => None,
    }
}

/// A list of names, each brought to canonical form.
pub open spec fn all_normalized(names: Seq<Seq<char>>) -> Seq<Seq<char>> {
    names.map_values(|name: Seq<char>| normalized(name))
}

/// Whether every name of a list is in canonical form.
pub open spec fn each_normalized(names: Seq<Seq<char>>) -> bool {
    forall|i: int| 0 <= i < names.len() ==> is_normalized(#[trigger] names[i])
}

impl View for Operation {
    type V = OperationModel;

    open spec fn view(&self) -> OperationModel {
        match self {
            Operation::Open { name, initial_amount } => OperationModel::Open {
                name: name@,
                initial_amount: *initial_amount,
            },
            Operation::Bid { name, amount } => OperationModel::Bid { name: name@, amount: *amount },
            Operation::Register { name, destination } => OperationModel::Register {
                name: name@,
                destination: optional_text(*destination),
            },
            Operation::Transfer { names, destination } => OperationModel::Transfer {
                names: texts(names@),
                destination: destination@,
            },
            Operation::SendCoins { amount, destination } => OperationModel::SendCoins {
                amount: *amount,
                destination: destination@,
            },
            Operation::Execute { context, payload } => OperationModel::Execute {
                context: texts(context@),
                payload: payload@,
            },
        }
    }
}

impl OperationModel {
    /// What holds of every operation that the constructors make: its names
    /// are canonical, and a transfer names at least one space.
    pub open spec fn wf(self) -> bool {
        match self {
            OperationModel::Open { name, .. } => is_normalized(name),
            OperationModel::Bid { name, .. } => is_normalized(name),
            OperationModel::Register { name, .. } => is_normalized(name),
            OperationModel::Transfer { names, .. } => names.len() > 0 && each_normalized(names),
            OperationModel::SendCoins { .. } => true,
            OperationModel::Execute { context, .. } => each_normalized(context),
        }
    }
}

/// The error for a transfer that names no space.
pub open spec fn empty_transfer_error() -> ErrorModel {
    local_error("No space to transfer"@)
}

/// The error for script data that is not hexadecimal text.
pub open spec fn payload_error(message: Seq<char>) -> ErrorModel {
    local_error("Could not hex decode data: "@ + message)
}

/// Every name of a normalized list is in canonical form.
pub proof fn law_all_normalized_canonical(names: Seq<Seq<char>>)
    ensures
        each_normalized(all_normalized(names)),
{
    assert forall|i: int| 0 <= i < all_normalized(names).len() implies is_normalized(
        #[trigger] all_normalized(names)[i],
    ) by {
        law_normalize_idempotent(names[i]);
    }
}

/// Brings every name of a list to canonical form, in order.
pub fn normalize_all(names: &Vec<String>) -> (r: Vec<String>)
    ensures
        texts(r@) == all_normalized(texts(names@)),
        each_normalized(texts(r@)),
{
    let mut out: Vec<String> = Vec::new();
    let mut i: usize = 0;
    while i < names.len()
        invariant
            i <= names.len(),
            out.len() == i,
            forall|j: int| 0 <= j < i ==> (#[trigger] out@[j])@ == normalized(names@[j]@),
        decreases names.len() - i,
    {
        out.push(normalize_space(names[i].as_str()));
        i += 1;
    }
    proof {
        assert(texts(out@) =~= all_normalized(texts(names@)));
        law_all_normalized_canonical(texts(names@));
    }
    out
}

impl Operation {
    /// Opens an auction for `space` with an initial bid.
    pub fn open(space: &str, initial_amount: u64) -> (r: Operation)
        ensures
            r@ == (OperationModel::Open { name: normalized(space@), initial_amount }),
            r@.wf(),
    {
        Operation::Open { name: normalize_space(space), initial_amount }
    }

    /// Places a bid on `space`.
    pub fn bid(space: &str, amount: u64) -> (r: Operation)
        ensures
            r@ == (OperationModel::Bid { name: normalized(space@), amount }),
            r@.wf(),
    {
        Operation::Bid { name: normalize_space(space), amount }
    }

    /// Registers `space`, to `destination` where one is given.
    pub fn register(space: &str, destination: Option<String>) -> (r: Operation)
        ensures
            r@ == (OperationModel::Register {
                name: normalized(space@),
                destination: optional_text(destination),
            }),
            r@.wf(),
    {
        Operation::Register { name: normalize_space(space), destination }
    }

    /// Transfers `spaces` to `destination`. A transfer of no space is refused.
    pub fn transfer(spaces: &Vec<String>, destination: String) -> (r: Result<
        Operation,
        ReportableError,
    >)
        ensures
            spaces@.len() == 0 ==> (r matches Err(e) && e@ == empty_transfer_error()),
            spaces@.len() > 0 ==> (r matches Ok(op) && op@ == (OperationModel::Transfer {
                names: all_normalized(texts(spaces@)),
                destination: destination@,
            }) && op@.wf()),
    {
        if spaces.len() == 0 {
            return Err(ReportableError::local_validation(String::from_str("No space to transfer")));
        }
        Ok(Operation::Transfer { names: normalize_all(spaces), destination })
    }

    /// Sends `amount` to `destination`.
    pub fn send_coins(amount: u64, destination: String) -> (r: Operation)
        ensures
            r@ == (OperationModel::SendCoins { amount, destination: destination@ }),
            r@.wf(),
    {
        Operation::SendCoins { amount, destination }
    }

    /// Runs the script `payload` on the spaces of `context`.
    pub fn execute(context: &Vec<String>, payload: Vec<u8>) -> (r: Operation)
        ensures
            r@ == (OperationModel::Execute {
                context: all_normalized(texts(context@)),
                payload: payload@,
            }),
            r@.wf(),
    {
        Operation::Execute { context: normalize_all(context), payload }
    }
}

/// Decodes the hexadecimal data that a script is built from. Data that is not
/// hexadecimal text is refused with the decoder's own message.
pub fn decode_payload(data: &str) -> (r: Result<Vec<u8>, ReportableError>)
    ensures
        match hex_decoded(data.spec_bytes()) {
            Ok(bytes) => r matches Ok(v) && v@ == bytes,
            Err(fault) => r matches Err(e) && e@ == payload_error(hex_fault_text(fault)),
        },
        data.spec_bytes().len() % 2 != 0 ==> (r matches Err(e) && e@ == payload_error(
            "Odd number of digits"@,
        )),
{
    match hex_decode(data) {
        Ok(bytes) => Ok(bytes),
        Err(fault) => {
            let mut message = String::from_str("Could not hex decode data: ");
            message.append(hex_fault_message(fault).as_str());
            Err(ReportableError::local_validation(message))
        },
    }
}

} // verus!
