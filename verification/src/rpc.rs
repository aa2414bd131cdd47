//! The fee query as a remote procedure: what the server answers, and how it
//! tells a submission that it could not decode from a fee that could not be
//! computed.

use vstd::prelude::*;
use vstd::std_specs::convert::FromSpecImpl;
use core::marker::PhantomData;
use std::sync::Arc;

verus! {

/// Why a fee query failed.
#[derive(Clone, Copy, Debug, PartialEq, Eq, Structural)]
pub enum FiatFeeRpcError {
    /// The submission could not be decoded.
    DecodeError,
    /// The fee could not be computed.
    RuntimeError,
}

/// The code of a failure: 1 for a fee that could not be computed, 2 for a
/// submission that could not be decoded.
pub open spec fn error_code(e: FiatFeeRpcError) -> i64 {
    match e {
        FiatFeeRpcError::RuntimeError => 1,
        FiatFeeRpcError::DecodeError => 2,
    }
}

impl From<FiatFeeRpcError> for i64 {
    /// The code of the failure: 1 for a fee that could not be computed, 2 for
    /// a submission that could not be decoded.
    fn from(e: FiatFeeRpcError) -> (r: i64) {
        match e {
            FiatFeeRpcError::RuntimeError => 1,
            FiatFeeRpcError::DecodeError => 2,
        }
    }
}

impl FromSpecImpl<FiatFeeRpcError> for i64 {
    open spec fn obeys_from_spec() -> bool {
        true
    }

    open spec fn from_spec(e: FiatFeeRpcError) -> i64 {
        error_code(e)
    }
}

/// The message of every failed fee query.
pub open spec fn failure_message() -> Seq<char> {
    "Unable to query dispatch info."@
}

/// A failed query as the server reports it.
#[derive(Debug)]
pub struct RpcError {
    /// The code of the server error.
    pub code: i64,
    pub message: String,
    /// What the failing stage said of the failure.
    pub data: Option<String>,
}

/// A fee query as far as it came: the fee, or the stage that failed with what
/// it said of the failure.
pub enum QueryOutcome<Balance> {
    Fee(Balance),
    Failed(FiatFeeRpcError, String),
}

/// The server of the fee query, over a client of the ledger.
pub struct FiatFeeServer<Client, Block> {
    client: Arc<Client>,
    _marker_block: PhantomData<Block>,
}

impl<Client, Block> FiatFeeServer<Client, Block> {
    /// The client that the server asks.
    pub closed spec fn spec_client(&self) -> Arc<Client> {
        self.client
    }

    /// A server over the given client.
    pub fn new(client: Arc<Client>) -> (r: Self)
        ensures
            r.spec_client() == client,
    {
        Self { client, _marker_block: PhantomData }
    }

    /// The client that the server asks.
    pub fn client(&self) -> (r: &Arc<Client>)
        ensures
            *r == self.spec_client(),
    {
        &self.client
    }

    /// The answer to a fee query: the fee where there is one; else an error
    /// that carries the code of the stage that failed, the same message for
    /// both stages, and what the stage said.
    pub fn get_call_fee_dock<Balance>(&self, outcome: QueryOutcome<Balance>) -> (r: Result<
        Balance,
        RpcError,
    >)
        ensures
            match outcome {
                QueryOutcome::Fee(fee) => r == Ok::<Balance, RpcError>(fee),
                QueryOutcome::Failed(stage, detail) => {
                    &&& r is Err
                    &&& r->Err_0.code == error_code(stage)
                    &&& r->Err_0.message@ == failure_message()
                    &&& r->Err_0.data == Some(detail)
                },
            },
    {
        match outcome {
            QueryOutcome::Fee(fee) => Ok(fee),
            QueryOutcome::Failed(stage, detail) => Err(
                RpcError {
                    code: i64::from(stage),
                    message: "Unable to query dispatch info.".to_owned(),
                    data: Some(detail),
                },
            ),
        }
    }
}

} // verus!
