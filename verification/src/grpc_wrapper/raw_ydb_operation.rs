//! The parameters that accompany an operation, and their wire form.

use crate::grpc_wrapper::raw_common_types::Duration;
use std::collections::HashMap;
use vstd::prelude::*;
use vstd::std_specs::convert::FromSpecImpl;
use ydb_grpc::google_proto_workaround::protobuf::Duration as ProtoDuration;
use ydb_grpc::ydb_proto::feature_flag::Status;
use ydb_grpc::ydb_proto::operations::operation_params::OperationMode as GrpcOperationMode;
use ydb_grpc::ydb_proto::operations::OperationParams;

verus! {

/// `ydb_grpc`'s `operation_params::OperationMode`. Verus reads the
/// variants from the crate itself, so the enum is no more than made known.
#[verifier::external_type_specification]
pub struct ExGrpcOperationMode(GrpcOperationMode);

/// `ydb_grpc`'s `feature_flag::Status`, made known with its variants in the
/// same way.
#[verifier::external_type_specification]
pub struct ExStatus(Status);

/// `ydb_grpc`'s protobuf `Duration`, opaque: no span is ever put on the wire
/// here, the type only occurs in the two optional fields below.
#[verifier::external_type_specification]
#[verifier::external_body]
pub struct ExProtoDuration(ProtoDuration);

/// `ydb_grpc`'s `operations::OperationParams`. Verus reads the five
/// public fields from the crate itself, so a value built here is checked field
/// by field against the struct as `ydb_grpc` declares it.
#[verifier::external_type_specification]
pub struct ExOperationParams(OperationParams);

/// The cast of a `ydb_grpc` operation mode to `i32`, which gives the number
/// that stands for the mode on the wire. `ydb_grpc` declares the enum with
/// `Unspecified = 0`, `Sync = 1` and `Async = 2`, and the contract says so.
#[verifier::external_body]
fn grpc_mode_number(mode: GrpcOperationMode) -> (number: i32)
    ensures
        number == match mode {
            GrpcOperationMode::Unspecified => 0i32,
            GrpcOperationMode::Sync => 1i32,
            GrpcOperationMode::Async => 2i32,
        },
{
    mode as i32
}

/// `i32::from` for a `ydb_grpc` feature flag state. The impl is the cast to
/// `i32`, and `ydb_grpc` declares the enum with `Unspecified = 0`,
/// `Enabled = 1` and `Disabled = 2`; the contract says so.
#[verifier::external_body]
fn grpc_status_number(status: Status) -> (number: i32)
    ensures
        number == match status {
            Status::Unspecified => 0i32,
            Status::Enabled => 1i32,
            Status::Disabled => 2i32,
        },
{
    i32::from(status)
}

/// How the server is to run an operation.
#[derive(Debug)]
pub enum OperationMode {
    _Unspecified,
    Sync,
    _Async,
}

impl OperationMode {
    /// The number that stands for the mode on the wire.
    pub open spec fn wire_number(self) -> i32 {
        match self {
            OperationMode::_Unspecified => 0,
            OperationMode::Sync => 1,
            OperationMode::_Async => 2,
        }
    }
}

impl From<OperationMode> for i32 {
    /// The number of the mode on the wire, as `ydb_grpc` has it.
    fn from(mode: OperationMode) -> (number: i32) {
        let val = match mode {
            OperationMode::_Unspecified => GrpcOperationMode::Unspecified,
            OperationMode::Sync => GrpcOperationMode::Sync,
            OperationMode::_Async => GrpcOperationMode::Async,
        };
        grpc_mode_number(val)
    }
}

impl FromSpecImpl<OperationMode> for i32 {
    open spec fn obeys_from_spec() -> bool {
        true
    }

    open spec fn from_spec(mode: OperationMode) -> i32 {
        mode.wire_number()
    }
}

/// The parameters of one operation, before they are put on the wire.
#[derive(Debug)]
pub struct RawOperationParams {
    operation_mode: OperationMode,
    operation_timeout: Duration,
    cancel_after: Duration,
    labels: HashMap<String, String>,
}

impl RawOperationParams {
    /// How the server is to run the operation.
    pub closed spec fn operation_mode(self) -> OperationMode {
        self.operation_mode
    }

    /// After this span the client no longer waits for the result.
    pub closed spec fn operation_timeout(self) -> std::time::Duration {
        self.operation_timeout.span()
    }

    /// After this span the server is asked to cancel the operation.
    pub closed spec fn cancel_after(self) -> std::time::Duration {
        self.cancel_after.span()
    }

    /// The labels that the caller attached to the operation.
    pub closed spec fn labels(self) -> HashMap<String, String> {
        self.labels
    }

    /// Parameters of a synchronous operation without labels.
    pub fn new_with_timeouts(
        operation_timeout: std::time::Duration,
        cancel_after: std::time::Duration,
    ) -> (params: Self)
        ensures
            params.operation_mode() == OperationMode::Sync,
            params.operation_timeout() == operation_timeout,
            params.cancel_after() == cancel_after,
            params.labels()@ == Map::<String, String>::empty(),
    {
        broadcast use Duration::lemma_of_span;

        RawOperationParams {
            operation_mode: OperationMode::Sync,
            operation_timeout: Duration::from(operation_timeout),
            cancel_after: Duration::from(cancel_after),
            labels: HashMap::new(),
        }
    }

    /// As `new_with_timeouts`, with one span for both.
    pub fn new_with_timeout(timeout: std::time::Duration) -> (params: Self)
        ensures
            params.operation_mode() == OperationMode::Sync,
            params.operation_timeout() == timeout,
            params.cancel_after() == timeout,
            params.labels()@ == Map::<String, String>::empty(),
    {
        Self::new_with_timeouts(timeout, timeout)
    }
}

impl From<RawOperationParams> for OperationParams {
    /// The wire form of `params`; what it holds is told by `from_spec`.
    fn from(params: RawOperationParams) -> (wire: Self) {
        OperationParams {
            operation_mode: i32::from(params.operation_mode),
            operation_timeout: None,
            cancel_after: None,
            labels: params.labels,
            report_cost_info: grpc_status_number(Status::Unspecified),
        }
    }
}

impl FromSpecImpl<RawOperationParams> for OperationParams {
    open spec fn obeys_from_spec() -> bool {
        true
    }

    /// The mode goes by its number, the labels as they are; the two spans
    /// are not sent, and cost reporting is left unspecified.
    open spec fn from_spec(params: RawOperationParams) -> Self {
        OperationParams {
            operation_mode: params.operation_mode().wire_number(),
            operation_timeout: None,
            cancel_after: None,
            labels: params.labels(),
            report_cost_info: 0,
        }
    }
}

} // verus!
