//! The token that cancels a running pipeline.

use tokio_util::sync::CancellationToken;
use vstd::prelude::*;

verus! {

#[verifier::external_type_specification]
#[verifier::external_body]
pub struct ExCancellationToken(CancellationToken);

/// The token that cancels a running pipeline.
pub type PipelineCancellationToken = CancellationToken;

/// `tokio_util::sync::CancellationToken::new`: a token not yet cancelled.
/// The token is opaque here, so that is left unstated.
#[verifier::external_body]
fn new_cancellation_token() -> CancellationToken {
    CancellationToken::new()
}

/// Creates the cancellation token of a pipeline run.
pub fn create_pipeline_cancellation_token() -> PipelineCancellationToken {
    new_cancellation_token()
}

} // verus!
