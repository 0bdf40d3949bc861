//! Inference Dispatcher: resolves a model handle and an ordered list of
//! tensor handles into one forward-pass invocation. Every check happens
//! before any borrow is used; the forward pass itself is the model's
//! external capability, whose outcome comes back as a value.

use vstd::prelude::*;

use crate::errors::InferError;
use crate::registry::{resolve_model, resolve_tensor, Payload, Registry};

verus! {

/// The borrows one inference runs on: the model, the primary input
/// sequence, the attention mask, and the optional auxiliary input.
pub struct ResolvedInference<'a, M, T> {
    pub model: &'a M,
    pub input_ids: &'a T,
    pub attention_mask: &'a T,
    pub token_type_ids: Option<&'a T>,
}

/// Why resolving an inference request fails, if it does: too few inputs is
/// rejected before any handle is touched, then the model handle and each
/// used input position are resolved in order.
pub open spec fn infer_failure<M, T>(
    table: Seq<Payload<M, T>>,
    model_handle: u64,
    inputs: Seq<u64>,
) -> Option<InferError> {
    if inputs.len() < 2 {
        Some(InferError::MissingRequiredInput)
    } else {
        match resolve_model(table, model_handle) {
            Err(e) => Some(InferError::InvalidHandle(e)),
            Ok(_) => match resolve_tensor(table, inputs[0]) {
                Err(e) => Some(InferError::InvalidHandle(e)),
                Ok(_) => match resolve_tensor(table, inputs[1]) {
                    Err(e) => Some(InferError::InvalidHandle(e)),
                    Ok(_) => if inputs.len() >= 3 {
                        match resolve_tensor(table, inputs[2]) {
                            Err(e) => Some(InferError::InvalidHandle(e)),
                            Ok(_) => None,
                        }
                    } else {
                        None
                    },
                },
            },
        }
    }
}

/// Resolve a model handle and the input handles of one inference request,
/// read-only: no new handle is allocated here, and a failed resolution
/// leaves every slot as it was. Position 0 is the primary input, position 1
/// the attention mask, position 2, if present, the auxiliary input; any
/// position past the third is ignored.
pub fn resolve_inference<'a, M, T>(
    registry: &'a Registry<M, T>,
    model_handle: u64,
    input_handles: &Vec<u64>,
) -> (r: Result<ResolvedInference<'a, M, T>, InferError>)
    ensures
        match r {
            Ok(res) => {
                &&& infer_failure(registry.table(), model_handle, input_handles@) is None
                &&& resolve_model(registry.table(), model_handle) == Ok::<M, crate::errors::HandleError>(*res.model)
                &&& resolve_tensor(registry.table(), input_handles@[0]) == Ok::<T, crate::errors::HandleError>(*res.input_ids)
                &&& resolve_tensor(registry.table(), input_handles@[1]) == Ok::<T, crate::errors::HandleError>(*res.attention_mask)
                &&& if input_handles@.len() >= 3 {
                    res.token_type_ids matches Some(t) && resolve_tensor(
                        registry.table(),
                        input_handles@[2],
                    ) == Ok::<T, crate::errors::HandleError>(*t)
                } else {
                    res.token_type_ids is None
                }
            },
            Err(e) => infer_failure(registry.table(), model_handle, input_handles@) == Some(e),
        },
{
    if input_handles.len() < 2 {
        return Err(InferError::MissingRequiredInput);
    }
    let model = match registry.borrow_model(model_handle) {
        Err(e) => {
            return Err(InferError::InvalidHandle(e));
        },
        Ok(m) => m,
    };
    let input_ids = match registry.borrow_tensor(input_handles[0]) {
        Err(e) => {
            return Err(InferError::InvalidHandle(e));
        },
        Ok(t) => t,
    };
    let attention_mask = match registry.borrow_tensor(input_handles[1]) {
        Err(e) => {
            return Err(InferError::InvalidHandle(e));
        },
        Ok(t) => t,
    };
    let token_type_ids = if input_handles.len() >= 3 {
        match registry.borrow_tensor(input_handles[2]) {
            Err(e) => {
                return Err(InferError::InvalidHandle(e));
            },
            Ok(t) => Some(t),
        }
    } else {
        None
    };
    Ok(ResolvedInference { model, input_ids, attention_mask, token_type_ids })
}

/// What the model's forward capability came to: a freshly owned output
/// tensor, or its failure message.
pub enum ForwardOutcome<T> {
    Produced(T),
    Failed(String),
}

/// Store the outcome of a forward pass: a produced tensor is taken into a
/// fresh slot and its new handle returned; a failure is surfaced as a
/// computation error and allocates nothing, leaving the model and every
/// input handle intact for a retry.
pub fn store_inference_result<M, T>(registry: &mut Registry<M, T>, outcome: ForwardOutcome<T>) -> (r:
    Result<u64, InferError>)
    requires
        old(registry).table().len() < u64::MAX,
    ensures
        match outcome {
            ForwardOutcome::Produced(t) => {
                &&& r matches Ok(h)
                &&& final(registry).table() == old(registry).table().push(Payload::Tensor(t))
                &&& r->Ok_0 as int == old(registry).table().len() + 1
                &&& !crate::registry::handle_issued(old(registry).table(), r->Ok_0)
                &&& crate::registry::handle_issued(final(registry).table(), r->Ok_0)
            },
            ForwardOutcome::Failed(msg) => {
                &&& r == Err::<u64, InferError>(InferError::Computation(msg))
                &&& final(registry).table() == old(registry).table()
            },
        },
{
    match outcome {
        ForwardOutcome::Produced(t) => Ok(registry.create_tensor(t)),
        ForwardOutcome::Failed(msg) => Err(InferError::Computation(msg)),
    }
}

} // verus!
