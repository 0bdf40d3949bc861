//! Model Variant Registry / Dispatcher: from a parsed configuration, a
//! device and a precision to one concrete model variant. The numeric layer
//! stack of each family is an external collaborator; its outcome enters
//! `finish_load` as a value, so every decision made here is checked.

use vstd::prelude::*;

use crate::config::{ArchitectureConfig, Family};
use crate::errors::BuildError;
use crate::errors::IoError;
use crate::errors::LoadError;
use crate::config::parse;
use crate::config::parse_err;
use crate::config::parse_fields_ok;
use crate::str_eq;
use crate::weights::{select_weight_files, weight_file_selection, WeightStore};

verus! {

/// Numeric precisions the boundary can request.
#[derive(Debug, Clone, Copy, PartialEq, Eq, Structural)]
pub enum Dtype {
    F16,
    BF16,
    F32,
    I64,
    U32,
    U8,
}

/// Device kinds the boundary can name.
#[derive(Debug, Clone, Copy, PartialEq, Eq, Structural)]
pub enum DeviceKind {
    Cpu,
    Cuda,
}

/// A placement: a device kind and an ordinal among devices of that kind.
#[derive(Debug, Clone, Copy, PartialEq, Eq, Structural)]
pub struct Device {
    pub kind: DeviceKind,
    pub ordinal: u64,
}

/// What this build of the runtime was compiled with, resolved once at the
/// top of the load path and threaded explicitly from there.
#[derive(Debug, Clone, Copy, PartialEq, Eq, Structural)]
pub struct Features {
    pub cuda: bool,
    pub flash_attn: bool,
}

/// Is the device kind compiled into this build?
pub open spec fn device_supported(kind: DeviceKind, features: Features) -> bool {
    match kind {
        DeviceKind::Cpu => true,
        DeviceKind::Cuda => features.cuda,
    }
}

/// What a boolean-like override string denotes, if anything.
pub open spec fn parse_bool_spec(s: Seq<char>) -> Option<bool> {
    if s == "true"@ {
        Some(true)
    } else if s == "false"@ {
        Some(false)
    } else {
        None
    }
}

/// The view of an optional override string.
pub open spec fn opt_text(o: Option<String>) -> Option<Seq<char>> {
    match o {
        Some(s) => Some(s@),
        None => None,
    }
}

/// Accelerated attention is enabled exactly when the build supports it, the
/// requested precision is half-precision float, and the environment override
/// does not read as an explicit falsy value.
pub open spec fn accel_spec(features: Features, dtype: Dtype, override_raw: Option<Seq<char>>) -> bool {
    &&& features.cuda
    &&& features.flash_attn
    &&& dtype is F16
    &&& match override_raw {
        Some(s) => parse_bool_spec(s) != Some(false),
        None => true,
    }
}

/// Compute the accelerated-attention flag once, before any family
/// construction; the flag is threaded into construction, never re-derived.
pub fn accelerated_attention(features: &Features, dtype: Dtype, override_raw: &Option<String>) -> (r:
    bool)
    ensures
        r == accel_spec(*features, dtype, opt_text(*override_raw)),
{
    let is_f16 = match dtype {
        Dtype::F16 => true,
        _ => false,
    };
    let eligible = features.cuda && features.flash_attn && is_f16;
    proof {
        reveal_strlit("true");
        reveal_strlit("false");
        assert("true"@.len() == 4);
        assert("false"@.len() == 5);
    }
    match override_raw {
        None => eligible,
        Some(s) => {
            if str_eq(s.as_str(), "false") {
                false
            } else {
                eligible
            }
        },
    }
}

/// The concrete model variants: one per family and task-head combination.
#[derive(Debug, Clone, Copy, PartialEq, Eq, Structural)]
pub enum ModelVariant {
    BertBase,
    BertSequenceClassification,
    CamembertBase,
    RobertaBase,
    RobertaSequenceClassification,
    XlmRobertaBase,
    XlmRobertaSequenceClassification,
    DistilbertBase,
    MistralBase,
}

/// The task-head name a family recognizes, if it has a task-head variant.
pub open spec fn head_name(f: Family) -> Option<Seq<char>> {
    match f {
        Family::Bert => Some("BertForSequenceClassification"@),
        Family::Roberta => Some("RobertaForSequenceClassification"@),
        Family::XlmRoberta => Some("XLMRobertaForSequenceClassification"@),
        _ => None,
    }
}

/// The plain variant every family falls back to.
pub open spec fn base_variant(f: Family) -> ModelVariant {
    match f {
        Family::Bert => ModelVariant::BertBase,
        Family::Camembert => ModelVariant::CamembertBase,
        Family::Roberta => ModelVariant::RobertaBase,
        Family::XlmRoberta => ModelVariant::XlmRobertaBase,
        Family::Distilbert => ModelVariant::DistilbertBase,
        Family::Mistral => ModelVariant::MistralBase,
    }
}

/// The task-head variant of a family that has one.
pub open spec fn head_variant(f: Family) -> ModelVariant {
    match f {
        Family::Bert => ModelVariant::BertSequenceClassification,
        Family::Roberta => ModelVariant::RobertaSequenceClassification,
        Family::XlmRoberta => ModelVariant::XlmRobertaSequenceClassification,
        _ => base_variant(f),
    }
}

/// Two-level dispatch: the family tag selects the family, and the first
/// entry of its task-head name list, when it matches the name the family
/// recognizes, selects the task-head variant; anything else silently falls
/// back to the base variant, so dispatch is total.
pub open spec fn variant_spec(f: Family, archs: Seq<Seq<char>>) -> ModelVariant {
    if archs.len() > 0 && head_name(f) == Some(archs[0]) {
        head_variant(f)
    } else {
        base_variant(f)
    }
}

/// Select the concrete variant a configuration calls for.
pub fn select_variant(config: &ArchitectureConfig) -> (v: ModelVariant)
    ensures
        v == variant_spec(config.family(), config.params().architectures.deep_view()),
{
    let family = config.family_tag();
    let params = config.params_ref();
    let ghost archs = config.params().architectures.deep_view();
    let has_head: bool = if params.architectures.len() > 0 {
        proof {
            assert(archs[0] == config.params().architectures@[0]@);
        }
        match family {
            Family::Bert => str_eq(
                params.architectures[0].as_str(),
                "BertForSequenceClassification",
            ),
            Family::Roberta => str_eq(
                params.architectures[0].as_str(),
                "RobertaForSequenceClassification",
            ),
            Family::XlmRoberta => str_eq(
                params.architectures[0].as_str(),
                "XLMRobertaForSequenceClassification",
            ),
            _ => false,
        }
    } else {
        false
    };
    if has_head {
        match family {
            Family::Bert => ModelVariant::BertSequenceClassification,
            Family::Roberta => ModelVariant::RobertaSequenceClassification,
            Family::XlmRoberta => ModelVariant::XlmRobertaSequenceClassification,
            Family::Camembert => ModelVariant::CamembertBase,
            Family::Distilbert => ModelVariant::DistilbertBase,
            Family::Mistral => ModelVariant::MistralBase,
        }
    } else {
        match family {
            Family::Bert => ModelVariant::BertBase,
            Family::Camembert => ModelVariant::CamembertBase,
            Family::Roberta => ModelVariant::RobertaBase,
            Family::XlmRoberta => ModelVariant::XlmRobertaBase,
            Family::Distilbert => ModelVariant::DistilbertBase,
            Family::Mistral => ModelVariant::MistralBase,
        }
    }
}

/// The ordered input names a variant expects at inference time.
pub open spec fn input_names_spec(v: ModelVariant) -> Seq<Seq<char>> {
    match v {
        ModelVariant::BertBase => seq!["input_ids"@, "attention_mask"@, "token_type_ids"@],
        ModelVariant::BertSequenceClassification => seq![
            "input_ids"@,
            "attention_mask"@,
            "token_type_ids"@,
        ],
        _ => seq!["input_ids"@, "attention_mask"@],
    }
}

/// Law: dispatch is total. Every recognized family and every task-head name
/// list yield a concrete variant, and that variant expects at least one
/// input name.
pub proof fn lemma_dispatch_total(family: Family, archs: Seq<Seq<char>>)
    ensures
        input_names_spec(variant_spec(family, archs)).len() > 0,
{
}

/// A loaded model: the selected variant, the flag threaded into its
/// construction, its configuration, and exclusive ownership of its weight
/// store and of the family implementation's state `P`.
pub struct Model<T, P> {
    pub variant: ModelVariant,
    pub accel: bool,
    pub config: ArchitectureConfig,
    pub weights: WeightStore<T>,
    pub layers: P,
}

impl<T, P> Model<T, P> {
    /// The names of the inputs this model expects, in position order.
    pub fn get_input_names(&self) -> (r: Vec<String>)
        ensures
            r.deep_view() == input_names_spec(self.variant),
            r@.len() > 0,
    {
        let mut names: Vec<String> = Vec::new();
        names.push("input_ids".to_owned());
        names.push("attention_mask".to_owned());
        match self.variant {
            ModelVariant::BertBase | ModelVariant::BertSequenceClassification => {
                names.push("token_type_ids".to_owned());
            },
            _ => {},
        }
        proof {
            assert(names.deep_view() =~= input_names_spec(self.variant));
        }
        names
    }
}

/// Proof that the device gate was passed: the first step of every load,
/// taken before any configuration or weight file is read.
pub struct LoadTicket {
    dtype: Dtype,
    device: Device,
    features: Features,
}

impl LoadTicket {
    /// The precision the load was asked for.
    pub closed spec fn dtype(self) -> Dtype {
        self.dtype
    }

    /// The placement the load was asked for.
    pub closed spec fn device(self) -> Device {
        self.device
    }

    /// The build capabilities resolved for this load.
    pub closed spec fn features(self) -> Features {
        self.features
    }

    /// Read the requested precision back out.
    pub fn dtype_tag(&self) -> (d: Dtype)
        ensures
            d == self.dtype(),
    {
        self.dtype
    }

    /// Read the requested placement back out.
    pub fn device_tag(&self) -> (d: Device)
        ensures
            d == self.device(),
    {
        self.device
    }
}

/// Gate a load on the requested device: a kind not compiled into this build
/// is rejected here, before any file is touched or weight materialized.
pub fn begin_load(dtype: Dtype, device: Device, features: Features) -> (r: Result<
    LoadTicket,
    BuildError,
>)
    ensures
        match r {
            Ok(t) => {
                &&& device_supported(device.kind, features)
                &&& t.dtype() == dtype
                &&& t.device() == device
                &&& t.features() == features
            },
            Err(e) => {
                &&& e == BuildError::UnsupportedDevice
                &&& !device_supported(device.kind, features)
            },
        },
{
    let supported = match device.kind {
        DeviceKind::Cpu => true,
        DeviceKind::Cuda => features.cuda,
    };
    if supported {
        Ok(LoadTicket { dtype, device, features })
    } else {
        Err(BuildError::UnsupportedDevice)
    }
}

/// Everything the load path decides before the family implementation runs:
/// the configuration with its derived flag written, the selected variant,
/// and the weight files to map.
pub struct LoadPlan {
    pub config: ArchitectureConfig,
    pub variant: ModelVariant,
    pub accel: bool,
    pub weight_files: Vec<String>,
}

/// Plan a load: interpret the configuration document, select the weight
/// container files, compute and write the accelerated-attention flag, and
/// select the concrete variant. Fails exactly on a configuration error or on
/// a directory with no weight container.
pub fn plan_load(
    ticket: &LoadTicket,
    doc: &Vec<u8>,
    file_names: &Vec<String>,
    accel_override: &Option<String>,
) -> (r: Result<LoadPlan, LoadError>)
    ensures
        match r {
            Ok(plan) => {
                &&& parse_fields_ok(doc@, plan.config)
                &&& plan.accel == accel_spec(ticket.features(), ticket.dtype(), opt_text(*accel_override))
                &&& plan.config.params().use_flash_attn == Some(plan.accel)
                &&& plan.variant == variant_spec(
                    plan.config.family(),
                    plan.config.params().architectures.deep_view(),
                )
                &&& plan.weight_files.deep_view() == weight_file_selection(file_names.deep_view())
                &&& plan.weight_files@.len() > 0
            },
            Err(LoadError::Config(e)) => parse_err(doc@, e),
            Err(LoadError::Io(e)) => {
                &&& e == IoError::NotFound
                &&& (exists|c: ArchitectureConfig| parse_fields_ok(doc@, c))
                &&& weight_file_selection(file_names.deep_view()).len() == 0
            },
            Err(LoadError::Build(_)) => false,
        },
{
    let mut config = match parse(doc) {
        Err(e) => {
            return Err(LoadError::Config(e));
        },
        Ok(c) => c,
    };
    let ghost parsed = config;
    let weight_files = match select_weight_files(file_names) {
        Err(e) => {
            proof {
                assert(parse_fields_ok(doc@, parsed));
            }
            return Err(LoadError::Io(e));
        },
        Ok(v) => v,
    };
    let accel = accelerated_attention(&ticket.features, ticket.dtype, accel_override);
    config.set_accelerated_attention(accel);
    let variant = select_variant(&config);
    Ok(LoadPlan { config, variant, accel, weight_files })
}

/// What the family implementation's construction came to: its state, ready,
/// or its failure message.
pub enum Construction<P> {
    Ready(P),
    Failed(String),
}

/// Finish a load: package the planned variant, flag and configuration with
/// the weight store and the family implementation's state into one model
/// value, or propagate the implementation's failure.
pub fn finish_load<T, P>(plan: LoadPlan, weights: WeightStore<T>, outcome: Construction<P>) -> (r:
    Result<Model<T, P>, BuildError>)
    ensures
        match outcome {
            Construction::Ready(p) => {
                &&& r matches Ok(m)
                &&& r->Ok_0.variant == plan.variant
                &&& r->Ok_0.accel == plan.accel
                &&& r->Ok_0.config == plan.config
                &&& r->Ok_0.weights == weights
                &&& r->Ok_0.layers == p
            },
            Construction::Failed(msg) => r == Err::<Model<T, P>, BuildError>(
                BuildError::Construction(msg),
            ),
        },
{
    match outcome {
        Construction::Ready(p) => Ok(
            Model {
                variant: plan.variant,
                accel: plan.accel,
                config: plan.config,
                weights,
                layers: p,
            },
        ),
        Construction::Failed(msg) => Err(BuildError::Construction(msg)),
    }
}

/// One-call construction from an already-parsed configuration, as the
/// dispatcher sees it: the device gate first, then the derived flag, then
/// total two-level dispatch, then the family implementation's outcome.
pub fn build<T, P>(
    config: ArchitectureConfig,
    weights: WeightStore<T>,
    dtype: Dtype,
    device: Device,
    features: Features,
    accel_override: &Option<String>,
    outcome: Construction<P>,
) -> (r: Result<Model<T, P>, BuildError>)
    ensures
        !device_supported(device.kind, features) ==> r == Err::<Model<T, P>, BuildError>(
            BuildError::UnsupportedDevice,
        ),
        device_supported(device.kind, features) ==> match outcome {
            Construction::Failed(msg) => r == Err::<Model<T, P>, BuildError>(
                BuildError::Construction(msg),
            ),
            Construction::Ready(p) => {
                &&& r matches Ok(m)
                &&& r->Ok_0.variant == variant_spec(
                    config.family(),
                    config.params().architectures.deep_view(),
                )
                &&& r->Ok_0.accel == accel_spec(features, dtype, opt_text(*accel_override))
                &&& r->Ok_0.config.family() == config.family()
                &&& r->Ok_0.config.params() == (crate::config::FamilyParams {
                    use_flash_attn: Some(r->Ok_0.accel),
                    ..config.params()
                })
                &&& r->Ok_0.weights == weights
                &&& r->Ok_0.layers == p
            },
        },
{
    let mut config = config;
    let ticket = match begin_load(dtype, device, features) {
        Err(e) => {
            return Err(e);
        },
        Ok(t) => t,
    };
    let accel = accelerated_attention(&ticket.features, ticket.dtype, accel_override);
    config.set_accelerated_attention(accel);
    let variant = select_variant(&config);
    let plan = LoadPlan { config, variant, accel, weight_files: Vec::new() };
    finish_load(plan, weights, outcome)
}

} // verus!
