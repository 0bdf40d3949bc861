//! Architecture Config Model: interprets a declarative configuration
//! document as one of several known architecture-family shapes.

use vstd::prelude::*;

use crate::errors::{ConfigError, ConfigField};
use crate::jsondoc::{
    json_list_len_field, json_list_string_field, json_nat_field, json_string_field,
    list_len_field, list_string_field, nat_field, string_field,
};
use crate::str_eq;

verus! {

/// The architecture families this build knows.
#[derive(Debug, Clone, Copy, PartialEq, Eq, Structural)]
pub enum Family {
    Bert,
    Camembert,
    Roberta,
    XlmRoberta,
    Distilbert,
    Mistral,
}

/// Hyperparameters common to every family, read from the document.
pub struct FamilyParams {
    pub hidden_size: u64,
    pub num_hidden_layers: u64,
    pub vocab_size: u64,
    /// Task-head names, in document order; empty when the document names none.
    pub architectures: Vec<String>,
    /// Derived accelerated-attention flag: absent at parse time, written once
    /// by the load planner before model construction.
    pub use_flash_attn: Option<bool>,
}

/// A parsed configuration: exactly one family variant is populated.
pub enum ArchitectureConfig {
    Bert(FamilyParams),
    Camembert(FamilyParams),
    Roberta(FamilyParams),
    XlmRoberta(FamilyParams),
    Distilbert(FamilyParams),
    Mistral(FamilyParams),
}

impl ArchitectureConfig {
    /// The family tag of this configuration.
    pub open spec fn family(self) -> Family {
        match self {
            ArchitectureConfig::Bert(_) => Family::Bert,
            ArchitectureConfig::Camembert(_) => Family::Camembert,
            ArchitectureConfig::Roberta(_) => Family::Roberta,
            ArchitectureConfig::XlmRoberta(_) => Family::XlmRoberta,
            ArchitectureConfig::Distilbert(_) => Family::Distilbert,
            ArchitectureConfig::Mistral(_) => Family::Mistral,
        }
    }

    /// The family-specific hyperparameters of this configuration.
    pub open spec fn params(self) -> FamilyParams {
        match self {
            ArchitectureConfig::Bert(p) => p,
            ArchitectureConfig::Camembert(p) => p,
            ArchitectureConfig::Roberta(p) => p,
            ArchitectureConfig::XlmRoberta(p) => p,
            ArchitectureConfig::Distilbert(p) => p,
            ArchitectureConfig::Mistral(p) => p,
        }
    }

    /// Borrow the hyperparameters.
    pub fn params_ref(&self) -> (r: &FamilyParams)
        ensures
            *r == self.params(),
    {
        match self {
            ArchitectureConfig::Bert(p) => p,
            ArchitectureConfig::Camembert(p) => p,
            ArchitectureConfig::Roberta(p) => p,
            ArchitectureConfig::XlmRoberta(p) => p,
            ArchitectureConfig::Distilbert(p) => p,
            ArchitectureConfig::Mistral(p) => p,
        }
    }

    /// The family tag, for executable dispatch.
    pub fn family_tag(&self) -> (f: Family)
        ensures
            f == self.family(),
    {
        match self {
            ArchitectureConfig::Bert(_) => Family::Bert,
            ArchitectureConfig::Camembert(_) => Family::Camembert,
            ArchitectureConfig::Roberta(_) => Family::Roberta,
            ArchitectureConfig::XlmRoberta(_) => Family::XlmRoberta,
            ArchitectureConfig::Distilbert(_) => Family::Distilbert,
            ArchitectureConfig::Mistral(_) => Family::Mistral,
        }
    }

    /// Write the derived accelerated-attention flag. This is the single
    /// mutation a configuration allows after parsing.
    pub fn set_accelerated_attention(&mut self, enabled: bool)
        ensures
            final(self).family() == old(self).family(),
            final(self).params() == (FamilyParams {
                use_flash_attn: Some(enabled),
                ..old(self).params()
            }),
    {
        match self {
            ArchitectureConfig::Bert(p) => p.use_flash_attn = Some(enabled),
            ArchitectureConfig::Camembert(p) => p.use_flash_attn = Some(enabled),
            ArchitectureConfig::Roberta(p) => p.use_flash_attn = Some(enabled),
            ArchitectureConfig::XlmRoberta(p) => p.use_flash_attn = Some(enabled),
            ArchitectureConfig::Distilbert(p) => p.use_flash_attn = Some(enabled),
            ArchitectureConfig::Mistral(p) => p.use_flash_attn = Some(enabled),
        }
    }
}

/// The family a discriminator string names, if any.
pub open spec fn family_of(discriminator: Seq<char>) -> Option<Family> {
    if discriminator == "bert"@ {
        Some(Family::Bert)
    } else if discriminator == "camembert"@ {
        Some(Family::Camembert)
    } else if discriminator == "roberta"@ {
        Some(Family::Roberta)
    } else if discriminator == "xlm-roberta"@ {
        Some(Family::XlmRoberta)
    } else if discriminator == "distilbert"@ {
        Some(Family::Distilbert)
    } else if discriminator == "mistral"@ {
        Some(Family::Mistral)
    } else {
        None
    }
}

/// The family the document's discriminator field names, if the field is
/// present and recognized.
pub open spec fn doc_family(doc: Seq<u8>) -> Option<Family> {
    match string_field(doc, "model_type"@) {
        Some(d) => family_of(d),
        None => None,
    }
}

/// What a successful parse of `doc` yields: the family named by the
/// discriminator, the three required hyperparameters, and the task-head name
/// list (empty when the document holds none).
pub open spec fn parse_fields_ok(doc: Seq<u8>, c: ArchitectureConfig) -> bool {
    &&& doc_family(doc) == Some(c.family())
    &&& nat_field(doc, "hidden_size"@) == Some(c.params().hidden_size)
    &&& nat_field(doc, "num_hidden_layers"@) == Some(c.params().num_hidden_layers)
    &&& nat_field(doc, "vocab_size"@) == Some(c.params().vocab_size)
    &&& match list_len_field(doc, "architectures"@) {
        Some(n) => {
            &&& c.params().architectures@.len() == n
            &&& forall|j: int|
                0 <= j < n ==> list_string_field(doc, "architectures"@, j) == Some(
                    #[trigger] c.params().architectures@[j]@,
                )
        },
        None => c.params().architectures@.len() == 0,
    }
}

/// Exactly when `parse` fails with `e`: the error taxonomy, ordered as the
/// parser reads the document.
pub open spec fn parse_err(doc: Seq<u8>, e: ConfigError) -> bool {
    match e {
        ConfigError::UnsupportedArchitecture => {
            &&& string_field(doc, "model_type"@) is Some
            &&& doc_family(doc) is None
        },
        ConfigError::Malformed(f) => match f {
            ConfigField::ModelType => string_field(doc, "model_type"@) is None,
            ConfigField::HiddenSize => {
                &&& doc_family(doc) is Some
                &&& nat_field(doc, "hidden_size"@) is None
            },
            ConfigField::NumHiddenLayers => {
                &&& doc_family(doc) is Some
                &&& nat_field(doc, "hidden_size"@) is Some
                &&& nat_field(doc, "num_hidden_layers"@) is None
            },
            ConfigField::VocabSize => {
                &&& doc_family(doc) is Some
                &&& nat_field(doc, "hidden_size"@) is Some
                &&& nat_field(doc, "num_hidden_layers"@) is Some
                &&& nat_field(doc, "vocab_size"@) is None
            },
            ConfigField::Architectures => {
                &&& doc_family(doc) is Some
                &&& nat_field(doc, "hidden_size"@) is Some
                &&& nat_field(doc, "num_hidden_layers"@) is Some
                &&& nat_field(doc, "vocab_size"@) is Some
                &&& match list_len_field(doc, "architectures"@) {
                    Some(n) => exists|j: int|
                        0 <= j < n && #[trigger] list_string_field(doc, "architectures"@, j)
                            is None,
                    None => false,
                }
            },
        },
    }
}

/// Recognize a discriminator string.
pub fn family_from_discriminator(d: &str) -> (r: Option<Family>)
    ensures
        r == family_of(d@),
{
    if str_eq(d, "bert") {
        Some(Family::Bert)
    } else if str_eq(d, "camembert") {
        Some(Family::Camembert)
    } else if str_eq(d, "roberta") {
        Some(Family::Roberta)
    } else if str_eq(d, "xlm-roberta") {
        Some(Family::XlmRoberta)
    } else if str_eq(d, "distilbert") {
        Some(Family::Distilbert)
    } else if str_eq(d, "mistral") {
        Some(Family::Mistral)
    } else {
        None
    }
}

/// Read the optional task-head name list of the document.
fn read_architectures(doc: &Vec<u8>) -> (r: Result<Vec<String>, ConfigError>)
    ensures
        match r {
            Ok(v) => match list_len_field(doc@, "architectures"@) {
                Some(n) => {
                    &&& v@.len() == n
                    &&& forall|j: int|
                        0 <= j < n ==> list_string_field(doc@, "architectures"@, j) == Some(
                            #[trigger] v@[j]@,
                        )
                },
                None => v@.len() == 0,
            },
            Err(e) => {
                &&& e == ConfigError::Malformed(ConfigField::Architectures)
                &&& match list_len_field(doc@, "architectures"@) {
                    Some(n) => exists|j: int|
                        0 <= j < n && #[trigger] list_string_field(doc@, "architectures"@, j)
                            is None,
                    None => false,
                }
            },
        },
{
    match json_list_len_field(doc, "architectures") {
        None => Ok(Vec::new()),
        Some(n) => {
            let mut out: Vec<String> = Vec::new();
            let mut i: usize = 0;
            while i < n
                invariant
                    i <= n,
                    out@.len() == i,
                    list_len_field(doc@, "architectures"@) == Some(n),
                    forall|j: int|
                        0 <= j < i ==> list_string_field(doc@, "architectures"@, j) == Some(
                            #[trigger] out@[j]@,
                        ),
                decreases n - i,
            {
                match json_list_string_field(doc, "architectures", i) {
                    None => {
                        return Err(ConfigError::Malformed(ConfigField::Architectures));
                    },
                    Some(s) => out.push(s),
                }
                i = i + 1;
            }
            Ok(out)
        },
    }
}

/// Interpret a configuration document. On success exactly one family variant
/// is populated, with the derived accelerated-attention flag still unset; on
/// failure nothing is constructed and the error says which field failed.
pub fn parse(doc: &Vec<u8>) -> (r: Result<ArchitectureConfig, ConfigError>)
    ensures
        match r {
            Ok(c) => parse_fields_ok(doc@, c) && c.params().use_flash_attn is None,
            Err(e) => parse_err(doc@, e),
        },
{
    let family: Family = match json_string_field(doc, "model_type") {
        None => {
            return Err(ConfigError::Malformed(ConfigField::ModelType));
        },
        Some(d) => match family_from_discriminator(d.as_str()) {
            None => {
                return Err(ConfigError::UnsupportedArchitecture);
            },
            Some(f) => f,
        },
    };
    let hidden_size: u64 = match json_nat_field(doc, "hidden_size") {
        None => {
            return Err(ConfigError::Malformed(ConfigField::HiddenSize));
        },
        Some(v) => v,
    };
    let num_hidden_layers: u64 = match json_nat_field(doc, "num_hidden_layers") {
        None => {
            return Err(ConfigError::Malformed(ConfigField::NumHiddenLayers));
        },
        Some(v) => v,
    };
    let vocab_size: u64 = match json_nat_field(doc, "vocab_size") {
        None => {
            return Err(ConfigError::Malformed(ConfigField::VocabSize));
        },
        Some(v) => v,
    };
    let architectures: Vec<String> = match read_architectures(doc) {
        Err(e) => {
            return Err(e);
        },
        Ok(v) => v,
    };
    let params = FamilyParams {
        hidden_size,
        num_hidden_layers,
        vocab_size,
        architectures,
        use_flash_attn: None,
    };
    Ok(
        match family {
            Family::Bert => ArchitectureConfig::Bert(params),
            Family::Camembert => ArchitectureConfig::Camembert(params),
            Family::Roberta => ArchitectureConfig::Roberta(params),
            Family::XlmRoberta => ArchitectureConfig::XlmRoberta(params),
            Family::Distilbert => ArchitectureConfig::Distilbert(params),
            Family::Mistral => ArchitectureConfig::Mistral(params),
        },
    )
}

} // verus!
