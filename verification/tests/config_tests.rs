use modelcore::config::{parse, ArchitectureConfig, Family};
use modelcore::errors::{ConfigError, ConfigField, IoError};
use modelcore::loader::accelerated_attention;
use modelcore::loader::{Dtype, Features};
use modelcore::weights::{select_weight_files, WeightStore};
use modelcore::Pool;

fn minimal_doc(model_type: &str) -> Vec<u8> {
    format!(
        "{{\"model_type\":\"{}\",\"hidden_size\":128,\"num_hidden_layers\":2,\"vocab_size\":1000}}",
        model_type
    )
    .into_bytes()
}

#[test]
fn parse_recognizes_every_family() {
    let cases = vec![
        ("bert", Family::Bert),
        ("camembert", Family::Camembert),
        ("roberta", Family::Roberta),
        ("xlm-roberta", Family::XlmRoberta),
        ("distilbert", Family::Distilbert),
        ("mistral", Family::Mistral),
    ];
    for (discriminator, family) in cases {
        let config = parse(&minimal_doc(discriminator)).unwrap();
        assert_eq!(config.family_tag(), family);
        let params = config.params_ref();
        assert_eq!(params.hidden_size, 128);
        assert_eq!(params.num_hidden_layers, 2);
        assert_eq!(params.vocab_size, 1000);
        assert!(params.architectures.is_empty());
        assert_eq!(params.use_flash_attn, None);
    }
}

#[test]
fn parse_rejects_unknown_discriminator() {
    let r = parse(&minimal_doc("gpt2"));
    assert_eq!(r.err().unwrap(), ConfigError::UnsupportedArchitecture);
}

#[test]
fn parse_rejects_missing_discriminator() {
    let doc = b"{\"hidden_size\":128}".to_vec();
    assert_eq!(
        parse(&doc).err().unwrap(),
        ConfigError::Malformed(ConfigField::ModelType)
    );
}

#[test]
fn parse_rejects_unparsable_document() {
    let doc = b"this is not json".to_vec();
    assert_eq!(
        parse(&doc).err().unwrap(),
        ConfigError::Malformed(ConfigField::ModelType)
    );
}

#[test]
fn parse_reports_each_missing_field() {
    let no_hidden = b"{\"model_type\":\"bert\"}".to_vec();
    assert_eq!(
        parse(&no_hidden).err().unwrap(),
        ConfigError::Malformed(ConfigField::HiddenSize)
    );
    let no_layers = b"{\"model_type\":\"bert\",\"hidden_size\":128}".to_vec();
    assert_eq!(
        parse(&no_layers).err().unwrap(),
        ConfigError::Malformed(ConfigField::NumHiddenLayers)
    );
    let no_vocab =
        b"{\"model_type\":\"bert\",\"hidden_size\":128,\"num_hidden_layers\":2}".to_vec();
    assert_eq!(
        parse(&no_vocab).err().unwrap(),
        ConfigError::Malformed(ConfigField::VocabSize)
    );
}

#[test]
fn parse_reads_architectures_list() {
    let doc = b"{\"model_type\":\"bert\",\"hidden_size\":128,\"num_hidden_layers\":2,\
\"vocab_size\":1000,\"architectures\":[\"BertForSequenceClassification\",\"Other\"]}"
        .to_vec();
    let config = parse(&doc).unwrap();
    assert_eq!(
        config.params_ref().architectures,
        vec![
            "BertForSequenceClassification".to_string(),
            "Other".to_string()
        ]
    );
}

#[test]
fn parse_rejects_non_string_architecture_entry() {
    let doc = b"{\"model_type\":\"bert\",\"hidden_size\":128,\"num_hidden_layers\":2,\
\"vocab_size\":1000,\"architectures\":[\"A\",7]}"
        .to_vec();
    assert_eq!(
        parse(&doc).err().unwrap(),
        ConfigError::Malformed(ConfigField::Architectures)
    );
}

#[test]
fn parse_constructs_exactly_one_variant() {
    let config = parse(&minimal_doc("camembert")).unwrap();
    assert!(matches!(config, ArchitectureConfig::Camembert(_)));
}

#[test]
fn accelerated_attention_requires_all_conditions() {
    let full = Features { cuda: true, flash_attn: true };
    assert!(accelerated_attention(&full, Dtype::F16, &None));
    assert!(!accelerated_attention(&full, Dtype::F32, &None));
    assert!(!accelerated_attention(
        &Features { cuda: false, flash_attn: true },
        Dtype::F16,
        &None
    ));
    assert!(!accelerated_attention(
        &Features { cuda: true, flash_attn: false },
        Dtype::F16,
        &None
    ));
}

#[test]
fn accelerated_attention_override_only_disables_on_false() {
    let full = Features { cuda: true, flash_attn: true };
    assert!(!accelerated_attention(&full, Dtype::F16, &Some("false".to_string())));
    assert!(accelerated_attention(&full, Dtype::F16, &Some("true".to_string())));
    assert!(accelerated_attention(&full, Dtype::F16, &Some("not-a-bool".to_string())));
}

#[test]
fn weight_selection_keeps_order_and_filters() {
    let names = vec![
        "config.json".to_string(),
        "model-00001.safetensors".to_string(),
        "tokenizer.json".to_string(),
        "model-00002.safetensors".to_string(),
    ];
    let selected = select_weight_files(&names).unwrap();
    assert_eq!(
        selected,
        vec![
            "model-00001.safetensors".to_string(),
            "model-00002.safetensors".to_string()
        ]
    );
}

#[test]
fn weight_selection_fails_fast_without_containers() {
    let names = vec!["config.json".to_string(), "vocab.txt".to_string()];
    assert_eq!(select_weight_files(&names).err().unwrap(), IoError::NotFound);
}

#[test]
fn weight_selection_ignores_extension_only_name() {
    let names = vec![".safetensors".to_string()];
    assert_eq!(select_weight_files(&names).err().unwrap(), IoError::NotFound);
}

#[test]
fn weight_store_lookup_and_shadowing() {
    let mut store: WeightStore<u64> = WeightStore::new();
    assert_eq!(store.get("embeddings.weight"), None);
    store.insert("embeddings.weight".to_string(), 11);
    store.insert("encoder.weight".to_string(), 22);
    assert_eq!(store.get("embeddings.weight"), Some(&11));
    assert_eq!(store.get("encoder.weight"), Some(&22));
    assert_eq!(store.get("missing.weight"), None);
    store.insert("embeddings.weight".to_string(), 33);
    assert_eq!(store.get("embeddings.weight"), Some(&33));
    assert_eq!(store.entry_count(), 3);
}

#[test]
fn pooling_strategies_are_distinct() {
    let pools = vec![Pool::Cls, Pool::Mean, Pool::Splade, Pool::LastToken];
    for (i, a) in pools.iter().enumerate() {
        for (j, b) in pools.iter().enumerate() {
            assert_eq!(a.clone() == b.clone(), i == j);
        }
    }
}
