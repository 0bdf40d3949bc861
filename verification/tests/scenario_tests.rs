use modelcore::config::parse;
use modelcore::errors::{BuildError, LoadError};
use modelcore::infer::{resolve_inference, store_inference_result, ForwardOutcome};
use modelcore::loader::{
    begin_load, build, finish_load, plan_load, Construction, Device, DeviceKind, Dtype, Features,
    Model, ModelVariant,
};
use modelcore::registry::Registry;
use modelcore::weights::WeightStore;

/// A stand-in tensor: just its shape.
type Shape = Vec<u64>;

/// A stand-in for a family implementation's layer stack.
type Layers = ();

fn roberta_doc(architectures: Option<&str>) -> Vec<u8> {
    let archs = match architectures {
        Some(name) => format!(",\"architectures\":[\"{}\"]", name),
        None => String::new(),
    };
    format!(
        "{{\"model_type\":\"roberta\",\"hidden_size\":64,\"num_hidden_layers\":2,\"vocab_size\":500{}}}",
        archs
    )
    .into_bytes()
}

fn dummy_store() -> WeightStore<Shape> {
    let mut store: WeightStore<Shape> = WeightStore::new();
    store.insert("embeddings.word_embeddings.weight".to_string(), vec![500, 64]);
    store.insert("encoder.layer.0.attention.weight".to_string(), vec![64, 64]);
    store
}

/// What the external family implementation would produce: the output shape
/// of one forward pass, given the model and its primary input's shape.
fn simulated_forward(model: &Model<Shape, Layers>, input_ids: &Shape) -> ForwardOutcome<Shape> {
    let batch = input_ids[0];
    let seq = input_ids[1];
    match model.variant {
        ModelVariant::RobertaSequenceClassification
        | ModelVariant::BertSequenceClassification
        | ModelVariant::XlmRobertaSequenceClassification => {
            ForwardOutcome::Produced(vec![batch, 2])
        }
        _ => ForwardOutcome::Produced(vec![batch, seq, model.config.params_ref().hidden_size]),
    }
}

#[test]
fn every_family_builds_a_model_with_input_names() {
    let discriminators = vec![
        "bert",
        "camembert",
        "roberta",
        "xlm-roberta",
        "distilbert",
        "mistral",
    ];
    for d in discriminators {
        let doc = format!(
            "{{\"model_type\":\"{}\",\"hidden_size\":64,\"num_hidden_layers\":2,\"vocab_size\":500}}",
            d
        )
        .into_bytes();
        let config = parse(&doc).unwrap();
        let model: Model<Shape, Layers> = build(
            config,
            dummy_store(),
            Dtype::F32,
            Device { kind: DeviceKind::Cpu, ordinal: 0 },
            Features { cuda: false, flash_attn: false },
            &None,
            Construction::Ready(()),
        )
        .unwrap();
        let names = model.get_input_names();
        assert!(!names.is_empty());
        assert_eq!(names[0], "input_ids".to_string());
        assert_eq!(names[1], "attention_mask".to_string());
    }
}

#[test]
fn bert_expects_token_type_ids() {
    let doc = b"{\"model_type\":\"bert\",\"hidden_size\":64,\"num_hidden_layers\":2,\"vocab_size\":500}"
        .to_vec();
    let config = parse(&doc).unwrap();
    let model: Model<Shape, Layers> = build(
        config,
        dummy_store(),
        Dtype::F32,
        Device { kind: DeviceKind::Cpu, ordinal: 0 },
        Features { cuda: false, flash_attn: false },
        &None,
        Construction::Ready(()),
    )
    .unwrap();
    assert_eq!(
        model.get_input_names(),
        vec![
            "input_ids".to_string(),
            "attention_mask".to_string(),
            "token_type_ids".to_string()
        ]
    );
}

#[test]
fn construction_failure_propagates() {
    let config = parse(&roberta_doc(None)).unwrap();
    let r: Result<Model<Shape, Layers>, BuildError> = build(
        config,
        dummy_store(),
        Dtype::F32,
        Device { kind: DeviceKind::Cpu, ordinal: 0 },
        Features { cuda: false, flash_attn: false },
        &None,
        Construction::Failed("missing tensor encoder.layer.1".to_string()),
    );
    assert_eq!(
        r.err().unwrap(),
        BuildError::Construction("missing tensor encoder.layer.1".to_string())
    );
}

#[test]
fn base_family_end_to_end() {
    let cpu = Device { kind: DeviceKind::Cpu, ordinal: 0 };
    let features = Features { cuda: false, flash_attn: false };
    let ticket = begin_load(Dtype::F32, cpu, features).unwrap();
    let file_names = vec!["config.json".to_string(), "model.safetensors".to_string()];
    let plan = plan_load(&ticket, &roberta_doc(None), &file_names, &None).unwrap();
    assert_eq!(plan.variant, ModelVariant::RobertaBase);
    assert!(!plan.accel);
    assert_eq!(plan.weight_files, vec!["model.safetensors".to_string()]);
    assert_eq!(plan.config.params_ref().use_flash_attn, Some(false));

    let store = dummy_store();
    assert_eq!(store.entry_count(), 2);
    let model = finish_load(plan, store, Construction::Ready(())).unwrap();
    assert_eq!(
        model.get_input_names(),
        vec!["input_ids".to_string(), "attention_mask".to_string()]
    );

    let mut registry: Registry<Model<Shape, Layers>, Shape> = Registry::new();
    let model_handle = registry.create_model(model);
    let input_ids = registry.create_tensor(vec![1, 8]);
    let attention_mask = registry.create_tensor(vec![1, 8]);
    let inputs = vec![input_ids, attention_mask];

    let resolved = resolve_inference(&registry, model_handle, &inputs).unwrap();
    assert_eq!(resolved.input_ids, &vec![1, 8]);
    assert!(resolved.token_type_ids.is_none());
    let outcome = simulated_forward(resolved.model, resolved.input_ids);
    let out_handle = store_inference_result(&mut registry, outcome).unwrap();
    assert_eq!(registry.borrow_tensor(out_handle).unwrap(), &vec![1, 8, 64]);

    assert!(registry.destroy_tensor(out_handle).is_ok());
    assert!(registry.destroy_model(model_handle).is_ok());
}

#[test]
fn classification_head_end_to_end() {
    let cpu = Device { kind: DeviceKind::Cpu, ordinal: 0 };
    let features = Features { cuda: false, flash_attn: false };
    let ticket = begin_load(Dtype::F32, cpu, features).unwrap();
    let file_names = vec!["config.json".to_string(), "model.safetensors".to_string()];
    let doc = roberta_doc(Some("RobertaForSequenceClassification"));
    let plan = plan_load(&ticket, &doc, &file_names, &None).unwrap();
    assert_eq!(plan.variant, ModelVariant::RobertaSequenceClassification);

    let model = finish_load(plan, dummy_store(), Construction::Ready(())).unwrap();
    assert_eq!(
        model.get_input_names(),
        vec!["input_ids".to_string(), "attention_mask".to_string()]
    );

    let mut registry: Registry<Model<Shape, Layers>, Shape> = Registry::new();
    let model_handle = registry.create_model(model);
    let inputs = vec![
        registry.create_tensor(vec![1, 8]),
        registry.create_tensor(vec![1, 8]),
    ];
    let resolved = resolve_inference(&registry, model_handle, &inputs).unwrap();
    let outcome = simulated_forward(resolved.model, resolved.input_ids);
    let out_handle = store_inference_result(&mut registry, outcome).unwrap();
    assert_eq!(registry.borrow_tensor(out_handle).unwrap(), &vec![1, 2]);
}

#[test]
fn unrecognized_head_falls_back_to_base() {
    let doc = roberta_doc(Some("RobertaForMaskedLM"));
    let config = parse(&doc).unwrap();
    let model: Model<Shape, Layers> = build(
        config,
        dummy_store(),
        Dtype::F32,
        Device { kind: DeviceKind::Cpu, ordinal: 0 },
        Features { cuda: false, flash_attn: false },
        &None,
        Construction::Ready(()),
    )
    .unwrap();
    assert_eq!(model.variant, ModelVariant::RobertaBase);
}

#[test]
fn unsupported_device_fails_before_anything_else() {
    let cuda = Device { kind: DeviceKind::Cuda, ordinal: 0 };
    let features = Features { cuda: false, flash_attn: false };
    let r = begin_load(Dtype::F16, cuda, features);
    assert_eq!(r.err().unwrap(), BuildError::UnsupportedDevice);

    // The device check wins even when construction fails and the directory
    // does not exist: the device error is reported, not an IO one.
    let config = parse(&roberta_doc(None)).unwrap();
    let r: Result<Model<Shape, Layers>, BuildError> = build(
        config,
        WeightStore::new(),
        Dtype::F16,
        cuda,
        features,
        &None,
        Construction::Failed("never reached".to_string()),
    );
    assert_eq!(r.err().unwrap(), BuildError::UnsupportedDevice);
}

#[test]
fn cuda_device_is_accepted_when_compiled_in() {
    let cuda = Device { kind: DeviceKind::Cuda, ordinal: 0 };
    let features = Features { cuda: true, flash_attn: true };
    let ticket = begin_load(Dtype::F16, cuda, features).unwrap();
    assert_eq!(ticket.device_tag(), cuda);
    assert_eq!(ticket.dtype_tag(), Dtype::F16);
    let file_names = vec!["model.safetensors".to_string()];
    let plan = plan_load(&ticket, &roberta_doc(None), &file_names, &None).unwrap();
    assert!(plan.accel);
    assert_eq!(plan.config.params_ref().use_flash_attn, Some(true));
}

#[test]
fn missing_weight_containers_fail_the_load() {
    let cpu = Device { kind: DeviceKind::Cpu, ordinal: 0 };
    let features = Features { cuda: false, flash_attn: false };
    let ticket = begin_load(Dtype::F32, cpu, features).unwrap();
    let file_names = vec!["config.json".to_string()];
    let r = plan_load(&ticket, &roberta_doc(None), &file_names, &None);
    assert_eq!(
        r.err().unwrap(),
        LoadError::Io(modelcore::errors::IoError::NotFound)
    );
}

#[test]
fn config_error_wins_over_missing_weights() {
    let cpu = Device { kind: DeviceKind::Cpu, ordinal: 0 };
    let features = Features { cuda: false, flash_attn: false };
    let ticket = begin_load(Dtype::F32, cpu, features).unwrap();
    let file_names: Vec<String> = Vec::new();
    let doc = b"{\"model_type\":\"gpt2\"}".to_vec();
    let r = plan_load(&ticket, &doc, &file_names, &None);
    assert_eq!(
        r.err().unwrap(),
        LoadError::Config(modelcore::errors::ConfigError::UnsupportedArchitecture)
    );
}
