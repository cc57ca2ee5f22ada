use onnx_infer::error::ModelError;
use onnx_infer::model::{Feed, Model, Phase};
use onnx_infer::session::{check_feeds, has_accelerated_backend, select_provider, Provider};
use onnx_infer::shape::Dim;
use onnx_infer::tensor::{ElementType, NativeTensor, TensorDescriptor};

fn bits(values: &[f32]) -> Vec<u32> {
    values.iter().map(|v| v.to_bits()).collect()
}

fn floats(values: &[u32]) -> Vec<f32> {
    values.iter().map(|b| f32::from_bits(*b)).collect()
}

fn descriptor(name: &str, shape: Vec<Dim>) -> TensorDescriptor {
    TensorDescriptor::new(name.to_string(), shape, ElementType::Float32)
}

fn iris() -> Model {
    Model::new(
        vec![descriptor("input", vec![Dim::Fixed(1), Dim::Fixed(4)])],
        vec![descriptor("output", vec![Dim::Fixed(1), Dim::Fixed(3)])],
    )
    .unwrap()
}

fn engine_output(name: &str, values: &[f32], dims: Vec<u64>) -> Vec<Feed> {
    vec![Feed {
        name: name.to_string(),
        tensor: NativeTensor { data: bits(values), dims, element_type: ElementType::Float32 },
    }]
}

// Scores that a classifier of iris flowers gives a setosa sample.
fn setosa_scores(input: &[u32]) -> Vec<Feed> {
    let x = floats(input);
    let petal = x[2] + x[3];
    engine_output("output", &[1.0 - petal / 10.0, petal / 10.0, petal / 20.0], vec![1, 3])
}

fn argmax(v: &[f32]) -> usize {
    let mut best = 0;
    for i in 1..v.len() {
        if v[i] > v[best] {
            best = i;
        }
    }
    best
}

#[test]
fn new_rejects_invalid_descriptor_sets() {
    let out = || vec![descriptor("output", vec![Dim::Fixed(3)])];
    assert_eq!(Model::new(vec![], out()).err(), Some(ModelError::ModelParseError));
    assert_eq!(
        Model::new(vec![descriptor("", vec![Dim::Fixed(4)])], out()).err(),
        Some(ModelError::ModelParseError)
    );
    assert_eq!(
        Model::new(
            vec![descriptor("a", vec![Dim::Fixed(4)]), descriptor("a", vec![Dim::Fixed(2)])],
            out()
        )
        .err(),
        Some(ModelError::ModelParseError)
    );
    assert_eq!(
        Model::new(vec![descriptor("input", vec![Dim::Fixed(4)])], vec![]).err(),
        Some(ModelError::ModelParseError)
    );
}

#[test]
fn fresh_model_lists_stable_descriptors() {
    let model = iris();
    let first = model.list_inputs().unwrap();
    let second = model.list_inputs().unwrap();
    assert_eq!(first.len(), 1);
    assert_eq!(first[0].name, "input");
    assert_eq!(first[0].shape, vec![Dim::Fixed(1), Dim::Fixed(4)]);
    assert_eq!(second[0].name, first[0].name);
    assert_eq!(second[0].shape, first[0].shape);
    let outputs = model.list_outputs().unwrap();
    assert_eq!(outputs.len(), 1);
    assert_eq!(outputs[0].name, "output");
    assert_eq!(model.input_shape(), vec![Dim::Fixed(1), Dim::Fixed(4)]);
    assert_eq!(model.output_shape(), vec![Dim::Fixed(1), Dim::Fixed(3)]);
}

#[test]
fn valid_input_gives_output_of_declared_size() {
    let mut model = iris();
    let input = bits(&[5.1, 3.5, 1.4, 0.2]);
    let feeds = model.predict(&input).unwrap();
    assert_eq!(feeds.len(), 1);
    assert_eq!(feeds[0].name, "input");
    assert_eq!(feeds[0].tensor.dims, vec![1, 4]);
    assert_eq!(feeds[0].tensor.data, input);
    assert_eq!(model.phase(), Phase::Running);
    let out = model.finish_predict(Ok(setosa_scores(&feeds[0].tensor.data))).unwrap();
    assert_eq!(out.len(), 3);
    assert_eq!(model.phase(), Phase::Ready);
}

#[test]
fn wrong_size_is_refused_and_model_stays_usable() {
    let mut model = iris();
    let r = model.predict(&bits(&[5.1, 3.5, 1.4]));
    assert_eq!(r.err(), Some(ModelError::InputSizeMismatch { expected: vec![1, 4], actual: 3 }));
    assert_eq!(model.phase(), Phase::Ready);
    assert!(model.predict(&bits(&[5.1, 3.5, 1.4, 0.2])).is_ok());
}

#[test]
fn dispose_twice_then_predict_fails_closed() {
    let mut model = iris();
    assert!(model.dispose());
    assert!(!model.dispose());
    assert_eq!(model.phase(), Phase::Closed);
    assert_eq!(model.predict(&bits(&[5.1, 3.5, 1.4, 0.2])).err(), Some(ModelError::HandleClosed));
    assert_eq!(model.list_inputs().err(), Some(ModelError::HandleClosed));
    assert_eq!(model.list_outputs().err(), Some(ModelError::HandleClosed));
}

#[test]
fn iris_setosa_prediction_is_deterministic() {
    let mut model = iris();
    let input = bits(&[5.1, 3.5, 1.4, 0.2]);
    let mut classes = Vec::new();
    for _ in 0..3 {
        let feeds = model.predict(&input).unwrap();
        let out = model.finish_predict(Ok(setosa_scores(&feeds[0].tensor.data))).unwrap();
        assert_eq!(out.len(), 3);
        classes.push(argmax(&floats(&out)));
    }
    assert_eq!(classes, vec![0, 0, 0]);
}

#[test]
fn second_prediction_before_first_finishes_is_busy() {
    let mut model = iris();
    let first = model.predict(&bits(&[5.1, 3.5, 1.4, 0.2])).unwrap();
    assert_eq!(model.predict(&bits(&[6.7, 3.0, 5.2, 2.3])).err(), Some(ModelError::SessionBusy));
    let out = model.finish_predict(Ok(setosa_scores(&first[0].tensor.data))).unwrap();
    let expected = setosa_scores(&bits(&[5.1, 3.5, 1.4, 0.2]));
    assert_eq!(out, expected[0].tensor.data);
    assert!(model.predict(&bits(&[6.7, 3.0, 5.2, 2.3])).is_ok());
}

#[test]
fn engine_error_is_passed_on() {
    let mut model = iris();
    model.predict(&bits(&[5.1, 3.5, 1.4, 0.2])).unwrap();
    assert_eq!(model.finish_predict(Err(ModelError::IoError)), Err(ModelError::IoError));
    assert_eq!(model.phase(), Phase::Ready);
}

#[test]
fn missing_output_is_reported() {
    let mut model = iris();
    model.predict(&bits(&[5.1, 3.5, 1.4, 0.2])).unwrap();
    let r = model.finish_predict(Ok(engine_output("probabilities", &[1.0, 0.0, 0.0], vec![1, 3])));
    assert_eq!(r, Err(ModelError::OutputMissing { name: "output".to_string() }));
}

#[test]
fn output_of_wrong_shape_is_refused() {
    let mut model = iris();
    model.predict(&bits(&[5.1, 3.5, 1.4, 0.2])).unwrap();
    let r = model.finish_predict(Ok(engine_output("output", &[1.0, 0.0], vec![1, 2])));
    assert_eq!(r, Err(ModelError::ShapeMismatch { expected: vec![1, 2], actual: 2 }));
    model.predict(&bits(&[5.1, 3.5, 1.4, 0.2])).unwrap();
    let r = model.finish_predict(Ok(engine_output("output", &[1.0, 0.0], vec![1, 3])));
    assert_eq!(r, Err(ModelError::ShapeMismatch { expected: vec![1, 3], actual: 2 }));
}

#[test]
fn output_of_wrong_type_is_refused() {
    let mut model = iris();
    model.predict(&bits(&[5.1, 3.5, 1.4, 0.2])).unwrap();
    let feeds = vec![Feed {
        name: "output".to_string(),
        tensor: NativeTensor { data: vec![0, 1, 2], dims: vec![1, 3], element_type: ElementType::Int32 },
    }];
    assert_eq!(
        model.finish_predict(Ok(feeds)),
        Err(ModelError::TypeMismatch { expected: ElementType::Float32, actual: ElementType::Int32 })
    );
}

#[test]
fn finishing_after_dispose_is_closed() {
    let mut model = iris();
    model.predict(&bits(&[5.1, 3.5, 1.4, 0.2])).unwrap();
    assert!(model.dispose());
    let r = model.finish_predict(Ok(engine_output("output", &[1.0, 0.0, 0.0], vec![1, 3])));
    assert_eq!(r, Err(ModelError::HandleClosed));
}

#[test]
fn dynamic_batch_input_is_resolved_from_length() {
    let mut model = Model::new(
        vec![descriptor("x", vec![Dim::Dynamic, Dim::Fixed(2)])],
        vec![descriptor("y", vec![Dim::Dynamic])],
    )
    .unwrap();
    let feeds = model.predict(&bits(&[1.0, 2.0, 3.0, 4.0, 5.0, 6.0])).unwrap();
    assert_eq!(feeds[0].tensor.dims, vec![3, 2]);
    let out = model.finish_predict(Ok(engine_output("y", &[0.5, 0.25, 0.125], vec![3]))).unwrap();
    assert_eq!(floats(&out), vec![0.5, 0.25, 0.125]);
}

#[test]
fn run_gate_checks_feed_names() {
    let mut model = Model::new(
        vec![descriptor("a", vec![Dim::Fixed(1)]), descriptor("b", vec![Dim::Fixed(1)])],
        vec![descriptor("y", vec![Dim::Fixed(1)])],
    )
    .unwrap();
    let feed = |name: &str| Feed {
        name: name.to_string(),
        tensor: NativeTensor { data: bits(&[1.0]), dims: vec![1], element_type: ElementType::Float32 },
    };
    assert_eq!(
        model.begin_run(&vec![feed("a"), feed("c")]),
        Err(ModelError::UnknownInput { name: "c".to_string() })
    );
    assert_eq!(model.begin_run(&vec![feed("a")]), Err(ModelError::MissingInput { name: "b".to_string() }));
    assert_eq!(model.phase(), Phase::Ready);
    assert_eq!(model.begin_run(&vec![feed("b"), feed("a")]), Ok(()));
    assert_eq!(model.begin_run(&vec![feed("b"), feed("a")]), Err(ModelError::SessionBusy));
    model.end_run();
    assert_eq!(model.phase(), Phase::Ready);
    let inputs = model.list_inputs().unwrap();
    assert_eq!(check_feeds(&inputs, &vec![feed("a"), feed("b")]), Ok(()));
}

#[test]
fn provider_selection() {
    let available = vec![Provider::Wasm, Provider::WebGl];
    assert_eq!(select_provider(&vec![Provider::WebGpu, Provider::WebGl], &available, false), Ok(Provider::WebGl));
    assert_eq!(
        select_provider(&vec![Provider::WebGpu], &available, false),
        Err(ModelError::UnsupportedProvider)
    );
    assert_eq!(select_provider(&vec![Provider::WebGpu], &available, true), Ok(Provider::Wasm));
    assert_eq!(select_provider(&vec![], &vec![], true), Err(ModelError::UnsupportedProvider));
}

#[test]
fn accelerated_backend_probe() {
    assert!(has_accelerated_backend(&vec![Provider::Cpu, Provider::WebGpu]));
    assert!(!has_accelerated_backend(&vec![Provider::Cpu, Provider::Wasm]));
    assert!(!has_accelerated_backend(&vec![]));
}
