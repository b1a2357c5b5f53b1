use neuronveil::com::Com;
use neuronveil::dense_layer::DenseLayer;
use neuronveil::layer::{Layer, LayerShare};
use neuronveil::model::{Model, ModelShare};
use neuronveil::reconstruct::{reconstruct_com_vec, reconstruct_matrix};
use neuronveil::relu::ReLULayer;
use neuronveil::rng::new_system_random;
use neuronveil::tensor::Matrix;

fn com_vec(raws: &[u16]) -> Vec<Com> {
    raws.iter().map(|r| Com { raw: *r }).collect()
}

fn raws(v: &[Com]) -> Vec<u16> {
    v.iter().map(|c| c.raw).collect()
}

#[test]
fn model_split_shares_reconstruct_to_the_model() {
    let rng = new_system_random();
    let model = Model {
        layers: vec![
            Layer::DenseLayer(DenseLayer {
                weights: Matrix { rows: vec![com_vec(&[16, 0]), com_vec(&[0, 16])] },
                biases: com_vec(&[3, 0xfffd]),
            }),
            Layer::ReLULayer(ReLULayer {}),
        ],
    };
    let (s0, s1) = model.split(&rng).unwrap();
    assert_eq!(s0.layer_shares.len(), 2);
    assert_eq!(s1.layer_shares.len(), 2);
    match (&s0.layer_shares[0], &s1.layer_shares[0]) {
        (LayerShare::DenseLayerShare(d0), LayerShare::DenseLayerShare(d1)) => {
            let w = reconstruct_matrix(&d0.weights_share, &d1.weights_share);
            assert_eq!(raws(&w.rows[0]), vec![16, 0]);
            assert_eq!(raws(&w.rows[1]), vec![0, 16]);
            let b = reconstruct_com_vec(&d0.biases_share, &d1.biases_share);
            assert_eq!(raws(&b), vec![3, 0xfffd]);
        },
        _ => panic!("the first layer share should be dense"),
    }
    assert!(matches!(&s0.layer_shares[1], LayerShare::ReLULayerShare(_)));
    assert!(matches!(&s1.layer_shares[1], LayerShare::ReLULayerShare(_)));
}

#[test]
fn model_share_extends_layer_by_layer() {
    let mut share = ModelShare::new();
    assert_eq!(share.layer_shares.len(), 0);
    share.extend(vec![
        LayerShare::ReLULayerShare(neuronveil::relu::ReLULayerShare {}),
        LayerShare::ReLULayerShare(neuronveil::relu::ReLULayerShare {}),
    ]);
    assert_eq!(share.layer_shares.len(), 2);
    share.extend(vec![LayerShare::ReLULayerShare(neuronveil::relu::ReLULayerShare {})]);
    assert_eq!(share.layer_shares.len(), 3);
}

#[test]
fn relu_layer_zeroes_exactly_the_negatives() {
    let layer = ReLULayer {};
    let out = layer.infer_locally(&com_vec(&[0, 1, 16, 0x7fff, 0x8000, 0xffff]));
    assert_eq!(raws(&out), vec![0, 1, 16, 0x7fff, 0, 0]);
}

#[test]
fn dense_layer_applies_weights_and_bias() {
    // W = [[1, 2], [0, 1]] in fixed point, b = [0.5, 0.5]:
    // [1, 1] . W + b = [1.5, 3.5].
    let layer = DenseLayer {
        weights: Matrix { rows: vec![com_vec(&[16, 32]), com_vec(&[0, 16])] },
        biases: com_vec(&[8, 8]),
    };
    let out = layer.infer_locally(&com_vec(&[16, 16]));
    assert_eq!(raws(&out), vec![24, 56]);
}

#[test]
fn rectifier_only_models_always_split() {
    // No layer holds material to sample, so splitting cannot fail.
    let rng = new_system_random();
    let layer = Layer::ReLULayer(ReLULayer {});
    assert!(layer.split(&rng).is_some());
    let model = Model {
        layers: vec![Layer::ReLULayer(ReLULayer {}), Layer::ReLULayer(ReLULayer {})],
    };
    assert!(model.split(&rng).is_some());
}

#[test]
fn validators_refuse_ragged_and_mismatched_models() {
    let ragged = Model {
        layers: vec![Layer::DenseLayer(DenseLayer {
            weights: Matrix { rows: vec![com_vec(&[16, 0]), com_vec(&[0])] },
            biases: com_vec(&[0, 0]),
        })],
    };
    assert!(!ragged.layers_well_formed());
    assert!(!ragged.accepts_input(2));

    let square = Model {
        layers: vec![Layer::DenseLayer(DenseLayer {
            weights: Matrix { rows: vec![com_vec(&[16, 0]), com_vec(&[0, 16])] },
            biases: com_vec(&[0, 0]),
        })],
    };
    assert!(square.layers_well_formed());
    assert!(square.accepts_input(2));
    assert!(!square.accepts_input(3));
}
