use neuronveil::com::Com;
use neuronveil::dense_layer::DenseLayer;
use neuronveil::error::{ErrorKind, ProtocolStep};
use neuronveil::layer::Layer;
use neuronveil::message::Message;
use neuronveil::model::Model;
use neuronveil::relu::ReLULayer;
use neuronveil::rng::new_system_random;
use neuronveil::session::{client_begin, server_begin};
use neuronveil::split::split_com_vec;
use neuronveil::tensor::Matrix;

fn com_vec(raws: &[u16]) -> Vec<Com> {
    raws.iter().map(|r| Com { raw: *r }).collect()
}

fn raws(v: &[Com]) -> Vec<u16> {
    v.iter().map(|c| c.raw).collect()
}

fn identity(n: usize) -> Matrix {
    let mut rows = Vec::new();
    for i in 0..n {
        let mut row = Vec::new();
        for j in 0..n {
            row.push(Com { raw: if i == j { 16 } else { 0 } });
        }
        rows.push(row);
    }
    Matrix { rows }
}

/// Runs a full two-party session in memory, ferrying the messages between
/// the two state machines, and returns the client's reconstructed output.
fn run_two_party(model: Model, input: &[u16]) -> Vec<u16> {
    let rng = new_system_random();
    let input_com = com_vec(input);
    let model_shares = model.split(&rng).unwrap();
    let (server0, first_to_client) = server_begin(model_shares.0, model_shares.1);
    let input_shares = split_com_vec(&input_com, &rng).unwrap();
    let (client0, first_to_server) = client_begin(input_shares.0, input_shares.1);

    let mut server = Some(server0);
    let mut client = Some(client0);
    let mut to_server: Vec<Message> = vec![first_to_server];
    let mut to_client: Vec<Message> = vec![first_to_client];
    let mut output: Option<Vec<Com>> = None;
    let mut rounds = 0;
    while output.is_none() {
        rounds += 1;
        assert!(rounds < 10_000, "the session made no progress");
        if !to_server.is_empty() {
            let msg = to_server.remove(0);
            let s = server.take().unwrap();
            let (s2, outgoing, _) = s.step(msg, &rng).unwrap();
            server = Some(s2);
            for m in outgoing {
                to_client.push(m);
            }
        }
        if !to_client.is_empty() {
            let msg = to_client.remove(0);
            let c = client.take().unwrap();
            let (c2, outgoing, out) = c.step(msg, &rng).unwrap();
            client = Some(c2);
            if let Some(v) = out {
                output = Some(v);
            }
            for m in outgoing {
                to_server.push(m);
            }
        }
    }
    assert!(server.as_ref().unwrap().is_done());
    raws(&output.unwrap())
}

#[test]
fn dense_identity_layer_is_transparent() {
    // W = I4 (raw 16 on the diagonal), zero bias, input [1, 1, -1, -1]:
    // the reconstructed output is the input, exactly.
    let model = Model {
        layers: vec![Layer::DenseLayer(DenseLayer {
            weights: identity(4),
            biases: com_vec(&[0, 0, 0, 0]),
        })],
    };
    let out = run_two_party(model, &[16, 16, 0xfff0, 0xfff0]);
    assert_eq!(out, vec![16, 16, 0xfff0, 0xfff0]);
}

#[test]
fn dense_then_relu_zeroes_the_negative_half() {
    // Dense(4 -> 4, I, 0) then ReLU on [1, 1, -1, -1]: [1, 1, 0, 0].
    let model = Model {
        layers: vec![
            Layer::DenseLayer(DenseLayer { weights: identity(4), biases: com_vec(&[0, 0, 0, 0]) }),
            Layer::ReLULayer(ReLULayer {}),
        ],
    };
    let out = run_two_party(model, &[16, 16, 0xfff0, 0xfff0]);
    assert_eq!(out, vec![16, 16, 0, 0]);
}

#[test]
fn session_matches_local_inference_with_softmax_argmax() {
    // A ten-class model over an 8-by-8 grayscale input: the argmax of the
    // softmax of the reconstructed output matches the plaintext one.
    let mut rows = Vec::new();
    for i in 0..64 {
        let mut row = Vec::new();
        for j in 0..10 {
            row.push(Com { raw: (((i * 7 + j * 13) % 5) * 4) as u16 });
        }
        rows.push(row);
    }
    let weights = Matrix { rows };
    let mut biases = Vec::new();
    for j in 0..10 {
        biases.push(Com { raw: (j * 8) as u16 });
    }
    let dense = DenseLayer { weights, biases };
    let mut pixels: Vec<u16> = Vec::new();
    for i in 0..64 {
        pixels.push(((i * 3) % 16) as u16);
    }

    let local_model = Model {
        layers: vec![
            Layer::DenseLayer(DenseLayer {
                weights: Matrix {
                    rows: dense.weights.rows.iter().map(|r| r.clone()).collect(),
                },
                biases: dense.biases.clone(),
            }),
            Layer::ReLULayer(ReLULayer {}),
        ],
    };
    let model = Model {
        layers: vec![Layer::DenseLayer(dense), Layer::ReLULayer(ReLULayer {})],
    };

    let expected = local_model.infer_locally(com_vec(&pixels));
    let got = run_two_party(model, &pixels);
    assert_eq!(got, raws(&expected));

    let to_f32 = |r: &u16| -> f32 {
        let signed = *r as i16;
        signed as f32 / 16.0
    };
    let softmax = |v: &[f32]| -> Vec<f32> {
        let min = v.iter().cloned().fold(f32::INFINITY, f32::min);
        let exps: Vec<f32> = v.iter().map(|x| (x - min).exp()).collect();
        let total: f32 = exps.iter().sum();
        exps.iter().map(|e| e / total).collect()
    };
    let argmax = |v: &[f32]| -> usize {
        let mut best = 0;
        for i in 1..v.len() {
            if v[i] > v[best] {
                best = i;
            }
        }
        best
    };
    let got_f: Vec<f32> = got.iter().map(to_f32).collect();
    let exp_f: Vec<f32> = raws(&expected).iter().map(to_f32).collect();
    assert_eq!(argmax(&softmax(&got_f)), argmax(&softmax(&exp_f)));
}

#[test]
fn deep_model_with_rectangular_layers() {
    // Dense(2 -> 3), ReLU, Dense(3 -> 1) on [1.0, -1.0].
    let first = DenseLayer {
        weights: Matrix { rows: vec![com_vec(&[16, 32, 48]), com_vec(&[16, 0, 0xfff0])] },
        biases: com_vec(&[8, 0, 0xfff8]),
    };
    let last = DenseLayer {
        weights: Matrix { rows: vec![com_vec(&[16]), com_vec(&[16]), com_vec(&[16])] },
        biases: com_vec(&[0]),
    };
    let model = Model {
        layers: vec![
            Layer::DenseLayer(first),
            Layer::ReLULayer(ReLULayer {}),
            Layer::DenseLayer(last),
        ],
    };
    // First layer: [1, -1] . W + b = [0.5, 2.0, 3.5]; all pass the
    // rectifier; the last layer sums them: 6.0 (raw 96).
    let out = run_two_party(model, &[16, 0xfff0]);
    assert_eq!(out, vec![96]);
}

#[test]
fn wrong_tag_fails_with_unexpected_message() {
    let rng = new_system_random();
    let input = com_vec(&[16, 16]);
    let shares = split_com_vec(&input, &rng).unwrap();
    let (client, _) = client_begin(shares.0, shares.1);
    // The client awaits a model share; an output share must be refused,
    // and the failure names the sub-protocol it arose in.
    let err = client.step(Message::OutputShare(com_vec(&[0])), &rng).unwrap_err();
    assert_eq!(err.kind, ErrorKind::UnexpectedMessage);
    assert_eq!(err.step, ProtocolStep::ModelExchange);
    assert!(err.layer.is_none());
}

#[test]
fn mismatched_model_fails_with_dimension_mismatch() {
    let rng = new_system_random();
    // A model whose first dense layer wants three inputs, against a
    // two-element input share.
    let model = Model {
        layers: vec![Layer::DenseLayer(DenseLayer {
            weights: identity(3),
            biases: com_vec(&[0, 0, 0]),
        })],
    };
    let model_shares = model.split(&rng).unwrap();
    let input = com_vec(&[16, 16]);
    let input_shares = split_com_vec(&input, &rng).unwrap();
    let (client, _) = client_begin(input_shares.0, input_shares.1);
    let err = client.step(Message::ModelShare(model_shares.0), &rng).unwrap_err();
    assert_eq!(err.kind, ErrorKind::DimensionMismatch);
    assert_eq!(err.step, ProtocolStep::ModelExchange);
    assert!(err.layer.is_none());
}

#[test]
fn local_inference_applies_layers_in_order() {
    let model = Model {
        layers: vec![
            Layer::DenseLayer(DenseLayer { weights: identity(2), biases: com_vec(&[16, 0xfff0]) }),
            Layer::ReLULayer(ReLULayer {}),
        ],
    };
    // [1.0, 1.0] -> dense adds [1.0, -1.0] -> [2.0, 0.0] -> relu keeps it.
    let out = model.infer_locally(com_vec(&[16, 16]));
    assert_eq!(raws(&out), vec![32, 0]);
}
