//! Privacy-preserving inference of a feed-forward neural network between
//! two parties: a client holding a secret input and a server holding a
//! secret model. All plaintext values live in a 16-bit wrapping fixed-point
//! domain; tensors are additively secret-shared (bit tensors by XOR), dense
//! layers are evaluated with Beaver-triplet dot products, and rectifier
//! layers with a DReLU sign extraction followed by a BitXA
//! bit-by-arithmetic multiplication. The interactive protocol is a linear
//! script of tagged messages, embodied in a session state machine that a
//! surrounding program drives against its transport.

pub mod bit;
pub mod com;
pub mod error;
pub mod layer;
pub mod lockstep;
pub mod model;
pub mod reconstruct;
pub mod relu;
pub mod rng;
pub mod session;
pub mod bitxa;
pub mod dense_layer;
pub mod drelu;
pub mod message;
pub mod signed_comparison;
pub mod split;
pub mod tensor;
pub mod triplet;

pub use com::Com;
