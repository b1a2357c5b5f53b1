use vstd::prelude::*;

use crate::bitxa::BitXAInteraction;
use crate::com::Com;
use crate::drelu::{DReLUInteraction, DReLUKey};
use crate::error::UnexpectedMessageError;
use crate::model::ModelShare;
use crate::tensor::Matrix;

verus! {

/// The masked operand exchange of a dot-product multiplication step.
#[derive(Debug)]
pub struct DotProductInteraction {
    pub e_share: Vec<Com>,
    pub f_share: Matrix,
}

/// The masked operand exchange of a Hadamard multiplication step.
#[derive(Debug)]
pub struct HadamardProductInteraction {
    pub e_share: Vec<Com>,
    pub f_share: Vec<Com>,
}

/// Per-element key material of the dual distributed comparison function:
/// the threshold with the sign bit cleared, and whether to invert the
/// comparison.
#[derive(Debug)]
pub struct DDCFKey {
    pub alpha: Vec<Com>,
    pub invert: Vec<bool>,
}

/// One party's key for the signed-comparison gate: the (shared-in-common)
/// DDCF key and this party's XOR share of the output mask.
#[derive(Debug)]
pub struct SignedComparisonKeys {
    pub ddcf_keys: DDCFKey,
    pub r_shares: Vec<bool>,
}

/// The tagged envelope of the protocol: every message the two parties
/// exchange over the transport.
#[derive(Debug)]
pub enum Message {
    ModelShare(ModelShare),
    InputShare(Vec<Com>),
    DotProductInteraction(DotProductInteraction),
    HadamardProductInteraction(HadamardProductInteraction),
    DReLUKey(DReLUKey),
    DReLUInteraction(DReLUInteraction),
    BitXAInteraction(BitXAInteraction),
    OutputShare(Vec<Com>),
}

impl DReLUInteraction {
    /// Wraps the interaction in its envelope.
    pub fn into_message(self) -> (m: Message)
        ensures
            m == Message::DReLUInteraction(self),
    {
        Message::DReLUInteraction(self)
    }

    /// Unwraps the envelope, failing on any other tag.
    pub fn try_from(m: Message) -> (r: Result<DReLUInteraction, UnexpectedMessageError>)
        ensures
            match m {
                Message::DReLUInteraction(v) => r is Ok && r.unwrap() == v,
                _ => r is Err,
            },
    {
        if let Message::DReLUInteraction(contents) = m {
            Ok(contents)
        } else {
            Err(UnexpectedMessageError {})
        }
    }
}

impl BitXAInteraction {
    /// Wraps the interaction in its envelope.
    pub fn into_message(self) -> (m: Message)
        ensures
            m == Message::BitXAInteraction(self),
    {
        Message::BitXAInteraction(self)
    }

    /// Unwraps the envelope, failing on any other tag.
    pub fn try_from(m: Message) -> (r: Result<BitXAInteraction, UnexpectedMessageError>)
        ensures
            match m {
                Message::BitXAInteraction(v) => r is Ok && r.unwrap() == v,
                _ => r is Err,
            },
    {
        if let Message::BitXAInteraction(contents) = m {
            Ok(contents)
        } else {
            Err(UnexpectedMessageError {})
        }
    }
}

} // verus!
