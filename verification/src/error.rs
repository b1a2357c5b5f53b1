use vstd::prelude::*;

verus! {

/// Failure of a message-typed reconstruction point: the received envelope
/// carried a different tag than the one awaited.
#[derive(Clone, Copy, PartialEq, Eq, Structural, Debug)]
pub struct UnexpectedMessageError {}

/// What went wrong.
#[derive(Clone, Copy, PartialEq, Eq, Structural, Debug)]
pub enum ErrorKind {
    /// The peer disconnected, or the channel was dropped.
    ChannelClosed,
    /// A message of the wrong tag arrived at a reconstruction point.
    UnexpectedMessage,
    /// A local shape check before a protocol step failed.
    DimensionMismatch,
    /// A model file or a network frame could not be decoded.
    Deserialize,
    /// Transport-level input/output failed (this includes a failing CSPRNG).
    Transport,
}

/// The sub-protocol in which a session failed.
#[derive(Clone, Copy, PartialEq, Eq, Structural, Debug)]
pub enum ProtocolStep {
    ModelExchange,
    InputExchange,
    Sampling,
    DotProduct,
    DReLUKeyExchange,
    DReLUMaskExchange,
    BitXAHadamard,
    BitXAMaskExchange,
    OutputExchange,
}

/// A session failure: the kind of error, the layer being evaluated when it
/// arose (if any), and the sub-protocol it arose in. Together these give the
/// causal chain a caller reports.
#[derive(Clone, Copy, Debug)]
pub struct SessionError {
    pub kind: ErrorKind,
    pub layer: Option<usize>,
    pub step: ProtocolStep,
}

impl SessionError {
    pub fn new(kind: ErrorKind, layer: Option<usize>, step: ProtocolStep) -> (r: SessionError)
        ensures
            r.kind == kind,
            r.layer == layer,
            r.step == step,
    {
        SessionError { kind, layer, step }
    }
}

} // verus!
