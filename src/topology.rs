use vstd::prelude::*;

verus! {

/// Why a call on the network was refused.
#[derive(Debug, Clone, Copy, PartialEq, Eq, Structural)]
pub enum NetError {
    /// An input or target vector whose length disagrees with a layer size.
    ShapeMismatch,
    /// A layer size of zero, or a learning rate that is not positive.
    InvalidConfiguration,
}

/// The layer sizes of a network, as plain numbers.
pub struct TopologyModel {
    pub input: nat,
    pub hidden: nat,
    pub output: nat,
}

impl TopologyModel {
    /// Every layer has at least one unit.
    pub open spec fn valid(self) -> bool {
        self.input > 0 && self.hidden > 0 && self.output > 0
    }
}

/// The fixed layer sizes of a network: input, hidden and output units.
///
/// Once built, the sizes never change, and each of them is positive.
pub struct Topology {
    input_size: usize,
    hidden_size: usize,
    output_size: usize,
}

impl View for Topology {
    type V = TopologyModel;

    closed spec fn view(&self) -> TopologyModel {
        TopologyModel {
            input: self.input_size as nat,
            hidden: self.hidden_size as nat,
            output: self.output_size as nat,
        }
    }
}

impl Topology {
    #[verifier::type_invariant]
    closed spec fn inv(&self) -> bool {
        self@.valid()
    }

    /// Accepts a configuration exactly when every layer size is positive and
    /// the learning rate is positive (`rate_positive` tells which); otherwise
    /// no topology is produced and the error is `InvalidConfiguration`.
    pub fn new(
        input_size: usize,
        hidden_size: usize,
        output_size: usize,
        rate_positive: bool,
    ) -> (r: Result<Topology, NetError>)
        ensures
            r is Ok <==> (input_size > 0 && hidden_size > 0 && output_size > 0 && rate_positive),
            r is Err ==> r->Err_0 == NetError::InvalidConfiguration,
            r is Ok ==> r->Ok_0@ == (TopologyModel {
                input: input_size as nat,
                hidden: hidden_size as nat,
                output: output_size as nat,
            }),
    {
        if input_size > 0 && hidden_size > 0 && output_size > 0 && rate_positive {
            Ok(Topology { input_size, hidden_size, output_size })
        } else {
            Err(NetError::InvalidConfiguration)
        }
    }

    /// The number of input units.
    pub fn input_size(&self) -> (r: usize)
        ensures
            r == self@.input,
            r > 0,
    {
        proof {
            use_type_invariant(self);
        }
        self.input_size
    }

    /// The number of hidden units.
    pub fn hidden_size(&self) -> (r: usize)
        ensures
            r == self@.hidden,
            r > 0,
    {
        proof {
            use_type_invariant(self);
        }
        self.hidden_size
    }

    /// The number of output units.
    pub fn output_size(&self) -> (r: usize)
        ensures
            r == self@.output,
            r > 0,
    {
        proof {
            use_type_invariant(self);
        }
        self.output_size
    }

    /// Decides whether an input vector of `inputs_len` entries may be fed
    /// forward: it must have exactly one entry per input unit.
    pub fn check_predict(&self, inputs_len: usize) -> (r: Result<(), NetError>)
        ensures
            r == (if inputs_len == self@.input {
                Ok::<(), NetError>(())
            } else {
                Err(NetError::ShapeMismatch)
            }),
    {
        if inputs_len == self.input_size {
            Ok(())
        } else {
            Err(NetError::ShapeMismatch)
        }
    }

    /// Decides whether a training example may be learned from: the input
    /// needs one entry per input unit and the target one per output unit.
    pub fn check_train(&self, inputs_len: usize, targets_len: usize) -> (r: Result<(), NetError>)
        ensures
            r == (if inputs_len == self@.input && targets_len == self@.output {
                Ok::<(), NetError>(())
            } else {
                Err(NetError::ShapeMismatch)
            }),
    {
        if inputs_len == self.input_size && targets_len == self.output_size {
            Ok(())
        } else {
            Err(NetError::ShapeMismatch)
        }
    }
}

} // verus!
