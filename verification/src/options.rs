use vstd::prelude::*;

verus! {

/// Where the credential for the model hub comes from.
#[derive(Clone, Debug, PartialEq, Eq)]
pub enum TokenSource {
    /// The token itself.
    Literal(String),
    /// The name of an environment variable that holds the token.
    EnvVar(String),
    /// The path of a file that holds the token.
    Path(String),
    /// The token in the local hub cache.
    CacheToken,
    /// No token.
    NoToken,
}

/// How in-place quantization is spread over the model.
#[derive(Clone, Copy, Debug, PartialEq, Eq, Structural)]
pub enum IsqOrganization {
    /// Every supported layer is quantized.
    Default,
    /// Only the experts of a mixture-of-experts model are quantized.
    MoeExpertsOnly,
}

/// The numeric precision a model is loaded in.
#[derive(Clone, Copy, Debug, PartialEq, Eq, Structural)]
pub enum ModelDType {
    /// The engine picks the precision for the device.
    Auto,
    BF16,
    F16,
    F32,
}

/// A `usize` that is never zero.
#[derive(Clone, Copy, Debug, PartialEq, Eq)]
pub struct PositiveUsize {
    value: usize,
}

impl PositiveUsize {
    #[verifier::type_invariant]
    spec fn is_positive(self) -> bool {
        self.value > 0
    }

    /// The value with the given number inside.
    pub closed spec fn of(n: usize) -> Self {
        PositiveUsize { value: n }
    }

    /// The number inside.
    pub closed spec fn view(&self) -> usize {
        self.value
    }

    /// `of` and `view` are inverse to each other.
    pub broadcast proof fn lemma_of_view(n: usize)
        ensures
            (#[trigger] Self::of(n))@ == n,
    {
    }

    /// `Some` for every number but zero.
    pub fn new(n: usize) -> (r: Option<Self>)
        ensures
            r == (if n > 0 {
                Some(Self::of(n))
            } else {
                None
            }),
    {
        if n > 0 {
            Some(PositiveUsize { value: n })
        } else {
            None
        }
    }

    /// The number inside, which is at least one.
    pub fn get(&self) -> (n: usize)
        ensures
            n == self@,
            n > 0,
    {
        proof {
            use_type_invariant(self);
        }
        self.value
    }
}

} // verus!
