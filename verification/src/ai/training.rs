use crate::ai::ids::AiError;
use crate::ai::kinds::AdmissionVerdict;
use vstd::prelude::*;

verus! {

/// One bounded supervised linear-classification example.
#[derive(Clone, Debug, Eq, PartialEq)]
pub struct TrainingExample {
    /// Non-empty input text.
    pub text: String,
    /// Zero-based class index into the job's labels.
    pub label: usize,
}

/// Abstract content of a [`TrainingExample`].
pub struct ExampleModel {
    pub text: Seq<char>,
    pub label: usize,
}

impl View for TrainingExample {
    type V = ExampleModel;

    open spec fn view(&self) -> ExampleModel {
        ExampleModel { text: self.text@, label: self.label }
    }
}

impl TrainingExample {
    /// A copy with the same content.
    fn duplicate(&self) -> (r: Self)
        ensures
            r@ == self@,
    {
        TrainingExample { text: self.text.clone(), label: self.label }
    }
}

/// Bounded random-access dataset boundary; implementations must not hide downloads.
pub trait TrainingDataset {
    /// The number of available examples.
    spec fn example_count(&self) -> nat;

    /// Exact number of available examples.
    fn len(&self) -> (r: usize)
        ensures
            r == self.example_count(),
    ;

    /// Returns whether the dataset is empty.
    fn is_empty(&self) -> (r: bool)
        ensures
            r == (self.example_count() == 0),
    {
        self.len() == 0
    }

    /// Loads one bounded example.
    fn example(&self, index: usize) -> Result<TrainingExample, AiError>;
}

/// In-memory dataset useful for explicit small jobs and deterministic tests.
#[derive(Clone, Debug)]
pub struct InMemoryTrainingDataset {
    examples: Vec<TrainingExample>,
}

/// The views of a list of examples.
pub open spec fn examples_view(v: Seq<TrainingExample>) -> Seq<ExampleModel> {
    v.map_values(|e: TrainingExample| e@)
}

impl View for InMemoryTrainingDataset {
    type V = Seq<ExampleModel>;

    closed spec fn view(&self) -> Seq<ExampleModel> {
        examples_view(self.examples@)
    }
}

/// A non-empty list of at most `max_examples` examples, each with 1 to `max_text_bytes` bytes of text.
pub open spec fn dataset_ok(examples: Seq<ExampleModel>, max_examples: usize, max_text_bytes: usize) -> bool {
    &&& 1 <= examples.len() <= max_examples
    &&& forall|i: int|
        0 <= i < examples.len() ==> 1 <= #[trigger] vstd::utf8::encode_utf8(examples[i].text).len() <= max_text_bytes
}

impl InMemoryTrainingDataset {
    /// Validates example count, text size and non-empty inputs.
    pub fn new(examples: Vec<TrainingExample>, max_examples: usize, max_text_bytes: usize) -> (r: Result<Self, AiError>)
        ensures
            match r {
                Ok(d) => dataset_ok(examples_view(examples@), max_examples, max_text_bytes) && d@ == examples_view(
                    examples@,
                ),
                Err(e) => !dataset_ok(examples_view(examples@), max_examples, max_text_bytes) && e
                    == AiError::InvalidInput("training dataset"),
            },
    {
        let ghost v = examples_view(examples@);
        if examples.len() == 0 || examples.len() > max_examples {
            return Err(AiError::InvalidInput("training dataset"));
        }
        let mut i: usize = 0;
        while i < examples.len()
            invariant
                i <= examples.len(),
                v == examples_view(examples@),
                forall|k: int| 0 <= k < i ==> 1 <= #[trigger] vstd::utf8::encode_utf8(v[k].text).len() <= max_text_bytes,
            decreases examples.len() - i,
        {
            let bytes = examples[i].text.as_str().as_bytes();
            let n = bytes.len();
            assert(v[i as int] == examples@[i as int]@);
            assert(bytes@ == vstd::utf8::encode_utf8(v[i as int].text));
            if n == 0 || n > max_text_bytes {
                return Err(AiError::InvalidInput("training dataset"));
            }
            i = i + 1;
        }
        Ok(InMemoryTrainingDataset { examples })
    }
}

impl TrainingDataset for InMemoryTrainingDataset {
    open spec fn example_count(&self) -> nat {
        self@.len()
    }

    fn len(&self) -> (r: usize)
        ensures
            r == self@.len(),
    {
        self.examples.len()
    }

    fn example(&self, index: usize) -> (r: Result<TrainingExample, AiError>)
        ensures
            match r {
                Ok(e) => index < self@.len() && e@ == self@[index as int],
                Err(e) => index >= self@.len() && e == AiError::NotFound("training example"),
            },
    {
        if index < self.examples.len() {
            Ok(self.examples[index].duplicate())
        } else {
            Err(AiError::NotFound("training example"))
        }
    }
}

/// Atomic checkpoint frequency and count bounds.
#[derive(Clone, Copy, Debug, Eq, PartialEq, Structural)]
pub struct TrainingCheckpointPolicy {
    /// Epoch frequency; zero disables intermediate checkpoints.
    pub every_epochs: usize,
    /// Maximum intermediate checkpoints written by one job.
    pub max_checkpoints: usize,
}

impl Default for TrainingCheckpointPolicy {
    /// A checkpoint every epoch, at most three.
    fn default() -> (r: Self)
        ensures
            r == (TrainingCheckpointPolicy { every_epochs: 1, max_checkpoints: 3 }),
    {
        TrainingCheckpointPolicy { every_epochs: 1, max_checkpoints: 3 }
    }
}

/// The largest batch a training job may start next, given admission's current answer: under
/// host pressure half the requested batch, rounded up, otherwise the requested batch; never
/// less than one. A deferred or rejected job starts no batch.
pub open spec fn batch_allowance(verdict: AdmissionVerdict, requested: usize) -> Result<usize, AiError> {
    match verdict {
        AdmissionVerdict::Admit { pressure_limited } => {
            let n: int = if pressure_limited { (requested + 1) / 2 } else { requested as int };
            Ok(if n < 1 { 1usize } else { n as usize })
        },
        AdmissionVerdict::Defer => Err(AiError::Capacity("training resources deferred")),
        AdmissionVerdict::Reject => Err(AiError::Capacity("training resources")),
    }
}

/// Rechecks sampled pressure before a training backend starts its next batch of `requested`
/// examples.
pub fn batch_limit(verdict: AdmissionVerdict, requested: usize) -> (r: Result<usize, AiError>)
    ensures
        r == batch_allowance(verdict, requested),
{
    match verdict {
        AdmissionVerdict::Admit { pressure_limited } => {
            let n = if pressure_limited { requested / 2 + requested % 2 } else { requested };
            Ok(if n < 1 { 1 } else { n })
        },
        AdmissionVerdict::Defer => Err(AiError::Capacity("training resources deferred")),
        AdmissionVerdict::Reject => Err(AiError::Capacity("training resources")),
    }
}

/// No-op observer for jobs that do not request progress delivery.
#[derive(Clone, Copy, Debug, Default)]
pub struct IgnoreTrainingProgress;

} // verus!
