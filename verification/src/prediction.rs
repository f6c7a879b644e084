//! What the model says of one sentence.

use crate::error::{ErrorKind, PipelineError};
use vstd::prelude::*;
use vstd::string::*;

verus! {

/// A category with the score the model gave it. The library carries the
/// score through and never looks into it.
#[derive(Clone, Debug, PartialEq)]
pub struct ScoredLabel<S> {
    /// The category, as it was handed to the model.
    pub text: String,
    pub score: S,
}

/// Whether `labels` answers `categories`: one label for each category, in
/// the order of the categories, under the category's own text.
pub open spec fn answers<S>(labels: Seq<ScoredLabel<S>>, categories: Seq<String>) -> bool {
    &&& labels.len() == categories.len()
    &&& forall|i: int| 0 <= i < labels.len() ==> (#[trigger] labels[i]).text@ == categories[i]@
}

/// The message of a model that returned nothing.
pub open spec fn no_output_text() -> Seq<char> {
    "The model returned no scores."@
}

/// The message of a model whose labels are not the categories.
pub open spec fn wrong_labels_text() -> Seq<char> {
    "The model's labels do not match the categories."@
}

/// Whether `labels` answers `categories`.
pub fn answers_categories<S>(labels: &Vec<ScoredLabel<S>>, categories: &Vec<String>) -> (ok: bool)
    ensures
        ok == answers(labels@, categories@),
{
    if labels.len() != categories.len() {
        return false;
    }
    let mut i: usize = 0;
    while i < labels.len()
        invariant
            i <= labels@.len(),
            labels@.len() == categories@.len(),
            forall|k: int| 0 <= k < i ==> (#[trigger] labels@[k]).text@ == categories@[k]@,
        decreases labels@.len() - i,
    {
        if labels[i].text != categories[i] {
            return false;
        }
        i += 1;
    }
    true
}

/// The scores of the first sentence of `output`, the only one of a run. The
/// model fails where it returned no sentence, or labels that do not answer
/// `categories`.
pub fn sentence_labels<'a, S>(output: &'a Vec<Vec<ScoredLabel<S>>>, categories: &Vec<String>) -> (r:
    Result<&'a Vec<ScoredLabel<S>>, PipelineError>)
    ensures
        r is Ok <==> output@.len() > 0 && answers(output@[0]@, categories@),
        r matches Ok(labels) ==> *labels == output@[0],
        r matches Err(e) ==> e@ == (
            ErrorKind::ModelInference,
            if output@.len() == 0 {
                no_output_text()
            } else {
                wrong_labels_text()
            },
        ),
{
    if output.len() == 0 {
        return Err(
            PipelineError::new(
                ErrorKind::ModelInference,
                String::from_str("The model returned no scores."),
            ),
        );
    }
    let labels = &output[0];
    if answers_categories(labels, categories) {
        Ok(labels)
    } else {
        Err(
            PipelineError::new(
                ErrorKind::ModelInference,
                String::from_str("The model's labels do not match the categories."),
            ),
        )
    }
}

} // verus!
