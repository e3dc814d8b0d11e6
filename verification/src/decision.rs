//! Questions put to a decision model: a fixed set of labelled options, so
//! that whatever comes back can only ever name one of them.

use vstd::prelude::*;

verus! {

/// One answer a model may give, and when it is the right one.
#[derive(Debug, Clone, PartialEq, Eq)]
pub struct ChoiceOption {
    pub label: String,
    pub criterion: String,
}

/// A question with a closed set of answers.
#[derive(Debug, Clone, PartialEq, Eq)]
pub struct Choice {
    /// What is being asked.
    pub instructions: String,
    pub options: Vec<ChoiceOption>,
}

/// The labels a question offers, in order.
pub open spec fn labels_of(options: Seq<ChoiceOption>) -> Seq<Seq<char>> {
    options.map_values(|o: ChoiceOption| o.label@)
}

impl Choice {
    /// A question and its options.
    pub fn new(instructions: &str, options: Vec<ChoiceOption>) -> (r: Choice)
        ensures
            r.instructions@ == instructions@,
            r.options@ == options@,
    {
        Choice { instructions: instructions.to_string(), options }
    }

    /// One option of a question.
    pub fn option(label: &str, criterion: &str) -> (r: ChoiceOption)
        ensures
            r.label@ == label@,
            r.criterion@ == criterion@,
    {
        ChoiceOption { label: label.to_string(), criterion: criterion.to_string() }
    }

    /// Whether `label` is one of the answers this question offers.
    pub fn offers(&self, label: &str) -> (r: bool)
        ensures
            r == labels_of(self.options@).contains(label@),
    {
        let ghost labels = labels_of(self.options@);
        let mut i: usize = 0;
        while i < self.options.len()
            invariant
                i <= self.options@.len(),
                labels == labels_of(self.options@),
                forall|k: int| 0 <= k < i ==> labels[k] != label@,
            decreases self.options@.len() - i,
        {
            if crate::text::same_text(self.options[i].label.as_str(), label) {
                assert(labels[i as int] == label@);
                return true;
            }
            i = i + 1;
        }
        false
    }
}

/// What became of asking a decision model, as far as the rules need it.
#[derive(Debug, Clone, PartialEq, Eq)]
pub enum Answer {
    /// No model is configured, or it may not be asked.
    NotAsked,
    /// The model could not be reached, or its answer could not be read.
    Unreachable,
    /// The model answered. `confident` says whether its confidence reached
    /// the floor; `by` is the model's short name.
    Answered { choice: String, confident: bool, by: &'static str },
}

} // verus!
