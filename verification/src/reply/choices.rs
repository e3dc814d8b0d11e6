//! The pre-written replies, and choosing between them.
//!
//! The wording brokers need is short, repetitive, and known in advance, so
//! it ships written: a handful of candidates per reply type, and the only
//! open question is which one fits. That question is put to a decision
//! model as a closed choice, so nothing the model produces can end up in
//! the email: the worst it can do is name the wrong candidate. With no model,
//! or with any failure, the first candidate for the type is taken.

use vstd::prelude::*;

use super::ReplyType;
use crate::decision::{labels_of, Answer, Choice, ChoiceOption};

verus! {

/// One pre-written reply.
#[derive(Debug, Clone, Copy, PartialEq, Eq)]
pub struct Candidate {
    /// Stable name, recorded on the draft and used as the answer label.
    pub name: &'static str,
    /// One line telling a decision model when this one is the right one.
    pub when: &'static str,
}

/// The names of the candidates for a reply type, best first.
pub open spec fn candidate_names(t: ReplyType) -> Seq<Seq<char>> {
    match t {
        ReplyType::MissingInfo => seq![
            "provide_details"@,
            "restate_request"@,
            "ask_what_is_missing"@,
        ],
        ReplyType::Confirm => seq!["confirm_stands"@, "confirm_repeat_details"@],
        ReplyType::IdVerification => seq!["ask_what_verification"@, "ask_without_documents"@],
    }
}

/// When each candidate for a reply type fits, in the same order.
pub open spec fn candidate_criteria(t: ReplyType) -> Seq<Seq<char>> {
    match t {
        ReplyType::MissingInfo => seq![
            "the broker named the fields it wants, so give them from the profile"@,
            "the broker wants details that the original request already contained"@,
            "the broker said something was missing but did not say what"@,
        ],
        ReplyType::Confirm => seq![
            "the broker only asked to be told that the request still stands"@,
            "the broker asked to confirm and to restate the identifying details"@,
        ],
        ReplyType::IdVerification => seq![
            "the broker asked for verification without saying what it involves"@,
            "the broker asked for a copy of an identity document"@,
        ],
    }
}

pub open spec fn names_of(cs: Seq<Candidate>) -> Seq<Seq<char>> {
    cs.map_values(|c: Candidate| c.name@)
}

pub open spec fn criteria_of(cs: Seq<Candidate>) -> Seq<Seq<char>> {
    cs.map_values(|c: Candidate| c.when@)
}

/// Every candidate for a reply type, best first.
///
/// The order is the fallback: with nothing choosing, the first one is used,
/// so it is the one that is safe in the most cases.
pub fn candidates(reply_type: ReplyType) -> (r: Vec<Candidate>)
    ensures
        names_of(r@) == candidate_names(reply_type),
        criteria_of(r@) == candidate_criteria(reply_type),
{
    let r = match reply_type {
        ReplyType::MissingInfo => vec![
            Candidate {
                name: "provide_details",
                when: "the broker named the fields it wants, so give them from the profile",
            },
            Candidate {
                name: "restate_request",
                when: "the broker wants details that the original request already contained",
            },
            Candidate {
                name: "ask_what_is_missing",
                when: "the broker said something was missing but did not say what",
            },
        ],
        ReplyType::Confirm => vec![
            Candidate {
                name: "confirm_stands",
                when: "the broker only asked to be told that the request still stands",
            },
            Candidate {
                name: "confirm_repeat_details",
                when: "the broker asked to confirm and to restate the identifying details",
            },
        ],
        ReplyType::IdVerification => vec![
            Candidate {
                name: "ask_what_verification",
                when: "the broker asked for verification without saying what it involves",
            },
            Candidate {
                name: "ask_without_documents",
                when: "the broker asked for a copy of an identity document",
            },
        ],
    };
    assert(names_of(r@) =~= candidate_names(reply_type));
    assert(criteria_of(r@) =~= candidate_criteria(reply_type));
    r
}

/// The line that introduces a reply type's question.
pub open spec fn description_of(t: ReplyType) -> Seq<char> {
    match t {
        ReplyType::MissingInfo => MISSING_INFO_QUESTION@,
        ReplyType::Confirm => CONFIRM_QUESTION@,
        ReplyType::IdVerification => ID_VERIFICATION_QUESTION@,
    }
}

pub const MISSING_INFO_QUESTION: &'static str = "The broker has not finished the removal and asked for something. \
             Which of these replies fits what they asked for?";

pub const CONFIRM_QUESTION: &'static str = "The broker asked for a reply by email confirming that the removal \
             request still stands. Which of these replies fits?";

pub const ID_VERIFICATION_QUESTION: &'static str = "The broker has asked for identity verification before acting on a \
             removal request. Which of these replies fits what they asked for?";

/// One line describing a reply type, for the choice's instructions.
pub fn describes(reply_type: ReplyType) -> (r: &'static str)
    ensures
        r@ == description_of(reply_type),
{
    match reply_type {
        ReplyType::MissingInfo => MISSING_INFO_QUESTION,
        ReplyType::Confirm => CONFIRM_QUESTION,
        ReplyType::IdVerification => ID_VERIFICATION_QUESTION,
    }
}

/// The question put to a decision model: one option per candidate, labelled
/// by its name, in order.
pub fn question(reply_type: ReplyType) -> (r: Choice)
    ensures
        r.instructions@ == description_of(reply_type),
        labels_of(r.options@) == candidate_names(reply_type),
        r.options@.map_values(|o: ChoiceOption| o.criterion@) == candidate_criteria(reply_type),
{
    let all = candidates(reply_type);
    let mut options: Vec<ChoiceOption> = Vec::new();
    let mut i: usize = 0;
    while i < all.len()
        invariant
            i <= all@.len(),
            labels_of(options@) == names_of(all@).take(i as int),
            options@.map_values(|o: ChoiceOption| o.criterion@) == criteria_of(all@).take(
                i as int,
            ),
        decreases all@.len() - i,
    {
        let option = Choice::option(all[i].name, all[i].when);
        let ghost before = options@;
        options.push(option);
        proof {
            assert(labels_of(options@) =~= labels_of(before).push(all@[i as int].name@));
            assert(names_of(all@).take(i + 1) =~= names_of(all@).take(i as int).push(
                all@[i as int].name@,
            ));
            assert(options@.map_values(|o: ChoiceOption| o.criterion@) =~= before.map_values(
                |o: ChoiceOption| o.criterion@,
            ).push(all@[i as int].when@));
            assert(criteria_of(all@).take(i + 1) =~= criteria_of(all@).take(i as int).push(
                all@[i as int].when@,
            ));
        }
        i = i + 1;
    }
    assert(names_of(all@).take(all@.len() as int) =~= names_of(all@));
    assert(criteria_of(all@).take(all@.len() as int) =~= criteria_of(all@));
    Choice::new(describes(reply_type), options)
}

/// How a candidate was chosen.
#[derive(Debug, Clone, PartialEq, Eq)]
pub struct Chosen {
    pub candidate: Candidate,
    /// `rules` when the first candidate was taken, otherwise the name of
    /// whatever chose.
    pub by: &'static str,
}

impl Chosen {
    /// What to record as the producer of the draft, e.g.
    /// `canned:provide_details`.
    pub fn producer(&self) -> (r: String)
        ensures
            r@ == "canned:"@ + self.candidate.name@,
    {
        crate::text::concat("canned:", self.candidate.name)
    }
}

/// Which candidate an answer picks: the one it names when the model was
/// confident and named one, and otherwise the first, taken by the rules.
pub open spec fn chosen_by(t: ReplyType, answer: Answer) -> (int, Seq<char>) {
    match answer {
        Answer::Answered { choice, confident, by } => if confident && candidate_names(t).contains(
            choice@,
        ) {
            (candidate_names(t).index_of(choice@), by@)
        } else {
            (0, "rules"@)
        },
        _ => (0, "rules"@),
    }
}

/// Pick the candidate to use, given what the decision model answered.
///
/// Every way of failing (no model, an unreachable one, an answer below the
/// confidence floor, a label that names no candidate) lands on the first
/// candidate for the type.
pub fn choose_candidate(reply_type: ReplyType, answer: &Answer) -> (r: Chosen)
    ensures
        ({
            let (k, by) = chosen_by(reply_type, *answer);
            &&& 0 <= k < candidate_names(reply_type).len()
            &&& r.candidate.name@ == candidate_names(reply_type)[k]
            &&& r.candidate.when@ == candidate_criteria(reply_type)[k]
            &&& r.by@ == by
        }),
{
    let all = candidates(reply_type);
    let fallback = Chosen { candidate: all[0], by: "rules" };
    proof {
        reveal_strlit("rules");
    }
    match answer {
        Answer::Answered { choice, confident, by } => {
            if !*confident {
                return fallback;
            }
            let mut i: usize = 0;
            while i < all.len()
                invariant
                    i <= all@.len(),
                    names_of(all@) == candidate_names(reply_type),
                    criteria_of(all@) == candidate_criteria(reply_type),
                    *answer == (Answer::Answered { choice: *choice, confident: *confident, by: *by }),
                    *confident,
                    forall|k: int| 0 <= k < i ==> names_of(all@)[k] != choice@,
                decreases all@.len() - i,
            {
                if crate::text::same_text(all[i].name, choice.as_str()) {
                    proof {
                        let names = candidate_names(reply_type);
                        assert(names[i as int] == choice@);
                        assert(names.contains(choice@));
                        law_candidate_names_are_unique(reply_type);
                        lemma_index_of_unique(names, choice@, i as int);
                    }
                    return Chosen { candidate: all[i], by: *by };
                }
                i = i + 1;
            }
            fallback
        },
        _ => fallback,
    }
}

/// In a list without repeats, the position holding a value is its
/// `index_of`.
proof fn lemma_index_of_unique(s: Seq<Seq<char>>, v: Seq<char>, i: int)
    requires
        0 <= i < s.len(),
        s[i] == v,
        forall|j: int, k: int| 0 <= j < k < s.len() ==> s[j] != s[k],
    ensures
        s.index_of(v) == i,
{
    assert(s.contains(v));
    let j = s.index_of(v);
    assert(0 <= j < s.len() && s[j] == v);
}

/// Candidate names are unique within each reply type, so an answer names
/// at most one candidate.
pub proof fn law_candidate_names_are_unique(t: ReplyType)
    ensures
        forall|j: int, k: int|
            0 <= j < k < candidate_names(t).len() ==> candidate_names(t)[j]
                != candidate_names(t)[k],
{
    reveal_strlit("provide_details");
    reveal_strlit("restate_request");
    reveal_strlit("ask_what_is_missing");
    reveal_strlit("confirm_stands");
    reveal_strlit("confirm_repeat_details");
    reveal_strlit("ask_what_verification");
    reveal_strlit("ask_without_documents");
    assert("provide_details"@[0] != "restate_request"@[0]);
    assert("provide_details"@[0] != "ask_what_is_missing"@[0]);
    assert("restate_request"@[0] != "ask_what_is_missing"@[0]);
    assert("confirm_stands"@.len() != "confirm_repeat_details"@.len());
    assert("ask_what_verification"@[5] != "ask_without_documents"@[5]);
}

/// Whatever the decision model answers, the chosen wording is one of the
/// shipped candidates, and without a confident answer naming one it is
/// the first.
pub proof fn law_choice_is_always_a_shipped_candidate(t: ReplyType, answer: Answer)
    ensures
        0 <= chosen_by(t, answer).0 < candidate_names(t).len(),
        !(answer matches Answer::Answered { confident: true, .. }) ==> chosen_by(t, answer).0
            == 0,
{
    let (k, _) = chosen_by(t, answer);
    match answer {
        Answer::Answered { choice, confident, by } => {
            if confident && candidate_names(t).contains(choice@) {
                let names = candidate_names(t);
                let j = names.index_of(choice@);
                assert(names[j] == choice@);
            }
        },
        _ => {},
    }
}

} // verus!
