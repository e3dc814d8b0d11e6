//! The shipped reply wording, and choosing between it.

use eruser::decision::Answer;
use eruser::reply::choices::{candidates, choose_candidate, question, Chosen};
use eruser::reply::ReplyType;

const TYPES: [ReplyType; 3] = [
    ReplyType::MissingInfo,
    ReplyType::Confirm,
    ReplyType::IdVerification,
];

#[test]
fn every_reply_type_has_candidates_and_the_first_is_the_fallback() {
    for reply_type in TYPES {
        let all = candidates(reply_type);
        assert!(!all.is_empty(), "{reply_type:?} has no candidates");
    }
}

#[test]
fn candidate_names_are_unique_within_a_reply_type() {
    for reply_type in TYPES {
        let all = candidates(reply_type);
        let mut names: Vec<&str> = all.iter().map(|c| c.name).collect();
        names.sort_unstable();
        let count = names.len();
        names.dedup();
        assert_eq!(names.len(), count, "a duplicate name in {reply_type:?}");
    }
}

#[test]
fn every_candidate_is_described_for_the_model() {
    for reply_type in TYPES {
        for candidate in candidates(reply_type) {
            assert!(
                !candidate.when.trim().is_empty(),
                "{} has no criterion",
                candidate.name
            );
        }
    }
}

/// The question offers exactly the candidates, so an answer can only ever
/// name one of them.
#[test]
fn the_question_offers_every_candidate() {
    for reply_type in TYPES {
        let question = question(reply_type);
        for candidate in candidates(reply_type) {
            assert!(
                question.offers(candidate.name),
                "{} is missing from the {reply_type:?} question",
                candidate.name
            );
        }
        assert_eq!(question.options.len(), candidates(reply_type).len());
    }
}

#[test]
fn the_producer_names_the_candidate() {
    let chosen = Chosen {
        candidate: candidates(ReplyType::MissingInfo)[0],
        by: "rules",
    };
    assert_eq!(chosen.producer(), "canned:provide_details");
}

#[test]
fn with_no_decider_the_first_candidate_is_taken() {
    let chosen = choose_candidate(ReplyType::MissingInfo, &Answer::NotAsked);

    assert_eq!(chosen.candidate.name, "provide_details");
    assert_eq!(chosen.by, "rules");
}

/// A decider that answers with less confidence than the floor allows leaves
/// the shipped wording in place rather than picking something at random.
#[test]
fn a_low_confidence_answer_falls_back_to_the_shipped_wording() {
    let answer = Answer::Answered {
        choice: "ask_what_is_missing".to_string(),
        confident: false,
        by: "stub",
    };
    let chosen = choose_candidate(ReplyType::MissingInfo, &answer);
    assert_eq!(chosen.candidate.name, "provide_details");
    assert_eq!(chosen.by, "rules");
}

#[test]
fn a_confident_answer_picks_the_candidate_it_names() {
    let answer = Answer::Answered {
        choice: "ask_what_is_missing".to_string(),
        confident: true,
        by: "stub",
    };
    let chosen = choose_candidate(ReplyType::MissingInfo, &answer);

    assert_eq!(chosen.candidate.name, "ask_what_is_missing");
    assert_eq!(chosen.by, "stub");
}

#[test]
fn an_unreachable_decider_falls_back_to_the_shipped_wording() {
    let chosen = choose_candidate(ReplyType::Confirm, &Answer::Unreachable);
    assert_eq!(chosen.candidate.name, "confirm_stands");
    assert_eq!(chosen.by, "rules");
}

#[test]
fn an_answer_naming_no_candidate_falls_back_to_the_first() {
    let answer = Answer::Answered {
        choice: "send_a_passport".to_string(),
        confident: true,
        by: "stub",
    };
    let chosen = choose_candidate(ReplyType::IdVerification, &answer);
    assert_eq!(chosen.candidate.name, "ask_what_verification");
    assert_eq!(chosen.by, "rules");
}
