use marketplace::duplicate_detector::{
    word_overlap, DuplicateDetector, DuplicateInfo, FingerprintRecord, ListingCandidate, MatchType, Similarity,
    CANDIDATE_LIMIT,
};
use marketplace::error::{InvalidReason, MarketError};
use marketplace::model::ListingStatus;

fn candidate(id: u128, title: &str, seller: &str, brand: Option<&str>) -> ListingCandidate {
    ListingCandidate {
        id,
        title: title.to_string(),
        seller_id: seller.to_string(),
        category: "food".to_string(),
        brand_name: brand.map(|b| b.to_string()),
        status: ListingStatus::Active,
        seller_username: format!("name-of-{}", seller),
    }
}

#[test]
fn identical_titles_have_similarity_one() {
    let sim = DuplicateDetector::calculate_similarity("Save 20 on shoes", "Save 20 on shoes");
    assert_eq!(sim, Similarity { shared: 4, first: 4, second: 4 });
    assert!(sim.exceeds_tenths(7));
    assert!(sim.exceeds_tenths(8));
    assert!(sim.exceeds_tenths(9));
    assert!(!sim.exceeds_tenths(10));
}

#[test]
fn disjoint_words_have_similarity_zero() {
    let sim = DuplicateDetector::calculate_similarity("alpha beta", "gamma delta epsilon");
    assert_eq!(sim, Similarity { shared: 0, first: 2, second: 3 });
    assert!(!sim.exceeds_tenths(0));
    assert!(!sim.exceeds_tenths(7));
}

#[test]
fn similarity_ignores_case_and_repetition() {
    let sim = DuplicateDetector::calculate_similarity("SAVE save  Now\tnow", "now save");
    assert_eq!(sim, Similarity { shared: 2, first: 2, second: 2 });
    let sim = DuplicateDetector::calculate_similarity("a b c d", "a b c e");
    assert_eq!(sim, Similarity { shared: 3, first: 4, second: 4 });
    // 3 of 5
    assert!(!sim.exceeds_tenths(6));
    assert!(sim.exceeds_tenths(5));
}

#[test]
fn texts_without_words_have_similarity_zero() {
    let sim = DuplicateDetector::calculate_similarity("", "");
    assert_eq!(sim, Similarity { shared: 0, first: 0, second: 0 });
    assert!(!sim.exceeds_tenths(0));
    let sim = DuplicateDetector::calculate_similarity("   \n", "word");
    assert_eq!(sim, Similarity { shared: 0, first: 0, second: 1 });
    assert!(!sim.exceeds_tenths(0));
}

#[test]
fn thresholds_are_strict() {
    // 7 of 10 is not above 0.7, 8 of 10 is not above 0.8
    let seven = Similarity { shared: 7, first: 7, second: 10 };
    assert!(!seven.exceeds_tenths(7));
    let eight = Similarity { shared: 8, first: 8, second: 10 };
    assert!(eight.exceeds_tenths(7));
    assert!(!eight.exceeds_tenths(8));
    let nine = Similarity { shared: 9, first: 9, second: 10 };
    assert!(nine.exceeds_tenths(8));
    let huge = Similarity { shared: usize::MAX, first: usize::MAX, second: usize::MAX };
    assert!(huge.exceeds_tenths(9));
}

#[test]
fn fingerprint_is_the_digest_of_the_normalized_code() {
    let with_brand = DuplicateDetector::generate_fingerprint("save-20 now", "food", Some("Acme"));
    assert_eq!(with_brand, "502a80236ec0f5cf6724975f7c02d54386b6d4d0de9f87036054c6f076988c95");
    let without = DuplicateDetector::generate_fingerprint("save-20 now", "food", None);
    assert_eq!(without, "8c7bdd0b113ebfdea270d975b5602844be4e4d6c608ee3ff41827407026728ca");
    let empty = DuplicateDetector::generate_fingerprint("", "", None);
    assert_eq!(empty, "e3b0c44298fc1c149afbf4c8996fb92427ae41e4649b934ca495991b7852b855");
}

#[test]
fn fingerprint_ignores_case_spaces_and_hyphens() {
    let a = DuplicateDetector::generate_fingerprint("SAVE20NOW", "food", Some("acme"));
    let b = DuplicateDetector::generate_fingerprint(" s-a-v-e 20\tnow ", "food", Some("ACME"));
    assert_eq!(a, b);
    assert_eq!(a.len(), 64);
    let other_category = DuplicateDetector::generate_fingerprint("SAVE20NOW", "Food", Some("acme"));
    assert_ne!(a, other_category);
    let other_code = DuplicateDetector::generate_fingerprint("SAVE21NOW", "food", Some("acme"));
    assert_ne!(a, other_code);
}

#[test]
fn same_title_and_brand_is_flagged_with_85() {
    let candidates = vec![candidate(7, "Spring Sale Code", "other", Some("Acme"))];
    let found =
        DuplicateDetector::find_similar_listings(&candidates, "spring sale code", "food", Some("Acme"), "me");
    assert_eq!(
        found,
        vec![DuplicateInfo {
            listing_id: "00000000-0000-0000-0000-000000000007".to_string(),
            title: "Spring Sale Code".to_string(),
            seller_username: "name-of-other".to_string(),
            match_type: MatchType::Similar,
            confidence: 85,
        }]
    );
}

#[test]
fn same_title_without_brand_is_flagged_with_75() {
    let candidates = vec![candidate(7, "Spring Sale Code", "other", Some("Acme"))];
    let found = DuplicateDetector::find_similar_listings(&candidates, "spring sale code", "food", None, "me");
    assert_eq!(found.len(), 1);
    assert_eq!(found[0].confidence, 75);
    assert_eq!(found[0].match_type, MatchType::Similar);
}

#[test]
fn brand_lowers_the_threshold() {
    // four of five words: similarity 0.8, which is above 0.7 but not above 0.8
    let candidates = vec![candidate(1, "a b c d e", "other", Some("Acme"))];
    let with_brand = DuplicateDetector::find_similar_listings(&candidates, "a b c d", "food", Some("Acme"), "me");
    assert_eq!(with_brand.len(), 1);
    assert_eq!(with_brand[0].confidence, 85);
    let without = DuplicateDetector::find_similar_listings(&candidates, "a b c d", "food", None, "me");
    assert!(without.is_empty());
}

#[test]
fn disjoint_titles_are_not_flagged() {
    let candidates = vec![candidate(1, "winter boots", "other", Some("Acme"))];
    let found = DuplicateDetector::find_similar_listings(&candidates, "SUMMER10", "food", Some("Acme"), "me");
    assert!(found.is_empty());
    let detector = DuplicateDetector::new();
    assert_eq!(detector.check_duplicate(&candidates, "SUMMER10", "food", Some("Acme"), "me"), None);
}

#[test]
fn own_listings_and_other_brands_are_passed_over() {
    let candidates = vec![
        candidate(1, "spring sale", "me", Some("Acme")),
        candidate(2, "spring sale", "other", Some("Zenith")),
        candidate(3, "spring sale", "other", None),
        candidate(4, "spring sale", "third", Some("Acme")),
    ];
    let found = DuplicateDetector::find_similar_listings(&candidates, "spring sale", "food", Some("Acme"), "me");
    assert_eq!(found.len(), 1);
    assert_eq!(found[0].listing_id, "00000000-0000-0000-0000-000000000004");
    let found = DuplicateDetector::find_similar_listings(&candidates, "spring sale", "food", None, "me");
    assert_eq!(found.len(), 3);
    assert_eq!(found[0].listing_id, "00000000-0000-0000-0000-000000000002");
    assert_eq!(found[2].confidence, 75);
}

#[test]
fn other_categories_and_sold_listings_are_passed_over() {
    let mut elsewhere = candidate(1, "spring sale", "other", None);
    elsewhere.category = "travel".to_string();
    let mut sold = candidate(2, "spring sale", "other", None);
    sold.status = ListingStatus::Sold;
    let mut expired = candidate(3, "spring sale", "other", None);
    expired.status = ListingStatus::Expired;
    let here = candidate(4, "spring sale", "other", None);
    let candidates = vec![elsewhere, sold, expired, here];
    let found = DuplicateDetector::find_similar_listings(&candidates, "spring sale", "food", None, "me");
    assert_eq!(found.len(), 1);
    assert_eq!(found[0].listing_id, "00000000-0000-0000-0000-000000000004");
    let found = DuplicateDetector::find_similar_listings(&candidates, "spring sale", "travel", None, "me");
    assert_eq!(found.len(), 1);
    assert_eq!(found[0].listing_id, "00000000-0000-0000-0000-000000000001");
}

#[test]
fn the_first_match_is_the_warning() {
    let detector = DuplicateDetector::new();
    let candidates = vec![
        candidate(10, "nothing alike", "a", None),
        candidate(11, "Free Shipping", "b", None),
        candidate(12, "free shipping", "c", None),
    ];
    let warning = detector.check_duplicate(&candidates, "free shipping", "food", None, "me").unwrap();
    assert_eq!(warning.listing_id, "00000000-0000-0000-0000-00000000000b");
    assert_eq!(warning.title, "Free Shipping");
    assert_eq!(warning.seller_username, "name-of-b");
    assert_eq!(warning.confidence, 75);
}

#[test]
fn only_the_first_hundred_candidates_are_considered() {
    let mut candidates = Vec::new();
    for i in 0..CANDIDATE_LIMIT {
        candidates.push(candidate(i as u128, "nothing alike", "other", None));
    }
    candidates.push(candidate(500, "free shipping", "other", None));
    let found = DuplicateDetector::find_similar_listings(&candidates, "free shipping", "food", None, "me");
    assert!(found.is_empty());
    candidates.remove(0);
    let found = DuplicateDetector::find_similar_listings(&candidates, "free shipping", "food", None, "me");
    assert_eq!(found.len(), 1);
    assert_eq!(CANDIDATE_LIMIT, 100);
    // candidates that are passed over do not count towards the hundred
    candidates.insert(0, candidate(600, "nothing alike", "me", None));
    candidates.insert(0, candidate(601, "nothing alike", "me", None));
    let found = DuplicateDetector::find_similar_listings(&candidates, "free shipping", "food", None, "me");
    assert_eq!(found.len(), 1);
}

#[test]
fn fingerprint_is_stored_under_a_parsed_identifier() {
    let detector = DuplicateDetector::new();
    let record = detector
        .store_fingerprint("a1a2a3a4-b1b2-c1c2-d1d2-d3d4d5d6d7d8", "save-20 now", "food", Some("Acme"))
        .unwrap();
    assert_eq!(
        record,
        FingerprintRecord {
            listing_id: 0xa1a2a3a4b1b2c1c2d1d2d3d4d5d6d7d8,
            fingerprint: "502a80236ec0f5cf6724975f7c02d54386b6d4d0de9f87036054c6f076988c95"
                .to_string(),
        }
    );
}

#[test]
fn malformed_listing_id_is_rejected() {
    let detector = DuplicateDetector::new();
    assert_eq!(
        detector.store_fingerprint("not-a-uuid", "code", "food", None),
        Err(MarketError::InvalidOperation(InvalidReason::MalformedListingId))
    );
    assert_eq!(
        detector.store_fingerprint("", "code", "food", None),
        Err(MarketError::InvalidOperation(InvalidReason::MalformedListingId))
    );
}

fn list(words: &[&str]) -> Vec<String> {
    words.iter().map(|w| w.to_string()).collect()
}

#[test]
fn overlap_of_word_lists() {
    assert_eq!(
        word_overlap(list(&["save", "20", "now"]), list(&["save", "20", "now"])),
        Similarity { shared: 3, first: 3, second: 3 }
    );
    assert_eq!(
        word_overlap(list(&["a", "b", "a", "a"]), list(&["b", "c", "b"])),
        Similarity { shared: 1, first: 2, second: 2 }
    );
    assert_eq!(
        word_overlap(list(&["a", "b"]), list(&["c"])),
        Similarity { shared: 0, first: 2, second: 1 }
    );
    assert_eq!(word_overlap(list(&[]), list(&["c"])), Similarity { shared: 0, first: 0, second: 1 });
    assert_eq!(word_overlap(list(&[]), list(&[])), Similarity { shared: 0, first: 0, second: 0 });
    // words are compared as they are: case counts here
    assert_eq!(
        word_overlap(list(&["Save"]), list(&["save"])),
        Similarity { shared: 0, first: 1, second: 1 }
    );
}
