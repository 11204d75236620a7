//! The duplicate detector: a fingerprint of a listing's secret for exact
//! lookups, and a similarity of words that flags a listing which looks like
//! one that another seller already offers.

use vstd::prelude::*;
use vstd::seq_lib::seq_to_set_is_finite;
use vstd::set_lib::lemma_set_intersect_union_lens;
use crate::error::{InvalidReason, MarketError};
use crate::ids::{hyphenated, parse_uuid, uuid_parsed, uuid_to_string};
use crate::model::ListingStatus;
use crate::text::{
    char_is_whitespace, hex_lower, is_whitespace, lowercase, opt_str, opt_text, same_text, texts,
    to_hex_lower, to_lowercase, to_uppercase, uppercase, words, split_words,
};

verus! {

/// How a listing matches an earlier one.
#[derive(Clone, Copy, Debug, PartialEq, Eq, Structural)]
pub enum MatchType {
    Exact,
    Similar,
}

/// An earlier listing that a new one looks like.
#[derive(Clone, Debug, PartialEq, Eq)]
pub struct DuplicateInfo {
    pub listing_id: String,
    pub title: String,
    pub seller_username: String,
    pub match_type: MatchType,
    /// From 0 to 100.
    pub confidence: u8,
}

/// What a `DuplicateInfo` holds.
pub struct DuplicateView {
    pub listing_id: Seq<char>,
    pub title: Seq<char>,
    pub seller_username: Seq<char>,
    pub match_type: MatchType,
    pub confidence: u8,
}

impl View for DuplicateInfo {
    type V = DuplicateView;

    open spec fn view(&self) -> DuplicateView {
        DuplicateView {
            listing_id: self.listing_id@,
            title: self.title@,
            seller_username: self.seller_username@,
            match_type: self.match_type,
            confidence: self.confidence,
        }
    }
}

/// An earlier listing as the store hands it to the detector.
#[derive(Clone, Debug, PartialEq, Eq)]
pub struct ListingCandidate {
    pub id: u128,
    pub title: String,
    pub seller_id: String,
    pub category: String,
    pub brand_name: Option<String>,
    pub status: ListingStatus,
    pub seller_username: String,
}

/// What a `ListingCandidate` holds.
pub struct CandidateView {
    pub id: u128,
    pub title: Seq<char>,
    pub seller_id: Seq<char>,
    pub category: Seq<char>,
    pub brand_name: Option<Seq<char>>,
    pub status: ListingStatus,
    pub seller_username: Seq<char>,
}

impl View for ListingCandidate {
    type V = CandidateView;

    open spec fn view(&self) -> CandidateView {
        CandidateView {
            id: self.id,
            title: self.title@,
            seller_id: self.seller_id@,
            category: self.category@,
            brand_name: opt_text(self.brand_name),
            status: self.status,
            seller_username: self.seller_username@,
        }
    }
}

/// The views of a list of candidates.
pub open spec fn candidate_views(v: Seq<ListingCandidate>) -> Seq<CandidateView> {
    Seq::new(v.len(), |i: int| v[i]@)
}

/// The views of a list of matches.
pub open spec fn duplicate_views(v: Seq<DuplicateInfo>) -> Seq<DuplicateView> {
    Seq::new(v.len(), |i: int| v[i]@)
}

/// The overlap of two sets of words: how many words each of them has, and
/// how many they share. The similarity is the number of shared words divided
/// by the number of words in both sets together, and zero where there are no
/// words at all.
#[derive(Clone, Copy, Debug, PartialEq, Eq, Structural)]
pub struct Similarity {
    pub shared: usize,
    pub first: usize,
    pub second: usize,
}

impl Similarity {
    /// The number of words in both sets together.
    pub open spec fn total(self) -> int {
        self.first + self.second - self.shared
    }

    /// The similarity is greater than `numerator / denominator`.
    pub open spec fn exceeds(self, numerator: int, denominator: int) -> bool {
        self.total() > 0 && self.shared * denominator > numerator * self.total()
    }

    /// The similarity is one: there are words, and all of them are shared.
    pub open spec fn is_one(self) -> bool {
        self.total() > 0 && self.shared == self.total()
    }

    /// The similarity is zero.
    pub open spec fn is_zero(self) -> bool {
        self.shared == 0
    }

    /// Whether the similarity is greater than `tenths / 10`.
    pub fn exceeds_tenths(&self, tenths: u8) -> (b: bool)
        ensures
            b == self.exceeds(tenths as int, 10),
    {
        let total: i128 = self.first as i128 + self.second as i128 - self.shared as i128;
        let scaled: i128 = tenths as i128;
        assert(-0x1_0000_0000_0000_0000 < total < 0x2_0000_0000_0000_0000);
        assert(-0x100_0000_0000_0000_0000 < scaled * total < 0x200_0000_0000_0000_0000)
            by (nonlinear_arith)
            requires
                0 <= scaled < 256,
                -0x1_0000_0000_0000_0000 < total < 0x2_0000_0000_0000_0000,
        ;
        total > 0 && (self.shared as i128) * 10 > scaled * total
    }
}

/// The set of words of a text, without regard to case.
pub open spec fn word_set(s: Seq<char>) -> Set<Seq<char>> {
    words(lowercase(s)).to_set()
}

/// Whether a list of strings holds a text.
fn holds(list: &Vec<String>, text: &str) -> (found: bool)
    ensures
        found == texts(list@).contains(text@),
{
    let mut i: usize = 0;
    while i < list.len()
        invariant
            i <= list.len(),
            forall|j: int| 0 <= j < i ==> texts(list@)[j] != text@,
        decreases list.len() - i,
    {
        if same_text(list[i].as_str(), text) {
            assert(texts(list@)[i as int] == text@);
            return true;
        }
        i += 1;
    }
    false
}

/// The strings of a list, each of them once, in the order in which they
/// first come.
fn distinct(list: Vec<String>) -> (out: Vec<String>)
    ensures
        texts(out@).no_duplicates(),
        texts(out@).to_set() == texts(list@).to_set(),
{
    let ghost all = texts(list@);
    let mut out: Vec<String> = Vec::new();
    let mut i: usize = 0;
    let mut list = list;
    let n = list.len();
    assert(texts(out@).to_set() =~= all.subrange(0, 0).to_set());
    while i < list.len()
        invariant
            i <= list.len(),
            texts(list@) == all,
            texts(out@).no_duplicates(),
            texts(out@).to_set() == all.subrange(0, i as int).to_set(),
        decreases list.len() - i,
    {
        let ghost before = texts(out@);
        let ghost prefix = all.subrange(0, i as int);
        let ghost item = all[i as int];
        assert(texts(list@)[i as int] == list@[i as int]@);
        proof {
            assert(all.subrange(0, i + 1) =~= prefix.push(item));
            prefix.lemma_push_to_set_commute(item);
        }
        if !holds(&out, list[i].as_str()) {
            let word = list[i].clone();
            out.push(word);
            proof {
                assert(texts(out@) =~= before.push(item));
                before.lemma_push_to_set_commute(item);
            }
        } else {
            proof {
                assert(before.to_set().contains(item));
                assert(before.to_set().insert(item) =~= before.to_set());
            }
        }
        i += 1;
    }
    assert(all.subrange(0, list.len() as int) =~= all);
    out
}

/// How many strings of `a`, which holds each of them once, are also in `b`.
fn count_shared(a: &Vec<String>, b: &Vec<String>) -> (n: usize)
    requires
        texts(a@).no_duplicates(),
    ensures
        n == texts(a@).to_set().intersect(texts(b@).to_set()).len(),
        n <= a.len(),
{
    let ghost all = texts(a@);
    let ghost other = texts(b@).to_set();
    let ghost mut picked: Seq<Seq<char>> = Seq::empty();
    let mut n: usize = 0;
    let mut i: usize = 0;
    assert(picked.to_set() =~= all.subrange(0, 0).to_set().intersect(other));
    while i < a.len()
        invariant
            i <= a.len(),
            n <= i,
            all == texts(a@),
            other == texts(b@).to_set(),
            all.no_duplicates(),
            picked.no_duplicates(),
            picked.len() == n,
            picked.to_set() == all.subrange(0, i as int).to_set().intersect(other),
        decreases a.len() - i,
    {
        let ghost prefix = all.subrange(0, i as int);
        let ghost item = all[i as int];
        assert(texts(a@)[i as int] == a@[i as int]@);
        proof {
            assert(all.subrange(0, i + 1) =~= prefix.push(item));
            prefix.lemma_push_to_set_commute(item);
            assert(!prefix.contains(item)) by {
                if prefix.contains(item) {
                    let j = choose|j: int| 0 <= j < prefix.len() && prefix[j] == item;
                    assert(all[j] == all[i as int]);
                }
            }
        }
        if holds(b, a[i].as_str()) {
            proof {
                assert(!picked.contains(item)) by {
                    if picked.contains(item) {
                        assert(picked.to_set().contains(item));
                        assert(prefix.to_set().contains(item));
                    }
                }
                let grown = picked.push(item);
                picked.lemma_push_to_set_commute(item);
                assert(grown.no_duplicates());
                assert(grown.to_set() =~= prefix.push(item).to_set().intersect(other));
                picked = grown;
            }
            n += 1;
        } else {
            proof {
                assert(picked.to_set() =~= prefix.push(item).to_set().intersect(other));
            }
        }
        i += 1;
    }
    proof {
        assert(all.subrange(0, a.len() as int) =~= all);
        picked.unique_seq_to_set();
    }
    n
}

/// The SHA-256 digest of a message.
pub uninterp spec fn sha256(message: Seq<u8>) -> Seq<u8>;

/// `Sha256::digest` of the crate `sha2`: the SHA-256 digest of the message,
/// thirty-two bytes that depend on the message alone.
#[verifier::external_body]
fn sha256_digest(message: &Vec<u8>) -> (digest: Vec<u8>)
    ensures
        digest@ == sha256(message@),
        digest@.len() == 32,
{
    <sha2::Sha256 as sha2::Digest>::digest(message).to_vec()
}

/// Whether the fingerprint keeps a character of the code: white space and
/// hyphens are dropped.
pub open spec fn kept_in_code(c: char) -> bool {
    !is_whitespace(c) && c != '-'
}

/// A text without its white space and its hyphens.
pub open spec fn stripped(s: Seq<char>) -> Seq<char>
    decreases s.len(),
{
    if s.len() == 0 {
        Seq::empty()
    } else if kept_in_code(s.last()) {
        stripped(s.drop_last()).push(s.last())
    } else {
        stripped(s.drop_last())
    }
}

/// The bytes that the fingerprint digests: the code in upper case without
/// white space and hyphens, then the category, then the brand in lower case
/// if there is one, each in UTF-8.
pub open spec fn fingerprint_message(
    code: Seq<char>,
    category: Seq<char>,
    brand: Option<Seq<char>>,
) -> Seq<u8> {
    vstd::utf8::encode_utf8(stripped(uppercase(code))) + vstd::utf8::encode_utf8(category) + (
    match brand {
        Some(b) => vstd::utf8::encode_utf8(lowercase(b)),
        None => Seq::empty(),
    })
}

/// The fingerprint of a secret in a category, under a brand if it has one:
/// the SHA-256 digest of `fingerprint_message`, in hexadecimal.
pub open spec fn fingerprint(code: Seq<char>, category: Seq<char>, brand: Option<Seq<char>>) -> Seq<
    char,
> {
    hex_lower(sha256(fingerprint_message(code, category, brand)))
}

/// How many words two texts share.
pub open spec fn shared_words(a: Seq<char>, b: Seq<char>) -> nat {
    word_set(a).intersect(word_set(b)).len()
}

/// How many words two texts have together.
pub open spec fn all_words(a: Seq<char>, b: Seq<char>) -> nat {
    word_set(a).union(word_set(b)).len()
}

/// The similarity of two texts is greater than `numerator / denominator`.
/// The similarity is the number of shared words divided by the number of
/// all words, and zero where there are none.
pub open spec fn similarity_exceeds(a: Seq<char>, b: Seq<char>, numerator: int, denominator: int) -> bool {
    all_words(a, b) > 0 && shared_words(a, b) * denominator > numerator * all_words(a, b)
}

/// The brand of the new listing is given and is the brand of the candidate.
pub open spec fn brand_matches(candidate: Option<Seq<char>>, brand: Option<Seq<char>>) -> bool {
    brand is Some && candidate == brand
}

/// The confidence with which a title is flagged against a code: 85 for a
/// similarity above 0.7 under the same brand, 75 for a similarity above 0.8,
/// and none otherwise.
pub open spec fn match_confidence(title: Seq<char>, code: Seq<char>, brand_match: bool) -> Option<u8> {
    if brand_match && similarity_exceeds(title, code, 7, 10) {
        Some(85u8)
    } else if similarity_exceeds(title, code, 8, 10) {
        Some(75u8)
    } else {
        None
    }
}

/// What the detector asks about a new listing.
pub struct Inquiry {
    /// The code of the new listing.
    pub code: Seq<char>,
    pub category: Seq<char>,
    pub brand: Option<Seq<char>>,
    /// The seller of the new listing.
    pub seller: Seq<char>,
}

/// Whether the detector looks at a candidate at all: it is an active
/// listing of the same category and of another seller and, where the new
/// listing names a brand, of that brand.
pub open spec fn is_eligible(candidate: CandidateView, inquiry: Inquiry) -> bool {
    &&& candidate.status == ListingStatus::Active
    &&& candidate.category == inquiry.category
    &&& candidate.seller_id != inquiry.seller
    &&& (inquiry.brand is None || candidate.brand_name == inquiry.brand)
}

/// The candidates of a list that the detector may look at, in their order.
pub open spec fn eligible(candidates: Seq<CandidateView>, inquiry: Inquiry) -> Seq<CandidateView>
    decreases candidates.len(),
{
    if candidates.len() == 0 {
        Seq::empty()
    } else if is_eligible(candidates.last(), inquiry) {
        eligible(candidates.drop_last(), inquiry).push(candidates.last())
    } else {
        eligible(candidates.drop_last(), inquiry)
    }
}

/// The detector looks at no more than this many candidates.
pub const CANDIDATE_LIMIT: usize = 100;

/// The candidates that the detector looks at: the first `CANDIDATE_LIMIT`
/// of those that it may look at.
pub open spec fn considered(candidates: Seq<CandidateView>, inquiry: Inquiry) -> Seq<CandidateView> {
    let all = eligible(candidates, inquiry);
    if all.len() <= CANDIDATE_LIMIT {
        all
    } else {
        all.subrange(0, CANDIDATE_LIMIT as int)
    }
}

/// What the detector says of one candidate that it looks at.
pub open spec fn assessed(candidate: CandidateView, inquiry: Inquiry) -> Option<DuplicateView> {
    let confidence = match_confidence(
        candidate.title,
        inquiry.code,
        brand_matches(candidate.brand_name, inquiry.brand),
    );
    match confidence {
        Some(c) => Some(
            DuplicateView {
                listing_id: hyphenated(candidate.id),
                title: candidate.title,
                seller_username: candidate.seller_username,
                match_type: MatchType::Similar,
                confidence: c,
            },
        ),
        None => None,
    }
}

/// The candidates of a list that are flagged, in their order.
pub open spec fn flagged(candidates: Seq<CandidateView>, inquiry: Inquiry) -> Seq<DuplicateView>
    decreases candidates.len(),
{
    if candidates.len() == 0 {
        Seq::empty()
    } else {
        let earlier = flagged(candidates.drop_last(), inquiry);
        match assessed(candidates.last(), inquiry) {
            Some(found) => earlier.push(found),
            None => earlier,
        }
    }
}

/// The earlier listings that a new one looks like: those that are flagged
/// among the candidates that the detector looks at.
pub open spec fn similar_listings(candidates: Seq<CandidateView>, inquiry: Inquiry) -> Seq<
    DuplicateView,
> {
    flagged(considered(candidates, inquiry), inquiry)
}

/// The fingerprint of a listing, to be stored under the listing.
#[derive(Clone, Debug, PartialEq, Eq)]
pub struct FingerprintRecord {
    pub listing_id: u128,
    pub fingerprint: String,
}

/// Whether two optional texts are the same.
fn same_opt_text(a: &Option<String>, b: Option<&str>) -> (same: bool)
    ensures
        same == (opt_text(*a) == opt_str(b)),
{
    match (a, b) {
        (Some(x), Some(y)) => same_text(x.as_str(), y),
        (None, None) => true,
        _ => false,
    }
}

/// The overlap of two lists of words, as sets: how many different words
/// each list has, and how many of them are in both. A word that a list
/// holds more than once counts once.
pub fn word_overlap(first: Vec<String>, second: Vec<String>) -> (sim: Similarity)
    ensures
        sim.first == texts(first@).to_set().len(),
        sim.second == texts(second@).to_set().len(),
        sim.shared == texts(first@).to_set().intersect(texts(second@).to_set()).len(),
        sim.total() == texts(first@).to_set().union(texts(second@).to_set()).len(),
        sim.shared <= sim.first,
        sim.shared <= sim.second,
{
    let ghost a = texts(first@).to_set();
    let ghost b = texts(second@).to_set();
    let words1 = distinct(first);
    let words2 = distinct(second);
    let shared = count_shared(&words1, &words2);
    proof {
        assert(a == texts(words1@).to_set());
        assert(b == texts(words2@).to_set());
        seq_to_set_is_finite(texts(words1@));
        seq_to_set_is_finite(texts(words2@));
        texts(words1@).unique_seq_to_set();
        texts(words2@).unique_seq_to_set();
        lemma_set_intersect_union_lens(a, b);
        vstd::set_lib::lemma_len_intersect(a, b);
        vstd::set_lib::lemma_len_intersect(b, a);
        assert(a.intersect(b) =~= b.intersect(a));
    }
    Similarity { shared, first: words1.len(), second: words2.len() }
}

/// The detector. It holds nothing: the listings that it compares with are
/// handed to it by the caller.
#[derive(Clone, Copy, Debug, PartialEq, Eq)]
pub struct DuplicateDetector {}

impl DuplicateDetector {
    pub fn new() -> DuplicateDetector {
        DuplicateDetector {  }
    }

    /// The overlap of the words of two texts, without regard to case: the
    /// texts are brought to lower case and split at white space.
    pub fn calculate_similarity(s1: &str, s2: &str) -> (sim: Similarity)
        ensures
            sim.first == word_set(s1@).len(),
            sim.second == word_set(s2@).len(),
            sim.shared == word_set(s1@).intersect(word_set(s2@)).len(),
            sim.total() == word_set(s1@).union(word_set(s2@)).len(),
            sim.shared <= sim.first,
            sim.shared <= sim.second,
    {
        let lower1 = to_lowercase(s1);
        let lower2 = to_lowercase(s2);
        word_overlap(split_words(lower1.as_str()), split_words(lower2.as_str()))
    }

    /// The fingerprint of a secret: a fixed-length identity of the code in
    /// its category, under its brand, that does not change with the case of
    /// the code or with white space and hyphens in it.
    pub fn generate_fingerprint(code: &str, category: &str, brand: Option<&str>) -> (print: String)
        ensures
            print@ == fingerprint(code@, category@, opt_str(brand)),
            print@.len() == 64,
    {
        let upper = to_uppercase(code);
        let mut normalized = String::new();
        for c in it: upper.as_str().chars()
            invariant
                it.seq() == upper@,
                normalized@ == stripped(upper@.subrange(0, it.index() as int)),
        {
            proof {
                let next = upper@.subrange(0, it.index() + 1);
                assert(next.drop_last() =~= upper@.subrange(0, it.index() as int));
                assert(next.last() == c);
            }
            if !char_is_whitespace(c) && c != '-' {
                normalized.push(c);
            }
        }
        assert(upper@.subrange(0, upper@.len() as int) =~= upper@);
        let mut message: Vec<u8> = Vec::new();
        message.extend_from_slice(normalized.as_str().as_bytes());
        message.extend_from_slice(category.as_bytes());
        match brand {
            Some(b) => {
                let lower = to_lowercase(b);
                message.extend_from_slice(lower.as_str().as_bytes());
            },
            None => {
                assert(message@ + Seq::<u8>::empty() =~= message@);
            },
        }
        assert(message@ =~= fingerprint_message(code@, category@, opt_str(brand)));
        let digest = sha256_digest(&message);
        to_hex_lower(&digest)
    }

    /// The earlier listings that the new one looks like.
    ///
    /// `candidates` are listings of the store, the most recent first. The
    /// detector looks at the active listings of the category that other
    /// sellers offer, under the brand of the new listing where it names
    /// one, and at no more than the first `CANDIDATE_LIMIT` of these. It
    /// compares the words of each title with the words of the code.
    pub fn find_similar_listings(
        candidates: &Vec<ListingCandidate>,
        coupon_code: &str,
        category: &str,
        brand: Option<&str>,
        seller_id: &str,
    ) -> (found: Vec<DuplicateInfo>)
        ensures
            duplicate_views(found@) == similar_listings(
                candidate_views(candidates@),
                (Inquiry {
                    code: coupon_code@,
                    category: category@,
                    brand: opt_str(brand),
                    seller: seller_id@,
                }),
            ),
    {
        let ghost inquiry = Inquiry {
            code: coupon_code@,
            category: category@,
            brand: opt_str(brand),
            seller: seller_id@,
        };
        let ghost all = candidate_views(candidates@);
        let mut found: Vec<DuplicateInfo> = Vec::new();
        let mut taken: usize = 0;
        let mut i: usize = 0;
        proof {
            assert(all.subrange(0, 0) =~= Seq::<CandidateView>::empty());
            assert(duplicate_views(found@) =~= Seq::<DuplicateView>::empty());
        }
        while i < candidates.len()
            invariant
                i <= candidates.len(),
                all == candidate_views(candidates@),
                inquiry == (Inquiry {
                    code: coupon_code@,
                    category: category@,
                    brand: opt_str(brand),
                    seller: seller_id@,
                }),
                taken <= CANDIDATE_LIMIT,
                taken < CANDIDATE_LIMIT ==> eligible(all.subrange(0, i as int), inquiry).len()
                    == taken,
                taken == CANDIDATE_LIMIT ==> eligible(all.subrange(0, i as int), inquiry).len()
                    >= CANDIDATE_LIMIT,
                duplicate_views(found@) == similar_listings(all.subrange(0, i as int), inquiry),
            decreases candidates.len() - i,
        {
            let candidate = &candidates[i];
            let ghost prefix = all.subrange(0, i as int);
            let ghost next = all.subrange(0, i + 1);
            let ghost before = duplicate_views(found@);
            proof {
                assert(next.drop_last() =~= prefix);
                assert(next.last() == candidate@);
            }
            let eligible_now = candidate.status == ListingStatus::Active && same_text(
                candidate.category.as_str(),
                category,
            ) && !same_text(candidate.seller_id.as_str(), seller_id) && (brand.is_none()
                || same_opt_text(&candidate.brand_name, brand));
            if eligible_now && taken < CANDIDATE_LIMIT {
                proof {
                    let e = eligible(prefix, inquiry);
                    assert(eligible(next, inquiry) == e.push(candidate@));
                    assert(considered(prefix, inquiry) == e);
                    assert(considered(next, inquiry) == e.push(candidate@));
                    assert(e.push(candidate@).drop_last() =~= e);
                }
                let sim = Self::calculate_similarity(candidate.title.as_str(), coupon_code);
                let brand_match = brand.is_some() && same_opt_text(&candidate.brand_name, brand);
                let confidence: Option<u8> = if brand_match && sim.exceeds_tenths(7) {
                    Some(85)
                } else if sim.exceeds_tenths(8) {
                    Some(75)
                } else {
                    None
                };
                assert(confidence == match_confidence(
                    candidate@.title,
                    coupon_code@,
                    brand_matches(candidate@.brand_name, opt_str(brand)),
                ));
                match confidence {
                    Some(c) => {
                        found.push(
                            DuplicateInfo {
                                listing_id: uuid_to_string(candidate.id),
                                title: candidate.title.clone(),
                                seller_username: candidate.seller_username.clone(),
                                match_type: MatchType::Similar,
                                confidence: c,
                            },
                        );
                        assert(duplicate_views(found@) =~= before.push(
                            assessed(candidate@, inquiry)->0,
                        ));
                    },
                    None => {},
                }
                taken = taken + 1;
            } else {
                proof {
                    let e = eligible(prefix, inquiry);
                    if eligible_now {
                        assert(eligible(next, inquiry) == e.push(candidate@));
                        assert(e.push(candidate@).subrange(0, CANDIDATE_LIMIT as int) =~= e.subrange(
                            0,
                            CANDIDATE_LIMIT as int,
                        ));
                    } else {
                        assert(eligible(next, inquiry) == e);
                    }
                    assert(considered(next, inquiry) == considered(prefix, inquiry));
                }
            }
            i += 1;
        }
        assert(all.subrange(0, candidates.len() as int) =~= all);
        found
    }

    /// The first earlier listing that the new one looks like, if there is
    /// one. It is a warning for the caller to show, not a refusal.
    pub fn check_duplicate(
        &self,
        candidates: &Vec<ListingCandidate>,
        coupon_code: &str,
        category: &str,
        brand: Option<&str>,
        seller_id: &str,
    ) -> (warning: Option<DuplicateInfo>)
        ensures
            ({
                let all = similar_listings(
                    candidate_views(candidates@),
                    (Inquiry {
                        code: coupon_code@,
                        category: category@,
                        brand: opt_str(brand),
                        seller: seller_id@,
                    }),
                );
                if all.len() == 0 {
                    warning is None
                } else {
                    warning is Some && warning->0@ == all[0]
                }
            }),
    {
        let mut found = Self::find_similar_listings(
            candidates,
            coupon_code,
            category,
            brand,
            seller_id,
        );
        if found.len() == 0 {
            None
        } else {
            assert(duplicate_views(found@)[0] == found@[0]@);
            Some(found.swap_remove(0))
        }
    }

    /// The fingerprint of a listing's secret, to be stored under the
    /// listing. The identifier comes as text and is rejected unless it is a
    /// UUID.
    pub fn store_fingerprint(
        &self,
        listing_id: &str,
        coupon_code: &str,
        category: &str,
        brand: Option<&str>,
    ) -> (r: Result<FingerprintRecord, MarketError>)
        ensures
            uuid_parsed(listing_id@) is None ==> r == Err::<FingerprintRecord, MarketError>(
                MarketError::InvalidOperation(InvalidReason::MalformedListingId),
            ),
            uuid_parsed(listing_id@) is Some ==> r is Ok && r->Ok_0.listing_id == uuid_parsed(
                listing_id@,
            )->0 && r->Ok_0.fingerprint@ == fingerprint(coupon_code@, category@, opt_str(brand)),
            forall|id: u128| listing_id@ == #[trigger] hyphenated(id) ==> r is Ok && r->Ok_0.listing_id == id,
    {
        let print = Self::generate_fingerprint(coupon_code, category, brand);
        match parse_uuid(listing_id) {
            Some(id) => Ok(FingerprintRecord { listing_id: id, fingerprint: print }),
            None => Err(MarketError::InvalidOperation(InvalidReason::MalformedListingId)),
        }
    }
}


/// A text that has words is fully similar to itself: every word is shared,
/// so the similarity is one, and the text is flagged against itself with
/// confidence 85 under a matching brand and with confidence 75 without.
pub proof fn lemma_identical_texts_match(text: Seq<char>)
    requires
        word_set(text).len() > 0,
    ensures
        shared_words(text, text) == all_words(text, text),
        all_words(text, text) > 0,
        match_confidence(text, text, true) == Some(85u8),
        match_confidence(text, text, false) == Some(75u8),
{
    let w = word_set(text);
    assert(w.intersect(w) =~= w);
    assert(w.union(w) =~= w);
}

/// A text whose lower-case form has a character that is not white space
/// is fully similar to itself.
pub proof fn lemma_visible_text_matches_itself(text: Seq<char>, place: int)
    requires
        0 <= place < lowercase(text).len(),
        !is_whitespace(lowercase(text)[place]),
    ensures
        word_set(text).len() > 0,
        shared_words(text, text) == all_words(text, text),
        all_words(text, text) > 0,
        match_confidence(text, text, true) == Some(85u8),
        match_confidence(text, text, false) == Some(75u8),
{
    let all = words(lowercase(text));
    crate::text::lemma_visible_text_has_words(lowercase(text), place);
    seq_to_set_is_finite(all);
    assert(all.to_set().contains(all[0]));
    if all.to_set().len() == 0 {
        all.to_set().lemma_len0_is_empty();
    }
    lemma_identical_texts_match(text);
}

/// Two texts without a common word have similarity zero and are never
/// flagged, whatever their brands.
pub proof fn lemma_disjoint_texts_never_match(title: Seq<char>, code: Seq<char>, brand_match: bool)
    requires
        word_set(title).disjoint(word_set(code)),
    ensures
        shared_words(title, code) == 0,
        match_confidence(title, code, brand_match) is None,
{
    assert(word_set(title).intersect(word_set(code)) =~= Set::<Seq<char>>::empty());
}

/// A text without words has similarity zero to every text and is never
/// flagged.
pub proof fn lemma_wordless_text_never_matches(title: Seq<char>, code: Seq<char>, brand_match: bool)
    requires
        word_set(title).len() == 0 || word_set(code).len() == 0,
    ensures
        shared_words(title, code) == 0,
        match_confidence(title, code, brand_match) is None,
{
    seq_to_set_is_finite(words(lowercase(title)));
    seq_to_set_is_finite(words(lowercase(code)));
    vstd::set_lib::lemma_len_intersect(word_set(title), word_set(code));
    vstd::set_lib::lemma_len_intersect(word_set(code), word_set(title));
    assert(word_set(title).intersect(word_set(code)) =~= word_set(code).intersect(
        word_set(title),
    ));
}


/// Every candidate of a list that is flagged is among the flagged ones.
pub proof fn lemma_flagged_holds_each_match(
    candidates: Seq<CandidateView>,
    inquiry: Inquiry,
    place: int,
)
    requires
        0 <= place < candidates.len(),
        assessed(candidates[place], inquiry) is Some,
    ensures
        flagged(candidates, inquiry).contains(assessed(candidates[place], inquiry)->0),
    decreases candidates.len(),
{
    let front = candidates.drop_last();
    let earlier = flagged(front, inquiry);
    let wanted = assessed(candidates[place], inquiry)->0;
    if place == candidates.len() - 1 {
        assert(earlier.push(wanted)[earlier.len() as int] == wanted);
    } else {
        assert(front[place] == candidates[place]);
        lemma_flagged_holds_each_match(front, inquiry, place);
        let k = choose|k: int| 0 <= k < earlier.len() && earlier[k] == wanted;
        assert(flagged(candidates, inquiry)[k] == wanted);
    }
}

/// The candidates that the detector may look at among the first of a list
/// are the first of those that it may look at in the whole list.
pub proof fn lemma_eligible_of_a_beginning(
    candidates: Seq<CandidateView>,
    inquiry: Inquiry,
    upto: int,
)
    requires
        0 <= upto <= candidates.len(),
    ensures
        eligible(candidates.subrange(0, upto), inquiry).len() <= eligible(candidates, inquiry).len(),
        forall|j: int|
            0 <= j < eligible(candidates.subrange(0, upto), inquiry).len() ==> eligible(
                candidates,
                inquiry,
            )[j] == #[trigger] eligible(candidates.subrange(0, upto), inquiry)[j],
    decreases candidates.len(),
{
    if upto == candidates.len() {
        assert(candidates.subrange(0, upto) =~= candidates);
    } else {
        let front = candidates.drop_last();
        assert(front.subrange(0, upto) =~= candidates.subrange(0, upto));
        lemma_eligible_of_a_beginning(front, inquiry, upto);
    }
}

/// A candidate that the detector may look at, with fewer than
/// `CANDIDATE_LIMIT` such candidates before it, is one that the detector
/// looks at.
pub proof fn lemma_early_candidate_is_considered(
    candidates: Seq<CandidateView>,
    inquiry: Inquiry,
    place: int,
)
    requires
        0 <= place < candidates.len(),
        is_eligible(candidates[place], inquiry),
        eligible(candidates.subrange(0, place), inquiry).len() < CANDIDATE_LIMIT,
    ensures
        considered(candidates, inquiry).contains(candidates[place]),
{
    let before = candidates.subrange(0, place);
    let with_it = candidates.subrange(0, place + 1);
    assert(with_it.drop_last() =~= before);
    assert(with_it.last() == candidates[place]);
    let m = eligible(before, inquiry).len() as int;
    assert(eligible(with_it, inquiry) == eligible(before, inquiry).push(candidates[place]));
    assert(eligible(with_it, inquiry)[m] == candidates[place]);
    lemma_eligible_of_a_beginning(candidates, inquiry, place + 1);
    assert(eligible(candidates, inquiry)[m] == candidates[place]);
    assert(considered(candidates, inquiry)[m] == candidates[place]);
}

/// An earlier listing whose title is the code of the new listing is
/// flagged, where the code has words and the detector looks at the
/// listing: with confidence 85 where the new listing names a brand, which
/// is then the brand of the earlier one, and with confidence 75 where it
/// names none. The match names the earlier listing by its identifier, its
/// title and its seller.
pub proof fn lemma_listing_titled_as_the_code_is_flagged(
    candidates: Seq<CandidateView>,
    inquiry: Inquiry,
    place: int,
)
    requires
        0 <= place < candidates.len(),
        is_eligible(candidates[place], inquiry),
        eligible(candidates.subrange(0, place), inquiry).len() < CANDIDATE_LIMIT,
        candidates[place].title == inquiry.code,
        word_set(inquiry.code).len() > 0,
    ensures
        similar_listings(candidates, inquiry).contains(
            DuplicateView {
                listing_id: hyphenated(candidates[place].id),
                title: candidates[place].title,
                seller_username: candidates[place].seller_username,
                match_type: MatchType::Similar,
                confidence: if inquiry.brand is Some {
                    85u8
                } else {
                    75u8
                },
            },
        ),
{
    let candidate = candidates[place];
    lemma_identical_texts_match(inquiry.code);
    lemma_early_candidate_is_considered(candidates, inquiry, place);
    let pool = considered(candidates, inquiry);
    let k = choose|k: int| 0 <= k < pool.len() && pool[k] == candidate;
    assert(assessed(candidate, inquiry) is Some);
    lemma_flagged_holds_each_match(pool, inquiry, k);
}

} // verus!
