//! The secret vault: who may read the secret of a listing, and the form in
//! which a secret is stored.
//!
//! A secret is stored as its ciphertext and its nonce with a colon between.
//! The cipher itself is not part of this crate: the caller encrypts before
//! it seals and decrypts what it has unsealed.

use vstd::prelude::*;
use crate::error::{InternalReason, MarketError};
use crate::model::{CouponAccessGrant, GrantView, TransactionView};
use crate::text::{opt_str, same_text};

verus! {

/// The character between ciphertext and nonce.
pub const DELIMITER: char = ':';

/// A stored secret, taken apart.
#[derive(Clone, Debug, PartialEq, Eq)]
pub struct SealedSecret {
    pub ciphertext: String,
    pub nonce: String,
}

/// The views of a list of grants.
pub open spec fn grant_views(v: Seq<CouponAccessGrant>) -> Seq<GrantView> {
    Seq::new(v.len(), |i: int| v[i]@)
}

/// Some grant lets the user read the secret of the listing.
pub open spec fn has_grant(grants: Seq<GrantView>, listing_id: u128, user: Seq<char>) -> bool {
    exists|i: int|
        0 <= i < grants.len() && (#[trigger] grants[i]).listing_id == listing_id && grants[i].user_id
            == user
}

/// Who may read the secret of a listing: its seller, and every user with a
/// grant for it. `seller` is absent where the listing is.
pub open spec fn may_reveal(
    seller: Option<Seq<char>>,
    grants: Seq<GrantView>,
    listing_id: u128,
    requester: Seq<char>,
) -> bool {
    seller == Some(requester) || has_grant(grants, listing_id, requester)
}

/// The stored form of a secret.
pub open spec fn sealed(ciphertext: Seq<char>, nonce: Seq<char>) -> Seq<char> {
    ciphertext + seq![DELIMITER] + nonce
}

/// How often the delimiter occurs in a text.
pub open spec fn delimiters_in(s: Seq<char>) -> nat
    decreases s.len(),
{
    if s.len() == 0 {
        0
    } else {
        delimiters_in(s.drop_last()) + if s.last() == DELIMITER {
            1nat
        } else {
            0
        }
    }
}

/// A stored text is well formed when it holds the delimiter exactly once,
/// so that it falls into two parts.
pub open spec fn well_sealed(s: Seq<char>) -> bool {
    delimiters_in(s) == 1
}

/// The place of the first delimiter in a text, or the length of the text
/// where there is none.
pub open spec fn first_delimiter(s: Seq<char>) -> int
    decreases s.len(),
{
    if s.len() == 0 {
        0
    } else if s[0] == DELIMITER {
        0
    } else {
        1 + first_delimiter(s.drop_first())
    }
}

/// The part of a stored text before its delimiter.
pub open spec fn ciphertext_of(s: Seq<char>) -> Seq<char> {
    s.subrange(0, first_delimiter(s))
}

/// The part of a stored text after its delimiter.
pub open spec fn nonce_of(s: Seq<char>) -> Seq<char> {
    s.subrange(first_delimiter(s) + 1, s.len() as int)
}

/// The first delimiter lies within the text, nothing before it is a
/// delimiter, and it is one where the text has one.
pub proof fn lemma_first_delimiter(s: Seq<char>)
    ensures
        0 <= first_delimiter(s) <= s.len(),
        forall|i: int| 0 <= i < first_delimiter(s) ==> s[i] != DELIMITER,
        first_delimiter(s) < s.len() ==> s[first_delimiter(s)] == DELIMITER,
    decreases s.len(),
{
    if s.len() > 0 && s[0] != DELIMITER {
        let rest = s.drop_first();
        lemma_first_delimiter(rest);
        assert forall|i: int| 0 <= i < first_delimiter(s) implies s[i] != DELIMITER by {
            if i > 0 {
                assert(rest[i - 1] == s[i]);
            }
        }
    }
}

/// The delimiters of two texts put together are those of the one and those
/// of the other.
pub proof fn lemma_delimiters_add(a: Seq<char>, b: Seq<char>)
    ensures
        delimiters_in(a + b) == delimiters_in(a) + delimiters_in(b),
    decreases b.len(),
{
    if b.len() == 0 {
        assert(a + b =~= a);
    } else {
        assert((a + b).drop_last() =~= a + b.drop_last());
        assert((a + b).last() == b.last());
        lemma_delimiters_add(a, b.drop_last());
    }
}

/// A text without the delimiter counts none, and the other way round.
pub proof fn lemma_no_delimiters(s: Seq<char>)
    ensures
        delimiters_in(s) == 0 <==> forall|i: int| 0 <= i < s.len() ==> s[i] != DELIMITER,
    decreases s.len(),
{
    if s.len() > 0 {
        let front = s.drop_last();
        lemma_no_delimiters(front);
        if delimiters_in(s) == 0 {
            assert forall|i: int| 0 <= i < s.len() implies s[i] != DELIMITER by {
                if i < s.len() - 1 {
                    assert(front[i] == s[i]);
                }
            }
        }
        if forall|i: int| 0 <= i < s.len() ==> s[i] != DELIMITER {
            assert forall|i: int| 0 <= i < front.len() implies front[i] != DELIMITER by {
                assert(front[i] == s[i]);
            }
        }
    }
}

/// Puts ciphertext and nonce into the form in which a secret is stored.
pub fn seal(ciphertext: &str, nonce: &str) -> (stored: String)
    ensures
        stored@ == sealed(ciphertext@, nonce@),
{
    let mut stored = String::new();
    stored.push_str(ciphertext);
    stored.push(DELIMITER);
    stored.push_str(nonce);
    assert(stored@ =~= sealed(ciphertext@, nonce@));
    stored
}

/// Takes a stored secret apart. A text that does not hold the delimiter
/// exactly once is malformed.
pub fn unseal(stored: &str) -> (r: Result<SealedSecret, MarketError>)
    ensures
        !well_sealed(stored@) ==> r == Err::<SealedSecret, MarketError>(
            MarketError::Internal(InternalReason::MalformedSecret),
        ),
        well_sealed(stored@) ==> r is Ok && r->Ok_0.ciphertext@ == ciphertext_of(stored@)
            && r->Ok_0.nonce@ == nonce_of(stored@),
{
    let mut ciphertext = String::new();
    let mut nonce = String::new();
    // The number of delimiters so far, counted up to two.
    let mut seen: u8 = 0;
    let ghost mut place: int = 0;
    proof {
        lemma_first_delimiter(stored@);
        assert(stored@.subrange(0, 0) =~= Seq::<char>::empty());
    }
    for c in it: stored.chars()
        invariant
            it.seq() == stored@,
            seen <= 2,
            seen < 2 ==> seen == delimiters_in(stored@.subrange(0, it.index() as int)),
            seen == 2 ==> delimiters_in(stored@.subrange(0, it.index() as int)) >= 2,
            seen == 0 ==> ciphertext@ == stored@.subrange(0, it.index() as int) && nonce@.len() == 0
                && first_delimiter(stored@) >= it.index(),
            seen >= 1 ==> place == first_delimiter(stored@) && 0 <= place < it.index(),
            seen == 1 ==> ciphertext@ == stored@.subrange(0, place) && nonce@ == stored@.subrange(
                place + 1,
                it.index() as int,
            ),
    {
        let ghost k = it.index() as int;
        proof {
            let next = stored@.subrange(0, k + 1);
            assert(next.drop_last() =~= stored@.subrange(0, k));
            assert(next.last() == c);
            lemma_first_delimiter(stored@);
        }
        if c == DELIMITER {
            proof {
                if seen == 0 {
                    place = k;
                    assert(first_delimiter(stored@) == k);
                    assert(stored@.subrange(k + 1, k + 1) =~= Seq::<char>::empty());
                }
            }
            if seen < 2 {
                seen = seen + 1;
            }
        } else if seen == 0 {
            ciphertext.push(c);
            assert(ciphertext@ =~= stored@.subrange(0, k + 1));
            proof {
                assert(first_delimiter(stored@) != k);
            }
        } else if seen == 1 {
            nonce.push(c);
            assert(nonce@ =~= stored@.subrange(place + 1, k + 1));
        }
    }
    assert(stored@.subrange(0, stored@.len() as int) =~= stored@);
    if seen == 1 {
        Ok(SealedSecret { ciphertext, nonce })
    } else {
        Err(MarketError::Internal(InternalReason::MalformedSecret))
    }
}

/// Whether some grant lets the user read the secret of the listing.
pub fn holds_grant(grants: &Vec<CouponAccessGrant>, listing_id: u128, user: &str) -> (found: bool)
    ensures
        found == has_grant(grant_views(grants@), listing_id, user@),
{
    let mut i: usize = 0;
    while i < grants.len()
        invariant
            i <= grants.len(),
            forall|j: int|
                0 <= j < i ==> !((#[trigger] grant_views(grants@)[j]).listing_id == listing_id
                    && grant_views(grants@)[j].user_id == user@),
        decreases grants.len() - i,
    {
        if grants[i].listing_id == listing_id && same_text(grants[i].user_id.as_str(), user) {
            assert(grant_views(grants@)[i as int] == grants@[i as int]@);
            return true;
        }
        proof {
            assert(grant_views(grants@)[i as int] == grants@[i as int]@);
        }
        i += 1;
    }
    false
}

/// The stored secret of a listing for a requester, taken apart and ready to
/// be decrypted.
///
/// `seller` is the seller of the listing, absent where the listing is;
/// `stored` is the stored secret, absent where the listing has none. A
/// requester who is neither the seller nor the holder of a grant gets
/// nothing, and so does everyone where no secret is stored: the two cases
/// look the same to the caller. A secret that is stored in a malformed way
/// is an error.
pub fn get_coupon_code(
    seller: Option<&str>,
    grants: &Vec<CouponAccessGrant>,
    listing_id: u128,
    requester: &str,
    stored: Option<&str>,
) -> (r: Result<Option<SealedSecret>, MarketError>)
    ensures
        !may_reveal(opt_str(seller), grant_views(grants@), listing_id, requester@) ==> r is Ok
            && r->Ok_0 is None,
        may_reveal(opt_str(seller), grant_views(grants@), listing_id, requester@) && stored is None
            ==> r is Ok && r->Ok_0 is None,
        may_reveal(opt_str(seller), grant_views(grants@), listing_id, requester@) && stored is Some
            && !well_sealed(stored->0@) ==> r == Err::<Option<SealedSecret>, MarketError>(
            MarketError::Internal(InternalReason::MalformedSecret),
        ),
        may_reveal(opt_str(seller), grant_views(grants@), listing_id, requester@) && stored is Some
            && well_sealed(stored->0@) ==> r is Ok && r->Ok_0 is Some && r->Ok_0->0.ciphertext@
            == ciphertext_of(stored->0@) && r->Ok_0->0.nonce@ == nonce_of(stored->0@),
{
    let is_seller = match seller {
        Some(s) => same_text(s, requester),
        None => false,
    };
    if !is_seller && !holds_grant(grants, listing_id, requester) {
        return Ok(None);
    }
    match stored {
        None => Ok(None),
        Some(text) => {
            match unseal(text) {
                Ok(secret) => Ok(Some(secret)),
                Err(e) => Err(e),
            }
        },
    }
}

/// What was sealed comes apart again: where neither the ciphertext nor the
/// nonce holds the delimiter, unsealing gives back the two.
pub proof fn lemma_seal_round_trip(ciphertext: Seq<char>, nonce: Seq<char>)
    requires
        delimiters_in(ciphertext) == 0,
        delimiters_in(nonce) == 0,
    ensures
        well_sealed(sealed(ciphertext, nonce)),
        ciphertext_of(sealed(ciphertext, nonce)) == ciphertext,
        nonce_of(sealed(ciphertext, nonce)) == nonce,
{
    let s = sealed(ciphertext, nonce);
    lemma_delimiters_add(ciphertext + seq![DELIMITER], nonce);
    lemma_delimiters_add(ciphertext, seq![DELIMITER]);
    assert(delimiters_in(seq![DELIMITER]) == 1) by {
        assert(seq![DELIMITER].drop_last() =~= Seq::<char>::empty());
        reveal_with_fuel(delimiters_in, 2);
    }
    lemma_no_delimiters(ciphertext);
    lemma_first_delimiter(s);
    let k = first_delimiter(s);
    assert(s[ciphertext.len() as int] == DELIMITER);
    assert(k == ciphertext.len()) by {
        if k < ciphertext.len() {
            assert(s[k] == ciphertext[k]);
        }
    }
    assert(ciphertext_of(s) =~= ciphertext);
    assert(nonce_of(s) =~= nonce);
}

/// The seller of a listing may always read its secret.
pub proof fn lemma_seller_may_reveal(seller: Seq<char>, grants: Seq<GrantView>, listing_id: u128)
    ensures
        may_reveal(Some(seller), grants, listing_id, seller),
{
}

/// The grant stands on one of the transactions: a transaction of the
/// grant's user for the grant's listing which has been completed.
pub open spec fn is_backed(grant: GrantView, transactions: Seq<TransactionView>) -> bool {
    exists|j: int| 0 <= j < transactions.len() && backs(#[trigger] transactions[j], grant)
}

/// Every grant stands on a completed transaction.
pub open spec fn grants_backed(grants: Seq<GrantView>, transactions: Seq<TransactionView>) -> bool {
    forall|i: int| 0 <= i < grants.len() ==> is_backed(#[trigger] grants[i], transactions)
}

/// The transaction is the one that the grant names, and it has been
/// completed.
pub open spec fn backs(transaction: TransactionView, grant: GrantView) -> bool {
    &&& transaction.id == grant.transaction_id
    &&& transaction.listing_id == grant.listing_id
    &&& transaction.buyer_id == grant.user_id
    &&& transaction.has_completed()
}

/// Where every grant stands on a completed transaction, a user who is not
/// the seller may read the secret of a listing only if a transaction of
/// theirs for that listing has been completed.
pub proof fn lemma_buyer_reveals_only_after_completion(
    seller: Option<Seq<char>>,
    grants: Seq<GrantView>,
    transactions: Seq<TransactionView>,
    listing_id: u128,
    requester: Seq<char>,
)
    requires
        grants_backed(grants, transactions),
        seller != Some(requester),
        may_reveal(seller, grants, listing_id, requester),
    ensures
        exists|j: int|
            0 <= j < transactions.len() && (#[trigger] transactions[j]).listing_id == listing_id
                && transactions[j].buyer_id == requester && transactions[j].has_completed(),
{
    let i = choose|i: int|
        0 <= i < grants.len() && (#[trigger] grants[i]).listing_id == listing_id && grants[i].user_id
            == requester;
    assert(is_backed(grants[i], transactions));
    let j = choose|j: int|
        0 <= j < transactions.len() && backs(#[trigger] transactions[j], grants[i]);
    assert(transactions[j].listing_id == listing_id);
}

/// Without a grant, a user who is not the seller reads nothing: a buyer
/// whose transactions for the listing are all still pending or in escrow,
/// where every grant stands on a completed transaction, has no access.
pub proof fn lemma_no_reveal_before_completion(
    seller: Option<Seq<char>>,
    grants: Seq<GrantView>,
    transactions: Seq<TransactionView>,
    listing_id: u128,
    requester: Seq<char>,
)
    requires
        grants_backed(grants, transactions),
        seller != Some(requester),
        forall|j: int|
            0 <= j < transactions.len() && (#[trigger] transactions[j]).listing_id == listing_id
                && transactions[j].buyer_id == requester ==> !transactions[j].has_completed(),
    ensures
        !may_reveal(seller, grants, listing_id, requester),
{
    if may_reveal(seller, grants, listing_id, requester) {
        lemma_buyer_reveals_only_after_completion(
            seller,
            grants,
            transactions,
            listing_id,
            requester,
        );
    }
}

} // verus!
