//! Businesses and the products they own by reference.

use crate::formats::{is_uuid, uuid_text};
use crate::reasons::INVALID_ID;
use crate::rules::{
    all_pass, fails_first_at, first_failure, lemma_accepted_iff_all_pass,
    lemma_failure_has_earliest_rule, lemma_reports_earliest_failure, Rule,
};
use crate::texts::{borrowed_texts, owned_texts, to_owned_text, to_owned_texts};
use vstd::prelude::*;

verus! {

/// A business of one user. This is the one shape a business has: it has an
/// identifier of its own and tags, and it names its products by their
/// identifiers without holding them. Nothing ties a product that names this
/// business to the identifiers listed here.
#[derive(Debug, PartialEq)]
pub struct Business {
    pub business_id: String,
    pub user_id: String,
    pub products_id: Vec<String>,
    pub business_tags: Vec<String>,
}

/// What a business holds, as plain sequences of characters.
pub struct BusinessView {
    pub business_id: Seq<char>,
    pub user_id: Seq<char>,
    pub products_id: Seq<Seq<char>>,
    pub business_tags: Seq<Seq<char>>,
}

impl View for Business {
    type V = BusinessView;

    open spec fn view(&self) -> BusinessView {
        BusinessView {
            business_id: self.business_id@,
            user_id: self.user_id@,
            products_id: owned_texts(self.products_id@),
            business_tags: owned_texts(self.business_tags@),
        }
    }
}

impl Clone for Business {
    fn clone(&self) -> (copy: Business)
        ensures
            copy@ == self@,
    {
        let products_id = self.products_id.clone();
        let business_tags = self.business_tags.clone();
        assert(owned_texts(products_id@) =~= owned_texts(self.products_id@));
        assert(owned_texts(business_tags@) =~= owned_texts(self.business_tags@));
        Business {
            business_id: self.business_id.clone(),
            user_id: self.user_id.clone(),
            products_id,
            business_tags,
        }
    }
}

impl Default for Business {
    fn default() -> (business: Business)
        ensures
            business@ == Business::spec_new(
                Seq::empty(),
                Seq::empty(),
                Seq::empty(),
                Seq::empty(),
            ),
    {
        let products_id: Vec<String> = Vec::new();
        let business_tags: Vec<String> = Vec::new();
        assert(owned_texts(products_id@) =~= Seq::<Seq<char>>::empty());
        assert(owned_texts(business_tags@) =~= Seq::<Seq<char>>::empty());
        Business { business_id: String::new(), user_id: String::new(), products_id, business_tags }
    }
}

impl Business {
    /// The business that `new` assembles from these texts.
    pub open spec fn spec_new(
        business_id: Seq<char>,
        user_id: Seq<char>,
        products_id: Seq<Seq<char>>,
        business_tags: Seq<Seq<char>>,
    ) -> BusinessView {
        BusinessView { business_id, user_id, products_id, business_tags }
    }

    /// The rule that one identifier must satisfy.
    pub open spec fn id_rule(id: Seq<char>) -> Rule {
        Rule { passes: uuid_text(id), reason: INVALID_ID@ }
    }

    /// The validation table of a business, evaluated on these texts: one rule
    /// for its own identifier, one for its user's, then one for each product
    /// identifier in the order given.
    pub open spec fn rules(
        business_id: Seq<char>,
        user_id: Seq<char>,
        products_id: Seq<Seq<char>>,
    ) -> Seq<Rule> {
        seq![Self::id_rule(business_id), Self::id_rule(user_id)] + Seq::new(
            products_id.len(),
            |i: int| Self::id_rule(products_id[i]),
        )
    }

    /// What `create` answers on these texts: the reason of the first rule
    /// that fails, or else the business that `new` assembles from them.
    pub open spec fn spec_create(
        business_id: Seq<char>,
        user_id: Seq<char>,
        products_id: Seq<Seq<char>>,
        business_tags: Seq<Seq<char>>,
    ) -> Result<BusinessView, Seq<char>> {
        match first_failure(Self::rules(business_id, user_id, products_id)) {
            Some(reason) => Err(reason),
            None => Ok(Self::spec_new(business_id, user_id, products_id, business_tags)),
        }
    }

    /// `create` succeeds exactly when every rule of the business's table
    /// passes, that is when all the identifiers are UUIDs, and what it then
    /// returns is what `new` assembles from the same texts.
    pub proof fn lemma_create_succeeds_iff_rules_pass(
        business_id: Seq<char>,
        user_id: Seq<char>,
        products_id: Seq<Seq<char>>,
        business_tags: Seq<Seq<char>>,
    )
        ensures
            ({
                let answer = Self::spec_create(business_id, user_id, products_id, business_tags);
                let assembled = Self::spec_new(business_id, user_id, products_id, business_tags);
                &&& answer is Ok <==> all_pass(Self::rules(business_id, user_id, products_id))
                &&& answer is Ok <==> {
                    &&& uuid_text(business_id)
                    &&& uuid_text(user_id)
                    &&& forall|i: int|
                        0 <= i < products_id.len() ==> uuid_text(#[trigger] products_id[i])
                }
                &&& answer is Ok ==> answer == Ok::<BusinessView, Seq<char>>(assembled)
            }),
    {
        let rules = Self::rules(business_id, user_id, products_id);
        lemma_accepted_iff_all_pass(rules);
        if all_pass(rules) {
            assert(rules[0].passes && rules[1].passes);
            assert forall|i: int| 0 <= i < products_id.len() implies uuid_text(
                #[trigger] products_id[i],
            ) by {
                assert(rules[i + 2].passes);
            }
        }
    }

    /// Where several identifiers are no UUIDs at once, `create` reports the
    /// reason of the earliest of them in table order: the business's own
    /// identifier first, its user's second, then the product identifiers as
    /// given.
    pub proof fn lemma_create_reports_first_failure(
        business_id: Seq<char>,
        user_id: Seq<char>,
        products_id: Seq<Seq<char>>,
        business_tags: Seq<Seq<char>>,
        at: int,
    )
        requires
            fails_first_at(Self::rules(business_id, user_id, products_id), at),
        ensures
            Self::spec_create(business_id, user_id, products_id, business_tags) == Err::<
                BusinessView,
                Seq<char>,
            >(Self::rules(business_id, user_id, products_id)[at].reason),
    {
        lemma_reports_earliest_failure(Self::rules(business_id, user_id, products_id), at);
    }

    /// All rules of this table share one reason: whichever identifier is at
    /// fault, a business is refused for the same reason.
    pub proof fn lemma_create_refuses_with_one_reason(
        business_id: Seq<char>,
        user_id: Seq<char>,
        products_id: Seq<Seq<char>>,
        business_tags: Seq<Seq<char>>,
    )
        ensures
            ({
                let answer = Self::spec_create(business_id, user_id, products_id, business_tags);
                answer is Err ==> answer == Err::<BusinessView, Seq<char>>(INVALID_ID@)
            }),
    {
        let rules = Self::rules(business_id, user_id, products_id);
        if first_failure(rules) is Some {
            let k = lemma_failure_has_earliest_rule(rules);
        }
    }

    /// A business that `create` returns holds every text as it was given,
    /// product identifiers and tags in the order given.
    pub proof fn lemma_create_keeps_fields(
        business_id: Seq<char>,
        user_id: Seq<char>,
        products_id: Seq<Seq<char>>,
        business_tags: Seq<Seq<char>>,
    )
        ensures
            Self::spec_create(business_id, user_id, products_id, business_tags) matches Ok(
                business,
            ) ==> {
                &&& business.business_id == business_id
                &&& business.user_id == user_id
                &&& business.products_id == products_id
                &&& business.business_tags == business_tags
            },
    {
    }

    /// Assembles a business from the given texts without checking any of
    /// them. Product identifiers and tags keep their order.
    pub fn new(
        business_id: &str,
        user_id: &str,
        products_id: Vec<&str>,
        business_tags: Vec<&str>,
    ) -> (business: Business)
        ensures
            business@ == Self::spec_new(
                business_id@,
                user_id@,
                borrowed_texts(products_id@),
                borrowed_texts(business_tags@),
            ),
            business@.products_id.len() == products_id@.len(),
            forall|i: int|
                0 <= i < products_id@.len() ==> #[trigger] business@.products_id[i]
                    == products_id@[i]@,
            business@.business_tags.len() == business_tags@.len(),
            forall|i: int|
                0 <= i < business_tags@.len() ==> #[trigger] business@.business_tags[i]
                    == business_tags@[i]@,
    {
        Business {
            business_id: to_owned_text(business_id),
            user_id: to_owned_text(user_id),
            products_id: to_owned_texts(&products_id),
            business_tags: to_owned_texts(&business_tags),
        }
    }

    /// Checks the rules of a business in table order and reports the reason
    /// of the first that fails; where all pass, assembles the business.
    pub fn create(
        business_id: &str,
        user_id: &str,
        products_id: Vec<&str>,
        business_tags: Vec<&str>,
    ) -> (outcome: Result<Business, &'static str>)
        ensures
            ({
                let answer = Self::spec_create(
                    business_id@,
                    user_id@,
                    borrowed_texts(products_id@),
                    borrowed_texts(business_tags@),
                );
                match outcome {
                    Ok(business) => answer == Ok::<BusinessView, Seq<char>>(business@),
                    Err(reason) => answer == Err::<BusinessView, Seq<char>>(reason@),
                }
            }),
    {
        let ghost rules = Self::rules(business_id@, user_id@, borrowed_texts(products_id@));
        if !is_uuid(business_id) {
            proof {
                lemma_reports_earliest_failure(rules, 0);
            }
            return Err(INVALID_ID);
        }
        if !is_uuid(user_id) {
            proof {
                lemma_reports_earliest_failure(rules, 1);
            }
            return Err(INVALID_ID);
        }
        let count = products_id.len();
        let mut at: usize = 0;
        while at < count
            invariant
                at <= count,
                count == products_id@.len(),
                rules == Self::rules(business_id@, user_id@, borrowed_texts(products_id@)),
                forall|j: int| 0 <= j < at + 2 ==> (#[trigger] rules[j]).passes,
            decreases count - at,
        {
            if !is_uuid(products_id[at]) {
                proof {
                    lemma_reports_earliest_failure(rules, at + 2);
                }
                return Err(INVALID_ID);
            }
            at = at + 1;
        }
        proof {
            lemma_accepted_iff_all_pass(rules);
        }
        Ok(Business::new(business_id, user_id, products_id, business_tags))
    }
}

} // verus!
