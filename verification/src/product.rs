//! Products offered by a business.

use crate::amount::{amount_shape, brl_price, brl_price_text, has_amount_shape};
use crate::formats::{is_url, is_uuid, url_text, uuid_text};
use crate::reasons::{
    lemma_product_reasons_differ, DESCRIPTION_TOO_BIG, DESCRIPTION_TOO_SHORT, INVALID_AMOUNT,
    INVALID_BUSINESS_UUID, INVALID_URL, INVALID_UUID, TITLE_TOO_BIG, TITLE_TOO_SHORT,
};
use crate::rules::{
    all_pass, first_failure, lemma_accepted_iff_all_pass, lemma_failure_has_earliest_rule,
    lemma_reports_earliest_failure, Rule,
};
use crate::texts::{
    borrowed_texts, byte_len, owned_texts, text_len, to_owned_text, to_owned_texts,
};
use vstd::prelude::*;

verus! {

/// The fewest bytes a title may have.
pub const MIN_TITLE_LEN: usize = 5;

/// The most bytes a title may have.
pub const MAX_TITLE_LEN: usize = 100;

/// The fewest bytes a description may have.
pub const MIN_DESCRIPTION_LEN: usize = 5;

/// The bound of the rule that reports a description as too big. The rule
/// measures the title against it, not the description.
pub const MAX_DESCRIPTION_LEN: usize = 1000;

/// A product. This is the one shape a product has: it names its business by
/// identifier, carries its price twice (`unformatted_price` as it was given,
/// `price` as the text derived from that), and has a single list of tags.
#[derive(Debug, PartialEq)]
pub struct Product {
    pub product_id: String,
    pub business_id: String,
    pub title: String,
    pub description: String,
    pub image_url: String,
    pub price: String,
    pub unformatted_price: String,
    pub product_tags: Vec<String>,
}

/// What a product holds, as plain sequences of characters.
pub struct ProductView {
    pub product_id: Seq<char>,
    pub business_id: Seq<char>,
    pub title: Seq<char>,
    pub description: Seq<char>,
    pub image_url: Seq<char>,
    pub price: Seq<char>,
    pub unformatted_price: Seq<char>,
    pub product_tags: Seq<Seq<char>>,
}

impl View for Product {
    type V = ProductView;

    open spec fn view(&self) -> ProductView {
        ProductView {
            product_id: self.product_id@,
            business_id: self.business_id@,
            title: self.title@,
            description: self.description@,
            image_url: self.image_url@,
            price: self.price@,
            unformatted_price: self.unformatted_price@,
            product_tags: owned_texts(self.product_tags@),
        }
    }
}

impl Clone for Product {
    fn clone(&self) -> (copy: Product)
        ensures
            copy@ == self@,
    {
        let product_tags = self.product_tags.clone();
        assert(owned_texts(product_tags@) =~= owned_texts(self.product_tags@));
        Product {
            product_id: self.product_id.clone(),
            business_id: self.business_id.clone(),
            title: self.title.clone(),
            description: self.description.clone(),
            image_url: self.image_url.clone(),
            price: self.price.clone(),
            unformatted_price: self.unformatted_price.clone(),
            product_tags,
        }
    }
}

impl Default for Product {
    fn default() -> (product: Product)
        ensures
            product@ == Product::spec_new(
                Seq::empty(),
                Seq::empty(),
                Seq::empty(),
                Seq::empty(),
                Seq::empty(),
                Seq::empty(),
                Seq::empty(),
                Seq::empty(),
            ),
    {
        let product_tags: Vec<String> = Vec::new();
        assert(owned_texts(product_tags@) =~= Seq::<Seq<char>>::empty());
        Product {
            product_id: String::new(),
            business_id: String::new(),
            title: String::new(),
            description: String::new(),
            image_url: String::new(),
            price: String::new(),
            unformatted_price: String::new(),
            product_tags,
        }
    }
}

impl Product {
    /// The product that `new` assembles from these texts.
    pub open spec fn spec_new(
        product_id: Seq<char>,
        business_id: Seq<char>,
        title: Seq<char>,
        description: Seq<char>,
        image_url: Seq<char>,
        price: Seq<char>,
        unformatted_price: Seq<char>,
        product_tags: Seq<Seq<char>>,
    ) -> ProductView {
        ProductView {
            product_id,
            business_id,
            title,
            description,
            image_url,
            price,
            unformatted_price,
            product_tags,
        }
    }

    /// Whether `unformatted_price` is an amount of money: a text that has the
    /// written form this library asks of an amount, and from which the money
    /// library derives a price. The first half is this library's own rule and
    /// refuses some texts that the money library would read.
    pub open spec fn is_amount(unformatted_price: Seq<char>) -> bool {
        amount_shape(unformatted_price) && brl_price_text(unformatted_price) is Some
    }

    /// The validation table of a product, evaluated on these texts.
    pub open spec fn rules(
        product_id: Seq<char>,
        business_id: Seq<char>,
        title: Seq<char>,
        description: Seq<char>,
        image_url: Seq<char>,
        unformatted_price: Seq<char>,
    ) -> Seq<Rule> {
        seq![
            Rule { passes: uuid_text(product_id), reason: INVALID_UUID@ },
            Rule { passes: uuid_text(business_id), reason: INVALID_BUSINESS_UUID@ },
            Rule { passes: url_text(image_url), reason: INVALID_URL@ },
            Rule { passes: byte_len(title) >= MIN_TITLE_LEN, reason: TITLE_TOO_SHORT@ },
            Rule { passes: byte_len(title) <= MAX_TITLE_LEN, reason: TITLE_TOO_BIG@ },
            Rule {
                passes: byte_len(description) >= MIN_DESCRIPTION_LEN,
                reason: DESCRIPTION_TOO_SHORT@,
            },
            Rule { passes: byte_len(title) <= MAX_DESCRIPTION_LEN, reason: DESCRIPTION_TOO_BIG@ },
            Rule { passes: Self::is_amount(unformatted_price), reason: INVALID_AMOUNT@ },
        ]
    }

    /// What `create` answers on these texts: the reason of the first rule that
    /// fails, or else the product that `new` assembles from them and from the
    /// price text derived from `unformatted_price`.
    pub open spec fn spec_create(
        product_id: Seq<char>,
        business_id: Seq<char>,
        title: Seq<char>,
        description: Seq<char>,
        image_url: Seq<char>,
        unformatted_price: Seq<char>,
        product_tags: Seq<Seq<char>>,
    ) -> Result<ProductView, Seq<char>> {
        match first_failure(
            Self::rules(product_id, business_id, title, description, image_url, unformatted_price),
        ) {
            Some(reason) => Err(reason),
            None => Ok(
                Self::spec_new(
                    product_id,
                    business_id,
                    title,
                    description,
                    image_url,
                    brl_price_text(unformatted_price).unwrap(),
                    unformatted_price,
                    product_tags,
                ),
            ),
        }
    }

    /// `create` succeeds exactly when every rule of the product's table
    /// passes, and what it then returns is what `new` assembles from the same
    /// texts and from the price text derived from `unformatted_price`.
    pub proof fn lemma_create_succeeds_iff_rules_pass(
        product_id: Seq<char>,
        business_id: Seq<char>,
        title: Seq<char>,
        description: Seq<char>,
        image_url: Seq<char>,
        unformatted_price: Seq<char>,
        product_tags: Seq<Seq<char>>,
    )
        ensures
            ({
                let answer = Self::spec_create(
                    product_id,
                    business_id,
                    title,
                    description,
                    image_url,
                    unformatted_price,
                    product_tags,
                );
                let rules = Self::rules(
                    product_id,
                    business_id,
                    title,
                    description,
                    image_url,
                    unformatted_price,
                );
                let assembled = Self::spec_new(
                    product_id,
                    business_id,
                    title,
                    description,
                    image_url,
                    brl_price_text(unformatted_price).unwrap(),
                    unformatted_price,
                    product_tags,
                );
                &&& answer is Ok <==> all_pass(rules)
                &&& answer is Ok <==> {
                    &&& uuid_text(product_id)
                    &&& uuid_text(business_id)
                    &&& url_text(image_url)
                    &&& MIN_TITLE_LEN <= byte_len(title) <= MAX_TITLE_LEN
                    &&& MIN_DESCRIPTION_LEN <= byte_len(description)
                    &&& Self::is_amount(unformatted_price)
                }
                &&& answer is Ok ==> answer == Ok::<ProductView, Seq<char>>(assembled)
            }),
    {
        let rules = Self::rules(
            product_id,
            business_id,
            title,
            description,
            image_url,
            unformatted_price,
        );
        lemma_accepted_iff_all_pass(rules);
        if !all_pass(rules) {
            let k = choose|k: int| 0 <= k < rules.len() && !(#[trigger] rules[k]).passes;
            assert(0 <= k < 8);
        } else {
            assert(rules[0].passes && rules[1].passes && rules[2].passes && rules[3].passes);
            assert(rules[4].passes && rules[5].passes && rules[6].passes && rules[7].passes);
        }
    }

    /// Where several rules of the product's table fail at once, `create`
    /// reports the reason of the one that comes first in the table.
    pub proof fn lemma_create_reports_first_failure(
        product_id: Seq<char>,
        business_id: Seq<char>,
        title: Seq<char>,
        description: Seq<char>,
        image_url: Seq<char>,
        unformatted_price: Seq<char>,
        product_tags: Seq<Seq<char>>,
    )
        ensures
            ({
                let answer = Self::spec_create(
                    product_id,
                    business_id,
                    title,
                    description,
                    image_url,
                    unformatted_price,
                    product_tags,
                );
                let refused = |reason: Seq<char>| answer == Err::<ProductView, Seq<char>>(reason);
                let ids = uuid_text(product_id) && uuid_text(business_id);
                let addressed = ids && url_text(image_url);
                let titled = addressed && MIN_TITLE_LEN <= byte_len(title) <= MAX_TITLE_LEN;
                let described = titled && MIN_DESCRIPTION_LEN <= byte_len(description);
                &&& !uuid_text(product_id) ==> refused(INVALID_UUID@)
                &&& uuid_text(product_id) && !uuid_text(business_id) ==> refused(
                    INVALID_BUSINESS_UUID@,
                )
                &&& ids && !url_text(image_url) ==> refused(INVALID_URL@)
                &&& addressed && byte_len(title) < MIN_TITLE_LEN ==> refused(TITLE_TOO_SHORT@)
                &&& addressed && byte_len(title) > MAX_TITLE_LEN ==> refused(TITLE_TOO_BIG@)
                &&& titled && byte_len(description) < MIN_DESCRIPTION_LEN ==> refused(
                    DESCRIPTION_TOO_SHORT@,
                )
                &&& described && !Self::is_amount(unformatted_price) ==> refused(INVALID_AMOUNT@)
            }),
    {
        let rules = Self::rules(
            product_id,
            business_id,
            title,
            description,
            image_url,
            unformatted_price,
        );
        if !rules[0].passes {
            lemma_reports_earliest_failure(rules, 0);
        } else if !rules[1].passes {
            lemma_reports_earliest_failure(rules, 1);
        } else if !rules[2].passes {
            lemma_reports_earliest_failure(rules, 2);
        } else if !rules[3].passes {
            lemma_reports_earliest_failure(rules, 3);
        } else if !rules[4].passes {
            lemma_reports_earliest_failure(rules, 4);
        } else if !rules[5].passes {
            lemma_reports_earliest_failure(rules, 5);
        } else if !rules[7].passes {
            assert(rules[6].passes);
            lemma_reports_earliest_failure(rules, 7);
        }
    }

    /// No product is refused as having too big a description: the rule with
    /// that reason measures the title, which an earlier rule has already held
    /// to a smaller bound. A description may be of any length from the least
    /// on.
    pub proof fn lemma_description_never_too_big(
        product_id: Seq<char>,
        business_id: Seq<char>,
        title: Seq<char>,
        description: Seq<char>,
        image_url: Seq<char>,
        unformatted_price: Seq<char>,
        product_tags: Seq<Seq<char>>,
    )
        ensures
            Self::spec_create(
                product_id,
                business_id,
                title,
                description,
                image_url,
                unformatted_price,
                product_tags,
            ) != Err::<ProductView, Seq<char>>(DESCRIPTION_TOO_BIG@),
    {
        let rules = Self::rules(
            product_id,
            business_id,
            title,
            description,
            image_url,
            unformatted_price,
        );
        if first_failure(rules) is Some {
            let k = lemma_failure_has_earliest_rule(rules);
            assert(0 <= k < 8);
            if k == 6 {
                assert(rules[4].passes);
            }
            lemma_product_reasons_differ();
        }
    }

    /// A product that `create` returns holds every text as it was given, the
    /// tags in the order given, and as its price the text derived from
    /// `unformatted_price`.
    pub proof fn lemma_create_keeps_fields(
        product_id: Seq<char>,
        business_id: Seq<char>,
        title: Seq<char>,
        description: Seq<char>,
        image_url: Seq<char>,
        unformatted_price: Seq<char>,
        product_tags: Seq<Seq<char>>,
    )
        ensures
            Self::spec_create(
                product_id,
                business_id,
                title,
                description,
                image_url,
                unformatted_price,
                product_tags,
            ) matches Ok(product) ==> {
                &&& product.product_id == product_id
                &&& product.business_id == business_id
                &&& product.title == title
                &&& product.description == description
                &&& product.image_url == image_url
                &&& product.unformatted_price == unformatted_price
                &&& product.product_tags == product_tags
                &&& brl_price_text(unformatted_price) == Some(product.price)
            },
    {
        Self::lemma_create_succeeds_iff_rules_pass(
            product_id,
            business_id,
            title,
            description,
            image_url,
            unformatted_price,
            product_tags,
        );
    }

    /// Assembles a product from the given texts without checking any of them.
    /// The tags keep their order.
    pub fn new(
        product_id: &str,
        business_id: &str,
        title: &str,
        description: &str,
        image_url: &str,
        price: &str,
        unformatted_price: &str,
        product_tags: Vec<&str>,
    ) -> (product: Product)
        ensures
            product@ == Self::spec_new(
                product_id@,
                business_id@,
                title@,
                description@,
                image_url@,
                price@,
                unformatted_price@,
                borrowed_texts(product_tags@),
            ),
            product@.product_tags.len() == product_tags@.len(),
            forall|i: int|
                0 <= i < product_tags@.len() ==> #[trigger] product@.product_tags[i]
                    == product_tags@[i]@,
    {
        Product {
            product_id: to_owned_text(product_id),
            business_id: to_owned_text(business_id),
            title: to_owned_text(title),
            description: to_owned_text(description),
            image_url: to_owned_text(image_url),
            price: to_owned_text(price),
            unformatted_price: to_owned_text(unformatted_price),
            product_tags: to_owned_texts(&product_tags),
        }
    }

    /// Checks the rules of a product in table order and reports the reason of
    /// the first that fails; where all pass, assembles the product, with the
    /// price text derived from `unformatted_price`.
    pub fn create(
        product_id: &str,
        business_id: &str,
        title: &str,
        description: &str,
        image_url: &str,
        unformatted_price: &str,
        product_tags: Vec<&str>,
    ) -> (outcome: Result<Product, &'static str>)
        ensures
            ({
                let answer = Self::spec_create(
                    product_id@,
                    business_id@,
                    title@,
                    description@,
                    image_url@,
                    unformatted_price@,
                    borrowed_texts(product_tags@),
                );
                match outcome {
                    Ok(product) => answer == Ok::<ProductView, Seq<char>>(product@),
                    Err(reason) => answer == Err::<ProductView, Seq<char>>(reason@),
                }
            }),
    {
        let ghost rules = Self::rules(
            product_id@,
            business_id@,
            title@,
            description@,
            image_url@,
            unformatted_price@,
        );
        if !is_uuid(product_id) {
            proof {
                lemma_reports_earliest_failure(rules, 0);
            }
            return Err(INVALID_UUID);
        }
        if !is_uuid(business_id) {
            proof {
                lemma_reports_earliest_failure(rules, 1);
            }
            return Err(INVALID_BUSINESS_UUID);
        }
        if !is_url(image_url) {
            proof {
                lemma_reports_earliest_failure(rules, 2);
            }
            return Err(INVALID_URL);
        }
        let title_len = text_len(title);
        if title_len < MIN_TITLE_LEN {
            proof {
                lemma_reports_earliest_failure(rules, 3);
            }
            return Err(TITLE_TOO_SHORT);
        } else if title_len > MAX_TITLE_LEN {
            proof {
                lemma_reports_earliest_failure(rules, 4);
            }
            return Err(TITLE_TOO_BIG);
        }
        if text_len(description) < MIN_DESCRIPTION_LEN {
            proof {
                lemma_reports_earliest_failure(rules, 5);
            }
            return Err(DESCRIPTION_TOO_SHORT);
        } else if title_len > MAX_DESCRIPTION_LEN {
            proof {
                lemma_reports_earliest_failure(rules, 6);
            }
            return Err(DESCRIPTION_TOO_BIG);
        }
        if !has_amount_shape(unformatted_price) {
            proof {
                lemma_reports_earliest_failure(rules, 7);
            }
            return Err(INVALID_AMOUNT);
        }
        match brl_price(unformatted_price) {
            None => {
                proof {
                    lemma_reports_earliest_failure(rules, 7);
                }
                Err(INVALID_AMOUNT)
            },
            Some(price) => {
                proof {
                    lemma_accepted_iff_all_pass(rules);
                }
                Ok(
                    Product::new(
                        product_id,
                        business_id,
                        title,
                        description,
                        image_url,
                        price.as_str(),
                        unformatted_price,
                        product_tags,
                    ),
                )
            },
        }
    }
}

} // verus!
