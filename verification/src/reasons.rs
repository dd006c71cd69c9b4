//! The reasons for which input is refused. A refusal carries one of these
//! texts and nothing else.

use vstd::prelude::*;

verus! {

/// A user's or a product's own identifier is not a UUID.
pub const INVALID_UUID: &'static str = "UUID is not valid";

/// An email address is not valid.
pub const INVALID_EMAIL: &'static str = "Email is not valid";

/// A phone number is not valid.
pub const INVALID_PHONE: &'static str = "Phone is invalid";

/// An image address is not a URL.
pub const INVALID_URL: &'static str = "URL is not valid";

/// The identifier of a product's business is not a UUID.
pub const INVALID_BUSINESS_UUID: &'static str = "Business UUID is not valid";

/// A title is too short.
pub const TITLE_TOO_SHORT: &'static str = "Too short title";

/// A title is too long.
pub const TITLE_TOO_BIG: &'static str = "Too big title";

/// A description is too short.
pub const DESCRIPTION_TOO_SHORT: &'static str = "Too short description";

/// Reported by the rule that bounds a description from above.
pub const DESCRIPTION_TOO_BIG: &'static str = "Too big description";

/// An unformatted price is not an amount of money.
pub const INVALID_AMOUNT: &'static str = "Amount not parsable";

/// One of the identifiers of a business is not a UUID.
pub const INVALID_ID: &'static str = "A ID is not a UUID";

/// The four reasons of a user's table differ from one another, so a reported
/// reason tells which rule failed.
pub proof fn lemma_user_reasons_differ()
    ensures
        INVALID_UUID@ != INVALID_EMAIL@,
        INVALID_UUID@ != INVALID_PHONE@,
        INVALID_UUID@ != INVALID_URL@,
        INVALID_EMAIL@ != INVALID_PHONE@,
        INVALID_EMAIL@ != INVALID_URL@,
        INVALID_PHONE@ != INVALID_URL@,
{
    reveal_strlit("UUID is not valid");
    reveal_strlit("Email is not valid");
    reveal_strlit("Phone is invalid");
    reveal_strlit("URL is not valid");
    assert(INVALID_UUID@.len() == 17);
    assert(INVALID_EMAIL@.len() == 18);
    assert(INVALID_PHONE@.len() == 16);
    assert(INVALID_URL@.len() == 16);
    assert(INVALID_PHONE@[0] != INVALID_URL@[0]);
}

/// The eight reasons of a product's table differ from one another.
pub proof fn lemma_product_reasons_differ()
    ensures
        INVALID_UUID@ != INVALID_BUSINESS_UUID@,
        INVALID_UUID@ != INVALID_URL@,
        INVALID_UUID@ != TITLE_TOO_SHORT@,
        INVALID_UUID@ != TITLE_TOO_BIG@,
        INVALID_UUID@ != DESCRIPTION_TOO_SHORT@,
        INVALID_UUID@ != DESCRIPTION_TOO_BIG@,
        INVALID_UUID@ != INVALID_AMOUNT@,
        INVALID_BUSINESS_UUID@ != INVALID_URL@,
        INVALID_BUSINESS_UUID@ != TITLE_TOO_SHORT@,
        INVALID_BUSINESS_UUID@ != TITLE_TOO_BIG@,
        INVALID_BUSINESS_UUID@ != DESCRIPTION_TOO_SHORT@,
        INVALID_BUSINESS_UUID@ != DESCRIPTION_TOO_BIG@,
        INVALID_BUSINESS_UUID@ != INVALID_AMOUNT@,
        INVALID_URL@ != TITLE_TOO_SHORT@,
        INVALID_URL@ != TITLE_TOO_BIG@,
        INVALID_URL@ != DESCRIPTION_TOO_SHORT@,
        INVALID_URL@ != DESCRIPTION_TOO_BIG@,
        INVALID_URL@ != INVALID_AMOUNT@,
        TITLE_TOO_SHORT@ != TITLE_TOO_BIG@,
        TITLE_TOO_SHORT@ != DESCRIPTION_TOO_SHORT@,
        TITLE_TOO_SHORT@ != DESCRIPTION_TOO_BIG@,
        TITLE_TOO_SHORT@ != INVALID_AMOUNT@,
        TITLE_TOO_BIG@ != DESCRIPTION_TOO_SHORT@,
        TITLE_TOO_BIG@ != DESCRIPTION_TOO_BIG@,
        TITLE_TOO_BIG@ != INVALID_AMOUNT@,
        DESCRIPTION_TOO_SHORT@ != DESCRIPTION_TOO_BIG@,
        DESCRIPTION_TOO_SHORT@ != INVALID_AMOUNT@,
        DESCRIPTION_TOO_BIG@ != INVALID_AMOUNT@,
{
    reveal_strlit("UUID is not valid");
    reveal_strlit("Business UUID is not valid");
    reveal_strlit("URL is not valid");
    reveal_strlit("Too short title");
    reveal_strlit("Too big title");
    reveal_strlit("Too short description");
    reveal_strlit("Too big description");
    reveal_strlit("Amount not parsable");
    assert(INVALID_UUID@.len() == 17);
    assert(INVALID_BUSINESS_UUID@.len() == 26);
    assert(INVALID_URL@.len() == 16);
    assert(TITLE_TOO_SHORT@.len() == 15);
    assert(TITLE_TOO_BIG@.len() == 13);
    assert(DESCRIPTION_TOO_SHORT@.len() == 21);
    assert(DESCRIPTION_TOO_BIG@.len() == 19);
    assert(INVALID_AMOUNT@.len() == 19);
    assert(DESCRIPTION_TOO_BIG@[0] != INVALID_AMOUNT@[0]);
}

} // verus!
