//! Users of the marketplace.

use crate::formats::{
    email_text, is_email, is_phone, is_url, is_uuid, phone_text, url_text, uuid_text,
};
use crate::reasons::{INVALID_EMAIL, INVALID_PHONE, INVALID_URL, INVALID_UUID};
use crate::rules::{
    all_pass, first_failure, lemma_accepted_iff_all_pass, lemma_reports_earliest_failure, Rule,
};
use crate::texts::{borrowed_texts, owned_texts, to_owned_text, to_owned_texts};
use vstd::prelude::*;

verus! {

/// A user. `address`, `password_hash` and `roles` are kept as given; the
/// other texts are checked by `create` and by the updates. A user is never
/// changed in place: an update answers a new user.
#[derive(Debug, PartialEq)]
pub struct User {
    pub user_id: String,
    pub email: String,
    pub phone: String,
    pub address: String,
    pub image_url: String,
    pub password_hash: String,
    pub confirmed: bool,
    pub roles: Vec<String>,
}

/// What a user holds, as plain sequences of characters.
pub struct UserView {
    pub user_id: Seq<char>,
    pub email: Seq<char>,
    pub phone: Seq<char>,
    pub address: Seq<char>,
    pub image_url: Seq<char>,
    pub password_hash: Seq<char>,
    pub confirmed: bool,
    pub roles: Seq<Seq<char>>,
}

impl View for User {
    type V = UserView;

    open spec fn view(&self) -> UserView {
        UserView {
            user_id: self.user_id@,
            email: self.email@,
            phone: self.phone@,
            address: self.address@,
            image_url: self.image_url@,
            password_hash: self.password_hash@,
            confirmed: self.confirmed,
            roles: owned_texts(self.roles@),
        }
    }
}

impl Clone for User {
    fn clone(&self) -> (copy: User)
        ensures
            copy@ == self@,
    {
        let roles = self.roles.clone();
        assert(owned_texts(roles@) =~= owned_texts(self.roles@));
        User {
            user_id: self.user_id.clone(),
            email: self.email.clone(),
            phone: self.phone.clone(),
            address: self.address.clone(),
            image_url: self.image_url.clone(),
            password_hash: self.password_hash.clone(),
            confirmed: self.confirmed,
            roles,
        }
    }
}

impl Default for User {
    fn default() -> (user: User)
        ensures
            user@ == User::spec_new(
                Seq::empty(),
                Seq::empty(),
                Seq::empty(),
                Seq::empty(),
                Seq::empty(),
                Seq::empty(),
                false,
                Seq::empty(),
            ),
    {
        let roles: Vec<String> = Vec::new();
        assert(owned_texts(roles@) =~= Seq::<Seq<char>>::empty());
        User {
            user_id: String::new(),
            email: String::new(),
            phone: String::new(),
            address: String::new(),
            image_url: String::new(),
            password_hash: String::new(),
            confirmed: false,
            roles,
        }
    }
}

impl User {
    /// The user that `new` assembles from these values.
    pub open spec fn spec_new(
        user_id: Seq<char>,
        email: Seq<char>,
        phone: Seq<char>,
        address: Seq<char>,
        image_url: Seq<char>,
        password_hash: Seq<char>,
        confirmed: bool,
        roles: Seq<Seq<char>>,
    ) -> UserView {
        UserView { user_id, email, phone, address, image_url, password_hash, confirmed, roles }
    }

    /// The validation table of a user, evaluated on these texts.
    pub open spec fn rules(
        user_id: Seq<char>,
        email: Seq<char>,
        phone: Seq<char>,
        image_url: Seq<char>,
    ) -> Seq<Rule> {
        seq![
            Rule { passes: uuid_text(user_id), reason: INVALID_UUID@ },
            Rule { passes: email_text(email), reason: INVALID_EMAIL@ },
            Rule { passes: phone_text(phone), reason: INVALID_PHONE@ },
            Rule { passes: url_text(image_url), reason: INVALID_URL@ },
        ]
    }

    /// What `create` answers on these values: the reason of the first rule
    /// that fails, or else the user that `new` assembles from them.
    pub open spec fn spec_create(
        user_id: Seq<char>,
        email: Seq<char>,
        phone: Seq<char>,
        address: Seq<char>,
        image_url: Seq<char>,
        password_hash: Seq<char>,
        confirmed: bool,
        roles: Seq<Seq<char>>,
    ) -> Result<UserView, Seq<char>> {
        match first_failure(Self::rules(user_id, email, phone, image_url)) {
            Some(reason) => Err(reason),
            None => Ok(
                Self::spec_new(
                    user_id,
                    email,
                    phone,
                    address,
                    image_url,
                    password_hash,
                    confirmed,
                    roles,
                ),
            ),
        }
    }

    /// What `update_email` answers for a user `before`: the email rule of the
    /// table is checked again, with its reason.
    pub open spec fn spec_update_email(before: UserView, email: Seq<char>) -> Result<
        UserView,
        Seq<char>,
    > {
        if email_text(email) {
            Ok(UserView { email, ..before })
        } else {
            Err(INVALID_EMAIL@)
        }
    }

    /// What `update_phone` answers for a user `before`: the phone rule of the
    /// table is checked again, with its reason.
    pub open spec fn spec_update_phone(before: UserView, phone: Seq<char>) -> Result<
        UserView,
        Seq<char>,
    > {
        if phone_text(phone) {
            Ok(UserView { phone, ..before })
        } else {
            Err(INVALID_PHONE@)
        }
    }

    /// `create` succeeds exactly when every rule of the user's table passes,
    /// and what it then returns is what `new` assembles from the same values.
    pub proof fn lemma_create_succeeds_iff_rules_pass(
        user_id: Seq<char>,
        email: Seq<char>,
        phone: Seq<char>,
        address: Seq<char>,
        image_url: Seq<char>,
        password_hash: Seq<char>,
        confirmed: bool,
        roles: Seq<Seq<char>>,
    )
        ensures
            ({
                let answer = Self::spec_create(
                    user_id,
                    email,
                    phone,
                    address,
                    image_url,
                    password_hash,
                    confirmed,
                    roles,
                );
                let assembled = Self::spec_new(
                    user_id,
                    email,
                    phone,
                    address,
                    image_url,
                    password_hash,
                    confirmed,
                    roles,
                );
                &&& answer is Ok <==> all_pass(Self::rules(user_id, email, phone, image_url))
                &&& answer is Ok <==> uuid_text(user_id) && email_text(email) && phone_text(phone)
                    && url_text(image_url)
                &&& answer is Ok ==> answer == Ok::<UserView, Seq<char>>(assembled)
            }),
    {
        let rules = Self::rules(user_id, email, phone, image_url);
        lemma_accepted_iff_all_pass(rules);
        if !all_pass(rules) {
            let k = choose|k: int| 0 <= k < rules.len() && !(#[trigger] rules[k]).passes;
            assert(k == 0 || k == 1 || k == 2 || k == 3);
        } else {
            assert(rules[0].passes && rules[1].passes && rules[2].passes && rules[3].passes);
        }
    }

    /// Where several rules of the user's table fail at once, `create` reports
    /// the reason of the one that comes first in the table.
    pub proof fn lemma_create_reports_first_failure(
        user_id: Seq<char>,
        email: Seq<char>,
        phone: Seq<char>,
        address: Seq<char>,
        image_url: Seq<char>,
        password_hash: Seq<char>,
        confirmed: bool,
        roles: Seq<Seq<char>>,
    )
        ensures
            ({
                let answer = Self::spec_create(
                    user_id,
                    email,
                    phone,
                    address,
                    image_url,
                    password_hash,
                    confirmed,
                    roles,
                );
                let refused = |reason: Seq<char>| answer == Err::<UserView, Seq<char>>(reason);
                &&& !uuid_text(user_id) ==> refused(INVALID_UUID@)
                &&& uuid_text(user_id) && !email_text(email) ==> refused(INVALID_EMAIL@)
                &&& uuid_text(user_id) && email_text(email) && !phone_text(phone) ==> refused(
                    INVALID_PHONE@,
                )
                &&& uuid_text(user_id) && email_text(email) && phone_text(phone) && !url_text(
                    image_url,
                ) ==> refused(INVALID_URL@)
            }),
    {
        let rules = Self::rules(user_id, email, phone, image_url);
        if !uuid_text(user_id) {
            lemma_reports_earliest_failure(rules, 0);
        } else if !email_text(email) {
            lemma_reports_earliest_failure(rules, 1);
        } else if !phone_text(phone) {
            lemma_reports_earliest_failure(rules, 2);
        } else if !url_text(image_url) {
            lemma_reports_earliest_failure(rules, 3);
        }
    }

    /// A user that `create` returns holds every value as it was given, the
    /// roles in the order given.
    pub proof fn lemma_create_keeps_fields(
        user_id: Seq<char>,
        email: Seq<char>,
        phone: Seq<char>,
        address: Seq<char>,
        image_url: Seq<char>,
        password_hash: Seq<char>,
        confirmed: bool,
        roles: Seq<Seq<char>>,
    )
        ensures
            Self::spec_create(
                user_id,
                email,
                phone,
                address,
                image_url,
                password_hash,
                confirmed,
                roles,
            ) matches Ok(user) ==> {
                &&& user.user_id == user_id
                &&& user.email == email
                &&& user.phone == phone
                &&& user.address == address
                &&& user.image_url == image_url
                &&& user.password_hash == password_hash
                &&& user.confirmed == confirmed
                &&& user.roles == roles
            },
    {
    }

    /// An update of the email succeeds exactly when the new address is valid,
    /// and then changes nothing but the email.
    pub proof fn lemma_update_email_keeps_other_fields(before: UserView, email: Seq<char>)
        ensures
            Self::spec_update_email(before, email) is Ok <==> email_text(email),
            Self::spec_update_email(before, email) matches Ok(after) ==> {
                &&& after.email == email
                &&& after.user_id == before.user_id
                &&& after.phone == before.phone
                &&& after.address == before.address
                &&& after.image_url == before.image_url
                &&& after.password_hash == before.password_hash
                &&& after.confirmed == before.confirmed
                &&& after.roles == before.roles
            },
    {
    }

    /// An update of the phone number succeeds exactly when the new number is
    /// valid, and then changes nothing but the phone number.
    pub proof fn lemma_update_phone_keeps_other_fields(before: UserView, phone: Seq<char>)
        ensures
            Self::spec_update_phone(before, phone) is Ok <==> phone_text(phone),
            Self::spec_update_phone(before, phone) matches Ok(after) ==> {
                &&& after.phone == phone
                &&& after.user_id == before.user_id
                &&& after.email == before.email
                &&& after.address == before.address
                &&& after.image_url == before.image_url
                &&& after.password_hash == before.password_hash
                &&& after.confirmed == before.confirmed
                &&& after.roles == before.roles
            },
    {
    }

    /// Assembles a user from the given values without checking any of them.
    /// The roles keep their order.
    pub fn new(
        user_id: &str,
        email: &str,
        phone: &str,
        address: &str,
        image_url: &str,
        password_hash: &str,
        confirmed: bool,
        roles: Vec<&str>,
    ) -> (user: User)
        ensures
            user@ == Self::spec_new(
                user_id@,
                email@,
                phone@,
                address@,
                image_url@,
                password_hash@,
                confirmed,
                borrowed_texts(roles@),
            ),
            user@.roles.len() == roles@.len(),
            forall|i: int| 0 <= i < roles@.len() ==> #[trigger] user@.roles[i] == roles@[i]@,
    {
        User {
            user_id: to_owned_text(user_id),
            email: to_owned_text(email),
            phone: to_owned_text(phone),
            address: to_owned_text(address),
            image_url: to_owned_text(image_url),
            password_hash: to_owned_text(password_hash),
            confirmed,
            roles: to_owned_texts(&roles),
        }
    }

    /// Checks the rules of a user in table order and reports the reason of
    /// the first that fails; where all pass, assembles the user.
    pub fn create(
        user_id: &str,
        email: &str,
        phone: &str,
        address: &str,
        image_url: &str,
        password_hash: &str,
        confirmed: bool,
        roles: Vec<&str>,
    ) -> (outcome: Result<User, &'static str>)
        ensures
            ({
                let answer = Self::spec_create(
                    user_id@,
                    email@,
                    phone@,
                    address@,
                    image_url@,
                    password_hash@,
                    confirmed,
                    borrowed_texts(roles@),
                );
                match outcome {
                    Ok(user) => answer == Ok::<UserView, Seq<char>>(user@),
                    Err(reason) => answer == Err::<UserView, Seq<char>>(reason@),
                }
            }),
    {
        let ghost rules = Self::rules(user_id@, email@, phone@, image_url@);
        if !is_uuid(user_id) {
            proof {
                lemma_reports_earliest_failure(rules, 0);
            }
            return Err(INVALID_UUID);
        }
        if !is_email(email) {
            proof {
                lemma_reports_earliest_failure(rules, 1);
            }
            return Err(INVALID_EMAIL);
        }
        if !is_phone(phone) {
            proof {
                lemma_reports_earliest_failure(rules, 2);
            }
            return Err(INVALID_PHONE);
        }
        if !is_url(image_url) {
            proof {
                lemma_reports_earliest_failure(rules, 3);
            }
            return Err(INVALID_URL);
        }
        proof {
            lemma_accepted_iff_all_pass(rules);
        }
        Ok(User::new(user_id, email, phone, address, image_url, password_hash, confirmed, roles))
    }

    /// A copy of this user with `email` in place of its email, where `email`
    /// is a valid address; the reason otherwise.
    pub fn update_email(&self, email: &str) -> (outcome: Result<User, &'static str>)
        ensures
            outcome is Ok <==> email_text(email@),
            match outcome {
                Ok(user) => Self::spec_update_email(self@, email@) == Ok::<UserView, Seq<char>>(
                    user@,
                ),
                Err(reason) => Self::spec_update_email(self@, email@) == Err::<
                    UserView,
                    Seq<char>,
                >(reason@),
            },
    {
        if !is_email(email) {
            return Err(INVALID_EMAIL);
        }
        let mut user = self.clone();
        user.email = to_owned_text(email);
        Ok(user)
    }

    /// A copy of this user with `phone` in place of its phone number, where
    /// `phone` is a valid number; the reason otherwise.
    pub fn update_phone(&self, phone: &str) -> (outcome: Result<User, &'static str>)
        ensures
            outcome is Ok <==> phone_text(phone@),
            match outcome {
                Ok(user) => Self::spec_update_phone(self@, phone@) == Ok::<UserView, Seq<char>>(
                    user@,
                ),
                Err(reason) => Self::spec_update_phone(self@, phone@) == Err::<
                    UserView,
                    Seq<char>,
                >(reason@),
            },
    {
        if !is_phone(phone) {
            return Err(INVALID_PHONE);
        }
        let mut user = self.clone();
        user.phone = to_owned_text(phone);
        Ok(user)
    }

    /// A copy of this user with `address` in place of its address. No address
    /// is refused.
    pub fn update_address(&self, address: &str) -> (outcome: Result<User, &'static str>)
        ensures
            outcome matches Ok(user) && user@ == (UserView { address: address@, ..self@ }),
    {
        let mut user = self.clone();
        user.address = to_owned_text(address);
        Ok(user)
    }
}

} // verus!
