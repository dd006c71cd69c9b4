//! The decisions behind the two registration requests: which entities are
//! created from a request, under which identifiers, and what is answered.
//! The handler keeps nothing between requests.

use crate::business::Business;
use crate::formats::{
    email_text, fresh_uuid, hyphenated_uuid, phone_text, url_text, uuid_text,
};
use crate::reasons::{INVALID_EMAIL, INVALID_PHONE, INVALID_URL};
use crate::rules::{all_pass, first_failure, lemma_accepted_iff_all_pass, Rule};
use crate::texts::{borrowed_texts, owned_texts};
use crate::user::User;
use vstd::prelude::*;

verus! {

/// A request to register a user.
#[derive(Debug, PartialEq)]
pub struct UserData {
    pub email: String,
    pub phone: String,
    pub password: String,
    pub address: String,
    pub image_url: String,
}

/// A request to register a business together with its user.
#[derive(Debug, PartialEq)]
pub struct BusinessData {
    pub email: String,
    pub phone: String,
    pub password: String,
    pub address: String,
    pub image_url: String,
}

/// The answer to a user registration.
#[derive(Debug, PartialEq)]
pub struct UserResponseData {
    pub user_id: String,
    pub email: String,
    pub phone: String,
    pub address: String,
    pub image_url: String,
    pub roles: Vec<String>,
}

/// The answer to a business registration.
#[derive(Debug, PartialEq)]
pub struct BusinessResponseData {
    pub user_id: String,
    pub business_id: String,
    pub email: String,
    pub phone: String,
    pub address: String,
    pub image_url: String,
    pub roles: Vec<String>,
}

/// The five texts of a registration request.
pub struct RequestView {
    pub email: Seq<char>,
    pub phone: Seq<char>,
    pub password: Seq<char>,
    pub address: Seq<char>,
    pub image_url: Seq<char>,
}

/// What the answer to a user registration holds.
pub struct UserResponseView {
    pub user_id: Seq<char>,
    pub email: Seq<char>,
    pub phone: Seq<char>,
    pub address: Seq<char>,
    pub image_url: Seq<char>,
    pub roles: Seq<Seq<char>>,
}

/// What the answer to a business registration holds.
pub struct BusinessResponseView {
    pub user_id: Seq<char>,
    pub business_id: Seq<char>,
    pub email: Seq<char>,
    pub phone: Seq<char>,
    pub address: Seq<char>,
    pub image_url: Seq<char>,
    pub roles: Seq<Seq<char>>,
}

impl View for UserData {
    type V = RequestView;

    open spec fn view(&self) -> RequestView {
        RequestView {
            email: self.email@,
            phone: self.phone@,
            password: self.password@,
            address: self.address@,
            image_url: self.image_url@,
        }
    }
}

impl View for BusinessData {
    type V = RequestView;

    open spec fn view(&self) -> RequestView {
        RequestView {
            email: self.email@,
            phone: self.phone@,
            password: self.password@,
            address: self.address@,
            image_url: self.image_url@,
        }
    }
}

impl View for UserResponseData {
    type V = UserResponseView;

    open spec fn view(&self) -> UserResponseView {
        UserResponseView {
            user_id: self.user_id@,
            email: self.email@,
            phone: self.phone@,
            address: self.address@,
            image_url: self.image_url@,
            roles: owned_texts(self.roles@),
        }
    }
}

impl View for BusinessResponseData {
    type V = BusinessResponseView;

    open spec fn view(&self) -> BusinessResponseView {
        BusinessResponseView {
            user_id: self.user_id@,
            business_id: self.business_id@,
            email: self.email@,
            phone: self.phone@,
            address: self.address@,
            image_url: self.image_url@,
            roles: owned_texts(self.roles@),
        }
    }
}

/// The roles of a user registered on its own.
pub open spec fn user_roles() -> Seq<Seq<char>> {
    seq!["user"@]
}

/// The roles of a user registered with a business.
pub open spec fn business_roles() -> Seq<Seq<char>> {
    seq!["business"@]
}

/// The rules that a request must pass whatever identifier it is given, in
/// the order in which they are checked.
pub open spec fn request_rules(request: RequestView) -> Seq<Rule> {
    seq![
        Rule { passes: email_text(request.email), reason: INVALID_EMAIL@ },
        Rule { passes: phone_text(request.phone), reason: INVALID_PHONE@ },
        Rule { passes: url_text(request.image_url), reason: INVALID_URL@ },
    ]
}

/// What a user registration answers under the identifier `user_id`: the
/// reason for which the user is refused, or the fields of the user created.
/// The password goes into the user as its password hash, unhashed, and is
/// not part of the answer; the user is unconfirmed and has the role `user`.
pub open spec fn spec_register_user(user_id: Seq<char>, request: RequestView) -> Result<
    UserResponseView,
    Seq<char>,
> {
    match User::spec_create(
        user_id,
        request.email,
        request.phone,
        request.address,
        request.image_url,
        request.password,
        false,
        user_roles(),
    ) {
        Ok(user) => Ok(
            UserResponseView {
                user_id: user.user_id,
                email: user.email,
                phone: user.phone,
                address: user.address,
                image_url: user.image_url,
                roles: user.roles,
            },
        ),
        Err(reason) => Err(reason),
    }
}

/// What a business registration answers under the identifiers `user_id` and
/// `business_id`: the reason for which the user is refused; else the reason
/// for which the business of that user, without products or tags, is
/// refused; else the fields of both. The user has the role `business`.
pub open spec fn spec_register_business(
    user_id: Seq<char>,
    business_id: Seq<char>,
    request: RequestView,
) -> Result<BusinessResponseView, Seq<char>> {
    match User::spec_create(
        user_id,
        request.email,
        request.phone,
        request.address,
        request.image_url,
        request.password,
        false,
        business_roles(),
    ) {
        Err(reason) => Err(reason),
        Ok(user) => match Business::spec_create(business_id, user_id, Seq::empty(), Seq::empty()) {
            Err(reason) => Err(reason),
            Ok(business) => Ok(
                BusinessResponseView {
                    user_id: business.user_id,
                    business_id: business.business_id,
                    email: user.email,
                    phone: user.phone,
                    address: user.address,
                    image_url: user.image_url,
                    roles: user.roles,
                },
            ),
        },
    }
}

/// Under an identifier that is a UUID, a user registration is decided by the
/// request alone: it is refused for the first of the request's rules that
/// fails, and else answers the request's own texts.
pub proof fn lemma_register_user_with_uuid(user_id: Seq<char>, request: RequestView)
    requires
        uuid_text(user_id),
    ensures
        spec_register_user(user_id, request) == match first_failure(request_rules(request)) {
            Some(reason) => Err::<UserResponseView, Seq<char>>(reason),
            None => Ok::<UserResponseView, Seq<char>>(
                UserResponseView {
                    user_id,
                    email: request.email,
                    phone: request.phone,
                    address: request.address,
                    image_url: request.image_url,
                    roles: user_roles(),
                },
            ),
        },
{
    let rules = User::rules(user_id, request.email, request.phone, request.image_url);
    assert(rules.drop_first() =~= request_rules(request));
}

/// Under identifiers that are UUIDs, a business registration is decided by
/// the request alone in the same way: the business itself is never refused.
pub proof fn lemma_register_business_with_uuids(
    user_id: Seq<char>,
    business_id: Seq<char>,
    request: RequestView,
)
    requires
        uuid_text(user_id),
        uuid_text(business_id),
    ensures
        spec_register_business(user_id, business_id, request) == match first_failure(
            request_rules(request),
        ) {
            Some(reason) => Err::<BusinessResponseView, Seq<char>>(reason),
            None => Ok::<BusinessResponseView, Seq<char>>(
                BusinessResponseView {
                    user_id,
                    business_id,
                    email: request.email,
                    phone: request.phone,
                    address: request.address,
                    image_url: request.image_url,
                    roles: business_roles(),
                },
            ),
        },
{
    let rules = User::rules(user_id, request.email, request.phone, request.image_url);
    assert(rules.drop_first() =~= request_rules(request));
    let ids = Business::rules(business_id, user_id, Seq::empty());
    assert(ids.len() == 2);
    assert(all_pass(ids));
    lemma_accepted_iff_all_pass(ids);
}

/// Registers a user under the identifier `user_id`.
pub fn register_user(user_id: &str, request: &UserData) -> (outcome: Result<
    UserResponseData,
    &'static str,
>)
    ensures
        match outcome {
            Ok(response) => spec_register_user(user_id@, request@) == Ok::<
                UserResponseView,
                Seq<char>,
            >(response@),
            Err(reason) => spec_register_user(user_id@, request@) == Err::<
                UserResponseView,
                Seq<char>,
            >(reason@),
        },
{
    let roles: Vec<&str> = vec!["user"];
    assert(borrowed_texts(roles@) =~= user_roles());
    match User::create(
        user_id,
        request.email.as_str(),
        request.phone.as_str(),
        request.address.as_str(),
        request.image_url.as_str(),
        request.password.as_str(),
        false,
        roles,
    ) {
        Ok(user) => Ok(
            UserResponseData {
                user_id: user.user_id,
                email: user.email,
                phone: user.phone,
                address: user.address,
                image_url: user.image_url,
                roles: user.roles,
            },
        ),
        Err(reason) => Err(reason),
    }
}

/// Registers a user with a business under the identifiers `user_id` and
/// `business_id`. Where the business is refused nothing is undone: the user
/// was only ever a value in this call.
pub fn register_business(user_id: &str, business_id: &str, request: &BusinessData) -> (outcome:
    Result<BusinessResponseData, &'static str>)
    ensures
        match outcome {
            Ok(response) => spec_register_business(user_id@, business_id@, request@) == Ok::<
                BusinessResponseView,
                Seq<char>,
            >(response@),
            Err(reason) => spec_register_business(user_id@, business_id@, request@) == Err::<
                BusinessResponseView,
                Seq<char>,
            >(reason@),
        },
{
    let roles: Vec<&str> = vec!["business"];
    assert(borrowed_texts(roles@) =~= business_roles());
    let user = match User::create(
        user_id,
        request.email.as_str(),
        request.phone.as_str(),
        request.address.as_str(),
        request.image_url.as_str(),
        request.password.as_str(),
        false,
        roles,
    ) {
        Ok(user) => user,
        Err(reason) => {
            return Err(reason);
        },
    };
    let products_id: Vec<&str> = Vec::new();
    let business_tags: Vec<&str> = Vec::new();
    assert(borrowed_texts(products_id@) =~= Seq::<Seq<char>>::empty());
    assert(borrowed_texts(business_tags@) =~= Seq::<Seq<char>>::empty());
    let business = match Business::create(business_id, user_id, products_id, business_tags) {
        Ok(business) => business,
        Err(reason) => {
            return Err(reason);
        },
    };
    Ok(
        BusinessResponseData {
            user_id: business.user_id,
            business_id: business.business_id,
            email: user.email,
            phone: user.phone,
            address: user.address,
            image_url: user.image_url,
            roles: user.roles,
        },
    )
}

/// Registers a user under a fresh identifier. The identifier is drawn at
/// random, so only this much holds of every outcome: the request is refused
/// for the first of its rules that fails, whatever was drawn; else the answer
/// carries the request's texts, the role `user` and an identifier that is a
/// UUID in its hyphenated form.
pub fn create_user(request: &UserData) -> (outcome: Result<UserResponseData, &'static str>)
    ensures
        match outcome {
            Ok(response) => {
                &&& first_failure(request_rules(request@)) is None
                &&& hyphenated_uuid(response@.user_id)
                &&& spec_register_user(response@.user_id, request@) == Ok::<
                    UserResponseView,
                    Seq<char>,
                >(response@)
            },
            Err(reason) => first_failure(request_rules(request@)) == Some(reason@),
        },
{
    let user_id = fresh_uuid();
    proof {
        lemma_register_user_with_uuid(user_id@, request@);
    }
    register_user(user_id.as_str(), request)
}

/// Registers a user with a business under two fresh identifiers. The
/// identifiers are drawn at random, so only this much holds of every
/// outcome: the request is refused for the first of its rules that fails,
/// whatever was drawn; else the answer carries the request's texts, the role
/// `business` and two identifiers that are UUIDs in their hyphenated form.
pub fn create_business(request: &BusinessData) -> (outcome: Result<
    BusinessResponseData,
    &'static str,
>)
    ensures
        match outcome {
            Ok(response) => {
                &&& first_failure(request_rules(request@)) is None
                &&& hyphenated_uuid(response@.user_id)
                &&& hyphenated_uuid(response@.business_id)
                &&& spec_register_business(response@.user_id, response@.business_id, request@)
                    == Ok::<BusinessResponseView, Seq<char>>(response@)
            },
            Err(reason) => first_failure(request_rules(request@)) == Some(reason@),
        },
{
    let user_id = fresh_uuid();
    let business_id = fresh_uuid();
    proof {
        lemma_register_business_with_uuids(user_id@, business_id@, request@);
    }
    register_business(user_id.as_str(), business_id.as_str(), request)
}

} // verus!
