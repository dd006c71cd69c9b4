use servercore::Business;
use servercore::Order;
use servercore::Product;
use servercore::User;

const ID: &str = "25650673-c3e8-4cbb-a7bd-e27d268157b8";

#[test]
fn test_new_user() {
    let user = User::new(
        "XD",
        "email",
        "3091u2304",
        "dominguinhos",
        "http://image.url.com",
        "XDXD",
        false,
        vec!["admin"],
    );
    assert_eq!(
        User {
            user_id: "XD".to_string(),
            email: "email".to_string(),
            phone: "3091u2304".to_string(),
            address: "dominguinhos".to_string(),
            image_url: "http://image.url.com".to_string(),
            password_hash: "XDXD".to_string(),
            confirmed: false,
            roles: vec!["admin".to_string()],
        },
        user,
        "User new function is working correctly"
    )
}

#[test]
fn test_create_user() {
    let user = User::create(
        "25650673-c3e8-4cbb-a7bd-e27d268157b8",
        "email@example.com",
        "+5521965237969",
        "Rua Dominguinhos",
        "http://image.url.com",
        "XDXD",
        false,
        vec!["admin"],
    )
    .is_ok();
    assert!(user, "User create function is working correctly");
}

#[test]
fn update_email_user() {
    let user = User::create(
        "25650673-c3e8-4cbb-a7bd-e27d268157b8",
        "email@example.com",
        "+5521965237969",
        "Rua Dominguinhos",
        "http://image.url.com",
        "XDXD",
        false,
        vec!["admin"],
    )
    .unwrap();
    let updated_user = user.update_email("email@example2.com");
    assert!(updated_user.is_ok(), "User email updated successfully")
}

#[test]
fn test_new_product() {
    let product = Product::new(
        "09320481032",
        "102938409128305",
        "aiowjefaieorf",
        "oiewroaer",
        "oijeaij",
        "2000",
        "2000",
        vec!["oaiewjf"],
    );
    assert_eq!(
        product,
        Product {
            product_id: "09320481032".to_string(),
            business_id: "102938409128305".to_string(),
            title: "aiowjefaieorf".to_string(),
            description: "oiewroaer".to_string(),
            image_url: "oijeaij".to_string(),
            price: "2000".to_string(),
            unformatted_price: "2000".to_string(),
            product_tags: vec!["oaiewjf".to_string()]
        }
    );
}

#[test]
fn test_create_product() {
    let product = Product::create(
        "25650673-c3e8-4cbb-a7bd-e27d268157b8",
        "25650673-c3e8-4cbb-a7bd-e27d268157b8",
        "aoeirojfiearg",
        "oaiejriearg",
        "http://image.com",
        "2000",
        vec!["fiejroa"],
    )
    .is_ok();
    assert!(product, "Product create function is working correctly");
}

#[test]
fn test_new_business() {
    let business = Business::new(
        "25650673-c3e8-4cbb-a7bd-e27d268157b8",
        "1029340918",
        vec!["01239041"],
        vec!["hamburguer"],
    );
    assert_eq!(
        business,
        Business {
            business_id: "25650673-c3e8-4cbb-a7bd-e27d268157b8".to_string(),
            user_id: "1029340918".to_string(),
            products_id: vec!["01239041".to_string()],
            business_tags: vec!["hamburguer".to_string()],
        }
    );
}

#[test]
fn test_create_business() {
    let business = Business::create(
        "25650673-c3e8-4cbb-a7bd-e27d268157b8",
        "25650673-c3e8-4cbb-a7bd-e27d268157b8",
        vec!["25650673-c3e8-4cbb-a7bd-e27d268157b8"],
        vec!["hamburguer"],
    )
    .is_ok();
    assert!(business, "Business struct created");
}

#[test]
fn user_with_malformed_id_is_refused_for_its_id() {
    let outcome = User::create(
        "not-a-uuid",
        "a@b.com",
        "+5521999999999",
        "Rua Dominguinhos",
        "http://x.com",
        "pw",
        false,
        vec!["user"],
    );
    assert_eq!(outcome, Err("UUID is not valid"));
}

#[test]
fn user_with_valid_fields_is_created_unconfirmed() {
    let user = User::create(
        ID,
        "a@b.com",
        "+5521999999999",
        "Rua Dominguinhos",
        "http://x.com",
        "pw",
        false,
        vec!["user"],
    )
    .unwrap();
    assert!(!user.confirmed);
    assert_eq!(user.roles, vec!["user".to_string()]);
}

#[test]
fn product_with_two_byte_title_is_refused_as_too_short() {
    let outcome = Product::create(
        ID,
        ID,
        "hi",
        "a valid enough description",
        "http://x.com",
        "2000",
        vec![],
    );
    assert_eq!(outcome, Err("Too short title"));
}

#[test]
fn business_with_malformed_second_product_is_refused() {
    let outcome = Business::create(ID, ID, vec![ID, "bad-id"], vec![]);
    assert_eq!(outcome, Err("A ID is not a UUID"));
}

#[test]
fn created_user_holds_every_field_as_given() {
    let user = User::create(
        ID,
        "email@example.com",
        "+5521965237969",
        "Rua Dominguinhos",
        "http://image.url.com",
        "XDXD",
        true,
        vec!["admin", "user", "admin"],
    )
    .unwrap();
    assert_eq!(
        user,
        User {
            user_id: ID.to_string(),
            email: "email@example.com".to_string(),
            phone: "+5521965237969".to_string(),
            address: "Rua Dominguinhos".to_string(),
            image_url: "http://image.url.com".to_string(),
            password_hash: "XDXD".to_string(),
            confirmed: true,
            roles: vec!["admin".to_string(), "user".to_string(), "admin".to_string()],
        }
    );
}

#[test]
fn created_user_equals_new_user_of_the_same_fields() {
    let created = User::create(
        ID,
        "email@example.com",
        "+5521965237969",
        "",
        "http://image.url.com",
        "",
        false,
        vec![],
    )
    .unwrap();
    let assembled = User::new(
        ID,
        "email@example.com",
        "+5521965237969",
        "",
        "http://image.url.com",
        "",
        false,
        vec![],
    );
    assert_eq!(created, assembled);
}

#[test]
fn user_rules_are_reported_in_table_order() {
    let create = |id: &str, email: &str, phone: &str, url: &str| {
        User::create(id, email, phone, "address", url, "hash", false, vec!["user"])
            .map(|_| ())
    };
    let email = "a@b.com";
    let phone = "+5521999999999";
    let url = "http://x.com";
    assert_eq!(create(ID, email, phone, url), Ok(()));
    assert_eq!(create("x", "x", "x", "x"), Err("UUID is not valid"));
    assert_eq!(create(ID, "x", "x", "x"), Err("Email is not valid"));
    assert_eq!(create(ID, email, "x", "x"), Err("Phone is invalid"));
    assert_eq!(create(ID, email, phone, "x"), Err("URL is not valid"));
    assert_eq!(create("x", email, phone, url), Err("UUID is not valid"));
    assert_eq!(create(ID, "x", phone, url), Err("Email is not valid"));
    assert_eq!(create(ID, email, "x", url), Err("Phone is invalid"));
}

#[test]
fn user_address_password_and_roles_are_not_checked() {
    let user = User::create(
        ID,
        "a@b.com",
        "+5521999999999",
        "",
        "http://x.com",
        "",
        false,
        vec!["", "not a role"],
    )
    .unwrap();
    assert_eq!(user.address, "");
    assert_eq!(user.password_hash, "");
    assert_eq!(user.roles, vec!["".to_string(), "not a role".to_string()]);
}

#[test]
fn uuid_is_accepted_in_each_of_its_written_forms() {
    let create = |id: &str| Business::create(id, ID, vec![], vec![]).is_ok();
    assert!(create("25650673-c3e8-4cbb-a7bd-e27d268157b8"));
    assert!(create("25650673C3E84CBBA7BDE27D268157B8"));
    assert!(create("{25650673-c3e8-4cbb-a7bd-e27d268157b8}"));
    assert!(create("urn:uuid:25650673-c3e8-4cbb-a7bd-e27d268157b8"));
    assert!(create("URN:UUID:25650673-C3E8-4CBB-A7BD-E27D268157B8"));
    assert!(create("{25650673-C3E8-4cbb-a7bd-e27d268157b8}"));
    assert!(!create(""));
    assert!(!create("{25650673c3e84cbba7bde27d268157b8}"));
    assert!(!create("urn:uuid:25650673c3e84cbba7bde27d268157b8"));
    assert!(!create("uuid:urn:25650673-c3e8-4cbb-a7bd-e27d268157b8"));
    assert!(!create("25650673-c3e8-4cbb-a7bd-e27d268157b8 "));
    assert!(!create("25650673-c3e84-cbb-a7bd-e27d268157b8"));
    assert!(!create("25650673-c3e8-4cbb-a7bd-e27d268157bé"));
    assert!(!create("25650673-c3e8-4cbb-a7bd-e27d268157b"));
    assert!(!create("25650673-c3e8-4cbb-a7bd-e27d268157bg"));
    assert!(!create("25650673_c3e8_4cbb_a7bd_e27d268157b8"));
}

#[test]
fn update_email_replaces_only_the_email() {
    let user = User::new(
        "XD",
        "email",
        "3091u2304",
        "dominguinhos",
        "http://image.url.com",
        "XDXD",
        true,
        vec!["admin", "user"],
    );
    let updated = user.update_email("email@example2.com").unwrap();
    assert_eq!(
        updated,
        User {
            user_id: "XD".to_string(),
            email: "email@example2.com".to_string(),
            phone: "3091u2304".to_string(),
            address: "dominguinhos".to_string(),
            image_url: "http://image.url.com".to_string(),
            password_hash: "XDXD".to_string(),
            confirmed: true,
            roles: vec!["admin".to_string(), "user".to_string()],
        }
    );
    assert_eq!(user.email, "email");
}

#[test]
fn update_email_refuses_an_invalid_address() {
    let user = User::new("XD", "email", "1", "a", "u", "h", false, vec![]);
    assert_eq!(user.update_email("no-at-sign"), Err("Email is not valid"));
    assert_eq!(user.update_email(""), Err("Email is not valid"));
    assert_eq!(user.update_email("a @x.cz"), Err("Email is not valid"));
}

#[test]
fn update_phone_replaces_only_the_phone() {
    let user = User::new(
        "XD",
        "email",
        "3091u2304",
        "dominguinhos",
        "http://image.url.com",
        "XDXD",
        false,
        vec!["admin"],
    );
    let updated = user.update_phone("+14152370800").unwrap();
    assert_eq!(
        updated,
        User {
            user_id: "XD".to_string(),
            email: "email".to_string(),
            phone: "+14152370800".to_string(),
            address: "dominguinhos".to_string(),
            image_url: "http://image.url.com".to_string(),
            password_hash: "XDXD".to_string(),
            confirmed: false,
            roles: vec!["admin".to_string()],
        }
    );
}

#[test]
fn update_phone_refuses_with_the_reason_of_the_phone_rule() {
    let user = User::new(
        "XD",
        "email",
        "3091u2304",
        "dominguinhos",
        "http://image.url.com",
        "XDXD",
        false,
        vec!["admin"],
    );
    assert_eq!(user.update_phone("not-a-phone"), Err("Phone is invalid"));
    let created = User::create(
        "25650673-c3e8-4cbb-a7bd-e27d268157b8",
        "email@example.com",
        "not-a-phone",
        "Rua Dominguinhos",
        "http://image.url.com",
        "XDXD",
        false,
        vec!["admin"],
    );
    assert_eq!(created.map(|_| ()), Err("Phone is invalid"));
}

#[test]
fn update_phone_refuses_an_invalid_number() {
    let user = User::new("XD", "email", "1", "a", "u", "h", false, vec![]);
    assert_eq!(user.update_phone("14152370800"), Err("Phone is invalid"));
    assert_eq!(user.update_phone("TEXT"), Err("Phone is invalid"));
}

#[test]
fn update_address_accepts_any_address() {
    let user = User::new("XD", "email", "1", "a", "u", "h", false, vec!["r"]);
    let updated = user.update_address("").unwrap();
    assert_eq!(updated, User::new("XD", "email", "1", "", "u", "h", false, vec!["r"]));
    let moved = user.update_address("Rua Dominguinhos, 12").unwrap();
    assert_eq!(moved.address, "Rua Dominguinhos, 12");
    assert_eq!(moved.user_id, "XD");
}

#[test]
fn lists_keep_their_order_and_their_repetitions() {
    let tags = vec!["b", "a", "c", "a", ""];
    let owned: Vec<String> = tags.iter().map(|tag| tag.to_string()).collect();
    let user = User::new("", "", "", "", "", "", false, tags.clone());
    assert_eq!(user.roles, owned);
    let product = Product::new("", "", "", "", "", "", "", tags.clone());
    assert_eq!(product.product_tags, owned);
    let business = Business::new("", "", tags.clone(), tags.clone());
    assert_eq!(business.products_id, owned);
    assert_eq!(business.business_tags, owned);
}

#[test]
fn long_lists_keep_their_order() {
    let names: Vec<String> = (0..5000).map(|n| format!("tag-{}", n)).collect();
    let tags: Vec<&str> = names.iter().map(|name| name.as_str()).collect();
    let business = Business::new("", "", tags.clone(), tags);
    assert_eq!(business.products_id, names);
    assert_eq!(business.business_tags, names);
}

#[test]
fn created_business_holds_every_field_as_given() {
    let other = "936da01f-9abd-4d9d-80c7-02af85c822a8";
    let business = Business::create(ID, other, vec![other, ID, other], vec!["z", "a"]).unwrap();
    assert_eq!(
        business,
        Business {
            business_id: ID.to_string(),
            user_id: other.to_string(),
            products_id: vec![other.to_string(), ID.to_string(), other.to_string()],
            business_tags: vec!["z".to_string(), "a".to_string()],
        }
    );
    assert_eq!(business, Business::new(ID, other, vec![other, ID, other], vec!["z", "a"]));
}

#[test]
fn business_checks_every_identifier() {
    let create = |business: &str, user: &str, products: Vec<&str>| {
        Business::create(business, user, products, vec!["tag"]).map(|_| ())
    };
    assert_eq!(create(ID, ID, vec![]), Ok(()));
    assert_eq!(create("x", ID, vec![]), Err("A ID is not a UUID"));
    assert_eq!(create(ID, "x", vec![]), Err("A ID is not a UUID"));
    assert_eq!(create(ID, ID, vec!["x"]), Err("A ID is not a UUID"));
    assert_eq!(create(ID, ID, vec![ID, ID, "x"]), Err("A ID is not a UUID"));
    assert_eq!(create(ID, ID, vec![ID, ID, ID]), Ok(()));
}

#[test]
fn business_tags_are_not_checked() {
    assert!(Business::create(ID, ID, vec![], vec!["", "not-a-uuid"]).is_ok());
}

#[test]
fn default_entities_are_empty() {
    assert_eq!(User::default(), User::new("", "", "", "", "", "", false, vec![]));
    assert_eq!(Product::default(), Product::new("", "", "", "", "", "", "", vec![]));
    assert_eq!(Business::default(), Business::new("", "", vec![], vec![]));
    assert_eq!(
        Order::default(),
        Order {
            order_id: String::new(),
            product_id: String::new(),
            ordered_date: String::new(),
            expected_date: String::new(),
        }
    );
}

#[test]
fn clones_are_equal_to_what_they_copy() {
    let user = User::new("a", "b", "c", "d", "e", "f", true, vec!["g", "h"]);
    assert_eq!(user.clone(), user);
    let product = Product::new("a", "b", "c", "d", "e", "f", "g", vec!["h", "i"]);
    assert_eq!(product.clone(), product);
    let business = Business::new("a", "b", vec!["c", "d"], vec!["e"]);
    assert_eq!(business.clone(), business);
    let order = Order {
        order_id: "a".to_string(),
        product_id: "b".to_string(),
        ordered_date: "2021-01-01".to_string(),
        expected_date: "whenever".to_string(),
    };
    assert_eq!(order.clone(), order);
}
