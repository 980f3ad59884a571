use kubeclient::clients::identity::{Authorization, IdentityBuilder};

#[test]
fn empty_identity_trusts_the_defaults_and_sends_nothing() {
    let plan = IdentityBuilder::new().build();
    assert!(plan.root_ca.is_none());
    assert!(plan.client_identity.is_none());
    assert!(plan.authorization.is_none());
    assert!(!plan.skip_hostname_verification);
}

#[test]
fn root_certificate_is_trusted_where_given() {
    let plan = IdentityBuilder::new().ca_cert(vec![1, 2, 3]).build();
    assert_eq!(plan.root_ca, Some(vec![1, 2, 3]));
    assert!(plan.client_identity.is_none());
}

#[test]
fn client_identity_needs_certificate_and_key() {
    let plan = IdentityBuilder::new().client_certificate(vec![1]).build();
    assert!(plan.client_identity.is_none());
    let plan = IdentityBuilder::new().client_key(vec![2]).build();
    assert!(plan.client_identity.is_none());
    let plan = IdentityBuilder::new().client_certificate(vec![1]).client_key(vec![2]).build();
    assert_eq!(plan.client_identity, Some((vec![1], vec![2])));
}

#[test]
fn bearer_token_alone() {
    let plan = IdentityBuilder::new().token("abc.def").build();
    match plan.authorization {
        Some(Authorization::Bearer { token }) => assert_eq!(token, "abc.def"),
        _ => panic!("a token alone is sent as a bearer token"),
    }
}

#[test]
fn basic_credentials_alone() {
    let plan = IdentityBuilder::new().username("admin").password("s3cret").build();
    match &plan.authorization {
        Some(Authorization::Basic { username, password }) => {
            assert_eq!(username, "admin");
            assert_eq!(password.as_deref(), Some("s3cret"));
        }
        _ => panic!("a user name is sent as Basic credentials"),
    }
    assert_eq!(plan.authorization.unwrap().header_value(), "Basic YWRtaW46czNjcmV0");
}

#[test]
fn basic_credentials_win_over_a_token() {
    let plan = IdentityBuilder::new().token("abc").username("admin").build();
    match plan.authorization {
        Some(Authorization::Basic { username, password }) => {
            assert_eq!(username, "admin");
            assert_eq!(password, None);
        }
        _ => panic!("a user name wins over a token"),
    }
    let plan = IdentityBuilder::new().username("admin").token("abc").build();
    assert!(matches!(plan.authorization, Some(Authorization::Basic { .. })));
}

#[test]
fn password_without_a_user_name_sends_nothing() {
    let plan = IdentityBuilder::new().password("s3cret").build();
    assert!(plan.authorization.is_none());
    let plan = IdentityBuilder::new().password("s3cret").token("abc").build();
    assert!(matches!(plan.authorization, Some(Authorization::Bearer { .. })));
}

#[test]
fn header_values() {
    let bearer = Authorization::Bearer { token: "abc.def".to_string() };
    assert_eq!(bearer.header_value(), "Bearer abc.def");
    let basic = Authorization::Basic { username: "user".to_string(), password: Some("pass".to_string()) };
    assert_eq!(basic.header_value(), "Basic dXNlcjpwYXNz");
    let basic = Authorization::Basic { username: "user".to_string(), password: None };
    assert_eq!(basic.header_value(), "Basic dXNlcjo=");
    let basic = Authorization::Basic { username: "é".to_string(), password: Some("€".to_string()) };
    assert_eq!(basic.header_value(), "Basic w6k64oKs");
}

#[test]
fn certificates_and_header_are_independent() {
    let plan = IdentityBuilder::new()
        .ca_cert(vec![9])
        .client_certificate(vec![1])
        .client_key(vec![2])
        .token("abc")
        .build();
    assert_eq!(plan.root_ca, Some(vec![9]));
    assert_eq!(plan.client_identity, Some((vec![1], vec![2])));
    assert!(matches!(plan.authorization, Some(Authorization::Bearer { .. })));
}

#[test]
fn hostname_verification_is_skipped_only_when_asked_for() {
    let plan = IdentityBuilder::new().token("abc").build();
    assert!(!plan.skip_hostname_verification);
    let plan = IdentityBuilder::new().danger_disable_hostname_verification().build();
    assert!(plan.skip_hostname_verification);
}
