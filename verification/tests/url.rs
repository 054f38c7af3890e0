use scaleway::utils::{url, Account, Compute, Endpoint};
use scaleway::{Region, TokenId, UserId};

#[test]
fn url_of_the_token_collection() {
    assert_eq!(url(Endpoint::Account(Account::Tokens)), "https://account.scaleway.com/tokens");
}

#[test]
fn url_of_one_token() {
    assert_eq!(
        url(Endpoint::Account(Account::Token(TokenId::from("abc-123")))),
        "https://account.scaleway.com/tokens/abc-123"
    );
}

#[test]
fn url_of_the_organization_collection() {
    assert_eq!(
        url(Endpoint::Account(Account::Organizations)),
        "https://account.scaleway.com/organizations"
    );
}

#[test]
fn url_of_one_user() {
    assert_eq!(
        url(Endpoint::Account(Account::Users(UserId::from("u1")))),
        "https://account.scaleway.com/users/u1"
    );
}

#[test]
fn url_of_the_servers_of_each_region() {
    assert_eq!(
        url(Endpoint::Compute(Region::Par1, Compute::Servers)),
        "https://cp-par1.scaleway.com/servers"
    );
    assert_eq!(
        url(Endpoint::Compute(Region::Ams1, Compute::Servers)),
        "https://cp-ams1.scaleway.com/servers"
    );
}

#[test]
fn url_takes_the_identifier_as_it_is() {
    assert_eq!(
        url(Endpoint::Account(Account::Token(TokenId::from("a b/c?d=%20&e#f")))),
        "https://account.scaleway.com/tokens/a b/c?d=%20&e#f"
    );
    assert_eq!(
        url(Endpoint::Account(Account::Users(UserId::from("")))),
        "https://account.scaleway.com/users/"
    );
}

#[test]
fn endpoint_from_its_parts() {
    assert_eq!(Endpoint::from(Account::Tokens), Endpoint::Account(Account::Tokens));
    assert_eq!(
        Endpoint::from((Region::Ams1, Compute::Servers)),
        Endpoint::Compute(Region::Ams1, Compute::Servers)
    );
    assert_eq!(url(Account::Organizations.into()), "https://account.scaleway.com/organizations");
}
