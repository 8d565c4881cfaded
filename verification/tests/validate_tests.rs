use cflare::validate::{valid_priority, valid_ttl, valid_u32, MAX_DNS_TTL};

#[test]
fn valid_u32_accepts_integers() {
    assert_eq!(valid_u32(String::from("0")), Ok(()));
    assert_eq!(valid_u32(String::from("17")), Ok(()));
    assert_eq!(valid_u32(String::from("4294967295")), Ok(()));
    assert_eq!(valid_u32(String::from("007")), Ok(()));
    assert_eq!(valid_u32(String::from("+5")), Ok(()));
}

#[test]
fn valid_u32_rejects_non_integers() {
    assert_eq!(
        valid_u32(String::from("abc")),
        Err(String::from("Value must be an integer; received: abc"))
    );
    assert_eq!(
        valid_u32(String::from("4294967296")),
        Err(String::from("Value must be an integer; received: 4294967296"))
    );
    assert_eq!(
        valid_u32(String::from("")),
        Err(String::from("Value must be an integer; received: "))
    );
    assert_eq!(
        valid_u32(String::from("-1")),
        Err(String::from("Value must be an integer; received: -1"))
    );
    assert_eq!(
        valid_u32(String::from("1.5")),
        Err(String::from("Value must be an integer; received: 1.5"))
    );
}

#[test]
fn valid_priority_bounds() {
    assert_eq!(valid_priority(String::from("0")), Ok(()));
    assert_eq!(valid_priority(String::from("65535")), Ok(()));
    assert_eq!(
        valid_priority(String::from("65536")),
        Err(String::from("Value must be an 16-bit integer; received: 65536"))
    );
    assert_eq!(
        valid_priority(String::from("ten")),
        Err(String::from("Value must be an 16-bit integer; received: ten"))
    );
}

#[test]
fn valid_ttl_range() {
    assert_eq!(MAX_DNS_TTL, 2_147_483_647);
    assert_eq!(valid_ttl(String::from("1")), Ok(()));
    assert_eq!(valid_ttl(String::from("300")), Ok(()));
    assert_eq!(valid_ttl(String::from("2147483647")), Ok(()));
    assert_eq!(
        valid_ttl(String::from("0")),
        Err(String::from("Value must be between 1 and 2147483647 seconds"))
    );
    assert_eq!(
        valid_ttl(String::from("2147483648")),
        Err(String::from("Value must be between 1 and 2147483647 seconds"))
    );
    assert_eq!(
        valid_ttl(String::from("soon")),
        Err(String::from("Value must be an integer; received: soon"))
    );
}
