use cflare::accounts::{
    account_column_headers, account_list_query, account_rows, Account, AccountListQuery,
};

#[test]
fn account_listing_query_shape() {
    assert_eq!(
        account_list_query(1, 50),
        AccountListQuery { page: Some(1), per_page: Some(50), ascending: Some(true) }
    );
}

#[test]
fn account_listing_rows_and_columns() {
    let accounts = vec![
        Account { id: String::from("a1"), name: String::from("First"), created_on: None },
        Account {
            id: String::from("a2"),
            name: String::from("Second"),
            created_on: Some(String::from("2020-01-01T00:00:00Z")),
        },
    ];
    let rows = account_rows(&accounts);
    assert_eq!(rows, vec![
        vec![String::from("a1"), String::from("First")],
        vec![String::from("a2"), String::from("Second")],
    ]);
    assert_eq!(account_column_headers(), vec!["ID", "NAME"]);
}
