use vstd::prelude::*;
use vstd::string::*;

verus! {

/// An account as the service reports it, reduced to what the listing
/// shows; the creation time is carried as the text the service sent.
#[derive(Clone, Debug, PartialEq, Eq)]
pub struct Account {
    pub id: String,
    pub name: String,
    pub created_on: Option<String>,
}

/// The query of an account-listing call.
#[derive(Clone, Debug, PartialEq, Eq)]
pub struct AccountListQuery {
    pub page: Option<u32>,
    pub per_page: Option<u32>,
    pub ascending: Option<bool>,
}

/// The query of an account listing: the requested page and page size,
/// ascending.
pub fn account_list_query(page: u32, limit: u32) -> (q: AccountListQuery)
    ensures
        q.page == Some(page),
        q.per_page == Some(limit),
        q.ascending == Some(true),
{
    AccountListQuery { page: Some(page), per_page: Some(limit), ascending: Some(true) }
}

/// The presentation row of one account.
pub open spec fn account_row(a: Account) -> Seq<Seq<char>> {
    seq![a.id@, a.name@]
}

/// The presentation rows of an account listing, one per account, in order.
pub fn account_rows(accounts: &Vec<Account>) -> (r: Vec<Vec<String>>)
    ensures
        r@.len() == accounts@.len(),
        forall|i: int|
            0 <= i < accounts@.len() ==> #[trigger] r@[i].deep_view() == account_row(accounts@[i]),
{
    let mut rows: Vec<Vec<String>> = Vec::new();
    let n = accounts.len();
    let mut i: usize = 0;
    while i < n
        invariant
            n == accounts@.len(),
            i <= n,
            rows@.len() == i,
            forall|k: int|
                0 <= k < i ==> #[trigger] rows@[k].deep_view() == account_row(accounts@[k]),
        decreases n - i,
    {
        let a = &accounts[i];
        let mut row: Vec<String> = Vec::new();
        row.push(a.id.clone());
        row.push(a.name.clone());
        proof {
            assert(row.deep_view() =~= account_row(accounts@[i as int]));
        }
        rows.push(row);
        i = i + 1;
    }
    rows
}

/// The account listing's column headers.
pub open spec fn account_columns() -> Seq<Seq<char>> {
    seq!["ID"@, "NAME"@]
}

pub fn account_column_headers() -> (r: Vec<&'static str>)
    ensures
        r.deep_view() == account_columns(),
{
    let mut cols: Vec<&'static str> = Vec::new();
    cols.push("ID");
    cols.push("NAME");
    proof {
        assert(cols.deep_view() =~= account_columns());
    }
    cols
}

} // verus!
