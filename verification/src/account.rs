use vstd::prelude::*;

verus! {

/// An account known to the launcher: the user name and e-mail address that
/// the account logic reads, and the profile of the authentication provider,
/// which the logic carries along without reading it.
pub struct Account<P> {
    pub username: String,
    pub email: Option<String>,
    pub profile: P,
}

/// A row of the account list as the window shows it: the login mode and
/// the user name.
#[derive(Debug)]
pub struct AccountS {
    pub mode: String,
    pub name: String,
}

/// The mode shown for accounts that were logged in without a Microsoft account.
pub open spec fn offline_mode() -> Seq<char> {
    "Offline"@
}

/// The mode shown for accounts that were logged in with a Microsoft account.
pub open spec fn online_mode() -> Seq<char> {
    "Online"@
}

/// The mode of an account in the account list: an account without e-mail
/// address is an offline account.
pub open spec fn mode_of_email(email: Option<String>) -> Seq<char> {
    if email is None {
        offline_mode()
    } else {
        online_mode()
    }
}

/// The user names of a list of accounts, in order.
pub open spec fn usernames<P>(accounts: Seq<Account<P>>) -> Seq<Seq<char>> {
    accounts.map_values(|a: Account<P>| a.username@)
}

/// A row with the given mode and name.
pub open spec fn is_row(row: AccountS, mode: Seq<char>, name: Seq<char>) -> bool {
    row.mode@ == mode && row.name@ == name
}

/// The rows of the account list for the given accounts: one per account, in
/// order, each with the account's mode and name.
pub open spec fn are_rows_of<P>(rows: Seq<AccountS>, accounts: Seq<Account<P>>) -> bool {
    &&& rows.len() == accounts.len()
    &&& forall|i: int|
        0 <= i < accounts.len() ==> is_row(
            #[trigger] rows[i],
            mode_of_email(accounts[i].email),
            accounts[i].username@,
        )
}

impl AccountS {
    /// The row of an offline account with the given name.
    pub fn offline(name: &String) -> (r: AccountS)
        ensures
            is_row(r, offline_mode(), name@),
    {
        proof {
            reveal_strlit("Offline");
        }
        AccountS { mode: "Offline".to_owned(), name: name.clone() }
    }

    /// The row of an online account with the given name.
    pub fn online(name: &String) -> (r: AccountS)
        ensures
            is_row(r, online_mode(), name@),
    {
        proof {
            reveal_strlit("Online");
        }
        AccountS { mode: "Online".to_owned(), name: name.clone() }
    }
}

/// The rows of the account list for the given accounts.
pub fn account_rows<P>(accounts: &Vec<Account<P>>) -> (rows: Vec<AccountS>)
    ensures
        are_rows_of(rows@, accounts@),
{
    let mut rows: Vec<AccountS> = Vec::new();
    let mut i: usize = 0;
    while i < accounts.len()
        invariant
            i <= accounts.len(),
            rows@.len() == i,
            forall|j: int|
                0 <= j < i ==> is_row(
                    #[trigger] rows@[j],
                    mode_of_email(accounts@[j].email),
                    accounts@[j].username@,
                ),
        decreases accounts.len() - i,
    {
        let account = &accounts[i];
        let row = if account.email.is_none() {
            AccountS::offline(&account.username)
        } else {
            AccountS::online(&account.username)
        };
        rows.push(row);
        i = i + 1;
    }
    rows
}

/// The account list shown after a Microsoft login of an account that the
/// launcher did not know: that account alone, as an online account.
pub fn accounts_after_online_login(username: &String) -> (rows: Vec<AccountS>)
    ensures
        rows@.len() == 1,
        is_row(rows@[0], online_mode(), username@),
{
    let mut rows: Vec<AccountS> = Vec::new();
    rows.push(AccountS::online(username));
    rows
}

} // verus!
