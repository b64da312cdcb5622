use vstd::prelude::*;
use crate::account::{
    Account, AccountS, usernames, is_row, are_rows_of, offline_mode, online_mode, account_rows,
};
use crate::instance::{
    Instance, InstanceS, SimpleInstance, instance_names, same_rows, copy_rows, row_of_new_instance,
};
use crate::loader::{to_slint_loader_enum, loader_of_choice, LoaderKind, LoaderS};
use crate::names::{lemma_first_index_at, lemma_first_index_none, lemma_first_index_after_push};

verus! {

/// The launcher's state: the known accounts, the account that is logged in,
/// the instances, and the rows of the instance list.
///
/// `P` is the authentication provider's profile of an account and `B` the
/// version builder of an instance; the state carries both without reading them.
pub struct AppState<P, B> {
    current_account: Option<usize>,
    accounts: Vec<Account<P>>,
    instances: Vec<Instance<B>>,
    instances_for_slint: Vec<InstanceS>,
}

/// What an [`AppState`] holds.
pub struct AppStateView<P, B> {
    pub current_account: Option<Account<P>>,
    pub accounts: Seq<Account<P>>,
    pub instances: Seq<Instance<B>>,
    pub instances_for_slint: Seq<InstanceS>,
}

/// The logged-in account, if any, is one of the known accounts.
pub open spec fn current_is_known<P, B>(v: AppStateView<P, B>) -> bool {
    v.current_account matches Some(a) ==> v.accounts.contains(a)
}

/// The first known account with the given user name.
pub open spec fn first_account_named<P, B>(v: AppStateView<P, B>, name: Seq<char>) -> Option<int> {
    usernames(v.accounts).index_of_first(name)
}

/// The first instance with the given name.
pub open spec fn first_instance_named<P, B>(v: AppStateView<P, B>, name: Seq<char>) -> Option<int> {
    instance_names(v.instances).index_of_first(name)
}

/// The state after a login of the account `name` that either found it or not.
pub open spec fn logged_in<P, B>(
    before: AppStateView<P, B>,
    after: AppStateView<P, B>,
    name: Seq<char>,
    row: Option<AccountS>,
    mode: Seq<char>,
) -> bool {
    &&& after.accounts == before.accounts
    &&& after.instances == before.instances
    &&& after.instances_for_slint == before.instances_for_slint
    &&& match first_account_named(before, name) {
        Some(i) => {
            &&& 0 <= i < before.accounts.len()
            &&& after.current_account == Some(before.accounts[i])
            &&& before.accounts[i].username@ == name
            &&& row matches Some(r) && is_row(r, mode, name)
        },
        None => {
            &&& after.current_account == before.current_account
            &&& row is None
        },
    }
}

impl<P, B> AppState<P, B> {
    #[verifier::type_invariant]
    spec fn current_in_range(self) -> bool {
        self.current_account matches Some(i) ==> i < self.accounts@.len()
    }
}

impl<P, B> View for AppState<P, B> {
    type V = AppStateView<P, B>;

    closed spec fn view(&self) -> AppStateView<P, B> {
        AppStateView {
            current_account: match self.current_account {
                Some(i) => Some(self.accounts@[i as int]),
                None => None,
            },
            accounts: self.accounts@,
            instances: self.instances@,
            instances_for_slint: self.instances_for_slint@,
        }
    }
}

impl<P, B> AppState<P, B> {
    /// A state with no account, no instance and nobody logged in.
    pub fn new() -> (s: Self)
        ensures
            s@.current_account is None,
            s@.accounts.len() == 0,
            s@.instances.len() == 0,
            s@.instances_for_slint.len() == 0,
    {
        AppState {
            current_account: None,
            accounts: Vec::new(),
            instances: Vec::new(),
            instances_for_slint: Vec::new(),
        }
    }

    /// The known accounts, in the order they were added.
    pub fn accounts(&self) -> (r: &Vec<Account<P>>)
        ensures
            r@ == self@.accounts,
    {
        &self.accounts
    }

    /// The instances, in the order they were created.
    pub fn instances(&self) -> (r: &Vec<Instance<B>>)
        ensures
            r@ == self@.instances,
    {
        &self.instances
    }

    /// The rows of the instance list.
    pub fn instances_for_slint(&self) -> (r: &Vec<InstanceS>)
        ensures
            r@ == self@.instances_for_slint,
    {
        &self.instances_for_slint
    }

    /// The account that is logged in, which is always a known account.
    pub fn current_account(&self) -> (r: Option<&Account<P>>)
        ensures
            match self@.current_account {
                Some(a) => r matches Some(x) && *x == a,
                None => r is None,
            },
            current_is_known(self@),
    {
        proof {
            use_type_invariant(self);
        }
        match self.current_account {
            Some(i) => {
                proof {
                    assert(self@.accounts[i as int] == self.accounts@[i as int]);
                }
                Some(&self.accounts[i])
            },
            None => None,
        }
    }

    /// The index of the first known account with the user name `name`.
    pub fn find_account(&self, name: &str) -> (r: Option<usize>)
        ensures
            match r {
                Some(i) => {
                    &&& first_account_named(self@, name@) == Some(i as int)
                    &&& i < self@.accounts.len()
                    &&& self@.accounts[i as int].username@ == name@
                },
                None => first_account_named(self@, name@) is None,
            },
            r matches Some(i) ==> forall|j: int|
                0 <= j < i ==> #[trigger] self@.accounts[j].username@ != name@,
            r is None ==> forall|j: int|
                0 <= j < self@.accounts.len() ==> #[trigger] self@.accounts[j].username@ != name@,
    {
        let wanted = name.to_owned();
        let mut i: usize = 0;
        while i < self.accounts.len()
            invariant
                i <= self.accounts@.len(),
                wanted@ == name@,
                forall|j: int| 0 <= j < i ==> #[trigger] self.accounts@[j].username@ != name@,
            decreases self.accounts@.len() - i,
        {
            if self.accounts[i].username == wanted {
                proof {
                    let names = usernames(self.accounts@);
                    assert forall|j: int| 0 <= j < i implies names[j] != name@ by {
                        assert(names[j] == self.accounts@[j].username@);
                    }
                    lemma_first_index_at(names, name@, i as int);
                }
                return Some(i);
            }
            i = i + 1;
        }
        proof {
            let names = usernames(self.accounts@);
            assert forall|j: int| 0 <= j < names.len() implies names[j] != name@ by {
                assert(names[j] == self.accounts@[j].username@);
            }
            lemma_first_index_none(names, name@);
        }
        None
    }

    /// The index of the first instance named `name`.
    pub fn find_instance(&self, name: &str) -> (r: Option<usize>)
        ensures
            match r {
                Some(i) => {
                    &&& first_instance_named(self@, name@) == Some(i as int)
                    &&& i < self@.instances.len()
                    &&& self@.instances[i as int].name@ == name@
                },
                None => first_instance_named(self@, name@) is None,
            },
            r matches Some(i) ==> forall|j: int|
                0 <= j < i ==> #[trigger] self@.instances[j].name@ != name@,
            r is None ==> forall|j: int|
                0 <= j < self@.instances.len() ==> #[trigger] self@.instances[j].name@ != name@,
    {
        let wanted = name.to_owned();
        let mut i: usize = 0;
        while i < self.instances.len()
            invariant
                i <= self.instances@.len(),
                wanted@ == name@,
                forall|j: int| 0 <= j < i ==> #[trigger] self.instances@[j].name@ != name@,
            decreases self.instances@.len() - i,
        {
            if self.instances[i].name == wanted {
                proof {
                    let names = instance_names(self.instances@);
                    assert forall|j: int| 0 <= j < i implies names[j] != name@ by {
                        assert(names[j] == self.instances@[j].name@);
                    }
                    lemma_first_index_at(names, name@, i as int);
                }
                return Some(i);
            }
            i = i + 1;
        }
        proof {
            let names = instance_names(self.instances@);
            assert forall|j: int| 0 <= j < names.len() implies names[j] != name@ by {
                assert(names[j] == self.instances@[j].name@);
            }
            lemma_first_index_none(names, name@);
        }
        None
    }
}


impl<P, B> AppState<P, B> {
    /// Logs in the first known account named `name`, shown with `mode`.
    fn log_in(&mut self, name: &str, online: bool) -> (r: Option<AccountS>)
        ensures
            logged_in(
                old(self)@,
                final(self)@,
                name@,
                r,
                if online { online_mode() } else { offline_mode() },
            ),
    {
        proof {
            use_type_invariant(&*self);
        }
        match self.find_account(name) {
            Some(i) => {
                self.current_account = Some(i);
                let row = if online {
                    AccountS::online(&self.accounts[i].username)
                } else {
                    AccountS::offline(&self.accounts[i].username)
                };
                Some(row)
            },
            None => None,
        }
    }

    /// Logs in the known offline account `name`. Where one is known, the first
    /// account with that name becomes the current account and the row that
    /// shows it as the current account is returned; otherwise nothing changes
    /// and `None` comes back.
    pub fn login_offline_account(&mut self, name: &str) -> (r: Option<AccountS>)
        ensures
            logged_in(old(self)@, final(self)@, name@, r, offline_mode()),
    {
        self.log_in(name, false)
    }

    /// Logs in the account `name` with its Microsoft account. Where the account
    /// is known, the first account with that name becomes the current account
    /// and the row that shows it as the current account is returned; otherwise
    /// nothing changes and `None` asks for a Microsoft authentication.
    pub fn login_online_account(&mut self, name: &str) -> (r: Option<AccountS>)
        ensures
            logged_in(old(self)@, final(self)@, name@, r, online_mode()),
    {
        self.log_in(name, true)
    }

    /// Whether an offline account named `name` may be created: no known
    /// account carries that name.
    pub fn offline_account_available(&self, name: &str) -> (r: bool)
        ensures
            r == !usernames(self@.accounts).contains(name@),
    {
        proof {
            usernames(self@.accounts).index_of_first_ensures(name@);
        }
        self.find_account(name).is_none()
    }

    /// The rows of the account list: one per known account, in order.
    pub fn account_rows(&self) -> (rows: Vec<AccountS>)
        ensures
            are_rows_of(rows@, self@.accounts),
    {
        account_rows(&self.accounts)
    }

    /// Adds a newly authenticated offline account at the end of the known
    /// accounts and returns the rows of the account list that shows them all.
    pub fn account_created(&mut self, account: Account<P>) -> (rows: Vec<AccountS>)
        ensures
            final(self)@.accounts == old(self)@.accounts.push(account),
            final(self)@.current_account == old(self)@.current_account,
            final(self)@.instances == old(self)@.instances,
            final(self)@.instances_for_slint == old(self)@.instances_for_slint,
            are_rows_of(rows@, final(self)@.accounts),
    {
        let mut whole = AppState::new();
        std::mem::swap(self, &mut whole);
        proof {
            use_type_invariant(&whole);
        }
        let AppState { current_account, mut accounts, instances, instances_for_slint } = whole;
        let ghost before = accounts@;
        accounts.push(account);
        proof {
            if let Some(i) = current_account {
                assert(accounts@[i as int] == before[i as int]);
            }
        }
        let rows = account_rows(&accounts);
        *self = AppState { current_account, accounts, instances, instances_for_slint };
        rows
    }

    /// Adds an instance built from `new_instance` with `version_builder`, not
    /// running, at the end of the instances. Where the window is open
    /// (`ui_alive`), the instance's row is added at the end of the instance
    /// list too, and the rows to show are returned; otherwise the rows stay
    /// and `None` comes back.
    pub fn create_instance(
        &mut self,
        new_instance: SimpleInstance,
        version_builder: B,
        ui_alive: bool,
    ) -> (shown: Option<Vec<InstanceS>>)
        ensures
            final(self)@.instances == old(self)@.instances.push(
                (Instance { name: new_instance.name, version_builder, is_run: false }),
            ),
            final(self)@.accounts == old(self)@.accounts,
            final(self)@.current_account == old(self)@.current_account,
            ui_alive ==> final(self)@.instances_for_slint == old(self)@.instances_for_slint.push(
                row_of_new_instance(new_instance),
            ),
            ui_alive ==> (shown matches Some(rows) && same_rows(rows@, final(self)@.instances_for_slint)),
            !ui_alive ==> final(self)@.instances_for_slint == old(self)@.instances_for_slint,
            !ui_alive ==> shown is None,
    {
        let mut whole = AppState::new();
        std::mem::swap(self, &mut whole);
        proof {
            use_type_invariant(&whole);
        }
        let AppState { current_account, accounts, mut instances, mut instances_for_slint } = whole;
        let SimpleInstance { pid: _, name, version, loader, loader_version, is_run: _ } = new_instance;
        let shown = if ui_alive {
            let row = InstanceS {
                name: name.clone(),
                version: version,
                loader: to_slint_loader_enum(&loader),
                loader_version: loader_version,
                is_run: false,
            };
            instances_for_slint.push(row);
            Some(copy_rows(&instances_for_slint))
        } else {
            None
        };
        instances.push(Instance { name, version_builder, is_run: false });
        *self = AppState { current_account, accounts, instances, instances_for_slint };
        shown
    }

    /// The first instance named `name`, if any.
    pub fn get_instance_by_name(&self, name: &str) -> (r: Option<&Instance<B>>)
        ensures
            match first_instance_named(self@, name@) {
                Some(i) => r matches Some(x) && *x == self@.instances[i],
                None => r is None,
            },
    {
        match self.find_instance(name) {
            Some(i) => Some(&self.instances[i]),
            None => None,
        }
    }

    /// What running the instance `name` launches: the first instance with that
    /// name together with the current account, where both exist.
    pub fn run_request(&self, name: &str) -> (r: Option<(&Instance<B>, &Account<P>)>)
        ensures
            match (first_instance_named(self@, name@), self@.current_account) {
                (Some(i), Some(a)) => r matches Some((x, y)) && *x == self@.instances[i] && *y == a,
                _ => r is None,
            },
    {
        match self.get_instance_by_name(name) {
            Some(instance) => match self.current_account() {
                Some(account) => Some((instance, account)),
                None => None,
            },
            None => None,
        }
    }
}

/// Once an account has been added, a login with its user name finds an
/// account of that name, and a second offline account of that name is refused.
pub proof fn law_created_account_is_known<P>(accounts: Seq<Account<P>>, account: Account<P>)
    ensures
        usernames(accounts.push(account)).index_of_first(account.username@) matches Some(i)
            && 0 <= i <= accounts.len() && accounts.push(account)[i].username@
            == account.username@,
        usernames(accounts.push(account)).contains(account.username@),
{
    assert(usernames(accounts.push(account)) == usernames(accounts).push(account.username@));
    lemma_first_index_after_push(usernames(accounts), account.username@);
    let pushed = accounts.push(account);
    let names = usernames(pushed);
    if let Some(i) = names.index_of_first(account.username@) {
        assert(names[i] == pushed[i].username@);
    }
    assert(names[accounts.len() as int] == account.username@);
}

/// Adding an account leaves what a login of any other name finds as it was.
pub proof fn law_added_account_keeps_earlier_logins<P>(
    accounts: Seq<Account<P>>,
    account: Account<P>,
    name: Seq<char>,
)
    ensures
        usernames(accounts).index_of_first(name) matches Some(i) ==> usernames(
            accounts.push(account),
        ).index_of_first(name) == Some(i),
{
    let names = usernames(accounts);
    let pushed = usernames(accounts.push(account));
    if let Some(i) = names.index_of_first(name) {
        names.index_of_first_ensures(name);
        assert forall|j: int| 0 <= j < i implies pushed[j] != name by {
            assert(pushed[j] == names[j]);
        }
        assert(pushed[i] == names[i]);
        lemma_first_index_at(pushed, name, i);
    }
}

/// Once an instance has been created, a lookup of its name finds an
/// instance of that name.
pub proof fn law_created_instance_is_found<B>(instances: Seq<Instance<B>>, instance: Instance<B>)
    ensures
        instance_names(instances.push(instance)).index_of_first(instance.name@) matches Some(i)
            && 0 <= i <= instances.len() && instances.push(instance)[i].name@ == instance.name@,
{
    assert(instance_names(instances.push(instance)) == instance_names(instances).push(
        instance.name@,
    ));
    lemma_first_index_after_push(instance_names(instances), instance.name@);
    let pushed = instances.push(instance);
    let names = instance_names(pushed);
    if let Some(i) = names.index_of_first(instance.name@) {
        assert(names[i] == pushed[i].name@);
    }
}

/// Creating an instance reads neither the process id nor the running flag of
/// its description: two descriptions that agree in name, version, loader and
/// loader version add the same instance and the same row to any state, and
/// the row shows the instance as not running.
pub proof fn law_create_ignores_pid_and_flag<P, B>(
    before: AppStateView<P, B>,
    a: SimpleInstance,
    b: SimpleInstance,
    version_builder: B,
)
    requires
        a.name == b.name,
        a.version == b.version,
        a.loader == b.loader,
        a.loader_version == b.loader_version,
    ensures
        before.instances.push((Instance { name: a.name, version_builder, is_run: false }))
            == before.instances.push((Instance { name: b.name, version_builder, is_run: false })),
        before.instances_for_slint.push(row_of_new_instance(a)) == before.instances_for_slint.push(
            row_of_new_instance(b),
        ),
        !row_of_new_instance(a).is_run,
{
}

/// A login finds every known account, wherever it stands: where some known
/// account carries the user name `name`, the login finds the first such
/// account; where none does, it finds nothing.
pub proof fn law_login_finds_every_known_account<P, B>(v: AppStateView<P, B>, name: Seq<char>)
    ensures
        (exists|k: int| 0 <= k < v.accounts.len() && #[trigger] v.accounts[k].username@ == name)
            ==> (first_account_named(v, name) matches Some(i) && 0 <= i < v.accounts.len()
            && v.accounts[i].username@ == name && forall|j: int|
            0 <= j < i ==> #[trigger] v.accounts[j].username@ != name),
        (forall|k: int| 0 <= k < v.accounts.len() ==> #[trigger] v.accounts[k].username@ != name)
            ==> first_account_named(v, name) is None,
{
    let names = usernames(v.accounts);
    names.index_of_first_ensures(name);
    if exists|k: int| 0 <= k < v.accounts.len() && #[trigger] v.accounts[k].username@ == name {
        let k = choose|k: int| 0 <= k < v.accounts.len() && #[trigger] v.accounts[k].username@ == name;
        assert(names[k] == name);
        assert(names.contains(name));
        let i = first_account_named(v, name)->0;
        assert(v.accounts[i].username@ == names[i]);
        assert forall|j: int| 0 <= j < i implies #[trigger] v.accounts[j].username@ != name by {
            assert(names[j] == v.accounts[j].username@);
        }
    }
    if forall|k: int| 0 <= k < v.accounts.len() ==> #[trigger] v.accounts[k].username@ != name {
        assert forall|j: int| 0 <= j < names.len() implies names[j] != name by {
            assert(names[j] == v.accounts[j].username@);
        }
        lemma_first_index_none(names, name);
    }
}

/// Whether and which account a login finds depends on the known accounts
/// alone, not on who is logged in or on the instances.
pub proof fn law_login_ignores_current_account<P, B>(
    v1: AppStateView<P, B>,
    v2: AppStateView<P, B>,
    name: Seq<char>,
)
    requires
        v1.accounts == v2.accounts,
    ensures
        first_account_named(v1, name) == first_account_named(v2, name),
{
    law_login_finds_every_known_account(v1, name);
    law_login_finds_every_known_account(v2, name);
    if exists|k: int| 0 <= k < v1.accounts.len() && #[trigger] v1.accounts[k].username@ == name {
        let i1 = first_account_named(v1, name)->0;
        let i2 = first_account_named(v2, name)->0;
        if i1 < i2 {
            assert(v2.accounts[i1].username@ != name);
        } else if i2 < i1 {
            assert(v1.accounts[i2].username@ != name);
        }
    }
}

/// A login of a known name succeeds: it returns a row showing that name and
/// makes the first account of that name the current account; a login of an
/// unknown name returns nothing and leaves the current account as it was.
pub proof fn law_known_name_logs_in<P, B>(
    before: AppStateView<P, B>,
    after: AppStateView<P, B>,
    name: Seq<char>,
    row: Option<AccountS>,
    mode: Seq<char>,
)
    requires
        logged_in(before, after, name, row, mode),
    ensures
        (exists|k: int| 0 <= k < before.accounts.len() && #[trigger] before.accounts[k].username@
            == name) ==> {
            &&& row matches Some(r) && r.name@ == name && r.mode@ == mode
            &&& after.current_account matches Some(a) && a.username@ == name && exists|i: int|
                0 <= i < before.accounts.len() && a == before.accounts[i] && forall|j: int|
                    0 <= j < i ==> #[trigger] before.accounts[j].username@ != name
        },
        (forall|k: int| 0 <= k < before.accounts.len() ==> #[trigger] before.accounts[k].username@
            != name) ==> (row is None && after.current_account == before.current_account),
        after.accounts == before.accounts,
{
    law_login_finds_every_known_account(before, name);
    if let Some(i) = first_account_named(before, name) {
        assert(0 <= i < before.accounts.len() && after.current_account->0 == before.accounts[i]);
    }
}

/// A lookup finds every instance that exists, wherever it stands: where some
/// instance is named `name`, the lookup finds the first such instance; where
/// none is, it finds nothing.
pub proof fn law_lookup_finds_every_instance<P, B>(v: AppStateView<P, B>, name: Seq<char>)
    ensures
        (exists|k: int| 0 <= k < v.instances.len() && #[trigger] v.instances[k].name@ == name)
            ==> (first_instance_named(v, name) matches Some(i) && 0 <= i < v.instances.len()
            && v.instances[i].name@ == name && forall|j: int|
            0 <= j < i ==> #[trigger] v.instances[j].name@ != name),
        (forall|k: int| 0 <= k < v.instances.len() ==> #[trigger] v.instances[k].name@ != name)
            ==> first_instance_named(v, name) is None,
{
    let names = instance_names(v.instances);
    names.index_of_first_ensures(name);
    if exists|k: int| 0 <= k < v.instances.len() && #[trigger] v.instances[k].name@ == name {
        let k = choose|k: int| 0 <= k < v.instances.len() && #[trigger] v.instances[k].name@ == name;
        assert(names[k] == name);
        assert(names.contains(name));
        let i = first_instance_named(v, name)->0;
        assert(v.instances[i].name@ == names[i]);
        assert forall|j: int| 0 <= j < i implies #[trigger] v.instances[j].name@ != name by {
            assert(names[j] == v.instances[j].name@);
        }
    }
    if forall|k: int| 0 <= k < v.instances.len() ==> #[trigger] v.instances[k].name@ != name {
        assert forall|j: int| 0 <= j < names.len() implies names[j] != name by {
            assert(names[j] == v.instances[j].name@);
        }
        lemma_first_index_none(names, name);
    }
}

/// The row that creating an instance adds shows the instance's name, version
/// and loader version, shows it as not running, and shows its loader: the form
/// choice that stands for that loader, or vanilla for the updater loader.
pub proof fn law_new_row_shows_instance(n: SimpleInstance)
    ensures
        row_of_new_instance(n).name == n.name,
        row_of_new_instance(n).version == n.version,
        row_of_new_instance(n).loader_version == n.loader_version,
        !row_of_new_instance(n).is_run,
        n.loader != LoaderKind::LightyUpdater ==> loader_of_choice(row_of_new_instance(n).loader)
            == n.loader,
        n.loader == LoaderKind::LightyUpdater ==> row_of_new_instance(n).loader == LoaderS::Vanilla,
        n.loader == LoaderKind::Vanilla ==> row_of_new_instance(n).loader == LoaderS::Vanilla,
        n.loader == LoaderKind::Fabric ==> row_of_new_instance(n).loader == LoaderS::Fabric,
        n.loader == LoaderKind::Forge ==> row_of_new_instance(n).loader == LoaderS::Forge,
        n.loader == LoaderKind::Optifine ==> row_of_new_instance(n).loader == LoaderS::Optifine,
        n.loader == LoaderKind::NeoForge ==> row_of_new_instance(n).loader == LoaderS::NeoForge,
        n.loader == LoaderKind::Quilt ==> row_of_new_instance(n).loader == LoaderS::Quilt,
{
}

} // verus!
