use launcher_core::account::{account_rows, accounts_after_online_login};
use launcher_core::{Account, AppState, InstanceS, LoaderKind, LoaderS, SimpleInstance};

fn offline(name: &str, tag: u32) -> Account<u32> {
    Account { username: name.to_string(), email: None, profile: tag }
}

fn online(name: &str, mail: &str, tag: u32) -> Account<u32> {
    Account { username: name.to_string(), email: Some(mail.to_string()), profile: tag }
}

fn simple(name: &str, loader: LoaderKind) -> SimpleInstance {
    SimpleInstance {
        pid: 0,
        name: name.to_string(),
        version: "1.21.1".to_string(),
        loader,
        loader_version: "0.16.9".to_string(),
        is_run: false,
    }
}

#[test]
fn new_state_is_empty() {
    let st: AppState<u32, u32> = AppState::new();
    assert!(st.accounts().is_empty());
    assert!(st.instances().is_empty());
    assert!(st.instances_for_slint().is_empty());
    assert!(st.current_account().is_none());
}

#[test]
fn created_account_can_log_in_offline() {
    let mut st: AppState<u32, u32> = AppState::new();
    assert!(st.offline_account_available("Steve"));
    let rows = st.account_created(offline("Steve", 1));
    assert_eq!(rows.len(), 1);
    assert_eq!(rows[0].mode, "Offline");
    assert_eq!(rows[0].name, "Steve");
    assert!(!st.offline_account_available("Steve"));
    let shown = st.login_offline_account("Steve").expect("known account");
    assert_eq!(shown.mode, "Offline");
    assert_eq!(shown.name, "Steve");
    assert_eq!(st.current_account().map(|a| a.profile), Some(1));
}

#[test]
fn unknown_offline_login_changes_nothing() {
    let mut st: AppState<u32, u32> = AppState::new();
    st.account_created(offline("Steve", 1));
    st.login_offline_account("Steve");
    assert!(st.login_offline_account("Alex").is_none());
    assert_eq!(st.current_account().map(|a| a.profile), Some(1));
    assert_eq!(st.accounts().len(), 1);
}

#[test]
fn login_picks_first_account_of_a_name() {
    let mut st: AppState<u32, u32> = AppState::new();
    st.account_created(offline("Steve", 1));
    st.account_created(offline("Alex", 2));
    st.account_created(offline("Alex", 3));
    assert_eq!(st.find_account("Alex"), Some(1));
    st.login_offline_account("Alex");
    assert_eq!(st.current_account().map(|a| a.profile), Some(2));
    assert_eq!(st.find_account("Herobrine"), None);
}

#[test]
fn online_login_of_known_account() {
    let mut st: AppState<u32, u32> = AppState::new();
    st.account_created(online("Notch", "notch@example.com", 9));
    let shown = st.login_online_account("Notch").expect("known account");
    assert_eq!(shown.mode, "Online");
    assert_eq!(shown.name, "Notch");
    assert_eq!(st.current_account().map(|a| a.profile), Some(9));
}

#[test]
fn online_login_of_unknown_account_asks_for_authentication() {
    let mut st: AppState<u32, u32> = AppState::new();
    st.account_created(offline("Steve", 1));
    assert!(st.login_online_account("Notch").is_none());
    assert!(st.current_account().is_none());
    assert_eq!(st.accounts().len(), 1);
    let rows = accounts_after_online_login(&"Notch".to_string());
    assert_eq!(rows.len(), 1);
    assert_eq!(rows[0].mode, "Online");
    assert_eq!(rows[0].name, "Notch");
}

#[test]
fn account_rows_follow_email() {
    let accounts = vec![online("Notch", "n@example.com", 1), offline("Steve", 2)];
    let rows = account_rows(&accounts);
    assert_eq!(rows.len(), 2);
    assert_eq!((rows[0].mode.as_str(), rows[0].name.as_str()), ("Online", "Notch"));
    assert_eq!((rows[1].mode.as_str(), rows[1].name.as_str()), ("Offline", "Steve"));
}

#[test]
fn created_account_rows_show_all_accounts() {
    let mut st: AppState<u32, u32> = AppState::new();
    st.account_created(online("Notch", "n@example.com", 1));
    let rows = st.account_created(offline("Steve", 2));
    assert_eq!(rows.len(), 2);
    assert_eq!(rows[0].mode, "Online");
    assert_eq!(rows[1].mode, "Offline");
    assert_eq!(st.account_rows().len(), 2);
}

#[test]
fn created_instance_is_found_and_shown() {
    let mut st: AppState<u32, u32> = AppState::new();
    let shown = st.create_instance(simple("Survival", LoaderKind::Fabric), 10, true).expect("window open");
    assert_eq!(shown.len(), 1);
    assert_eq!(shown[0].name, "Survival");
    assert_eq!(shown[0].version, "1.21.1");
    assert_eq!(shown[0].loader, LoaderS::Fabric);
    assert_eq!(shown[0].loader_version, "0.16.9");
    assert!(!shown[0].is_run);
    let inst = st.get_instance_by_name("Survival").expect("created");
    assert_eq!(inst.version_builder, 10);
    assert!(!inst.is_run);
    assert!(st.get_instance_by_name("Creative").is_none());
}

#[test]
fn updater_instance_row_shows_vanilla() {
    let mut st: AppState<u32, u32> = AppState::new();
    let shown = st.create_instance(simple("Updater", LoaderKind::LightyUpdater), 1, true).unwrap();
    assert_eq!(shown[0].loader, LoaderS::Vanilla);
}

#[test]
fn instance_created_without_window_is_not_shown() {
    let mut st: AppState<u32, u32> = AppState::new();
    assert!(st.create_instance(simple("Hidden", LoaderKind::Forge), 3, false).is_none());
    assert!(st.instances_for_slint().is_empty());
    assert_eq!(st.instances().len(), 1);
    assert_eq!(st.find_instance("Hidden"), Some(0));
}

#[test]
fn instance_lookup_finds_first_of_a_name() {
    let mut st: AppState<u32, u32> = AppState::new();
    st.create_instance(simple("A", LoaderKind::Vanilla), 1, true);
    st.create_instance(simple("B", LoaderKind::Quilt), 2, true);
    let shown = st.create_instance(simple("B", LoaderKind::Forge), 3, true).unwrap();
    assert_eq!(shown.len(), 3);
    assert_eq!(st.get_instance_by_name("B").map(|i| i.version_builder), Some(2));
}

#[test]
fn run_request_needs_instance_and_account() {
    let mut st: AppState<u32, u32> = AppState::new();
    st.create_instance(simple("Survival", LoaderKind::Vanilla), 5, true);
    assert!(st.run_request("Survival").is_none());
    st.account_created(offline("Steve", 7));
    st.login_offline_account("Steve");
    assert!(st.run_request("Creative").is_none());
    let (inst, acc) = st.run_request("Survival").expect("both exist");
    assert_eq!(inst.version_builder, 5);
    assert_eq!(acc.profile, 7);
}

#[test]
fn form_becomes_stopped_instance() {
    let form = InstanceS {
        name: "Modded".to_string(),
        version: "1.20.1".to_string(),
        loader: LoaderS::NeoForge,
        loader_version: "47.1".to_string(),
        is_run: true,
    };
    let s = SimpleInstance::from_form(&form);
    assert_eq!(s.pid, 0);
    assert_eq!(s.name, "Modded");
    assert_eq!(s.version, "1.20.1");
    assert_eq!(s.loader, LoaderKind::NeoForge);
    assert_eq!(s.loader_version, "47.1");
    assert!(!s.is_run);
}

#[test]
fn new_instance_row_uses_form_choice() {
    let s = simple("Updater", LoaderKind::LightyUpdater);
    let row = s.row();
    assert_eq!(row.name, "Updater");
    assert_eq!(row.version, "1.21.1");
    assert_eq!(row.loader, LoaderS::Vanilla);
    assert_eq!(row.loader_version, "0.16.9");
    assert!(!row.is_run);
}

#[test]
fn creation_ignores_pid_and_running_flag() {
    let mut a: AppState<u32, u32> = AppState::new();
    let mut b: AppState<u32, u32> = AppState::new();
    let mut running = simple("Survival", LoaderKind::Forge);
    running.pid = 4242;
    running.is_run = true;
    let ra = a.create_instance(simple("Survival", LoaderKind::Forge), 1, true).unwrap();
    let rb = b.create_instance(running, 1, true).unwrap();
    assert_eq!(ra.len(), rb.len());
    assert_eq!(ra[0].name, rb[0].name);
    assert_eq!(ra[0].loader, rb[0].loader);
    assert!(!rb[0].is_run);
    assert!(!b.instances()[0].is_run);
    assert_eq!(a.instances()[0].name, b.instances()[0].name);
}
