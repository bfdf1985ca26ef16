use mssql_tiberius_bridge::config::Config;
use mssql_tiberius_bridge::pool::{RecyclingMethod, TdsManager};

#[test]
fn native_reset_is_default_and_ping_is_explicit() {
    let manager = TdsManager::new(Config::new());
    assert_eq!(manager.recycling_method(), RecyclingMethod::Reset);
    let manager = manager.with_recycling_method(RecyclingMethod::Ping);
    assert_eq!(manager.recycling_method(), RecyclingMethod::Ping);
    assert_eq!(manager.config().get_addr(), "localhost:1433");
}

#[test]
fn recycling_method_default_is_reset() {
    assert_eq!(RecyclingMethod::default(), RecyclingMethod::Reset);
}
