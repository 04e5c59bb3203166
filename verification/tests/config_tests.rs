use solar_telemetry::config::{
    default_max_connections, default_opt_string, default_pirate_wx_interval,
    default_pirate_wx_interval_unit, default_pirate_wx_offset, default_pvs6_interval,
    default_pvs6_interval_unit, default_pvs6_offset, default_string, verify_mysql_conf,
    verify_pirate_wx_conf, verify_pvs6_conf, Conf, ConfError, MySqlConf, MySqlLogin, PirateWxConf,
    Pvs6Conf,
};

fn wx_conf() -> PirateWxConf {
    PirateWxConf {
        lat: "40.0".to_string(),
        long: "-105.0".to_string(),
        units: "us".to_string(),
        api_key_path: String::new(),
        api_key: "SECRET-REDACTED".to_string(),
        interval: 5,
        interval_unit: 'm',
        offset: 0,
    }
}

fn mysql_conf_direct() -> MySqlConf {
    MySqlConf {
        login_info_loc: String::new(),
        login_path: String::new(),
        host: "localhost".to_string(),
        port: "3306".to_string(),
        database: "solar".to_string(),
        user: "collector".to_string(),
        password: "SECRET-REDACTED".to_string(),
        max_connections: 75,
    }
}

#[test]
fn defaults() {
    assert_eq!(default_pirate_wx_interval(), 5);
    assert_eq!(default_pirate_wx_interval_unit(), 'm');
    assert_eq!(default_pirate_wx_offset(), 0);
    assert_eq!(default_pvs6_interval(), 5);
    assert_eq!(default_pvs6_interval_unit(), 'm');
    assert_eq!(default_pvs6_offset(), -200);
    assert_eq!(default_max_connections(), 75);
    assert_eq!(default_string(), "");
    assert_eq!(default_opt_string(), None);
}

#[test]
fn fresh_conf_uses_defaults() {
    let conf = Conf::new();
    assert_eq!(conf.pirate_wx.interval, 5);
    assert_eq!(conf.pirate_wx.interval_unit, 'm');
    assert_eq!(conf.pirate_wx.offset, 0);
    assert_eq!(conf.pirate_wx.lat, "");
    assert_eq!(conf.pvs6.get_device_interval, 5);
    assert_eq!(conf.pvs6.get_device_interval_unit, 'm');
    assert_eq!(conf.pvs6.get_device_offset, -200);
    assert_eq!(conf.pvs6.host, "");
    assert_eq!(conf.mysql.max_connections, 75);
    assert_eq!(conf.mysql.database, "");
}

#[test]
fn pirate_wx_missing_params() {
    let mut conf = wx_conf();
    conf.lat = String::new();
    assert_eq!(verify_pirate_wx_conf(conf, None).unwrap_err(), ConfError::MissingPirateWxParams);
    let mut conf = wx_conf();
    conf.units = String::new();
    assert_eq!(verify_pirate_wx_conf(conf, None).unwrap_err(), ConfError::MissingPirateWxParams);
}

#[test]
fn pirate_wx_missing_key() {
    let mut conf = wx_conf();
    conf.api_key = String::new();
    conf.api_key_path = String::new();
    assert_eq!(verify_pirate_wx_conf(conf, None).unwrap_err(), ConfError::MissingPirateWxKey);
}

#[test]
fn pirate_wx_bad_interval_unit() {
    let mut conf = wx_conf();
    conf.interval_unit = 'q';
    assert_eq!(verify_pirate_wx_conf(conf, None).unwrap_err(), ConfError::InvalidIntervalUnit);
}

#[test]
fn pirate_wx_inline_key_is_kept() {
    let conf = wx_conf();
    let out = verify_pirate_wx_conf(conf, None).unwrap();
    assert_eq!(out.api_key, "SECRET-REDACTED");
    assert_eq!(out.lat, "40.0");
}

#[test]
fn pirate_wx_key_read_from_file() {
    let mut conf = wx_conf();
    conf.api_key = String::new();
    conf.api_key_path = "/etc/collector/key".to_string();
    let out = verify_pirate_wx_conf(conf, Some("SECRET-REDACTED".to_string())).unwrap();
    assert_eq!(out.api_key, "SECRET-REDACTED");
    assert_eq!(out.api_key_path, "/etc/collector/key");
}

#[test]
fn pirate_wx_unreadable_key_file() {
    let mut conf = wx_conf();
    conf.api_key = String::new();
    conf.api_key_path = "/etc/collector/key".to_string();
    assert_eq!(
        verify_pirate_wx_conf(conf, None).unwrap_err(),
        ConfError::PirateWxKeyFileUnreadable
    );
}

#[test]
fn pvs6_conf_checks() {
    let good = Pvs6Conf {
        host: "http://192.168.1.77".to_string(),
        get_device_interval: 5,
        get_device_interval_unit: 'm',
        get_device_offset: -200,
    };
    assert!(verify_pvs6_conf(&good).is_ok());

    let mut missing_host = Pvs6Conf::new();
    missing_host.get_device_interval_unit = 'm';
    assert_eq!(verify_pvs6_conf(&missing_host).unwrap_err(), ConfError::MissingPvs6Host);

    let mut bad_unit = good;
    bad_unit.get_device_interval_unit = 'z';
    assert_eq!(verify_pvs6_conf(&bad_unit).unwrap_err(), ConfError::InvalidIntervalUnit);
}

#[test]
fn mysql_missing_database() {
    let mut conf = mysql_conf_direct();
    conf.database = String::new();
    assert_eq!(verify_mysql_conf(conf, None).unwrap_err(), ConfError::MissingMySqlDatabase);
}

#[test]
fn mysql_direct_parameters_pass_through() {
    let out = verify_mysql_conf(mysql_conf_direct(), None).unwrap();
    assert_eq!(out.host, "localhost");
    assert_eq!(out.port, "3306");
    assert_eq!(out.user, "collector");
    assert_eq!(out.password, "SECRET-REDACTED");
}

#[test]
fn mysql_missing_login_location() {
    let mut conf = mysql_conf_direct();
    conf.user = String::new();
    // login_info_loc and login_path are empty too.
    assert_eq!(verify_mysql_conf(conf, None).unwrap_err(), ConfError::MissingMySqlLoginInfo);
}

#[test]
fn mysql_login_file_unavailable() {
    let mut conf = mysql_conf_direct();
    conf.user = String::new();
    conf.login_info_loc = "/home/collector/.mylogin.cnf".to_string();
    conf.login_path = "client".to_string();
    assert_eq!(verify_mysql_conf(conf, None).unwrap_err(), ConfError::MySqlLoginFileUnavailable);
}

#[test]
fn mysql_fill_from_login_file() {
    let mut conf = mysql_conf_direct();
    conf.host = String::new();
    conf.password = String::new();
    conf.login_info_loc = "/home/collector/.mylogin.cnf".to_string();
    conf.login_path = "client".to_string();
    let login = MySqlLogin {
        host: Some("db.example".to_string()),
        port: Some("3307".to_string()),
        user: Some("other".to_string()),
        password: Some("SECRET-REDACTED".to_string()),
    };
    let out = verify_mysql_conf(conf, Some(login)).unwrap();
    // Empty fields are filled from the login file; present ones are kept.
    assert_eq!(out.host, "db.example");
    assert_eq!(out.port, "3306");
    assert_eq!(out.user, "collector");
    assert_eq!(out.password, "SECRET-REDACTED");
    assert_eq!(out.database, "solar");
}

#[test]
fn mysql_login_file_missing_fields() {
    let empty_login = || MySqlLogin { host: None, port: None, user: None, password: None };

    let mut conf = mysql_conf_direct();
    conf.host = String::new();
    conf.login_info_loc = "/x".to_string();
    conf.login_path = "client".to_string();
    assert_eq!(
        verify_mysql_conf(conf, Some(empty_login())).unwrap_err(),
        ConfError::MissingMySqlHost
    );

    let mut conf = mysql_conf_direct();
    conf.port = String::new();
    conf.login_info_loc = "/x".to_string();
    conf.login_path = "client".to_string();
    assert_eq!(
        verify_mysql_conf(conf, Some(empty_login())).unwrap_err(),
        ConfError::MissingMySqlPort
    );

    let mut conf = mysql_conf_direct();
    conf.user = String::new();
    conf.login_info_loc = "/x".to_string();
    conf.login_path = "client".to_string();
    assert_eq!(
        verify_mysql_conf(conf, Some(empty_login())).unwrap_err(),
        ConfError::MissingMySqlUser
    );

    let mut conf = mysql_conf_direct();
    conf.password = String::new();
    conf.login_info_loc = "/x".to_string();
    conf.login_path = "client".to_string();
    assert_eq!(
        verify_mysql_conf(conf, Some(empty_login())).unwrap_err(),
        ConfError::MissingMySqlPassword
    );
}
