//! Configuration records and their startup validation.
//!
//! Three families of settings drive the collector: the weather feed, the
//! photovoltaic supervisor poll, and the database connection.  Validation
//! only checks that required parameters are present and that interval units
//! are one of 'd', 'h', 'm', 's'; it never checks that values actually work.
//! Reading files and parsing stored login credentials happen outside this
//! crate; the results are handed in as plain optional strings.

use vstd::prelude::*;

use crate::schedule::valid_interval_unit;

verus! {

/// A configuration failure.  Every variant is fatal at startup: the process
/// cannot proceed on a broken configuration.
#[derive(Clone, Copy, Debug, PartialEq, Eq, Structural)]
pub enum ConfError {
    /// Latitude, longitude or units of the weather feed are missing or empty.
    MissingPirateWxParams,
    /// Neither a weather API key nor a path to one was supplied.
    MissingPirateWxKey,
    /// The weather API key had to come from a file, and it could not be read.
    PirateWxKeyFileUnreadable,
    /// A repeat-interval unit is not one of 'd', 'h', 'm', 's'.
    InvalidIntervalUnit,
    /// The supervisor host is missing or empty.
    MissingPvs6Host,
    /// The database name is missing or empty.
    MissingMySqlDatabase,
    /// Connection parameters are incomplete and no login file location and
    /// path were supplied to fall back on.
    MissingMySqlLoginInfo,
    /// The stored login file was missing, unreadable or unparseable.
    MySqlLoginFileUnavailable,
    /// The host is missing from both the configuration and the login file.
    MissingMySqlHost,
    /// The port is missing from both the configuration and the login file.
    MissingMySqlPort,
    /// The user is missing from both the configuration and the login file.
    MissingMySqlUser,
    /// The password is missing from both the configuration and the login file.
    MissingMySqlPassword,
}

/// Settings of the weather feed: where to query, how often, and the API key
/// (either inline or as a path to a key file).  `offset` is in milliseconds.
#[derive(Debug)]
pub struct PirateWxConf {
    pub lat: String,
    pub long: String,
    pub units: String,
    pub api_key_path: String,
    pub api_key: String,
    pub interval: u64,
    pub interval_unit: char,
    pub offset: i64,
}

/// Settings of the supervisor poll: the device host, and the repeat cadence
/// of the device-data request.  `get_device_offset` is in milliseconds.
#[derive(Debug)]
pub struct Pvs6Conf {
    pub host: String,
    pub get_device_interval: u64,
    pub get_device_interval_unit: char,
    pub get_device_offset: i64,
}

/// Database connection settings.  Either `host`, `port`, `user` and
/// `password` are given directly, or they are filled in from a stored login
/// file named by `login_info_loc` and `login_path`.
#[derive(Debug)]
pub struct MySqlConf {
    pub login_info_loc: String,
    pub login_path: String,
    pub host: String,
    pub port: String,
    pub database: String,
    pub user: String,
    pub password: String,
    pub max_connections: u32,
}

/// The whole configuration.
#[derive(Debug)]
pub struct Conf {
    pub pirate_wx: PirateWxConf,
    pub pvs6: Pvs6Conf,
    pub mysql: MySqlConf,
}

pub fn default_pirate_wx_interval() -> (r: u64)
    ensures
        r == 5,
{
    5
}

pub fn default_pirate_wx_interval_unit() -> (r: char)
    ensures
        r == 'm',
{
    'm'
}

pub fn default_pirate_wx_offset() -> (r: i64)
    ensures
        r == 0,
{
    0
}

pub fn default_pvs6_interval() -> (r: u64)
    ensures
        r == 5,
{
    5
}

pub fn default_pvs6_interval_unit() -> (r: char)
    ensures
        r == 'm',
{
    'm'
}

pub fn default_pvs6_offset() -> (r: i64)
    ensures
        r == -200,
{
    -200
}

pub fn default_max_connections() -> (r: u32)
    ensures
        r == 75,
{
    75
}

pub fn default_string() -> (r: String)
    ensures
        r@ == Seq::<char>::empty(),
{
    String::new()
}

pub fn default_opt_string() -> (r: Option<String>)
    ensures
        r is None,
{
    None
}

impl PirateWxConf {
    pub fn new() -> (r: Self)
        ensures
            r.lat@.len() == 0,
            r.long@.len() == 0,
            r.units@.len() == 0,
            r.api_key_path@.len() == 0,
            r.api_key@.len() == 0,
            r.interval == 5,
            r.interval_unit == 'm',
            r.offset == 0,
    {
        PirateWxConf {
            lat: String::new(),
            long: String::new(),
            units: String::new(),
            api_key_path: String::new(),
            api_key: String::new(),
            interval: 5,
            interval_unit: 'm',
            offset: 0,
        }
    }
}

impl Pvs6Conf {
    pub fn new() -> (r: Self)
        ensures
            r.host@.len() == 0,
            r.get_device_interval == 5,
            r.get_device_interval_unit == 'm',
            r.get_device_offset == -200,
    {
        Pvs6Conf {
            host: String::new(),
            get_device_interval: 5,
            get_device_interval_unit: 'm',
            get_device_offset: -200,
        }
    }
}

impl MySqlConf {
    pub fn new() -> (r: Self)
        ensures
            r.login_info_loc@.len() == 0,
            r.login_path@.len() == 0,
            r.host@.len() == 0,
            r.port@.len() == 0,
            r.database@.len() == 0,
            r.user@.len() == 0,
            r.password@.len() == 0,
            r.max_connections == 75,
    {
        MySqlConf {
            login_info_loc: String::new(),
            login_path: String::new(),
            host: String::new(),
            port: String::new(),
            database: String::new(),
            user: String::new(),
            password: String::new(),
            max_connections: 75,
        }
    }
}

impl Conf {
    pub fn new() -> (r: Self)
        ensures
            r.pirate_wx.interval == 5,
            r.pirate_wx.interval_unit == 'm',
            r.pirate_wx.offset == 0,
            r.pvs6.get_device_interval == 5,
            r.pvs6.get_device_interval_unit == 'm',
            r.pvs6.get_device_offset == -200,
            r.mysql.max_connections == 75,
    {
        Conf { pirate_wx: PirateWxConf::new(), pvs6: Pvs6Conf::new(), mysql: MySqlConf::new() }
    }
}

/// Latitude, longitude and units of the weather feed are all present.
pub open spec fn pirate_wx_params_present(c: PirateWxConf) -> bool {
    c.lat@.len() > 0 && c.long@.len() > 0 && c.units@.len() > 0
}

/// Checks the weather-feed settings and resolves the API key.  When the key
/// is absent from the settings it must come from the key file; the caller
/// reads that file and passes its content as `api_key_from_file` (`None` when
/// it could not be read).
pub fn verify_pirate_wx_conf(conf: PirateWxConf, api_key_from_file: Option<String>) -> (r: Result<
    PirateWxConf,
    ConfError,
>)
    ensures
        !pirate_wx_params_present(conf) ==> r == Result::<PirateWxConf, ConfError>::Err(
            ConfError::MissingPirateWxParams,
        ),
        pirate_wx_params_present(conf) && conf.api_key@.len() == 0 && conf.api_key_path@.len() == 0
            ==> r == Result::<PirateWxConf, ConfError>::Err(ConfError::MissingPirateWxKey),
        pirate_wx_params_present(conf) && !(conf.api_key@.len() == 0 && conf.api_key_path@.len()
            == 0) && !valid_interval_unit(conf.interval_unit) ==> r == Result::<
            PirateWxConf,
            ConfError,
        >::Err(ConfError::InvalidIntervalUnit),
        pirate_wx_params_present(conf) && conf.api_key@.len() > 0 && valid_interval_unit(
            conf.interval_unit,
        ) ==> r == Result::<PirateWxConf, ConfError>::Ok(conf),
        pirate_wx_params_present(conf) && conf.api_key@.len() == 0 && conf.api_key_path@.len() > 0
            && valid_interval_unit(conf.interval_unit) && api_key_from_file is None ==> r
            == Result::<PirateWxConf, ConfError>::Err(ConfError::PirateWxKeyFileUnreadable),
        pirate_wx_params_present(conf) && conf.api_key@.len() == 0 && conf.api_key_path@.len() > 0
            && valid_interval_unit(conf.interval_unit) && api_key_from_file is Some ==> {
            &&& r is Ok
            &&& r->Ok_0.api_key == api_key_from_file->0
            &&& r->Ok_0.lat == conf.lat
            &&& r->Ok_0.long == conf.long
            &&& r->Ok_0.units == conf.units
            &&& r->Ok_0.api_key_path == conf.api_key_path
            &&& r->Ok_0.interval == conf.interval
            &&& r->Ok_0.interval_unit == conf.interval_unit
            &&& r->Ok_0.offset == conf.offset
        },
{
    if conf.lat.as_str().is_empty() || conf.long.as_str().is_empty()
        || conf.units.as_str().is_empty() {
        Err(ConfError::MissingPirateWxParams)
    } else if conf.api_key.as_str().is_empty() && conf.api_key_path.as_str().is_empty() {
        Err(ConfError::MissingPirateWxKey)
    } else if !(conf.interval_unit == 'd' || conf.interval_unit == 'h' || conf.interval_unit == 'm'
        || conf.interval_unit == 's') {
        Err(ConfError::InvalidIntervalUnit)
    } else if !conf.api_key.as_str().is_empty() {
        Ok(conf)
    } else {
        match api_key_from_file {
            Some(api) => Ok(PirateWxConf { api_key: api, ..conf }),
            None => Err(ConfError::PirateWxKeyFileUnreadable),
        }
    }
}

/// Checks the supervisor-poll settings: the host must be present and the
/// interval unit must be one of 'd', 'h', 'm', 's'.
pub fn verify_pvs6_conf(pvs6_conf: &Pvs6Conf) -> (r: Result<(), ConfError>)
    ensures
        pvs6_conf.host@.len() == 0 ==> r == Result::<(), ConfError>::Err(ConfError::MissingPvs6Host),
        pvs6_conf.host@.len() > 0 && !valid_interval_unit(pvs6_conf.get_device_interval_unit) ==> r
            == Result::<(), ConfError>::Err(ConfError::InvalidIntervalUnit),
        pvs6_conf.host@.len() > 0 && valid_interval_unit(pvs6_conf.get_device_interval_unit) ==> r
            is Ok,
{
    if pvs6_conf.host.as_str().is_empty() {
        Err(ConfError::MissingPvs6Host)
    } else if !(pvs6_conf.get_device_interval_unit == 'd' || pvs6_conf.get_device_interval_unit
        == 'h' || pvs6_conf.get_device_interval_unit == 'm' || pvs6_conf.get_device_interval_unit
        == 's') {
        Err(ConfError::InvalidIntervalUnit)
    } else {
        Ok(())
    }
}

/// Connection parameters read from a stored login file, each possibly absent.
#[derive(Debug)]
pub struct MySqlLogin {
    pub host: Option<String>,
    pub port: Option<String>,
    pub user: Option<String>,
    pub password: Option<String>,
}

/// Host, port, user and password are all given directly.
pub open spec fn mysql_direct_complete(c: MySqlConf) -> bool {
    c.host@.len() > 0 && c.user@.len() > 0 && c.password@.len() > 0 && c.port@.len() > 0
}

/// Both the login file location and the login path are present.
pub open spec fn mysql_login_location_present(c: MySqlConf) -> bool {
    c.login_info_loc@.len() > 0 && c.login_path@.len() > 0
}

/// Checks the database settings and completes them.  The database name must
/// always be present.  When host, port, user and password are all given they
/// are used as they are; otherwise each missing one is filled in from the
/// stored login file, whose parsed content the caller passes as `login`
/// (`None` when the file was missing or unreadable).
pub fn verify_mysql_conf(mysql_conf: MySqlConf, login: Option<MySqlLogin>) -> (r: Result<
    MySqlConf,
    ConfError,
>)
    ensures
        mysql_conf.database@.len() == 0 ==> r == Result::<MySqlConf, ConfError>::Err(
            ConfError::MissingMySqlDatabase,
        ),
        mysql_conf.database@.len() > 0 && mysql_direct_complete(mysql_conf) ==> r == Result::<
            MySqlConf,
            ConfError,
        >::Ok(mysql_conf),
        mysql_conf.database@.len() > 0 && !mysql_direct_complete(mysql_conf)
            && !mysql_login_location_present(mysql_conf) ==> r == Result::<MySqlConf, ConfError>::Err(
            ConfError::MissingMySqlLoginInfo,
        ),
        mysql_conf.database@.len() > 0 && !mysql_direct_complete(mysql_conf)
            && mysql_login_location_present(mysql_conf) && login is None ==> r == Result::<
            MySqlConf,
            ConfError,
        >::Err(ConfError::MySqlLoginFileUnavailable),
        mysql_conf.database@.len() > 0 && !mysql_direct_complete(mysql_conf)
            && mysql_login_location_present(mysql_conf) && login is Some ==> {
            let lg = login->0;
            &&& mysql_conf.host@.len() == 0 && lg.host is None ==> r == Result::<
                MySqlConf,
                ConfError,
            >::Err(ConfError::MissingMySqlHost)
            &&& !(mysql_conf.host@.len() == 0 && lg.host is None) && mysql_conf.port@.len() == 0
                && lg.port is None ==> r == Result::<MySqlConf, ConfError>::Err(
                ConfError::MissingMySqlPort,
            )
            &&& !(mysql_conf.host@.len() == 0 && lg.host is None) && !(mysql_conf.port@.len() == 0
                && lg.port is None) && mysql_conf.user@.len() == 0 && lg.user is None ==> r
                == Result::<MySqlConf, ConfError>::Err(ConfError::MissingMySqlUser)
            &&& !(mysql_conf.host@.len() == 0 && lg.host is None) && !(mysql_conf.port@.len() == 0
                && lg.port is None) && !(mysql_conf.user@.len() == 0 && lg.user is None) && (
            mysql_conf.password@.len() == 0 && lg.password is None) ==> r == Result::<
                MySqlConf,
                ConfError,
            >::Err(ConfError::MissingMySqlPassword)
            &&& !(mysql_conf.host@.len() == 0 && lg.host is None) && !(mysql_conf.port@.len() == 0
                && lg.port is None) && !(mysql_conf.user@.len() == 0 && lg.user is None) && !(
            mysql_conf.password@.len() == 0 && lg.password is None) ==> {
                &&& r is Ok
                &&& r->Ok_0.host == (if mysql_conf.host@.len() > 0 {
                    mysql_conf.host
                } else {
                    lg.host->0
                })
                &&& r->Ok_0.port == (if mysql_conf.port@.len() > 0 {
                    mysql_conf.port
                } else {
                    lg.port->0
                })
                &&& r->Ok_0.user == (if mysql_conf.user@.len() > 0 {
                    mysql_conf.user
                } else {
                    lg.user->0
                })
                &&& r->Ok_0.password == (if mysql_conf.password@.len() > 0 {
                    mysql_conf.password
                } else {
                    lg.password->0
                })
                &&& r->Ok_0.login_info_loc == mysql_conf.login_info_loc
                &&& r->Ok_0.login_path == mysql_conf.login_path
                &&& r->Ok_0.database == mysql_conf.database
                &&& r->Ok_0.max_connections == mysql_conf.max_connections
            }
        },
{
    if mysql_conf.database.as_str().is_empty() {
        return Err(ConfError::MissingMySqlDatabase);
    }
    if !mysql_conf.host.as_str().is_empty() && !mysql_conf.user.as_str().is_empty()
        && !mysql_conf.password.as_str().is_empty() && !mysql_conf.port.as_str().is_empty() {
        return Ok(mysql_conf);
    }
    if mysql_conf.login_info_loc.as_str().is_empty() || mysql_conf.login_path.as_str().is_empty() {
        return Err(ConfError::MissingMySqlLoginInfo);
    }
    let lg = match login {
        Some(lg) => lg,
        None => { return Err(ConfError::MySqlLoginFileUnavailable) },
    };
    let host = if !mysql_conf.host.as_str().is_empty() {
        mysql_conf.host
    } else {
        match lg.host {
            Some(h) => h,
            None => { return Err(ConfError::MissingMySqlHost) },
        }
    };
    let port = if !mysql_conf.port.as_str().is_empty() {
        mysql_conf.port
    } else {
        match lg.port {
            Some(p) => p,
            None => { return Err(ConfError::MissingMySqlPort) },
        }
    };
    let user = if !mysql_conf.user.as_str().is_empty() {
        mysql_conf.user
    } else {
        match lg.user {
            Some(u) => u,
            None => { return Err(ConfError::MissingMySqlUser) },
        }
    };
    let password = if !mysql_conf.password.as_str().is_empty() {
        mysql_conf.password
    } else {
        match lg.password {
            Some(pw) => pw,
            None => { return Err(ConfError::MissingMySqlPassword) },
        }
    };
    Ok(
        MySqlConf {
            login_info_loc: mysql_conf.login_info_loc,
            login_path: mysql_conf.login_path,
            host,
            port,
            database: mysql_conf.database,
            user,
            password,
            max_connections: mysql_conf.max_connections,
        },
    )
}

} // verus!
