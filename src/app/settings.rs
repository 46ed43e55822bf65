use vstd::prelude::*;

use std::collections::HashMap;

use crate::error::AppError;

verus! {

/// The program's settings, opaque to the library.
#[verifier::external_type_specification]
#[verifier::external_body]
pub struct ExConfig(config::Config);

/// One setting, opaque to the library.
#[verifier::external_type_specification]
#[verifier::external_body]
pub struct ExValue(config::Value);

/// Whether a configuration error is `config::ConfigError::NotFound`.
pub uninterp spec fn config_not_found(e: config::ConfigError) -> bool;

/// What `config::Value::into_string` makes of a setting.
pub uninterp spec fn value_as_string(v: config::Value) -> Result<String, config::ConfigError>;

/// Relies on `config::Value::into_string`: the result depends on the value alone.
pub assume_specification[ config::Value::into_string ](v: config::Value) -> (r: Result<
    String,
    config::ConfigError,
>)
    ensures
        r == value_as_string(v),
;

/// What `config::Value::into_int` makes of a setting.
pub uninterp spec fn value_as_int(v: config::Value) -> Result<i64, config::ConfigError>;

/// Relies on `config::Value::into_int`: the result depends on the value alone.
pub assume_specification[ config::Value::into_int ](v: config::Value) -> (r: Result<
    i64,
    config::ConfigError,
>)
    ensures
        r == value_as_int(v),
;

/// What `config::Value::into_bool` makes of a setting.
pub uninterp spec fn value_as_bool(v: config::Value) -> Result<bool, config::ConfigError>;

/// Relies on `config::Value::into_bool`: the result depends on the value alone.
pub assume_specification[ config::Value::into_bool ](v: config::Value) -> (r: Result<
    bool,
    config::ConfigError,
>)
    ensures
        r == value_as_bool(v),
;

/// What `config::Value::into_table` makes of a setting.
pub uninterp spec fn value_as_table(v: config::Value) -> Result<HashMap<String, config::Value>, config::ConfigError>;

/// Relies on `config::Value::into_table`: the result depends on the value alone.
pub assume_specification[ config::Value::into_table ](v: config::Value) -> (r: Result<
    HashMap<String, config::Value>,
    config::ConfigError,
>)
    ensures
        r == value_as_table(v),
;

/// What `config::Value::into_array` makes of a setting.
pub uninterp spec fn value_as_array(v: config::Value) -> Result<Vec<config::Value>, config::ConfigError>;

/// Relies on `config::Value::into_array`: the result depends on the value alone.
pub assume_specification[ config::Value::into_array ](v: config::Value) -> (r: Result<
    Vec<config::Value>,
    config::ConfigError,
>)
    ensures
        r == value_as_array(v),
;

pub assume_specification[ <config::Value as Clone>::clone ](v: &config::Value) -> config::Value;

/// Relies on `config::Config::get`, asked for a raw `config::Value`.  A
/// table comes back as a fresh map each time, so nothing is said of the
/// outcome: `found` and the `*_of` conversions take it as it comes.
#[verifier::external_body]
fn lookup(conf: &config::Config, key: &str) -> Result<config::Value, config::ConfigError> {
    conf.get::<config::Value>(key)
}

/// Relies on `config::ConfigError::NotFound`: the error of a key that is not
/// set.
#[verifier::external_body]
fn is_not_found(e: &config::ConfigError) -> (r: bool)
    ensures
        r == config_not_found(*e),
{
    matches!(e, config::ConfigError::NotFound(_))
}

/// A looked-up setting: its value, `None` when the key is not set, and a
/// configuration error for any other failure.
pub open spec fn found_of(lookup: Result<config::Value, config::ConfigError>) -> Result<Option<config::Value>, AppError> {
    match lookup {
        Ok(v) => Ok(Some(v)),
        Err(e) => if config_not_found(e) {
            Ok(None)
        } else {
            Err(AppError::ConfigError { source: e })
        },
    }
}

/// Turns the outcome of a lookup into the setting, if there is one.
pub fn found(lookup: Result<config::Value, config::ConfigError>) -> (r: Result<Option<config::Value>, AppError>)
    ensures
        r == found_of(lookup),
{
    match lookup {
        Ok(v) => Ok(Some(v)),
        Err(e) => {
            if is_not_found(&e) {
                Ok(None)
            } else {
                Err(AppError::ConfigError { source: e })
            }
        },
    }
}

/// A setting that may be missing, as text: a missing one stays `None`, one
/// that does not convert is a configuration error.
pub open spec fn string_setting(found: Option<config::Value>) -> Result<Option<String>, AppError> {
    match found {
        None => Ok(None),
        Some(v) => match value_as_string(v) {
            Ok(x) => Ok(Some(x)),
            Err(e) => Err(AppError::ConfigError { source: e }),
        },
    }
}

/// Converts a setting that may be missing to text.
pub fn string_of(found: Option<config::Value>) -> (r: Result<Option<String>, AppError>)
    ensures
        r == string_setting(found),
{
    match found {
        Some(v) => match v.into_string() {
            Ok(x) => Ok(Some(x)),
            Err(source) => Err(AppError::ConfigError { source }),
        },
        None => Ok(None),
    }
}

/// A setting that may be missing, as an integer: a missing one stays `None`, one
/// that does not convert is a configuration error.
pub open spec fn int_setting(found: Option<config::Value>) -> Result<Option<i64>, AppError> {
    match found {
        None => Ok(None),
        Some(v) => match value_as_int(v) {
            Ok(x) => Ok(Some(x)),
            Err(e) => Err(AppError::ConfigError { source: e }),
        },
    }
}

/// Converts a setting that may be missing to an integer.
pub fn int_of(found: Option<config::Value>) -> (r: Result<Option<i64>, AppError>)
    ensures
        r == int_setting(found),
{
    match found {
        Some(v) => match v.into_int() {
            Ok(x) => Ok(Some(x)),
            Err(source) => Err(AppError::ConfigError { source }),
        },
        None => Ok(None),
    }
}

/// A setting that may be missing, as a flag: a missing one stays `None`, one
/// that does not convert is a configuration error.
pub open spec fn bool_setting(found: Option<config::Value>) -> Result<Option<bool>, AppError> {
    match found {
        None => Ok(None),
        Some(v) => match value_as_bool(v) {
            Ok(x) => Ok(Some(x)),
            Err(e) => Err(AppError::ConfigError { source: e }),
        },
    }
}

/// Converts a setting that may be missing to a flag.
pub fn bool_of(found: Option<config::Value>) -> (r: Result<Option<bool>, AppError>)
    ensures
        r == bool_setting(found),
{
    match found {
        Some(v) => match v.into_bool() {
            Ok(x) => Ok(Some(x)),
            Err(source) => Err(AppError::ConfigError { source }),
        },
        None => Ok(None),
    }
}

/// A setting that may be missing, as a table of settings: a missing one stays `None`, one
/// that does not convert is a configuration error.
pub open spec fn table_setting(found: Option<config::Value>) -> Result<Option<HashMap<String, config::Value>>, AppError> {
    match found {
        None => Ok(None),
        Some(v) => match value_as_table(v) {
            Ok(x) => Ok(Some(x)),
            Err(e) => Err(AppError::ConfigError { source: e }),
        },
    }
}

/// Converts a setting that may be missing to a table of settings.
pub fn table_of(found: Option<config::Value>) -> (r: Result<Option<HashMap<String, config::Value>>, AppError>)
    ensures
        r == table_setting(found),
{
    match found {
        Some(v) => match v.into_table() {
            Ok(x) => Ok(Some(x)),
            Err(source) => Err(AppError::ConfigError { source }),
        },
        None => Ok(None),
    }
}

/// A setting that may be missing, as a list of settings: a missing one stays `None`, one
/// that does not convert is a configuration error.
pub open spec fn array_setting(found: Option<config::Value>) -> Result<Option<Vec<config::Value>>, AppError> {
    match found {
        None => Ok(None),
        Some(v) => match value_as_array(v) {
            Ok(x) => Ok(Some(x)),
            Err(e) => Err(AppError::ConfigError { source: e }),
        },
    }
}

/// Converts a setting that may be missing to a list of settings.
pub fn array_of(found: Option<config::Value>) -> (r: Result<Option<Vec<config::Value>>, AppError>)
    ensures
        r == array_setting(found),
{
    match found {
        Some(v) => match v.into_array() {
            Ok(x) => Ok(Some(x)),
            Err(source) => Err(AppError::ConfigError { source }),
        },
        None => Ok(None),
    }
}

/// The setting that a lookup found, converted as `AppConfig::get_str` does.
pub fn string_from_lookup(lookup: Result<config::Value, config::ConfigError>) -> (r: Result<Option<String>, AppError>)
    ensures
        r == match found_of(lookup) {
            Ok(f) => string_setting(f),
            Err(e) => Err(e),
        },
{
    match found(lookup) {
        Ok(f) => string_of(f),
        Err(e) => Err(e),
    }
}

/// The setting that a lookup found, converted as `AppConfig::get_int` does.
pub fn int_from_lookup(lookup: Result<config::Value, config::ConfigError>) -> (r: Result<Option<i64>, AppError>)
    ensures
        r == match found_of(lookup) {
            Ok(f) => int_setting(f),
            Err(e) => Err(e),
        },
{
    match found(lookup) {
        Ok(f) => int_of(f),
        Err(e) => Err(e),
    }
}

/// The setting that a lookup found, converted as `AppConfig::get_bool` does.
pub fn bool_from_lookup(lookup: Result<config::Value, config::ConfigError>) -> (r: Result<Option<bool>, AppError>)
    ensures
        r == match found_of(lookup) {
            Ok(f) => bool_setting(f),
            Err(e) => Err(e),
        },
{
    match found(lookup) {
        Ok(f) => bool_of(f),
        Err(e) => Err(e),
    }
}

/// The setting that a lookup found, converted as `AppConfig::get_table` does.
pub fn table_from_lookup(lookup: Result<config::Value, config::ConfigError>) -> (r: Result<Option<HashMap<String, config::Value>>, AppError>)
    ensures
        r == match found_of(lookup) {
            Ok(f) => table_setting(f),
            Err(e) => Err(e),
        },
{
    match found(lookup) {
        Ok(f) => table_of(f),
        Err(e) => Err(e),
    }
}

/// The setting that a lookup found, converted as `AppConfig::get_array` does.
pub fn array_from_lookup(lookup: Result<config::Value, config::ConfigError>) -> (r: Result<Option<Vec<config::Value>>, AppError>)
    ensures
        r == match found_of(lookup) {
            Ok(f) => array_setting(f),
            Err(e) => Err(e),
        },
{
    match found(lookup) {
        Ok(f) => array_of(f),
        Err(e) => Err(e),
    }
}

/// The program's settings.
#[derive(Debug)]
pub struct AppConfig {
    pub conf: config::Config,
}

impl AppConfig {
    /// The setting at `key`, or `None` when it is not set.
    pub fn get(&self, key: &str) -> (r: Result<Option<config::Value>, AppError>)
        ensures
            r is Err ==> r->Err_0 is ConfigError,
    {
        found(lookup(&self.conf, key))
    }

    /// The setting at `key` as text.
    pub fn get_str(&self, key: &str) -> (r: Result<Option<String>, AppError>)
        ensures
            r is Err ==> r->Err_0 is ConfigError,
    {
        string_from_lookup(lookup(&self.conf, key))
    }

    /// The setting at `key` as an integer.
    pub fn get_int(&self, key: &str) -> (r: Result<Option<i64>, AppError>)
        ensures
            r is Err ==> r->Err_0 is ConfigError,
    {
        int_from_lookup(lookup(&self.conf, key))
    }

    /// The setting at `key` as a flag.
    pub fn get_bool(&self, key: &str) -> (r: Result<Option<bool>, AppError>)
        ensures
            r is Err ==> r->Err_0 is ConfigError,
    {
        bool_from_lookup(lookup(&self.conf, key))
    }

    /// The setting at `key` as a table of settings.
    pub fn get_table(&self, key: &str) -> (r: Result<Option<Table>, AppError>)
        ensures
            r is Err ==> r->Err_0 is ConfigError,
    {
        match table_from_lookup(lookup(&self.conf, key)) {
            Ok(Some(m)) => Ok(Some(Table(m))),
            Ok(None) => Ok(None),
            Err(e) => Err(e),
        }
    }

    /// The setting at `key` as a list of settings.
    pub fn get_array(&self, key: &str) -> (r: Result<Option<Vec<config::Value>>, AppError>)
        ensures
            r is Err ==> r->Err_0 is ConfigError,
    {
        array_from_lookup(lookup(&self.conf, key))
    }
}

/// A table of settings.
#[derive(Debug, Default, Clone)]
pub struct Table(HashMap<String, config::Value>);

impl Table {
    pub closed spec fn entries(&self) -> Map<String, config::Value> {
        self.0@
    }

    pub fn new() -> (r: Table)
        ensures
            r.entries() == Map::<String, config::Value>::empty(),
    {
        Table(HashMap::new())
    }

    pub fn into_inner(self) -> (r: HashMap<String, config::Value>)
        ensures
            r@ == self.entries(),
    {
        self.0
    }

    /// A copy of the setting named `key`, if there is one.
    pub fn get(&self, key: &str) -> Option<config::Value> {
        match self.0.get(key) {
            Some(val) => Some(val.clone()),
            None => None,
        }
    }

    /// The setting named `key` as text.
    pub fn get_str(&self, key: &str) -> (r: Result<Option<String>, AppError>)
        ensures
            r is Err ==> r->Err_0 is ConfigError,
    {
        string_of(self.get(key))
    }

    /// The setting named `key` as an integer.
    pub fn get_int(&self, key: &str) -> (r: Result<Option<i64>, AppError>)
        ensures
            r is Err ==> r->Err_0 is ConfigError,
    {
        int_of(self.get(key))
    }

    /// The setting named `key` as a flag.
    pub fn get_bool(&self, key: &str) -> (r: Result<Option<bool>, AppError>)
        ensures
            r is Err ==> r->Err_0 is ConfigError,
    {
        bool_of(self.get(key))
    }

    /// The setting named `key` as a table of settings.
    pub fn get_table(&self, key: &str) -> (r: Result<Option<HashMap<String, config::Value>>, AppError>)
        ensures
            r is Err ==> r->Err_0 is ConfigError,
    {
        table_of(self.get(key))
    }

    /// The setting named `key` as a list of settings.
    pub fn get_array(&self, key: &str) -> (r: Result<Option<Vec<config::Value>>, AppError>)
        ensures
            r is Err ==> r->Err_0 is ConfigError,
    {
        array_of(self.get(key))
    }
}

} // verus!
