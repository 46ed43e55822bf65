use vstd::prelude::*;

use crate::app::settings::AppConfig;
use crate::error::AppError;

verus! {

/// The user endpoints and whether new users may register.
#[derive(Debug, Clone, Default)]
pub struct UserService {
    pub allow_register: bool,
}

impl UserService {
    /// Reads `User.allow_register`; an unset flag is off.
    pub fn load_app_config(&mut self, config: &AppConfig, _prefix: &str) -> (r: Result<(), AppError>)
        ensures
            r is Err ==> r->Err_0 is ConfigError,
    {
        match config.get_bool("User.allow_register") {
            Ok(flag) => {
                self.allow_register = match flag {
                    Some(on) => on,
                    None => false,
                };
                Ok(())
            },
            Err(e) => Err(e),
        }
    }
}

/// The user endpoints with registration closed.
pub fn new_factory() -> (r: UserService)
    ensures
        !r.allow_register,
{
    UserService { allow_register: false }
}

} // verus!
