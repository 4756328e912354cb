//! Connection configuration: the gateway addresses, credentials and
//! subscription list, with the defaulting and validation applied when the
//! configuration is assembled from the environment.
//!
//! Reading the environment is the runtime's affair; it hands the raw values
//! here, and `from_values` decides defaults and rejects missing credentials.

use vstd::prelude::*;

use crate::error::{CtpError, CtpResult};

verus! {

/// The client's configuration.
#[derive(Debug, Clone)]
pub struct CtpConfig {
    /// Market-data front address.
    pub md_front_address: String,
    /// Trader front address.
    pub trader_front_address: String,
    /// Broker identifier.
    pub broker_id: String,
    /// Investor identifier.
    pub investor_id: String,
    /// Password.
    pub password: String,
    /// Working directory for the native layer's session bookkeeping.
    pub flow_path: String,
    /// Instruments to subscribe to.
    pub instruments: Vec<String>,
    /// Application identifier.
    pub app_id: String,
    /// Authentication code.
    pub auth_code: String,
    /// Product information.
    pub product_info: String,
}

impl CtpConfig {
    /// Assembles a configuration from optional environment values: absent
    /// addresses, broker and flow path get their defaults, absent optional
    /// credentials stay empty, and a missing investor id or password is
    /// rejected — exactly then does this fail.
    pub fn from_values(
        md_front_address: Option<String>,
        trader_front_address: Option<String>,
        broker_id: Option<String>,
        investor_id: Option<String>,
        password: Option<String>,
        flow_path: Option<String>,
        instruments: Vec<String>,
        app_id: Option<String>,
        auth_code: Option<String>,
        product_info: Option<String>,
    ) -> (r: CtpResult<CtpConfig>)
        ensures
            r is Ok <==> (investor_id is Some && password is Some),
            r matches Ok(c) ==> {
                &&& c.md_front_address@ == (match md_front_address {
                    Some(s) => s@,
                    None => "tcp://121.37.80.177:20004"@,
                })
                &&& c.trader_front_address@ == (match trader_front_address {
                    Some(s) => s@,
                    None => "tcp://121.37.80.177:20002"@,
                })
                &&& c.broker_id@ == (match broker_id {
                    Some(s) => s@,
                    None => "9999"@,
                })
                &&& Some(c.investor_id) == investor_id
                &&& Some(c.password) == password
                &&& c.flow_path@ == (match flow_path {
                    Some(s) => s@,
                    None => "./flow"@,
                })
                &&& c.instruments == instruments
                &&& c.app_id@ == (match app_id {
                    Some(s) => s@,
                    None => ""@,
                })
                &&& c.auth_code@ == (match auth_code {
                    Some(s) => s@,
                    None => ""@,
                })
                &&& c.product_info@ == (match product_info {
                    Some(s) => s@,
                    None => ""@,
                })
            },
            r matches Err(e) ==> (e is InvalidParameterError),
    {
        let investor_id = match investor_id {
            Some(s) => s,
            None => {
                return Err(
                    CtpError::InvalidParameterError(
                        "the investor id must be set in the environment".to_string(),
                    ),
                );
            },
        };
        let password = match password {
            Some(s) => s,
            None => {
                return Err(
                    CtpError::InvalidParameterError(
                        "the password must be set in the environment".to_string(),
                    ),
                );
            },
        };
        let md_front_address = match md_front_address {
            Some(s) => s,
            None => "tcp://121.37.80.177:20004".to_string(),
        };
        let trader_front_address = match trader_front_address {
            Some(s) => s,
            None => "tcp://121.37.80.177:20002".to_string(),
        };
        let broker_id = match broker_id {
            Some(s) => s,
            None => "9999".to_string(),
        };
        let flow_path = match flow_path {
            Some(s) => s,
            None => "./flow".to_string(),
        };
        let app_id = match app_id {
            Some(s) => s,
            None => "".to_string(),
        };
        let auth_code = match auth_code {
            Some(s) => s,
            None => "".to_string(),
        };
        let product_info = match product_info {
            Some(s) => s,
            None => "".to_string(),
        };
        Ok(
            CtpConfig {
                md_front_address,
                trader_front_address,
                broker_id,
                investor_id,
                password,
                flow_path,
                instruments,
                app_id,
                auth_code,
                product_info,
            },
        )
    }
}

} // verus!
